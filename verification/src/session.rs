//! The transitions of an update [`Session`].
use vstd::prelude::*;

use crate::container::{build_config, startup_timeout, ContainerInspect};
use crate::container;
use crate::failed::{is_blocked, FailedUpdate, FailedUpdateView};
use crate::failed;
use crate::image::parse_image_ref;
use crate::image;
use crate::startup::{judge, ContainerState, Verdict};
use crate::startup;
use crate::text;
use crate::update::{
    Action, Event, Outcome, Phase, Session, SessionView, Target, Update, UpdateError,
};

verus! {

/// A container's name without the slashes that Docker puts in front.
pub open spec fn plain_name(name: Seq<char>) -> Seq<char>
    decreases name.len(),
{
    if name.len() > 0 && name.first() == '/' {
        plain_name(name.drop_first())
    } else {
        name
    }
}

/// The name of the old container while its replacement is tried.
pub open spec fn backup_name(name: Seq<char>) -> Seq<char> {
    name + "_conti_backup"@
}

/// The reference under which the image before an update is kept.
pub open spec fn old_reference(image: Seq<char>) -> Seq<char> {
    image::image_ref(image).0 + ":"@ + "old"@
}

/// The image reference that an inspected container was created with.
pub open spec fn image_of(info: ContainerInspect) -> Option<Seq<char>> {
    match info.config {
        Some(config) => text::content(config.image),
        None => None,
    }
}

/// The update ends without a new container.
pub open spec fn fail(container: Seq<char>, error: UpdateError<Seq<char>>) -> (
    Phase<Seq<char>>,
    Action<Seq<char>>,
) {
    (Phase::Finished, Action::Finish(Outcome::Failed { container, error }))
}

/// The update is done.
pub open spec fn succeed(update: Update<Seq<char>>, new_id: Seq<char>) -> (
    Phase<Seq<char>>,
    Action<Seq<char>>,
) {
    (
        Phase::Finished,
        Action::Finish(
            Outcome::Updated {
                container: update.name,
                old_image: update.old_image,
                new_image: update.new_image,
                id: new_id,
            },
        ),
    )
}

/// The old container gets its name back.
pub open spec fn restore(
    id: Seq<char>,
    update: Update<Seq<char>>,
    error: UpdateError<Seq<char>>,
) -> (Phase<Seq<char>>, Action<Seq<char>>) {
    (Phase::Restoring { update, error }, Action::Rename { id, name: update.name })
}

/// The new container is removed, so that the old one can have its name back. One that
/// may still run is removed by force.
pub open spec fn discard(
    update: Update<Seq<char>>,
    new_id: Seq<char>,
    error: UpdateError<Seq<char>>,
    force: bool,
) -> (Phase<Seq<char>>, Action<Seq<char>>) {
    (Phase::Discarding { update, error }, Action::Remove { container: new_id, force })
}

/// The failed update is recorded.
pub open spec fn record(
    update: Update<Seq<char>>,
    error: UpdateError<Seq<char>>,
    rollback: Option<UpdateError<Seq<char>>>,
) -> (Phase<Seq<char>>, Action<Seq<char>>) {
    (
        Phase::Recording { update, error, rollback },
        Action::Record { container: update.name, digest: update.new_image },
    )
}

/// The new container is looked at.
pub open spec fn look(update: Update<Seq<char>>, new_id: Seq<char>, elapsed: u64) -> (
    Phase<Seq<char>>,
    Action<Seq<char>>,
) {
    (Phase::Checking { update, new_id, elapsed }, Action::InspectState { id: new_id })
}

/// The container was inspected: its image is pulled.
pub open spec fn after_inspection(
    id: Seq<char>,
    result: Result<ContainerInspect, Seq<char>>,
) -> (Phase<Seq<char>>, Action<Seq<char>>) {
    match result {
        Err(cause) => fail(id, UpdateError::InspectContainer { cause }),
        Ok(info) => match (image_of(info), info.name, info.image) {
            (None, _, _) => fail(id, UpdateError::NoImage),
            (_, None, _) => fail(id, UpdateError::NoName),
            (_, _, None) => fail(id, UpdateError::NoImageId),
            (Some(image), Some(name), Some(old_image)) => (
                Phase::Pulling {
                    target: Target {
                        name: plain_name(name@),
                        image,
                        old_image: old_image@,
                        timeout: container::timeout_of(container::labels_of(info)),
                        info,
                    },
                },
                Action::Pull {
                    from_image: image::image_ref(image).0,
                    tag: image::image_ref(image).1,
                },
            ),
        },
    }
}

/// The image was pulled: it is looked up.
pub open spec fn after_pull(target: Target<Seq<char>>, result: Result<(), Seq<char>>) -> (
    Phase<Seq<char>>,
    Action<Seq<char>>,
) {
    match result {
        Err(cause) => fail(target.name, UpdateError::Pull { image: target.image, cause }),
        Ok(()) => (Phase::Resolving { target }, Action::InspectImage { image: target.image }),
    }
}

/// The pulled image was looked up. Unless the container runs it, or it failed
/// before, the container is stopped.
pub open spec fn after_resolution(
    id: Seq<char>,
    failed: Seq<FailedUpdateView>,
    target: Target<Seq<char>>,
    result: Result<Option<Seq<char>>, Seq<char>>,
) -> (Phase<Seq<char>>, Action<Seq<char>>) {
    match result {
        Err(cause) => fail(target.name, UpdateError::InspectImage { cause }),
        Ok(None) => fail(target.name, UpdateError::ImageWithoutId),
        Ok(Some(new_image)) => if new_image == target.old_image {
            (Phase::Finished, Action::Finish(Outcome::UpToDate { container: target.name }))
        } else if failed::blocked(failed, target.name, new_image) {
            (
                Phase::Finished,
                Action::Finish(Outcome::Blocked { container: target.name, digest: new_image }),
            )
        } else {
            (
                Phase::Stopping {
                    update: Update {
                        name: target.name,
                        image: target.image,
                        old_image: target.old_image,
                        new_image,
                        timeout: target.timeout,
                    },
                    info: target.info,
                },
                Action::Stop { id },
            )
        },
    }
}

/// The old container was stopped: it is renamed, which frees its name.
pub open spec fn after_stop(
    id: Seq<char>,
    update: Update<Seq<char>>,
    info: ContainerInspect,
    result: Result<(), Seq<char>>,
) -> (Phase<Seq<char>>, Action<Seq<char>>) {
    match result {
        Err(cause) => fail(update.name, UpdateError::Stop { cause }),
        Ok(()) => (
            Phase::BackingUp { update, info },
            Action::Rename { id, name: backup_name(update.name) },
        ),
    }
}

/// The old container was renamed: a new one is created under its name.
pub open spec fn after_backup(
    id: Seq<char>,
    update: Update<Seq<char>>,
    info: ContainerInspect,
    result: Result<(), Seq<char>>,
) -> (Phase<Seq<char>>, Action<Seq<char>>) {
    match result {
        Err(cause) => fail(update.name, UpdateError::Rename { cause }),
        Ok(()) => match container::recreated(info, update.image) {
            None => restore(id, update, UpdateError::MissingConfig),
            Some(config) => (
                Phase::Creating { update },
                Action::Create { name: update.name, config },
            ),
        },
    }
}

/// The new container was created: it is started.
pub open spec fn after_creation(
    id: Seq<char>,
    update: Update<Seq<char>>,
    result: Result<Seq<char>, Seq<char>>,
) -> (Phase<Seq<char>>, Action<Seq<char>>) {
    match result {
        Err(cause) => restore(id, update, UpdateError::Create { cause }),
        Ok(new_id) => (Phase::Starting { update, new_id }, Action::Start { id: new_id }),
    }
}

/// The new container was started: it is looked at.
pub open spec fn after_start(
    update: Update<Seq<char>>,
    new_id: Seq<char>,
    result: Result<(), Seq<char>>,
) -> (Phase<Seq<char>>, Action<Seq<char>>) {
    match result {
        Err(cause) => discard(update, new_id, UpdateError::Start { cause }, true),
        Ok(()) => look(update, new_id, 0),
    }
}

/// The new container was looked at: it is kept, waited for, or removed.
pub open spec fn after_check(
    update: Update<Seq<char>>,
    new_id: Seq<char>,
    elapsed: u64,
    result: Result<Option<ContainerState>, Seq<char>>,
) -> (Phase<Seq<char>>, Action<Seq<char>>) {
    match result {
        Err(cause) => discard(update, new_id, UpdateError::InspectNew { cause }, true),
        Ok(state) => match startup::verdict(state, elapsed, update.timeout) {
            Verdict::Up => (
                Phase::FindingOld { update, new_id },
                Action::InspectImage { image: old_reference(update.image) },
            ),
            Verdict::Wait(seconds) => (
                Phase::Waiting { update, new_id, elapsed: (elapsed + seconds) as u64 },
                Action::Sleep { seconds },
            ),
            Verdict::Exited(code) => discard(update, new_id, UpdateError::Exited { code }, false),
            Verdict::Unhealthy => discard(update, new_id, UpdateError::Unhealthy, true),
            Verdict::TimedOut => discard(update, new_id, UpdateError::TimedOut, true),
        },
    }
}

/// The image that was kept so far is known: the image before this update takes
/// its tag.
pub open spec fn after_finding_old(
    update: Update<Seq<char>>,
    new_id: Seq<char>,
    result: Result<Option<Seq<char>>, Seq<char>>,
) -> (Phase<Seq<char>>, Action<Seq<char>>) {
    (
        Phase::Tagging {
            update,
            new_id,
            previous: match result {
                Ok(previous) => previous,
                Err(_) => None,
            },
        },
        Action::Tag {
            image: update.old_image,
            repo: image::image_ref(update.image).0,
            tag: "old"@,
        },
    )
}

/// The tag was set: the old container is removed. The image that had the tag is
/// to go too, if the tag has moved away from it and it is not the new image.
pub open spec fn after_tagging(
    update: Update<Seq<char>>,
    new_id: Seq<char>,
    previous: Option<Seq<char>>,
    result: Result<(), Seq<char>>,
) -> (Phase<Seq<char>>, Action<Seq<char>>) {
    (
        Phase::RemovingBackup {
            update,
            new_id,
            previous: if result is Ok && previous != Some(update.old_image) && previous != Some(
                update.new_image,
            ) {
                previous
            } else {
                None
            },
        },
        Action::Remove { container: backup_name(update.name), force: false },
    )
}

/// The old container was removed: so is the image that had the tag before.
pub open spec fn after_backup_removal(
    update: Update<Seq<char>>,
    new_id: Seq<char>,
    previous: Option<Seq<char>>,
) -> (Phase<Seq<char>>, Action<Seq<char>>) {
    match previous {
        Some(image) => (
            Phase::RemovingPrevious { update, new_id },
            Action::RemoveImage { image },
        ),
        None => succeed(update, new_id),
    }
}

/// The old container has its name back: it is started again.
pub open spec fn after_restoration(
    id: Seq<char>,
    update: Update<Seq<char>>,
    error: UpdateError<Seq<char>>,
    result: Result<(), Seq<char>>,
) -> (Phase<Seq<char>>, Action<Seq<char>>) {
    match result {
        Err(cause) => record(update, error, Some(UpdateError::RenameBack { cause })),
        Ok(()) => (Phase::Restarting { update, error }, Action::Start { id }),
    }
}

/// The old container was started again: the failed update is recorded.
pub open spec fn after_restart(
    update: Update<Seq<char>>,
    error: UpdateError<Seq<char>>,
    result: Result<(), Seq<char>>,
) -> (Phase<Seq<char>>, Action<Seq<char>>) {
    match result {
        Err(cause) => record(update, error, Some(UpdateError::Restart { cause })),
        Ok(()) => record(update, error, None),
    }
}

/// The failed update was recorded: the rollback is over.
pub open spec fn after_recording(
    update: Update<Seq<char>>,
    error: UpdateError<Seq<char>>,
    rollback: Option<UpdateError<Seq<char>>>,
) -> (Phase<Seq<char>>, Action<Seq<char>>) {
    (
        Phase::Finished,
        Action::Finish(
            match rollback {
                None => Outcome::RolledBack { container: update.name, error },
                Some(rollback) => Outcome::RollbackFailed {
                    container: update.name,
                    error,
                    rollback,
                },
            },
        ),
    )
}

/// Whether `event` answers the action that is under way in `phase`.
pub open spec fn answers(phase: Phase<Seq<char>>, event: Event<Seq<char>>) -> bool {
    match phase {
        Phase::Inspecting => event is Container,
        Phase::Resolving { .. } => event is Image,
        Phase::FindingOld { .. } => event is Image,
        Phase::Creating { .. } => event is Created,
        Phase::Checking { .. } => event is State,
        Phase::Finished => false,
        _ => event is Done,
    }
}

/// The phase and the action that follow on an event.
pub open spec fn next(session: SessionView, event: Event<Seq<char>>) -> (
    Phase<Seq<char>>,
    Action<Seq<char>>,
) {
    let id = session.id;
    match (session.phase, event) {
        (Phase::Inspecting, Event::Container(result)) => after_inspection(id, result),
        (Phase::Pulling { target }, Event::Done(result)) => after_pull(target, result),
        (Phase::Resolving { target }, Event::Image(result)) => after_resolution(
            id,
            session.failed,
            target,
            result,
        ),
        (Phase::Stopping { update, info }, Event::Done(result)) => after_stop(
            id,
            update,
            info,
            result,
        ),
        (Phase::BackingUp { update, info }, Event::Done(result)) => after_backup(
            id,
            update,
            info,
            result,
        ),
        (Phase::Creating { update }, Event::Created(result)) => after_creation(id, update, result),
        (Phase::Starting { update, new_id }, Event::Done(result)) => after_start(
            update,
            new_id,
            result,
        ),
        (Phase::Checking { update, new_id, elapsed }, Event::State(result)) => after_check(
            update,
            new_id,
            elapsed,
            result,
        ),
        (Phase::Waiting { update, new_id, elapsed }, Event::Done(_)) => look(
            update,
            new_id,
            elapsed,
        ),
        (Phase::FindingOld { update, new_id }, Event::Image(result)) => after_finding_old(
            update,
            new_id,
            result,
        ),
        (Phase::Tagging { update, new_id, previous }, Event::Done(result)) => after_tagging(
            update,
            new_id,
            previous,
            result,
        ),
        (
            Phase::RemovingBackup { update, new_id, previous },
            Event::Done(_),
        ) => after_backup_removal(update, new_id, previous),
        (Phase::RemovingPrevious { update, new_id }, Event::Done(_)) => succeed(update, new_id),
        (Phase::Discarding { update, error }, Event::Done(_)) => restore(id, update, error),
        (Phase::Restoring { update, error }, Event::Done(result)) => after_restoration(
            id,
            update,
            error,
            result,
        ),
        (Phase::Restarting { update, error }, Event::Done(result)) => after_restart(
            update,
            error,
            result,
        ),
        (Phase::Recording { update, error, rollback }, Event::Done(_)) => after_recording(
            update,
            error,
            rollback,
        ),
        _ => (session.phase, Action::InspectContainer { id }),
    }
}

/// Cuts off the slashes that Docker puts in front of a container's name.
fn trim_name(name: &str) -> (r: &str)
    ensures
        r@ == plain_name(name@),
{
    let chars = text::characters(name);
    let mut from: usize = 0;
    assert(name@.skip(0) == name@);
    while from < chars.len() && chars[from] == '/'
        invariant
            from <= chars.len(),
            chars@ == name@,
            plain_name(name@.skip(from as int)) == plain_name(name@),
        decreases chars.len() - from,
    {
        assert(name@.skip(from as int).drop_first() == name@.skip(from + 1));
        from = from + 1;
    }
    assert(name@.subrange(from as int, name@.len() as int) == name@.skip(from as int));
    name.substring_char(from, chars.len())
}

fn backup(name: &str) -> (r: String)
    ensures
        r@ == backup_name(name@),
{
    let mut r = name.to_owned();
    r.append("_conti_backup");
    r
}

fn failure(container: String, error: UpdateError<String>) -> (r: (Phase<String>, Action<String>))
    ensures
        (r.0@, r.1@) == fail(container@, error@),
{
    (Phase::Finished, Action::Finish(Outcome::Failed { container, error }))
}

fn success(update: Update<String>, new_id: String) -> (r: (Phase<String>, Action<String>))
    ensures
        (r.0@, r.1@) == succeed(update@, new_id@),
{
    (
        Phase::Finished,
        Action::Finish(
            Outcome::Updated {
                container: update.name,
                old_image: update.old_image,
                new_image: update.new_image,
                id: new_id,
            },
        ),
    )
}

fn restoring(id: &str, update: Update<String>, error: UpdateError<String>) -> (r: (
    Phase<String>,
    Action<String>,
))
    ensures
        (r.0@, r.1@) == restore(id@, update@, error@),
{
    let name = update.name.clone();
    (Phase::Restoring { update, error }, Action::Rename { id: id.to_owned(), name })
}

fn discarding(
    update: Update<String>,
    new_id: String,
    error: UpdateError<String>,
    force: bool,
) -> (r: (Phase<String>, Action<String>))
    ensures
        (r.0@, r.1@) == discard(update@, new_id@, error@, force),
{
    (Phase::Discarding { update, error }, Action::Remove { container: new_id, force })
}

fn recording(
    update: Update<String>,
    error: UpdateError<String>,
    rollback: Option<UpdateError<String>>,
) -> (r: (Phase<String>, Action<String>))
    ensures
        (r.0@, r.1@) == record(
            update@,
            error@,
            match rollback {
                Some(rollback) => Some(rollback@),
                None => None,
            },
        ),
{
    let container = update.name.clone();
    let digest = update.new_image.clone();
    (Phase::Recording { update, error, rollback }, Action::Record { container, digest })
}

fn looking(update: Update<String>, new_id: String, elapsed: u64) -> (r: (
    Phase<String>,
    Action<String>,
))
    ensures
        (r.0@, r.1@) == look(update@, new_id@, elapsed),
{
    let id = new_id.clone();
    (Phase::Checking { update, new_id, elapsed }, Action::InspectState { id })
}

fn inspected(id: &str, info: ContainerInspect) -> (r: (Phase<String>, Action<String>))
    ensures
        (r.0@, r.1@) == after_inspection(id@, Ok(info)),
{
    let image = match &info.config {
        Some(config) => match &config.image {
            Some(image) => image.clone(),
            None => {
                return failure(id.to_owned(), UpdateError::NoImage);
            },
        },
        None => {
            return failure(id.to_owned(), UpdateError::NoImage);
        },
    };
    let name = match &info.name {
        Some(name) => trim_name(name.as_str()).to_owned(),
        None => {
            return failure(id.to_owned(), UpdateError::NoName);
        },
    };
    let old_image = match &info.image {
        Some(image) => image.clone(),
        None => {
            return failure(id.to_owned(), UpdateError::NoImageId);
        },
    };
    let timeout = startup_timeout(&info);
    let (from_image, tag) = parse_image_ref(image.as_str());
    let action = Action::Pull { from_image: from_image.to_owned(), tag: tag.to_owned() };
    (Phase::Pulling { target: Target { name, image, old_image, timeout, info } }, action)
}

fn resolved(
    id: &str,
    failed: &Vec<FailedUpdate>,
    target: Target<String>,
    new_image: String,
) -> (r: (Phase<String>, Action<String>))
    ensures
        (r.0@, r.1@) == after_resolution(
            id@,
            failed::updates(failed@),
            target@,
            Ok(Some(new_image@)),
        ),
{
    if new_image == target.old_image {
        (Phase::Finished, Action::Finish(Outcome::UpToDate { container: target.name }))
    } else if is_blocked(failed, target.name.as_str(), new_image.as_str()) {
        (
            Phase::Finished,
            Action::Finish(Outcome::Blocked { container: target.name, digest: new_image }),
        )
    } else {
        (
            Phase::Stopping {
                update: Update {
                    name: target.name,
                    image: target.image,
                    old_image: target.old_image,
                    new_image,
                    timeout: target.timeout,
                },
                info: target.info,
            },
            Action::Stop { id: id.to_owned() },
        )
    }
}

fn backed_up(id: &str, update: Update<String>, info: ContainerInspect) -> (r: (
    Phase<String>,
    Action<String>,
))
    ensures
        (r.0@, r.1@) == after_backup(id@, update@, info, Ok(())),
{
    match build_config(info, update.image.as_str()) {
        None => restoring(id, update, UpdateError::MissingConfig),
        Some(config) => {
            let name = update.name.clone();
            (Phase::Creating { update }, Action::Create { name, config })
        },
    }
}

fn checked(
    update: Update<String>,
    new_id: String,
    elapsed: u64,
    state: Option<ContainerState>,
) -> (r: (Phase<String>, Action<String>))
    ensures
        (r.0@, r.1@) == after_check(update@, new_id@, elapsed, Ok(state)),
{
    match judge(state, elapsed, update.timeout) {
        Verdict::Up => {
            let (repo, _) = parse_image_ref(update.image.as_str());
            let mut image = repo.to_owned();
            image.append(":");
            image.append("old");
            (Phase::FindingOld { update, new_id }, Action::InspectImage { image })
        },
        Verdict::Wait(seconds) => (
            Phase::Waiting { update, new_id, elapsed: elapsed + seconds },
            Action::Sleep { seconds },
        ),
        Verdict::Exited(code) => discarding(update, new_id, UpdateError::Exited { code }, false),
        Verdict::Unhealthy => discarding(update, new_id, UpdateError::Unhealthy, true),
        Verdict::TimedOut => discarding(update, new_id, UpdateError::TimedOut, true),
    }
}

fn found_old(update: Update<String>, new_id: String, previous: Option<String>) -> (r: (
    Phase<String>,
    Action<String>,
))
    ensures
        (r.0@, r.1@) == after_finding_old(update@, new_id@, Ok(text::content(previous))),
{
    let (repo, _) = parse_image_ref(update.image.as_str());
    let action = Action::Tag {
        image: update.old_image.clone(),
        repo: repo.to_owned(),
        tag: "old".to_owned(),
    };
    (Phase::Tagging { update, new_id, previous }, action)
}

fn tagged(
    update: Update<String>,
    new_id: String,
    previous: Option<String>,
    result: Result<(), String>,
) -> (r: (Phase<String>, Action<String>))
    ensures
        (r.0@, r.1@) == after_tagging(
            update@,
            new_id@,
            text::content(previous),
            match result {
                Ok(()) => Ok(()),
                Err(cause) => Err(cause@),
            },
        ),
{
    let container = backup(update.name.as_str());
    let previous = match (previous, result) {
        (Some(image), Ok(())) => if image == update.old_image || image == update.new_image {
            None
        } else {
            Some(image)
        },
        _ => None,
    };
    (
        Phase::RemovingBackup { update, new_id, previous },
        Action::Remove { container, force: false },
    )
}

impl Session {
    /// Starts the update of the container `id`, given the updates that failed
    /// before: the container is inspected.
    pub fn start(id: &str, failed: Vec<FailedUpdate>) -> (r: (Session, Action<String>))
        ensures
            r.0@ == (SessionView {
                id: id@,
                failed: failed::updates(failed@),
                phase: Phase::Inspecting,
            }),
            r.1@ == (Action::InspectContainer { id: id@ }),
    {
        (
            Session { id: id.to_owned(), failed, phase: Phase::Inspecting },
            Action::InspectContainer { id: id.to_owned() },
        )
    }

    /// Whether `event` answers the action under way.
    pub fn awaits(&self, event: &Event<String>) -> (r: bool)
        ensures
            r == answers(self@.phase, event@),
    {
        match (&self.phase, event) {
            (Phase::Inspecting, Event::Container(_)) => true,
            (Phase::Inspecting, _) => false,
            (Phase::Resolving { .. }, Event::Image(_)) => true,
            (Phase::Resolving { .. }, _) => false,
            (Phase::FindingOld { .. }, Event::Image(_)) => true,
            (Phase::FindingOld { .. }, _) => false,
            (Phase::Creating { .. }, Event::Created(_)) => true,
            (Phase::Creating { .. }, _) => false,
            (Phase::Checking { .. }, Event::State(_)) => true,
            (Phase::Checking { .. }, _) => false,
            (Phase::Finished, _) => false,
            (_, Event::Done(_)) => true,
            _ => false,
        }
    }

    /// Takes in what came of the action under way and names the next one.
    pub fn advance(self, event: Event<String>) -> (r: (Session, Action<String>))
        requires
            answers(self@.phase, event@),
        ensures
            r.0@.id == self@.id,
            r.0@.failed == self@.failed,
            (r.0@.phase, r.1@) == next(self@, event@),
    {
        let id = self.id;
        let failed = self.failed;
        let (phase, action) = match (self.phase, event) {
            (Phase::Inspecting, Event::Container(result)) => match result {
                Err(cause) => failure(id.clone(), UpdateError::InspectContainer { cause }),
                Ok(info) => inspected(id.as_str(), info),
            },
            (Phase::Pulling { target }, Event::Done(result)) => match result {
                Err(cause) => failure(
                    target.name,
                    UpdateError::Pull { image: target.image, cause },
                ),
                Ok(()) => {
                    let image = target.image.clone();
                    (Phase::Resolving { target }, Action::InspectImage { image })
                },
            },
            (Phase::Resolving { target }, Event::Image(result)) => match result {
                Err(cause) => failure(target.name, UpdateError::InspectImage { cause }),
                Ok(None) => failure(target.name, UpdateError::ImageWithoutId),
                Ok(Some(new_image)) => resolved(id.as_str(), &failed, target, new_image),
            },
            (Phase::Stopping { update, info }, Event::Done(result)) => match result {
                Err(cause) => failure(update.name, UpdateError::Stop { cause }),
                Ok(()) => {
                    let name = backup(update.name.as_str());
                    (Phase::BackingUp { update, info }, Action::Rename { id: id.clone(), name })
                },
            },
            (Phase::BackingUp { update, info }, Event::Done(result)) => match result {
                Err(cause) => failure(update.name, UpdateError::Rename { cause }),
                Ok(()) => backed_up(id.as_str(), update, info),
            },
            (Phase::Creating { update }, Event::Created(result)) => match result {
                Err(cause) => restoring(id.as_str(), update, UpdateError::Create { cause }),
                Ok(new_id) => {
                    let started = new_id.clone();
                    (Phase::Starting { update, new_id }, Action::Start { id: started })
                },
            },
            (Phase::Starting { update, new_id }, Event::Done(result)) => match result {
                Err(cause) => discarding(update, new_id, UpdateError::Start { cause }, true),
                Ok(()) => looking(update, new_id, 0),
            },
            (Phase::Checking { update, new_id, elapsed }, Event::State(result)) => match result {
                Err(cause) => discarding(update, new_id, UpdateError::InspectNew { cause }, true),
                Ok(state) => checked(update, new_id, elapsed, state),
            },
            (Phase::Waiting { update, new_id, elapsed }, Event::Done(_)) => looking(
                update,
                new_id,
                elapsed,
            ),
            (Phase::FindingOld { update, new_id }, Event::Image(result)) => match result {
                Err(_) => found_old(update, new_id, None),
                Ok(previous) => found_old(update, new_id, previous),
            },
            (Phase::Tagging { update, new_id, previous }, Event::Done(result)) => tagged(
                update,
                new_id,
                previous,
                result,
            ),
            (Phase::RemovingBackup { update, new_id, previous }, Event::Done(_)) => match previous {
                Some(image) => (
                    Phase::RemovingPrevious { update, new_id },
                    Action::RemoveImage { image },
                ),
                None => success(update, new_id),
            },
            (Phase::RemovingPrevious { update, new_id }, Event::Done(_)) => success(update, new_id),
            (Phase::Discarding { update, error }, Event::Done(_)) => restoring(
                id.as_str(),
                update,
                error,
            ),
            (Phase::Restoring { update, error }, Event::Done(result)) => match result {
                Err(cause) => recording(update, error, Some(UpdateError::RenameBack { cause })),
                Ok(()) => (Phase::Restarting { update, error }, Action::Start { id: id.clone() }),
            },
            (Phase::Restarting { update, error }, Event::Done(result)) => match result {
                Err(cause) => recording(update, error, Some(UpdateError::Restart { cause })),
                Ok(()) => recording(update, error, None),
            },
            (Phase::Recording { update, error, rollback }, Event::Done(_)) => match rollback {
                None => (
                    Phase::Finished,
                    Action::Finish(Outcome::RolledBack { container: update.name, error }),
                ),
                Some(rollback) => (
                    Phase::Finished,
                    Action::Finish(
                        Outcome::RollbackFailed { container: update.name, error, rollback },
                    ),
                ),
            },
            (phase, _) => (phase, Action::InspectContainer { id: id.clone() }),
        };
        (Session { id, failed, phase }, action)
    }
}

/// The slashes in front of a container's name are cut off, all of them, and nothing else.
pub proof fn law_slashes_before_a_name_are_cut_off(slashes: Seq<char>, name: Seq<char>)
    requires
        forall|i: int| 0 <= i < slashes.len() ==> #[trigger] slashes[i] == '/',
        name.len() > 0 ==> name[0] != '/',
    ensures
        plain_name(slashes + name) == name,
    decreases slashes.len(),
{
    let all = slashes + name;
    if slashes.len() == 0 {
        assert(all == name);
    } else {
        let rest = slashes.drop_first();
        assert(all.first() == slashes[0]);
        assert(all.drop_first() == rest + name);
        assert forall|i: int| 0 <= i < rest.len() implies #[trigger] rest[i] == '/' by {
            assert(rest[i] == slashes[i + 1]);
        }
        law_slashes_before_a_name_are_cut_off(rest, name);
    }
}

/// The old container is set aside under its name with an ending, so that two containers
/// with different names never get in each other's way; and the image before an update is
/// kept under the tag `old` of its repository.
pub proof fn law_what_is_set_aside_has_a_name_of_its_own(
    name: Seq<char>,
    other: Seq<char>,
    image: Seq<char>,
)
    ensures
        backup_name(name) == name + "_conti_backup"@,
        backup_name(name) != name,
        name != other ==> backup_name(name) != backup_name(other),
        old_reference(image) == image::image_ref(image).0 + ":old"@,
        image::image_ref(old_reference(image)) == (image::image_ref(image).0, "old"@),
{
    reveal_strlit("_conti_backup");
    reveal_strlit(":old");
    reveal_strlit(":");
    reveal_strlit("old");
    let n = backup_name(name);
    let o = backup_name(other);
    if n == o {
        assert(n.take(n.len() - 13) == name);
        assert(o.take(o.len() - 13) == other);
    }
    let repo = image::image_ref(image).0;
    assert(":"@ == seq![':']);
    assert(old_reference(image) == repo + ":old"@);
    assert(old_reference(image) == repo + seq![':'] + "old"@);
    image::law_image_ref_finds_the_tag(repo, "old"@);
}

} // verus!
