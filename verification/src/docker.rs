//! What an update leaves behind in Docker.
//!
//! A model of the part of Docker that one update touches, and the laws of the
//! update session over it: as long as Docker gives a new container an id of its own,
//! the old one is not removed before the new one is up, whatever else is answered.
use vstd::prelude::*;

use crate::container::ContainerInspect;
use crate::container;
use crate::failed::FailedUpdateView;
use crate::failed;
use crate::image;
use crate::session;
use crate::startup::{ContainerState, Verdict};
use crate::startup;
use crate::update::{Action, Event, Outcome, Phase, SessionView, Target, Update};

verus! {

/// A container that an update created.
pub struct NewContainer {
    pub id: Seq<char>,
    pub name: Seq<char>,
    pub running: bool,
}

/// The part of Docker that the update of one container touches, and the log of
/// failed updates.
pub struct World {
    /// Whether the old container exists, whether it runs, and its name.
    pub old_exists: bool,
    pub old_running: bool,
    pub old_name: Seq<char>,
    pub new_container: Option<NewContainer>,
    /// The ids of the images that references were set to.
    pub tags: Map<Seq<char>, Seq<char>>,
    pub removed_images: Set<Seq<char>>,
    pub recorded: Set<FailedUpdateView>,
}

/// A container called `name` runs, and no update has touched it.
pub open spec fn untouched(name: Seq<char>) -> World {
    World {
        old_exists: true,
        old_running: true,
        old_name: name,
        new_container: None,
        tags: Map::empty(),
        removed_images: Set::empty(),
        recorded: Set::empty(),
    }
}

/// Whether a reference is to the new container: it is its id, or its name and not the
/// old container's id.
pub open spec fn means_new(world: World, id: Seq<char>, reference: Seq<char>) -> bool {
    match world.new_container {
        Some(new) => new.id == reference || (new.name == reference && !(world.old_exists
            && reference == id)),
        None => false,
    }
}

/// Whether a reference is to the old container `id`: it is its id, or its name and not
/// the new container's id.
pub open spec fn means_old(world: World, id: Seq<char>, reference: Seq<char>) -> bool {
    &&& world.old_exists
    &&& reference == id || (reference == world.old_name && !(world.new_container matches Some(new)
        && new.id == reference))
}

/// What an action does, in the update of the container `id`. Docker takes a container's
/// id for it as well as its name. An action that Docker refuses does nothing.
pub open spec fn effect(
    world: World,
    id: Seq<char>,
    action: Action<Seq<char>>,
    event: Event<Seq<char>>,
) -> World {
    match (action, event) {
        (Action::Stop { id: stopped }, Event::Done(Ok(()))) => with_running(
            world,
            id,
            stopped,
            false,
        ),
        (Action::Rename { id: renamed, name }, Event::Done(Ok(()))) => if means_new(
            world,
            id,
            renamed,
        ) {
            let new = world.new_container->0;
            World { new_container: Some(NewContainer { name, ..new }), ..world }
        } else if means_old(world, id, renamed) {
            World { old_name: name, ..world }
        } else {
            world
        },
        (Action::Create { name, config }, Event::Created(Ok(new_id))) => World {
            new_container: Some(NewContainer { id: new_id, name, running: false }),
            ..world
        },
        (Action::Start { id: started }, Event::Done(Ok(()))) => with_running(
            world,
            id,
            started,
            true,
        ),
        (Action::Remove { container, force }, Event::Done(Ok(()))) => if means_new(
            world,
            id,
            container,
        ) {
            World { new_container: None, ..world }
        } else if means_old(world, id, container) {
            World { old_exists: false, old_running: false, ..world }
        } else {
            world
        },
        (Action::Tag { image, repo, tag }, Event::Done(Ok(()))) => World {
            tags: world.tags.insert(repo + ":"@ + tag, image),
            ..world
        },
        (Action::RemoveImage { image }, Event::Done(Ok(()))) => World {
            removed_images: world.removed_images.insert(image),
            ..world
        },
        (Action::Record { container, digest }, Event::Done(Ok(()))) => World {
            recorded: world.recorded.insert(FailedUpdateView { container, digest }),
            ..world
        },
        _ => world,
    }
}

/// The world once the container that a reference is to was started or stopped.
pub open spec fn with_running(
    world: World,
    id: Seq<char>,
    reference: Seq<char>,
    running: bool,
) -> World {
    if means_new(world, id, reference) {
        let new = world.new_container->0;
        World { new_container: Some(NewContainer { running, ..new }), ..world }
    } else if means_old(world, id, reference) {
        World { old_running: running, ..world }
    } else {
        world
    }
}

/// What Docker can answer: an inspection tells the container's name, a new
/// container's id is neither the old one's id nor its backup name, and no name is
/// given to a container while another one has it.
pub open spec fn possible(
    world: World,
    id: Seq<char>,
    action: Action<Seq<char>>,
    event: Event<Seq<char>>,
) -> bool {
    match (action, event) {
        (Action::InspectContainer { .. }, Event::Container(Ok(info))) => match info.name {
            Some(name) => session::plain_name(name@) == world.old_name,
            None => true,
        },
        (Action::Create { name, config }, Event::Created(Ok(new_id))) => {
            &&& new_id != id
            &&& new_id != session::backup_name(name)
            &&& name != world.old_name
        },
        (Action::Rename { id: renamed, name }, Event::Done(Ok(()))) => {
            world.new_container matches Some(new) ==> new.name != name
        },
        _ => true,
    }
}

/// A session under way: where it stands, what it does, and what it has done.
pub struct Run {
    pub phase: Phase<Seq<char>>,
    pub action: Action<Seq<char>>,
    pub world: World,
    /// Whether the new container was found to be up.
    pub up: bool,
}

/// Whether an event is the look at a new container that finds it up.
pub open spec fn finds_up(phase: Phase<Seq<char>>, event: Event<Seq<char>>) -> bool {
    match (phase, event) {
        (Phase::Checking { update, new_id, elapsed }, Event::State(Ok(state))) => startup::verdict(
            state,
            elapsed,
            update.timeout,
        ) == Verdict::Up,
        _ => false,
    }
}

/// A session of the container `id`, called `name`, after these events.
pub open spec fn run(
    id: Seq<char>,
    failed: Seq<FailedUpdateView>,
    name: Seq<char>,
    events: Seq<Event<Seq<char>>>,
) -> Run
    decreases events.len(),
{
    if events.len() == 0 {
        Run {
            phase: Phase::Inspecting,
            action: Action::InspectContainer { id },
            world: untouched(name),
            up: false,
        }
    } else {
        let before = run(id, failed, name, events.drop_last());
        let event = events.last();
        let (phase, action) = session::next(
            SessionView { id, failed, phase: before.phase },
            event,
        );
        Run {
            phase,
            action,
            world: effect(before.world, id, before.action, event),
            up: before.up || finds_up(before.phase, event),
        }
    }
}

/// Whether each event answers the action before it, as Docker can.
pub open spec fn proper(
    id: Seq<char>,
    failed: Seq<FailedUpdateView>,
    name: Seq<char>,
    events: Seq<Event<Seq<char>>>,
) -> bool
    decreases events.len(),
{
    events.len() > 0 ==> {
        let before = run(id, failed, name, events.drop_last());
        &&& proper(id, failed, name, events.drop_last())
        &&& session::answers(before.phase, events.last())
        &&& possible(before.world, id, before.action, events.last())
    }
}

/// Whether each event answers the action before it, and a new container can be told
/// from the old one: its id is neither the old one's id nor its backup name.
pub open spec fn answered(
    id: Seq<char>,
    failed: Seq<FailedUpdateView>,
    name: Seq<char>,
    events: Seq<Event<Seq<char>>>,
) -> bool
    decreases events.len(),
{
    events.len() > 0 ==> {
        let before = run(id, failed, name, events.drop_last());
        &&& answered(id, failed, name, events.drop_last())
        &&& session::answers(before.phase, events.last())
        &&& match (before.action, events.last()) {
            (Action::Create { name, config }, Event::Created(Ok(new_id))) => distinct(
                id,
                name,
                new_id,
            ),
            _ => true,
        }
    }
}

/// The name that the inspection of the container told.
pub open spec fn told_name(events: Seq<Event<Seq<char>>>) -> Seq<char> {
    match events.first() {
        Event::Container(Ok(info)) => match info.name {
            Some(name) => session::plain_name(name@),
            None => Seq::empty(),
        },
        _ => Seq::empty(),
    }
}

/// The old container waits under its backup name, stopped, with all that
/// depends on it untouched.
spec fn waits(world: World, name: Seq<char>) -> bool {
    &&& world.old_exists
    &&& !world.old_running
    &&& world.old_name == session::backup_name(name)
    &&& world.removed_images == Set::<Seq<char>>::empty()
    &&& world.recorded == Set::<FailedUpdateView>::empty()
}

/// The new container has the old one's name.
spec fn stands(world: World, name: Seq<char>, new_id: Seq<char>, running: bool) -> bool {
    world.new_container == Some(NewContainer { id: new_id, name, running })
}

/// Whether a new container can be told from the old one.
pub open spec fn distinct(id: Seq<char>, name: Seq<char>, new_id: Seq<char>) -> bool {
    new_id != id && new_id != session::backup_name(name)
}

/// What holds of the world at the end of an update.
pub open spec fn left_behind(name: Seq<char>, outcome: Outcome<Seq<char>>, world: World) -> bool {
    match outcome {
        Outcome::UpToDate { container } => container == name && world == untouched(name),
        Outcome::Blocked { container, .. } => container == name && world == untouched(name),
        Outcome::Updated { container, old_image, new_image, id } => {
            &&& container == name
            &&& world.new_container == Some(NewContainer { id, name, running: true })
            &&& world.old_exists ==> world.old_name == session::backup_name(name)
            &&& !world.old_running
            &&& !world.removed_images.contains(old_image)
            &&& !world.removed_images.contains(new_image)
            &&& world.recorded == Set::<FailedUpdateView>::empty()
        },
        Outcome::RolledBack { container, .. } => {
            &&& container == name
            &&& world.old_exists
            &&& world.old_running
            &&& world.old_name == name
            &&& world.new_container is None
            &&& world.removed_images == Set::<Seq<char>>::empty()
            &&& world.tags == Map::<Seq<char>, Seq<char>>::empty()
        },
        Outcome::RollbackFailed { container, .. } => {
            &&& container == name
            &&& world.old_exists
            &&& world.removed_images == Set::<Seq<char>>::empty()
        },
        Outcome::Failed { error, .. } => {
            &&& error is Rename ==> world == (World { old_running: false, ..untouched(name) })
            &&& error !is Rename ==> world == untouched(name)
        },
    }
}

/// What holds in each phase.
spec fn holds(id: Seq<char>, name: Seq<char>, r: Run) -> bool {
    let w = r.world;
    let none = Map::<Seq<char>, Seq<char>>::empty();
    match r.phase {
        Phase::Inspecting => w == untouched(name) && r.action == (Action::InspectContainer { id }),
        Phase::Pulling { target } => w == untouched(name) && target.name == name
            && r.action is Pull,
        Phase::Resolving { target } => w == untouched(name) && target.name == name
            && r.action is InspectImage,
        Phase::Stopping { update, info } => w == untouched(name) && update.name == name
            && update.new_image != update.old_image && r.action == (Action::Stop { id }),
        Phase::BackingUp { update, info } => {
            &&& w == (World { old_running: false, ..untouched(name) })
            &&& update.name == name
            &&& r.action == (Action::Rename { id, name: session::backup_name(name) })
        },
        Phase::Creating { update } => {
            &&& waits(w, name)
            &&& w.new_container is None
            &&& w.tags == none
            &&& update.name == name
            &&& r.action matches Action::Create { name: created, config } && created == name
        },
        Phase::Starting { update, new_id } => {
            &&& waits(w, name)
            &&& w.tags == none
            &&& update.name == name
            &&& stands(w, name, new_id, false)
            &&& distinct(id, name, new_id)
            &&& r.action == (Action::Start { id: new_id })
        },
        Phase::Checking { update, new_id, elapsed } => {
            &&& waits(w, name)
            &&& w.tags == none
            &&& update.name == name
            &&& stands(w, name, new_id, true)
            &&& distinct(id, name, new_id)
            &&& r.action is InspectState
        },
        Phase::Waiting { update, new_id, elapsed } => {
            &&& waits(w, name)
            &&& w.tags == none
            &&& update.name == name
            &&& stands(w, name, new_id, true)
            &&& distinct(id, name, new_id)
            &&& r.action is Sleep
        },
        Phase::FindingOld { update, new_id } => {
            &&& waits(w, name)
            &&& update.name == name
            &&& stands(w, name, new_id, true)
            &&& distinct(id, name, new_id)
            &&& r.action is InspectImage
            &&& r.up
        },
        Phase::Tagging { update, new_id, previous } => {
            &&& waits(w, name)
            &&& update.name == name
            &&& stands(w, name, new_id, true)
            &&& distinct(id, name, new_id)
            &&& r.action == (Action::Tag {
                image: update.old_image,
                repo: image::image_ref(update.image).0,
                tag: "old"@,
            })
            &&& r.up
        },
        Phase::RemovingBackup { update, new_id, previous } => {
            &&& waits(w, name)
            &&& update.name == name
            &&& stands(w, name, new_id, true)
            &&& distinct(id, name, new_id)
            &&& previous matches Some(image) ==> {
                &&& image != update.old_image
                &&& image != update.new_image
                &&& w.tags.contains_pair(session::old_reference(update.image), update.old_image)
            }
            &&& r.action == (Action::Remove { container: session::backup_name(name), force: false })
            &&& r.up
        },
        Phase::RemovingPrevious { update, new_id } => {
            &&& w.old_exists ==> w.old_name == session::backup_name(name)
            &&& !w.old_running
            &&& w.removed_images == Set::<Seq<char>>::empty()
            &&& w.recorded == Set::<FailedUpdateView>::empty()
            &&& update.name == name
            &&& stands(w, name, new_id, true)
            &&& w.tags.contains_pair(session::old_reference(update.image), update.old_image)
            &&& r.action matches Action::RemoveImage { image } && image != update.old_image && image
                != update.new_image
            &&& r.up
        },
        Phase::Discarding { update, error } => {
            &&& waits(w, name)
            &&& w.tags == none
            &&& update.name == name
            &&& w.new_container matches Some(new) && (r.action matches Action::Remove {
                container,
                force,
            } && container == new.id) && distinct(id, name, new.id) && new.name == name
        },
        Phase::Restoring { update, error } => {
            &&& waits(w, name)
            &&& w.tags == none
            &&& update.name == name
            &&& w.new_container matches Some(new) ==> new.name == name
            &&& r.action == (Action::Rename { id, name })
        },
        Phase::Restarting { update, error } => {
            &&& w.old_exists
            &&& w.old_name == name
            &&& w.tags == none
            &&& w.removed_images == Set::<Seq<char>>::empty()
            &&& w.new_container is None
            &&& update.name == name
            &&& r.action == (Action::Start { id })
        },
        Phase::Recording { update, error, rollback } => {
            &&& w.old_exists
            &&& w.removed_images == Set::<Seq<char>>::empty()
            &&& update.name == name
            &&& rollback is None ==> {
                &&& w.old_running
                &&& w.old_name == name
                &&& w.tags == none
                &&& w.new_container is None
            }
            &&& r.action == (Action::Record { container: name, digest: update.new_image })
        },
        Phase::Finished => r.action matches Action::Finish(outcome) && left_behind(
            name,
            outcome,
            w,
        ) && (outcome is Updated ==> r.up),
    }
}

/// What holds before an event holds after it.
proof fn lemma_step(
    id: Seq<char>,
    failed: Seq<FailedUpdateView>,
    name: Seq<char>,
    before: Run,
    event: Event<Seq<char>>,
)
    requires
        holds(id, name, before),
        session::answers(before.phase, event),
        possible(before.world, id, before.action, event),
    ensures
        ({
            let (phase, action) = session::next(
                SessionView { id, failed, phase: before.phase },
                event,
            );
            holds(
                id,
                name,
                Run {
                    phase,
                    action,
                    world: effect(before.world, id, before.action, event),
                    up: before.up || finds_up(before.phase, event),
                },
            )
        }),
{
    assert(session::backup_name(name).len() > name.len()) by {
        reveal_strlit("_conti_backup");
    }
}

/// What holds of every run.
proof fn lemma_run(
    id: Seq<char>,
    failed: Seq<FailedUpdateView>,
    name: Seq<char>,
    events: Seq<Event<Seq<char>>>,
)
    requires
        proper(id, failed, name, events),
    ensures
        holds(id, name, run(id, failed, name, events)),
    decreases events.len(),
{
    if events.len() > 0 {
        lemma_run(id, failed, name, events.drop_last());
        lemma_step(
            id,
            failed,
            name,
            run(id, failed, name, events.drop_last()),
            events.last(),
        );
    }
}

/// However Docker answers, an update that is over has left one of these behind:
/// the container as it was; the new container, running under the old one's name;
/// or, after a rollback, the old container, running under its own name. A new
/// container that failed is gone then.
pub proof fn law_what_an_update_leaves_behind(
    id: Seq<char>,
    failed: Seq<FailedUpdateView>,
    name: Seq<char>,
    events: Seq<Event<Seq<char>>>,
)
    requires
        proper(id, failed, name, events),
        run(id, failed, name, events).phase is Finished,
    ensures
        ({
            let r = run(id, failed, name, events);
            r.action matches Action::Finish(outcome) && left_behind(name, outcome, r.world)
        }),
{
    lemma_run(id, failed, name, events);
}

/// What holds in each phase of the old container's being there, if nothing is known of
/// the answers but that a new container can be told from the old one, which is called
/// `name`.
spec fn keeps_old(id: Seq<char>, name: Seq<char>, r: Run) -> bool {
    let w = r.world;
    let backed_up = w.old_exists && w.old_name == session::backup_name(name);
    match r.phase {
        Phase::Inspecting => w.old_exists && w.new_container is None && r.action
            is InspectContainer,
        Phase::Pulling { target } => w.old_exists && w.new_container is None && r.action is Pull
            && target.name == name,
        Phase::Resolving { target } => w.old_exists && w.new_container is None && r.action
            is InspectImage && target.name == name,
        Phase::Stopping { update, info } => w.old_exists && w.new_container is None && r.action
            is Stop && update.name == name,
        Phase::BackingUp { update, info } => {
            &&& w.old_exists
            &&& w.new_container is None
            &&& r.action == (Action::Rename { id, name: session::backup_name(name) })
            &&& update.name == name
        },
        Phase::Creating { update } => {
            &&& backed_up
            &&& w.new_container is None
            &&& r.action matches Action::Create { name: created, config } && created == name
            &&& update.name == name
        },
        Phase::Starting { update, new_id } => {
            &&& backed_up
            &&& stands(w, name, new_id, false)
            &&& distinct(id, name, new_id)
            &&& r.action == (Action::Start { id: new_id })
            &&& update.name == name
        },
        Phase::Checking { update, new_id, elapsed } => {
            &&& backed_up
            &&& stands(w, name, new_id, true)
            &&& distinct(id, name, new_id)
            &&& r.action is InspectState
            &&& update.name == name
        },
        Phase::Waiting { update, new_id, elapsed } => {
            &&& backed_up
            &&& stands(w, name, new_id, true)
            &&& distinct(id, name, new_id)
            &&& r.action is Sleep
            &&& update.name == name
        },
        Phase::FindingOld { update, new_id } => {
            &&& backed_up
            &&& stands(w, name, new_id, true)
            &&& distinct(id, name, new_id)
            &&& r.action is InspectImage
            &&& update.name == name
            &&& r.up
        },
        Phase::Tagging { update, new_id, previous } => {
            &&& backed_up
            &&& stands(w, name, new_id, true)
            &&& distinct(id, name, new_id)
            &&& r.action is Tag
            &&& update.name == name
            &&& r.up
        },
        Phase::RemovingBackup { update, new_id, previous } => {
            &&& backed_up
            &&& stands(w, name, new_id, true)
            &&& distinct(id, name, new_id)
            &&& r.action == (Action::Remove { container: session::backup_name(name), force: false })
            &&& r.up
        },
        Phase::RemovingPrevious { update, new_id } => {
            &&& stands(w, name, new_id, true)
            &&& r.action is RemoveImage
            &&& r.up
        },
        Phase::Discarding { update, error } => {
            &&& backed_up
            &&& w.new_container matches Some(new) && (r.action matches Action::Remove {
                container,
                force,
            } && container == new.id) && distinct(id, name, new.id)
        },
        Phase::Restoring { update, error } => w.old_exists && r.action is Rename,
        Phase::Restarting { update, error } => w.old_exists && r.action is Start,
        Phase::Recording { update, error, rollback } => w.old_exists && r.action is Record,
        Phase::Finished => r.action matches Action::Finish(outcome) && match outcome {
            Outcome::Updated { id: new_id, .. } => stands(w, name, new_id, true) && r.up,
            _ => w.old_exists,
        },
    }
}

/// What holds of the old container, holds after every answer.
proof fn lemma_keeps_old(
    id: Seq<char>,
    failed: Seq<FailedUpdateView>,
    name: Seq<char>,
    events: Seq<Event<Seq<char>>>,
)
    requires
        answered(id, failed, name, events),
    ensures
        keeps_old(id, told_name(events), run(id, failed, name, events)),
        events.len() > 0 ==> run(id, failed, name, events).phase !is Inspecting,
    decreases events.len(),
{
    if events.len() > 0 {
        let init = events.drop_last();
        lemma_keeps_old(id, failed, name, init);
        if init.len() > 0 {
            assert(init.first() == events.first());
        } else {
            assert(events.first() == events.last());
        }
        let told = told_name(events);
        assert(session::backup_name(told).len() > told.len()) by {
            reveal_strlit("_conti_backup");
        }
    }
}

/// What Docker can answer meets the premise of [`law_the_old_container_goes_last`]: a
/// new container can be told from the old one.
pub proof fn law_docker_tells_containers_apart(
    id: Seq<char>,
    failed: Seq<FailedUpdateView>,
    name: Seq<char>,
    events: Seq<Event<Seq<char>>>,
)
    requires
        proper(id, failed, name, events),
    ensures
        answered(id, failed, name, events),
    decreases events.len(),
{
    if events.len() > 0 {
        law_docker_tells_containers_apart(id, failed, name, events.drop_last());
    }
}

/// The old container is removed only when the new one runs under the name that its
/// inspection told and was found to be up, whether Docker is given its id or its name;
/// and only then is an update called successful. This holds whatever Docker answers,
/// if only a new container can be told from the old one.
pub proof fn law_the_old_container_goes_last(
    id: Seq<char>,
    failed: Seq<FailedUpdateView>,
    name: Seq<char>,
    events: Seq<Event<Seq<char>>>,
)
    requires
        answered(id, failed, name, events),
    ensures
        ({
            let r = run(id, failed, name, events);
            &&& !r.world.old_exists ==> {
                &&& r.up
                &&& r.world.new_container matches Some(new)
                &&& new.running
                &&& new.name == told_name(events)
                &&& proper(id, failed, name, events) ==> new.name == name
            }
            &&& r.action matches Action::Remove { container, force } ==> means_old(
                r.world,
                id,
                container,
            ) ==> r.up
            &&& r.action matches Action::Finish(Outcome::Updated { .. }) ==> r.up
        }),
{
    lemma_keeps_old(id, failed, name, events);
    if proper(id, failed, name, events) {
        lemma_run(id, failed, name, events);
    }
}

/// Neither the image before an update nor the new one is ever removed. Another image
/// is removed only when the tag `old` of the repository has moved to the image before
/// the update.
pub proof fn law_an_image_is_removed_after_its_tag_moved(
    id: Seq<char>,
    failed: Seq<FailedUpdateView>,
    name: Seq<char>,
    events: Seq<Event<Seq<char>>>,
)
    requires
        proper(id, failed, name, events),
    ensures
        ({
            let r = run(id, failed, name, events);
            r.action matches Action::RemoveImage { image } ==> {
                &&& r.phase matches Phase::RemovingPrevious { update, new_id }
                &&& image != update.old_image
                &&& image != update.new_image
                &&& r.world.tags.contains_pair(
                    session::old_reference(update.image),
                    update.old_image,
                )
            }
        }),
{
    lemma_run(id, failed, name, events);
}

/// On the way to a successful update the image before it is tagged `old`: the old
/// container is removed right after the tag was asked for, and an update is called
/// successful only after that.
pub proof fn law_the_image_before_an_update_is_tagged(
    id: Seq<char>,
    failed: Seq<FailedUpdateView>,
    name: Seq<char>,
    events: Seq<Event<Seq<char>>>,
)
    requires
        proper(id, failed, name, events),
        events.len() > 0,
    ensures
        ({
            let before = run(id, failed, name, events.drop_last());
            let r = run(id, failed, name, events);
            &&& r.phase matches Phase::RemovingBackup { update, new_id, previous }
                ==> before.action == (Action::Tag {
                image: update.old_image,
                repo: image::image_ref(update.image).0,
                tag: "old"@,
            })
            &&& r.phase is RemovingPrevious ==> before.phase is RemovingBackup
            &&& r.action matches Action::Finish(Outcome::Updated { .. }) ==> before.phase
                is RemovingBackup || before.phase is RemovingPrevious
        }),
{
    lemma_run(id, failed, name, events.drop_last());
}

/// Whether the first answer was this inspection, of a container with this image.
spec fn began_with(
    events: Seq<Event<Seq<char>>>,
    info: ContainerInspect,
    image: Seq<char>,
) -> bool {
    &&& events.len() > 0
    &&& events[0] == Event::<Seq<char>>::Container(Ok(info))
    &&& session::image_of(info) == Some(image)
}

/// A session carries the first inspection along.
proof fn lemma_inspection_is_kept(
    id: Seq<char>,
    failed: Seq<FailedUpdateView>,
    name: Seq<char>,
    events: Seq<Event<Seq<char>>>,
)
    requires
        proper(id, failed, name, events),
    ensures
        match run(id, failed, name, events).phase {
            Phase::Inspecting => events.len() == 0,
            Phase::Pulling { target } => began_with(events, target.info, target.image),
            Phase::Resolving { target } => began_with(events, target.info, target.image),
            Phase::Stopping { update, info } => began_with(events, info, update.image),
            Phase::BackingUp { update, info } => began_with(events, info, update.image),
            _ => true,
        },
    decreases events.len(),
{
    if events.len() > 0 {
        lemma_inspection_is_kept(id, failed, name, events.drop_last());
        assert(events.len() > 1 ==> events.drop_last()[0] == events[0]);
    }
}

/// All settings of the container are preserved: the new container is created under
/// the old one's name, for the same image reference, with every setting that the
/// inspection of the old one told.
pub proof fn law_the_new_container_has_the_old_settings(
    id: Seq<char>,
    failed: Seq<FailedUpdateView>,
    name: Seq<char>,
    events: Seq<Event<Seq<char>>>,
)
    requires
        proper(id, failed, name, events),
        run(id, failed, name, events).action is Create,
    ensures
        run(id, failed, name, events).action matches Action::Create { name: created, config } && {
            &&& created == name
            &&& events[0] matches Event::Container(Ok(info))
            &&& session::image_of(info) matches Some(image)
            &&& container::recreated(info, image) == Some(config)
            &&& config.image == Some(image)
            &&& info.config matches Some(cfg)
            &&& config.hostname == cfg.hostname
            &&& config.domainname == cfg.domainname
            &&& config.user == cfg.user
            &&& config.attach_stdin == cfg.attach_stdin
            &&& config.attach_stdout == cfg.attach_stdout
            &&& config.attach_stderr == cfg.attach_stderr
            &&& config.exposed_ports == cfg.exposed_ports
            &&& config.tty == cfg.tty
            &&& config.open_stdin == cfg.open_stdin
            &&& config.stdin_once == cfg.stdin_once
            &&& config.env == cfg.env
            &&& config.cmd == cfg.cmd
            &&& config.healthcheck == cfg.healthcheck
            &&& config.args_escaped == cfg.args_escaped
            &&& config.volumes == cfg.volumes
            &&& config.working_dir == cfg.working_dir
            &&& config.entrypoint == cfg.entrypoint
            &&& config.network_disabled == cfg.network_disabled
            &&& config.mac_address == cfg.mac_address
            &&& config.on_build == cfg.on_build
            &&& config.labels == cfg.labels
            &&& config.stop_signal == cfg.stop_signal
            &&& config.stop_timeout == cfg.stop_timeout
            &&& config.shell == cfg.shell
            &&& config.host_config == info.host_config
            &&& config.networking_config is Some <==> info.network_settings is Some
                && info.network_settings->0.networks is Some
            &&& config.networking_config matches Some(networking) ==> networking.endpoints_config
                == info.network_settings->0.networks->0
        },
{
    lemma_run(id, failed, name, events);
    lemma_inspection_is_kept(id, failed, name, events.drop_last());
    assert(events.len() > 1 ==> events.drop_last()[0] == events[0]);
}

/// How many more answers a session can take, at most.
pub open spec fn steps_left(phase: Phase<Seq<char>>) -> int {
    match phase {
        Phase::Inspecting => 2 * u64::MAX + 20,
        Phase::Pulling { target } => 2 * target.timeout + 19,
        Phase::Resolving { target } => 2 * target.timeout + 18,
        Phase::Stopping { update, .. } => 2 * update.timeout + 17,
        Phase::BackingUp { update, .. } => 2 * update.timeout + 16,
        Phase::Creating { update } => 2 * update.timeout + 15,
        Phase::Starting { update, .. } => 2 * update.timeout + 14,
        Phase::Checking { update, elapsed, .. } => if elapsed < update.timeout {
            2 * (update.timeout - elapsed) + 12
        } else {
            12
        },
        Phase::Waiting { update, elapsed, .. } => if elapsed < update.timeout {
            2 * (update.timeout - elapsed) + 13
        } else {
            13
        },
        Phase::FindingOld { .. } => 8,
        Phase::Tagging { .. } => 7,
        Phase::RemovingBackup { .. } => 6,
        Phase::RemovingPrevious { .. } => 5,
        Phase::Discarding { .. } => 4,
        Phase::Restoring { .. } => 3,
        Phase::Restarting { .. } => 2,
        Phase::Recording { .. } => 1,
        Phase::Finished => 0,
    }
}

/// An update comes to an end, whatever Docker answers: each answer brings the
/// session closer to it.
pub proof fn law_an_update_comes_to_an_end(session: SessionView, event: Event<Seq<char>>)
    requires
        session::answers(session.phase, event),
    ensures
        0 <= steps_left(session::next(session, event).0) < steps_left(session.phase),
        session::next(session, event).0 is Finished <==> session::next(session, event).1 is Finish,
{
}

/// What follows when the image pulled for `target` turns out to be `digest`.
pub open spec fn resolving(
    id: Seq<char>,
    failed: Seq<FailedUpdateView>,
    target: Target<Seq<char>>,
    digest: Seq<char>,
) -> (Phase<Seq<char>>, Action<Seq<char>>) {
    session::next(
        SessionView { id, failed, phase: Phase::Resolving { target } },
        Event::Image(Ok(Some(digest))),
    )
}

/// A container that runs the pulled image is left alone.
pub proof fn law_nothing_is_done_without_a_new_image(
    id: Seq<char>,
    failed: Seq<FailedUpdateView>,
    target: Target<Seq<char>>,
)
    ensures
        resolving(id, failed, target, target.old_image).1 == (Action::<Seq<char>>::Finish(
            Outcome::UpToDate { container: target.name },
        )),
{
}

/// An image that was rolled back is skipped for the container in the next run, as
/// long as its line stands in the log: nothing is done. Any other image is dealt with
/// as if the line were not there, so a new one is attempted, from the stop of the
/// container on, unless it has a line of its own.
pub proof fn law_a_rolled_back_image_is_skipped(
    log: Seq<char>,
    id: Seq<char>,
    target: Target<Seq<char>>,
    digest: Seq<char>,
    other: Seq<char>,
)
    requires
        failed::is_name(target.name),
        failed::is_digest(digest),
        digest != target.old_image,
        other != digest,
    ensures
        ({
            let after = failed::logged(failed::with_failure(log, target.name, digest));
            &&& resolving(id, after, target, digest).1 == (Action::<Seq<char>>::Finish(
                Outcome::Blocked { container: target.name, digest },
            ))
            &&& resolving(id, after, target, other) == resolving(
                id,
                failed::logged(log),
                target,
                other,
            )
            &&& other != target.old_image && !failed::blocked(
                failed::logged(log),
                target.name,
                other,
            ) ==> resolving(id, after, target, other).1 == (Action::<Seq<char>>::Stop { id })
        }),
{
    failed::law_recorded_failure_blocks_only_itself(log, target.name, digest, target.name, other);
}

/// A rollback ends with the failed image on record: it is reported only once the
/// pair of container and image was handed to the log.
pub proof fn law_a_rollback_is_recorded(
    id: Seq<char>,
    failed: Seq<FailedUpdateView>,
    name: Seq<char>,
    events: Seq<Event<Seq<char>>>,
)
    requires
        proper(id, failed, name, events),
        events.len() > 0,
        run(id, failed, name, events).action matches Action::Finish(outcome) && (outcome
            is RolledBack || outcome is RollbackFailed),
    ensures
        ({
            let before = run(id, failed, name, events.drop_last());
            before.phase matches Phase::Recording { update, error, rollback } && before.action == (
            Action::Record { container: name, digest: update.new_image })
        }),
{
    lemma_run(id, failed, name, events.drop_last());
}

/// What one run rolled back the next run skips: once what the rollback recorded stands
/// in the log, the same image is not tried again on the container, whatever else the
/// log holds, and nothing is done.
pub proof fn law_the_next_run_skips_what_was_rolled_back(
    id: Seq<char>,
    failed: Seq<FailedUpdateView>,
    name: Seq<char>,
    events: Seq<Event<Seq<char>>>,
    log: Seq<char>,
    next_id: Seq<char>,
    target: Target<Seq<char>>,
)
    requires
        proper(id, failed, name, events),
        events.len() > 0,
        run(id, failed, name, events).action matches Action::Finish(outcome) && (outcome
            is RolledBack || outcome is RollbackFailed),
        failed::is_name(name),
        target.name == name,
    ensures
        run(id, failed, name, events.drop_last()).action matches Action::Record {
            container,
            digest,
        } && (failed::is_digest(digest) && digest != target.old_image ==> resolving(
            next_id,
            failed::logged(failed::with_failure(log, container, digest)),
            target,
            digest,
        ).1 == (Action::<Seq<char>>::Finish(Outcome::Blocked { container: name, digest }))),
{
    law_a_rollback_is_recorded(id, failed, name, events);
    let digest = run(id, failed, name, events.drop_last()).action->digest;
    if failed::is_digest(digest) {
        failed::law_recorded_failure_blocks_only_itself(log, name, digest, name, digest);
    }
}

/// A new image that did not fail before is installed: the container is stopped for
/// it.
pub proof fn law_a_new_image_is_installed(
    id: Seq<char>,
    failed: Seq<FailedUpdateView>,
    target: Target<Seq<char>>,
    digest: Seq<char>,
)
    requires
        digest != target.old_image,
        !failed::blocked(failed, target.name, digest),
    ensures
        resolving(id, failed, target, digest).1 == (Action::<Seq<char>>::Stop { id }),
        resolving(id, failed, target, digest).0 matches Phase::Stopping { update, info }
            && update.new_image == digest && update.name == target.name && info == target.info,
{
}

/// Whether a session replaces its container, and nothing went wrong so far.
pub open spec fn on_the_way(phase: Phase<Seq<char>>) -> bool {
    match phase {
        Phase::Stopping { .. } => true,
        Phase::BackingUp { .. } => true,
        Phase::Creating { .. } => true,
        Phase::Starting { .. } => true,
        Phase::Checking { .. } => true,
        Phase::Waiting { .. } => true,
        Phase::FindingOld { .. } => true,
        Phase::Tagging { .. } => true,
        Phase::RemovingBackup { .. } => true,
        Phase::RemovingPrevious { .. } => true,
        _ => false,
    }
}

/// Whether an answer is a good one: Docker did what it was asked to, and a look at
/// the new container found nothing wrong with it. Once the new container is up,
/// every answer will do.
pub open spec fn goes_well(phase: Phase<Seq<char>>, event: Event<Seq<char>>) -> bool {
    match (phase, event) {
        (Phase::Tagging { .. }, _) => true,
        (Phase::RemovingBackup { .. }, _) => true,
        (Phase::RemovingPrevious { .. }, _) => true,
        (
            Phase::Checking { update, new_id, elapsed },
            Event::State(Ok(state)),
        ) => match startup::verdict(state, elapsed, update.timeout) {
            Verdict::Up => true,
            Verdict::Wait(_) => true,
            _ => false,
        },
        (_, Event::Created(result)) => result is Ok,
        (_, Event::State(result)) => result is Ok,
        (_, Event::Done(result)) => result is Ok,
        _ => true,
    }
}

/// An update that was begun is carried through as long as the answers are good ones:
/// it then goes on, or it is finished and successful.
pub proof fn law_good_answers_carry_an_update_through(
    id: Seq<char>,
    failed: Seq<FailedUpdateView>,
    name: Seq<char>,
    events: Seq<Event<Seq<char>>>,
)
    requires
        proper(id, failed, name, events),
        events.len() > 0,
        on_the_way(run(id, failed, name, events.drop_last()).phase),
        goes_well(run(id, failed, name, events.drop_last()).phase, events.last()),
    ensures
        ({
            let r = run(id, failed, name, events);
            on_the_way(r.phase) || r.action matches Action::Finish(Outcome::Updated { .. })
        }),
{
    lemma_inspection_is_kept(id, failed, name, events.drop_last());
}

/// A new container that fails the startup check is removed, by force unless it has
/// exited; the old one then gets its name back and is started again, and the image is
/// put on record.
pub proof fn law_a_failed_container_is_rolled_back(
    session: SessionView,
    update: Update<Seq<char>>,
    new_id: Seq<char>,
    elapsed: u64,
    state: Option<ContainerState>,
    removal: Result<(), Seq<char>>,
)
    requires
        session.phase == (Phase::Checking { update, new_id, elapsed }),
        startup::verdict(state, elapsed, update.timeout) !is Up,
        startup::verdict(state, elapsed, update.timeout) !is Wait,
    ensures
        ({
            let done = Event::<Seq<char>>::Done(Ok(()));
            let failed = session::next(session, Event::State(Ok(state)));
            let removed = session::next(
                SessionView { phase: failed.0, ..session },
                Event::Done(removal),
            );
            let renamed = session::next(SessionView { phase: removed.0, ..session }, done);
            let started = session::next(SessionView { phase: renamed.0, ..session }, done);
            &&& failed.1 == (Action::Remove {
                container: new_id,
                force: !(startup::verdict(state, elapsed, update.timeout) is Exited),
            })
            &&& removed.1 == (Action::Rename { id: session.id, name: update.name })
            &&& renamed.1 == (Action::<Seq<char>>::Start { id: session.id })
            &&& started.1 == (Action::Record {
                container: update.name,
                digest: update.new_image,
            })
        }),
{
}

/// The image that the tag `old` pointed to is removed once the tag has moved away
/// from it, after the old container, unless it is the new image.
pub proof fn law_the_image_tagged_before_is_removed(
    session: SessionView,
    update: Update<Seq<char>>,
    new_id: Seq<char>,
    previous: Seq<char>,
    removal: Result<(), Seq<char>>,
)
    requires
        session.phase == (Phase::FindingOld { update, new_id }),
        previous != update.old_image,
        previous != update.new_image,
    ensures
        ({
            let found = session::next(session, Event::Image(Ok(Some(previous))));
            let tagged = session::next(
                SessionView { phase: found.0, ..session },
                Event::Done(Ok(())),
            );
            let removed = session::next(
                SessionView { phase: tagged.0, ..session },
                Event::Done(removal),
            );
            &&& found.1 is Tag
            &&& tagged.1 == (Action::Remove {
                container: session::backup_name(update.name),
                force: false,
            })
            &&& removed.1 == (Action::<Seq<char>>::RemoveImage { image: previous })
        }),
{
}

} // verus!
