//! The update of one container, as a state machine.
//!
//! A [`Session`] names the next action to take on Docker, is told what came of
//! it, and names the next one, until the update is finished: the container runs
//! the new image, or it was rolled back, or nothing had to be done.
use vstd::prelude::*;

use crate::container::{Config, ContainerInspect};
use crate::failed::{FailedUpdate, FailedUpdateView};
use crate::failed;
use crate::startup::ContainerState;
use crate::text;

verus! {

/// Why an update failed. The strings are an `S`; a cause is what Docker said.
#[derive(Debug, PartialEq)]
pub enum UpdateError<S> {
    InspectContainer { cause: S },
    NoImage,
    NoName,
    NoImageId,
    Pull { image: S, cause: S },
    InspectImage { cause: S },
    ImageWithoutId,
    Stop { cause: S },
    Rename { cause: S },
    MissingConfig,
    Create { cause: S },
    Start { cause: S },
    InspectNew { cause: S },
    Exited { code: i64 },
    Unhealthy,
    TimedOut,
    RenameBack { cause: S },
    Restart { cause: S },
}

/// A container under inspection for an update.
#[derive(Debug, PartialEq)]
pub struct Target<S> {
    pub name: S,
    /// The reference of the image, as the container was created with it.
    pub image: S,
    /// The id of the image that the container runs.
    pub old_image: S,
    /// The seconds that a new container has to start up.
    pub timeout: u64,
    pub info: ContainerInspect,
}

/// An update to be carried out.
#[derive(Debug, PartialEq)]
pub struct Update<S> {
    pub name: S,
    pub image: S,
    pub old_image: S,
    /// The id of the image to install.
    pub new_image: S,
    pub timeout: u64,
}

/// How the update of a container ended.
#[derive(Debug, PartialEq)]
pub enum Outcome<S> {
    /// The container runs the newest image.
    UpToDate { container: S },
    /// The newest image failed before and was not tried again.
    Blocked { container: S, digest: S },
    /// The container was recreated on the new image.
    Updated { container: S, old_image: S, new_image: S, id: S },
    /// The new container failed and the old one runs again.
    RolledBack { container: S, error: UpdateError<S> },
    /// The new container failed, and so did the rollback.
    RollbackFailed { container: S, error: UpdateError<S>, rollback: UpdateError<S> },
    /// The update failed before a new container was made.
    Failed { container: S, error: UpdateError<S> },
}

/// What to do next.
#[derive(Debug, PartialEq)]
pub enum Action<S> {
    InspectContainer { id: S },
    Pull { from_image: S, tag: S },
    InspectImage { image: S },
    Stop { id: S },
    Rename { id: S, name: S },
    Create { name: S, config: Config<S> },
    Start { id: S },
    InspectState { id: S },
    Sleep { seconds: u64 },
    Tag { image: S, repo: S, tag: S },
    Remove { container: S, force: bool },
    RemoveImage { image: S },
    /// Adds a line to the log of failed updates.
    Record { container: S, digest: S },
    Finish(Outcome<S>),
}

/// What came of an action.
#[derive(Debug, PartialEq)]
pub enum Event<S> {
    /// The answer to `InspectContainer`.
    Container(Result<ContainerInspect, S>),
    /// The answer to `InspectImage`: the image's id.
    Image(Result<Option<S>, S>),
    /// The answer to `Create`: the new container's id.
    Created(Result<S, S>),
    /// The answer to `InspectState`.
    State(Result<Option<ContainerState>, S>),
    /// The answer to every other action.
    Done(Result<(), S>),
}

/// How far an update has come, told by the action that is under way.
#[derive(Debug, PartialEq)]
pub enum Phase<S> {
    Inspecting,
    Pulling { target: Target<S> },
    Resolving { target: Target<S> },
    Stopping { update: Update<S>, info: ContainerInspect },
    BackingUp { update: Update<S>, info: ContainerInspect },
    Creating { update: Update<S> },
    Starting { update: Update<S>, new_id: S },
    Checking { update: Update<S>, new_id: S, elapsed: u64 },
    /// `elapsed` is the time when the wait is over.
    Waiting { update: Update<S>, new_id: S, elapsed: u64 },
    FindingOld { update: Update<S>, new_id: S },
    Tagging { update: Update<S>, new_id: S, previous: Option<S> },
    RemovingBackup { update: Update<S>, new_id: S, previous: Option<S> },
    RemovingPrevious { update: Update<S>, new_id: S },
    Discarding { update: Update<S>, error: UpdateError<S> },
    Restoring { update: Update<S>, error: UpdateError<S> },
    Restarting { update: Update<S>, error: UpdateError<S> },
    Recording { update: Update<S>, error: UpdateError<S>, rollback: Option<UpdateError<S>> },
    Finished,
}

/// The update of one container.
#[derive(Debug, PartialEq)]
pub struct Session {
    pub id: String,
    /// The updates that failed before.
    pub failed: Vec<FailedUpdate>,
    pub phase: Phase<String>,
}

/// The update of one container, over character sequences.
pub struct SessionView {
    pub id: Seq<char>,
    pub failed: Seq<FailedUpdateView>,
    pub phase: Phase<Seq<char>>,
}

impl View for UpdateError<String> {
    type V = UpdateError<Seq<char>>;

    open spec fn view(&self) -> UpdateError<Seq<char>> {
        match *self {
            UpdateError::InspectContainer { cause } => UpdateError::InspectContainer {
                cause: cause@,
            },
            UpdateError::NoImage => UpdateError::NoImage,
            UpdateError::NoName => UpdateError::NoName,
            UpdateError::NoImageId => UpdateError::NoImageId,
            UpdateError::Pull { image, cause } => UpdateError::Pull {
                image: image@,
                cause: cause@,
            },
            UpdateError::InspectImage { cause } => UpdateError::InspectImage { cause: cause@ },
            UpdateError::ImageWithoutId => UpdateError::ImageWithoutId,
            UpdateError::Stop { cause } => UpdateError::Stop { cause: cause@ },
            UpdateError::Rename { cause } => UpdateError::Rename { cause: cause@ },
            UpdateError::MissingConfig => UpdateError::MissingConfig,
            UpdateError::Create { cause } => UpdateError::Create { cause: cause@ },
            UpdateError::Start { cause } => UpdateError::Start { cause: cause@ },
            UpdateError::InspectNew { cause } => UpdateError::InspectNew { cause: cause@ },
            UpdateError::Exited { code } => UpdateError::Exited { code },
            UpdateError::Unhealthy => UpdateError::Unhealthy,
            UpdateError::TimedOut => UpdateError::TimedOut,
            UpdateError::RenameBack { cause } => UpdateError::RenameBack { cause: cause@ },
            UpdateError::Restart { cause } => UpdateError::Restart { cause: cause@ },
        }
    }
}

impl View for Target<String> {
    type V = Target<Seq<char>>;

    open spec fn view(&self) -> Target<Seq<char>> {
        Target {
            name: self.name@,
            image: self.image@,
            old_image: self.old_image@,
            timeout: self.timeout,
            info: self.info,
        }
    }
}

impl View for Update<String> {
    type V = Update<Seq<char>>;

    open spec fn view(&self) -> Update<Seq<char>> {
        Update {
            name: self.name@,
            image: self.image@,
            old_image: self.old_image@,
            new_image: self.new_image@,
            timeout: self.timeout,
        }
    }
}

impl View for Outcome<String> {
    type V = Outcome<Seq<char>>;

    open spec fn view(&self) -> Outcome<Seq<char>> {
        match *self {
            Outcome::UpToDate { container } => Outcome::UpToDate { container: container@ },
            Outcome::Blocked { container, digest } => Outcome::Blocked {
                container: container@,
                digest: digest@,
            },
            Outcome::Updated { container, old_image, new_image, id } => Outcome::Updated {
                container: container@,
                old_image: old_image@,
                new_image: new_image@,
                id: id@,
            },
            Outcome::RolledBack { container, error } => Outcome::RolledBack {
                container: container@,
                error: error@,
            },
            Outcome::RollbackFailed { container, error, rollback } => Outcome::RollbackFailed {
                container: container@,
                error: error@,
                rollback: rollback@,
            },
            Outcome::Failed { container, error } => Outcome::Failed {
                container: container@,
                error: error@,
            },
        }
    }
}

impl View for Action<String> {
    type V = Action<Seq<char>>;

    open spec fn view(&self) -> Action<Seq<char>> {
        match *self {
            Action::InspectContainer { id } => Action::InspectContainer { id: id@ },
            Action::Pull { from_image, tag } => Action::Pull {
                from_image: from_image@,
                tag: tag@,
            },
            Action::InspectImage { image } => Action::InspectImage { image: image@ },
            Action::Stop { id } => Action::Stop { id: id@ },
            Action::Rename { id, name } => Action::Rename { id: id@, name: name@ },
            Action::Create { name, config } => Action::Create { name: name@, config: config@ },
            Action::Start { id } => Action::Start { id: id@ },
            Action::InspectState { id } => Action::InspectState { id: id@ },
            Action::Sleep { seconds } => Action::Sleep { seconds },
            Action::Tag { image, repo, tag } => Action::Tag {
                image: image@,
                repo: repo@,
                tag: tag@,
            },
            Action::Remove { container, force } => Action::Remove { container: container@, force },
            Action::RemoveImage { image } => Action::RemoveImage { image: image@ },
            Action::Record { container, digest } => Action::Record {
                container: container@,
                digest: digest@,
            },
            Action::Finish(outcome) => Action::Finish(outcome@),
        }
    }
}

impl View for Event<String> {
    type V = Event<Seq<char>>;

    open spec fn view(&self) -> Event<Seq<char>> {
        match *self {
            Event::Container(Ok(info)) => Event::Container(Ok(info)),
            Event::Container(Err(cause)) => Event::Container(Err(cause@)),
            Event::Image(Ok(id)) => Event::Image(Ok(text::content(id))),
            Event::Image(Err(cause)) => Event::Image(Err(cause@)),
            Event::Created(Ok(id)) => Event::Created(Ok(id@)),
            Event::Created(Err(cause)) => Event::Created(Err(cause@)),
            Event::State(Ok(state)) => Event::State(Ok(state)),
            Event::State(Err(cause)) => Event::State(Err(cause@)),
            Event::Done(Ok(())) => Event::Done(Ok(())),
            Event::Done(Err(cause)) => Event::Done(Err(cause@)),
        }
    }
}

impl View for Phase<String> {
    type V = Phase<Seq<char>>;

    open spec fn view(&self) -> Phase<Seq<char>> {
        match *self {
            Phase::Inspecting => Phase::Inspecting,
            Phase::Pulling { target } => Phase::Pulling { target: target@ },
            Phase::Resolving { target } => Phase::Resolving { target: target@ },
            Phase::Stopping { update, info } => Phase::Stopping { update: update@, info },
            Phase::BackingUp { update, info } => Phase::BackingUp { update: update@, info },
            Phase::Creating { update } => Phase::Creating { update: update@ },
            Phase::Starting { update, new_id } => Phase::Starting {
                update: update@,
                new_id: new_id@,
            },
            Phase::Checking { update, new_id, elapsed } => Phase::Checking {
                update: update@,
                new_id: new_id@,
                elapsed,
            },
            Phase::Waiting { update, new_id, elapsed } => Phase::Waiting {
                update: update@,
                new_id: new_id@,
                elapsed,
            },
            Phase::FindingOld { update, new_id } => Phase::FindingOld {
                update: update@,
                new_id: new_id@,
            },
            Phase::Tagging { update, new_id, previous } => Phase::Tagging {
                update: update@,
                new_id: new_id@,
                previous: text::content(previous),
            },
            Phase::RemovingBackup { update, new_id, previous } => Phase::RemovingBackup {
                update: update@,
                new_id: new_id@,
                previous: text::content(previous),
            },
            Phase::RemovingPrevious { update, new_id } => Phase::RemovingPrevious {
                update: update@,
                new_id: new_id@,
            },
            Phase::Discarding { update, error } => Phase::Discarding {
                update: update@,
                error: error@,
            },
            Phase::Restoring { update, error } => Phase::Restoring {
                update: update@,
                error: error@,
            },
            Phase::Restarting { update, error } => Phase::Restarting {
                update: update@,
                error: error@,
            },
            Phase::Recording { update, error, rollback } => Phase::Recording {
                update: update@,
                error: error@,
                rollback: match rollback {
                    Some(rollback) => Some(rollback@),
                    None => None,
                },
            },
            Phase::Finished => Phase::Finished,
        }
    }
}

impl View for Session {
    type V = SessionView;

    open spec fn view(&self) -> SessionView {
        SessionView { id: self.id@, failed: failed::updates(self.failed@), phase: self.phase@ }
    }
}

/// What is seen of an error is what it holds: its kind, with the same words.
pub proof fn law_an_error_is_seen_as_it_is(error: UpdateError<String>)
    ensures
        error is InspectContainer ==> error@ is InspectContainer
            && error@->InspectContainer_cause == error->InspectContainer_cause@,
        error is Pull ==> error@ is Pull && error@->Pull_image == error->Pull_image@,
        error is Pull ==> error@ is Pull && error@->Pull_cause == error->Pull_cause@,
        error is InspectImage ==> error@ is InspectImage
            && error@->InspectImage_cause == error->InspectImage_cause@,
        error is Stop ==> error@ is Stop && error@->Stop_cause == error->Stop_cause@,
        error is Rename ==> error@ is Rename && error@->Rename_cause == error->Rename_cause@,
        error is Create ==> error@ is Create && error@->Create_cause == error->Create_cause@,
        error is Start ==> error@ is Start && error@->Start_cause == error->Start_cause@,
        error is InspectNew ==> error@ is InspectNew
            && error@->InspectNew_cause == error->InspectNew_cause@,
        error is RenameBack ==> error@ is RenameBack
            && error@->RenameBack_cause == error->RenameBack_cause@,
        error is Restart ==> error@ is Restart && error@->Restart_cause == error->Restart_cause@,
        error is NoImage ==> error@ is NoImage,
        error is NoName ==> error@ is NoName,
        error is NoImageId ==> error@ is NoImageId,
        error is ImageWithoutId ==> error@ is ImageWithoutId,
        error is MissingConfig ==> error@ is MissingConfig,
        error is Unhealthy ==> error@ is Unhealthy,
        error is TimedOut ==> error@ is TimedOut,
        error is Exited ==> error@ is Exited && error@->code == error->code,
{
}

/// What is seen of an outcome is what it holds.
pub proof fn law_an_outcome_is_seen_as_it_is(outcome: Outcome<String>)
    ensures
        outcome is UpToDate ==> outcome@ is UpToDate
            && outcome@->UpToDate_container == outcome->UpToDate_container@,
        outcome is Blocked ==> outcome@ is Blocked
            && outcome@->Blocked_container == outcome->Blocked_container@,
        outcome is Blocked ==> outcome@ is Blocked
            && outcome@->Blocked_digest == outcome->Blocked_digest@,
        outcome is Updated ==> outcome@ is Updated
            && outcome@->Updated_container == outcome->Updated_container@,
        outcome is Updated ==> outcome@ is Updated
            && outcome@->Updated_old_image == outcome->Updated_old_image@,
        outcome is Updated ==> outcome@ is Updated
            && outcome@->Updated_new_image == outcome->Updated_new_image@,
        outcome is Updated ==> outcome@ is Updated && outcome@->Updated_id == outcome->Updated_id@,
        outcome is RolledBack ==> outcome@ is RolledBack
            && outcome@->RolledBack_container == outcome->RolledBack_container@,
        outcome is RolledBack ==> outcome@ is RolledBack
            && outcome@->RolledBack_error == outcome->RolledBack_error@,
        outcome is RollbackFailed ==> outcome@ is RollbackFailed
            && outcome@->RollbackFailed_container == outcome->RollbackFailed_container@,
        outcome is RollbackFailed ==> outcome@ is RollbackFailed
            && outcome@->RollbackFailed_error == outcome->RollbackFailed_error@,
        outcome is RollbackFailed ==> outcome@ is RollbackFailed
            && outcome@->RollbackFailed_rollback == outcome->RollbackFailed_rollback@,
        outcome is Failed ==> outcome@ is Failed
            && outcome@->Failed_container == outcome->Failed_container@,
        outcome is Failed ==> outcome@ is Failed
            && outcome@->Failed_error == outcome->Failed_error@,
{
}

/// What is seen of an action is what it asks for.
pub proof fn law_an_action_is_seen_as_it_is(action: Action<String>)
    ensures
        action is InspectContainer ==> action@ is InspectContainer
            && action@->InspectContainer_id == action->InspectContainer_id@,
        action is Pull ==> action@ is Pull && action@->Pull_from_image == action->Pull_from_image@,
        action is Pull ==> action@ is Pull && action@->Pull_tag == action->Pull_tag@,
        action is InspectImage ==> action@ is InspectImage
            && action@->InspectImage_image == action->InspectImage_image@,
        action is Stop ==> action@ is Stop && action@->Stop_id == action->Stop_id@,
        action is Rename ==> action@ is Rename && action@->Rename_id == action->Rename_id@,
        action is Rename ==> action@ is Rename && action@->Rename_name == action->Rename_name@,
        action is Create ==> action@ is Create && action@->Create_name == action->Create_name@,
        action is Create ==> action@ is Create && action@->Create_config == action->Create_config@,
        action is Start ==> action@ is Start && action@->Start_id == action->Start_id@,
        action is InspectState ==> action@ is InspectState
            && action@->InspectState_id == action->InspectState_id@,
        action is Tag ==> action@ is Tag && action@->Tag_image == action->Tag_image@,
        action is Tag ==> action@ is Tag && action@->Tag_repo == action->Tag_repo@,
        action is Tag ==> action@ is Tag && action@->Tag_tag == action->Tag_tag@,
        action is Remove ==> action@ is Remove
            && action@->Remove_container == action->Remove_container@,
        action is RemoveImage ==> action@ is RemoveImage
            && action@->RemoveImage_image == action->RemoveImage_image@,
        action is Record ==> action@ is Record
            && action@->Record_container == action->Record_container@,
        action is Record ==> action@ is Record && action@->Record_digest == action->Record_digest@,
        action is Sleep ==> action@ is Sleep && action@->seconds == action->seconds,
        action is Remove ==> action@->force == action->force,
        action is Finish ==> action@ is Finish && action@->Finish_0 == action->Finish_0@,
{
}

/// What is seen of an answer is what it tells.
pub proof fn law_an_answer_is_seen_as_it_is(event: Event<String>)
    ensures
        event matches Event::Container(Ok(info)) ==> event@ == Event::<Seq<char>>::Container(
            Ok(info),
        ),
        event matches Event::Container(Err(cause)) ==> event@ == Event::Container(Err(cause@)),
        event matches Event::Image(Ok(Some(id))) ==> event@ == Event::Image(Ok(Some(id@))),
        event matches Event::Image(Ok(None)) ==> event@ == Event::<Seq<char>>::Image(Ok(None)),
        event matches Event::Image(Err(cause)) ==> event@ == Event::Image(Err(cause@)),
        event matches Event::Created(Ok(id)) ==> event@ == Event::Created(Ok(id@)),
        event matches Event::Created(Err(cause)) ==> event@ == Event::Created(Err(cause@)),
        event matches Event::State(Ok(state)) ==> event@ == Event::<Seq<char>>::State(Ok(state)),
        event matches Event::State(Err(cause)) ==> event@ == Event::State(Err(cause@)),
        event matches Event::Done(Ok(())) ==> event@ == Event::<Seq<char>>::Done(Ok(())),
        event matches Event::Done(Err(cause)) ==> event@ == Event::Done(Err(cause@)),
{
}

} // verus!
