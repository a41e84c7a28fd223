//! What a session asks of Docker, told by the answers that it was given.
//!
//! The laws here hold of every session from its start on, whatever the answers are: each
//! action follows from what the first inspection told, from the id of the image that was
//! pulled and from the id of the new container.
use vstd::prelude::*;

use crate::container::ContainerInspect;
use crate::container;
use crate::failed::FailedUpdateView;
use crate::failed;
use crate::image;
use crate::session;
use crate::startup::{ContainerState, HealthStatus};
use crate::startup;
use crate::update::{Action, Event, Outcome, Phase, SessionView, Target, Update, UpdateError};

verus! {

/// The phase and the action of a session of the container `id` after these answers.
pub open spec fn after(
    id: Seq<char>,
    failed: Seq<FailedUpdateView>,
    events: Seq<Event<Seq<char>>>,
) -> (Phase<Seq<char>>, Action<Seq<char>>)
    decreases events.len(),
{
    if events.len() == 0 {
        (Phase::Inspecting, Action::InspectContainer { id })
    } else {
        let phase = after(id, failed, events.drop_last()).0;
        session::next(SessionView { id, failed, phase }, events.last())
    }
}

/// Whether each event is an answer to the action before it.
pub open spec fn fits(
    id: Seq<char>,
    failed: Seq<FailedUpdateView>,
    events: Seq<Event<Seq<char>>>,
) -> bool
    decreases events.len(),
{
    events.len() > 0 ==> {
        &&& fits(id, failed, events.drop_last())
        &&& session::answers(after(id, failed, events.drop_last()).0, events.last())
    }
}

/// The seconds that a session has slept.
pub open spec fn slept(
    id: Seq<char>,
    failed: Seq<FailedUpdateView>,
    events: Seq<Event<Seq<char>>>,
) -> nat
    decreases events.len(),
{
    if events.len() == 0 {
        0
    } else {
        slept(id, failed, events.drop_last()) + match after(id, failed, events.drop_last()).1 {
            Action::Sleep { seconds } => seconds as nat,
            _ => 0,
        }
    }
}

/// Whether the first answer is an inspection that tells all that an update needs.
spec fn inspected(events: Seq<Event<Seq<char>>>) -> bool {
    &&& events.len() > 0
    &&& events[0] matches Event::Container(Ok(info))
    &&& info.config is Some
    &&& info.config->0.image is Some
    &&& info.name is Some
    &&& info.image is Some
}

/// What the first inspection told of a container, under inspection for an update.
spec fn told_target(events: Seq<Event<Seq<char>>>, target: Target<Seq<char>>) -> bool {
    let info = events[0]->Container_0->Ok_0;
    &&& inspected(events)
    &&& target.info == info
    &&& target.name == session::plain_name(info.name->0@)
    &&& target.image == info.config->0.image->0@
    &&& target.old_image == info.image->0@
    &&& target.timeout == container::timeout_of(container::labels_of(info))
}

/// What the first inspection and the look at the pulled image told of an update.
spec fn told_update(events: Seq<Event<Seq<char>>>, update: Update<Seq<char>>) -> bool {
    let info = events[0]->Container_0->Ok_0;
    &&& inspected(events)
    &&& events.len() > 2
    &&& events[2] == Event::Image(Ok(Some(update.new_image)))
    &&& update.name == session::plain_name(info.name->0@)
    &&& update.image == info.config->0.image->0@
    &&& update.old_image == info.image->0@
    &&& update.new_image != update.old_image
    &&& update.timeout == container::timeout_of(container::labels_of(info))
}

/// What the creation of the new container told.
spec fn told_new(events: Seq<Event<Seq<char>>>, new_id: Seq<char>) -> bool {
    events.len() > 5 && events[5] == Event::Created(Ok(new_id))
}

/// What a session knows, and asks for, in each phase.
spec fn tells(
    id: Seq<char>,
    failed: Seq<FailedUpdateView>,
    events: Seq<Event<Seq<char>>>,
) -> bool {
    let (phase, action) = after(id, failed, events);
    let info = events[0]->Container_0->Ok_0;
    let time = slept(id, failed, events);
    match phase {
        Phase::Inspecting => events.len() == 0 && action == (Action::InspectContainer { id })
            && time == 0,
        Phase::Pulling { target } => {
            &&& events.len() == 1
            &&& told_target(events, target)
            &&& action == (Action::Pull {
                from_image: image::image_ref(target.image).0,
                tag: image::image_ref(target.image).1,
            })
            &&& time == 0
        },
        Phase::Resolving { target } => {
            &&& events.len() == 2
            &&& told_target(events, target)
            &&& action == (Action::InspectImage { image: target.image })
            &&& time == 0
        },
        Phase::Stopping { update, info: kept } => {
            &&& events.len() == 3
            &&& told_update(events, update)
            &&& kept == info
            &&& !failed.contains(
                FailedUpdateView { container: update.name, digest: update.new_image },
            )
            &&& action == (Action::Stop { id })
            &&& time == 0
        },
        Phase::BackingUp { update, info: kept } => {
            &&& events.len() == 4
            &&& told_update(events, update)
            &&& kept == info
            &&& action == (Action::Rename { id, name: update.name + "_conti_backup"@ })
            &&& time == 0
        },
        Phase::Creating { update } => {
            &&& events.len() == 5
            &&& told_update(events, update)
            &&& action matches Action::Create { name, config }
            &&& name == update.name
            &&& container::recreated(info, update.image) == Some(config)
            &&& time == 0
        },
        Phase::Starting { update, new_id } => {
            &&& events.len() == 6
            &&& told_update(events, update)
            &&& told_new(events, new_id)
            &&& action == (Action::Start { id: new_id })
            &&& time == 0
        },
        Phase::Checking { update, new_id, elapsed } => {
            &&& told_update(events, update)
            &&& told_new(events, new_id)
            &&& action == (Action::InspectState { id: new_id })
            &&& time == elapsed
            &&& elapsed <= update.timeout
        },
        Phase::Waiting { update, new_id, elapsed } => {
            &&& told_update(events, update)
            &&& told_new(events, new_id)
            &&& action matches Action::Sleep { seconds }
            &&& 0 < seconds
            &&& time + seconds == elapsed
            &&& elapsed <= update.timeout
        },
        Phase::FindingOld { update, new_id } => {
            &&& told_update(events, update)
            &&& told_new(events, new_id)
            &&& action == (Action::InspectImage {
                image: image::image_ref(update.image).0 + ":"@ + "old"@,
            })
        },
        Phase::Tagging { update, new_id, previous } => {
            &&& told_update(events, update)
            &&& told_new(events, new_id)
            &&& events.last() matches Event::Image(answer)
            &&& previous == (if answer is Ok {
                answer->Ok_0
            } else {
                None
            })
            &&& action == (Action::Tag {
                image: update.old_image,
                repo: image::image_ref(update.image).0,
                tag: "old"@,
            })
        },
        Phase::RemovingBackup { update, new_id, previous } => {
            &&& told_update(events, update)
            &&& told_new(events, new_id)
            &&& events.len() > 2
            &&& previous is Some ==> {
                &&& events[events.len() - 2] == Event::Image(
                    Ok::<Option<Seq<char>>, Seq<char>>(previous),
                )
                &&& events.last() matches Event::Done(Ok(_))
                &&& previous->0 != update.old_image
                &&& previous->0 != update.new_image
            }
            &&& action == (Action::Remove {
                container: update.name + "_conti_backup"@,
                force: false,
            })
        },
        Phase::RemovingPrevious { update, new_id } => {
            &&& told_update(events, update)
            &&& told_new(events, new_id)
            &&& events.len() > 3
            &&& action matches Action::RemoveImage { image }
            &&& events[events.len() - 3] == Event::Image(
                Ok::<Option<Seq<char>>, Seq<char>>(Some(image)),
            )
            &&& events[events.len() - 2] matches Event::Done(Ok(_))
            &&& image != update.old_image
            &&& image != update.new_image
        },
        Phase::Discarding { update, error } => {
            &&& told_update(events, update)
            &&& events.len() > 5
            &&& action matches Action::Remove { container, force }
            &&& told_new(events, container)
            &&& force <==> !(error is Exited)
        },
        Phase::Restoring { update, error } => {
            &&& told_update(events, update)
            &&& action == (Action::Rename { id, name: update.name })
        },
        Phase::Restarting { update, error } => {
            &&& told_update(events, update)
            &&& action == (Action::Start { id })
        },
        Phase::Recording { update, error, rollback } => {
            &&& told_update(events, update)
            &&& action == (Action::Record { container: update.name, digest: update.new_image })
        },
        Phase::Finished => {
            &&& events.len() > 0
            &&& action matches Action::Finish(outcome)
            &&& match outcome {
                Outcome::UpToDate { container } => {
                    &&& inspected(events)
                    &&& events.len() == 3
                    &&& container == session::plain_name(info.name->0@)
                    &&& events[2] == Event::Image(Ok(Some(info.image->0@)))
                },
                Outcome::Blocked { container, digest } => {
                    &&& inspected(events)
                    &&& events.len() == 3
                    &&& container == session::plain_name(info.name->0@)
                    &&& events[2] == Event::Image(Ok(Some(digest)))
                    &&& digest != info.image->0@
                    &&& failed.contains(FailedUpdateView { container, digest })
                },
                Outcome::Updated { container, old_image, new_image, id: new_id } => {
                    &&& inspected(events)
                    &&& container == session::plain_name(info.name->0@)
                    &&& old_image == info.image->0@
                    &&& events.len() > 5
                    &&& events[2] == Event::Image(Ok(Some(new_image)))
                    &&& new_image != old_image
                    &&& told_new(events, new_id)
                },
                Outcome::RolledBack { container, error } => {
                    &&& inspected(events)
                    &&& container == session::plain_name(info.name->0@)
                },
                Outcome::RollbackFailed { container, error, rollback } => {
                    &&& inspected(events)
                    &&& container == session::plain_name(info.name->0@)
                },
                Outcome::Failed { container, error } => {
                    &&& events.len() == 1 ==> container == id
                    &&& events.len() > 1 ==> inspected(events) && container == session::plain_name(
                        info.name->0@,
                    )
                },
            }
        },
    }
}

/// What a session knows, it has been told.
proof fn lemma_tells(
    id: Seq<char>,
    failed: Seq<FailedUpdateView>,
    events: Seq<Event<Seq<char>>>,
)
    requires
        fits(id, failed, events),
    ensures
        tells(id, failed, events),
    decreases events.len(),
{
    if events.len() > 0 {
        let init = events.drop_last();
        lemma_tells(id, failed, init);
        let n = init.len() as int;
        assert(events.last() == events[n]);
        assert(n > 0 ==> init[0] == events[0] && init.last() == events[n - 1]);
        assert(n > 1 ==> init[n - 2] == events[n - 2]);
        assert(n > 2 ==> init[2] == events[2]);
        assert(n > 5 ==> init[5] == events[5]);
    }
}

/// Each action has its kind of answer, and no other is taken: the inspection of a
/// container tells the container, that of an image an id, a creation the new id and a look
/// a state, and everything else that it was done. Behind the end nothing is awaited.
pub proof fn law_each_action_has_its_kind_of_answer(
    id: Seq<char>,
    failed: Seq<FailedUpdateView>,
    events: Seq<Event<Seq<char>>>,
    event: Event<Seq<char>>,
)
    requires
        fits(id, failed, events),
    ensures
        ({
            let (phase, action) = after(id, failed, events);
            let awaited = session::answers(phase, event);
            match action {
                Action::InspectContainer { .. } => awaited <==> event is Container,
                Action::InspectImage { .. } => awaited <==> event is Image,
                Action::Create { .. } => awaited <==> event is Created,
                Action::InspectState { .. } => awaited <==> event is State,
                Action::Finish(_) => !awaited,
                _ => awaited <==> event is Done,
            }
        }),
{
    lemma_tells(id, failed, events);
}

/// The image is pulled that the inspection told, by its repository and its tag: its
/// reference is the two with a colon between, or it has no tag, and then `latest` is pulled.
/// The tag is empty only where the reference ends in a colon.
pub proof fn law_the_image_told_is_pulled(
    id: Seq<char>,
    failed: Seq<FailedUpdateView>,
    events: Seq<Event<Seq<char>>>,
)
    requires
        fits(id, failed, events),
    ensures
        ({
            let (phase, action) = after(id, failed, events);
            let info = events[0]->Container_0->Ok_0;
            phase is Pulling ==> {
                let reference = info.config->0.image->0@;
                &&& events.len() == 1
                &&& events[0] is Container && events[0]->Container_0 is Ok
                &&& info.config is Some && info.config->0.image is Some
                &&& action matches Action::Pull { from_image, tag }
                &&& {
                    ||| reference == from_image + seq![':'] + tag && !tag.contains(':')
                        && !tag.contains('/')
                    ||| reference == from_image && tag == "latest"@ && forall|
                        n: Seq<char>,
                        t: Seq<char>,
                    |
                        reference == #[trigger] (n + seq![':'] + t) ==> t.contains(':')
                            || t.contains('/')
                }
                &&& tag.len() == 0 ==> reference.len() > 0 && reference.last() == ':'
            }
        }),
{
    lemma_tells(id, failed, events);
    let (phase, action) = after(id, failed, events);
    if phase is Pulling {
        let reference = events[0]->Container_0->Ok_0.config->0.image->0@;
        image::law_the_two_halves_of_a_reference(
            reference,
            action->from_image,
            action->Pull_tag,
        );
    }
}

/// An inspection that tells the image, the name and the image's id is followed by the pull.
pub proof fn law_a_full_inspection_is_followed_by_the_pull(
    id: Seq<char>,
    failed: Seq<FailedUpdateView>,
    info: ContainerInspect,
)
    requires
        info.config is Some && info.config->0.image is Some,
        info.name is Some,
        info.image is Some,
    ensures
        after(id, failed, seq![Event::Container(Ok(info))]).0 is Pulling,
        after(id, failed, seq![Event::Container(Ok(info))]).1 is Pull,
{
    reveal_with_fuel(after, 2);
    assert(seq![Event::<Seq<char>>::Container(Ok(info))].drop_last() == Seq::<
        Event<Seq<char>>,
    >::empty());
}

/// The pulled image is looked up under the reference that the inspection told.
pub proof fn law_the_pulled_image_is_looked_up(
    id: Seq<char>,
    failed: Seq<FailedUpdateView>,
    events: Seq<Event<Seq<char>>>,
)
    requires
        fits(id, failed, events),
    ensures
        ({
            let (phase, action) = after(id, failed, events);
            let info = events[0]->Container_0->Ok_0;
            phase is Resolving ==> events.len() == 2 && action == (Action::<
                Seq<char>,
            >::InspectImage { image: info.config->0.image->0@ })
        }),
{
    lemma_tells(id, failed, events);
}

/// The old container is stopped by its id and set aside, under the name that the inspection
/// told with an ending.
pub proof fn law_the_old_container_is_set_aside(
    id: Seq<char>,
    failed: Seq<FailedUpdateView>,
    events: Seq<Event<Seq<char>>>,
)
    requires
        fits(id, failed, events),
    ensures
        ({
            let (phase, action) = after(id, failed, events);
            let info = events[0]->Container_0->Ok_0;
            &&& phase is Stopping ==> action == (Action::<Seq<char>>::Stop { id })
            &&& phase is BackingUp ==> action == (Action::<Seq<char>>::Rename {
                id,
                name: session::plain_name(info.name->0@) + "_conti_backup"@,
            })
        }),
{
    lemma_tells(id, failed, events);
}

/// The new container is created under the name that the inspection told, from the same
/// reference, with every setting that the inspection told, field by field, with its host
/// settings and with its networks.
pub proof fn law_the_new_container_has_every_setting(
    id: Seq<char>,
    failed: Seq<FailedUpdateView>,
    events: Seq<Event<Seq<char>>>,
)
    requires
        fits(id, failed, events),
    ensures
        ({
            let (phase, action) = after(id, failed, events);
            let info = events[0]->Container_0->Ok_0;
            let cfg = info.config->0;
            phase is Creating || action is Create ==> {
                &&& info.config is Some
                &&& action matches Action::Create { name, config }
                &&& name == session::plain_name(info.name->0@)
                &&& cfg.image is Some
                &&& config.image == Some(cfg.image->0@)
                &&& config.hostname == cfg.hostname
                &&& config.domainname == cfg.domainname
                &&& config.user == cfg.user
                &&& config.attach_stdin == cfg.attach_stdin
                &&& config.attach_stdout == cfg.attach_stdout
                &&& config.attach_stderr == cfg.attach_stderr
                &&& config.exposed_ports == cfg.exposed_ports
                &&& config.tty == cfg.tty
                &&& config.open_stdin == cfg.open_stdin
                &&& config.stdin_once == cfg.stdin_once
                &&& config.env == cfg.env
                &&& config.cmd == cfg.cmd
                &&& config.healthcheck == cfg.healthcheck
                &&& config.args_escaped == cfg.args_escaped
                &&& config.volumes == cfg.volumes
                &&& config.working_dir == cfg.working_dir
                &&& config.entrypoint == cfg.entrypoint
                &&& config.network_disabled == cfg.network_disabled
                &&& config.mac_address == cfg.mac_address
                &&& config.on_build == cfg.on_build
                &&& config.labels == cfg.labels
                &&& config.stop_signal == cfg.stop_signal
                &&& config.stop_timeout == cfg.stop_timeout
                &&& config.shell == cfg.shell
                &&& config.host_config == info.host_config
                &&& config.networking_config is Some <==> info.network_settings is Some
                    && info.network_settings->0.networks is Some
                &&& config.networking_config matches Some(networking)
                    ==> networking.endpoints_config == info.network_settings->0.networks->0
            }
        }),
{
    lemma_tells(id, failed, events);
}

/// The container that is started and looked at is the one that was created.
pub proof fn law_the_new_container_is_watched(
    id: Seq<char>,
    failed: Seq<FailedUpdateView>,
    events: Seq<Event<Seq<char>>>,
)
    requires
        fits(id, failed, events),
    ensures
        ({
            let (phase, action) = after(id, failed, events);
            let created = Event::<Seq<char>>::Created(Ok(action->InspectState_id));
            &&& phase is Starting ==> action is Start && events[5] == Event::<Seq<char>>::Created(
                Ok(action->Start_id),
            )
            &&& phase is Checking ==> action is InspectState && events[5] == created
        }),
{
    lemma_tells(id, failed, events);
}

/// The session sleeps as long as it says: the seconds slept since the new container was
/// started are the time by which it is judged, a wait is of just the seconds by which that
/// time goes on, and it never passes the timeout that the labels gave.
pub proof fn law_the_time_elapsed_was_slept(
    id: Seq<char>,
    failed: Seq<FailedUpdateView>,
    events: Seq<Event<Seq<char>>>,
)
    requires
        fits(id, failed, events),
    ensures
        ({
            let (phase, action) = after(id, failed, events);
            let info = events[0]->Container_0->Ok_0;
            let timeout = container::timeout_of(container::labels_of(info));
            &&& phase matches Phase::Checking { update, new_id, elapsed } ==> {
                &&& slept(id, failed, events) == elapsed
                &&& elapsed <= timeout
            }
            &&& phase matches Phase::Waiting { update, new_id, elapsed } ==> {
                &&& action matches Action::Sleep { seconds }
                &&& 0 < seconds
                &&& slept(id, failed, events) + seconds == elapsed
                &&& elapsed <= timeout
            }
            &&& action is Sleep ==> phase is Waiting
        }),
{
    lemma_tells(id, failed, events);
}

/// From one look to the wait behind it the time goes on by the seconds to sleep.
pub proof fn law_a_wait_is_as_long_as_it_counts(
    session: SessionView,
    update: Update<Seq<char>>,
    new_id: Seq<char>,
    elapsed: u64,
    event: Event<Seq<char>>,
)
    requires
        session.phase == (Phase::Checking { update, new_id, elapsed }),
        session::answers(session.phase, event),
    ensures
        session::next(session, event).0 matches Phase::Waiting {
            update: kept,
            new_id: looked_at,
            elapsed: later,
        } ==> {
            &&& kept == update
            &&& looked_at == new_id
            &&& elapsed < later
            &&& session::next(session, event).1 == (Action::<Seq<char>>::Sleep {
                seconds: (later - elapsed) as u64,
            })
        },
        session::next(session, event).1 is Sleep ==> session::next(session, event).0 is Waiting,
{
}

/// A new container without a health check is judged when the session has slept for the
/// timeout that the labels gave, and not before; it is up exactly if it runs then, and
/// otherwise it is rolled back with its exit code. One with a health check is up as soon as
/// it is healthy, is rolled back as soon as it is unhealthy, and is looked at every two
/// seconds while it is starting, until the timeout.
pub proof fn law_a_new_container_is_judged_in_time(
    id: Seq<char>,
    failed: Seq<FailedUpdateView>,
    events: Seq<Event<Seq<char>>>,
    state: ContainerState,
)
    requires
        fits(id, failed, events.push(Event::State(Ok(Some(state))))),
    ensures
        ({
            let info = events[0]->Container_0->Ok_0;
            let timeout = container::timeout_of(container::labels_of(info));
            let time = slept(id, failed, events);
            let (phase, action) = after(
                id,
                failed,
                events.push(Event::State(Ok(Some(state)))),
            );
            match state.health {
                Some(HealthStatus::Healthy) => phase is FindingOld,
                Some(HealthStatus::Unhealthy) => phase matches Phase::Discarding { update, error }
                    && error is Unhealthy,
                Some(HealthStatus::Starting) => {
                    &&& time < timeout ==> {
                        &&& action matches Action::Sleep { seconds }
                        &&& seconds == 2 || (seconds == 1 && time + 1 == timeout)
                    }
                    &&& time >= timeout ==> (phase matches Phase::Discarding { update, error }
                        && error is TimedOut)
                },
                _ => {
                    &&& time < timeout ==> (action matches Action::Sleep { seconds } && time
                        + seconds == timeout)
                    &&& time >= timeout ==> time == timeout
                    &&& time >= timeout && state.running == Some(true) ==> phase is FindingOld
                    &&& time >= timeout && state.running != Some(true) ==> {
                        &&& phase matches Phase::Discarding { update, error }
                        &&& error matches UpdateError::Exited { code }
                        &&& state.exit_code is Some ==> code == state.exit_code->0
                        &&& state.exit_code is None ==> code == 0
                    }
                },
            }
        }),
{
    let all = events.push(Event::State(Ok(Some(state))));
    assert(all.drop_last() == events);
    lemma_tells(id, failed, events);
    let (phase, action) = after(id, failed, events);
    if let Phase::Checking { update, new_id, elapsed } = phase {
        startup::law_the_verdict_on_a_report(state, elapsed, update.timeout);
    }
}

/// A new container that nothing is told of counts as stopped once the timeout was slept.
pub proof fn law_a_new_container_without_a_report_is_judged_in_time(
    id: Seq<char>,
    failed: Seq<FailedUpdateView>,
    events: Seq<Event<Seq<char>>>,
)
    requires
        fits(id, failed, events.push(Event::State(Ok(None)))),
    ensures
        ({
            let info = events[0]->Container_0->Ok_0;
            let timeout = container::timeout_of(container::labels_of(info));
            let time = slept(id, failed, events);
            let (phase, action) = after(id, failed, events.push(Event::State(Ok(None))));
            &&& time < timeout ==> (action matches Action::Sleep { seconds } && time + seconds
                == timeout)
            &&& time >= timeout ==> (phase matches Phase::Discarding { update, error } && error
                == (UpdateError::<Seq<char>>::Exited { code: 0 }))
        }),
{
    let all = events.push(Event::State(Ok(None)));
    assert(all.drop_last() == events);
    lemma_tells(id, failed, events);
    let (phase, action) = after(id, failed, events);
    if let Phase::Checking { update, new_id, elapsed } = phase {
        startup::law_the_verdict_without_a_report(elapsed, update.timeout);
    }
}

/// The image that the container ran gets the tag `old` of its own repository, once that
/// tag was looked up.
pub proof fn law_the_image_that_ran_is_tagged(
    id: Seq<char>,
    failed: Seq<FailedUpdateView>,
    events: Seq<Event<Seq<char>>>,
)
    requires
        fits(id, failed, events),
    ensures
        ({
            let (phase, action) = after(id, failed, events);
            let info = events[0]->Container_0->Ok_0;
            let repo = image::image_ref(info.config->0.image->0@).0;
            &&& phase is FindingOld ==> action == (Action::<Seq<char>>::InspectImage {
                image: repo + ":old"@,
            })
            &&& phase is Tagging ==> action == (Action::<Seq<char>>::Tag {
                image: info.image->0@,
                repo,
                tag: "old"@,
            })
        }),
{
    lemma_tells(id, failed, events);
    reveal_strlit(":old");
    reveal_strlit(":");
    reveal_strlit("old");
    let repo = image::image_ref(events[0]->Container_0->Ok_0.config->0.image->0@).0;
    assert(repo + ":"@ + "old"@ == repo + ":old"@);
}

/// What is removed behind a successful update is the container that was set aside, without
/// force, and then the image that had the tag `old` when it was looked up, where the tag
/// has moved and the image is neither the one before nor the new one.
pub proof fn law_what_an_update_removes(
    id: Seq<char>,
    failed: Seq<FailedUpdateView>,
    events: Seq<Event<Seq<char>>>,
)
    requires
        fits(id, failed, events),
    ensures
        ({
            let (phase, action) = after(id, failed, events);
            let info = events[0]->Container_0->Ok_0;
            &&& phase is RemovingBackup ==> action == (Action::<Seq<char>>::Remove {
                container: session::plain_name(info.name->0@) + "_conti_backup"@,
                force: false,
            })
            &&& phase is RemovingPrevious || action is RemoveImage ==> {
                &&& action matches Action::RemoveImage { image }
                &&& events.len() > 3
                &&& events[events.len() - 3] == Event::<Seq<char>>::Image(Ok(Some(image)))
                &&& events[events.len() - 2] matches Event::Done(Ok(_))
                &&& image != info.image->0@
                &&& events[2] != Event::<Seq<char>>::Image(Ok(Some(image)))
            }
        }),
{
    lemma_tells(id, failed, events);
}

/// A rollback removes the container that was created, by force unless it has exited, gives
/// the old container the name back that the inspection told, starts it by its id, and puts
/// that name and the id of the pulled image on record.
pub proof fn law_a_rollback_restores_what_was_told(
    id: Seq<char>,
    failed: Seq<FailedUpdateView>,
    events: Seq<Event<Seq<char>>>,
)
    requires
        fits(id, failed, events),
    ensures
        ({
            let (phase, action) = after(id, failed, events);
            let info = events[0]->Container_0->Ok_0;
            let name = session::plain_name(info.name->0@);
            &&& phase matches Phase::Discarding { update, error } ==> {
                &&& action matches Action::Remove { container, force }
                &&& events[5] == Event::<Seq<char>>::Created(Ok(container))
                &&& force <==> !(error is Exited)
            }
            &&& phase is Restoring ==> action == (Action::<Seq<char>>::Rename { id, name })
            &&& phase is Restarting ==> action == (Action::<Seq<char>>::Start { id })
            &&& phase is Recording ==> {
                &&& action matches Action::Record { container, digest }
                &&& container == name
                &&& events[2] == Event::<Seq<char>>::Image(Ok(Some(digest)))
            }
        }),
{
    lemma_tells(id, failed, events);
}

/// An outcome tells what happened: the container by the name that the inspection told, or
/// by its id where there was no name yet; the image that it ran; the image that was pulled;
/// and the new container that was created.
pub proof fn law_an_outcome_tells_what_happened(
    id: Seq<char>,
    failed: Seq<FailedUpdateView>,
    events: Seq<Event<Seq<char>>>,
)
    requires
        fits(id, failed, events),
    ensures
        ({
            let (phase, action) = after(id, failed, events);
            let info = events[0]->Container_0->Ok_0;
            let name = session::plain_name(info.name->0@);
            action matches Action::Finish(outcome) ==> match outcome {
                Outcome::UpToDate { container } => container == name && events[2] == Event::<
                    Seq<char>,
                >::Image(Ok(Some(info.image->0@))),
                Outcome::Blocked { container, digest } => {
                    &&& container == name
                    &&& events[2] == Event::<Seq<char>>::Image(Ok(Some(digest)))
                    &&& digest != info.image->0@
                    &&& exists|i: int|
                        0 <= i < failed.len() && (#[trigger] failed[i]).container == container
                            && failed[i].digest == digest
                },
                Outcome::Updated { container, old_image, new_image, id: new_id } => {
                    &&& container == name
                    &&& old_image == info.image->0@
                    &&& events[2] == Event::<Seq<char>>::Image(Ok(Some(new_image)))
                    &&& events[5] == Event::<Seq<char>>::Created(Ok(new_id))
                },
                Outcome::RolledBack { container, error } => container == name,
                Outcome::RollbackFailed { container, error, rollback } => container == name,
                Outcome::Failed { container, error } => if events.len() == 1 {
                    container == id
                } else {
                    container == name
                },
            }
        }),
{
    lemma_tells(id, failed, events);
    if let Action::Finish(Outcome::Blocked { container, digest }) = after(id, failed, events).1 {
        let update = FailedUpdateView { container, digest };
        let i = choose|i: int| 0 <= i < failed.len() && failed[i] == update;
        assert(failed[i].container == container);
    }
}

/// Each good answer leads to the step behind it, and none is left out: stop, set aside,
/// create, start, look; then look up the tag, tag, remove the old container. A rollback
/// removes, renames, starts and records.
pub proof fn law_the_steps_come_in_order(session: SessionView, event: Event<Seq<char>>)
    requires
        session::answers(session.phase, event),
    ensures
        ({
            let (phase, action) = session::next(session, event);
            let good = event == Event::<Seq<char>>::Done(Ok(()));
            match session.phase {
                Phase::Pulling { target } => good ==> phase == (Phase::Resolving { target }),
                Phase::Stopping { update, info } => good ==> phase == (Phase::BackingUp {
                    update,
                    info,
                }),
                Phase::BackingUp { update, info } => good && info.config is Some ==> phase == (
                Phase::Creating { update }),
                Phase::Creating { update } => event matches Event::Created(Ok(new_id)) ==> phase
                    == (Phase::Starting { update, new_id }),
                Phase::Starting { update, new_id } => good ==> phase == (Phase::Checking {
                    update,
                    new_id,
                    elapsed: 0,
                }),
                Phase::Waiting { update, new_id, elapsed } => phase == (Phase::Checking {
                    update,
                    new_id,
                    elapsed,
                }),
                Phase::FindingOld { update, new_id } => phase matches Phase::Tagging {
                    update: u,
                    new_id: n,
                    previous,
                } && u == update && n == new_id,
                Phase::Tagging { update, new_id, .. } => phase matches Phase::RemovingBackup {
                    update: u,
                    new_id: n,
                    previous,
                } && u == update && n == new_id,
                Phase::RemovingBackup { update, new_id, previous } => {
                    &&& previous is Some ==> phase == (Phase::RemovingPrevious { update, new_id })
                    &&& previous is None ==> action matches Action::Finish(
                        Outcome::Updated { .. },
                    )
                },
                Phase::RemovingPrevious { .. } => action matches Action::Finish(
                    Outcome::Updated { .. },
                ),
                Phase::Discarding { update, error } => phase == (Phase::Restoring {
                    update,
                    error,
                }),
                Phase::Restoring { update, error } => good ==> phase == (Phase::Restarting {
                    update,
                    error,
                }),
                Phase::Restarting { update, error } => good ==> phase == (Phase::Recording {
                    update,
                    error,
                    rollback: None,
                }),
                Phase::Recording { update, error, rollback } => {
                    &&& rollback is None ==> (action matches Action::Finish(
                        Outcome::RolledBack { container, error: e },
                    ) && e == error)
                    &&& rollback is Some ==> (action matches Action::Finish(
                        Outcome::RollbackFailed { container, error: e, rollback: r },
                    ) && e == error && r == rollback->0)
                },
                _ => true,
            }
        }),
{
}

/// A refusal is reported as the failure of the step that was refused, with the cause that
/// was told. Before there is a new container it ends the update; behind that it leads to the
/// rollback; and in the rollback it is told beside the first failure.
pub proof fn law_a_refusal_is_reported_as_the_step_refused(
    session: SessionView,
    event: Event<Seq<char>>,
    cause: Seq<char>,
)
    requires
        session::answers(session.phase, event),
        event == Event::<Seq<char>>::Container(Err(cause)) || event == Event::<Seq<char>>::Image(
            Err(cause),
        ) || event == Event::<Seq<char>>::Created(Err(cause)) || event == Event::<
            Seq<char>,
        >::State(Err(cause)) || event == Event::<Seq<char>>::Done(Err(cause)),
    ensures
        ({
            let (phase, action) = session::next(session, event);
            match session.phase {
                Phase::Inspecting => action == (Action::Finish(
                    Outcome::Failed {
                        container: session.id,
                        error: UpdateError::InspectContainer { cause },
                    },
                )),
                Phase::Pulling { target } => action == (Action::Finish(
                    Outcome::Failed {
                        container: target.name,
                        error: UpdateError::Pull { image: target.image, cause },
                    },
                )),
                Phase::Resolving { target } => action == (Action::Finish(
                    Outcome::Failed {
                        container: target.name,
                        error: UpdateError::InspectImage { cause },
                    },
                )),
                Phase::Stopping { update, .. } => action == (Action::Finish(
                    Outcome::Failed { container: update.name, error: UpdateError::Stop { cause } },
                )),
                Phase::BackingUp { update, .. } => action == (Action::Finish(
                    Outcome::Failed {
                        container: update.name,
                        error: UpdateError::Rename { cause },
                    },
                )),
                Phase::Creating { update } => phase == (Phase::Restoring {
                    update,
                    error: UpdateError::Create { cause },
                }),
                Phase::Starting { update, .. } => phase == (Phase::Discarding {
                    update,
                    error: UpdateError::Start { cause },
                }),
                Phase::Checking { update, .. } => phase == (Phase::Discarding {
                    update,
                    error: UpdateError::InspectNew { cause },
                }),
                Phase::Restoring { update, error } => phase == (Phase::Recording {
                    update,
                    error,
                    rollback: Some(UpdateError::RenameBack { cause }),
                }),
                Phase::Restarting { update, error } => phase == (Phase::Recording {
                    update,
                    error,
                    rollback: Some(UpdateError::Restart { cause }),
                }),
                Phase::Tagging { .. } => phase matches Phase::RemovingBackup {
                    update,
                    new_id,
                    previous,
                } && previous is None,
                _ => true,
            }
        }),
{
}

/// What an inspection leaves out ends the update, told in this order: the image, the name,
/// the image's id. So does an image without an id.
pub proof fn law_what_is_missing_ends_the_update(
    session: SessionView,
    info: ContainerInspect,
    target: Target<Seq<char>>,
)
    ensures
        session.phase is Inspecting ==> {
            let action = session::next(session, Event::Container(Ok(info))).1;
            let failure = |error: UpdateError<Seq<char>>|
                Action::Finish(Outcome::Failed { container: session.id, error });
            if info.config is None || info.config->0.image is None {
                action == failure(UpdateError::NoImage)
            } else if info.name is None {
                action == failure(UpdateError::NoName)
            } else if info.image is None {
                action == failure(UpdateError::NoImageId)
            } else {
                action is Pull
            }
        },
        session.phase == (Phase::Resolving { target }) ==> session::next(
            session,
            Event::Image(Ok(None)),
        ).1 == (Action::Finish(
            Outcome::Failed { container: target.name, error: UpdateError::ImageWithoutId },
        )),
{
}

/// The pulled image decides: the one that runs is left alone, one that failed before on the
/// container is skipped, and for any other the container is stopped.
pub proof fn law_the_pulled_image_decides(
    session: SessionView,
    target: Target<Seq<char>>,
    digest: Seq<char>,
)
    requires
        session.phase == (Phase::Resolving { target }),
    ensures
        ({
            let action = session::next(session, Event::Image(Ok(Some(digest)))).1;
            let recorded = exists|i: int|
                0 <= i < session.failed.len() && (#[trigger] session.failed[i]).container
                    == target.name && session.failed[i].digest == digest;
            if digest == target.old_image {
                action == (Action::Finish(Outcome::UpToDate { container: target.name }))
            } else if recorded {
                action == (Action::Finish(Outcome::Blocked { container: target.name, digest }))
            } else {
                action == (Action::<Seq<char>>::Stop { id: session.id })
            }
        }),
{
    failed::law_what_failed_is_blocked(session.failed, target.name, digest);
}

} // verus!
