use conti::container::{Config, ContainerConfig, ContainerInspect};
use conti::failed::{parse_failed, record_failure, FailedUpdate};
use conti::startup::{ContainerState, HealthStatus};
use conti::update::{Action, Event, Outcome, Session, UpdateError};

fn s(text: &str) -> String {
    text.to_string()
}

fn done() -> Event<String> {
    Event::Done(Ok(()))
}

fn refused(cause: &str) -> Event<String> {
    Event::Done(Err(s(cause)))
}

fn image(id: &str) -> Event<String> {
    Event::Image(Ok(Some(s(id))))
}

fn created() -> Event<String> {
    Event::Created(Ok(s("new-id")))
}

fn looks(running: bool, exit_code: i64, health: Option<HealthStatus>) -> Event<String> {
    Event::State(Ok(Some(ContainerState {
        running: Some(running),
        exit_code: Some(exit_code),
        health,
    })))
}

/// A container called `web` that runs `sha256:old`, with a timeout of five seconds.
fn inspection() -> Event<String> {
    Event::Container(Ok(ContainerInspect {
        name: Some(s("/web")),
        image: Some(s("sha256:old")),
        config: Some(ContainerConfig {
            image: Some(s("registry:5000/nginx:1")),
            user: Some(s("www")),
            labels: Some(vec![(s("autoupdate.timeout"), s("5"))]),
            ..ContainerConfig::default()
        }),
        ..ContainerInspect::default()
    }))
}

/// What a session does on these answers, one action for each, after the first one.
fn actions(failed: Vec<FailedUpdate>, events: Vec<Event<String>>) -> Vec<Action<String>> {
    let (mut session, first) = Session::start("old-id", failed);
    assert_eq!(first, Action::InspectContainer { id: s("old-id") });
    let mut all = Vec::new();
    for event in events {
        assert!(session.awaits(&event), "{:?} {:?}", session, event);
        let (next, action) = session.advance(event);
        session = next;
        all.push(action);
    }
    all
}

/// The answers up to the point where the new container is looked at.
fn up_to_start() -> Vec<Event<String>> {
    vec![inspection(), done(), image("sha256:new"), done(), done(), created(), done()]
}

fn with(mut events: Vec<Event<String>>, more: Vec<Event<String>>) -> Vec<Event<String>> {
    events.extend(more);
    events
}

/// The last action on these answers.
fn last(events: Vec<Event<String>>) -> Action<String> {
    actions(Vec::new(), events).pop().unwrap()
}

fn failure(error: UpdateError<String>) -> Action<String> {
    Action::Finish(Outcome::Failed { container: s("web"), error })
}

fn updated() -> Action<String> {
    Action::Finish(Outcome::Updated {
        container: s("web"),
        old_image: s("sha256:old"),
        new_image: s("sha256:new"),
        id: s("new-id"),
    })
}

#[test]
fn update_goes_through_every_step() {
    let events = with(
        up_to_start(),
        vec![
            looks(true, 0, None),
            done(),
            looks(true, 0, None),
            image("sha256:older"),
            done(),
            done(),
            done(),
        ],
    );
    let config = Config {
        image: Some(s("registry:5000/nginx:1")),
        hostname: None,
        domainname: None,
        user: Some(s("www")),
        attach_stdin: None,
        attach_stdout: None,
        attach_stderr: None,
        exposed_ports: None,
        tty: None,
        open_stdin: None,
        stdin_once: None,
        env: None,
        cmd: None,
        healthcheck: None,
        args_escaped: None,
        volumes: None,
        working_dir: None,
        entrypoint: None,
        network_disabled: None,
        mac_address: None,
        on_build: None,
        labels: Some(vec![(s("autoupdate.timeout"), s("5"))]),
        stop_signal: None,
        stop_timeout: None,
        shell: None,
        host_config: None,
        networking_config: None,
    };
    assert_eq!(
        actions(Vec::new(), events),
        vec![
            Action::Pull { from_image: s("registry:5000/nginx"), tag: s("1") },
            Action::InspectImage { image: s("registry:5000/nginx:1") },
            Action::Stop { id: s("old-id") },
            Action::Rename { id: s("old-id"), name: s("web_conti_backup") },
            Action::Create { name: s("web"), config },
            Action::Start { id: s("new-id") },
            Action::InspectState { id: s("new-id") },
            Action::Sleep { seconds: 5 },
            Action::InspectState { id: s("new-id") },
            Action::InspectImage { image: s("registry:5000/nginx:old") },
            Action::Tag { image: s("sha256:old"), repo: s("registry:5000/nginx"), tag: s("old") },
            Action::Remove { container: s("web_conti_backup"), force: false },
            Action::RemoveImage { image: s("sha256:older") },
            updated(),
        ]
    );
}

#[test]
fn container_on_the_newest_image_is_left_alone() {
    assert_eq!(
        last(vec![inspection(), done(), image("sha256:old")]),
        Action::Finish(Outcome::UpToDate { container: s("web") })
    );
}

#[test]
fn image_that_failed_before_is_skipped() {
    let log = record_failure("", "web", "sha256:new");
    let events = || vec![inspection(), done(), image("sha256:new")];
    assert_eq!(
        actions(parse_failed(&log), events()).pop().unwrap(),
        Action::Finish(Outcome::Blocked { container: s("web"), digest: s("sha256:new") })
    );
    let log = record_failure("", "web", "sha256:bad");
    assert_eq!(
        actions(parse_failed(&log), events()).pop().unwrap(),
        Action::Stop { id: s("old-id") }
    );
    let log = record_failure("", "db", "sha256:new");
    assert_eq!(
        actions(parse_failed(&log), events()).pop().unwrap(),
        Action::Stop { id: s("old-id") }
    );
}

#[test]
fn slashes_before_the_name_are_cut_off() {
    let info = |name: &str| {
        Event::Container(Ok(ContainerInspect {
            name: Some(s(name)),
            image: Some(s("sha256:old")),
            config: Some(ContainerConfig { image: Some(s("nginx")), ..ContainerConfig::default() }),
            ..ContainerInspect::default()
        }))
    };
    for (name, plain) in [("/web", "web"), ("//web", "web"), ("web/", "web/"), ("/", "")] {
        assert_eq!(
            last(vec![info(name), done(), image("sha256:old")]),
            Action::Finish(Outcome::UpToDate { container: s(plain) })
        );
    }
}

#[test]
fn incomplete_inspection_ends_the_update() {
    let fails = |info: ContainerInspect, error: UpdateError<String>| {
        assert_eq!(
            last(vec![Event::Container(Ok(info))]),
            Action::Finish(Outcome::Failed { container: s("old-id"), error })
        );
    };
    let config = || Some(ContainerConfig { image: Some(s("nginx")), ..ContainerConfig::default() });
    fails(ContainerInspect::default(), UpdateError::NoImage);
    fails(
        ContainerInspect {
            config: Some(ContainerConfig::default()),
            name: Some(s("/web")),
            image: Some(s("sha256:old")),
            ..ContainerInspect::default()
        },
        UpdateError::NoImage,
    );
    fails(
        ContainerInspect { config: config(), ..ContainerInspect::default() },
        UpdateError::NoName,
    );
    fails(
        ContainerInspect { config: config(), name: Some(s("/web")), ..ContainerInspect::default() },
        UpdateError::NoImageId,
    );
    assert_eq!(
        last(vec![Event::Container(Err(s("gone")))]),
        Action::Finish(Outcome::Failed {
            container: s("old-id"),
            error: UpdateError::InspectContainer { cause: s("gone") },
        })
    );
}

#[test]
fn refusal_before_a_new_container_ends_the_update() {
    assert_eq!(
        last(vec![inspection(), refused("offline")]),
        failure(UpdateError::Pull { image: s("registry:5000/nginx:1"), cause: s("offline") })
    );
    assert_eq!(
        last(vec![inspection(), done(), Event::Image(Err(s("no such image")))]),
        failure(UpdateError::InspectImage { cause: s("no such image") })
    );
    assert_eq!(
        last(vec![inspection(), done(), Event::Image(Ok(None))]),
        failure(UpdateError::ImageWithoutId)
    );
    assert_eq!(
        last(vec![inspection(), done(), image("sha256:new"), refused("busy")]),
        failure(UpdateError::Stop { cause: s("busy") })
    );
    assert_eq!(
        last(vec![inspection(), done(), image("sha256:new"), done(), refused("taken")]),
        failure(UpdateError::Rename { cause: s("taken") })
    );
}

/// The actions and the end of a rollback from these answers on. The new container is
/// removed with or without force, or there is none.
fn rolls_back(events: Vec<Event<String>>, removal: Option<bool>, error: UpdateError<String>) {
    let before = events.len();
    let mut more = vec![done(), done(), done()];
    let mut expected = vec![
        Action::Rename { id: s("old-id"), name: s("web") },
        Action::Start { id: s("old-id") },
        Action::Record { container: s("web"), digest: s("sha256:new") },
        Action::Finish(Outcome::RolledBack { container: s("web"), error }),
    ];
    if let Some(force) = removal {
        more.push(done());
        expected.insert(0, Action::Remove { container: s("new-id"), force });
    }
    let all = actions(Vec::new(), with(events, more));
    assert_eq!(all[before - 1..], expected);
}

#[test]
fn container_that_is_not_created_is_rolled_back() {
    let events = vec![
        inspection(),
        done(),
        image("sha256:new"),
        done(),
        done(),
        Event::Created(Err(s("bad config"))),
    ];
    rolls_back(events, None, UpdateError::Create { cause: s("bad config") });
}

#[test]
fn container_that_is_not_started_is_rolled_back() {
    let mut events = up_to_start();
    events.pop();
    events.push(refused("port in use"));
    rolls_back(events, Some(true), UpdateError::Start { cause: s("port in use") });
}

#[test]
fn container_that_exits_is_rolled_back() {
    let events = with(
        up_to_start(),
        vec![looks(true, 0, None), done(), looks(false, 137, None)],
    );
    rolls_back(events, Some(false), UpdateError::Exited { code: 137 });
}

#[test]
fn container_without_a_state_counts_as_exited() {
    let events = with(
        up_to_start(),
        vec![Event::State(Ok(None)), done(), Event::State(Ok(None))],
    );
    rolls_back(events, Some(false), UpdateError::Exited { code: 0 });
}

#[test]
fn refused_removal_of_a_failed_container_does_not_matter() {
    let events = with(
        up_to_start(),
        vec![looks(true, 0, None), done(), looks(false, 1, None), refused("gone")],
    );
    assert_eq!(last(events), Action::Rename { id: s("old-id"), name: s("web") });
}

#[test]
fn unhealthy_container_is_rolled_back_at_once() {
    let events = with(
        up_to_start(),
        vec![
            looks(true, 0, Some(HealthStatus::Starting)),
            done(),
            looks(true, 0, Some(HealthStatus::Unhealthy)),
        ],
    );
    rolls_back(events, Some(true), UpdateError::Unhealthy);
}

#[test]
fn container_that_starts_too_long_is_rolled_back() {
    let starting = || looks(true, 0, Some(HealthStatus::Starting));
    let events = with(
        up_to_start(),
        vec![starting(), done(), starting(), done(), starting(), done(), starting()],
    );
    let polls = vec![starting(), done(), starting(), done(), starting()];
    let all = actions(Vec::new(), with(up_to_start(), polls));
    assert_eq!(all[7], Action::Sleep { seconds: 2 });
    assert_eq!(all[9], Action::Sleep { seconds: 2 });
    assert_eq!(all[11], Action::Sleep { seconds: 1 });
    rolls_back(events, Some(true), UpdateError::TimedOut);
}

#[test]
fn container_that_cannot_be_looked_at_is_rolled_back() {
    let events = with(up_to_start(), vec![Event::State(Err(s("gone")))]);
    rolls_back(events, Some(true), UpdateError::InspectNew { cause: s("gone") });
}

#[test]
fn healthy_container_is_kept_at_once() {
    let all = actions(
        Vec::new(),
        with(
            up_to_start(),
            vec![
                looks(true, 0, Some(HealthStatus::Starting)),
                done(),
                looks(true, 0, Some(HealthStatus::Healthy)),
                Event::Image(Err(s("no such image"))),
                done(),
                done(),
            ],
        ),
    );
    assert_eq!(all[7], Action::Sleep { seconds: 2 });
    assert_eq!(all[9], Action::InspectImage { image: s("registry:5000/nginx:old") });
    assert_eq!(all[12], updated());
}

#[test]
fn failed_rollback_is_recorded_and_told() {
    let events = || {
        with(up_to_start(), vec![looks(true, 0, Some(HealthStatus::Unhealthy)), refused("stuck")])
    };
    let ends = |more: Vec<Event<String>>, rollback: UpdateError<String>| {
        let mut all = actions(Vec::new(), with(events(), more));
        assert_eq!(
            all.pop().unwrap(),
            Action::Finish(Outcome::RollbackFailed {
                container: s("web"),
                error: UpdateError::Unhealthy,
                rollback,
            })
        );
        assert_eq!(
            all.pop().unwrap(),
            Action::Record { container: s("web"), digest: s("sha256:new") }
        );
    };
    ends(vec![refused("taken"), done()], UpdateError::RenameBack { cause: s("taken") });
    ends(vec![done(), refused("broken"), done()], UpdateError::Restart { cause: s("broken") });
}

/// The actions after the new container was found up, on these answers.
fn clean_up(events: Vec<Event<String>>) -> Vec<Action<String>> {
    let before = with(up_to_start(), vec![looks(true, 0, Some(HealthStatus::Healthy))]);
    let len = before.len();
    actions(Vec::new(), with(before, events)).split_off(len)
}

#[test]
fn image_keeps_its_tag_if_the_tag_has_not_moved() {
    let backup = || Action::Remove { container: s("web_conti_backup"), force: false };
    for previous in ["sha256:old", "sha256:new"] {
        let all = clean_up(vec![image(previous), done(), done()]);
        assert_eq!(all[1..], vec![backup(), updated()]);
    }
    let all = clean_up(vec![image("sha256:older"), refused("no"), done()]);
    assert_eq!(all[1..], vec![backup(), updated()]);
    let all = clean_up(vec![Event::Image(Ok(None)), done(), done()]);
    assert_eq!(all[1..], vec![backup(), updated()]);
}

#[test]
fn refusals_while_cleaning_up_do_not_matter() {
    let all = clean_up(vec![image("sha256:older"), done(), refused("busy"), refused("in use")]);
    assert_eq!(all[3], updated());
}

#[test]
fn only_the_answer_to_the_action_is_awaited() {
    let (session, _) = Session::start("old-id", Vec::new());
    assert!(session.awaits(&inspection()));
    assert!(!session.awaits(&done()));
    assert!(!session.awaits(&image("sha256:new")));
    assert!(!session.awaits(&created()));
    assert!(!session.awaits(&looks(true, 0, None)));
    let (session, _) = session.advance(inspection());
    assert!(session.awaits(&done()));
    assert!(!session.awaits(&inspection()));
    let (session, _) = session.advance(done());
    assert!(session.awaits(&image("sha256:old")));
    assert!(!session.awaits(&done()));
    let (session, _) = session.advance(image("sha256:old"));
    for event in [inspection(), done(), image("x"), created(), looks(true, 0, None)] {
        assert!(!session.awaits(&event));
    }
}
