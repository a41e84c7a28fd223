//! Containers: which ones to update, what an inspection of one tells, and the
//! configuration of the container that replaces it.
use bollard::models::{EndpointSettings, HealthConfig, HostConfig};
use std::collections::HashMap;
use vstd::prelude::*;

use crate::text;

verus! {

/// The settings of a container's host side. The library carries them through.
#[verifier::external_type_specification]
#[verifier::external_body]
pub struct ExHostConfig(bollard::models::HostConfig);

/// A container's place in one network. The library carries it through.
#[verifier::external_type_specification]
#[verifier::external_body]
pub struct ExEndpointSettings(bollard::models::EndpointSettings);

/// A health check. The library carries it through.
#[verifier::external_type_specification]
#[verifier::external_body]
pub struct ExHealthConfig(bollard::models::HealthConfig);

/// The configuration of a container as an inspection reports it. Each label key
/// occurs once in `labels`, as in the map that Docker keeps.
#[derive(Debug, Default, PartialEq)]
pub struct ContainerConfig {
    pub image: Option<String>,
    pub hostname: Option<String>,
    pub domainname: Option<String>,
    pub user: Option<String>,
    pub attach_stdin: Option<bool>,
    pub attach_stdout: Option<bool>,
    pub attach_stderr: Option<bool>,
    pub exposed_ports: Option<HashMap<String, HashMap<(), ()>>>,
    pub tty: Option<bool>,
    pub open_stdin: Option<bool>,
    pub stdin_once: Option<bool>,
    pub env: Option<Vec<String>>,
    pub cmd: Option<Vec<String>>,
    pub healthcheck: Option<HealthConfig>,
    pub args_escaped: Option<bool>,
    pub volumes: Option<HashMap<String, HashMap<(), ()>>>,
    pub working_dir: Option<String>,
    pub entrypoint: Option<Vec<String>>,
    pub network_disabled: Option<bool>,
    pub mac_address: Option<String>,
    pub on_build: Option<Vec<String>>,
    pub labels: Option<Vec<(String, String)>>,
    pub stop_signal: Option<String>,
    pub stop_timeout: Option<i64>,
    pub shell: Option<Vec<String>>,
}

/// The networks that a container belongs to.
#[derive(Debug, Default, PartialEq)]
pub struct NetworkSettings {
    pub networks: Option<HashMap<String, EndpointSettings>>,
}

/// What an inspection tells of a container.
#[derive(Debug, Default, PartialEq)]
pub struct ContainerInspect {
    pub name: Option<String>,
    /// The id of the image that the container runs.
    pub image: Option<String>,
    pub config: Option<ContainerConfig>,
    pub host_config: Option<HostConfig>,
    pub network_settings: Option<NetworkSettings>,
}

/// The networks that a new container is to join.
#[derive(Debug, PartialEq)]
pub struct NetworkingConfig {
    pub endpoints_config: HashMap<String, EndpointSettings>,
}

/// The configuration of a container to be created, its image given as an `I`.
#[derive(Debug, PartialEq)]
pub struct Config<I> {
    pub image: Option<I>,
    pub hostname: Option<String>,
    pub domainname: Option<String>,
    pub user: Option<String>,
    pub attach_stdin: Option<bool>,
    pub attach_stdout: Option<bool>,
    pub attach_stderr: Option<bool>,
    pub exposed_ports: Option<HashMap<String, HashMap<(), ()>>>,
    pub tty: Option<bool>,
    pub open_stdin: Option<bool>,
    pub stdin_once: Option<bool>,
    pub env: Option<Vec<String>>,
    pub cmd: Option<Vec<String>>,
    pub healthcheck: Option<HealthConfig>,
    pub args_escaped: Option<bool>,
    pub volumes: Option<HashMap<String, HashMap<(), ()>>>,
    pub working_dir: Option<String>,
    pub entrypoint: Option<Vec<String>>,
    pub network_disabled: Option<bool>,
    pub mac_address: Option<String>,
    pub on_build: Option<Vec<String>>,
    pub labels: Option<Vec<(String, String)>>,
    pub stop_signal: Option<String>,
    pub stop_timeout: Option<i64>,
    pub shell: Option<Vec<String>>,
    pub host_config: Option<HostConfig>,
    pub networking_config: Option<NetworkingConfig>,
}

impl View for Config<String> {
    type V = Config<Seq<char>>;

    open spec fn view(&self) -> Config<Seq<char>> {
        Config {
            image: text::content(self.image),
            hostname: self.hostname,
            domainname: self.domainname,
            user: self.user,
            attach_stdin: self.attach_stdin,
            attach_stdout: self.attach_stdout,
            attach_stderr: self.attach_stderr,
            exposed_ports: self.exposed_ports,
            tty: self.tty,
            open_stdin: self.open_stdin,
            stdin_once: self.stdin_once,
            env: self.env,
            cmd: self.cmd,
            healthcheck: self.healthcheck,
            args_escaped: self.args_escaped,
            volumes: self.volumes,
            working_dir: self.working_dir,
            entrypoint: self.entrypoint,
            network_disabled: self.network_disabled,
            mac_address: self.mac_address,
            on_build: self.on_build,
            labels: self.labels,
            stop_signal: self.stop_signal,
            stop_timeout: self.stop_timeout,
            shell: self.shell,
            host_config: self.host_config,
            networking_config: self.networking_config,
        }
    }
}

/// The configuration that recreates an inspected container on `image`: every
/// setting of the old container, its host settings and its networks, with
/// nothing but the image set anew. None where the inspection has no settings.
pub open spec fn recreated(info: ContainerInspect, image: Seq<char>) -> Option<Config<Seq<char>>> {
    match info.config {
        None => None,
        Some(cfg) => Some(
            Config {
                image: Some(image),
                hostname: cfg.hostname,
                domainname: cfg.domainname,
                user: cfg.user,
                attach_stdin: cfg.attach_stdin,
                attach_stdout: cfg.attach_stdout,
                attach_stderr: cfg.attach_stderr,
                exposed_ports: cfg.exposed_ports,
                tty: cfg.tty,
                open_stdin: cfg.open_stdin,
                stdin_once: cfg.stdin_once,
                env: cfg.env,
                cmd: cfg.cmd,
                healthcheck: cfg.healthcheck,
                args_escaped: cfg.args_escaped,
                volumes: cfg.volumes,
                working_dir: cfg.working_dir,
                entrypoint: cfg.entrypoint,
                network_disabled: cfg.network_disabled,
                mac_address: cfg.mac_address,
                on_build: cfg.on_build,
                labels: cfg.labels,
                stop_signal: cfg.stop_signal,
                stop_timeout: cfg.stop_timeout,
                shell: cfg.shell,
                host_config: info.host_config,
                networking_config: match info.network_settings {
                    Some(settings) => match settings.networks {
                        Some(networks) => Some(NetworkingConfig { endpoints_config: networks }),
                        None => None,
                    },
                    None => None,
                },
            },
        ),
    }
}

/// Builds a `Config` for the new container, preserving all settings of the
/// inspected container. None where the container's config is missing.
pub fn build_config(info: ContainerInspect, image: &str) -> (r: Option<Config<String>>)
    ensures
        match r {
            Some(config) => recreated(info, image@) == Some(config@),
            None => recreated(info, image@) is None,
        },
        r is Some <==> info.config is Some,
        r matches Some(config) ==> {
            let cfg = info.config->0;
            &&& config.image is Some
            &&& config.image->0@ == image@
            &&& config.hostname == cfg.hostname
            &&& config.domainname == cfg.domainname
            &&& config.user == cfg.user
            &&& config.attach_stdin == cfg.attach_stdin
            &&& config.attach_stdout == cfg.attach_stdout
            &&& config.attach_stderr == cfg.attach_stderr
            &&& config.exposed_ports == cfg.exposed_ports
            &&& config.tty == cfg.tty
            &&& config.open_stdin == cfg.open_stdin
            &&& config.stdin_once == cfg.stdin_once
            &&& config.env == cfg.env
            &&& config.cmd == cfg.cmd
            &&& config.healthcheck == cfg.healthcheck
            &&& config.args_escaped == cfg.args_escaped
            &&& config.volumes == cfg.volumes
            &&& config.working_dir == cfg.working_dir
            &&& config.entrypoint == cfg.entrypoint
            &&& config.network_disabled == cfg.network_disabled
            &&& config.mac_address == cfg.mac_address
            &&& config.on_build == cfg.on_build
            &&& config.labels == cfg.labels
            &&& config.stop_signal == cfg.stop_signal
            &&& config.stop_timeout == cfg.stop_timeout
            &&& config.shell == cfg.shell
            &&& config.host_config == info.host_config
            &&& config.networking_config is Some <==> info.network_settings is Some
                && info.network_settings->0.networks is Some
            &&& config.networking_config matches Some(networking) ==> networking.endpoints_config
                == info.network_settings->0.networks->0
        },
{
    match info.config {
        None => None,
        Some(cfg) => {
            // Endpoint settings carry custom network memberships over.
            let networking_config = match info.network_settings {
                Some(settings) => match settings.networks {
                    Some(networks) => Some(NetworkingConfig { endpoints_config: networks }),
                    None => None,
                },
                None => None,
            };
            Some(
                Config {
                    image: Some(image.to_owned()),
                    hostname: cfg.hostname,
                    domainname: cfg.domainname,
                    user: cfg.user,
                    attach_stdin: cfg.attach_stdin,
                    attach_stdout: cfg.attach_stdout,
                    attach_stderr: cfg.attach_stderr,
                    exposed_ports: cfg.exposed_ports,
                    tty: cfg.tty,
                    open_stdin: cfg.open_stdin,
                    stdin_once: cfg.stdin_once,
                    env: cfg.env,
                    cmd: cfg.cmd,
                    healthcheck: cfg.healthcheck,
                    args_escaped: cfg.args_escaped,
                    volumes: cfg.volumes,
                    working_dir: cfg.working_dir,
                    entrypoint: cfg.entrypoint,
                    network_disabled: cfg.network_disabled,
                    mac_address: cfg.mac_address,
                    on_build: cfg.on_build,
                    labels: cfg.labels,
                    stop_signal: cfg.stop_signal,
                    stop_timeout: cfg.stop_timeout,
                    shell: cfg.shell,
                    host_config: info.host_config,
                    networking_config,
                },
            )
        },
    }
}

/// The value of the first label named `key`.
pub open spec fn label(labels: Seq<(String, String)>, key: Seq<char>) -> Option<Seq<char>>
    decreases labels.len(),
{
    if labels.len() == 0 {
        None
    } else if labels.first().0@ == key {
        Some(labels.first().1@)
    } else {
        label(labels.drop_first(), key)
    }
}

/// The seconds after which a new container without a verdict of its own is judged,
/// where no label says otherwise.
pub const DEFAULT_TIMEOUT: u64 = 60;

/// The seconds that a container's labels give its replacement to start up: the
/// number in `autoupdate.timeout`, or the default without a label that holds one.
pub open spec fn timeout_of(labels: Option<Seq<(String, String)>>) -> u64 {
    match labels {
        None => DEFAULT_TIMEOUT,
        Some(labels) => match label(labels, "autoupdate.timeout"@) {
            None => DEFAULT_TIMEOUT,
            Some(value) => match text::number_up_to(value, u64::MAX as nat) {
                Some(seconds) => seconds as u64,
                None => DEFAULT_TIMEOUT,
            },
        },
    }
}

/// The labels of an inspected container.
pub open spec fn labels_of(info: ContainerInspect) -> Option<Seq<(String, String)>> {
    match info.config {
        Some(cfg) => match cfg.labels {
            Some(labels) => Some(labels@),
            None => None,
        },
        None => None,
    }
}

/// Reads the startup timeout off a container's labels.
pub fn startup_timeout(info: &ContainerInspect) -> (r: u64)
    ensures
        r == timeout_of(labels_of(*info)),
{
    let labels = match &info.config {
        Some(cfg) => match &cfg.labels {
            Some(labels) => labels,
            None => {
                return DEFAULT_TIMEOUT;
            },
        },
        None => {
            return DEFAULT_TIMEOUT;
        },
    };
    let mut i: usize = 0;
    assert(labels@.skip(0) == labels@);
    while i < labels.len()
        invariant
            i <= labels.len(),
            label(labels@, "autoupdate.timeout"@) == label(
                labels@.skip(i as int),
                "autoupdate.timeout"@,
            ),
            labels_of(*info) == Some(labels@),
        decreases labels.len() - i,
    {
        assert(labels@.skip(i as int).drop_first() == labels@.skip(i + 1));
        if text::same(labels[i].0.as_str(), "autoupdate.timeout") {
            proof {
                text::law_a_number_has_no_error(labels@[i as int].1@, u64::MAX as nat);
            }
            return match text::parse_number(labels[i].1.as_str(), u64::MAX) {
                Ok(seconds) => seconds,
                Err(_) => DEFAULT_TIMEOUT,
            };
        }
        i = i + 1;
    }
    DEFAULT_TIMEOUT
}

/// The filters that select the containers to update: those that run and carry
/// the label `autoupdate=true`.
pub fn listing_filters() -> (r: Vec<(&'static str, Vec<&'static str>)>)
    ensures
        r@.len() == 2,
        r@[0].0@ == "label"@,
        r@[0].1@.len() == 1,
        r@[0].1@[0]@ == "autoupdate=true"@,
        r@[1].0@ == "status"@,
        r@[1].1@.len() == 1,
        r@[1].1@[0]@ == "running"@,
{
    let mut filters: Vec<(&'static str, Vec<&'static str>)> = Vec::new();
    let mut labels: Vec<&'static str> = Vec::new();
    labels.push("autoupdate=true");
    filters.push(("label", labels));
    let mut states: Vec<&'static str> = Vec::new();
    states.push("running");
    filters.push(("status", states));
    filters
}

/// The ids among the entries of a listing, in order.
pub open spec fn ids(list: Seq<Option<String>>) -> Seq<String>
    decreases list.len(),
{
    if list.len() == 0 {
        Seq::empty()
    } else {
        match list.last() {
            Some(id) => ids(list.drop_last()).push(id),
            None => ids(list.drop_last()),
        }
    }
}

/// Keeps the ids of the containers in a listing that have one.
pub fn container_ids(list: Vec<Option<String>>) -> (r: Vec<String>)
    ensures
        r@ == ids(list@),
{
    let mut out: Vec<String> = Vec::new();
    let mut i: usize = 0;
    while i < list.len()
        invariant
            i <= list.len(),
            out@ == ids(list@.take(i as int)),
        decreases list.len() - i,
    {
        assert(list@.take(i + 1).drop_last() == list@.take(i as int));
        match &list[i] {
            Some(id) => {
                out.push(id.clone());
            },
            None => {},
        }
        i = i + 1;
    }
    assert(list@.take(i as int) == list@);
    out
}

/// The new container has every setting of the old one, whatever the others are: each is
/// the one that the inspection told, and so are the host settings and the networks. Only
/// the image is set anew.
pub proof fn law_every_setting_is_preserved(info: ContainerInspect, image: Seq<char>)
    ensures
        recreated(info, image) is Some <==> info.config is Some,
        recreated(info, image) matches Some(config) ==> {
            let cfg = info.config->0;
            &&& config.image == Some(image)
            &&& config.hostname == cfg.hostname
            &&& config.domainname == cfg.domainname
            &&& config.user == cfg.user
            &&& config.attach_stdin == cfg.attach_stdin
            &&& config.attach_stdout == cfg.attach_stdout
            &&& config.attach_stderr == cfg.attach_stderr
            &&& config.exposed_ports == cfg.exposed_ports
            &&& config.tty == cfg.tty
            &&& config.open_stdin == cfg.open_stdin
            &&& config.stdin_once == cfg.stdin_once
            &&& config.env == cfg.env
            &&& config.cmd == cfg.cmd
            &&& config.healthcheck == cfg.healthcheck
            &&& config.args_escaped == cfg.args_escaped
            &&& config.volumes == cfg.volumes
            &&& config.working_dir == cfg.working_dir
            &&& config.entrypoint == cfg.entrypoint
            &&& config.network_disabled == cfg.network_disabled
            &&& config.mac_address == cfg.mac_address
            &&& config.on_build == cfg.on_build
            &&& config.labels == cfg.labels
            &&& config.stop_signal == cfg.stop_signal
            &&& config.stop_timeout == cfg.stop_timeout
            &&& config.shell == cfg.shell
            &&& config.host_config == info.host_config
            &&& config.networking_config is Some <==> info.network_settings is Some
                && info.network_settings->0.networks is Some
            &&& config.networking_config matches Some(networking) ==> networking.endpoints_config
                == info.network_settings->0.networks->0
        },
{
}

/// What is seen of a configuration is what it holds.
pub proof fn law_a_config_is_seen_as_it_is(cfg: Config<String>)
    ensures
        cfg.image is Some <==> cfg@.image is Some,
        cfg.image matches Some(image) ==> cfg@.image == Some(image@),
        ({
            let config = cfg@;
            &&& config.hostname == cfg.hostname
            &&& config.domainname == cfg.domainname
            &&& config.user == cfg.user
            &&& config.attach_stdin == cfg.attach_stdin
            &&& config.attach_stdout == cfg.attach_stdout
            &&& config.attach_stderr == cfg.attach_stderr
            &&& config.exposed_ports == cfg.exposed_ports
            &&& config.tty == cfg.tty
            &&& config.open_stdin == cfg.open_stdin
            &&& config.stdin_once == cfg.stdin_once
            &&& config.env == cfg.env
            &&& config.cmd == cfg.cmd
            &&& config.healthcheck == cfg.healthcheck
            &&& config.args_escaped == cfg.args_escaped
            &&& config.volumes == cfg.volumes
            &&& config.working_dir == cfg.working_dir
            &&& config.entrypoint == cfg.entrypoint
            &&& config.network_disabled == cfg.network_disabled
            &&& config.mac_address == cfg.mac_address
            &&& config.on_build == cfg.on_build
            &&& config.labels == cfg.labels
            &&& config.stop_signal == cfg.stop_signal
            &&& config.stop_timeout == cfg.stop_timeout
            &&& config.shell == cfg.shell
            &&& config.host_config == cfg.host_config
            &&& config.networking_config == cfg.networking_config
        }),
{
}

/// A listing comes out part by part: the ids of two listings after each other are the
/// ids of the one and then those of the other.
pub proof fn law_ids_come_out_in_order(a: Seq<Option<String>>, b: Seq<Option<String>>)
    ensures
        ids(a + b) == ids(a) + ids(b),
    decreases b.len(),
{
    if b.len() == 0 {
        assert(a + b == a);
        assert(ids(a) + ids(b) == ids(a));
    } else {
        law_ids_come_out_in_order(a, b.drop_last());
        assert((a + b).drop_last() == a + b.drop_last());
        assert((a + b).last() == b.last());
        assert(b.last() is Some ==> ids(a) + ids(b.drop_last()).push(b.last()->0) == (ids(a) + ids(
            b.drop_last(),
        )).push(b.last()->0));
    }
}

/// Every container of a listing that has an id is kept, in its place among those that
/// have one, and there are no others.
pub proof fn law_every_id_is_kept(list: Seq<Option<String>>)
    ensures
        ids(list).len() == list.filter(|entry: Option<String>| entry is Some).len(),
        forall|i: int|
            0 <= i < list.len() ==> ((#[trigger] list[i]) matches Some(id) ==> {
                let place = list.take(i).filter(|entry: Option<String>| entry is Some).len() as int;
                &&& 0 <= place < ids(list).len()
                &&& ids(list)[place] == id
            }),
        forall|i: int|
            0 <= i < list.len() ==> ((#[trigger] list[i]) matches Some(id) ==> ids(list).contains(
                id,
            )),
        forall|k: int| 0 <= k < ids(list).len() ==> list.contains(Some(#[trigger] ids(list)[k])),
    decreases list.len(),
{
    reveal(Seq::filter);
    let has = |entry: Option<String>| entry is Some;
    if list.len() > 0 {
        let init = list.drop_last();
        law_every_id_is_kept(init);
        assert(list.last() == list[list.len() - 1]);
        assert forall|i: int| 0 <= i < list.len() implies ((#[trigger] list[i]) matches Some(id)
            ==> {
            let place = list.take(i).filter(has).len() as int;
            &&& 0 <= place < ids(list).len()
            &&& ids(list)[place] == id
        }) by {
            if i < init.len() {
                assert(init[i] == list[i]);
                assert(init.take(i) == list.take(i));
            } else {
                assert(list.take(i) == init);
            }
        }
        assert forall|i: int| 0 <= i < list.len() implies ((#[trigger] list[i]) matches Some(id)
            ==> ids(list).contains(id)) by {
            if list[i] is Some {
                let place = list.take(i).filter(has).len() as int;
                assert(ids(list)[place] == list[i]->0);
            }
        }
        assert forall|k: int| 0 <= k < ids(list).len() implies list.contains(
            Some(#[trigger] ids(list)[k]),
        ) by {
            if k < ids(init).len() {
                assert(ids(list)[k] == ids(init)[k]);
                let i = choose|i: int| 0 <= i < init.len() && init[i] == Some(ids(init)[k]);
                assert(list[i] == Some(ids(list)[k]));
            } else {
                assert(list[list.len() - 1] == Some(ids(list)[k]));
            }
        }
    }
}

/// A listing whose entries all have ids comes out entry by entry.
pub proof fn law_a_listing_with_ids_comes_out_whole(list: Seq<Option<String>>)
    requires
        forall|i: int| 0 <= i < list.len() ==> (#[trigger] list[i]) is Some,
    ensures
        ids(list).len() == list.len(),
        forall|i: int| 0 <= i < list.len() ==> #[trigger] list[i] == Some(ids(list)[i]),
    decreases list.len(),
{
    if list.len() > 0 {
        let init = list.drop_last();
        assert forall|i: int| 0 <= i < init.len() implies (#[trigger] init[i]) is Some by {
            assert(init[i] == list[i]);
        }
        law_a_listing_with_ids_comes_out_whole(init);
        assert forall|i: int| 0 <= i < list.len() implies #[trigger] list[i] == Some(
            ids(list)[i],
        ) by {
            if i < init.len() {
                assert(init[i] == list[i]);
            }
        }
    }
}

/// The label `autoupdate.timeout` gives the seconds: where it is the first of that name
/// and writes a number of seconds, the timeout is that number.
pub proof fn law_the_label_gives_the_timeout(
    labels: Seq<(String, String)>,
    i: int,
    seconds: u64,
)
    requires
        0 <= i < labels.len(),
        labels[i].0@ == "autoupdate.timeout"@,
        text::number_up_to(labels[i].1@, u64::MAX as nat) == Some(seconds as nat),
        forall|k: int| 0 <= k < i ==> (#[trigger] labels[k]).0@ != "autoupdate.timeout"@,
    ensures
        timeout_of(Some(labels)) == seconds,
{
    lemma_first_label(labels, "autoupdate.timeout"@, i);
}

/// Without that label, or with one that writes no number of seconds, a new container
/// has a minute.
pub proof fn law_the_timeout_is_a_minute_by_default(labels: Seq<(String, String)>, i: int)
    ensures
        timeout_of(None) == 60,
        (forall|k: int| 0 <= k < labels.len() ==> (#[trigger] labels[k]).0@
            != "autoupdate.timeout"@) ==> timeout_of(Some(labels)) == 60,
        0 <= i < labels.len() && labels[i].0@ == "autoupdate.timeout"@ && (forall|k: int|
            0 <= k < i ==> (#[trigger] labels[k]).0@ != "autoupdate.timeout"@)
            && text::number_error(labels[i].1@, u64::MAX as nat) is Some ==> timeout_of(
            Some(labels),
        ) == 60,
{
    if forall|k: int|
        0 <= k < labels.len() ==> (#[trigger] labels[k]).0@ != "autoupdate.timeout"@ {
        lemma_no_label(labels, "autoupdate.timeout"@);
    }
    if 0 <= i < labels.len() && labels[i].0@ == "autoupdate.timeout"@ && (forall|k: int|
        0 <= k < i ==> (#[trigger] labels[k]).0@ != "autoupdate.timeout"@) {
        lemma_first_label(labels, "autoupdate.timeout"@, i);
        text::law_a_number_has_no_error(labels[i].1@, u64::MAX as nat);
    }
}

/// The first label of a name has its value.
proof fn lemma_first_label(labels: Seq<(String, String)>, key: Seq<char>, i: int)
    requires
        0 <= i < labels.len(),
        labels[i].0@ == key,
        forall|k: int| 0 <= k < i ==> (#[trigger] labels[k]).0@ != key,
    ensures
        label(labels, key) == Some(labels[i].1@),
    decreases i,
{
    if i > 0 {
        let rest = labels.drop_first();
        assert(labels[0].0@ != key);
        assert(rest[i - 1] == labels[i]);
        assert forall|k: int| 0 <= k < i - 1 implies (#[trigger] rest[k]).0@ != key by {
            assert(rest[k] == labels[k + 1]);
        }
        lemma_first_label(rest, key, i - 1);
    }
}

/// A name that no label has, has no value.
proof fn lemma_no_label(labels: Seq<(String, String)>, key: Seq<char>)
    requires
        forall|k: int| 0 <= k < labels.len() ==> (#[trigger] labels[k]).0@ != key,
    ensures
        label(labels, key) is None,
    decreases labels.len(),
{
    if labels.len() > 0 {
        let rest = labels.drop_first();
        assert(labels[0].0@ != key);
        assert forall|k: int| 0 <= k < rest.len() implies (#[trigger] rest[k]).0@ != key by {
            assert(rest[k] == labels[k + 1]);
        }
        lemma_no_label(rest, key);
    }
}

/// The labels of an inspected container are those in its settings.
pub proof fn law_the_labels_are_those_of_the_settings(info: ContainerInspect)
    ensures
        labels_of(info) is Some <==> info.config is Some && info.config->0.labels is Some,
        labels_of(info) matches Some(labels) ==> labels == info.config->0.labels->0@,
{
}

} // verus!
