use std::collections::HashMap;

use bollard::models::{EndpointSettings, HealthConfig, HostConfig};
use conti::container::{
    build_config, container_ids, listing_filters, startup_timeout, ContainerConfig,
    ContainerInspect, NetworkSettings, NetworkingConfig, DEFAULT_TIMEOUT,
};

fn strings(list: &[&str]) -> Option<Vec<String>> {
    Some(list.iter().map(|s| s.to_string()).collect())
}

fn text(s: &str) -> Option<String> {
    Some(s.to_string())
}

fn ports(port: &str) -> Option<HashMap<String, HashMap<(), ()>>> {
    Some(HashMap::from([(port.to_string(), HashMap::new())]))
}

fn networks() -> HashMap<String, EndpointSettings> {
    let settings =
        EndpointSettings { aliases: strings(&["web"]), ..EndpointSettings::default() };
    HashMap::from([("backend".to_string(), settings)])
}

fn labelled(labels: &[(&str, &str)]) -> ContainerInspect {
    let labels = labels.iter().map(|(k, v)| (k.to_string(), v.to_string())).collect();
    ContainerInspect {
        config: Some(ContainerConfig { labels: Some(labels), ..ContainerConfig::default() }),
        ..ContainerInspect::default()
    }
}

#[test]
fn every_setting_is_preserved() {
    let healthcheck = HealthConfig { interval: Some(5), ..HealthConfig::default() };
    let host_config = HostConfig { memory: Some(1 << 20), ..HostConfig::default() };
    let info = ContainerInspect {
        name: text("/web"),
        image: text("sha256:old"),
        config: Some(ContainerConfig {
            image: text("nginx:1"),
            hostname: text("host"),
            domainname: text("domain"),
            user: text("root"),
            attach_stdin: Some(true),
            attach_stdout: Some(false),
            attach_stderr: Some(true),
            exposed_ports: ports("80/tcp"),
            tty: Some(true),
            open_stdin: Some(false),
            stdin_once: Some(true),
            env: strings(&["A=1"]),
            cmd: strings(&["run"]),
            healthcheck: Some(healthcheck.clone()),
            args_escaped: Some(false),
            volumes: ports("/data"),
            working_dir: text("/srv"),
            entrypoint: strings(&["sh", "-c"]),
            network_disabled: Some(false),
            mac_address: text("02:42:ac:11:00:02"),
            on_build: strings(&["RUN true"]),
            labels: Some(vec![("autoupdate".to_string(), "true".to_string())]),
            stop_signal: text("SIGTERM"),
            stop_timeout: Some(7),
            shell: strings(&["/bin/sh"]),
        }),
        host_config: Some(host_config.clone()),
        network_settings: Some(NetworkSettings { networks: Some(networks()) }),
    };
    let config = build_config(info, "nginx:2").unwrap();
    assert_eq!(config.image, text("nginx:2"));
    assert_eq!(config.hostname, text("host"));
    assert_eq!(config.domainname, text("domain"));
    assert_eq!(config.user, text("root"));
    assert_eq!(config.attach_stdin, Some(true));
    assert_eq!(config.attach_stdout, Some(false));
    assert_eq!(config.attach_stderr, Some(true));
    assert_eq!(config.exposed_ports, ports("80/tcp"));
    assert_eq!(config.tty, Some(true));
    assert_eq!(config.open_stdin, Some(false));
    assert_eq!(config.stdin_once, Some(true));
    assert_eq!(config.env, strings(&["A=1"]));
    assert_eq!(config.cmd, strings(&["run"]));
    assert_eq!(config.healthcheck, Some(healthcheck));
    assert_eq!(config.args_escaped, Some(false));
    assert_eq!(config.volumes, ports("/data"));
    assert_eq!(config.working_dir, text("/srv"));
    assert_eq!(config.entrypoint, strings(&["sh", "-c"]));
    assert_eq!(config.network_disabled, Some(false));
    assert_eq!(config.mac_address, text("02:42:ac:11:00:02"));
    assert_eq!(config.on_build, strings(&["RUN true"]));
    assert_eq!(config.labels, Some(vec![("autoupdate".to_string(), "true".to_string())]));
    assert_eq!(config.stop_signal, text("SIGTERM"));
    assert_eq!(config.stop_timeout, Some(7));
    assert_eq!(config.shell, strings(&["/bin/sh"]));
    assert_eq!(config.host_config, Some(host_config));
    assert_eq!(
        config.networking_config,
        Some(NetworkingConfig { endpoints_config: networks() })
    );
}

#[test]
fn missing_config_gives_no_new_one() {
    assert_eq!(build_config(ContainerInspect::default(), "nginx"), None);
}

#[test]
fn missing_networks_stay_missing() {
    let config = Some(ContainerConfig::default());
    let info = ContainerInspect { config, ..ContainerInspect::default() };
    assert_eq!(build_config(info, "nginx").unwrap().networking_config, None);
    let info = ContainerInspect {
        config: Some(ContainerConfig::default()),
        network_settings: Some(NetworkSettings { networks: None }),
        ..ContainerInspect::default()
    };
    assert_eq!(build_config(info, "nginx").unwrap().networking_config, None);
}

#[test]
fn timeout_comes_from_the_label() {
    assert_eq!(startup_timeout(&labelled(&[("autoupdate.timeout", "30")])), 30);
    let labels = [("autoupdate", "true"), ("autoupdate.timeout", "0")];
    assert_eq!(startup_timeout(&labelled(&labels)), 0);
}

#[test]
fn timeout_is_a_minute_by_default() {
    assert_eq!(DEFAULT_TIMEOUT, 60);
    assert_eq!(startup_timeout(&ContainerInspect::default()), 60);
    assert_eq!(startup_timeout(&labelled(&[])), 60);
    assert_eq!(startup_timeout(&labelled(&[("autoupdate", "true")])), 60);
    assert_eq!(startup_timeout(&labelled(&[("autoupdate.timeout", "soon")])), 60);
    assert_eq!(startup_timeout(&labelled(&[("autoupdate.timeout", "-1")])), 60);
    let config = Some(ContainerConfig::default());
    let info = ContainerInspect { config, ..ContainerInspect::default() };
    assert_eq!(startup_timeout(&info), 60);
}

#[test]
fn listing_selects_labelled_running_containers() {
    assert_eq!(
        listing_filters(),
        vec![("label", vec!["autoupdate=true"]), ("status", vec!["running"])]
    );
}

#[test]
fn listing_entries_without_an_id_are_skipped() {
    let list = vec![text("a"), None, text("b"), None];
    assert_eq!(container_ids(list), vec!["a", "b"]);
    assert_eq!(container_ids(vec![None]), Vec::<String>::new());
}
