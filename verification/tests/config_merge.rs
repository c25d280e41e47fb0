use nanocld::config::{Cli, DaemonConfigFile, merge_config};

fn empty_args() -> Cli {
    Cli {
        init: false,
        hosts: None,
        docker_host: None,
        state_dir: None,
        config_dir: String::from("/etc/nanocl"),
        github_user: None,
        github_token: None,
    }
}

fn empty_file() -> DaemonConfigFile {
    DaemonConfigFile { hosts: None, state_dir: None, docker_host: None, github_user: None, github_token: None }
}

#[test]
fn defaults_when_nothing_is_given() {
    let config = merge_config(&empty_args(), &empty_file());
    assert_eq!(config.hosts, vec![String::from("unix:///run/nanocl/nanocl.sock")]);
    assert_eq!(config.state_dir, "/var/lib/nanocl");
    assert_eq!(config.docker_host, "/run/nanocl/docker.sock");
    assert_eq!(config.github_user, "");
    assert_eq!(config.github_token, "");
}

#[test]
fn file_values_are_used() {
    let mut file = empty_file();
    file.state_dir = Some(String::from("/data/nanocl"));
    file.hosts = Some(vec![String::from("tcp://0.0.0.0:8585")]);
    file.github_user = Some(String::from("bot"));
    let config = merge_config(&empty_args(), &file);
    assert_eq!(config.state_dir, "/data/nanocl");
    assert_eq!(config.hosts, vec![String::from("tcp://0.0.0.0:8585")]);
    assert_eq!(config.github_user, "bot");
    assert_eq!(config.docker_host, "/run/nanocl/docker.sock");
}

#[test]
fn file_wins_over_args() {
    let mut args = empty_args();
    args.state_dir = Some(String::from("/cli/state"));
    args.docker_host = Some(String::from("/cli/docker.sock"));
    args.github_token = Some(String::from("t0k"));
    args.hosts = Some(vec![String::from("tcp://127.0.0.1:8585")]);
    let mut file = empty_file();
    file.state_dir = Some(String::from("/file/state"));
    file.docker_host = Some(String::from("/file/docker.sock"));
    file.github_token = Some(String::from("file-token"));
    let config = merge_config(&args, &file);
    assert_eq!(config.state_dir, "/file/state");
    assert_eq!(config.docker_host, "/file/docker.sock");
    assert_eq!(config.github_token, "file-token");
    assert_eq!(config.hosts, vec![String::from("tcp://127.0.0.1:8585")]);
}

#[test]
fn args_fill_what_the_file_leaves_out() {
    let mut args = empty_args();
    args.github_user = Some(String::from("cli-bot"));
    args.state_dir = Some(String::from("/cli/state"));
    let mut file = empty_file();
    file.state_dir = Some(String::from("/file/state"));
    let config = merge_config(&args, &file);
    assert_eq!(config.github_user, "cli-bot");
    assert_eq!(config.state_dir, "/file/state");
}
