//! Daemon configuration: the configuration file and the command line are
//! merged field by field, the configuration file first, then the command
//! line, then the built-in default.

use vstd::prelude::*;
use crate::text::clone_strings;

verus! {

/// Command line arguments of the daemon.
pub struct Cli {
    /// Run the setup and exit.
    pub init: bool,
    /// Hosts to listen on (`unix://...` or `tcp://...`).
    pub hosts: Option<Vec<String>>,
    /// Docker daemon socket.
    pub docker_host: Option<String>,
    /// Directory for persistent state.
    pub state_dir: Option<String>,
    /// Directory holding `nanocl.conf`.
    pub config_dir: String,
    /// Github account used to sync repositories.
    pub github_user: Option<String>,
    /// Github token used to sync repositories.
    pub github_token: Option<String>,
}

/// The content of `nanocl.conf`; every field may be left out.
pub struct DaemonConfigFile {
    pub hosts: Option<Vec<String>>,
    pub state_dir: Option<String>,
    pub docker_host: Option<String>,
    pub github_user: Option<String>,
    pub github_token: Option<String>,
}

/// The configuration the daemon runs with.
pub struct DaemonConfig {
    pub hosts: Vec<String>,
    pub state_dir: String,
    pub docker_host: String,
    pub github_user: String,
    pub github_token: String,
}

/// The first of two optional values that is present, else the default.
pub open spec fn first_some<T>(first: Option<T>, second: Option<T>, default: T) -> T {
    match first {
        Some(v) => v,
        None => match second {
            Some(v) => v,
            None => default,
        },
    }
}

/// The hosts listened on by default: the daemon's unix socket.
pub open spec fn default_hosts() -> Seq<Seq<char>> {
    seq![
        seq!['u', 'n', 'i', 'x', ':', '/', '/', '/', 'r', 'u', 'n', '/', 'n', 'a', 'n', 'o', 'c', 'l', '/',
        'n', 'a', 'n', 'o', 'c', 'l', '.', 's', 'o', 'c', 'k']
    ]
}

/// The default directory for persistent state.
pub open spec fn default_state_dir() -> Seq<char> {
    seq!['/', 'v', 'a', 'r', '/', 'l', 'i', 'b', '/', 'n', 'a', 'n', 'o', 'c', 'l']
}

/// The default docker daemon socket.
pub open spec fn default_docker_host() -> Seq<char> {
    seq!['/', 'r', 'u', 'n', '/', 'n', 'a', 'n', 'o', 'c', 'l', '/', 'd', 'o', 'c', 'k', 'e', 'r', '.', 's',
    'o', 'c', 'k']
}

/// The merged configuration, field by field: the configuration file, else
/// the command line, else the default.
pub open spec fn merged(
    file_hosts: Option<Seq<Seq<char>>>, args_hosts: Option<Seq<Seq<char>>>,
    file_state_dir: Option<Seq<char>>, args_state_dir: Option<Seq<char>>,
    file_docker_host: Option<Seq<char>>, args_docker_host: Option<Seq<char>>,
    file_github_user: Option<Seq<char>>, args_github_user: Option<Seq<char>>,
    file_github_token: Option<Seq<char>>, args_github_token: Option<Seq<char>>,
) -> (Seq<Seq<char>>, Seq<char>, Seq<char>, Seq<char>, Seq<char>) {
    (
        first_some(file_hosts, args_hosts, default_hosts()),
        first_some(file_state_dir, args_state_dir, default_state_dir()),
        first_some(file_docker_host, args_docker_host, default_docker_host()),
        first_some(file_github_user, args_github_user, Seq::empty()),
        first_some(file_github_token, args_github_token, Seq::empty()),
    )
}

impl DaemonConfig {
    /// The configuration as (hosts, state dir, docker host, github user,
    /// github token).
    pub open spec fn spec_fields(&self) -> (Seq<Seq<char>>, Seq<char>, Seq<char>, Seq<char>, Seq<char>) {
        (self.hosts.deep_view(), self.state_dir@, self.docker_host@, self.github_user@, self.github_token@)
    }
}

/// What `merge_config` yields for the given arguments and file.
pub open spec fn spec_merge_config(args: &Cli, config: &DaemonConfigFile) -> (Seq<Seq<char>>, Seq<char>, Seq<char>, Seq<char>, Seq<char>) {
    merged(
        config.hosts.deep_view(), args.hosts.deep_view(),
        config.state_dir.deep_view(), args.state_dir.deep_view(),
        config.docker_host.deep_view(), args.docker_host.deep_view(),
        config.github_user.deep_view(), args.github_user.deep_view(),
        config.github_token.deep_view(), args.github_token.deep_view(),
    )
}

/// The first present value, else the default, as a string.
fn pick_string(first: &Option<String>, second: &Option<String>, default: &str) -> (res: String)
    ensures
        res@ == first_some(first.deep_view(), second.deep_view(), default@),
{
    match first {
        Some(v) => v.clone(),
        None => match second {
            Some(v) => v.clone(),
            None => default.to_owned(),
        },
    }
}

/// Merges the configuration file and the command line, the configuration
/// file first, then the command line, then the built-in default of each
/// field.
pub fn merge_config(args: &Cli, config: &DaemonConfigFile) -> (res: DaemonConfig)
    ensures
        res.spec_fields() == spec_merge_config(args, config),
{
    let hosts = match &config.hosts {
        Some(hosts) => clone_strings(hosts),
        None => match &args.hosts {
            Some(hosts) => clone_strings(hosts),
            None => {
                let mut v: Vec<String> = Vec::new();
                proof {
                    reveal_strlit("unix:///run/nanocl/nanocl.sock");
                }
                v.push(String::from_str("unix:///run/nanocl/nanocl.sock"));
                assert(v.deep_view()[0] =~= default_hosts()[0]);
                assert(v.deep_view() =~= default_hosts());
                v
            },
        },
    };
    proof {
        reveal_strlit("/var/lib/nanocl");
        reveal_strlit("/run/nanocl/docker.sock");
        reveal_strlit("");
    }
    let state_dir = pick_string(&config.state_dir, &args.state_dir, "/var/lib/nanocl");
    let docker_host = pick_string(&config.docker_host, &args.docker_host, "/run/nanocl/docker.sock");
    let github_user = pick_string(&config.github_user, &args.github_user, "");
    let github_token = pick_string(&config.github_token, &args.github_token, "");
    DaemonConfig { hosts, state_dir, docker_host, github_user, github_token }
}

/// The hosts listened on come from one source only, never a combination:
/// the file's list when it has one, else the command line's, else the
/// default; the same holds of every other field.
pub proof fn law_merge_picks_one_source(args: &Cli, config: &DaemonConfigFile)
    ensures
        config.hosts matches Some(h) ==> spec_merge_config(args, config).0 == h.deep_view(),
        config.hosts is None ==> (args.hosts matches Some(h) ==> spec_merge_config(args, config).0 == h.deep_view()),
        config.hosts is None && args.hosts is None ==> spec_merge_config(args, config).0 == default_hosts(),
        spec_merge_config(args, config).0 == default_hosts()
            || (config.hosts matches Some(h) && spec_merge_config(args, config).0 == h.deep_view())
            || (args.hosts matches Some(h) && spec_merge_config(args, config).0 == h.deep_view()),
        config.state_dir matches Some(s) ==> spec_merge_config(args, config).1 == s@,
        config.docker_host matches Some(s) ==> spec_merge_config(args, config).2 == s@,
        config.github_user matches Some(s) ==> spec_merge_config(args, config).3 == s@,
        config.github_token matches Some(s) ==> spec_merge_config(args, config).4 == s@,
{
}

} // verus!
