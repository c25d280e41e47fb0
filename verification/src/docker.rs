//! What the daemon reads of docker's answers: container and network
//! states, the default gateway of a network, and the labels it sets.

use vstd::prelude::*;
use crate::error::{HttpResponseError, INTERNAL_SERVER_ERROR, http_error};
use crate::labels::Labels;

verus! {

/// State of a system component container.
#[derive(Debug, PartialEq, Eq, Structural, Clone, Copy)]
pub enum ComponentState {
    Uninstalled,
    Running,
    Stopped,
}

/// State of a cargo instance container.
#[derive(Debug, PartialEq, Eq, Structural, Clone, Copy)]
pub enum CargoInstanceState {
    Uninstalled,
    Running,
    Stopped,
}

/// State of a docker network.
#[derive(Debug, PartialEq, Eq, Structural, Clone, Copy)]
pub enum NetworkState {
    NotFound,
    Ready,
}

/// The state part of a container inspection.
pub struct ContainerState {
    pub running: Option<bool>,
}

/// A container inspection, as far as the daemon reads it.
pub struct ContainerInspect {
    pub state: Option<ContainerState>,
}

/// An error reported by the docker client.
pub enum DockerError {
    /// The docker daemon answered with an error status.
    ResponseServer { status_code: u16, message: String },
    /// Any other failure (transport, decoding, ...), with its description.
    Other { message: String },
}

/// One IPAM configuration of a network.
pub struct IpamConfig {
    pub subnet: Option<String>,
    pub gateway: Option<String>,
}

/// The IPAM settings of a network.
pub struct Ipam {
    pub config: Option<Vec<IpamConfig>>,
}

/// A docker network, as far as the daemon reads it.
pub struct Network {
    pub id: Option<String>,
    pub name: Option<String>,
    pub ipam: Option<Ipam>,
}

/// Whether an inspection says the container runs: `None` when the
/// inspection failed, `Some(running)` otherwise, a missing flag counting
/// as not running.
pub open spec fn spec_running(inspect: Option<ContainerInspect>) -> Option<bool> {
    match inspect {
        None => None,
        Some(i) => match i.state {
            Some(s) => match s.running {
                Some(r) => Some(r),
                None => Some(false),
            },
            None => Some(false),
        },
    }
}

/// The state of a component from the inspection of its container
/// (`None` when the inspection failed).
pub fn get_component_state(inspect: Option<ContainerInspect>) -> (res: ComponentState)
    ensures
        res == (match spec_running(inspect) {
            None => ComponentState::Uninstalled,
            Some(true) => ComponentState::Running,
            Some(false) => ComponentState::Stopped,
        }),
{
    match inspect {
        None => ComponentState::Uninstalled,
        Some(body) => match body.state {
            Some(state) => match state.running {
                Some(running) => if running {
                    ComponentState::Running
                } else {
                    ComponentState::Stopped
                },
                None => ComponentState::Stopped,
            },
            None => ComponentState::Stopped,
        },
    }
}

/// The state of a cargo instance from the inspection of its container
/// (`None` when the inspection failed).
pub fn get_cargo_instance_state(inspect: Option<ContainerInspect>) -> (res: CargoInstanceState)
    ensures
        res == (match spec_running(inspect) {
            None => CargoInstanceState::Uninstalled,
            Some(true) => CargoInstanceState::Running,
            Some(false) => CargoInstanceState::Stopped,
        }),
{
    match get_component_state(inspect) {
        ComponentState::Uninstalled => CargoInstanceState::Uninstalled,
        ComponentState::Running => CargoInstanceState::Running,
        ComponentState::Stopped => CargoInstanceState::Stopped,
    }
}

/// The state of a network from the outcome of inspecting it: a `404`
/// answer means the network does not exist, any other error is passed on.
pub fn get_network_state(inspect: Result<(), DockerError>) -> (res: Result<NetworkState, DockerError>)
    ensures
        match inspect {
            Ok(_) => res == Ok::<NetworkState, DockerError>(NetworkState::Ready),
            Err(DockerError::ResponseServer { status_code, message }) => if status_code == 404 {
                res == Ok::<NetworkState, DockerError>(NetworkState::NotFound)
            } else {
                res == Err::<NetworkState, DockerError>(DockerError::ResponseServer { status_code, message })
            },
            Err(e) => res == Err::<NetworkState, DockerError>(e),
        },
{
    match inspect {
        Ok(()) => Ok(NetworkState::Ready),
        Err(DockerError::ResponseServer { status_code, message }) => {
            if status_code == 404 {
                Ok(NetworkState::NotFound)
            } else {
                Err(DockerError::ResponseServer { status_code, message })
            }
        },
        Err(e) => Err(e),
    }
}

/// The default gateway of a network: the gateway of its first IPAM
/// configuration, or the reason it has none.
pub open spec fn spec_default_gateway(network: &Network) -> Result<Seq<char>, Seq<char>> {
    match network.ipam {
        None => Err("Unable to get ipam config from network"@),
        Some(ipam) => match ipam.config {
            None => Err("Unable to get ipam config"@),
            Some(config) => if config@.len() == 0 {
                Err("Unable to get ipam config"@)
            } else {
                match config@[0].gateway {
                    None => Err("Unable to get ipam config gateway"@),
                    Some(g) => Ok(g@),
                }
            },
        },
    }
}

/// The default gateway of a network; an internal server error names what
/// is missing.
pub fn get_default_gateway(docker_network: &Network) -> (res: Result<String, HttpResponseError>)
    ensures
        match spec_default_gateway(docker_network) {
            Ok(g) => res matches Ok(r) && r@ == g,
            Err(m) => res matches Err(e) && e.status == INTERNAL_SERVER_ERROR && e.msg@ == m,
        },
{
    match &docker_network.ipam {
        None => Err(http_error(INTERNAL_SERVER_ERROR, "Unable to get ipam config from network")),
        Some(ipam) => match &ipam.config {
            None => Err(http_error(INTERNAL_SERVER_ERROR, "Unable to get ipam config")),
            Some(config) => {
                if config.len() == 0 {
                    Err(http_error(INTERNAL_SERVER_ERROR, "Unable to get ipam config"))
                } else {
                    match &config[0].gateway {
                        None => Err(http_error(INTERNAL_SERVER_ERROR, "Unable to get ipam config gateway")),
                        Some(g) => Ok(g.clone()),
                    }
                }
            },
        },
    }
}

/// Labels holding only `namespace`, bound to the given namespace.
pub fn gen_labels_with_namespace(namespace: &str) -> (res: Labels)
    ensures
        res.view() == Map::<Seq<char>, Seq<char>>::empty().insert("namespace"@, namespace@),
{
    let mut labels = Labels::new();
    labels.insert(String::from_str("namespace"), namespace.to_owned());
    labels
}

} // verus!
