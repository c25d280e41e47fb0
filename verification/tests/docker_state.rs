use nanocld::docker::{gen_labels_with_namespace, get_component_state, get_cargo_instance_state, get_network_state, get_default_gateway, ComponentState, CargoInstanceState, NetworkState, ContainerInspect, ContainerState, DockerError, Network, Ipam, IpamConfig};
use nanocld::labels::Labels;

#[test]
fn gen_labels_with_namespace_test() {
    let labels = gen_labels_with_namespace("gg");
    assert_eq!(labels.get("namespace"), Some(String::from("gg")));
    assert_eq!(labels.get("other"), None);
}

#[test]
fn component_state_from_inspection() {
    assert_eq!(get_component_state(None), ComponentState::Uninstalled);
    assert_eq!(
        get_component_state(Some(ContainerInspect { state: Some(ContainerState { running: Some(true) }) })),
        ComponentState::Running
    );
    assert_eq!(
        get_component_state(Some(ContainerInspect { state: Some(ContainerState { running: Some(false) }) })),
        ComponentState::Stopped
    );
    assert_eq!(
        get_component_state(Some(ContainerInspect { state: Some(ContainerState { running: None }) })),
        ComponentState::Stopped
    );
    assert_eq!(get_component_state(Some(ContainerInspect { state: None })), ComponentState::Stopped);
    assert_eq!(get_cargo_instance_state(None), CargoInstanceState::Uninstalled);
    assert_eq!(
        get_cargo_instance_state(Some(ContainerInspect { state: Some(ContainerState { running: Some(true) }) })),
        CargoInstanceState::Running
    );
}

#[test]
fn network_state_from_inspection() {
    assert_eq!(get_network_state(Ok(())).ok(), Some(NetworkState::Ready));
    let not_found = DockerError::ResponseServer { status_code: 404, message: String::from("no such network") };
    assert_eq!(get_network_state(Err(not_found)).ok(), Some(NetworkState::NotFound));
    let server = DockerError::ResponseServer { status_code: 500, message: String::from("boom") };
    match get_network_state(Err(server)) {
        Err(DockerError::ResponseServer { status_code, message }) => {
            assert_eq!(status_code, 500);
            assert_eq!(message, "boom");
        }
        _ => panic!("expected the docker error back"),
    }
    match get_network_state(Err(DockerError::Other { message: String::from("socket") })) {
        Err(DockerError::Other { message }) => assert_eq!(message, "socket"),
        _ => panic!("expected the docker error back"),
    }
}

fn network(ipam: Option<Ipam>) -> Network {
    Network { id: Some(String::from("abc")), name: Some(String::from("n")), ipam }
}

#[test]
fn default_gateway_of_networks() {
    let ok = network(Some(Ipam {
        config: Some(vec![
            IpamConfig { subnet: Some(String::from("10.0.0.0/24")), gateway: Some(String::from("10.0.0.1")) },
            IpamConfig { subnet: None, gateway: Some(String::from("10.0.1.1")) },
        ]),
    }));
    assert_eq!(get_default_gateway(&ok).ok(), Some(String::from("10.0.0.1")));

    let host = network(None);
    let err = get_default_gateway(&host).err().expect("host network has no gateway");
    assert_eq!(err.status, 500);
    assert_eq!(err.msg, "Unable to get ipam config from network");

    let no_config = network(Some(Ipam { config: None }));
    assert_eq!(get_default_gateway(&no_config).err().unwrap().msg, "Unable to get ipam config");

    let empty = network(Some(Ipam { config: Some(vec![]) }));
    assert_eq!(get_default_gateway(&empty).err().unwrap().msg, "Unable to get ipam config");

    let no_gateway = network(Some(Ipam { config: Some(vec![IpamConfig { subnet: None, gateway: None }]) }));
    assert_eq!(get_default_gateway(&no_gateway).err().unwrap().msg, "Unable to get ipam config gateway");
}

#[test]
fn labels_later_binding_wins() {
    let mut labels = Labels::new();
    labels.insert(String::from("a"), String::from("1"));
    labels.insert(String::from("b"), String::from("2"));
    labels.insert(String::from("a"), String::from("3"));
    assert_eq!(labels.get("a"), Some(String::from("3")));
    assert_eq!(labels.get("b"), Some(String::from("2")));
    let pairs = labels.bindings_in_order();
    let map: std::collections::HashMap<String, String> = pairs.into_iter().collect();
    assert_eq!(map.len(), 2);
    assert_eq!(map.get("a"), Some(&String::from("3")));
}
