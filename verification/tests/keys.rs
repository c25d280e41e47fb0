use nanocld::key::{gen_key, resolve_nsp, gen_key_from_nsp, ensure_namespace, format_key, gen_nsp_key_by_name};
use nanocld::cluster::{cluster_variable_key, network_key_for_inspect, network_key_for_delete, join_keys, ClusterVariablePath};

#[test]
fn gen_key_joins_with_dash() {
    assert_eq!(gen_key("global", "my-cargo"), "global-my-cargo");
    assert_eq!(gen_key("", ""), "-");
}

#[test]
fn resolve_nsp_defaults_to_global() {
    assert_eq!(resolve_nsp(None), "global");
    assert_eq!(resolve_nsp(Some(String::from("system"))), "system");
}

#[test]
fn gen_key_from_nsp_defaults_to_global() {
    assert_eq!(gen_key_from_nsp(None, "nano"), "global-nano");
    assert_eq!(gen_key_from_nsp(None, "crud-test"), gen_key(&resolve_nsp(None), "crud-test"));
    assert_eq!(gen_key_from_nsp(Some(String::from("system")), "nano"), "system-nano");
}

#[test]
fn nsp_key_helpers() {
    assert_eq!(ensure_namespace(&None), "global");
    assert_eq!(ensure_namespace(&Some(String::from("prod"))), "prod");
    assert_eq!(format_key(&String::from("a"), &String::from("b")), "a-b");
    assert_eq!(gen_nsp_key_by_name(&None, &String::from("web")), "global-web");
    assert_eq!(gen_nsp_key_by_name(&Some(String::from("prod")), &String::from("web")), "prod-web");
}

#[test]
fn cluster_handler_keys() {
    let path = ClusterVariablePath { c_name: String::from("dev"), v_name: String::from("PORT") };
    assert_eq!(cluster_variable_key(None, &path), "global-dev-PORT");
    assert_eq!(cluster_variable_key(Some(String::from("global")), &path), "global-dev-PORT");
    assert_eq!(network_key_for_inspect(None, "dev", "front"), "global-dev-front");
    assert_eq!(network_key_for_delete(None, "dev", "front"), "global-dev-front");
    let keys = join_keys(None, "dev", "api", "front");
    assert_eq!(keys.cluster_key, "global-dev");
    assert_eq!(keys.cargo_key, "global-api");
    assert_eq!(keys.instance_key, "global-dev-global-api");
    assert_eq!(keys.network_key, "global-dev-front");
}
