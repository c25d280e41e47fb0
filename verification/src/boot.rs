//! What the daemon sets up when it boots: the system network, namespaces,
//! cluster and the daemon's own cargo.

use vstd::prelude::*;
use crate::docker::{Network, NetworkState};
use crate::error::{HttpResponseError, INTERNAL_SERVER_ERROR, http_error};
use crate::key::{spec_join_key, gen_key};
use crate::labels::Labels;
use crate::records::{CargoInstancePartial, ClusterPartial};

verus! {

/// The names the daemon registers itself under.
pub struct BootNames {
    pub default_namespace: String,
    pub sys_namespace: String,
    pub sys_cluster: String,
    pub sys_network: String,
}

/// `global`, `system`, `nano` and `internal0`.
pub fn boot_names() -> (res: BootNames)
    ensures
        res.default_namespace@ == "global"@,
        res.sys_namespace@ == "system"@,
        res.sys_cluster@ == "nano"@,
        res.sys_network@ == "internal0"@,
{
    BootNames {
        default_namespace: String::from_str("global"),
        sys_namespace: String::from_str("system"),
        sys_cluster: String::from_str("nano"),
        sys_network: String::from_str("internal0"),
    }
}

/// The docker name of the system network.
pub open spec fn spec_system_network_key() -> Seq<char> {
    "system-nano-internal0"@
}

/// The bridge interface of the system network.
pub open spec fn spec_system_network_bridge() -> Seq<char> {
    "nanoclinternal0"@
}

/// What the system network is created with: its docker name, driver, and
/// options naming its bridge interface.
pub fn system_network_options() -> (res: (String, String, Labels))
    ensures
        res.0@ == spec_system_network_key(),
        res.1@ == "bridge"@,
        res.2.view() == Map::<Seq<char>, Seq<char>>::empty().insert(
            "com.docker.network.bridge.name"@,
            spec_system_network_bridge(),
        ),
{
    let mut options = Labels::new();
    options.insert(String::from_str("com.docker.network.bridge.name"), String::from_str("nanoclinternal0"));
    (String::from_str("system-nano-internal0"), String::from_str("bridge"), options)
}

/// Whether the system network must be created: unless it is ready.
pub fn system_network_missing(state: NetworkState) -> (res: bool)
    ensures
        res == (state != NetworkState::Ready),
{
    match state {
        NetworkState::Ready => false,
        NetworkState::NotFound => true,
    }
}

/// The system cluster: `nano`, with no proxy template.
pub fn system_cluster(names: &BootNames) -> (res: (String, ClusterPartial))
    ensures
        res.0@ == spec_join_key(names.sys_namespace@, names.sys_cluster@),
        res.1.name@ == names.sys_cluster@,
        res.1.proxy_templates is None,
{
    let key = gen_key(names.sys_namespace.as_str(), names.sys_cluster.as_str());
    (key, ClusterPartial { name: names.sys_cluster.clone(), proxy_templates: None })
}

/// The key of the system network in the store.
pub fn system_network_store_key(names: &BootNames) -> (res: String)
    ensures
        res@ == spec_join_key(spec_join_key(names.sys_namespace@, names.sys_cluster@), names.sys_network@),
{
    let cluster_key = gen_key(names.sys_namespace.as_str(), names.sys_cluster.as_str());
    gen_key(cluster_key.as_str(), names.sys_network.as_str())
}

/// The id of the system network, or `500` when docker gave none.
pub fn system_network_id(network: &Network) -> (res: Result<String, HttpResponseError>)
    ensures
        match network.id {
            Some(id) => res matches Ok(r) && r@ == id@,
            None => res matches Err(e) && e.status == INTERNAL_SERVER_ERROR
                && e.msg@ == "Unable to get network ID of system-nano-internal0"@,
        },
{
    match &network.id {
        Some(id) => Ok(id.clone()),
        None => Err(http_error(INTERNAL_SERVER_ERROR, "Unable to get network ID of system-nano-internal0")),
    }
}

/// The key of the daemon's own cargo.
pub fn daemon_cargo_key(names: &BootNames) -> (res: String)
    ensures
        res@ == spec_join_key(names.sys_namespace@, "daemon"@),
{
    gen_key(names.sys_namespace.as_str(), "daemon")
}

/// The binds of the daemon's container: its state directory mounted on
/// `/var/lib/nanocl`.
pub fn daemon_binds(state_dir: &str) -> (res: Vec<String>)
    ensures
        res.deep_view() == seq![state_dir@ + ":/var/lib/nanocl"@],
{
    let mut bind = state_dir.to_owned();
    bind.append(":/var/lib/nanocl");
    let mut binds: Vec<String> = Vec::new();
    binds.push(bind);
    assert(binds.deep_view() =~= seq![state_dir@ + ":/var/lib/nanocl"@]);
    binds
}

/// The link of the daemon's cargo to the system network of the system
/// cluster.
pub fn daemon_instance(names: &BootNames, cargo_key: String) -> (res: CargoInstancePartial)
    ensures
        res.cargo_key@ == cargo_key@,
        res.cluster_key@ == spec_join_key(names.sys_namespace@, names.sys_cluster@),
        res.network_key@ == spec_join_key(res.cluster_key@, names.sys_network@),
{
    let cluster_key = gen_key(names.sys_namespace.as_str(), names.sys_cluster.as_str());
    let network_key = gen_key(cluster_key.as_str(), names.sys_network.as_str());
    CargoInstancePartial { cargo_key, cluster_key, network_key }
}

} // verus!
