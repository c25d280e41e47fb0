//! Clusters: the keys their handlers look up, joining a cargo, and the
//! decisions taken while creating a cluster network.

use vstd::prelude::*;
use crate::error::{HttpResponseError, BAD_REQUEST, CONFLICT};
use crate::key::{spec_join_key, spec_key_from_nsp, spec_resolve_nsp, gen_key, gen_key_from_nsp, resolve_nsp};
use crate::labels::Labels;

verus! {

/// The path of a cluster variable request: cluster and variable names.
pub struct ClusterVariablePath {
    pub c_name: String,
    pub v_name: String,
}

/// The key of a variable of a cluster, as its get and delete handlers
/// build it: `cluster-variable` inside the namespace, or inside `global`.
pub fn cluster_variable_key(namespace: Option<String>, path: &ClusterVariablePath) -> (res: String)
    ensures
        res@ == spec_key_from_nsp(namespace.deep_view(), spec_join_key(path.c_name@, path.v_name@)),
{
    let var_name = gen_key(path.c_name.as_str(), path.v_name.as_str());
    gen_key_from_nsp(namespace, var_name.as_str())
}

/// The key under which the network inspection handler looks a network up:
/// namespace (or `global`), cluster and network joined by dashes.
pub fn network_key_for_inspect(namespace: Option<String>, c_name: &str, n_name: &str) -> (res: String)
    ensures
        res@ == spec_join_key(spec_join_key(spec_resolve_nsp(namespace.deep_view()), c_name@), n_name@),
{
    let nsp = resolve_nsp(namespace);
    let cluster_key = gen_key(nsp.as_str(), c_name);
    gen_key(cluster_key.as_str(), n_name)
}

/// The key under which the network deletion handler looks a network up:
/// the cluster's key inside the namespace (or `global`), then the network.
pub fn network_key_for_delete(namespace: Option<String>, c_name: &str, n_name: &str) -> (res: String)
    ensures
        res@ == spec_join_key(spec_key_from_nsp(namespace.deep_view(), c_name@), n_name@),
{
    let cluster_key = gen_key_from_nsp(namespace, c_name);
    gen_key(cluster_key.as_str(), n_name)
}

/// The keys involved when a cargo joins a cluster.
pub struct JoinKeys {
    pub cluster_key: String,
    pub cargo_key: String,
    pub instance_key: String,
    pub network_key: String,
}

/// The keys of a join: cluster and cargo inside the namespace (or
/// `global`), the link `cluster_key-cargo_key`, and the network
/// `cluster_key-network`.
pub fn join_keys(namespace: Option<String>, cluster: &str, cargo: &str, network: &str) -> (res: JoinKeys)
    ensures
        res.cluster_key@ == spec_join_key(spec_resolve_nsp(namespace.deep_view()), cluster@),
        res.cargo_key@ == spec_join_key(spec_resolve_nsp(namespace.deep_view()), cargo@),
        res.instance_key@ == spec_join_key(res.cluster_key@, res.cargo_key@),
        res.network_key@ == spec_join_key(res.cluster_key@, network@),
{
    let nsp = resolve_nsp(namespace);
    let cluster_key = gen_key(nsp.as_str(), cluster);
    let cargo_key = gen_key(nsp.as_str(), cargo);
    let instance_key = gen_key(cluster_key.as_str(), cargo_key.as_str());
    let network_key = gen_key(cluster_key.as_str(), network);
    JoinKeys { cluster_key, cargo_key, instance_key, network_key }
}

/// The error when a cargo already joined the cluster: `409 Conflict`.
pub fn join_conflict_error(cargo: &str, cluster: &str, network: &str) -> (res: HttpResponseError)
    ensures
        res.status == CONFLICT,
        res.msg@ == "Unable to join cargo "@ + cargo@ + " to cluster "@ + cluster@ + " in network "@ + network@
            + ", already exists"@,
{
    let mut msg = String::from_str("Unable to join cargo ");
    msg.append(cargo);
    msg.append(" to cluster ");
    msg.append(cluster);
    msg.append(" in network ");
    msg.append(network);
    msg.append(", already exists");
    HttpResponseError { status: CONFLICT, msg }
}

/// The docker network created for a cluster network: named
/// `namespace-cluster-network`, with the label `cluster_key` bound to the
/// cluster's key.
pub fn network_creation(nsp: &str, c_name: &str, name: &str) -> (res: (String, Labels))
    ensures
        res.0@ == spec_join_key(spec_join_key(nsp@, c_name@), name@),
        res.1.view() == Map::<Seq<char>, Seq<char>>::empty().insert("cluster_key"@, spec_join_key(nsp@, c_name@)),
{
    let cluster_key = gen_key(nsp, c_name);
    let mut labels = Labels::new();
    labels.insert(String::from_str("cluster_key"), cluster_key.clone());
    let net_id = gen_key(cluster_key.as_str(), name);
    (net_id, labels)
}

/// Refuses a network whose key is already stored: `409 Conflict`.
pub fn check_network_name_free(exists: bool, name: &str) -> (res: Result<(), HttpResponseError>)
    ensures
        !exists ==> res is Ok,
        exists ==> (res matches Err(e) && e.status == CONFLICT && e.msg@ == "Unable to create network with name "@
            + name@ + " a similar network have same name"@),
{
    if exists {
        let mut msg = String::from_str("Unable to create network with name ");
        msg.append(name);
        msg.append(" a similar network have same name");
        Err(HttpResponseError { status: CONFLICT, msg })
    } else {
        Ok(())
    }
}

/// The id docker gave a new network, from the outcome of creating it
/// (`Err` holding the text of docker's error); a failure or a missing id is
/// answered with `400 Bad Request`.
pub fn created_network_id(created: Result<Option<String>, String>, name: &str) -> (res: Result<String, HttpResponseError>)
    ensures
        match created {
            Ok(Some(id)) => res matches Ok(r) && r@ == id@,
            Ok(None) => res matches Err(e) && e.status == BAD_REQUEST && e.msg@ == "Unable to create network with name "@ + name@,
            Err(t) => res matches Err(e) && e.status == BAD_REQUEST
                && e.msg@ == "Unable to create network with name "@ + name@ + " "@ + t@,
        },
{
    match created {
        Ok(Some(id)) => Ok(id),
        Ok(None) => {
            let mut msg = String::from_str("Unable to create network with name ");
            msg.append(name);
            Err(HttpResponseError { status: BAD_REQUEST, msg })
        },
        Err(t) => {
            let mut msg = String::from_str("Unable to create network with name ");
            msg.append(name);
            msg.append(" ");
            msg.append(t.as_str());
            Err(HttpResponseError { status: BAD_REQUEST, msg })
        },
    }
}

} // verus!
