//! The records the daemon stores, and how each is built from a request:
//! every record is stored under a key made of its parent's key and its
//! own name.

use vstd::prelude::*;
use crate::key::{spec_join_key, gen_key};

verus! {

/// A JSON document, carried through unchanged.
#[verifier::external_type_specification]
#[verifier::external_body]
pub struct ExJsonValue(serde_json::Value);

/// The postgres enum type `node_modes`.
pub struct NodeModes;

/// The postgres enum type `proxy_template_modes`.
pub struct ProxyTemplateModes;

/// The postgres enum type `ssh_auth_modes`.
pub struct SshAuthModes;

/// A namespace.
pub struct NamespaceItem {
    pub name: String,
}

/// A request to create a cargo.
pub struct CargoPartial {
    pub name: String,
    pub config: serde_json::Value,
    pub replicas: Option<i64>,
    pub dns_entry: Option<String>,
    pub environnements: Option<Vec<String>>,
}

/// A stored cargo.
pub struct CargoItem {
    pub key: String,
    pub namespace_name: String,
    pub name: String,
    pub config: serde_json::Value,
    pub replicas: i64,
    pub dns_entry: Option<String>,
}

/// The cargo stored for a creation request in a namespace: keyed
/// `namespace-name`, one replica unless the request says otherwise.
pub fn cargo_item(nsp: String, item: CargoPartial) -> (res: CargoItem)
    ensures
        res.key@ == spec_join_key(nsp@, item.name@),
        res.name@ == item.name@,
        res.namespace_name@ == nsp@,
        res.replicas == (match item.replicas {
            Some(r) => r,
            None => 1,
        }),
        res.dns_entry == item.dns_entry,
        res.config == item.config,
{
    let key = gen_key(nsp.as_str(), item.name.as_str());
    let replicas = match item.replicas {
        Some(r) => r,
        None => 1,
    };
    CargoItem {
        key,
        name: item.name,
        namespace_name: nsp,
        replicas,
        dns_entry: item.dns_entry,
        config: item.config,
    }
}

/// A request to change a cargo; absent fields stay as they are.
pub struct CargoPatchPartial {
    pub name: Option<String>,
    pub config: Option<serde_json::Value>,
    pub replicas: Option<i64>,
    pub dns_entry: Option<String>,
    pub environnements: Option<Vec<String>>,
    pub binds: Option<Vec<String>>,
}

/// The columns a cargo patch sets.
pub struct CargoPatchItem {
    pub key: Option<String>,
    pub name: Option<String>,
    pub config: Option<serde_json::Value>,
    pub replicas: Option<i64>,
    pub dns_entry: Option<String>,
}

/// The columns set by a patch of a cargo of namespace `nsp`: a new name
/// moves the cargo to the key `nsp-newname`.
pub fn cargo_patch_item(nsp: &str, item: CargoPatchPartial) -> (res: CargoPatchItem)
    ensures
        res.key.deep_view() == (match item.name {
            Some(n) => Some(spec_join_key(nsp@, n@)),
            None => None::<Seq<char>>,
        }),
        res.name == item.name,
        res.config == item.config,
        res.replicas == item.replicas,
        res.dns_entry == item.dns_entry,
{
    let key = match &item.name {
        Some(name) => Some(gen_key(nsp, name.as_str())),
        None => None,
    };
    CargoPatchItem {
        key,
        name: item.name,
        config: item.config,
        replicas: item.replicas,
        dns_entry: item.dns_entry,
    }
}

/// A request to set an environment variable of a cargo.
pub struct CargoEnvPartial {
    pub cargo_key: String,
    pub name: String,
    pub value: String,
}

/// A stored environment variable of a cargo.
pub struct CargoEnvItem {
    pub key: String,
    pub cargo_key: String,
    pub name: String,
    pub value: String,
}

impl CargoEnvItem {
    /// The variable as (key, cargo key, name, value).
    pub open spec fn spec_fields(&self) -> (Seq<char>, Seq<char>, Seq<char>, Seq<char>) {
        (self.key@, self.cargo_key@, self.name@, self.value@)
    }
}

/// The stored form of an environment variable: keyed `cargo_key-name`.
pub open spec fn spec_cargo_env(cargo_key: Seq<char>, name: Seq<char>, value: Seq<char>) -> (Seq<char>, Seq<char>, Seq<char>, Seq<char>) {
    (spec_join_key(cargo_key, name), cargo_key, name, value)
}

/// The stored form of an environment variable.
pub fn cargo_env_item(item: CargoEnvPartial) -> (res: CargoEnvItem)
    ensures
        res.spec_fields() == spec_cargo_env(item.cargo_key@, item.name@, item.value@),
{
    let key = gen_key(item.cargo_key.as_str(), item.name.as_str());
    CargoEnvItem { key, cargo_key: item.cargo_key, name: item.name, value: item.value }
}

/// The variables a cargo keyed `cargo_key` gets from its parsed
/// environment entries, in order.
pub fn cargo_env_items(cargo_key: &str, envs: Vec<(String, String)>) -> (res: Vec<CargoEnvItem>)
    ensures
        res@.len() == envs@.len(),
        forall|i: int| 0 <= i < envs@.len() ==> (#[trigger] res@[i]).spec_fields()
            == spec_cargo_env(cargo_key@, envs@[i].0@, envs@[i].1@),
{
    let mut res: Vec<CargoEnvItem> = Vec::new();
    let mut envs = envs;
    let ghost all = envs@;
    let mut rev: Vec<(String, String)> = Vec::new();
    while envs.len() > 0
        invariant
            rev@.len() + envs@.len() == all.len(),
            envs@ == all.subrange(0, envs@.len() as int),
            forall|i: int| 0 <= i < rev@.len() ==> #[trigger] rev@[i] == all[all.len() - 1 - i],
        decreases envs@.len(),
    {
        let last = envs.pop().unwrap();
        rev.push(last);
    }
    while rev.len() > 0
        invariant
            rev@.len() + res@.len() == all.len(),
            forall|i: int| 0 <= i < rev@.len() ==> #[trigger] rev@[i] == all[all.len() - 1 - i],
            forall|i: int| 0 <= i < res@.len() ==> (#[trigger] res@[i]).spec_fields()
                == spec_cargo_env(cargo_key@, all[i].0@, all[i].1@),
        decreases rev@.len(),
    {
        let (name, value) = rev.pop().unwrap();
        res.push(cargo_env_item(CargoEnvPartial { cargo_key: cargo_key.to_owned(), name, value }));
    }
    res
}

/// A request to create a cluster.
pub struct ClusterPartial {
    pub name: String,
    pub proxy_templates: Option<Vec<String>>,
}

/// A stored cluster.
pub struct ClusterItem {
    pub key: String,
    pub namespace: String,
    pub name: String,
    pub proxy_templates: Vec<String>,
}

/// The cluster stored for a creation request in a namespace: keyed
/// `namespace-name`, with no proxy template unless the request lists some.
pub fn cluster_item(nsp: String, item: ClusterPartial) -> (res: ClusterItem)
    ensures
        res.key@ == spec_join_key(nsp@, item.name@),
        res.namespace@ == nsp@,
        res.name@ == item.name@,
        res.proxy_templates@ == (match item.proxy_templates {
            Some(t) => t@,
            None => Seq::<String>::empty(),
        }),
{
    let key = gen_key(nsp.as_str(), item.name.as_str());
    let proxy_templates = match item.proxy_templates {
        Some(t) => t,
        None => Vec::new(),
    };
    ClusterItem { key, namespace: nsp, name: item.name, proxy_templates }
}

/// The proxy templates of a cluster after one is added: it goes last.
pub fn add_proxy_template(templates: Vec<String>, name: String) -> (res: Vec<String>)
    ensures
        res@ == templates@.push(name),
{
    let mut templates = templates;
    templates.push(name);
    templates
}

/// The proxy templates of a cluster after one is removed: every template
/// of that name goes, the others keep their order.
pub fn remove_proxy_template(templates: Vec<String>, name: &str) -> (res: Vec<String>)
    ensures
        res.deep_view() == templates.deep_view().filter(|t: Seq<char>| t != name@),
{
    let target = name.to_owned();
    let mut res: Vec<String> = Vec::new();
    let mut i: usize = 0;
    let ghost dv = templates.deep_view();
    let ghost keep = |t: Seq<char>| t != name@;
    while i < templates.len()
        invariant
            i <= templates@.len(),
            dv == templates.deep_view(),
            target@ == name@,
            keep == (|t: Seq<char>| t != name@),
            res.deep_view() == dv.subrange(0, i as int).filter(keep),
        decreases templates@.len() - i,
    {
        let ghost before = res.deep_view();
        let ghost prev = res@;
        proof {
            reveal_with_fuel(Seq::<_>::filter, 1);
        }
        assert(dv.subrange(0, i + 1).drop_last() =~= dv.subrange(0, i as int));
        assert(dv.subrange(0, i + 1).last() == dv[i as int]);
        assert(dv[i as int] == templates@[i as int]@);
        if templates[i] != target {
            let c = templates[i].clone();
            res.push(c);
            assert forall|j: int| 0 <= j < res@.len() - 1 implies res.deep_view()[j] == before[j] by {
                assert(res@[j] == prev[j]);
            }
            assert(res@[res@.len() - 1] == c);
            assert(res.deep_view() =~= before.push(dv[i as int]));
        } else {
            assert(res.deep_view() =~= before);
        }
        i = i + 1;
    }
    assert(dv.subrange(0, templates@.len() as int) =~= dv);
    res
}

/// A request to join a cargo to a cluster in one of its networks.
pub struct CargoInstancePartial {
    pub cargo_key: String,
    pub cluster_key: String,
    pub network_key: String,
}

/// A stored link from a cargo to a cluster network.
pub struct CargoInstanceItem {
    pub key: String,
    pub cargo_key: String,
    pub cluster_key: String,
    pub network_key: String,
}

/// The link stored when a cargo joins a cluster: keyed
/// `cluster_key-cargo_key`.
pub fn cargo_instance_item(item: CargoInstancePartial) -> (res: CargoInstanceItem)
    ensures
        res.key@ == spec_join_key(item.cluster_key@, item.cargo_key@),
        res.cargo_key@ == item.cargo_key@,
        res.cluster_key@ == item.cluster_key@,
        res.network_key@ == item.network_key@,
{
    let key = gen_key(item.cluster_key.as_str(), item.cargo_key.as_str());
    CargoInstanceItem { key, cargo_key: item.cargo_key, cluster_key: item.cluster_key, network_key: item.network_key }
}

/// A request to create a network in a cluster.
pub struct ClusterNetworkPartial {
    pub name: String,
}

/// A stored cluster network.
pub struct ClusterNetworkItem {
    pub key: String,
    pub name: String,
    pub namespace: String,
    pub docker_network_id: String,
    pub default_gateway: String,
    pub cluster_key: String,
}

/// The key of a network of a cluster of a namespace.
pub open spec fn spec_network_key(nsp: Seq<char>, cluster: Seq<char>, network: Seq<char>) -> Seq<char> {
    spec_join_key(spec_join_key(nsp, cluster), network)
}

/// The network stored for a docker network created in a cluster: keyed
/// `namespace-cluster-name`.
pub fn cluster_network_item(
    namespace_name: String,
    cluster_name: &str,
    item: ClusterNetworkPartial,
    docker_network_id: String,
    default_gateway: String,
) -> (res: ClusterNetworkItem)
    ensures
        res.key@ == spec_network_key(namespace_name@, cluster_name@, item.name@),
        res.cluster_key@ == spec_join_key(namespace_name@, cluster_name@),
        res.name@ == item.name@,
        res.namespace@ == namespace_name@,
        res.docker_network_id@ == docker_network_id@,
        res.default_gateway@ == default_gateway@,
{
    let cluster_key = gen_key(namespace_name.as_str(), cluster_name);
    let key = gen_key(cluster_key.as_str(), item.name.as_str());
    ClusterNetworkItem {
        key,
        cluster_key,
        name: item.name,
        default_gateway,
        docker_network_id,
        namespace: namespace_name,
    }
}

/// A request to set a variable of a cluster.
pub struct ClusterVariablePartial {
    pub name: String,
    pub value: String,
}

/// A stored cluster variable.
pub struct ClusterVariableItem {
    pub key: String,
    pub cluster_key: String,
    pub name: String,
    pub value: String,
}

/// The variable stored in a cluster: keyed `cluster_key-name`.
pub fn cluster_variable_item(cluster_key: String, item: ClusterVariablePartial) -> (res: ClusterVariableItem)
    ensures
        res.key@ == spec_join_key(cluster_key@, item.name@),
        res.cluster_key@ == cluster_key@,
        res.name@ == item.name@,
        res.value@ == item.value@,
{
    let key = gen_key(cluster_key.as_str(), item.name.as_str());
    ClusterVariableItem { key, cluster_key, name: item.name, value: item.value }
}

/// Where a git repository is hosted.
#[derive(Debug, PartialEq, Eq, Structural, Clone, Copy)]
pub enum GitRepositorySourceType {
    Github,
    Gitlab,
    Local,
}

/// A request to register a git repository.
pub struct GitRepositoryPartial {
    pub name: String,
    pub url: String,
}

/// A stored git repository.
pub struct GitRepositoryItem {
    pub name: String,
    pub url: String,
    pub default_branch: String,
    pub source: GitRepositorySourceType,
}

/// The repository stored for a registration request: hosted on github.
pub fn git_repository_item(item: GitRepositoryPartial, default_branch: String) -> (res: GitRepositoryItem)
    ensures
        res.name@ == item.name@,
        res.url@ == item.url@,
        res.default_branch@ == default_branch@,
        res.source == GitRepositorySourceType::Github,
{
    GitRepositoryItem { url: item.url, name: item.name, default_branch, source: GitRepositorySourceType::Github }
}

/// A request to store a branch of a git repository.
pub struct GitRepositoryBranchPartial {
    pub name: String,
    pub last_commit_sha: String,
    pub repository_name: String,
}

/// A stored branch of a git repository.
pub struct GitRepositoryBranchItem {
    pub key: String,
    pub name: String,
    pub last_commit_sha: String,
    pub repository_name: String,
}

/// The branch stored for a request: keyed `repository-branch`.
pub fn git_repository_branch_item(item: GitRepositoryBranchPartial) -> (res: GitRepositoryBranchItem)
    ensures
        res.key@ == spec_join_key(item.repository_name@, item.name@),
        res.name@ == item.name@,
        res.last_commit_sha@ == item.last_commit_sha@,
        res.repository_name@ == item.repository_name@,
{
    let key = gen_key(item.repository_name.as_str(), item.name.as_str());
    GitRepositoryBranchItem {
        key,
        name: item.name,
        last_commit_sha: item.last_commit_sha,
        repository_name: item.repository_name,
    }
}

} // verus!
