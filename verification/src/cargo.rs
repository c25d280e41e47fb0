//! Cargoes: environment entries, instance names and labels, and the label
//! filters that select a cargo's containers.

use vstd::prelude::*;
use crate::error::{HttpResponseError, BAD_REQUEST, INTERNAL_SERVER_ERROR, UNPROCESSABLE_ENTITY, http_error};
use crate::key::{spec_join_key, spec_key_from_nsp, spec_resolve_nsp, gen_key, resolve_nsp};
use crate::labels::Labels;
use crate::text::{decimal, lemma_decimal_digits, lemma_decimal_injective, push_decimal, split_once_exact, occurs_once};

verus! {

/// `entry` is `name=value` with exactly one `=`.
pub open spec fn is_env_split(entry: Seq<char>, name: Seq<char>, value: Seq<char>) -> bool {
    &&& entry == name + seq!['='] + value
    &&& !name.contains('=')
    &&& !value.contains('=')
}

/// An entry `NAME=VALUE` of a cargo's environment is well formed when it
/// holds exactly one `=`.
pub open spec fn valid_env_entry(entry: Seq<char>) -> bool {
    occurs_once(entry, '=')
}

/// Splits an environment entry `NAME=VALUE`; `None` unless the entry holds
/// exactly one `=`.
pub fn parse_env_entry(entry: &str) -> (res: Option<(String, String)>)
    ensures
        res is Some <==> valid_env_entry(entry@),
        res matches Some((n, v)) ==> is_env_split(entry@, n@, v@),
{
    split_once_exact(entry, '=')
}

/// A name and value split from one entry are the only ones: an entry is
/// split in one way at most.
pub proof fn law_env_split_unique(entry: Seq<char>, n1: Seq<char>, v1: Seq<char>, n2: Seq<char>, v2: Seq<char>)
    requires
        is_env_split(entry, n1, v1),
        is_env_split(entry, n2, v2),
    ensures
        n1 == n2,
        v1 == v2,
{
    if n1.len() < n2.len() {
        assert(entry[n1.len() as int] == '=');
        assert(n2[n1.len() as int] == entry[n1.len() as int]);
        assert(n2.contains('='));
    } else if n2.len() < n1.len() {
        assert(entry[n2.len() as int] == '=');
        assert(n1[n2.len() as int] == entry[n2.len() as int]);
        assert(n1.contains('='));
    } else {
        assert(n1 =~= entry.subrange(0, n1.len() as int));
        assert(n2 =~= entry.subrange(0, n2.len() as int));
        assert(v1 =~= entry.subrange(n1.len() as int + 1, entry.len() as int));
        assert(v2 =~= entry.subrange(n2.len() as int + 1, entry.len() as int));
    }
}

/// The message of the error for a malformed entry when a cargo is created.
pub open spec fn invalid_env_create_msg(entry: Seq<char>) -> Seq<char> {
    "env item "@ + entry + " is not a valid format"@
}

/// The message of the error for a malformed entry when a cargo is patched.
pub open spec fn invalid_env_patch_msg(entry: Seq<char>) -> Seq<char> {
    "env variable formated incorrectly "@ + entry
}

/// Index of the first malformed entry of a list.
pub open spec fn first_invalid_env(entries: Seq<Seq<char>>, i: int) -> bool {
    &&& 0 <= i < entries.len()
    &&& !valid_env_entry(entries[i])
    &&& forall|j: int| 0 <= j < i ==> valid_env_entry(#[trigger] entries[j])
}

/// Splits every entry of a cargo's environment; the first malformed entry
/// is answered with `422 Unprocessable Entity`.
pub fn parse_environnements(entries: &Vec<String>, patching: bool) -> (res: Result<Vec<(String, String)>, HttpResponseError>)
    ensures
        res is Ok <==> forall|j: int| 0 <= j < entries@.len() ==> valid_env_entry(#[trigger] entries@[j]@),
        res matches Ok(pairs) ==> pairs@.len() == entries@.len() && forall|j: int| 0 <= j < entries@.len()
            ==> is_env_split(#[trigger] entries@[j]@, pairs@[j].0@, pairs@[j].1@),
        res matches Err(e) ==> e.status == UNPROCESSABLE_ENTITY && exists|i: int|
            first_invalid_env(entries.deep_view(), i) && e.msg@ == (if patching {
                invalid_env_patch_msg(entries@[i]@)
            } else {
                invalid_env_create_msg(entries@[i]@)
            }),
{
    let mut pairs: Vec<(String, String)> = Vec::new();
    let mut i: usize = 0;
    while i < entries.len()
        invariant
            i <= entries@.len(),
            pairs@.len() == i,
            forall|j: int| 0 <= j < i ==> valid_env_entry(#[trigger] entries@[j]@),
            forall|j: int| 0 <= j < i ==> is_env_split(#[trigger] entries@[j]@, pairs@[j].0@, pairs@[j].1@),
        decreases entries@.len() - i,
    {
        match parse_env_entry(entries[i].as_str()) {
            Some(pair) => {
                pairs.push(pair);
            },
            None => {
                let mut msg;
                if patching {
                    msg = String::from_str("env variable formated incorrectly ");
                    msg.append(entries[i].as_str());
                } else {
                    msg = String::from_str("env item ");
                    msg.append(entries[i].as_str());
                    msg.append(" is not a valid format");
                }
                proof {
                    assert(entries.deep_view()[i as int] == entries@[i as int]@);
                    assert forall|j: int| 0 <= j < i implies valid_env_entry(#[trigger] entries.deep_view()[j]) by {
                        assert(entries.deep_view()[j] == entries@[j]@);
                    }
                    assert(first_invalid_env(entries.deep_view(), i as int));
                }
                return Err(HttpResponseError { status: UNPROCESSABLE_ENTITY, msg });
            },
        }
        i = i + 1;
    }
    Ok(pairs)
}

/// The name of the `count`-th container of a cargo in a cluster:
/// `namespace-cluster-cargo`, then `-count` unless it is the first.
pub open spec fn spec_instance_name(nsp: Seq<char>, cluster: Seq<char>, cargo: Seq<char>, count: nat) -> Seq<char> {
    let base = nsp + seq!['-'] + cluster + seq!['-'] + cargo;
    if count == 0 {
        base
    } else {
        base + seq!['-'] + decimal(count)
    }
}

/// The name of the `count`-th container of a cargo in a cluster.
pub fn instance_name(nsp: &str, cluster: &str, cargo: &str, count: u64) -> (res: String)
    ensures
        res@ == spec_instance_name(nsp@, cluster@, cargo@, count as nat),
{
    let mut name = nsp.to_owned();
    name.append("-");
    name.append(cluster);
    name.append("-");
    name.append(cargo);
    if count != 0 {
        name.append("-");
        push_decimal(&mut name, count);
    }
    proof {
        reveal_strlit("-");
    }
    name
}

/// The names of the containers of a cargo that runs `replicas` times;
/// none when `replicas` is not positive.
pub fn instance_names(nsp: &str, cluster: &str, cargo: &str, replicas: i64) -> (res: Vec<String>)
    ensures
        res@.len() == (if replicas > 0 { replicas as nat } else { 0 }),
        forall|i: int| 0 <= i < res@.len() ==> #[trigger] res@[i]@ == spec_instance_name(nsp@, cluster@, cargo@, i as nat),
{
    let mut names: Vec<String> = Vec::new();
    let mut count: u64 = 0;
    if replicas <= 0 {
        return names;
    }
    let total = replicas as u64;
    while count < total
        invariant
            total == replicas as nat,
            count <= total,
            names@.len() == count,
            forall|i: int| 0 <= i < count ==> #[trigger] names@[i]@ == spec_instance_name(nsp@, cluster@, cargo@, i as nat),
        decreases total - count,
    {
        names.push(instance_name(nsp, cluster, cargo, count));
        count = count + 1;
    }
    names
}

/// The containers of a cargo get pairwise distinct names.
pub proof fn law_instance_names_distinct(nsp: Seq<char>, cluster: Seq<char>, cargo: Seq<char>, i: nat, j: nat)
    requires
        i != j,
    ensures
        spec_instance_name(nsp, cluster, cargo, i) != spec_instance_name(nsp, cluster, cargo, j),
{
    let base = nsp + seq!['-'] + cluster + seq!['-'] + cargo;
    let ni = spec_instance_name(nsp, cluster, cargo, i);
    let nj = spec_instance_name(nsp, cluster, cargo, j);
    if ni == nj {
        if i == 0 {
            lemma_decimal_digits(j);
            assert(nj.len() > base.len());
        } else if j == 0 {
            lemma_decimal_digits(i);
            assert(ni.len() > base.len());
        } else {
            let p = base + seq!['-'];
            assert(ni == p + decimal(i));
            assert(nj == p + decimal(j));
            assert(decimal(i) =~= ni.subrange(p.len() as int, ni.len() as int));
            assert(decimal(j) =~= nj.subrange(p.len() as int, nj.len() as int));
            lemma_decimal_injective(i, j);
        }
    }
}

/// The temporary name given to the `count`-th old container of a cargo
/// while its containers are recreated.
pub open spec fn spec_tmp_instance_name(cargo: Seq<char>, count: nat) -> Seq<char> {
    cargo + "-tmp-"@ + decimal(count)
}

/// `cargo-tmp-count`.
pub fn tmp_instance_name(cargo: &str, count: u64) -> (res: String)
    ensures
        res@ == spec_tmp_instance_name(cargo@, count as nat),
{
    let mut name = cargo.to_owned();
    name.append("-tmp-");
    push_decimal(&mut name, count);
    name
}

/// The network mode of a cargo's containers: the one its host config
/// names, else the cluster network it joins.
pub fn instance_network_mode(network_key: &str, host_network_mode: &Option<String>) -> (res: String)
    ensures
        res@ == (match host_network_mode {
            Some(m) => m@,
            None => network_key@,
        }),
{
    match host_network_mode {
        Some(m) => m.clone(),
        None => network_key.to_owned(),
    }
}

/// The labels of a cargo's containers: the given ones, with `namespace`
/// bound to the cargo's namespace and `cargo` to its key.
pub fn instance_labels(labels: Option<Labels>, namespace_name: &str, cargo_key: &str) -> (res: Labels)
    ensures
        res.view() == (match labels {
            Some(l) => l.view(),
            None => Map::<Seq<char>, Seq<char>>::empty(),
        }).insert("namespace"@, namespace_name@).insert("cargo"@, cargo_key@),
{
    let mut res = match labels {
        None => Labels::new(),
        Some(l) => l,
    };
    res.insert(String::from_str("namespace"), namespace_name.to_owned());
    res.insert(String::from_str("cargo"), cargo_key.to_owned());
    res
}

/// Which containers to list: optional namespace, cluster and cargo names.
pub struct CargoInstanceFilterQuery {
    pub namespace: Option<String>,
    pub cluster: Option<String>,
    pub cargo: Option<String>,
}

/// The docker label filters selecting the containers a query asks for:
/// `namespace=N`, then `cluster=N-C` and `cargo=N-G` when given, where `N`
/// is the namespace or `global`.
pub open spec fn spec_instance_label_filters(
    namespace: Option<Seq<char>>,
    cluster: Option<Seq<char>>,
    cargo: Option<Seq<char>>,
) -> Seq<Seq<char>> {
    let nsp = spec_resolve_nsp(namespace);
    let base = seq!["namespace="@ + nsp];
    let with_cluster = match cluster {
        Some(c) => base.push("cluster="@ + spec_join_key(nsp, c)),
        None => base,
    };
    match cargo {
        Some(g) => with_cluster.push("cargo="@ + spec_join_key(nsp, g)),
        None => with_cluster,
    }
}

/// A label filter: the prefix, then the value.
fn label_filter(prefix: &str, value: &str) -> (res: String)
    ensures
        res@ == prefix@ + value@,
{
    let mut s = prefix.to_owned();
    s.append(value);
    s
}

/// The docker label filters that select the containers a query asks for.
pub fn instance_label_filters(qs: &CargoInstanceFilterQuery) -> (res: Vec<String>)
    ensures
        res.deep_view() == spec_instance_label_filters(
            qs.namespace.deep_view(),
            qs.cluster.deep_view(),
            qs.cargo.deep_view(),
        ),
{
    let namespace = resolve_nsp(qs.namespace.clone());
    let mut labels: Vec<String> = Vec::new();
    labels.push(label_filter("namespace=", namespace.as_str()));
    let ghost base = labels.deep_view();
    assert(base =~= seq!["namespace="@ + namespace@]);
    match &qs.cluster {
        Some(cluster) => {
            let key = gen_key(namespace.as_str(), cluster.as_str());
            labels.push(label_filter("cluster=", key.as_str()));
        },
        None => {},
    }
    let ghost mid = labels.deep_view();
    assert(mid =~= match qs.cluster.deep_view() {
        Some(c) => base.push("cluster="@ + spec_join_key(namespace@, c)),
        None => base,
    });
    match &qs.cargo {
        Some(cargo) => {
            let key = gen_key(namespace.as_str(), cargo.as_str());
            labels.push(label_filter("cargo=", key.as_str()));
        },
        None => {},
    }
    assert(labels.deep_view() =~= match qs.cargo.deep_view() {
        Some(g) => mid.push("cargo="@ + spec_join_key(namespace@, g)),
        None => mid,
    });
    labels
}

/// The error when a cargo's image is not in docker: `400 Bad Request`.
pub fn image_unavailable_error(image: &str) -> (res: HttpResponseError)
    ensures
        res.status == BAD_REQUEST,
        res.msg@ == "Unable to create cargo container image "@ + image@ + " is not available."@,
{
    let mut msg = String::from_str("Unable to create cargo container image ");
    msg.append(image);
    msg.append(" is not available.");
    HttpResponseError { status: BAD_REQUEST, msg }
}

/// The id of a listed container, or `500` when docker gave none.
pub fn container_id(id: Option<String>) -> (res: Result<String, HttpResponseError>)
    ensures
        match id {
            Some(i) => res matches Ok(r) && r@ == i@,
            None => res matches Err(e) && e.status == INTERNAL_SERVER_ERROR
                && e.msg@ == "unable to get container id"@,
        },
{
    match id {
        Some(i) => Ok(i),
        None => Err(http_error(INTERNAL_SERVER_ERROR, "unable to get container id")),
    }
}

/// The binds of a cargo after a patch: its binds, then the patch's.
pub fn merge_binds(binds: &Vec<String>, extra: &Option<Vec<String>>) -> (res: Vec<String>)
    ensures
        res.deep_view() == (match extra {
            Some(e) => binds.deep_view() + e.deep_view(),
            None => binds.deep_view(),
        }),
{
    let mut res = crate::text::clone_strings(binds);
    match extra {
        Some(e) => {
            let mut i: usize = 0;
            while i < e.len()
                invariant
                    i <= e@.len(),
                    res.deep_view() =~= binds.deep_view() + e.deep_view().subrange(0, i as int),
                    res@.len() == binds@.len() + i,
                decreases e@.len() - i,
            {
                let ghost prev_dv = res.deep_view();
                let ghost prev = res@;
                let c = e[i].clone();
                res.push(c);
                assert forall|j: int| 0 <= j < res@.len() - 1 implies res.deep_view()[j] == prev_dv[j] by {
                    assert(res@[j] == prev[j]);
                }
                assert(res@[res@.len() - 1] == c);
                assert(c@ == e.deep_view()[i as int]);
                let ghost target = binds.deep_view() + e.deep_view().subrange(0, i + 1);
                let ghost before = binds.deep_view() + e.deep_view().subrange(0, i as int);
                assert forall|j: int| 0 <= j < res@.len() implies res.deep_view()[j] == target[j] by {
                    if j < res@.len() - 1 {
                        assert(prev_dv[j] == before[j]);
                        if j < binds@.len() {
                            assert(before[j] == binds.deep_view()[j]);
                            assert(target[j] == binds.deep_view()[j]);
                        } else {
                            assert(before[j] == e.deep_view()[j - binds@.len()]);
                            assert(target[j] == e.deep_view()[j - binds@.len()]);
                        }
                    }
                }
                assert(res.deep_view() =~= target);
                i = i + 1;
            }
            assert(e.deep_view().subrange(0, e@.len() as int) =~= e.deep_view());
        },
        None => {},
    }
    res
}

/// Every label filter of a query names the namespace the query resolves to
/// (`global` when it gives none): the first filter is that namespace, the
/// cluster filter is the cluster's key in it and the cargo filter the
/// cargo's key in it, the very keys `gen_key_from_nsp` gives them, and
/// nothing else is filtered on.
pub proof fn law_label_filters_use_resolved_namespace(
    namespace: Option<Seq<char>>,
    cluster: Option<Seq<char>>,
    cargo: Option<Seq<char>>,
)
    ensures
        spec_instance_label_filters(namespace, cluster, cargo)[0] == "namespace="@ + spec_resolve_nsp(namespace),
        spec_instance_label_filters(namespace, cluster, cargo).len()
            == 1 + (if cluster is Some { 1int } else { 0int }) + (if cargo is Some { 1int } else { 0int }),
        cluster matches Some(c) ==> spec_instance_label_filters(namespace, cluster, cargo)[1]
            == "cluster="@ + spec_key_from_nsp(namespace, c),
        cargo matches Some(g) ==> spec_instance_label_filters(namespace, cluster, cargo).last()
            == "cargo="@ + spec_key_from_nsp(namespace, g),
{
}

} // verus!
