//! Keys under which namespaces, clusters, cargoes, networks and variables
//! are stored: a parent name, a dash, and a child name.

use vstd::prelude::*;

verus! {

/// The key of a child named `child` under a parent named `parent`.
pub open spec fn spec_join_key(parent: Seq<char>, child: Seq<char>) -> Seq<char> {
    parent + seq!['-'] + child
}

/// The namespace that an optional namespace resolves to when none is given.
pub open spec fn spec_resolve_nsp(nsp: Option<Seq<char>>) -> Seq<char> {
    match nsp {
        Some(n) => n,
        None => seq!['g', 'l', 'o', 'b', 'a', 'l'],
    }
}

/// `n1`, a dash, then `n2`.
pub fn gen_key(n1: &str, n2: &str) -> (res: String)
    ensures
        res@ == spec_join_key(n1@, n2@),
{
    let mut res = n1.to_owned();
    res.append("-");
    res.append(n2);
    proof {
        reveal_strlit("-");
    }
    res
}

/// The given namespace, or `global` when there is none.
pub fn resolve_nsp(nsp: Option<String>) -> (res: String)
    ensures
        res@ == spec_resolve_nsp(nsp.deep_view()),
{
    match nsp {
        None => {
            proof {
                reveal_strlit("global");
            }
            String::from_str("global")
        },
        Some(nsp) => nsp,
    }
}

/// The key that `gen_key_from_nsp` builds: the name inside the given
/// namespace, or inside `global` when there is none.
pub open spec fn spec_key_from_nsp(nsp: Option<Seq<char>>, n2: Seq<char>) -> Seq<char> {
    spec_join_key(spec_resolve_nsp(nsp), n2)
}

/// The key of `n2` inside the given namespace, or inside `global` when
/// there is none.
pub fn gen_key_from_nsp(nsp: Option<String>, n2: &str) -> (res: String)
    ensures
        res@ == spec_key_from_nsp(nsp.deep_view(), n2@),
{
    let nsp = resolve_nsp(nsp);
    gen_key(nsp.as_str(), n2)
}

/// The given namespace, or `global` when there is none.
pub fn ensure_namespace(namespace: &Option<String>) -> (res: String)
    ensures
        res@ == spec_resolve_nsp(namespace.deep_view()),
{
    match namespace {
        None => {
            proof {
                reveal_strlit("global");
            }
            String::from_str("global")
        },
        Some(nsp) => nsp.clone(),
    }
}

/// `parent_key`, a dash, then `name`.
pub fn format_key(parent_key: &String, name: &String) -> (res: String)
    ensures
        res@ == spec_join_key(parent_key@, name@),
{
    gen_key(parent_key.as_str(), name.as_str())
}

/// The key of `name` inside the given namespace, or inside `global`.
pub fn gen_nsp_key_by_name(namespace: &Option<String>, name: &String) -> (res: String)
    ensures
        res@ == spec_join_key(spec_resolve_nsp(namespace.deep_view()), name@),
{
    let namespace = ensure_namespace(namespace);
    format_key(&namespace, name)
}

/// Within one parent, distinct child names give distinct keys, and a key
/// built under one parent names its child uniquely.
pub proof fn law_key_injective_in_child(parent: Seq<char>, c1: Seq<char>, c2: Seq<char>)
    ensures
        spec_join_key(parent, c1) == spec_join_key(parent, c2) <==> c1 == c2,
{
    if spec_join_key(parent, c1) == spec_join_key(parent, c2) {
        let p = parent + seq!['-'];
        assert(spec_join_key(parent, c1) == p + c1);
        assert(spec_join_key(parent, c2) == p + c2);
        assert(c1 =~= (p + c1).subrange(p.len() as int, (p + c1).len() as int));
        assert(c2 =~= (p + c2).subrange(p.len() as int, (p + c2).len() as int));
    }
}

/// For one child name, distinct parents give distinct keys.
pub proof fn law_key_injective_in_parent(p1: Seq<char>, p2: Seq<char>, child: Seq<char>)
    ensures
        spec_join_key(p1, child) == spec_join_key(p2, child) <==> p1 == p2,
{
    if spec_join_key(p1, child) == spec_join_key(p2, child) {
        let k1 = spec_join_key(p1, child);
        let k2 = spec_join_key(p2, child);
        assert(k1.len() == k2.len());
        assert(p1 =~= k1.subrange(0, p1.len() as int));
        assert(p2 =~= k2.subrange(0, p2.len() as int));
    }
}

/// Every key builder gives a name the same key: the name inside the given
/// namespace, or inside `global` when none is given, so an object stored
/// through one builder is found through any other.
pub proof fn law_namespace_fallbacks(nsp: Option<Seq<char>>, name: Seq<char>)
    ensures
        spec_key_from_nsp(nsp, name) == spec_join_key(spec_resolve_nsp(nsp), name),
        nsp matches Some(n) ==> spec_key_from_nsp(nsp, name) == spec_join_key(n, name),
        nsp is None ==> spec_key_from_nsp(nsp, name) == spec_join_key(seq!['g', 'l', 'o', 'b', 'a', 'l'], name),
{
}

} // verus!
