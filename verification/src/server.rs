//! Where the daemon listens: each configured host is a unix socket, a TCP
//! address, or refused.

use vstd::prelude::*;
use crate::text::{has_prefix, remove_all, remove_all_occurrences, starts_with};

verus! {

/// How the server binds one configured host.
#[derive(Debug, PartialEq, Eq)]
pub enum HostBinding {
    /// Listen on the unix socket at this path.
    Unix(String),
    /// Listen on this TCP address.
    Tcp(String),
    /// The host names neither protocol: it is skipped with a warning.
    Invalid,
}

/// What a host binds to, as the contracts speak of it.
pub enum HostBindingView {
    Unix(Seq<char>),
    Tcp(Seq<char>),
    Invalid,
}

impl HostBinding {
    /// The binding, as the contracts speak of it.
    pub open spec fn view(&self) -> HostBindingView {
        match self {
            HostBinding::Unix(p) => HostBindingView::Unix(p@),
            HostBinding::Tcp(a) => HostBindingView::Tcp(a@),
            HostBinding::Invalid => HostBindingView::Invalid,
        }
    }
}

/// The binding of a host: `unix://` hosts bind a socket, `tcp://` hosts an
/// address, each with every occurrence of its protocol prefix removed.
pub open spec fn spec_host_binding(host: Seq<char>) -> HostBindingView {
    if has_prefix(host, "unix://"@) {
        HostBindingView::Unix(remove_all(host, "unix://"@))
    } else if has_prefix(host, "tcp://"@) {
        HostBindingView::Tcp(remove_all(host, "tcp://"@))
    } else {
        HostBindingView::Invalid
    }
}

/// How the server binds one configured host.
pub fn host_binding(host: &str) -> (res: HostBinding)
    ensures
        res.view() == spec_host_binding(host@),
{
    if starts_with(host, "unix://") {
        HostBinding::Unix(remove_all_occurrences(host, "unix://"))
    } else if starts_with(host, "tcp://") {
        HostBinding::Tcp(remove_all_occurrences(host, "tcp://"))
    } else {
        HostBinding::Invalid
    }
}

/// How the server binds each configured host, in order.
pub fn host_bindings(hosts: &Vec<String>) -> (res: Vec<HostBinding>)
    ensures
        res@.len() == hosts@.len(),
        forall|i: int| 0 <= i < hosts@.len() ==> (#[trigger] res@[i]).view() == spec_host_binding(hosts@[i]@),
{
    let mut res: Vec<HostBinding> = Vec::new();
    let mut i: usize = 0;
    while i < hosts.len()
        invariant
            i <= hosts@.len(),
            res@.len() == i,
            forall|j: int| 0 <= j < i ==> (#[trigger] res@[j]).view() == spec_host_binding(hosts@[j]@),
        decreases hosts@.len() - i,
    {
        res.push(host_binding(hosts[i].as_str()));
        i = i + 1;
    }
    res
}

} // verus!
