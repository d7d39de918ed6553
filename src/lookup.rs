//! First-match lookups over what the provider lists: an instance or a
//! snapshot by exact name, and the public address of an instance.

use vstd::prelude::*;
use crate::api::{Droplet, DropletNetworkV4, Snapshot};

verus! {

/// `i` is the first index below `len` at which `p` holds.
pub open spec fn is_first(len: int, p: spec_fn(int) -> bool, i: int) -> bool {
    &&& 0 <= i < len
    &&& p(i)
    &&& forall|j: int| 0 <= j < i ==> !#[trigger] p(j)
}

/// The first index below `len` at which `p` holds, if there is one.
pub open spec fn first_index(len: int, p: spec_fn(int) -> bool) -> Option<int> {
    if exists|i: int| is_first(len, p, i) {
        Some(choose|i: int| is_first(len, p, i))
    } else {
        None
    }
}

pub proof fn lemma_first_index_is(len: int, p: spec_fn(int) -> bool, i: int)
    requires
        is_first(len, p, i),
    ensures
        first_index(len, p) == Some(i),
{
    let k = choose|k: int| is_first(len, p, k);
    assert(is_first(len, p, k));
    if k < i {
        assert(!p(k));
    } else if i < k {
        assert(!p(i));
    }
}

pub proof fn lemma_first_index_some(len: int, p: spec_fn(int) -> bool, i: int)
    requires
        0 <= i < len,
        p(i),
    ensures
        first_index(len, p) is Some,
    decreases i,
{
    if exists|j: int| 0 <= j < i && #[trigger] p(j) {
        let j = choose|j: int| 0 <= j < i && #[trigger] p(j);
        lemma_first_index_some(len, p, j);
    } else {
        lemma_first_index_is(len, p, i);
    }
}

pub proof fn lemma_first_index_none(len: int, p: spec_fn(int) -> bool)
    requires
        forall|j: int| 0 <= j < len ==> !#[trigger] p(j),
    ensures
        first_index(len, p) is None,
{
}

pub open spec fn opt_index(r: Option<usize>) -> Option<int> {
    match r {
        Some(i) => Some(i as int),
        None => None,
    }
}

pub open spec fn opt_view(r: Option<String>) -> Option<Seq<char>> {
    match r {
        Some(s) => Some(s@),
        None => None,
    }
}

/// Index of the first instance named exactly `name`.
pub open spec fn first_droplet_named(l: Seq<Droplet>, name: Seq<char>) -> Option<int> {
    first_index(l.len() as int, |i: int| l[i].name@ == name)
}

/// Index of the first snapshot named exactly `name`.
pub open spec fn first_snapshot_named(l: Seq<Snapshot>, name: Seq<char>) -> Option<int> {
    first_index(l.len() as int, |i: int| l[i].name@ == name)
}

/// An interface that makes an instance reachable: of type `public` and with
/// an address filled in.
pub open spec fn is_public_interface(n: DropletNetworkV4) -> bool {
    n.kind@ == "public"@ && n.ip_address@.len() > 0
}

/// Index of the first usable public interface.
pub open spec fn first_public(v4: Seq<DropletNetworkV4>) -> Option<int> {
    first_index(v4.len() as int, |i: int| is_public_interface(v4[i]))
}

/// The address of the instance's first usable public interface.
pub open spec fn public_ip_of(d: Droplet) -> Option<Seq<char>> {
    match d.networks {
        Some(net) => match first_public(net.v4@) {
            Some(i) => Some(net.v4@[i].ip_address@),
            None => None,
        },
        None => None,
    }
}

/// Finds the first instance named exactly `name`.
pub fn find_droplet(list: &Vec<Droplet>, name: &String) -> (r: Option<usize>)
    ensures
        opt_index(r) == first_droplet_named(list@, name@),
{
    let ghost p = |i: int| list@[i].name@ == name@;
    let mut i: usize = 0;
    while i < list.len()
        invariant
            i <= list@.len(),
            p == (|i: int| list@[i].name@ == name@),
            forall|j: int| 0 <= j < i ==> !#[trigger] p(j),
        decreases list@.len() - i,
    {
        if list[i].name == *name {
            proof {
                lemma_first_index_is(list@.len() as int, p, i as int);
            }
            return Some(i);
        }
        i = i + 1;
    }
    proof {
        lemma_first_index_none(list@.len() as int, p);
    }
    None
}

/// Finds the first snapshot named exactly `name`.
pub fn find_snapshot(list: &Vec<Snapshot>, name: &String) -> (r: Option<usize>)
    ensures
        opt_index(r) == first_snapshot_named(list@, name@),
{
    let ghost p = |i: int| list@[i].name@ == name@;
    let mut i: usize = 0;
    while i < list.len()
        invariant
            i <= list@.len(),
            p == (|i: int| list@[i].name@ == name@),
            forall|j: int| 0 <= j < i ==> !#[trigger] p(j),
        decreases list@.len() - i,
    {
        if list[i].name == *name {
            proof {
                lemma_first_index_is(list@.len() as int, p, i as int);
            }
            return Some(i);
        }
        i = i + 1;
    }
    proof {
        lemma_first_index_none(list@.len() as int, p);
    }
    None
}

/// The address by which the instance can be reached, once the provider has
/// assigned one.
pub fn public_ip(d: &Droplet) -> (r: Option<String>)
    ensures
        opt_view(r) == public_ip_of(*d),
{
    match &d.networks {
        None => None,
        Some(net) => {
            let public = String::from_str("public");
            let ghost v4 = net.v4@;
            let ghost p = |i: int| is_public_interface(v4[i]);
            let mut i: usize = 0;
            while i < net.v4.len()
                invariant
                    i <= net.v4@.len(),
                    public@ == "public"@,
                    v4 == net.v4@,
                    d.networks == Some(*net),
                    p == (|i: int| is_public_interface(v4[i])),
                    forall|j: int| 0 <= j < i ==> !#[trigger] p(j),
                decreases net.v4@.len() - i,
            {
                let n = &net.v4[i];
                if n.kind == public && !n.ip_address.as_str().is_empty() {
                    proof {
                        lemma_first_index_is(net.v4@.len() as int, p, i as int);
                        assert(first_public(v4) == Some(i as int));
                    }
                    return Some(n.ip_address.clone());
                }
                i = i + 1;
            }
            proof {
                lemma_first_index_none(net.v4@.len() as int, p);
            }
            None
        },
    }
}

} // verus!
