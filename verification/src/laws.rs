//! The library's cross-cutting laws, each proved from the contracts the
//! modules state.

use vstd::prelude::*;
use crate::json::JsonV;
use crate::types::{NcElementId, NcMethodStatus};
use crate::object::obj_set_status;
use crate::block::{
    NcBlock, NcMember, block_wf, member_wf, member_oid, find_in_block, find_in_members, tree_get,
    tree_set_status, tree_updated, members_updated, member_local_set_status,
    member_local_updated, member_prop_json, block_prop_json, PropRead, own_descs, all_descs,
    descs_below,
};
use crate::class_manager::{
    class_known, own_prop_ids_of, all_prop_ids_of, lemma_known_class_ids_distinct,
};
use crate::registry::{
    object_prop_ids, object_all_prop_ids, block_prop_ids, block_all_prop_ids, manager_prop_ids,
    manager_all_prop_ids, device_manager_prop_ids, device_manager_all_prop_ids,
    class_manager_prop_ids, class_manager_all_prop_ids,
};

verus! {

broadcast use vstd::std_specs::vec::group_vec_axioms, vstd::seq::group_seq_axioms;

// ---------------------------------------------------------------------------
// Flattened class descriptors
// ---------------------------------------------------------------------------

pub open spec fn ids_distinct(s: Seq<NcElementId>) -> bool {
    forall|i: int, j: int| 0 <= i < j < s.len() ==> s[i] != s[j]
}

/// The property id list of a flattened class descriptor is the disjoint
/// union of the class's own property ids and all its ancestors' own ids:
/// the flattened list concatenates the own list with the parent's flattened
/// list, and its ids are pairwise distinct.
#[verifier::rlimit(100)]
pub proof fn lemma_flattened_property_ids(cid: Seq<u32>)
    requires
        class_known(cid),
    ensures
        all_prop_ids_of(cid).take(own_prop_ids_of(cid).len() as int) == own_prop_ids_of(cid),
        ids_distinct(all_prop_ids_of(cid)),
{
    lemma_known_class_ids_distinct();
    if cid == seq![1u32] {
        assert(object_all_prop_ids() =~= object_prop_ids());
        assert(all_prop_ids_of(cid).take(own_prop_ids_of(cid).len() as int) =~= own_prop_ids_of(
            cid,
        ));
    } else if cid == seq![1u32, 1u32] {
        assert(block_all_prop_ids() =~= block_prop_ids() + object_prop_ids());
        assert(all_prop_ids_of(cid).take(own_prop_ids_of(cid).len() as int) =~= own_prop_ids_of(
            cid,
        ));
    } else if cid == seq![1u32, 3u32] {
        assert(manager_all_prop_ids() =~= manager_prop_ids() + object_prop_ids());
        assert(all_prop_ids_of(cid).take(own_prop_ids_of(cid).len() as int) =~= own_prop_ids_of(
            cid,
        ));
    } else if cid == seq![1u32, 3u32, 1u32] {
        assert(device_manager_all_prop_ids() =~= device_manager_prop_ids() + manager_prop_ids()
            + object_prop_ids());
        assert(all_prop_ids_of(cid).take(own_prop_ids_of(cid).len() as int) =~= own_prop_ids_of(
            cid,
        ));
    } else {
        assert(class_manager_all_prop_ids() =~= class_manager_prop_ids() + manager_prop_ids()
            + object_prop_ids());
        assert(all_prop_ids_of(cid).take(own_prop_ids_of(cid).len() as int) =~= own_prop_ids_of(
            cid,
        ));
    }
}

// ---------------------------------------------------------------------------
// Write then read
// ---------------------------------------------------------------------------

/// A node's oid survives a write it handled.
proof fn lemma_local_updated_oid(m: NcMember, n: NcMember, id: NcElementId, v: JsonV)
    requires
        member_local_updated(m, n, id, v),
    ensures
        member_oid(n) == member_oid(m),
{
}

/// Reading back the property a node just wrote returns the written value.
proof fn lemma_local_set_then_get(m: NcMember, n: NcMember, id: NcElementId, v: JsonV)
    requires
        member_local_set_status(m, id, v) == NcMethodStatus::Okay,
        member_local_updated(m, n, id, v),
    ensures
        member_prop_json(n, id) == Some(v),
{
    match (m, n) {
        (NcMember::Object(o), NcMember::Object(no)) => {
            assert(id.is(1, 6));
        },
        (NcMember::Worker(w), NcMember::Worker(nw)) => {
            if id.is(2, 1) {
            } else {
                assert(id.is(1, 6));
            }
        },
        (NcMember::Device(d), NcMember::Device(nd)) => {
            if id.level == 3 {
                assert(id.index == 5 || id.index == 6 || id.index == 7);
            } else {
                assert(id.is(1, 6));
            }
        },
        (NcMember::Class(c), NcMember::Class(nc)) => {
            assert(id.is(1, 6));
        },
        (NcMember::Block(b), NcMember::Block(nb)) => {
            assert(id.level != 2);
            assert(id.is(1, 6));
        },
        _ => {
            assert(false);
        },
    }
}

/// Lifts write-then-read through the member list: the updated tree still
/// finds the written node, and reading it returns the written value.
proof fn lemma_members_set_then_get(
    os: Seq<NcMember>,
    ns: Seq<NcMember>,
    oid: u64,
    id: NcElementId,
    v: JsonV,
)
    requires
        members_updated(os, ns, oid, id, v),
        find_in_members(os, oid) is Some,
        member_local_set_status(find_in_members(os, oid)->Some_0, id, v) == NcMethodStatus::Okay,
    ensures
        find_in_members(ns, oid) matches Some(m2) && member_prop_json(m2, id) == Some(v),
    decreases os,
{
    if member_oid(os[0]) == oid {
        lemma_local_updated_oid(os[0], ns[0], id, v);
        assert(find_in_members(os, oid) == Some(os[0]));
        assert(find_in_members(ns, oid) == Some(ns[0]));
        lemma_local_set_then_get(os[0], ns[0], id, v);
    } else if (os[0] matches NcMember::Block(b) && find_in_block(b, oid) is Some) {
        match (os[0], ns[0]) {
            (NcMember::Block(b), NcMember::Block(nb)) => {
                assert(find_in_members(os, oid) == find_in_block(b, oid));
                lemma_members_set_then_get(b.members@, nb.members@, oid, id, v);
                assert(member_oid(ns[0]) == member_oid(os[0]));
                assert(find_in_block(nb, oid) == find_in_members(nb.members@, oid));
                assert(find_in_members(ns, oid) == find_in_block(nb, oid));
            },
            _ => {
                assert(false);
            },
        }
    } else {
        assert(ns[0] == os[0]);
        match os[0] {
            NcMember::Block(b) => {
                assert(find_in_block(b, oid) is None);
            },
            _ => {},
        }
        assert(find_in_members(os, oid) == find_in_members(os.drop_first(), oid));
        lemma_members_set_then_get(os.drop_first(), ns.drop_first(), oid, id, v);
        assert(find_in_members(ns, oid) == find_in_members(ns.drop_first(), oid));
    }
}

/// After any successful property write, a read of the same `(oid, id)` on
/// the written tree returns exactly the value just written.
pub proof fn lemma_set_then_get(o: NcBlock, n: NcBlock, oid: u64, id: NcElementId, v: JsonV)
    requires
        tree_set_status(o, oid, id, v) == NcMethodStatus::Okay,
        tree_updated(o, n, oid, id, v),
    ensures
        tree_get(n, oid, id) == PropRead::Value(v),
{
    if oid == o.base.oid {
        assert(id.level != 2);
        assert(obj_set_status(id, v) == NcMethodStatus::Okay);
        assert(id.is(1, 6));
        assert(n.base.oid == oid);
        assert(block_prop_json(n, id) == Some(v));
    } else {
        let m = find_in_block(o, oid)->Some_0;
        lemma_members_set_then_get(o.members@, n.members@, oid, id, v);
        assert(n.base.oid == o.base.oid);
        assert(find_in_block(n, oid) == find_in_members(n.members@, oid));
    }
}

// ---------------------------------------------------------------------------
// Recursive member listings
// ---------------------------------------------------------------------------

/// The non-recursive member listing is a contiguous prefix of the recursive
/// one: the recursive listing is the block's own descriptors followed by
/// the nested blocks' listings.
pub proof fn lemma_recursive_listing_prefix(b: NcBlock)
    ensures
        all_descs(b).take(own_descs(b).len() as int) == own_descs(b),
        all_descs(b) == own_descs(b) + descs_below(b.members@),
{
    assert(all_descs(b).take(own_descs(b).len() as int) =~= own_descs(b));
}


// ---------------------------------------------------------------------------
// Tree invariants
// ---------------------------------------------------------------------------

/// Ownership in a well-formed model: the root is owned by nobody, and every
/// member of a well-formed block names that block as its owner.
pub proof fn lemma_tree_ownership(b: NcBlock)
    requires
        crate::block::root_wf(b),
    ensures
        b.base.owner is None,
        forall|i: int|
            0 <= i < b.members@.len() ==> crate::block::member_owner(#[trigger] b.members@[i])
                == Some(b.base.oid),
{
}

/// Sibling roles within any well-formed block are pairwise distinct.
pub proof fn lemma_sibling_roles_distinct(b: NcBlock)
    requires
        block_wf(b),
    ensures
        forall|i: int, j: int|
            0 <= i < j < b.members@.len() ==> crate::block::member_role(b.members@[i])
                != crate::block::member_role(b.members@[j]),
{
}

/// The root control class prefixes every well-formed node's class id.
pub proof fn lemma_class_id_rooted(m: NcMember)
    requires
        member_wf(m),
    ensures
        crate::block::member_class_id(m).len() >= 1,
        crate::block::member_class_id(m)[0] == 1,
{
    match m {
        NcMember::Block(b) => {
            assert(crate::block::block_wf(b));
        },
        _ => {},
    }
}

} // verus!
