//! Block: the composite node of the device model. A block owns an ordered
//! list of child members, looks members up by oid, role path, role text or
//! class id, and routes property and method access to the addressed node.

use vstd::prelude::*;
use crate::json::{Json, JsonV, json_view_seq, jget_spec, json_as_u64, json_as_bool, str_eq};
use crate::types::{
    NcElementId, NcMethodStatus, NcTouchpoint, NcPropertyConstraints, PropertyChangedEvent,
    PropertyChangedEventData, NcPropertyChangeType, IdArgs, IdArgsValue, NcBlockMemberDescriptor,
    MemberDescV, member_desc_json, member_descs_json, member_descs_to_json, descs_view,
    view_opt_str, value_changed_event, EventV,
};
use crate::object::{NcObject, obj_prop_json, obj_set_status, obj_label_after, emitted};
use crate::worker::{NcWorker, worker_prop_json, worker_set_status};
use crate::device_manager::{NcDeviceManager, dm_prop_json, dm_set_status};
use crate::class_manager::{
    NcClassManager, cm_prop_json, cm_set_status, cm_invoke, ValueSpec, invoke_value_ok,
};

verus! {

broadcast use vstd::std_specs::vec::group_vec_axioms, vstd::seq::group_seq_axioms;

/// A node of the device model.
pub enum NcMember {
    Object(NcObject),
    Block(NcBlock),
    Worker(NcWorker),
    Device(NcDeviceManager),
    Class(NcClassManager),
}

/// The composite node: owns its children in insertion order.
pub struct NcBlock {
    pub base: NcObject,
    pub is_root: bool,
    pub enabled: bool,
    pub members: Vec<NcMember>,
}

// ---------------------------------------------------------------------------
// Member field access
// ---------------------------------------------------------------------------

pub open spec fn member_base(m: NcMember) -> NcObject {
    match m {
        NcMember::Object(o) => o,
        NcMember::Block(b) => b.base,
        NcMember::Worker(w) => w.base,
        NcMember::Device(d) => d.base.base,
        NcMember::Class(c) => c.base.base,
    }
}

pub open spec fn member_oid(m: NcMember) -> u64 {
    member_base(m).oid
}

pub open spec fn member_role(m: NcMember) -> Seq<char> {
    member_base(m).role@
}

pub open spec fn member_owner(m: NcMember) -> Option<u64> {
    member_base(m).owner
}

pub open spec fn member_class_id(m: NcMember) -> Seq<u32> {
    member_base(m).class_id@
}

/// The label a member descriptor reports: the user label, or empty when
/// none is set.
pub open spec fn member_label(m: NcMember) -> Seq<char> {
    match member_base(m).user_label {
        Some(s) => s@,
        None => Seq::empty(),
    }
}

/// What a block reports about member `m` under owner `owner`.
pub open spec fn member_desc_of(m: NcMember, owner: u64) -> MemberDescV {
    MemberDescV {
        description: None,
        role: member_role(m),
        oid: member_oid(m),
        constant_oid: member_base(m).constant_oid,
        class_id: member_class_id(m),
        user_label: member_label(m),
        owner,
    }
}

impl NcMember {
    pub fn get_oid(&self) -> (r: u64)
        ensures
            r == member_oid(*self),
    {
        match self {
            NcMember::Object(o) => o.oid,
            NcMember::Block(b) => b.base.oid,
            NcMember::Worker(w) => w.base.oid,
            NcMember::Device(d) => d.base.base.oid,
            NcMember::Class(c) => c.base.base.oid,
        }
    }

    pub fn get_role<'a>(&'a self) -> (r: &'a String)
        ensures
            r@ == member_role(*self),
    {
        match self {
            NcMember::Object(o) => &o.role,
            NcMember::Block(b) => &b.base.role,
            NcMember::Worker(w) => &w.base.role,
            NcMember::Device(d) => &d.base.base.role,
            NcMember::Class(c) => &c.base.base.role,
        }
    }

    pub fn get_class_id<'a>(&'a self) -> (r: &'a Vec<u32>)
        ensures
            r@ == member_class_id(*self),
    {
        match self {
            NcMember::Object(o) => &o.class_id,
            NcMember::Block(b) => &b.base.class_id,
            NcMember::Worker(w) => &w.base.class_id,
            NcMember::Device(d) => &d.base.base.class_id,
            NcMember::Class(c) => &c.base.base.class_id,
        }
    }

    /// The descriptor a block reports for this member.
    pub fn make_member_descriptor(&self, owner: u64) -> (r: NcBlockMemberDescriptor)
        ensures
            r@ == member_desc_of(*self, owner),
    {
        let base: &NcObject = match self {
            NcMember::Object(o) => o,
            NcMember::Block(b) => &b.base,
            NcMember::Worker(w) => &w.base,
            NcMember::Device(d) => &d.base.base,
            NcMember::Class(c) => &c.base.base,
        };
        NcBlockMemberDescriptor {
            description: None,
            role: base.role.clone(),
            oid: base.oid,
            constant_oid: base.constant_oid,
            class_id: base.class_id.clone(),
            user_label: match &base.user_label {
                Some(s) => s.clone(),
                None => String::new(),
            },
            owner,
        }
    }
}

// ---------------------------------------------------------------------------
// Well-formedness of the tree
// ---------------------------------------------------------------------------

/// The oids of the whole subtree rooted in `m`, the node first.
pub open spec fn subtree_oids(m: NcMember) -> Seq<u64>
    decreases m, 0int,
{
    match m {
        NcMember::Block(b) => seq![b.base.oid] + members_oids(b.members@),
        _ => seq![member_oid(m)],
    }
}

pub open spec fn members_oids(ms: Seq<NcMember>) -> Seq<u64>
    decreases ms, 1int,
{
    if ms.len() == 0 {
        Seq::empty()
    } else {
        subtree_oids(ms[0]) + members_oids(ms.drop_first())
    }
}

pub open spec fn tree_oids(b: NcBlock) -> Seq<u64> {
    seq![b.base.oid] + members_oids(b.members@)
}

pub open spec fn no_dup(s: Seq<u64>) -> bool {
    forall|i: int, j: int| 0 <= i < j < s.len() ==> s[i] != s[j]
}

/// Every node's class id begins with the root class.
pub open spec fn class_id_rooted(o: NcObject) -> bool {
    o.class_id@.len() >= 1 && o.class_id@[0] == 1
}

/// A member is well-formed: its class id descends from the root class, and
/// a member block satisfies the block invariant.
pub open spec fn member_wf(m: NcMember) -> bool
    decreases m, 0int,
{
    match m {
        NcMember::Block(b) => block_wf(b),
        _ => class_id_rooted(member_base(m)),
    }
}

/// The block invariant: each child's owner is this block, sibling roles are
/// pairwise distinct, nested blocks are not marked root, every child is
/// well-formed, and the subtree's oids are pairwise distinct.
pub open spec fn block_wf(b: NcBlock) -> bool
    decreases b, 1int,
{
    &&& class_id_rooted(b.base)
    &&& forall|i: int|
        0 <= i < b.members@.len() ==> member_owner(#[trigger] b.members@[i]) == Some(b.base.oid)
    &&& forall|i: int, j: int|
        0 <= i < j < b.members@.len() ==> member_role(b.members@[i]) != member_role(
            b.members@[j],
        )
    &&& forall|i: int|
        0 <= i < b.members@.len() ==> (#[trigger] b.members@[i] matches NcMember::Block(c)
            ==> !c.is_root)
    &&& forall|i: int| 0 <= i < b.members@.len() ==> member_wf(#[trigger] b.members@[i])
    &&& no_dup(tree_oids(b))
}

/// The invariant of the whole model: a well-formed root block, marked as
/// the root and owned by nobody.
pub open spec fn root_wf(b: NcBlock) -> bool {
    &&& block_wf(b)
    &&& b.is_root
    &&& b.base.owner is None
}

// ---------------------------------------------------------------------------
// Member lookup by oid
// ---------------------------------------------------------------------------

/// Depth-first search for the member with the given oid: each child first,
/// then its subtree, then the next child.
pub open spec fn find_in_members(ms: Seq<NcMember>, oid: u64) -> Option<NcMember>
    decreases ms, 1int,
{
    if ms.len() == 0 {
        None
    } else if member_oid(ms[0]) == oid {
        Some(ms[0])
    } else {
        let sub = match ms[0] {
            NcMember::Block(b) => find_in_block(b, oid),
            _ => None,
        };
        match sub {
            Some(m) => Some(m),
            None => find_in_members(ms.drop_first(), oid),
        }
    }
}

pub open spec fn find_in_block(b: NcBlock, oid: u64) -> Option<NcMember>
    decreases b, 0int,
{
    find_in_members(b.members@, oid)
}

/// A found member carries the oid it was looked up by.
pub proof fn lemma_find_oid(ms: Seq<NcMember>, oid: u64)
    ensures
        find_in_members(ms, oid) matches Some(m) ==> member_oid(m) == oid,
    decreases ms, 1int,
{
    if ms.len() > 0 {
        if member_oid(ms[0]) != oid {
            match ms[0] {
                NcMember::Block(b) => {
                    lemma_find_oid(b.members@, oid);
                    assert(find_in_block(b, oid) == find_in_members(b.members@, oid));
                },
                _ => {},
            }
            lemma_find_oid(ms.drop_first(), oid);
        }
    }
}

fn find_in_members_exec<'a>(ms: &'a Vec<NcMember>, i: usize, oid: u64) -> (r: Option<
    &'a NcMember,
>)
    requires
        i <= ms@.len(),
    ensures
        match r {
            Some(m) => find_in_members(ms@.skip(i as int), oid) == Some(*m),
            None => find_in_members(ms@.skip(i as int), oid) is None,
        },
    decreases ms, ms@.len() - i, 1int,
{
    if i == ms.len() {
        proof {
            assert(ms@.skip(i as int) =~= Seq::<NcMember>::empty());
        }
        return None;
    }
    proof {
        assert(ms@.skip(i as int)[0] == ms@[i as int]);
        assert(ms@.skip(i as int).drop_first() =~= ms@.skip(i as int + 1));
    }
    let m = &ms[i];
    if m.get_oid() == oid {
        return Some(m);
    }
    let sub: Option<&NcMember> = match m {
        NcMember::Block(b) => b.find_member(oid),
        _ => None,
    };
    match sub {
        Some(found) => Some(found),
        None => find_in_members_exec(ms, i + 1, oid),
    }
}

impl NcBlock {
    /// The member with the given oid, anywhere in this block's subtree.
    pub fn find_member<'a>(&'a self, oid: u64) -> (r: Option<&'a NcMember>)
        ensures
            match r {
                Some(m) => find_in_block(*self, oid) == Some(*m),
                None => find_in_block(*self, oid) is None,
            },
        decreases self, 0int, 0int,
    {
        proof {
            assert(self.members@.skip(0) =~= self.members@);
        }
        find_in_members_exec(&self.members, 0, oid)
    }
}

// ---------------------------------------------------------------------------
// Member descriptors
// ---------------------------------------------------------------------------

/// The descriptors of a block's immediate members, in insertion order.
pub open spec fn own_descs(b: NcBlock) -> Seq<MemberDescV> {
    b.members@.map_values(|m: NcMember| member_desc_of(m, b.base.oid))
}

/// The flattened descriptors of a whole subtree: the block's own members
/// first, then each member block's subtree, in order.
pub open spec fn all_descs(b: NcBlock) -> Seq<MemberDescV>
    decreases b, 0int,
{
    own_descs(b) + descs_below(b.members@)
}

pub open spec fn descs_below(ms: Seq<NcMember>) -> Seq<MemberDescV>
    decreases ms, 1int,
{
    if ms.len() == 0 {
        Seq::empty()
    } else {
        (match ms[0] {
            NcMember::Block(c) => all_descs(c),
            _ => Seq::empty(),
        }) + descs_below(ms.drop_first())
    }
}

impl NcBlock {
    /// The descriptors of the immediate members.
    pub fn generate_members_descriptors(&self) -> (r: Vec<NcBlockMemberDescriptor>)
        ensures
            descs_view(r@) == own_descs(*self),
    {
        let mut out: Vec<NcBlockMemberDescriptor> = Vec::new();
        let mut i: usize = 0;
        while i < self.members.len()
            invariant
                i <= self.members@.len(),
                descs_view(out@) == self.members@.take(i as int).map_values(
                    |m: NcMember| member_desc_of(m, self.base.oid),
                ),
            decreases self.members@.len() - i,
        {
            let d = self.members[i].make_member_descriptor(self.base.oid);
            let ghost prev = out@;
            out.push(d);
            proof {
                let f = |m: NcMember| member_desc_of(m, self.base.oid);
                assert(descs_view(prev).len() == prev.len());
                assert forall|j: int| 0 <= j < out@.len() implies descs_view(out@)[j]
                    == self.members@.take(i as int + 1).map_values(f)[j] by {
                    if j < i {
                        assert(descs_view(prev)[j] == self.members@.take(i as int).map_values(
                            f,
                        )[j]);
                    }
                }
                assert(descs_view(out@) =~= self.members@.take(i as int + 1).map_values(f));
            }
            i = i + 1;
        }
        proof {
            assert(self.members@.take(self.members@.len() as int) =~= self.members@);
            assert(descs_view(out@) =~= own_descs(*self));
        }
        out
    }

    /// The member descriptors of this block, and of every nested block when
    /// `recurse` is set; a block's own members always precede the nested
    /// ones.
    pub fn get_member_descriptors(&self, recurse: bool) -> (r: Vec<NcBlockMemberDescriptor>)
        ensures
            descs_view(r@) == (if recurse {
                all_descs(*self)
            } else {
                own_descs(*self)
            }),
        decreases self, 2int, 0int,
    {
        let mut out = self.generate_members_descriptors();
        if recurse {
            let ghost own = descs_view(out@);
            descs_below_exec(&self.members, 0, &mut out);
            proof {
                assert(self.members@.skip(0) =~= self.members@);
            }
        }
        out
    }
}

fn descs_below_exec(ms: &Vec<NcMember>, i: usize, out: &mut Vec<NcBlockMemberDescriptor>)
    requires
        i <= ms@.len(),
    ensures
        descs_view(final(out)@) == descs_view(old(out)@) + descs_below(ms@.skip(i as int)),
    decreases ms, ms@.len() - i, 1int,
{
    if i == ms.len() {
        proof {
            assert(ms@.skip(i as int) =~= Seq::<NcMember>::empty());
            assert(descs_view(final(out)@) =~= descs_view(old(out)@) + descs_below(
                ms@.skip(i as int),
            ));
        }
        return ;
    }
    proof {
        assert(ms@.skip(i as int)[0] == ms@[i as int]);
        assert(ms@.skip(i as int).drop_first() =~= ms@.skip(i as int + 1));
    }
    match &ms[i] {
        NcMember::Block(c) => {
            let sub = c.get_member_descriptors(true);
            let ghost before = descs_view(out@);
            let ghost subv = descs_view(sub@);
            append_descs(out, sub);
        },
        _ => {
        },
    }
    descs_below_exec(ms, i + 1, out);
    proof {
        assert(descs_view(final(out)@) =~= descs_view(old(out)@) + descs_below(
            ms@.skip(i as int),
        ));
    }
}

/// Appends descriptor lists, preserving the combined view.
fn append_descs(out: &mut Vec<NcBlockMemberDescriptor>, mut src: Vec<NcBlockMemberDescriptor>)
    ensures
        descs_view(final(out)@) == descs_view(old(out)@) + descs_view(src@),
{
    let ghost s0 = src@;
    out.append(&mut src);
    proof {
        assert(descs_view(final(out)@) =~= descs_view(old(out)@) + descs_view(s0));
    }
}


// ---------------------------------------------------------------------------
// Property reads across the tree
// ---------------------------------------------------------------------------

/// The JSON value of a block property: `enabled` (2,1), the member list
/// (2,2), the base class otherwise.
pub open spec fn block_prop_json(b: NcBlock, id: NcElementId) -> Option<JsonV> {
    if id.is(2, 1) {
        Some(JsonV::Bool(b.enabled))
    } else if id.is(2, 2) {
        Some(member_descs_json(own_descs(b)))
    } else {
        obj_prop_json(b.base, id)
    }
}

/// The JSON value of a property handled by the node itself.
pub open spec fn member_prop_json(m: NcMember, id: NcElementId) -> Option<JsonV> {
    match m {
        NcMember::Object(o) => obj_prop_json(o, id),
        NcMember::Block(b) => block_prop_json(b, id),
        NcMember::Worker(w) => worker_prop_json(w, id),
        NcMember::Device(d) => dm_prop_json(d, id),
        NcMember::Class(c) => cm_prop_json(c, id),
    }
}

/// Outcome of a property read on the tree.
pub enum PropRead {
    Value(JsonV),
    Unknown,
    NoObject,
}

/// What reading property `id` of object `oid` through block `b` returns.
pub open spec fn tree_get(b: NcBlock, oid: u64, id: NcElementId) -> PropRead {
    if oid == b.base.oid {
        match block_prop_json(b, id) {
            Some(v) => PropRead::Value(v),
            None => PropRead::Unknown,
        }
    } else {
        match find_in_block(b, oid) {
            Some(m) => match member_prop_json(m, id) {
                Some(v) => PropRead::Value(v),
                None => PropRead::Unknown,
            },
            None => PropRead::NoObject,
        }
    }
}

impl NcMember {
    /// Reads a property handled by this node itself.
    pub fn get_property_here(&self, oid: u64, id_args: &IdArgs) -> (r: (
        Option<String>,
        Json,
        NcMethodStatus,
    ))
        ensures
            match member_prop_json(*self, id_args.id) {
                Some(v) => r.0 is None && r.1@ == v && r.2 == NcMethodStatus::Okay,
                None => r.0 is Some && r.1@ == JsonV::Null && r.2
                    == NcMethodStatus::PropertyNotImplemented,
            },
    {
        match self {
            NcMember::Object(o) => o.get_property(oid, id_args),
            NcMember::Worker(w) => w.get_property(oid, id_args),
            NcMember::Device(d) => d.get_property(oid, id_args),
            NcMember::Class(c) => c.get_property(oid, id_args),
            NcMember::Block(b) => b.get_property_local(oid, id_args),
        }
    }
}

impl NcBlock {
    /// Reads a property of the block itself.
    fn get_property_local(&self, oid: u64, id_args: &IdArgs) -> (r: (
        Option<String>,
        Json,
        NcMethodStatus,
    ))
        ensures
            match block_prop_json(*self, id_args.id) {
                Some(v) => r.0 is None && r.1@ == v && r.2 == NcMethodStatus::Okay,
                None => r.0 is Some && r.1@ == JsonV::Null && r.2
                    == NcMethodStatus::PropertyNotImplemented,
            },
    {
        let id = id_args.id;
        if id.level == 2 && id.index == 1 {
            (None, Json::Bool(self.enabled), NcMethodStatus::Okay)
        } else if id.level == 2 && id.index == 2 {
            let ds = self.generate_members_descriptors();
            (None, member_descs_to_json(&ds), NcMethodStatus::Okay)
        } else {
            self.base.get_property(oid, id_args)
        }
    }

    /// Reads a property of the addressed object: this block when the oid is
    /// its own, a descendant found by oid otherwise. An unknown oid reports
    /// BadOid, an unknown property id PropertyNotImplemented.
    pub fn get_property(&self, oid: u64, id_args: &IdArgs) -> (r: (
        Option<String>,
        Json,
        NcMethodStatus,
    ))
        ensures
            match tree_get(*self, oid, id_args.id) {
                PropRead::Value(v) => r.0 is None && r.1@ == v && r.2 == NcMethodStatus::Okay,
                PropRead::Unknown => r.0 is Some && r.1@ == JsonV::Null && r.2
                    == NcMethodStatus::PropertyNotImplemented,
                PropRead::NoObject => (r.0 matches Some(m) && m@ == "Member not found"@) && r.1@
                    == JsonV::Null && r.2 == NcMethodStatus::BadOid,
            },
    {
        if oid == self.base.oid {
            self.get_property_local(oid, id_args)
        } else {
            match self.find_member(oid) {
                Some(m) => m.get_property_here(oid, id_args),
                None => (
                    Some("Member not found".to_owned()),
                    Json::Null,
                    NcMethodStatus::BadOid,
                ),
            }
        }
    }
}

// ---------------------------------------------------------------------------
// Property writes across the tree
// ---------------------------------------------------------------------------

/// Status of a write handled by the node itself.
/// Status of a write addressed to a block's own level: `enabled` (2,1) and
/// `members` (2,2) are read-only, other level-2 ids are unknown.
pub open spec fn block_set_status(id: NcElementId, v: JsonV) -> NcMethodStatus {
    if id.level == 2 {
        if id.index == 1 || id.index == 2 {
            NcMethodStatus::Readonly
        } else {
            NcMethodStatus::PropertyNotImplemented
        }
    } else {
        obj_set_status(id, v)
    }
}

pub open spec fn member_local_set_status(m: NcMember, id: NcElementId, v: JsonV) -> NcMethodStatus {
    match m {
        NcMember::Object(_) => obj_set_status(id, v),
        NcMember::Worker(_) => worker_set_status(id, v),
        NcMember::Device(_) => dm_set_status(id, v),
        NcMember::Class(_) => cm_set_status(id, v),
        NcMember::Block(_) => block_set_status(id, v),
    }
}

/// What writing property `id` of object `oid` through block `b` reports.
pub open spec fn tree_set_status(b: NcBlock, oid: u64, id: NcElementId, v: JsonV) -> NcMethodStatus {
    if oid == b.base.oid {
        block_set_status(id, v)
    } else {
        match find_in_block(b, oid) {
            Some(m) => member_local_set_status(m, id, v),
            None => NcMethodStatus::BadOid,
        }
    }
}

/// The object after a successful base-class write: only the user label may
/// differ, and it holds the written value.
pub open spec fn obj_updated(o: NcObject, n: NcObject, v: JsonV) -> bool {
    &&& view_opt_str(n.user_label) == obj_label_after(v)
    &&& n == (NcObject { user_label: n.user_label, ..o })
}

pub open spec fn worker_updated(w: NcWorker, n: NcWorker, id: NcElementId, v: JsonV) -> bool {
    if id.is(2, 1) {
        n.base == w.base && n.enabled == (v matches JsonV::Bool(x) && x)
    } else {
        n.enabled == w.enabled && obj_updated(w.base, n.base, v)
    }
}

pub open spec fn dm_updated(d: NcDeviceManager, n: NcDeviceManager, id: NcElementId, v: JsonV) -> bool {
    if id.level == 3 {
        &&& n == (NcDeviceManager {
            user_inventory_code: n.user_inventory_code,
            device_name: n.device_name,
            device_role: n.device_role,
            ..d
        })
        &&& (id.index == 5 ==> view_opt_str(n.user_inventory_code) == obj_label_after(v) && n.device_name == d.device_name && n.device_role == d.device_role)
        &&& (id.index == 6 ==> view_opt_str(n.device_name) == obj_label_after(v)
            && n.user_inventory_code == d.user_inventory_code && n.device_role == d.device_role)
        &&& (id.index == 7 ==> view_opt_str(n.device_role) == obj_label_after(v)
            && n.user_inventory_code == d.user_inventory_code && n.device_name == d.device_name)
    } else {
        &&& n == (NcDeviceManager { base: n.base, ..d })
        &&& obj_updated(d.base.base, n.base.base, v)
    }
}

pub open spec fn cm_updated(c: NcClassManager, n: NcClassManager, v: JsonV) -> bool {
    &&& n == (NcClassManager { base: n.base, ..c })
    &&& obj_updated(c.base.base, n.base.base, v)
}

/// The node after a successful write it handled itself.
pub open spec fn member_local_updated(m: NcMember, n: NcMember, id: NcElementId, v: JsonV) -> bool {
    match m {
        NcMember::Object(o) => n matches NcMember::Object(no) && obj_updated(o, no, v),
        NcMember::Worker(w) => n matches NcMember::Worker(nw) && worker_updated(w, nw, id, v),
        NcMember::Device(d) => n matches NcMember::Device(nd) && dm_updated(d, nd, id, v),
        NcMember::Class(c) => n matches NcMember::Class(nc) && cm_updated(c, nc, v),
        NcMember::Block(b) => n matches NcMember::Block(nb) && nb.is_root == b.is_root
            && nb.enabled == b.enabled && nb.members == b.members && obj_updated(
            b.base,
            nb.base,
            v,
        ),
    }
}

/// The member list after a write that landed somewhere below: exactly the
/// subtree holding the target changed, and in it exactly the target node.
pub open spec fn members_updated(
    os: Seq<NcMember>,
    ns: Seq<NcMember>,
    oid: u64,
    id: NcElementId,
    v: JsonV,
) -> bool
    decreases os,
{
    &&& ns.len() == os.len()
    &&& os.len() > 0
    &&& (if member_oid(os[0]) == oid {
        member_local_updated(os[0], ns[0], id, v) && ns.drop_first() == os.drop_first()
    } else if (os[0] matches NcMember::Block(b) && find_in_block(b, oid) is Some) {
        (match (os[0], ns[0]) {
            (NcMember::Block(b), NcMember::Block(nb)) => nb.base == b.base && nb.is_root
                == b.is_root && nb.enabled == b.enabled && members_updated(
                b.members@,
                nb.members@,
                oid,
                id,
                v,
            ),
            _ => false,
        }) && ns.drop_first() == os.drop_first()
    } else {
        ns[0] == os[0] && members_updated(os.drop_first(), ns.drop_first(), oid, id, v)
    })
}

/// The tree after a successful write of `(oid, id)`.
pub open spec fn tree_updated(o: NcBlock, n: NcBlock, oid: u64, id: NcElementId, v: JsonV) -> bool {
    if oid == o.base.oid {
        &&& n.is_root == o.is_root
        &&& n.enabled == o.enabled
        &&& n.members == o.members
        &&& obj_updated(o.base, n.base, v)
    } else {
        &&& n.is_root == o.is_root
        &&& n.enabled == o.enabled
        &&& n.base == o.base
        &&& members_updated(o.members@, n.members@, oid, id, v)
    }
}

/// A worker write that does not change the value: the one successful write
/// that emits no event.
pub open spec fn worker_noop(m: NcMember, id: NcElementId, v: JsonV) -> bool {
    m matches NcMember::Worker(w) && id.is(2, 1) && v == JsonV::Bool(w.enabled)
}

/// One value-changed event per successful mutation; a no-change worker
/// write emits nothing.
pub open spec fn set_events_ok(
    m: NcMember,
    oid: u64,
    id: NcElementId,
    v: JsonV,
    old_e: Seq<PropertyChangedEvent>,
    new_e: Seq<PropertyChangedEvent>,
) -> bool {
    if worker_noop(m, id, v) {
        new_e == old_e
    } else {
        emitted(old_e, new_e, value_changed_event(oid, id, v))
    }
}

impl NcMember {
    /// Writes a property handled by this node itself.
    fn set_property_here(
        &mut self,
        oid: u64,
        id_args_value: IdArgsValue,
        events: &mut Vec<PropertyChangedEvent>,
    ) -> (r: (Option<String>, NcMethodStatus))
        ensures
            r.1 == member_local_set_status(*old(self), id_args_value.id, id_args_value.value@),
            r.1 == NcMethodStatus::Okay ==> member_local_updated(
                *old(self),
                *final(self),
                id_args_value.id,
                id_args_value.value@,
            ) && set_events_ok(
                *old(self),
                member_oid(*old(self)),
                id_args_value.id,
                id_args_value.value@,
                old(events)@,
                final(events)@,
            ),
            r.1 != NcMethodStatus::Okay ==> *final(self) == *old(self) && final(events)@ == old(events)@,
            (r.0 is None) <==> (r.1 == NcMethodStatus::Okay),
    {
        match self {
            NcMember::Object(o) => o.set_property(oid, id_args_value, events),
            NcMember::Worker(w) => w.set_property(oid, id_args_value, events),
            NcMember::Device(d) => d.set_property(oid, id_args_value, events),
            NcMember::Class(c) => c.set_property(oid, id_args_value, events),
            NcMember::Block(b) => {
                if id_args_value.id.level == 2 {
                    if id_args_value.id.index == 1 || id_args_value.id.index == 2 {
                        (Some("Property is readonly".to_owned()), NcMethodStatus::Readonly)
                    } else {
                        (
                            Some("Could not find the property".to_owned()),
                            NcMethodStatus::PropertyNotImplemented,
                        )
                    }
                } else {
                    b.base.set_property(oid, id_args_value, events)
                }
            },
        }
    }
}

/// The message reported for a failed write.
fn set_failure_message(st: NcMethodStatus) -> (r: Option<String>)
    ensures
        r is Some <==> st != NcMethodStatus::Okay,
{
    match st {
        NcMethodStatus::Okay => None,
        NcMethodStatus::Readonly => Some("Property is readonly".to_owned()),
        NcMethodStatus::ParameterError => Some("Property value was invalid".to_owned()),
        _ => Some("Could not find the property".to_owned()),
    }
}

/// Computes the status a write would report, without performing it.
fn obj_set_status_exec(id: NcElementId, v: &Json) -> (r: NcMethodStatus)
    ensures
        r == obj_set_status(id, v@),
{
    if id.level == 1 {
        if id.index == 6 {
            match v {
                Json::Str(_) => NcMethodStatus::Okay,
                Json::Null => NcMethodStatus::Okay,
                _ => NcMethodStatus::ParameterError,
            }
        } else if 1 <= id.index && id.index <= 8 {
            NcMethodStatus::Readonly
        } else {
            NcMethodStatus::PropertyNotImplemented
        }
    } else {
        NcMethodStatus::PropertyNotImplemented
    }
}

fn member_set_status_exec(m: &NcMember, id: NcElementId, v: &Json) -> (r: NcMethodStatus)
    ensures
        r == member_local_set_status(*m, id, v@),
{
    match m {
        NcMember::Object(_) => obj_set_status_exec(id, v),
        NcMember::Worker(_) => {
            if id.level == 2 && id.index == 1 {
                match v {
                    Json::Bool(_) => NcMethodStatus::Okay,
                    _ => NcMethodStatus::ParameterError,
                }
            } else {
                obj_set_status_exec(id, v)
            }
        },
        NcMember::Device(_) => {
            if id.level == 3 {
                if id.index == 5 || id.index == 6 || id.index == 7 {
                    match v {
                        Json::Str(_) => NcMethodStatus::Okay,
                        Json::Null => NcMethodStatus::Okay,
                        _ => NcMethodStatus::ParameterError,
                    }
                } else if 1 <= id.index && id.index <= 10 {
                    NcMethodStatus::Readonly
                } else {
                    NcMethodStatus::PropertyNotImplemented
                }
            } else {
                obj_set_status_exec(id, v)
            }
        },
        NcMember::Class(_) => {
            if id.level == 3 {
                if id.index == 1 || id.index == 2 {
                    NcMethodStatus::Readonly
                } else {
                    NcMethodStatus::PropertyNotImplemented
                }
            } else {
                obj_set_status_exec(id, v)
            }
        },
        NcMember::Block(_) => {
            if id.level == 2 {
                if id.index == 1 || id.index == 2 {
                    NcMethodStatus::Readonly
                } else {
                    NcMethodStatus::PropertyNotImplemented
                }
            } else {
                obj_set_status_exec(id, v)
            }
        },
    }
}

fn members_set_tree(
    members: Vec<NcMember>,
    i: usize,
    oid: u64,
    id_args_value: IdArgsValue,
    events: &mut Vec<PropertyChangedEvent>,
) -> (res: (Vec<NcMember>, Option<String>, NcMethodStatus))
    requires
        i <= members@.len(),
    ensures
        res.0@.len() == members@.len(),
        res.0@.take(i as int) == members@.take(i as int),
        match find_in_members(members@.skip(i as int), oid) {
            Some(m) => {
                &&& res.2 == member_local_set_status(m, id_args_value.id, id_args_value.value@)
                &&& (res.2 == NcMethodStatus::Okay ==> members_updated(
                    members@.skip(i as int),
                    res.0@.skip(i as int),
                    oid,
                    id_args_value.id,
                    id_args_value.value@,
                ) && set_events_ok(
                    m,
                    oid,
                    id_args_value.id,
                    id_args_value.value@,
                    old(events)@,
                    final(events)@,
                ))
                &&& (res.2 != NcMethodStatus::Okay ==> res.0 == members && final(events)@
                    == old(events)@)
                &&& ((res.1 is None) <==> res.2 == NcMethodStatus::Okay)
            },
            None => res.2 == NcMethodStatus::BadOid && (res.1 matches Some(m) && m@
                == "Member not found"@) && res.0 == members && final(events)@ == old(events)@,
        },
    decreases members, members@.len() - i, 2int,
{
    let ghost ms0 = members@;
    let ghost os = members@.skip(i as int);
    let mut members = members;
    if i == members.len() {
        proof {
            assert(ms0.skip(i as int) =~= Seq::<NcMember>::empty());
        }
        return (members, Some("Member not found".to_owned()), NcMethodStatus::BadOid);
    }
    proof {
        assert(os[0] == ms0[i as int]);
        assert(os.drop_first() =~= ms0.skip(i as int + 1));
        lemma_find_oid(os, oid);
    }
    if members[i].get_oid() == oid {
        let st = member_set_status_exec(&members[i], id_args_value.id, &id_args_value.value);
        if st != NcMethodStatus::Okay {
            return (members, set_failure_message(st), st);
        }
        let mut m = members.remove(i);
        let r = m.set_property_here(oid, id_args_value, events);
        let ghost mfin = m;
        members.insert(i, m);
        proof {
            assert(members@ =~= ms0.update(i as int, mfin));
            assert(members@.take(i as int) =~= ms0.take(i as int));
            assert(members@.skip(i as int).drop_first() =~= os.drop_first());
            assert(members@.skip(i as int)[0] == mfin);
            assert(members_updated(
                os,
                members@.skip(i as int),
                oid,
                id_args_value.id,
                id_args_value.value@,
            ));
        }
        return (members, r.0, r.1);
    }
    let descend: bool = match &members[i] {
        NcMember::Block(b) => match b.find_member(oid) {
            Some(_) => true,
            None => false,
        },
        _ => false,
    };
    if descend {
        let st0 = match &members[i] {
            NcMember::Block(b) => match b.find_member(oid) {
                Some(fm) => member_set_status_exec(fm, id_args_value.id, &id_args_value.value),
                None => {
                    proof {
                        assert(false);
                    }
                    NcMethodStatus::DeviceError
                },
            },
            _ => {
                proof {
                    assert(false);
                }
                NcMethodStatus::DeviceError
            },
        };
        if st0 != NcMethodStatus::Okay {
            return (members, set_failure_message(st0), st0);
        }
        let m = members.remove(i);
        match m {
            NcMember::Block(b) => {
                let ghost b0 = b;
                let (b2, msg, st) = block_set_tree(b, oid, id_args_value, events);
                let ghost b2g = b2;
                members.insert(i, NcMember::Block(b2));
                proof {
                    assert(members@ =~= ms0.update(i as int, NcMember::Block(b2g)));
                    assert(members@.take(i as int) =~= ms0.take(i as int));
                    assert(members@.skip(i as int).drop_first() =~= os.drop_first());
                    assert(members@.skip(i as int)[0] == NcMember::Block(b2g));
                    assert(st == NcMethodStatus::Okay);
                    assert(members_updated(
                        os,
                        members@.skip(i as int),
                        oid,
                        id_args_value.id,
                        id_args_value.value@,
                    ));
                }
                (members, msg, st)
            },
            _ => {
                proof {
                    assert(false);
                }
                (members, None, NcMethodStatus::DeviceError)
            },
        }
    } else {
        proof {
            assert(find_in_members(os, oid) == find_in_members(ms0.skip(i as int + 1), oid));
        }
        let (members2, msg, st) = members_set_tree(members, i + 1, oid, id_args_value, events);
        proof {
            assert(members2@.take(i as int + 1)[i as int] == ms0.take(i as int + 1)[i as int]);
            assert(members2@[i as int] == ms0[i as int]);
            assert(members2@.take(i as int) =~= ms0.take(i as int));
            assert(members2@.skip(i as int)[0] == ms0[i as int]);
            assert(members2@.skip(i as int).drop_first() =~= members2@.skip(i as int + 1));
            if st == NcMethodStatus::Okay {
                assert(members_updated(
                    os,
                    members2@.skip(i as int),
                    oid,
                    id_args_value.id,
                    id_args_value.value@,
                ));
            }
        }
        (members2, msg, st)
    }
}

fn block_set_tree(
    b: NcBlock,
    oid: u64,
    id_args_value: IdArgsValue,
    events: &mut Vec<PropertyChangedEvent>,
) -> (res: (NcBlock, Option<String>, NcMethodStatus))
    ensures
        res.2 == tree_set_status(b, oid, id_args_value.id, id_args_value.value@),
        res.2 == NcMethodStatus::Okay ==> tree_updated(
            b,
            res.0,
            oid,
            id_args_value.id,
            id_args_value.value@,
        ),
        res.2 == NcMethodStatus::Okay && oid == b.base.oid ==> emitted(
            old(events)@,
            final(events)@,
            value_changed_event(oid, id_args_value.id, id_args_value.value@),
        ),
        res.2 == NcMethodStatus::Okay && oid != b.base.oid ==> (find_in_block(b, oid)
            matches Some(m) && set_events_ok(
            m,
            oid,
            id_args_value.id,
            id_args_value.value@,
            old(events)@,
            final(events)@,
        )),
        res.2 != NcMethodStatus::Okay ==> res.0 == b && final(events)@ == old(events)@,
        (res.1 is None) <==> (res.2 == NcMethodStatus::Okay),
        res.2 == NcMethodStatus::BadOid ==> (res.1 matches Some(m) && m@ == "Member not found"@),
    decreases b, 0int, 0int,
{
    let ghost b0 = b;
    if oid == b.base.oid {
        if id_args_value.id.level == 2 {
            if id_args_value.id.index == 1 || id_args_value.id.index == 2 {
                (b, Some("Property is readonly".to_owned()), NcMethodStatus::Readonly)
            } else {
                (
                    b,
                    Some("Could not find the property".to_owned()),
                    NcMethodStatus::PropertyNotImplemented,
                )
            }
        } else {
            let st = obj_set_status_exec(id_args_value.id, &id_args_value.value);
            if st != NcMethodStatus::Okay {
                return (b, set_failure_message(st), st);
            }
            let NcBlock { mut base, is_root, enabled, members } = b;
            let r = base.set_property(oid, id_args_value, events);
            let nb = NcBlock { base, is_root, enabled, members };
            (nb, r.0, r.1)
        }
    } else {
        let NcBlock { base, is_root, enabled, members } = b;
        proof {
            assert(members@.skip(0) =~= members@);
        }
        let (members2, msg, st) = members_set_tree(members, 0, oid, id_args_value, events);
        let nb = NcBlock { base, is_root, enabled, members: members2 };
        proof {
            assert(nb.members@.skip(0) =~= nb.members@);
            if st != NcMethodStatus::Okay {
                assert(nb == b0);
            }
        }
        (nb, msg, st)
    }
}

impl NcBlock {
    /// Writes a property of the addressed object: this block when the oid
    /// is its own, a descendant found by oid otherwise. A successful write
    /// changes exactly the written property and emits its value-changed
    /// event; a failed one changes nothing.
    pub fn set_property(
        &mut self,
        oid: u64,
        id_args_value: IdArgsValue,
        events: &mut Vec<PropertyChangedEvent>,
    ) -> (r: (Option<String>, NcMethodStatus))
        ensures
            r.1 == tree_set_status(*old(self), oid, id_args_value.id, id_args_value.value@),
            r.1 == NcMethodStatus::Okay ==> tree_updated(
                *old(self),
                *final(self),
                oid,
                id_args_value.id,
                id_args_value.value@,
            ),
            r.1 == NcMethodStatus::Okay && oid == old(self).base.oid ==> emitted(
                old(events)@,
                final(events)@,
                value_changed_event(oid, id_args_value.id, id_args_value.value@),
            ),
            r.1 == NcMethodStatus::Okay && oid != old(self).base.oid ==> (find_in_block(
                *old(self),
                oid,
            ) matches Some(m) && set_events_ok(
                m,
                oid,
                id_args_value.id,
                id_args_value.value@,
                old(events)@,
                final(events)@,
            )),
            r.1 != NcMethodStatus::Okay ==> *final(self) == *old(self) && final(events)@ == old(
                events,
            )@,
            (r.0 is None) <==> (r.1 == NcMethodStatus::Okay),
            r.1 == NcMethodStatus::BadOid ==> (r.0 matches Some(m) && m@ == "Member not found"@),
    {
        let mut tmp = NcBlock {
            base: NcObject {
                class_id: Vec::new(),
                oid: 0,
                constant_oid: false,
                owner: None,
                role: String::new(),
                user_label: None,
                touchpoints: None,
                runtime_property_constraints: None,
            },
            is_root: false,
            enabled: false,
            members: Vec::new(),
        };
        core::mem::swap(&mut tmp, self);
        let (nb, msg, st) = block_set_tree(tmp, oid, id_args_value, events);
        let mut nb = nb;
        core::mem::swap(&mut nb, self);
        (msg, st)
    }
}

// ---------------------------------------------------------------------------
// Construction
// ---------------------------------------------------------------------------

pub open spec fn seqs_disjoint(a: Seq<u64>, b: Seq<u64>) -> bool {
    forall|i: int, j: int| 0 <= i < a.len() && 0 <= j < b.len() ==> a[i] != b[j]
}

pub proof fn lemma_members_oids_push(ms: Seq<NcMember>, m: NcMember)
    ensures
        members_oids(ms.push(m)) == members_oids(ms) + subtree_oids(m),
    decreases ms,
{
    if ms.len() == 0 {
        assert(ms.push(m).drop_first() =~= Seq::<NcMember>::empty());
        assert(ms.push(m)[0] == m);
        assert(members_oids(Seq::<NcMember>::empty()) =~= Seq::<u64>::empty());
        assert(members_oids(ms.push(m)) =~= members_oids(ms) + subtree_oids(m));
    } else {
        lemma_members_oids_push(ms.drop_first(), m);
        assert(ms.push(m).drop_first() =~= ms.drop_first().push(m));
        assert(ms.push(m)[0] == ms[0]);
        assert(members_oids(ms.push(m)) =~= members_oids(ms) + subtree_oids(m));
    }
}

impl NcBlock {
    pub fn new(
        is_root: bool,
        class_id: Vec<u32>,
        oid: u64,
        constant_oid: bool,
        owner: Option<u64>,
        role: &str,
        user_label: Option<&str>,
        enabled: bool,
        touchpoints: Option<Vec<NcTouchpoint>>,
        runtime_property_constraints: Option<Vec<NcPropertyConstraints>>,
    ) -> (r: NcBlock)
        ensures
            r.base.class_id == class_id,
            r.base.oid == oid,
            r.base.constant_oid == constant_oid,
            r.base.owner == owner,
            r.base.role@ == role@,
            r.is_root == is_root,
            r.enabled == enabled,
            r.members@ =~= Seq::<NcMember>::empty(),
            class_id@.len() >= 1 && class_id@[0] == 1 ==> block_wf(r),
    {
        let r = NcBlock {
            base: NcObject::new(
                class_id,
                oid,
                constant_oid,
                owner,
                role,
                user_label,
                touchpoints,
                runtime_property_constraints,
            ),
            is_root,
            enabled,
            members: Vec::new(),
        };
        proof {
            assert(members_oids(r.members@) =~= Seq::<u64>::empty());
            assert(tree_oids(r) =~= seq![oid]);
        }
        r
    }

    /// Appends a child. The child is refused, and nothing changes, when its
    /// owner field does not name this block or its role repeats a sibling's.
    /// An accepted child keeps the block invariant, provided its subtree is
    /// well-formed, not root-marked, and brings no oid already in the tree;
    /// the addition emits one value-changed event for the member list.
    pub fn add_member(
        &mut self,
        member: NcMember,
        events: &mut Vec<PropertyChangedEvent>,
    ) -> (r: bool)
        ensures
            r <==> (member_owner(member) == Some(old(self).base.oid) && (forall|i: int|
                0 <= i < old(self).members@.len() ==> member_role(
                    #[trigger] old(self).members@[i],
                ) != member_role(member))),
            r ==> final(self).members@ == old(self).members@.push(member) && final(self).base
                == old(self).base && final(self).is_root == old(self).is_root && final(self).enabled == old(self).enabled && emitted(
                old(events)@,
                final(events)@,
                value_changed_event(
                    old(self).base.oid,
                    NcElementId { level: 2, index: 2 },
                    member_descs_json(own_descs(*final(self))),
                ),
            ),
            !r ==> *final(self) == *old(self) && final(events)@ == old(events)@,
            (r && block_wf(*old(self)) && member_wf(member) && !(member matches NcMember::Block(
                c,
            ) && c.is_root) && seqs_disjoint(tree_oids(*old(self)), subtree_oids(member)))
                ==> block_wf(*final(self)),
    {
        let owner_ok: bool = match member {
            NcMember::Object(ref o) => match o.owner {
                Some(x) => x == self.base.oid,
                None => false,
            },
            NcMember::Block(ref b) => match b.base.owner {
                Some(x) => x == self.base.oid,
                None => false,
            },
            NcMember::Worker(ref w) => match w.base.owner {
                Some(x) => x == self.base.oid,
                None => false,
            },
            NcMember::Device(ref d) => match d.base.base.owner {
                Some(x) => x == self.base.oid,
                None => false,
            },
            NcMember::Class(ref c) => match c.base.base.owner {
                Some(x) => x == self.base.oid,
                None => false,
            },
        };
        if !owner_ok {
            return false;
        }
        let mut i: usize = 0;
        while i < self.members.len()
            invariant
                i <= self.members@.len(),
                forall|j: int|
                    0 <= j < i ==> member_role(#[trigger] self.members@[j]) != member_role(
                        member,
                    ),
            decreases self.members@.len() - i,
        {
            if str_eq(self.members[i].get_role().as_str(), member.get_role().as_str()) {
                return false;
            }
            i = i + 1;
        }
        let ghost old_members = self.members@;
        let ghost old_self = *self;
        let ghost member_g = member;
        self.members.push(member);
        let ds = self.generate_members_descriptors();
        let ghost evs0 = events@;
        events.push(
            PropertyChangedEvent::new(
                self.base.oid,
                PropertyChangedEventData {
                    property_id: NcElementId { level: 2, index: 2 },
                    change_type: NcPropertyChangeType::ValueChanged,
                    value: member_descs_to_json(&ds),
                    sequence_item_index: None,
                },
            ),
        );
        proof {
            assert(events@.take(evs0.len() as int) =~= evs0);
            lemma_members_oids_push(old_members, member_g);
            if block_wf(old_self) && member_wf(member_g) && !(member_g matches NcMember::Block(c)
                && c.is_root) && seqs_disjoint(tree_oids(old_self), subtree_oids(member_g)) {
                assert(tree_oids(*self) =~= tree_oids(old_self) + subtree_oids(member_g));
                assert forall|i2: int, j2: int|
                    0 <= i2 < j2 < tree_oids(*self).len() implies tree_oids(*self)[i2]
                    != tree_oids(*self)[j2] by {
                    if j2 < tree_oids(old_self).len() {
                    } else if i2 >= tree_oids(old_self).len() {
                        let a = subtree_oids(member_g);
                        assert(no_dup(tree_oids(old_self)));
                        assert(member_wf(member_g));
                        lemma_member_wf_oids_no_dup(member_g);
                        assert(a[i2 - tree_oids(old_self).len()] != a[j2 - tree_oids(
                            old_self,
                        ).len()]);
                    } else {
                    }
                }
                assert(block_wf(*self));
            }
        }
        true
    }
}

/// A well-formed member's subtree has pairwise distinct oids.
pub proof fn lemma_member_wf_oids_no_dup(m: NcMember)
    requires
        member_wf(m),
    ensures
        no_dup(subtree_oids(m)),
    decreases m,
{
    match m {
        NcMember::Block(b) => {
            assert(subtree_oids(m) == tree_oids(b));
        },
        _ => {},
    }
}


// ---------------------------------------------------------------------------
// Member search: by role path, by role text, by class id
// ---------------------------------------------------------------------------

/// The lower-case form of a string, as the standard library computes it.
pub uninterp spec fn lower_of(s: Seq<char>) -> Seq<char>;

/// Relies on str::to_lowercase: the result is a function of the characters
/// alone.
#[verifier::external_body]
fn lowercase(s: &str) -> (r: String)
    ensures
        r@ == lower_of(s@),
{
    s.to_lowercase()
}

/// `needle` occurs contiguously in `hay`.
pub open spec fn contains_seq(hay: Seq<char>, needle: Seq<char>) -> bool {
    exists|k: int|
        0 <= k <= hay.len() - needle.len() && #[trigger] hay.subrange(k, k + needle.len())
            == needle
}

fn match_at(hay: &Vec<char>, needle: &Vec<char>, k: usize) -> (r: bool)
    requires
        k + needle@.len() <= hay@.len(),
    ensures
        r == (hay@.subrange(k as int, k + needle@.len()) == needle@),
{
    let hn = hay.len();
    let mut j: usize = 0;
    while j < needle.len()
        invariant
            k + needle@.len() <= hay@.len(),
            hn == hay@.len(),
            j <= needle@.len(),
            forall|j2: int| 0 <= j2 < j ==> hay@[k + j2] == needle@[j2],
        decreases needle@.len() - j,
    {
        if hay[k + j] != needle[j] {
            proof {
                assert(hay@.subrange(k as int, k + needle@.len())[j as int] == hay@[k + j]);
            }
            return false;
        }
        j = j + 1;
    }
    proof {
        assert(hay@.subrange(k as int, k + needle@.len()) =~= needle@);
    }
    true
}

fn contains_chars(hay: &Vec<char>, needle: &Vec<char>) -> (r: bool)
    ensures
        r == contains_seq(hay@, needle@),
{
    if needle.len() > hay.len() {
        return false;
    }
    if needle.len() == 0 {
        proof {
            assert(hay@.subrange(0, 0 + needle@.len() as int) =~= needle@);
        }
        return true;
    }
    let mut k: usize = 0;
    while k <= hay.len() - needle.len()
        invariant
            1 <= needle@.len() <= hay@.len(),
            k <= hay@.len() - needle@.len() + 1,
            forall|k2: int|
                0 <= k2 < k ==> #[trigger] hay@.subrange(k2, k2 + needle@.len()) != needle@,
        decreases hay@.len() - needle@.len() - k + 1,
    {
        if match_at(hay, needle, k) {
            return true;
        }
        k = k + 1;
    }
    false
}

/// Whether a member's role matches the searched text: whole-string equality
/// or substring containment, case-folded unless the search is sensitive.
pub open spec fn role_matches(r: Seq<char>, role: Seq<char>, cs: bool, whole: bool) -> bool {
    if cs {
        if whole {
            r == role
        } else {
            contains_seq(r, role)
        }
    } else {
        if whole {
            lower_of(r) == lower_of(role)
        } else {
            contains_seq(lower_of(r), lower_of(role))
        }
    }
}

pub open spec fn role_matches_of(
    ms: Seq<NcMember>,
    owner: u64,
    role: Seq<char>,
    cs: bool,
    whole: bool,
) -> Seq<MemberDescV>
    decreases ms,
{
    if ms.len() == 0 {
        Seq::empty()
    } else {
        (if role_matches(member_role(ms[0]), role, cs, whole) {
            seq![member_desc_of(ms[0], owner)]
        } else {
            Seq::empty()
        }) + role_matches_of(ms.drop_first(), owner, role, cs, whole)
    }
}

/// The descriptors FindMembersByRole returns: the block's own matches, then
/// each nested block's matches when recursing. An empty role matches
/// nothing.
pub open spec fn find_by_role(
    b: NcBlock,
    role: Seq<char>,
    cs: bool,
    whole: bool,
    recurse: bool,
) -> Seq<MemberDescV>
    decreases b, 0int,
{
    if role.len() == 0 {
        Seq::empty()
    } else {
        role_matches_of(b.members@, b.base.oid, role, cs, whole) + (if recurse {
            role_rec(b.members@, role, cs, whole)
        } else {
            Seq::empty()
        })
    }
}

pub open spec fn role_rec(ms: Seq<NcMember>, role: Seq<char>, cs: bool, whole: bool) -> Seq<
    MemberDescV,
>
    decreases ms, 1int,
{
    if ms.len() == 0 {
        Seq::empty()
    } else {
        (match ms[0] {
            NcMember::Block(c) => find_by_role(c, role, cs, whole, true),
            _ => Seq::empty(),
        }) + role_rec(ms.drop_first(), role, cs, whole)
    }
}

/// One role-path segment matched against the members; on the last segment
/// the matching members are reported, otherwise matching blocks are
/// descended into.
pub open spec fn find_by_path(b: NcBlock, segs: Seq<Seq<char>>) -> Seq<MemberDescV>
    decreases b, 0int,
{
    fbp_members(b.members@, b.base.oid, segs)
}

pub open spec fn fbp_members(ms: Seq<NcMember>, owner: u64, segs: Seq<Seq<char>>) -> Seq<
    MemberDescV,
>
    decreases ms, 1int,
{
    if ms.len() == 0 || segs.len() == 0 {
        Seq::empty()
    } else {
        (if member_role(ms[0]) == segs[0] {
            if segs.len() == 1 {
                seq![member_desc_of(ms[0], owner)]
            } else {
                match ms[0] {
                    NcMember::Block(c) => find_by_path(c, segs.drop_first()),
                    _ => Seq::empty(),
                }
            }
        } else {
            Seq::empty()
        }) + fbp_members(ms.drop_first(), owner, segs)
    }
}

pub open spec fn is_prefix_u32(p: Seq<u32>, s: Seq<u32>) -> bool {
    p.len() <= s.len() && s.take(p.len() as int) == p
}

/// Class-id match: equality, or, including derived classes, the searched id
/// as a prefix.
pub open spec fn cid_matches(cid: Seq<u32>, target: Seq<u32>, derived: bool) -> bool {
    if derived {
        is_prefix_u32(target, cid)
    } else {
        cid == target
    }
}

pub open spec fn class_matches_of(
    ms: Seq<NcMember>,
    owner: u64,
    target: Seq<u32>,
    derived: bool,
) -> Seq<MemberDescV>
    decreases ms,
{
    if ms.len() == 0 {
        Seq::empty()
    } else {
        (if cid_matches(member_class_id(ms[0]), target, derived) {
            seq![member_desc_of(ms[0], owner)]
        } else {
            Seq::empty()
        }) + class_matches_of(ms.drop_first(), owner, target, derived)
    }
}

/// The root block's own descriptor, reported with itself as owner.
pub open spec fn block_self_desc(b: NcBlock) -> MemberDescV {
    MemberDescV {
        description: None,
        role: b.base.role@,
        oid: b.base.oid,
        constant_oid: b.base.constant_oid,
        class_id: b.base.class_id@,
        user_label: (match b.base.user_label {
            Some(s) => s@,
            None => Seq::empty(),
        }),
        owner: b.base.oid,
    }
}

/// The descriptors FindMembersByClassId returns: the block's own matches
/// and, when recursing, the nested matches, with the root block's own
/// descriptor appended when the recursive search starts at a matching root.
pub open spec fn find_by_class(
    b: NcBlock,
    target: Seq<u32>,
    derived: bool,
    recurse: bool,
) -> Seq<MemberDescV>
    decreases b, 0int,
{
    class_matches_of(b.members@, b.base.oid, target, derived) + (if recurse {
        class_rec(b.members@, target, derived)
    } else {
        Seq::empty()
    }) + (if recurse && b.is_root && cid_matches(b.base.class_id@, target, derived) {
        seq![block_self_desc(b)]
    } else {
        Seq::empty()
    })
}

pub open spec fn class_rec(ms: Seq<NcMember>, target: Seq<u32>, derived: bool) -> Seq<MemberDescV>
    decreases ms, 1int,
{
    if ms.len() == 0 {
        Seq::empty()
    } else {
        (match ms[0] {
            NcMember::Block(c) => find_by_class(c, target, derived, true),
            _ => Seq::empty(),
        }) + class_rec(ms.drop_first(), target, derived)
    }
}

fn u32s_eq(a: &Vec<u32>, b: &Vec<u32>) -> (r: bool)
    ensures
        r == (a@ == b@),
{
    if a.len() != b.len() {
        proof {
            assert(a@ != b@);
        }
        return false;
    }
    let mut i: usize = 0;
    while i < a.len()
        invariant
            a@.len() == b@.len(),
            i <= a@.len(),
            forall|j: int| 0 <= j < i ==> a@[j] == b@[j],
        decreases a@.len() - i,
    {
        if a[i] != b[i] {
            return false;
        }
        i = i + 1;
    }
    proof {
        assert(a@ =~= b@);
    }
    true
}

fn u32s_prefix(p: &Vec<u32>, s: &Vec<u32>) -> (r: bool)
    ensures
        r == is_prefix_u32(p@, s@),
{
    if p.len() > s.len() {
        return false;
    }
    let mut i: usize = 0;
    while i < p.len()
        invariant
            p@.len() <= s@.len(),
            i <= p@.len(),
            forall|j: int| 0 <= j < i ==> p@[j] == s@[j],
        decreases p@.len() - i,
    {
        if p[i] != s[i] {
            proof {
                assert(s@.take(p@.len() as int)[i as int] != p@[i as int]);
            }
            return false;
        }
        i = i + 1;
    }
    proof {
        assert(s@.take(p@.len() as int) =~= p@);
    }
    true
}

impl NcBlock {
    /// FindMembersByRole: members whose role matches the text, here and,
    /// when recursing, in nested blocks. An empty role matches nothing.
    pub fn find_members_by_role(
        &self,
        role: &str,
        case_sensitive: bool,
        match_whole: bool,
        recurse: bool,
    ) -> (r: Vec<NcBlockMemberDescriptor>)
        ensures
            descs_view(r@) == find_by_role(*self, role@, case_sensitive, match_whole, recurse),
        decreases self, 2int, 0int,
    {
        let mut out: Vec<NcBlockMemberDescriptor> = Vec::new();
        if role.unicode_len() == 0 {
            return out;
        }
        let role_lower = lowercase(role);
        let mut i: usize = 0;
        while i < self.members.len()
            invariant
                i <= self.members@.len(),
                role@.len() > 0,
                role_lower@ == lower_of(role@),
                descs_view(out@) == role_matches_of(
                    self.members@.take(i as int),
                    self.base.oid,
                    role@,
                    case_sensitive,
                    match_whole,
                ),
            decreases self.members@.len() - i,
        {
            let mrole = self.members[i].get_role();
            let matched: bool = if case_sensitive {
                if match_whole {
                    str_eq(mrole.as_str(), role)
                } else {
                    let h = crate::json::str_to_chars(mrole.as_str());
                    let n = crate::json::str_to_chars(role);
                    contains_chars(&h, &n)
                }
            } else {
                let ml = lowercase(mrole.as_str());
                if match_whole {
                    str_eq(ml.as_str(), role_lower.as_str())
                } else {
                    let h = crate::json::str_to_chars(ml.as_str());
                    let n = crate::json::str_to_chars(role_lower.as_str());
                    contains_chars(&h, &n)
                }
            };
            proof {
                assert(matched == role_matches(
                    member_role(self.members@[i as int]),
                    role@,
                    case_sensitive,
                    match_whole,
                ));
            }
            if matched {
                let d = self.members[i].make_member_descriptor(self.base.oid);
                out.push(d);
            }
            proof {
                lemma_role_matches_of_take(
                    self.members@,
                    self.base.oid,
                    role@,
                    case_sensitive,
                    match_whole,
                    i as int,
                );
                assert(descs_view(out@) =~= role_matches_of(
                    self.members@.take(i as int + 1),
                    self.base.oid,
                    role@,
                    case_sensitive,
                    match_whole,
                ));
            }
            i = i + 1;
        }
        proof {
            assert(self.members@.take(self.members@.len() as int) =~= self.members@);
        }
        if recurse {
            role_rec_exec(&self.members, 0, role, case_sensitive, match_whole, &mut out);
            proof {
                assert(self.members@.skip(0) =~= self.members@);
            }
        }
        out
    }
}

/// Splitting a filtered map at the last element.
proof fn lemma_role_matches_of_take(
    ms: Seq<NcMember>,
    owner: u64,
    role: Seq<char>,
    cs: bool,
    whole: bool,
    i: int,
)
    requires
        0 <= i < ms.len(),
    ensures
        role_matches_of(ms.take(i + 1), owner, role, cs, whole) == role_matches_of(
            ms.take(i),
            owner,
            role,
            cs,
            whole,
        ) + (if role_matches(member_role(ms[i]), role, cs, whole) {
            seq![member_desc_of(ms[i], owner)]
        } else {
            Seq::<MemberDescV>::empty()
        }),
    decreases i,
{
    if i == 0 {
        assert(ms.take(1)[0] == ms[0]);
        assert(ms.take(1).drop_first() =~= Seq::<NcMember>::empty());
        assert(ms.take(0) =~= Seq::<NcMember>::empty());
        assert(role_matches_of(ms.take(1), owner, role, cs, whole) =~= role_matches_of(
            ms.take(0),
            owner,
            role,
            cs,
            whole,
        ) + (if role_matches(member_role(ms[0]), role, cs, whole) {
            seq![member_desc_of(ms[0], owner)]
        } else {
            Seq::<MemberDescV>::empty()
        }));
    } else {
        lemma_role_matches_of_take(ms.drop_first(), owner, role, cs, whole, i - 1);
        assert(ms.take(i + 1)[0] == ms[0]);
        assert(ms.take(i + 1).drop_first() =~= ms.drop_first().take(i));
        assert(ms.take(i)[0] == ms[0]);
        assert(ms.take(i).drop_first() =~= ms.drop_first().take(i - 1));
        assert(ms.drop_first()[i - 1] == ms[i]);
        assert(role_matches_of(ms.take(i + 1), owner, role, cs, whole) =~= role_matches_of(
            ms.take(i),
            owner,
            role,
            cs,
            whole,
        ) + (if role_matches(member_role(ms[i]), role, cs, whole) {
            seq![member_desc_of(ms[i], owner)]
        } else {
            Seq::<MemberDescV>::empty()
        }));
    }
}

fn role_rec_exec(
    ms: &Vec<NcMember>,
    i: usize,
    role: &str,
    cs: bool,
    whole: bool,
    out: &mut Vec<NcBlockMemberDescriptor>,
)
    requires
        i <= ms@.len(),
        role@.len() > 0,
    ensures
        descs_view(final(out)@) == descs_view(old(out)@) + role_rec(
            ms@.skip(i as int),
            role@,
            cs,
            whole,
        ),
    decreases ms, ms@.len() - i, 1int,
{
    if i == ms.len() {
        proof {
            assert(ms@.skip(i as int) =~= Seq::<NcMember>::empty());
            assert(descs_view(final(out)@) =~= descs_view(old(out)@) + role_rec(
                ms@.skip(i as int),
                role@,
                cs,
                whole,
            ));
        }
        return ;
    }
    proof {
        assert(ms@.skip(i as int)[0] == ms@[i as int]);
        assert(ms@.skip(i as int).drop_first() =~= ms@.skip(i as int + 1));
    }
    match &ms[i] {
        NcMember::Block(c) => {
            let sub = c.find_members_by_role(role, cs, whole, true);
            append_descs(out, sub);
        },
        _ => {
        },
    }
    role_rec_exec(ms, i + 1, role, cs, whole, out);
    proof {
        assert(descs_view(final(out)@) =~= descs_view(old(out)@) + role_rec(
            ms@.skip(i as int),
            role@,
            cs,
            whole,
        ));
    }
}


// ---------------------------------------------------------------------------
// Search by role path and by class id (executable)
// ---------------------------------------------------------------------------

/// The views of a segment list.
pub open spec fn segs_view(s: Seq<String>) -> Seq<Seq<char>> {
    s.map_values(|x: String| x@)
}

impl NcBlock {
    /// FindMembersByPath: walks the role path; on the last segment the
    /// matching members are reported, otherwise matching blocks are
    /// descended into. An empty path matches nothing.
    pub fn find_members_by_path(&self, segments: &Vec<String>) -> (r: Vec<
        NcBlockMemberDescriptor,
    >)
        ensures
            descs_view(r@) == (if segments@.len() == 0 {
                Seq::<MemberDescV>::empty()
            } else {
                find_by_path(*self, segs_view(segments@))
            }),
        decreases self, 2int, 0int,
    {
        let mut out: Vec<NcBlockMemberDescriptor> = Vec::new();
        if segments.len() == 0 {
            return out;
        }
        fbp_members_exec(&self.members, 0, self.base.oid, segments, 0, &mut out);
        proof {
            assert(self.members@.skip(0) =~= self.members@);
            assert(segs_view(segments@).skip(0) =~= segs_view(segments@));
            assert(descs_view(out@) =~= find_by_path(*self, segs_view(segments@)));
        }
        out
    }
}

/// Search with the path suffix beginning at `si`.
fn fbp_members_exec(
    ms: &Vec<NcMember>,
    i: usize,
    owner: u64,
    segments: &Vec<String>,
    si: usize,
    out: &mut Vec<NcBlockMemberDescriptor>,
)
    requires
        i <= ms@.len(),
        si < segments@.len(),
    ensures
        descs_view(final(out)@) == descs_view(old(out)@) + fbp_members(
            ms@.skip(i as int),
            owner,
            segs_view(segments@).skip(si as int),
        ),
    decreases ms, ms@.len() - i, 1int,
{
    let ghost segs = segs_view(segments@).skip(si as int);
    if i == ms.len() {
        proof {
            assert(ms@.skip(i as int) =~= Seq::<NcMember>::empty());
            assert(descs_view(final(out)@) =~= descs_view(old(out)@) + fbp_members(
                ms@.skip(i as int),
                owner,
                segs,
            ));
        }
        return ;
    }
    proof {
        assert(ms@.skip(i as int)[0] == ms@[i as int]);
        assert(ms@.skip(i as int).drop_first() =~= ms@.skip(i as int + 1));
        assert(segs[0] == segments@[si as int]@);
        assert(segs.len() == segments@.len() - si);
    }
    let m = &ms[i];
    if str_eq(m.get_role().as_str(), segments[si].as_str()) {
        if si == segments.len() - 1 {
            proof {
                assert(segs.len() == 1);
            }
            let d = m.make_member_descriptor(owner);
            out.push(d);
            proof {
                assert(descs_view(out@) =~= descs_view(old(out)@) + seq![
                    member_desc_of(ms@[i as int], owner),
                ]);
            }
        } else {
            proof {
                assert(segs.len() > 1);
                assert(segs.drop_first() =~= segs_view(segments@).skip(si as int + 1));
            }
            match m {
                NcMember::Block(c) => {
                    let mut sub: Vec<NcBlockMemberDescriptor> = Vec::new();
                    fbp_members_exec(&c.members, 0, c.base.oid, segments, si + 1, &mut sub);
                    proof {
                        assert(c.members@.skip(0) =~= c.members@);
                        assert(descs_view(sub@) =~= find_by_path(
                            *c,
                            segs_view(segments@).skip(si as int + 1),
                        ));
                    }
                    append_descs(out, sub);
                },
                _ => {
                },
            }
        }
    }
    fbp_members_exec(ms, i + 1, owner, segments, si, out);
    proof {
        assert(descs_view(final(out)@) =~= descs_view(old(out)@) + fbp_members(
            ms@.skip(i as int),
            owner,
            segs,
        ));
    }
}

impl NcBlock {
    /// FindMembersByClassId: members whose class id equals the searched id,
    /// or descends from it when derived classes are included. When recursing,
    /// nested blocks are searched too, and a matching root block reports
    /// itself last.
    pub fn find_members_by_class_id(
        &self,
        class_id: &Vec<u32>,
        include_derived: bool,
        recurse: bool,
    ) -> (r: Vec<NcBlockMemberDescriptor>)
        ensures
            descs_view(r@) == find_by_class(*self, class_id@, include_derived, recurse),
        decreases self, 2int, 0int,
    {
        let mut out: Vec<NcBlockMemberDescriptor> = Vec::new();
        let mut i: usize = 0;
        while i < self.members.len()
            invariant
                i <= self.members@.len(),
                descs_view(out@) == class_matches_of(
                    self.members@.take(i as int),
                    self.base.oid,
                    class_id@,
                    include_derived,
                ),
            decreases self.members@.len() - i,
        {
            let mcid = self.members[i].get_class_id();
            let matched: bool = if include_derived {
                u32s_prefix(class_id, mcid)
            } else {
                u32s_eq(mcid, class_id)
            };
            proof {
                assert(matched == cid_matches(
                    member_class_id(self.members@[i as int]),
                    class_id@,
                    include_derived,
                ));
            }
            if matched {
                let d = self.members[i].make_member_descriptor(self.base.oid);
                out.push(d);
            }
            proof {
                lemma_class_matches_of_take(
                    self.members@,
                    self.base.oid,
                    class_id@,
                    include_derived,
                    i as int,
                );
                assert(descs_view(out@) =~= class_matches_of(
                    self.members@.take(i as int + 1),
                    self.base.oid,
                    class_id@,
                    include_derived,
                ));
            }
            i = i + 1;
        }
        proof {
            assert(self.members@.take(self.members@.len() as int) =~= self.members@);
        }
        if recurse {
            class_rec_exec(&self.members, 0, class_id, include_derived, &mut out);
            proof {
                assert(self.members@.skip(0) =~= self.members@);
            }
        }
        let self_matched: bool = if include_derived {
            u32s_prefix(class_id, &self.base.class_id)
        } else {
            u32s_eq(&self.base.class_id, class_id)
        };
        if recurse && self.is_root && self_matched {
            let d = NcBlockMemberDescriptor {
                description: None,
                role: self.base.role.clone(),
                oid: self.base.oid,
                constant_oid: self.base.constant_oid,
                class_id: self.base.class_id.clone(),
                user_label: match &self.base.user_label {
                    Some(s) => s.clone(),
                    None => String::new(),
                },
                owner: self.base.oid,
            };
            out.push(d);
            proof {
                assert(d@ == block_self_desc(*self));
            }
        }
        proof {
            assert(descs_view(out@) =~= find_by_class(
                *self,
                class_id@,
                include_derived,
                recurse,
            ));
        }
        out
    }
}

proof fn lemma_class_matches_of_take(
    ms: Seq<NcMember>,
    owner: u64,
    target: Seq<u32>,
    derived: bool,
    i: int,
)
    requires
        0 <= i < ms.len(),
    ensures
        class_matches_of(ms.take(i + 1), owner, target, derived) == class_matches_of(
            ms.take(i),
            owner,
            target,
            derived,
        ) + (if cid_matches(member_class_id(ms[i]), target, derived) {
            seq![member_desc_of(ms[i], owner)]
        } else {
            Seq::<MemberDescV>::empty()
        }),
    decreases i,
{
    if i == 0 {
        assert(ms.take(1)[0] == ms[0]);
        assert(ms.take(1).drop_first() =~= Seq::<NcMember>::empty());
        assert(ms.take(0) =~= Seq::<NcMember>::empty());
        assert(class_matches_of(ms.take(1), owner, target, derived) =~= class_matches_of(
            ms.take(0),
            owner,
            target,
            derived,
        ) + (if cid_matches(member_class_id(ms[0]), target, derived) {
            seq![member_desc_of(ms[0], owner)]
        } else {
            Seq::<MemberDescV>::empty()
        }));
    } else {
        lemma_class_matches_of_take(ms.drop_first(), owner, target, derived, i - 1);
        assert(ms.take(i + 1)[0] == ms[0]);
        assert(ms.take(i + 1).drop_first() =~= ms.drop_first().take(i));
        assert(ms.take(i)[0] == ms[0]);
        assert(ms.take(i).drop_first() =~= ms.drop_first().take(i - 1));
        assert(ms.drop_first()[i - 1] == ms[i]);
        assert(class_matches_of(ms.take(i + 1), owner, target, derived) =~= class_matches_of(
            ms.take(i),
            owner,
            target,
            derived,
        ) + (if cid_matches(member_class_id(ms[i]), target, derived) {
            seq![member_desc_of(ms[i], owner)]
        } else {
            Seq::<MemberDescV>::empty()
        }));
    }
}

fn class_rec_exec(
    ms: &Vec<NcMember>,
    i: usize,
    target: &Vec<u32>,
    derived: bool,
    out: &mut Vec<NcBlockMemberDescriptor>,
)
    requires
        i <= ms@.len(),
    ensures
        descs_view(final(out)@) == descs_view(old(out)@) + class_rec(
            ms@.skip(i as int),
            target@,
            derived,
        ),
    decreases ms, ms@.len() - i, 1int,
{
    if i == ms.len() {
        proof {
            assert(ms@.skip(i as int) =~= Seq::<NcMember>::empty());
            assert(descs_view(final(out)@) =~= descs_view(old(out)@) + class_rec(
                ms@.skip(i as int),
                target@,
                derived,
            ));
        }
        return ;
    }
    proof {
        assert(ms@.skip(i as int)[0] == ms@[i as int]);
        assert(ms@.skip(i as int).drop_first() =~= ms@.skip(i as int + 1));
    }
    match &ms[i] {
        NcMember::Block(c) => {
            let sub = c.find_members_by_class_id(target, derived, true);
            append_descs(out, sub);
        },
        _ => {
        },
    }
    class_rec_exec(ms, i + 1, target, derived, out);
    proof {
        assert(descs_view(final(out)@) =~= descs_view(old(out)@) + class_rec(
            ms@.skip(i as int),
            target@,
            derived,
        ));
    }
}


// ---------------------------------------------------------------------------
// Method invocation across the tree
// ---------------------------------------------------------------------------

/// Whitespace trimmed from both ends of a path segment.
pub open spec fn trim_start_spec(s: Seq<char>) -> Seq<char>
    decreases s.len(),
{
    if s.len() > 0 && crate::json::is_ws(s[0]) {
        trim_start_spec(s.drop_first())
    } else {
        s
    }
}

pub open spec fn trim_end_spec(s: Seq<char>) -> Seq<char>
    decreases s.len(),
{
    if s.len() > 0 && crate::json::is_ws(s.last()) {
        trim_end_spec(s.drop_last())
    } else {
        s
    }
}

pub open spec fn trim_spec(s: Seq<char>) -> Seq<char> {
    trim_end_spec(trim_start_spec(s))
}

/// The path segments of a `path` argument: its strings, trimmed, with
/// empty segments passed over.
pub open spec fn path_segments(items: Seq<JsonV>) -> Seq<Seq<char>>
    decreases items.len(),
{
    if items.len() == 0 {
        Seq::empty()
    } else {
        let rest = path_segments(items.drop_first());
        match items[0] {
            JsonV::Str(s) => if trim_spec(s).len() > 0 {
                seq![trim_spec(s)] + rest
            } else {
                rest
            },
            _ => rest,
        }
    }
}

/// The `path` argument decoded to segments; a missing or malformed path
/// yields none.
pub open spec fn path_arg(args: JsonV) -> Seq<Seq<char>> {
    match jget_spec(args, "path"@) {
        Some(v) => match v {
            JsonV::Arr(items) => path_segments(items),
            _ => Seq::empty(),
        },
        None => Seq::empty(),
    }
}

fn trim_chars(v: &Vec<char>) -> (r: Vec<char>)
    ensures
        r@ == trim_spec(v@),
{
    let mut s: usize = 0;
    let n = v.len();
    proof {
        assert(v@.skip(0) =~= v@);
    }
    while s < n && (v[s] == ' ' || v[s] == '\t' || v[s] == '\n' || v[s] == '\r')
        invariant
            s <= n,
            n == v@.len(),
            trim_start_spec(v@) == trim_start_spec(v@.skip(s as int)),
        decreases n - s,
    {
        proof {
            assert(v@.skip(s as int)[0] == v@[s as int]);
            assert(v@.skip(s as int).drop_first() =~= v@.skip(s as int + 1));
        }
        s = s + 1;
    }
    proof {
        if s < n {
            assert(v@.skip(s as int)[0] == v@[s as int]);
        }
        assert(trim_start_spec(v@) == v@.skip(s as int));
    }
    let mut e: usize = n;
    proof {
        assert(v@.skip(s as int).take(n - s) =~= v@.skip(s as int));
    }
    while e > s && (v[e - 1] == ' ' || v[e - 1] == '\t' || v[e - 1] == '\n' || v[e - 1]
        == '\r')
        invariant
            s <= e <= n,
            n == v@.len(),
            trim_start_spec(v@) == v@.skip(s as int),
            trim_end_spec(v@.skip(s as int)) == trim_end_spec(
                v@.skip(s as int).take(e - s),
            ),
        decreases e,
    {
        proof {
            let cur = v@.skip(s as int).take(e - s);
            assert(cur.last() == v@[e - 1]);
            assert(cur.drop_last() =~= v@.skip(s as int).take(e - 1 - s));
        }
        e = e - 1;
    }
    proof {
        let cur = v@.skip(s as int).take(e - s);
        if e > s {
            assert(cur.last() == v@[e - 1]);
        }
        assert(trim_end_spec(v@.skip(s as int).take(e - s)) == v@.skip(s as int).take(
            e - s,
        ));
    }
    let mut out: Vec<char> = Vec::new();
    let mut i: usize = s;
    while i < e
        invariant
            s <= i <= e <= n,
            n == v@.len(),
            out@ == v@.skip(s as int).take(i - s),
        decreases e - i,
    {
        out.push(v[i]);
        proof {
            assert(out@ =~= v@.skip(s as int).take(i + 1 - s));
        }
        i = i + 1;
    }
    proof {
        assert(trim_spec(v@) == v@.skip(s as int).take(e - s));
    }
    out
}

/// Reads the `path` argument as trimmed non-empty segments.
pub fn decode_path_arg(args: &Json) -> (r: Vec<String>)
    ensures
        segs_view(r@) == path_arg(args@),
{
    match args.get("path") {
        Some(v) => match v.as_arr() {
            Some(items) => {
                let r = decode_segments(items, 0);
                proof {
                    assert(json_view_seq(items@).skip(0) =~= json_view_seq(items@));
                }
                r
            },
            None => {
                let r: Vec<String> = Vec::new();
                proof {
                    assert(segs_view(r@) =~= Seq::<Seq<char>>::empty());
                }
                r
            },
        },
        None => {
            let r: Vec<String> = Vec::new();
            proof {
                assert(segs_view(r@) =~= Seq::<Seq<char>>::empty());
            }
            r
        },
    }
}

fn decode_segments(items: &Vec<Json>, i: usize) -> (r: Vec<String>)
    requires
        i <= items@.len(),
    ensures
        segs_view(r@) == path_segments(json_view_seq(items@).skip(i as int)),
    decreases items@.len() - i,
{
    proof {
        crate::json::lemma_json_view_seq_props(items@);
    }
    if i == items.len() {
        let r: Vec<String> = Vec::new();
        proof {
            assert(json_view_seq(items@).skip(i as int) =~= Seq::<JsonV>::empty());
            assert(segs_view(r@) =~= Seq::<Seq<char>>::empty());
        }
        return r;
    }
    proof {
        assert(json_view_seq(items@).skip(i as int)[0] == json_view_seq(items@)[i as int]);
        assert(json_view_seq(items@).skip(i as int).drop_first() =~= json_view_seq(
            items@,
        ).skip(i as int + 1));
    }
    let mut rest = decode_segments(items, i + 1);
    match items[i].as_str_opt() {
        Some(sv) => {
            let cs = crate::json::str_to_chars(sv.as_str());
            let t = trim_chars(&cs);
            if t.len() > 0 {
                let ghost rv = rest@;
                let ts = crate::json::chars_to_string(&t);
                rest.insert(0, ts);
                proof {
                    assert(segs_view(rest@) =~= seq![trim_spec(sv@)] + segs_view(rv));
                }
            }
            rest
        },
        None => rest,
    }
}

/// Outcome of a method call handled by a block itself.
pub open spec fn block_invoke_local(b: NcBlock, method_id: NcElementId, args: JsonV) -> (
    NcMethodStatus,
    ValueSpec,
) {
    if method_id.is(1, 3) {
        if !(args is Obj) {
            (NcMethodStatus::ParameterError, ValueSpec::NoValue)
        } else if jget_spec(args, "id"@) is None {
            (NcMethodStatus::ParameterError, ValueSpec::NoValue)
        } else {
            match crate::class_manager::id_arg(args) {
                None => (NcMethodStatus::ParameterError, ValueSpec::NoValue),
                Some((l, i)) => if l == 2 && i == 2 {
                    match crate::class_manager::uint_arg(args, "index"@) {
                        None => (NcMethodStatus::ParameterError, ValueSpec::NoValue),
                        Some(idx) => if idx >= own_descs(b).len() {
                            (NcMethodStatus::IndexOutOfBounds, ValueSpec::NoValue)
                        } else {
                            (
                                NcMethodStatus::Okay,
                                ValueSpec::Exact(member_desc_json(own_descs(b)[idx as int])),
                            )
                        },
                    }
                } else {
                    (NcMethodStatus::PropertyNotImplemented, ValueSpec::NoValue)
                },
            }
        }
    } else if method_id.is(1, 7) {
        if !(args is Obj) {
            (NcMethodStatus::ParameterError, ValueSpec::NoValue)
        } else if jget_spec(args, "id"@) is None {
            (NcMethodStatus::ParameterError, ValueSpec::NoValue)
        } else {
            match crate::class_manager::id_arg(args) {
                None => (NcMethodStatus::ParameterError, ValueSpec::NoValue),
                Some((l, i)) => if l == 2 && i == 2 {
                    (NcMethodStatus::Okay, ValueSpec::Exact(JsonV::UInt(own_descs(b).len() as u64)))
                } else {
                    (NcMethodStatus::PropertyNotImplemented, ValueSpec::NoValue)
                },
            }
        }
    } else if method_id.is(2, 1) {
        let recurse = match crate::class_manager::bool_arg(args, "recurse"@) {
            Some(x) => x,
            None => false,
        };
        (
            NcMethodStatus::Okay,
            ValueSpec::Exact(
                member_descs_json(
                    if recurse {
                        all_descs(b)
                    } else {
                        own_descs(b)
                    },
                ),
            ),
        )
    } else if method_id.is(2, 2) {
        let segs = path_arg(args);
        (
            NcMethodStatus::Okay,
            ValueSpec::Exact(
                member_descs_json(
                    if segs.len() == 0 {
                        Seq::<MemberDescV>::empty()
                    } else {
                        find_by_path(b, segs)
                    },
                ),
            ),
        )
    } else if method_id.is(2, 3) {
        let role = match crate::class_manager::str_arg(args, "role"@) {
            Some(x) => x,
            None => Seq::empty(),
        };
        let cs = match crate::class_manager::bool_arg(args, "caseSensitive"@) {
            Some(x) => x,
            None => false,
        };
        let whole = match crate::class_manager::bool_arg(args, "matchWholeString"@) {
            Some(x) => x,
            None => false,
        };
        let recurse = match crate::class_manager::bool_arg(args, "recurse"@) {
            Some(x) => x,
            None => false,
        };
        (
            NcMethodStatus::Okay,
            ValueSpec::Exact(member_descs_json(find_by_role(b, role, cs, whole, recurse))),
        )
    } else if method_id.is(2, 4) {
        match crate::class_manager::class_id_arg(args) {
            None => (
                NcMethodStatus::Okay,
                ValueSpec::Exact(member_descs_json(Seq::<MemberDescV>::empty())),
            ),
            Some(cid) => {
                let derived = match crate::class_manager::bool_arg(args, "includeDerived"@) {
                    Some(x) => x,
                    None => false,
                };
                let recurse = match crate::class_manager::bool_arg(args, "recurse"@) {
                    Some(x) => x,
                    None => false,
                };
                (
                    NcMethodStatus::Okay,
                    ValueSpec::Exact(member_descs_json(find_by_class(b, cid, derived, recurse))),
                )
            },
        }
    } else {
        (NcMethodStatus::MethodNotImplemented, ValueSpec::NoValue)
    }
}

/// Outcome of a method call handled by the addressed node.
pub open spec fn member_local_invoke(m: NcMember, method_id: NcElementId, args: JsonV) -> (
    NcMethodStatus,
    ValueSpec,
) {
    match m {
        NcMember::Block(b) => block_invoke_local(b, method_id, args),
        NcMember::Class(c) => cm_invoke(c, method_id, args),
        _ => (NcMethodStatus::MethodNotImplemented, ValueSpec::NoValue),
    }
}

/// Outcome of a method call routed through block `b` to object `oid`.
pub open spec fn tree_invoke(b: NcBlock, oid: u64, method_id: NcElementId, args: JsonV) -> (
    NcMethodStatus,
    ValueSpec,
) {
    if oid == b.base.oid {
        block_invoke_local(b, method_id, args)
    } else {
        match find_in_block(b, oid) {
            Some(m) => member_local_invoke(m, method_id, args),
            None => (NcMethodStatus::BadOid, ValueSpec::NoValue),
        }
    }
}

impl NcMember {
    /// Invokes a method handled by this node itself.
    pub fn invoke_method_here(&self, oid: u64, method_id: NcElementId, args: &Json) -> (r: (
        Option<String>,
        Option<Json>,
        NcMethodStatus,
    ))
        ensures
            ({
                let (st, vs) = member_local_invoke(*self, method_id, args@);
                r.2 == st && invoke_value_ok(vs, r.1) && ((r.0 is None) <==> st
                    == NcMethodStatus::Okay)
            }),
    {
        match self {
            NcMember::Block(b) => b.invoke_method_local(oid, method_id, args),
            NcMember::Class(c) => c.invoke_method(oid, method_id, args),
            NcMember::Object(o) => o.invoke_method(oid, method_id, args),
            NcMember::Worker(w) => w.invoke_method(oid, method_id, args),
            NcMember::Device(d) => d.invoke_method(oid, method_id, args),
        }
    }
}

impl NcBlock {
    /// Invokes a method of the block itself: the sequence operations on the
    /// member list and the four member searches.
    #[verifier::rlimit(100)]
    fn invoke_method_local(&self, _oid: u64, method_id: NcElementId, args: &Json) -> (r: (
        Option<String>,
        Option<Json>,
        NcMethodStatus,
    ))
        ensures
            ({
                let (st, vs) = block_invoke_local(*self, method_id, args@);
                r.2 == st && invoke_value_ok(vs, r.1) && ((r.0 is None) <==> st
                    == NcMethodStatus::Okay)
            }),
    {
        if method_id.level == 1 && method_id.index == 3 {
            let is_obj = match args {
                Json::Obj(_) => true,
                _ => false,
            };
            if !is_obj {
                return (
                    Some("Invalid arguments".to_owned()),
                    None,
                    NcMethodStatus::ParameterError,
                );
            }
            let has_id = match args.get("id") {
                Some(_) => true,
                None => false,
            };
            if !has_id {
                return (
                    Some("Missing 'id' argument".to_owned()),
                    None,
                    NcMethodStatus::ParameterError,
                );
            }
            match crate::class_manager::decode_id_arg(args) {
                None => (
                    Some("Invalid id argument".to_owned()),
                    None,
                    NcMethodStatus::ParameterError,
                ),
                Some((l, i)) => {
                    if l == 2 && i == 2 {
                        match crate::class_manager::decode_uint_arg(args, "index") {
                            None => (
                                Some("Invalid index argument".to_owned()),
                                None,
                                NcMethodStatus::ParameterError,
                            ),
                            Some(idx) => {
                                let ds = self.generate_members_descriptors();
                                if idx >= ds.len() as u64 {
                                    (
                                        Some("Index out of bounds for sequence".to_owned()),
                                        None,
                                        NcMethodStatus::IndexOutOfBounds,
                                    )
                                } else {
                                    proof {
                                        assert(descs_view(ds@)[idx as int] == own_descs(
                                            *self,
                                        )[idx as int]);
                                    }
                                    (None, Some(ds[idx as usize].to_json()), NcMethodStatus::Okay)
                                }
                            },
                        }
                    } else {
                        (
                            Some("Property is not a sequence".to_owned()),
                            None,
                            NcMethodStatus::PropertyNotImplemented,
                        )
                    }
                },
            }
        } else if method_id.level == 1 && method_id.index == 7 {
            let is_obj = match args {
                Json::Obj(_) => true,
                _ => false,
            };
            if !is_obj {
                return (
                    Some("Invalid arguments".to_owned()),
                    None,
                    NcMethodStatus::ParameterError,
                );
            }
            let has_id = match args.get("id") {
                Some(_) => true,
                None => false,
            };
            if !has_id {
                return (
                    Some("Invalid id argument".to_owned()),
                    None,
                    NcMethodStatus::ParameterError,
                );
            }
            match crate::class_manager::decode_id_arg(args) {
                None => (
                    Some("Invalid id argument".to_owned()),
                    None,
                    NcMethodStatus::ParameterError,
                ),
                Some((l, i)) => {
                    if l == 2 && i == 2 {
                        let ds = self.generate_members_descriptors();
                        proof {
                            assert(descs_view(ds@).len() == own_descs(*self).len());
                        }
                        (None, Some(Json::UInt(ds.len() as u64)), NcMethodStatus::Okay)
                    } else {
                        (
                            Some("Property is not a sequence".to_owned()),
                            None,
                            NcMethodStatus::PropertyNotImplemented,
                        )
                    }
                },
            }
        } else if method_id.level == 2 && method_id.index == 1 {
            let recurse = match crate::class_manager::decode_bool_arg(args, "recurse") {
                Some(x) => x,
                None => false,
            };
            let ds = self.get_member_descriptors(recurse);
            (None, Some(member_descs_to_json(&ds)), NcMethodStatus::Okay)
        } else if method_id.level == 2 && method_id.index == 2 {
            let segs = decode_path_arg(args);
            let ds = self.find_members_by_path(&segs);
            (None, Some(member_descs_to_json(&ds)), NcMethodStatus::Okay)
        } else if method_id.level == 2 && method_id.index == 3 {
            let role: String = match args.get("role") {
                Some(v) => match v.as_str_opt() {
                    Some(s) => s.clone(),
                    None => String::new(),
                },
                None => String::new(),
            };
            let cs = match crate::class_manager::decode_bool_arg(args, "caseSensitive") {
                Some(x) => x,
                None => false,
            };
            let whole = match crate::class_manager::decode_bool_arg(args, "matchWholeString") {
                Some(x) => x,
                None => false,
            };
            let recurse = match crate::class_manager::decode_bool_arg(args, "recurse") {
                Some(x) => x,
                None => false,
            };
            let ds = self.find_members_by_role(role.as_str(), cs, whole, recurse);
            (None, Some(member_descs_to_json(&ds)), NcMethodStatus::Okay)
        } else if method_id.level == 2 && method_id.index == 4 {
            match crate::class_manager::decode_class_id_arg(args) {
                None => {
                    let ds: Vec<NcBlockMemberDescriptor> = Vec::new();
                    proof {
                        assert(descs_view(ds@) =~= Seq::<MemberDescV>::empty());
                    }
                    (None, Some(member_descs_to_json(&ds)), NcMethodStatus::Okay)
                },
                Some(cid) => {
                    let derived = match crate::class_manager::decode_bool_arg(
                        args,
                        "includeDerived",
                    ) {
                        Some(x) => x,
                        None => false,
                    };
                    let recurse = match crate::class_manager::decode_bool_arg(args, "recurse") {
                        Some(x) => x,
                        None => false,
                    };
                    let ds = self.find_members_by_class_id(&cid, derived, recurse);
                    (None, Some(member_descs_to_json(&ds)), NcMethodStatus::Okay)
                },
            }
        } else {
            self.base.invoke_method(_oid, method_id, args)
        }
    }

    /// Invokes a method of the addressed object: this block when the oid is
    /// its own, a descendant found by oid otherwise.
    pub fn invoke_method(&self, oid: u64, method_id: NcElementId, args: &Json) -> (r: (
        Option<String>,
        Option<Json>,
        NcMethodStatus,
    ))
        ensures
            ({
                let (st, vs) = tree_invoke(*self, oid, method_id, args@);
                r.2 == st && invoke_value_ok(vs, r.1) && ((r.0 is None) <==> st
                    == NcMethodStatus::Okay)
            }),
            oid != self.base.oid && find_in_block(*self, oid) is None ==> (r.0 matches Some(m)
                && m@ == "Member not found"@),
    {
        if oid == self.base.oid {
            self.invoke_method_local(oid, method_id, args)
        } else {
            match self.find_member(oid) {
                Some(m) => m.invoke_method_here(oid, method_id, args),
                None => (
                    Some("Member not found".to_owned()),
                    None,
                    NcMethodStatus::BadOid,
                ),
            }
        }
    }
}

} // verus!
