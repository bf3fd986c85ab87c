//! Build-time analysis of an aggregate's declared shape.
//!
//! Given the ordered field list of a user-defined aggregate, the generator
//! recognizes which fields are paired buffers by their declared type, reads
//! each one's synchronization policy, rejects a paired field that requests
//! neither direction, and emits the two ordered composite operations as
//! transfer plans: field indices in declaration order, one plan per
//! direction.

use crate::policy::{effective_policy, SyncPolicy};
use crate::text::{contains_sub, str_contains};
use vstd::prelude::*;

verus! {

/// One declared field of an aggregate: its name, the textual form of its
/// declared type, and its optional synchronization directives.
#[derive(Debug)]
pub struct FieldDecl {
    pub name: String,
    pub ty: String,
    pub policy: Option<SyncPolicy>,
}

/// The declared shape of an aggregate type, as the analysis sees it.
#[derive(Debug)]
pub enum AggregateShape {
    /// A struct with named fields, in declaration order.
    NamedFields(Vec<FieldDecl>),
    /// A struct whose fields are not named (tuple or unit struct).
    UnnamedFields,
    /// Not a struct at all (an enum or a union).
    NotAStruct,
}

/// Why generation failed.  These are configuration errors: they block any
/// use of the generated operations.
#[derive(Debug)]
pub enum GenError {
    /// The aggregate is an enum or a union.
    NotAStruct,
    /// The aggregate's fields are not a flat named list.
    UnnamedFields,
    /// The named paired-buffer field requests neither direction, so it would
    /// never synchronize and is redundant.
    RedundantField { index: usize, name: String },
}

/// The two emitted composite operations: for each direction, the indices of
/// the fields to transfer, in declaration order.
#[derive(Debug)]
pub struct SyncPlan {
    pub send_order: Vec<usize>,
    pub retrieve_order: Vec<usize>,
}

/// The marker by which a paired-buffer field is recognized in its declared
/// type's textual form.
pub open spec fn paired_marker() -> Seq<char> {
    "PairedBuffers"@
}

/// A field is paired exactly when its declared type names the paired-buffer
/// wrapper, whatever its element type and rank.
pub open spec fn is_paired(f: FieldDecl) -> bool {
    contains_sub(f.ty@, paired_marker())
}

/// The policy a field is governed by: the one declared, or the default.
pub open spec fn field_policy(f: FieldDecl) -> SyncPolicy {
    effective_policy(f.policy)
}

/// A paired field takes part in the host-to-device operation when its policy
/// requests the push direction.
pub open spec fn sends(f: FieldDecl) -> bool {
    is_paired(f) && field_policy(f).push
}

/// A paired field takes part in the device-to-host operation when its policy
/// requests the pull direction.
pub open spec fn pulls(f: FieldDecl) -> bool {
    is_paired(f) && field_policy(f).pull
}

/// A field passes validation when it is not a paired buffer (the generator
/// ignores it) or its policy requests at least one direction.
pub open spec fn field_ok(f: FieldDecl) -> bool {
    !is_paired(f) || field_policy(f).is_meaningful()
}

/// `ord` lists exactly the indices of `sel` that hold `true`, in increasing
/// order, each once.
pub open spec fn order_exact(ord: Seq<usize>, sel: Seq<bool>) -> bool {
    &&& forall|k: int|
        0 <= k < ord.len() ==> (#[trigger] ord[k]) < sel.len() && sel[ord[k] as int]
    &&& forall|k1: int, k2: int| 0 <= k1 < k2 < ord.len() ==> ord[k1] < ord[k2]
    &&& forall|j: int|
        0 <= j < sel.len() && sel[j] ==> exists|k: int| 0 <= k < ord.len() && (#[trigger] ord[k]) == j
}

/// Which fields take part in the direction selected by `push_direction`.
pub open spec fn selected(fields: Seq<FieldDecl>, push_direction: bool) -> Seq<bool> {
    Seq::new(fields.len(), |j: int| if push_direction { sends(fields[j]) } else { pulls(fields[j]) })
}

/// A field that declares no policy takes part in exactly the same operations
/// and passes validation exactly as the same field with both directions
/// explicitly enabled.
pub proof fn lemma_unspecified_policy_field(f1: FieldDecl, f2: FieldDecl)
    requires
        f1.name == f2.name,
        f1.ty == f2.ty,
        f1.policy is None,
        f2.policy == Some(crate::policy::default_policy()),
    ensures
        sends(f1) == sends(f2),
        pulls(f1) == pulls(f2),
        field_ok(f1) == field_ok(f2),
{
}

/// Runtime form of `is_paired`.
pub fn is_paired_type(ty: &str) -> (r: bool)
    ensures
        r == contains_sub(ty@, paired_marker()),
{
    str_contains(ty, "PairedBuffers")
}

/// Collects the indices of the `true` entries of `sel`, in increasing order.
fn filter_indices(sel: &Vec<bool>) -> (ord: Vec<usize>)
    ensures
        order_exact(ord@, sel@),
{
    let mut ord: Vec<usize> = Vec::new();
    let n = sel.len();
    let mut i: usize = 0;
    while i < n
        invariant
            n == sel@.len(),
            i <= n,
            forall|k: int| 0 <= k < ord@.len() ==> (#[trigger] ord@[k]) < i && sel@[ord@[k] as int],
            forall|k1: int, k2: int| 0 <= k1 < k2 < ord@.len() ==> ord@[k1] < ord@[k2],
            forall|j: int|
                0 <= j < i && sel@[j] ==> exists|k: int|
                    0 <= k < ord@.len() && (#[trigger] ord@[k]) == j,
        decreases n - i,
    {
        if sel[i] {
            let ghost ord0 = ord@;
            ord.push(i);
            proof {
                assert forall|j: int| 0 <= j < i + 1 && sel@[j] implies exists|k: int|
                    0 <= k < ord@.len() && (#[trigger] ord@[k]) == j by {
                    if j == i {
                        assert(ord@[ord@.len() - 1] == i);
                    } else {
                        let k0 = choose|k: int| 0 <= k < ord0.len() && ord0[k] == j;
                        assert(ord@[k0] == j);
                    }
                }
            }
        }
        i = i + 1;
    }
    ord
}

/// Analyzes an aggregate's declared shape and emits its two transfer plans.
///
/// Succeeds exactly when the shape is a flat named field list in which every
/// paired field's policy requests at least one direction.  On success the
/// plans list, for each direction, exactly the paired fields that opt into
/// it, in declaration order.  A paired field that requests neither direction
/// fails generation with an error naming it; the first such field in
/// declaration order is reported.
#[verifier::loop_isolation(false)]
pub fn generate_sync_plan(shape: &AggregateShape) -> (r: Result<SyncPlan, GenError>)
    ensures
        match r {
            Ok(plan) => {
                &&& shape matches AggregateShape::NamedFields(fields) && {
                    &&& forall|j: int| 0 <= j < fields@.len() ==> field_ok(#[trigger] fields@[j])
                    &&& order_exact(plan.send_order@, selected(fields@, true))
                    &&& order_exact(plan.retrieve_order@, selected(fields@, false))
                }
            },
            Err(e) => {
                match e {
                    GenError::NotAStruct => shape is NotAStruct,
                    GenError::UnnamedFields => shape is UnnamedFields,
                    GenError::RedundantField { index, name } => {
                        &&& shape matches AggregateShape::NamedFields(fields) && {
                            &&& index < fields@.len()
                            &&& !field_ok(fields@[index as int])
                            &&& forall|j: int| 0 <= j < index ==> field_ok(#[trigger] fields@[j])
                            &&& name == fields@[index as int].name
                        }
                    },
                }
            },
        },
{
    let fields = match shape {
        AggregateShape::NamedFields(fields) => fields,
        AggregateShape::UnnamedFields => {
            return Err(GenError::UnnamedFields);
        },
        AggregateShape::NotAStruct => {
            return Err(GenError::NotAStruct);
        },
    };
    let n = fields.len();
    let mut sel_send: Vec<bool> = Vec::new();
    let mut sel_retrieve: Vec<bool> = Vec::new();
    let mut i: usize = 0;
    while i < n
        invariant
            n == fields@.len(),
            i <= n,
            sel_send@.len() == i,
            sel_retrieve@.len() == i,
            forall|j: int| 0 <= j < i ==> field_ok(#[trigger] fields@[j]),
            forall|j: int| 0 <= j < i ==> sel_send@[j] == sends(#[trigger] fields@[j]),
            forall|j: int| 0 <= j < i ==> sel_retrieve@[j] == pulls(#[trigger] fields@[j]),
        decreases n - i,
    {
        let paired = is_paired_type(fields[i].ty.as_str());
        let p = crate::policy::resolve_policy(fields[i].policy);
        if paired && !p.meaningful() {
            return Err(GenError::RedundantField { index: i, name: fields[i].name.clone() });
        }
        sel_send.push(paired && p.push);
        sel_retrieve.push(paired && p.pull);
        i = i + 1;
    }
    let send_order = filter_indices(&sel_send);
    let retrieve_order = filter_indices(&sel_retrieve);
    proof {
        assert(sel_send@ =~= selected(fields@, true));
        assert(sel_retrieve@ =~= selected(fields@, false));
    }
    Ok(SyncPlan { send_order, retrieve_order })
}

} // verus!
