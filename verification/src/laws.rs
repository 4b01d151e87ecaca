//! The laws of the transformations, stated over the specifications that
//! the executable functions are proved to implement.

use vstd::prelude::*;

use crate::adapter::{adapter_spec, arg_of, entry_name, ForwardEntryV};
use crate::model::{BoundV, InterfaceV, MemberV, VariantDeclV};
use crate::variant::{caps_as_bounds, future_output_of, transform_member_spec, variant_spec};

verus! {

/// The variant of an interface has exactly as many members as the
/// interface, and the adapter has exactly one forwarding entry per
/// member of the interface.
pub proof fn lemma_member_count(tr: InterfaceV, decl: VariantDeclV, variant_name: Seq<u8>)
    ensures
        variant_spec(tr, decl).members.len() == tr.members.len(),
        adapter_spec(tr, variant_name).entries.len() == tr.members.len(),
{
}

/// Member order is preserved: at every position, the variant's member
/// and the adapter's forwarding entry arise from the interface's member
/// at that same position, and carry its name.
pub proof fn lemma_order_preservation(
    tr: InterfaceV,
    decl: VariantDeclV,
    variant_name: Seq<u8>,
    i: int,
)
    requires
        0 <= i < tr.members.len(),
    ensures
        variant_spec(tr, decl).members[i] == transform_member_spec(tr.members[i], decl.bounds),
        variant_spec(tr, decl).members[i].name_of() == tr.members[i].name_of(),
        adapter_spec(tr, variant_name).entries[i] == crate::adapter::entry_of(tr.members[i]),
        entry_name(adapter_spec(tr, variant_name).entries[i]) == tr.members[i].name_of(),
{
}

/// Bound monotonicity: an asynchronous or opaque-returning method of the
/// interface becomes an opaque-returning method of the variant whose
/// bound list starts with everything it had before — the opaque bounds
/// as they were, or the synthesized `Future` bound in place of the
/// eliminated asyncness — and ends with exactly the capability bounds,
/// appended in order, never prepended.
pub proof fn lemma_bound_monotonicity(tr: InterfaceV, decl: VariantDeclV, i: int)
    requires
        0 <= i < tr.members.len(),
        tr.members[i].wf(),
    ensures
        tr.members[i] matches MemberV::Method(f) ==> (f.is_async || f.ret is Opaque) ==> ({
            let before = if f.is_async {
                seq![BoundV::Future(future_output_of(f.ret))]
            } else {
                f.ret->Opaque_0
            };
            let after = variant_spec(tr, decl).members[i]->Method_0.ret;
            &&& variant_spec(tr, decl).members[i] is Method
            &&& after is Opaque
            &&& after->Opaque_0 == before + caps_as_bounds(decl.bounds)
            &&& after->Opaque_0.take(before.len() as int) == before
            &&& after->Opaque_0.skip(before.len() as int) == caps_as_bounds(decl.bounds)
        }),
{
    match tr.members[i] {
        MemberV::Method(f) => {
            if f.is_async || f.ret is Opaque {
                let before = if f.is_async {
                    seq![BoundV::Future(future_output_of(f.ret))]
                } else {
                    f.ret->Opaque_0
                };
                let after = variant_spec(tr, decl).members[i]->Method_0.ret;
                assert(after->Opaque_0 == before + caps_as_bounds(decl.bounds));
                assert(after->Opaque_0.take(before.len() as int) =~= before);
                assert(after->Opaque_0.skip(before.len() as int) =~= caps_as_bounds(decl.bounds));
            }
        },
        _ => {},
    }
}

/// Asyncness is eliminated, never kept alongside the synthesized
/// `Future`-bounded return: no method of a variant interface carries the
/// asyncness flag.
pub proof fn lemma_variant_eliminates_asyncness(tr: InterfaceV, decl: VariantDeclV, i: int)
    requires
        0 <= i < tr.members.len(),
    ensures
        variant_spec(tr, decl).members[i] matches MemberV::Method(g) ==> !g.is_async,
{
}

/// Idempotence on non-matching members: a member that is neither an
/// asynchronous method nor an opaque-returning method is identical
/// between the interface and its variant.
pub proof fn lemma_idempotence_on_plain(tr: InterfaceV, decl: VariantDeclV, i: int)
    requires
        0 <= i < tr.members.len(),
        !(tr.members[i] matches MemberV::Method(f) && (f.is_async || f.ret is Opaque)),
    ensures
        variant_spec(tr, decl).members[i] == tr.members[i],
{
}

/// Round-trip shape of the adapter: the forwarding entry for a method
/// member keeps the original signature — asyncness included — and hands
/// every parameter along in order, the receiver as the implementing
/// value itself and each simple name by that name, to the variant's
/// method of the same name, awaited exactly when the original is
/// asynchronous.  A host language that resolves the call through the
/// variant therefore observes, through the adapter, each original
/// method as one direct call of the corresponding variant method.
pub proof fn lemma_adapter_round_trip(tr: InterfaceV, variant_name: Seq<u8>, i: int)
    requires
        0 <= i < tr.members.len(),
        tr.members[i] is Method,
    ensures
        adapter_spec(tr, variant_name).variant_name == variant_name,
        adapter_spec(tr, variant_name).interface_name == tr.name,
        tr.members[i] matches MemberV::Method(f) ==> ({
            let e = adapter_spec(tr, variant_name).entries[i];
            &&& e matches ForwardEntryV::Method { method, args }
            &&& method == f
            &&& method.is_async == f.is_async
            &&& method.name == f.name
            &&& args.len() == f.params.len()
            &&& forall|j: int| 0 <= j < args.len() ==> args[j] == arg_of(f.params[j])
        }),
{
}

} // verus!
