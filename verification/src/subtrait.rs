//! The subtrait generator.
//!
//! Given a base interface and a list of (name, capability path) pairs,
//! it produces one new interface per pair: same generics as the base, an
//! empty member list — the subtrait exists purely to carry constraints —
//! supertraits equal to the base's plus the capability path, and, for
//! every method of the base that is asynchronous or returns an opaque
//! type, one added where-clause predicate requiring the result of
//! calling that method to satisfy the capability path.

use vstd::prelude::*;

use crate::model::{
    copy_vec, Dup, Interface, InterfaceV, Member, MemberV, Pred, PredV, SubtraitSpec,
    SubtraitSpecV,
};
use crate::text;

verus! {

/// Whether a member draws a constraint in the subtrait: a method that is
/// asynchronous or returns an opaque bounded type.
pub open spec fn needs_constraint(m: MemberV) -> bool {
    m matches MemberV::Method(f) && (f.is_async || f.ret is Opaque)
}

/// The name of a method member.
pub open spec fn method_name(m: MemberV) -> Seq<u8>
    recommends
        m is Method,
{
    match m {
        MemberV::Method(f) => f.name,
        _ => Seq::empty(),
    }
}

/// The where-clause predicates the subtrait adds: one per constrained
/// member, in member order.
pub open spec fn subtrait_preds(members: Seq<MemberV>, cap: Seq<u8>) -> Seq<PredV>
    decreases members.len(),
{
    if members.len() == 0 {
        Seq::empty()
    } else {
        let rest = subtrait_preds(members.drop_last(), cap);
        if needs_constraint(members.last()) {
            rest + seq![
                PredV::SelfResult { method: method_name(members.last()), capability: cap },
            ]
        } else {
            rest
        }
    }
}

/// One subtrait: the requested name, the base's generics, the base's
/// where-clause followed by the added predicates, the base's supertraits
/// followed by the capability path, and no members.
pub open spec fn subtrait_of(tr: InterfaceV, sp: SubtraitSpecV) -> InterfaceV {
    InterfaceV {
        name: sp.name,
        generics: tr.generics,
        where_preds: tr.where_preds + subtrait_preds(tr.members, sp.capability),
        supertraits: tr.supertraits + seq![sp.capability],
        members: Seq::empty(),
    }
}

/// Builds one subtrait from the base interface and one specification.
pub fn mk_subtrait(tr: &Interface, sp: &SubtraitSpec) -> (r: Interface)
    ensures
        r@ == subtrait_of(tr@, sp@),
{
    let mut supertraits = copy_vec(&tr.supertraits);
    let ghost before = supertraits.deep_view();
    let cap = text::copy_bytes(&sp.capability);
    proof {
        assert(cap.deep_view() =~= sp@.capability);
    }
    supertraits.push(cap);
    proof {
        assert(supertraits.deep_view() =~= before.push(sp@.capability));
        assert(supertraits.deep_view() =~= tr@.supertraits + seq![sp@.capability]);
    }
    let mut preds = copy_vec(&tr.where_preds);
    let mut i: usize = 0;
    while i < tr.members.len()
        invariant
            0 <= i <= tr.members.len(),
            preds.deep_view() == tr@.where_preds + subtrait_preds(
                tr@.members.take(i as int),
                sp@.capability,
            ),
        decreases tr.members.len() - i,
    {
        let ghost prev = preds.deep_view();
        let needed: bool = match &tr.members[i] {
            Member::Method(f) => {
                if f.is_async {
                    true
                } else {
                    match &f.ret {
                        crate::model::Ret::Opaque(_) => true,
                        _ => false,
                    }
                }
            },
            _ => false,
        };
        proof {
            assert(tr@.members[i as int] == tr.members@[i as int]@);
            assert(needed == needs_constraint(tr@.members[i as int]));
            assert(tr@.members.take(i + 1).drop_last() =~= tr@.members.take(i as int));
            assert(tr@.members.take(i + 1).last() == tr@.members[i as int]);
        }
        if needed {
            let name: Vec<u8> = match &tr.members[i] {
                Member::Method(f) => text::copy_bytes(&f.name),
                _ => Vec::new(),
            };
            preds.push(Pred::SelfResult { method: name, capability: text::copy_bytes(&sp.capability) });
            proof {
                assert(preds.deep_view() =~= prev.push(
                    PredV::SelfResult {
                        method: method_name(tr@.members[i as int]),
                        capability: sp@.capability,
                    },
                ));
                assert(preds.deep_view() =~= tr@.where_preds + subtrait_preds(
                    tr@.members.take(i + 1),
                    sp@.capability,
                ));
            }
        } else {
            proof {
                assert(subtrait_preds(tr@.members.take(i + 1), sp@.capability) == subtrait_preds(
                    tr@.members.take(i as int),
                    sp@.capability,
                ));
            }
        }
        i = i + 1;
    }
    proof {
        assert(tr@.members.take(tr.members@.len() as int) =~= tr@.members);
    }
    let r = Interface {
        name: text::copy_bytes(&sp.name),
        generics: text::copy_bytes(&tr.generics),
        where_preds: preds,
        supertraits,
        members: Vec::new(),
    };
    proof {
        assert(r@.members =~= Seq::<MemberV>::empty());
        assert(r@ =~= subtrait_of(tr@, sp@));
    }
    r
}

/// Builds every requested subtrait, in request order.
pub fn transform_trait(tr: &Interface, specs: &Vec<SubtraitSpec>) -> (r: Vec<Interface>)
    ensures
        r.deep_view() == specs.deep_view().map_values(|sp: SubtraitSpecV| subtrait_of(tr@, sp)),
        r@.len() == specs@.len(),
{
    let mut r: Vec<Interface> = Vec::new();
    let mut i: usize = 0;
    while i < specs.len()
        invariant
            0 <= i <= specs.len(),
            r@.len() == i,
            r.deep_view() == specs.deep_view().take(i as int).map_values(
                |sp: SubtraitSpecV| subtrait_of(tr@, sp),
            ),
        decreases specs.len() - i,
    {
        let ghost prev = r.deep_view();
        r.push(mk_subtrait(tr, &specs[i]));
        proof {
            assert(specs.deep_view()[i as int] == specs@[i as int]@);
            assert(r.deep_view() =~= prev.push(subtrait_of(tr@, specs.deep_view()[i as int])));
            assert(r.deep_view() =~= specs.deep_view().take(i + 1).map_values(
                |sp: SubtraitSpecV| subtrait_of(tr@, sp),
            ));
        }
        i = i + 1;
    }
    proof {
        assert(specs.deep_view().take(specs@.len() as int) =~= specs.deep_view());
    }
    r
}

} // verus!
