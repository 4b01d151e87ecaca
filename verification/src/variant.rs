//! The variant generator.
//!
//! Given an interface and a variant declaration, it produces a new
//! interface carrying the declared name whose supertraits are the
//! original's followed by the capability bounds, and whose members are
//! the original's, in order, rewritten one by one:
//!
//! * an asynchronous method loses its asyncness flag and returns an
//!   opaque type bounded by `Future<Output = original-return-or-unit>`
//!   followed by the capability bounds; a default body is wrapped in an
//!   anonymous asynchronous block so it still runs the original logic;
//! * a non-asynchronous method that already returns an opaque type gets
//!   the capability bounds appended to its bound list;
//! * every other member is copied unchanged.

use vstd::prelude::*;

use crate::model::{
    copy_default, copy_vec, Bound, BoundV, DefaultBody, DefaultBodyV, Dup, FutureOutput,
    FutureOutputV, Interface, InterfaceV, Member, MemberV, Method, MethodV, Ret, RetV,
    VariantDecl, VariantDeclV,
};
use crate::text;

verus! {

/// Capability bounds, as they appear when appended to a bound list.
pub open spec fn caps_as_bounds(caps: Seq<Seq<u8>>) -> Seq<BoundV> {
    caps.map_values(|c: Seq<u8>| BoundV::Path(c))
}

/// The output type of the synthesized `Future` bound: the method's
/// declared return type, or the unit type when it declares none.
pub open spec fn future_output_of(r: RetV) -> FutureOutputV {
    match r {
        RetV::Unit => FutureOutputV::Unit,
        RetV::Explicit(t) => FutureOutputV::Ty(t),
        RetV::Opaque(_) => FutureOutputV::Unit,
    }
}

/// A default body after asyncness is eliminated: the same source text,
/// wrapped in an anonymous asynchronous block.
pub open spec fn wrap_default(d: Option<DefaultBodyV>) -> Option<DefaultBodyV> {
    match d {
        Option::None => Option::None,
        Option::Some(DefaultBodyV::Plain(t)) => Option::Some(DefaultBodyV::AsyncBlock(t)),
        Option::Some(DefaultBodyV::AsyncBlock(t)) => Option::Some(DefaultBodyV::AsyncBlock(t)),
    }
}

/// The per-member rewrite rule of the variant generator.
pub open spec fn transform_member_spec(m: MemberV, caps: Seq<Seq<u8>>) -> MemberV {
    match m {
        MemberV::Method(f) => {
            if f.is_async {
                MemberV::Method(
                    MethodV {
                        name: f.name,
                        generics: f.generics,
                        params: f.params,
                        is_async: false,
                        ret: RetV::Opaque(
                            seq![BoundV::Future(future_output_of(f.ret))] + caps_as_bounds(caps),
                        ),
                        default: wrap_default(f.default),
                    },
                )
            } else {
                match f.ret {
                    RetV::Opaque(bs) => MemberV::Method(
                        MethodV {
                            name: f.name,
                            generics: f.generics,
                            params: f.params,
                            is_async: false,
                            ret: RetV::Opaque(bs + caps_as_bounds(caps)),
                            default: f.default,
                        },
                    ),
                    _ => m,
                }
            }
        },
        _ => m,
    }
}

/// The whole variant interface: the declared name, the original's
/// generics and where-clause verbatim, the original's supertraits
/// followed by the capability bounds, and the rewritten members in the
/// original order.
pub open spec fn variant_spec(tr: InterfaceV, decl: VariantDeclV) -> InterfaceV {
    InterfaceV {
        name: decl.name,
        generics: tr.generics,
        where_preds: tr.where_preds,
        supertraits: tr.supertraits + decl.bounds,
        members: tr.members.map_values(|m: MemberV| transform_member_spec(m, decl.bounds)),
    }
}

/// Appends every capability bound, in order, to a bound list.
fn push_caps(bounds: &mut Vec<Bound>, caps: &Vec<Vec<u8>>)
    ensures
        final(bounds).deep_view() == old(bounds).deep_view() + caps_as_bounds(caps.deep_view()),
{
    let mut i: usize = 0;
    while i < caps.len()
        invariant
            0 <= i <= caps.len(),
            bounds.deep_view() == old(bounds).deep_view() + caps_as_bounds(
                caps.deep_view().take(i as int),
            ),
        decreases caps.len() - i,
    {
        let ghost prev = bounds.deep_view();
        bounds.push(Bound::Path(text::copy_bytes(&caps[i])));
        proof {
            assert(caps.deep_view()[i as int] == caps@[i as int].deep_view());
            assert(caps.deep_view()[i as int] =~= caps@[i as int]@);
            assert(bounds.deep_view() =~= prev.push(BoundV::Path(caps.deep_view()[i as int])));
            assert(bounds.deep_view() =~= old(bounds).deep_view() + caps_as_bounds(
                caps.deep_view().take(i + 1),
            ));
        }
        i = i + 1;
    }
    proof {
        assert(caps.deep_view().take(caps@.len() as int) =~= caps.deep_view());
    }
}

/// Rewrites one member according to the variant rule.
pub fn transform_item(item: &Member, caps: &Vec<Vec<u8>>) -> (r: Member)
    requires
        item@.wf(),
    ensures
        r@ == transform_member_spec(item@, caps.deep_view()),
{
    match item {
        Member::Method(f) => {
            if f.is_async {
                let out: FutureOutput = match &f.ret {
                    Ret::Unit => FutureOutput::Unit,
                    Ret::Explicit(t) => FutureOutput::Ty(text::copy_bytes(t)),
                    Ret::Opaque(_) => FutureOutput::Unit,
                };
                let mut bounds: Vec<Bound> = Vec::new();
                bounds.push(Bound::Future(out));
                push_caps(&mut bounds, caps);
                let default: Option<DefaultBody> = match &f.default {
                    Option::None => Option::None,
                    Option::Some(DefaultBody::Plain(t)) => Option::Some(
                        DefaultBody::AsyncBlock(text::copy_bytes(t)),
                    ),
                    Option::Some(DefaultBody::AsyncBlock(t)) => Option::Some(
                        DefaultBody::AsyncBlock(text::copy_bytes(t)),
                    ),
                };
                let m = Method {
                    name: text::copy_bytes(&f.name),
                    generics: text::copy_bytes(&f.generics),
                    params: copy_vec(&f.params),
                    is_async: false,
                    ret: Ret::Opaque(bounds),
                    default,
                };
                let r = Member::Method(m);
                proof {
                    assert(r@ =~= transform_member_spec(item@, caps.deep_view()));
                }
                r
            } else {
                match &f.ret {
                    Ret::Opaque(bs) => {
                        let mut bounds = copy_vec(bs);
                        push_caps(&mut bounds, caps);
                        let m = Method {
                            name: text::copy_bytes(&f.name),
                            generics: text::copy_bytes(&f.generics),
                            params: copy_vec(&f.params),
                            is_async: false,
                            ret: Ret::Opaque(bounds),
                            default: copy_default(&f.default),
                        };
                        let r = Member::Method(m);
                        proof {
                            assert(r@ =~= transform_member_spec(item@, caps.deep_view()));
                        }
                        r
                    },
                    _ => item.duplicate(),
                }
            }
        },
        _ => item.duplicate(),
    }
}

/// Builds the variant interface for a declaration.
pub fn mk_variant(tr: &Interface, decl: &VariantDecl) -> (v: Interface)
    requires
        tr@.wf(),
        decl@.wf(),
    ensures
        v@ == variant_spec(tr@, decl@),
{
    let mut supertraits = copy_vec(&tr.supertraits);
    let mut i: usize = 0;
    while i < decl.bounds.len()
        invariant
            0 <= i <= decl.bounds.len(),
            supertraits.deep_view() == tr@.supertraits + decl@.bounds.take(i as int),
        decreases decl.bounds.len() - i,
    {
        let ghost prev = supertraits.deep_view();
        supertraits.push(text::copy_bytes(&decl.bounds[i]));
        proof {
            assert(supertraits.deep_view() =~= prev.push(decl@.bounds[i as int]));
            assert(supertraits.deep_view() =~= tr@.supertraits + decl@.bounds.take(i + 1));
        }
        i = i + 1;
    }
    proof {
        assert(decl@.bounds.take(decl.bounds@.len() as int) =~= decl@.bounds);
    }
    let mut members: Vec<Member> = Vec::new();
    let mut k: usize = 0;
    while k < tr.members.len()
        invariant
            0 <= k <= tr.members.len(),
            tr@.wf(),
            members.deep_view() == tr@.members.take(k as int).map_values(
                |m: MemberV| transform_member_spec(m, decl@.bounds),
            ),
        decreases tr.members.len() - k,
    {
        let ghost prev = members.deep_view();
        assert(tr@.members[k as int].wf());
        members.push(transform_item(&tr.members[k], &decl.bounds));
        proof {
            assert(members.deep_view() =~= prev.push(
                transform_member_spec(tr@.members[k as int], decl@.bounds),
            ));
            assert(members.deep_view() =~= tr@.members.take(k + 1).map_values(
                |m: MemberV| transform_member_spec(m, decl@.bounds),
            ));
        }
        k = k + 1;
    }
    proof {
        assert(tr@.members.take(tr.members@.len() as int) =~= tr@.members);
    }
    let v = Interface {
        name: text::copy_bytes(&decl.name),
        generics: text::copy_bytes(&tr.generics),
        where_preds: copy_vec(&tr.where_preds),
        supertraits,
        members,
    };
    proof {
        assert(v@ =~= variant_spec(tr@, decl@));
    }
    v
}

// ---------------------------------------------------------------------
// The asynchronous-method lint concession
// ---------------------------------------------------------------------

/// The identifier `Send` as bytes.
pub open spec fn send_ident() -> Seq<u8> {
    seq![83u8, 101u8, 110u8, 100u8]
}

/// The identifier of the last path segment of a bound written as text:
/// the identifier characters that follow the final `::`.
pub open spec fn last_segment_ident(s: Seq<u8>) -> Seq<u8> {
    let st = text::last_segment_start(s, s.len() as int);
    s.subrange(st, text::ident_end(s, st))
}

/// Whether a bound's last path segment is the thread-safety marker
/// `Send`, which makes the emitted original interface carry a concession
/// for the host lint against asynchronous interface methods.
pub open spec fn is_send_bound(s: Seq<u8>) -> bool {
    last_segment_ident(s) == send_ident()
}

/// Whether any capability bound of the declaration names `Send` as its
/// last path segment.
pub fn wants_allow_async_lint(decl: &VariantDecl) -> (r: bool)
    ensures
        r == exists|k: int|
            0 <= k < decl@.bounds.len() && is_send_bound(#[trigger] decl@.bounds[k]),
{
    let mut i: usize = 0;
    while i < decl.bounds.len()
        invariant
            0 <= i <= decl.bounds.len(),
            forall|k: int| 0 <= k < i ==> !is_send_bound(#[trigger] decl@.bounds[k]),
        decreases decl.bounds.len() - i,
    {
        let hit = bound_is_send(&decl.bounds[i]);
        proof {
            assert(decl@.bounds[i as int] == decl.bounds@[i as int]@);
        }
        if hit {
            return true;
        }
        i = i + 1;
    }
    false
}

/// Whether this one bound names `Send` as its last path segment.
pub fn bound_is_send(b: &Vec<u8>) -> (r: bool)
    ensures
        r == is_send_bound(b@),
{
    let s: &[u8] = b.as_slice();
    let n: usize = s.len();
    let mut i: usize = n;
    loop
        invariant
            0 <= i <= n,
            n == s@.len(),
            s@ == b@,
            text::last_segment_start(s@, n as int) == text::last_segment_start(s@, i as int),
        ensures
            0 <= i <= n,
            i == text::last_segment_start(s@, n as int),
        decreases i,
    {
        if i <= 1 {
            proof {
                assert(text::last_segment_start(s@, i as int) == 0);
            }
            i = 0;
            break;
        }
        let a: u8 = *vstd::slice::slice_index_get(s, i - 1);
        let c: u8 = *vstd::slice::slice_index_get(s, i - 2);
        if a == text::COLON && c == text::COLON {
            break;
        }
        i = i - 1;
    }
    let st = i;
    let mut e: usize = st;
    loop
        invariant
            st <= e <= n,
            n == s@.len(),
            s@ == b@,
            text::ident_end(s@, st as int) == text::ident_end(s@, e as int),
        ensures
            st <= e <= n,
            e == text::ident_end(s@, st as int),
        decreases n - e,
    {
        if e >= n {
            break;
        }
        let c: u8 = *vstd::slice::slice_index_get(s, e);
        if !(((97 <= c && c <= 122) || (65 <= c && c <= 90) || c == 95) || (48 <= c && c <= 57)) {
            break;
        }
        e = e + 1;
    }
    if e - st != 4 {
        proof {
            assert(last_segment_ident(b@).len() != 4);
            assert(send_ident().len() == 4);
        }
        return false;
    }
    let c0: u8 = *vstd::slice::slice_index_get(s, st);
    let c1: u8 = *vstd::slice::slice_index_get(s, st + 1);
    let c2: u8 = *vstd::slice::slice_index_get(s, st + 2);
    let c3: u8 = *vstd::slice::slice_index_get(s, st + 3);
    let r = c0 == 83 && c1 == 101 && c2 == 110 && c3 == 100;
    proof {
        let seg = last_segment_ident(b@);
        assert(seg.len() == 4);
        assert(seg[0] == s@[st as int] && seg[1] == s@[st + 1] && seg[2] == s@[st + 2] && seg[3]
            == s@[st + 3]);
        if r {
            assert(seg =~= send_ident());
        } else {
            assert(seg != send_ident());
        }
    }
    r
}

} // verus!
