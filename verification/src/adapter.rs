//! The adapter synthesizer.
//!
//! Given the original interface and the name of a variant, it emits a
//! blanket implementation of the original for every type implementing
//! the variant: exactly one forwarding entry per member of the original,
//! in the original order.
//!
//! * an associated constant forwards to the variant's constant of the
//!   same name;
//! * an associated type forwards to the variant's type of the same name,
//!   with the original generic parameters and where-clause;
//! * a method keeps its original signature — asyncness included — and
//!   its body calls the variant's method of the same name, passing every
//!   parameter along by its name and awaiting the call if the original
//!   was asynchronous.  A parameter bound by a pattern other than a
//!   simple name cannot be forwarded: that argument position carries an
//!   `UnsupportedPattern` diagnostic, while every other member is still
//!   synthesized.
//!
//! A member shape outside those three kinds is a fatal
//! `UnsupportedMemberKind` error for the whole synthesis.

use vstd::prelude::*;

use crate::model::{Dup, Interface, Member, MemberV, Method, MethodV, TransformError};
use crate::text;

verus! {

/// The expression forwarded for one parameter of a method.
#[derive(Debug, PartialEq, Eq)]
pub enum ArgExpr {
    /// The receiver, forwarded as the implementing value itself.
    SelfArg,
    /// A parameter bound to a simple name, forwarded by that name.
    Name(Vec<u8>),
    /// A parameter bound by any other pattern: an `UnsupportedPattern`
    /// diagnostic attached to this argument position, carrying the
    /// pattern text.
    Unsupported(Vec<u8>),
}

#[verifier::ext_equal]
pub enum ArgExprV {
    SelfArg,
    Name(Seq<u8>),
    Unsupported(Seq<u8>),
}

impl View for ArgExpr {
    type V = ArgExprV;

    open spec fn view(&self) -> ArgExprV {
        match self {
            ArgExpr::SelfArg => ArgExprV::SelfArg,
            ArgExpr::Name(t) => ArgExprV::Name(t@),
            ArgExpr::Unsupported(t) => ArgExprV::Unsupported(t@),
        }
    }
}

impl DeepView for ArgExpr {
    type V = ArgExprV;

    open spec fn deep_view(&self) -> ArgExprV {
        self@
    }
}

/// One forwarding entry of the blanket implementation.
#[derive(Debug, PartialEq, Eq)]
pub enum ForwardEntry {
    /// `const name generics: ty = <Self as Variant>::name;`
    Const { name: Vec<u8>, generics: Vec<u8>, ty: Vec<u8> },
    /// `type name<generics> = <Self as Variant>::name<generics> where_clause;`
    Type { name: Vec<u8>, generics: Vec<u8>, where_clause: Vec<u8> },
    /// The original signature, with a body that calls
    /// `<Self as Variant>::name(args…)`, awaited when `method.is_async`.
    Method { method: Method, args: Vec<ArgExpr> },
}

#[verifier::ext_equal]
pub enum ForwardEntryV {
    Const { name: Seq<u8>, generics: Seq<u8>, ty: Seq<u8> },
    Type { name: Seq<u8>, generics: Seq<u8>, where_clause: Seq<u8> },
    Method { method: MethodV, args: Seq<ArgExprV> },
}

impl View for ForwardEntry {
    type V = ForwardEntryV;

    open spec fn view(&self) -> ForwardEntryV {
        match self {
            ForwardEntry::Const { name, generics, ty } => ForwardEntryV::Const {
                name: name@,
                generics: generics@,
                ty: ty@,
            },
            ForwardEntry::Type { name, generics, where_clause } => ForwardEntryV::Type {
                name: name@,
                generics: generics@,
                where_clause: where_clause@,
            },
            ForwardEntry::Method { method, args } => ForwardEntryV::Method {
                method: method@,
                args: args.deep_view(),
            },
        }
    }
}

impl DeepView for ForwardEntry {
    type V = ForwardEntryV;

    open spec fn deep_view(&self) -> ForwardEntryV {
        self@
    }
}

/// The blanket implementation:
/// `impl<T> InterfaceName for T where T: VariantName { entries… }`.
#[derive(Debug, PartialEq, Eq)]
pub struct Adapter {
    pub interface_name: Vec<u8>,
    pub variant_name: Vec<u8>,
    pub entries: Vec<ForwardEntry>,
}

#[verifier::ext_equal]
pub struct AdapterV {
    pub interface_name: Seq<u8>,
    pub variant_name: Seq<u8>,
    pub entries: Seq<ForwardEntryV>,
}

impl View for Adapter {
    type V = AdapterV;

    open spec fn view(&self) -> AdapterV {
        AdapterV {
            interface_name: self.interface_name@,
            variant_name: self.variant_name@,
            entries: self.entries.deep_view(),
        }
    }
}

impl DeepView for Adapter {
    type V = AdapterV;

    open spec fn deep_view(&self) -> AdapterV {
        self@
    }
}

/// How one parameter is forwarded.
pub open spec fn arg_of(p: crate::model::ParamV) -> ArgExprV {
    match p {
        crate::model::ParamV::Receiver(_) => ArgExprV::SelfArg,
        crate::model::ParamV::Named { name, ty: _ } => ArgExprV::Name(name),
        crate::model::ParamV::Pattern { pat, ty: _ } => ArgExprV::Unsupported(pat),
    }
}

/// Whether the synthesizer can forward this member shape at all.
pub open spec fn member_supported(m: MemberV) -> bool {
    !(m is Other)
}

/// The forwarding entry for one supported member.
pub open spec fn entry_of(m: MemberV) -> ForwardEntryV
    recommends
        member_supported(m),
{
    match m {
        MemberV::Method(f) => ForwardEntryV::Method {
            method: f,
            args: f.params.map_values(|p: crate::model::ParamV| arg_of(p)),
        },
        MemberV::AssocType { name, generics, where_clause, default: _ } => ForwardEntryV::Type {
            name,
            generics,
            where_clause,
        },
        MemberV::AssocConst { name, generics, ty } => ForwardEntryV::Const { name, generics, ty },
        MemberV::Other(_) => ForwardEntryV::Const {
            name: Seq::empty(),
            generics: Seq::empty(),
            ty: Seq::empty(),
        },
    }
}

/// The name a forwarding entry forwards to.
pub open spec fn entry_name(e: ForwardEntryV) -> Seq<u8> {
    match e {
        ForwardEntryV::Const { name, .. } => name,
        ForwardEntryV::Type { name, .. } => name,
        ForwardEntryV::Method { method, .. } => method.name,
    }
}

/// The whole blanket implementation, defined when every member is
/// supported: one entry per member of the original, in order.
pub open spec fn adapter_spec(tr: crate::model::InterfaceV, variant_name: Seq<u8>) -> AdapterV {
    AdapterV {
        interface_name: tr.name,
        variant_name,
        entries: tr.members.map_values(|m: MemberV| entry_of(m)),
    }
}

/// Synthesizes the forwarding entry for one member.
pub fn blanket_impl_item(item: &Member) -> (r: Result<ForwardEntry, TransformError>)
    ensures
        r is Ok <==> member_supported(item@),
        r matches Ok(e) ==> e@ == entry_of(item@),
        r matches Err(e) ==> e == TransformError::UnsupportedMemberKind,
{
    match item {
        Member::Method(f) => {
            let mut args: Vec<ArgExpr> = Vec::new();
            let mut i: usize = 0;
            while i < f.params.len()
                invariant
                    0 <= i <= f.params.len(),
                    args.deep_view() == f.params.deep_view().take(i as int).map_values(
                        |p: crate::model::ParamV| arg_of(p),
                    ),
                decreases f.params.len() - i,
            {
                let ghost prev = args.deep_view();
                let a: ArgExpr = match &f.params[i] {
                    crate::model::Param::Receiver(_) => ArgExpr::SelfArg,
                    crate::model::Param::Named { name, ty: _ } => ArgExpr::Name(
                        text::copy_bytes(name),
                    ),
                    crate::model::Param::Pattern { pat, ty: _ } => ArgExpr::Unsupported(
                        text::copy_bytes(pat),
                    ),
                };
                args.push(a);
                proof {
                    assert(f.params.deep_view()[i as int] == f.params@[i as int]@);
                    assert(args.deep_view() =~= prev.push(arg_of(f.params.deep_view()[i as int])));
                    assert(args.deep_view() =~= f.params.deep_view().take(i + 1).map_values(
                        |p: crate::model::ParamV| arg_of(p),
                    ));
                }
                i = i + 1;
            }
            proof {
                assert(f.params.deep_view().take(f.params@.len() as int) =~= f.params.deep_view());
            }
            let entry = ForwardEntry::Method { method: f.duplicate(), args };
            proof {
                assert(entry@ =~= entry_of(item@));
            }
            Ok(entry)
        },
        Member::AssocType { name, generics, where_clause, default: _ } => Ok(
            ForwardEntry::Type {
                name: text::copy_bytes(name),
                generics: text::copy_bytes(generics),
                where_clause: text::copy_bytes(where_clause),
            },
        ),
        Member::AssocConst { name, generics, ty } => Ok(
            ForwardEntry::Const {
                name: text::copy_bytes(name),
                generics: text::copy_bytes(generics),
                ty: text::copy_bytes(ty),
            },
        ),
        Member::Other(_) => Err(TransformError::UnsupportedMemberKind),
    }
}

/// Whether a forwarding entry carries an `UnsupportedPattern`
/// diagnostic at some argument position.
pub open spec fn entry_has_pattern_error(e: ForwardEntryV) -> bool {
    e matches ForwardEntryV::Method { method: _, args } && exists|j: int|
        0 <= j < args.len() && (#[trigger] args[j]) is Unsupported
}

/// The diagnostic a forwarding entry surfaces at its call site:
/// `UnsupportedPattern` exactly when some parameter of the method is
/// bound by a pattern other than a simple name.
pub fn entry_diagnostic(e: &ForwardEntry) -> (r: Option<TransformError>)
    ensures
        r is Some <==> entry_has_pattern_error(e@),
        r matches Some(t) ==> t == TransformError::UnsupportedPattern,
{
    match e {
        ForwardEntry::Method { method, args } => {
            let mut i: usize = 0;
            while i < args.len()
                invariant
                    0 <= i <= args.len(),
                    e@ == (ForwardEntryV::Method { method: method@, args: args.deep_view() }),
                    forall|j: int| 0 <= j < i ==> !((#[trigger] args.deep_view()[j]) is Unsupported),
                decreases args.len() - i,
            {
                let bad = match &args[i] {
                    ArgExpr::Unsupported(_) => true,
                    _ => false,
                };
                proof {
                    assert(args.deep_view()[i as int] == args@[i as int]@);
                }
                if bad {
                    proof {
                        assert(0 <= i < args.deep_view().len() && (#[trigger] args.deep_view()[
                            i as int
                        ]) is Unsupported);
                        assert(e@ == (ForwardEntryV::Method {
                            method: method@,
                            args: args.deep_view(),
                        }));
                        assert(entry_has_pattern_error(e@));
                    }
                    return Some(TransformError::UnsupportedPattern);
                }
                i = i + 1;
            }
            None
        },
        _ => None,
    }
}

/// Synthesizes the whole blanket implementation: one forwarding entry
/// per member of the original interface, in the original order, or an
/// `UnsupportedMemberKind` error if any member shape cannot be
/// forwarded.
pub fn mk_blanket_impl(tr: &Interface, variant_name: &Vec<u8>) -> (r: Result<
    Adapter,
    TransformError,
>)
    ensures
        r is Ok <==> (forall|i: int|
            0 <= i < tr@.members.len() ==> member_supported(#[trigger] tr@.members[i])),
        r matches Ok(a) ==> a@ == adapter_spec(tr@, variant_name@),
        r matches Err(e) ==> e == TransformError::UnsupportedMemberKind,
{
    let mut entries: Vec<ForwardEntry> = Vec::new();
    let mut i: usize = 0;
    while i < tr.members.len()
        invariant
            0 <= i <= tr.members.len(),
            forall|j: int| 0 <= j < i ==> member_supported(#[trigger] tr@.members[j]),
            entries.deep_view() == tr@.members.take(i as int).map_values(
                |m: MemberV| entry_of(m),
            ),
        decreases tr.members.len() - i,
    {
        let ghost prev = entries.deep_view();
        let e = blanket_impl_item(&tr.members[i]);
        proof {
            assert(tr@.members[i as int] == tr.members@[i as int]@);
        }
        match e {
            Ok(entry) => {
                entries.push(entry);
                proof {
                    assert(entries.deep_view() =~= prev.push(entry_of(tr@.members[i as int])));
                    assert(entries.deep_view() =~= tr@.members.take(i + 1).map_values(
                        |m: MemberV| entry_of(m),
                    ));
                }
                i = i + 1;
            },
            Err(err) => {
                return Err(err);
            },
        }
    }
    proof {
        assert(tr@.members.take(tr.members@.len() as int) =~= tr@.members);
    }
    let a = Adapter {
        interface_name: text::copy_bytes(&tr.name),
        variant_name: text::copy_bytes(variant_name),
        entries,
    };
    proof {
        assert(a@ =~= adapter_spec(tr@, variant_name@));
    }
    Ok(a)
}

} // verus!
