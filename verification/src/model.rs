//! The interface data model shared by all transformation pipelines.
//!
//! An interface is a named, ordered collection of members (methods,
//! associated types, associated constants).  Every piece of host-language
//! syntax that the transformations do not inspect — type expressions,
//! generic parameter lists, method bodies — is carried through as opaque
//! UTF-8 text (`Vec<u8>`), so the rules stay grammar-agnostic: the front
//! end parses source text into this model and serializes it back out.

use vstd::prelude::*;

verus! {

/// The output type of a synthesized `Future` bound: either the unit type
/// (for a method declared without a return type) or a type written in
/// source text.
#[derive(Debug, PartialEq, Eq)]
pub enum FutureOutput {
    Unit,
    Ty(Vec<u8>),
}

/// One bound of an opaque return type or of a capability specification.
///
/// `Path` is a trait bound exactly as it was written in the source.
/// `Future` is the bound `Future<Output = …>` that the variant generator
/// synthesizes when it eliminates asyncness; it never comes from source.
#[derive(Debug, PartialEq, Eq)]
pub enum Bound {
    Path(Vec<u8>),
    Future(FutureOutput),
}

/// A method's return type descriptor.
#[derive(Debug, PartialEq, Eq)]
pub enum Ret {
    /// No declared return type (the unit type).
    Unit,
    /// An explicit return type, carried as source text.
    Explicit(Vec<u8>),
    /// An opaque return type: "produces a value satisfying these bounds",
    /// with the bounds in declaration order.
    Opaque(Vec<Bound>),
}

/// One method parameter.
#[derive(Debug, PartialEq, Eq)]
pub enum Param {
    /// A receiver, carried as source text (for example `&self`).
    Receiver(Vec<u8>),
    /// A parameter bound to a simple name.
    Named { name: Vec<u8>, ty: Vec<u8> },
    /// A parameter bound by any other pattern, carried as source text.
    /// The adapter synthesizer cannot forward such a parameter.
    Pattern { pat: Vec<u8>, ty: Vec<u8> },
}

/// A method's default body.
///
/// `Plain` is a body exactly as written in the source.  `AsyncBlock` is
/// the rewrite the variant generator produces for an asynchronous
/// default: the same source text wrapped in an anonymous asynchronous
/// block, so the default still runs the original logic once per
/// invocation when the returned computation is driven to completion.
#[derive(Debug, PartialEq, Eq)]
pub enum DefaultBody {
    Plain(Vec<u8>),
    AsyncBlock(Vec<u8>),
}

/// A method member of an interface.
#[derive(Debug, PartialEq, Eq)]
pub struct Method {
    pub name: Vec<u8>,
    /// Generic parameter list text, empty when the method has none.
    pub generics: Vec<u8>,
    pub params: Vec<Param>,
    pub is_async: bool,
    pub ret: Ret,
    pub default: Option<DefaultBody>,
}

/// One member of an interface.
#[derive(Debug, PartialEq, Eq)]
pub enum Member {
    Method(Method),
    AssocType { name: Vec<u8>, generics: Vec<u8>, where_clause: Vec<u8>, default: Option<Vec<u8>> },
    AssocConst { name: Vec<u8>, generics: Vec<u8>, ty: Vec<u8> },
    /// A member shape the transformations cannot inspect, carried as raw
    /// source text.  The variant generator copies it unchanged; the
    /// adapter synthesizer rejects it.
    Other(Vec<u8>),
}

/// One predicate of an interface's where-clause.
#[derive(Debug, PartialEq, Eq)]
pub enum Pred {
    /// A predicate exactly as written in the source.
    Verbatim(Vec<u8>),
    /// The predicate "the result of calling `Self::method()` satisfies
    /// `capability`", added by the subtrait generator.
    SelfResult { method: Vec<u8>, capability: Vec<u8> },
}

/// An interface definition: the shared data model of every pipeline.
#[derive(Debug, PartialEq, Eq)]
pub struct Interface {
    pub name: Vec<u8>,
    /// Generic parameter list text, empty when the interface has none.
    pub generics: Vec<u8>,
    pub where_preds: Vec<Pred>,
    /// Supertrait bounds in declaration order; duplicates are allowed.
    pub supertraits: Vec<Vec<u8>>,
    pub members: Vec<Member>,
}

/// A request for one variant interface: its name and the capability
/// bounds to add to every asynchronous or opaque-returning member.
#[derive(Debug, PartialEq, Eq)]
pub struct VariantDecl {
    pub name: Vec<u8>,
    /// The capability bounds, in order; never empty.
    pub bounds: Vec<Vec<u8>>,
}

/// A request for one subtrait: its name and a single capability path.
#[derive(Debug, PartialEq, Eq)]
pub struct SubtraitSpec {
    pub name: Vec<u8>,
    pub capability: Vec<u8>,
}

/// The errors a transformation can report.
#[derive(PartialEq, Eq, Structural, Clone, Copy, Debug)]
pub enum TransformError {
    /// The attribute payload does not match the expected grammar.
    MalformedAttribute,
    /// The interface body could not be parsed by the host grammar.
    MalformedInterface,
    /// A parameter is bound by a pattern other than a simple name.
    UnsupportedPattern,
    /// A member shape the adapter synthesizer cannot forward.
    UnsupportedMemberKind,
}

// ---------------------------------------------------------------------
// Mathematical views
// ---------------------------------------------------------------------

#[verifier::ext_equal]
pub enum FutureOutputV {
    Unit,
    Ty(Seq<u8>),
}

#[verifier::ext_equal]
pub enum BoundV {
    Path(Seq<u8>),
    Future(FutureOutputV),
}

#[verifier::ext_equal]
pub enum RetV {
    Unit,
    Explicit(Seq<u8>),
    Opaque(Seq<BoundV>),
}

#[verifier::ext_equal]
pub enum ParamV {
    Receiver(Seq<u8>),
    Named { name: Seq<u8>, ty: Seq<u8> },
    Pattern { pat: Seq<u8>, ty: Seq<u8> },
}

#[verifier::ext_equal]
pub enum DefaultBodyV {
    Plain(Seq<u8>),
    AsyncBlock(Seq<u8>),
}

#[verifier::ext_equal]
pub struct MethodV {
    pub name: Seq<u8>,
    pub generics: Seq<u8>,
    pub params: Seq<ParamV>,
    pub is_async: bool,
    pub ret: RetV,
    pub default: Option<DefaultBodyV>,
}

#[verifier::ext_equal]
pub enum MemberV {
    Method(MethodV),
    AssocType { name: Seq<u8>, generics: Seq<u8>, where_clause: Seq<u8>, default: Option<Seq<u8>> },
    AssocConst { name: Seq<u8>, generics: Seq<u8>, ty: Seq<u8> },
    Other(Seq<u8>),
}

#[verifier::ext_equal]
pub enum PredV {
    Verbatim(Seq<u8>),
    SelfResult { method: Seq<u8>, capability: Seq<u8> },
}

#[verifier::ext_equal]
pub struct InterfaceV {
    pub name: Seq<u8>,
    pub generics: Seq<u8>,
    pub where_preds: Seq<PredV>,
    pub supertraits: Seq<Seq<u8>>,
    pub members: Seq<MemberV>,
}

#[verifier::ext_equal]
pub struct VariantDeclV {
    pub name: Seq<u8>,
    pub bounds: Seq<Seq<u8>>,
}

#[verifier::ext_equal]
pub struct SubtraitSpecV {
    pub name: Seq<u8>,
    pub capability: Seq<u8>,
}

impl View for FutureOutput {
    type V = FutureOutputV;

    open spec fn view(&self) -> FutureOutputV {
        match self {
            FutureOutput::Unit => FutureOutputV::Unit,
            FutureOutput::Ty(t) => FutureOutputV::Ty(t@),
        }
    }
}

impl DeepView for FutureOutput {
    type V = FutureOutputV;

    open spec fn deep_view(&self) -> FutureOutputV {
        self@
    }
}

impl View for Bound {
    type V = BoundV;

    open spec fn view(&self) -> BoundV {
        match self {
            Bound::Path(t) => BoundV::Path(t@),
            Bound::Future(o) => BoundV::Future(o@),
        }
    }
}

impl DeepView for Bound {
    type V = BoundV;

    open spec fn deep_view(&self) -> BoundV {
        self@
    }
}

impl View for Ret {
    type V = RetV;

    open spec fn view(&self) -> RetV {
        match self {
            Ret::Unit => RetV::Unit,
            Ret::Explicit(t) => RetV::Explicit(t@),
            Ret::Opaque(bs) => RetV::Opaque(bs.deep_view()),
        }
    }
}

impl DeepView for Ret {
    type V = RetV;

    open spec fn deep_view(&self) -> RetV {
        self@
    }
}

impl View for Param {
    type V = ParamV;

    open spec fn view(&self) -> ParamV {
        match self {
            Param::Receiver(t) => ParamV::Receiver(t@),
            Param::Named { name, ty } => ParamV::Named { name: name@, ty: ty@ },
            Param::Pattern { pat, ty } => ParamV::Pattern { pat: pat@, ty: ty@ },
        }
    }
}

impl DeepView for Param {
    type V = ParamV;

    open spec fn deep_view(&self) -> ParamV {
        self@
    }
}

impl View for DefaultBody {
    type V = DefaultBodyV;

    open spec fn view(&self) -> DefaultBodyV {
        match self {
            DefaultBody::Plain(t) => DefaultBodyV::Plain(t@),
            DefaultBody::AsyncBlock(t) => DefaultBodyV::AsyncBlock(t@),
        }
    }
}

impl DeepView for DefaultBody {
    type V = DefaultBodyV;

    open spec fn deep_view(&self) -> DefaultBodyV {
        self@
    }
}

impl View for Method {
    type V = MethodV;

    open spec fn view(&self) -> MethodV {
        MethodV {
            name: self.name@,
            generics: self.generics@,
            params: self.params.deep_view(),
            is_async: self.is_async,
            ret: self.ret@,
            default: self.default.deep_view(),
        }
    }
}

impl DeepView for Method {
    type V = MethodV;

    open spec fn deep_view(&self) -> MethodV {
        self@
    }
}

impl View for Member {
    type V = MemberV;

    open spec fn view(&self) -> MemberV {
        match self {
            Member::Method(f) => MemberV::Method(f@),
            Member::AssocType { name, generics, where_clause, default } => MemberV::AssocType {
                name: name@,
                generics: generics@,
                where_clause: where_clause@,
                default: default.deep_view(),
            },
            Member::AssocConst { name, generics, ty } => MemberV::AssocConst {
                name: name@,
                generics: generics@,
                ty: ty@,
            },
            Member::Other(t) => MemberV::Other(t@),
        }
    }
}

impl DeepView for Member {
    type V = MemberV;

    open spec fn deep_view(&self) -> MemberV {
        self@
    }
}

impl View for Pred {
    type V = PredV;

    open spec fn view(&self) -> PredV {
        match self {
            Pred::Verbatim(t) => PredV::Verbatim(t@),
            Pred::SelfResult { method, capability } => PredV::SelfResult {
                method: method@,
                capability: capability@,
            },
        }
    }
}

impl DeepView for Pred {
    type V = PredV;

    open spec fn deep_view(&self) -> PredV {
        self@
    }
}

impl View for Interface {
    type V = InterfaceV;

    open spec fn view(&self) -> InterfaceV {
        InterfaceV {
            name: self.name@,
            generics: self.generics@,
            where_preds: self.where_preds.deep_view(),
            supertraits: self.supertraits.deep_view(),
            members: self.members.deep_view(),
        }
    }
}

impl DeepView for Interface {
    type V = InterfaceV;

    open spec fn deep_view(&self) -> InterfaceV {
        self@
    }
}

impl View for VariantDecl {
    type V = VariantDeclV;

    open spec fn view(&self) -> VariantDeclV {
        VariantDeclV { name: self.name@, bounds: self.bounds.deep_view() }
    }
}

impl DeepView for VariantDecl {
    type V = VariantDeclV;

    open spec fn deep_view(&self) -> VariantDeclV {
        self@
    }
}

impl View for SubtraitSpec {
    type V = SubtraitSpecV;

    open spec fn view(&self) -> SubtraitSpecV {
        SubtraitSpecV { name: self.name@, capability: self.capability@ }
    }
}

impl DeepView for SubtraitSpec {
    type V = SubtraitSpecV;

    open spec fn deep_view(&self) -> SubtraitSpecV {
        self@
    }
}

// ---------------------------------------------------------------------
// Well-formedness
// ---------------------------------------------------------------------

impl MethodV {
    /// A method as the front end delivers it: asyncness and a structured
    /// opaque return never coexist (an asynchronous method's return type
    /// is carried as text), and its default body, if any, is still the
    /// plain source text.
    pub open spec fn wf(self) -> bool {
        &&& self.is_async ==> !(self.ret is Opaque)
        &&& self.default matches Some(b) ==> b is Plain
    }
}

impl MemberV {
    pub open spec fn wf(self) -> bool {
        match self {
            MemberV::Method(f) => f.wf(),
            _ => true,
        }
    }

    /// The declared name of a member; an uninspectable member has none.
    pub open spec fn name_of(self) -> Seq<u8> {
        match self {
            MemberV::Method(f) => f.name,
            MemberV::AssocType { name, .. } => name,
            MemberV::AssocConst { name, .. } => name,
            MemberV::Other(_) => Seq::empty(),
        }
    }
}

impl InterfaceV {
    pub open spec fn wf(self) -> bool {
        forall|i: int| 0 <= i < self.members.len() ==> (#[trigger] self.members[i]).wf()
    }
}

impl VariantDeclV {
    /// A capability specification is a non-empty list of bounds.
    pub open spec fn wf(self) -> bool {
        self.bounds.len() > 0
    }
}

// ---------------------------------------------------------------------
// Structural duplication
//
// The transformations never mutate their input: they build new entities.
// These helpers produce copies equal to the originals as views.
// ---------------------------------------------------------------------

/// A type whose values can be copied without changing their view.
pub trait Dup: Sized + DeepView {
    fn duplicate(&self) -> (r: Self)
        ensures
            r.deep_view() == self.deep_view(),
    ;
}

impl Dup for Vec<u8> {
    fn duplicate(&self) -> (r: Self)
        ensures
            r.deep_view() == self.deep_view(),
    {
        let r = crate::text::copy_bytes(self);
        assert(r.deep_view() =~= self.deep_view());
        r
    }
}

/// An element-by-element copy of a vector, equal to it as a view.
pub fn copy_vec<T: Dup>(v: &Vec<T>) -> (r: Vec<T>)
    ensures
        r.deep_view() == v.deep_view(),
{
    let mut r: Vec<T> = Vec::new();
    let mut i: usize = 0;
    while i < v.len()
        invariant
            0 <= i <= v.len(),
            r@.len() == i,
            forall|j: int| 0 <= j < i ==> (#[trigger] r@[j].deep_view()) == v.deep_view()[j],
        decreases v.len() - i,
    {
        let ghost rold = r@;
        r.push(v[i].duplicate());
        proof {
            assert forall|j: int| 0 <= j < i + 1 implies (#[trigger] r@[j].deep_view())
                == v.deep_view()[j] by {
                if j < i {
                    assert(r@[j] == rold[j]);
                } else {
                    assert(r@[j].deep_view() == v@[i as int].deep_view());
                }
            }
        }
        i = i + 1;
    }
    proof {
        assert(r.deep_view() =~= v.deep_view());
    }
    r
}

impl Dup for FutureOutput {
    fn duplicate(&self) -> (r: Self)
        ensures
            r.deep_view() == self.deep_view(),
    {
        match self {
            FutureOutput::Unit => FutureOutput::Unit,
            FutureOutput::Ty(t) => FutureOutput::Ty(crate::text::copy_bytes(t)),
        }
    }
}

impl Dup for Bound {
    fn duplicate(&self) -> (r: Self)
        ensures
            r.deep_view() == self.deep_view(),
    {
        match self {
            Bound::Path(t) => Bound::Path(crate::text::copy_bytes(t)),
            Bound::Future(o) => Bound::Future(o.duplicate()),
        }
    }
}

impl Dup for Ret {
    fn duplicate(&self) -> (r: Self)
        ensures
            r.deep_view() == self.deep_view(),
    {
        match self {
            Ret::Unit => Ret::Unit,
            Ret::Explicit(t) => Ret::Explicit(crate::text::copy_bytes(t)),
            Ret::Opaque(bs) => Ret::Opaque(copy_vec(bs)),
        }
    }
}

impl Dup for Param {
    fn duplicate(&self) -> (r: Self)
        ensures
            r.deep_view() == self.deep_view(),
    {
        match self {
            Param::Receiver(t) => Param::Receiver(crate::text::copy_bytes(t)),
            Param::Named { name, ty } => Param::Named {
                name: crate::text::copy_bytes(name),
                ty: crate::text::copy_bytes(ty),
            },
            Param::Pattern { pat, ty } => Param::Pattern {
                pat: crate::text::copy_bytes(pat),
                ty: crate::text::copy_bytes(ty),
            },
        }
    }
}

impl Dup for DefaultBody {
    fn duplicate(&self) -> (r: Self)
        ensures
            r.deep_view() == self.deep_view(),
    {
        match self {
            DefaultBody::Plain(t) => DefaultBody::Plain(crate::text::copy_bytes(t)),
            DefaultBody::AsyncBlock(t) => DefaultBody::AsyncBlock(crate::text::copy_bytes(t)),
        }
    }
}

/// A copy of an optional default body, equal to it as a view.
pub fn copy_default(v: &Option<DefaultBody>) -> (r: Option<DefaultBody>)
    ensures
        r.deep_view() == v.deep_view(),
{
    match v {
        None => None,
        Some(b) => Some(b.duplicate()),
    }
}

/// A copy of an optional text, equal to it as a view.
pub fn copy_opt_bytes(v: &Option<Vec<u8>>) -> (r: Option<Vec<u8>>)
    ensures
        r.deep_view() == v.deep_view(),
{
    match v {
        None => None,
        Some(t) => Some(t.duplicate()),
    }
}

impl Dup for Method {
    fn duplicate(&self) -> (r: Self)
        ensures
            r.deep_view() == self.deep_view(),
    {
        let r = Method {
            name: crate::text::copy_bytes(&self.name),
            generics: crate::text::copy_bytes(&self.generics),
            params: copy_vec(&self.params),
            is_async: self.is_async,
            ret: self.ret.duplicate(),
            default: copy_default(&self.default),
        };
        assert(r@ =~= self@);
        r
    }
}

impl Dup for Member {
    fn duplicate(&self) -> (r: Self)
        ensures
            r.deep_view() == self.deep_view(),
    {
        match self {
            Member::Method(f) => Member::Method(f.duplicate()),
            Member::AssocType { name, generics, where_clause, default } => Member::AssocType {
                name: crate::text::copy_bytes(name),
                generics: crate::text::copy_bytes(generics),
                where_clause: crate::text::copy_bytes(where_clause),
                default: copy_opt_bytes(default),
            },
            Member::AssocConst { name, generics, ty } => Member::AssocConst {
                name: crate::text::copy_bytes(name),
                generics: crate::text::copy_bytes(generics),
                ty: crate::text::copy_bytes(ty),
            },
            Member::Other(t) => Member::Other(crate::text::copy_bytes(t)),
        }
    }
}

impl Dup for Pred {
    fn duplicate(&self) -> (r: Self)
        ensures
            r.deep_view() == self.deep_view(),
    {
        match self {
            Pred::Verbatim(t) => Pred::Verbatim(crate::text::copy_bytes(t)),
            Pred::SelfResult { method, capability } => Pred::SelfResult {
                method: crate::text::copy_bytes(method),
                capability: crate::text::copy_bytes(capability),
            },
        }
    }
}

} // verus!
