use trait_variant::model::{
    Bound, DefaultBody, FutureOutput, Interface, Member, Method, Param, Pred, Ret, VariantDecl,
};
use trait_variant::variant::{mk_variant, wants_allow_async_lint};

fn factory_interface() -> Interface {
    // trait IntFactory: Base {
    //     const NAME: &'static str;
    //     type MyFut<'a> where Self: 'a;
    //     async fn make(&self, x: u32, y: &str) -> i32;
    //     fn stream(&self) -> impl Iterator<Item = i32>;
    //     async fn call_twice(&self) { self.make().await; self.make().await }
    // }
    Interface {
        name: b"IntFactory".to_vec(),
        generics: Vec::new(),
        where_preds: Vec::new(),
        supertraits: vec![b"Base".to_vec()],
        members: vec![
            Member::AssocConst {
                name: b"NAME".to_vec(),
                generics: Vec::new(),
                ty: b"&'static str".to_vec(),
            },
            Member::AssocType {
                name: b"MyFut".to_vec(),
                generics: b"'a".to_vec(),
                where_clause: b"where Self: 'a".to_vec(),
                default: None,
            },
            Member::Method(Method {
                name: b"make".to_vec(),
                generics: Vec::new(),
                params: vec![
                    Param::Receiver(b"&self".to_vec()),
                    Param::Named { name: b"x".to_vec(), ty: b"u32".to_vec() },
                    Param::Named { name: b"y".to_vec(), ty: b"&str".to_vec() },
                ],
                is_async: true,
                ret: Ret::Explicit(b"i32".to_vec()),
                default: None,
            }),
            Member::Method(Method {
                name: b"stream".to_vec(),
                generics: Vec::new(),
                params: vec![Param::Receiver(b"&self".to_vec())],
                is_async: false,
                ret: Ret::Opaque(vec![Bound::Path(b"Iterator<Item = i32>".to_vec())]),
                default: None,
            }),
            Member::Method(Method {
                name: b"call_twice".to_vec(),
                generics: Vec::new(),
                params: vec![Param::Receiver(b"&self".to_vec())],
                is_async: true,
                ret: Ret::Unit,
                default: Some(DefaultBody::Plain(
                    b"{ self.make().await; self.make().await }".to_vec(),
                )),
            }),
        ],
    }
}

fn send_decl() -> VariantDecl {
    VariantDecl { name: b"SendIntFactory".to_vec(), bounds: vec![b"Send".to_vec()] }
}

#[test]
fn scenario_factory_variant() {
    let tr = factory_interface();
    let v = mk_variant(&tr, &send_decl());

    assert_eq!(v.name, b"SendIntFactory".to_vec());
    assert_eq!(
        v.supertraits,
        vec![b"Base".to_vec(), b"Send".to_vec()],
        "capability bounds are appended after existing supertraits"
    );
    assert_eq!(v.members.len(), tr.members.len());

    // The constant and the associated type are copied unchanged.
    assert_eq!(v.members[0], tr.members[0]);
    assert_eq!(v.members[1], tr.members[1]);

    // `make` loses its asyncness and returns an opaque
    // `Future<Output = i32> + Send`; its parameters are untouched.
    match &v.members[2] {
        Member::Method(f) => {
            assert_eq!(f.name, b"make".to_vec());
            assert!(!f.is_async);
            assert_eq!(
                f.ret,
                Ret::Opaque(vec![
                    Bound::Future(FutureOutput::Ty(b"i32".to_vec())),
                    Bound::Path(b"Send".to_vec()),
                ])
            );
            assert_eq!(f.params.len(), 3);
            assert_eq!(f.default, None);
        }
        other => panic!("expected a method, got {:?}", other),
    }

    // `stream` keeps its bounds and gets `Send` appended after them.
    match &v.members[3] {
        Member::Method(f) => {
            assert!(!f.is_async);
            assert_eq!(
                f.ret,
                Ret::Opaque(vec![
                    Bound::Path(b"Iterator<Item = i32>".to_vec()),
                    Bound::Path(b"Send".to_vec()),
                ])
            );
        }
        other => panic!("expected a method, got {:?}", other),
    }

    // The asynchronous default body is wrapped in an anonymous
    // asynchronous block; the unit return becomes `Future<Output = ()>`.
    match &v.members[4] {
        Member::Method(f) => {
            assert!(!f.is_async);
            assert_eq!(
                f.ret,
                Ret::Opaque(vec![
                    Bound::Future(FutureOutput::Unit),
                    Bound::Path(b"Send".to_vec()),
                ])
            );
            assert_eq!(
                f.default,
                Some(DefaultBody::AsyncBlock(
                    b"{ self.make().await; self.make().await }".to_vec()
                ))
            );
        }
        other => panic!("expected a method, got {:?}", other),
    }
}

#[test]
fn member_count_and_order_are_preserved() {
    let tr = factory_interface();
    let v = mk_variant(&tr, &send_decl());
    assert_eq!(v.members.len(), tr.members.len());
    let names = |i: &Interface| -> Vec<Vec<u8>> {
        i.members
            .iter()
            .map(|m| match m {
                Member::Method(f) => f.name.clone(),
                Member::AssocType { name, .. } => name.clone(),
                Member::AssocConst { name, .. } => name.clone(),
                Member::Other(t) => t.clone(),
            })
            .collect()
    };
    assert_eq!(names(&v), names(&tr));
}

#[test]
fn bounds_are_appended_not_prepended() {
    let tr = Interface {
        name: b"S".to_vec(),
        generics: Vec::new(),
        where_preds: Vec::new(),
        supertraits: Vec::new(),
        members: vec![Member::Method(Method {
            name: b"items".to_vec(),
            generics: Vec::new(),
            params: vec![Param::Receiver(b"&self".to_vec())],
            is_async: false,
            ret: Ret::Opaque(vec![
                Bound::Path(b"Iterator".to_vec()),
                Bound::Path(b"Clone".to_vec()),
            ]),
            default: None,
        })],
    };
    let decl = VariantDecl {
        name: b"SendS".to_vec(),
        bounds: vec![b"Send".to_vec(), b"Sync".to_vec()],
    };
    let v = mk_variant(&tr, &decl);
    match &v.members[0] {
        Member::Method(f) => assert_eq!(
            f.ret,
            Ret::Opaque(vec![
                Bound::Path(b"Iterator".to_vec()),
                Bound::Path(b"Clone".to_vec()),
                Bound::Path(b"Send".to_vec()),
                Bound::Path(b"Sync".to_vec()),
            ])
        ),
        other => panic!("expected a method, got {:?}", other),
    }
}

#[test]
fn plain_members_are_unchanged() {
    let plain = Member::Method(Method {
        name: b"call".to_vec(),
        generics: Vec::new(),
        params: vec![Param::Receiver(b"&self".to_vec())],
        is_async: false,
        ret: Ret::Explicit(b"u32".to_vec()),
        default: None,
    });
    let tr = Interface {
        name: b"IntFactory".to_vec(),
        generics: Vec::new(),
        where_preds: Vec::new(),
        supertraits: Vec::new(),
        members: vec![plain, Member::Other(b"macro_member!();".to_vec())],
    };
    let v = mk_variant(&tr, &send_decl());
    assert_eq!(v.members[0], tr.members[0]);
    assert_eq!(v.members[1], tr.members[1]);
}

#[test]
fn send_bound_wants_lint_concession() {
    let send = VariantDecl { name: b"V".to_vec(), bounds: vec![b"Send".to_vec()] };
    assert!(wants_allow_async_lint(&send));

    let qualified = VariantDecl {
        name: b"V".to_vec(),
        bounds: vec![b"core::marker::Send".to_vec()],
    };
    assert!(wants_allow_async_lint(&qualified));

    let sync_only = VariantDecl { name: b"V".to_vec(), bounds: vec![b"Sync".to_vec()] };
    assert!(!wants_allow_async_lint(&sync_only));

    // `Sender` is a different identifier, not `Send`.
    let sender = VariantDecl { name: b"V".to_vec(), bounds: vec![b"Sender".to_vec()] };
    assert!(!wants_allow_async_lint(&sender));

    let generic = VariantDecl { name: b"V".to_vec(), bounds: vec![b"Send<T>".to_vec()] };
    assert!(wants_allow_async_lint(&generic));
}

#[test]
fn generics_and_where_clause_are_kept_verbatim() {
    let mut tr = factory_interface();
    tr.generics = b"T: Clone".to_vec();
    tr.where_preds = vec![Pred::Verbatim(b"T: Send".to_vec())];
    let v = mk_variant(&tr, &send_decl());
    assert_eq!(v.generics, b"T: Clone".to_vec());
    assert_eq!(v.where_preds, vec![Pred::Verbatim(b"T: Send".to_vec())]);
}
