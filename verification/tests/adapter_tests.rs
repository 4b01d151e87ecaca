use trait_variant::adapter::{entry_diagnostic, mk_blanket_impl, ArgExpr, ForwardEntry};
use trait_variant::model::{
    Bound, DefaultBody, Interface, Member, Method, Param, Ret, TransformError,
};

fn factory_interface() -> Interface {
    Interface {
        name: b"IntFactory".to_vec(),
        generics: Vec::new(),
        where_preds: Vec::new(),
        supertraits: Vec::new(),
        members: vec![
            Member::AssocConst {
                name: b"NAME".to_vec(),
                generics: Vec::new(),
                ty: b"&'static str".to_vec(),
            },
            Member::AssocType {
                name: b"MyFut".to_vec(),
                generics: b"'a".to_vec(),
                where_clause: b"where Self: 'a".to_vec(),
                default: None,
            },
            Member::Method(Method {
                name: b"make".to_vec(),
                generics: Vec::new(),
                params: vec![
                    Param::Receiver(b"&self".to_vec()),
                    Param::Named { name: b"x".to_vec(), ty: b"u32".to_vec() },
                    Param::Named { name: b"y".to_vec(), ty: b"&str".to_vec() },
                ],
                is_async: true,
                ret: Ret::Explicit(b"i32".to_vec()),
                default: None,
            }),
            Member::Method(Method {
                name: b"stream".to_vec(),
                generics: Vec::new(),
                params: vec![Param::Receiver(b"&self".to_vec())],
                is_async: false,
                ret: Ret::Opaque(vec![Bound::Path(b"Iterator<Item = i32>".to_vec())]),
                default: None,
            }),
            Member::Method(Method {
                name: b"call_twice".to_vec(),
                generics: Vec::new(),
                params: vec![Param::Receiver(b"&self".to_vec())],
                is_async: true,
                ret: Ret::Unit,
                default: Some(DefaultBody::Plain(
                    b"{ self.make().await; self.make().await }".to_vec(),
                )),
            }),
        ],
    }
}

#[test]
fn scenario_factory_adapter_forwards_all_members() {
    let tr = factory_interface();
    let a = mk_blanket_impl(&tr, &b"SendIntFactory".to_vec()).unwrap();

    assert_eq!(a.interface_name, b"IntFactory".to_vec());
    assert_eq!(a.variant_name, b"SendIntFactory".to_vec());
    assert_eq!(a.entries.len(), tr.members.len());

    assert_eq!(
        a.entries[0],
        ForwardEntry::Const {
            name: b"NAME".to_vec(),
            generics: Vec::new(),
            ty: b"&'static str".to_vec(),
        }
    );
    assert_eq!(
        a.entries[1],
        ForwardEntry::Type {
            name: b"MyFut".to_vec(),
            generics: b"'a".to_vec(),
            where_clause: b"where Self: 'a".to_vec(),
        }
    );

    // `make` keeps its original signature — still asynchronous — and
    // forwards the receiver and both named parameters in order.
    match &a.entries[2] {
        ForwardEntry::Method { method, args } => {
            assert_eq!(method.name, b"make".to_vec());
            assert!(method.is_async, "the adapter method awaits, so it stays async");
            assert_eq!(
                args,
                &vec![
                    ArgExpr::SelfArg,
                    ArgExpr::Name(b"x".to_vec()),
                    ArgExpr::Name(b"y".to_vec()),
                ]
            );
        }
        other => panic!("expected a method entry, got {:?}", other),
    }

    // `stream` forwards without awaiting.
    match &a.entries[3] {
        ForwardEntry::Method { method, .. } => {
            assert_eq!(method.name, b"stream".to_vec());
            assert!(!method.is_async);
        }
        other => panic!("expected a method entry, got {:?}", other),
    }

    // `call_twice` is the second awaited entry.
    match &a.entries[4] {
        ForwardEntry::Method { method, .. } => {
            assert_eq!(method.name, b"call_twice".to_vec());
            assert!(method.is_async);
        }
        other => panic!("expected a method entry, got {:?}", other),
    }
}

#[test]
fn scenario_pattern_parameter_is_error_for_that_member_only() {
    let mut tr = factory_interface();
    tr.members.push(Member::Method(Method {
        name: b"sum".to_vec(),
        generics: Vec::new(),
        params: vec![
            Param::Receiver(b"&self".to_vec()),
            Param::Pattern { pat: b"(a, b)".to_vec(), ty: b"(u32, u32)".to_vec() },
        ],
        is_async: false,
        ret: Ret::Explicit(b"u32".to_vec()),
        default: None,
    }));

    let a = mk_blanket_impl(&tr, &b"SendIntFactory".to_vec()).unwrap();
    assert_eq!(a.entries.len(), tr.members.len(), "the rest is still synthesized");

    // Every earlier entry is clean.
    for entry in &a.entries[..5] {
        assert_eq!(entry_diagnostic(entry), None);
    }

    // The offending member carries the diagnostic at its argument
    // position.
    match &a.entries[5] {
        ForwardEntry::Method { args, .. } => {
            assert_eq!(args[0], ArgExpr::SelfArg);
            assert_eq!(args[1], ArgExpr::Unsupported(b"(a, b)".to_vec()));
        }
        other => panic!("expected a method entry, got {:?}", other),
    }
    assert_eq!(
        entry_diagnostic(&a.entries[5]),
        Some(TransformError::UnsupportedPattern)
    );
}

#[test]
fn unknown_member_kind_is_fatal() {
    let mut tr = factory_interface();
    tr.members.insert(1, Member::Other(b"macro_member!();".to_vec()));
    assert_eq!(
        mk_blanket_impl(&tr, &b"SendIntFactory".to_vec()),
        Err(TransformError::UnsupportedMemberKind)
    );
}
