use trait_variant::model::{
    Bound, Interface, Member, Method, Param, Pred, Ret, SubtraitSpec,
};
use trait_variant::subtrait::{mk_subtrait, transform_trait};

fn base_interface() -> Interface {
    // trait IntFactory {
    //     async fn make(&self) -> i32;
    //     fn stream(&self) -> impl Iterator<Item = i32>;
    //     fn call(&self) -> u32;
    // }
    Interface {
        name: b"IntFactory".to_vec(),
        generics: Vec::new(),
        where_preds: vec![Pred::Verbatim(b"Self: Sized".to_vec())],
        supertraits: vec![b"Base".to_vec()],
        members: vec![
            Member::Method(Method {
                name: b"make".to_vec(),
                generics: Vec::new(),
                params: vec![Param::Receiver(b"&self".to_vec())],
                is_async: true,
                ret: Ret::Explicit(b"i32".to_vec()),
                default: None,
            }),
            Member::Method(Method {
                name: b"stream".to_vec(),
                generics: Vec::new(),
                params: vec![Param::Receiver(b"&self".to_vec())],
                is_async: false,
                ret: Ret::Opaque(vec![Bound::Path(b"Iterator<Item = i32>".to_vec())]),
                default: None,
            }),
            Member::Method(Method {
                name: b"call".to_vec(),
                generics: Vec::new(),
                params: vec![Param::Receiver(b"&self".to_vec())],
                is_async: false,
                ret: Ret::Explicit(b"u32".to_vec()),
                default: None,
            }),
        ],
    }
}

#[test]
fn scenario_two_capability_targets() {
    let tr = base_interface();
    let specs = vec![
        SubtraitSpec { name: b"SendIntFactory".to_vec(), capability: b"Send".to_vec() },
        SubtraitSpec {
            name: b"LocalIntFactory".to_vec(),
            capability: b"local::Marker".to_vec(),
        },
    ];
    let out = transform_trait(&tr, &specs);
    assert_eq!(out.len(), 2);

    for (sub, spec) in out.iter().zip(specs.iter()) {
        assert_eq!(sub.name, spec.name);
        assert!(sub.members.is_empty(), "a subtrait carries no members");
        assert_eq!(
            sub.supertraits,
            vec![b"Base".to_vec(), spec.capability.clone()],
            "the capability path is appended to the base supertraits"
        );
        // One predicate per asynchronous or opaque-returning method, in
        // member order, after the base's own predicates.
        assert_eq!(
            sub.where_preds,
            vec![
                Pred::Verbatim(b"Self: Sized".to_vec()),
                Pred::SelfResult {
                    method: b"make".to_vec(),
                    capability: spec.capability.clone(),
                },
                Pred::SelfResult {
                    method: b"stream".to_vec(),
                    capability: spec.capability.clone(),
                },
            ]
        );
    }
}

#[test]
fn plain_methods_draw_no_constraint() {
    let tr = Interface {
        name: b"Quiet".to_vec(),
        generics: Vec::new(),
        where_preds: Vec::new(),
        supertraits: Vec::new(),
        members: vec![Member::Method(Method {
            name: b"call".to_vec(),
            generics: Vec::new(),
            params: vec![Param::Receiver(b"&self".to_vec())],
            is_async: false,
            ret: Ret::Explicit(b"u32".to_vec()),
            default: None,
        })],
    };
    let sub = mk_subtrait(
        &tr,
        &SubtraitSpec { name: b"SendQuiet".to_vec(), capability: b"Send".to_vec() },
    );
    assert_eq!(sub.name, b"SendQuiet".to_vec());
    assert!(sub.where_preds.is_empty());
    assert_eq!(sub.supertraits, vec![b"Send".to_vec()]);
    assert!(sub.members.is_empty());
}

#[test]
fn base_generics_are_kept() {
    let mut tr = base_interface();
    tr.generics = b"T: Clone".to_vec();
    let sub = mk_subtrait(
        &tr,
        &SubtraitSpec { name: b"SendIntFactory".to_vec(), capability: b"Send".to_vec() },
    );
    assert_eq!(sub.generics, b"T: Clone".to_vec());
}
