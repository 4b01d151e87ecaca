use trait_variant::attr::{parse_subtrait_attr, parse_variant_attr};
use trait_variant::model::TransformError;

#[test]
fn variant_attr_simple() {
    let d = parse_variant_attr(b"SendIntFactory: Send").unwrap();
    assert_eq!(d.name, b"SendIntFactory".to_vec());
    assert_eq!(d.bounds, vec![b"Send".to_vec()]);
}

#[test]
fn variant_attr_two_bounds() {
    let d = parse_variant_attr(b"SendSyncFactory: Send + Sync").unwrap();
    assert_eq!(d.name, b"SendSyncFactory".to_vec());
    assert_eq!(d.bounds, vec![b"Send".to_vec(), b"Sync".to_vec()]);
}

#[test]
fn variant_attr_path_bound_and_whitespace() {
    let d = parse_variant_attr(b"  V :  core::marker::Send  ").unwrap();
    assert_eq!(d.name, b"V".to_vec());
    assert_eq!(d.bounds, vec![b"core::marker::Send".to_vec()]);
}

#[test]
fn variant_attr_missing_colon() {
    assert_eq!(
        parse_variant_attr(b"NoColon"),
        Err(TransformError::MalformedAttribute)
    );
}

#[test]
fn variant_attr_empty_payload() {
    assert_eq!(parse_variant_attr(b""), Err(TransformError::MalformedAttribute));
}

#[test]
fn variant_attr_name_not_identifier() {
    assert_eq!(
        parse_variant_attr(b"1Bad: Send"),
        Err(TransformError::MalformedAttribute)
    );
    assert_eq!(
        parse_variant_attr(b"Two Words: Send"),
        Err(TransformError::MalformedAttribute)
    );
}

#[test]
fn variant_attr_empty_bound() {
    assert_eq!(parse_variant_attr(b"V:"), Err(TransformError::MalformedAttribute));
    assert_eq!(
        parse_variant_attr(b"V: Send +"),
        Err(TransformError::MalformedAttribute)
    );
    assert_eq!(
        parse_variant_attr(b"V: + Sync"),
        Err(TransformError::MalformedAttribute)
    );
}

#[test]
fn subtrait_attr_two_targets() {
    let specs = parse_subtrait_attr(b"SendFoo: Send, LocalFoo: local::Marker").unwrap();
    assert_eq!(specs.len(), 2);
    assert_eq!(specs[0].name, b"SendFoo".to_vec());
    assert_eq!(specs[0].capability, b"Send".to_vec());
    assert_eq!(specs[1].name, b"LocalFoo".to_vec());
    assert_eq!(specs[1].capability, b"local::Marker".to_vec());
}

#[test]
fn subtrait_attr_single_target() {
    let specs = parse_subtrait_attr(b"SendFoo: Send").unwrap();
    assert_eq!(specs.len(), 1);
    assert_eq!(specs[0].name, b"SendFoo".to_vec());
    assert_eq!(specs[0].capability, b"Send".to_vec());
}

#[test]
fn subtrait_attr_empty_payload() {
    assert_eq!(parse_subtrait_attr(b""), Err(TransformError::MalformedAttribute));
}

#[test]
fn subtrait_attr_trailing_comma() {
    assert_eq!(
        parse_subtrait_attr(b"SendFoo: Send,"),
        Err(TransformError::MalformedAttribute)
    );
}

#[test]
fn subtrait_attr_missing_colon_in_pair() {
    assert_eq!(
        parse_subtrait_attr(b"SendFoo: Send, Broken"),
        Err(TransformError::MalformedAttribute)
    );
}

#[test]
fn subtrait_attr_empty_path() {
    assert_eq!(
        parse_subtrait_attr(b"SendFoo:"),
        Err(TransformError::MalformedAttribute)
    );
}

#[test]
fn variant_attr_bound_text_is_verbatim() {
    // A bound is carried as written, trimmed only at the ends; bytes
    // beyond ASCII pass through untouched.
    let d = parse_variant_attr("V: Grüße<T>".as_bytes()).unwrap();
    assert_eq!(d.bounds, vec!["Grüße<T>".as_bytes().to_vec()]);
}

#[test]
fn subtrait_attr_whitespace_everywhere() {
    let specs = parse_subtrait_attr(b"\t A : x::Y ,\n B : Z ").unwrap();
    assert_eq!(specs.len(), 2);
    assert_eq!(specs[0].name, b"A".to_vec());
    assert_eq!(specs[0].capability, b"x::Y".to_vec());
    assert_eq!(specs[1].name, b"B".to_vec());
    assert_eq!(specs[1].capability, b"Z".to_vec());
}
