//! The attribute-payload parser of the interface model builder.
//!
//! Two payload shapes are recognized, both over UTF-8 text:
//!
//! * the variant form `name ":" bound ("+" bound)*` — an identifier, a
//!   colon, and a non-empty `+`-separated list of bounds;
//! * the subtrait form `(name ":" path) ("," name ":" path)*` — a
//!   non-empty comma-separated list of identifier/path pairs.
//!
//! The parser divides the payload at the first colon and at every
//! separator byte, trims ASCII whitespace, and checks that each name is
//! an identifier and each bound or path is non-empty; bound and path
//! texts are otherwise carried verbatim, since validating them is the
//! host checker's concern.  A payload outside the grammar is a
//! `MalformedAttribute` error.

use vstd::prelude::*;
use vstd::slice::slice_subrange;

use crate::model::{SubtraitSpec, SubtraitSpecV, TransformError, VariantDecl, VariantDeclV};
use crate::text;

verus! {

/// Whether a payload matches the variant form.
pub open spec fn variant_attr_wf(s: Seq<u8>) -> bool {
    let c = text::find_from(s, text::COLON, 0);
    let pieces = text::split_on(s.subrange(c + 1, s.len() as int), text::PLUS);
    &&& c < s.len()
    &&& text::is_ident(text::trim(s.subrange(0, c)))
    &&& forall|k: int| 0 <= k < pieces.len() ==> text::trim(#[trigger] pieces[k]).len() > 0
}

/// The variant declaration a well-formed payload denotes: the trimmed
/// name before the first colon, and the trimmed bound texts after it, in
/// order.
pub open spec fn variant_attr_val(s: Seq<u8>) -> VariantDeclV {
    let c = text::find_from(s, text::COLON, 0);
    let pieces = text::split_on(s.subrange(c + 1, s.len() as int), text::PLUS);
    VariantDeclV {
        name: text::trim(s.subrange(0, c)),
        bounds: pieces.map_values(|p: Seq<u8>| text::trim(p)),
    }
}

/// Whether one comma-separated piece matches `name ":" path`.
pub open spec fn subtrait_item_wf(p: Seq<u8>) -> bool {
    let c = text::find_from(p, text::COLON, 0);
    &&& c < p.len()
    &&& text::is_ident(text::trim(p.subrange(0, c)))
    &&& text::trim(p.subrange(c + 1, p.len() as int)).len() > 0
}

/// The subtrait specification one well-formed piece denotes.
pub open spec fn subtrait_item_val(p: Seq<u8>) -> SubtraitSpecV {
    let c = text::find_from(p, text::COLON, 0);
    SubtraitSpecV {
        name: text::trim(p.subrange(0, c)),
        capability: text::trim(p.subrange(c + 1, p.len() as int)),
    }
}

/// Whether a payload matches the subtrait form.
pub open spec fn subtrait_attr_wf(s: Seq<u8>) -> bool {
    let pieces = text::split_on(s, text::COMMA);
    forall|k: int| 0 <= k < pieces.len() ==> subtrait_item_wf(#[trigger] pieces[k])
}

/// The subtrait specifications a well-formed payload denotes, in order.
pub open spec fn subtrait_attr_val(s: Seq<u8>) -> Seq<SubtraitSpecV> {
    text::split_on(s, text::COMMA).map_values(|p: Seq<u8>| subtrait_item_val(p))
}

/// Parses a variant-form payload.
pub fn parse_variant_attr(s: &[u8]) -> (r: Result<VariantDecl, TransformError>)
    ensures
        r is Ok <==> variant_attr_wf(s@),
        r matches Ok(d) ==> d@ == variant_attr_val(s@),
        r matches Err(e) ==> e == TransformError::MalformedAttribute,
{
    let n: usize = s.len();
    let c = text::find_byte_from(s, text::COLON, 0);
    proof {
        text::lemma_find_from(s@, text::COLON, 0);
    }
    if c >= n {
        return Err(TransformError::MalformedAttribute);
    }
    let name = text::trim_bytes(slice_subrange(s, 0, c));
    if !text::is_ident_bytes(name.as_slice()) {
        return Err(TransformError::MalformedAttribute);
    }
    let rest: &[u8] = slice_subrange(s, c + 1, n);
    let m: usize = rest.len();
    let ghost pieces = text::split_on(rest@, text::PLUS);
    let mut bounds: Vec<Vec<u8>> = Vec::new();
    let mut start: usize = 0;
    let ghost mut k: int = 0;
    let mut done: bool = false;
    while !done
        invariant
            0 <= start <= m,
            m == rest@.len(),
            0 <= c < s@.len(),
            c == text::find_from(s@, text::COLON, 0),
            rest@ == s@.subrange(c + 1, s@.len() as int),
            pieces == text::split_on(rest@, text::PLUS),
            0 <= k <= pieces.len(),
            bounds.deep_view() == pieces.take(k).map_values(|p: Seq<u8>| text::trim(p)),
            forall|j: int| 0 <= j < k ==> text::trim(#[trigger] pieces[j]).len() > 0,
            !done ==> text::split_from(rest@, text::PLUS, start as int) == pieces.skip(k),
            done ==> k == pieces.len(),
        decreases m - start + (if done { 0int } else { 1int }),
    {
        let j = text::find_byte_from(rest, text::PLUS, start);
        proof {
            text::lemma_find_from(rest@, text::PLUS, start as int);
            text::lemma_split_from_len(rest@, text::PLUS, start as int);
        }
        let piece = text::trim_bytes(slice_subrange(rest, start, j));
        let ghost remaining = text::split_from(rest@, text::PLUS, start as int);
        proof {
            assert(remaining[0] == rest@.subrange(start as int, j as int));
            assert(pieces.skip(k)[0] == pieces[k]);
            assert(pieces[k] == rest@.subrange(start as int, j as int));
            assert(piece@ == text::trim(pieces[k]));
        }
        if piece.len() == 0 {
            proof {
                assert(pieces.skip(k).len() >= 1);
                assert(0 <= k < pieces.len());
                assert(text::trim(pieces[k]).len() == 0);
                assert(rest@ == s@.subrange(text::find_from(s@, text::COLON, 0) + 1,
                    s@.len() as int));
                assert(!variant_attr_wf(s@)) by {
                    let ps = text::split_on(
                        s@.subrange(text::find_from(s@, text::COLON, 0) + 1, s@.len() as int),
                        text::PLUS,
                    );
                    assert(ps == pieces);
                    assert(0 <= k < ps.len() && text::trim(#[trigger] ps[k]).len() == 0);
                }
            }
            return Err(TransformError::MalformedAttribute);
        }
        let ghost prev = bounds.deep_view();
        proof {
            assert(piece.deep_view() =~= piece@);
        }
        bounds.push(piece);
        proof {
            assert(bounds.deep_view() =~= prev.push(text::trim(pieces[k])));
            assert(bounds.deep_view() =~= pieces.take(k + 1).map_values(
                |p: Seq<u8>| text::trim(p),
            ));
        }
        if j >= m {
            proof {
                assert(remaining =~= seq![rest@.subrange(start as int, j as int)]);
                assert(pieces.skip(k).len() == 1);
                assert(k + 1 == pieces.len());
            }
            done = true;
            proof {
                k = k + 1;
            }
        } else {
            proof {
                assert(remaining =~= seq![pieces[k]] + text::split_from(
                    rest@,
                    text::PLUS,
                    j + 1,
                ));
                assert(pieces.skip(k).len() == 1 + text::split_from(rest@, text::PLUS, j + 1).len());
                assert forall|t: int| 0 <= t < pieces.len() - (k + 1) implies #[trigger] pieces.skip(
                    k + 1,
                )[t] == text::split_from(rest@, text::PLUS, j + 1)[t] by {
                    assert(0 <= t + 1 < pieces.skip(k).len());
                    assert(pieces.skip(k)[t + 1] == pieces[k + t + 1]);
                    assert(pieces.skip(k)[t + 1] == text::split_from(rest@, text::PLUS, j + 1)[t]);
                }
                assert(pieces.skip(k + 1) =~= text::split_from(rest@, text::PLUS, j + 1));
                k = k + 1;
            }
            start = j + 1;
        }
    }
    let d = VariantDecl { name, bounds };
    proof {
        assert(pieces.take(pieces.len() as int) =~= pieces);
        assert(variant_attr_wf(s@));
        assert(d@ =~= variant_attr_val(s@));
    }
    Ok(d)
}

/// Parses one `name ":" path` piece of a subtrait-form payload.
fn parse_subtrait_item(p: &[u8]) -> (r: Result<SubtraitSpec, TransformError>)
    ensures
        r is Ok <==> subtrait_item_wf(p@),
        r matches Ok(it) ==> it@ == subtrait_item_val(p@),
        r matches Err(e) ==> e == TransformError::MalformedAttribute,
{
    let n: usize = p.len();
    let c = text::find_byte_from(p, text::COLON, 0);
    proof {
        text::lemma_find_from(p@, text::COLON, 0);
    }
    if c >= n {
        return Err(TransformError::MalformedAttribute);
    }
    let name = text::trim_bytes(slice_subrange(p, 0, c));
    if !text::is_ident_bytes(name.as_slice()) {
        return Err(TransformError::MalformedAttribute);
    }
    let capability = text::trim_bytes(slice_subrange(p, c + 1, n));
    if capability.len() == 0 {
        return Err(TransformError::MalformedAttribute);
    }
    Ok(SubtraitSpec { name, capability })
}

/// Parses a subtrait-form payload.
pub fn parse_subtrait_attr(s: &[u8]) -> (r: Result<Vec<SubtraitSpec>, TransformError>)
    ensures
        r is Ok <==> subtrait_attr_wf(s@),
        r matches Ok(v) ==> v.deep_view() == subtrait_attr_val(s@),
        r matches Err(e) ==> e == TransformError::MalformedAttribute,
{
    let n: usize = s.len();
    let ghost pieces = text::split_on(s@, text::COMMA);
    let mut specs: Vec<SubtraitSpec> = Vec::new();
    let mut start: usize = 0;
    let ghost mut k: int = 0;
    let mut done: bool = false;
    while !done
        invariant
            0 <= start <= n,
            n == s@.len(),
            pieces == text::split_on(s@, text::COMMA),
            0 <= k <= pieces.len(),
            specs.deep_view() == pieces.take(k).map_values(|p: Seq<u8>| subtrait_item_val(p)),
            forall|j: int| 0 <= j < k ==> subtrait_item_wf(#[trigger] pieces[j]),
            !done ==> text::split_from(s@, text::COMMA, start as int) == pieces.skip(k),
            done ==> k == pieces.len(),
        decreases n - start + (if done { 0int } else { 1int }),
    {
        let j = text::find_byte_from(s, text::COMMA, start);
        proof {
            text::lemma_find_from(s@, text::COMMA, start as int);
            text::lemma_split_from_len(s@, text::COMMA, start as int);
        }
        let ghost remaining = text::split_from(s@, text::COMMA, start as int);
        proof {
            assert(remaining[0] == s@.subrange(start as int, j as int));
            assert(pieces.skip(k)[0] == pieces[k]);
            assert(pieces[k] == s@.subrange(start as int, j as int));
        }
        let item = parse_subtrait_item(slice_subrange(s, start, j));
        match item {
            Err(e) => {
                proof {
                    assert(pieces.skip(k).len() >= 1);
                    assert(0 <= k < pieces.len());
                    assert(!subtrait_item_wf(pieces[k]));
                    assert(!subtrait_attr_wf(s@)) by {
                        let ps = text::split_on(s@, text::COMMA);
                        assert(ps == pieces);
                        assert(0 <= k < ps.len() && !subtrait_item_wf(#[trigger] ps[k]));
                    }
                }
                return Err(e);
            },
            Ok(it) => {
                let ghost prev = specs.deep_view();
                specs.push(it);
                proof {
                    assert(specs.deep_view() =~= prev.push(subtrait_item_val(pieces[k])));
                    assert(specs.deep_view() =~= pieces.take(k + 1).map_values(
                        |p: Seq<u8>| subtrait_item_val(p),
                    ));
                }
            },
        }
        if j >= n {
            proof {
                assert(remaining =~= seq![s@.subrange(start as int, j as int)]);
                assert(pieces.skip(k).len() == 1);
                assert(k + 1 == pieces.len());
            }
            done = true;
            proof {
                k = k + 1;
            }
        } else {
            proof {
                assert(remaining =~= seq![pieces[k]] + text::split_from(s@, text::COMMA, j + 1));
                assert(pieces.skip(k).len() == 1 + text::split_from(s@, text::COMMA, j + 1).len());
                assert forall|t: int| 0 <= t < pieces.len() - (k + 1) implies #[trigger] pieces.skip(
                    k + 1,
                )[t] == text::split_from(s@, text::COMMA, j + 1)[t] by {
                    assert(0 <= t + 1 < pieces.skip(k).len());
                    assert(pieces.skip(k)[t + 1] == pieces[k + t + 1]);
                    assert(pieces.skip(k)[t + 1] == text::split_from(s@, text::COMMA, j + 1)[t]);
                }
                assert(pieces.skip(k + 1) =~= text::split_from(s@, text::COMMA, j + 1));
                k = k + 1;
            }
            start = j + 1;
        }
    }
    proof {
        assert(pieces.take(pieces.len() as int) =~= pieces);
        assert(subtrait_attr_wf(s@));
        assert(specs.deep_view() =~= subtrait_attr_val(s@));
    }
    Ok(specs)
}

} // verus!
