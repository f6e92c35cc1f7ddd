//! The trusted boundary to the `toml` crate and to UTF-8 decoding.
//!
//! The TOML grammar itself is an external collaborator: this library never
//! re-implements it. What a parse returns is a function of the text alone,
//! so it is given a name, [`toml_flat`], and everything downstream —
//! strict schema validation, field extraction — is verified against that
//! name in [`crate::schema`].

use vstd::prelude::*;

use crate::raw::RawDoc;
use crate::raw::RawInner;
use crate::raw::RawVal;
use crate::raw::RawValV;

verus! {

/// The flattened image of TOML text `s`: `Some(entries)` when `s` is a
/// well-formed TOML document — the top-level entries in the parser's
/// deterministic (lexicographic) key order — and `None` when it is not.
pub uninterp spec fn toml_flat(s: Seq<char>) -> Option<Seq<(Seq<char>, RawValV)>>;

/// The characters that lossy UTF-8 decoding makes of the bytes `b`, with
/// U+FFFD in place of each invalid sequence.
pub uninterp spec fn lossy_of(b: Seq<u8>) -> Seq<char>;

/// Relies on `str::parse::<toml::Table>` (the `toml` crate's document
/// parser) and on `toml::map::Map::into_iter`: parsing either fails, for
/// text that is not well-formed TOML, or yields the document's top-level
/// table, whose iteration order is deterministic (a `BTreeMap` walked in
/// key order). Both outcomes are functions of the text alone, named by
/// [`toml_flat`]; the error message is not pinned.
#[verifier::external_body]
pub(crate) fn parse_toml_flat(s: &str) -> (r: Result<RawDoc, String>)
    ensures
        (r is Ok) == (toml_flat(s@) is Some),
        r matches Ok(d) ==> Some(d@) == toml_flat(s@),
{
    match s.parse::<toml::Table>() {
        Err(e) => Err(e.to_string()),
        Ok(t) => Ok(RawDoc {
            entries: t.into_iter().map(|kv: (String, toml::Value)| (kv.0, match kv.1 {
                toml::Value::String(x) => RawVal::Str(x),
                toml::Value::Table(t2) => RawVal::Table(
                    t2.into_iter().map(|kv2: (String, toml::Value)| (kv2.0, match kv2.1 {
                        toml::Value::String(x2) => RawInner::Str(x2),
                        _ => RawInner::Other,
                    })).collect(),
                ),
                _ => RawVal::Other,
            })).collect(),
        }),
    }
}

/// Relies on `String::from_utf8_lossy`: decoding never fails, substitutes
/// U+FFFD for each invalid byte sequence, and is a function of the bytes
/// alone, named by [`lossy_of`].
#[verifier::external_body]
pub(crate) fn utf8_lossy(b: &Vec<u8>) -> (r: String)
    ensures
        r@ == lossy_of(b@),
{
    String::from_utf8_lossy(b).into_owned()
}

} // verus!
