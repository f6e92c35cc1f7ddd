//! The flattened image of a parsed TOML document, as plain values.
//!
//! The schema this library accepts is two levels deep and its leaves are
//! strings, so a parsed document is kept only as far as validation needs to
//! see it: top-level entries whose values are a string, a table of
//! string-or-other entries, or some other TOML value. Anything classified
//! [`RawVal::Other`] or [`RawInner::Other`] can only ever be a type error
//! for this schema, so nothing more of it needs to be carried.

use vstd::prelude::*;

verus! {

/// A value one level down, inside a top-level table.
pub enum RawInner {
    /// A TOML string.
    Str(String),
    /// Any other TOML value (integer, float, boolean, datetime, array,
    /// nested table).
    Other,
}

/// A value of a top-level key.
pub enum RawVal {
    /// A TOML string.
    Str(String),
    /// A TOML table, flattened one level.
    Table(Vec<(String, RawInner)>),
    /// Any other TOML value.
    Other,
}

/// A well-formed TOML document, flattened: the top-level entries in the
/// parser's deterministic key order.
pub struct RawDoc {
    pub entries: Vec<(String, RawVal)>,
}

/// Mathematical image of a [`RawInner`].
pub enum RawInnerV {
    Str(Seq<char>),
    Other,
}

/// Mathematical image of a [`RawVal`].
pub enum RawValV {
    Str(Seq<char>),
    Table(Seq<(Seq<char>, RawInnerV)>),
    Other,
}

impl View for RawInner {
    type V = RawInnerV;

    open spec fn view(&self) -> RawInnerV {
        match self {
            RawInner::Str(s) => RawInnerV::Str(s@),
            RawInner::Other => RawInnerV::Other,
        }
    }
}

impl View for RawVal {
    type V = RawValV;

    open spec fn view(&self) -> RawValV {
        match self {
            RawVal::Str(s) => RawValV::Str(s@),
            RawVal::Table(t) => RawValV::Table(
                t@.map_values(|e: (String, RawInner)| (e.0@, e.1@)),
            ),
            RawVal::Other => RawValV::Other,
        }
    }
}

impl View for RawDoc {
    type V = Seq<(Seq<char>, RawValV)>;

    open spec fn view(&self) -> Seq<(Seq<char>, RawValV)> {
        self.entries@.map_values(|e: (String, RawVal)| (e.0@, e.1@))
    }
}

} // verus!
