//! The value codec: conversion between native scalar types and the store's
//! wire representation of a single column value, together with each type's
//! SQL column type string.

use crate::text::push_dec;
use crate::text::spec_dec;
use vstd::prelude::*;

verus! {

/// A single column value in the store's wire representation.
///
/// Owned transiently during a single field conversion; never shared.
#[derive(Clone, Debug, PartialEq, Eq)]
pub enum MySQLValue {
    /// SQL NULL.
    Null,
    /// A textual value (`text` / `varchar(..)` columns).
    Text(String),
    /// A signed integer value (`int` / `bigint` columns).
    Int(i64),
}

/// A native scalar type that maps to a single column value.
///
/// `deserialize` is the inverse of `serialize`: see [`SQLValue::lemma_roundtrip`].
/// Deserializing a wire value whose runtime shape does not match `Self` is a
/// schema-mismatch programming error, not a recoverable condition, so
/// `deserialize` requires a matching wire value.
pub trait SQLValue: Sized {
    /// The column type string that `column_type` renders for this type.
    spec fn spec_column_type(size: int) -> Seq<char>;

    /// The wire value that `serialize` produces.
    spec fn spec_serialize(self) -> MySQLValue;

    /// Whether a wire value has the runtime shape this type decodes.
    spec fn wire_matches(w: MySQLValue) -> bool;

    /// The value that `deserialize` recovers from a matching wire value.
    spec fn spec_deserialize(w: MySQLValue) -> Self
        recommends
            Self::wire_matches(w),
    ;

    /// Decides at run time whether a wire value has the shape this type
    /// decodes.
    fn wire_ok(w: &MySQLValue) -> (b: bool)
        ensures
            b == Self::wire_matches(*w),
    ;

    /// The SQL type of a column holding this type. A positive `size` requests
    /// a bounded width where the type has one; `size <= 0` selects the
    /// unbounded type.
    fn column_type(size: i32) -> (r: String)
        ensures
            r@ == Self::spec_column_type(size as int),
    ;

    /// Converts this value to its wire representation.
    fn serialize(self) -> (w: MySQLValue)
        ensures
            w == self.spec_serialize(),
    ;

    /// Recovers a value of this type from a matching wire value.
    fn deserialize(w: MySQLValue) -> (r: Self)
        requires
            Self::wire_matches(w),
        ensures
            r == Self::spec_deserialize(w),
    ;

    /// Round trip: deserializing what a value serializes to yields the value
    /// back, for every value of this type.
    proof fn lemma_roundtrip(self)
        ensures
            Self::wire_matches(self.spec_serialize()),
            Self::spec_deserialize(self.spec_serialize()) == self,
    ;
}

/// A scalar codec type that never serializes to SQL NULL, so that the
/// nullable wrapping of `Option` can reserve NULL for `None`.
pub trait SQLScalar: SQLValue {
    /// A scalar's wire value is never NULL.
    proof fn lemma_wire_not_null(self)
        ensures
            !(self.spec_serialize() is Null),
    ;
}

impl SQLValue for String {
    open spec fn spec_column_type(size: int) -> Seq<char> {
        if size > 0 {
            "varchar("@ + spec_dec(size) + ")"@
        } else {
            "text"@
        }
    }

    open spec fn spec_serialize(self) -> MySQLValue {
        MySQLValue::Text(self)
    }

    open spec fn wire_matches(w: MySQLValue) -> bool {
        w is Text
    }

    open spec fn spec_deserialize(w: MySQLValue) -> Self {
        w->Text_0
    }

    fn column_type(size: i32) -> (r: String) {
        if size > 0 {
            let mut s = String::from_str("varchar(");
            push_dec(&mut s, size as u32);
            s.append(")");
            proof {
                assert(s@ =~= "varchar("@ + spec_dec(size as int) + ")"@);
            }
            s
        } else {
            String::from_str("text")
        }
    }

    fn serialize(self) -> (w: MySQLValue) {
        MySQLValue::Text(self)
    }

    fn wire_ok(w: &MySQLValue) -> (b: bool) {
        match w {
            MySQLValue::Text(_) => true,
            _ => false,
        }
    }

    fn deserialize(w: MySQLValue) -> (r: Self) {
        match w {
            MySQLValue::Text(s) => s,
            _ => unreached(),
        }
    }

    proof fn lemma_roundtrip(self) {
    }
}

impl SQLScalar for String {
    proof fn lemma_wire_not_null(self) {
    }
}

impl SQLValue for i32 {
    open spec fn spec_column_type(size: int) -> Seq<char> {
        "int"@
    }

    open spec fn spec_serialize(self) -> MySQLValue {
        MySQLValue::Int(self as i64)
    }

    open spec fn wire_matches(w: MySQLValue) -> bool {
        w matches MySQLValue::Int(n) && i32::MIN <= n <= i32::MAX
    }

    open spec fn spec_deserialize(w: MySQLValue) -> Self {
        w->Int_0 as i32
    }

    fn column_type(size: i32) -> (r: String) {
        String::from_str("int")
    }

    fn serialize(self) -> (w: MySQLValue) {
        MySQLValue::Int(self as i64)
    }

    fn wire_ok(w: &MySQLValue) -> (b: bool) {
        match w {
            MySQLValue::Int(n) => i32::MIN as i64 <= *n && *n <= i32::MAX as i64,
            _ => false,
        }
    }

    fn deserialize(w: MySQLValue) -> (r: Self) {
        match w {
            MySQLValue::Int(n) => n as i32,
            _ => unreached(),
        }
    }

    proof fn lemma_roundtrip(self) {
    }
}

impl SQLScalar for i32 {
    proof fn lemma_wire_not_null(self) {
    }
}

impl SQLValue for i64 {
    open spec fn spec_column_type(size: int) -> Seq<char> {
        "bigint"@
    }

    open spec fn spec_serialize(self) -> MySQLValue {
        MySQLValue::Int(self)
    }

    open spec fn wire_matches(w: MySQLValue) -> bool {
        w is Int
    }

    open spec fn spec_deserialize(w: MySQLValue) -> Self {
        w->Int_0
    }

    fn column_type(size: i32) -> (r: String) {
        String::from_str("bigint")
    }

    fn serialize(self) -> (w: MySQLValue) {
        MySQLValue::Int(self)
    }

    fn wire_ok(w: &MySQLValue) -> (b: bool) {
        match w {
            MySQLValue::Int(_) => true,
            _ => false,
        }
    }

    fn deserialize(w: MySQLValue) -> (r: Self) {
        match w {
            MySQLValue::Int(n) => n,
            _ => unreached(),
        }
    }

    proof fn lemma_roundtrip(self) {
    }
}

impl SQLScalar for i64 {
    proof fn lemma_wire_not_null(self) {
    }
}

/// Nullable wrapping, handled generically over any non-null scalar codec:
/// `None` serializes to SQL NULL, `Some(v)` delegates to `v`, and the column
/// type is the inner type's (nullability is a column attribute, not part of
/// the SQL type name).
impl<V: SQLScalar> SQLValue for Option<V> {
    open spec fn spec_column_type(size: int) -> Seq<char> {
        V::spec_column_type(size)
    }

    open spec fn spec_serialize(self) -> MySQLValue {
        match self {
            Option::None => MySQLValue::Null,
            Option::Some(v) => v.spec_serialize(),
        }
    }

    open spec fn wire_matches(w: MySQLValue) -> bool {
        w is Null || V::wire_matches(w)
    }

    open spec fn spec_deserialize(w: MySQLValue) -> Self {
        if w is Null {
            Option::None
        } else {
            Option::Some(V::spec_deserialize(w))
        }
    }

    fn column_type(size: i32) -> (r: String) {
        V::column_type(size)
    }

    fn serialize(self) -> (w: MySQLValue) {
        match self {
            Option::None => MySQLValue::Null,
            Option::Some(v) => v.serialize(),
        }
    }

    fn wire_ok(w: &MySQLValue) -> (b: bool) {
        match w {
            MySQLValue::Null => true,
            _ => V::wire_ok(w),
        }
    }

    fn deserialize(w: MySQLValue) -> (r: Self) {
        match w {
            MySQLValue::Null => Option::None,
            _ => Option::Some(V::deserialize(w)),
        }
    }

    proof fn lemma_roundtrip(self) {
        match self {
            Option::None => {},
            Option::Some(v) => {
                v.lemma_wire_not_null();
                v.lemma_roundtrip();
            },
        }
    }
}

} // verus!
