//! The JSON value shape carried by a command.
//!
//! A command's optional `value` may be any JSON value.  The dispatcher only
//! ever asks whether it is a number, so arrays and objects are kept as one
//! opaque `Composite` case; scalars are held exactly.  JSON numbers are held
//! in thousandths (`Num(1200)` is the JSON number `1.2`), which keeps the
//! model in plain integers and is exact for the protocol's speed and
//! position values.

use vstd::prelude::*;

verus! {

/// A JSON value as the protocol needs to see it.
#[derive(Debug, Clone, PartialEq)]
pub enum JsonValue {
    Null,
    Bool(bool),
    /// A JSON number, in thousandths of its value.
    Num(i64),
    /// The bytes of a JSON string, unescaped.
    Str(Vec<u8>),
    /// An array or object; its contents never matter to a command.
    Composite,
}

/// Mathematical model of a `JsonValue`.
pub ghost enum JsonView {
    Null,
    Bool(bool),
    Num(int),
    Str(Seq<u8>),
    Composite,
}

impl View for JsonValue {
    type V = JsonView;

    open spec fn view(&self) -> JsonView {
        match self {
            JsonValue::Null => JsonView::Null,
            JsonValue::Bool(b) => JsonView::Bool(*b),
            JsonValue::Num(n) => JsonView::Num(*n as int),
            JsonValue::Str(s) => JsonView::Str(s@),
            JsonValue::Composite => JsonView::Composite,
        }
    }
}

} // verus!
