//! The closed set of primitive kinds a declared variable may have, with the
//! spellings each kind contributes to emitted code.

use vstd::prelude::*;

verus! {

/// A primitive kind a configuration variable may be declared with.
///
/// The kind decides the spelling used in emitted type positions and whether
/// the emitted accessor returns the field by value or by reference: every
/// numeric and boolean kind is read by value, the owned-text kind (spelled
/// `String` in emitted code) is read by reference.
#[derive(Clone, Copy, PartialEq, Eq, Structural, Debug)]
pub enum AcceptedRustType {
    I8,
    I16,
    I32,
    I64,
    I128,
    U8,
    U16,
    U32,
    U64,
    U128,
    Text,
    Bool,
    F32,
    F64,
}

/// The canonical spelling of a kind: the text emitted in a field's type
/// position, and the exact string a schema entry's `type` field must hold.
pub open spec fn type_spelling(t: AcceptedRustType) -> Seq<char> {
    match t {
        AcceptedRustType::I8 => "i8"@,
        AcceptedRustType::I16 => "i16"@,
        AcceptedRustType::I32 => "i32"@,
        AcceptedRustType::I64 => "i64"@,
        AcceptedRustType::I128 => "i128"@,
        AcceptedRustType::U8 => "u8"@,
        AcceptedRustType::U16 => "u16"@,
        AcceptedRustType::U32 => "u32"@,
        AcceptedRustType::U64 => "u64"@,
        AcceptedRustType::U128 => "u128"@,
        AcceptedRustType::Text => "String"@,
        AcceptedRustType::Bool => "bool"@,
        AcceptedRustType::F32 => "f32"@,
        AcceptedRustType::F64 => "f64"@,
    }
}

/// The spelling of an emitted accessor's return type: the owned-text kind is
/// returned as a borrowed view, every other kind by value.
pub open spec fn return_type_spelling(t: AcceptedRustType) -> Seq<char> {
    if t is Text {
        "&str"@
    } else {
        type_spelling(t)
    }
}

/// The receiver expression an emitted accessor reads its field through.
pub open spec fn self_caller_spelling(t: AcceptedRustType) -> Seq<char> {
    if t is Text {
        "&self"@
    } else {
        "self"@
    }
}

impl AcceptedRustType {
    /// The kind's canonical spelling as owned text.
    pub fn spelling(&self) -> (r: String)
        ensures
            r@ == type_spelling(*self),
    {
        match self {
            AcceptedRustType::I8 => "i8".to_owned(),
            AcceptedRustType::I16 => "i16".to_owned(),
            AcceptedRustType::I32 => "i32".to_owned(),
            AcceptedRustType::I64 => "i64".to_owned(),
            AcceptedRustType::I128 => "i128".to_owned(),
            AcceptedRustType::U8 => "u8".to_owned(),
            AcceptedRustType::U16 => "u16".to_owned(),
            AcceptedRustType::U32 => "u32".to_owned(),
            AcceptedRustType::U64 => "u64".to_owned(),
            AcceptedRustType::U128 => "u128".to_owned(),
            AcceptedRustType::Text => "String".to_owned(),
            AcceptedRustType::Bool => "bool".to_owned(),
            AcceptedRustType::F32 => "f32".to_owned(),
            AcceptedRustType::F64 => "f64".to_owned(),
        }
    }

    /// The text emitted in an accessor's return-type position.
    pub fn to_struct_return_type(self) -> (r: String)
        ensures
            r@ == return_type_spelling(self),
    {
        match self {
            AcceptedRustType::Text => "&str".to_owned(),
            _ => self.spelling(),
        }
    }

    /// The receiver expression emitted in an accessor's body.
    pub fn to_struct_self_caller(self) -> (r: String)
        ensures
            r@ == self_caller_spelling(self),
    {
        match self {
            AcceptedRustType::Text => "&self".to_owned(),
            _ => "self".to_owned(),
        }
    }

    /// Parses a schema entry's `type` string: `Some` exactly on the fourteen
    /// canonical spellings, case-sensitive.
    pub fn from_type_str(s: &str) -> (r: Option<AcceptedRustType>)
        ensures
            match r {
                Some(t) => type_spelling(t) == s@,
                None => forall|t: AcceptedRustType| type_spelling(t) != s@,
            },
    {
        let owned = s.to_owned();
        let r: Option<AcceptedRustType> = if owned == "i8".to_owned() {
            Some(AcceptedRustType::I8)
        } else if owned == "i16".to_owned() {
            Some(AcceptedRustType::I16)
        } else if owned == "i32".to_owned() {
            Some(AcceptedRustType::I32)
        } else if owned == "i64".to_owned() {
            Some(AcceptedRustType::I64)
        } else if owned == "i128".to_owned() {
            Some(AcceptedRustType::I128)
        } else if owned == "u8".to_owned() {
            Some(AcceptedRustType::U8)
        } else if owned == "u16".to_owned() {
            Some(AcceptedRustType::U16)
        } else if owned == "u32".to_owned() {
            Some(AcceptedRustType::U32)
        } else if owned == "u64".to_owned() {
            Some(AcceptedRustType::U64)
        } else if owned == "u128".to_owned() {
            Some(AcceptedRustType::U128)
        } else if owned == "String".to_owned() {
            Some(AcceptedRustType::Text)
        } else if owned == "bool".to_owned() {
            Some(AcceptedRustType::Bool)
        } else if owned == "f32".to_owned() {
            Some(AcceptedRustType::F32)
        } else if owned == "f64".to_owned() {
            Some(AcceptedRustType::F64)
        } else {
            None
        };
        proof {
            if r is None {
                assert forall|t: AcceptedRustType| type_spelling(t) != s@ by {
                    match t {
                        AcceptedRustType::I8 => assert(type_spelling(t) == "i8"@),
                        AcceptedRustType::I16 => assert(type_spelling(t) == "i16"@),
                        AcceptedRustType::I32 => assert(type_spelling(t) == "i32"@),
                        AcceptedRustType::I64 => assert(type_spelling(t) == "i64"@),
                        AcceptedRustType::I128 => assert(type_spelling(t) == "i128"@),
                        AcceptedRustType::U8 => assert(type_spelling(t) == "u8"@),
                        AcceptedRustType::U16 => assert(type_spelling(t) == "u16"@),
                        AcceptedRustType::U32 => assert(type_spelling(t) == "u32"@),
                        AcceptedRustType::U64 => assert(type_spelling(t) == "u64"@),
                        AcceptedRustType::U128 => assert(type_spelling(t) == "u128"@),
                        AcceptedRustType::Text => assert(type_spelling(t) == "String"@),
                        AcceptedRustType::Bool => assert(type_spelling(t) == "bool"@),
                        AcceptedRustType::F32 => assert(type_spelling(t) == "f32"@),
                        AcceptedRustType::F64 => assert(type_spelling(t) == "f64"@),
                    }
                }
            }
        }
        r
    }
}

} // verus!
