use vstd::prelude::*;
use vstd::string::*;
use crate::error::CeleryError;
use crate::json::Json;

verus! {

/// Plain data read from a JSON value: numbers, strings, arrays by position.
///
/// The spec functions default to claiming nothing (the name to the empty
/// text), so that a type whose impl is not verified can still implement the
/// trait; every impl of this crate defines them, with `rejects` the negation
/// of `accepts`.
pub trait JsonDecode: Sized {
    /// Values that are known to decode.
    open spec fn accepts(v: Json) -> bool {
        false
    }

    /// Values that are known not to decode.
    open spec fn rejects(v: Json) -> bool {
        false
    }

    /// Whether `out` is what `v` reads as.
    open spec fn decodes_to(v: Json, out: Self) -> bool {
        true
    }

    /// Whether `e` is an error that decoding `v` may give.
    open spec fn error_for(v: Json, e: CeleryError) -> bool {
        true
    }

    /// The type's name, as errors show it.
    open spec fn decoded_type_view() -> Seq<char> {
        Seq::empty()
    }

    fn decoded_type() -> (r: String)
        ensures
            r@ == Self::decoded_type_view(),
    ;

    fn decode(val: &Json) -> (r: Result<Self, CeleryError>)
        ensures
            Self::accepts(*val) ==> r is Ok,
            Self::rejects(*val) ==> r is Err,
            r is Ok ==> Self::decodes_to(*val, r->Ok_0),
            r is Err ==> r->Err_0 is InvalidParam && Self::error_for(*val, r->Err_0),
    ;
}

/// A value written as JSON.
pub trait ToJson: Sized {
    /// Whether `j` is the JSON form of `x`.
    spec fn encodes_to(x: Self, j: Json) -> bool;

    fn to_json(&self) -> (j: Json)
        ensures
            Self::encodes_to(*self, j),
    ;
}

/// Whether `v` is an integer within `[lo, hi]`.
pub open spec fn int_within(v: Json, lo: int, hi: int) -> bool {
    v is Int && lo <= v->Int_0 <= hi
}

/// Whether `e` is the error for a value that is not `what`.
pub open spec fn is_mismatch(e: CeleryError, what: Seq<char>) -> bool {
    e is InvalidParam && e->InvalidParam_0@ == "expected "@ + what
}

fn mismatch(what: &str) -> (e: CeleryError)
    ensures
        is_mismatch(e, what@),
{
    CeleryError::InvalidParam(String::from_str("expected ").concat(what))
}

impl JsonDecode for bool {
    open spec fn accepts(v: Json) -> bool {
        v is Bool
    }

    open spec fn rejects(v: Json) -> bool {
        !Self::accepts(v)
    }

    open spec fn decodes_to(v: Json, out: bool) -> bool {
        v == Json::Bool(out)
    }

    open spec fn error_for(v: Json, e: CeleryError) -> bool {
        is_mismatch(e, "a boolean"@)
    }

    open spec fn decoded_type_view() -> Seq<char> {
        "bool"@
    }

    fn decoded_type() -> (r: String) {
        String::from_str("bool")
    }

    fn decode(val: &Json) -> (r: Result<bool, CeleryError>) {
        match val {
            Json::Bool(b) => Ok(*b),
            _ => Err(mismatch("a boolean")),
        }
    }
}

impl JsonDecode for i32 {
    open spec fn accepts(v: Json) -> bool {
        int_within(v, i32::MIN as int, i32::MAX as int)
    }

    open spec fn rejects(v: Json) -> bool {
        !Self::accepts(v)
    }

    open spec fn decodes_to(v: Json, out: i32) -> bool {
        v == Json::Int(out as i128)
    }

    open spec fn error_for(v: Json, e: CeleryError) -> bool {
        is_mismatch(e, "an i32"@)
    }

    open spec fn decoded_type_view() -> Seq<char> {
        "i32"@
    }

    fn decoded_type() -> (r: String) {
        String::from_str("i32")
    }

    fn decode(val: &Json) -> (r: Result<i32, CeleryError>) {
        match val {
            Json::Int(n) => {
                if i32::MIN as i128 <= *n && *n <= i32::MAX as i128 {
                    Ok(*n as i32)
                } else {
                    Err(mismatch("an i32"))
                }
            },
            _ => Err(mismatch("an i32")),
        }
    }
}

impl JsonDecode for u32 {
    open spec fn accepts(v: Json) -> bool {
        int_within(v, 0, u32::MAX as int)
    }

    open spec fn rejects(v: Json) -> bool {
        !Self::accepts(v)
    }

    open spec fn decodes_to(v: Json, out: u32) -> bool {
        v == Json::Int(out as i128)
    }

    open spec fn error_for(v: Json, e: CeleryError) -> bool {
        is_mismatch(e, "a u32"@)
    }

    open spec fn decoded_type_view() -> Seq<char> {
        "u32"@
    }

    fn decoded_type() -> (r: String) {
        String::from_str("u32")
    }

    fn decode(val: &Json) -> (r: Result<u32, CeleryError>) {
        match val {
            Json::Int(n) => {
                if 0 <= *n && *n <= u32::MAX as i128 {
                    Ok(*n as u32)
                } else {
                    Err(mismatch("a u32"))
                }
            },
            _ => Err(mismatch("a u32")),
        }
    }
}

impl JsonDecode for i64 {
    open spec fn accepts(v: Json) -> bool {
        int_within(v, i64::MIN as int, i64::MAX as int)
    }

    open spec fn rejects(v: Json) -> bool {
        !Self::accepts(v)
    }

    open spec fn decodes_to(v: Json, out: i64) -> bool {
        v == Json::Int(out as i128)
    }

    open spec fn error_for(v: Json, e: CeleryError) -> bool {
        is_mismatch(e, "an i64"@)
    }

    open spec fn decoded_type_view() -> Seq<char> {
        "i64"@
    }

    fn decoded_type() -> (r: String) {
        String::from_str("i64")
    }

    fn decode(val: &Json) -> (r: Result<i64, CeleryError>) {
        match val {
            Json::Int(n) => {
                if i64::MIN as i128 <= *n && *n <= i64::MAX as i128 {
                    Ok(*n as i64)
                } else {
                    Err(mismatch("an i64"))
                }
            },
            _ => Err(mismatch("an i64")),
        }
    }
}

impl JsonDecode for u64 {
    open spec fn accepts(v: Json) -> bool {
        int_within(v, 0, u64::MAX as int)
    }

    open spec fn rejects(v: Json) -> bool {
        !Self::accepts(v)
    }

    open spec fn decodes_to(v: Json, out: u64) -> bool {
        v == Json::Int(out as i128)
    }

    open spec fn error_for(v: Json, e: CeleryError) -> bool {
        is_mismatch(e, "a u64"@)
    }

    open spec fn decoded_type_view() -> Seq<char> {
        "u64"@
    }

    fn decoded_type() -> (r: String) {
        String::from_str("u64")
    }

    fn decode(val: &Json) -> (r: Result<u64, CeleryError>) {
        match val {
            Json::Int(n) => {
                if 0 <= *n && *n <= u64::MAX as i128 {
                    Ok(*n as u64)
                } else {
                    Err(mismatch("a u64"))
                }
            },
            _ => Err(mismatch("a u64")),
        }
    }
}

impl JsonDecode for String {
    open spec fn accepts(v: Json) -> bool {
        v is Str
    }

    open spec fn rejects(v: Json) -> bool {
        !Self::accepts(v)
    }

    open spec fn decodes_to(v: Json, out: String) -> bool {
        v is Str && out@ == v->Str_0@
    }

    open spec fn error_for(v: Json, e: CeleryError) -> bool {
        is_mismatch(e, "a string"@)
    }

    open spec fn decoded_type_view() -> Seq<char> {
        "String"@
    }

    fn decoded_type() -> (r: String) {
        String::from_str("String")
    }

    fn decode(val: &Json) -> (r: Result<String, CeleryError>) {
        match val {
            Json::Str(s) => Ok(s.clone()),
            _ => Err(mismatch("a string")),
        }
    }
}

impl<T: JsonDecode> JsonDecode for Vec<T> {
    open spec fn accepts(v: Json) -> bool {
        v is Array && forall|i: int| 0 <= i < v->Array_0@.len() ==> T::accepts(#[trigger] v->Array_0@[i])
    }

    open spec fn rejects(v: Json) -> bool {
        !(v is Array) || exists|i: int| 0 <= i < v->Array_0@.len() && T::rejects(#[trigger] v->Array_0@[i])
    }

    open spec fn decodes_to(v: Json, out: Vec<T>) -> bool {
        &&& v is Array
        &&& out@.len() == v->Array_0@.len()
        &&& forall|i: int| 0 <= i < out@.len() ==> T::decodes_to(#[trigger] v->Array_0@[i], out@[i])
    }

    /// Not an array, or the error of the first element that fails.
    open spec fn error_for(v: Json, e: CeleryError) -> bool {
        ||| !(v is Array) && is_mismatch(e, "an array"@)
        ||| v is Array && exists|i: int| 0 <= i < v->Array_0@.len() && T::error_for(#[trigger] v->Array_0@[i], e)
    }

    open spec fn decoded_type_view() -> Seq<char> {
        "Vec<"@ + T::decoded_type_view() + ">"@
    }

    fn decoded_type() -> (r: String) {
        String::from_str("Vec<").concat(T::decoded_type().as_str()).concat(">")
    }

    fn decode(val: &Json) -> (r: Result<Vec<T>, CeleryError>) {
        match val {
            Json::Array(items) => {
                let mut out: Vec<T> = Vec::new();
                let mut i: usize = 0;
                while i < items.len()
                    invariant
                        *val == Json::Array(*items),
                        i <= items@.len(),
                        out@.len() == i,
                        forall|j: int| 0 <= j < i ==> !T::rejects(#[trigger] items@[j]),
                        forall|j: int| 0 <= j < i ==> T::decodes_to(#[trigger] items@[j], out@[j]),
                    decreases items.len() - i,
                {
                    match T::decode(&items[i]) {
                        Ok(x) => out.push(x),
                        Err(e) => {
                            assert(!T::accepts(val->Array_0@[i as int]));
                            assert(T::error_for(val->Array_0@[i as int], e));
                            return Err(e);
                        },
                    }
                    i = i + 1;
                }
                assert(!Self::rejects(*val));
                Ok(out)
            },
            _ => Err(mismatch("an array")),
        }
    }
}

/// Whether `v` is an array of exactly `n` elements.
pub open spec fn array_of(v: Json, n: nat) -> bool {
    v is Array && v->Array_0@.len() == n
}

impl<A: JsonDecode, B: JsonDecode> JsonDecode for (A, B) {
    open spec fn accepts(v: Json) -> bool {
        array_of(v, 2) && A::accepts(v->Array_0@[0]) && B::accepts(v->Array_0@[1])
    }

    open spec fn rejects(v: Json) -> bool {
        !array_of(v, 2) || A::rejects(v->Array_0@[0]) || B::rejects(v->Array_0@[1])
    }

    open spec fn decodes_to(v: Json, out: (A, B)) -> bool {
        array_of(v, 2) && A::decodes_to(v->Array_0@[0], out.0) && B::decodes_to(v->Array_0@[1], out.1)
    }

    /// Not a pair, or the error of the first element that fails.
    open spec fn error_for(v: Json, e: CeleryError) -> bool {
        ||| !array_of(v, 2) && is_mismatch(e, "an array of 2 elements"@)
        ||| array_of(v, 2) && (A::error_for(v->Array_0@[0], e) || B::error_for(v->Array_0@[1], e))
    }

    open spec fn decoded_type_view() -> Seq<char> {
        "("@ + A::decoded_type_view() + ", "@ + B::decoded_type_view() + ")"@
    }

    fn decoded_type() -> (r: String) {
        String::from_str("(").concat(A::decoded_type().as_str()).concat(", ").concat(
            B::decoded_type().as_str(),
        ).concat(")")
    }

    fn decode(val: &Json) -> (r: Result<(A, B), CeleryError>) {
        match val {
            Json::Array(items) => {
                if items.len() != 2 {
                    return Err(mismatch("an array of 2 elements"));
                }
                let a = match A::decode(&items[0]) {
                    Ok(a) => a,
                    Err(e) => return Err(e),
                };
                let b = match B::decode(&items[1]) {
                    Ok(b) => b,
                    Err(e) => return Err(e),
                };
                Ok((a, b))
            },
            _ => Err(mismatch("an array of 2 elements")),
        }
    }
}

impl<A: JsonDecode, B: JsonDecode, C: JsonDecode> JsonDecode for (A, B, C) {
    open spec fn accepts(v: Json) -> bool {
        &&& array_of(v, 3)
        &&& A::accepts(v->Array_0@[0])
        &&& B::accepts(v->Array_0@[1])
        &&& C::accepts(v->Array_0@[2])
    }

    open spec fn rejects(v: Json) -> bool {
        ||| !array_of(v, 3)
        ||| A::rejects(v->Array_0@[0])
        ||| B::rejects(v->Array_0@[1])
        ||| C::rejects(v->Array_0@[2])
    }

    open spec fn decodes_to(v: Json, out: (A, B, C)) -> bool {
        &&& array_of(v, 3)
        &&& A::decodes_to(v->Array_0@[0], out.0)
        &&& B::decodes_to(v->Array_0@[1], out.1)
        &&& C::decodes_to(v->Array_0@[2], out.2)
    }

    /// Not a triple, or the error of the first element that fails.
    open spec fn error_for(v: Json, e: CeleryError) -> bool {
        ||| !array_of(v, 3) && is_mismatch(e, "an array of 3 elements"@)
        ||| array_of(v, 3) && (A::error_for(v->Array_0@[0], e) || B::error_for(v->Array_0@[1], e)
            || C::error_for(v->Array_0@[2], e))
    }

    open spec fn decoded_type_view() -> Seq<char> {
        "("@ + A::decoded_type_view() + ", "@ + B::decoded_type_view() + ", "@ + C::decoded_type_view() + ")"@
    }

    fn decoded_type() -> (r: String) {
        String::from_str("(").concat(A::decoded_type().as_str()).concat(", ").concat(
            B::decoded_type().as_str(),
        ).concat(", ").concat(C::decoded_type().as_str()).concat(")")
    }

    fn decode(val: &Json) -> (r: Result<(A, B, C), CeleryError>) {
        match val {
            Json::Array(items) => {
                if items.len() != 3 {
                    return Err(mismatch("an array of 3 elements"));
                }
                let a = match A::decode(&items[0]) {
                    Ok(a) => a,
                    Err(e) => return Err(e),
                };
                let b = match B::decode(&items[1]) {
                    Ok(b) => b,
                    Err(e) => return Err(e),
                };
                let c = match C::decode(&items[2]) {
                    Ok(c) => c,
                    Err(e) => return Err(e),
                };
                Ok((a, b, c))
            },
            _ => Err(mismatch("an array of 3 elements")),
        }
    }
}

impl ToJson for bool {
    open spec fn encodes_to(x: bool, j: Json) -> bool {
        j == Json::Bool(x)
    }

    fn to_json(&self) -> (j: Json) {
        Json::Bool(*self)
    }
}

impl ToJson for i32 {
    open spec fn encodes_to(x: i32, j: Json) -> bool {
        j == Json::Int(x as i128)
    }

    fn to_json(&self) -> (j: Json) {
        Json::Int(*self as i128)
    }
}

impl ToJson for u32 {
    open spec fn encodes_to(x: u32, j: Json) -> bool {
        j == Json::Int(x as i128)
    }

    fn to_json(&self) -> (j: Json) {
        Json::Int(*self as i128)
    }
}

impl ToJson for i64 {
    open spec fn encodes_to(x: i64, j: Json) -> bool {
        j == Json::Int(x as i128)
    }

    fn to_json(&self) -> (j: Json) {
        Json::Int(*self as i128)
    }
}

impl ToJson for u64 {
    open spec fn encodes_to(x: u64, j: Json) -> bool {
        j == Json::Int(x as i128)
    }

    fn to_json(&self) -> (j: Json) {
        Json::Int(*self as i128)
    }
}

impl ToJson for String {
    open spec fn encodes_to(x: String, j: Json) -> bool {
        j is Str && j->Str_0@ == x@
    }

    fn to_json(&self) -> (j: Json) {
        Json::Str(self.clone())
    }
}

impl ToJson for () {
    open spec fn encodes_to(x: (), j: Json) -> bool {
        j == Json::Null
    }

    fn to_json(&self) -> (j: Json) {
        Json::Null
    }
}

impl<T: ToJson> ToJson for Vec<T> {
    open spec fn encodes_to(x: Vec<T>, j: Json) -> bool {
        &&& j is Array
        &&& j->Array_0@.len() == x@.len()
        &&& forall|i: int| 0 <= i < x@.len() ==> T::encodes_to(x@[i], #[trigger] j->Array_0@[i])
    }

    fn to_json(&self) -> (j: Json) {
        let mut items: Vec<Json> = Vec::new();
        let mut i: usize = 0;
        while i < self.len()
            invariant
                i <= self@.len(),
                items@.len() == i,
                forall|k: int| 0 <= k < i ==> T::encodes_to(self@[k], #[trigger] items@[k]),
            decreases self.len() - i,
        {
            items.push(self[i].to_json());
            i = i + 1;
        }
        Json::Array(items)
    }
}

impl<T: ToJson> ToJson for Option<T> {
    open spec fn encodes_to(x: Option<T>, j: Json) -> bool {
        match x {
            Some(v) => T::encodes_to(v, j),
            None => j == Json::Null,
        }
    }

    fn to_json(&self) -> (j: Json) {
        match self {
            Some(v) => v.to_json(),
            None => Json::Null,
        }
    }
}

} // verus!
