use vstd::prelude::*;
use crate::decode::JsonDecode;
use crate::error::{tag, tagged, CeleryError};
use crate::json::{member, Json};

verus! {

/// A handler argument (or argument list) produced from a whole payload.
///
/// Tuples compose: every slot of a tuple is decoded from the same, whole
/// payload, and the tuple decodes exactly when every slot does. A slot that
/// fails gives its own error tagged with its type's name.
///
/// The spec functions default to claiming nothing (the name to the empty
/// text), so that a type whose impl is not verified can still implement the
/// trait; every impl of this crate defines them.
pub trait FromJson: Sized {
    /// Payloads that are known to decode.
    open spec fn accepts(v: Json) -> bool {
        false
    }

    /// Payloads that are known not to decode.
    open spec fn rejects(v: Json) -> bool {
        false
    }

    /// Whether `out` is a decoding of the payload `v`.
    open spec fn decodes_to(v: Json, out: Self) -> bool {
        true
    }

    /// Whether `e` is an error that decoding `v` may give.
    open spec fn error_for(v: Json, e: CeleryError) -> bool {
        true
    }

    /// The type's name, as errors show it.
    open spec fn decoded_type_view() -> Seq<char> {
        Seq::empty()
    }

    fn decoded_type() -> (r: String)
        ensures
            r@ == Self::decoded_type_view(),
    ;

    fn from_json_value(val: &Json) -> (r: Result<Self, CeleryError>)
        ensures
            Self::accepts(*val) ==> r is Ok,
            Self::rejects(*val) ==> r is Err,
            r is Ok ==> Self::decodes_to(*val, r->Ok_0),
            r is Err ==> r->Err_0 is InvalidParam && Self::error_for(*val, r->Err_0),
    ;
}

/// A value read from the payload's `args` member.
#[derive(Debug)]
pub struct Args<T>(pub T);

impl<T> Args<T> {
    /// The wrapped value.
    pub fn into_inner(self) -> (r: T)
        ensures
            r == self.0,
    {
        self.0
    }
}

impl<T> std::ops::Deref for Args<T> {
    type Target = T;

    fn deref(&self) -> (r: &T)
        ensures
            *r == self.0,
    {
        &self.0
    }
}

impl<T> std::ops::DerefMut for Args<T> {
    fn deref_mut(&mut self) -> (r: &mut T)
        ensures
            *r == old(self).0,
            final(self).0 == *final(r),
    {
        &mut self.0
    }
}

impl<T> From<T> for Args<T> {
    fn from(t: T) -> (r: Args<T>) {
        Args(t)
    }
}

impl<T> vstd::std_specs::convert::FromSpecImpl<T> for Args<T> {
    open spec fn obeys_from_spec() -> bool {
        true
    }

    open spec fn from_spec(v: T) -> Args<T> {
        Args(v)
    }
}

/// The payload member that an `Args` value is read from.
pub open spec fn args_member(v: Json) -> Option<Json> {
    member(v, "args"@)
}

impl<T: JsonDecode + Default> FromJson for Args<T> {
    /// A payload without an `args` member is accepted: it gives the default.
    open spec fn accepts(v: Json) -> bool {
        match args_member(v) {
            Some(a) => T::accepts(a),
            None => true,
        }
    }

    open spec fn rejects(v: Json) -> bool {
        match args_member(v) {
            Some(a) => T::rejects(a),
            None => false,
        }
    }

    open spec fn decodes_to(v: Json, out: Args<T>) -> bool {
        match args_member(v) {
            Some(a) => T::decodes_to(a, out.0),
            None => call_ensures(T::default, (), out.0),
        }
    }

    /// The error of decoding the `args` member.
    open spec fn error_for(v: Json, e: CeleryError) -> bool {
        match args_member(v) {
            Some(a) => T::error_for(a, e),
            None => false,
        }
    }

    open spec fn decoded_type_view() -> Seq<char> {
        "Args<"@ + T::decoded_type_view() + ">"@
    }

    fn decoded_type() -> (r: String) {
        String::from_str("Args<").concat(T::decoded_type().as_str()).concat(">")
    }

    fn from_json_value(val: &Json) -> (r: Result<Args<T>, CeleryError>) {
        match val.get("args") {
            Some(a) => match T::decode(a) {
                Ok(inner) => Ok(Args(inner)),
                Err(e) => Err(e),
            },
            None => Ok(Args(T::default())),
        }
    }
}

impl<A: FromJson> FromJson for (A,) {
    open spec fn accepts(v: Json) -> bool {
        A::accepts(v)
    }

    open spec fn rejects(v: Json) -> bool {
        A::rejects(v)
    }

    open spec fn decodes_to(v: Json, out: (A,)) -> bool {
        A::decodes_to(v, out.0)
    }

    /// The element's own error, unchanged.
    open spec fn error_for(v: Json, e: CeleryError) -> bool {
        A::error_for(v, e)
    }

    open spec fn decoded_type_view() -> Seq<char> {
        "("@ + A::decoded_type_view() + ",)"@
    }

    fn decoded_type() -> (r: String) {
        String::from_str("(").concat(A::decoded_type().as_str()).concat(",)")
    }

    fn from_json_value(val: &Json) -> (r: Result<(A,), CeleryError>) {
        match A::from_json_value(val) {
            Ok(a) => Ok((a,)),
            Err(e) => Err(e),
        }
    }
}

/// Whether `e` is an error of decoding `v` as `A`, tagged with `A`'s name.
pub open spec fn tagged_error_of<A: FromJson>(v: Json, e: CeleryError) -> bool {
    &&& e is InvalidParam
    &&& exists|inner: CeleryError|
        #[trigger] A::error_for(v, inner) && e->InvalidParam_0@ == tagged(A::decoded_type_view(), inner)
}

impl<A: FromJson, B: FromJson> FromJson for (A, B) {
    open spec fn accepts(v: Json) -> bool {
        A::accepts(v) && B::accepts(v)
    }

    open spec fn rejects(v: Json) -> bool {
        A::rejects(v) || B::rejects(v)
    }

    open spec fn decodes_to(v: Json, out: (A, B)) -> bool {
        A::decodes_to(v, out.0) && B::decodes_to(v, out.1)
    }

    /// The error of the first slot that fails, tagged with that slot's type.
    open spec fn error_for(v: Json, e: CeleryError) -> bool {
        tagged_error_of::<A>(v, e) || tagged_error_of::<B>(v, e)
    }

    open spec fn decoded_type_view() -> Seq<char> {
        "("@ + A::decoded_type_view() + ", "@ + B::decoded_type_view() + ")"@
    }

    fn decoded_type() -> (r: String) {
        String::from_str("(").concat(A::decoded_type().as_str()).concat(", ").concat(B::decoded_type().as_str()).concat(")")
    }

    fn from_json_value(val: &Json) -> (r: Result<(A, B), CeleryError>) {
        let rest = B::from_json_value(val);
        let a = match A::from_json_value(val) {
            Ok(a) => a,
            Err(e) => {
                let r = tag(A::decoded_type().as_str(), e);
                assert(tagged_error_of::<A>(*val, r));
                return Err(r);
            },
        };
        match rest {
            Ok(b) => Ok((a, b)),
            Err(e) => Err(tag(B::decoded_type().as_str(), e)),
        }
    }
}

impl<A: FromJson, B: FromJson, C: FromJson> FromJson for (A, B, C) {
    open spec fn accepts(v: Json) -> bool {
        A::accepts(v) && <(B, C) as FromJson>::accepts(v)
    }

    open spec fn rejects(v: Json) -> bool {
        A::rejects(v) || <(B, C) as FromJson>::rejects(v)
    }

    open spec fn decodes_to(v: Json, out: (A, B, C)) -> bool {
        A::decodes_to(v, out.0) && <(B, C) as FromJson>::decodes_to(v, (out.1, out.2))
    }

    /// The first slot's error tagged with its type, or the error of the rest.
    open spec fn error_for(v: Json, e: CeleryError) -> bool {
        tagged_error_of::<A>(v, e) || <(B, C) as FromJson>::error_for(v, e)
    }

    open spec fn decoded_type_view() -> Seq<char> {
        "("@ + A::decoded_type_view() + ", "@ + B::decoded_type_view() + ", "@ + C::decoded_type_view() + ")"@
    }

    fn decoded_type() -> (r: String) {
        String::from_str("(").concat(A::decoded_type().as_str()).concat(", ").concat(B::decoded_type().as_str()).concat(", ").concat(C::decoded_type().as_str()).concat(")")
    }

    fn from_json_value(val: &Json) -> (r: Result<(A, B, C), CeleryError>) {
        let rest = <(B, C) as FromJson>::from_json_value(val);
        let a = match A::from_json_value(val) {
            Ok(a) => a,
            Err(e) => {
                let r = tag(A::decoded_type().as_str(), e);
                assert(tagged_error_of::<A>(*val, r));
                return Err(r);
            },
        };
        match rest {
            Ok((b, c)) => Ok((a, b, c)),
            Err(e) => Err(e),
        }
    }
}

impl<A: FromJson, B: FromJson, C: FromJson, D: FromJson> FromJson for (A, B, C, D) {
    open spec fn accepts(v: Json) -> bool {
        A::accepts(v) && <(B, C, D) as FromJson>::accepts(v)
    }

    open spec fn rejects(v: Json) -> bool {
        A::rejects(v) || <(B, C, D) as FromJson>::rejects(v)
    }

    open spec fn decodes_to(v: Json, out: (A, B, C, D)) -> bool {
        A::decodes_to(v, out.0) && <(B, C, D) as FromJson>::decodes_to(v, (out.1, out.2, out.3))
    }

    /// The first slot's error tagged with its type, or the error of the rest.
    open spec fn error_for(v: Json, e: CeleryError) -> bool {
        tagged_error_of::<A>(v, e) || <(B, C, D) as FromJson>::error_for(v, e)
    }

    open spec fn decoded_type_view() -> Seq<char> {
        "("@ + A::decoded_type_view() + ", "@ + B::decoded_type_view() + ", "@ + C::decoded_type_view() + ", "@ + D::decoded_type_view() + ")"@
    }

    fn decoded_type() -> (r: String) {
        String::from_str("(").concat(A::decoded_type().as_str()).concat(", ").concat(B::decoded_type().as_str()).concat(", ").concat(C::decoded_type().as_str()).concat(", ").concat(D::decoded_type().as_str()).concat(")")
    }

    fn from_json_value(val: &Json) -> (r: Result<(A, B, C, D), CeleryError>) {
        let rest = <(B, C, D) as FromJson>::from_json_value(val);
        let a = match A::from_json_value(val) {
            Ok(a) => a,
            Err(e) => {
                let r = tag(A::decoded_type().as_str(), e);
                assert(tagged_error_of::<A>(*val, r));
                return Err(r);
            },
        };
        match rest {
            Ok((b, c, d)) => Ok((a, b, c, d)),
            Err(e) => Err(e),
        }
    }
}

impl<A: FromJson, B: FromJson, C: FromJson, D: FromJson, E: FromJson> FromJson for (A, B, C, D, E) {
    open spec fn accepts(v: Json) -> bool {
        A::accepts(v) && <(B, C, D, E) as FromJson>::accepts(v)
    }

    open spec fn rejects(v: Json) -> bool {
        A::rejects(v) || <(B, C, D, E) as FromJson>::rejects(v)
    }

    open spec fn decodes_to(v: Json, out: (A, B, C, D, E)) -> bool {
        A::decodes_to(v, out.0) && <(B, C, D, E) as FromJson>::decodes_to(v, (out.1, out.2, out.3, out.4))
    }

    /// The first slot's error tagged with its type, or the error of the rest.
    open spec fn error_for(v: Json, e: CeleryError) -> bool {
        tagged_error_of::<A>(v, e) || <(B, C, D, E) as FromJson>::error_for(v, e)
    }

    open spec fn decoded_type_view() -> Seq<char> {
        "("@ + A::decoded_type_view() + ", "@ + B::decoded_type_view() + ", "@ + C::decoded_type_view() + ", "@ + D::decoded_type_view() + ", "@ + E::decoded_type_view() + ")"@
    }

    fn decoded_type() -> (r: String) {
        String::from_str("(").concat(A::decoded_type().as_str()).concat(", ").concat(B::decoded_type().as_str()).concat(", ").concat(C::decoded_type().as_str()).concat(", ").concat(D::decoded_type().as_str()).concat(", ").concat(E::decoded_type().as_str()).concat(")")
    }

    fn from_json_value(val: &Json) -> (r: Result<(A, B, C, D, E), CeleryError>) {
        let rest = <(B, C, D, E) as FromJson>::from_json_value(val);
        let a = match A::from_json_value(val) {
            Ok(a) => a,
            Err(e) => {
                let r = tag(A::decoded_type().as_str(), e);
                assert(tagged_error_of::<A>(*val, r));
                return Err(r);
            },
        };
        match rest {
            Ok((b, c, d, e)) => Ok((a, b, c, d, e)),
            Err(e) => Err(e),
        }
    }
}

/// A payload without an `args` member always decodes as `Args<T>`, and
/// exactly into `T`'s default value.
pub proof fn lemma_missing_args_gives_default<T: JsonDecode + Default>(v: Json, out: Args<T>)
    requires
        args_member(v) is None,
    ensures
        <Args<T> as FromJson>::accepts(v),
        !<Args<T> as FromJson>::rejects(v),
        <Args<T> as FromJson>::decodes_to(v, out) <==> call_ensures(T::default, (), out.0),
{
}

/// A pair decodes from a payload exactly when each component decodes from
/// that same payload on its own, and into exactly those components.
pub proof fn lemma_pair_decodes_componentwise<A: FromJson, B: FromJson>(v: Json, out: (A, B))
    ensures
        <(A, B) as FromJson>::accepts(v) <==> (A::accepts(v) && B::accepts(v)),
        <(A, B) as FromJson>::rejects(v) <==> (A::rejects(v) || B::rejects(v)),
        <(A, B) as FromJson>::decodes_to(v, out) <==> (A::decodes_to(v, out.0) && B::decodes_to(
            v,
            out.1,
        )),
{
}

/// A triple decodes from a payload exactly when each component decodes from
/// that same payload on its own, and into exactly those components.
pub proof fn lemma_triple_decodes_componentwise<A: FromJson, B: FromJson, C: FromJson>(
    v: Json,
    out: (A, B, C),
)
    ensures
        <(A, B, C) as FromJson>::accepts(v) <==> (A::accepts(v) && B::accepts(v) && C::accepts(v)),
        <(A, B, C) as FromJson>::rejects(v) <==> (A::rejects(v) || B::rejects(v) || C::rejects(v)),
        <(A, B, C) as FromJson>::decodes_to(v, out) <==> (A::decodes_to(v, out.0) && B::decodes_to(
            v,
            out.1,
        ) && C::decodes_to(v, out.2)),
{
}

/// A 4-tuple decodes from a payload exactly when each component decodes from
/// that same payload on its own, and into exactly those components.
pub proof fn lemma_quad_decodes_componentwise<A: FromJson, B: FromJson, C: FromJson, D: FromJson>(
    v: Json,
    out: (A, B, C, D),
)
    ensures
        <(A, B, C, D) as FromJson>::accepts(v) <==> (A::accepts(v) && B::accepts(v) && C::accepts(v)
            && D::accepts(v)),
        <(A, B, C, D) as FromJson>::rejects(v) <==> (A::rejects(v) || B::rejects(v) || C::rejects(v)
            || D::rejects(v)),
        <(A, B, C, D) as FromJson>::decodes_to(v, out) <==> (A::decodes_to(v, out.0)
            && B::decodes_to(v, out.1) && C::decodes_to(v, out.2) && D::decodes_to(v, out.3)),
{
}

/// A 5-tuple decodes from a payload exactly when each component decodes from
/// that same payload on its own, and into exactly those components.
pub proof fn lemma_quint_decodes_componentwise<
    A: FromJson,
    B: FromJson,
    C: FromJson,
    D: FromJson,
    E: FromJson,
>(v: Json, out: (A, B, C, D, E))
    ensures
        <(A, B, C, D, E) as FromJson>::accepts(v) <==> (A::accepts(v) && B::accepts(v)
            && C::accepts(v) && D::accepts(v) && E::accepts(v)),
        <(A, B, C, D, E) as FromJson>::rejects(v) <==> (A::rejects(v) || B::rejects(v)
            || C::rejects(v) || D::rejects(v) || E::rejects(v)),
        <(A, B, C, D, E) as FromJson>::decodes_to(v, out) <==> (A::decodes_to(v, out.0)
            && B::decodes_to(v, out.1) && C::decodes_to(v, out.2) && D::decodes_to(v, out.3)
            && E::decodes_to(v, out.4)),
{
}

/// The order of the two parts of a pair does not matter: swapping the
/// component types decodes the same payload into the same components.
pub proof fn lemma_pair_order_irrelevant<A: FromJson, B: FromJson>(v: Json, a: A, b: B)
    ensures
        <(A, B) as FromJson>::accepts(v) == <(B, A) as FromJson>::accepts(v),
        <(A, B) as FromJson>::rejects(v) == <(B, A) as FromJson>::rejects(v),
        <(A, B) as FromJson>::decodes_to(v, (a, b)) == <(B, A) as FromJson>::decodes_to(v, (b, a)),
{
}

} // verus!
