//! The error type that RPC methods return.
use vstd::prelude::*;
use crate::codec::RpcErrCodec;
use crate::error::RpcIntErr;
use vstd::std_specs::cmp::{PartialEqSpec, PartialEqSpecImpl};

verus! {

/// The error of an RPC method: an error of the user's type, or an internal
/// error of the framework.
#[derive(Debug)]
pub enum RpcError<E: RpcErrCodec> {
    User(E),
    Rpc(RpcIntErr),
}

/// The abstract value of an [`RpcError`].
pub enum RpcErrorValue<V> {
    User(V),
    Rpc(RpcIntErr),
}

impl<E: RpcErrCodec> RpcError<E> {
    /// The abstract value of the error.
    pub open spec fn value(&self) -> RpcErrorValue<E::Value> {
        match self {
            RpcError::User(e) => RpcErrorValue::User(e.value()),
            RpcError::Rpc(e) => RpcErrorValue::Rpc(*e),
        }
    }

    /// The message that the error displays as: the user error's own message,
    /// or the string form of the internal error.
    pub fn to_string(&self) -> (r: String)
        ensures
            r@ == match self {
                RpcError::User(e) => E::spec_fmt(e.value()),
                RpcError::Rpc(e) => e.spec_name(),
            },
    {
        match self {
            RpcError::User(e) => e.fmt(),
            RpcError::Rpc(e) => e.to_string(),
        }
    }
}

impl<E: RpcErrCodec> From<E> for RpcError<E> {
    fn from(e: E) -> (r: RpcError<E>) {
        RpcError::User(e)
    }
}

impl<E: RpcErrCodec> vstd::std_specs::convert::FromSpecImpl<E> for RpcError<E> {
    open spec fn obeys_from_spec() -> bool {
        true
    }

    open spec fn from_spec(e: E) -> RpcError<E> {
        RpcError::User(e)
    }
}

impl<E: RpcErrCodec> From<RpcIntErr> for RpcError<E> {
    fn from(e: RpcIntErr) -> (r: RpcError<E>) {
        RpcError::Rpc(e)
    }
}

impl<E: RpcErrCodec> vstd::std_specs::convert::FromSpecImpl<RpcIntErr> for RpcError<E> {
    open spec fn obeys_from_spec() -> bool {
        true
    }

    open spec fn from_spec(e: RpcIntErr) -> RpcError<E> {
        RpcError::Rpc(e)
    }
}

impl<'a> From<&'a str> for RpcError<String> {
    /// A user error carrying the text `e`.
    fn from(e: &'a str) -> (r: RpcError<String>)
        ensures
            r matches RpcError::User(s) && s@ == e@,
    {
        RpcError::from_text(e)
    }
}

/// A `String` value is not determined by its text in specifications, so this
/// conversion is described by the `ensures` of its `from` (a user error with
/// the same text), and not by `from_spec`.
impl<'a> vstd::std_specs::convert::FromSpecImpl<&'a str> for RpcError<String> {
    open spec fn obeys_from_spec() -> bool {
        false
    }

    open spec fn from_spec(e: &'a str) -> RpcError<String> {
        vstd::pervasive::arbitrary()
    }
}

impl RpcError<String> {
    /// A user error carrying the text `e`.
    pub fn from_text(e: &str) -> (r: RpcError<String>)
        ensures
            r matches RpcError::User(s) && s@ == e@,
    {
        RpcError::User(String::from_str(e))
    }
}

impl<E: RpcErrCodec + PartialEq> PartialEq for RpcError<E> {
    /// Two user errors are equal as the user type's `==` finds them (for a
    /// `String` error: when the texts are equal); two internal errors when
    /// they are the same; a user error never equals an internal one.
    fn eq(&self, other: &RpcError<E>) -> (r: bool)
        ensures
            match (self, other) {
                (RpcError::User(a), RpcError::User(b)) => call_ensures(E::eq, (a, b), r),
                (RpcError::Rpc(a), RpcError::Rpc(b)) => r == (a == b),
                _ => !r,
            },
    {
        match self {
            RpcError::Rpc(r) => {
                if let RpcError::Rpc(o) = other {
                    return r.code() == o.code();
                }
            },
            RpcError::User(r) => {
                if let RpcError::User(o) = other {
                    let same = E::eq;
                    return same(r, o);
                }
            },
        }
        false
    }
}

impl<E: RpcErrCodec + PartialEq> PartialEqSpecImpl for RpcError<E> {
    open spec fn obeys_eq_spec() -> bool {
        E::obeys_eq_spec()
    }

    open spec fn eq_spec(&self, other: &RpcError<E>) -> bool {
        match (self, other) {
            (RpcError::Rpc(a), RpcError::Rpc(b)) => a == b,
            (RpcError::User(a), RpcError::User(b)) => a.eq_spec(b),
            _ => false,
        }
    }
}

impl<E: RpcErrCodec> PartialEq<RpcIntErr> for RpcError<E> {
    fn eq(&self, other: &RpcIntErr) -> (r: bool) {
        if let RpcError::Rpc(r) = self {
            return r.code() == other.code();
        }
        false
    }
}

impl<E: RpcErrCodec> PartialEqSpecImpl<RpcIntErr> for RpcError<E> {
    open spec fn obeys_eq_spec() -> bool {
        true
    }

    open spec fn eq_spec(&self, other: &RpcIntErr) -> bool {
        self matches RpcError::Rpc(e) && e == *other
    }
}

impl<E: RpcErrCodec + PartialEq> PartialEq<E> for RpcError<E> {
    /// A user error equals `other` as the user type's `==` finds them; an
    /// internal error never equals a user error value.
    fn eq(&self, other: &E) -> (r: bool)
        ensures
            match self {
                RpcError::User(u) => call_ensures(E::eq, (u, other), r),
                RpcError::Rpc(_) => !r,
            },
    {
        if let RpcError::User(u) = self {
            let same = E::eq;
            return same(u, other);
        }
        false
    }
}

impl<E: RpcErrCodec + PartialEq> PartialEqSpecImpl<E> for RpcError<E> {
    open spec fn obeys_eq_spec() -> bool {
        E::obeys_eq_spec()
    }

    open spec fn eq_spec(&self, other: &E) -> bool {
        self matches RpcError::User(u) && u.eq_spec(other)
    }
}

} // verus!
