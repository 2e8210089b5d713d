//! Errors of the RPC framework: internal error codes, the encoded form that
//! travels on the wire, and the codec trait for user-defined error types.
use vstd::prelude::*;
use crate::text::{bytes_eq, decimal, fmt_u64, lemma_str_of_bytes, str_eq, str_from_utf8};
use vstd::string::StringSliceAdditionalSpecFns;
use vstd::utf8::{decode_utf8, decode_utf8_encode_utf8, encode_utf8, valid_utf8};

verus! {

/// The prefix reserved for internal error strings; user error strings should
/// avoid it.
pub const RPC_ERR_PREFIX: &'static str = "rpc_";

/// An internal error of the framework.
///
/// The variants before `Method` (`Unreachable`, `IO`, `Timeout`) are the
/// retriable ones.
#[derive(Debug, PartialEq, Eq, Structural, PartialOrd, Clone, Copy)]
pub enum RpcIntErr {
    /// Ping or connect error
    Unreachable,
    /// IO error
    IO,
    /// Task timeout
    Timeout,
    /// Method not found
    Method,
    /// Service not found
    Service,
    /// Encode error
    Encode,
    /// Decode error
    Decode,
    /// Internal error
    Internal,
    /// Invalid version number in the rpc header
    Version,
}

impl RpcIntErr {
    /// The position of the variant, which orders the variants.
    pub open spec fn spec_code(self) -> u8 {
        match self {
            RpcIntErr::Unreachable => 0,
            RpcIntErr::IO => 1,
            RpcIntErr::Timeout => 2,
            RpcIntErr::Method => 3,
            RpcIntErr::Service => 4,
            RpcIntErr::Encode => 5,
            RpcIntErr::Decode => 6,
            RpcIntErr::Internal => 7,
            RpcIntErr::Version => 8,
        }
    }

    /// The string form of the error, with the reserved `rpc_` prefix.
    pub open spec fn spec_name(self) -> Seq<char> {
        match self {
            RpcIntErr::Unreachable => "rpc_unreachable"@,
            RpcIntErr::IO => "rpc_io_err"@,
            RpcIntErr::Timeout => "rpc_timeout"@,
            RpcIntErr::Method => "rpc_method_notfound"@,
            RpcIntErr::Service => "rpc_service_notfound"@,
            RpcIntErr::Encode => "rpc_encode"@,
            RpcIntErr::Decode => "rpc_decode"@,
            RpcIntErr::Internal => "rpc_internal_err"@,
            RpcIntErr::Version => "rpc_invalid_ver"@,
        }
    }

    /// Whether an error of this kind may be retried on another node.
    pub open spec fn spec_retriable(self) -> bool {
        self.spec_code() < RpcIntErr::Method.spec_code()
    }

    /// The position of the variant.
    pub fn code(&self) -> (r: u8)
        ensures
            r == self.spec_code(),
    {
        match self {
            RpcIntErr::Unreachable => 0,
            RpcIntErr::IO => 1,
            RpcIntErr::Timeout => 2,
            RpcIntErr::Method => 3,
            RpcIntErr::Service => 4,
            RpcIntErr::Encode => 5,
            RpcIntErr::Decode => 6,
            RpcIntErr::Internal => 7,
            RpcIntErr::Version => 8,
        }
    }

    /// Whether the error comes before `Method`, and so may be retried.
    pub fn is_retriable(&self) -> (r: bool)
        ensures
            r == self.spec_retriable(),
    {
        self.code() < 3
    }

    /// The string form of the error.
    pub fn as_str(&self) -> (r: &'static str)
        ensures
            r@ == self.spec_name(),
    {
        match self {
            RpcIntErr::Unreachable => "rpc_unreachable",
            RpcIntErr::IO => "rpc_io_err",
            RpcIntErr::Timeout => "rpc_timeout",
            RpcIntErr::Method => "rpc_method_notfound",
            RpcIntErr::Service => "rpc_service_notfound",
            RpcIntErr::Encode => "rpc_encode",
            RpcIntErr::Decode => "rpc_decode",
            RpcIntErr::Internal => "rpc_internal_err",
            RpcIntErr::Version => "rpc_invalid_ver",
        }
    }

    /// The UTF-8 bytes of the string form.
    pub fn as_bytes(&self) -> (r: &'static [u8])
        ensures
            r@ == vstd::utf8::encode_utf8(self.spec_name()),
    {
        self.as_str().as_bytes()
    }

    /// The string form as an owned `String`.
    pub fn to_string(&self) -> (r: String)
        ensures
            r@ == self.spec_name(),
    {
        String::from_str(self.as_str())
    }

    /// Parses the string form back into the error.
    pub fn from_str(s: &str) -> (r: Result<RpcIntErr, ()>)
        ensures
            r == rpc_int_err_from_name(s@),
    {
        if str_eq(s, "rpc_unreachable") {
            Ok(RpcIntErr::Unreachable)
        } else if str_eq(s, "rpc_io_err") {
            Ok(RpcIntErr::IO)
        } else if str_eq(s, "rpc_timeout") {
            Ok(RpcIntErr::Timeout)
        } else if str_eq(s, "rpc_method_notfound") {
            Ok(RpcIntErr::Method)
        } else if str_eq(s, "rpc_service_notfound") {
            Ok(RpcIntErr::Service)
        } else if str_eq(s, "rpc_encode") {
            Ok(RpcIntErr::Encode)
        } else if str_eq(s, "rpc_decode") {
            Ok(RpcIntErr::Decode)
        } else if str_eq(s, "rpc_internal_err") {
            Ok(RpcIntErr::Internal)
        } else if str_eq(s, "rpc_invalid_ver") {
            Ok(RpcIntErr::Version)
        } else {
            Err(())
        }
    }
}

/// The error whose string form is `name`, if any.
pub open spec fn rpc_int_err_from_name(name: Seq<char>) -> Result<RpcIntErr, ()> {
    if name == RpcIntErr::Unreachable.spec_name() {
        Ok(RpcIntErr::Unreachable)
    } else if name == RpcIntErr::IO.spec_name() {
        Ok(RpcIntErr::IO)
    } else if name == RpcIntErr::Timeout.spec_name() {
        Ok(RpcIntErr::Timeout)
    } else if name == RpcIntErr::Method.spec_name() {
        Ok(RpcIntErr::Method)
    } else if name == RpcIntErr::Service.spec_name() {
        Ok(RpcIntErr::Service)
    } else if name == RpcIntErr::Encode.spec_name() {
        Ok(RpcIntErr::Encode)
    } else if name == RpcIntErr::Decode.spec_name() {
        Ok(RpcIntErr::Decode)
    } else if name == RpcIntErr::Internal.spec_name() {
        Ok(RpcIntErr::Internal)
    } else if name == RpcIntErr::Version.spec_name() {
        Ok(RpcIntErr::Version)
    } else {
        Err(())
    }
}

/// Parsing the string form of an internal error gives the error back.
pub proof fn lemma_rpc_int_err_name_round_trip(e: RpcIntErr)
    ensures
        rpc_int_err_from_name(e.spec_name()) == Ok::<RpcIntErr, ()>(e),
{
    reveal_strlit("rpc_unreachable");
    reveal_strlit("rpc_io_err");
    reveal_strlit("rpc_timeout");
    reveal_strlit("rpc_method_notfound");
    reveal_strlit("rpc_service_notfound");
    reveal_strlit("rpc_encode");
    reveal_strlit("rpc_decode");
    reveal_strlit("rpc_internal_err");
    reveal_strlit("rpc_invalid_ver");
    assert("rpc_unreachable"@.len() == 15 && "rpc_io_err"@.len() == 10);
    assert("rpc_timeout"@.len() == 11 && "rpc_method_notfound"@.len() == 19);
    assert("rpc_service_notfound"@.len() == 20 && "rpc_encode"@.len() == 10);
    assert("rpc_decode"@.len() == 10 && "rpc_internal_err"@.len() == 16);
    assert("rpc_invalid_ver"@.len() == 15);
    assert("rpc_unreachable"@[4] == 'u' && "rpc_invalid_ver"@[4] == 'i');
    assert("rpc_io_err"@[4] == 'i' && "rpc_encode"@[4] == 'e' && "rpc_decode"@[4] == 'd');
}


/// Each internal error has its documented string form, and parsing that
/// string gives the same error back: `Unreachable` is `rpc_unreachable`, `IO`
/// is `rpc_io_err`, `Timeout` is `rpc_timeout`, `Method` is
/// `rpc_method_notfound`, `Service` is `rpc_service_notfound`, `Encode` is
/// `rpc_encode`, `Decode` is `rpc_decode`, `Internal` is `rpc_internal_err`
/// and `Version` is `rpc_invalid_ver`.
pub proof fn lemma_rpc_int_err_documented_names()
    ensures
        RpcIntErr::Unreachable.spec_name() == "rpc_unreachable"@,
        RpcIntErr::IO.spec_name() == "rpc_io_err"@,
        RpcIntErr::Timeout.spec_name() == "rpc_timeout"@,
        RpcIntErr::Method.spec_name() == "rpc_method_notfound"@,
        RpcIntErr::Service.spec_name() == "rpc_service_notfound"@,
        RpcIntErr::Encode.spec_name() == "rpc_encode"@,
        RpcIntErr::Decode.spec_name() == "rpc_decode"@,
        RpcIntErr::Internal.spec_name() == "rpc_internal_err"@,
        RpcIntErr::Version.spec_name() == "rpc_invalid_ver"@,
        rpc_int_err_from_name("rpc_unreachable"@) == Ok::<RpcIntErr, ()>(RpcIntErr::Unreachable),
        rpc_int_err_from_name("rpc_io_err"@) == Ok::<RpcIntErr, ()>(RpcIntErr::IO),
        rpc_int_err_from_name("rpc_timeout"@) == Ok::<RpcIntErr, ()>(RpcIntErr::Timeout),
        rpc_int_err_from_name("rpc_method_notfound"@) == Ok::<RpcIntErr, ()>(RpcIntErr::Method),
        rpc_int_err_from_name("rpc_service_notfound"@) == Ok::<RpcIntErr, ()>(RpcIntErr::Service),
        rpc_int_err_from_name("rpc_encode"@) == Ok::<RpcIntErr, ()>(RpcIntErr::Encode),
        rpc_int_err_from_name("rpc_decode"@) == Ok::<RpcIntErr, ()>(RpcIntErr::Decode),
        rpc_int_err_from_name("rpc_internal_err"@) == Ok::<RpcIntErr, ()>(RpcIntErr::Internal),
        rpc_int_err_from_name("rpc_invalid_ver"@) == Ok::<RpcIntErr, ()>(RpcIntErr::Version),
{
    lemma_rpc_int_err_name_round_trip(RpcIntErr::Unreachable);
    lemma_rpc_int_err_name_round_trip(RpcIntErr::IO);
    lemma_rpc_int_err_name_round_trip(RpcIntErr::Timeout);
    lemma_rpc_int_err_name_round_trip(RpcIntErr::Method);
    lemma_rpc_int_err_name_round_trip(RpcIntErr::Service);
    lemma_rpc_int_err_name_round_trip(RpcIntErr::Encode);
    lemma_rpc_int_err_name_round_trip(RpcIntErr::Decode);
    lemma_rpc_int_err_name_round_trip(RpcIntErr::Internal);
    lemma_rpc_int_err_name_round_trip(RpcIntErr::Version);
}

#[verifier::external_type_specification]
#[verifier::external_body]
pub struct ExIoError(std::io::Error);

/// Any I/O error is an `IO` error.
impl From<std::io::Error> for RpcIntErr {
    fn from(_e: std::io::Error) -> (r: RpcIntErr) {
        RpcIntErr::IO
    }
}

impl vstd::std_specs::convert::FromSpecImpl<std::io::Error> for RpcIntErr {
    open spec fn obeys_from_spec() -> bool {
        true
    }

    open spec fn from_spec(e: std::io::Error) -> RpcIntErr {
        RpcIntErr::IO
    }
}

/// Every internal error's string form carries the reserved `rpc_` prefix.
pub proof fn lemma_rpc_int_err_prefix(e: RpcIntErr)
    ensures
        e.spec_name().len() > RPC_ERR_PREFIX@.len(),
        e.spec_name().subrange(0, RPC_ERR_PREFIX@.len() as int) == RPC_ERR_PREFIX@,
{
    reveal_strlit("rpc_");
    reveal_strlit("rpc_unreachable");
    reveal_strlit("rpc_io_err");
    reveal_strlit("rpc_timeout");
    reveal_strlit("rpc_method_notfound");
    reveal_strlit("rpc_service_notfound");
    reveal_strlit("rpc_encode");
    reveal_strlit("rpc_decode");
    reveal_strlit("rpc_internal_err");
    reveal_strlit("rpc_invalid_ver");
    assert(e.spec_name().subrange(0, 4) =~= "rpc_"@);
}

/// A container for an error message parsed from, or sent into, the transport.
#[derive(Debug)]
pub enum EncodedErr {
    /// An internal error, carried as its `rpc_` string
    Rpc(RpcIntErr),
    /// A numeric error code (errno and the like)
    Num(u32),
    /// A static string, only produced on the server side
    Static(&'static str),
    /// Raw bytes, usually a UTF-8 message
    Buf(Vec<u8>),
}

/// The mathematical value of an [`EncodedErr`].
pub enum EncodedErrView {
    Rpc(RpcIntErr),
    Num(u32),
    Static(Seq<char>),
    Buf(Seq<u8>),
}

impl View for EncodedErr {
    type V = EncodedErrView;

    open spec fn view(&self) -> EncodedErrView {
        match self {
            EncodedErr::Rpc(e) => EncodedErrView::Rpc(*e),
            EncodedErr::Num(n) => EncodedErrView::Num(*n),
            EncodedErr::Static(s) => EncodedErrView::Static(s@),
            EncodedErr::Buf(b) => EncodedErrView::Buf(b@),
        }
    }
}

/// The text an encoded error reads as: a static string, or bytes that are
/// well-formed UTF-8.
pub open spec fn encoded_text(e: EncodedErrView) -> Option<Seq<char>> {
    match e {
        EncodedErrView::Static(s) => Some(s),
        EncodedErrView::Buf(b) => if valid_utf8(b) {
            Some(decode_utf8(b))
        } else {
            None
        },
        _ => None,
    }
}

/// The message an encoded error displays as: the string form of an
/// internal error, `errno N` for a number, the text itself, or, for bytes that
/// are not UTF-8, `err blob N length`.
pub open spec fn encoded_err_text(e: EncodedErrView) -> Seq<char> {
    match e {
        EncodedErrView::Rpc(e) => e.spec_name(),
        EncodedErrView::Num(n) => "errno "@ + decimal(n as nat),
        EncodedErrView::Static(s) => s,
        EncodedErrView::Buf(b) => if valid_utf8(b) {
            decode_utf8(b)
        } else {
            "err blob "@ + decimal(b.len()) + " length"@
        },
    }
}

/// When two encoded errors compare equal: internal errors and numbers by
/// value, two byte buffers byte for byte, and a static string against any
/// error that reads as the same text.
pub open spec fn encoded_err_eq(a: EncodedErrView, b: EncodedErrView) -> bool {
    match a {
        EncodedErrView::Rpc(e) => b matches EncodedErrView::Rpc(o) && e == o,
        EncodedErrView::Num(n) => b matches EncodedErrView::Num(o) && n == o,
        EncodedErrView::Static(s) => encoded_text(b) == Some(s),
        EncodedErrView::Buf(x) => match b {
            EncodedErrView::Buf(y) => x == y,
            _ => encoded_text(b) is Some && valid_utf8(x) && encoded_text(b) == Some(decode_utf8(x)),
        },
    }
}

impl EncodedErr {
    /// The error as text, when it is a static string or UTF-8 bytes.
    pub fn try_as_str(&self) -> (r: Result<&str, ()>)
        ensures
            r is Ok <==> encoded_text(self@) is Some,
            r matches Ok(s) ==> encoded_text(self@) == Some(s@),
    {
        match self {
            EncodedErr::Static(s) => Ok(*s),
            EncodedErr::Buf(b) => {
                match str_from_utf8(b.as_slice()) {
                    Ok(s) => {
                        proof {
                            lemma_str_of_bytes(s, b@);
                        }
                        Ok(s)
                    },
                    Err(()) => Err(()),
                }
            },
            _ => Err(()),
        }
    }

    /// The message that the error displays as.
    pub fn to_string(&self) -> (r: String)
        ensures
            r@ == encoded_err_text(self@),
    {
        match self {
            EncodedErr::Rpc(e) => e.to_string(),
            EncodedErr::Num(n) => String::from_str("errno ").concat(fmt_u64(*n as u64).as_str()),
            EncodedErr::Static(s) => String::from_str(*s),
            EncodedErr::Buf(b) => {
                match str_from_utf8(b.as_slice()) {
                    Ok(s) => {
                        proof {
                            lemma_str_of_bytes(s, b@);
                        }
                        String::from_str(s)
                    },
                    Err(()) => String::from_str("err blob ").concat(fmt_u64(b.len() as u64).as_str()).concat(
                        " length",
                    ),
                }
            },
        }
    }
}

impl PartialEq for EncodedErr {
    fn eq(&self, other: &EncodedErr) -> (r: bool) {
        match self {
            EncodedErr::Rpc(e) => {
                if let EncodedErr::Rpc(o) = other {
                    return e.code() == o.code();
                }
            },
            EncodedErr::Num(e) => {
                if let EncodedErr::Num(o) = other {
                    return *e == *o;
                }
            },
            EncodedErr::Static(s) => {
                if let Ok(o) = other.try_as_str() {
                    return str_eq(s, o);
                }
            },
            EncodedErr::Buf(s) => {
                if let EncodedErr::Buf(o) = other {
                    return bytes_eq(s.as_slice(), o.as_slice());
                } else if let Ok(o) = other.try_as_str() {
                    if let Ok(t) = str_from_utf8(s.as_slice()) {
                        proof {
                            lemma_str_of_bytes(t, s@);
                        }
                        return str_eq(t, o);
                    }
                }
            },
        }
        false
    }
}

impl vstd::std_specs::cmp::PartialEqSpecImpl for EncodedErr {
    open spec fn obeys_eq_spec() -> bool {
        true
    }

    open spec fn eq_spec(&self, other: &EncodedErr) -> bool {
        encoded_err_eq(self@, other@)
    }
}

impl From<RpcIntErr> for EncodedErr {
    fn from(e: RpcIntErr) -> (r: EncodedErr) {
        EncodedErr::Rpc(e)
    }
}

impl vstd::std_specs::convert::FromSpecImpl<RpcIntErr> for EncodedErr {
    open spec fn obeys_from_spec() -> bool {
        true
    }

    open spec fn from_spec(e: RpcIntErr) -> EncodedErr {
        EncodedErr::Rpc(e)
    }
}

/// Two encoded internal errors are equal exactly when they are the same
/// internal error; an internal error never equals a number, text or bytes.
pub proof fn lemma_encoded_rpc_eq_is_identity(a: RpcIntErr, b: RpcIntErr, other: EncodedErrView)
    ensures
        encoded_err_eq(EncodedErrView::Rpc(a), EncodedErrView::Rpc(b)) <==> a == b,
        !(other is Rpc) ==> !encoded_err_eq(EncodedErrView::Rpc(a), other),
{
}

/// Equality of encoded errors is symmetric.
pub proof fn lemma_encoded_err_eq_symmetric(a: EncodedErrView, b: EncodedErrView)
    ensures
        encoded_err_eq(a, b) == encoded_err_eq(b, a),
{
}

/// Every encoded error equals itself.
pub proof fn lemma_encoded_err_eq_reflexive(a: EncodedErrView)
    ensures
        encoded_err_eq(a, a),
{
}

/// Equality of encoded errors is transitive: with symmetry and
/// reflexivity, an equivalence.
pub proof fn lemma_encoded_err_eq_transitive(a: EncodedErrView, b: EncodedErrView, c: EncodedErrView)
    requires
        encoded_err_eq(a, b),
        encoded_err_eq(b, c),
    ensures
        encoded_err_eq(a, c),
{
    if let EncodedErrView::Buf(x) = a {
        if valid_utf8(x) {
            decode_utf8_encode_utf8(x);
        }
    }
    if let EncodedErrView::Buf(y) = b {
        if valid_utf8(y) {
            decode_utf8_encode_utf8(y);
        }
    }
    if let EncodedErrView::Buf(z) = c {
        if valid_utf8(z) {
            decode_utf8_encode_utf8(z);
        }
    }
}

} // verus!
