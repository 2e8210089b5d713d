//! The codec for error types that travel inside RPC responses, its built-in
//! implementations, and the error type that RPC methods return.
use vstd::prelude::*;
use crate::error::{EncodedErr, EncodedErrView, RpcIntErr};
use crate::text::{decimal, fmt_i64, fmt_u64, lemma_str_of_bytes, signed_decimal, str_from_utf8};
use vstd::string::StringSliceAdditionalSpecFns;
use vstd::utf8::{decode_utf8, encode_utf8, encode_utf8_decode_utf8, encode_utf8_valid_utf8, valid_utf8};
use nix::errno::Errno;

verus! {

/// What a receiver hands to a decoder for an encoded error: a number stays a
/// number, while strings and byte buffers arrive as bytes.
pub open spec fn wire_form(e: EncodedErrView) -> Result<u32, Seq<u8>> {
    match e {
        EncodedErrView::Num(n) => Ok(n),
        EncodedErrView::Static(s) => Err(encode_utf8(s)),
        EncodedErrView::Buf(b) => Err(b),
        EncodedErrView::Rpc(e) => Err(encode_utf8(e.spec_name())),
    }
}

/// The mathematical value of what a decoder is handed.
pub open spec fn err_buf_view(buf: Result<u32, &[u8]>) -> Result<u32, Seq<u8>> {
    match buf {
        Ok(n) => Ok(n),
        Err(b) => Err(b@),
    }
}

/// The mathematical value of a failover decision.
pub open spec fn failover_view(r: Result<Option<&str>, ()>) -> Result<Option<Seq<char>>, ()> {
    match r {
        Ok(Some(s)) => Ok(Some(s@)),
        Ok(None) => Ok(None),
        Err(()) => Err(()),
    }
}

/// Serialisation of an error type that RPC methods may return.
///
/// There are two forms on the wire, a `u32` and a byte string: an
/// implementation picks one of them.
pub trait RpcErrCodec: Sized {
    /// The abstract value of an error of this type.
    type Value;

    /// The abstract value of `self`.
    spec fn value(&self) -> Self::Value;

    /// What `encode` produces for an error of abstract value `v`.
    spec fn spec_encode(v: Self::Value) -> EncodedErrView;

    /// What `decode` produces for the given wire value.
    spec fn spec_decode(buf: Result<u32, Seq<u8>>) -> Result<Self::Value, ()>;

    /// What `should_failover` answers for an error of abstract value `v`.
    spec fn spec_should_failover(v: Self::Value) -> Result<Option<Seq<char>>, ()>;

    /// The message that an error of abstract value `v` displays as.
    spec fn spec_fmt(v: Self::Value) -> Seq<char>;

    /// Encodes the error for the transport.
    fn encode(&self) -> (r: EncodedErr)
        ensures
            r@ == Self::spec_encode(self.value()),
    ;

    /// Decodes the error from what the transport received.
    fn decode(buf: Result<u32, &[u8]>) -> (r: Result<Self, ()>)
        ensures
            match r {
                Ok(v) => Self::spec_decode(err_buf_view(buf)) == Ok::<Self::Value, ()>(v.value()),
                Err(_) => Self::spec_decode(err_buf_view(buf)) is Err,
            },
    ;

    /// The message that the error displays as.
    fn fmt(&self) -> (r: String)
        ensures
            r@ == Self::spec_fmt(self.value()),
    ;

    /// Whether this error should make a failover pool retry, and where:
    /// `Ok(Some(addr))` retries at `addr`, `Ok(None)` at the next node, and
    /// `Err(())` does not retry.
    fn should_failover(&self) -> (r: Result<Option<&str>, ()>)
        ensures
            failover_view(r) == Self::spec_should_failover(self.value()),
    ;
}

/// A decoder of integer codes: a code is accepted when it fits the type.
pub open spec fn spec_decode_int(buf: Result<u32, Seq<u8>>, max: u32) -> Result<u32, ()> {
    match buf {
        Ok(i) => if i <= max {
            Ok(i)
        } else {
            Err(())
        },
        Err(_) => Err(()),
    }
}

impl RpcErrCodec for i8 {
    type Value = i8;

    open spec fn value(&self) -> i8 {
        *self
    }

    open spec fn spec_encode(v: i8) -> EncodedErrView {
        EncodedErrView::Num(v as u32)
    }

    open spec fn spec_decode(buf: Result<u32, Seq<u8>>) -> Result<i8, ()> {
        match spec_decode_int(buf, 127) {
            Ok(i) => Ok(i as i8),
            Err(_) => Err(()),
        }
    }

    open spec fn spec_should_failover(v: i8) -> Result<Option<Seq<char>>, ()> {
        Err(())
    }

    open spec fn spec_fmt(v: i8) -> Seq<char> {
        "errno "@ + signed_decimal(v as int)
    }

    fn encode(&self) -> (r: EncodedErr) {
        EncodedErr::Num(*self as u32)
    }

    fn decode(buf: Result<u32, &[u8]>) -> (r: Result<Self, ()>) {
        if let Ok(i) = buf {
            if i <= 127 {
                return Ok(i as i8);
            }
        }
        Err(())
    }

    fn fmt(&self) -> (r: String) {
        String::from_str("errno ").concat(fmt_i64(*self as i64).as_str())
    }

    fn should_failover(&self) -> (r: Result<Option<&str>, ()>) {
        Err(())
    }
}

impl RpcErrCodec for u8 {
    type Value = u8;

    open spec fn value(&self) -> u8 {
        *self
    }

    open spec fn spec_encode(v: u8) -> EncodedErrView {
        EncodedErrView::Num(v as u32)
    }

    open spec fn spec_decode(buf: Result<u32, Seq<u8>>) -> Result<u8, ()> {
        match spec_decode_int(buf, 255) {
            Ok(i) => Ok(i as u8),
            Err(_) => Err(()),
        }
    }

    open spec fn spec_should_failover(v: u8) -> Result<Option<Seq<char>>, ()> {
        Err(())
    }

    open spec fn spec_fmt(v: u8) -> Seq<char> {
        "errno "@ + decimal(v as nat)
    }

    fn encode(&self) -> (r: EncodedErr) {
        EncodedErr::Num(*self as u32)
    }

    fn decode(buf: Result<u32, &[u8]>) -> (r: Result<Self, ()>) {
        if let Ok(i) = buf {
            if i <= 255 {
                return Ok(i as u8);
            }
        }
        Err(())
    }

    fn fmt(&self) -> (r: String) {
        String::from_str("errno ").concat(fmt_u64(*self as u64).as_str())
    }

    fn should_failover(&self) -> (r: Result<Option<&str>, ()>) {
        Err(())
    }
}

impl RpcErrCodec for i16 {
    type Value = i16;

    open spec fn value(&self) -> i16 {
        *self
    }

    open spec fn spec_encode(v: i16) -> EncodedErrView {
        EncodedErrView::Num(v as u32)
    }

    open spec fn spec_decode(buf: Result<u32, Seq<u8>>) -> Result<i16, ()> {
        match spec_decode_int(buf, 32767) {
            Ok(i) => Ok(i as i16),
            Err(_) => Err(()),
        }
    }

    open spec fn spec_should_failover(v: i16) -> Result<Option<Seq<char>>, ()> {
        Err(())
    }

    open spec fn spec_fmt(v: i16) -> Seq<char> {
        "errno "@ + signed_decimal(v as int)
    }

    fn encode(&self) -> (r: EncodedErr) {
        EncodedErr::Num(*self as u32)
    }

    fn decode(buf: Result<u32, &[u8]>) -> (r: Result<Self, ()>) {
        if let Ok(i) = buf {
            if i <= 32767 {
                return Ok(i as i16);
            }
        }
        Err(())
    }

    fn fmt(&self) -> (r: String) {
        String::from_str("errno ").concat(fmt_i64(*self as i64).as_str())
    }

    fn should_failover(&self) -> (r: Result<Option<&str>, ()>) {
        Err(())
    }
}

impl RpcErrCodec for u16 {
    type Value = u16;

    open spec fn value(&self) -> u16 {
        *self
    }

    open spec fn spec_encode(v: u16) -> EncodedErrView {
        EncodedErrView::Num(v as u32)
    }

    open spec fn spec_decode(buf: Result<u32, Seq<u8>>) -> Result<u16, ()> {
        match spec_decode_int(buf, 65535) {
            Ok(i) => Ok(i as u16),
            Err(_) => Err(()),
        }
    }

    open spec fn spec_should_failover(v: u16) -> Result<Option<Seq<char>>, ()> {
        Err(())
    }

    open spec fn spec_fmt(v: u16) -> Seq<char> {
        "errno "@ + decimal(v as nat)
    }

    fn encode(&self) -> (r: EncodedErr) {
        EncodedErr::Num(*self as u32)
    }

    fn decode(buf: Result<u32, &[u8]>) -> (r: Result<Self, ()>) {
        if let Ok(i) = buf {
            if i <= 65535 {
                return Ok(i as u16);
            }
        }
        Err(())
    }

    fn fmt(&self) -> (r: String) {
        String::from_str("errno ").concat(fmt_u64(*self as u64).as_str())
    }

    fn should_failover(&self) -> (r: Result<Option<&str>, ()>) {
        Err(())
    }
}

impl RpcErrCodec for i32 {
    type Value = i32;

    open spec fn value(&self) -> i32 {
        *self
    }

    open spec fn spec_encode(v: i32) -> EncodedErrView {
        EncodedErrView::Num(v as u32)
    }

    open spec fn spec_decode(buf: Result<u32, Seq<u8>>) -> Result<i32, ()> {
        match spec_decode_int(buf, 0x7fff_ffff) {
            Ok(i) => Ok(i as i32),
            Err(_) => Err(()),
        }
    }

    open spec fn spec_should_failover(v: i32) -> Result<Option<Seq<char>>, ()> {
        Err(())
    }

    open spec fn spec_fmt(v: i32) -> Seq<char> {
        "errno "@ + signed_decimal(v as int)
    }

    fn encode(&self) -> (r: EncodedErr) {
        EncodedErr::Num(*self as u32)
    }

    fn decode(buf: Result<u32, &[u8]>) -> (r: Result<Self, ()>) {
        if let Ok(i) = buf {
            if i <= 0x7fff_ffff {
                return Ok(i as i32);
            }
        }
        Err(())
    }

    fn fmt(&self) -> (r: String) {
        String::from_str("errno ").concat(fmt_i64(*self as i64).as_str())
    }

    fn should_failover(&self) -> (r: Result<Option<&str>, ()>) {
        Err(())
    }
}

impl RpcErrCodec for u32 {
    type Value = u32;

    open spec fn value(&self) -> u32 {
        *self
    }

    open spec fn spec_encode(v: u32) -> EncodedErrView {
        EncodedErrView::Num(v)
    }

    open spec fn spec_decode(buf: Result<u32, Seq<u8>>) -> Result<u32, ()> {
        spec_decode_int(buf, 0xffff_ffff)
    }

    open spec fn spec_should_failover(v: u32) -> Result<Option<Seq<char>>, ()> {
        Err(())
    }

    open spec fn spec_fmt(v: u32) -> Seq<char> {
        "errno "@ + decimal(v as nat)
    }

    fn encode(&self) -> (r: EncodedErr) {
        EncodedErr::Num(*self)
    }

    fn decode(buf: Result<u32, &[u8]>) -> (r: Result<Self, ()>) {
        if let Ok(i) = buf {
            return Ok(i);
        }
        Err(())
    }

    fn fmt(&self) -> (r: String) {
        String::from_str("errno ").concat(fmt_u64(*self as u64).as_str())
    }

    fn should_failover(&self) -> (r: Result<Option<&str>, ()>) {
        Err(())
    }
}

impl RpcErrCodec for () {
    type Value = ();

    open spec fn value(&self) -> () {
        ()
    }

    open spec fn spec_encode(v: ()) -> EncodedErrView {
        EncodedErrView::Num(0)
    }

    open spec fn spec_decode(buf: Result<u32, Seq<u8>>) -> Result<(), ()> {
        match buf {
            Ok(i) => if i == 0 {
                Ok(())
            } else {
                Err(())
            },
            Err(_) => Err(()),
        }
    }

    open spec fn spec_should_failover(v: ()) -> Result<Option<Seq<char>>, ()> {
        Err(())
    }

    open spec fn spec_fmt(v: ()) -> Seq<char> {
        "err"@
    }

    fn encode(&self) -> (r: EncodedErr) {
        EncodedErr::Num(0)
    }

    fn decode(buf: Result<u32, &[u8]>) -> (r: Result<Self, ()>) {
        if let Ok(i) = buf {
            if i == 0 {
                return Ok(());
            }
        }
        Err(())
    }

    fn fmt(&self) -> (r: String) {
        String::from_str("err")
    }

    fn should_failover(&self) -> (r: Result<Option<&str>, ()>) {
        Err(())
    }
}

impl RpcErrCodec for String {
    type Value = Seq<char>;

    open spec fn value(&self) -> Seq<char> {
        self@
    }

    open spec fn spec_encode(v: Seq<char>) -> EncodedErrView {
        EncodedErrView::Buf(encode_utf8(v))
    }

    open spec fn spec_decode(buf: Result<u32, Seq<u8>>) -> Result<Seq<char>, ()> {
        match buf {
            Err(b) => if valid_utf8(b) {
                Ok(decode_utf8(b))
            } else {
                Err(())
            },
            Ok(_) => Err(()),
        }
    }

    open spec fn spec_should_failover(v: Seq<char>) -> Result<Option<Seq<char>>, ()> {
        Err(())
    }

    open spec fn spec_fmt(v: Seq<char>) -> Seq<char> {
        v
    }

    fn encode(&self) -> (r: EncodedErr) {
        EncodedErr::Buf(vstd::slice::slice_to_vec(self.as_str().as_bytes()))
    }

    fn decode(buf: Result<u32, &[u8]>) -> (r: Result<Self, ()>) {
        if let Err(s) = buf {
            if let Ok(t) = str_from_utf8(s) {
                proof {
                    lemma_str_of_bytes(t, s@);
                }
                return Ok(String::from_str(t));
            }
        }
        Err(())
    }

    fn fmt(&self) -> (r: String) {
        self.clone()
    }

    fn should_failover(&self) -> (r: Result<Option<&str>, ()>) {
        Err(())
    }
}

#[verifier::external_type_specification]
#[verifier::external_body]
pub struct ExErrno(Errno);

/// The errno that `nix::errno::Errno::from_raw` gives for a raw code.
pub uninterp spec fn errno_from_raw(code: i32) -> Errno;

/// `nix::errno::Errno::from_raw`: the errno of a raw code, or `UnknownErrno`
/// for a code that names none.
#[verifier::external_body]
fn errno_of_raw(code: i32) -> (e: Errno)
    ensures
        e == errno_from_raw(code),
{
    Errno::from_raw(code)
}

/// The raw code of an errno, `e as i32` (its discriminant in nix).
pub uninterp spec fn errno_raw_code(e: Errno) -> i32;

/// The raw code of an errno (`e as i32`). nix gives every errno a
/// non-negative code (`UnknownErrno` is 0, the others are libc's codes), and
/// `Errno::from_raw` maps that code back to the errno.
#[verifier::external_body]
fn errno_code(e: &Errno) -> (r: i32)
    ensures
        r == errno_raw_code(*e),
        r >= 0,
        errno_from_raw(r) == *e,
{
    *e as i32
}

/// The `Debug` text of an errno, such as `EIO`.
pub uninterp spec fn errno_debug_name(e: Errno) -> Seq<char>;

/// The `Debug` text of an errno (`format!("{:?}", e)`), such as `EIO`: its
/// variant's name, a function of the errno alone.
#[verifier::external_body]
fn errno_debug_text(e: &Errno) -> (r: String)
    ensures
        r@ == errno_debug_name(*e),
{
    format!("{:?}", e)
}

impl RpcErrCodec for Errno {
    type Value = Errno;

    open spec fn value(&self) -> Errno {
        *self
    }

    open spec fn spec_encode(v: Errno) -> EncodedErrView {
        EncodedErrView::Num(errno_raw_code(v) as u32)
    }

    open spec fn spec_decode(buf: Result<u32, Seq<u8>>) -> Result<Errno, ()> {
        match spec_decode_int(buf, 0x7fff_ffff) {
            Ok(i) => Ok(errno_from_raw(i as i32)),
            Err(_) => Err(()),
        }
    }

    open spec fn spec_should_failover(v: Errno) -> Result<Option<Seq<char>>, ()> {
        Err(())
    }

    open spec fn spec_fmt(v: Errno) -> Seq<char> {
        errno_debug_name(v)
    }

    fn encode(&self) -> (r: EncodedErr)
        ensures
            Self::spec_decode(wire_form(r@)) == Ok::<Errno, ()>(*self),
    {
        let c = errno_code(self);
        EncodedErr::Num(c as u32)
    }

    fn decode(buf: Result<u32, &[u8]>) -> (r: Result<Self, ()>) {
        if let Ok(i) = buf {
            if i <= 0x7fff_ffff {
                return Ok(errno_of_raw(i as i32));
            }
        }
        Err(())
    }

    fn fmt(&self) -> (r: String) {
        errno_debug_text(self)
    }

    fn should_failover(&self) -> (r: Result<Option<&str>, ()>) {
        Err(())
    }
}

/// A non-negative `i8` read back from its encoding is the same value.
pub proof fn lemma_i8_round_trip(x: i8)
    requires
        x >= 0,
    ensures
        <i8 as RpcErrCodec>::spec_decode(wire_form(<i8 as RpcErrCodec>::spec_encode(x))) == Ok::<i8, ()>(x),
{
}

/// A `u8` read back from its encoding is the same value.
pub proof fn lemma_u8_round_trip(x: u8)
    ensures
        <u8 as RpcErrCodec>::spec_decode(wire_form(<u8 as RpcErrCodec>::spec_encode(x))) == Ok::<u8, ()>(x),
{
}

/// A non-negative `i16` read back from its encoding is the same value.
pub proof fn lemma_i16_round_trip(x: i16)
    requires
        x >= 0,
    ensures
        <i16 as RpcErrCodec>::spec_decode(wire_form(<i16 as RpcErrCodec>::spec_encode(x))) == Ok::<i16, ()>(x),
{
}

/// A `u16` read back from its encoding is the same value.
pub proof fn lemma_u16_round_trip(x: u16)
    ensures
        <u16 as RpcErrCodec>::spec_decode(wire_form(<u16 as RpcErrCodec>::spec_encode(x))) == Ok::<u16, ()>(x),
{
}

/// A non-negative `i32` read back from its encoding is the same value.
pub proof fn lemma_i32_round_trip(x: i32)
    requires
        x >= 0,
    ensures
        <i32 as RpcErrCodec>::spec_decode(wire_form(<i32 as RpcErrCodec>::spec_encode(x))) == Ok::<i32, ()>(x),
{
}

/// A `u32` read back from its encoding is the same value.
pub proof fn lemma_u32_round_trip(x: u32)
    ensures
        <u32 as RpcErrCodec>::spec_decode(wire_form(<u32 as RpcErrCodec>::spec_encode(x))) == Ok::<u32, ()>(x),
{
}

/// The unit error read back from its encoding is the unit error.
pub proof fn lemma_unit_round_trip()
    ensures
        <() as RpcErrCodec>::spec_decode(wire_form(<() as RpcErrCodec>::spec_encode(()))) == Ok::<(), ()>(()),
{
}

/// A string error read back from its encoding is the same text.
pub proof fn lemma_string_round_trip(s: Seq<char>)
    ensures
        <String as RpcErrCodec>::spec_decode(wire_form(<String as RpcErrCodec>::spec_encode(s)))
            == Ok::<Seq<char>, ()>(s),
{
    encode_utf8_valid_utf8(s);
    encode_utf8_decode_utf8(s);
}

/// A signed integer error displays as `errno ` and its signed decimal value:
/// a negative one with a `-` before the decimal of its magnitude, a
/// non-negative one as the unsigned type of the same width displays it. The
/// text does not depend on the width the value is held in.
pub proof fn lemma_signed_error_display(a: i8, b: i16, c: i32)
    ensures
        a < 0 ==> <i8 as RpcErrCodec>::spec_fmt(a) == "errno "@ + seq!['-'] + decimal((-a) as nat),
        b < 0 ==> <i16 as RpcErrCodec>::spec_fmt(b) == "errno "@ + seq!['-'] + decimal((-b) as nat),
        c < 0 ==> <i32 as RpcErrCodec>::spec_fmt(c) == "errno "@ + seq!['-'] + decimal((-c) as nat),
        a >= 0 ==> <i8 as RpcErrCodec>::spec_fmt(a) == <u8 as RpcErrCodec>::spec_fmt(a as u8),
        b >= 0 ==> <i16 as RpcErrCodec>::spec_fmt(b) == <u16 as RpcErrCodec>::spec_fmt(b as u16),
        c >= 0 ==> <i32 as RpcErrCodec>::spec_fmt(c) == <u32 as RpcErrCodec>::spec_fmt(c as u32),
        <i8 as RpcErrCodec>::spec_fmt(a) == <i16 as RpcErrCodec>::spec_fmt(a as i16),
        <i16 as RpcErrCodec>::spec_fmt(b) == <i32 as RpcErrCodec>::spec_fmt(b as i32),
{
    assert(("errno "@ + seq!['-']) + decimal((-a) as nat) =~= "errno "@ + (seq!['-'] + decimal((-a) as nat)));
    assert(("errno "@ + seq!['-']) + decimal((-b) as nat) =~= "errno "@ + (seq!['-'] + decimal((-b) as nat)));
    assert(("errno "@ + seq!['-']) + decimal((-c) as nat) =~= "errno "@ + (seq!['-'] + decimal((-c) as nat)));
}

/// The built-in error types never ask for a failover.
pub proof fn lemma_builtin_no_failover(a: i8, b: u8, c: i16, d: u16, e: i32, f: u32, g: Seq<char>, h: Errno)
    ensures
        <i8 as RpcErrCodec>::spec_should_failover(a) is Err,
        <u8 as RpcErrCodec>::spec_should_failover(b) is Err,
        <i16 as RpcErrCodec>::spec_should_failover(c) is Err,
        <u16 as RpcErrCodec>::spec_should_failover(d) is Err,
        <i32 as RpcErrCodec>::spec_should_failover(e) is Err,
        <u32 as RpcErrCodec>::spec_should_failover(f) is Err,
        <() as RpcErrCodec>::spec_should_failover(()) is Err,
        <String as RpcErrCodec>::spec_should_failover(g) is Err,
        <Errno as RpcErrCodec>::spec_should_failover(h) is Err,
{
}

} // verus!
