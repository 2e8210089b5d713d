//! The client request of the remote API interface: a pre-encoded request
//! message for a `Service.method` action, and the bookkeeping of its outcome.
use vstd::prelude::*;
use crate::codec::{err_buf_view, RpcErrCodec};
use crate::error::{EncodedErr, EncodedErrView, RpcIntErr};
use crate::failover_task::ClientTaskDone;
use crate::rpc_error::{RpcError, RpcErrorValue};
use crate::text::{decimal, fmt_u64};

verus! {

/// Routing info for failover and retry operations.
pub struct RoutingInfo {}

/// The fields shared by every client request.
pub struct ClientTaskCommon {
    /// The sequence number the transport gave the request.
    pub seq: u64,
}

/// A remote API call in flight.
pub struct APIClientReq {
    pub common: ClientTaskCommon,
    /// The encoded request argument.
    pub req_msg: Option<Vec<u8>>,
    /// The action, in `Service.method` form.
    pub action: String,
    /// The encoded response, once one arrived with a body.
    pub resp: Option<Vec<u8>>,
    /// The outcome, once known.
    pub res: Option<Result<(), EncodedErr>>,
    /// The configuration version of the attempt that got an error.
    pub config_ver: u64,
    /// The position of the node of the attempt that got an error.
    pub last_index: usize,
}

/// The bytes an optional buffer holds.
pub open spec fn opt_bytes(o: Option<Vec<u8>>) -> Option<Seq<u8>> {
    match o {
        Some(v) => Some(v@),
        None => None,
    }
}

/// The abstract value of a recorded outcome.
pub open spec fn res_view(res: Option<Result<(), EncodedErr>>) -> Option<Result<(), EncodedErrView>> {
    match res {
        Some(Ok(())) => Some(Ok(())),
        Some(Err(e)) => Some(Err(e@)),
        None => None,
    }
}

/// The abstract value of the result of a call.
pub open spec fn call_result_view<E: RpcErrCodec>(r: Result<Option<Vec<u8>>, RpcError<E>>) -> Result<
    Option<Seq<u8>>,
    RpcErrorValue<E::Value>,
> {
    match r {
        Ok(b) => Ok(opt_bytes(b)),
        Err(e) => Err(e.value()),
    }
}

/// A user error decoded from what the server sent, or `Decode` when the
/// error type does not accept it.
pub open spec fn user_error_of<E: RpcErrCodec>(buf: Result<u32, Seq<u8>>) -> RpcErrorValue<E::Value> {
    match E::spec_decode(buf) {
        Ok(v) => RpcErrorValue::User(v),
        Err(_) => RpcErrorValue::Rpc(RpcIntErr::Decode),
    }
}

/// The result of a call, from its recorded outcome and response: success
/// gives the response body (if any) to decode; an internal error is passed
/// on; a numeric or byte error is decoded as the call's error type.
pub open spec fn spec_process_res<E: RpcErrCodec>(
    res: Result<(), EncodedErrView>,
    resp: Option<Seq<u8>>,
) -> Result<Option<Seq<u8>>, RpcErrorValue<E::Value>> {
    match res {
        Ok(()) => Ok(resp),
        Err(EncodedErrView::Rpc(e)) => Err(RpcErrorValue::Rpc(e)),
        Err(EncodedErrView::Num(n)) => Err(user_error_of::<E>(Ok(n))),
        Err(EncodedErrView::Buf(b)) => Err(user_error_of::<E>(Err(b))),
        Err(EncodedErrView::Static(s)) => Err(RpcErrorValue::Rpc(RpcIntErr::Internal)),
    }
}

/// The result of a successful call once its response body went through
/// the caller's decoder: no body gives the default response, a body that
/// decodes gives the decoded value, and one that does not gives `Decode`.
pub open spec fn spec_finish_response<R, E: RpcErrCodec>(decoded: Option<Result<R, ()>>, default: R) -> Result<R, RpcError<E>> {
    match decoded {
        None => Ok(default),
        Some(Ok(v)) => Ok(v),
        Some(Err(())) => Err(RpcError::Rpc(RpcIntErr::Decode)),
    }
}

/// Completes a successful call: `decoded` is what the response decoder gave
/// for the body that `process_res` handed out (`None` when there was no
/// body), and `default` is the response type's default value.
pub fn finish_response<R, E: RpcErrCodec>(decoded: Option<Result<R, ()>>, default: R) -> (r: Result<R, RpcError<E>>)
    ensures
        r == spec_finish_response::<R, E>(decoded, default),
{
    match decoded {
        None => Ok(default),
        Some(Ok(v)) => Ok(v),
        Some(Err(())) => Err(RpcError::Rpc(RpcIntErr::Decode)),
    }
}

impl APIClientReq {
    /// A call of `service_method` with the encoded argument `req_msg`.
    pub fn new(service_method: &str, req_msg: Vec<u8>) -> (r: APIClientReq)
        ensures
            r.action@ == service_method@,
            opt_bytes(r.req_msg) == Some(req_msg@),
            r.resp is None,
            r.res is None,
            r.config_ver == 0,
            r.last_index == 0,
            r.common.seq == 0,
    {
        APIClientReq {
            common: ClientTaskCommon { seq: 0 },
            req_msg: Some(req_msg),
            action: String::from_str(service_method),
            resp: None,
            res: None,
            config_ver: 0,
            last_index: 0,
        }
    }

    /// The text the request is shown as in logs.
    pub fn to_string(&self) -> (r: String)
        ensures
            r@ == "APIClientReq(seq="@ + decimal(self.common.seq as nat) + ", action="@ + self.action@ + ")"@,
    {
        String::from_str("APIClientReq(seq=").concat(fmt_u64(self.common.seq).as_str()).concat(", action=").concat(
            self.action.as_str(),
        ).concat(")")
    }

    /// The action, in `Service.method` form.
    pub fn get_action(&self) -> (r: &str)
        ensures
            r@ == self.action@,
    {
        self.action.as_str()
    }

    /// Appends the encoded request to `buf`, and gives its length.
    pub fn encode_req(&self, buf: &mut Vec<u8>) -> (r: Result<usize, ()>)
        ensures
            match opt_bytes(self.req_msg) {
                Some(m) => final(buf)@ == old(buf)@ + m && r == Ok::<usize, ()>(m.len() as usize),
                None => final(buf)@ == old(buf)@ && r == Ok::<usize, ()>(0),
            },
    {
        match &self.req_msg {
            Some(msg) => {
                let mut i: usize = 0;
                while i < msg.len()
                    invariant
                        i <= msg@.len(),
                        buf@ == old(buf)@ + msg@.subrange(0, i as int),
                    decreases msg@.len() - i,
                {
                    buf.push(msg[i]);
                    i = i + 1;
                    assert(msg@.subrange(0, i as int) == msg@.subrange(0, i - 1).push(msg@[i - 1]));
                }
                assert(msg@.subrange(0, msg@.len() as int) == msg@);
                Ok(msg.len())
            },
            None => Ok(0),
        }
    }

    /// Keeps the response body, when there is one; the response type is
    /// not known yet, so it is decoded later.
    pub fn decode_resp(&mut self, buf: &[u8]) -> (r: Result<(), ()>)
        ensures
            r is Ok,
            buf@.len() > 0 ==> opt_bytes(final(self).resp) == Some(buf@),
            buf@.len() == 0 ==> opt_bytes(final(self).resp) == opt_bytes(old(self).resp),
            opt_bytes(final(self).req_msg) == opt_bytes(old(self).req_msg),
            final(self).action@ == old(self).action@,
            res_view(final(self).res) == res_view(old(self).res),
            final(self).config_ver == old(self).config_ver,
            final(self).last_index == old(self).last_index,
            final(self).common.seq == old(self).common.seq,
    {
        if buf.len() != 0 {
            self.resp = Some(vstd::slice::slice_to_vec(buf));
        }
        Ok(())
    }

    /// Turns the recorded outcome into the result of the call: the response
    /// body to decode (`None` when the response had none), or the call's
    /// error. The outcome is taken out of the request.
    pub fn process_res<E: RpcErrCodec>(&mut self) -> (r: Result<Option<Vec<u8>>, RpcError<E>>)
        requires
            old(self).res is Some,
            !(old(self).res matches Some(Err(EncodedErr::Static(_)))),
        ensures
            call_result_view(r) == spec_process_res::<E>(
                res_view(old(self).res)->Some_0,
                opt_bytes(old(self).resp),
            ),
            final(self).res is None,
            opt_bytes(final(self).resp) == opt_bytes(old(self).resp),
            opt_bytes(final(self).req_msg) == opt_bytes(old(self).req_msg),
            final(self).action@ == old(self).action@,
            final(self).config_ver == old(self).config_ver,
            final(self).last_index == old(self).last_index,
    {
        let res = self.res.take();
        match res {
            Some(Ok(())) => {
                match &self.resp {
                    Some(b) => Ok(Some(b.clone())),
                    None => Ok(None),
                }
            },
            Some(Err(EncodedErr::Rpc(e))) => Err(RpcError::Rpc(e)),
            Some(Err(EncodedErr::Num(n))) => {
                match E::decode(Ok(n)) {
                    Ok(e) => Err(RpcError::User(e)),
                    Err(()) => Err(RpcError::Rpc(RpcIntErr::Decode)),
                }
            },
            Some(Err(EncodedErr::Buf(buf))) => {
                let bytes = buf.as_slice();
                let d = E::decode(Err(bytes));
                proof {
                    assert(err_buf_view(Err::<u32, &[u8]>(bytes)) == Err::<u32, Seq<u8>>(buf@));
                }
                match d {
                    Ok(e) => Err(RpcError::User(e)),
                    Err(()) => Err(RpcError::Rpc(RpcIntErr::Decode)),
                }
            },
            _ => Err(RpcError::Rpc(RpcIntErr::Internal)),
        }
    }
}

impl ClientTaskDone for APIClientReq {
    open spec fn outcome(&self) -> Option<Result<(), EncodedErrView>> {
        res_view(self.res)
    }

    /// Keeps the server's error, undecoded (its type is not known yet), and
    /// the routing record of the attempt.
    fn set_custom_error(&mut self, e: EncodedErr, last_idx: usize, config_ver: u64)
        ensures
            res_view(final(self).res) == Some(Err::<(), EncodedErrView>(e@)),
            final(self).config_ver == config_ver,
            final(self).last_index == last_idx,
            opt_bytes(final(self).resp) == opt_bytes(old(self).resp),
            opt_bytes(final(self).req_msg) == opt_bytes(old(self).req_msg),
            final(self).action@ == old(self).action@,
    {
        self.res = Some(Err(e));
        self.config_ver = config_ver;
        self.last_index = last_idx;
    }

    fn set_rpc_error(&mut self, e: RpcIntErr)
        ensures
            res_view(final(self).res) == Some(Err::<(), EncodedErrView>(EncodedErrView::Rpc(e))),
            final(self).config_ver == old(self).config_ver,
            final(self).last_index == old(self).last_index,
            opt_bytes(final(self).resp) == opt_bytes(old(self).resp),
            opt_bytes(final(self).req_msg) == opt_bytes(old(self).req_msg),
            final(self).action@ == old(self).action@,
    {
        self.res = Some(Err(EncodedErr::Rpc(e)));
    }

    fn set_ok(&mut self)
        ensures
            res_view(final(self).res) == Some(Ok::<(), EncodedErrView>(())),
            final(self).config_ver == old(self).config_ver,
            final(self).last_index == old(self).last_index,
            opt_bytes(final(self).resp) == opt_bytes(old(self).resp),
            opt_bytes(final(self).req_msg) == opt_bytes(old(self).req_msg),
            final(self).action@ == old(self).action@,
    {
        self.res = Some(Ok(()));
    }
}

/// A remote API call together with the notifier its caller waits on.
pub struct ApiCall<N> {
    /// The call.
    pub req: APIClientReq,
    /// Where the finished call is handed back, while someone waits for it.
    pub noti: Option<N>,
}

impl<N> ClientTaskDone for ApiCall<N> {
    open spec fn outcome(&self) -> Option<Result<(), EncodedErrView>> {
        self.req.outcome()
    }

    fn set_custom_error(&mut self, e: EncodedErr, last_index: usize, config_ver: u64)
        ensures
            final(self).req.config_ver == config_ver,
            final(self).req.last_index == last_index,
            final(self).noti == old(self).noti,
    {
        self.req.set_custom_error(e, last_index, config_ver);
    }

    fn set_rpc_error(&mut self, e: RpcIntErr)
        ensures
            final(self).noti == old(self).noti,
    {
        self.req.set_rpc_error(e);
    }

    fn set_ok(&mut self)
        ensures
            final(self).noti == old(self).noti,
    {
        self.req.set_ok();
    }
}

/// What a client receives for an error that the server encoded as `w`: a
/// number stays a number, text arrives as bytes.
pub open spec fn received(w: Result<u32, Seq<u8>>) -> EncodedErrView {
    match w {
        Ok(n) => EncodedErrView::Num(n),
        Err(b) => EncodedErrView::Buf(b),
    }
}

/// A success hands the response body, as it arrived, to the caller.
pub proof fn lemma_success_gives_response<E: RpcErrCodec>(resp: Option<Seq<u8>>)
    ensures
        spec_process_res::<E>(Ok(()), resp) == Ok::<Option<Seq<u8>>, RpcErrorValue<E::Value>>(resp),
{
}

/// A successful call yields the decoded response: the body it received is
/// handed on as it arrived, and a body that decodes to `v` gives `v`, one
/// that does not decode gives `Decode`, and no body gives the default.
pub proof fn lemma_call_yields_decoded_value<R, E: RpcErrCodec>(body: Seq<u8>, v: R, default: R)
    ensures
        spec_process_res::<E>(Ok(()), Some(body)) == Ok::<Option<Seq<u8>>, RpcErrorValue<E::Value>>(Some(body)),
        spec_finish_response::<R, E>(Some(Ok(v)), default) == Ok::<R, RpcError<E>>(v),
        spec_finish_response::<R, E>(Some(Err(())), default) == Err::<R, RpcError<E>>(
            RpcError::Rpc(RpcIntErr::Decode),
        ),
        spec_process_res::<E>(Ok(()), None) == Ok::<Option<Seq<u8>>, RpcErrorValue<E::Value>>(None),
        spec_finish_response::<R, E>(None, default) == Ok::<R, RpcError<E>>(default),
{
}

/// An internal error recorded on the request is the error of the call.
pub proof fn lemma_internal_error_passed_on<E: RpcErrCodec>(e: RpcIntErr, resp: Option<Seq<u8>>)
    ensures
        spec_process_res::<E>(Err(EncodedErrView::Rpc(e)), resp) == Err::<Option<Seq<u8>>, RpcErrorValue<E::Value>>(
            RpcErrorValue::Rpc(e),
        ),
{
}

/// A user error that the server encodes reaches the caller as the same
/// error, for any error type whose codec reads its encoding back.
pub proof fn lemma_user_error_delivered<E: RpcErrCodec>(v: E::Value, resp: Option<Seq<u8>>)
    requires
        E::spec_decode(crate::codec::wire_form(E::spec_encode(v))) == Ok::<E::Value, ()>(v),
    ensures
        spec_process_res::<E>(Err(received(crate::codec::wire_form(E::spec_encode(v)))), resp) == Err::<
            Option<Seq<u8>>,
            RpcErrorValue<E::Value>,
        >(RpcErrorValue::User(v)),
{
}

} // verus!
