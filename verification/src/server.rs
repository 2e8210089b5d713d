//! The server side: pre-encoded responses and the default server facts.
use vstd::prelude::*;
use crate::api_task::{opt_bytes, res_view};
use crate::config::ServerConfig;
use crate::error::{EncodedErr, EncodedErrView};
use io_buffer::Buffer;

verus! {

#[verifier::external_type_specification]
#[verifier::external_body]
pub struct ExBuffer(Buffer);

/// The bytes an `io_buffer::Buffer` holds.
pub uninterp spec fn buffer_contents(b: Buffer) -> Seq<u8>;

/// `Buffer`'s `deref`: its bytes.
#[verifier::external_body]
fn buffer_bytes(b: &Buffer) -> (r: &[u8])
    ensures
        r@ == buffer_contents(*b),
{
    &**b
}

/// The bytes an optional buffer holds.
pub open spec fn opt_buffer(b: Option<Buffer>) -> Option<Seq<u8>> {
    match b {
        Some(b) => Some(buffer_contents(b)),
        None => None,
    }
}

/// The bytes an optional slice holds.
pub open spec fn opt_slice(b: Option<&[u8]>) -> Option<Seq<u8>> {
    match b {
        Some(b) => Some(b@),
        None => None,
    }
}

/// A server response whose message is already encoded.
pub struct RpcSvrResp {
    pub seq: u64,
    pub msg: Option<Vec<u8>>,
    pub blob: Option<Buffer>,
    pub res: Option<Result<(), EncodedErr>>,
}

impl RpcSvrResp {
    /// Appends the message to `buf` and gives the sequence number with
    /// either the message length and the blob, or the error. The outcome is
    /// taken out of the response.
    pub fn encode_resp<'a, 'b>(&'a mut self, buf: &'b mut Vec<u8>) -> (r: (u64, Result<(usize, Option<&'a [u8]>), EncodedErr>))
        requires
            old(self).res is Some,
        ensures
            r.0 == old(self).seq,
            final(self).res is None,
            final(self).seq == old(self).seq,
            opt_bytes(final(self).msg) == opt_bytes(old(self).msg),
            opt_buffer(final(self).blob) == opt_buffer(old(self).blob),
            match res_view(old(self).res)->Some_0 {
                Ok(()) => match opt_bytes(old(self).msg) {
                    Some(m) => final(buf)@ == old(buf)@ + m && (r.1 matches Ok((n, b)) && n == m.len()
                        && opt_slice(b) == opt_buffer(old(self).blob)),
                    None => final(buf)@ == old(buf)@ && (r.1 matches Ok((n, b)) && n == 0
                        && opt_slice(b) == opt_buffer(old(self).blob)),
                },
                Err(e) => final(buf)@ == old(buf)@ && (r.1 matches Err(x) && x@ == e),
            },
    {
        let res = self.res.take();
        let blob: Option<&'a [u8]> = match &self.blob {
            Some(b) => Some(buffer_bytes(b)),
            None => None,
        };
        match res {
            Some(Ok(())) => {
                match &self.msg {
                    Some(msg) => {
                        let mut i: usize = 0;
                        while i < msg.len()
                            invariant
                                i <= msg@.len(),
                                buf@ == old(buf)@ + msg@.subrange(0, i as int),
                            decreases msg@.len() - i,
                        {
                            buf.push(msg[i]);
                            i = i + 1;
                            assert(msg@.subrange(0, i as int) == msg@.subrange(0, i - 1).push(msg@[i - 1]));
                        }
                        assert(msg@.subrange(0, msg@.len() as int) == msg@);
                        (self.seq, Ok((msg.len(), blob)))
                    },
                    None => (self.seq, Ok((0, blob))),
                }
            },
            Some(Err(e)) => (self.seq, Err(e)),
            None => (self.seq, Err(EncodedErr::Rpc(crate::error::RpcIntErr::Internal))),
        }
    }
}

/// What the server side is built from, defined by the user.
pub trait ServerFacts {
    /// The server configuration the facts keep.
    fn get_config(&self) -> &ServerConfig;
}

/// Server facts for general use: the server configuration.
pub struct ServerDefault {
    config: ServerConfig,
}

impl ServerDefault {
    /// Facts holding `config`.
    pub fn new(config: ServerConfig) -> (r: std::sync::Arc<ServerDefault>)
        ensures
            r.spec_config() == config,
    {
        std::sync::Arc::new(ServerDefault { config })
    }

    /// The configuration the facts hold.
    pub closed spec fn spec_config(&self) -> ServerConfig {
        self.config
    }

}

impl ServerFacts for ServerDefault {
    fn get_config(&self) -> (r: &ServerConfig)
        ensures
            *r == self.spec_config(),
    {
        &self.config
    }
}

} // verus!
