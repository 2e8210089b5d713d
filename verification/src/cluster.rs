//! The error type and the leader state of a leader/follower service: a
//! follower answers with a redirect to the leader, which a failover pool
//! follows.
use vstd::prelude::*;
use crate::codec::{failover_view, RpcErrCodec};
use crate::error::{EncodedErr, EncodedErrView};
use crate::text::{
    bytes_eq, bytes_starts_with, debug_text, lemma_encode_utf8_concat, lemma_str_of_bytes, str_debug_text,
    str_from_utf8,
};
use vstd::string::StringSliceAdditionalSpecFns;
use vstd::utf8::{
    decode_utf8, encode_utf8, encode_utf8_decode_utf8, encode_utf8_valid_utf8, is_ascii_chars,
    is_ascii_chars_encode_utf8, valid_utf8,
};

verus! {

/// The error of a cluster operation.
#[derive(Debug, Clone, PartialEq)]
pub enum ClusterErr {
    /// Redirect to the leader at this address
    Redirect(String),
    /// Retry on the next node (the node is shutting down, is not the leader, ...)
    RetryNext,
    /// Internal error, not to be retried
    Internal,
}

/// The abstract value of a [`ClusterErr`].
pub enum ClusterErrValue {
    Redirect(Seq<char>),
    RetryNext,
    Internal,
}

/// The wire text of a redirect begins with this prefix.
pub open spec fn redirect_prefix() -> Seq<char> {
    "redirect_"@
}

impl RpcErrCodec for ClusterErr {
    type Value = ClusterErrValue;

    open spec fn value(&self) -> ClusterErrValue {
        match self {
            ClusterErr::Redirect(a) => ClusterErrValue::Redirect(a@),
            ClusterErr::RetryNext => ClusterErrValue::RetryNext,
            ClusterErr::Internal => ClusterErrValue::Internal,
        }
    }

    open spec fn spec_encode(v: ClusterErrValue) -> EncodedErrView {
        match v {
            ClusterErrValue::Redirect(a) => EncodedErrView::Buf(encode_utf8(redirect_prefix() + a)),
            ClusterErrValue::RetryNext => EncodedErrView::Static("retry_next"@),
            ClusterErrValue::Internal => EncodedErrView::Static("internal"@),
        }
    }

    open spec fn spec_decode(buf: Result<u32, Seq<u8>>) -> Result<ClusterErrValue, ()> {
        match buf {
            Err(b) => {
                let p = encode_utf8(redirect_prefix());
                if p.len() <= b.len() && b.subrange(0, p.len() as int) == p {
                    let rest = b.subrange(p.len() as int, b.len() as int);
                    if valid_utf8(rest) {
                        Ok(ClusterErrValue::Redirect(decode_utf8(rest)))
                    } else {
                        Err(())
                    }
                } else if b == encode_utf8("retry_next"@) {
                    Ok(ClusterErrValue::RetryNext)
                } else if b == encode_utf8("internal"@) {
                    Ok(ClusterErrValue::Internal)
                } else {
                    Err(())
                }
            },
            Ok(_) => Err(()),
        }
    }

    open spec fn spec_fmt(v: ClusterErrValue) -> Seq<char> {
        match v {
            ClusterErrValue::Redirect(a) => "Redirect("@ + debug_text(a) + ")"@,
            ClusterErrValue::RetryNext => "RetryNext"@,
            ClusterErrValue::Internal => "Internal"@,
        }
    }

    open spec fn spec_should_failover(v: ClusterErrValue) -> Result<Option<Seq<char>>, ()> {
        match v {
            ClusterErrValue::Redirect(a) => Ok(Some(a)),
            ClusterErrValue::RetryNext => Ok(None),
            ClusterErrValue::Internal => Err(()),
        }
    }

    fn encode(&self) -> (r: EncodedErr) {
        match self {
            ClusterErr::Redirect(addr) => {
                let s = String::from_str("redirect_").concat(addr.as_str());
                EncodedErr::Buf(vstd::slice::slice_to_vec(s.as_str().as_bytes()))
            },
            ClusterErr::RetryNext => EncodedErr::Static("retry_next"),
            ClusterErr::Internal => EncodedErr::Static("internal"),
        }
    }

    fn decode(buf: Result<u32, &[u8]>) -> (r: Result<Self, ()>) {
        if let Err(bytes) = buf {
            let prefix = "redirect_".as_bytes();
            if bytes_starts_with(bytes, prefix) {
                let rest = vstd::slice::slice_subrange(bytes, prefix.len(), bytes.len());
                match str_from_utf8(rest) {
                    Ok(t) => {
                        proof {
                            lemma_str_of_bytes(t, rest@);
                        }
                        Ok(ClusterErr::Redirect(String::from_str(t)))
                    },
                    Err(()) => Err(()),
                }
            } else if bytes_eq(bytes, "retry_next".as_bytes()) {
                Ok(ClusterErr::RetryNext)
            } else if bytes_eq(bytes, "internal".as_bytes()) {
                Ok(ClusterErr::Internal)
            } else {
                Err(())
            }
        } else {
            Err(())
        }
    }

    fn fmt(&self) -> (r: String) {
        match self {
            ClusterErr::Redirect(addr) => String::from_str("Redirect(").concat(str_debug_text(addr.as_str()).as_str()).concat(
                ")",
            ),
            ClusterErr::RetryNext => String::from_str("RetryNext"),
            ClusterErr::Internal => String::from_str("Internal"),
        }
    }

    fn should_failover(&self) -> (r: Result<Option<&str>, ()>) {
        match self {
            ClusterErr::Redirect(addr) => Ok(Some(addr.as_str())),
            ClusterErr::RetryNext => Ok(None),
            ClusterErr::Internal => Err(()),
        }
    }
}

/// A cluster error read back from its encoding is the same error.
pub proof fn lemma_cluster_err_round_trip(v: ClusterErrValue)
    ensures
        <ClusterErr as RpcErrCodec>::spec_decode(crate::codec::wire_form(<ClusterErr as RpcErrCodec>::spec_encode(v)))
            == Ok::<ClusterErrValue, ()>(v),
{
    reveal_strlit("redirect_");
    reveal_strlit("retry_next");
    reveal_strlit("internal");
    let p = redirect_prefix();
    assert(is_ascii_chars(p));
    is_ascii_chars_encode_utf8(p);
    assert(is_ascii_chars("retry_next"@));
    is_ascii_chars_encode_utf8("retry_next"@);
    assert(is_ascii_chars("internal"@));
    is_ascii_chars_encode_utf8("internal"@);
    let pb = encode_utf8(p);
    match v {
        ClusterErrValue::Redirect(a) => {
            lemma_encode_utf8_concat(p, a);
            let b = encode_utf8(p + a);
            assert(b.subrange(0, pb.len() as int) =~= pb);
            assert(b.subrange(pb.len() as int, b.len() as int) =~= encode_utf8(a));
            encode_utf8_valid_utf8(a);
            encode_utf8_decode_utf8(a);
        },
        ClusterErrValue::RetryNext => {
            let b = encode_utf8("retry_next"@);
            assert(b.subrange(0, pb.len() as int)[2] != pb[2]);
        },
        ClusterErrValue::Internal => {
            let b = encode_utf8("internal"@);
            assert(b.len() < pb.len());
            assert(b.len() != encode_utf8("retry_next"@).len());
        },
    }
}

/// The leader state of a cluster: the nodes' addresses and which one leads.
pub struct ClusterState {
    pub leader_index: usize,
    pub addrs: Vec<String>,
}

impl ClusterState {
    pub fn new(addrs: Vec<String>, leader_index: usize) -> (r: ClusterState)
        ensures
            r.leader_index == leader_index,
            r.addrs@ == addrs@,
    {
        ClusterState { leader_index, addrs }
    }

    /// The leader's address.
    pub fn get_leader_addr(&self) -> (r: String)
        requires
            self.leader_index < self.addrs@.len(),
        ensures
            r@ == self.addrs@[self.leader_index as int]@,
    {
        self.addrs[self.leader_index].clone()
    }

    /// Whether the node at `node_index` leads.
    pub fn is_leader(&self, node_index: usize) -> (r: bool)
        ensures
            r == (self.leader_index == node_index),
    {
        self.leader_index == node_index
    }

    /// Makes the node at `leader_index` the leader.
    pub fn set_leader(&mut self, leader_index: usize)
        ensures
            final(self).leader_index == leader_index,
            final(self).addrs@ == old(self).addrs@,
    {
        self.leader_index = leader_index;
    }

    /// Adds a node, and gives its position.
    pub fn add_addr(&mut self, addr: String) -> (r: usize)
        ensures
            r == old(self).addrs@.len(),
            final(self).addrs@ == old(self).addrs@.push(addr),
            final(self).leader_index == old(self).leader_index,
    {
        let index = self.addrs.len();
        self.addrs.push(addr);
        index
    }
}

} // verus!
