//! Requests routed by a failover pool: the routing record carried with each
//! request, when a failed request is retried, and how a call reacts to a user
//! error that asks for a failover.
use vstd::prelude::*;
use crate::codec::RpcErrCodec;
use crate::error::{EncodedErr, EncodedErrView, RpcIntErr};
use crate::failover::{next_ver, spec_index_of, spec_select, FailoverState, ResubmitRoute};
use crate::rpc_error::RpcError;

verus! {

/// The outcome-recording half of a client request: what the transport calls
/// when the request ends.
pub trait ClientTaskDone: Sized {
    /// The outcome recorded on the request, once there is one.
    spec fn outcome(&self) -> Option<Result<(), EncodedErrView>>;

    /// Records an error encoded by the server, with the routing record of
    /// the attempt that got it.
    fn set_custom_error(&mut self, e: EncodedErr, last_index: usize, config_ver: u64)
        ensures
            final(self).outcome() == Some(Err::<(), EncodedErrView>(e@)),
    ;

    /// Records an internal error.
    fn set_rpc_error(&mut self, e: RpcIntErr)
        ensures
            final(self).outcome() == Some(Err::<(), EncodedErrView>(EncodedErrView::Rpc(e))),
    ;

    /// Records success.
    fn set_ok(&mut self)
        ensures
            final(self).outcome() == Some(Ok::<(), EncodedErrView>(())),
    ;
}

/// A request together with its routing record in a failover pool.
pub struct FailoverTask<T> {
    /// The (unreduced) position of the node the request was last sent to.
    pub last_index: usize,
    /// The configuration version it was routed under.
    pub config_ver: u64,
    /// The request itself.
    pub inner: T,
    /// How many retriable errors it has met.
    pub retry: usize,
    /// Whether its last error may be retried.
    pub should_retry: bool,
    /// A retry limit of its own, or 0 for the pool's default.
    pub max_retries: usize,
}

impl<T> FailoverTask<T> {
    /// A request sent to position `last_index` under version `config_ver`.
    pub fn new(inner: T, last_index: usize, config_ver: u64, retry: usize, max_retries: usize) -> (r: FailoverTask<T>)
        ensures
            r == (FailoverTask { last_index, config_ver, inner, retry, should_retry: false, max_retries }),
    {
        FailoverTask { last_index, config_ver, inner, retry, should_retry: false, max_retries }
    }

    /// The retry limit that applies to this request.
    pub open spec fn spec_retry_limit(&self, default_limit: usize) -> usize {
        if self.max_retries > 0 {
            self.max_retries
        } else {
            default_limit
        }
    }
}

impl<T: ClientTaskDone> FailoverTask<T> {
    /// An encoded error comes from the server: it is never retried here, and
    /// the request learns where it was routed.
    pub fn set_custom_error(&mut self, e: EncodedErr, _last_index: usize, _config_ver: u64)
        ensures
            final(self).inner.outcome() == Some(Err::<(), EncodedErrView>(e@)),
            final(self).should_retry == false,
            final(self).retry == old(self).retry,
            final(self).last_index == old(self).last_index,
            final(self).config_ver == old(self).config_ver,
            final(self).max_retries == old(self).max_retries,
    {
        self.should_retry = false;
        let last_index = self.last_index;
        let config_ver = self.config_ver;
        self.inner.set_custom_error(e, last_index, config_ver);
    }

    /// A retriable internal error (one before `Method`) marks the request
    /// for retry and counts it; any other one does not.
    pub fn set_rpc_error(&mut self, e: RpcIntErr)
        requires
            e.spec_retriable() ==> old(self).retry < usize::MAX,
        ensures
            final(self).inner.outcome() == Some(Err::<(), EncodedErrView>(EncodedErrView::Rpc(e))),
            final(self).should_retry == e.spec_retriable(),
            final(self).retry == (if e.spec_retriable() {
                old(self).retry + 1
            } else {
                old(self).retry as int
            }),
            final(self).last_index == old(self).last_index,
            final(self).config_ver == old(self).config_ver,
            final(self).max_retries == old(self).max_retries,
    {
        if e.is_retriable() {
            self.should_retry = true;
            self.retry = self.retry + 1;
        } else {
            self.should_retry = false;
        }
        self.inner.set_rpc_error(e);
    }

    /// Records success on the request.
    pub fn set_ok(&mut self)
        ensures
            final(self).inner.outcome() == Some(Ok::<(), EncodedErrView>(())),
            final(self).should_retry == old(self).should_retry,
            final(self).retry == old(self).retry,
            final(self).last_index == old(self).last_index,
            final(self).config_ver == old(self).config_ver,
            final(self).max_retries == old(self).max_retries,
    {
        self.inner.set_ok();
    }
}

/// A request's own retry limit: the one given, or 0 for the pool's default.
pub open spec fn spec_unwrap_or_zero(max_retries: Option<usize>) -> usize {
    match max_retries {
        Some(m) => m,
        None => 0,
    }
}

impl FailoverState {
    /// Sends a new request: wraps it with the node it is routed to, or, when
    /// no node is available, records `Unreachable` on it and hands it back.
    pub fn send_req<T: ClientTaskDone>(&mut self, task: T, health: &[bool]) -> (r: Result<FailoverTask<T>, T>)
        requires
            health@.len() == old(self).cluster.len(),
        ensures
            final(self).next_node == old(self).counter_after_fresh(),
            final(self).cluster == old(self).cluster,
            final(self).ver == old(self).ver,
            final(self).stateless == old(self).stateless,
            final(self).retry_limit == old(self).retry_limit,
            final(self).pool_channel_size == old(self).pool_channel_size,
            match spec_select(health@, old(self).fresh_seed() as int) {
                Some(i) => r matches Ok(t) && t == (FailoverTask {
                    last_index: i as usize,
                    config_ver: old(self).cluster.ver,
                    inner: task,
                    retry: 0,
                    should_retry: false,
                    max_retries: 0,
                }),
                None => r matches Err(t) && t.outcome() == Some(
                    Err::<(), EncodedErrView>(EncodedErrView::Rpc(RpcIntErr::Unreachable)),
                ),
            },
    {
        match self.route_new(health) {
            Some((index, ver)) => Ok(FailoverTask::new(task, index, ver, 0, 0)),
            None => {
                let mut task = task;
                task.set_rpc_error(RpcIntErr::Unreachable);
                Err(task)
            },
        }
    }

    /// Resubmits a request after a user error asked for a failover: to the
    /// address it names (`Ok(addr)`), keeping the retry count and the
    /// request's own retry limit, or to the node after `last_index`
    /// (`Err(last_index)`), as a fresh attempt. When no node is available,
    /// records `Unreachable` on the request and hands it back.
    pub fn resubmit<T: ClientTaskDone>(
        &mut self,
        task: T,
        addr_or_retry: Result<String, usize>,
        retry_count: usize,
        max_retries: Option<usize>,
        health: &[bool],
    ) -> (r: Result<FailoverTask<T>, T>)
        requires
            health@.len() == old(self).cluster.len(),
            addr_or_retry matches Err(last) ==> last < usize::MAX,
        ensures
            final(self).stateless == old(self).stateless,
            final(self).retry_limit == old(self).retry_limit,
            final(self).pool_channel_size == old(self).pool_channel_size,
            old(self).versions_in_order() && old(self).ver < u64::MAX ==> final(self).versions_in_order(),
            match addr_or_retry {
                Ok(addr) => match spec_index_of(old(self).cluster.addrs@, addr@) {
                    Some(i) => {
                        &&& r matches Ok(t) && t == (FailoverTask {
                            last_index: i,
                            config_ver: old(self).cluster.ver,
                            inner: task,
                            retry: retry_count,
                            should_retry: false,
                            max_retries: spec_unwrap_or_zero(max_retries),
                        })
                        &&& final(self).next_node == i
                        &&& final(self).cluster == old(self).cluster
                        &&& final(self).ver == old(self).ver
                    },
                    None => {
                        &&& r matches Ok(t) && t == (FailoverTask {
                            last_index: old(self).cluster.addrs@.len() as usize,
                            config_ver: next_ver(old(self).ver),
                            inner: task,
                            retry: retry_count,
                            should_retry: false,
                            max_retries: spec_unwrap_or_zero(max_retries),
                        })
                        &&& final(self).next_node == old(self).cluster.addrs@.len()
                        &&& final(self).cluster.addrs@ == old(self).cluster.addrs@.push(addr)
                        &&& final(self).cluster.ver == next_ver(old(self).ver)
                        &&& final(self).ver == next_ver(old(self).ver)
                    },
                },
                Err(last) => {
                    &&& *final(self) == *old(self)
                    &&& match spec_select(health@, last + 1) {
                        Some(i) => r matches Ok(t) && t == (FailoverTask {
                            last_index: i as usize,
                            config_ver: old(self).cluster.ver,
                            inner: task,
                            retry: 0,
                            should_retry: false,
                            max_retries: 0,
                        }),
                        None => r matches Err(t) && t.outcome() == Some(
                            Err::<(), EncodedErrView>(EncodedErrView::Rpc(RpcIntErr::Unreachable)),
                        ),
                    }
                },
            },
    {
        let ghost addr_view = match &addr_or_retry {
            Ok(a) => a@,
            Err(_) => Seq::empty(),
        };
        proof {
            assert(self.cluster.addrs.len() == self.cluster.addrs@.len());
            crate::failover::lemma_index_of(self.cluster.addrs@, addr_view);
        }
        let route = self.resubmit_route(addr_or_retry, health);
        match route {
            ResubmitRoute::Known { index, config_ver } => {
                let m = match max_retries {
                    Some(m) => m,
                    None => 0,
                };
                Ok(FailoverTask::new(task, index, config_ver, retry_count, m))
            },
            ResubmitRoute::Added { index, config_ver } => {
                let m = match max_retries {
                    Some(m) => m,
                    None => 0,
                };
                Ok(FailoverTask::new(task, index, config_ver, retry_count, m))
            },
            ResubmitRoute::Next { index, config_ver } => {
                Ok(FailoverTask::new(task, index, config_ver, 0, 0))
            },
            ResubmitRoute::Unreachable => {
                let mut task = task;
                task.set_rpc_error(RpcIntErr::Unreachable);
                Err(task)
            },
        }
    }

    /// Routes a queued retry: under the configuration the request was routed
    /// with, to the next healthy node after its last one; under a changed
    /// configuration, afresh (and the request adopts the new version).
    /// Returns whether a node was found; the request is then to be sent to
    /// its new `last_index`.
    pub fn route_retry_task<T>(&mut self, task: &mut FailoverTask<T>, health: &[bool]) -> (r: bool)
        requires
            health@.len() == old(self).cluster.len(),
            old(task).last_index < usize::MAX,
        ensures
            final(task).inner == old(task).inner,
            final(task).retry == old(task).retry,
            final(task).should_retry == old(task).should_retry,
            final(task).max_retries == old(task).max_retries,
            final(task).config_ver == old(self).cluster.ver,
            final(self).cluster == old(self).cluster,
            final(self).ver == old(self).ver,
            final(self).stateless == old(self).stateless,
            final(self).retry_limit == old(self).retry_limit,
            old(task).config_ver == old(self).cluster.ver ==> {
                &&& final(self).next_node == old(self).next_node
                &&& r == spec_select(health@, old(task).last_index + 1) is Some
                &&& r ==> spec_select(health@, old(task).last_index + 1) == Some(final(task).last_index as int)
            },
            old(task).config_ver != old(self).cluster.ver ==> {
                &&& final(self).next_node == old(self).counter_after_fresh()
                &&& r == spec_select(health@, old(self).fresh_seed() as int) is Some
                &&& r ==> spec_select(health@, old(self).fresh_seed() as int) == Some(final(task).last_index as int)
            },
            !r ==> final(task).last_index == old(task).last_index,
    {
        let cluster_ver = self.cluster.ver;
        match self.route_retry(task.config_ver, task.last_index, health) {
            Some((index, ver)) => {
                task.last_index = index;
                task.config_ver = ver;
                true
            },
            None => {
                task.config_ver = cluster_ver;
                false
            },
        }
    }

    /// Decides what becomes of a request whose attempt failed: it is queued
    /// for retry (`Ok`) when its last error was retriable and it has not used
    /// up its retries; otherwise the bare request is handed back (`Err`) to
    /// be completed with its error.
    pub fn error_handle<T>(&self, task: FailoverTask<T>) -> (r: Result<FailoverTask<T>, T>)
        ensures
            (task.should_retry && task.retry <= task.spec_retry_limit(self.retry_limit)) ==> r == Ok::<
                FailoverTask<T>,
                T,
            >(task),
            !(task.should_retry && task.retry <= task.spec_retry_limit(self.retry_limit)) ==> r == Err::<
                FailoverTask<T>,
                T,
            >(task.inner),
    {
        let retry_limit = if task.max_retries > 0 {
            task.max_retries
        } else {
            self.retry_limit
        };
        if task.should_retry && task.retry <= retry_limit {
            Ok(task)
        } else {
            Err(task.inner)
        }
    }
}

/// A request with a retry limit of its own is held to that limit, whether it
/// is below or above the pool's default: it is retried while its retry count
/// is within its own limit, and handed back once the count passes it. The
/// pool's default applies only to a request without a limit of its own.
pub proof fn lemma_own_retry_limit_applies<T>(task: FailoverTask<T>, default_limit: usize)
    ensures
        task.max_retries > 0 ==> (task.should_retry && task.retry <= task.spec_retry_limit(default_limit)
            <==> task.should_retry && task.retry <= task.max_retries),
        task.max_retries == 0 ==> (task.should_retry && task.retry <= task.spec_retry_limit(default_limit)
            <==> task.should_retry && task.retry <= default_limit),
        task.max_retries > 0 ==> task.spec_retry_limit(default_limit) == task.spec_retry_limit(0),
{
}

/// The next move of a call on a failover pool, after an attempt finished.
pub enum CallStep<R, E: RpcErrCodec> {
    /// The call ends with this result.
    Done(Result<R, RpcError<E>>),
    /// Resubmit the request to this address, with this retry count.
    Redirect { addr: String, retry_count: usize },
    /// Resubmit the request to the next node, with this retry count.
    RetryNext { retry_count: usize },
}

/// How a call on a failover pool reacts to the result of an attempt.
///
/// A success or an internal error ends the call (internal errors are retried
/// by the pool itself). A user error counts as one more retry; when the error
/// asks for a failover (to an address, or to the next node) and the count
/// stays below `max_retries`, the request is resubmitted; otherwise the call
/// ends with the user error.
pub fn failover_call_step<R, E: RpcErrCodec>(result: Result<R, RpcError<E>>, retry_count: usize, max_retries: usize) -> (r: CallStep<R, E>)
    requires
        retry_count < usize::MAX,
    ensures
        match result {
            Ok(v) => r == CallStep::<R, E>::Done(Ok(v)),
            Err(RpcError::Rpc(e)) => r == CallStep::<R, E>::Done(Err(RpcError::Rpc(e))),
            Err(RpcError::User(e)) => match E::spec_should_failover(e.value()) {
                Ok(Some(a)) => if retry_count + 1 < max_retries {
                    r matches CallStep::Redirect { addr, retry_count: c } && addr@ == a && c == retry_count + 1
                } else {
                    r == CallStep::<R, E>::Done(Err(RpcError::User(e)))
                },
                Ok(None) => if retry_count + 1 < max_retries {
                    r == CallStep::<R, E>::RetryNext { retry_count: (retry_count + 1) as usize }
                } else {
                    r == CallStep::<R, E>::Done(Err(RpcError::User(e)))
                },
                Err(()) => r == CallStep::<R, E>::Done(Err(RpcError::User(e))),
            },
        },
{
    match result {
        Ok(v) => CallStep::Done(Ok(v)),
        Err(RpcError::Rpc(e)) => CallStep::Done(Err(RpcError::Rpc(e))),
        Err(RpcError::User(e)) => {
            let count = retry_count + 1;
            let redirect: Option<Option<String>> = match e.should_failover() {
                Ok(Some(addr)) => Some(Some(String::from_str(addr))),
                Ok(None) => Some(None),
                Err(()) => None,
            };
            match redirect {
                Some(Some(addr)) => {
                    if count < max_retries {
                        CallStep::Redirect { addr, retry_count: count }
                    } else {
                        CallStep::Done(Err(RpcError::User(e)))
                    }
                },
                Some(None) => {
                    if count < max_retries {
                        CallStep::RetryNext { retry_count: count }
                    } else {
                        CallStep::Done(Err(RpcError::User(e)))
                    }
                },
                None => CallStep::Done(Err(RpcError::User(e))),
            }
        },
    }
}

} // verus!
