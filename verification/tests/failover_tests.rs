use razor_rpc::api_task::APIClientReq;
use razor_rpc::cluster::ClusterErr;
use razor_rpc::error::{EncodedErr, RpcIntErr};
use razor_rpc::failover::{ClusterConfig, FailoverState, ResubmitRoute};
use razor_rpc::failover_task::{failover_call_step, CallStep, ClientTaskDone, FailoverTask};
use razor_rpc::rpc_error::RpcError;

fn addrs(names: &[&str]) -> Vec<String> {
    names.iter().map(|s| s.to_string()).collect()
}

fn req() -> APIClientReq {
    APIClientReq::new("Svc.m", vec![1])
}

#[test]
fn select_goes_round_from_seed() {
    let c = ClusterConfig { addrs: addrs(&["a", "b", "c"]), ver: 0 };
    assert_eq!(c.select(0, &[true, true, true]), Some(0));
    assert_eq!(c.select(4, &[true, true, true]), Some(4));
    assert_eq!(c.select(2, &[false, true, false]), Some(4));
    assert_eq!(c.select(1, &[false, true, false]), Some(1));
    assert_eq!(c.select(0, &[false, false, false]), None);
    assert_eq!(c.select(usize::MAX - 1, &[true, true, true]), None);
    assert_eq!(c.select(usize::MAX - 3, &[true, true, true]), Some(usize::MAX - 3));
    let empty = ClusterConfig { addrs: vec![], ver: 0 };
    assert_eq!(empty.select(0, &[]), None);
}

#[test]
fn get_by_addr_finds_first() {
    let c = ClusterConfig { addrs: addrs(&["a", "b", "a"]), ver: 0 };
    assert_eq!(c.get_by_addr("a"), Some(0));
    assert_eq!(c.get_by_addr("b"), Some(1));
    assert_eq!(c.get_by_addr("z"), None);
}

#[test]
fn stateless_routing_is_round_robin() {
    let mut s = FailoverState::new(addrs(&["a", "b", "c"]), true, 3, 0);
    let h = [true, true, true];
    assert_eq!(s.route_new(&h), Some((0, 0)));
    assert_eq!(s.route_new(&h), Some((1, 0)));
    assert_eq!(s.route_new(&h), Some((2, 0)));
    assert_eq!(s.route_new(&h), Some((3, 0)));
    assert_eq!(s.next_node, 4);
    // an unhealthy node is skipped
    assert_eq!(s.route_new(&[true, false, true]), Some((5, 0)));
    assert_eq!(s.next_node, 5);
}

#[test]
fn stateful_routing_follows_the_leader() {
    let mut s = FailoverState::new(addrs(&["a", "b", "c"]), false, 3, 0);
    let h = [true, true, true];
    assert_eq!(s.route_new(&h), Some((0, 0)));
    assert_eq!(s.route_new(&h), Some((0, 0)));
    // a redirect to a known node makes it the leader
    match s.resubmit_route(Ok("c".to_string()), &h) {
        ResubmitRoute::Known { index, config_ver } => {
            assert_eq!(index, 2);
            assert_eq!(config_ver, 0);
        }
        _ => panic!("expected a known node"),
    }
    assert_eq!(s.route_new(&h), Some((2, 0)));
    // the leader is left only while it is unhealthy
    assert_eq!(s.route_new(&[true, true, false]), Some((3, 0)));
    assert_eq!(s.route_new(&h), Some((2, 0)));
}

#[test]
fn redirect_to_new_address_adds_a_node() {
    let mut s = FailoverState::new(addrs(&["a", "b", "c"]), false, 3, 0);
    match s.resubmit_route(Ok("d".to_string()), &[true, true, true]) {
        ResubmitRoute::Added { index, config_ver } => {
            assert_eq!(index, 3);
            assert_eq!(config_ver, 2);
        }
        _ => panic!("expected an added node"),
    }
    assert_eq!(s.cluster.addrs, addrs(&["a", "b", "c", "d"]));
    assert_eq!(s.cluster.ver, 2);
    assert_eq!(s.ver, 2);
    assert_eq!(s.next_node, 3);
    assert_eq!(s.route_new(&[true, true, true, true]), Some((3, 2)));
}

#[test]
fn resubmit_to_next_node() {
    let mut s = FailoverState::new(addrs(&["a", "b", "c"]), false, 3, 0);
    match s.resubmit_route(Err(0), &[true, true, true]) {
        ResubmitRoute::Next { index, config_ver } => {
            assert_eq!(index, 1);
            assert_eq!(config_ver, 0);
        }
        _ => panic!("expected the next node"),
    }
    match s.resubmit_route(Err(0), &[false, false, false]) {
        ResubmitRoute::Unreachable => {}
        _ => panic!("expected no node"),
    }
    assert_eq!(s.next_node, 0);
}

#[test]
fn update_addrs_reuses_pools_by_address() {
    let mut s = FailoverState::new(addrs(&["a", "b", "c", "a"]), true, 3, 8);
    let plan = s.update_addrs(addrs(&["c", "d", "a", "c"]));
    assert_eq!(plan, vec![Some(2), None, Some(3), None]);
    assert_eq!(s.cluster.addrs, addrs(&["c", "d", "a", "c"]));
    assert_eq!(s.cluster.ver, 2);
    assert_eq!(s.ver, 2);
    let plan = s.update_addrs(vec![]);
    assert!(plan.is_empty());
    assert_eq!(s.cluster.ver, 3);
}

#[test]
fn retries_move_on_or_restart() {
    let mut s = FailoverState::new(addrs(&["a", "b", "c"]), true, 3, 0);
    let h = [true, true, true];
    let mut t = FailoverTask::new(req(), 0, 0, 1, 0);
    assert!(s.route_retry_task(&mut t, &h));
    assert_eq!(t.last_index, 1);
    assert_eq!(t.config_ver, 0);
    assert_eq!(s.next_node, 0);
    // after a configuration change, selection restarts from the counter
    s.update_addrs(addrs(&["x", "y"]));
    let mut t = FailoverTask::new(req(), 1, 0, 1, 0);
    assert!(s.route_retry_task(&mut t, &[true, true]));
    assert_eq!(t.last_index, 0);
    assert_eq!(t.config_ver, 2);
    assert_eq!(s.next_node, 1);
    let mut t = FailoverTask::new(req(), 1, 2, 1, 0);
    assert!(!s.route_retry_task(&mut t, &[false, false]));
    assert_eq!(t.last_index, 1);
    assert_eq!(s.route_retry(2, 0, &[true, true]), Some((1, 2)));
}

#[test]
fn retriable_errors_are_counted() {
    let mut t = FailoverTask::new(req(), 4, 7, 0, 0);
    t.set_rpc_error(RpcIntErr::Timeout);
    assert!(t.should_retry);
    assert_eq!(t.retry, 1);
    t.set_rpc_error(RpcIntErr::Method);
    assert!(!t.should_retry);
    assert_eq!(t.retry, 1);
    t.set_rpc_error(RpcIntErr::Unreachable);
    assert!(t.should_retry);
    assert_eq!(t.retry, 2);
    t.set_custom_error(EncodedErr::Num(3), 0, 0);
    assert!(!t.should_retry);
    assert_eq!(t.inner.last_index, 4);
    assert_eq!(t.inner.config_ver, 7);
    t.set_ok();
    assert_eq!(t.inner.res, Some(Ok(())));
}

#[test]
fn error_handle_respects_the_limit() {
    let s = FailoverState::new(addrs(&["a"]), true, 2, 0);
    let mut t = FailoverTask::new(req(), 0, 0, 0, 0);
    t.set_rpc_error(RpcIntErr::IO);
    t.set_rpc_error(RpcIntErr::IO);
    let t = s.error_handle(t).ok().expect("within the limit");
    let mut t = t;
    t.set_rpc_error(RpcIntErr::IO);
    assert_eq!(t.retry, 3);
    assert!(s.error_handle(t).is_err());
    // a request's own limit replaces the default
    let mut t = FailoverTask::new(req(), 0, 0, 0, 5);
    t.retry = 4;
    t.set_rpc_error(RpcIntErr::IO);
    assert!(s.error_handle(t).is_ok());
    let mut t = FailoverTask::new(req(), 0, 0, 0, 0);
    t.set_rpc_error(RpcIntErr::Decode);
    assert!(s.error_handle(t).is_err());
}

#[test]
fn send_req_without_nodes_is_unreachable() {
    let mut s = FailoverState::new(vec![], true, 2, 0);
    match s.send_req(req(), &[]) {
        Err(mut r) => match r.process_res::<()>() {
            Err(RpcError::Rpc(RpcIntErr::Unreachable)) => {}
            _ => panic!("expected Unreachable"),
        },
        Ok(_) => panic!("expected no node"),
    }
    let mut s = FailoverState::new(addrs(&["a", "b"]), true, 2, 0);
    let t = s.send_req(req(), &[false, true]).ok().expect("a node");
    assert_eq!(t.last_index, 1);
    assert_eq!(t.config_ver, 0);
    assert_eq!(t.retry, 0);
    assert!(!t.should_retry);
}

#[test]
fn resubmit_wraps_the_request() {
    let mut s = FailoverState::new(addrs(&["a", "b"]), false, 2, 0);
    let t = s.resubmit(req(), Ok("b".to_string()), 2, Some(9), &[true, true]).ok().expect("routed");
    assert_eq!((t.last_index, t.config_ver, t.retry, t.max_retries), (1, 0, 2, 9));
    let t = s.resubmit(req(), Err(1), 2, Some(9), &[true, true]).ok().expect("routed");
    assert_eq!((t.last_index, t.config_ver, t.retry, t.max_retries), (2, 0, 0, 0));
    assert!(s.resubmit(req(), Err(1), 2, None, &[false, false]).is_err());
    let t = s.resubmit(req(), Ok("c".to_string()), 1, None, &[true, true]).ok().expect("added");
    assert_eq!((t.last_index, t.config_ver, t.retry, t.max_retries), (2, 2, 1, 0));
    assert_eq!(s.cluster.addrs.len(), 3);
}

#[test]
fn call_gives_up_after_the_retry_limit() {
    let max = 3;
    let mut count = 0;
    let mut retries = 0;
    loop {
        let attempt: Result<u32, RpcError<ClusterErr>> = Err(RpcError::User(ClusterErr::RetryNext));
        match failover_call_step(attempt, count, max) {
            CallStep::RetryNext { retry_count } => {
                count = retry_count;
                retries += 1;
            }
            CallStep::Redirect { .. } => panic!("no redirect expected"),
            CallStep::Done(r) => {
                assert_eq!(r.unwrap_err(), RpcError::User(ClusterErr::RetryNext));
                break;
            }
        }
    }
    assert_eq!(retries, 2);
}

#[test]
fn call_follows_a_redirect() {
    let attempt: Result<u32, RpcError<ClusterErr>> =
        Err(RpcError::User(ClusterErr::Redirect("10.0.0.2:80".to_string())));
    match failover_call_step(attempt, 0, 3) {
        CallStep::Redirect { addr, retry_count } => {
            assert_eq!(addr, "10.0.0.2:80");
            assert_eq!(retry_count, 1);
        }
        _ => panic!("expected a redirect"),
    }
    let attempt: Result<u32, RpcError<ClusterErr>> = Err(RpcError::User(ClusterErr::Internal));
    match failover_call_step(attempt, 0, 3) {
        CallStep::Done(Err(RpcError::User(ClusterErr::Internal))) => {}
        _ => panic!("expected the error"),
    }
    let attempt: Result<u32, RpcError<ClusterErr>> = Err(RpcError::Rpc(RpcIntErr::Timeout));
    match failover_call_step(attempt, 0, 3) {
        CallStep::Done(Err(RpcError::Rpc(RpcIntErr::Timeout))) => {}
        _ => panic!("expected the internal error"),
    }
    match failover_call_step::<u32, ClusterErr>(Ok(7), 0, 3) {
        CallStep::Done(Ok(7)) => {}
        _ => panic!("expected success"),
    }
    let attempt: Result<u32, RpcError<String>> = Err(RpcError::User("no".to_string()));
    match failover_call_step(attempt, 0, 3) {
        CallStep::Done(Err(RpcError::User(s))) => assert_eq!(s, "no"),
        _ => panic!("expected the error"),
    }
}

#[test]
fn round_robin_counter_stays_without_nodes() {
    let mut s = FailoverState::new(vec![], true, 2, 0);
    assert_eq!(s.route_new(&[]), None);
    assert_eq!(s.next_node, 0);
    assert!(s.send_req(req(), &[]).is_err());
    assert_eq!(s.next_node, 0);
}

#[test]
fn resubmit_goes_to_the_first_matching_node() {
    let mut s = FailoverState::new(addrs(&["a", "b", "b"]), false, 2, 0);
    let t = s.resubmit(req(), Ok("b".to_string()), 1, None, &[false, false, false]).ok().expect("routed");
    assert_eq!((t.last_index, t.config_ver), (1, 0));
    assert_eq!(s.next_node, 1);
    assert_eq!(s.cluster.addrs, addrs(&["a", "b", "b"]));
    assert_eq!((s.cluster.ver, s.ver), (0, 1));
    let t = s.resubmit(req(), Ok("c".to_string()), 1, None, &[false, false, false]).ok().expect("added");
    assert_eq!((t.last_index, t.config_ver), (3, 2));
    assert_eq!(s.cluster.addrs, addrs(&["a", "b", "b", "c"]));
    assert_eq!((s.cluster.ver, s.ver, s.next_node), (2, 2, 3));
    match s.resubmit(req(), Err(0), 1, None, &[false, false, false, false]) {
        Err(mut r) => match r.process_res::<()>() {
            Err(RpcError::Rpc(RpcIntErr::Unreachable)) => {}
            _ => panic!("expected Unreachable"),
        },
        Ok(_) => panic!("expected no node"),
    }
}

#[test]
fn update_addrs_raises_the_version() {
    let mut s = FailoverState::new(addrs(&["a"]), true, 2, 0);
    let before = s.cluster.ver;
    s.update_addrs(addrs(&["b"]));
    assert!(s.cluster.ver > before);
    assert!(s.cluster.ver <= s.ver);
    let before = s.cluster.ver;
    s.update_addrs(addrs(&["c"]));
    assert!(s.cluster.ver > before);
}

#[test]
fn full_retry_counter_takes_a_final_error() {
    let mut t = FailoverTask::new(req(), 0, 0, usize::MAX, 0);
    t.set_rpc_error(RpcIntErr::Decode);
    assert!(!t.should_retry);
    assert_eq!(t.retry, usize::MAX);
    assert!(matches!(t.inner.res, Some(Err(EncodedErr::Rpc(RpcIntErr::Decode)))));
}
