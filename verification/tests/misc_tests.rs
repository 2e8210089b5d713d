use io_buffer::Buffer;
use razor_rpc::config::{ClientConfig, ServerConfig};
use razor_rpc::error::{EncodedErr, RpcIntErr};
use razor_rpc::facts::{APIFact, ClientDefault, ClientFacts};
use razor_rpc::server::{RpcSvrResp, ServerDefault, ServerFacts};
use razor_rpc::throttler::Throttler;
use std::time::Duration;

#[test]
fn default_configs() {
    let c = ClientConfig::default();
    assert_eq!(c.task_timeout, 20);
    assert_eq!(c.read_timeout, Duration::from_secs(5));
    assert_eq!(c.write_timeout, Duration::from_secs(5));
    assert_eq!(c.idle_timeout, Duration::from_secs(120));
    assert_eq!(c.connect_timeout, Duration::from_secs(10));
    assert_eq!(c.thresholds, 128);
    assert_eq!(c.stream_buf_size, 0);
    let s = ServerConfig::default();
    assert_eq!(s.read_timeout, Duration::from_secs(5));
    assert_eq!(s.write_timeout, Duration::from_secs(5));
    assert_eq!(s.idle_timeout, Duration::from_secs(120));
    assert_eq!(s.server_close_wait, Duration::from_secs(90));
    assert_eq!(s.stream_buf_size, 0);
}

#[test]
fn facts_hold_their_config() {
    let mut c = ClientConfig::default();
    c.task_timeout = 5;
    assert_eq!(ClientDefault::new(c.clone()).get_config().task_timeout, 5);
    let f = APIFact::new(c);
    assert_eq!(f.get_config().task_timeout, 5);
    let p = f.new_failover(vec!["a".to_string(), "b".to_string()], false, 3);
    assert_eq!(p.cluster.addrs.len(), 2);
    assert_eq!(p.get_retry_limit(), 3);
    assert!(!p.stateless);
    let mut s = ServerConfig::default();
    s.stream_buf_size = 64;
    assert_eq!(ServerDefault::new(s).get_config().stream_buf_size, 64);
    assert_eq!(f.get_client_id(), 0);
}

#[test]
fn throttler_counts_requests_in_flight() {
    let t = Throttler::new(2);
    assert!(t.throttle());
    assert_eq!(t.get_inflight_count(), 0);
    assert!(!t.is_full());
    assert!(!t.nearly_full());
    let g1 = t.add_task();
    assert_eq!(t.get_inflight_count(), 1);
    assert!(!t.is_full());
    let g2 = t.add_task();
    assert_eq!(t.get_inflight_count(), 2);
    assert!(t.is_full());
    assert!(t.nearly_full());
    drop(g1);
    drop(g2);
    assert_eq!(t.get_inflight_count(), 0);
    assert!(t.full_at(2));
    assert!(!t.full_at(1));
    let mut t = Throttler::new(0);
    assert!(!t.throttle());
    assert!(t.is_full());
    assert!(t.nearly_full());
    t.set_thresholds(1);
    assert!(t.throttle());
    assert!(!t.is_full());
}

#[test]
fn server_response_encoding() {
    let mut r = RpcSvrResp { seq: 7, msg: Some(vec![1, 2]), blob: None, res: Some(Ok(())) };
    let mut buf = vec![0];
    let (seq, res) = r.encode_resp(&mut buf);
    assert_eq!(seq, 7);
    assert_eq!(res, Ok((2, None)));
    assert_eq!(buf, vec![0, 1, 2]);
    assert!(r.res.is_none());

    let mut r = RpcSvrResp {
        seq: 8,
        msg: None,
        blob: Some(Buffer::from(vec![9u8, 9])),
        res: Some(Ok(())),
    };
    let mut buf = vec![];
    let (seq, res) = r.encode_resp(&mut buf);
    assert_eq!(seq, 8);
    assert_eq!(res, Ok((0, Some(&[9u8, 9][..]))));
    assert!(buf.is_empty());

    let mut r = RpcSvrResp { seq: 9, msg: Some(vec![1]), blob: None, res: Some(Err(EncodedErr::Num(3))) };
    let mut buf = vec![];
    let (seq, res) = r.encode_resp(&mut buf);
    assert_eq!(seq, 9);
    assert_eq!(res, Err(EncodedErr::Num(3)));
    assert!(buf.is_empty());
    let mut r = RpcSvrResp { seq: 1, msg: None, blob: None, res: Some(Err(RpcIntErr::Method.into())) };
    let (_, res) = r.encode_resp(&mut vec![]);
    assert_eq!(res, Err(EncodedErr::Rpc(RpcIntErr::Method)));
}

#[test]
fn throttler_window_follows_its_threshold() {
    let mut t = Throttler::new(1);
    assert!(!t.reached_at(0));
    assert!(t.reached_at(1));
    let g1 = t.add_task();
    assert!(t.wait_group().try_wait().is_ok());
    let g2 = t.add_task();
    assert!(t.wait_group().try_wait().is_err());
    t.set_thresholds(2);
    assert!(!t.reached_at(1));
    assert!(t.wait_group().try_wait().is_ok());
    let g3 = t.add_task();
    assert!(t.wait_group().try_wait().is_err());
    drop((g1, g2, g3));
    assert!(t.wait_group().try_wait().is_ok());
}
