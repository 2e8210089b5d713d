use nix::errno::Errno;
use razor_rpc::api_task::{finish_response, APIClientReq, ApiCall, RoutingInfo};
use razor_rpc::error::{EncodedErr, RpcIntErr};
use razor_rpc::failover_task::ClientTaskDone;
use razor_rpc::rpc_error::RpcError;

#[test]
fn request_encodes_its_message() {
    let mut r = APIClientReq::new("MyTestService.add", vec![1, 2, 3]);
    assert_eq!(r.get_action(), "MyTestService.add");
    let mut buf = vec![9];
    assert_eq!(r.encode_req(&mut buf), Ok(3));
    assert_eq!(buf, vec![9, 1, 2, 3]);
    r.req_msg = None;
    assert_eq!(r.encode_req(&mut buf), Ok(0));
    assert_eq!(buf, vec![9, 1, 2, 3]);
    let _routing = RoutingInfo {};
    let mut r = r;
    r.common.seq = 42;
    assert_eq!(r.to_string(), "APIClientReq(seq=42, action=MyTestService.add)");
}

#[test]
fn success_gives_the_response_body() {
    let mut r = APIClientReq::new("MyTestService.add", vec![]);
    assert_eq!(r.decode_resp(&[]), Ok(()));
    assert_eq!(r.resp, None);
    assert_eq!(r.decode_resp(&[5, 6]), Ok(()));
    r.set_ok();
    match r.process_res::<()>() {
        Ok(Some(b)) => assert_eq!(b, vec![5, 6]),
        _ => panic!("expected the body"),
    }
    assert!(r.res.is_none());
    let mut r = APIClientReq::new("MyTestService.no_args", vec![]);
    r.set_ok();
    assert!(matches!(r.process_res::<()>(), Ok(None)));
}

#[test]
fn internal_error_is_the_calls_error() {
    let mut r = APIClientReq::new("MyTestService.error_method", vec![]);
    r.set_rpc_error(RpcIntErr::Method);
    match r.process_res::<()>() {
        Err(RpcError::Rpc(RpcIntErr::Method)) => {}
        _ => panic!("Expected RpcIntErr::Method error"),
    }
}

#[test]
fn user_errors_are_decoded_as_the_calls_type() {
    let mut r = APIClientReq::new("S.m", vec![]);
    r.set_custom_error(EncodedErr::Num(5), 2, 9);
    assert_eq!(r.last_index, 2);
    assert_eq!(r.config_ver, 9);
    match r.process_res::<Errno>() {
        Err(RpcError::User(e)) => assert_eq!(e, Errno::EIO),
        _ => panic!("expected EIO"),
    }
    let mut r = APIClientReq::new("S.m", vec![]);
    r.set_custom_error(EncodedErr::Buf(b"divide by zero".to_vec()), 0, 0);
    match r.process_res::<String>() {
        Err(RpcError::User(s)) => assert_eq!(s, "divide by zero"),
        _ => panic!("expected the message"),
    }
    let mut r = APIClientReq::new("S.m", vec![]);
    r.set_custom_error(EncodedErr::Num(1), 0, 0);
    match r.process_res::<()>() {
        Err(RpcError::Rpc(RpcIntErr::Decode)) => {}
        _ => panic!("expected Decode"),
    }
    let mut r = APIClientReq::new("S.m", vec![]);
    r.set_custom_error(EncodedErr::Buf(b"x".to_vec()), 0, 0);
    match r.process_res::<i32>() {
        Err(RpcError::Rpc(RpcIntErr::Decode)) => {}
        _ => panic!("expected Decode"),
    }
    let mut r = APIClientReq::new("S.m", vec![]);
    r.set_custom_error(EncodedErr::Rpc(RpcIntErr::Service), 0, 0);
    match r.process_res::<i32>() {
        Err(RpcError::Rpc(RpcIntErr::Service)) => {}
        _ => panic!("expected Service"),
    }
}

#[test]
fn api_call_records_on_its_request() {
    let mut c = ApiCall { req: APIClientReq::new("MyTestService.add", vec![1]), noti: Some(7u8) };
    c.set_rpc_error(RpcIntErr::Timeout);
    assert!(matches!(c.req.res, Some(Err(EncodedErr::Rpc(RpcIntErr::Timeout)))));
    c.set_custom_error(EncodedErr::Num(5), 3, 2);
    assert!(matches!(c.req.res, Some(Err(EncodedErr::Num(5)))));
    assert_eq!(c.req.last_index, 3);
    assert_eq!(c.req.config_ver, 2);
    c.set_ok();
    assert!(matches!(c.req.res, Some(Ok(()))));
    assert_eq!(c.noti, Some(7u8));
}

#[test]
fn decoded_response_finishes_the_call() {
    let mut r = APIClientReq::new("MyTestService.add", vec![]);
    assert_eq!(r.decode_resp(&[7]), Ok(()));
    r.set_ok();
    let body = match r.process_res::<()>() {
        Ok(b) => b,
        Err(_) => panic!("expected success"),
    };
    let decode = |b: &[u8]| if b.len() == 1 { Ok(b[0] as u32) } else { Err(()) };
    assert!(matches!(finish_response::<u32, ()>(body.map(|b| decode(&b)), 0), Ok(7)));
    assert!(matches!(finish_response::<u32, ()>(Some(decode(&[1, 2])), 0), Err(RpcError::Rpc(RpcIntErr::Decode))));
    assert!(matches!(finish_response::<u32, ()>(None, 0), Ok(0)));
}
