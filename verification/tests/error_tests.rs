use nix::errno::Errno;
use razor_rpc::codec::RpcErrCodec;
use razor_rpc::error::{EncodedErr, RpcIntErr, RPC_ERR_PREFIX};
use razor_rpc::rpc_error::RpcError;

#[test]
fn test_internal_error() {
    println!("{}", RpcIntErr::Internal.as_str());
    println!("{:?}", RpcIntErr::Internal);
    let s = RpcIntErr::Timeout.as_str();
    println!("RpcIntErr::Timeout as {}", s);
    let e = RpcIntErr::from_str(s).expect("parse");
    assert_eq!(e, RpcIntErr::Timeout);
    assert!(RpcIntErr::from_str("timeoutss").is_err());
    assert!(RpcIntErr::Timeout < RpcIntErr::Method);
    assert!(RpcIntErr::IO < RpcIntErr::Method);
    assert!(RpcIntErr::Unreachable < RpcIntErr::Method);
}

#[test]
fn test_rpc_error_default() {
    let e = RpcError::<i32>::from(1i32);
    println!("err {:?} {}", e, e.to_string());

    let e = RpcError::<Errno>::from(Errno::EIO);
    println!("err {:?} {}", e, e.to_string());

    let e = RpcError::<String>::from("err_str");
    println!("err {:?} {}", e, e.to_string());
    let e2 = RpcError::<String>::from("err_str".to_string());
    assert_eq!(e, e2);

    let e = RpcError::<String>::from(RpcIntErr::IO);
    println!("err {:?} {}", e, e.to_string());

    let _e: Result<(), RpcIntErr> = Err(RpcIntErr::IO);
    let e: Result<(), RpcError<String>> = _e.map_err(|e| e.into());
    println!("err {:?}", e);
}

#[test]
fn internal_error_names_round_trip() {
    let all = [
        RpcIntErr::Unreachable,
        RpcIntErr::IO,
        RpcIntErr::Timeout,
        RpcIntErr::Method,
        RpcIntErr::Service,
        RpcIntErr::Encode,
        RpcIntErr::Decode,
        RpcIntErr::Internal,
        RpcIntErr::Version,
    ];
    for (i, e) in all.iter().enumerate() {
        assert!(e.as_str().starts_with(RPC_ERR_PREFIX));
        assert_eq!(RpcIntErr::from_str(e.as_str()), Ok(*e));
        assert_eq!(e.as_bytes(), e.as_str().as_bytes());
        assert_eq!(e.code() as usize, i);
        assert_eq!(e.is_retriable(), i < 3);
    }
    assert_eq!(RpcIntErr::Version.as_str(), "rpc_invalid_ver");
    assert_eq!(RpcIntErr::IO.to_string(), "rpc_io_err");
    assert_eq!(RpcIntErr::from_str("rpc_decode"), Ok(RpcIntErr::Decode));
    assert_eq!(RpcIntErr::from_str("rpc_"), Err(()));
}

#[test]
fn io_error_is_io() {
    let e: RpcIntErr = std::io::Error::new(std::io::ErrorKind::Other, "x").into();
    assert_eq!(e, RpcIntErr::IO);
}

#[test]
fn encoded_err_text() {
    assert_eq!(EncodedErr::Static("abc").try_as_str(), Ok("abc"));
    assert_eq!(EncodedErr::Buf(b"hello".to_vec()).try_as_str(), Ok("hello"));
    assert_eq!(EncodedErr::Buf(vec![0xff, 0xfe]).try_as_str(), Err(()));
    assert_eq!(EncodedErr::Num(3).try_as_str(), Err(()));
    assert_eq!(EncodedErr::Rpc(RpcIntErr::IO).try_as_str(), Err(()));
    assert_eq!(EncodedErr::Num(7).to_string(), "errno 7");
    assert_eq!(EncodedErr::Num(1234567).to_string(), "errno 1234567");
    assert_eq!(EncodedErr::Num(10).to_string(), "errno 10");
    assert_eq!(EncodedErr::Rpc(RpcIntErr::Timeout).to_string(), "rpc_timeout");
    assert_eq!(EncodedErr::Static("boom").to_string(), "boom");
    assert_eq!(EncodedErr::Buf(b"text".to_vec()).to_string(), "text");
    assert_eq!(EncodedErr::Buf(vec![0xff, 0xfe, 0x01]).to_string(), "err blob 3 length");
    let from: EncodedErr = RpcIntErr::Method.into();
    assert_eq!(from, EncodedErr::Rpc(RpcIntErr::Method));
}

#[test]
fn encoded_err_equality() {
    assert_eq!(EncodedErr::Static("x"), EncodedErr::Buf(b"x".to_vec()));
    assert_eq!(EncodedErr::Buf(b"x".to_vec()), EncodedErr::Static("x"));
    assert_eq!(EncodedErr::Buf(vec![1, 2]), EncodedErr::Buf(vec![1, 2]));
    assert_ne!(EncodedErr::Buf(vec![1, 2]), EncodedErr::Buf(vec![1, 3]));
    assert_eq!(EncodedErr::Static("a"), EncodedErr::Static("a"));
    assert_ne!(EncodedErr::Static("a"), EncodedErr::Static("b"));
    assert_eq!(EncodedErr::Num(5), EncodedErr::Num(5));
    assert_ne!(EncodedErr::Num(5), EncodedErr::Num(6));
    assert_ne!(EncodedErr::Num(5), EncodedErr::Static("5"));
    assert_eq!(EncodedErr::Rpc(RpcIntErr::IO), EncodedErr::Rpc(RpcIntErr::IO));
    assert_ne!(EncodedErr::Rpc(RpcIntErr::IO), EncodedErr::Rpc(RpcIntErr::Timeout));
    assert_ne!(EncodedErr::Rpc(RpcIntErr::IO), EncodedErr::Static("rpc_io_err"));
    assert_ne!(EncodedErr::Buf(vec![0xff]), EncodedErr::Static("a"));
}

#[test]
fn builtin_codecs_round_trip() {
    fn wire(e: EncodedErr) -> Result<u32, Vec<u8>> {
        match e {
            EncodedErr::Num(n) => Ok(n),
            EncodedErr::Static(s) => Err(s.as_bytes().to_vec()),
            EncodedErr::Buf(b) => Err(b),
            EncodedErr::Rpc(e) => Err(e.as_bytes().to_vec()),
        }
    }
    fn back<E: RpcErrCodec>(e: &E) -> Result<E, ()> {
        match wire(e.encode()) {
            Ok(n) => E::decode(Ok(n)),
            Err(b) => E::decode(Err(&b)),
        }
    }
    assert_eq!(back(&5i8), Ok(5i8));
    assert_eq!(back(&200u8), Ok(200u8));
    assert_eq!(back(&300i16), Ok(300i16));
    assert_eq!(back(&60000u16), Ok(60000u16));
    assert_eq!(back(&7i32), Ok(7i32));
    assert_eq!(back(&u32::MAX), Ok(u32::MAX));
    assert_eq!(back(&()), Ok(()));
    assert_eq!(back(&"héllo".to_string()), Ok("héllo".to_string()));
    assert_eq!(back(&Errno::EIO), Ok(Errno::EIO));
    assert_eq!(back(&Errno::EPERM), Ok(Errno::EPERM));
    // negative codes widen to large numbers, which the narrow type refuses
    assert_eq!((-1i8).encode(), EncodedErr::Num(u32::MAX));
    assert_eq!(back(&-1i8), Err(()));
    assert_eq!(i8::decode(Ok(128)), Err(()));
    assert_eq!(u8::decode(Ok(256)), Err(()));
    assert_eq!(i16::decode(Ok(32768)), Err(()));
    assert_eq!(u16::decode(Ok(65536)), Err(()));
    assert_eq!(i32::decode(Ok(0x8000_0000)), Err(()));
    assert_eq!(<()>::decode(Ok(1)), Err(()));
    assert_eq!(i32::decode(Err(b"1")), Err(()));
    assert_eq!(String::decode(Ok(1)), Err(()));
    assert_eq!(String::decode(Err(&[0xff])), Err(()));
    assert_eq!(Errno::decode(Ok(0x8000_0000)), Err(()));
    assert_eq!(Errno::decode(Ok(5)), Ok(Errno::EIO));
    assert_eq!(Errno::EIO.encode(), EncodedErr::Num(5));
    assert_eq!(().encode(), EncodedErr::Num(0));
    assert_eq!("ab".to_string().encode(), EncodedErr::Buf(b"ab".to_vec()));
    assert_eq!(3u16.fmt(), "errno 3");
    assert_eq!((-5i8).fmt(), "errno -5");
    assert_eq!(i32::MIN.fmt(), "errno -2147483648");
    assert_eq!(u32::MAX.fmt(), "errno 4294967295");
    assert_eq!(0u8.fmt(), "errno 0");
    assert_eq!(1200i16.fmt(), "errno 1200");
    assert_eq!(().fmt(), "err");
    assert_eq!("msg".to_string().fmt(), "msg");
    assert_eq!(Errno::EIO.fmt(), "EIO");
    assert!(7i32.should_failover().is_err());
    assert!(Errno::EIO.should_failover().is_err());
    assert!("x".to_string().should_failover().is_err());
}

#[test]
fn rpc_error_equality_and_text() {
    let a = RpcError::<String>::from("e");
    assert_eq!(a, RpcError::User("e".to_string()));
    assert_ne!(a, RpcError::User("f".to_string()));
    assert_ne!(a, RpcError::Rpc(RpcIntErr::IO));
    let r = RpcError::<String>::from(RpcIntErr::Timeout);
    assert!(r == RpcIntErr::Timeout);
    assert!(!(r == RpcIntErr::IO));
    assert!(!(a == RpcIntErr::Timeout));
    assert_eq!(r.to_string(), "rpc_timeout");
    assert_eq!(a.to_string(), "e");
    assert_eq!(RpcError::<u8>::from(4u8).to_string(), "errno 4");
    assert!(a == "e".to_string());
    assert!(!(a == "f".to_string()));
    assert!(!(r == "e".to_string()));
    assert_eq!(RpcError::<Errno>::from(Errno::EIO).to_string(), "EIO");
    match RpcError::from_text("t") {
        RpcError::User(s) => assert_eq!(s, "t"),
        RpcError::Rpc(_) => panic!("expected a user error"),
    }
}

#[test]
fn text_converts_to_a_user_error() {
    match RpcError::<String>::from("boom") {
        RpcError::User(s) => assert_eq!(s, "boom"),
        _ => panic!("expected a user error"),
    }
}

#[test]
fn user_errors_compare_by_text() {
    assert!(RpcError::<String>::from("a") == RpcError::<String>::from("a".to_string()));
    assert!(RpcError::<String>::from("a") != RpcError::<String>::from("b"));
    assert!(RpcError::<String>::from("a") != RpcError::<String>::from(RpcIntErr::IO));
}
