use handflip::error::Error;
use handflip::socks5::connect_request;
use handflip::socks5::negotiation_request;
use handflip::socks5::status_message_string;
use handflip::socks5::select_target;
use handflip::socks5::Addr;
use handflip::socks5::ReplyState;
use handflip::socks5::ResolvedAddr;

#[test]
fn negotiation_request_bytes() {
    assert_eq!(negotiation_request(), vec![5u8, 1, 0]);
}

#[test]
fn connect_request_bytes() {
    let r = connect_request([127, 0, 0, 1], 8080);
    assert_eq!(r, vec![5u8, 1, 0, 1, 127, 0, 0, 1, 0x1f, 0x90]);
}

#[test]
fn connect_request_port_extremes() {
    assert_eq!(connect_request([10, 0, 0, 2], 0), vec![5u8, 1, 0, 1, 10, 0, 0, 2, 0, 0]);
    assert_eq!(
        connect_request([10, 0, 0, 2], 65535),
        vec![5u8, 1, 0, 1, 10, 0, 0, 2, 0xff, 0xff]
    );
}

#[test]
fn status_refused_maps_to_message() {
    let st = ReplyState::Status;
    let r = st.step(&[5, 0x05]);
    match r {
        Err(Error::Server(m)) => assert_eq!(m, "connection refused"),
        _ => panic!("expected a server error"),
    }
}

#[test]
fn status_zero_is_success() {
    let st = ReplyState::Status;
    let r = st.step(&[5, 0x00]).unwrap();
    assert!(matches!(r, ReplyState::AddrTag));
}

#[test]
fn status_unknown_names_the_code() {
    let st = ReplyState::Status;
    let r = st.step(&[5, 0x09]);
    match r {
        Err(Error::Server(m)) => assert_eq!(m, "unknown socks server error type 9"),
        _ => panic!("expected a server error"),
    }
    let st = ReplyState::Status;
    let r = st.step(&[5, 0xff]);
    match r {
        Err(Error::Server(m)) => assert_eq!(m, "unknown socks server error type 255"),
        _ => panic!("expected a server error"),
    }
}

#[test]
fn status_message_table() {
    assert_eq!(status_message_string(1), "general socks server failure");
    assert_eq!(status_message_string(2), "connection not allowed by ruleset");
    assert_eq!(status_message_string(3), "network unreachable");
    assert_eq!(status_message_string(4), "host unreachable");
    assert_eq!(status_message_string(5), "connection refused");
    assert_eq!(status_message_string(6), "ttl expired");
    assert_eq!(status_message_string(7), "command not supported");
    assert_eq!(status_message_string(8), "address type not supported");
}

#[test]
fn reply_ipv4_walk() {
    let st = ReplyState::Status;
    let st = st.step(&[5, 0]).unwrap();
    assert_eq!(st.needed(), 2);
    let st = st.step(&[0, 1]).unwrap();
    assert!(matches!(st, ReplyState::AddrV4));
    assert_eq!(st.needed(), 4);
    let st = st.step(&[127, 0, 0, 1]).unwrap();
    assert_eq!(st.needed(), 2);
    let st = st.step(&[0, 80]).unwrap();
    assert!(st.is_done());
    match st {
        ReplyState::Done(Addr::IPv4(o), p) => {
            assert_eq!(o, [127, 0, 0, 1]);
            assert_eq!(p, 80);
        }
        _ => panic!("expected a parsed IPv4 reply"),
    }
}

#[test]
fn reply_domain_drains_exactly_its_length() {
    let st = ReplyState::Status;
    let st = st.step(&[5, 0]).unwrap();
    let st = st.step(&[0, 3]).unwrap();
    assert!(matches!(st, ReplyState::DomainLen));
    assert_eq!(st.needed(), 1);
    let st = st.step(&[7]).unwrap();
    assert_eq!(st.needed(), 7);
    let st = st.step(b"example").unwrap();
    assert_eq!(st.needed(), 2);
    let st = st.step(&[0x1f, 0x90]).unwrap();
    match st {
        ReplyState::Done(Addr::DomainName(d), p) => {
            assert_eq!(d, "example");
            assert_eq!(p, 8080);
        }
        _ => panic!("expected a parsed domain reply"),
    }
}

#[test]
fn reply_domain_drains_regardless_of_content() {
    let st = ReplyState::Status;
    let st = st.step(&[5, 0]).unwrap();
    let st = st.step(&[0, 3]).unwrap();
    let st = st.step(&[4]).unwrap();
    assert_eq!(st.needed(), 4);
    // Bytes that are not valid UTF-8 still only drain and never fail.
    let st = st.step(&[0xff, 0xfe, 0x80, 0x00]).unwrap();
    assert_eq!(st.needed(), 2);
    let st = st.step(&[0, 9]).unwrap();
    assert!(st.is_done());
}

#[test]
fn reply_domain_empty_length() {
    let st = ReplyState::DomainLen;
    let st = st.step(&[0]).unwrap();
    assert_eq!(st.needed(), 0);
    let st = st.step(&[]).unwrap();
    assert_eq!(st.needed(), 2);
    match st {
        ReplyState::Port(Addr::DomainName(d)) => assert_eq!(d, ""),
        _ => panic!("expected an empty domain"),
    }
}

#[test]
fn reply_ipv6_walk() {
    let st = ReplyState::Status;
    let st = st.step(&[5, 0]).unwrap();
    let st = st.step(&[0, 4]).unwrap();
    assert!(matches!(st, ReplyState::AddrV6));
    assert_eq!(st.needed(), 16);
    let st = st.step(&[0, 0, 0, 0, 0, 0, 0, 0, 0, 0, 0, 0, 0, 0, 0, 1]).unwrap();
    let st = st.step(&[1, 0]).unwrap();
    match st {
        ReplyState::Done(Addr::IPv6(o), p) => {
            assert_eq!(o[15], 1);
            assert_eq!(p, 256);
        }
        _ => panic!("expected a parsed IPv6 reply"),
    }
}

#[test]
fn reply_unsupported_address_type() {
    let st = ReplyState::Status;
    let st = st.step(&[5, 0]).unwrap();
    let r = st.step(&[0, 2]);
    match r {
        Err(Error::Server(m)) => assert_eq!(m, "unsupported address type"),
        _ => panic!("expected a server error"),
    }
}

#[test]
fn select_target_picks_first_ipv4() {
    let addrs = vec![
        ResolvedAddr::Other,
        ResolvedAddr::V4([10, 0, 0, 1], 80),
        ResolvedAddr::V4([10, 0, 0, 2], 81),
    ];
    assert_eq!(select_target(&addrs).unwrap(), ([10, 0, 0, 1], 80));
}

#[test]
fn select_target_without_ipv4_is_bad_request() {
    let addrs = vec![ResolvedAddr::Other, ResolvedAddr::Other];
    match select_target(&addrs) {
        Err(Error::BadRequest(m)) => assert_eq!(m, "unknown host"),
        _ => panic!("expected a bad-request error"),
    }
    match select_target(&Vec::new()) {
        Err(Error::BadRequest(_)) => {}
        _ => panic!("expected a bad-request error"),
    }
}
