use http_types::{Method, Request, Response, StatusCode, Url};

use handflip::http::host_port_from_req;
use handflip::http::prepare_close_response;
use handflip::http::prepare_forward;
use handflip::http::tunnel_established_bytes;
use handflip::http::tunnel_established_line;
use handflip::http::HttpProxy;
use handflip::http::Transport;

fn forward_request(url: &str) -> Request {
    Request::new(Method::Get, Url::parse(url).unwrap())
}

#[test]
fn tunnel_ack_bytes_are_exact() {
    assert_eq!(
        tunnel_established_line().as_bytes(),
        b"HTTP/1.1 200 Connection established\r\n\r\n"
    );
    assert_eq!(
        tunnel_established_bytes(),
        b"HTTP/1.1 200 Connection established\r\n\r\n".to_vec()
    );
}

#[test]
fn keep_alive_header_is_stripped_and_kept_alive() {
    let mut req = forward_request("http://example.com/");
    req.insert_header("Proxy-Connection", "Keep-Alive");
    let keep_alive = prepare_forward(&mut req);
    assert!(keep_alive);
    assert!(req.header("Proxy-Connection").is_none());
    assert!(*req.header("Connection").unwrap() == "Keep-Alive");
}

#[test]
fn absent_keep_alive_header_closes() {
    let mut req = forward_request("http://example.com/");
    let keep_alive = prepare_forward(&mut req);
    assert!(!keep_alive);
    assert!(req.header("Proxy-Connection").is_none());
    assert!(*req.header("Connection").unwrap() == "close");
}

#[test]
fn keep_alive_value_compare_is_case_sensitive() {
    let mut req = forward_request("http://example.com/");
    req.insert_header("Proxy-Connection", "keep-alive");
    let keep_alive = prepare_forward(&mut req);
    assert!(!keep_alive);
    assert!(req.header("Proxy-Connection").is_none());
    assert!(*req.header("Connection").unwrap() == "close");
}

#[test]
fn doubled_keep_alive_values_close() {
    let mut req = forward_request("http://example.com/");
    req.append_header("Proxy-Connection", "Keep-Alive");
    req.append_header("Proxy-Connection", "Keep-Alive");
    let keep_alive = prepare_forward(&mut req);
    assert!(!keep_alive);
    assert!(req.header("Proxy-Connection").is_none());
}

#[test]
fn connection_header_is_overwritten() {
    let mut req = forward_request("http://example.com/");
    req.insert_header("Connection", "Keep-Alive");
    let keep_alive = prepare_forward(&mut req);
    assert!(!keep_alive);
    assert!(*req.header("Connection").unwrap() == "close");
}

#[test]
fn other_headers_survive_the_rewrite() {
    let mut req = forward_request("http://example.com/");
    req.insert_header("Proxy-Connection", "Keep-Alive");
    req.insert_header("Accept", "text/html");
    prepare_forward(&mut req);
    assert!(*req.header("Accept").unwrap() == "text/html");
}

#[test]
fn target_from_request_url_with_port() {
    let req = forward_request("http://example.com:8080/path");
    let (host, port) = host_port_from_req(&req).unwrap();
    assert_eq!(host, "example.com");
    assert_eq!(port, 8080);
}

#[test]
fn target_from_request_url_scheme_defaults() {
    let req = forward_request("http://example.com/");
    let (host, port) = host_port_from_req(&req).unwrap();
    assert_eq!(host, "example.com");
    assert_eq!(port, 80);
    let req = forward_request("https://example.com/");
    let (host, port) = host_port_from_req(&req).unwrap();
    assert_eq!(host, "example.com");
    assert_eq!(port, 443);
}

#[test]
fn response_is_marked_close() {
    let mut resp = Response::new(StatusCode::Ok);
    prepare_close_response(&mut resp);
    assert!(*resp.header("Connection").unwrap() == "close");
}

#[test]
fn response_close_overwrites_keep_alive() {
    let mut resp = Response::new(StatusCode::Ok);
    resp.insert_header("Connection", "Keep-Alive");
    prepare_close_response(&mut resp);
    assert!(*resp.header("Connection").unwrap() == "close");
}

#[test]
fn transports_keep_their_choice() {
    let p = HttpProxy::direct();
    assert!(matches!(p.transport, Transport::Direct));
    let p = HttpProxy::via_socks5("127.0.0.1:1080".to_string());
    match p.transport {
        Transport::Socks5(addr) => assert_eq!(addr, "127.0.0.1:1080"),
        Transport::Direct => panic!("expected the SOCKS5 transport"),
    }
}
