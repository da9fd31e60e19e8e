use mini_http::config::Config;
use mini_http::errors::HttpErrors;
use mini_http::headers::{
    code_to_const, code_to_msg, HeaderVec, HttpContent, HttpContentLengthHeader, HttpContentType,
    HttpContentTypeHeader, HttpHeader, HttpHeaderLine, HttpStatusCode, HttpStatusHeader,
    StringifyHttpHeader,
};
use mini_http::media::ext_to_type;
use mini_http::requests::{
    get, get_file, handle_request, not_impl, path_contains_dotdot, post, put, request_extension,
    to_local_path,
};
use mini_http::server::{serve_step, ConnectionEvent, ServeAction};
use mini_http::strutil::u64_to_string;

#[test]
fn status_registry_round_trip() {
    for code in [200u16, 400, 401, 404, 501] {
        let sc = code_to_const(code).unwrap();
        assert_eq!(sc.code, code);
    }
}

#[test]
fn status_registry_phrases() {
    assert_eq!(code_to_msg(200), Some("OK"));
    assert_eq!(code_to_msg(400), Some("Bad Request"));
    assert_eq!(code_to_msg(401), Some("Unauthorized"));
    assert_eq!(code_to_msg(404), Some("Not found"));
    assert_eq!(code_to_msg(501), Some("Not Implemented"));
}

#[test]
fn status_registry_unknown_codes() {
    assert!(code_to_msg(504).is_none());
    assert!(code_to_const(504).is_none());
    assert!(code_to_msg(999).is_none());
    assert!(code_to_const(0).is_none());
}

#[test]
fn status_code_constructors() {
    let sc = HttpStatusCode::new();
    assert_eq!(sc.code, 200);
    assert_eq!(sc.phrase, "OK");
    let sc = HttpStatusCode::new_from(404);
    assert_eq!(sc.code, 404);
    assert_eq!(sc.phrase, "Not found");
    let sc = HttpStatusCode::default();
    assert_eq!(sc.code, 200);
}

#[test]
fn content_type_registry() {
    let ce = ext_to_type("txt").unwrap();
    assert_eq!(ce.content_type.first, "text");
    assert_eq!(ce.content_type.second, "plain");
    let ce = ext_to_type("html").unwrap();
    assert_eq!(ce.content_type.first, "text");
    assert_eq!(ce.content_type.second, "html");
    let ce = ext_to_type("css").unwrap();
    assert_eq!(ce.content_type.first, "text");
    assert_eq!(ce.content_type.second, "css");
    let ce = ext_to_type("png").unwrap();
    assert_eq!(ce.content_type.first, "image");
    assert_eq!(ce.content_type.second, "png");
    let ce = ext_to_type("svg").unwrap();
    assert_eq!(ce.content_type.first, "image");
    assert_eq!(ce.content_type.second, "svg+xml");
}

#[test]
fn content_type_registry_is_exact_and_case_sensitive() {
    assert!(ext_to_type("exe").is_none());
    assert!(ext_to_type("TXT").is_none());
    assert!(ext_to_type("htm").is_none());
    assert!(ext_to_type("").is_none());
}

#[test]
fn decimal_rendering() {
    assert_eq!(u64_to_string(0), "0");
    assert_eq!(u64_to_string(7), "7");
    assert_eq!(u64_to_string(200), "200");
    assert_eq!(u64_to_string(1024), "1024");
    assert_eq!(u64_to_string(18446744073709551615), "18446744073709551615");
}

#[test]
fn header_lines_serialize() {
    let status = HttpStatusHeader::new_from(200);
    assert_eq!(status.to_string(), "HTTP/1.1 200 OK");
    let ct = HttpContentTypeHeader::new_from(HttpContentType { first: "text", second: "html" });
    assert_eq!(ct.to_string(), "Content-Type: text/html");
    let cl = HttpContentLengthHeader::new_from(10);
    assert_eq!(cl.to_string(), "Content-Length: 10");
    let defaults = HttpContentTypeHeader::new();
    assert_eq!(defaults.to_string(), "Content-Type: text/plain");
    assert_eq!(HttpStatusHeader::new().to_string(), "HTTP/1.1 200 OK");
    assert_eq!(HttpContentLengthHeader::new().to_string(), "Content-Length: 0");
}

#[test]
fn header_vec_builds_wire_text() {
    let headers = HeaderVec::new()
        .add_header(HttpHeaderLine::Status(HttpStatusHeader::new_from(200)))
        .add_header(HttpHeaderLine::ContentType(HttpContentTypeHeader::new_from(
            HttpContentType { first: "text", second: "html" },
        )))
        .add_header(HttpHeaderLine::ContentLength(HttpContentLengthHeader::new_from(10)))
        .build();
    assert_eq!(
        headers,
        "HTTP/1.1 200 OK\r\nContent-Type: text/html\r\nContent-Length: 10\r\n\r\n"
    );
}

#[test]
fn header_vec_empty_builds_terminator_only() {
    assert_eq!(HeaderVec::new().build(), "\r\n\r\n");
}

#[test]
fn http_content_from_bytes() {
    let c = HttpContent::from(vec![1u8, 2, 3]);
    assert_eq!(c.content, vec![1u8, 2, 3]);
}

#[test]
fn extension_extraction() {
    assert_eq!(request_extension("/index.html"), "html");
    assert_eq!(request_extension("/a.b.c"), "c");
    assert_eq!(request_extension("/trailing."), "");
}

#[test]
fn extension_defaults_to_txt_without_dot() {
    assert_eq!(request_extension("/nodotpath"), "txt");
    assert_eq!(request_extension(""), "txt");
}

#[test]
fn local_path_prefixes_root() {
    assert_eq!(to_local_path("/index.html"), "./index.html");
    assert_eq!(to_local_path("/"), "./");
}

#[test]
fn traversal_guard_detection() {
    assert!(path_contains_dotdot("./../secret.txt"));
    assert!(path_contains_dotdot(".."));
    assert!(path_contains_dotdot("a..b"));
    assert!(!path_contains_dotdot("./a.b"));
    assert!(!path_contains_dotdot("."));
    assert!(!path_contains_dotdot(""));
}

#[test]
fn get_file_rejects_traversal_before_disk() {
    let r = get_file("./../somewhere.txt");
    assert!(matches!(r, Err(HttpErrors::UnauthorizedPath(_))));
}

#[test]
fn get_file_reports_missing_resource() {
    let r = get_file("./no_such_file_for_this_test.txt");
    assert!(matches!(r, Err(HttpErrors::ResourceNotFound(_))));
}

#[test]
fn not_implemented_responses() {
    let expected_headers =
        "HTTP/1.1 501 Not Implemented\r\nContent-Type: text/plain\r\nContent-Length: 19\r\n\r\n";
    let resp = not_impl().unwrap();
    assert_eq!(resp.headers, expected_headers);
    assert_eq!(resp.content.content, b"501 Not Implemented".to_vec());
    let resp = post("./a".to_string(), "txt".to_string()).unwrap();
    assert_eq!(resp.headers, expected_headers);
    let resp = put("./b.png".to_string(), "png".to_string()).unwrap();
    assert_eq!(resp.headers, expected_headers);
}

#[test]
fn write_methods_always_return_501() {
    for request in [
        "POST /index.html HTTP/1.1",
        "PUT /anything HTTP/1.1",
        "PATCH /../secret.txt HTTP/1.1",
        "DELETE /file.exe HTTP/1.1",
    ] {
        let resp = handle_request(request).unwrap();
        assert_eq!(
            resp.headers,
            "HTTP/1.1 501 Not Implemented\r\nContent-Type: text/plain\r\nContent-Length: 19\r\n\r\n"
        );
        assert_eq!(resp.content.content, b"501 Not Implemented".to_vec());
    }
}

#[test]
fn invalid_requests_are_rejected() {
    assert!(matches!(handle_request(""), Err(HttpErrors::InvalidRequest(_))));
    assert!(matches!(handle_request("GET"), Err(HttpErrors::InvalidRequest(_))));
    assert!(matches!(handle_request("   \r\n"), Err(HttpErrors::InvalidRequest(_))));
}

#[test]
fn unknown_methods_are_rejected() {
    match handle_request("BREW /coffee.txt HTTP/1.1") {
        Err(HttpErrors::UnsupportedRequestType(m)) => assert_eq!(m, "BREW"),
        other => panic!("unexpected result: {:?}", other.map(|r| r.headers)),
    }
    assert!(matches!(
        handle_request("get /lower.txt HTTP/1.1"),
        Err(HttpErrors::UnsupportedRequestType(_))
    ));
}

#[test]
fn traversal_request_draws_504() {
    let resp = handle_request("GET /../secret.txt").unwrap();
    assert_eq!(
        resp.headers,
        "HTTP/1.1 504 Unauthorized\r\nContent-Type: text/plain\r\nContent-Length: 16\r\n\r\n"
    );
    assert_eq!(resp.content.content, b"504 Unauthorized".to_vec());
}

#[test]
fn unsupported_extension_draws_400_when_missing() {
    let resp = handle_request("GET /tool.exe HTTP/1.1").unwrap();
    assert_eq!(
        resp.headers,
        "HTTP/1.1 400 Bad Request\r\nContent-Type: text/plain\r\nContent-Length: 15\r\n\r\n"
    );
    assert_eq!(resp.content.content, b"400 Bad Request".to_vec());
}

#[test]
fn unsupported_extension_draws_400_even_when_file_exists() {
    fs_err::write("/tmp/mini_http_present_tool.exe", b"binary contents").unwrap();
    let resp = get("/tmp/mini_http_present_tool.exe".to_string(), "exe".to_string()).unwrap();
    fs_err::remove_file("/tmp/mini_http_present_tool.exe").unwrap();
    assert_eq!(
        resp.headers,
        "HTTP/1.1 400 Bad Request\r\nContent-Type: text/plain\r\nContent-Length: 15\r\n\r\n"
    );
    assert_eq!(resp.content.content, b"400 Bad Request".to_vec());
}

#[test]
fn missing_resource_draws_404() {
    let resp = handle_request("GET /absent_page.html HTTP/1.1").unwrap();
    assert_eq!(
        resp.headers,
        "HTTP/1.1 404 Not found\r\nContent-Type: text/plain\r\nContent-Length: 13\r\n\r\n"
    );
    assert_eq!(resp.content.content, b"404 Not found".to_vec());
}

#[test]
fn missing_resource_without_dot_falls_back_to_txt() {
    let resp = handle_request("GET /absent_nodot HTTP/1.1").unwrap();
    assert_eq!(
        resp.headers,
        "HTTP/1.1 404 Not found\r\nContent-Type: text/plain\r\nContent-Length: 13\r\n\r\n"
    );
    assert_eq!(resp.content.content, b"404 Not found".to_vec());
}

#[test]
fn existing_file_is_served_bit_exactly() {
    fs_err::write("/tmp/mini_http_served_index.html", b"0123456789").unwrap();
    let resp = get("/tmp/mini_http_served_index.html".to_string(), "html".to_string()).unwrap();
    fs_err::remove_file("/tmp/mini_http_served_index.html").unwrap();
    assert_eq!(
        resp.headers,
        "HTTP/1.1 200 OK\r\nContent-Type: text/html\r\nContent-Length: 10\r\n\r\n"
    );
    assert_eq!(resp.content.content, b"0123456789".to_vec());
}

#[test]
fn existing_css_file_served_with_exact_length() {
    fs_err::write("/tmp/mini_http_served_style.css", b"body { color: red }").unwrap();
    let resp = get("/tmp/mini_http_served_style.css".to_string(), "css".to_string()).unwrap();
    fs_err::remove_file("/tmp/mini_http_served_style.css").unwrap();
    assert_eq!(
        resp.headers,
        "HTTP/1.1 200 OK\r\nContent-Type: text/css\r\nContent-Length: 19\r\n\r\n"
    );
    assert_eq!(resp.content.content, b"body { color: red }".to_vec());
}

#[test]
fn zero_byte_read_terminates_server_loop() {
    let a = serve_step(ConnectionEvent::Received { bytes_read: 0, decode_ok: true });
    assert_eq!(a, ServeAction::TerminateServer);
}

#[test]
fn per_connection_failures_keep_listening() {
    assert_eq!(serve_step(ConnectionEvent::AcceptFailed), ServeAction::ContinueListening);
    assert_eq!(serve_step(ConnectionEvent::ReadFailed), ServeAction::ContinueListening);
    assert_eq!(
        serve_step(ConnectionEvent::Received { bytes_read: 12, decode_ok: false }),
        ServeAction::ContinueListening
    );
    assert_eq!(
        serve_step(ConnectionEvent::Received { bytes_read: 12, decode_ok: true }),
        ServeAction::DispatchRequest
    );
}

#[test]
fn default_config_is_servable() {
    let c = Config::default();
    assert_eq!(c.server.address, "127.0.0.1");
    assert_eq!(c.server.port, "8080");
    assert_eq!(c.server.root, ".");
    assert!(!c.server.threading.enable);
    assert!(!c.server.async_.enable);
    assert_eq!(c.logging.default_level, "info");
    assert!(!c.extra.panic_if_not_impl);
}
