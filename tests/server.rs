use wasm_serve::{
    after_read, begin, classify, is_contained, reply_to, request_line, resolve, Action,
    ContentType, Response, RouteKind, Status,
};

fn read_of(line: &str) -> (RouteKind, Vec<u8>) {
    match begin(line.as_bytes()) {
        Action::Read { route, path } => (route, path),
        Action::Send { response } => panic!("expected a read, got {:?}", response),
    }
}

fn sent(a: Action) -> Response {
    match a {
        Action::Send { response } => response,
        Action::Read { route, path } => panic!("expected a response, got a read of {:?} for {:?}", path, route),
    }
}

fn wire(r: &Response) -> String {
    String::from_utf8(r.to_bytes()).unwrap()
}

#[test]
fn wasm_in_pkg_is_served_as_wasm() {
    let (route, path) = read_of("GET /pkg/app_bg.wasm HTTP/1.1");
    assert_eq!(route, RouteKind::BinaryModule);
    assert_eq!(path, b"pkg/app_bg.wasm".to_vec());
    let body = vec![0u8, 97, 115, 109, 1, 0, 0, 0];
    let r = sent(after_read(route, Some(body.clone())));
    assert_eq!(r.status, Status::Success);
    assert_eq!(r.content_type, Some(ContentType::Wasm));
    let mut expected = b"HTTP/1.1 200 OK\r\nContent-Type: application/wasm\r\nContent-Length: 8\r\n\r\n".to_vec();
    expected.extend_from_slice(&body);
    assert_eq!(r.to_bytes(), expected);
}

#[test]
fn wasm_outside_pkg_is_served_as_wasm() {
    let (route, path) = read_of("GET /app.wasm HTTP/1.1");
    assert_eq!(route, RouteKind::BinaryModule);
    assert_eq!(path, b"app.wasm".to_vec());
    let r = sent(after_read(route, Some(vec![1, 2, 3])));
    assert_eq!(r.content_type, Some(ContentType::Wasm));
    assert_eq!(r.body, vec![1, 2, 3]);
}

#[test]
fn wasm_suffix_wins_over_pkg_prefix() {
    assert_eq!(classify(b"GET /pkg/app.wasm HTTP/1.1"), RouteKind::BinaryModule);
    assert_eq!(classify(b"POST /pkg/app.wasm HTTP/1.0"), RouteKind::BinaryModule);
}

#[test]
fn pkg_script_is_served_as_javascript() {
    let (route, path) = read_of("GET /pkg/app.js HTTP/1.1");
    assert_eq!(route, RouteKind::PkgAsset);
    assert_eq!(path, b"pkg/app.js".to_vec());
    let r = sent(after_read(route, Some(b"export {};".to_vec())));
    assert_eq!(
        wire(&r),
        "HTTP/1.1 200 OK\r\nContent-Type: application/javascript\r\nContent-Length: 10\r\n\r\nexport {};"
    );
}

#[test]
fn pkg_prefix_is_checked_on_the_target() {
    assert_eq!(classify(b"HEAD /pkg/snippets/x.js HTTP/1.1"), RouteKind::PkgAsset);
    assert_eq!(classify(b"GET /pkgx/app.js HTTP/1.1"), RouteKind::NotFound);
    assert_eq!(classify(b"GET /pkg HTTP/1.1"), RouteKind::NotFound);
}

#[test]
fn root_serves_host_page() {
    let (route, path) = read_of("GET / HTTP/1.1");
    assert_eq!(route, RouteKind::Index);
    assert_eq!(path, b"index.html".to_vec());
    let r = sent(after_read(route, Some(b"<html></html>".to_vec())));
    assert_eq!(r.status, Status::Success);
    assert_eq!(r.content_type, None);
    assert_eq!(wire(&r), "HTTP/1.1 200 OK\r\nContent-Length: 13\r\n\r\n<html></html>");
}

#[test]
fn root_with_other_method_or_version_is_not_found() {
    assert_eq!(classify(b"POST / HTTP/1.1"), RouteKind::NotFound);
    assert_eq!(classify(b"GET / HTTP/1.0"), RouteKind::NotFound);
    assert_eq!(classify(b"GET / HTTP/1.1 "), RouteKind::NotFound);
    assert_eq!(classify(b"GET /index.html HTTP/1.1"), RouteKind::NotFound);
}

#[test]
fn missing_page_gets_error_page() {
    let (route, path) = read_of("GET /missing.html HTTP/1.1");
    assert_eq!(route, RouteKind::NotFound);
    assert_eq!(path, b"404.html".to_vec());
    let page = b"<h1>Oops</h1>".to_vec();
    let r = sent(after_read(route, Some(page.clone())));
    assert_eq!(r.status, Status::NotFound);
    assert_eq!(r.content_type, None);
    assert_eq!(r.body, page);
    assert_eq!(wire(&r), "HTTP/1.1 404 NOT FOUND\r\nContent-Length: 13\r\n\r\n<h1>Oops</h1>");
}

#[test]
fn empty_line_gets_bad_request() {
    let r = sent(begin(b""));
    assert_eq!(r.status, Status::BadRequest);
    assert_eq!(wire(&r), "HTTP/1.1 400 BAD REQUEST\r\nContent-Length: 0\r\n\r\n");
}

#[test]
fn single_token_gets_bad_request() {
    let r = sent(begin(b"GET"));
    assert_eq!(r.status, Status::BadRequest);
    assert!(r.body.is_empty());
    assert_eq!(classify(b"/app.wasm"), RouteKind::Malformed);
}

#[test]
fn empty_target_is_not_found() {
    assert_eq!(classify(b"GET "), RouteKind::NotFound);
    assert_eq!(classify(b"GET  HTTP/1.1"), RouteKind::NotFound);
}

#[test]
fn unreadable_asset_falls_back_to_error_page() {
    for route in [RouteKind::BinaryModule, RouteKind::PkgAsset, RouteKind::Index] {
        match after_read(route, None) {
            Action::Read { route, path } => {
                assert_eq!(route, RouteKind::NotFound);
                assert_eq!(path, b"404.html".to_vec());
            }
            other => panic!("expected a read of the error page, got {:?}", other),
        }
    }
}

#[test]
fn unreadable_error_page_gets_empty_not_found() {
    let r = sent(after_read(RouteKind::NotFound, None));
    assert_eq!(wire(&r), "HTTP/1.1 404 NOT FOUND\r\nContent-Length: 0\r\n\r\n");
}

#[test]
fn parent_segments_are_refused() {
    assert_eq!(classify(b"GET /../secret.wasm HTTP/1.1"), RouteKind::NotFound);
    assert_eq!(classify(b"GET /pkg/../../etc/passwd HTTP/1.1"), RouteKind::NotFound);
    assert_eq!(classify(b"GET /pkg/.. HTTP/1.1"), RouteKind::NotFound);
    assert_eq!(classify(b"GET //etc/app.wasm HTTP/1.1"), RouteKind::NotFound);
    assert_eq!(classify(b"GET app.wasm HTTP/1.1"), RouteKind::NotFound);
    assert_eq!(classify(b"GET /pkg/a\\..\\b.js HTTP/1.1"), RouteKind::NotFound);
}

#[test]
fn contained_paths() {
    assert!(is_contained(b"pkg/app.js"));
    assert!(is_contained(b"pkg/..x/a..b/.../app.js"));
    assert!(is_contained(b"a/./b.wasm"));
    assert!(!is_contained(b""));
    assert!(!is_contained(b"/abs"));
    assert!(!is_contained(b".."));
    assert!(!is_contained(b"a/.."));
    assert!(!is_contained(b"a/../b"));
    assert!(!is_contained(b"a b"));
    assert!(!is_contained(b"a\tb"));
    assert!(!is_contained(&[b'a', 0xC3, 0xA9]));
}

#[test]
fn request_line_stops_at_line_end() {
    assert_eq!(request_line(b"GET / HTTP/1.1\r\nHost: localhost\r\n\r\n"), b"GET / HTTP/1.1".to_vec());
    assert_eq!(request_line(b"GET / HTTP/1.1\nHost: x\n"), b"GET / HTTP/1.1".to_vec());
    assert_eq!(request_line(b"GET / HTTP/1.1"), b"GET / HTTP/1.1".to_vec());
    assert_eq!(request_line(b"\r\n"), Vec::<u8>::new());
    assert_eq!(request_line(b""), Vec::<u8>::new());
    assert_eq!(request_line(b"a\rb\n"), b"a\rb".to_vec());
}

#[test]
fn resolve_gives_route_and_file() {
    assert_eq!(resolve(b"GET /pkg/app.js HTTP/1.1"), (RouteKind::PkgAsset, b"pkg/app.js".to_vec()));
    assert_eq!(resolve(b"GET / HTTP/1.1"), (RouteKind::Index, b"index.html".to_vec()));
    assert_eq!(resolve(b"GET /x HTTP/1.1"), (RouteKind::NotFound, b"404.html".to_vec()));
    assert_eq!(resolve(b"junk"), (RouteKind::Malformed, Vec::new()));
}

#[test]
fn content_length_counts_body_bytes() {
    for n in [0usize, 1, 9, 10, 99, 100, 1234, 65536] {
        let r = reply_to(RouteKind::NotFound, Some(vec![b'x'; n]));
        let bytes = r.to_bytes();
        let text = String::from_utf8(bytes.clone()).unwrap();
        let header = format!("Content-Length: {}\r\n\r\n", n);
        let at = text.find(&header).unwrap();
        assert_eq!(bytes.len() - (at + header.len()), n);
    }
}

#[test]
fn multibyte_body_length_is_in_bytes() {
    let body = "héllo".as_bytes().to_vec();
    let r = reply_to(RouteKind::PkgAsset, Some(body));
    assert_eq!(
        wire(&r),
        "HTTP/1.1 200 OK\r\nContent-Type: application/javascript\r\nContent-Length: 6\r\n\r\nhéllo"
    );
}

#[test]
fn malformed_reply_ignores_contents() {
    let r = reply_to(RouteKind::Malformed, Some(b"abc".to_vec()));
    assert_eq!(r.status, Status::BadRequest);
    assert!(r.body.is_empty());
}
