use simple_web_server::{frame_response, route};

#[test]
fn root_serves_hello_page() {
    let r = route("GET / HTTP/1.1");
    assert_eq!(r.status_line, "HTTP/2.0 200 OK");
    assert_eq!(r.file_path, "pages/hello.html");
    assert_eq!(r.delay_secs, 0);
}

#[test]
fn sleep_serves_hello_page_late() {
    let r = route("GET /sleep HTTP/1.1");
    assert_eq!(r.status_line, "HTTP/2.0 200 OK");
    assert_eq!(r.file_path, "pages/hello.html");
    assert_eq!(r.delay_secs, 10);
}

#[test]
fn style_sheet_is_served() {
    let r = route("GET /styles.css HTTP/1.1");
    assert_eq!(r.status_line, "HTTP/2.0 200 OK");
    assert_eq!(r.file_path, "pages/styles.css");
    assert_eq!(r.delay_secs, 0);
}

#[test]
fn unknown_lines_get_not_found() {
    for line in ["", "GET /other HTTP/1.1", "GET / HTTP/1.0", "GET /  HTTP/1.1"] {
        let r = route(line);
        assert_eq!(r.status_line, "HTTP/1.1 404 NOT FOUND");
        assert_eq!(r.file_path, "pages/404.html");
        assert_eq!(r.delay_secs, 0);
    }
}

#[test]
fn response_is_framed_with_byte_length() {
    assert_eq!(
        frame_response("HTTP/2.0 200 OK", "hello"),
        "HTTP/2.0 200 OK\r\nContent-Length: 5\r\n\r\nhello"
    );
    assert_eq!(
        frame_response("HTTP/1.1 404 NOT FOUND", ""),
        "HTTP/1.1 404 NOT FOUND\r\nContent-Length: 0\r\n\r\n"
    );
    let body = "é".repeat(60);
    let framed = frame_response("HTTP/2.0 200 OK", &body);
    assert_eq!(framed, format!("HTTP/2.0 200 OK\r\nContent-Length: 120\r\n\r\n{body}"));
}
