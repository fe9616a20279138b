use vstd::prelude::*;

verus! {

/// How a request line is answered: the response's status line, the file
/// whose contents form its body, and how many seconds to wait before
/// answering.
pub struct Route {
    pub status_line: &'static str,
    pub file_path: &'static str,
    pub delay_secs: u64,
}

/// The status line of a successful response.
pub open spec fn ok_status() -> Seq<char> {
    "HTTP/2.0 200 OK"@
}

/// The status line of a response for an unknown request.
pub open spec fn not_found_status() -> Seq<char> {
    "HTTP/1.1 404 NOT FOUND"@
}

/// The answer to a request line, over character sequences: the site's page,
/// the same page after ten seconds, its style sheet, or the not-found page.
pub open spec fn route_spec(line: Seq<char>) -> (Seq<char>, Seq<char>, nat) {
    if line == "GET / HTTP/1.1"@ {
        (ok_status(), "pages/hello.html"@, 0)
    } else if line == "GET /sleep HTTP/1.1"@ {
        (ok_status(), "pages/hello.html"@, 10)
    } else if line == "GET /styles.css HTTP/1.1"@ {
        (ok_status(), "pages/styles.css"@, 0)
    } else {
        (not_found_status(), "pages/404.html"@, 0)
    }
}

/// Whether two strings hold the same characters.
fn same_text(a: &str, b: &str) -> (r: bool)
    ensures
        r == (a@ == b@),
{
    let n = a.unicode_len();
    if n != b.unicode_len() {
        return false;
    }
    let mut i: usize = 0;
    while i < n
        invariant
            n == a@.len(),
            n == b@.len(),
            i <= n,
            forall|k: int| 0 <= k < i ==> a@[k] == b@[k],
        decreases n - i,
    {
        if a.get_char(i) != b.get_char(i) {
            return false;
        }
        i = i + 1;
    }
    assert(a@ =~= b@);
    true
}

/// Maps a request line to its route; any line not listed gets the
/// not-found page.
pub fn route(request_line: &str) -> (r: Route)
    ensures
        (r.status_line@, r.file_path@, r.delay_secs as nat) == route_spec(request_line@),
{
    if same_text(request_line, "GET / HTTP/1.1") {
        Route { status_line: "HTTP/2.0 200 OK", file_path: "pages/hello.html", delay_secs: 0 }
    } else if same_text(request_line, "GET /sleep HTTP/1.1") {
        Route { status_line: "HTTP/2.0 200 OK", file_path: "pages/hello.html", delay_secs: 10 }
    } else if same_text(request_line, "GET /styles.css HTTP/1.1") {
        Route { status_line: "HTTP/2.0 200 OK", file_path: "pages/styles.css", delay_secs: 0 }
    } else {
        Route {
            status_line: "HTTP/1.1 404 NOT FOUND",
            file_path: "pages/404.html",
            delay_secs: 0,
        }
    }
}


/// The decimal numeral of `n`, most significant digit first, without
/// leading zeros.
pub open spec fn decimal(n: nat) -> Seq<char>
    decreases n,
{
    if n < 10 {
        seq!["0123456789"@[n as int]]
    } else {
        decimal(n / 10) + seq!["0123456789"@[(n % 10) as int]]
    }
}

/// A response: the status line, a `Content-Length` header giving the
/// body's length in bytes, a blank line, then the body.
pub open spec fn response_spec(status_line: Seq<char>, body: &str) -> Seq<char> {
    status_line + "\r\nContent-Length: "@ + decimal(body.len() as nat) + "\r\n\r\n"@ + body@
}

/// Appends the decimal numeral of `n` to `out`.
fn push_decimal(out: &mut String, n: usize)
    ensures
        final(out)@ == old(out)@ + decimal(n as nat),
    decreases n,
{
    if n >= 10 {
        push_decimal(out, n / 10);
    }
    let digits = "0123456789";
    proof {
        reveal_strlit("0123456789");
    }
    let d = n % 10;
    out.append(digits.substring_char(d, d + 1));
    proof {
        assert(digits@.subrange(d as int, d + 1) =~= seq![digits@[d as int]]);
        if n >= 10 {
            assert(decimal(n as nat) == decimal((n / 10) as nat) + seq![digits@[d as int]]);
        }
    }
    assert(out@ =~= old(out)@ + decimal(n as nat));
}

/// Frames `body` as a response with the given status line.
pub fn frame_response(status_line: &str, body: &str) -> (r: String)
    ensures
        r@ == response_spec(status_line@, body),
{
    let mut out = String::from_str(status_line);
    out.append("\r\nContent-Length: ");
    push_decimal(&mut out, body.len());
    out.append("\r\n\r\n");
    out.append(body);
    out
}

} // verus!
