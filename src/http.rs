//! The request handling that the pool's jobs do: which page a request line
//! asks for, and how a response is framed.
use vstd::prelude::*;
use vstd::string::{StringExecFns, StringSliceAdditionalSpecFns};

verus! {

/// What a request line asks for.
#[derive(Clone, Copy, Debug, PartialEq, Eq, Structural)]
pub enum Route {
    /// `GET / HTTP/1.1`: the home page.
    Home,
    /// `GET /sleep HTTP/1.1`: the home page, after a deliberate delay.
    SlowHome,
    /// Anything else.
    NotFound,
}

pub open spec fn route_of(request_line: Seq<char>) -> Route {
    if request_line == "GET / HTTP/1.1"@ {
        Route::Home
    } else if request_line == "GET /sleep HTTP/1.1"@ {
        Route::SlowHome
    } else {
        Route::NotFound
    }
}

/// Which page `request_line` asks for.
pub fn route(request_line: &String) -> (r: Route)
    ensures
        r == route_of(request_line@),
{
    let home = String::from_str("GET / HTTP/1.1");
    let slow = String::from_str("GET /sleep HTTP/1.1");
    if *request_line == home {
        Route::Home
    } else if *request_line == slow {
        Route::SlowHome
    } else {
        Route::NotFound
    }
}

impl Route {
    pub fn status_line(&self) -> (r: &'static str)
        ensures
            r@ == (if *self == Route::NotFound {
                "HTTP/1.1 404 NOT FOUND"@
            } else {
                "HTTP/1.1 200 OK"@
            }),
    {
        match self {
            Route::NotFound => "HTTP/1.1 404 NOT FOUND",
            _ => "HTTP/1.1 200 OK",
        }
    }

    /// The file whose contents make the body of the response.
    pub fn filename(&self) -> (r: &'static str)
        ensures
            r@ == (if *self == Route::NotFound { "404.html"@ } else { "hello.html"@ }),
    {
        match self {
            Route::NotFound => "404.html",
            _ => "hello.html",
        }
    }

    /// Whether the response is to be held back before it is sent.
    pub fn is_delayed(&self) -> (r: bool)
        ensures
            r == (*self == Route::SlowHome),
    {
        match self {
            Route::SlowHome => true,
            _ => false,
        }
    }
}

pub open spec fn digit_char(d: nat) -> char {
    if d == 0 {
        '0'
    } else if d == 1 {
        '1'
    } else if d == 2 {
        '2'
    } else if d == 3 {
        '3'
    } else if d == 4 {
        '4'
    } else if d == 5 {
        '5'
    } else if d == 6 {
        '6'
    } else if d == 7 {
        '7'
    } else if d == 8 {
        '8'
    } else {
        '9'
    }
}

/// `n` in decimal, without leading zeros.
pub open spec fn decimal(n: nat) -> Seq<char>
    decreases n,
{
    if n < 10 {
        seq![digit_char(n)]
    } else {
        decimal(n / 10).push(digit_char(n % 10))
    }
}

fn digit_str(d: usize) -> (r: &'static str)
    requires
        d < 10,
    ensures
        r@ == seq![digit_char(d as nat)],
{
    proof {
        reveal_strlit("0");
        reveal_strlit("1");
        reveal_strlit("2");
        reveal_strlit("3");
        reveal_strlit("4");
        reveal_strlit("5");
        reveal_strlit("6");
        reveal_strlit("7");
        reveal_strlit("8");
        reveal_strlit("9");
    }
    let r = if d == 0 {
        "0"
    } else if d == 1 {
        "1"
    } else if d == 2 {
        "2"
    } else if d == 3 {
        "3"
    } else if d == 4 {
        "4"
    } else if d == 5 {
        "5"
    } else if d == 6 {
        "6"
    } else if d == 7 {
        "7"
    } else if d == 8 {
        "8"
    } else {
        "9"
    };
    assert(r@ =~= seq![digit_char(d as nat)]);
    r
}

/// Appends `n` in decimal to `s`.
fn append_decimal(s: &mut String, n: usize)
    ensures
        final(s)@ == old(s)@ + decimal(n as nat),
    decreases n,
{
    if n >= 10 {
        append_decimal(s, n / 10);
    }
    s.append(digit_str(n % 10));
    assert(old(s)@ + decimal(n as nat) =~= old(s)@ + (if n >= 10 { decimal((n / 10) as nat) } else { Seq::empty() }) + seq![digit_char((n % 10) as nat)]);
}

/// A response with `status_line`, a `Content-Length` header giving the length
/// of `contents` in bytes, and `contents` as its body.
pub fn response(status_line: &str, contents: &str) -> (r: String)
    ensures
        r@ == status_line@ + "\r\nContent-Length: "@ + decimal(contents.spec_bytes().len())
            + "\r\n\r\n"@ + contents@,
{
    let mut r = String::from_str(status_line);
    r.append("\r\nContent-Length: ");
    append_decimal(&mut r, contents.as_bytes().len());
    r.append("\r\n\r\n");
    r.append(contents);
    r
}

} // verus!
