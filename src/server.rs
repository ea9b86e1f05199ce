use vstd::prelude::*;

verus! {

/// The request methods that the echo service tells apart.
#[derive(Clone, Copy, Debug, PartialEq, Eq, Structural)]
pub enum HttpMethod {
    Get,
    Post,
    Other,
}

/// What the echo service does with a request.
#[derive(Clone, Copy, Debug, PartialEq, Eq, Structural)]
pub enum Route {
    /// Answer with a line on how to use the service.
    Usage,
    /// Answer with the request body as it came.
    Echo,
    /// Answer with the request body in ASCII upper case.
    EchoUppercase,
    /// Answer with the request body, byte for byte, in reverse order.
    EchoReverse,
    /// Answer 404.
    NotFound,
}

pub open spec fn route_spec(method: HttpMethod, path: Seq<char>) -> Route {
    if method == HttpMethod::Get && path == seq!['/'] {
        Route::Usage
    } else if method == HttpMethod::Post && path == seq!['/', 'e', 'c', 'h', 'o'] {
        Route::Echo
    } else if method == HttpMethod::Post && path == seq![
        '/', 'e', 'c', 'h', 'o', '/', 'u', 'p', 'p', 'e', 'r', 'c', 'a', 's', 'e',
    ] {
        Route::EchoUppercase
    } else if method == HttpMethod::Post && path == seq![
        '/', 'e', 'c', 'h', 'o', '/', 'r', 'e', 'v', 'e', 'r', 's', 'e',
    ] {
        Route::EchoReverse
    } else {
        Route::NotFound
    }
}

/// Whether two strings hold the same characters.
fn same_text(a: &str, b: &str) -> (r: bool)
    ensures
        r == (a@ == b@),
{
    let n = a.unicode_len();
    if n != b.unicode_len() {
        return false;
    }
    let mut i: usize = 0;
    while i < n
        invariant
            n == a@.len(),
            n == b@.len(),
            i <= n,
            forall|j: int| 0 <= j < i ==> a@[j] == b@[j],
        decreases n - i,
    {
        if a.get_char(i) != b.get_char(i) {
            return false;
        }
        i = i + 1;
    }
    proof {
        assert(a@ =~= b@);
    }
    true
}

/// Picks what to do with a request from its method and path.
pub fn route(method: HttpMethod, path: &str) -> (r: Route)
    ensures
        r == route_spec(method, path@),
{
    proof {
        reveal_strlit("/");
        reveal_strlit("/echo");
        reveal_strlit("/echo/uppercase");
        reveal_strlit("/echo/reverse");
        assert("/"@ =~= seq!['/']);
        assert("/echo"@ =~= seq!['/', 'e', 'c', 'h', 'o']);
        assert("/echo/uppercase"@ =~= seq![
            '/', 'e', 'c', 'h', 'o', '/', 'u', 'p', 'p', 'e', 'r', 'c', 'a', 's', 'e',
        ]);
        assert("/echo/reverse"@ =~= seq!['/', 'e', 'c', 'h', 'o', '/', 'r', 'e', 'v', 'e', 'r', 's', 'e']);
    }
    match method {
        HttpMethod::Get => {
            if same_text(path, "/") {
                return Route::Usage;
            }
        },
        HttpMethod::Post => {
            if same_text(path, "/echo") {
                return Route::Echo;
            } else if same_text(path, "/echo/uppercase") {
                return Route::EchoUppercase;
            } else if same_text(path, "/echo/reverse") {
                return Route::EchoReverse;
            }
        },
        HttpMethod::Other => {},
    }
    Route::NotFound
}

/// A byte in ASCII upper case: `a` to `z` become `A` to `Z`, any other
/// byte stays.
pub open spec fn upper_spec(b: u8) -> u8 {
    if 97 <= b <= 122 {
        (b - 32) as u8
    } else {
        b
    }
}

/// The bytes in ASCII upper case.
pub fn ascii_uppercase(bytes: &[u8]) -> (r: Vec<u8>)
    ensures
        r@ == bytes@.map_values(|b: u8| upper_spec(b)),
{
    let mut r: Vec<u8> = Vec::new();
    let mut i: usize = 0;
    while i < bytes.len()
        invariant
            i <= bytes@.len(),
            r@ == bytes@.take(i as int).map_values(|b: u8| upper_spec(b)),
        decreases bytes@.len() - i,
    {
        let b = bytes[i];
        let u = if 97 <= b && b <= 122 { b - 32 } else { b };
        r.push(u);
        i = i + 1;
        proof {
            assert(r@ =~= bytes@.take(i as int).map_values(|b: u8| upper_spec(b)));
        }
    }
    proof {
        assert(bytes@.take(i as int) =~= bytes@);
    }
    r
}

/// The bytes in reverse order.
pub fn reversed(bytes: &[u8]) -> (r: Vec<u8>)
    ensures
        r@ == bytes@.reverse(),
{
    let mut r: Vec<u8> = Vec::new();
    let mut i: usize = bytes.len();
    while i > 0
        invariant
            i <= bytes@.len(),
            r@ == bytes@.skip(i as int).reverse(),
        decreases i,
    {
        i = i - 1;
        r.push(bytes[i]);
        proof {
            assert(r@ =~= bytes@.skip(i as int).reverse());
        }
    }
    proof {
        assert(bytes@.skip(0) =~= bytes@);
    }
    r
}

} // verus!
