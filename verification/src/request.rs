//! Parsing of the one HTTP request line the loopback listener needs.
//!
//! Only the request line `METHOD PATH VERSION` is read; headers and body are
//! ignored.  A missing or malformed request-target defaults to `/`.
use vstd::prelude::*;

verus! {

/// The separator bytes of a request line: the ASCII whitespace characters.
pub open spec fn is_ws(b: u8) -> bool {
    b == 9 || b == 10 || b == 11 || b == 12 || b == 13 || b == 32
}

/// The request's first line: everything before the first line feed.
pub open spec fn first_line(req: Seq<u8>) -> Seq<u8>
    decreases req.len(),
{
    if req.len() == 0 || req[0] == 10 {
        seq![]
    } else {
        seq![req[0]] + first_line(req.drop_first())
    }
}

/// `s` without its leading whitespace.
pub open spec fn skip_spaces(s: Seq<u8>) -> Seq<u8>
    decreases s.len(),
{
    if s.len() > 0 && is_ws(s[0]) {
        skip_spaces(s.drop_first())
    } else {
        s
    }
}

/// The longest whitespace-free prefix of `s`.
pub open spec fn first_token(s: Seq<u8>) -> Seq<u8>
    decreases s.len(),
{
    if s.len() > 0 && !is_ws(s[0]) {
        seq![s[0]] + first_token(s.drop_first())
    } else {
        seq![]
    }
}

/// `s` from the end of its first token on.
pub open spec fn after_token(s: Seq<u8>) -> Seq<u8>
    decreases s.len(),
{
    if s.len() > 0 && !is_ws(s[0]) {
        after_token(s.drop_first())
    } else {
        s
    }
}

/// The second whitespace-separated token of `line`.
pub open spec fn second_token(line: Seq<u8>) -> Seq<u8> {
    first_token(skip_spaces(after_token(skip_spaces(line))))
}

/// Printable ASCII: the bytes a request-target may be made of.
pub open spec fn is_printable_ascii(b: u8) -> bool {
    33 <= b && b <= 126
}

pub open spec fn all_printable_ascii(t: Seq<u8>) -> bool {
    forall|i: int| 0 <= i < t.len() ==> is_printable_ascii(#[trigger] t[i])
}

/// The path of the request: the second token of its first line, or `/` when
/// that token is missing or not printable ASCII.
pub open spec fn request_path(req: Seq<u8>) -> Seq<u8> {
    let t = second_token(first_line(req));
    if t.len() > 0 && all_printable_ascii(t) {
        t
    } else {
        seq![47u8]
    }
}

/// Whatever the request was, the extracted path is printable ASCII.
pub proof fn lemma_request_path_printable(req: Seq<u8>)
    ensures
        all_printable_ascii(request_path(req)),
        request_path(req).len() > 0,
{
    let t = second_token(first_line(req));
    if t.len() > 0 && all_printable_ascii(t) {
    } else {
        assert forall|i: int| 0 <= i < request_path(req).len() implies is_printable_ascii(
            #[trigger] request_path(req)[i],
        ) by {
            assert(request_path(req)[i] == 47);
        }
    }
}

proof fn lemma_first_line_concat(a: Seq<u8>, b: Seq<u8>)
    requires
        forall|i: int| 0 <= i < a.len() ==> #[trigger] a[i] != 10,
    ensures
        first_line(a + b) == a + first_line(b),
    decreases a.len(),
{
    if a.len() == 0 {
        assert(a + b =~= b);
        assert(a + first_line(b) =~= first_line(b));
    } else {
        assert((a + b)[0] == a[0]);
        assert((a + b).drop_first() =~= a.drop_first() + b);
        lemma_first_line_concat(a.drop_first(), b);
        assert(first_line(a + b) =~= seq![a[0]] + (a.drop_first() + first_line(b)));
        assert(seq![a[0]] + (a.drop_first() + first_line(b)) =~= a + first_line(b));
    }
}

proof fn lemma_skip_spaces_concat(a: Seq<u8>, b: Seq<u8>)
    requires
        forall|i: int| 0 <= i < a.len() ==> is_ws(#[trigger] a[i]),
    ensures
        skip_spaces(a + b) == skip_spaces(b),
    decreases a.len(),
{
    if a.len() == 0 {
        assert(a + b =~= b);
    } else {
        assert((a + b)[0] == a[0]);
        assert((a + b).drop_first() =~= a.drop_first() + b);
        lemma_skip_spaces_concat(a.drop_first(), b);
    }
}

proof fn lemma_token_concat(a: Seq<u8>, b: Seq<u8>)
    requires
        forall|i: int| 0 <= i < a.len() ==> !is_ws(#[trigger] a[i]),
        b.len() == 0 || is_ws(b[0]),
    ensures
        first_token(a + b) == a,
        after_token(a + b) == b,
    decreases a.len(),
{
    if a.len() == 0 {
        assert(a + b =~= b);
        assert(a =~= seq![]);
    } else {
        assert((a + b)[0] == a[0]);
        assert((a + b).drop_first() =~= a.drop_first() + b);
        lemma_token_concat(a.drop_first(), b);
        assert(first_token(a + b) =~= seq![a[0]] + a.drop_first());
        assert(seq![a[0]] + a.drop_first() =~= a);
    }
}

/// For any whitespace-free method, any non-empty printable-ASCII path `P`
/// and any rest of request that follows a separator, the path extracted from
/// the request line `METHOD P ...` is exactly `P`.
pub proof fn lemma_request_line_path(method: Seq<u8>, path: Seq<u8>, tail: Seq<u8>)
    requires
        method.len() > 0,
        forall|i: int| 0 <= i < method.len() ==> !is_ws(#[trigger] method[i]),
        path.len() > 0,
        all_printable_ascii(path),
        tail.len() == 0 || is_ws(tail[0]),
    ensures
        request_path(method + seq![32u8] + path + tail) == path,
{
    let req = method + seq![32u8] + path + tail;
    let head = method + seq![32u8] + path;
    assert forall|i: int| 0 <= i < path.len() implies !is_ws(#[trigger] path[i]) by {
        assert(is_printable_ascii(path[i]));
    }
    assert forall|i: int| 0 <= i < head.len() implies #[trigger] head[i] != 10 by {
        if i < method.len() {
            assert(head[i] == method[i]);
            assert(!is_ws(method[i]));
        } else if i == method.len() {
            assert(head[i] == 32);
        } else {
            assert(head[i] == path[i - method.len() - 1]);
            assert(is_printable_ascii(path[i - method.len() - 1]));
        }
    }
    assert(req =~= head + tail);
    lemma_first_line_concat(head, tail);
    let ftail = first_line(tail);
    assert(ftail.len() == 0 || is_ws(ftail[0])) by {
        if tail.len() > 0 && tail[0] != 10 {
            assert(ftail == seq![tail[0]] + first_line(tail.drop_first()));
            assert(ftail[0] == tail[0]);
        }
    }
    let line = first_line(req);
    assert(line == head + ftail);
    let rest1 = seq![32u8] + path + ftail;
    assert(line =~= method + rest1);
    assert(line[0] == method[0]);
    assert(skip_spaces(line) == line);
    assert(rest1[0] == 32 && is_ws(32));
    lemma_token_concat(method, rest1);
    assert(after_token(line) == rest1);
    let rest2 = path + ftail;
    assert(rest1 =~= seq![32u8] + rest2);
    assert forall|i: int| 0 <= i < seq![32u8].len() implies is_ws(#[trigger] seq![32u8][i]) by {
        assert(seq![32u8][i] == 32);
    }
    lemma_skip_spaces_concat(seq![32u8], rest2);
    assert(rest2[0] == path[0]);
    assert(skip_spaces(rest2) == rest2);
    lemma_token_concat(path, ftail);
    assert(first_token(rest2) == path);
    assert(second_token(line) == path);
}

fn is_ws_byte(b: u8) -> (r: bool)
    ensures
        r == is_ws(b),
{
    b == 9 || b == 10 || b == 11 || b == 12 || b == 13 || b == 32
}

fn line_bytes(req: &[u8]) -> (r: Vec<u8>)
    ensures
        r@ == first_line(req@),
    decreases req@.len(),
{
    if req.len() == 0 || req[0] == 10 {
        Vec::new()
    } else {
        let rest = req.split_at(1).1;
        assert(rest@ =~= req@.drop_first());
        let mut v = line_bytes(rest);
        v.insert(0, req[0]);
        assert(v@ =~= first_line(req@));
        v
    }
}

fn skip_spaces_slice<'a>(s: &'a [u8]) -> (r: &'a [u8])
    ensures
        r@ == skip_spaces(s@),
    decreases s@.len(),
{
    if s.len() > 0 && is_ws_byte(s[0]) {
        let rest = s.split_at(1).1;
        assert(rest@ =~= s@.drop_first());
        skip_spaces_slice(rest)
    } else {
        s
    }
}

fn after_token_slice<'a>(s: &'a [u8]) -> (r: &'a [u8])
    ensures
        r@ == after_token(s@),
    decreases s@.len(),
{
    if s.len() > 0 && !is_ws_byte(s[0]) {
        let rest = s.split_at(1).1;
        assert(rest@ =~= s@.drop_first());
        after_token_slice(rest)
    } else {
        s
    }
}

fn token_bytes(s: &[u8]) -> (r: Vec<u8>)
    ensures
        r@ == first_token(s@),
    decreases s@.len(),
{
    if s.len() > 0 && !is_ws_byte(s[0]) {
        let rest = s.split_at(1).1;
        assert(rest@ =~= s@.drop_first());
        let mut v = token_bytes(rest);
        v.insert(0, s[0]);
        assert(v@ =~= first_token(s@));
        v
    } else {
        Vec::new()
    }
}

fn check_printable(t: &Vec<u8>) -> (r: bool)
    ensures
        r == all_printable_ascii(t@),
{
    let mut i: usize = 0;
    while i < t.len()
        invariant
            i <= t@.len(),
            forall|j: int| 0 <= j < i ==> is_printable_ascii(#[trigger] t@[j]),
        decreases t@.len() - i,
    {
        let b = t[i];
        if b < 33 || b > 126 {
            assert(!is_printable_ascii(t@[i as int]));
            return false;
        }
        i += 1;
    }
    true
}

/// The request-target of the raw request `req`, with `/` standing in for a
/// missing or malformed one.
pub fn extract_request_path(req: &[u8]) -> (p: Vec<u8>)
    ensures
        p@ == request_path(req@),
{
    let line = line_bytes(req);
    let s1 = skip_spaces_slice(line.as_slice());
    let s2 = after_token_slice(s1);
    let s3 = skip_spaces_slice(s2);
    let tok = token_bytes(s3);
    if tok.len() > 0 && check_printable(&tok) {
        tok
    } else {
        let mut v: Vec<u8> = Vec::new();
        v.push(47);
        assert(v@ =~= seq![47u8]);
        v
    }
}

} // verus!
