//! The wire format of the loopback listener's reply: a minimal HTTP/1.1
//! response whose `Content-Length` header is exactly the body's byte length.
use vstd::prelude::*;
use vstd::string::StringSliceAdditionalSpecFns;
use crate::decimal::dec_digits;
use crate::decimal::dec_value;
use crate::decimal::dec_digit_bytes;
use crate::decimal::lemma_dec_digits_value;
use crate::text::append_str_bytes;

verus! {

/// Everything of the reply before the `Content-Length` value.
pub open spec fn response_prefix_bytes() -> Seq<u8> {
    ("HTTP/1.1 200 OK\r\nContent-Type: text/html\r\nContent-Length: ").spec_bytes()
}

/// Everything of the reply between the `Content-Length` value and the body.
pub open spec fn response_suffix_bytes() -> Seq<u8> {
    ("\r\nConnection: close\r\n\r\n").spec_bytes()
}

/// The listener's whole reply for `body`: status line `200 OK`, a
/// `text/html` content type, a `Content-Length` of the body's byte length,
/// `Connection: close`, a blank line, then the body itself.
pub open spec fn http_response_bytes(body: Seq<u8>) -> Seq<u8> {
    response_prefix_bytes() + dec_digits(body.len()) + response_suffix_bytes() + body
}

/// Builds the reply that serves `body`.
pub fn build_http_response(body: Vec<u8>) -> (r: Vec<u8>)
    ensures
        r@ == http_response_bytes(body@),
{
    let mut body = body;
    let ghost b0 = body@;
    let mut r: Vec<u8> = Vec::new();
    append_str_bytes(&mut r, "HTTP/1.1 200 OK\r\nContent-Type: text/html\r\nContent-Length: ");
    let mut digits = dec_digit_bytes(body.len() as u64);
    r.append(&mut digits);
    append_str_bytes(&mut r, "\r\nConnection: close\r\n\r\n");
    r.append(&mut body);
    assert(r@ =~= response_prefix_bytes() + dec_digits(b0.len()) + response_suffix_bytes() + b0);
    r
}

/// The `Content-Length` value of the reply reads back as exactly the body's
/// byte length, whatever the body is.
pub proof fn lemma_content_length_exact(body: Seq<u8>)
    ensures
        http_response_bytes(body) == response_prefix_bytes() + dec_digits(body.len())
            + response_suffix_bytes() + body,
        dec_value(dec_digits(body.len())) == body.len(),
{
    lemma_dec_digits_value(body.len());
}

} // verus!
