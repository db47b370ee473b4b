//! The verified computation of the single-shot loopback listener: the
//! address it binds, the reply it serves, and the callback URL it
//! reconstructs from the one request it accepts.
//!
//! The socket work itself (bind, accept, read, write) is I/O and lives with
//! the caller; it hands the raw request bytes in and the reply bytes out.
use vstd::prelude::*;
use vstd::string::StringSliceAdditionalSpecFns;
use vstd::utf8::encode_utf8;
use vstd::utf8::decode_utf8;
use vstd::utf8::valid_utf8;
use vstd::utf8::valid_utf8_concat;
use vstd::utf8::encode_utf8_valid_utf8;
use vstd::utf8::encode_utf8_decode_utf8;
use crate::decimal::dec_digits;
use crate::decimal::dec_digit_bytes;
use crate::decimal::lemma_dec_digits_are_digits;
use crate::page::callback_page_bytes;
use crate::page::render_callback_page;
use crate::request::request_path;
use crate::request::extract_request_path;
use crate::request::lemma_request_path_printable;
use crate::response::http_response_bytes;
use crate::response::build_http_response;
use crate::text::append_str_bytes;
use crate::text::lemma_ascii_bytes_valid_utf8;
use crate::text::string_from_utf8_bytes;

verus! {

/// How many bytes of the one request the listener reads at most: enough for
/// the request line, which is all it parses.
pub const REQUEST_BUFFER_BYTES: usize = 4096;

/// UTF-8 bytes of the address the listener binds: `127.0.0.1:<port>`.
pub open spec fn listen_addr_bytes(port: u16) -> Seq<u8> {
    ("127.0.0.1:").spec_bytes() + dec_digits(port as nat)
}

/// UTF-8 bytes of the callback URL reconstructed for a captured request:
/// `http://127.0.0.1:<port><path>`.  The provider puts the whole
/// authorization response in the path's query string, so scheme, loopback
/// host, port and path reconstruct the full redirect target.
pub open spec fn callback_url_bytes(port: u16, path: Seq<u8>) -> Seq<u8> {
    ("http://127.0.0.1:").spec_bytes() + dec_digits(port as nat) + path
}

/// The address string `127.0.0.1:<port>` for the listener's bind step.
pub fn listen_addr(port: u16) -> (r: String)
    ensures
        encode_utf8(r@) == listen_addr_bytes(port),
        r@ == decode_utf8(listen_addr_bytes(port)),
{
    let mut v: Vec<u8> = Vec::new();
    append_str_bytes(&mut v, "127.0.0.1:");
    let mut d = dec_digit_bytes(port as u64);
    v.append(&mut d);
    proof {
        broadcast use encode_utf8_valid_utf8, valid_utf8_concat, encode_utf8_decode_utf8;

        lemma_dec_digits_are_digits(port as nat);
        lemma_ascii_bytes_valid_utf8(dec_digits(port as nat));
        assert(v@ =~= listen_addr_bytes(port));
    }
    match string_from_utf8_bytes(v) {
        Some(s) => s,
        None => {
            proof {
                assert(false);
            }
            String::new()
        },
    }
}

/// Serves one captured request: given the raw bytes read from the accepted
/// connection and the listener's port, returns the reconstructed callback
/// URL `http://127.0.0.1:<port><path>`.
pub fn handle_request(req: &[u8], port: u16) -> (url: String)
    ensures
        encode_utf8(url@) == callback_url_bytes(port, request_path(req@)),
        url@ == decode_utf8(callback_url_bytes(port, request_path(req@))),
{
    let path = extract_request_path(req);
    let mut v: Vec<u8> = Vec::new();
    append_str_bytes(&mut v, "http://127.0.0.1:");
    let mut d = dec_digit_bytes(port as u64);
    v.append(&mut d);
    let mut p = path;
    v.append(&mut p);
    proof {
        broadcast use encode_utf8_valid_utf8, valid_utf8_concat, encode_utf8_decode_utf8;

        lemma_dec_digits_are_digits(port as nat);
        lemma_ascii_bytes_valid_utf8(dec_digits(port as nat));
        lemma_request_path_printable(req@);
        lemma_ascii_bytes_valid_utf8(request_path(req@));
        assert(valid_utf8(("http://127.0.0.1:").spec_bytes()));
        assert(valid_utf8(("http://127.0.0.1:").spec_bytes() + dec_digits(port as nat)));
        assert(valid_utf8(callback_url_bytes(port, request_path(req@))));
        assert(v@ =~= callback_url_bytes(port, request_path(req@)));
    }
    match string_from_utf8_bytes(v) {
        Some(s) => s,
        None => {
            proof {
                assert(false);
            }
            String::new()
        },
    }
}

/// The full reply to the one captured request: the confirmation page wrapped
/// in the HTTP response, `Content-Length` included.
pub fn loopback_response() -> (r: Vec<u8>)
    ensures
        r@ == http_response_bytes(callback_page_bytes()),
{
    build_http_response(render_callback_page())
}

} // verus!
