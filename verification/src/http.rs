//! The HTTP/1.1 replies that the GeoIP service writes to Geoclue.

use vstd::prelude::*;
use vstd::string::StringSliceAdditionalSpecFns;

use crate::text::{
    bytes_equal, decimal, digits_value, lemma_decimal_round_trip, push_decimal, push_str,
};

verus! {

broadcast use vstd::string::group_string_axioms;

/// Carriage return and line feed, the line separator of HTTP.
pub open spec fn crlf() -> Seq<u8> {
    seq![13u8, 10u8]
}

/// No carriage return and no line feed.
pub open spec fn no_line_break(s: Seq<u8>) -> bool {
    forall|i: int| 0 <= i < s.len() ==> #[trigger] s[i] != 13u8 && s[i] != 10u8
}

/// A blank line (an empty line after a line break) starts at byte `i` of `s`.
pub open spec fn blank_line_at(s: Seq<u8>, i: int) -> bool {
    &&& 0 <= i
    &&& i + 4 <= s.len()
    &&& s[i] == 13u8
    &&& s[i + 1] == 10u8
    &&& s[i + 2] == 13u8
    &&& s[i + 3] == 10u8
}

/// What follows the blank line of a reply: one more line break, then the
/// body, or `{}` where there is none.
pub open spec fn payload(body: Option<Seq<u8>>) -> Seq<u8> {
    crlf() + match body {
        Some(b) => b,
        None => "{}".spec_bytes(),
    }
}

/// The header lines of a reply, without the line break after the last one.
pub open spec fn head(status: Seq<u8>, content_length: nat) -> Seq<u8> {
    "HTTP/1.1 ".spec_bytes() + status + crlf() + "Content-Type: application/json".spec_bytes()
        + crlf() + "Content-Length: ".spec_bytes() + decimal(content_length)
}

/// The whole reply with the given status and body: a JSON reply whose
/// Content-Length is the length of its payload.
pub open spec fn response(status: Seq<u8>, body: Option<Seq<u8>>) -> Seq<u8> {
    head(status, payload(body).len()) + crlf() + crlf() + payload(body)
}

/// The bytes of the fixed texts of a reply.
proof fn lemma_reply_literals()
    ensures
        "\r\n".spec_bytes() == crlf(),
        "{}".spec_bytes() == seq![123u8, 125u8],
        "HTTP/1.1 ".spec_bytes().len() == 9,
        "Content-Type: application/json".spec_bytes().len() == 30,
        "Content-Length: ".spec_bytes().len() == 16,
        no_line_break("HTTP/1.1 ".spec_bytes()),
        no_line_break("Content-Type: application/json".spec_bytes()),
        no_line_break("Content-Length: ".spec_bytes()),
        "Content-Type: application/json".spec_bytes()[0] == 67u8,
        "Content-Length: ".spec_bytes()[0] == 67u8,
{
    reveal_strlit("\r\n");
    reveal_strlit("{}");
    reveal_strlit("HTTP/1.1 ");
    reveal_strlit("Content-Type: application/json");
    reveal_strlit("Content-Length: ");
    assert(vstd::string::is_ascii("\r\n"));
    assert(vstd::string::is_ascii("{}"));
    assert(vstd::string::is_ascii("HTTP/1.1 "));
    assert(vstd::string::is_ascii("Content-Type: application/json"));
    assert(vstd::string::is_ascii("Content-Length: "));
    assert("\r\n".spec_bytes() =~= crlf());
    assert("{}".spec_bytes() =~= seq![123u8, 125u8]);
}

/// The reply that `status_code` and `body` make, as the GeoIP service
/// writes it to the client: status line, `Content-Type: application/json`,
/// `Content-Length`, a blank line, then a line break and the body (`{}`
/// where there is no body). The Content-Length counts that line break.
pub fn respond(status_code: &str, body: Option<&str>) -> (reply: Vec<u8>)
    ensures
        reply@ == response(
            status_code.spec_bytes(),
            match body {
                Some(b) => Some(b.spec_bytes()),
                None => None,
            },
        ),
{
    proof {
        lemma_reply_literals();
    }
    let mut out: Vec<u8> = Vec::new();
    push_str(&mut out, "HTTP/1.1 ");
    push_str(&mut out, status_code);
    push_str(&mut out, "\r\n");
    push_str(&mut out, "Content-Type: application/json");
    push_str(&mut out, "\r\n");
    push_str(&mut out, "Content-Length: ");
    let ghost spec_body = match body {
        Some(b) => Some(b.spec_bytes()),
        None => None,
    };
    match body {
        Some(b) => {
            let length = b.as_bytes().len() as u128 + 2;
            push_decimal(&mut out, length);
            push_str(&mut out, "\r\n");
            push_str(&mut out, "\r\n");
            push_str(&mut out, "\r\n");
            push_str(&mut out, b);
        },
        None => {
            push_decimal(&mut out, 4);
            push_str(&mut out, "\r\n");
            push_str(&mut out, "\r\n");
            push_str(&mut out, "\r\n");
            push_str(&mut out, "{}");
        },
    }
    assert(out@ =~= response(status_code.spec_bytes(), spec_body));
    out
}

/// The request line of the one request that the GeoIP service answers
/// with a location.
pub open spec fn location_request_line() -> Seq<char> {
    "POST / HTTP/1.1"@
}

/// Whether `request_line` (without its line ending) asks for the
/// location: it must be exactly `POST / HTTP/1.1`.
pub fn is_location_request(request_line: &str) -> (answer: bool)
    ensures
        answer == (request_line@ == location_request_line()),
{
    let expected = "POST / HTTP/1.1";
    let equal = bytes_equal(request_line.as_bytes(), expected.as_bytes());
    proof {
        vstd::utf8::encode_utf8_decode_utf8(request_line@);
        vstd::utf8::encode_utf8_decode_utf8(expected@);
    }
    equal
}

/// A reply ends with its body exactly as given, after one line break;
/// without a body it ends with a line break and `{}`. The header lines come
/// before, and the status line starts the reply.
pub proof fn lemma_reply_ends_with_body(status: Seq<u8>, body: Option<Seq<u8>>)
    ensures
        ({
            let r = response(status, body);
            let b = match body {
                Some(b) => b,
                None => seq![123u8, 125u8],
            };
            &&& r.len() >= b.len() + 2
            &&& r.subrange(r.len() as int - b.len() as int - 2, r.len() as int) =~= seq![13u8, 10u8] + b
            &&& r.subrange(0, 9) =~= seq![72u8, 84u8, 84u8, 80u8, 47u8, 49u8, 46u8, 49u8, 32u8]
            &&& r.subrange(9, 9 + status.len() as int) =~= status
        }),
{
    lemma_reply_literals();
    reveal_strlit("HTTP/1.1 ");
    assert(vstd::string::is_ascii("HTTP/1.1 "));
}

/// The Content-Length that a reply declares is the number of bytes that
/// follow the blank line ending its header: the reply is its header lines,
/// a blank line, and a payload; no blank line comes earlier (a status text
/// has no line break); the header ends with `Content-Length: ` and digits;
/// and those digits denote the length of the payload.
pub proof fn lemma_content_length_counts_payload(status: Seq<u8>, body: Option<Seq<u8>>)
    requires
        no_line_break(status),
    ensures
        ({
            let r = response(status, body);
            let p = payload(body);
            let h = head(status, p.len());
            &&& r == h + crlf() + crlf() + p
            &&& blank_line_at(r, h.len() as int)
            &&& forall|i: int| 0 <= i < h.len() ==> !blank_line_at(r, i)
            &&& h == "HTTP/1.1 ".spec_bytes() + status + crlf()
                + "Content-Type: application/json".spec_bytes() + crlf()
                + "Content-Length: ".spec_bytes() + decimal(p.len())
            &&& digits_value(decimal(p.len())) == p.len()
            &&& r.len() == h.len() + 4 + p.len()
        }),
{
    lemma_reply_literals();
    let p = payload(body);
    lemma_decimal_round_trip(p.len());
    let r = response(status, body);
    let h = head(status, p.len());
    let a = "HTTP/1.1 ".spec_bytes();
    let b = "Content-Type: application/json".spec_bytes();
    let c = "Content-Length: ".spec_bytes();
    let d = decimal(p.len());
    let n = status.len() as int;
    // Offsets of the two line breaks inside the header.
    let p1 = 9 + n;
    let p2 = p1 + 2 + 30;
    assert(h.len() == p2 + 2 + 16 + d.len());
    assert forall|k: int| 0 <= k < h.len() && #[trigger] h[k] == 13u8 implies k == p1 || k == p2 by {
        if k < 9 {
            assert(h[k] == a[k]);
        } else if k < p1 {
            assert(h[k] == status[k - 9]);
        } else if k < p1 + 2 {
        } else if k < p2 {
            assert(h[k] == b[k - p1 - 2]);
        } else if k < p2 + 2 {
        } else if k < p2 + 2 + 16 {
            assert(h[k] == c[k - p2 - 2]);
        } else {
            assert(h[k] == d[k - p2 - 18]);
            assert(crate::text::is_digit(d[k - p2 - 18]));
        }
    }
    assert(h[p1 + 2] == b[0]);
    assert(h[p2 + 2] == c[0]);
    assert forall|i: int| 0 <= i < h.len() implies !blank_line_at(r, i) by {
        assert(r[i] == h[i]);
        if r[i] == 13u8 {
            if i + 2 < h.len() {
                assert(r[i + 2] == h[i + 2]);
                if i + 2 == p1 || i + 2 == p2 {
                    assert(h[i + 2] != 13u8);
                }
            } else {
                // The last bytes of the header are digits.
                assert(h[i] == d[i - p2 - 18]);
                assert(crate::text::is_digit(d[i - p2 - 18]));
            }
        }
    }
}

} // verus!
