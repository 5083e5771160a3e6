//! The requests that the services make of Home Assistant's REST API.

use vstd::prelude::*;
use vstd::string::StringSliceAdditionalSpecFns;

use crate::config::Config;

verus! {

/// A byte that HTTP accepts in a header value: a horizontal tab, or any
/// byte from the space up except DEL (bytes from 0x80 up included).
pub open spec fn header_value_byte(b: u8) -> bool {
    (b >= 32u8 && b != 127u8) || b == 9u8
}

/// Every byte is one that a header value may hold.
pub open spec fn valid_header_value(bytes: Seq<u8>) -> bool {
    forall|i: int| 0 <= i < bytes.len() ==> header_value_byte(#[trigger] bytes[i])
}

/// The value of the `Authorization` header for an access token.
pub open spec fn bearer(api_key: Seq<char>) -> Seq<char> {
    "Bearer "@ + api_key
}

/// An access token with which the `Authorization` header can be built.
pub open spec fn acceptable_api_key(api_key: Seq<char>) -> bool {
    valid_header_value(vstd::utf8::encode_utf8(bearer(api_key)))
}

/// A character that may stand in a header value: a tab, or any character
/// from the space up except DEL.
pub open spec fn header_char(c: char) -> bool {
    c == '\t' || (c as u32 >= 32 && c as u32 != 127)
}

/// The header bytes of two texts put together are valid exactly when those
/// of each are.
proof fn lemma_valid_header_value_concat(a: Seq<u8>, b: Seq<u8>)
    ensures
        valid_header_value(a + b) == (valid_header_value(a) && valid_header_value(b)),
{
    if valid_header_value(a + b) {
        assert forall|i: int| 0 <= i < a.len() implies header_value_byte(#[trigger] a[i]) by {
            assert((a + b)[i] == a[i]);
        }
        assert forall|i: int| 0 <= i < b.len() implies header_value_byte(#[trigger] b[i]) by {
            assert((a + b)[a.len() + i] == b[i]);
        }
    }
}

/// The UTF-8 bytes of one character are valid header bytes exactly when
/// the character may stand in a header value: every byte of a character
/// beyond ASCII is 0x80 or more.
proof fn lemma_char_header_bytes(c: char)
    ensures
        valid_header_value(vstd::utf8::encode_scalar(c as u32)) == header_char(c),
{
    let s = c as u32;
    vstd::utf8::char_is_scalar(c);
    assert(forall|x: u8| #![auto] (0x80u8 | x) >= 0x80u8) by (bit_vector);
    assert(forall|x: u8| #![auto] (0xC0u8 | x) >= 0x80u8) by (bit_vector);
    assert(forall|x: u8| #![auto] (0xE0u8 | x) >= 0x80u8) by (bit_vector);
    assert(forall|x: u8| #![auto] (0xF0u8 | x) >= 0x80u8) by (bit_vector);
    let e = vstd::utf8::encode_scalar(s);
    if vstd::utf8::has_width_1_encoding(s) {
        assert((s & 0x7F) as u8 == s) by (bit_vector)
            requires
                s <= 0x7F,
        ;
        assert(e[0] == s as u8);
        if header_char(c) {
            assert(header_value_byte(e[0]));
        } else {
            assert(!header_value_byte(e[0]));
        }
    } else {
        assert(s >= 0x80);
        assert forall|i: int| 0 <= i < e.len() implies header_value_byte(#[trigger] e[i]) by {
            assert(e[i] >= 0x80u8);
        }
    }
}

/// The UTF-8 bytes of a text are valid header bytes exactly when every
/// character of it may stand in a header value.
proof fn lemma_text_header_bytes(cs: Seq<char>)
    ensures
        valid_header_value(vstd::utf8::encode_utf8(cs)) == (forall|i: int|
            0 <= i < cs.len() ==> header_char(#[trigger] cs[i])),
    decreases cs.len(),
{
    if cs.len() > 0 {
        let rest = cs.drop_first();
        lemma_char_header_bytes(cs[0]);
        lemma_text_header_bytes(rest);
        lemma_valid_header_value_concat(
            vstd::utf8::encode_scalar(cs[0] as u32),
            vstd::utf8::encode_utf8(rest),
        );
        if forall|i: int| 0 <= i < cs.len() ==> header_char(#[trigger] cs[i]) {
            assert forall|i: int| 0 <= i < rest.len() implies header_char(#[trigger] rest[i]) by {
                assert(rest[i] == cs[i + 1]);
            }
        }
        if header_char(cs[0]) && (forall|i: int| 0 <= i < rest.len() ==> header_char(#[trigger] rest[i])) {
            assert forall|i: int| 0 <= i < cs.len() implies header_char(#[trigger] cs[i]) by {
                if i > 0 {
                    assert(cs[i] == rest[i - 1]);
                }
            }
        }
    } else {
        assert(vstd::utf8::encode_utf8(cs) =~= Seq::<u8>::empty());
    }
}

/// An access token can be sent (its `Authorization` header is a valid
/// header value) exactly when it holds no control character other than a
/// tab.
pub proof fn lemma_acceptable_api_key(api_key: Seq<char>)
    ensures
        acceptable_api_key(api_key) == (forall|i: int|
            0 <= i < api_key.len() ==> header_char(#[trigger] api_key[i])),
{
    reveal_strlit("Bearer ");
    let b = bearer(api_key);
    lemma_text_header_bytes(b);
    assert forall|i: int| 0 <= i < 7 implies header_char(#[trigger] b[i]) by {
        assert(b[i] == "Bearer "@[i]);
    }
    if forall|i: int| 0 <= i < api_key.len() ==> header_char(#[trigger] api_key[i]) {
        assert forall|i: int| 0 <= i < b.len() implies header_char(#[trigger] b[i]) by {
            if i >= 7 {
                assert(b[i] == api_key[i - 7]);
            }
        }
    }
    if forall|i: int| 0 <= i < b.len() ==> header_char(#[trigger] b[i]) {
        assert forall|i: int| 0 <= i < api_key.len() implies header_char(#[trigger] api_key[i]) by {
            assert(b[i + 7] == api_key[i]);
        }
    }
}

/// Whether `reqwest::header::HeaderValue::from_str` accepts `s`. The source
/// of that function (in the `http` crate) returns an error exactly when one
/// of the UTF-8 bytes of `s` fails `is_valid`: `b >= 32 && b != 127 || b == b'\t'`.
#[verifier::external_body]
fn header_value_accepts(s: &str) -> (ok: bool)
    ensures
        ok == valid_header_value(s.spec_bytes()),
{
    reqwest::header::HeaderValue::from_str(s).is_ok()
}

/// The value of the `Authorization` header for an access token.
pub fn bearer_token(api_key: &str) -> (token: String)
    ensures
        token@ == bearer(api_key@),
{
    String::from_str("Bearer ").concat(api_key)
}

/// The HTTPS URL of `path` on the host `host`.
pub fn https_url(host: &str, path: &str) -> (url: String)
    ensures
        url@ == "https://"@ + host@ + path@,
{
    String::from_str("https://").concat(host).concat(path)
}

/// The media type that every request asks for: JSON.
pub open spec fn json_media_type() -> Seq<char> {
    "application/json"@
}

/// The value of the `Accept` header of every request.
pub fn accept_header() -> (value: &'static str)
    ensures
        value@ == json_media_type(),
{
    "application/json"
}

/// `application/json` is a valid header value.
proof fn lemma_json_media_type_header_value()
    ensures
        valid_header_value(vstd::utf8::encode_utf8(json_media_type())),
{
    reveal_strlit("application/json");
    let t = json_media_type();
    lemma_text_header_bytes(t);
    assert forall|i: int| 0 <= i < t.len() implies header_char(#[trigger] t[i]) by {}
}

/// What a client holds: the address of Home Assistant, the phone it asks
/// about, and the values of its `Accept` and `Authorization` headers.
pub struct ClientView {
    pub base_url: Seq<char>,
    pub device_id: Seq<char>,
    pub accept: Seq<char>,
    pub authorization: Seq<char>,
}

/// The settings of every request made of Home Assistant. The HTTP client
/// that sends them is built from these by the program around the library.
pub struct Client {
    base_url: String,
    pub device_id: String,
    accept: String,
    authorization: String,
}

impl View for Client {
    type V = ClientView;

    closed spec fn view(&self) -> ClientView {
        ClientView {
            base_url: self.base_url@,
            device_id: self.device_id@,
            accept: self.accept@,
            authorization: self.authorization@,
        }
    }
}

impl Client {
    /// Whether a client can be made with this access token: the
    /// `Authorization` header built from it must be a valid header value.
    pub fn accepts_api_key(api_key: &str) -> (ok: bool)
        ensures
            ok == acceptable_api_key(api_key@),
    {
        let token = bearer_token(api_key);
        header_value_accepts(token.as_str())
    }

    /// A client for the Home Assistant and phone of `config`, which sends
    /// `Accept: application/json` and `Authorization: Bearer <api_key>`
    /// with every request; both are valid header values.
    pub fn new(config: Config) -> (client: Client)
        requires
            acceptable_api_key(config.api_key@),
        ensures
            client@.base_url == config.base_url@,
            client@.device_id == config.device_id@,
            client@.accept == json_media_type(),
            client@.authorization == bearer(config.api_key@),
            valid_header_value(vstd::utf8::encode_utf8(client@.accept)),
            valid_header_value(vstd::utf8::encode_utf8(client@.authorization)),
    {
        proof {
            lemma_json_media_type_header_value();
        }
        let accept = String::from_str(accept_header());
        let authorization = bearer_token(config.api_key.as_str());
        Client { base_url: config.base_url, device_id: config.device_id, accept, authorization }
    }

    /// The value of the `Accept` header of every request.
    pub fn accept(&self) -> (value: &str)
        ensures
            value@ == self@.accept,
    {
        self.accept.as_str()
    }

    /// The value of the `Authorization` header of every request.
    pub fn authorization(&self) -> (value: &str)
        ensures
            value@ == self@.authorization,
    {
        self.authorization.as_str()
    }

    /// The phone that the client asks about.
    pub fn device_id(&self) -> (id: &str)
        ensures
            id@ == self@.device_id,
    {
        self.device_id.as_str()
    }

    /// The URL of a GET request for `path` of the API.
    pub fn get(&self, path: &str) -> (url: String)
        ensures
            url@ == self@.base_url + path@,
    {
        self.base_url.clone().concat(path)
    }
}

} // verus!
