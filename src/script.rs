//! A script's configuration and the address that a session connects to.
use vstd::prelude::*;
use vstd::utf8::encode_utf8;
use crate::codec::digit_char;

verus! {

/// The upper-case hexadecimal digit for `d` in `0..16`.
pub open spec fn hex_digit(d: int) -> char {
    if d < 10 {
        digit_char(d)
    } else if d == 10 {
        'A'
    } else if d == 11 {
        'B'
    } else if d == 12 {
        'C'
    } else if d == 13 {
        'D'
    } else if d == 14 {
        'E'
    } else {
        'F'
    }
}

/// `%` followed by the byte's two hexadecimal digits.
pub open spec fn percent_text(b: u8) -> Seq<char> {
    seq!['%', hex_digit(b as int / 16), hex_digit(b as int % 16)]
}

/// Relies on percent_encoding::percent_encode_byte: `%` and the byte's two
/// upper-case hexadecimal digits.
#[verifier::external_body]
fn percent_byte(b: u8) -> (r: &'static str)
    ensures
        r@ == percent_text(b),
{
    percent_encoding::percent_encode_byte(b)
}

/// Relies on `String::push`: the character is added at the end.
#[verifier::external_body]
fn push_char(s: &mut String, c: char)
    ensures
        final(s)@ == old(s)@.push(c),
{
    s.push(c)
}

/// Whether a byte stands for itself in a query value: printable ASCII other
/// than space, `"`, `#`, `<` and `>`. Control characters, those five and every
/// byte of a non-ASCII character are percent-encoded.
pub open spec fn query_keeps(b: u8) -> bool {
    0x20 < b && b < 0x7F && b != 0x22 && b != 0x23 && b != 0x3C && b != 0x3E
}

pub open spec fn query_piece(b: u8) -> Seq<char> {
    if query_keeps(b) {
        seq![b as char]
    } else {
        percent_text(b)
    }
}

/// The query-value encoding of UTF-8 bytes, byte by byte.
pub open spec fn query_encoded(bytes: Seq<u8>) -> Seq<char>
    decreases bytes.len(),
{
    if bytes.len() == 0 {
        seq![]
    } else {
        query_encoded(bytes.drop_last()) + query_piece(bytes.last())
    }
}

/// Percent-encodes a text for use as a query value.
pub fn url_encode_query(s: &str) -> (r: String)
    ensures
        r@ == query_encoded(encode_utf8(s@)),
{
    let bytes = s.as_bytes();
    let mut out = String::new();
    let mut i: usize = 0;
    while i < bytes.len()
        invariant
            i <= bytes@.len(),
            bytes@ == encode_utf8(s@),
            out@ == query_encoded(bytes@.subrange(0, i as int)),
        decreases bytes@.len() - i,
    {
        let b = bytes[i];
        if 0x20 < b && b < 0x7F && b != 0x22 && b != 0x23 && b != 0x3C && b != 0x3E {
            push_char(&mut out, b as char);
        } else {
            out.append(percent_byte(b));
        }
        assert(bytes@.subrange(0, i + 1).drop_last() =~= bytes@.subrange(0, i as int));
        i += 1;
    }
    assert(bytes@.subrange(0, bytes@.len() as int) =~= bytes@);
    out
}

/// A script's configuration: its display name and description, and the host
/// address it connects to.
pub struct Script {
    pub name: String,
    pub description: String,
    pub server: String,
}

/// The host address that a script connects to unless told otherwise.
pub open spec fn default_server() -> Seq<char> {
    "ws://localhost:37265/"@
}

impl Default for Script {
    fn default() -> (r: Script)
        ensures
            r.name@ == "example"@,
            r.description@ == ""@,
            r.server@ == default_server(),
    {
        Script {
            name: String::from_str("example"),
            description: String::from_str(""),
            server: String::from_str("ws://localhost:37265/"),
        }
    }
}

impl Script {
    /// A script with the given name and the default description and server.
    pub fn new(name: &str) -> (r: Script)
        ensures
            r.name@ == name@,
            r.description@ == ""@,
            r.server@ == default_server(),
    {
        Script {
            name: String::from_str(name),
            description: String::from_str(""),
            server: String::from_str("ws://localhost:37265/"),
        }
    }

    pub fn name(self, name: &str) -> (r: Script)
        ensures
            r.name@ == name@,
            r.description == self.description,
            r.server == self.server,
    {
        Script { name: String::from_str(name), ..self }
    }

    pub fn description(self, description: &str) -> (r: Script)
        ensures
            r.description@ == description@,
            r.name == self.name,
            r.server == self.server,
    {
        Script { description: String::from_str(description), ..self }
    }

    pub fn server(self, server: &str) -> (r: Script)
        ensures
            r.server@ == server@,
            r.name == self.name,
            r.description == self.description,
    {
        Script { server: String::from_str(server), ..self }
    }

    /// The address to connect to: the server, with the name and description
    /// as query values.
    pub fn connect_url(&self) -> (r: String)
        ensures
            r@ == self.server@ + "?name="@ + query_encoded(encode_utf8(self.name@))
                + "&description="@ + query_encoded(encode_utf8(self.description@)),
    {
        let mut r = String::from_str(self.server.as_str());
        r.append("?name=");
        r.append(url_encode_query(self.name.as_str()).as_str());
        r.append("&description=");
        r.append(url_encode_query(self.description.as_str()).as_str());
        r
    }
}

} // verus!
