//! The two messages exchanged with the host: the envelope that carries a request
//! and the envelope result that carries the answer.

use crate::hexcode::{
    decode, encode, hex_error_text, hex_value, is_hex, law_hex_round_trip, lemma_lower_hex_bytes,
    lower_digit, lower_hex, nibble_at,
};
use crate::text::{lossy_text, read_lossy, read_strict, utf8_error_text};
use vstd::prelude::*;
use vstd::slice::*;
use vstd::string::*;
use vstd::utf8::*;

verus! {

/// The tag that marks an envelope as a request of this relay.
pub const DOMAIN: u16 = 0x2b;

/// A request as the host takes it: a domain tag and the payload spelled in
/// hexadecimal behind the marker `0x`.
#[derive(Debug, Clone, PartialEq, Eq)]
pub struct GIORequest {
    pub domain: u16,
    pub id: String,
}

/// The host's answer: a status code and a payload spelled in hexadecimal, with or
/// without the marker `0x` in front.
#[derive(Debug, Clone, PartialEq, Eq)]
pub struct GIOResponse {
    pub response_code: u16,
    pub response: String,
}

/// Why the payload of an envelope result could not be read, with the decoder's
/// own message.
#[derive(Debug, Clone, PartialEq, Eq)]
pub enum DecodeError {
    /// The digits do not spell bytes.
    Hex(String),
    /// The bytes they spell are not UTF-8.
    Utf8(String),
}

/// What a `GIORequest` stands for.
pub struct Envelope {
    pub domain: u16,
    pub id: Seq<char>,
}

/// What a `GIOResponse` stands for.
pub struct EnvelopeResult {
    pub response_code: u16,
    pub response: Seq<char>,
}

/// What a `DecodeError` stands for.
pub enum DecodeFault {
    Hex(Seq<char>),
    Utf8(Seq<char>),
}

impl View for GIORequest {
    type V = Envelope;

    open spec fn view(&self) -> Envelope {
        Envelope { domain: self.domain, id: self.id@ }
    }
}

impl View for GIOResponse {
    type V = EnvelopeResult;

    open spec fn view(&self) -> EnvelopeResult {
        EnvelopeResult { response_code: self.response_code, response: self.response@ }
    }
}

impl View for DecodeError {
    type V = DecodeFault;

    open spec fn view(&self) -> DecodeFault {
        match self {
            DecodeError::Hex(message) => DecodeFault::Hex(message@),
            DecodeError::Utf8(message) => DecodeFault::Utf8(message@),
        }
    }
}

/// `digits` behind the marker `0x`.
pub open spec fn marked(digits: Seq<char>) -> Seq<char> {
    seq!['0', 'x'] + digits
}

/// Whether `c` is a lower-case hexadecimal digit.
pub open spec fn is_lower_hex_char(c: char) -> bool {
    ('0' <= c <= '9') || ('a' <= c <= 'f')
}

/// The digits of a response: what follows one leading marker `0x` if there is
/// one, else the whole of it.
pub open spec fn hex_part(response: Seq<u8>) -> Seq<u8> {
    if response.len() >= 2 && response[0] == 0x30 && response[1] == 0x78 {
        response.skip(2)
    } else {
        response
    }
}

/// The text that a response carries, or why it carries none: the digits must
/// spell bytes, and the bytes must be UTF-8.
pub open spec fn unwrapped(response: Seq<char>) -> Result<Seq<char>, DecodeFault> {
    let digits = hex_part(encode_utf8(response));
    if !is_hex(digits) {
        Err(DecodeFault::Hex(hex_error_text(digits)))
    } else if !valid_utf8(hex_value(digits)) {
        Err(DecodeFault::Utf8(utf8_error_text(hex_value(digits))))
    } else {
        Ok(decode_utf8(hex_value(digits)))
    }
}

impl Envelope {
    /// The envelope that carries `body`: the relay's domain tag, and for `id` the
    /// marker followed by the hexadecimal spelling of the body read as text.
    pub open spec fn carrying(body: Seq<u8>) -> Envelope {
        Envelope { domain: DOMAIN, id: marked(lower_hex(encode_utf8(lossy_text(body)))) }
    }

    /// The invariant of an envelope made here: `id` is the marker followed by an
    /// even number of lower-case hexadecimal digits.
    pub open spec fn well_formed(self) -> bool {
        &&& self.id.len() >= 2
        &&& self.id.len() % 2 == 0
        &&& self.id[0] == '0'
        &&& self.id[1] == 'x'
        &&& forall|i: int| 2 <= i < self.id.len() ==> is_lower_hex_char(#[trigger] self.id[i])
    }
}

/// Whatever the bytes, their marked hexadecimal spelling is a well-formed `id`.
pub proof fn lemma_marked_hex_well_formed(domain: u16, bytes: Seq<u8>)
    ensures
        (Envelope { domain, id: marked(lower_hex(bytes)) }).well_formed(),
{
    let id = marked(lower_hex(bytes));
    assert forall|i: int| 2 <= i < id.len() implies is_lower_hex_char(#[trigger] id[i]) by {
        let n = nibble_at(bytes, i - 2);
        assert(0 <= n < 16);
        assert(id[i] == lower_hex(bytes)[i - 2]);
    }
}

impl GIORequest {
    /// Wraps a request body for the host. Any bytes are taken: what is not UTF-8 is
    /// first read leniently as text.
    pub fn wrap(body: &[u8]) -> (request: GIORequest)
        ensures
            request@ == Envelope::carrying(body@),
            request@.well_formed(),
            valid_utf8(body@) ==> request@.id == marked(lower_hex(body@)),
    {
        let text = read_lossy(body);
        let digits = encode(text.as_str().as_bytes());
        let mut id = String::from_str("0x");
        id.append(digits.as_str());
        proof {
            reveal_strlit("0x");
            assert("0x"@ =~= seq!['0', 'x']);
            lemma_marked_hex_well_formed(DOMAIN, encode_utf8(text@));
            if valid_utf8(body@) {
                decode_utf8_encode_utf8(body@);
            }
        }
        GIORequest { domain: DOMAIN, id }
    }
}

impl GIOResponse {
    /// Reads the text that the response carries: strips one leading `0x`, reads the
    /// rest as hexadecimal digits and the bytes they spell as UTF-8.
    pub fn payload(&self) -> (outcome: Result<String, DecodeError>)
        ensures
            match outcome {
                Ok(text) => unwrapped(self@.response) == Ok::<Seq<char>, DecodeFault>(text@),
                Err(fault) => unwrapped(self@.response) == Err::<Seq<char>, DecodeFault>(fault@),
            },
    {
        let raw = self.response.as_str().as_bytes();
        let digits = if raw.len() >= 2 && raw[0] == 0x30 && raw[1] == 0x78 {
            slice_subrange(raw, 2, raw.len())
        } else {
            raw
        };
        assert(digits@ == hex_part(encode_utf8(self.response@)));
        match decode(digits) {
            Err(message) => Err(DecodeError::Hex(message)),
            Ok(bytes) => match read_strict(bytes) {
                Err(message) => Err(DecodeError::Utf8(message)),
                Ok(text) => Ok(text),
            },
        }
    }
}

/// An envelope's `id` that comes back as a response, with its marker or without,
/// unwraps to the text it was made from: hexadecimal spelling loses nothing of a
/// UTF-8 body.
pub proof fn law_payload_round_trip(text: Seq<char>)
    ensures
        unwrapped(marked(lower_hex(encode_utf8(text)))) == Ok::<Seq<char>, DecodeFault>(text),
        unwrapped(lower_hex(encode_utf8(text))) == Ok::<Seq<char>, DecodeFault>(text),
{
    let body = encode_utf8(text);
    let bare = lower_hex(body);
    let with_marker = marked(bare);
    lemma_lower_hex_bytes(body);
    law_hex_round_trip(body);
    encode_utf8_valid_utf8(text);
    encode_utf8_decode_utf8(text);

    assert(is_ascii_chars(with_marker)) by {
        assert forall|i: int| 0 <= i < with_marker.len() implies '\0' <= #[trigger] with_marker[i]
            <= '\u{7f}' by {
            if i >= 2 {
                assert(with_marker[i] == bare[i - 2]);
            }
        }
    }
    is_ascii_chars_encode_utf8(with_marker);
    is_ascii_chars_encode_utf8(bare);
    let wire = encode_utf8(with_marker);
    assert(wire[0] == with_marker[0] as u8);
    assert(wire[1] == with_marker[1] as u8);
    assert(hex_part(wire) =~= encode_utf8(bare)) by {
        assert forall|i: int| 0 <= i < encode_utf8(bare).len() implies wire.skip(2)[i]
            == encode_utf8(bare)[i] by {
            assert(wire[i + 2] == with_marker[i + 2] as u8);
            assert(with_marker[i + 2] == bare[i]);
            assert(encode_utf8(bare)[i] == bare[i] as u8);
        }
    }
    assert(hex_part(encode_utf8(bare)) == encode_utf8(bare)) by {
        if encode_utf8(bare).len() >= 2 {
            assert(encode_utf8(bare)[1] == lower_digit(nibble_at(body, 1)));
            assert(0 <= nibble_at(body, 1) < 16);
        }
    }
}

} // verus!
