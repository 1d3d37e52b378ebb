//! DID documents of the method `vajra`.
//!
//! Hexadecimal text is written and read by the crate `hex`, behind two
//! wrappers whose contracts are believed, not proved. They state what
//! `hex::encode` and `hex::decode` return over the specification functions
//! [`hex_encoded`], [`is_hex`] and [`hex_decoded`].

use vstd::prelude::*;

verus! {

/// The text that every DID of this method starts with: `did:vajra:`.
pub open spec fn did_prefix() -> Seq<char> {
    seq!['d', 'i', 'd', ':', 'v', 'a', 'j', 'r', 'a', ':']
}

/// The lowercase hexadecimal digit for a value below 16.
pub open spec fn hex_digit(value: u8) -> char {
    if value < 10 {
        ((48 + value) as u8) as char
    } else {
        ((87 + value) as u8) as char
    }
}

/// The value of a hexadecimal digit, in either case.
pub open spec fn hex_value(digit: char) -> Option<u8> {
    let code = digit as u32;
    if 48 <= code <= 57 {
        Some((code - 48) as u8)
    } else if 97 <= code <= 102 {
        Some((code - 87) as u8)
    } else if 65 <= code <= 70 {
        Some((code - 55) as u8)
    } else {
        None
    }
}

/// Bytes written as lowercase hexadecimal, two digits for each byte, the
/// high half first.
pub open spec fn hex_encoded(data: Seq<u8>) -> Seq<char> {
    Seq::new(
        2 * data.len(),
        |i: int|
            if i % 2 == 0 {
                hex_digit(data[i / 2] / 16)
            } else {
                hex_digit(data[i / 2] % 16)
            },
    )
}

/// Whether a text is hexadecimal: an even number of hexadecimal digits.
pub open spec fn is_hex(text: Seq<char>) -> bool {
    &&& text.len() % 2 == 0
    &&& forall|i: int| 0 <= i < text.len() ==> hex_value(#[trigger] text[i]) is Some
}

/// The bytes that a hexadecimal text stands for.
pub open spec fn hex_decoded(text: Seq<char>) -> Seq<u8> {
    Seq::new(
        text.len() / 2,
        |i: int| (hex_value(text[2 * i])->0 * 16 + hex_value(text[2 * i + 1])->0) as u8,
    )
}

/// The DID of a public key: the prefix followed by the key in hexadecimal.
pub open spec fn spec_did(public_key: Seq<u8>) -> Seq<char> {
    did_prefix() + hex_encoded(public_key)
}

/// The public key that a DID names, if it is a DID of this method.
pub open spec fn spec_resolve(did: Seq<char>) -> Option<Seq<u8>> {
    if did.len() >= 10 && did.take(10) == did_prefix() && is_hex(did.skip(10)) {
        Some(hex_decoded(did.skip(10)))
    } else {
        None
    }
}

/// Decoding inverts encoding.
pub proof fn lemma_hex_round_trip(data: Seq<u8>)
    ensures
        is_hex(hex_encoded(data)),
        hex_decoded(hex_encoded(data)) == data,
{
    let text = hex_encoded(data);
    assert forall|i: int| 0 <= i < text.len() implies hex_value(#[trigger] text[i]) is Some by {
        lemma_hex_digit_value((data[i / 2] / 16) as u8);
        lemma_hex_digit_value((data[i / 2] % 16) as u8);
    }
    assert forall|i: int| 0 <= i < data.len() implies hex_decoded(text)[i] == data[i] by {
        lemma_hex_digit_value((data[i] / 16) as u8);
        lemma_hex_digit_value((data[i] % 16) as u8);
        assert(text[2 * i] == hex_digit(data[i] / 16));
        assert(text[2 * i + 1] == hex_digit(data[i] % 16));
    }
    assert(hex_decoded(text) =~= data);
}

/// A digit has the value it was made from.
pub proof fn lemma_hex_digit_value(value: u8)
    requires
        value < 16,
    ensures
        hex_value(hex_digit(value)) == Some(value),
{
    let code = if value < 10 {
        (48 + value) as u8
    } else {
        (87 + value) as u8
    };
    assert((code as char) as u32 == code as u32) by {
        vstd::utf8::char_u32_cast(code as char, code as u32);
    }
}

/// Resolution inverts the making of a DID: the DID of a public key
/// resolves to that key.
pub proof fn lemma_resolve_inverts_did(public_key: Seq<u8>)
    ensures
        spec_resolve(spec_did(public_key)) == Some(public_key),
{
    let did = spec_did(public_key);
    assert(did.take(10) =~= did_prefix());
    assert(did.skip(10) =~= hex_encoded(public_key));
    lemma_hex_round_trip(public_key);
}

/// Calls `hex::encode`. Trusted: the result is the lowercase hexadecimal
/// text of the bytes, two digits each.
#[verifier::external_body]
fn hex_encode(data: &[u8]) -> (text: String)
    ensures
        text@ == hex_encoded(data@),
{
    hex::encode(data)
}

/// Calls `hex::decode`. Trusted: it succeeds on an even number of
/// hexadecimal digits of either case, with the bytes they stand for, and
/// fails on any other text.
#[verifier::external_body]
fn hex_decode(text: &str) -> (data: Option<Vec<u8>>)
    ensures
        match data {
            Some(bytes) => is_hex(text@) && bytes@ == hex_decoded(text@),
            None => !is_hex(text@),
        },
{
    hex::decode(text).ok()
}

#[derive(Debug, Clone, PartialEq)]
pub struct DIDDocument {
    pub id: String,
    pub public_key: Vec<u8>,
    pub controller: Option<String>,
}

impl DIDDocument {
    /// The document of a public key, without controller. Its id is
    /// `did:vajra:` followed by the key in hexadecimal.
    pub fn new(public_key: Vec<u8>) -> (doc: Self)
        ensures
            doc.id@ == spec_did(public_key@),
            doc.public_key == public_key,
            doc.controller is None,
    {
        let mut id = "did:vajra:".to_string();
        let encoded = hex_encode(public_key.as_slice());
        id.append(encoded.as_str());
        proof {
            reveal_strlit("did:vajra:");
            assert("did:vajra:"@ =~= did_prefix());
        }
        Self { id, public_key, controller: None }
    }

    /// The document that a DID names: `Some` exactly for `did:vajra:`
    /// followed by a public key in hexadecimal, with the document of that
    /// key.
    pub fn resolve(did: &str) -> (doc: Option<Self>)
        ensures
            match doc {
                Some(d) => spec_resolve(did@) == Some(d.public_key@) && d.id@ == spec_did(
                    d.public_key@,
                ) && d.controller is None,
                None => spec_resolve(did@) is None,
            },
    {
        let prefix = "did:vajra:";
        proof {
            reveal_strlit("did:vajra:");
            assert(prefix@ =~= did_prefix());
        }
        let length = did.unicode_len();
        if length < 10 {
            return None;
        }
        let mut i: usize = 0;
        while i < 10
            invariant
                length == did@.len(),
                length >= 10,
                i <= 10,
                prefix@ == did_prefix(),
                forall|k: int| 0 <= k < i ==> did@[k] == did_prefix()[k],
            decreases 10 - i,
        {
            if did.get_char(i) != prefix.get_char(i) {
                assert(did@.take(10)[i as int] != did_prefix()[i as int]);
                return None;
            }
            i += 1;
        }
        assert(did@.take(10) =~= did_prefix());
        let rest = did.substring_char(10, length);
        assert(rest@ =~= did@.skip(10));
        match hex_decode(rest) {
            Some(public_key) => Some(Self::new(public_key)),
            None => None,
        }
    }

    /// The document written as text: its id.
    pub fn to_string(&self) -> (text: String)
        ensures
            text@ == self.id@,
    {
        self.id.clone()
    }
}

} // verus!
