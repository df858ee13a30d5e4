//! Endpoint identities.

use vstd::prelude::*;

use crate::digest::{hex_digit, hex_encode, hex_text};
use crate::sort::{byte_key, bytes_at_most, SortKey};

verus! {

/// The public key that names an endpoint.
#[derive(Clone, Copy, Debug, PartialEq, Eq, PartialOrd, Ord, Hash)]
pub struct EndpointId {
    pub bytes: [u8; 32],
}

impl View for EndpointId {
    type V = Seq<u8>;

    open spec fn view(&self) -> Seq<u8> {
        self.bytes@
    }
}

/// Whether 32 bytes are an Ed25519 public key, as
/// `iroh_base::PublicKey::from_bytes` decides.
pub uninterp spec fn is_endpoint_key(bytes: Seq<u8>) -> bool;

/// Asks `iroh_base::PublicKey::from_bytes`, which accepts exactly the byte
/// strings that decompress to a curve point; no clause says which do.
#[verifier::external_body]
fn accepts_endpoint_key(bytes: &[u8; 32]) -> (r: bool)
    ensures
        r == is_endpoint_key(bytes@),
{
    iroh_base::PublicKey::from_bytes(bytes).is_ok()
}

/// The key that a text stands for in hexadecimal or base32, as the `FromStr` of
/// `iroh_base::PublicKey` reads it.
pub uninterp spec fn parsed_endpoint(text: Seq<char>) -> Option<Seq<u8>>;

/// Whether a text is the lower-case hexadecimal of a public key.
pub open spec fn is_key_text(text: Seq<char>) -> bool {
    exists|key: Seq<u8>|
        key.len() == 32 && is_endpoint_key(key) && text == #[trigger] hex_text(key)
}

/// Parses with the `FromStr` of `iroh_base::PublicKey`. It reads 64 bytes of
/// text as lower-case hexadecimal and any other text as base32, and hands what
/// it read to `PublicKey::from_bytes`. So the hexadecimal text of a key reads
/// back as that key; what else it accepts is left to the name.
#[verifier::external_body]
fn parse_endpoint(text: &str) -> (r: Option<EndpointId>)
    ensures
        r is Some == parsed_endpoint(text@) is Some,
        r matches Some(id) ==> parsed_endpoint(text@) == Some(id@) && is_endpoint_key(id@),
        r is Some || !is_key_text(text@),
        r matches Some(id) ==> (is_key_text(text@) ==> text@ == hex_text(id@)),
{
    match text.parse::<iroh_base::PublicKey>() {
        Ok(key) => Some(EndpointId { bytes: *key.as_bytes() }),
        Err(_) => None,
    }
}

/// Why bytes or text name no endpoint.
#[derive(Clone, Copy, Debug, PartialEq, Eq, Structural)]
pub enum EndpointIdErrorV2 {
    /// Not a public key.
    InvalidKey,
    /// Not the text of a public key.
    InvalidText,
}

impl EndpointId {
    /// The endpoint of a public key.
    pub fn from_bytes(bytes: &[u8; 32]) -> (r: Result<EndpointId, EndpointIdErrorV2>)
        ensures
            match r {
                Ok(id) => is_endpoint_key(bytes@) && id@ == bytes@,
                Err(error) => !is_endpoint_key(bytes@) && error == EndpointIdErrorV2::InvalidKey,
            },
    {
        if accepts_endpoint_key(bytes) {
            Ok(EndpointId { bytes: *bytes })
        } else {
            Err(EndpointIdErrorV2::InvalidKey)
        }
    }

    /// The endpoint that a text names.
    pub fn parse(text: &str) -> (r: Result<EndpointId, EndpointIdErrorV2>)
        ensures
            match r {
                Ok(id) => parsed_endpoint(text@) == Some(id@) && is_endpoint_key(id@),
                Err(error) => parsed_endpoint(text@) is None && error
                    == EndpointIdErrorV2::InvalidText,
            },
            is_key_text(text@) ==> (r matches Ok(id) && hex_text(id@) == text@),
    {
        match parse_endpoint(text) {
            Some(id) => Ok(id),
            None => Err(EndpointIdErrorV2::InvalidText),
        }
    }

    /// The endpoint's name: its key in lower-case hexadecimal.
    pub fn to_text(&self) -> (r: String)
        ensures
            r@ == hex_text(self@),
    {
        hex_encode(self.bytes.as_slice())
    }

    /// Whether two identities are the same.
    pub fn same(&self, other: &EndpointId) -> (r: bool)
        ensures
            r == (self@ == other@),
    {
        let mut index: usize = 0;
        while index < 32
            invariant
                index <= 32,
                forall|i: int| 0 <= i < index ==> self@[i] == other@[i],
            decreases 32 - index,
        {
            if self.bytes[index] != other.bytes[index] {
                assert(self@[index as int] != other@[index as int]);
                return false;
            }
            index = index + 1;
        }
        assert(self@ =~= other@);
        true
    }
}

impl SortKey for EndpointId {
    open spec fn key(&self) -> Seq<int> {
        byte_key(self@)
    }

    fn at_most(&self, other: &Self) -> (r: bool) {
        bytes_at_most(self.bytes.as_slice(), other.bytes.as_slice())
    }
}

/// Different hexadecimal digits look different.
proof fn lemma_hex_digit_is_injective(a: int, b: int)
    requires
        0 <= a < 16,
        0 <= b < 16,
        hex_digit(a) == hex_digit(b),
    ensures
        a == b,
{
    assert(hex_digit(a) as int == if a < 10 {
        48 + a
    } else {
        87 + a
    });
    assert(hex_digit(b) as int == if b < 10 {
        48 + b
    } else {
        87 + b
    });
}

/// The hexadecimal text of a key names no other key.
pub proof fn lemma_key_text_is_injective(a: Seq<u8>, b: Seq<u8>)
    requires
        hex_text(a) == hex_text(b),
    ensures
        a == b,
{
    assert(hex_text(a).len() == a.len() * 2);
    assert(hex_text(b).len() == b.len() * 2);
    assert(a.len() == b.len());
    assert forall|i: int| 0 <= i < a.len() implies a[i] == b[i] by {
        assert(hex_text(a)[2 * i] == hex_text(b)[2 * i]);
        assert(hex_text(a)[2 * i + 1] == hex_text(b)[2 * i + 1]);
        assert(hex_text(a)[2 * i] == hex_digit(a[i] as int / 16));
        assert(hex_text(b)[2 * i] == hex_digit(b[i] as int / 16));
        assert(hex_text(a)[2 * i + 1] == hex_digit(a[i] as int % 16));
        assert(hex_text(b)[2 * i + 1] == hex_digit(b[i] as int % 16));
        lemma_hex_digit_is_injective(a[i] as int / 16, b[i] as int / 16);
        lemma_hex_digit_is_injective(a[i] as int % 16, b[i] as int % 16);
    }
    assert(a =~= b);
}

/// Identities with one place in the order are the same.
pub proof fn lemma_identity_order_is_injective(a: Seq<u8>, b: Seq<u8>)
    requires
        byte_key(a) == byte_key(b),
    ensures
        a == b,
{
    assert(a.len() == byte_key(a).len());
    assert(b.len() == byte_key(b).len());
    assert forall|i: int| 0 <= i < a.len() implies a[i] == b[i] by {
        assert(byte_key(a)[i] == a[i] as int);
        assert(byte_key(b)[i] == b[i] as int);
    }
    assert(a =~= b);
}

} // verus!
