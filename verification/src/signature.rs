//! The fixed-width signature value and its base58 text form.

use crate::base58::{
    base58_round_trips, base58_text, base58_value, decode_base58, encode_base58, is_base58_text,
};
use vstd::prelude::*;
use vstd::std_specs::cmp::PartialEqSpecImpl;

verus! {

/// Why a text was not accepted as a signature.
#[derive(Debug, Clone, Copy, PartialEq, Eq, Structural)]
pub enum DecodeError {
    /// The text holds a character outside the base58 alphabet.
    InvalidEncoding,
    /// The text is base58 but does not stand for exactly 64 bytes.
    InvalidLength,
}

/// A 64-byte signature. Its text form is the base58 encoding of the bytes.
pub struct SerializedSignature {
    inner: [u8; 64],
}

impl View for SerializedSignature {
    type V = Seq<u8>;

    closed spec fn view(&self) -> Seq<u8> {
        self.inner@
    }
}

impl Clone for SerializedSignature {
    fn clone(&self) -> (copy: Self)
        ensures
            copy == *self,
    {
        SerializedSignature { inner: self.inner }
    }
}

impl PartialEq for SerializedSignature {
    /// Byte-wise equality.
    fn eq(&self, other: &Self) -> (equal: bool) {
        let mut i: usize = 0;
        while i < 64
            invariant
                i <= 64,
                forall|j: int| 0 <= j < i ==> self.inner@[j] == other.inner@[j],
            decreases 64 - i,
        {
            if self.inner[i] != other.inner[i] {
                return false;
            }
            i += 1;
        }
        assert(self.inner@ =~= other.inner@);
        true
    }
}

impl Eq for SerializedSignature {

}

impl PartialEqSpecImpl for SerializedSignature {
    open spec fn obeys_eq_spec() -> bool {
        true
    }

    open spec fn eq_spec(&self, other: &Self) -> bool {
        self@ == other@
    }
}

impl SerializedSignature {
    /// What decoding `text` gives: the 64 bytes it stands for, or the reason
    /// it is rejected. Nothing is trimmed, padded or truncated.
    pub open spec fn spec_decode(text: Seq<char>) -> Result<Seq<u8>, DecodeError> {
        if !is_base58_text(text) {
            Err(DecodeError::InvalidEncoding)
        } else if base58_value(text).len() != 64 {
            Err(DecodeError::InvalidLength)
        } else {
            Ok(base58_value(text))
        }
    }

    /// Every signature has exactly 64 bytes.
    pub proof fn lemma_len(self)
        ensures
            self@.len() == 64,
    {
    }

    /// Signatures are values: two with the same bytes are the same signature.
    pub proof fn lemma_equal_by_bytes(self, other: Self)
        requires
            self@ == other@,
        ensures
            self == other,
    {
        assert(self.inner =~= other.inner);
    }

    /// Decoding inverts encoding: where the text written for a signature
    /// reads back as its bytes, decoding that text gives the signature.
    pub proof fn lemma_decode_inverts_encode(self)
        requires
            base58_round_trips(self@),
        ensures
            Self::spec_decode(base58_text(self@)) == Ok::<Seq<u8>, DecodeError>(self@),
    {
    }

    /// Wraps 64 raw bytes.
    pub fn new(bytes: [u8; 64]) -> (sig: Self)
        ensures
            sig@ == bytes@,
    {
        SerializedSignature { inner: bytes }
    }

    /// The raw bytes.
    pub fn to_bytes(&self) -> (bytes: [u8; 64])
        ensures
            bytes@ == self@,
    {
        self.inner
    }

    /// The base58 text form. Decoding it gives this signature back.
    pub fn encode(&self) -> (text: String)
        ensures
            text@ == base58_text(self@),
            base58_round_trips(self@),
            Self::spec_decode(text@) == Ok::<Seq<u8>, DecodeError>(self@),
    {
        let text = encode_base58(self.inner.as_slice());
        proof {
            self.lemma_decode_inverts_encode();
        }
        text
    }

    /// Reads a signature from its base58 text form.
    pub fn decode(text: &str) -> (decoded: Result<SerializedSignature, DecodeError>)
        ensures
            match decoded {
                Ok(sig) => Self::spec_decode(text@) == Ok::<Seq<u8>, DecodeError>(sig@),
                Err(e) => Self::spec_decode(text@) == Err::<Seq<u8>, DecodeError>(e),
            },
            is_base58_text(text@) && base58_value(text@).len() != 64 ==> decoded == Err::<
                SerializedSignature,
                DecodeError,
            >(DecodeError::InvalidLength),
    {
        match decode_base58(text) {
            Err(_) => Err(DecodeError::InvalidEncoding),
            Ok(bytes) => {
                if bytes.len() != 64 {
                    return Err(DecodeError::InvalidLength);
                }
                let mut inner = [0u8; 64];
                let mut i: usize = 0;
                while i < 64
                    invariant
                        i <= 64,
                        bytes@.len() == 64,
                        forall|j: int| 0 <= j < i ==> inner@[j] == bytes@[j],
                    decreases 64 - i,
                {
                    inner[i] = bytes[i];
                    i += 1;
                }
                assert(inner@ =~= bytes@);
                Ok(SerializedSignature { inner })
            },
        }
    }
}

} // verus!
