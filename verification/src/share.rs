//! One share of the wrap key: a fixed-length byte string that a custodian can
//! copy by hand as hexadecimal text.

use vstd::prelude::*;
use crate::hexcodec::{hex_bytes, hex_decode, hex_encode, hex_text, is_hex_text, hex_round_trip};
use crate::policy::{SHARE_HEX_LEN, SHARE_LEN};
use crate::secret::zeroize_bytes;

verus! {

/// Why a byte string or a text is no share.
#[derive(Clone, Copy, Debug, PartialEq, Eq, Structural)]
pub enum ShareFormatError {
    /// The text is not hexadecimal.
    InvalidHex,
    /// The bytes are not exactly as many as a share holds.
    InvalidLength,
}

/// A share: an identifier byte followed by the value of the share.
#[derive(Debug, PartialEq, Eq)]
pub struct Share {
    bytes: Vec<u8>,
}

impl View for Share {
    type V = Seq<u8>;

    closed spec fn view(&self) -> Seq<u8> {
        self.bytes@
    }
}

/// What `Share::try_from_bytes` returns for a byte string.
pub open spec fn share_of_bytes(bytes: Seq<u8>) -> Result<Seq<u8>, ShareFormatError> {
    if bytes.len() == SHARE_LEN {
        Ok(bytes)
    } else {
        Err(ShareFormatError::InvalidLength)
    }
}

/// What `Share::from_hex` returns for a text.
pub open spec fn share_of_hex(text: Seq<char>) -> Result<Seq<u8>, ShareFormatError> {
    if is_hex_text(text) {
        share_of_bytes(hex_bytes(text))
    } else {
        Err(ShareFormatError::InvalidHex)
    }
}

/// The view of a result that holds a share.
pub open spec fn share_result_view(r: Result<Share, ShareFormatError>) -> Result<
    Seq<u8>,
    ShareFormatError,
> {
    match r {
        Ok(s) => Ok(s@),
        Err(e) => Err(e),
    }
}

impl Share {
    #[verifier::type_invariant]
    spec fn well_formed(self) -> bool {
        self.bytes@.len() == SHARE_LEN
    }

    /// Every share has the fixed length.
    pub fn len(&self) -> (n: usize)
        ensures
            n == SHARE_LEN,
            self@.len() == SHARE_LEN,
    {
        proof {
            use_type_invariant(self);
        }
        self.bytes.len()
    }

    /// Takes a byte string as a share if it has the length of one.
    pub fn try_from_bytes(bytes: &[u8]) -> (r: Result<Share, ShareFormatError>)
        ensures
            share_result_view(r) == share_of_bytes(bytes@),
    {
        if bytes.len() != SHARE_LEN {
            return Err(ShareFormatError::InvalidLength);
        }
        let mut copy: Vec<u8> = Vec::new();
        let mut i: usize = 0;
        while i < bytes.len()
            invariant
                i <= bytes.len(),
                copy@ == bytes@.take(i as int),
            decreases bytes.len() - i,
        {
            copy.push(bytes[i]);
            assert(bytes@.take(i + 1) =~= bytes@.take(i as int).push(bytes@[i as int]));
            i = i + 1;
        }
        assert(bytes@.take(bytes.len() as int) =~= bytes@);
        Ok(Share { bytes: copy })
    }

    /// Reads a share from its hexadecimal text.
    pub fn from_hex(text: &str) -> (r: Result<Share, ShareFormatError>)
        ensures
            share_result_view(r) == share_of_hex(text@),
    {
        match hex_decode(text) {
            Some(bytes) => Share::try_from_bytes(bytes.as_slice()),
            None => Err(ShareFormatError::InvalidHex),
        }
    }

    /// The share as lower-case hexadecimal text.
    pub fn to_hex(&self) -> (r: String)
        ensures
            r@ == hex_text(self@),
            r@.len() == SHARE_HEX_LEN,
            share_of_hex(r@) == Ok::<Seq<u8>, ShareFormatError>(self@),
    {
        proof {
            use_type_invariant(self);
            hex_round_trip(self@);
        }
        hex_encode(self.bytes.as_slice())
    }

    /// The identifier of the share: its first byte.
    pub fn identifier(&self) -> (id: u8)
        ensures
            self@.len() == SHARE_LEN,
            id == self@[0],
    {
        proof {
            use_type_invariant(self);
        }
        self.bytes[0]
    }

    /// The bytes of the share.
    pub fn as_bytes(&self) -> (r: &Vec<u8>)
        ensures
            r@ == self@,
            r@.len() == SHARE_LEN,
    {
        proof {
            use_type_invariant(self);
        }
        &self.bytes
    }

    /// Gives up the share and erases its bytes from memory.
    pub fn erase(self) {
        let Share { bytes } = self;
        let mut bytes = bytes;
        zeroize_bytes(&mut bytes);
    }

    /// A second copy of the share.
    pub fn duplicate(&self) -> (r: Share)
        ensures
            r@ == self@,
    {
        proof {
            use_type_invariant(self);
        }
        Share { bytes: self.bytes.clone() }
    }
}

} // verus!
