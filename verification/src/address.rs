//! Account addresses: 32 bytes, written in base58 on the wire.

use vstd::prelude::*;
use crate::encoding::{base58_decode, base58_decoded, base58_encode, base58_text};
use crate::error::{RequestError, RequestErrorView};

verus! {

/// The number of bytes of an address.
pub const PUBKEY_BYTES: usize = 32;

/// The address of an account or a program.
#[derive(Clone, Copy, Debug, PartialEq, Eq, Hash)]
pub struct Pubkey {
    pub bytes: [u8; 32],
}

impl View for Pubkey {
    type V = Seq<u8>;

    open spec fn view(&self) -> Seq<u8> {
        self.bytes@
    }
}

/// The address that a wire text stands for: what it decodes to in base58,
/// where that is 32 bytes.
pub open spec fn parsed_address(text: Seq<char>) -> Option<Seq<u8>> {
    match base58_decoded(text) {
        Some(bytes) => if bytes.len() == PUBKEY_BYTES {
            Some(bytes)
        } else {
            None
        },
        None => None,
    }
}

/// The text of the error for a wire text that is no address.
pub open spec fn malformed_address(text: Seq<char>) -> Seq<char> {
    "malformed address: "@ + text
}

impl Pubkey {
    /// The address made of `bytes`, where there are 32 of them.
    pub fn from_bytes(bytes: &[u8]) -> (address: Option<Pubkey>)
        ensures
            address is Some <==> bytes@.len() == PUBKEY_BYTES,
            address matches Some(a) ==> a@ == bytes@,
    {
        if bytes.len() != PUBKEY_BYTES {
            return None;
        }
        let mut array = [0u8;32];
        let mut i: usize = 0;
        while i < PUBKEY_BYTES
            invariant
                i <= PUBKEY_BYTES,
                bytes@.len() == PUBKEY_BYTES,
                forall|j: int| 0 <= j < i ==> array@[j] == bytes@[j],
            decreases PUBKEY_BYTES - i,
        {
            array[i] = bytes[i];
            i = i + 1;
        }
        Some(Pubkey { bytes: array })
    }

    /// The address that `text` stands for on the wire, or a decode error
    /// that quotes the text.
    pub fn parse(text: &str) -> (address: Result<Pubkey, RequestError>)
        ensures
            match address {
                Ok(a) => parsed_address(text@) == Some(a@),
                Err(e) => parsed_address(text@) is None && e@ == RequestErrorView::Decode(
                    malformed_address(text@),
                ),
            },
    {
        let found = match base58_decode(text) {
            Ok(bytes) => Pubkey::from_bytes(bytes.as_slice()),
            Err(_) => None,
        };
        match found {
            Some(a) => Ok(a),
            None => {
                let cause = String::from_str("malformed address: ").concat(text);
                Err(RequestError::Decode(cause))
            },
        }
    }

    /// The address as the wire writes it.
    pub fn to_base58(&self) -> (text: String)
        ensures
            text@ == base58_text(self@),
    {
        base58_encode(self.bytes.as_slice())
    }
}

} // verus!
