//! The Pairing DHKey Check command.
use vstd::prelude::*;

use super::SmCommandData;
use crate::bytes::array_from_slice;

verus! {

/// The data of a Pairing DHKey Check command: the sender's check value, least significant
/// byte first.
#[derive(Debug, Clone, Copy)]
pub struct PairingDhKeyCheck {
    pub dhkey_check: [u8; 16],
}

impl SmCommandData for PairingDhKeyCheck {
    open spec fn spec_code() -> u8 {
        0x0d
    }

    open spec fn spec_len() -> nat {
        16
    }

    open spec fn spec_data_bytes(&self) -> Seq<u8> {
        self.dhkey_check@
    }

    proof fn lemma_data_bytes(a: Self, b: Self) {
        if a.dhkey_check@ == b.dhkey_check@ {
            assert(a.dhkey_check =~= b.dhkey_check);
        }
    }

    fn code() -> (c: super::SmCode) {
        super::SmCode::pairing_dhkey_check()
    }

    fn data_bytes(&self) -> (r: Vec<u8>) {
        let mut v = Vec::new();
        crate::bytes::push_bytes(&mut v, &self.dhkey_check);
        v
    }

    fn from_data_slice(slice: &[u8]) -> (r: Option<Self>) {
        if slice.len() != 16 {
            return None;
        }
        let dhkey_check: [u8; 16] = array_from_slice(slice, 0);
        assert(dhkey_check@ =~= slice@);
        Some(PairingDhKeyCheck { dhkey_check })
    }
}

} // verus!
