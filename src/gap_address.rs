//! Bluetooth device addresses and their text form.

use vstd::prelude::*;
use vstd::string::StrSliceExecFns;

use crate::gap::BleGapAddressType;
use crate::text::{digit_char, digit_str};

verus! {

pub const ADDR_LEN: usize = 6;

/// A device address, most significant byte first, as it is written.
#[derive(Clone, Copy, Debug, PartialEq, Eq)]
pub struct BleGapAddress {
    pub address_type: BleGapAddressType,
    pub address: [u8; 6],
}

pub open spec fn is_hex_digit(c: char) -> bool {
    ('0' <= c && c <= '9') || ('a' <= c && c <= 'f') || ('A' <= c && c <= 'F')
}

pub open spec fn hex_digit_value(c: char) -> nat {
    if '0' <= c && c <= '9' {
        (c as nat - '0' as nat) as nat
    } else if 'a' <= c && c <= 'f' {
        (c as nat - 'a' as nat + 10) as nat
    } else {
        (c as nat - 'A' as nat + 10) as nat
    }
}

/// Six pairs of hex digits separated by colons, as in `C0:FF:EE:00:12:AB`.
pub open spec fn is_address_text(s: Seq<char>) -> bool {
    &&& s.len() == 17
    &&& forall|i: int| 0 <= i < 17 && i % 3 == 2 ==> s[i] == ':'
    &&& forall|i: int| 0 <= i < 17 && i % 3 != 2 ==> is_hex_digit(#[trigger] s[i])
}

/// The byte written by the digit pair at group `k` of an address text.
pub open spec fn address_byte(s: Seq<char>, k: int) -> nat {
    16 * hex_digit_value(s[3 * k]) + hex_digit_value(s[3 * k + 1])
}

/// Two upper-case hex digits for a byte.
pub open spec fn hex_pair(b: u8) -> Seq<char> {
    seq![digit_char(b as nat / 16), digit_char(b as nat % 16)]
}

/// The text of an address: each byte as two upper-case hex digits, colon separated.
pub open spec fn address_text(bytes: Seq<u8>) -> Seq<char>
    decreases bytes.len(),
{
    if bytes.len() == 0 {
        Seq::empty()
    } else if bytes.len() == 1 {
        hex_pair(bytes[0])
    } else {
        address_text(bytes.drop_last()) + seq![':'] + hex_pair(bytes.last())
    }
}

fn hex_value(c: char) -> (r: u8)
    requires
        is_hex_digit(c),
    ensures
        r as nat == hex_digit_value(c),
        r < 16,
{
    if '0' <= c && c <= '9' {
        (c as u32 - '0' as u32) as u8
    } else if 'a' <= c && c <= 'f' {
        (c as u32 - 'a' as u32 + 10) as u8
    } else {
        (c as u32 - 'A' as u32 + 10) as u8
    }
}

impl BleGapAddress {
    /// Reads an address written as six colon-separated pairs of hex digits.
    pub fn new(addr_str: String, addr_type: BleGapAddressType) -> (r: BleGapAddress)
        requires
            is_address_text(addr_str@),
        ensures
            r.address_type == addr_type,
            forall|k: int| 0 <= k < 6 ==> r.address[k] as nat == address_byte(addr_str@, k),
    {
        let text = addr_str.as_str();
        let mut address: [u8; 6] = [0u8; 6];
        let mut k: usize = 0;
        while k < 6
            invariant
                k <= 6,
                text@ == addr_str@,
                is_address_text(text@),
                forall|j: int| 0 <= j < k ==> address[j] as nat == address_byte(text@, j),
            decreases 6 - k,
        {
            let hi = hex_value(text.get_char(3 * k));
            let lo = hex_value(text.get_char(3 * k + 1));
            address[k] = hi * 16 + lo;
            k += 1;
        }
        BleGapAddress { address_type: addr_type, address }
    }

    /// The address as six colon-separated pairs of upper-case hex digits.
    pub fn to_string(&self) -> (r: String)
        ensures
            r@ == address_text(self.address@),
    {
        let mut s = String::new();
        let mut i: usize = 0;
        while i < 6
            invariant
                i <= 6,
                s@ == address_text(self.address@.subrange(0, i as int)),
            decreases 6 - i,
        {
            let b = self.address[i];
            if i > 0 {
                s.append(":");
                proof {
                    reveal_strlit(":");
                }
            }
            s.append(digit_str((b / 16) as u64));
            s.append(digit_str((b % 16) as u64));
            proof {
                let next = self.address@.subrange(0, i + 1);
                assert(next.drop_last() =~= self.address@.subrange(0, i as int));
                assert(next.last() == b);
                if i == 0 {
                    assert(s@ =~= address_text(next));
                } else {
                    assert(s@ =~= address_text(next));
                }
            }
            i += 1;
        }
        assert(self.address@.subrange(0, 6) =~= self.address@);
        s
    }
}

} // verus!
