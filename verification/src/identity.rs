//! Commit identities and their hexadecimal spelling.

use vstd::prelude::*;
use vstd::string::*;

verus! {

/// The digits of a spelled-out identity, indexed by nibble value.
pub const HEX_DIGITS: &'static str = "0123456789abcdef";

/// Number of characters of a fully spelled-out identity.
pub const HEX_LEN: usize = 40;

/// Number of characters of the short form shown in reports.
pub const SHORT_LEN: usize = 7;

/// The content hash of one commit snapshot: twenty raw bytes.
#[derive(Clone, Copy, Debug, PartialEq, Eq, Hash)]
pub struct CommitIdentity {
    pub bytes: [u8; 20],
}

impl CommitIdentity {
    /// The `k`-th half-byte, high half first.
    pub open spec fn nibble(self, k: int) -> int {
        if k % 2 == 0 {
            self.bytes@[k / 2] as int / 16
        } else {
            self.bytes@[k / 2] as int % 16
        }
    }

    /// The identity written as forty lower-case hexadecimal digits.
    pub open spec fn hex(self) -> Seq<char> {
        Seq::new(40, |k: int| HEX_DIGITS@[self.nibble(k)])
    }

    /// The identity that holds these bytes.
    pub fn from_bytes(bytes: [u8; 20]) -> (id: CommitIdentity)
        ensures
            id.bytes == bytes,
    {
        CommitIdentity { bytes }
    }

    /// The bytes of the identity.
    pub fn as_bytes(&self) -> (bytes: [u8; 20])
        ensures
            bytes == self.bytes,
    {
        self.bytes
    }

    /// Whether two identities hold the same bytes.
    pub fn same(&self, other: &CommitIdentity) -> (r: bool)
        ensures
            r == (self.bytes@ == other.bytes@),
    {
        let mut i: usize = 0;
        while i < 20
            invariant
                i <= 20,
                forall|j: int| 0 <= j < i ==> self.bytes@[j] == other.bytes@[j],
            decreases 20 - i,
        {
            if self.bytes[i] != other.bytes[i] {
                return false;
            }
            i += 1;
        }
        assert(self.bytes@ =~= other.bytes@);
        true
    }

    fn nibble_at(&self, k: usize) -> (n: usize)
        requires
            k < 40,
        ensures
            n == self.nibble(k as int),
            n < 16,
    {
        let byte: u8 = self.bytes[k / 2];
        if k % 2 == 0 {
            (byte / 16) as usize
        } else {
            (byte % 16) as usize
        }
    }

    /// The first `count` digits of the spelled-out identity, and all forty
    /// where `count` is larger.
    pub fn hex_prefix(&self, count: usize) -> (text: String)
        ensures
            text@ == self.hex().take(if count <= 40 { count as int } else { 40 }),
    {
        proof {
            reveal_strlit("0123456789abcdef");
        }
        let wanted: usize = if count <= HEX_LEN { count } else { HEX_LEN };
        let mut text = String::new();
        let mut k: usize = 0;
        while k < wanted
            invariant
                k <= wanted <= 40,
                text@ == self.hex().take(k as int),
                HEX_DIGITS@.len() == 16,
                is_ascii(HEX_DIGITS),
            decreases wanted - k,
        {
            let n: usize = self.nibble_at(k);
            text.append(HEX_DIGITS.substring_ascii(n, n + 1));
            assert(text@ =~= self.hex().take(k + 1));
            k += 1;
        }
        text
    }

    /// The identity as forty hexadecimal digits.
    pub fn to_hex(&self) -> (text: String)
        ensures
            text@ == self.hex(),
    {
        let text = self.hex_prefix(HEX_LEN);
        assert(self.hex().take(40) =~= self.hex());
        text
    }

    /// The seven-digit short form.
    pub fn abbreviated(&self) -> (text: String)
        ensures
            text@ == self.hex().take(7),
    {
        self.hex_prefix(SHORT_LEN)
    }

    /// Whether the spelled-out identity begins with `prefix`.
    pub fn has_prefix(&self, prefix: &str) -> (r: bool)
        ensures
            r == prefix@.is_prefix_of(self.hex()),
    {
        proof {
            reveal_strlit("0123456789abcdef");
        }
        let len: usize = prefix.unicode_len();
        if len > HEX_LEN {
            return false;
        }
        let mut k: usize = 0;
        while k < len
            invariant
                k <= len <= 40,
                len == prefix@.len(),
                HEX_DIGITS@.len() == 16,
                forall|j: int| 0 <= j < k ==> prefix@[j] == self.hex()[j],
            decreases len - k,
        {
            let n: usize = self.nibble_at(k);
            if prefix.get_char(k) != HEX_DIGITS.get_char(n) {
                assert(prefix@[k as int] != self.hex().subrange(0, len as int)[k as int]);
                return false;
            }
            k += 1;
        }
        assert(prefix@ =~= self.hex().subrange(0, len as int));
        true
    }
}

} // verus!
