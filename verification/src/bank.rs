//! The two boot banks and their fixed device mapping.

use vstd::prelude::*;

verus! {

/// One of the two interchangeable boot partitions.  Exactly one bank is
/// booted (active) at any time; the other is the target of updates.
#[derive(Clone, Copy, Debug, PartialEq, Eq, Structural)]
pub enum Bank {
    A,
    B,
}

impl Bank {
    /// The bank that is not `self`.
    pub open spec fn spec_other(self) -> Bank {
        match self {
            Bank::A => Bank::B,
            Bank::B => Bank::A,
        }
    }

    /// Returns the bank that is not `self`.
    pub fn other(&self) -> (r: Bank)
        ensures
            r == self.spec_other(),
    {
        match self {
            Bank::A => Bank::B,
            Bank::B => Bank::A,
        }
    }

    /// The block device holding this bank's root filesystem.
    pub open spec fn spec_device(self) -> Seq<char> {
        match self {
            Bank::A => "/dev/mmcblk0p2"@,
            Bank::B => "/dev/mmcblk0p3"@,
        }
    }

    /// Returns the path of the block device holding this bank.
    pub fn device(&self) -> (r: &'static str)
        ensures
            r@ == self.spec_device(),
    {
        match self {
            Bank::A => "/dev/mmcblk0p2",
            Bank::B => "/dev/mmcblk0p3",
        }
    }

    /// The volume label the formatting tool stamps on this bank.
    pub open spec fn spec_label(self) -> Seq<char> {
        match self {
            Bank::A => "bank_a"@,
            Bank::B => "bank_b"@,
        }
    }

    /// Returns the volume label used when formatting this bank.
    pub fn label(&self) -> (r: &'static str)
        ensures
            r@ == self.spec_label(),
    {
        match self {
            Bank::A => "bank_a",
            Bank::B => "bank_b",
        }
    }

    /// The one-letter name of this bank, as used on the wire and in the
    /// boot-loader environment.
    pub open spec fn spec_name(self) -> Seq<char> {
        match self {
            Bank::A => "A"@,
            Bank::B => "B"@,
        }
    }

    /// Returns the one-letter name of this bank.
    pub fn name(&self) -> (r: &'static str)
        ensures
            r@ == self.spec_name(),
    {
        match self {
            Bank::A => "A",
            Bank::B => "B",
        }
    }

    /// Parses a one-letter bank name; anything but "A" or "B" is refused.
    pub fn from_name(s: &str) -> (r: Option<Bank>)
        ensures
            r == Some(Bank::A) <==> s@ == Bank::A.spec_name(),
            r == Some(Bank::B) <==> s@ == Bank::B.spec_name(),
            r is None <==> s@ != Bank::A.spec_name() && s@ != Bank::B.spec_name(),
    {
        proof {
            reveal_strlit("A");
            reveal_strlit("B");
        }
        if s.unicode_len() == 1 {
            let c = s.get_char(0);
            if c == 'A' {
                proof {
                    assert(s@ =~= "A"@);
                }
                Some(Bank::A)
            } else if c == 'B' {
                proof {
                    assert(s@ =~= "B"@);
                }
                Some(Bank::B)
            } else {
                None
            }
        } else {
            None
        }
    }

    /// Taking the other bank twice leads back to the same bank.
    pub proof fn lemma_other_involution(b: Bank)
        ensures
            b.spec_other().spec_other() == b,
    {
    }

    /// The two banks never share a device: the mapping is injective.
    pub proof fn lemma_device_distinct()
        ensures
            Bank::A.spec_device() != Bank::B.spec_device(),
    {
        reveal_strlit("/dev/mmcblk0p2");
        reveal_strlit("/dev/mmcblk0p3");
        assert(Bank::A.spec_device()[13] == '2');
        assert(Bank::B.spec_device()[13] == '3');
    }
}

} // verus!
