use vstd::prelude::*;
use vstd::string::StringExecFns;

verus! {

/// One byte-level substitution at a fixed offset from the host module's base.
#[derive(Clone, Copy, Debug, PartialEq, Eq, Structural)]
pub struct Patch {
    /// Displacement from the start of the host module's image.
    pub offset: u32,
    /// The byte expected at that place before the patch is applied.
    pub org: u8,
    /// The byte the patch writes.
    pub new: u8,
}

/// Why a patch set could not be applied.
#[derive(Clone, Copy, Debug, PartialEq, Eq, Structural)]
pub enum PatchError {
    /// The byte found at `offset` (third field) is not the expected original
    /// (second field): the set was built for another executable.
    ByteMismatch(u32, u8, u8),
    /// The platform refused to relax or restore page protection around the
    /// write at this offset.
    Protection(u32),
}

/// The lowercase hexadecimal digit of value `d` (below 16).
pub open spec fn hex_digit(d: nat) -> char {
    seq!['0', '1', '2', '3', '4', '5', '6', '7', '8', '9', 'a', 'b', 'c', 'd', 'e', 'f'][d as int]
}

/// The lowercase hexadecimal digits of `v`, most significant first, with no
/// leading zero.
pub open spec fn hex_digits(v: nat) -> Seq<char>
    decreases v,
{
    if v < 16 {
        seq![hex_digit(v)]
    } else {
        hex_digits(v / 16) + seq![hex_digit(v % 16)]
    }
}

/// `v` as std's alternate lowercase hexadecimal form writes it: `0x`, then
/// its digits.
pub open spec fn hex_text_of(v: nat) -> Seq<char> {
    seq!['0', 'x'] + hex_digits(v)
}

/// Relies on std's `{:#x}` formatting of a `u32`: the `0x` prefix, then the
/// lowercase hexadecimal digits without leading zeros.
#[verifier::external_body]
fn hex_text(v: u32) -> (r: String)
    ensures
        r@ == hex_text_of(v as nat),
{
    format!("{:#x}", v)
}

impl PatchError {
    /// The human-readable description of the error.
    pub open spec fn message_text(self) -> Seq<char> {
        match self {
            PatchError::ByteMismatch(offset, expected, found) => "Byte "@ + hex_text_of(
                found as nat,
            ) + " at target offset "@ + hex_text_of(offset as nat)
                + " does not match the original byte "@ + hex_text_of(expected as nat)
                + " in the patch. The patch may be intended for a different executable."@,
            PatchError::Protection(offset) => "Page protection could not be changed around the write at target offset "@
                + hex_text_of(offset as nat) + "."@,
        }
    }

    /// Describes the error: for a mismatch, the byte found, the offset and
    /// the expected byte, each in hexadecimal.
    pub fn message(&self) -> (r: String)
        ensures
            r@ == self.message_text(),
    {
        match *self {
            PatchError::ByteMismatch(offset, expected, found) => {
                let mut s = String::from_str("Byte ");
                s.append(hex_text(found as u32).as_str());
                s.append(" at target offset ");
                s.append(hex_text(offset).as_str());
                s.append(" does not match the original byte ");
                s.append(hex_text(expected as u32).as_str());
                s.append(" in the patch. The patch may be intended for a different executable.");
                s
            },
            PatchError::Protection(offset) => {
                let mut s = String::from_str(
                    "Page protection could not be changed around the write at target offset ",
                );
                s.append(hex_text(offset).as_str());
                s.append(".");
                s
            },
        }
    }
}

} // verus!
