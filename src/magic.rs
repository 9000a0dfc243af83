use vstd::prelude::*;

use crate::error::VmError;

verus! {
/// Known format-version tags, oldest first. The serialized layout of code objects
/// changes at some of them.
#[allow(non_camel_case_types)]
#[derive(Clone, Copy, PartialEq, Eq, Structural, Debug)]
pub enum Magic {
    MAGIC1_0,
    MAGIC1_1,
    MAGIC1_3,
    MAGIC1_4,
    MAGIC1_5,
    MAGIC1_6,
    MAGIC2_0,
    MAGIC2_1,
    MAGIC2_2,
    MAGIC2_3,
    MAGIC2_4,
    MAGIC2_5,
    MAGIC2_6,
    MAGIC2_7,
    MAGIC3_0,
    MAGIC3_1,
    MAGIC3_2,
    MAGIC3_3,
    MAGIC3_4,
    MAGIC3_5,
    MAGIC3_5_3,
    MAGIC3_6,
    MAGIC3_7,
    MAGIC3_8,
    MAGIC3_9,
    MAGIC3_10,
    MAGIC3_11,
}

/// The version whose header word is `v`.
pub open spec fn magic_of(v: u32) -> Option<Magic> {
    match v {
        0x00999902u32 => Some(Magic::MAGIC1_0),
        0x00999903u32 => Some(Magic::MAGIC1_1),
        0x0A0D2E89u32 => Some(Magic::MAGIC1_3),
        0x0A0D1704u32 => Some(Magic::MAGIC1_4),
        0x0A0D4E99u32 => Some(Magic::MAGIC1_5),
        0x0A0DC4FCu32 => Some(Magic::MAGIC1_6),
        0x0A0DC687u32 => Some(Magic::MAGIC2_0),
        0x0A0DEB2Au32 => Some(Magic::MAGIC2_1),
        0x0A0DED2Du32 => Some(Magic::MAGIC2_2),
        0x0A0DF23Bu32 => Some(Magic::MAGIC2_3),
        0x0A0DF26Du32 => Some(Magic::MAGIC2_4),
        0x0A0DF2B3u32 => Some(Magic::MAGIC2_5),
        0x0A0DF2D1u32 => Some(Magic::MAGIC2_6),
        0x0A0DF303u32 => Some(Magic::MAGIC2_7),
        0x0A0D0C3Au32 => Some(Magic::MAGIC3_0),
        0x0A0D0C4Eu32 => Some(Magic::MAGIC3_1),
        0x0A0D0C6Cu32 => Some(Magic::MAGIC3_2),
        0x0A0D0C9Eu32 => Some(Magic::MAGIC3_3),
        0x0A0D0CEEu32 => Some(Magic::MAGIC3_4),
        0x0A0D0D16u32 => Some(Magic::MAGIC3_5),
        0x0A0D0D17u32 => Some(Magic::MAGIC3_5_3),
        0x0A0D0D33u32 => Some(Magic::MAGIC3_6),
        0x0A0D0D42u32 => Some(Magic::MAGIC3_7),
        0x0A0D0D55u32 => Some(Magic::MAGIC3_8),
        0x0A0D0D61u32 => Some(Magic::MAGIC3_9),
        0x0A0D0D6Fu32 => Some(Magic::MAGIC3_10),
        0x0A0D0DA7u32 => Some(Magic::MAGIC3_11),
        _ => None,
    }
}

impl Magic {
    /// Position in the version order: older versions come first.
    pub open spec fn rank(self) -> nat {
        match self {
            Magic::MAGIC1_0 => 0,
            Magic::MAGIC1_1 => 1,
            Magic::MAGIC1_3 => 2,
            Magic::MAGIC1_4 => 3,
            Magic::MAGIC1_5 => 4,
            Magic::MAGIC1_6 => 5,
            Magic::MAGIC2_0 => 6,
            Magic::MAGIC2_1 => 7,
            Magic::MAGIC2_2 => 8,
            Magic::MAGIC2_3 => 9,
            Magic::MAGIC2_4 => 10,
            Magic::MAGIC2_5 => 11,
            Magic::MAGIC2_6 => 12,
            Magic::MAGIC2_7 => 13,
            Magic::MAGIC3_0 => 14,
            Magic::MAGIC3_1 => 15,
            Magic::MAGIC3_2 => 16,
            Magic::MAGIC3_3 => 17,
            Magic::MAGIC3_4 => 18,
            Magic::MAGIC3_5 => 19,
            Magic::MAGIC3_5_3 => 20,
            Magic::MAGIC3_6 => 21,
            Magic::MAGIC3_7 => 22,
            Magic::MAGIC3_8 => 23,
            Magic::MAGIC3_9 => 24,
            Magic::MAGIC3_10 => 25,
            Magic::MAGIC3_11 => 26,
        }
    }

    /// The version named by a header word, or `UnknownMagic`.
    pub fn from_u32(value: u32) -> (r: Result<Magic, VmError>)
        ensures
            magic_of(value) is Some ==> r == Ok::<Magic, VmError>(magic_of(value)->0),
            magic_of(value) is None ==> r == Err::<Magic, VmError>(VmError::UnknownMagic(value)),
    {
        match value {
            0x00999902u32 => Ok(Magic::MAGIC1_0),
            0x00999903u32 => Ok(Magic::MAGIC1_1),
            0x0A0D2E89u32 => Ok(Magic::MAGIC1_3),
            0x0A0D1704u32 => Ok(Magic::MAGIC1_4),
            0x0A0D4E99u32 => Ok(Magic::MAGIC1_5),
            0x0A0DC4FCu32 => Ok(Magic::MAGIC1_6),
            0x0A0DC687u32 => Ok(Magic::MAGIC2_0),
            0x0A0DEB2Au32 => Ok(Magic::MAGIC2_1),
            0x0A0DED2Du32 => Ok(Magic::MAGIC2_2),
            0x0A0DF23Bu32 => Ok(Magic::MAGIC2_3),
            0x0A0DF26Du32 => Ok(Magic::MAGIC2_4),
            0x0A0DF2B3u32 => Ok(Magic::MAGIC2_5),
            0x0A0DF2D1u32 => Ok(Magic::MAGIC2_6),
            0x0A0DF303u32 => Ok(Magic::MAGIC2_7),
            0x0A0D0C3Au32 => Ok(Magic::MAGIC3_0),
            0x0A0D0C4Eu32 => Ok(Magic::MAGIC3_1),
            0x0A0D0C6Cu32 => Ok(Magic::MAGIC3_2),
            0x0A0D0C9Eu32 => Ok(Magic::MAGIC3_3),
            0x0A0D0CEEu32 => Ok(Magic::MAGIC3_4),
            0x0A0D0D16u32 => Ok(Magic::MAGIC3_5),
            0x0A0D0D17u32 => Ok(Magic::MAGIC3_5_3),
            0x0A0D0D33u32 => Ok(Magic::MAGIC3_6),
            0x0A0D0D42u32 => Ok(Magic::MAGIC3_7),
            0x0A0D0D55u32 => Ok(Magic::MAGIC3_8),
            0x0A0D0D61u32 => Ok(Magic::MAGIC3_9),
            0x0A0D0D6Fu32 => Ok(Magic::MAGIC3_10),
            0x0A0D0DA7u32 => Ok(Magic::MAGIC3_11),
            _ => Err(VmError::UnknownMagic(value)),
        }
    }

    /// Position in the version order.
    pub fn ordinal(&self) -> (r: u8)
        ensures
            r as nat == self.rank(),
    {
        match self {
            Magic::MAGIC1_0 => 0,
            Magic::MAGIC1_1 => 1,
            Magic::MAGIC1_3 => 2,
            Magic::MAGIC1_4 => 3,
            Magic::MAGIC1_5 => 4,
            Magic::MAGIC1_6 => 5,
            Magic::MAGIC2_0 => 6,
            Magic::MAGIC2_1 => 7,
            Magic::MAGIC2_2 => 8,
            Magic::MAGIC2_3 => 9,
            Magic::MAGIC2_4 => 10,
            Magic::MAGIC2_5 => 11,
            Magic::MAGIC2_6 => 12,
            Magic::MAGIC2_7 => 13,
            Magic::MAGIC3_0 => 14,
            Magic::MAGIC3_1 => 15,
            Magic::MAGIC3_2 => 16,
            Magic::MAGIC3_3 => 17,
            Magic::MAGIC3_4 => 18,
            Magic::MAGIC3_5 => 19,
            Magic::MAGIC3_5_3 => 20,
            Magic::MAGIC3_6 => 21,
            Magic::MAGIC3_7 => 22,
            Magic::MAGIC3_8 => 23,
            Magic::MAGIC3_9 => 24,
            Magic::MAGIC3_10 => 25,
            Magic::MAGIC3_11 => 26,
        }
    }

    /// Whether this version is the same as or newer than `other`.
    pub fn at_least(&self, other: Magic) -> (r: bool)
        ensures
            r == (self.rank() >= other.rank()),
    {
        self.ordinal() >= other.ordinal()
    }

    /// The header word of this version.
    pub fn value(&self) -> (r: u32)
        ensures
            magic_of(r) == Some(*self),
    {
        match self {
            Magic::MAGIC1_0 => 0x00999902u32,
            Magic::MAGIC1_1 => 0x00999903u32,
            Magic::MAGIC1_3 => 0x0A0D2E89u32,
            Magic::MAGIC1_4 => 0x0A0D1704u32,
            Magic::MAGIC1_5 => 0x0A0D4E99u32,
            Magic::MAGIC1_6 => 0x0A0DC4FCu32,
            Magic::MAGIC2_0 => 0x0A0DC687u32,
            Magic::MAGIC2_1 => 0x0A0DEB2Au32,
            Magic::MAGIC2_2 => 0x0A0DED2Du32,
            Magic::MAGIC2_3 => 0x0A0DF23Bu32,
            Magic::MAGIC2_4 => 0x0A0DF26Du32,
            Magic::MAGIC2_5 => 0x0A0DF2B3u32,
            Magic::MAGIC2_6 => 0x0A0DF2D1u32,
            Magic::MAGIC2_7 => 0x0A0DF303u32,
            Magic::MAGIC3_0 => 0x0A0D0C3Au32,
            Magic::MAGIC3_1 => 0x0A0D0C4Eu32,
            Magic::MAGIC3_2 => 0x0A0D0C6Cu32,
            Magic::MAGIC3_3 => 0x0A0D0C9Eu32,
            Magic::MAGIC3_4 => 0x0A0D0CEEu32,
            Magic::MAGIC3_5 => 0x0A0D0D16u32,
            Magic::MAGIC3_5_3 => 0x0A0D0D17u32,
            Magic::MAGIC3_6 => 0x0A0D0D33u32,
            Magic::MAGIC3_7 => 0x0A0D0D42u32,
            Magic::MAGIC3_8 => 0x0A0D0D55u32,
            Magic::MAGIC3_9 => 0x0A0D0D61u32,
            Magic::MAGIC3_10 => 0x0A0D0D6Fu32,
            Magic::MAGIC3_11 => 0x0A0D0DA7u32,
        }
    }

    /// The release name of this version, as text.
    pub open spec fn version_text(self) -> Seq<char> {
        match self {
            Magic::MAGIC1_0 => "1.0"@,
            Magic::MAGIC1_1 => "1.1 or 1.2"@,
            Magic::MAGIC1_3 => "1.3"@,
            Magic::MAGIC1_4 => "1.4"@,
            Magic::MAGIC1_5 => "1.5"@,
            Magic::MAGIC1_6 => "1.6"@,
            Magic::MAGIC2_0 => "2.0"@,
            Magic::MAGIC2_1 => "2.1"@,
            Magic::MAGIC2_2 => "2.2"@,
            Magic::MAGIC2_3 => "2.3"@,
            Magic::MAGIC2_4 => "2.4"@,
            Magic::MAGIC2_5 => "2.5"@,
            Magic::MAGIC2_6 => "2.6"@,
            Magic::MAGIC2_7 => "2.7"@,
            Magic::MAGIC3_0 => "3.0"@,
            Magic::MAGIC3_1 => "3.1"@,
            Magic::MAGIC3_2 => "3.2"@,
            Magic::MAGIC3_3 => "3.3"@,
            Magic::MAGIC3_4 => "3.4"@,
            Magic::MAGIC3_5 => "3.5"@,
            Magic::MAGIC3_5_3 => "3.5.3"@,
            Magic::MAGIC3_6 => "3.6"@,
            Magic::MAGIC3_7 => "3.7"@,
            Magic::MAGIC3_8 => "3.8"@,
            Magic::MAGIC3_9 => "3.9"@,
            Magic::MAGIC3_10 => "3.10"@,
            Magic::MAGIC3_11 => "3.11"@,
        }
    }

    /// The release name of this version.
    pub fn version_name(&self) -> (r: &'static str)
        ensures
            r@ == self.version_text(),
    {
        match self {
            Magic::MAGIC1_0 => "1.0",
            Magic::MAGIC1_1 => "1.1 or 1.2",
            Magic::MAGIC1_3 => "1.3",
            Magic::MAGIC1_4 => "1.4",
            Magic::MAGIC1_5 => "1.5",
            Magic::MAGIC1_6 => "1.6",
            Magic::MAGIC2_0 => "2.0",
            Magic::MAGIC2_1 => "2.1",
            Magic::MAGIC2_2 => "2.2",
            Magic::MAGIC2_3 => "2.3",
            Magic::MAGIC2_4 => "2.4",
            Magic::MAGIC2_5 => "2.5",
            Magic::MAGIC2_6 => "2.6",
            Magic::MAGIC2_7 => "2.7",
            Magic::MAGIC3_0 => "3.0",
            Magic::MAGIC3_1 => "3.1",
            Magic::MAGIC3_2 => "3.2",
            Magic::MAGIC3_3 => "3.3",
            Magic::MAGIC3_4 => "3.4",
            Magic::MAGIC3_5 => "3.5",
            Magic::MAGIC3_5_3 => "3.5.3",
            Magic::MAGIC3_6 => "3.6",
            Magic::MAGIC3_7 => "3.7",
            Magic::MAGIC3_8 => "3.8",
            Magic::MAGIC3_9 => "3.9",
            Magic::MAGIC3_10 => "3.10",
            Magic::MAGIC3_11 => "3.11",
        }
    }
}

/// Versions are ordered by release: the order agrees with `rank` and is total.
pub proof fn lemma_magic_order_total(a: Magic, b: Magic)
    ensures
        a.rank() < b.rank() || a.rank() > b.rank() || a == b,
{
}

} // verus!
