//! Statements: plain queries, prepared statements and batches.

pub mod batch;
pub mod prepared_statement;
pub mod query;

use vstd::prelude::*;

verus! {

/// How many replicas must acknowledge a request.
#[derive(Debug, Clone, Copy, PartialEq, Eq, Structural)]
pub enum Consistency {
    Any,
    One,
    Two,
    Three,
    Quorum,
    All,
    LocalQuorum,
    EachQuorum,
    Serial,
    LocalSerial,
    LocalOne,
}

impl Consistency {
    /// The number that stands for the level on the wire.
    pub open spec fn code(self) -> u16 {
        match self {
            Consistency::Any => 0x0000,
            Consistency::One => 0x0001,
            Consistency::Two => 0x0002,
            Consistency::Three => 0x0003,
            Consistency::Quorum => 0x0004,
            Consistency::All => 0x0005,
            Consistency::LocalQuorum => 0x0006,
            Consistency::EachQuorum => 0x0007,
            Consistency::Serial => 0x0008,
            Consistency::LocalSerial => 0x0009,
            Consistency::LocalOne => 0x000A,
        }
    }

    /// The level that a number on the wire stands for, if any.
    pub open spec fn of_code(code: u16) -> Option<Consistency> {
        if code == 0x0000 {
            Some(Consistency::Any)
        } else if code == 0x0001 {
            Some(Consistency::One)
        } else if code == 0x0002 {
            Some(Consistency::Two)
        } else if code == 0x0003 {
            Some(Consistency::Three)
        } else if code == 0x0004 {
            Some(Consistency::Quorum)
        } else if code == 0x0005 {
            Some(Consistency::All)
        } else if code == 0x0006 {
            Some(Consistency::LocalQuorum)
        } else if code == 0x0007 {
            Some(Consistency::EachQuorum)
        } else if code == 0x0008 {
            Some(Consistency::Serial)
        } else if code == 0x0009 {
            Some(Consistency::LocalSerial)
        } else if code == 0x000A {
            Some(Consistency::LocalOne)
        } else {
            None
        }
    }

    /// The number that stands for the level on the wire.
    pub fn to_u16(self) -> (r: u16)
        ensures
            r == self.code(),
    {
        match self {
            Consistency::Any => 0x0000,
            Consistency::One => 0x0001,
            Consistency::Two => 0x0002,
            Consistency::Three => 0x0003,
            Consistency::Quorum => 0x0004,
            Consistency::All => 0x0005,
            Consistency::LocalQuorum => 0x0006,
            Consistency::EachQuorum => 0x0007,
            Consistency::Serial => 0x0008,
            Consistency::LocalSerial => 0x0009,
            Consistency::LocalOne => 0x000A,
        }
    }

    /// The level that a number on the wire stands for, if any.
    pub fn from_u16(code: u16) -> (r: Option<Consistency>)
        ensures
            r == Consistency::of_code(code),
    {
        match code {
            0x0000 => Some(Consistency::Any),
            0x0001 => Some(Consistency::One),
            0x0002 => Some(Consistency::Two),
            0x0003 => Some(Consistency::Three),
            0x0004 => Some(Consistency::Quorum),
            0x0005 => Some(Consistency::All),
            0x0006 => Some(Consistency::LocalQuorum),
            0x0007 => Some(Consistency::EachQuorum),
            0x0008 => Some(Consistency::Serial),
            0x0009 => Some(Consistency::LocalSerial),
            0x000A => Some(Consistency::LocalOne),
            _ => None,
        }
    }

    /// Every level is the one that its own number stands for.
    pub proof fn lemma_code_roundtrip(self)
        ensures
            Consistency::of_code(self.code()) == Some(self),
    {
    }
}

impl Default for Consistency {
    fn default() -> (r: Self)
        ensures
            r == Consistency::Quorum,
    {
        Consistency::Quorum
    }
}

} // verus!
