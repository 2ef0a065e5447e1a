use vstd::prelude::*;

verus! {

pub const ATTACK: i32 = 1 << 0;
pub const JUMP: i32 = 1 << 1;
pub const DUCK: i32 = 1 << 2;
pub const FORWARD: i32 = 1 << 3;
pub const BACK: i32 = 1 << 4;
pub const USE: i32 = 1 << 5;
pub const MOVE_LEFT: i32 = 1 << 9;
pub const MOVE_RIGHT: i32 = 1 << 10;
pub const ATTACK2: i32 = 1 << 11;
pub const SCORE: i32 = 1 << 16;
pub const IN_WALK: i32 = 1 << 18;
pub const BULL_RUSH: i32 = 1 << 22;

/// Every button bit that has a name.
pub const ALL_BUTTONS: i32 = ATTACK | JUMP | DUCK | FORWARD | BACK | USE | MOVE_LEFT | MOVE_RIGHT
    | ATTACK2 | SCORE | IN_WALK | BULL_RUSH;

/// The buttons held in a user command, one bit per button.
#[derive(Debug, Clone, Copy, PartialEq, Eq, Structural)]
pub struct EButtons {
    bits: i32,
}

impl EButtons {
    /// The bits of the held buttons.
    pub closed spec fn spec_bits(self) -> i32 {
        self.bits
    }

    /// No button held.
    pub fn empty() -> (r: EButtons)
        ensures
            r.spec_bits() == 0,
    {
        EButtons { bits: 0 }
    }

    /// The buttons whose bits are set in `bits`; bits without a named button are dropped.
    pub fn from_bits_truncate(bits: i32) -> (r: EButtons)
        ensures
            r.spec_bits() == bits & ALL_BUTTONS,
    {
        EButtons { bits: bits & ALL_BUTTONS }
    }

    /// The bits of the held buttons.
    pub fn bits(&self) -> (r: i32)
        ensures
            r == self.spec_bits(),
    {
        self.bits
    }

    /// Whether every button of `other` is held.
    pub fn contains(&self, other: EButtons) -> (r: bool)
        ensures
            r == ((self.spec_bits() & other.spec_bits()) == other.spec_bits()),
    {
        (self.bits & other.bits) == other.bits
    }

    /// Holds the buttons of `other` as well.
    pub fn insert(&mut self, other: EButtons)
        ensures
            final(self).spec_bits() == old(self).spec_bits() | other.spec_bits(),
    {
        self.bits = self.bits | other.bits;
    }

    /// The buttons held in either.
    pub fn union(self, other: EButtons) -> (r: EButtons)
        ensures
            r.spec_bits() == self.spec_bits() | other.spec_bits(),
    {
        EButtons { bits: self.bits | other.bits }
    }
}

/// After holding the buttons of `other`, every one of them is held, and so is every
/// button held before.
pub proof fn law_insert_then_contains(before: i32, other: i32)
    ensures
        ((before | other) & other) == other,
        ((before | other) & before) == before,
{
    assert(((before | other) & other) == other) by (bit_vector);
    assert(((before | other) & before) == before) by (bit_vector);
}

/// The point of a frame at which the engine notifies the client.
#[derive(Debug, Clone, Copy, PartialEq, Eq, Structural)]
pub enum Stage {
    FrameUndefined,
    FrameStart,
    FrameNetUpdateStart,
    FrameNetUpdatePostDataUpdateStart,
    FrameNetUpdatePostDataUpdateEnd,
    FrameNetUpdateEnd,
    FrameRenderStart,
    FrameRenderEnd,
}

/// The engine's number for each frame stage.
pub open spec fn stage_number(s: Stage) -> int {
    match s {
        Stage::FrameUndefined => -1,
        Stage::FrameStart => 0,
        Stage::FrameNetUpdateStart => 1,
        Stage::FrameNetUpdatePostDataUpdateStart => 2,
        Stage::FrameNetUpdatePostDataUpdateEnd => 3,
        Stage::FrameNetUpdateEnd => 4,
        Stage::FrameRenderStart => 5,
        Stage::FrameRenderEnd => 6,
    }
}

impl Stage {
    /// The stage the engine's number `v` stands for; `None` for numbers no stage has.
    pub fn from_i32(v: i32) -> (r: Option<Stage>)
        ensures
            r matches Some(s) ==> stage_number(s) == v,
            r is None <==> !(-1 <= v <= 6),
    {
        match v {
            -1 => Some(Stage::FrameUndefined),
            0 => Some(Stage::FrameStart),
            1 => Some(Stage::FrameNetUpdateStart),
            2 => Some(Stage::FrameNetUpdatePostDataUpdateStart),
            3 => Some(Stage::FrameNetUpdatePostDataUpdateEnd),
            4 => Some(Stage::FrameNetUpdateEnd),
            5 => Some(Stage::FrameRenderStart),
            6 => Some(Stage::FrameRenderEnd),
            _ => None,
        }
    }

    /// The engine's number for this stage.
    pub fn to_i32(self) -> (r: i32)
        ensures
            r == stage_number(self),
    {
        match self {
            Stage::FrameUndefined => -1,
            Stage::FrameStart => 0,
            Stage::FrameNetUpdateStart => 1,
            Stage::FrameNetUpdatePostDataUpdateStart => 2,
            Stage::FrameNetUpdatePostDataUpdateEnd => 3,
            Stage::FrameNetUpdateEnd => 4,
            Stage::FrameRenderStart => 5,
            Stage::FrameRenderEnd => 6,
        }
    }
}


/// No two frame stages share a number.
pub proof fn law_stage_numbers_distinct(a: Stage, b: Stage)
    ensures
        stage_number(a) == stage_number(b) ==> a == b,
{
}

} // verus!
