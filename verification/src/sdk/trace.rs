use vstd::prelude::*;

use crate::memory::Interface;

verus! {

/// The body region a trace hit, as the engine numbers it.
#[derive(Debug, PartialEq, Eq, Structural, Clone, Copy)]
pub enum HitGroup {
    Invalid,
    Generic,
    Head,
    Chest,
    Stomach,
    LeftArm,
    RightArm,
    LeftLeg,
    RightLeg,
    Gear,
}

/// The engine's number for each hit group.
pub open spec fn hit_group_number(g: HitGroup) -> int {
    match g {
        HitGroup::Invalid => -1,
        HitGroup::Generic => 0,
        HitGroup::Head => 1,
        HitGroup::Chest => 2,
        HitGroup::Stomach => 3,
        HitGroup::LeftArm => 4,
        HitGroup::RightArm => 5,
        HitGroup::LeftLeg => 6,
        HitGroup::RightLeg => 7,
        HitGroup::Gear => 10,
    }
}

/// The hit groups that the conversion from a raw number accepts: head, chest,
/// stomach, both arms and the right leg (the left leg, generic, gear and invalid
/// numbers are refused).
pub open spec fn hit_group_from_number(v: int) -> Option<HitGroup> {
    if v == 1 {
        Some(HitGroup::Head)
    } else if v == 2 {
        Some(HitGroup::Chest)
    } else if v == 3 {
        Some(HitGroup::Stomach)
    } else if v == 4 {
        Some(HitGroup::LeftArm)
    } else if v == 5 {
        Some(HitGroup::RightArm)
    } else if v == 7 {
        Some(HitGroup::RightLeg)
    } else {
        None
    }
}

impl HitGroup {
    /// The engine's number for this hit group.
    pub fn to_i32(self) -> (r: i32)
        ensures
            r == hit_group_number(self),
    {
        match self {
            HitGroup::Invalid => -1,
            HitGroup::Generic => 0,
            HitGroup::Head => 1,
            HitGroup::Chest => 2,
            HitGroup::Stomach => 3,
            HitGroup::LeftArm => 4,
            HitGroup::RightArm => 5,
            HitGroup::LeftLeg => 6,
            HitGroup::RightLeg => 7,
            HitGroup::Gear => 10,
        }
    }

    /// Converts a raw hit-group number; numbers outside the accepted set give `Err(())`.
    pub fn try_from_i32(v: i32) -> (r: Result<HitGroup, ()>)
        ensures
            match hit_group_from_number(v as int) {
                Some(g) => r == Ok::<HitGroup, ()>(g),
                None => r is Err,
            },
    {
        if v == 1 {
            Ok(HitGroup::Head)
        } else if v == 2 {
            Ok(HitGroup::Chest)
        } else if v == 3 {
            Ok(HitGroup::Stomach)
        } else if v == 4 {
            Ok(HitGroup::LeftArm)
        } else if v == 5 {
            Ok(HitGroup::RightArm)
        } else if v == 7 {
            Ok(HitGroup::RightLeg)
        } else {
            Err(())
        }
    }
}

/// Whether armor covers a hit in the given group: a helmet covers the head; the
/// chest, stomach and arms are always covered; every other number is not.
pub open spec fn spec_is_armored(hit_group: int, helmet: bool) -> bool {
    match hit_group_from_number(hit_group) {
        Some(HitGroup::Head) => helmet,
        Some(HitGroup::Chest) | Some(HitGroup::Stomach) | Some(HitGroup::LeftArm) | Some(
            HitGroup::RightArm,
        ) => true,
        _ => false,
    }
}

/// Whether armor protects a hit in `hit_group` for a player who has (or has not) a helmet.
pub fn is_armored(hit_group: i32, helmet: bool) -> (r: bool)
    ensures
        r == spec_is_armored(hit_group as int, helmet),
{
    match HitGroup::try_from_i32(hit_group) {
        Ok(g) => match g {
            HitGroup::Head => helmet,
            HitGroup::Chest => true,
            HitGroup::Stomach => true,
            HitGroup::LeftArm => true,
            HitGroup::RightArm => true,
            _ => false,
        },
        Err(_) => false,
    }
}


/// An entity as a trace reports it.
#[derive(Debug, Clone, Copy, PartialEq, Eq, Structural)]
pub struct Entity {
    pub vtable: usize,
}

impl Interface for Entity {
    open spec fn spec_address(&self) -> usize {
        self.vtable
    }

    fn new(base_address: usize) -> (r: Self) {
        Entity { vtable: base_address }
    }

    fn base_address(&self) -> (r: usize) {
        self.vtable
    }
}

/// What a trace filter lets a ray hit.
#[allow(non_camel_case_types)]
#[derive(Debug, Clone, Copy, PartialEq, Eq, Structural)]
pub enum TraceType {
    EVERYTHING,
    WorldOnly,
    EntitiesOnly,
    EverythingFilterProps,
}

/// The engine's number for each trace type.
pub open spec fn trace_type_number(t: TraceType) -> int {
    match t {
        TraceType::EVERYTHING => 0,
        TraceType::WorldOnly => 1,
        TraceType::EntitiesOnly => 2,
        TraceType::EverythingFilterProps => 3,
    }
}

impl TraceType {
    /// The engine's number for this trace type.
    pub fn to_i32(self) -> (r: i32)
        ensures
            r == trace_type_number(self),
    {
        match self {
            TraceType::EVERYTHING => 0,
            TraceType::WorldOnly => 1,
            TraceType::EntitiesOnly => 2,
            TraceType::EverythingFilterProps => 3,
        }
    }
}

/// A filter that the engine asks, for each entity a ray meets, whether the ray may
/// hit it.
pub trait TraceFilterTrait: Sized {
    /// Whether the ray may hit the entity at `entity_address`.
    fn should_hit_entity(&self, entity_address: usize, contents_mask: u32) -> bool;

    /// What kinds of objects the filter considers.
    fn get_trace_type(&self) -> TraceType;

    /// A filter that skips the entity at address `skip`.
    fn new(skip: usize) -> Self;
}

/// A filter that lets a ray hit everything except one entity.
#[derive(Debug, Clone, Copy, PartialEq, Eq, Structural)]
pub struct TraceFilterGeneric {
    pub skip: usize,
}

impl TraceFilterTrait for TraceFilterGeneric {
    /// Every entity but the skipped one may be hit, whatever the contents mask.
    fn should_hit_entity(&self, entity_address: usize, contents_mask: u32) -> (r: bool)
        ensures
            r == (entity_address != self.skip),
    {
        entity_address != self.skip
    }

    fn get_trace_type(&self) -> (r: TraceType)
        ensures
            r == TraceType::EVERYTHING,
    {
        TraceType::EVERYTHING
    }

    fn new(skip: usize) -> (r: Self)
        ensures
            r.skip == skip,
    {
        TraceFilterGeneric { skip }
    }
}

/// The contents a shot stops at.
pub const MASK_SHOT: i32 = 0x1 | 0x4000 | 0x2000000 | 0x2 | 0x4000000 | 0x40000000;
/// The contents a shot's hull stops at.
pub const MASK_SHOT_HULL: i32 = 0x1 | 0x4000 | 0x2000000 | 0x2 | 0x4000000 | 0x8;
pub const CONTENTS_GRATE: i32 = 0x8;
pub const CONTENTS_HITBOX: i32 = 0x40000000;
pub const SURF_HITBOX: u16 = 0x8000;
pub const SURF_LIGHT: u16 = 0x0001;
pub const SURF_NODRAW: u16 = 0x0080;

pub const CHAR_TEX_ANTLION: char = 'A';
pub const CHAR_TEX_BLOODYFLESH: char = 'B';
pub const CHAR_TEX_CONCRETE: char = 'C';
pub const CHAR_TEX_DIRT: char = 'D';
pub const CHAR_TEX_EGGSHELL: char = 'E';
pub const CHAR_TEX_FLESH: char = 'F';
pub const CHAR_TEX_GRATE: char = 'G';
pub const CHAR_TEX_ALIENFLESH: char = 'H';
pub const CHAR_TEX_CLIP: char = 'I';
pub const CHAR_TEX_PLASTIC: char = 'L';
pub const CHAR_TEX_METAL: char = 'M';
pub const CHAR_TEX_SAND: char = 'N';
pub const CHAR_TEX_FOLIAGE: char = 'O';
pub const CHAR_TEX_COMPUTER: char = 'P';
pub const CHAR_TEX_SLOSH: char = 'S';
pub const CHAR_TEX_TILE: char = 'T';
pub const CHAR_TEX_CARDBOARD: char = 'U';
pub const CHAR_TEX_VENT: char = 'V';
pub const CHAR_TEX_WOOD: char = 'W';
pub const CHAR_TEX_GLASS: char = 'Y';
pub const CHAR_TEX_WARPSHIELD: char = 'Z';


/// Converting an accepted hit group to its number and back gives the same group, and
/// a number converts only to the group that has it.
pub proof fn law_hit_group_round_trip(g: HitGroup, v: int)
    ensures
        hit_group_from_number(v) matches Some(h) ==> hit_group_number(h) == v,
        (g == HitGroup::Head || g == HitGroup::Chest || g == HitGroup::Stomach || g
            == HitGroup::LeftArm || g == HitGroup::RightArm || g == HitGroup::RightLeg)
            ==> hit_group_from_number(hit_group_number(g)) == Some(g),
{
}

/// Armor covers a hit only in a group the conversion accepts, other than the right
/// leg; a head hit is covered exactly when the player has a helmet, and the helmet
/// matters for no other group.
pub proof fn law_armor_coverage(v: int, helmet: bool)
    ensures
        spec_is_armored(v, helmet) ==> (hit_group_from_number(v) is Some && v != 7),
        v == 1 ==> (spec_is_armored(v, helmet) == helmet),
        v != 1 ==> (spec_is_armored(v, true) == spec_is_armored(v, false)),
{
}

} // verus!
