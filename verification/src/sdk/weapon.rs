use vstd::prelude::*;

use crate::memory::MemoryImage;
use crate::netvar::NetvarMap;
use crate::sdk::entities::netvar_address;
use crate::sdk::interfaces::Weapon;
use std::collections::HashMap;

verus! {

broadcast use vstd::std_specs::hash::group_hash_axioms;

/// The item definitions of the game's weapons and equipment.
#[derive(Debug, Clone, Copy, PartialEq, Eq, Structural, Hash)]
pub enum WeaponType {
    Deagle,
    Elite,
    FiveSeven,
    Glock,
    AK47,
    AUG,
    AWP,
    Famas,
    G3SG1,
    Galil,
    M249,
    M4A4,
    MAC10,
    P90,
    UMP45,
    XM1014,
    Bizon,
    MAG7,
    Negev,
    SawedOff,
    TEC9,
    Zeus,
    P2000,
    MP7,
    MP9,
    Nova,
    P250,
    SCAR20,
    SG553,
    SSG08,
    KniveT,
    FlashBang,
    HEGrenade,
    Smoke,
    Molotov,
    Decoy,
    FireBomb,
    C4,
    MusicKit,
    KniveCT,
    M4A1S,
    USPS,
    TradeUpContract,
    CZ75A,
    Revolver,
    KniveBayonet,
    KniveFlip,
    KniveGut,
    KniveKarambit,
    KniveM9Bayonet,
    KniveHuntsman,
    KniveFalchion,
    KniveBowie,
    KniveButterfly,
    KniveShadowDaggers,
}

/// The item-definition index of each weapon type.
pub open spec fn weapon_type_number(t: WeaponType) -> int {
    match t {
        WeaponType::Deagle => 1,
        WeaponType::Elite => 2,
        WeaponType::FiveSeven => 3,
        WeaponType::Glock => 4,
        WeaponType::AK47 => 7,
        WeaponType::AUG => 8,
        WeaponType::AWP => 9,
        WeaponType::Famas => 10,
        WeaponType::G3SG1 => 11,
        WeaponType::Galil => 13,
        WeaponType::M249 => 14,
        WeaponType::M4A4 => 16,
        WeaponType::MAC10 => 17,
        WeaponType::P90 => 19,
        WeaponType::UMP45 => 24,
        WeaponType::XM1014 => 25,
        WeaponType::Bizon => 26,
        WeaponType::MAG7 => 27,
        WeaponType::Negev => 28,
        WeaponType::SawedOff => 29,
        WeaponType::TEC9 => 30,
        WeaponType::Zeus => 31,
        WeaponType::P2000 => 32,
        WeaponType::MP7 => 33,
        WeaponType::MP9 => 34,
        WeaponType::Nova => 35,
        WeaponType::P250 => 36,
        WeaponType::SCAR20 => 38,
        WeaponType::SG553 => 39,
        WeaponType::SSG08 => 40,
        WeaponType::KniveT => 42,
        WeaponType::FlashBang => 43,
        WeaponType::HEGrenade => 44,
        WeaponType::Smoke => 45,
        WeaponType::Molotov => 46,
        WeaponType::Decoy => 47,
        WeaponType::FireBomb => 48,
        WeaponType::C4 => 49,
        WeaponType::MusicKit => 58,
        WeaponType::KniveCT => 59,
        WeaponType::M4A1S => 60,
        WeaponType::USPS => 61,
        WeaponType::TradeUpContract => 62,
        WeaponType::CZ75A => 63,
        WeaponType::Revolver => 64,
        WeaponType::KniveBayonet => 500,
        WeaponType::KniveFlip => 505,
        WeaponType::KniveGut => 506,
        WeaponType::KniveKarambit => 507,
        WeaponType::KniveM9Bayonet => 508,
        WeaponType::KniveHuntsman => 509,
        WeaponType::KniveFalchion => 512,
        WeaponType::KniveBowie => 514,
        WeaponType::KniveButterfly => 515,
        WeaponType::KniveShadowDaggers => 516,
    }
}

impl WeaponType {
    /// The item-definition index of this weapon type.
    pub fn to_i16(self) -> (r: i16)
        ensures
            r == weapon_type_number(self),
    {
        match self {
            WeaponType::Deagle => 1,
            WeaponType::Elite => 2,
            WeaponType::FiveSeven => 3,
            WeaponType::Glock => 4,
            WeaponType::AK47 => 7,
            WeaponType::AUG => 8,
            WeaponType::AWP => 9,
            WeaponType::Famas => 10,
            WeaponType::G3SG1 => 11,
            WeaponType::Galil => 13,
            WeaponType::M249 => 14,
            WeaponType::M4A4 => 16,
            WeaponType::MAC10 => 17,
            WeaponType::P90 => 19,
            WeaponType::UMP45 => 24,
            WeaponType::XM1014 => 25,
            WeaponType::Bizon => 26,
            WeaponType::MAG7 => 27,
            WeaponType::Negev => 28,
            WeaponType::SawedOff => 29,
            WeaponType::TEC9 => 30,
            WeaponType::Zeus => 31,
            WeaponType::P2000 => 32,
            WeaponType::MP7 => 33,
            WeaponType::MP9 => 34,
            WeaponType::Nova => 35,
            WeaponType::P250 => 36,
            WeaponType::SCAR20 => 38,
            WeaponType::SG553 => 39,
            WeaponType::SSG08 => 40,
            WeaponType::KniveT => 42,
            WeaponType::FlashBang => 43,
            WeaponType::HEGrenade => 44,
            WeaponType::Smoke => 45,
            WeaponType::Molotov => 46,
            WeaponType::Decoy => 47,
            WeaponType::FireBomb => 48,
            WeaponType::C4 => 49,
            WeaponType::MusicKit => 58,
            WeaponType::KniveCT => 59,
            WeaponType::M4A1S => 60,
            WeaponType::USPS => 61,
            WeaponType::TradeUpContract => 62,
            WeaponType::CZ75A => 63,
            WeaponType::Revolver => 64,
            WeaponType::KniveBayonet => 500,
            WeaponType::KniveFlip => 505,
            WeaponType::KniveGut => 506,
            WeaponType::KniveKarambit => 507,
            WeaponType::KniveM9Bayonet => 508,
            WeaponType::KniveHuntsman => 509,
            WeaponType::KniveFalchion => 512,
            WeaponType::KniveBowie => 514,
            WeaponType::KniveButterfly => 515,
            WeaponType::KniveShadowDaggers => 516,
        }
    }

    /// The weapon type with item-definition index `v`; `None` for an index no
    /// weapon type has.
    pub fn from_i16(v: i16) -> (r: Option<WeaponType>)
        ensures
            r matches Some(t) ==> weapon_type_number(t) == v,
            r is None ==> forall|t: WeaponType| weapon_type_number(t) != v,
    {
        match v {
            1 => Some(WeaponType::Deagle),
            2 => Some(WeaponType::Elite),
            3 => Some(WeaponType::FiveSeven),
            4 => Some(WeaponType::Glock),
            7 => Some(WeaponType::AK47),
            8 => Some(WeaponType::AUG),
            9 => Some(WeaponType::AWP),
            10 => Some(WeaponType::Famas),
            11 => Some(WeaponType::G3SG1),
            13 => Some(WeaponType::Galil),
            14 => Some(WeaponType::M249),
            16 => Some(WeaponType::M4A4),
            17 => Some(WeaponType::MAC10),
            19 => Some(WeaponType::P90),
            24 => Some(WeaponType::UMP45),
            25 => Some(WeaponType::XM1014),
            26 => Some(WeaponType::Bizon),
            27 => Some(WeaponType::MAG7),
            28 => Some(WeaponType::Negev),
            29 => Some(WeaponType::SawedOff),
            30 => Some(WeaponType::TEC9),
            31 => Some(WeaponType::Zeus),
            32 => Some(WeaponType::P2000),
            33 => Some(WeaponType::MP7),
            34 => Some(WeaponType::MP9),
            35 => Some(WeaponType::Nova),
            36 => Some(WeaponType::P250),
            38 => Some(WeaponType::SCAR20),
            39 => Some(WeaponType::SG553),
            40 => Some(WeaponType::SSG08),
            42 => Some(WeaponType::KniveT),
            43 => Some(WeaponType::FlashBang),
            44 => Some(WeaponType::HEGrenade),
            45 => Some(WeaponType::Smoke),
            46 => Some(WeaponType::Molotov),
            47 => Some(WeaponType::Decoy),
            48 => Some(WeaponType::FireBomb),
            49 => Some(WeaponType::C4),
            58 => Some(WeaponType::MusicKit),
            59 => Some(WeaponType::KniveCT),
            60 => Some(WeaponType::M4A1S),
            61 => Some(WeaponType::USPS),
            62 => Some(WeaponType::TradeUpContract),
            63 => Some(WeaponType::CZ75A),
            64 => Some(WeaponType::Revolver),
            500 => Some(WeaponType::KniveBayonet),
            505 => Some(WeaponType::KniveFlip),
            506 => Some(WeaponType::KniveGut),
            507 => Some(WeaponType::KniveKarambit),
            508 => Some(WeaponType::KniveM9Bayonet),
            509 => Some(WeaponType::KniveHuntsman),
            512 => Some(WeaponType::KniveFalchion),
            514 => Some(WeaponType::KniveBowie),
            515 => Some(WeaponType::KniveButterfly),
            516 => Some(WeaponType::KniveShadowDaggers),
            _ => None,
        }
    }
}

/// The glyph of the item-icon font that draws each weapon type; `None` for the
/// types without an icon (the Desert Eagle, music kits and trade-up contracts).
pub open spec fn weapon_icon(t: WeaponType) -> Option<Seq<char>> {
    match t {
        WeaponType::Deagle => None,
        WeaponType::Elite => Some("S"@),
        WeaponType::FiveSeven => Some("U"@),
        WeaponType::Glock => Some("C"@),
        WeaponType::AK47 => Some("B"@),
        WeaponType::AUG => Some("E"@),
        WeaponType::AWP => Some("R"@),
        WeaponType::Famas => Some("T"@),
        WeaponType::G3SG1 => Some("I"@),
        WeaponType::Galil => Some("V"@),
        WeaponType::M249 => Some("Z"@),
        WeaponType::M4A4 => Some("W"@),
        WeaponType::MAC10 => Some("L"@),
        WeaponType::P90 => Some("M"@),
        WeaponType::UMP45 => Some("Q"@),
        WeaponType::XM1014 => Some("]"@),
        WeaponType::Bizon => Some("D"@),
        WeaponType::MAG7 => Some("K"@),
        WeaponType::Negev => Some("Z"@),
        WeaponType::SawedOff => Some("K"@),
        WeaponType::TEC9 => Some("C"@),
        WeaponType::Zeus => Some("Y"@),
        WeaponType::P2000 => Some("Y"@),
        WeaponType::MP7 => Some("X"@),
        WeaponType::MP9 => Some("D"@),
        WeaponType::Nova => Some("K"@),
        WeaponType::P250 => Some("Y"@),
        WeaponType::SCAR20 => Some("I"@),
        WeaponType::SG553 => Some("["@),
        WeaponType::SSG08 => Some("N"@),
        WeaponType::KniveT => Some("J"@),
        WeaponType::FlashBang => Some("G"@),
        WeaponType::HEGrenade => Some("H"@),
        WeaponType::Smoke => Some("P"@),
        WeaponType::Molotov => Some("H"@),
        WeaponType::Decoy => Some("G"@),
        WeaponType::FireBomb => Some("H"@),
        WeaponType::C4 => Some("\\"@),
        WeaponType::MusicKit => None,
        WeaponType::KniveCT => Some("J"@),
        WeaponType::M4A1S => Some("W"@),
        WeaponType::USPS => Some("Y"@),
        WeaponType::TradeUpContract => None,
        WeaponType::CZ75A => Some("Y"@),
        WeaponType::Revolver => Some("F"@),
        WeaponType::KniveBayonet => Some("J"@),
        WeaponType::KniveFlip => Some("J"@),
        WeaponType::KniveGut => Some("J"@),
        WeaponType::KniveKarambit => Some("J"@),
        WeaponType::KniveM9Bayonet => Some("J"@),
        WeaponType::KniveHuntsman => Some("J"@),
        WeaponType::KniveFalchion => Some("J"@),
        WeaponType::KniveBowie => Some("J"@),
        WeaponType::KniveButterfly => Some("J"@),
        WeaponType::KniveShadowDaggers => Some("J"@),
    }
}

/// The map from weapon types to the glyphs that draw their icons, kept by each
/// type's item-definition index.
pub struct WeaponMap {
    icons: HashMap<i16, &'static str>,
}

/// The glyph of each weapon type whose item-definition index has an entry in `icons`.
pub open spec fn icons_by_type(icons: Map<i16, &'static str>) -> Map<WeaponType, Seq<char>> {
    Map::new(
        |t: WeaponType| icons.contains_key(weapon_type_number(t) as i16),
        |t: WeaponType| icons[weapon_type_number(t) as i16]@,
    )
}

impl WeaponMap {
    /// The glyph for weapon type `ty`, if it has an icon.
    pub fn get(&self, ty: WeaponType) -> (r: Option<&'static str>)
        ensures
            self@.contains_key(ty) ==> (r matches Some(s) && s@ == self@[ty]),
            !self@.contains_key(ty) ==> r is None,
    {
        match self.icons.get(&ty.to_i16()) {
            Some(s) => Some(*s),
            None => None,
        }
    }
}

impl View for WeaponMap {
    type V = Map<WeaponType, Seq<char>>;

    /// Each weapon type that has an entry, mapped to its glyph.
    closed spec fn view(&self) -> Map<WeaponType, Seq<char>> {
        icons_by_type(self.icons@)
    }
}

/// The glyphs of the weapon types that have an icon, as the icon font draws them.
pub open spec fn icon_map() -> Map<WeaponType, Seq<char>> {
    Map::new(|t: WeaponType| weapon_icon(t) is Some, |t: WeaponType| weapon_icon(t)->0)
}

/// Builds the map from weapon types to icon glyphs.
#[verifier::rlimit(80)]
pub fn init_weapon_map() -> (r: WeaponMap)
    ensures
        r@ == icon_map(),
{
    let mut icons: HashMap<i16, &'static str> = HashMap::new();
    icons.insert(WeaponType::Elite.to_i16(), "S");
    icons.insert(WeaponType::FiveSeven.to_i16(), "U");
    icons.insert(WeaponType::Glock.to_i16(), "C");
    icons.insert(WeaponType::AK47.to_i16(), "B");
    icons.insert(WeaponType::AUG.to_i16(), "E");
    icons.insert(WeaponType::AWP.to_i16(), "R");
    icons.insert(WeaponType::Famas.to_i16(), "T");
    icons.insert(WeaponType::G3SG1.to_i16(), "I");
    icons.insert(WeaponType::Galil.to_i16(), "V");
    icons.insert(WeaponType::M249.to_i16(), "Z");
    icons.insert(WeaponType::M4A4.to_i16(), "W");
    icons.insert(WeaponType::MAC10.to_i16(), "L");
    icons.insert(WeaponType::P90.to_i16(), "M");
    icons.insert(WeaponType::UMP45.to_i16(), "Q");
    icons.insert(WeaponType::XM1014.to_i16(), "]");
    icons.insert(WeaponType::Bizon.to_i16(), "D");
    icons.insert(WeaponType::MAG7.to_i16(), "K");
    icons.insert(WeaponType::Negev.to_i16(), "Z");
    icons.insert(WeaponType::SawedOff.to_i16(), "K");
    icons.insert(WeaponType::TEC9.to_i16(), "C");
    icons.insert(WeaponType::Zeus.to_i16(), "Y");
    icons.insert(WeaponType::P2000.to_i16(), "Y");
    icons.insert(WeaponType::MP7.to_i16(), "X");
    icons.insert(WeaponType::MP9.to_i16(), "D");
    icons.insert(WeaponType::Nova.to_i16(), "K");
    icons.insert(WeaponType::P250.to_i16(), "Y");
    icons.insert(WeaponType::SCAR20.to_i16(), "I");
    icons.insert(WeaponType::SG553.to_i16(), "[");
    icons.insert(WeaponType::SSG08.to_i16(), "N");
    icons.insert(WeaponType::KniveCT.to_i16(), "J");
    icons.insert(WeaponType::FlashBang.to_i16(), "G");
    icons.insert(WeaponType::HEGrenade.to_i16(), "H");
    icons.insert(WeaponType::Smoke.to_i16(), "P");
    icons.insert(WeaponType::Molotov.to_i16(), "H");
    icons.insert(WeaponType::Decoy.to_i16(), "G");
    icons.insert(WeaponType::FireBomb.to_i16(), "H");
    icons.insert(WeaponType::C4.to_i16(), "\\");
    icons.insert(WeaponType::KniveT.to_i16(), "J");
    icons.insert(WeaponType::M4A1S.to_i16(), "W");
    icons.insert(WeaponType::USPS.to_i16(), "Y");
    icons.insert(WeaponType::CZ75A.to_i16(), "Y");
    icons.insert(WeaponType::Revolver.to_i16(), "F");
    icons.insert(WeaponType::KniveBayonet.to_i16(), "J");
    icons.insert(WeaponType::KniveFlip.to_i16(), "J");
    icons.insert(WeaponType::KniveGut.to_i16(), "J");
    icons.insert(WeaponType::KniveKarambit.to_i16(), "J");
    icons.insert(WeaponType::KniveM9Bayonet.to_i16(), "J");
    icons.insert(WeaponType::KniveHuntsman.to_i16(), "J");
    icons.insert(WeaponType::KniveFalchion.to_i16(), "J");
    icons.insert(WeaponType::KniveBowie.to_i16(), "J");
    icons.insert(WeaponType::KniveButterfly.to_i16(), "J");
    icons.insert(WeaponType::KniveShadowDaggers.to_i16(), "J");
    proof {
        assert forall|t: WeaponType| #[trigger] icon_map().contains_key(t) implies icons@.contains_key(
            weapon_type_number(t) as i16,
        ) && icons@[weapon_type_number(t) as i16]@ == weapon_icon(t)->0 by {}
        assert(icons_by_type(icons@) =~= icon_map());
    }
    WeaponMap { icons }
}

impl Weapon {
    /// The weapon's item-definition index (`DT_BaseAttributableItem->m_iItemDefinitionIndex`).
    pub fn get_id(&self, netvars: &NetvarMap, mem: &MemoryImage) -> (r: Option<i16>)
        ensures
            r == (match netvar_address(
                self.vtable,
                netvars@,
                "DT_BaseAttributableItem"@,
                "m_iItemDefinitionIndex"@,
            ) {
                Some(a) => mem.spec_read_i16(a as int),
                None => None,
            }),
    {
        let offset = crate::netvar::get_offset(netvars, "DT_BaseAttributableItem", "m_iItemDefinitionIndex");
        match crate::memory::value_address(self.vtable, offset) {
            Some(addr) => mem.read_i16(addr),
            None => None,
        }
    }
}

/// The icon glyph for the item with definition index `id`: `None` when no weapon
/// type has that index or the type has no icon.
pub fn item_icon(map: &WeaponMap, id: i16) -> (r: Option<&'static str>)
    ensures
        r matches Some(s) ==> exists|t: WeaponType| weapon_type_number(t) == id && map@.contains_key(t) && s@ == map@[t],
        r is None ==> forall|t: WeaponType| weapon_type_number(t) == id ==> !map@.contains_key(t),
{
    match WeaponType::from_i16(id) {
        Some(ty) => map.get(ty),
        None => None,
    }
}


/// No two weapon types share an item-definition index, so converting a type to its
/// index and back gives the same type.
pub proof fn law_weapon_numbers_distinct(a: WeaponType, b: WeaponType)
    ensures
        weapon_type_number(a) == weapon_type_number(b) ==> a == b,
{
}

/// Every knife that has an icon is drawn with the same glyph, `J`.
pub proof fn law_knives_share_glyph(t: WeaponType)
    requires
        t == WeaponType::KniveT || t == WeaponType::KniveCT || weapon_type_number(t) >= 500,
    ensures
        weapon_icon(t) == Some("J"@),
{
}

/// Exactly three weapon types have no icon: the Desert Eagle, music kits and
/// trade-up contracts.
pub proof fn law_types_without_icon(t: WeaponType)
    ensures
        weapon_icon(t) is None <==> (t == WeaponType::Deagle || t == WeaponType::MusicKit || t
            == WeaponType::TradeUpContract),
{
}


/// The glyph of the icon font that draws each weapon type, as the map that
/// `init_weapon_map` builds holds it; exactly the types listed first have no icon.
pub proof fn law_icon_glyphs(t: WeaponType)
    ensures
        !icon_map().contains_key(t) <==> (t == WeaponType::Deagle || t == WeaponType::MusicKit
            || t == WeaponType::TradeUpContract),
        (t == WeaponType::Elite) ==> icon_map().contains_key(t) && icon_map()[t] == "S"@,
        (t == WeaponType::FiveSeven) ==> icon_map().contains_key(t) && icon_map()[t] == "U"@,
        (t == WeaponType::Glock || t == WeaponType::TEC9) ==> icon_map().contains_key(t) && icon_map()[t] == "C"@,
        (t == WeaponType::AK47) ==> icon_map().contains_key(t) && icon_map()[t] == "B"@,
        (t == WeaponType::AUG) ==> icon_map().contains_key(t) && icon_map()[t] == "E"@,
        (t == WeaponType::AWP) ==> icon_map().contains_key(t) && icon_map()[t] == "R"@,
        (t == WeaponType::Famas) ==> icon_map().contains_key(t) && icon_map()[t] == "T"@,
        (t == WeaponType::G3SG1 || t == WeaponType::SCAR20) ==> icon_map().contains_key(t) && icon_map()[t] == "I"@,
        (t == WeaponType::Galil) ==> icon_map().contains_key(t) && icon_map()[t] == "V"@,
        (t == WeaponType::M249 || t == WeaponType::Negev) ==> icon_map().contains_key(t) && icon_map()[t] == "Z"@,
        (t == WeaponType::M4A4 || t == WeaponType::M4A1S) ==> icon_map().contains_key(t) && icon_map()[t] == "W"@,
        (t == WeaponType::MAC10) ==> icon_map().contains_key(t) && icon_map()[t] == "L"@,
        (t == WeaponType::P90) ==> icon_map().contains_key(t) && icon_map()[t] == "M"@,
        (t == WeaponType::UMP45) ==> icon_map().contains_key(t) && icon_map()[t] == "Q"@,
        (t == WeaponType::XM1014) ==> icon_map().contains_key(t) && icon_map()[t] == "]"@,
        (t == WeaponType::Bizon || t == WeaponType::MP9) ==> icon_map().contains_key(t) && icon_map()[t] == "D"@,
        (t == WeaponType::MAG7 || t == WeaponType::SawedOff || t == WeaponType::Nova) ==> icon_map().contains_key(t) && icon_map()[t] == "K"@,
        (t == WeaponType::Zeus || t == WeaponType::P2000 || t == WeaponType::P250 || t == WeaponType::USPS || t == WeaponType::CZ75A) ==> icon_map().contains_key(t) && icon_map()[t] == "Y"@,
        (t == WeaponType::MP7) ==> icon_map().contains_key(t) && icon_map()[t] == "X"@,
        (t == WeaponType::SG553) ==> icon_map().contains_key(t) && icon_map()[t] == "["@,
        (t == WeaponType::SSG08) ==> icon_map().contains_key(t) && icon_map()[t] == "N"@,
        (t == WeaponType::KniveT || t == WeaponType::KniveCT || t == WeaponType::KniveBayonet || t == WeaponType::KniveFlip || t == WeaponType::KniveGut || t == WeaponType::KniveKarambit || t == WeaponType::KniveM9Bayonet || t == WeaponType::KniveHuntsman || t == WeaponType::KniveFalchion || t == WeaponType::KniveBowie || t == WeaponType::KniveButterfly || t == WeaponType::KniveShadowDaggers) ==> icon_map().contains_key(t) && icon_map()[t] == "J"@,
        (t == WeaponType::FlashBang || t == WeaponType::Decoy) ==> icon_map().contains_key(t) && icon_map()[t] == "G"@,
        (t == WeaponType::HEGrenade || t == WeaponType::Molotov || t == WeaponType::FireBomb) ==> icon_map().contains_key(t) && icon_map()[t] == "H"@,
        (t == WeaponType::Smoke) ==> icon_map().contains_key(t) && icon_map()[t] == "P"@,
        (t == WeaponType::C4) ==> icon_map().contains_key(t) && icon_map()[t] == "\\"@,
        (t == WeaponType::Revolver) ==> icon_map().contains_key(t) && icon_map()[t] == "F"@,
{
}


/// The item-definition index the game gives each weapon type.
pub proof fn law_item_definition_indices(t: WeaponType)
    ensures
        t == WeaponType::Deagle ==> weapon_type_number(t) == 1,
        t == WeaponType::Elite ==> weapon_type_number(t) == 2,
        t == WeaponType::FiveSeven ==> weapon_type_number(t) == 3,
        t == WeaponType::Glock ==> weapon_type_number(t) == 4,
        t == WeaponType::AK47 ==> weapon_type_number(t) == 7,
        t == WeaponType::AUG ==> weapon_type_number(t) == 8,
        t == WeaponType::AWP ==> weapon_type_number(t) == 9,
        t == WeaponType::Famas ==> weapon_type_number(t) == 10,
        t == WeaponType::G3SG1 ==> weapon_type_number(t) == 11,
        t == WeaponType::Galil ==> weapon_type_number(t) == 13,
        t == WeaponType::M249 ==> weapon_type_number(t) == 14,
        t == WeaponType::M4A4 ==> weapon_type_number(t) == 16,
        t == WeaponType::MAC10 ==> weapon_type_number(t) == 17,
        t == WeaponType::P90 ==> weapon_type_number(t) == 19,
        t == WeaponType::UMP45 ==> weapon_type_number(t) == 24,
        t == WeaponType::XM1014 ==> weapon_type_number(t) == 25,
        t == WeaponType::Bizon ==> weapon_type_number(t) == 26,
        t == WeaponType::MAG7 ==> weapon_type_number(t) == 27,
        t == WeaponType::Negev ==> weapon_type_number(t) == 28,
        t == WeaponType::SawedOff ==> weapon_type_number(t) == 29,
        t == WeaponType::TEC9 ==> weapon_type_number(t) == 30,
        t == WeaponType::Zeus ==> weapon_type_number(t) == 31,
        t == WeaponType::P2000 ==> weapon_type_number(t) == 32,
        t == WeaponType::MP7 ==> weapon_type_number(t) == 33,
        t == WeaponType::MP9 ==> weapon_type_number(t) == 34,
        t == WeaponType::Nova ==> weapon_type_number(t) == 35,
        t == WeaponType::P250 ==> weapon_type_number(t) == 36,
        t == WeaponType::SCAR20 ==> weapon_type_number(t) == 38,
        t == WeaponType::SG553 ==> weapon_type_number(t) == 39,
        t == WeaponType::SSG08 ==> weapon_type_number(t) == 40,
        t == WeaponType::KniveT ==> weapon_type_number(t) == 42,
        t == WeaponType::FlashBang ==> weapon_type_number(t) == 43,
        t == WeaponType::HEGrenade ==> weapon_type_number(t) == 44,
        t == WeaponType::Smoke ==> weapon_type_number(t) == 45,
        t == WeaponType::Molotov ==> weapon_type_number(t) == 46,
        t == WeaponType::Decoy ==> weapon_type_number(t) == 47,
        t == WeaponType::FireBomb ==> weapon_type_number(t) == 48,
        t == WeaponType::C4 ==> weapon_type_number(t) == 49,
        t == WeaponType::MusicKit ==> weapon_type_number(t) == 58,
        t == WeaponType::KniveCT ==> weapon_type_number(t) == 59,
        t == WeaponType::M4A1S ==> weapon_type_number(t) == 60,
        t == WeaponType::USPS ==> weapon_type_number(t) == 61,
        t == WeaponType::TradeUpContract ==> weapon_type_number(t) == 62,
        t == WeaponType::CZ75A ==> weapon_type_number(t) == 63,
        t == WeaponType::Revolver ==> weapon_type_number(t) == 64,
        t == WeaponType::KniveBayonet ==> weapon_type_number(t) == 500,
        t == WeaponType::KniveFlip ==> weapon_type_number(t) == 505,
        t == WeaponType::KniveGut ==> weapon_type_number(t) == 506,
        t == WeaponType::KniveKarambit ==> weapon_type_number(t) == 507,
        t == WeaponType::KniveM9Bayonet ==> weapon_type_number(t) == 508,
        t == WeaponType::KniveHuntsman ==> weapon_type_number(t) == 509,
        t == WeaponType::KniveFalchion ==> weapon_type_number(t) == 512,
        t == WeaponType::KniveBowie ==> weapon_type_number(t) == 514,
        t == WeaponType::KniveButterfly ==> weapon_type_number(t) == 515,
        t == WeaponType::KniveShadowDaggers ==> weapon_type_number(t) == 516,
{
}

} // verus!
