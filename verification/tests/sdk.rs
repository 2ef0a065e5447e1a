use csgo_sdk::memory::{Interface, MemoryImage, NotNull};
use csgo_sdk::netvar::{store_props, NetvarMap, PropType, RecvProp, RecvTable};
use csgo_sdk::sdk::classes::{EButtons, Stage, ATTACK, DUCK, JUMP};
use csgo_sdk::sdk::interfaces::{CEntity, Client, EntityList, Input, Weapon};
use csgo_sdk::sdk::model::StudioModel;
use csgo_sdk::sdk::surface::Color;
use csgo_sdk::sdk::trace::{is_armored, HitGroup, TraceFilterGeneric, TraceFilterTrait, TraceType};
use csgo_sdk::sdk::weapon::{init_weapon_map, item_icon, WeaponType};
use csgo_sdk::features::ESP;

fn netvars(entries: &[(&str, &str, i32)]) -> NetvarMap {
    // Each entry: (class, property, offset); stored the way a scan stores them.
    let mut m = NetvarMap::new();
    for (class, name, offset) in entries {
        let t = RecvTable {
            table_name: "DT_T".to_string(),
            recv_props: vec![RecvProp {
                prop_name: name.to_string(),
                prop_type: PropType::Int,
                offset: *offset,
                data_table: None,
            }],
        };
        store_props(&class.to_string(), &t, 0, &mut m);
    }
    m
}

fn image(base: usize, size: usize, writes: &[(usize, &[u8])]) -> MemoryImage {
    let mut bytes = vec![0u8; size];
    for (at, data) in writes {
        for (k, b) in data.iter().enumerate() {
            bytes[at - base + k] = *b;
        }
    }
    MemoryImage::new(base, bytes).unwrap()
}

#[test]
fn hit_group_conversion() {
    assert_eq!(HitGroup::try_from_i32(1), Ok(HitGroup::Head));
    assert_eq!(HitGroup::try_from_i32(2), Ok(HitGroup::Chest));
    assert_eq!(HitGroup::try_from_i32(3), Ok(HitGroup::Stomach));
    assert_eq!(HitGroup::try_from_i32(4), Ok(HitGroup::LeftArm));
    assert_eq!(HitGroup::try_from_i32(5), Ok(HitGroup::RightArm));
    assert_eq!(HitGroup::try_from_i32(7), Ok(HitGroup::RightLeg));
    assert_eq!(HitGroup::try_from_i32(6), Err(()));
    assert_eq!(HitGroup::try_from_i32(0), Err(()));
    assert_eq!(HitGroup::try_from_i32(10), Err(()));
    assert_eq!(HitGroup::try_from_i32(-1), Err(()));
    assert_eq!(HitGroup::Gear.to_i32(), 10);
    assert_eq!(HitGroup::Invalid.to_i32(), -1);
}

#[test]
fn armor_covers_head_only_with_helmet() {
    assert!(is_armored(1, true));
    assert!(!is_armored(1, false));
    assert!(is_armored(2, false));
    assert!(is_armored(3, false));
    assert!(is_armored(4, false));
    assert!(is_armored(5, true));
    assert!(!is_armored(6, true));
    assert!(!is_armored(7, true));
    assert!(!is_armored(0, true));
    assert!(!is_armored(10, true));
    assert!(!is_armored(-1, true));
}

#[test]
fn weapon_type_numbers_round_trip() {
    assert_eq!(WeaponType::AK47.to_i16(), 7);
    assert_eq!(WeaponType::KniveShadowDaggers.to_i16(), 516);
    assert_eq!(WeaponType::from_i16(7), Some(WeaponType::AK47));
    assert_eq!(WeaponType::from_i16(64), Some(WeaponType::Revolver));
    assert_eq!(WeaponType::from_i16(5), None);
    assert_eq!(WeaponType::from_i16(0), None);
    assert_eq!(WeaponType::from_i16(WeaponType::USPS.to_i16()), Some(WeaponType::USPS));
}

#[test]
fn weapon_map_glyphs() {
    let map = init_weapon_map();
    assert_eq!(map.get(WeaponType::AK47), Some("B"));
    assert_eq!(map.get(WeaponType::C4), Some("\\"));
    assert_eq!(map.get(WeaponType::XM1014), Some("]"));
    assert_eq!(map.get(WeaponType::SG553), Some("["));
    assert_eq!(map.get(WeaponType::KniveKarambit), Some("J"));
    assert_eq!(map.get(WeaponType::Deagle), None);
    assert_eq!(map.get(WeaponType::MusicKit), None);
    assert_eq!(map.get(WeaponType::TradeUpContract), None);
}

#[test]
fn item_icon_by_definition_index() {
    let map = init_weapon_map();
    assert_eq!(item_icon(&map, 9), Some("R"));
    assert_eq!(item_icon(&map, 1), None);
    assert_eq!(item_icon(&map, 5), None);
    assert_eq!(item_icon(&map, 500), Some("J"));
}

#[test]
fn color_from_hex() {
    assert_eq!(Color::new_hex(0xff000000), Color::new_rgba(0, 0, 0, 255));
    assert_eq!(Color::new_hex(0x90000000), Color::new_rgba(0, 0, 0, 0x90));
    assert_eq!(Color::new_hex(0xffffffff), Color::new_rgba(255, 255, 255, 255));
    assert_eq!(Color::new_hex(0x12345678), Color::new_rgba(0x34, 0x56, 0x78, 0x12));
    assert_eq!(Color::new_rgb(1, 2, 3), Color { r: 1, g: 2, b: 3, a: 255 });
}

#[test]
fn buttons_contains_and_insert() {
    let mut b = EButtons::from_bits_truncate(JUMP);
    assert!(!b.contains(EButtons::from_bits_truncate(ATTACK)));
    b.insert(EButtons::from_bits_truncate(ATTACK));
    assert!(b.contains(EButtons::from_bits_truncate(ATTACK)));
    assert!(b.contains(EButtons::from_bits_truncate(JUMP)));
    assert_eq!(b.bits(), ATTACK | JUMP);
    assert_eq!(b.union(EButtons::from_bits_truncate(DUCK)).bits(), ATTACK | JUMP | DUCK);
    assert_eq!(EButtons::from_bits_truncate(1 << 30).bits(), 0);
    assert!(EButtons::empty().contains(EButtons::empty()));
}

#[test]
fn stage_numbers() {
    assert_eq!(Stage::from_i32(5), Some(Stage::FrameRenderStart));
    assert_eq!(Stage::from_i32(-1), Some(Stage::FrameUndefined));
    assert_eq!(Stage::from_i32(7), None);
    assert_eq!(Stage::FrameRenderEnd.to_i32(), 6);
}

#[test]
fn trace_filter_skips_one_entity() {
    let f = TraceFilterGeneric::new(0x1000);
    assert!(!f.should_hit_entity(0x1000, 0));
    assert!(f.should_hit_entity(0x2000, 0));
    assert_eq!(f.get_trace_type(), TraceType::EVERYTHING);
    assert_eq!(TraceType::EverythingFilterProps.to_i32(), 3);
}

#[test]
fn interface_address_round_trip() {
    let c = Client::new(0xdead);
    assert_eq!(c.base_address(), 0xdead);
    assert_eq!(NotNull { ptr: CEntity::new(0) }.get(), None);
    assert_eq!(NotNull { ptr: CEntity::new(4) }.get(), Some(CEntity { vtable: 4 }));
    assert_eq!(NotNull { ptr: CEntity::new(0) }.unwrap(), CEntity { vtable: 0 });
}

#[test]
fn memory_image_reads_little_endian() {
    let m = image(0x100, 16, &[(0x100, &[0x78, 0x56, 0x34, 0x12]), (0x104, &[0xff, 0xff, 0xff, 0xff]), (0x108, &[0x4d, 0x5a])]);
    assert_eq!(m.read_u32(0x100), Some(0x12345678));
    assert_eq!(m.read_i32(0x104), Some(-1));
    assert_eq!(m.read_u16(0x108), Some(0x5a4d));
    assert_eq!(m.read_i16(0x106), Some(-1));
    assert_eq!(m.read_u8(0x10f), Some(0));
    assert_eq!(m.read_u8(0x110), None);
    assert_eq!(m.read_u32(0x10d), None);
    assert_eq!(m.read_bool(0x100), Some(true));
    assert_eq!(m.read_bool(0x10a), Some(false));
    assert_eq!(m.read_u32s(0x100, 2), Some(vec![0x12345678, 0xffffffff]));
    assert_eq!(m.read_u32s(0x100, 5), None);
    assert!(MemoryImage::new(usize::MAX, vec![1, 2]).is_none());
    assert!(MemoryImage::new(usize::MAX, vec![1]).is_some());
}

#[test]
fn entity_health_and_weapons() {
    let nv = netvars(&[
        ("CBasePlayer", "m_iHealth", 0x10),
        ("CBaseCombatCharacter", "m_hActiveWeapon", 0x14),
        ("CBaseCombatCharacter", "m_hMyWeapons", 0x20),
    ]);
    let mut writes: Vec<(usize, Vec<u8>)> = vec![(0x1010, vec![100, 0, 0, 0]), (0x1014, vec![0x42, 0, 0, 0])];
    for k in 0..48usize {
        writes.push((0x1020 + 4 * k, vec![k as u8, 0, 0, 0]));
    }
    let borrowed: Vec<(usize, &[u8])> = writes.iter().map(|(a, v)| (*a, v.as_slice())).collect();
    let m = image(0x1000, 0x200, &borrowed);
    let e = CEntity::new(0x1000);
    assert_eq!(e.health(&nv, &m), Some(100));
    assert_eq!(e.is_alive(&nv, &m), Some(true));
    assert_eq!(e.get_active_weapon(&nv, &m), Some(0x42));
    let weapons = e.get_weapons(&nv, &m).unwrap();
    assert_eq!(weapons.len(), 48);
    assert_eq!(weapons[47], 47);
    let dead = image(0x1000, 0x200, &[(0x1010, &[0, 0, 0, 0])]);
    assert_eq!(e.is_alive(&nv, &dead), Some(false));
    let negative = image(0x1000, 0x200, &[(0x1010, &[0xff, 0xff, 0xff, 0xff])]);
    assert_eq!(e.is_alive(&nv, &negative), Some(false));
    assert_eq!(CEntity::new(0x5000).is_alive(&nv, &m), None);
}

#[test]
fn entity_weapon_from_resolved_handle() {
    let list = EntityList::new(0x10);
    let e = CEntity::new(0x1000);
    assert_eq!(e.get_weapon(&list, NotNull { ptr: CEntity::new(0) }), None);
    assert_eq!(e.get_weapon(&list, NotNull { ptr: CEntity::new(0x3000) }), Some(Weapon { vtable: 0x3000 }));
    let as_client: Option<Client> = list.entity_from_handle(NotNull { ptr: CEntity::new(7) });
    assert_eq!(as_client, Some(Client { vtable: 7 }));
}

#[test]
fn weapon_icon_from_memory() {
    let nv = netvars(&[("CBaseAttributableItem", "m_iItemDefinitionIndex", 0x8)]);
    let m = image(0x2000, 0x20, &[(0x2008, &[9, 0])]);
    let w = Weapon::new(0x2000);
    let id = w.get_id(&nv, &m).unwrap();
    assert_eq!(id, 9);
    assert_eq!(item_icon(&init_weapon_map(), id), Some("R"));
}

#[test]
fn third_person_flag_read_at_twice_the_base() {
    let input = Input::new(0x100);
    let m = image(0x200, 0x100, &[(0x200 + 0xAD, &[1])]);
    assert_eq!(input.is_third_person(&m), Some(true));
    let off = image(0x200, 0x100, &[]);
    assert_eq!(input.is_third_person(&off), Some(false));
    assert_eq!(Input::new(usize::MAX).is_third_person(&m), None);
}

#[test]
fn skeleton_lines_skip_roots_and_non_hitbox_bones() {
    // Three bones of 0xD8 bytes starting 0x10 past the header at 0x1000.
    let b = |i: usize| 0x1010 + 0xD8 * i;
    let m = image(
        0x1000,
        0x400,
        &[
            (b(0) + 4, &[0xff, 0xff, 0xff, 0xff]),
            (b(0) + 0xA0, &[0, 1, 0, 0]),
            (b(1) + 4, &[0, 0, 0, 0]),
            (b(1) + 0xA0, &[0, 1, 0, 0]),
            (b(2) + 4, &[1, 0, 0, 0]),
            (b(2) + 0xA0, &[0, 0, 0, 0]),
        ],
    );
    let model = StudioModel { address: 0x1000, bone_count: 3, bone_id: 0x10 };
    assert_eq!(model.bone(1, &m).unwrap().parent, 0);
    assert_eq!(ESP::bone_esp(&model, &m), vec![(1, 0)]);
    let none = StudioModel { address: 0x1000, bone_count: 0, bone_id: 0x10 };
    assert_eq!(ESP::bone_esp(&none, &m), vec![]);
}
