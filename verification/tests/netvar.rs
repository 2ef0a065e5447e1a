use csgo_sdk::netvar::{
    get_offset, join_key, replace_first_char, scan_netvars, store_key, store_props, ClientClass,
    NetvarMap, PropType, RecvProp, RecvTable,
};

fn prop(name: &str, prop_type: PropType, offset: i32, child: Option<RecvTable>) -> RecvProp {
    RecvProp {
        prop_name: name.to_string(),
        prop_type,
        offset,
        data_table: child.map(Box::new),
    }
}

fn table(name: &str, props: Vec<RecvProp>) -> RecvTable {
    RecvTable { table_name: name.to_string(), recv_props: props }
}

fn player_class() -> ClientClass {
    let local = table("DT_Local", vec![prop("m_aimPunchAngle", PropType::Vec, 0x70, None)]);
    let base = table("DT_BasePlayer", vec![prop("m_iHealth", PropType::Int, 0x999, None)]);
    let other = table("XT_Other", vec![prop("m_hidden", PropType::Int, 0x4, None)]);
    ClientClass {
        network_name: "CCSPlayer".to_string(),
        recv_table: table(
            "DT_CSPlayer",
            vec![
                prop("baseclass", PropType::DataTable, 0, Some(base)),
                prop("000", PropType::Int, 0x10, None),
                prop("m_iHealth", PropType::Int, 0x100, None),
                prop("m_Local", PropType::DataTable, 0x2FC, Some(local)),
                prop("m_Other", PropType::DataTable, 0x400, Some(other)),
                prop("m_ArmorValue", PropType::Int, 0x117CC, None),
            ],
        ),
    }
}

#[test]
fn join_key_uses_arrow() {
    assert_eq!(join_key("DT_BasePlayer", "m_iHealth"), "DT_BasePlayer->m_iHealth");
}

#[test]
fn replace_first_char_replaces_only_first() {
    assert_eq!(replace_first_char("CCSPlayer", 'C', "DT_"), "DT_CSPlayer");
    assert_eq!(replace_first_char("abc", 'C', "DT_"), "abc");
    assert_eq!(replace_first_char("", 'C', "DT_"), "");
}

#[test]
fn store_key_turns_first_c_into_dt() {
    assert_eq!(store_key("CBaseEntity", "m_vecOrigin"), "DT_BaseEntity->m_vecOrigin");
    assert_eq!(store_key("Foo", "m_C"), "Foo->m_DT_");
}

#[test]
fn netvar_map_insert_get_and_replace() {
    let mut m = NetvarMap::new();
    assert_eq!(m.len(), 0);
    m.insert("a->b".to_string(), 4);
    m.insert("a->c".to_string(), 8);
    assert_eq!(m.get(&"a->b".to_string()), Some(4));
    assert_eq!(m.get(&"a->c".to_string()), Some(8));
    assert_eq!(m.get(&"a->d".to_string()), None);
    m.insert("a->b".to_string(), 12);
    assert_eq!(m.get(&"a->b".to_string()), Some(12));
    assert_eq!(m.len(), 2);
}

#[test]
fn get_offset_defaults_to_zero() {
    let m = NetvarMap::new();
    assert_eq!(get_offset(&m, "DT_BasePlayer", "m_iHealth"), 0);
}

#[test]
fn store_props_walks_nested_tables() {
    let class = player_class();
    let mut m = NetvarMap::new();
    store_props(&class.network_name, &class.recv_table, 0, &mut m);
    assert_eq!(get_offset(&m, "DT_CSPlayer", "m_iHealth"), 0x100);
    assert_eq!(get_offset(&m, "DT_CSPlayer", "m_Local"), 0x2FC);
    assert_eq!(get_offset(&m, "DT_CSPlayer", "m_aimPunchAngle"), 0x2FC + 0x70);
    assert_eq!(get_offset(&m, "DT_CSPlayer", "m_Other"), 0x400);
    assert_eq!(get_offset(&m, "DT_CSPlayer", "m_hidden"), 0);
    assert_eq!(get_offset(&m, "DT_CSPlayer", "baseclass"), 0);
    assert_eq!(get_offset(&m, "DT_CSPlayer", "000"), 0);
    assert_eq!(get_offset(&m, "DT_CSPlayer", "m_ArmorValue"), 0x117CC);
    assert_eq!(m.len(), 5);
}

#[test]
fn store_props_adds_child_offset() {
    let t = table("DT_X", vec![prop("m_a", PropType::Int, 8, None)]);
    let mut m = NetvarMap::new();
    store_props(&"CX".to_string(), &t, 0x20, &mut m);
    assert_eq!(get_offset(&m, "DT_X", "m_a"), 0x28);
}

#[test]
fn scan_netvars_later_class_wins() {
    let first = ClientClass {
        network_name: "CA".to_string(),
        recv_table: table("DT_A", vec![prop("m_x", PropType::Int, 1, None)]),
    };
    let second = ClientClass {
        network_name: "CA".to_string(),
        recv_table: table("DT_A", vec![prop("m_x", PropType::Int, 2, None)]),
    };
    let m = scan_netvars(&vec![first, second, player_class()]);
    assert_eq!(get_offset(&m, "DT_A", "m_x"), 2);
    assert_eq!(get_offset(&m, "DT_CSPlayer", "m_iHealth"), 0x100);
}

#[test]
fn prop_type_numbers() {
    assert_eq!(PropType::DataTable.to_i32(), 6);
    assert_eq!(PropType::from_i32(6), Some(PropType::DataTable));
    assert_eq!(PropType::from_i32(0), Some(PropType::Int));
    assert_eq!(PropType::from_i32(7), Some(PropType::Int64));
    assert_eq!(PropType::from_i32(8), None);
    assert_eq!(PropType::from_i32(-1), None);
}

#[test]
fn store_props_keeps_letter_names_and_skips_digit_names() {
    let t = table(
        "DT_Y",
        vec![
            prop("m_x", PropType::Int, 4, None),
            prop("0x", PropType::Int, 8, None),
            prop("7", PropType::Int, 12, None),
            prop("x0", PropType::Int, 16, None),
        ],
    );
    let mut m = NetvarMap::new();
    store_props(&"CY".to_string(), &t, 0, &mut m);
    assert_eq!(get_offset(&m, "DT_Y", "m_x"), 4);
    assert_eq!(get_offset(&m, "DT_Y", "0x"), 0);
    assert_eq!(get_offset(&m, "DT_Y", "7"), 0);
    assert_eq!(get_offset(&m, "DT_Y", "x0"), 16);
    assert_eq!(m.len(), 2);
}
