use csgo_sdk::events::{is_top_panel, EventFrameStageNotify, EventPaintTraverse};
use csgo_sdk::features::{format_i32, is_enemy, Aimbot, AntiAim, Feature, ThirdPerson, Watermark, ESP};
use csgo_sdk::font::{
    convert_to_utf16, font_by_type, setup_fonts, text_bounds, FontFlags, FontType, Fonts, ANTI_ALIAS,
    DROP_SHADOW, OUTLINE,
};
use csgo_sdk::memory::{Interface, MemoryImage, NotNull, Signature, SignatureComponent, scan_for_signature};
use csgo_sdk::netvar::{store_props, NetvarMap, PropType, RecvProp, RecvTable};
use csgo_sdk::sdk::classes::Stage;
use csgo_sdk::sdk::interfaces::CEntity;

#[test]
fn feature_names() {
    assert_eq!(Aimbot::new().name(), "Aimbot");
    assert_eq!(AntiAim::new().name(), "AntiAim");
    assert_eq!(<ESP as Feature>::new().name(), "ESP");
    assert_eq!(Watermark::new().name(), "Watermark");
    assert_eq!(ThirdPerson::new().name(), "ThirdPerson");
}

#[test]
fn decimal_formatting() {
    assert_eq!(format_i32(0), "0");
    assert_eq!(format_i32(7), "7");
    assert_eq!(format_i32(144), "144");
    assert_eq!(format_i32(-45), "-45");
    assert_eq!(format_i32(i32::MAX), "2147483647");
    assert_eq!(format_i32(i32::MIN), "-2147483648");
}

#[test]
fn watermark_text() {
    let mut event = EventPaintTraverse {};
    let draw = Watermark::paint_traverse(&mut event, 144);
    assert_eq!(draw.text, "powered by rust @ 144fps");
    assert_eq!((draw.x, draw.y), (2, 2));
    assert_eq!(draw.font_type, FontType::Shadow);
    assert_eq!((draw.color.r, draw.color.g, draw.color.b, draw.color.a), (255, 255, 255, 255));
    assert_eq!(Watermark::paint_traverse(&mut event, 0).text, "powered by rust @ 0fps");
    assert_eq!(Watermark::paint_traverse(&mut event, 2).text, "powered by rust @ 2fps");
}

#[test]
fn enemy_filter() {
    assert!(is_enemy(true, true, 0x2000, 0x1000, 3, 2));
    assert!(!is_enemy(false, true, 0x2000, 0x1000, 3, 2));
    assert!(!is_enemy(true, false, 0x2000, 0x1000, 3, 2));
    assert!(!is_enemy(true, true, 0x1000, 0x1000, 3, 2));
    assert!(!is_enemy(true, true, 0x2000, 0x1000, 2, 2));
}

#[test]
fn top_panel_name() {
    assert!(is_top_panel("MatSystemTopPanel"));
    assert!(!is_top_panel("FocusOverlayPanel"));
    assert!(!is_top_panel("MatSystemTopPane"));
    assert!(!is_top_panel(""));
}

#[test]
fn fonts_to_create() {
    let fonts = setup_fonts();
    assert_eq!(fonts.len(), 2);
    assert_eq!(fonts[0].font_type, FontType::Outline);
    assert_eq!(fonts[0].windows_font_name, "Tahoma");
    assert_eq!(fonts[0].tall, 12);
    assert_eq!(fonts[0].weight, 500);
    assert_eq!(fonts[0].flags, 0x200);
    assert_eq!(fonts[1].font_type, FontType::Shadow);
    assert_eq!(fonts[1].flags, 0x090);
    assert_eq!(fonts[1].flags, ANTI_ALIAS | DROP_SHADOW);
    assert_eq!(fonts[0].flags, OUTLINE);
}

#[test]
fn font_flags_union() {
    let f = FontFlags::from_bits_truncate(ANTI_ALIAS).union(FontFlags::from_bits_truncate(DROP_SHADOW));
    assert!(f.contains(FontFlags::from_bits_truncate(ANTI_ALIAS)));
    assert!(!f.contains(FontFlags::from_bits_truncate(OUTLINE)));
    assert_eq!(FontFlags::from_bits_truncate(0x1000).bits(), 0);
}

#[test]
fn utf16_conversion_terminates_with_zero() {
    assert_eq!(convert_to_utf16("ab"), vec![97, 98, 0]);
    assert_eq!(convert_to_utf16(""), vec![0]);
    assert_eq!(convert_to_utf16("é"), vec![0xE9, 0]);
    assert_eq!(convert_to_utf16("\u{1F600}"), vec![0xD83D, 0xDE00, 0]);
    let expected: Vec<u16> = "a\u{10348}z".encode_utf16().chain(Some(0)).collect();
    assert_eq!(convert_to_utf16("a\u{10348}z"), expected);
}

#[test]
fn text_bounds_request() {
    let fonts = Fonts { outline: 11, shadow: 22 };
    assert_eq!(font_by_type(&fonts, FontType::Outline), 11);
    assert_eq!(font_by_type(&fonts, FontType::Shadow), 22);
    let req = text_bounds(&fonts, "hp", FontType::Shadow);
    assert_eq!(req.font, 22);
    assert_eq!(req.text, vec![104, 112, 0]);
}

fn deadflag_netvars() -> NetvarMap {
    let t = RecvTable {
        table_name: "DT_BasePlayer".to_string(),
        recv_props: vec![
            RecvProp { prop_name: "m_iHealth".to_string(), prop_type: PropType::Int, offset: 0x10, data_table: None },
            RecvProp { prop_name: "deadflag".to_string(), prop_type: PropType::Int, offset: 0x40, data_table: None },
        ],
    };
    let mut m = NetvarMap::new();
    store_props(&"CBasePlayer".to_string(), &t, 0, &mut m);
    m
}

#[test]
fn third_person_target_address() {
    let nv = deadflag_netvars();
    let mut bytes = vec![0u8; 0x100];
    bytes[0x10] = 50;
    let mem = MemoryImage::new(0x1000, bytes).unwrap();
    let local = NotNull { ptr: CEntity::new(0x1000) };
    let render = EventFrameStageNotify { stage: Stage::FrameRenderStart };
    assert_eq!(ThirdPerson::fns(&render, true, local, &nv, &mem), Some(0x1044));
    assert_eq!(ThirdPerson::fns(&render, false, NotNull { ptr: CEntity::new(0x1000) }, &nv, &mem), None);
    let other = EventFrameStageNotify { stage: Stage::FrameStart };
    assert_eq!(ThirdPerson::fns(&other, true, NotNull { ptr: CEntity::new(0x1000) }, &nv, &mem), None);
    assert_eq!(ThirdPerson::fns(&render, true, NotNull { ptr: CEntity::new(0) }, &nv, &mem), None);
    let dead = MemoryImage::new(0x1000, vec![0u8; 0x100]).unwrap();
    assert_eq!(ThirdPerson::fns(&render, true, NotNull { ptr: CEntity::new(0x1000) }, &nv, &dead), None);
}

fn pe_image(size_of_image: u32, at: usize, pattern: &[u8]) -> MemoryImage {
    let mut bytes = vec![0u8; 0x200];
    bytes[0] = 0x4d;
    bytes[1] = 0x5a;
    bytes[0x3c] = 0x40;
    bytes[0x40 + 0x50..0x40 + 0x54].copy_from_slice(&size_of_image.to_le_bytes());
    bytes[at..at + pattern.len()].copy_from_slice(pattern);
    MemoryImage::new(0x40_0000, bytes).unwrap()
}

fn sig(parts: &[Option<u8>]) -> Signature {
    Signature {
        sig: parts
            .iter()
            .map(|p| match p {
                Some(b) => SignatureComponent::Value(*b),
                None => SignatureComponent::Mask,
            })
            .collect(),
    }
}

#[test]
fn signature_scan_finds_first_match() {
    let image = pe_image(0x200, 0x100, &[0xde, 0xad, 0xbe, 0xef]);
    assert_eq!(scan_for_signature(&sig(&[Some(0xde), None, Some(0xbe)]), &image), Some(0x40_0100));
    assert_eq!(scan_for_signature(&sig(&[Some(0xbe), Some(0xef)]), &image), Some(0x40_0102));
    assert_eq!(scan_for_signature(&sig(&[Some(0x12)]), &image), None);
    assert_eq!(scan_for_signature(&sig(&[None]), &image), Some(0x40_0000));
}

#[test]
fn signature_scan_longer_than_image_fails() {
    let image = pe_image(0x3, 0x100, &[0xaa]);
    assert_eq!(scan_for_signature(&sig(&[None, None, None, None]), &image), None);
    assert_eq!(scan_for_signature(&sig(&[None, None, None]), &image), None);
    assert_eq!(scan_for_signature(&sig(&[None, None]), &image), Some(0x40_0000));
}

#[test]
fn signature_scan_stops_before_last_position() {
    // A match exactly at size - len is not a candidate.
    let image = pe_image(0x104, 0x100, &[0xaa, 0xbb, 0xcc, 0xdd]);
    assert_eq!(scan_for_signature(&sig(&[Some(0xaa), Some(0xbb), Some(0xcc), Some(0xdd)]), &image), None);
    assert_eq!(scan_for_signature(&sig(&[Some(0xaa), Some(0xbb), Some(0xcc)]), &image), Some(0x40_0100));
}

#[test]
fn signature_scan_needs_mz_header() {
    let mut bytes = vec![0u8; 0x100];
    bytes[0] = 0x4d;
    let image = MemoryImage::new(0x1000, bytes).unwrap();
    assert_eq!(scan_for_signature(&sig(&[None]), &image), None);
}

#[test]
fn health_text_only_below_full() {
    assert_eq!(ESP::health_text(100), None);
    assert_eq!(ESP::health_text(250), None);
    assert_eq!(ESP::health_text(99), Some("99".to_string()));
    assert_eq!(ESP::health_text(0), Some("0".to_string()));
    assert_eq!(ESP::health_text(-5), Some("-5".to_string()));
}
