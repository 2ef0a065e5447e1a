use csgo_sdk::config::{
    AimbotSettings, AntiAimSettings, Configuration, ESPSettings, FeatureSettings, ThirdPersonSettings,
    WatermarkSettings,
};

#[test]
fn configuration_clone_keeps_every_field() {
    let config = Configuration {
        name: "default".to_string(),
        version: 3,
        author: "someone".to_string(),
        features: FeatureSettings {
            anti_aim: AntiAimSettings { pitch_bits: 89.0f32.to_bits() },
            aimbot: AimbotSettings { min_damage_bits: 40.0f32.to_bits(), fov_bits: 10.0f32.to_bits() },
            esp: ESPSettings {},
            watermark: WatermarkSettings {},
            third_person: ThirdPersonSettings {},
        },
    };
    let copy = config.clone();
    assert_eq!(copy.name, "default");
    assert_eq!(copy.version, 3);
    assert_eq!(copy.author, "someone");
    assert_eq!(copy.features, config.features);
    assert_eq!(f32::from_bits(copy.features.aimbot.min_damage_bits), 40.0);
}
