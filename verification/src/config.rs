use vstd::prelude::*;

verus! {

/// Settings of the anti-aim feature. The pitch is a 32-bit float, held as its bit
/// pattern (`f32::to_bits`).
#[derive(Debug, Clone, Copy, PartialEq, Eq, Structural)]
pub struct AntiAimSettings {
    pub pitch_bits: u32,
}

/// Settings of the aimbot feature. The minimum damage and the field of view are
/// 32-bit floats, held as their bit patterns (`f32::to_bits`).
#[derive(Debug, Clone, Copy, PartialEq, Eq, Structural)]
pub struct AimbotSettings {
    pub min_damage_bits: u32,
    pub fov_bits: u32,
}

/// Settings of the ESP feature (none).
#[derive(Debug, Clone, Copy, PartialEq, Eq, Structural)]
pub struct ESPSettings {}

/// Settings of the watermark feature (none).
#[derive(Debug, Clone, Copy, PartialEq, Eq, Structural)]
pub struct WatermarkSettings {}

/// Settings of the third-person feature (none).
#[derive(Debug, Clone, Copy, PartialEq, Eq, Structural)]
pub struct ThirdPersonSettings {}

/// The settings of every feature.
#[derive(Debug, Clone, Copy, PartialEq, Eq, Structural)]
pub struct FeatureSettings {
    pub anti_aim: AntiAimSettings,
    pub aimbot: AimbotSettings,
    pub esp: ESPSettings,
    pub watermark: WatermarkSettings,
    pub third_person: ThirdPersonSettings,
}

/// The configuration file: its name, version and author, and the feature settings.
#[derive(Debug)]
pub struct Configuration {
    pub name: String,
    pub version: i32,
    pub author: String,
    pub features: FeatureSettings,
}

impl Clone for Configuration {
    fn clone(&self) -> (r: Self)
        ensures
            r == *self,
    {
        Configuration {
            name: self.name.clone(),
            version: self.version,
            author: self.author.clone(),
            features: self.features,
        }
    }
}

} // verus!
