use vstd::prelude::*;

use crate::memory::Interface;

verus! {

/// The client library interface (`VClient018`), which lists the networked classes.
#[derive(Debug, Clone, Copy, PartialEq, Eq, Structural)]
pub struct Client {
    pub vtable: usize,
}

impl Interface for Client {
    open spec fn spec_address(&self) -> usize {
        self.vtable
    }

    fn new(base_address: usize) -> (r: Self) {
        Client { vtable: base_address }
    }

    fn base_address(&self) -> (r: usize) {
        self.vtable
    }
}

/// The debug overlay interface, which projects world positions to the screen.
#[derive(Debug, Clone, Copy, PartialEq, Eq, Structural)]
pub struct DebugOverlay {
    pub vtable: usize,
}

impl Interface for DebugOverlay {
    open spec fn spec_address(&self) -> usize {
        self.vtable
    }

    fn new(base_address: usize) -> (r: Self) {
        DebugOverlay { vtable: base_address }
    }

    fn base_address(&self) -> (r: usize) {
        self.vtable
    }
}

/// The engine client interface (`VEngineClient014`).
#[derive(Debug, Clone, Copy, PartialEq, Eq, Structural)]
pub struct EngineClient {
    pub vtable: usize,
}

impl Interface for EngineClient {
    open spec fn spec_address(&self) -> usize {
        self.vtable
    }

    fn new(base_address: usize) -> (r: Self) {
        EngineClient { vtable: base_address }
    }

    fn base_address(&self) -> (r: usize) {
        self.vtable
    }
}

/// The client prediction interface.
#[derive(Debug, Clone, Copy, PartialEq, Eq, Structural)]
pub struct Prediction {
    pub vtable: usize,
}

impl Interface for Prediction {
    open spec fn spec_address(&self) -> usize {
        self.vtable
    }

    fn new(base_address: usize) -> (r: Self) {
        Prediction { vtable: base_address }
    }

    fn base_address(&self) -> (r: usize) {
        self.vtable
    }
}

/// The client entity list (`VClientEntityList003`).
#[derive(Debug, Clone, Copy, PartialEq, Eq, Structural)]
pub struct EntityList {
    pub vtable: usize,
}

impl Interface for EntityList {
    open spec fn spec_address(&self) -> usize {
        self.vtable
    }

    fn new(base_address: usize) -> (r: Self) {
        EntityList { vtable: base_address }
    }

    fn base_address(&self) -> (r: usize) {
        self.vtable
    }
}

/// The input interface, which holds the camera state.
#[derive(Debug, Clone, Copy, PartialEq, Eq, Structural)]
pub struct Input {
    pub vtable: usize,
}

impl Interface for Input {
    open spec fn spec_address(&self) -> usize {
        self.vtable
    }

    fn new(base_address: usize) -> (r: Self) {
        Input { vtable: base_address }
    }

    fn base_address(&self) -> (r: usize) {
        self.vtable
    }
}

/// The localization interface, which looks up display names.
#[derive(Debug, Clone, Copy, PartialEq, Eq, Structural)]
pub struct Localize {
    pub vtable: usize,
}

impl Interface for Localize {
    open spec fn spec_address(&self) -> usize {
        self.vtable
    }

    fn new(base_address: usize) -> (r: Self) {
        Localize { vtable: base_address }
    }

    fn base_address(&self) -> (r: usize) {
        self.vtable
    }
}

/// The VGUI panel interface (`VGUI_Panel009`).
#[derive(Debug, Clone, Copy, PartialEq, Eq, Structural)]
pub struct Panel {
    pub vtable: usize,
}

impl Interface for Panel {
    open spec fn spec_address(&self) -> usize {
        self.vtable
    }

    fn new(base_address: usize) -> (r: Self) {
        Panel { vtable: base_address }
    }

    fn base_address(&self) -> (r: usize) {
        self.vtable
    }
}

/// The VGUI drawing surface (`VGUI_Surface031`).
#[derive(Debug, Clone, Copy, PartialEq, Eq, Structural)]
pub struct Surface {
    pub vtable: usize,
}

impl Interface for Surface {
    open spec fn spec_address(&self) -> usize {
        self.vtable
    }

    fn new(base_address: usize) -> (r: Self) {
        Surface { vtable: base_address }
    }

    fn base_address(&self) -> (r: usize) {
        self.vtable
    }
}

/// The physics surface-properties interface.
#[derive(Debug, Clone, Copy, PartialEq, Eq, Structural)]
pub struct SurfaceProps {
    pub vtable: usize,
}

impl Interface for SurfaceProps {
    open spec fn spec_address(&self) -> usize {
        self.vtable
    }

    fn new(base_address: usize) -> (r: Self) {
        SurfaceProps { vtable: base_address }
    }

    fn base_address(&self) -> (r: usize) {
        self.vtable
    }
}

/// The ray-tracing interface of the engine.
#[derive(Debug, Clone, Copy, PartialEq, Eq, Structural)]
pub struct EngineTrace {
    pub vtable: usize,
}

impl Interface for EngineTrace {
    open spec fn spec_address(&self) -> usize {
        self.vtable
    }

    fn new(base_address: usize) -> (r: Self) {
        EngineTrace { vtable: base_address }
    }

    fn base_address(&self) -> (r: usize) {
        self.vtable
    }
}

/// The weapon-data interface.
#[derive(Debug, Clone, Copy, PartialEq, Eq, Structural)]
pub struct WeaponSystem {
    pub vtable: usize,
}

impl Interface for WeaponSystem {
    open spec fn spec_address(&self) -> usize {
        self.vtable
    }

    fn new(base_address: usize) -> (r: Self) {
        WeaponSystem { vtable: base_address }
    }

    fn base_address(&self) -> (r: usize) {
        self.vtable
    }
}

/// The collision bounds of an entity.
#[derive(Debug, Clone, Copy, PartialEq, Eq, Structural)]
pub struct Collidable {
    pub vtable: usize,
}

impl Interface for Collidable {
    open spec fn spec_address(&self) -> usize {
        self.vtable
    }

    fn new(base_address: usize) -> (r: Self) {
        Collidable { vtable: base_address }
    }

    fn base_address(&self) -> (r: usize) {
        self.vtable
    }
}

/// The model-information interface.
#[derive(Debug, Clone, Copy, PartialEq, Eq, Structural)]
pub struct ModelInfo {
    pub vtable: usize,
}

impl Interface for ModelInfo {
    open spec fn spec_address(&self) -> usize {
        self.vtable
    }

    fn new(base_address: usize) -> (r: Self) {
        ModelInfo { vtable: base_address }
    }

    fn base_address(&self) -> (r: usize) {
        self.vtable
    }
}

/// An entity of the game world.
#[derive(Debug, Clone, Copy, PartialEq, Eq, Structural)]
pub struct CEntity {
    pub vtable: usize,
}

impl Interface for CEntity {
    open spec fn spec_address(&self) -> usize {
        self.vtable
    }

    fn new(base_address: usize) -> (r: Self) {
        CEntity { vtable: base_address }
    }

    fn base_address(&self) -> (r: usize) {
        self.vtable
    }
}

/// A weapon entity.
#[derive(Debug, Clone, Copy, PartialEq, Eq, Structural)]
pub struct Weapon {
    pub vtable: usize,
}

impl Interface for Weapon {
    open spec fn spec_address(&self) -> usize {
        self.vtable
    }

    fn new(base_address: usize) -> (r: Self) {
        Weapon { vtable: base_address }
    }

    fn base_address(&self) -> (r: usize) {
        self.vtable
    }
}

} // verus!
