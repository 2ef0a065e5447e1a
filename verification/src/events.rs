use vstd::prelude::*;

use crate::sdk::classes::Stage;

verus! {

/// Raised when the top-level panel has been painted, so overlays can draw.
#[derive(Debug, Clone, Copy, PartialEq, Eq, Structural)]
pub struct EventPaintTraverse {}

/// Raised at each stage of a frame.
#[derive(Debug, Clone, Copy, PartialEq, Eq, Structural)]
pub struct EventFrameStageNotify {
    pub stage: Stage,
}

/// Whether a painted panel is the top-level panel `MatSystemTopPanel`, after which
/// the paint event is raised.
pub fn is_top_panel(panel_name: &str) -> (r: bool)
    ensures
        r == (panel_name@ == "MatSystemTopPanel"@),
{
    String::from_str(panel_name) == String::from_str("MatSystemTopPanel")
}

} // verus!
