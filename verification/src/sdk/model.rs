use vstd::prelude::*;

use crate::features::ESP;
use crate::memory::MemoryImage;

verus! {

/// The size in bytes of one bone record of a studio model.
pub const STUDIO_BONE_SIZE: i64 = 0xD8;

/// The bone flag that marks bones attached to a hitbox.
pub const BONE_USED_BY_HITBOX: i32 = 0x100;

/// A bone of a studio model: its name's index, its parent bone (-1 for a root) and
/// its flags.
#[derive(Debug, Clone, Copy, PartialEq, Eq, Structural)]
pub struct StudioBone {
    pub bone_name_index: i32,
    pub parent: i32,
    pub flags: i32,
}

/// The parts of a studio-model header that locate its bones: where the header sits,
/// how many bones there are, and the byte offset of the first bone from the header.
#[derive(Debug, Clone, Copy, PartialEq, Eq, Structural)]
pub struct StudioModel {
    pub address: usize,
    pub bone_count: i32,
    pub bone_id: i32,
}

/// The address of bone `index`: the header's address plus the bones' offset plus
/// `index` whole bone records.
pub open spec fn bone_address(model: StudioModel, index: int) -> int {
    model.address + model.bone_id + index * STUDIO_BONE_SIZE
}

/// The bone record at `a`, where the image holds its three fields (the name index at
/// 0, the parent at 4 and the flags at 0xA0); `None` for the null address.
pub open spec fn bone_at(mem: MemoryImage, a: int) -> Option<StudioBone> {
    if a != 0 && 0 <= a && a + 0xA4 <= usize::MAX {
        match (mem.spec_read_i32(a), mem.spec_read_i32(a + 4), mem.spec_read_i32(a + 0xA0)) {
            (Some(n), Some(p), Some(f)) => Some(StudioBone { bone_name_index: n, parent: p, flags: f }),
            _ => None,
        }
    } else {
        None
    }
}

impl StudioModel {
    /// Bone `index` of the model, where the image holds it.
    pub fn bone(&self, index: i32, mem: &MemoryImage) -> (r: Option<StudioBone>)
        ensures
            r == bone_at(*mem, bone_address(*self, index as int)),
    {
        let a: i128 = (self.address as i128) + (self.bone_id as i128) + (index as i128) * (STUDIO_BONE_SIZE as i128);
        if a == 0 || a < 0 || a + 0xA4 > (usize::MAX as i128) {
            return None;
        }
        let addr = a as usize;
        let name = mem.read_i32(addr);
        let parent = mem.read_i32(addr + 4);
        let flags = mem.read_i32(addr + 0xA0);
        match (name, parent, flags) {
            (Some(n), Some(p), Some(f)) => Some(StudioBone { bone_name_index: n, parent: p, flags: f }),
            _ => None,
        }
    }
}

/// Whether the skeleton draws a line from a bone to its parent: the bone has a parent
/// and is used by a hitbox.
pub open spec fn bone_drawn(b: StudioBone) -> bool {
    b.parent != -1 && (b.flags & BONE_USED_BY_HITBOX) != 0
}

/// The (bone, parent) pairs the skeleton connects among the first `count` bones,
/// in bone order.
pub open spec fn skeleton_lines(model: StudioModel, mem: MemoryImage, count: int) -> Seq<(i32, i32)>
    decreases count,
{
    if count <= 0 {
        seq![]
    } else {
        let prev = skeleton_lines(model, mem, count - 1);
        match bone_at(mem, bone_address(model, count - 1)) {
            Some(b) => if bone_drawn(b) {
                prev.push(((count - 1) as i32, b.parent))
            } else {
                prev
            },
            None => prev,
        }
    }
}

impl ESP {
    /// The lines of an entity's skeleton: for each bone of the model that has a parent
    /// and is used by a hitbox, the pair (bone, parent); projecting the two bones'
    /// positions and drawing the line is the caller's part.
    pub fn bone_esp(model: &StudioModel, mem: &MemoryImage) -> (r: Vec<(i32, i32)>)
        ensures
            r@ == skeleton_lines(*model, *mem, model.bone_count as int),
    {
        let mut lines: Vec<(i32, i32)> = Vec::new();
        if model.bone_count <= 0 {
            return lines;
        }
        let mut i: i32 = 0;
        while i < model.bone_count
            invariant
                0 <= i <= model.bone_count,
                lines@ == skeleton_lines(*model, *mem, i as int),
            decreases model.bone_count - i,
        {
            match model.bone(i, mem) {
                Some(bone) => {
                    if bone.parent != -1 && (bone.flags & BONE_USED_BY_HITBOX) != 0 {
                        lines.push((i, bone.parent));
                    }
                },
                None => {},
            }
            i = i + 1;
        }
        lines
    }
}


/// Whether a bone is drawn depends on its parent and on the hitbox bit of its flags
/// alone: a root bone is never drawn, changing flag bits other than the hitbox bit
/// changes nothing, a bone with a parent whose flags are just the hitbox bit is
/// drawn, and one with no flag set is not.
pub proof fn law_bone_drawn_by_hitbox_bit(b: StudioBone, x: i32)
    ensures
        b.parent == -1 ==> !bone_drawn(b),
        (x & 0x100) == 0 ==> bone_drawn(b) == bone_drawn(
            StudioBone { bone_name_index: b.bone_name_index, parent: b.parent, flags: b.flags ^ x },
        ),
        b.parent != -1 ==> bone_drawn(
            StudioBone { bone_name_index: b.bone_name_index, parent: b.parent, flags: 0x100 },
        ),
        !bone_drawn(StudioBone { bone_name_index: b.bone_name_index, parent: b.parent, flags: 0 }),
{
    let f = b.flags;
    assert((x & 0x100) == 0 ==> ((f ^ x) & 0x100) == (f & 0x100)) by (bit_vector);
    assert((0x100i32 & 0x100) != 0) by (bit_vector);
    assert((0i32 & 0x100) == 0) by (bit_vector);
}

/// Every line of the skeleton starts at a bone below `count`.
proof fn lemma_skeleton_lines_below(model: StudioModel, mem: MemoryImage, count: int)
    requires
        count <= i32::MAX + 1,
    ensures
        forall|k: int|
            0 <= k < skeleton_lines(model, mem, count).len() ==> 0 <= #[trigger] skeleton_lines(model, mem, count)[k].0
                < count,
    decreases count,
{
    if count > 0 {
        lemma_skeleton_lines_below(model, mem, count - 1);
        let prev = skeleton_lines(model, mem, count - 1);
        let lines = skeleton_lines(model, mem, count);
        assert forall|k: int| 0 <= k < lines.len() implies 0 <= #[trigger] lines[k].0 < count by {
            if k < prev.len() {
                assert(lines[k] == prev[k]);
            }
        }
    }
}

/// Among the first `count` bones, bone `i` connects to its parent in the skeleton
/// exactly when it has a parent and the hitbox bit of its flags is set.
pub proof fn law_skeleton_line_for_bone(model: StudioModel, mem: MemoryImage, count: int, i: int)
    requires
        0 <= i < count <= i32::MAX + 1,
    ensures
        bone_at(mem, bone_address(model, i)) matches Some(b) ==> (skeleton_lines(model, mem, count).contains(
            (i as i32, b.parent),
        ) <==> (b.parent != -1 && (b.flags & 0x100) != 0)),
    decreases count,
{
    if let Some(b) = bone_at(mem, bone_address(model, i)) {
        let lines = skeleton_lines(model, mem, count);
        let prev = skeleton_lines(model, mem, count - 1);
        lemma_skeleton_lines_below(model, mem, count - 1);
        if i == count - 1 {
            if prev.contains((i as i32, b.parent)) {
                let k = choose|k: int| 0 <= k < prev.len() && prev[k] == (i as i32, b.parent);
                assert(prev[k].0 < count - 1);
            }
            if bone_drawn(b) {
                assert(lines[lines.len() - 1] == (i as i32, b.parent));
            } else {
                assert(lines == prev);
            }
        } else {
            law_skeleton_line_for_bone(model, mem, count - 1, i);
            if lines.contains((i as i32, b.parent)) {
                let k = choose|k: int| 0 <= k < lines.len() && lines[k] == (i as i32, b.parent);
                if k < prev.len() {
                    assert(prev[k] == lines[k]);
                }
            }
            if prev.contains((i as i32, b.parent)) {
                let k = choose|k: int| 0 <= k < prev.len() && prev[k] == (i as i32, b.parent);
                match bone_at(mem, bone_address(model, count - 1)) {
                    Some(c) => if bone_drawn(c) {
                        assert(lines[k] == prev[k]);
                    },
                    None => {},
                }
            }
        }
    }
}

} // verus!
