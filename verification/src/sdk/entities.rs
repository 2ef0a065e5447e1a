use vstd::prelude::*;

use crate::memory::{value_address, Interface, MemoryImage, NotNull};
use crate::netvar::{get_offset, joined_key, offset_of, NetvarMap};
use crate::sdk::interfaces::{CEntity, EntityList, Input, Weapon};

verus! {

/// The address at which an object whose base is `base` holds the networked
/// property `table->name`: the base plus the property's stored offset (0 when the
/// key is unknown); `None` where the sum does not fit in a `usize`.
pub open spec fn netvar_address(base: usize, netvars: Map<Seq<char>, usize>, table: Seq<char>, name: Seq<char>) -> Option<usize> {
    let offset = offset_of(netvars, joined_key(table, name));
    if base + offset <= usize::MAX {
        Some((base + offset) as usize)
    } else {
        None
    }
}

/// A signed 32-bit read at an address that may be missing.
pub open spec fn read_i32_opt(mem: MemoryImage, addr: Option<usize>) -> Option<i32> {
    match addr {
        Some(a) => mem.spec_read_i32(a as int),
        None => None,
    }
}

impl EntityList {
    /// The entity a handle stands for, seen as `T`, from the entity the list's
    /// handle lookup answered: `None` for the null address.
    pub fn entity_from_handle<T: Interface>(&self, resolved: NotNull<CEntity>) -> (r: Option<T>)
        ensures
            resolved.ptr.vtable == 0 ==> r is None,
            resolved.ptr.vtable != 0 ==> (r matches Some(t) && t.spec_address() == resolved.ptr.vtable),
    {
        match resolved.get() {
            Some(entity) => Some(T::new(entity.base_address())),
            None => None,
        }
    }
}

impl CEntity {
    /// The address of networked property `table->name` of this entity.
    pub fn netvar_address(&self, netvars: &NetvarMap, table: &str, name: &str) -> (r: Option<usize>)
        ensures
            r == netvar_address(self.vtable, netvars@, table@, name@),
    {
        let offset = get_offset(netvars, table, name);
        value_address(self.vtable, offset)
    }

    /// The entity's health (`DT_BasePlayer->m_iHealth`), where the image holds it.
    pub fn health(&self, netvars: &NetvarMap, mem: &MemoryImage) -> (r: Option<i32>)
        ensures
            r == read_i32_opt(*mem, netvar_address(self.vtable, netvars@, "DT_BasePlayer"@, "m_iHealth"@)),
    {
        match self.netvar_address(netvars, "DT_BasePlayer", "m_iHealth") {
            Some(addr) => mem.read_i32(addr),
            None => None,
        }
    }

    /// Whether the entity is alive: its health is above zero.
    pub fn is_alive(&self, netvars: &NetvarMap, mem: &MemoryImage) -> (r: Option<bool>)
        ensures
            r == (match read_i32_opt(*mem, netvar_address(self.vtable, netvars@, "DT_BasePlayer"@, "m_iHealth"@)) {
                Some(h) => Some(h > 0),
                None => None,
            }),
    {
        match self.health(netvars, mem) {
            Some(h) => Some(h > 0),
            None => None,
        }
    }

    /// The handle of the entity's active weapon (`DT_BaseCombatCharacter->m_hActiveWeapon`).
    pub fn get_active_weapon(&self, netvars: &NetvarMap, mem: &MemoryImage) -> (r: Option<i32>)
        ensures
            r == read_i32_opt(
                *mem,
                netvar_address(self.vtable, netvars@, "DT_BaseCombatCharacter"@, "m_hActiveWeapon"@),
            ),
    {
        match self.netvar_address(netvars, "DT_BaseCombatCharacter", "m_hActiveWeapon") {
            Some(addr) => mem.read_i32(addr),
            None => None,
        }
    }

    /// The 48 weapon handles the entity carries (`DT_BaseCombatCharacter->m_hMyWeapons`).
    pub fn get_weapons(&self, netvars: &NetvarMap, mem: &MemoryImage) -> (r: Option<Vec<u32>>)
        ensures
            match netvar_address(self.vtable, netvars@, "DT_BaseCombatCharacter"@, "m_hMyWeapons"@) {
                Some(a) => match mem.spec_read_u32s(a as int, 48) {
                    Some(s) => r matches Some(v) && v@ == s,
                    None => r is None,
                },
                None => r is None,
            },
    {
        match self.netvar_address(netvars, "DT_BaseCombatCharacter", "m_hMyWeapons") {
            Some(addr) => mem.read_u32s(addr, 48),
            None => None,
        }
    }

    /// The entity's active weapon, from the entity the entity list answered for its
    /// active-weapon handle: `None` for the null address.
    pub fn get_weapon(&self, entity_list: &EntityList, resolved: NotNull<CEntity>) -> (r: Option<Weapon>)
        ensures
            resolved.ptr.vtable == 0 ==> r is None,
            resolved.ptr.vtable != 0 ==> r == Some(Weapon { vtable: resolved.ptr.vtable }),
    {
        entity_list.entity_from_handle::<Weapon>(resolved)
    }
}

/// The offset at which the input interface's third-person flag is read:
/// 0xAD past the interface's base address.
pub open spec fn third_person_offset(base: usize) -> int {
    base + 0xAD
}

impl Input {
    /// Whether the camera is in third person. The flag is read with the interface's
    /// value reader, which adds the base address to the offset it is given; the offset
    /// given is itself the base plus 0xAD, so the byte read sits at twice the base
    /// plus 0xAD. `None` where an address does not fit or the image does not hold it.
    pub fn is_third_person(&self, mem: &MemoryImage) -> (r: Option<bool>)
        ensures
            third_person_offset(self.vtable) + self.vtable <= usize::MAX ==> r == mem.spec_read_bool(
                third_person_offset(self.vtable) + self.vtable,
            ),
            third_person_offset(self.vtable) + self.vtable > usize::MAX ==> r is None,
    {
        match value_address(self.vtable, 0xAD) {
            Some(offset) => match value_address(self.vtable, offset) {
                Some(addr) => mem.read_bool(addr),
                None => None,
            },
            None => None,
        }
    }
}

} // verus!
