use vstd::prelude::*;

verus! {

/// A game object reached through the address of its virtual-method table.
///
/// Every interface and entity of the client is identified by that address alone;
/// `new` wraps an address and `base_address` gives it back.
pub trait Interface: Sized {
    /// The address this object stands for.
    spec fn spec_address(&self) -> usize;

    fn new(base_address: usize) -> (r: Self)
        ensures
            r.spec_address() == base_address,
    ;

    fn base_address(&self) -> (r: usize)
        ensures
            r == self.spec_address(),
    ;
}

/// An object that the game handed out and that may be the null address.
pub struct NotNull<T: Interface> {
    pub ptr: T,
}

impl<T: Interface> NotNull<T> {
    /// `None` when the wrapped object is the null address, else `Some` of it.
    pub fn get(self) -> (r: Option<T>)
        ensures
            self.ptr.spec_address() == 0 ==> r is None,
            self.ptr.spec_address() != 0 ==> r == Some(self.ptr),
    {
        if self.ptr.base_address() != 0 {
            return Some(self.ptr);
        }
        None
    }

    /// The wrapped object, null or not.
    pub fn unwrap(self) -> (r: T)
        ensures
            r == self.ptr,
    {
        self.ptr
    }
}

/// The address `offset` bytes past `base`; `None` where that address does not fit
/// in a `usize`.
pub fn value_address(base: usize, offset: usize) -> (r: Option<usize>)
    ensures
        base + offset <= usize::MAX ==> r == Some((base + offset) as usize),
        base + offset > usize::MAX ==> r is None,
{
    base.checked_add(offset)
}

/// The number that four bytes stand for, least significant byte first.
pub open spec fn le_u32(b0: u8, b1: u8, b2: u8, b3: u8) -> int {
    b0 + 256 * b1 + 65536 * b2 + 16777216 * b3
}

/// The two's-complement reading of a 32-bit pattern.
pub open spec fn signed_of_u32(u: int) -> int {
    if u < 0x8000_0000 {
        u
    } else {
        u - 0x1_0000_0000
    }
}

/// A copy of a contiguous range of the game's memory: byte `i` of the copy is the
/// byte at address `base + i`. The range ends within the address space.
pub struct MemoryImage {
    base: usize,
    bytes: Vec<u8>,
}

impl MemoryImage {
    #[verifier::type_invariant]
    closed spec fn within_address_space(self) -> bool {
        self.base + self.bytes@.len() <= usize::MAX + 1
    }

    /// The address of the first copied byte.
    pub closed spec fn spec_base(&self) -> usize {
        self.base
    }

    /// The copied bytes.
    pub closed spec fn spec_bytes(&self) -> Seq<u8> {
        self.bytes@
    }

    /// The copy of the bytes at `base`, `base + 1`, ...; `None` when the range would
    /// run past the end of the address space.
    pub fn new(base: usize, bytes: Vec<u8>) -> (r: Option<MemoryImage>)
        ensures
            base + bytes@.len() <= usize::MAX + 1 ==> (r matches Some(m) && m.spec_base() == base
                && m.spec_bytes() == bytes@),
            base + bytes@.len() > usize::MAX + 1 ==> r is None,
    {
        if bytes.len() > 0 && usize::MAX - (bytes.len() - 1) < base {
            return None;
        }
        Some(MemoryImage { base, bytes })
    }

    /// The address of the first copied byte.
    pub fn base(&self) -> (r: usize)
        ensures
            r == self.spec_base(),
    {
        self.base
    }


    /// Whether the `n` bytes starting at `addr` all lie in the copied range.
    pub open spec fn covers(&self, addr: int, n: int) -> bool {
        self.spec_base() <= addr && addr + n <= self.spec_base() + self.spec_bytes().len()
    }

    /// The byte copied from address `addr`.
    pub open spec fn byte_at(&self, addr: int) -> u8 {
        self.spec_bytes()[addr - self.spec_base()]
    }

    /// The little-endian 32-bit pattern starting at `addr`.
    pub open spec fn u32_at(&self, addr: int) -> int {
        le_u32(
            self.byte_at(addr),
            self.byte_at(addr + 1),
            self.byte_at(addr + 2),
            self.byte_at(addr + 3),
        )
    }

    /// The byte at `addr`, where the image holds it.
    pub open spec fn spec_read_u8(&self, addr: int) -> Option<u8> {
        if self.covers(addr, 1) {
            Some(self.byte_at(addr))
        } else {
            None
        }
    }

    /// The `bool` at `addr` (any byte but zero is `true`), where the image holds it.
    pub open spec fn spec_read_bool(&self, addr: int) -> Option<bool> {
        if self.covers(addr, 1) {
            Some(self.byte_at(addr) != 0)
        } else {
            None
        }
    }

    /// The unsigned 32-bit value at `addr`, where the image holds all four bytes.
    pub open spec fn spec_read_u32(&self, addr: int) -> Option<u32> {
        if self.covers(addr, 4) {
            Some(self.u32_at(addr) as u32)
        } else {
            None
        }
    }

    /// The unsigned 16-bit value at `addr` (least significant byte first), where the
    /// image holds both bytes.
    pub open spec fn spec_read_u16(&self, addr: int) -> Option<u16> {
        if self.covers(addr, 2) {
            Some((self.byte_at(addr) + 256 * self.byte_at(addr + 1)) as u16)
        } else {
            None
        }
    }

    /// The signed 16-bit value at `addr` (least significant byte first), where the
    /// image holds both bytes.
    pub open spec fn spec_read_i16(&self, addr: int) -> Option<i16> {
        if self.covers(addr, 2) {
            let u = self.byte_at(addr) + 256 * self.byte_at(addr + 1);
            Some((if u < 0x8000 { u } else { u - 0x1_0000 }) as i16)
        } else {
            None
        }
    }

    /// The signed 32-bit value at `addr`, where the image holds all four bytes.
    pub open spec fn spec_read_i32(&self, addr: int) -> Option<i32> {
        if self.covers(addr, 4) {
            Some(signed_of_u32(self.u32_at(addr)) as i32)
        } else {
            None
        }
    }

    /// `count` consecutive unsigned 32-bit values starting at `addr`, where the image
    /// holds all of them.
    pub open spec fn spec_read_u32s(&self, addr: int, count: int) -> Option<Seq<u32>> {
        if self.covers(addr, 4 * count) {
            Some(Seq::new(count as nat, |k: int| self.u32_at(addr + 4 * k) as u32))
        } else {
            None
        }
    }

    fn index_of(&self, addr: usize, n: usize) -> (r: Option<usize>)
        ensures
            self.covers(addr as int, n as int) ==> r == Some((addr - self.base) as usize),
            !self.covers(addr as int, n as int) ==> r is None,
            forall|i: usize| r == Some(i) ==> i + n <= self.bytes@.len(),
    {
        if addr < self.base {
            return None;
        }
        let i = addr - self.base;
        if i > self.bytes.len() || self.bytes.len() - i < n {
            return None;
        }
        Some(i)
    }

    /// The byte at `addr`, or `None` where the image does not hold it.
    pub fn read_u8(&self, addr: usize) -> (r: Option<u8>)
        ensures
            r == self.spec_read_u8(addr as int),
    {
        match self.index_of(addr, 1) {
            Some(i) => Some(self.bytes[i]),
            None => None,
        }
    }

    /// A `bool` stored at `addr`: any byte other than zero reads as `true`.
    pub fn read_bool(&self, addr: usize) -> (r: Option<bool>)
        ensures
            r == self.spec_read_bool(addr as int),
    {
        match self.read_u8(addr) {
            Some(b) => Some(b != 0),
            None => None,
        }
    }

    /// The unsigned little-endian 32-bit value at `addr`.
    pub fn read_u32(&self, addr: usize) -> (r: Option<u32>)
        ensures
            r == self.spec_read_u32(addr as int),
    {
        match self.index_of(addr, 4) {
            Some(i) => {
                proof {
                    use_type_invariant(self);
                }
                let b0 = self.bytes[i] as u32;
                let b1 = self.bytes[i + 1] as u32;
                let b2 = self.bytes[i + 2] as u32;
                let b3 = self.bytes[i + 3] as u32;
                Some(b0 + 256 * b1 + 65536 * b2 + 16777216 * b3)
            },
            None => None,
        }
    }

    /// The unsigned little-endian 16-bit value at `addr`.
    pub fn read_u16(&self, addr: usize) -> (r: Option<u16>)
        ensures
            r == self.spec_read_u16(addr as int),
    {
        match self.index_of(addr, 2) {
            Some(i) => {
                proof {
                    use_type_invariant(self);
                }
                Some(((self.bytes[i] as u32) + 256 * (self.bytes[i + 1] as u32)) as u16)
            },
            None => None,
        }
    }

    /// The signed little-endian 16-bit value at `addr`.
    pub fn read_i16(&self, addr: usize) -> (r: Option<i16>)
        ensures
            r == self.spec_read_i16(addr as int),
    {
        match self.index_of(addr, 2) {
            Some(i) => {
                proof {
                    use_type_invariant(self);
                }
                let u = (self.bytes[i] as u32) + 256 * (self.bytes[i + 1] as u32);
                if u < 0x8000 {
                    Some(u as i16)
                } else {
                    Some(((u - 0x8000) as i16) + i16::MIN)
                }
            },
            None => None,
        }
    }

    /// The signed little-endian 32-bit value at `addr`.
    pub fn read_i32(&self, addr: usize) -> (r: Option<i32>)
        ensures
            r == self.spec_read_i32(addr as int),
    {
        match self.read_u32(addr) {
            Some(u) => {
                if u < 0x8000_0000 {
                    Some(u as i32)
                } else {
                    Some(((u - 0x8000_0000) as i32) + i32::MIN)
                }
            },
            None => None,
        }
    }

    /// `count` consecutive unsigned little-endian 32-bit values starting at `addr`.
    pub fn read_u32s(&self, addr: usize, count: usize) -> (r: Option<Vec<u32>>)
        ensures
            r matches Some(v) ==> self.spec_read_u32s(addr as int, count as int) == Some(v@),
            r is None ==> self.spec_read_u32s(addr as int, count as int) is None,
    {
        let len = self.bytes.len();
        let n = match count.checked_mul(4) {
            Some(n) => n,
            None => return None,
        };
        let start = match self.index_of(addr, n) {
            Some(i) => i,
            None => return None,
        };
        let mut out: Vec<u32> = Vec::new();
        let mut k: usize = 0;
        while k < count
            invariant
                len == self.bytes@.len(),
                n == 4 * count,
                start + n <= len,
                start == addr - self.base,
                self.covers(addr as int, n as int),
                k <= count,
                out@.len() == k,
                forall|j: int| 0 <= j < k ==> out@[j] == self.u32_at(addr + 4 * j) as u32,
            decreases count - k,
        {
            let i = start + 4 * k;
            let b0 = self.bytes[i] as u32;
            let b1 = self.bytes[i + 1] as u32;
            let b2 = self.bytes[i + 2] as u32;
            let b3 = self.bytes[i + 3] as u32;
            out.push(b0 + 256 * b1 + 65536 * b2 + 16777216 * b3);
            k = k + 1;
        }
        assert(out@ =~= Seq::new(count as nat, |j: int| self.u32_at(addr + 4 * j) as u32));
        Some(out)
    }
}


/// One byte of a code signature: a byte that must match, or a wildcard.
#[derive(Debug, Clone, Copy, PartialEq, Eq, Structural)]
pub enum SignatureComponent {
    Value(u8),
    Mask,
}

/// A byte pattern that locates code in a loaded module.
#[derive(Debug)]
pub struct Signature {
    pub sig: Vec<SignatureComponent>,
}

/// The `MZ` mark that opens every DOS/PE image.
pub const IMAGE_DOS_SIGNATURE: u16 = 0x5A4D;

/// The address of the PE headers of the module loaded at `base`: the base plus the
/// header offset stored at 0x3C, read as an unsigned machine word. `None` when the
/// image does not open with `MZ`, does not hold the offset, or the sum does not fit
/// in a `usize`.
pub open spec fn nt_headers_address(module: MemoryImage) -> Option<int> {
    if module.spec_read_u16(module.spec_base() as int) == Some(IMAGE_DOS_SIGNATURE) && module.covers(
        module.spec_base() + 0x3C,
        4,
    ) && module.spec_base() + 0x3C <= usize::MAX {
        let nt = module.spec_base() + ((signed_of_u32(module.u32_at(module.spec_base() + 0x3C)) as i32) as usize);
        if nt <= usize::MAX {
            Some(nt)
        } else {
            None
        }
    } else {
        None
    }
}

/// The size of the loaded module, as its PE optional header gives it (0x50 bytes into
/// the PE headers); `None` when the headers cannot be read from the image.
pub open spec fn size_of_image(module: MemoryImage) -> Option<int> {
    match nt_headers_address(module) {
        Some(nt) => if nt + 0x50 <= usize::MAX {
            match module.spec_read_u32(nt + 0x50) {
                Some(v) => Some(v as int),
                None => None,
            }
        } else {
            None
        },
        None => None,
    }
}

/// Whether the signature matches the module at offset `i`: every byte the signature
/// fixes is held by the image and equal; wildcards match anything.
pub open spec fn signature_matches_at(module: MemoryImage, sig: Seq<SignatureComponent>, i: int) -> bool {
    forall|k: int|
        0 <= k < sig.len() ==> (#[trigger] sig[k] matches SignatureComponent::Value(v) ==> module.spec_read_u8(
            module.spec_base() + i + k,
        ) == Some(v))
}

/// Searches the loaded module for the signature and gives the address of its first
/// match. Candidate offsets from the module's base run from 0 up to, but not
/// including, the module's size minus the signature's length, so a signature as
/// long as the module or longer has no candidate. Every read is checked: `None` when
/// the image does not hold valid headers or no candidate matches.
pub fn scan_for_signature(signature: &Signature, module: &MemoryImage) -> (r: Option<usize>)
    ensures
        r matches Some(a) ==> size_of_image(*module) matches Some(n) && module.spec_base() <= a
            && a - module.spec_base() < n - signature.sig@.len() && signature_matches_at(
            *module,
            signature.sig@,
            a - module.spec_base(),
        ) && forall|j: int|
            0 <= j < a - module.spec_base() ==> !signature_matches_at(*module, signature.sig@, j),
        r is None ==> (size_of_image(*module) matches Some(n) ==> forall|j: int|
            0 <= j < n - signature.sig@.len() ==> !signature_matches_at(*module, signature.sig@, j)),
{
    proof {
        use_type_invariant(module);
    }
    let base = module.base();
    match module.read_u16(base) {
        Some(magic) => {
            if magic != IMAGE_DOS_SIGNATURE {
                return None;
            }
        },
        None => return None,
    }
    let lfanew_addr = match value_address(base, 0x3C) {
        Some(a) => a,
        None => return None,
    };
    let lfanew = match module.read_i32(lfanew_addr) {
        Some(v) => v,
        None => return None,
    };
    let nt = match value_address(base, #[verifier::truncate] (lfanew as usize)) {
        Some(a) => a,
        None => return None,
    };
    let size_addr = match value_address(nt, 0x50) {
        Some(a) => a,
        None => return None,
    };
    let size = match module.read_u32(size_addr) {
        Some(v) => v as usize,
        None => return None,
    };
    let len = signature.sig.len();
    if len > size {
        return None;
    }
    let end = size - len;
    let mut i: usize = 0;
    while i < end
        invariant
            base == module.spec_base(),
            module.spec_base() + module.spec_bytes().len() <= usize::MAX + 1,
            size_of_image(*module) == Some(size as int),
            end == size - len,
            len == signature.sig@.len(),
            i <= end,
            forall|j: int| 0 <= j < i ==> !signature_matches_at(*module, signature.sig@, j),
        decreases end - i,
    {
        let mut found = true;
        let mut k: usize = 0;
        while k < len
            invariant_except_break
                base == module.spec_base(),
                module.spec_base() + module.spec_bytes().len() <= usize::MAX + 1,
                len == signature.sig@.len(),
                i < end,
                end == size - len,
                k <= len,
                found,
                forall|q: int| 0 <= q < k ==> (#[trigger] signature.sig@[q] matches SignatureComponent::Value(v)
                    ==> module.spec_read_u8(module.spec_base() + i + q) == Some(v)),
            ensures
                found ==> signature_matches_at(*module, signature.sig@, i as int),
                !found ==> !signature_matches_at(*module, signature.sig@, i as int),
            decreases len - k,
        {
            match signature.sig[k] {
                SignatureComponent::Value(val) => {
                    let byte = match value_address(base, i + k) {
                        Some(a) => module.read_u8(a),
                        None => None,
                    };
                    if byte != Some(val) {
                        found = false;
                        assert(signature.sig@[k as int] matches SignatureComponent::Value(v));
                        break;
                    }
                },
                SignatureComponent::Mask => {},
            }
            k = k + 1;
        }
        if found {
            proof {
                if exists|k: int| 0 <= k < len && #[trigger] signature.sig@[k] is Value {
                    let k = choose|k: int| 0 <= k < len && #[trigger] signature.sig@[k] is Value;
                    assert(signature.sig@[k] matches SignatureComponent::Value(v));
                    assert(module.covers(module.spec_base() + i + k, 1));
                } else {
                    assert(signature_matches_at(*module, signature.sig@, 0));
                    assert(i == 0);
                }
            }
            return Some(base + i);
        }
        i = i + 1;
    }
    None
}


/// The module size the scan uses is the whole 32-bit SizeOfImage field, its four
/// bytes at the PE headers plus 0x50 read least significant first, and it is known
/// whenever the headers are found and the image holds those four bytes.
pub proof fn law_size_of_image_is_full_field(module: MemoryImage)
    ensures
        size_of_image(module) matches Some(n) ==> nt_headers_address(module) matches Some(nt) && module.covers(
            nt + 0x50,
            4,
        ) && n == module.byte_at(nt + 0x50) + 256 * module.byte_at(nt + 0x51) + 65536 * module.byte_at(nt + 0x52)
            + 16777216 * module.byte_at(nt + 0x53),
        nt_headers_address(module) matches Some(nt) && module.covers(nt + 0x50, 4) && nt + 0x50 <= usize::MAX
            ==> size_of_image(module) is Some,
{
    if let Some(nt) = nt_headers_address(module) {
        let a = nt + 0x50;
        if module.covers(a, 4) {
            let b0 = module.byte_at(a);
            let b1 = module.byte_at(a + 1);
            let b2 = module.byte_at(a + 2);
            let b3 = module.byte_at(a + 3);
            assert(0 <= le_u32(b0, b1, b2, b3) <= u32::MAX) by (nonlinear_arith)
                requires
                    0 <= b0 < 256,
                    0 <= b1 < 256,
                    0 <= b2 < 256,
                    0 <= b3 < 256,
            ;
            assert(module.u32_at(a) == le_u32(b0, b1, b2, b3));
        }
    }
}

} // verus!
