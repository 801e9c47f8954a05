//! The device ABI: control-command codes and payloads, mapping offsets, the
//! layout of a descriptor slot, and the decoding of a raw control result.

use rustix::io::Errno;
use vstd::prelude::*;

verus! {

/// Path of the device node, which is opened for reading and writing.
pub const EXMAP_DEVICE: &'static str = "/dev/exmap";

/// Number of descriptor slots in one interface.
pub const EXMAP_USER_INTERFACE_PAGES: u32 = 512;

/// Width in bits of the length field of a request descriptor.
pub const EXMAP_PAGE_LEN_BITS: u32 = 12;

/// Opcode of the action command that allocates the submitted ranges.
pub const EXMAP_OP_ALLOC: u32 = 1;

/// Opcode of the action command that frees the submitted ranges.
pub const EXMAP_OP_FREE: u32 = 2;

/// Mapping offset of the virtual memory region.
pub const EXMAP_OFF_EXMAP: u32 = 0;

/// Mapping offset of interface 0, as the signed value of its bit pattern.
pub const EXMAP_OFF_INTERFACE_BASE: i64 = -0x2000_0000_0000_0000;

/// Control-command code of the setup command.
pub const EXMAP_IOCTL_SETUP: u64 = 0x4018_6b01;

/// Control-command code of the action command.
pub const EXMAP_IOCTL_ACTION: u64 = 0x4010_6b02;

/// Size in bytes of one descriptor slot.
pub const EXMAP_IOV_SIZE: usize = 8;

/// Number of page values that fit the page field of a request descriptor.
pub const EXMAP_PAGE_LIMIT: u64 = 0x0010_0000_0000_0000;

/// Number of length values that fit the length field of a request descriptor.
pub const EXMAP_LEN_LIMIT: u64 = 0x1000;

/// The length field takes the top `EXMAP_PAGE_LEN_BITS` bits of a slot and the
/// page field the bits below them.
pub proof fn lemma_field_limits()
    ensures
        EXMAP_LEN_LIMIT == 1u64 << 12u64,
        EXMAP_PAGE_LIMIT == 1u64 << 52u64,
        EXMAP_PAGE_LEN_BITS == 12,
        EXMAP_PAGE_LIMIT * EXMAP_LEN_LIMIT == 0x1_0000_0000_0000_0000,
{
    assert(0x1000u64 == 1u64 << 12u64 && 0x0010_0000_0000_0000u64 == 1u64 << 52u64)
        by (bit_vector);
}

/// The command code that the generic device-control encoding gives to a
/// write-direction command of the given group, number and payload size.
pub open spec fn ioc_write(group: int, nr: int, size: int) -> int {
    0x4000_0000 + size * 0x1_0000 + group * 0x100 + nr
}

/// Both command codes follow the generic encoding with group `'k'` (0x6b):
/// setup is command 1 with a 24-byte payload, action is command 2 with a
/// 16-byte payload.
pub proof fn lemma_command_codes()
    ensures
        EXMAP_IOCTL_SETUP == ioc_write(0x6b, 1, 24),
        EXMAP_IOCTL_ACTION == ioc_write(0x6b, 2, 16),
{
}

/// The mapping offset of interface `n`, for every `n` that an interface
/// index can take.
pub open spec fn spec_interface_offset(n: int) -> int {
    EXMAP_OFF_INTERFACE_BASE + n * 4096
}

/// The mapping offset of interface `n`: the base offset with `n << 12` set.
#[allow(non_snake_case)]
pub fn EXMAP_OFF_INTERFACE(n: i64) -> (off: i64)
    ensures
        off == EXMAP_OFF_INTERFACE_BASE | (n << 12u64),
        0 <= n < 0x1_0000 ==> off == spec_interface_offset(n as int),
{
    let off = EXMAP_OFF_INTERFACE_BASE | (n << 12u64);
    assert(0 <= n < 0x1_0000 ==> off == -0x2000_0000_0000_0000i64 + n * 4096) by (bit_vector)
        requires
            off == (-0x2000_0000_0000_0000i64) | (n << 12u64),
    ;
    off
}

/// The mapping offset of interface `index`, as the unsigned value that a
/// mapping call takes.
pub fn interface_offset(index: u16) -> (off: u64)
    ensures
        off == 0xe000_0000_0000_0000 + index * 4096,
        off as int == spec_interface_offset(index as int) + 0x1_0000_0000_0000_0000,
{
    let n: i64 = index as i64;
    let signed = EXMAP_OFF_INTERFACE(n);
    let off = signed as u64;
    assert(off == 0xe000_0000_0000_0000u64 + n * 4096) by (bit_vector)
        requires
            0 <= n < 0x1_0000,
            signed == -0x2000_0000_0000_0000i64 + n * 4096,
            off == signed as u64,
    ;
    off
}

/// One descriptor slot in request mode: a page range, with the first page in
/// the low 52 bits of the slot and the number of pages in the high 12 bits.
#[derive(Debug, Clone, Copy, PartialEq, Eq, Structural)]
pub struct ExmapIov {
    value: u64,
}

/// The slot word that holds a page below the page limit and a length below
/// the length limit.
pub open spec fn iov_word(page: u64, len: u64) -> int {
    len as int * 0x0010_0000_0000_0000 + page as int
}

impl ExmapIov {
    /// The raw slot word.
    pub closed spec fn spec_value(&self) -> u64 {
        self.value
    }

    /// The descriptor whose raw slot word is `value`.
    pub closed spec fn spec_from_value(value: u64) -> ExmapIov {
        ExmapIov { value }
    }

    /// The first page of the range.
    pub open spec fn spec_page(&self) -> u64 {
        (self.spec_value() as int % 0x0010_0000_0000_0000) as u64
    }

    /// The number of pages in the range.
    pub open spec fn spec_len(&self) -> u64 {
        (self.spec_value() as int / 0x0010_0000_0000_0000) as u64
    }

    /// The descriptor that `new` builds: each argument reduced to the width
    /// of its field.
    pub open spec fn spec_new(page: u64, len: u64) -> ExmapIov {
        ExmapIov::spec_from_value(
            iov_word(
                (page as int % 0x0010_0000_0000_0000) as u64,
                (len as int % 0x1000) as u64,
            ) as u64,
        )
    }

    /// A descriptor is its raw slot word: the word of the descriptor made
    /// from `value` is `value`, and the descriptor made from a descriptor's
    /// word is that descriptor.
    pub proof fn lemma_from_value(value: u64)
        ensures
            ExmapIov::spec_from_value(value).spec_value() == value,
            forall|iov: ExmapIov| #[trigger]
                ExmapIov::spec_from_value(iov.spec_value()) == iov,
    {
    }

    /// The descriptor that `new` builds holds each argument reduced to the
    /// width of its field, and so the arguments themselves where they fit.
    pub proof fn lemma_new(page: u64, len: u64)
        ensures
            ExmapIov::spec_new(page, len).spec_page() == page % EXMAP_PAGE_LIMIT,
            ExmapIov::spec_new(page, len).spec_len() == len % EXMAP_LEN_LIMIT,
            page < EXMAP_PAGE_LIMIT && len < EXMAP_LEN_LIMIT ==> ExmapIov::spec_new(
                page,
                len,
            ).spec_value() == iov_word(page, len),
    {
    }

    /// The descriptor with the given raw slot word.
    pub fn from_value(value: u64) -> (iov: ExmapIov)
        ensures
            iov == ExmapIov::spec_from_value(value),
            iov.spec_value() == value,
    {
        ExmapIov { value }
    }

    /// The raw slot word.
    #[verifier::when_used_as_spec(spec_value)]
    pub fn value(&self) -> (v: u64)
        ensures
            v == self.spec_value(),
    {
        self.value
    }

    /// The descriptor of the range of `len` pages that starts at `page`.
    /// A field keeps the low bits of its argument: a page below the page
    /// limit and a length below the length limit are stored as they are.
    pub fn new(page: u64, len: u64) -> (iov: ExmapIov)
        ensures
            iov == ExmapIov::spec_new(page, len),
            iov.spec_page() == page % EXMAP_PAGE_LIMIT,
            iov.spec_len() == len % EXMAP_LEN_LIMIT,
            page < EXMAP_PAGE_LIMIT && len < EXMAP_LEN_LIMIT ==> iov.spec_page() == page
                && iov.spec_len() == len && iov.spec_value() == iov_word(page, len),
    {
        let mut iov = ExmapIov { value: 0 };
        iov.set_len(len);
        iov.set_page(page);
        iov
    }

    /// The first page of the range.
    #[verifier::when_used_as_spec(spec_page)]
    pub fn page(&self) -> (p: u64)
        ensures
            p == self.spec_page(),
            p < EXMAP_PAGE_LIMIT,
    {
        let w = self.value;
        assert(w & 0x000f_ffff_ffff_ffff == w % 0x0010_0000_0000_0000) by (bit_vector);
        w & 0x000f_ffff_ffff_ffff
    }

    /// The number of pages in the range.
    #[verifier::when_used_as_spec(spec_len)]
    pub fn len(&self) -> (l: u64)
        ensures
            l == self.spec_len(),
            l < EXMAP_LEN_LIMIT,
    {
        let w = self.value;
        assert(w >> 52u64 == w / 0x0010_0000_0000_0000 && w >> 52u64 < 0x1000) by (bit_vector);
        w >> 52u64
    }

    /// Stores the low 52 bits of `val` as the first page and keeps the
    /// length.
    pub fn set_page(&mut self, val: u64)
        ensures
            final(self).spec_page() == val % EXMAP_PAGE_LIMIT,
            final(self).spec_len() == old(self).spec_len(),
            final(self).spec_value() == iov_word(
                (val % EXMAP_PAGE_LIMIT) as u64,
                old(self).spec_len(),
            ),
    {
        let w = self.value;
        let n = (w & 0xfff0_0000_0000_0000) | (val & 0x000f_ffff_ffff_ffff);
        assert(n % 0x0010_0000_0000_0000 == val % 0x0010_0000_0000_0000 && n
            / 0x0010_0000_0000_0000 == w / 0x0010_0000_0000_0000 && n == (w
            / 0x0010_0000_0000_0000) * 0x0010_0000_0000_0000 + (val % 0x0010_0000_0000_0000))
            by (bit_vector)
            requires
                n == (w & 0xfff0_0000_0000_0000u64) | (val & 0x000f_ffff_ffff_ffffu64),
        ;
        self.value = n;
    }

    /// Stores the low 12 bits of `val` as the length and keeps the first
    /// page.
    pub fn set_len(&mut self, val: u64)
        ensures
            final(self).spec_len() == val % EXMAP_LEN_LIMIT,
            final(self).spec_page() == old(self).spec_page(),
            final(self).spec_value() == iov_word(
                old(self).spec_page(),
                (val % EXMAP_LEN_LIMIT) as u64,
            ),
    {
        let w = self.value;
        let n = (w & 0x000f_ffff_ffff_ffff) | ((val & 0xfff) << 52u64);
        assert(n % 0x0010_0000_0000_0000 == w % 0x0010_0000_0000_0000 && n
            / 0x0010_0000_0000_0000 == val % 0x1000 && n == (val % 0x1000)
            * 0x0010_0000_0000_0000 + (w % 0x0010_0000_0000_0000)) by (bit_vector)
            requires
                n == (w & 0x000f_ffff_ffff_ffffu64) | ((val & 0xfffu64) << 52u64),
        ;
        self.value = n;
    }
}

/// One descriptor slot in result mode: the outcome of one submitted range.
/// The outcome code is the low 16 bits of the slot, the count of pages that
/// were affected is bits 32 to 47; the other bits are padding.
#[derive(Debug, Clone, Copy, PartialEq, Eq, Structural)]
pub struct ExmapResult {
    /// Outcome code of the range.
    pub res: u16,
    /// Number of pages that the command affected in the range.
    pub pages: u16,
}

impl ExmapResult {
    /// The outcome that a raw slot word holds.
    pub open spec fn spec_from_value(value: u64) -> ExmapResult {
        ExmapResult {
            res: (value as int % 0x1_0000) as u16,
            pages: ((value as int / 0x1_0000_0000) % 0x1_0000) as u16,
        }
    }

    /// The raw slot word that holds this outcome, with the padding zero.
    pub open spec fn spec_value(&self) -> u64 {
        (self.pages as int * 0x1_0000_0000 + self.res as int) as u64
    }

    /// Reads the outcome out of a raw slot word.
    pub fn from_value(value: u64) -> (r: ExmapResult)
        ensures
            r == ExmapResult::spec_from_value(value),
    {
        let res = (value & 0xffff) as u16;
        let pages = ((value >> 32u64) & 0xffff) as u16;
        assert(res == (value % 0x1_0000) as u16 && pages == ((value / 0x1_0000_0000) % 0x1_0000) as u16)
            by (bit_vector)
            requires
                res == (value & 0xffff) as u16,
                pages == ((value >> 32u64) & 0xffff) as u16,
        ;
        ExmapResult { res, pages }
    }

    /// The raw slot word that holds this outcome, with the padding zero.
    #[verifier::when_used_as_spec(spec_value)]
    pub fn value(&self) -> (v: u64)
        ensures
            v == self.spec_value(),
            ExmapResult::spec_from_value(v) == *self,
    {
        let res = self.res;
        let pages = self.pages;
        let v = ((pages as u64) << 32u64) | (res as u64);
        assert(v == pages * 0x1_0000_0000 + res && v % 0x1_0000 == res && (v / 0x1_0000_0000)
            % 0x1_0000 == pages) by (bit_vector)
            requires
                v == ((pages as u64) << 32u64) | (res as u64),
        ;
        v
    }
}

/// Payload of the setup command.
#[derive(Debug, Clone, Copy, PartialEq, Eq, Structural)]
pub struct ExmapIoctlSetup {
    /// Descriptor of the backing store, or -1 where there is none.
    pub fd: i32,
    /// Number of interfaces that the device is to offer.
    pub max_interfaces: i32,
    /// Amount of memory reserved for the region.
    pub buffer_size: usize,
    /// Reserved, always 0.
    pub flags: u64,
}

/// Payload of the action command.
#[derive(Debug, Clone, Copy, PartialEq, Eq, Structural)]
pub struct ExmapActionParams {
    /// Index of the interface that holds the batch.
    pub interface: u16,
    /// Number of descriptors in the batch.
    pub iov_len: u16,
    /// What to do with the ranges: `EXMAP_OP_ALLOC` or `EXMAP_OP_FREE`.
    pub opcode: u16,
    /// Reserved, always 0.
    pub flags: u64,
}

/// A mapping for the caller to establish on the control connection, shared,
/// readable and writable, at an address of the system's choice.
#[derive(Debug, Clone, Copy, PartialEq, Eq, Structural)]
pub struct MmapRequest {
    /// Number of bytes to map.
    pub length: usize,
    /// Device-defined offset that selects what is mapped.
    pub offset: u64,
}

/// A mapping for the caller to release.
#[derive(Debug, Clone, Copy, PartialEq, Eq, Structural)]
pub struct MunmapRequest {
    /// Address at which the mapping starts.
    pub addr: usize,
    /// Number of bytes that were mapped.
    pub length: usize,
}

/// `rustix::io::Errno`, the error value of a failed system call. The library
/// passes such values on and never looks inside one.
#[verifier::external_type_specification]
#[verifier::external_body]
pub struct ExErrno(Errno);

/// The error value that stands for the operating system's error number
/// `raw`.
pub uninterp spec fn errno_of(raw: i32) -> Errno;

/// `rustix::io::Errno::from_raw_os_error`: builds the error value of an
/// error number. The function rejects numbers outside 1 to 4095, which the
/// precondition leaves out; for the others its result depends on the number
/// alone, and `errno_of` is the name of that result.
#[verifier::external_body]
fn errno_from_raw(raw: i32) -> (e: Errno)
    requires
        0 < raw < 4096,
    ensures
        e == errno_of(raw),
{
    Errno::from_raw_os_error(raw)
}

/// What a raw control result decodes to: a negative result is the negated
/// error number, anything else is the value of a success.
pub open spec fn spec_to_result(ret: i32) -> Result<i32, Errno> {
    if ret >= 0 {
        Ok(ret)
    } else {
        Err(errno_of((-ret) as i32))
    }
}

/// Smallest raw control result that stands for an error.
pub const RET_ERROR_MIN: i32 = -4095;

/// Tells a success from a failure in the raw result of a control command.
pub fn to_result(ret: i32) -> (r: Result<i32, Errno>)
    requires
        ret >= RET_ERROR_MIN,
    ensures
        r == spec_to_result(ret),
        r is Ok <==> ret >= 0,
{
    if ret >= 0 {
        Ok(ret)
    } else {
        Err(errno_from_raw(-ret))
    }
}

} // verus!
