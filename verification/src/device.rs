//! The device handle and the virtual memory region that it creates.

use crate::interface::{InterfaceIov, InterfaceWrapper, MMAP_INTERFACE};
use crate::sys::{
    errno_of, interface_offset, to_result, ExmapActionParams, ExmapIoctlSetup, MmapRequest,
    MunmapRequest, EXMAP_OFF_EXMAP, EXMAP_OP_ALLOC, EXMAP_OP_FREE, RET_ERROR_MIN,
};
use rustix::io::Errno;
use vstd::prelude::*;

verus! {

/// The control connection as a dependent component holds it: the number of
/// the descriptor on which it issues its commands.
#[derive(Debug, Clone, Copy, PartialEq, Eq, Structural)]
pub struct BorrowedExmapFd {
    fd: i32,
}

impl BorrowedExmapFd {
    /// The descriptor number.
    pub closed spec fn spec_raw_fd(&self) -> i32 {
        self.fd
    }

    /// The descriptor number.
    #[verifier::when_used_as_spec(spec_raw_fd)]
    pub fn as_raw_fd(&self) -> (fd: i32)
        ensures
            fd == self.spec_raw_fd(),
    {
        self.fd
    }

    /// The payload of the action command that allocates the first `iov_len`
    /// ranges of interface `interface`.
    pub fn allocate(&self, interface: u16, iov_len: u16) -> (params: ExmapActionParams)
        ensures
            params == (ExmapActionParams {
                interface,
                iov_len,
                opcode: EXMAP_OP_ALLOC as u16,
                flags: 0,
            }),
    {
        ExmapActionParams { interface, iov_len, opcode: EXMAP_OP_ALLOC as u16, flags: 0 }
    }

    /// The payload of the action command that frees the first `iov_len`
    /// ranges of interface `interface`.
    pub fn free(&self, interface: u16, iov_len: u16) -> (params: ExmapActionParams)
        ensures
            params == (ExmapActionParams {
                interface,
                iov_len,
                opcode: EXMAP_OP_FREE as u16,
                flags: 0,
            }),
    {
        ExmapActionParams { interface, iov_len, opcode: EXMAP_OP_FREE as u16, flags: 0 }
    }
}

/// One mapped byte range. The value owns the mapping: it cannot be copied,
/// and releasing the mapping consumes it.
#[derive(Debug)]
pub struct VMMap {
    data: usize,
    len: usize,
}

impl VMMap {
    /// The range of `len` bytes that is mapped at `data`.
    pub(crate) fn new(data: usize, len: usize) -> (m: VMMap)
        ensures
            m.spec_addr() == data,
            m.spec_len() == len,
    {
        VMMap { data, len }
    }

    /// The address at which the range starts.
    pub closed spec fn spec_addr(&self) -> usize {
        self.data
    }

    /// The number of bytes in the range.
    pub closed spec fn spec_len(&self) -> usize {
        self.len
    }

    /// The address at which the range starts.
    #[verifier::when_used_as_spec(spec_addr)]
    pub fn addr(&self) -> (a: usize)
        ensures
            a == self.spec_addr(),
    {
        self.data
    }

    /// The number of bytes in the range.
    #[verifier::when_used_as_spec(spec_len)]
    pub fn len(&self) -> (n: usize)
        ensures
            n == self.spec_len(),
    {
        self.len
    }

    /// Gives the range up and names the mapping that the caller has to
    /// release for it.
    pub fn unmap(self) -> (req: MunmapRequest)
        ensures
            req == (MunmapRequest { addr: self.spec_addr(), length: self.spec_len() }),
    {
        MunmapRequest { addr: self.data, length: self.len }
    }
}

/// The virtual memory region of a configured device.
#[derive(Debug)]
pub struct VirtMem<const PAGE_SIZE: usize> {
    exmap_fd: BorrowedExmapFd,
    backing_fd: Option<i32>,
    vmmap: VMMap,
}

impl<const PAGE_SIZE: usize> VirtMem<PAGE_SIZE> {
    /// The mapped range of the region.
    pub closed spec fn spec_vmmap(&self) -> VMMap {
        self.vmmap
    }

    /// The control connection of the device that the region belongs to.
    pub closed spec fn spec_fd(&self) -> BorrowedExmapFd {
        self.exmap_fd
    }

    /// The descriptor of the backing store, where the region has one.
    pub closed spec fn spec_backing_fd(&self) -> Option<i32> {
        self.backing_fd
    }

    /// The address at which the region starts.
    pub fn addr(&self) -> (a: usize)
        ensures
            a == self.spec_vmmap().spec_addr(),
    {
        self.vmmap.addr()
    }

    /// The number of bytes in the region.
    pub fn size(&self) -> (n: usize)
        ensures
            n == self.spec_vmmap().spec_len(),
    {
        self.vmmap.len()
    }

    /// The control connection of the device that the region belongs to.
    pub fn fd(&self) -> (fd: BorrowedExmapFd)
        ensures
            fd == self.spec_fd(),
    {
        self.exmap_fd
    }

    /// The descriptor of the backing store, where the region has one.
    pub fn backing_fd(&self) -> (fd: Option<i32>)
        ensures
            fd == self.spec_backing_fd(),
    {
        self.backing_fd
    }

    /// Gives the region up and names the mapping that the caller has to
    /// release for it.
    pub fn unmap(self) -> (req: MunmapRequest)
        ensures
            req == (MunmapRequest {
                addr: self.spec_vmmap().spec_addr(),
                length: self.spec_vmmap().spec_len(),
            }),
    {
        self.vmmap.unmap()
    }
}

/// A region in creation whose mapping was asked for.
#[derive(Debug)]
pub struct CreateMapping<const PAGE_SIZE: usize> {
    exmap_fd: BorrowedExmapFd,
    backing_fd: Option<i32>,
    size: usize,
    params: ExmapIoctlSetup,
}

/// A region in creation that is mapped and whose setup command was asked
/// for.
#[derive(Debug)]
pub struct CreateSetup<const PAGE_SIZE: usize> {
    exmap_fd: BorrowedExmapFd,
    backing_fd: Option<i32>,
    vmmap: VMMap,
}

impl<const PAGE_SIZE: usize> CreateMapping<PAGE_SIZE> {
    /// The control connection of the device.
    pub closed spec fn spec_fd(&self) -> BorrowedExmapFd {
        self.exmap_fd
    }

    /// The descriptor of the backing store, where there is one.
    pub closed spec fn spec_backing_fd(&self) -> Option<i32> {
        self.backing_fd
    }

    /// The number of bytes of the region.
    pub closed spec fn spec_size(&self) -> usize {
        self.size
    }

    /// The payload of the setup command that follows the mapping.
    pub closed spec fn spec_params(&self) -> ExmapIoctlSetup {
        self.params
    }

    /// Takes the outcome of the mapping: the address of the new mapping, or
    /// the error of the refusal. After a new mapping the caller issues one
    /// setup command with the payload returned here and hands its raw result
    /// to `configured`. After a refusal nothing is left to do.
    pub fn mapped(self, mapped: Result<usize, Errno>) -> (r: Result<
        (CreateSetup<PAGE_SIZE>, ExmapIoctlSetup),
        Errno,
    >)
        ensures
            mapped matches Ok(addr) ==> r matches Ok((next, params)) && params
                == self.spec_params() && next.spec_fd() == self.spec_fd()
                && next.spec_backing_fd() == self.spec_backing_fd()
                && next.spec_vmmap().spec_addr() == addr && next.spec_vmmap().spec_len()
                == self.spec_size(),
            mapped matches Err(e) ==> r matches Err(f) && f == e,
    {
        match mapped {
            Ok(data) => Ok(
                (
                    CreateSetup {
                        exmap_fd: self.exmap_fd,
                        backing_fd: self.backing_fd,
                        vmmap: VMMap::new(data, self.size),
                    },
                    self.params,
                ),
            ),
            Err(e) => Err(e),
        }
    }
}

impl<const PAGE_SIZE: usize> CreateSetup<PAGE_SIZE> {
    /// The control connection of the device.
    pub closed spec fn spec_fd(&self) -> BorrowedExmapFd {
        self.exmap_fd
    }

    /// The descriptor of the backing store, where there is one.
    pub closed spec fn spec_backing_fd(&self) -> Option<i32> {
        self.backing_fd
    }

    /// The mapped range of the region.
    pub closed spec fn spec_vmmap(&self) -> VMMap {
        self.vmmap
    }

    /// Takes the raw result of the setup command. A result that is not
    /// negative gives the region. A negative result gives the driver's
    /// error, together with the mapped range, which is the caller's to
    /// release.
    pub fn configured(self, ret: i32) -> (r: Result<VirtMem<PAGE_SIZE>, (VMMap, Errno)>)
        requires
            ret >= RET_ERROR_MIN,
        ensures
            r is Ok <==> ret >= 0,
            r matches Ok(region) ==> region.spec_vmmap() == self.spec_vmmap()
                && region.spec_fd() == self.spec_fd() && region.spec_backing_fd()
                == self.spec_backing_fd(),
            r matches Err((vmmap, e)) ==> vmmap == self.spec_vmmap() && e == errno_of(
                (-ret) as i32,
            ),
    {
        match to_result(ret) {
            Ok(_) => Ok(
                VirtMem { exmap_fd: self.exmap_fd, backing_fd: self.backing_fd, vmmap: self.vmmap },
            ),
            Err(e) => Err((self.vmmap, e)),
        }
    }
}

/// The control connection to the device, as its owner holds it: the number of
/// the open descriptor and the interface indices that were mapped through
/// it. `PAGE_SIZE` is the page size that the owner is configured for.
#[derive(Debug)]
pub struct OwnedExmapFd<const PAGE_SIZE: usize> {
    fd: i32,
    mapped: Vec<u16>,
}

impl<const PAGE_SIZE: usize> OwnedExmapFd<PAGE_SIZE> {
    /// The descriptor number.
    pub closed spec fn spec_raw_fd(&self) -> i32 {
        self.fd
    }

    /// The interface indices that were mapped through this handle.
    pub closed spec fn spec_mapped(&self) -> Set<u16> {
        self.mapped@.to_set()
    }

    /// Takes the outcome of opening the device node for reading and writing:
    /// the number of the new descriptor, or the error of the refusal.
    pub fn open(opened: Result<i32, Errno>) -> (r: Result<Self, Errno>)
        ensures
            opened matches Ok(fd) ==> r matches Ok(h) && h.spec_raw_fd() == fd && h.spec_mapped()
                == Set::<u16>::empty(),
            opened matches Err(e) ==> r matches Err(f) && f == e,
    {
        match opened {
            Ok(fd) => Ok(Self::from_raw(fd)),
            Err(e) => Err(e),
        }
    }

    /// The handle of the open descriptor `fd`, with no interface mapped yet.
    pub fn from_raw(fd: i32) -> (h: Self)
        ensures
            h.spec_raw_fd() == fd,
            h.spec_mapped() == Set::<u16>::empty(),
    {
        let h = OwnedExmapFd { fd, mapped: Vec::new() };
        assert(h.mapped@.to_set() =~= Set::<u16>::empty());
        h
    }

    /// The descriptor number.
    #[verifier::when_used_as_spec(spec_raw_fd)]
    pub fn as_raw_fd(&self) -> (fd: i32)
        ensures
            fd == self.spec_raw_fd(),
    {
        self.fd
    }

    /// The connection as a dependent component holds it.
    pub fn as_fd(&self) -> (fd: BorrowedExmapFd)
        ensures
            fd.spec_raw_fd() == self.spec_raw_fd(),
    {
        BorrowedExmapFd { fd: self.fd }
    }

    /// Whether interface `index` was mapped through this handle.
    pub fn is_mapped(&self, index: u16) -> (b: bool)
        ensures
            b == self.spec_mapped().contains(index),
    {
        let mut i: usize = 0;
        while i < self.mapped.len()
            invariant
                i <= self.mapped@.len(),
                forall|j: int| 0 <= j < i ==> self.mapped@[j] != index,
            decreases self.mapped@.len() - i,
        {
            if self.mapped[i] == index {
                return true;
            }
            i += 1;
        }
        false
    }

    /// Whether the mapping of an interface fits one page of the configured
    /// size. A device whose interface does not fit cannot be created.
    pub fn interface_fits_page(&self) -> (b: bool)
        ensures
            b == (MMAP_INTERFACE <= PAGE_SIZE),
    {
        MMAP_INTERFACE <= PAGE_SIZE
    }

    /// The mapping that establishes a region of `size` bytes.
    pub fn vm_request(&self, size: usize) -> (req: MmapRequest)
        ensures
            req == (MmapRequest { length: size, offset: 0 }),
    {
        MmapRequest { length: size, offset: EXMAP_OFF_EXMAP as u64 }
    }

    /// Takes the outcome of the mapping that `vm_request(size)` asked for:
    /// the address of the new mapping, or the error of the refusal.
    pub fn mmap_vm(&self, size: usize, mapped: Result<usize, Errno>) -> (r: Result<VMMap, Errno>)
        ensures
            mapped matches Ok(addr) ==> r matches Ok(m) && m.spec_addr() == addr && m.spec_len()
                == size,
            mapped matches Err(e) ==> r matches Err(f) && f == e,
    {
        match mapped {
            Ok(data) => Ok(VMMap::new(data, size)),
            Err(e) => Err(e),
        }
    }

    /// The mapping that establishes interface `index`.
    pub fn interface_request(&self, index: u16) -> (req: MmapRequest)
        ensures
            req == (MmapRequest {
                length: MMAP_INTERFACE,
                offset: (0xe000_0000_0000_0000 + index * 4096) as u64,
            }),
    {
        MmapRequest { length: MMAP_INTERFACE, offset: interface_offset(index) }
    }

    /// Takes the outcome of the mapping that `interface_request(index)`
    /// asked for: the address of the new mapping, or the error of the
    /// refusal. A new mapping gives an empty interface in request mode and
    /// records `index` as mapped. An index is mapped at most once through a
    /// handle.
    pub fn mmap_interface(&mut self, index: u16, mapped: Result<usize, Errno>) -> (r: Result<
        InterfaceWrapper<InterfaceIov>,
        Errno,
    >)
        requires
            !old(self).spec_mapped().contains(index),
        ensures
            final(self).spec_raw_fd() == old(self).spec_raw_fd(),
            mapped matches Ok(addr) ==> r matches Ok(w) && w.spec_index() == index
                && w.spec_addr() == addr && w.spec_len() == 0 && w.spec_fd().spec_raw_fd()
                == old(self).spec_raw_fd() && w.descriptors() == Seq::<
                crate::sys::ExmapIov,
            >::empty() && final(self).spec_mapped() == old(self).spec_mapped().insert(index),
            mapped matches Err(e) ==> r matches Err(f) && f == e && final(self).spec_mapped()
                == old(self).spec_mapped(),
    {
        match mapped {
            Ok(data) => {
                self.mapped.push(index);
                proof {
                    old(self).mapped@.lemma_push_to_set_commute(index);
                }
                Ok(InterfaceWrapper::new(index, data, BorrowedExmapFd { fd: self.fd }))
            },
            Err(e) => Err(e),
        }
    }

    /// Starts the creation of a region of `exmap_size` bytes on a device with
    /// `max_interfaces` interfaces and `buffer_size` of reserved memory, with
    /// or without a backing store. The caller establishes the mapping
    /// returned here and hands its outcome to `mapped`. The interface has to
    /// fit one page of the configured size.
    pub fn create(
        &self,
        exmap_size: usize,
        max_interfaces: u16,
        buffer_size: usize,
        backing_fd: Option<i32>,
    ) -> (r: (CreateMapping<PAGE_SIZE>, MmapRequest))
        requires
            MMAP_INTERFACE <= PAGE_SIZE,
        ensures
            r.1 == (MmapRequest { length: exmap_size, offset: 0 }),
            r.0.spec_size() == exmap_size,
            r.0.spec_backing_fd() == backing_fd,
            r.0.spec_fd().spec_raw_fd() == self.spec_raw_fd(),
            r.0.spec_params() == (ExmapIoctlSetup {
                fd: match backing_fd {
                    Some(fd) => fd,
                    None => -1i32,
                },
                max_interfaces: max_interfaces as i32,
                buffer_size,
                flags: 0,
            }),
    {
        let params = self.setup(backing_fd, max_interfaces, buffer_size);
        (
            CreateMapping { exmap_fd: self.as_fd(), backing_fd, size: exmap_size, params },
            self.vm_request(exmap_size),
        )
    }

    /// The payload of the setup command. A device without a backing store
    /// is configured with the descriptor -1.
    pub fn setup(&self, backing_fd: Option<i32>, max_interfaces: u16, buffer_size: usize) -> (params:
        ExmapIoctlSetup)
        ensures
            params == (ExmapIoctlSetup {
                fd: match backing_fd {
                    Some(fd) => fd,
                    None => -1i32,
                },
                max_interfaces: max_interfaces as i32,
                buffer_size,
                flags: 0,
            }),
    {
        let backing_fd_raw = if let Some(fd) = backing_fd {
            fd
        } else {
            -1
        };
        ExmapIoctlSetup {
            fd: backing_fd_raw,
            max_interfaces: max_interfaces as i32,
            buffer_size,
            flags: 0,
        }
    }
}

} // verus!
