//! The interface: a fixed-capacity buffer of descriptor slots that collects
//! page ranges, is submitted with one action command, and is then read back
//! from the same slots as one outcome per range.
//!
//! The mode of the slots is part of the interface's type. An interface is
//! built in request mode, becomes pending when a command is formed from it,
//! and readable when the command has returned; a readable interface is turned
//! into a new, empty request buffer. No other order compiles.

use crate::device::BorrowedExmapFd;
use crate::sys::{
    errno_of, to_result, ExmapActionParams, ExmapIov, ExmapResult, MunmapRequest,
    EXMAP_IOV_SIZE, EXMAP_USER_INTERFACE_PAGES, RET_ERROR_MIN,
};
use rustix::io::Errno;
use std::marker::PhantomData;
use vstd::prelude::*;

verus! {

/// Number of descriptor slots in an interface.
pub const MAX_COUNT: usize = 512;

/// Size in bytes of the mapping of an interface.
pub const MMAP_INTERFACE: usize = 4096;

/// An interface has the number of slots that the device defines, and its
/// mapping holds exactly those slots.
pub proof fn lemma_interface_layout()
    ensures
        MAX_COUNT == EXMAP_USER_INTERFACE_PAGES,
        InterfaceWrapper::<InterfaceIov>::MAX_COUNT == MAX_COUNT,
        MMAP_INTERFACE == MAX_COUNT * EXMAP_IOV_SIZE,
{
}

/// Mode of an interface that accepts ranges: its slots hold requests.
pub struct InterfaceIov;

/// Mode of an interface whose command was formed and has not returned yet.
pub struct InterfacePending;

/// Mode of an interface whose command has returned: its slots hold outcomes.
pub struct InterfaceResult;

/// Error of an indexed access to a descriptor.
#[derive(Debug, Clone, Copy, PartialEq, Eq, Structural)]
pub enum InterfaceIndexError {
    /// The index is not below the current length.
    OutOfBounds,
}

impl InterfaceIndexError {
    /// The text that describes the error.
    pub fn message(&self) -> (s: &'static str)
        ensures
            s@ == "index is out of bounds"@,
    {
        "index is out of bounds"
    }
}

/// Error of adding a range to an interface.
#[derive(Debug, Clone, Copy, PartialEq, Eq, Structural)]
pub enum InterfacePushError {
    /// The interface already holds `MAX_COUNT` ranges.
    Capacity,
}

/// One interface of the device, in the mode `T`.
pub struct InterfaceWrapper<T> {
    index: u16,
    data: usize,
    slots: Vec<u64>,
    len: u16,
    exmap_fd: BorrowedExmapFd,
    state: PhantomData<T>,
}

impl<T> InterfaceWrapper<T> {
    /// Number of descriptor slots in an interface.
    pub const MAX_COUNT: usize = MAX_COUNT;

    /// An interface always has all of its slots, and uses no more than it
    /// has.
    #[verifier::type_invariant]
    spec fn wf(self) -> bool {
        self.slots@.len() == MAX_COUNT && self.len <= MAX_COUNT
    }

    /// The index of the interface on its device.
    pub closed spec fn spec_index(&self) -> u16 {
        self.index
    }

    /// The address at which the interface is mapped.
    pub closed spec fn spec_addr(&self) -> usize {
        self.data
    }

    /// The number of slots in use.
    pub closed spec fn spec_len(&self) -> u16 {
        self.len
    }

    /// The raw words of all slots, used or not.
    pub closed spec fn spec_slots(&self) -> Seq<u64> {
        self.slots@
    }

    /// The control connection on which the interface issues its commands.
    pub closed spec fn spec_fd(&self) -> BorrowedExmapFd {
        self.exmap_fd
    }

    /// The index of the interface on its device.
    #[verifier::when_used_as_spec(spec_index)]
    pub fn index(&self) -> (i: u16)
        ensures
            i == self.spec_index(),
    {
        self.index
    }

    /// The address at which the interface is mapped.
    #[verifier::when_used_as_spec(spec_addr)]
    pub fn addr(&self) -> (a: usize)
        ensures
            a == self.spec_addr(),
    {
        self.data
    }

    /// The number of slots in use.
    #[verifier::when_used_as_spec(spec_len)]
    pub fn len(&self) -> (n: u16)
        ensures
            n == self.spec_len(),
            n <= MAX_COUNT,
    {
        proof {
            use_type_invariant(self);
        }
        self.len
    }

    /// The raw words of all `MAX_COUNT` slots, as they are to stand in the
    /// mapped buffer.
    pub fn slots(&self) -> (s: &Vec<u64>)
        ensures
            s@ == self.spec_slots(),
            s@.len() == MAX_COUNT,
    {
        proof {
            use_type_invariant(self);
        }
        &self.slots
    }

    /// The control connection on which the interface issues its commands.
    pub fn fd(&self) -> (fd: BorrowedExmapFd)
        ensures
            fd == self.spec_fd(),
    {
        self.exmap_fd
    }

    /// Gives the interface up and names the mapping that the caller has to
    /// release for it.
    pub fn unmap(self) -> (req: MunmapRequest)
        ensures
            req == (MunmapRequest { addr: self.spec_addr(), length: MMAP_INTERFACE }),
    {
        MunmapRequest { addr: self.data, length: MMAP_INTERFACE }
    }
}

/// The descriptors that the first `len` of the slot words `slots` hold in
/// request mode.
pub open spec fn requests_of(slots: Seq<u64>, len: int) -> Seq<ExmapIov> {
    Seq::new(len as nat, |i: int| ExmapIov::spec_from_value(slots[i]))
}

/// The outcomes that the first `len` of the slot words `slots` hold in
/// result mode.
pub open spec fn results_of(slots: Seq<u64>, len: int) -> Seq<ExmapResult> {
    Seq::new(len as nat, |i: int| ExmapResult::spec_from_value(slots[i]))
}

impl InterfaceWrapper<InterfaceIov> {
    /// An empty interface in request mode with all slots zero.
    pub(crate) fn new(index: u16, data: usize, exmap_fd: BorrowedExmapFd) -> (w: Self)
        ensures
            w.spec_index() == index,
            w.spec_addr() == data,
            w.spec_fd() == exmap_fd,
            w.spec_len() == 0,
            w.descriptors() == Seq::<ExmapIov>::empty(),
    {
        let mut slots: Vec<u64> = Vec::new();
        let mut i: usize = 0;
        while i < MAX_COUNT
            invariant
                i <= MAX_COUNT,
                slots@.len() == i,
            decreases MAX_COUNT - i,
        {
            slots.push(0);
            i += 1;
        }
        InterfaceWrapper { index, data, slots, len: 0, exmap_fd, state: PhantomData }
    }

    /// The ranges that the interface holds, in the order in which they were
    /// pushed.
    pub open spec fn descriptors(&self) -> Seq<ExmapIov> {
        requests_of(self.spec_slots(), self.spec_len() as int)
    }

    /// Appends the range of `len` pages that starts at `page`. An interface
    /// that already holds `MAX_COUNT` ranges refuses it and stays as it is;
    /// nothing is ever dropped or submitted on the way.
    pub fn push(&mut self, page: u64, len: u64) -> (r: Result<(), InterfacePushError>)
        ensures
            r is Ok <==> old(self).spec_len() < MAX_COUNT,
            r is Err ==> r == Err::<(), InterfacePushError>(InterfacePushError::Capacity)
                && *final(self) == *old(self),
            r is Ok ==> final(self).descriptors() == old(self).descriptors().push(
                ExmapIov::spec_new(page, len),
            ),
            r is Ok ==> final(self).spec_len() == old(self).spec_len() + 1,
            r is Ok ==> final(self).spec_slots() == old(self).spec_slots().update(
                old(self).spec_len() as int,
                ExmapIov::spec_new(page, len).spec_value(),
            ),
            final(self).spec_index() == old(self).spec_index(),
            final(self).spec_addr() == old(self).spec_addr(),
            final(self).spec_fd() == old(self).spec_fd(),
    {
        proof {
            use_type_invariant(&*self);
        }
        if MAX_COUNT == self.len as usize {
            return Err(InterfacePushError::Capacity);
        }
        let l = self.len;
        let iov = ExmapIov::new(page, len);
        let word = iov.value();
        self.slots[l as usize] = word;
        self.len = l + 1;
        proof {
            assert(self.descriptors() =~= old(self).descriptors().push(
                ExmapIov::spec_new(page, len),
            ));
        }
        Ok(())
    }

    /// The ranges that the interface holds, in the order in which they were
    /// pushed.
    pub fn iter(&self) -> (v: Vec<ExmapIov>)
        ensures
            v@ == self.descriptors(),
    {
        proof {
            use_type_invariant(self);
        }
        let n = self.len as usize;
        let mut v: Vec<ExmapIov> = Vec::new();
        let mut i: usize = 0;
        while i < n
            invariant
                i <= n,
                n == self.spec_len(),
                n <= self.spec_slots().len(),
                self.slots@ == self.spec_slots(),
                v@ == requests_of(self.spec_slots(), i as int),
            decreases n - i,
        {
            v.push(ExmapIov::from_value(self.slots[i]));
            i += 1;
            assert(v@ =~= requests_of(self.spec_slots(), i as int));
        }
        v
    }

    /// The range in slot `index`. A slot at or past the current length is
    /// out of bounds.
    pub fn get(&self, index: u16) -> (r: Result<ExmapIov, InterfaceIndexError>)
        ensures
            r is Ok <==> index < self.spec_len(),
            r matches Ok(iov) ==> iov == self.descriptors()[index as int],
            r matches Err(e) ==> e == InterfaceIndexError::OutOfBounds,
    {
        proof {
            use_type_invariant(self);
        }
        if index >= self.len {
            return Err(InterfaceIndexError::OutOfBounds);
        }
        Ok(ExmapIov::from_value(self.slots[index as usize]))
    }

    /// Replaces the range in slot `index`. A slot at or past the current
    /// length is out of bounds, and the interface then stays as it is.
    pub fn set(&mut self, index: u16, iov: ExmapIov) -> (r: Result<(), InterfaceIndexError>)
        ensures
            r is Ok <==> index < old(self).spec_len(),
            r is Err ==> r == Err::<(), InterfaceIndexError>(InterfaceIndexError::OutOfBounds)
                && *final(self) == *old(self),
            r is Ok ==> final(self).descriptors() == old(self).descriptors().update(
                index as int,
                iov,
            ),
            r is Ok ==> final(self).spec_slots() == old(self).spec_slots().update(
                index as int,
                iov.spec_value(),
            ),
            final(self).spec_len() == old(self).spec_len(),
            final(self).spec_index() == old(self).spec_index(),
            final(self).spec_addr() == old(self).spec_addr(),
            final(self).spec_fd() == old(self).spec_fd(),
    {
        proof {
            use_type_invariant(&*self);
        }
        if index >= self.len {
            return Err(InterfaceIndexError::OutOfBounds);
        }
        let word = iov.value();
        self.slots[index as usize] = word;
        proof {
            ExmapIov::lemma_from_value(word);
            assert(self.descriptors() =~= old(self).descriptors().update(index as int, iov));
        }
        Ok(())
    }

    /// Closes the batch for an allocation: the interface becomes pending, and
    /// the payload names it, the number of ranges it holds and the
    /// allocating opcode. The caller issues one action command with that
    /// payload and hands its outcome to `complete`.
    pub fn allocate(self) -> (r: (InterfaceWrapper<InterfacePending>, ExmapActionParams))
        ensures
            r.0.spec_index() == self.spec_index(),
            r.0.spec_addr() == self.spec_addr(),
            r.0.spec_fd() == self.spec_fd(),
            r.0.spec_len() == self.spec_len(),
            r.0.spec_slots() == self.spec_slots(),
            r.1 == (ExmapActionParams {
                interface: self.spec_index(),
                iov_len: self.spec_len(),
                opcode: 1,
                flags: 0,
            }),
    {
        let params = self.exmap_fd.allocate(self.index, self.len);
        (self.into_pending(), params)
    }

    /// Closes the batch for a release: as `allocate`, with the freeing
    /// opcode.
    pub fn free(self) -> (r: (InterfaceWrapper<InterfacePending>, ExmapActionParams))
        ensures
            r.0.spec_index() == self.spec_index(),
            r.0.spec_addr() == self.spec_addr(),
            r.0.spec_fd() == self.spec_fd(),
            r.0.spec_len() == self.spec_len(),
            r.0.spec_slots() == self.spec_slots(),
            r.1 == (ExmapActionParams {
                interface: self.spec_index(),
                iov_len: self.spec_len(),
                opcode: 2,
                flags: 0,
            }),
    {
        let params = self.exmap_fd.free(self.index, self.len);
        (self.into_pending(), params)
    }

    fn into_pending(self) -> (w: InterfaceWrapper<InterfacePending>)
        ensures
            w.spec_index() == self.spec_index(),
            w.spec_addr() == self.spec_addr(),
            w.spec_fd() == self.spec_fd(),
            w.spec_len() == self.spec_len(),
            w.spec_slots() == self.spec_slots(),
    {
        proof {
            use_type_invariant(&self);
        }
        let InterfaceWrapper { index, data, slots, len, exmap_fd, .. } = self;
        InterfaceWrapper { index, data, slots, len, exmap_fd, state: PhantomData }
    }
}

impl InterfaceWrapper<InterfacePending> {
    /// The ranges that were submitted, in submission order.
    pub open spec fn submitted(&self) -> Seq<ExmapIov> {
        requests_of(self.spec_slots(), self.spec_len() as int)
    }

    /// Takes the outcome of the action command: its raw result and the words
    /// that the slots hold now. The interface becomes readable over those
    /// words, with one outcome for each range that was submitted, in the
    /// same order. A result that is not negative is a success and gives the
    /// command's overall result code; a negative result is a failure and
    /// gives the driver's error, and what the readable interface then holds
    /// is unspecified: turn it into a request buffer before using it again.
    pub fn complete(self, ret: i32, image: Vec<u64>) -> (r: Result<
        (InterfaceWrapper<InterfaceResult>, u16),
        (InterfaceWrapper<InterfaceResult>, Errno),
    >)
        requires
            ret >= RET_ERROR_MIN,
            image@.len() == MAX_COUNT,
        ensures
            r is Ok <==> ret >= 0,
            r matches Ok((w, code)) ==> code == ret % 0x1_0000 && w.spec_slots() == image@
                && w.spec_len() == self.spec_len() && w.spec_index() == self.spec_index()
                && w.spec_addr() == self.spec_addr() && w.spec_fd() == self.spec_fd()
                && w.outcomes() == results_of(image@, self.spec_len() as int)
                && w.outcomes().len() == self.submitted().len(),
            r matches Err((w, e)) ==> e == errno_of((-ret) as i32) && w.spec_slots() == image@
                && w.spec_len() == self.spec_len() && w.spec_index() == self.spec_index()
                && w.spec_addr() == self.spec_addr() && w.spec_fd() == self.spec_fd(),
    {
        let w = self.into_res(image);
        match to_result(ret) {
            Ok(c) => {
                let code = (c & 0xffff) as u16;
                assert(code == c % 0x1_0000) by (bit_vector)
                    requires
                        c >= 0,
                        code == (c & 0xffff) as u16,
                ;
                Ok((w, code))
            },
            Err(e) => Err((w, e)),
        }
    }

    fn into_res(self, image: Vec<u64>) -> (w: InterfaceWrapper<InterfaceResult>)
        requires
            image@.len() == MAX_COUNT,
        ensures
            w.spec_index() == self.spec_index(),
            w.spec_addr() == self.spec_addr(),
            w.spec_fd() == self.spec_fd(),
            w.spec_len() == self.spec_len(),
            w.spec_slots() == image@,
    {
        proof {
            use_type_invariant(&self);
        }
        let InterfaceWrapper { index, data, len, exmap_fd, .. } = self;
        InterfaceWrapper { index, data, slots: image, len, exmap_fd, state: PhantomData }
    }
}

impl InterfaceWrapper<InterfaceResult> {
    /// The outcomes that the interface holds: one for each range that was
    /// submitted, in submission order.
    pub open spec fn outcomes(&self) -> Seq<ExmapResult> {
        results_of(self.spec_slots(), self.spec_len() as int)
    }

    /// The outcomes, one for each range that was submitted, in submission
    /// order.
    pub fn iter(&self) -> (v: Vec<ExmapResult>)
        ensures
            v@ == self.outcomes(),
            v@.len() == self.spec_len(),
    {
        proof {
            use_type_invariant(self);
        }
        let n = self.len as usize;
        let mut v: Vec<ExmapResult> = Vec::new();
        let mut i: usize = 0;
        while i < n
            invariant
                i <= n,
                n == self.spec_len(),
                n <= self.spec_slots().len(),
                self.slots@ == self.spec_slots(),
                v@ == results_of(self.spec_slots(), i as int),
            decreases n - i,
        {
            v.push(ExmapResult::from_value(self.slots[i]));
            i += 1;
            assert(v@ =~= results_of(self.spec_slots(), i as int));
        }
        v
    }

    /// The outcome in slot `index`. A slot at or past the number of submitted
    /// ranges is out of bounds.
    pub fn get(&self, index: u16) -> (r: Result<ExmapResult, InterfaceIndexError>)
        ensures
            r is Ok <==> index < self.spec_len(),
            r matches Ok(outcome) ==> outcome == self.outcomes()[index as int],
            r matches Err(e) ==> e == InterfaceIndexError::OutOfBounds,
    {
        proof {
            use_type_invariant(self);
        }
        if index >= self.len {
            return Err(InterfaceIndexError::OutOfBounds);
        }
        Ok(ExmapResult::from_value(self.slots[index as usize]))
    }

    /// Turns the interface into an empty request buffer. This is the only
    /// way back to request mode.
    pub fn into_iov(self) -> (w: InterfaceWrapper<InterfaceIov>)
        ensures
            w.spec_index() == self.spec_index(),
            w.spec_addr() == self.spec_addr(),
            w.spec_fd() == self.spec_fd(),
            w.spec_slots() == self.spec_slots(),
            w.spec_len() == 0,
            w.descriptors() == Seq::<ExmapIov>::empty(),
    {
        proof {
            use_type_invariant(&self);
        }
        let InterfaceWrapper { index, data, slots, exmap_fd, .. } = self;
        InterfaceWrapper { index, data, slots, len: 0, exmap_fd, state: PhantomData }
    }
}

} // verus!
