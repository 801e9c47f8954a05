use exmap::device::OwnedExmapFd;
use exmap::interface::{
    InterfaceIndexError, InterfaceIov, InterfacePushError, InterfaceWrapper, MAX_COUNT,
    MMAP_INTERFACE,
};
use exmap::sys::{ExmapActionParams, ExmapIov, ExmapResult, MunmapRequest};
use rustix::io::Errno;

const ADDR: usize = 0x7f00_0000_1000;

fn interface(index: u16) -> InterfaceWrapper<InterfaceIov> {
    let mut fd = OwnedExmapFd::<4096>::from_raw(3);
    fd.mmap_interface(index, Ok(ADDR)).unwrap()
}

/// The slot words after the driver has answered the first `n` slots, each
/// with code 0 and as many pages as the request named.
fn answered(slots: &[u64], n: usize) -> Vec<u64> {
    let mut image = slots.to_vec();
    for slot in image.iter_mut().take(n) {
        let pages = ExmapIov::from_value(*slot).len() as u16;
        *slot = ExmapResult { res: 0, pages }.value();
    }
    image
}

#[test]
fn capacity_is_the_number_of_slots_of_one_page() {
    assert_eq!(MAX_COUNT, 512);
    assert_eq!(MMAP_INTERFACE, 4096);
    assert_eq!(MAX_COUNT * 8, MMAP_INTERFACE);
}

#[test]
fn new_interface_is_empty() {
    let w = interface(0);
    assert_eq!(w.len(), 0);
    assert_eq!(w.index(), 0);
    assert_eq!(w.addr(), ADDR);
    assert_eq!(w.fd().as_raw_fd(), 3);
    assert!(w.iter().is_empty());
    assert_eq!(w.slots().len(), MAX_COUNT);
}

#[test]
fn push_appends_in_order() {
    let mut w = interface(0);
    assert_eq!(w.push(0, 1), Ok(()));
    assert_eq!(w.push(10, 2), Ok(()));
    assert_eq!(w.push(2090, 10), Ok(()));
    assert_eq!(w.len(), 3);
    let got: Vec<(u64, u64)> = w.iter().iter().map(|v| (v.page(), v.len())).collect();
    assert_eq!(got, vec![(0, 1), (10, 2), (2090, 10)]);
    assert_eq!(w.slots()[1], (2u64 << 52) | 10);
    assert_eq!(w.slots()[3], 0);
}

#[test]
fn push_fails_with_capacity_once_the_interface_is_full() {
    let mut w = interface(0);
    for i in 0..MAX_COUNT as u64 {
        assert_eq!(w.push(i, 1), Ok(()));
    }
    assert_eq!(w.len() as usize, MAX_COUNT);
    let before = w.slots().clone();
    assert_eq!(w.push(9999, 1), Err(InterfacePushError::Capacity));
    assert_eq!(w.len() as usize, MAX_COUNT);
    assert_eq!(w.slots(), &before);
    assert_eq!(w.push(0, 0), Err(InterfacePushError::Capacity));
    let all = w.iter();
    assert_eq!(all.len(), MAX_COUNT);
    assert_eq!(all[511].page(), 511);
}

#[test]
fn indexed_access_past_the_length_is_out_of_bounds() {
    let mut w = interface(0);
    assert_eq!(w.get(0), Err(InterfaceIndexError::OutOfBounds));
    w.push(4, 2).unwrap();
    assert_eq!(w.get(0), Ok(ExmapIov::new(4, 2)));
    assert_eq!(w.get(1), Err(InterfaceIndexError::OutOfBounds));
    assert_eq!(w.get(u16::MAX), Err(InterfaceIndexError::OutOfBounds));
    assert_eq!(w.set(1, ExmapIov::new(1, 1)), Err(InterfaceIndexError::OutOfBounds));
    assert_eq!(w.len(), 1);
    assert_eq!(w.get(0), Ok(ExmapIov::new(4, 2)));
}

#[test]
fn set_replaces_one_descriptor() {
    let mut w = interface(0);
    w.push(1, 1).unwrap();
    w.push(2, 2).unwrap();
    w.push(3, 3).unwrap();
    assert_eq!(w.set(1, ExmapIov::new(20, 5)), Ok(()));
    let got: Vec<(u64, u64)> = w.iter().iter().map(|v| (v.page(), v.len())).collect();
    assert_eq!(got, vec![(1, 1), (20, 5), (3, 3)]);
}

#[test]
fn index_error_message() {
    assert_eq!(InterfaceIndexError::OutOfBounds.message(), "index is out of bounds");
}

#[test]
fn allocate_names_interface_length_and_opcode() {
    let mut w = interface(7);
    w.push(0, 1).unwrap();
    w.push(10, 2).unwrap();
    let (_pending, params) = w.allocate();
    assert_eq!(params, ExmapActionParams { interface: 7, iov_len: 2, opcode: 1, flags: 0 });
}

#[test]
fn free_names_interface_length_and_opcode() {
    let mut w = interface(2);
    w.push(5, 1).unwrap();
    let (pending, params) = w.free();
    assert_eq!(params, ExmapActionParams { interface: 2, iov_len: 1, opcode: 2, flags: 0 });
    assert_eq!(pending.len(), 1);
    assert_eq!(pending.slots()[0], (1u64 << 52) | 5);
}

#[test]
fn results_correspond_to_requests_in_submission_order() {
    let mut w = interface(0);
    w.push(0, 1).unwrap();
    w.push(10, 2).unwrap();
    w.push(2090, 10).unwrap();
    let (pending, params) = w.allocate();
    assert_eq!(params.iov_len, 3);
    let image = answered(pending.slots(), 3);
    let (readable, code) = match pending.complete(0, image) {
        Ok(done) => done,
        Err((_, e)) => panic!("unexpected failure {:?}", e),
    };
    assert_eq!(code, 0);
    let outcomes = readable.iter();
    assert_eq!(outcomes.len(), 3);
    assert_eq!(
        outcomes,
        vec![
            ExmapResult { res: 0, pages: 1 },
            ExmapResult { res: 0, pages: 2 },
            ExmapResult { res: 0, pages: 10 },
        ]
    );
}

#[test]
fn outcome_access_past_the_submitted_length_is_out_of_bounds() {
    let mut w = interface(0);
    w.push(7, 3).unwrap();
    w.push(9, 1).unwrap();
    let (pending, _) = w.allocate();
    let mut image = answered(pending.slots(), 2);
    image[2] = ExmapResult { res: 5, pages: 5 }.value();
    let readable = match pending.complete(0, image) {
        Ok((readable, _)) => readable,
        Err((_, e)) => panic!("unexpected failure {:?}", e),
    };
    assert_eq!(readable.len(), 2);
    assert_eq!(readable.get(0), Ok(ExmapResult { res: 0, pages: 3 }));
    assert_eq!(readable.get(1), Ok(ExmapResult { res: 0, pages: 1 }));
    assert_eq!(readable.get(2), Err(InterfaceIndexError::OutOfBounds));
    assert_eq!(readable.iter().len(), 2);
}

#[test]
fn overall_result_code_is_the_low_half_of_the_raw_result() {
    let w = interface(0);
    let (pending, _) = w.allocate();
    let image = pending.slots().clone();
    match pending.complete(0x0001_0005, image) {
        Ok((readable, code)) => {
            assert_eq!(code, 5);
            assert!(readable.iter().is_empty());
        }
        Err((_, e)) => panic!("unexpected failure {:?}", e),
    }
}

#[test]
fn driver_failure_gives_the_error_and_a_way_back_to_building() {
    let mut w = interface(4);
    w.push(1, 1).unwrap();
    w.push(2, 1).unwrap();
    let (pending, _) = w.free();
    let image = pending.slots().clone();
    let (readable, e) = match pending.complete(-14, image) {
        Ok(_) => panic!("a negative result is a failure"),
        Err(failed) => failed,
    };
    assert_eq!(e, Errno::FAULT);
    assert_eq!(readable.index(), 4);
    let mut again = readable.into_iov();
    assert_eq!(again.len(), 0);
    assert!(again.iter().is_empty());
    assert_eq!(again.push(8, 1), Ok(()));
    assert_eq!(again.get(0), Ok(ExmapIov::new(8, 1)));
}

#[test]
fn into_iov_empties_the_interface_and_keeps_its_identity() {
    let mut w = interface(9);
    w.push(3, 3).unwrap();
    let (pending, _) = w.allocate();
    let image = answered(pending.slots(), 1);
    let readable = match pending.complete(0, image) {
        Ok((readable, _)) => readable,
        Err((_, e)) => panic!("unexpected failure {:?}", e),
    };
    let w = readable.into_iov();
    assert_eq!(w.len(), 0);
    assert_eq!(w.index(), 9);
    assert_eq!(w.addr(), ADDR);
    assert_eq!(w.get(0), Err(InterfaceIndexError::OutOfBounds));
}

#[test]
fn unmap_names_the_interface_mapping() {
    let w = interface(1);
    assert_eq!(w.unmap(), MunmapRequest { addr: ADDR, length: 4096 });
}

#[test]
fn end_to_end_alloc_then_free() {
    let threads: u16 = 4;
    let mut fd = OwnedExmapFd::<4096>::from_raw(3);
    assert!(fd.interface_fits_page());
    let (creating, map) =
        fd.create(threads as usize * 4 * 1024 * 1024, threads, threads as usize * 512, None);
    assert_eq!(map.length, 16 * 1024 * 1024);
    let (configuring, setup) = creating.mapped(Ok(0x7f00_4000_0000)).unwrap();
    assert_eq!(setup.max_interfaces, 4);
    assert_eq!(setup.buffer_size, 2048);
    let region = match configuring.configured(0) {
        Ok(region) => region,
        Err((_, e)) => panic!("unexpected failure {:?}", e),
    };

    let request = fd.interface_request(0);
    assert_eq!(request.offset, 0xe000_0000_0000_0000);
    let mut interface = fd.mmap_interface(0, Ok(ADDR)).unwrap();
    for i in 0..8 {
        interface.push(i, 1).unwrap();
    }
    interface.push(10, 2).unwrap();
    interface.push(2090, 10).unwrap();

    let (pending, params) = interface.allocate();
    assert_eq!(params, ExmapActionParams { interface: 0, iov_len: 10, opcode: 1, flags: 0 });
    let image = answered(pending.slots(), 10);
    let (interface, res) = match pending.complete(0, image) {
        Ok(done) => done,
        Err((_, e)) => panic!("unexpected failure {:?}", e),
    };
    assert_eq!(res, 0);
    assert_eq!(interface.iter().len(), 10);
    assert_eq!(interface.iter()[9], ExmapResult { res: 0, pages: 10 });

    let mut interface = interface.into_iov();
    for i in 0..5 {
        interface.push(i, 1).unwrap();
    }
    interface.push(1037, 1805).unwrap();
    let (pending, params) = interface.free();
    assert_eq!(params, ExmapActionParams { interface: 0, iov_len: 6, opcode: 2, flags: 0 });
    let image = answered(pending.slots(), 6);
    let (interface, res) = match pending.complete(0, image) {
        Ok(done) => done,
        Err((_, e)) => panic!("unexpected failure {:?}", e),
    };
    assert_eq!(res, 0);
    assert_eq!(interface.iter().len(), 6);
    assert_eq!(interface.iter()[5], ExmapResult { res: 0, pages: 1805 });

    assert_eq!(
        region.unmap(),
        MunmapRequest { addr: 0x7f00_4000_0000, length: 16 * 1024 * 1024 }
    );
    assert_eq!(interface.unmap(), MunmapRequest { addr: ADDR, length: 4096 });
}
