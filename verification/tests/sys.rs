use exmap::sys::{
    interface_offset, to_result, ExmapIov, ExmapResult, EXMAP_DEVICE, EXMAP_IOCTL_ACTION,
    EXMAP_IOCTL_SETUP,
    EXMAP_LEN_LIMIT, EXMAP_OFF_EXMAP, EXMAP_OFF_INTERFACE, EXMAP_OFF_INTERFACE_BASE,
    EXMAP_OP_ALLOC, EXMAP_OP_FREE, EXMAP_PAGE_LIMIT, EXMAP_USER_INTERFACE_PAGES,
};
use rustix::io::Errno;

#[test]
fn device_node_path() {
    assert_eq!(EXMAP_DEVICE, "/dev/exmap");
}

#[test]
fn interface_zero_maps_at_the_base_offset() {
    assert_eq!(EXMAP_OFF_INTERFACE(0), EXMAP_OFF_INTERFACE_BASE);
    assert_eq!(EXMAP_OFF_INTERFACE_BASE as u64, 0xe000_0000_0000_0000);
    assert_eq!(interface_offset(0), 0xe000_0000_0000_0000);
    assert_eq!(EXMAP_OFF_EXMAP, 0);
}

#[test]
fn interface_offsets_are_one_page_apart() {
    assert_eq!(EXMAP_OFF_INTERFACE(1), EXMAP_OFF_INTERFACE_BASE | 0x1000);
    assert_eq!(EXMAP_OFF_INTERFACE(5), EXMAP_OFF_INTERFACE_BASE + 5 * 4096);
    assert_eq!(interface_offset(1), 0xe000_0000_0000_1000);
    assert_eq!(interface_offset(3), 0xe000_0000_0000_3000);
    assert_eq!(interface_offset(u16::MAX), 0xe000_0000_0fff_f000);
    for n in [0u16, 1, 2, 17, 4095, 65535] {
        assert_eq!(interface_offset(n), EXMAP_OFF_INTERFACE(n as i64) as u64);
    }
}

#[test]
fn command_codes_follow_the_write_encoding() {
    let write = 1u64 << 30;
    let group = (b'k' as u64) << 8;
    assert_eq!(EXMAP_IOCTL_SETUP, write | (24 << 16) | group | 1);
    assert_eq!(EXMAP_IOCTL_ACTION, write | (16 << 16) | group | 2);
    assert_eq!(EXMAP_OP_ALLOC, 1);
    assert_eq!(EXMAP_OP_FREE, 2);
    assert_eq!(EXMAP_USER_INTERFACE_PAGES, 512);
}

#[test]
fn request_descriptor_packs_page_low_and_length_high() {
    let iov = ExmapIov::new(2090, 10);
    assert_eq!(iov.page(), 2090);
    assert_eq!(iov.len(), 10);
    assert_eq!(iov.value(), (10u64 << 52) | 2090);
    let iov = ExmapIov::new(1037, 1805);
    assert_eq!(iov.page(), 1037);
    assert_eq!(iov.len(), 1805);
    assert_eq!(ExmapIov::from_value(iov.value()), iov);
}

#[test]
fn request_descriptor_holds_the_largest_page_and_length() {
    let iov = ExmapIov::new(EXMAP_PAGE_LIMIT - 1, EXMAP_LEN_LIMIT - 1);
    assert_eq!(iov.page(), (1u64 << 52) - 1);
    assert_eq!(iov.len(), 4095);
    assert_eq!(iov.value(), u64::MAX);
}

#[test]
fn request_descriptor_keeps_the_low_bits_of_an_oversized_field() {
    let iov = ExmapIov::new(EXMAP_PAGE_LIMIT, EXMAP_LEN_LIMIT);
    assert_eq!(iov.page(), 0);
    assert_eq!(iov.len(), 0);
    let iov = ExmapIov::new((1u64 << 52) | 5, 4096 + 7);
    assert_eq!(iov.page(), 5);
    assert_eq!(iov.len(), 7);
}

#[test]
fn setting_one_field_keeps_the_other() {
    let mut iov = ExmapIov::new(100, 3);
    iov.set_page(200);
    assert_eq!((iov.page(), iov.len()), (200, 3));
    iov.set_len(9);
    assert_eq!((iov.page(), iov.len()), (200, 9));
    iov.set_len(0);
    iov.set_page(0);
    assert_eq!(iov.value(), 0);
}

#[test]
fn result_slot_reads_code_and_page_count() {
    let r = ExmapResult::from_value(0x0000_0002_0000_0001);
    assert_eq!(r, ExmapResult { res: 1, pages: 2 });
    let r = ExmapResult::from_value(0xdead_0a00_beef_ffff);
    assert_eq!(r, ExmapResult { res: 0xffff, pages: 0x0a00 });
    assert_eq!(ExmapResult::from_value(0), ExmapResult { res: 0, pages: 0 });
}

#[test]
fn result_slot_round_trips_with_zero_padding() {
    let r = ExmapResult { res: 0x1234, pages: 0x00ab };
    assert_eq!(r.value(), 0x0000_00ab_0000_1234);
    assert_eq!(ExmapResult::from_value(r.value()), r);
}

#[test]
fn non_negative_result_is_a_success() {
    assert_eq!(to_result(0), Ok(0));
    assert_eq!(to_result(7), Ok(7));
    assert_eq!(to_result(i32::MAX), Ok(i32::MAX));
}

#[test]
fn negative_result_is_the_negated_error_number() {
    assert_eq!(to_result(-22), Err(Errno::INVAL));
    assert_eq!(to_result(-1), Err(Errno::PERM));
    assert_eq!(to_result(-12), Err(Errno::NOMEM));
    assert_eq!(to_result(-16).unwrap_err().raw_os_error(), 16);
    assert_eq!(to_result(-4095).unwrap_err().raw_os_error(), 4095);
}
