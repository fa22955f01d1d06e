use libvirtdma::win::Offsets;

#[test]
fn get_offsets_knows_every_supported_version() {
    for (version, build) in [
        (502u16, 3790u32),
        (601, 7600),
        (601, 7601),
        (602, 9200),
        (603, 9600),
        (1000, 10240),
        (1000, 18362),
        (1000, 19041),
    ] {
        let row = Offsets::get_offsets(version, build);
        assert!(row.is_some(), "no row for {} {}", version, build);
        let row = row.unwrap();
        assert!(row.apl > 0 && row.session > 0 && row.stack_count > 0);
        assert!(row.image_file_name > 0 && row.dirbase > 0 && row.peb > 0 && row.peb32 > 0);
        assert!(row.thread_list_head > 0 && row.thread_list_entry > 0 && row.teb > 0);
    }
}

#[test]
fn get_offsets_knows_no_other_version() {
    for version in [0u16, 1, 500, 501, 503, 600, 604, 999, 1001, 1100, u16::MAX] {
        assert!(Offsets::get_offsets(version, 19041).is_none());
        assert!(Offsets::get_offsets(version, 0).is_none());
    }
}

#[test]
fn get_offsets_windows_xp() {
    let o = Offsets::get_offsets(502, 0).unwrap();
    assert_eq!(
        (o.apl, o.session, o.stack_count, o.image_file_name, o.dirbase),
        (0xe0, 0x260, 0xa0, 0x268, 0x28)
    );
    assert_eq!(
        (o.peb, o.peb32, o.thread_list_head, o.thread_list_entry, o.teb),
        (0x2c0, 0x30, 0x290, 0x3d0, 0xb0)
    );
}

#[test]
fn get_offsets_windows_7_and_its_service_pack() {
    let o = Offsets::get_offsets(601, 7600).unwrap();
    assert_eq!(
        (o.apl, o.session, o.stack_count, o.image_file_name, o.dirbase),
        (0x188, 0x2d8, 0xdc, 0x2e0, 0x28)
    );
    assert_eq!(
        (o.peb, o.peb32, o.thread_list_head, o.thread_list_entry, o.teb),
        (0x338, 0x30, 0x300, 0x420, 0xb8)
    );
    let sp1 = Offsets::get_offsets(601, 7601).unwrap();
    assert_eq!(sp1.image_file_name, 0x2d8);
    assert_eq!(sp1.thread_list_entry, 0x428);
    assert_eq!((sp1.apl, sp1.peb, sp1.teb), (0x188, 0x338, 0xb8));
}

#[test]
fn get_offsets_windows_8_and_8_1() {
    let o = Offsets::get_offsets(602, 0).unwrap();
    assert_eq!(
        (o.apl, o.session, o.stack_count, o.image_file_name, o.dirbase),
        (0x2e8, 0x430, 0x234, 0x438, 0x28)
    );
    assert_eq!(
        (o.peb, o.peb32, o.thread_list_head, o.thread_list_entry, o.teb),
        (0x338, 0x30, 0x470, 0x400, 0xf0)
    );
    let o = Offsets::get_offsets(603, 0).unwrap();
    assert_eq!(o.thread_list_entry, 0x688);
    assert_eq!((o.apl, o.peb, o.teb), (0x2e8, 0x338, 0xf0));
}

#[test]
fn get_offsets_windows_10_before_and_from_1903() {
    let o = Offsets::get_offsets(1000, 18361).unwrap();
    assert_eq!(
        (o.apl, o.session, o.stack_count, o.image_file_name, o.dirbase),
        (0x2e8, 0x448, 0x23c, 0x450, 0x28)
    );
    assert_eq!(
        (o.peb, o.peb32, o.thread_list_head, o.thread_list_entry, o.teb),
        (0x3f8, 0x30, 0x488, 0x6a8, 0xf0)
    );
    let o = Offsets::get_offsets(1000, 18362).unwrap();
    assert_eq!(o.apl, 0x2f0);
    assert_eq!(o.thread_list_entry, 0x6b8);
    assert_eq!((o.session, o.peb, o.teb), (0x448, 0x3f8, 0xf0));
}
