use libvirtdma::vm::binding_acquire::{create_process_data, parse_kvm_user_pid, MemoryMapping};
use libvirtdma::vm::ProcessData;

#[test]
fn pid_is_read_from_the_first_line_that_names_one() {
    assert_eq!(parse_kvm_user_pid(b"p4242\n"), Some(4242));
    assert_eq!(parse_kvm_user_pid(b"p4242\np600\n"), Some(4242));
    assert_eq!(parse_kvm_user_pid(b"f3\np981\nf4\n"), Some(981));
    assert_eq!(parse_kvm_user_pid(b"xp77\n"), Some(77));
    assert_eq!(parse_kvm_user_pid(b"pp120\n"), Some(120));
}

#[test]
fn pid_needs_digits_and_a_line_feed() {
    assert_eq!(parse_kvm_user_pid(b""), None);
    assert_eq!(parse_kvm_user_pid(b"p4242"), None);
    assert_eq!(parse_kvm_user_pid(b"p\n"), None);
    assert_eq!(parse_kvm_user_pid(b"p120x\n"), None);
    assert_eq!(parse_kvm_user_pid(b"p120x\np130\n"), Some(130));
    assert_eq!(parse_kvm_user_pid(b"4242\n"), None);
}

#[test]
fn pid_that_does_not_fit_is_no_pid() {
    assert_eq!(parse_kvm_user_pid(b"p18446744073709551615\n"), Some(u64::MAX));
    assert_eq!(parse_kvm_user_pid(b"p18446744073709551616\n"), None);
    assert_eq!(parse_kvm_user_pid(b"p18446744073709551616\np100\n"), None);
}

#[test]
fn guest_memory_is_the_largest_mapping() {
    let maps = vec![
        MemoryMapping { start: 0x1000, size: 0x2000 },
        MemoryMapping { start: 0x7f00_0000_0000, size: 0x1_0000_0000 },
        MemoryMapping { start: 0x5000, size: 0x3000 },
    ];
    assert_eq!(
        create_process_data(77, &maps),
        Some(ProcessData { maps_start: 0x7f00_0000_0000, maps_size: 0x1_0000_0000, pid: 77 })
    );
}

#[test]
fn of_two_largest_mappings_the_first_is_taken() {
    let maps = vec![
        MemoryMapping { start: 1, size: 10 },
        MemoryMapping { start: 2, size: 30 },
        MemoryMapping { start: 3, size: 30 },
        MemoryMapping { start: 4, size: 20 },
    ];
    assert_eq!(
        create_process_data(5, &maps),
        Some(ProcessData { maps_start: 2, maps_size: 30, pid: 5 })
    );
    assert_eq!(
        create_process_data(5, &vec![MemoryMapping { start: 9, size: 0 }]),
        Some(ProcessData { maps_start: 9, maps_size: 0, pid: 5 })
    );
}

#[test]
fn without_mappings_there_is_no_guest_memory() {
    assert_eq!(create_process_data(5, &Vec::new()), None);
}
