use libvirtdma::vm::mlayout::{read_row, MemoryLayout, Row};

#[test]
fn test_from_x64_dbg_table() {
    let s = r#"
       00000000003E0000 000000000000F000                                                 PRV ERW-- ERW--
       0000000000400000 0000000000001000 xinput1_3.dll                                   IMG -R--- ERWC-
       0000000000401000 0000000000015000  ".text"             Executable code            IMG ER--- ERWC-
       0000000000416000 0000000000004000  ".data"             Initialized data           IMG -RW-- ERWC-
       000000000041A000 0000000000002000  ".pdata"            Exception information      IMG -R--- ERWC-
       000000000041C000 0000000000001000  ".rsrc"             Resources                  IMG -R--- ERWC-
       000000000041D000 0000000000001000  ".reloc"            Base relocations           IMG -R--- ERWC-
       000000007FFE0000 0000000000001000 KUSER_SHARED_DATA                               PRV -R--- -R---
       000000007FFE8000 0000000000001000                                                 PRV -R--- -R---
       0000000180000000 0000000000001000 sqlite3.dll                                     IMG -R--- ERWC-
       0000000180001000 000000000014E000  ".text"             Executable code            IMG ER--- ERWC-
       000000018014F000 0000000000032000  ".rdata"            Read-only initialized data IMG -R--- ERWC-
       0000000180181000 0000000000006000  ".data"             Initialized data           IMG -RW-- ERWC-
       0000000180187000 0000000000010000  ".pdata"            Exception information      IMG -R--- ERWC-
       0000000180197000 0000000000002000  ".idata"            Import tables              IMG -RW-- ERWC-
       0000000180199000 0000000000001000  "text"                                         IMG E---- ERWC-
       000000018019A000 0000000000003000  "data"                                         IMG -R--- ERWC-
       000000018019D000 0000000000002000  ".rsrc"             Resources                  IMG -R--- ERWC-
       000000018019F000 0000000000002000  ".reloc"            Base relocations           IMG -R--- ERWC-
       00000072D4330000 000000000000B000 Reserved                                        PRV       -RW--
       00000072D433B000 0000000000005000 Thread 2490 Stack                               PRV -RW-G -RW--
       00000072D4340000 000000000000B000 Reserved                                        PRV       -RW--
       00000072D434B000 0000000000005000 Thread 694 Stack                                PRV -RW-G -RW--
    "#;
    let layout = MemoryLayout::from_x64dbg_table(s);
    assert!(layout.is_ok());
    let l = layout.unwrap();
    // The output is actually far from perfect but good enough -- since we are mostly interested in offsets
    for (begin, record) in l.sections.iter() {
        println!("0x{:x} {:?}", begin, record);
    }
}

#[test]
fn table_rows_become_ranges_in_their_order() {
    let s = "0000000000400000 0000000000001000 xinput1_3.dll  IMG -R--- ERWC-\n\
             0000000000401000 0000000000015000  \".text\"  Executable code  IMG ER--- ERWC-\r\n\
             \n   \t \n\
             00000000003E0000 000000000000F000   PRV ERW-- ERW--\n\
             000000007FFE0000 0000000000001000 KUSER_SHARED_DATA PRV -R--- -R---";
    let l = MemoryLayout::from_x64dbg_table(s).unwrap();
    let keys: Vec<u64> = l.sections.keys().copied().collect();
    assert_eq!(keys, vec![0x400000, 0x401000, 0x3e0000, 0x7ffe0000]);
    let dll = &l.sections[&0x400000u64];
    assert_eq!(dll.range, 0x400000..0x401000);
    assert_eq!(dll.name, "xinput1_3.dll");
    assert_eq!(dll.parent, None);
    assert_eq!(dll.metadata, "IMG -R--- ERWC-");
    let text = &l.sections[&0x401000u64];
    assert_eq!(text.range, 0x401000..0x416000);
    assert_eq!(text.name, "\".text\"");
    assert_eq!(text.parent, Some("xinput1_3.dll".to_string()));
    assert_eq!(text.metadata, "IMG ER--- ERWC-");
    let private = &l.sections[&0x3e0000u64];
    assert_eq!(private.range, 0x3e0000..0x3ef000);
    assert_eq!(private.name, "");
    assert_eq!(private.parent, None);
    assert_eq!(private.metadata, "PRV ERW-- ERW--");
    let shared = &l.sections[&0x7ffe0000u64];
    assert_eq!(shared.name, "KUSER_SHARED_DATA");
}

#[test]
fn table_row_for_a_known_start_takes_the_place_of_the_old_one() {
    let s = "10 1 first a b c\n20 1 second a b c\n10 2 third x y z\n";
    let l = MemoryLayout::from_x64dbg_table(s).unwrap();
    let listed: Vec<(u64, &str, u64)> = l.sections.iter().map(|(k, r)| (*k, r.name.as_str(), r.range.end)).collect();
    assert_eq!(listed, vec![(0x10, "third", 0x12), (0x20, "second", 0x21)]);
    assert_eq!(l.sections[&0x10u64].metadata, "x y z");
}

#[test]
fn table_subsections_belong_to_the_section_named_last() {
    let s = "10 1 \"a\" x y z\n20 1 b x y z\n30 1 \"c\" x y z\n40 1 x y z\n50 1 \"d\" x y z\n";
    let l = MemoryLayout::from_x64dbg_table(s).unwrap();
    let parents: Vec<Option<String>> = l.sections.values().map(|r| r.parent.clone()).collect();
    assert_eq!(
        parents,
        vec![Some(String::new()), None, Some("b".to_string()), None, Some(String::new())]
    );
}

#[test]
fn table_of_nothing_is_an_empty_layout() {
    assert!(MemoryLayout::from_x64dbg_table("").unwrap().sections.is_empty());
    assert!(MemoryLayout::from_x64dbg_table("\n  \n\t\n").unwrap().sections.is_empty());
}

#[test]
fn table_with_a_short_line_is_refused() {
    assert_eq!(
        MemoryLayout::from_x64dbg_table("10 1 a b").err(),
        Some("came across a line with less than 5 parts")
    );
    assert_eq!(
        MemoryLayout::from_x64dbg_table("10 1 a b c\nshort\n").err(),
        Some("came across a line with less than 5 parts")
    );
}

#[test]
fn table_with_a_number_that_cannot_be_read_is_refused() {
    assert_eq!(
        MemoryLayout::from_x64dbg_table("1g 1 a b c").err(),
        Some("cannot parse the start")
    );
    assert_eq!(
        MemoryLayout::from_x64dbg_table("10 zz a b c").err(),
        Some("cannot parse the start")
    );
    assert_eq!(
        MemoryLayout::from_x64dbg_table("12345678901234567 1 a b c").err(),
        Some("cannot parse the start")
    );
}

#[test]
fn table_range_wraps_at_the_end_of_the_address_space() {
    let l = MemoryLayout::from_x64dbg_table("ffffffffffffff00 0200 a b c").unwrap();
    assert_eq!(l.sections[&0xffff_ffff_ffff_ff00u64].range, 0xffff_ffff_ffff_ff00..0x100);
}

fn fields(words: &[&str]) -> Vec<String> {
    words.iter().map(|w| w.to_string()).collect()
}

#[test]
fn row_of_a_section_names_it() {
    match read_row(&fields(&["400000", "1000", "xinput1_3.dll", "IMG", "-R---", "ERWC-"]), false, "old") {
        Row::Range { range, section } => {
            assert_eq!(range.range, 0x400000..0x401000);
            assert_eq!(range.name, "xinput1_3.dll");
            assert_eq!(range.parent, None);
            assert_eq!(range.metadata, "IMG -R--- ERWC-");
            assert_eq!(section, "xinput1_3.dll");
        }
        other => panic!("no range: {:?}", other),
    }
}

#[test]
fn row_of_a_part_of_a_section_keeps_the_section() {
    let parts = fields(&["401000", "15000", "\".text\"", "Executable", "code", "IMG", "ER---", "ERWC-"]);
    match read_row(&parts, true, "xinput1_3.dll") {
        Row::Range { range, section } => {
            assert_eq!(range.range, 0x401000..0x416000);
            assert_eq!(range.name, "\".text\"");
            assert_eq!(range.parent, Some("xinput1_3.dll".to_string()));
            assert_eq!(range.metadata, "IMG ER--- ERWC-");
            assert_eq!(section, "xinput1_3.dll");
        }
        other => panic!("no range: {:?}", other),
    }
}

#[test]
fn row_of_five_fields_has_no_name() {
    match read_row(&fields(&["3E0000", "F000", "PRV", "ERW--", "ERW--"]), false, "old") {
        Row::Range { range, section } => {
            assert_eq!(range.range, 0x3e0000..0x3ef000);
            assert_eq!(range.name, "");
            assert_eq!(range.parent, None);
            assert_eq!(range.metadata, "PRV ERW-- ERW--");
            assert_eq!(section, "");
        }
        other => panic!("no range: {:?}", other),
    }
}

#[test]
fn row_without_fields_is_blank_and_a_short_one_a_fault() {
    assert!(matches!(read_row(&fields(&[]), false, ""), Row::Blank));
    assert!(matches!(read_row(&fields(&[]), true, "s"), Row::Blank));
    assert!(matches!(
        read_row(&fields(&["10", "1", "a", "b"]), false, ""),
        Row::Fault("came across a line with less than 5 parts")
    ));
    assert!(matches!(read_row(&fields(&["1g", "1", "a", "b", "c"]), false, ""), Row::Fault("cannot parse the start")));
    assert!(matches!(read_row(&fields(&["10", "zz", "a", "b", "c"]), false, ""), Row::Fault("cannot parse the start")));
}

#[test]
fn row_that_ends_past_the_address_space_wraps() {
    match read_row(&fields(&["ffffffffffffff00", "0200", "a", "b", "c"]), false, "") {
        Row::Range { range, .. } => assert_eq!(range.range, 0xffff_ffff_ffff_ff00..0x100),
        other => panic!("no range: {:?}", other),
    }
}

#[test]
fn lines_end_at_a_line_feed_with_or_without_a_carriage_return() {
    let l = MemoryLayout::from_x64dbg_table("10 1 a b c\r\n20 1 d e f\n\n30 1 g h i\r").unwrap();
    let keys: Vec<u64> = l.sections.keys().copied().collect();
    assert_eq!(keys, vec![0x10, 0x20, 0x30]);
    assert_eq!(l.sections[&0x10u64].metadata, "a b c");
    assert_eq!(l.sections[&0x20u64].metadata, "d e f");
    assert_eq!(l.sections[&0x30u64].metadata, "g h i");
}
