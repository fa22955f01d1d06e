use libvirtdma::vm::binding_search::{compile_signature, str_chunks};
use libvirtdma::vm::VMBinding;
use regex::bytes::Regex;

#[test]
pub fn test_pmemmem() {
    let re: Regex = Regex::new(
    r"(?-u:\x48\x89\x05....\x48\x83\xc4\x38\xc3\x48\xc7\x05........\x48\x83\xc4\x38\xc3\xcc\xcc\xcc\xcc\xcc\x48)"
    ).unwrap();
    let md1: Vec<u8> = vec![
        0x48, 0x89, 0x05, 0xAA, 0xAB, 0xAC, 0xAD, 0x48, 0x83, 0xc4, 0x38, 0xc3, 0x48, 0xc7, 0x05,
        0xAA, 0xAB, 0xAC, 0xAD, 0xAA, 0xAB, 0xAC, 0xAD, 0x48, 0x83, 0xc4, 0x38, 0xc3, 0xcc, 0xcc,
        0xcc, 0xcc, 0xcc, 0x48,
    ];
    let mut m = false;
    for matched in re.find_iter(&md1) {
        m = true;
        println!("MATCHED: {:?}", matched);
    }
    assert!(m);
}

#[test]
fn pmemmem_finds_the_same_signature() {
    let md1: Vec<u8> = vec![
        0x48, 0x89, 0x05, 0xAA, 0xAB, 0xAC, 0xAD, 0x48, 0x83, 0xc4, 0x38, 0xc3, 0x48, 0xc7, 0x05,
        0xAA, 0xAB, 0xAC, 0xAD, 0xAA, 0xAB, 0xAC, 0xAD, 0x48, 0x83, 0xc4, 0x38, 0xc3, 0xcc, 0xcc,
        0xcc, 0xcc, 0xcc, 0x48,
    ];
    let found = VMBinding::pmemmem(
        &md1,
        "488905????????4883c438c348c705????????????????4883c438c3cccccccccc48",
    );
    assert_eq!(found, Ok(vec![0]));
}

#[test]
fn pmemmem_short_signature_matches_once_at_zero() {
    let buf: Vec<u8> = vec![0x48, 0x89, 0x05, 0xAA, 0xAB, 0xAC, 0xAD, 0x48, 0x83, 0xC4, 0x38, 0xC3];
    assert_eq!(VMBinding::pmemmem(&buf, "488905????????4883c438c3"), Ok(vec![0]));
}

#[test]
fn pmemmem_finds_every_match() {
    let buf: Vec<u8> = vec![0xAB, 0x01, 0xCD, 0x00, 0xAB, 0x02, 0xCD, 0xAB, 0x0A, 0xCD];
    // A wildcard is a dot of the engine, which does not match a line feed.
    assert_eq!(VMBinding::pmemmem(&buf, "AB??CD"), Ok(vec![0, 4]));
    assert_eq!(VMBinding::pmemmem(&buf, "ab??cd"), Ok(vec![0, 4]));
    assert_eq!(VMBinding::pmemmem(&buf, "EE"), Ok(vec![]));
}

#[test]
fn signature_compiles_to_a_byte_pattern() {
    assert_eq!(compile_signature("AB??CD"), Ok("(?-u:\\xAB.\\xCD)".to_string()));
    assert_eq!(compile_signature(""), Ok("(?-u:)".to_string()));
}

#[test]
fn signature_with_half_a_wildcard_is_rejected() {
    assert_eq!(
        compile_signature("A?CD"),
        Err("needle_string has wildcards of uneven length".to_string())
    );
    assert_eq!(
        VMBinding::pmemmem(&[1, 2, 3], "?ACD"),
        Err("needle_string has wildcards of uneven length".to_string())
    );
}

#[test]
fn signature_of_odd_length_is_rejected() {
    assert_eq!(
        compile_signature("ABC"),
        Err("input needle_string without even length".to_string())
    );
    assert_eq!(
        VMBinding::pmemmem(&[1, 2, 3], "A"),
        Err("input needle_string without even length".to_string())
    );
}

#[test]
fn signature_faults_are_reported_in_order() {
    // The first pair at fault decides.
    assert_eq!(
        compile_signature("A?C"),
        Err("needle_string has wildcards of uneven length".to_string())
    );
    assert_eq!(
        compile_signature("é?"),
        Err("input needle_string without even length".to_string())
    );
}

#[test]
fn signature_that_the_engine_refuses_is_an_error() {
    assert!(compile_signature("zz").is_ok());
    assert!(VMBinding::pmemmem(&[1, 2, 3], "zz").is_err());
}

#[test]
fn memmem_finds_the_first_occurrence() {
    let hay = b"The quick brown fox jumped over the lazy dog.";
    assert_eq!(VMBinding::memmem(hay, b"dog"), Some(41));
    assert_eq!(VMBinding::memmem(hay, b"he"), Some(1));
    assert_eq!(VMBinding::memmem(hay, b"cat"), None);
    assert_eq!(VMBinding::memmem(hay, b""), Some(0));
    assert_eq!(VMBinding::memmem(b"ab", b"abc"), None);
}

#[test]
fn memmemn_finds_occurrences_that_do_not_overlap() {
    assert_eq!(VMBinding::memmemn(b"aaaa", b"aa", None), vec![0, 2]);
    assert_eq!(VMBinding::memmemn(b"abcabcabc", b"abc", None), vec![0, 3, 6]);
    assert_eq!(VMBinding::memmemn(b"abcabcabc", b"abc", Some(2)), vec![0, 3]);
    assert_eq!(VMBinding::memmemn(b"abcabcabc", b"abc", Some(1)), vec![0]);
    assert_eq!(VMBinding::memmemn(b"abcabcabc", b"abd", None), Vec::<usize>::new());
    assert_eq!(VMBinding::memmemn(b"xy", b"", Some(3)), vec![0, 0, 0]);
}

#[test]
fn str_chunks_cuts_into_pieces() {
    assert_eq!(str_chunks("AB??CD", 2), vec!["AB", "??", "CD"]);
    assert_eq!(str_chunks("ABCDE", 2), vec!["AB", "CD", "E"]);
    assert_eq!(str_chunks("", 3), Vec::<&str>::new());
    assert_eq!(str_chunks("abc", 5), vec!["abc"]);
}
