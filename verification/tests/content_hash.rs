use stem_sync::hash::hash_file;

#[test]
fn hash_of_nothing_read_is_zero() {
    assert_eq!(hash_file(&None), 0);
}

#[test]
fn hash_reference_vectors() {
    assert_eq!(hash_file(&Some(Vec::new())), 0xEF46_DB37_51D8_E999);
    assert_eq!(hash_file(&Some(b"a".to_vec())), 0xD24E_C4F1_A98C_6E5B);
    assert_eq!(hash_file(&Some(b"abc".to_vec())), 0x44BC_2CF5_AD77_0999);
}

#[test]
fn empty_file_differs_from_unreadable_file() {
    assert_ne!(hash_file(&Some(Vec::new())), hash_file(&None));
}

#[test]
fn same_contents_hash_the_same() {
    let a: Vec<u8> = (0..1000u32).map(|i| (i % 256) as u8).collect();
    let b = a.clone();
    assert_eq!(hash_file(&Some(a)), hash_file(&Some(b)));
}

#[test]
fn one_byte_changes_the_hash() {
    let a: Vec<u8> = (0..1000u32).map(|i| (i % 256) as u8).collect();
    let base = hash_file(&Some(a.clone()));
    for at in [0usize, 1, 31, 32, 33, 500, 999] {
        let mut b = a.clone();
        b[at] ^= 1;
        assert_ne!(hash_file(&Some(b)), base, "byte {}", at);
    }
    let mut longer = a.clone();
    longer.push(0);
    assert_ne!(hash_file(&Some(longer)), base);
}
