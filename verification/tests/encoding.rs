use pasty::be64::{be_decode, be_encode};
use pasty::keys::{content_key, password_key, stat_count_key, type_key};

#[test]
fn key_suffixes() {
    assert_eq!(type_key("abc"), "abc_type");
    assert_eq!(content_key("abc"), "abc_content");
    assert_eq!(password_key("abc"), "abc_password");
    assert_eq!(stat_count_key("abc"), "abc_stat_count");
    assert_eq!(type_key(""), "_type");
}

#[test]
fn big_endian_exact_bytes() {
    assert_eq!(be_encode(0), vec![0, 0, 0, 0, 0, 0, 0, 0]);
    assert_eq!(be_encode(1), vec![0, 0, 0, 0, 0, 0, 0, 1]);
    assert_eq!(be_encode(256), vec![0, 0, 0, 0, 0, 0, 1, 0]);
    assert_eq!(
        be_encode(0x0102030405060708),
        vec![1, 2, 3, 4, 5, 6, 7, 8]
    );
    assert_eq!(be_encode(u64::MAX), vec![255; 8]);
}

#[test]
fn big_endian_round_trip() {
    for n in [0u64, 1, 2, 255, 256, 65535, 123456789, u64::MAX - 1, u64::MAX] {
        assert_eq!(be_decode(&be_encode(n)), Some(n));
    }
    assert_eq!(be_decode(&vec![]), None);
    assert_eq!(be_decode(&vec![1, 2, 3]), None);
    assert_eq!(be_decode(&vec![0; 9]), None);
}
