use yarn_buildpack::cache::fingerprint;
use yarn_buildpack::digest::decode_hex;
use yarn_buildpack::digest::encode_hex;

#[test]
fn fingerprint_is_the_sha256_digest() {
    let abc = fingerprint(b"abc");
    assert_eq!(
        encode_hex(&abc.digest),
        b"ba7816bf8f01cfea414140de5dae2223b00361a396177a9cb410ff61f20015ad".to_vec()
    );
    let empty = fingerprint(b"");
    assert_eq!(
        encode_hex(&empty.digest),
        b"e3b0c44298fc1c149afbf4c8996fb92427ae41e4649b934ca495991b7852b855".to_vec()
    );
    assert_eq!(abc.digest.len(), 32);
    assert_ne!(abc.digest, b"abc".to_vec());
}

#[test]
fn fingerprint_depends_on_content_only() {
    assert_eq!(fingerprint(b"lockfile v1"), fingerprint(b"lockfile v1"));
    assert_ne!(fingerprint(b"lockfile v1"), fingerprint(b"lockfile v2"));
    assert_ne!(fingerprint(b"lockfile v1"), fingerprint(b"lockfile v1 "));
}

#[test]
fn hex_is_written_in_lower_case() {
    assert_eq!(encode_hex(&[]), Vec::<u8>::new());
    assert_eq!(encode_hex(&[0x00, 0x0f, 0xa0, 0xff]), b"000fa0ff".to_vec());
    assert_eq!(encode_hex(&[0xde, 0xad, 0xbe, 0xef]), b"deadbeef".to_vec());
}

#[test]
fn hex_is_read_in_either_case() {
    assert_eq!(decode_hex(b""), Some(Vec::new()));
    assert_eq!(decode_hex(b"000fa0ff"), Some(vec![0x00, 0x0f, 0xa0, 0xff]));
    assert_eq!(decode_hex(b"DEADbeef"), Some(vec![0xde, 0xad, 0xbe, 0xef]));
    assert_eq!(decode_hex(b"09afAF"), Some(vec![0x09, 0xaf, 0xaf]));
}

#[test]
fn malformed_hex_is_refused() {
    assert_eq!(decode_hex(b"a"), None);
    assert_eq!(decode_hex(b"abc"), None);
    assert_eq!(decode_hex(b"0g"), None);
    assert_eq!(decode_hex(b"g0"), None);
    assert_eq!(decode_hex(b"0x"), None);
    assert_eq!(decode_hex(b" 00"), None);
    assert_eq!(decode_hex(b"00 "), None);
}

#[test]
fn hex_round_trip() {
    let all: Vec<u8> = (0..=255u8).collect();
    assert_eq!(decode_hex(&encode_hex(&all)), Some(all));
}
