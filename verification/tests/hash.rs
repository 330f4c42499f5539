use org::hash::{bytes_to_upper_hex, digest_to_upper_hex, sha256_digest};

#[test]
fn bytes_to_upper_hex_return_correct_values() {
    let data = vec![0x0f, 0x00, 0x05, 0xff];

    let result = bytes_to_upper_hex(&data);

    //adds leading 0
    assert_eq!("0F0005FF", result);
}

#[test]
fn bytes_to_upper_hex_of_nothing_is_empty() {
    assert_eq!("", bytes_to_upper_hex(&[]));
}

#[test]
fn bytes_to_upper_hex_uses_upper_case_letters() {
    assert_eq!("ABCDEF10", bytes_to_upper_hex(&[0xab, 0xcd, 0xef, 0x10]));
}

#[test]
fn bytes_to_upper_hex_of_concatenation_concatenates() {
    let a = [0x12u8, 0x9a];
    let b = [0x00u8, 0x7f, 0xe0];
    let joined = [0x12u8, 0x9a, 0x00, 0x7f, 0xe0];
    assert_eq!(
        bytes_to_upper_hex(&joined),
        format!("{}{}", bytes_to_upper_hex(&a), bytes_to_upper_hex(&b))
    );
}

#[test]
fn sha256_digest_of_abc() {
    let digest = sha256_digest(b"abc");
    assert_eq!(digest.as_bytes().len(), 32);
    assert_eq!(
        digest_to_upper_hex(digest),
        "BA7816BF8F01CFEA414140DE5DAE2223B00361A396177A9CB410FF61F20015AD"
    );
}

#[test]
fn sha256_digest_of_empty_input() {
    assert_eq!(
        digest_to_upper_hex(sha256_digest(b"")),
        "E3B0C44298FC1C149AFBF4C8996FB92427AE41E4649B934CA495991B7852B855"
    );
}
