use logging_toolkit::bench_payload::{filled_payload, payload_digest, PAYLOAD_BYTE, PAYLOAD_LEN};

fn hex(bytes: &[u8]) -> String {
    bytes.iter().map(|b| format!("{:02x}", b)).collect()
}

#[test]
fn payload_is_filled() {
    assert_eq!(filled_payload(3, 7), vec![7u8, 7, 7]);
    assert_eq!(filled_payload(0, 7), Vec::<u8>::new());
    let data = filled_payload(PAYLOAD_LEN, PAYLOAD_BYTE);
    assert_eq!(data.len(), 9728);
    assert!(data.iter().all(|b| *b == b'1'));
}

#[test]
fn digest_of_the_benchmark_payload() {
    assert_eq!(
        hex(&payload_digest(PAYLOAD_LEN, PAYLOAD_BYTE)),
        "abc16e43ac0f51b20a12d236d3d9c7c7b61b5994514a277143b1c14374e6616e"
    );
}

#[test]
fn digest_known_values() {
    assert_eq!(
        hex(&payload_digest(0, b'a')),
        "e3b0c44298fc1c149afbf4c8996fb92427ae41e4649b934ca495991b7852b855"
    );
    assert_eq!(
        hex(&payload_digest(3, b'a')),
        "9834876dcfb05cb167a5c24953eba58c4ac89b1adf57f28f2f9d09af107ee8f0"
    );
    assert_eq!(payload_digest(100, 0).len(), 32);
}
