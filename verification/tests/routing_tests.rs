use bytes::Bytes;
use scylla::routing::{hash3_x64_128, murmur3_token, Token};

#[test]
fn murmur3_known_tokens() {
    assert_eq!(hash3_x64_128(b"test"), -6017608668500074083);
    assert_eq!(hash3_x64_128(b"xd"), 4507812186440344727);
    assert_eq!(hash3_x64_128(b"primary_key"), -1632642444691073360);
    assert_eq!(hash3_x64_128("kremówki".as_bytes()), 4354931215268080151);
}

#[test]
fn murmur3_of_nothing_is_zero() {
    assert_eq!(hash3_x64_128(&[]), 0);
}

#[test]
fn murmur3_of_long_keys() {
    let forty: Vec<u8> = (0u8..40).collect();
    assert_eq!(hash3_x64_128(&forty), -4350383952250503068);
    assert_eq!(hash3_x64_128(&[200u8; 33]), 4270767655337994019);
}

#[test]
fn murmur3_token_hashes_the_contents() {
    let token = murmur3_token(Bytes::from_static(&[0, 0, 0, 3]));
    assert_eq!(
        token,
        Token {
            value: 9010454139840013625
        }
    );
    assert_eq!(
        murmur3_token(Bytes::from(vec![0u8, 0, 0, 3])),
        murmur3_token(Bytes::copy_from_slice(&[0, 0, 0, 3]))
    );
    assert_eq!(murmur3_token(Bytes::from_static(b"test")).value, -6017608668500074083);
}
