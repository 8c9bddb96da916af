use veto_frontier::crypto::hashing::{sha3_512_hash, sha3_512_hash_str};

#[test]
fn sha3_512_of_empty_input() {
    assert_eq!(
        sha3_512_hash(b""),
        "a69f73cca23a9ac5c8b567dc185a756e97c982164fe25859e0d1dcc1475c80a6\
         15b2123af1f5f94c11e3e9402c3ac558f500199d95b6d3e301758586281dcd26"
    );
}

#[test]
fn sha3_512_of_abc() {
    let h = sha3_512_hash_str("abc");
    assert_eq!(h.len(), 128);
    assert_eq!(
        h,
        "b751850b1a57168a5693cd924b6b096e08f621827444f70d884f5d0240d2712e\
         10e116e9192af3c91a7ec57647e3934057340b4cf408d5a56592f8274eec53f0"
    );
}
