use camctl::crane;
use camctl::crc::{crane_checksum, ronin_checksum};
use camctl::ronin;

#[test]
fn test_checksum() {
    let values = vec![
        "243c080018122801011000083252",
        "243c080018122901021000084e8c",
        "243c080018122a010310d40e3f8d",
        "243c080018122b0101100008d29c",
        "243c080018122c01021000084fcf",
        "243c080018122d010310d40e7e45",
        "243c080018122e0101100008d3df",
        "243c080018122f0102100008af01",
        "243c0800181230010310d40eb911",
        "243c08001812310101102c01f6d2",
        "243c080018123201021000086855",
        "243c0800181233010310d40e59df",
        "243c080018123401011000085543",
        "243c08001812350102100008299d",
        "243c08001812360103102c01dff7",
        "243c08001812370101100008b58d",
        "243c080018123801021000086ad3",
        "243c08001812390103102c01dc32",
        "243c080018123a0101100008f6c3",
        "243c080018123b01021000088a1d",
        "243c080018123c0103102c01dd71",
        "243c080018123d0101100008b70b",
        "243c080018123e01021000088b5e",
        "243c080018123f0103102c013dbf",
        "243c080018124001011000086800",
        "243c0800181241010210000814de",
        "243c08001812420103102c01e2b4",
        "243c0800181243010110000888ce",
        "243c08001812440102100008159d",
    ];
    for v in values {
        let bytes = &hex::decode(v).unwrap()[0..12];
        let with_checksum = crane::add_checksum(bytes);
        assert_eq!(hex::encode(with_checksum), v,);
    }
}

#[test]
fn ronin_checksum_matches_documented_vector() {
    let payload = hex::decode("5511049202df200200042f0b0001c5").unwrap();
    assert_eq!(ronin_checksum(&payload), 0xa7f5);
    let framed = ronin::add_checksum(&payload);
    assert_eq!(hex::encode(framed), "5511049202df200200042f0b0001c5f5a7");
}

#[test]
fn ronin_checksum_check_value() {
    assert_eq!(ronin_checksum(b"123456789"), 0x7109);
}

#[test]
fn crane_checksum_of_empty_input_is_xorout() {
    assert_eq!(crane_checksum(&[]), 0x25b1);
}
