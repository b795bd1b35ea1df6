use pqc_algo::binary_analyzer::{
    analyze_binary_type, byte_counts, classify, recommend_format, BinaryKind,
};

#[test]
fn data_of_four_bytes_or_fewer_has_no_format() {
    assert_eq!(classify(&[]), None);
    assert_eq!(classify(&[0x7f, 0x45, 0x4c, 0x46]), None);
    assert_eq!(classify(b"abcd"), None);
}

#[test]
fn executables_are_told_by_their_first_bytes() {
    assert_eq!(classify(&[0x7f, 0x45, 0x4c, 0x46, 0x02]), Some(BinaryKind::Elf));
    assert_eq!(classify(&[0xfe, 0xed, 0xfa, 0xce, 0x00]), Some(BinaryKind::MachO));
    assert_eq!(classify(&[0xfe, 0xed, 0xfa, 0xcf, 0x00]), Some(BinaryKind::MachO));
    assert_eq!(classify(&[0x4d, 0x5a, 0x90, 0x00, 0x03]), Some(BinaryKind::Pe));
    assert_eq!(classify(&[0xfe, 0xed, 0xfa, 0xcd, 0x00]), Some(BinaryKind::Unknown));
    assert_eq!(classify(&[0x7f, 0x45, 0x4c, 0x47, 0x02]), Some(BinaryKind::Unknown));
}

#[test]
fn hexadecimal_text_is_told_from_other_data() {
    assert_eq!(classify(b"0123456789abcdefABCDEF"), Some(BinaryKind::HexText));
    assert_eq!(classify(b"00000"), Some(BinaryKind::HexText));
    assert_eq!(classify(b"0123g"), Some(BinaryKind::Unknown));
    assert_eq!(classify(b"0123 "), Some(BinaryKind::Unknown));
    assert_eq!(classify(b"1234\n"), Some(BinaryKind::Unknown));
    assert_eq!(classify(b"/0123"), Some(BinaryKind::Unknown));
    assert_eq!(classify(b"0123:"), Some(BinaryKind::Unknown));
    assert_eq!(classify(b"0123@"), Some(BinaryKind::Unknown));
    assert_eq!(classify(b"0123G"), Some(BinaryKind::Unknown));
    assert_eq!(classify(b"0123`"), Some(BinaryKind::Unknown));
    // The mark of an executable decides before the digits are looked at.
    assert_eq!(classify(b"MZ000"), Some(BinaryKind::Pe));
}

#[test]
fn every_byte_value_is_counted() {
    let counts = byte_counts(b"");
    assert_eq!(counts, vec![0usize; 256]);
    let counts = byte_counts(&[0, 255, 0, 7, 0, 255]);
    assert_eq!(counts.len(), 256);
    assert_eq!(counts[0], 3);
    assert_eq!(counts[7], 1);
    assert_eq!(counts[255], 2);
    assert_eq!(counts.iter().sum::<usize>(), 6);
    let all: Vec<u8> = (0..=255u8).chain(0..=255u8).collect();
    assert_eq!(byte_counts(&all), vec![2usize; 256]);
}

#[test]
fn lengths_of_keys_are_recognised() {
    assert_eq!(recommend_format(256), "custom key format or truncated key");
    assert_eq!(recommend_format(1568), "Kyber1024 public key");
    assert_eq!(recommend_format(3168), "Kyber1024 secret key");
    assert_eq!(recommend_format(1312), "Dilithium2 public key");
    assert_eq!(recommend_format(2544), "Dilithium2 secret key");
    assert_eq!(recommend_format(1952), "Dilithium3 public key");
    assert_eq!(recommend_format(4000), "Dilithium3 secret key");
    assert_eq!(recommend_format(0), "unknown key format");
    assert_eq!(recommend_format(1569), "unknown key format");
}

#[test]
fn the_report_holds_every_line() {
    let data: Vec<u8> = (0u8..20).collect();
    assert_eq!(
        analyze_binary_type(&data, "seed.bin", "4.32"),
        "Analysis of seed.bin\n- File size: 20 bytes\n- Hex size: 40 characters\n- Type: Binary data (unknown format)\n- Entropy: 4.32 (0=structured, 8=random)\n- First 16 bytes: 000102030405060708090a0b0c0d0e0f\n- Last 16 bytes: 0405060708090a0b0c0d0e0f10111213\n"
    );
    assert_eq!(
        analyze_binary_type(b"abc", "x", "1.58"),
        "Analysis of x\n- File size: 3 bytes\n- Hex size: 6 characters\n- Entropy: 1.58 (0=structured, 8=random)\n- First 16 bytes: 616263\n- Last 16 bytes: 616263\n"
    );
    assert_eq!(
        analyze_binary_type(&[], "empty", "0.00"),
        "Analysis of empty\n- File size: 0 bytes\n- Hex size: 0 characters\n- Entropy: 0.00 (0=structured, 8=random)\n- First 16 bytes: \n- Last 16 bytes: \n"
    );
}

#[test]
fn the_report_says_what_the_size_suggests() {
    let cases = [
        (256usize, "- Size suggests: Possible 256-byte key or hash\n"),
        (1568, "- Size suggests: Kyber1024 public key\n"),
        (3168, "- Size suggests: Kyber1024 secret key\n"),
        (1312, "- Size suggests: Dilithium2 public key\n"),
        (2544, "- Size suggests: Dilithium2 secret key\n"),
        (1952, "- Size suggests: Dilithium3 public key\n"),
        (4000, "- Size suggests: Dilithium3 secret key\n"),
        (4001, ""),
    ];
    for (len, suggestion) in cases {
        let zeros = "00".repeat(16);
        let expected = format!(
            "Analysis of key\n- File size: {} bytes\n- Hex size: {} characters\n- Type: Binary data (unknown format)\n- Entropy: 0.00 (0=structured, 8=random)\n{}- First 16 bytes: {}\n- Last 16 bytes: {}\n",
            len,
            len * 2,
            suggestion,
            zeros,
            zeros
        );
        assert_eq!(analyze_binary_type(&vec![0u8; len], "key", "0.00"), expected);
    }
    let report = analyze_binary_type(b"0123456789abcdef", "hex.txt", "4.00");
    assert!(report.contains("- Type: Hex-encoded data (likely cryptographic key)\n"));
    let report = analyze_binary_type(&[0x7f, 0x45, 0x4c, 0x46, 1, 1, 1], "elf", "1.00");
    assert!(report.contains("- Type: ELF executable (Linux)\n"));
}
