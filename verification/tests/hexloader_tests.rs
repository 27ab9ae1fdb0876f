use picsim::{HexLoader, HexRecord, RecordType, HexParseErrorKind};

#[test]
fn test_parse_data_record() {
    let line = ":10000000FF3E00008F0E0000000000000000000016";
    let record = HexRecord::parse(line).unwrap();

    assert_eq!(record.byte_count, 0x10);
    assert_eq!(record.address, 0x0000);
    assert_eq!(record.record_type, RecordType::Data);
    assert_eq!(record.data.len(), 16);
    assert_eq!(record.data[0], 0xFF);
    assert_eq!(record.data[1], 0x3E);
}

#[test]
fn test_parse_eof_record() {
    let line = ":00000001FF";
    let record = HexRecord::parse(line).unwrap();

    assert_eq!(record.byte_count, 0);
    assert_eq!(record.record_type, RecordType::EndOfFile);
}

#[test]
fn test_checksum_verification() {
    // Valid checksum
    let line = ":10000000FF3E00008F0E0000000000000000000016";
    assert!(HexRecord::parse(line).is_ok());

    // Invalid checksum
    let line = ":10000000FF3E00008F0E00000000000000000000E3";
    assert!(HexRecord::parse(line).is_err());
}

#[test]
fn test_load_simple_program() {
    let hex = r#"
:020000040000FA
:02000000553079
:020002002000DC
:00000001FF
"#;

    let program = HexLoader::load_from_string(hex).unwrap();
    assert_eq!(program.program.len(), 2);
    assert_eq!(program.program[0], 0x3055); // MOVLW 0x55
    assert_eq!(program.program[1], 0x0020); // MOVWF 0x20
}

#[test]
fn test_hex_parse_scenario() {
    // Program [0x3055, 0x0020], no EEPROM data, no config word
    let hex = ":020000040000FA\n:02000000553079\n:020002002000DC\n:00000001FF\n";
    let program = HexLoader::load_from_string(hex).unwrap();
    assert_eq!(program.program, vec![0x3055, 0x0020]);
    assert!(program.eeprom.is_empty());
    assert_eq!(program.config, None);
    assert_eq!(program.start_address, 0);
}

#[test]
fn test_hex_checksum_rejection_reports_line() {
    // The same input with the checksum byte of the second line altered
    let hex = ":020000040000FA\n:0200000055307A\n:020002002000DC\n:00000001FF\n";
    let err = HexLoader::load_from_string(hex).unwrap_err();
    assert_eq!(err.line, 2);
    assert_eq!(err.kind, HexParseErrorKind::ChecksumMismatch);
}

#[test]
fn test_missing_colon() {
    assert_eq!(HexRecord::parse("02000000553079").unwrap_err(), HexParseErrorKind::MissingColon);
    assert_eq!(HexRecord::parse("").unwrap_err(), HexParseErrorKind::MissingColon);
}

#[test]
fn test_odd_length() {
    assert_eq!(HexRecord::parse(":0200000055307").unwrap_err(), HexParseErrorKind::OddLength);
}

#[test]
fn test_invalid_hex_digit() {
    assert_eq!(
        HexRecord::parse(":02000000553G79").unwrap_err(),
        HexParseErrorKind::InvalidHexDigit
    );
}

#[test]
fn test_too_short() {
    assert_eq!(HexRecord::parse(":020000").unwrap_err(), HexParseErrorKind::TooShort);
}

#[test]
fn test_byte_count_mismatch() {
    // Count says 3 data bytes but only 2 are present
    assert_eq!(
        HexRecord::parse(":03000000553079").unwrap_err(),
        HexParseErrorKind::ByteCountMismatch
    );
}

#[test]
fn test_invalid_record_type() {
    // Type 0x06 is unknown; checksum is otherwise fine
    assert_eq!(
        HexRecord::parse(":00000006FA").unwrap_err(),
        HexParseErrorKind::InvalidRecordType
    );
}

#[test]
fn test_eeprom_and_config_regions() {
    // One data byte at 0x2100 (EEPROM) and a config word at 0x2007
    let hex = ":01210000429C\n:02200700341291\n:00000001FF\n";
    let program = HexLoader::load_from_string(hex).unwrap();
    assert_eq!(program.eeprom, vec![0x42]);
    assert_eq!(program.config, Some(0x1234));
    assert!(program.program.is_empty());
}

#[test]
fn test_comment_and_blank_lines_skipped() {
    let hex = "\n; a comment line\n:02000000553079\n:00000001FF\n";
    let program = HexLoader::load_from_string(hex).unwrap();
    assert_eq!(program.program, vec![0x3055]);
}

#[test]
fn test_records_stop_at_eof_marker() {
    // A malformed line after the end-of-file record is never reached
    let hex = ":02000000553079\n:00000001FF\n:garbage\n";
    let program = HexLoader::load_from_string(hex).unwrap();
    assert_eq!(program.program, vec![0x3055]);
}

#[test]
fn test_odd_trailing_byte_zero_high() {
    // Three program bytes: the odd trailing byte becomes a word with a
    // zero high byte. :030000005530AA cs: 03+55+30+AA = 0x132 -> 0xCE
    let hex = ":030000005530AACE\n:00000001FF\n";
    let program = HexLoader::load_from_string(hex).unwrap();
    assert_eq!(program.program, vec![0x3055, 0x00AA]);
}

#[test]
fn test_program_words_masked_to_14_bits() {
    // Bytes FF FF form 0xFFFF, masked to 0x3FFF
    // :02000000FFFF00
    let hex = ":02000000FFFF00\n:00000001FF\n";
    let program = HexLoader::load_from_string(hex).unwrap();
    assert_eq!(program.program, vec![0x3FFF]);
}
