use ess_decoder::parse_record;
use ess_decoder::ParseError;
use ess_decoder::RecordFlag;
use ess_decoder::Scanner;

#[test]
fn new_record_flag() {
    let record_flag = RecordFlag::from_bits(0x0000021);
    assert!(record_flag.esm_file());
    assert!(record_flag.deleted());
    assert!(!record_flag.casts_shadows());
}

#[test]
fn flag_word_bit_layout() {
    let none = RecordFlag::from_bits(0);
    assert!(!none.esm_file());
    assert!(!none.deleted());
    assert!(!none.casts_shadows());
    assert!(!none.persistent_reference());
    assert!(!none.initially_disabled());
    assert!(!none.ignored());
    assert!(!none.visible_when_distant());
    assert!(!none.dangerous());
    assert!(!none.compressed());
    assert!(!none.cant_wait());
    // Each named bit, alone, sets its own flag and nothing else.
    assert!(RecordFlag::from_bits(1 << 0).esm_file());
    assert!(RecordFlag::from_bits(1 << 5).deleted());
    assert!(RecordFlag::from_bits(1 << 9).casts_shadows());
    assert!(RecordFlag::from_bits(1 << 10).persistent_reference());
    assert!(RecordFlag::from_bits(1 << 11).initially_disabled());
    assert!(RecordFlag::from_bits(1 << 12).ignored());
    assert!(RecordFlag::from_bits(1 << 15).visible_when_distant());
    assert!(RecordFlag::from_bits(1 << 17).dangerous());
    assert!(RecordFlag::from_bits(1 << 18).compressed());
    assert!(RecordFlag::from_bits(1 << 19).cant_wait());
    assert_eq!(RecordFlag::from_bits(1 << 0), RecordFlag::from_bits(1));
    // A word holding only reserved bits decodes the same as zero.
    let reserved: u32 = 0b11110 | (0b111 << 6) | (0b11 << 13) | (1 << 16) | (0xFFF << 20);
    assert_eq!(RecordFlag::from_bits(reserved), none);
    // Every named flag at once.
    let named: u32 = (1 << 0) | (1 << 5) | (1 << 9) | (1 << 10) | (1 << 11) | (1 << 12) | (1 << 15)
        | (1 << 17) | (1 << 18) | (1 << 19);
    let all = RecordFlag::from_bits(named);
    assert!(all.esm_file() && all.deleted() && all.casts_shadows());
    assert!(all.persistent_reference() && all.initially_disabled() && all.ignored());
    assert!(all.visible_when_distant() && all.dangerous() && all.compressed() && all.cant_wait());
    assert_eq!(RecordFlag::from_bits(0xFFFF_FFFF), all);
}

#[test]
fn record_payloads_are_refused() {
    // A whole record header is present: the payload behind it is an open
    // extension seam and is refused rather than skipped.
    let mut bytes = b"WEAP".to_vec();
    bytes.extend_from_slice(&0x21u32.to_le_bytes());
    let mut sc = Scanner::new(&bytes);
    assert_eq!(parse_record(&mut sc).unwrap_err(), ParseError::UnsupportedFeature);
    // A short header is an end-of-stream failure instead.
    let mut sc = Scanner::new(&bytes[..6]);
    assert_eq!(parse_record(&mut sc).unwrap_err(), ParseError::UnexpectedEOF);
}
