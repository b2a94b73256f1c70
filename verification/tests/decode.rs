use ess_decoder::parse_ess;
use ess_decoder::sections::parse_quick_key;
use ess_decoder::sections::parse_screenshot;
use ess_decoder::IRef;
use ess_decoder::ParseError;
use ess_decoder::BytesLE;
use ess_decoder::Scanner;

fn push_u16(v: &mut Vec<u8>, x: u16) {
    v.extend_from_slice(&x.to_le_bytes());
}

fn push_u32(v: &mut Vec<u8>, x: u32) {
    v.extend_from_slice(&x.to_le_bytes());
}

fn push_f32(v: &mut Vec<u8>, x: f32) {
    v.extend_from_slice(&x.to_le_bytes());
}

fn push_bstring(v: &mut Vec<u8>, s: &str) {
    v.push(s.len() as u8);
    v.extend_from_slice(s.as_bytes());
}

fn push_bzstring(v: &mut Vec<u8>, s: &str) {
    v.push((s.len() + 1) as u8);
    v.extend_from_slice(s.as_bytes());
    v.push(0);
}

fn push_systime(v: &mut Vec<u8>, fields: [u16; 8]) {
    for f in fields {
        push_u16(v, f);
    }
}

fn push_blob(v: &mut Vec<u8>, data: &[u8]) {
    push_u16(v, data.len() as u16);
    v.extend_from_slice(data);
}

/// Everything up to and including the combat-actor count of the globals
/// section: the shared front of the save fixtures.
fn save_front() -> Vec<u8> {
    save_front_versioned(125)
}

/// The same front with a chosen minor version: the executable timestamp
/// exists only from minor version 82 on.
fn save_front_versioned(minor: u8) -> Vec<u8> {
    let mut v = Vec::new();
    // file header
    v.extend_from_slice(b"TES4SAVEGAME");
    v.push(0); // major version
    v.push(minor); // minor version, gates exe_time
    if minor >= 82 {
        push_systime(&mut v, [2022, 6, 4, 2, 11, 22, 33, 444]); // exe_time
    }
    // save header
    push_u32(&mut v, minor as u32); // header version, duplicates minor
    push_u32(&mut v, 0); // declared header size, discarded
    push_u32(&mut v, 325); // save number
    push_bzstring(&mut v, "Kheros");
    push_u16(&mut v, 23); // level
    push_bzstring(&mut v, "Anvil");
    push_f32(&mut v, 12.5); // game days
    push_u32(&mut v, 123_456); // game ticks
    push_systime(&mut v, [2022, 6, 4, 2, 12, 0, 0, 0]); // save time
    // screenshot: 2 x 1 pixels
    push_u32(&mut v, 3 * 2 * 1 + 8); // declared size
    push_u32(&mut v, 2); // width
    push_u32(&mut v, 1); // height
    v.extend_from_slice(&[10, 20, 30, 40, 50, 60]);
    // plugins
    v.push(28);
    for i in 0..28 {
        push_bstring(&mut v, &format!("plugin{:02}.esp", i));
    }
    // globals section
    push_u32(&mut v, 0); // form-id table offset, discarded
    push_u32(&mut v, 0); // mislabeled record length, discarded
    push_u32(&mut v, 0x1234); // next object id
    push_u32(&mut v, 0x3C); // world id
    push_u32(&mut v, 5); // world grid x
    push_u32(&mut v, 7); // world grid y
    push_u32(&mut v, 0xABCD); // player cell
    push_f32(&mut v, 1.0);
    push_f32(&mut v, 2.0);
    push_f32(&mut v, 3.0);
    push_u16(&mut v, 2); // global variables
    push_u32(&mut v, 11);
    push_f32(&mut v, 4.25);
    push_u32(&mut v, 12);
    push_f32(&mut v, -1.5);
    push_u16(&mut v, 0); // discarded
    push_u32(&mut v, 1); // death counts
    push_u32(&mut v, 77);
    push_u16(&mut v, 3);
    push_f32(&mut v, 99.0); // game mode seconds
    push_blob(&mut v, &[1, 2, 3]); // processes
    push_blob(&mut v, &[]); // spectator events
    push_blob(&mut v, &[9]); // weather
    push_u32(&mut v, 0); // combat actor count
    v
}

/// A small but complete save image in the captured shape: minor version 125,
/// executable timestamp 2022-06-02, player "Kheros", 28 plugins.
fn sample_save() -> Vec<u8> {
    sample_save_versioned(125)
}

/// The same save image with a chosen minor version.
fn sample_save_versioned(minor: u8) -> Vec<u8> {
    let mut v = save_front_versioned(minor);
    push_u32(&mut v, 0); // created-item records
    push_u16(&mut v, 2); // quick keys
    v.push(0); // empty slot
    v.push(1); // bound slot
    push_u32(&mut v, 0xFEED);
    push_blob(&mut v, &[4, 5]); // reticule
    push_blob(&mut v, &[6]); // interface
    push_u16(&mut v, 0); // discarded
    push_u16(&mut v, 1); // regions
    push_u32(&mut v, 21);
    push_u32(&mut v, 22);
    v
}

#[test]
fn read_save_325() {
    let bytes = sample_save();
    let ess = parse_ess(&bytes).expect("should be able to parse Save325Kheros.ess");
    let header = ess.file_header;
    assert_eq!(header.minor_version, 125);

    let exe_time = header.exe_time.expect("should exist");
    assert_eq!(exe_time.year, 2022);
    assert_eq!(exe_time.month, 6);
    assert_eq!(exe_time.day, 2);

    let header = ess.save_game_header;
    assert_eq!(header.name, "Kheros");

    let plugins = ess.plugins;
    assert_eq!(plugins.len(), 28);
}

#[test]
fn decoded_sections_match_fixture() {
    let bytes = sample_save();
    let ess = parse_ess(&bytes).expect("fixture should decode");
    assert_eq!(ess.file_header.file_id, "TES4SAVEGAME");
    assert_eq!(ess.file_header.major_version, 0);
    let sh = &ess.save_game_header;
    assert_eq!(sh.header_version, 125);
    assert_eq!(sh.save_number, 325);
    assert_eq!(sh.level, 23);
    assert_eq!(sh.cell, "Anvil");
    assert_eq!(f32::from_bits(sh.game_days.0), 12.5);
    assert_eq!(sh.game_ticks, 123_456);
    assert_eq!(sh.game_time.hour, 12);
    assert_eq!(sh.screenshot.width, 2);
    assert_eq!(sh.screenshot.height, 1);
    assert_eq!(sh.screenshot.screen.len(), 2);
    assert_eq!(sh.screenshot.screen[1], ess_decoder::RGB(40, 50, 60));
    assert_eq!(ess.plugins[0], "plugin00.esp");
    assert_eq!(ess.plugins[27], "plugin27.esp");
    let g = &ess.globals;
    assert_eq!(g.next_object_id, ess_decoder::FormID(0x1234));
    assert_eq!(g.world_id, ess_decoder::FormID(0x3C));
    assert_eq!(g.world_x, 5);
    assert_eq!(g.world_y, 7);
    assert_eq!(g.player_location.cell, ess_decoder::FormID(0xABCD));
    assert_eq!(f32::from_bits(g.player_location.z.0), 3.0);
    assert_eq!(g.globals.len(), 2);
    assert_eq!(g.globals[0].0, IRef(11));
    assert_eq!(f32::from_bits(g.globals[1].1 .0), -1.5);
    assert_eq!(g.death_counts.len(), 1);
    assert_eq!(g.death_counts[0].actor, IRef(77));
    assert_eq!(g.death_counts[0].total, 3);
    assert_eq!(f32::from_bits(g.game_mode_seconds.0), 99.0);
    assert_eq!(g.processes, vec![1, 2, 3]);
    assert_eq!(g.spectator_events, Vec::<u8>::new());
    assert_eq!(g.weather, vec![9]);
    assert_eq!(g.player_combat_count, 0);
    assert_eq!(g.created_items.len(), 0);
    assert_eq!(g.quick_keys, vec![None, Some(IRef(0xFEED))]);
    assert_eq!(g.reticule, vec![4, 5]);
    assert_eq!(g.interface, vec![6]);
    assert_eq!(g.regions, vec![(IRef(21), 22)]);
}

#[test]
fn short_input_is_missing_header() {
    assert_eq!(parse_ess(&[]).unwrap_err(), ParseError::NoHeader);
    assert_eq!(parse_ess(&[0x54, 0x45, 0x53]).unwrap_err(), ParseError::NoHeader);
    assert_eq!(parse_ess(b"TES4SAVEGAM").unwrap_err(), ParseError::NoHeader);
    // Eleven bytes of the console marker prefix are still a missing header.
    assert_eq!(parse_ess(b"CON junkjun").unwrap_err(), ParseError::NoHeader);
}

#[test]
fn wrong_identifier_is_bad_file_id() {
    let mut bytes = b"NOTASAVEFILE".to_vec();
    bytes.extend_from_slice(&[1, 2, 3, 4]);
    assert_eq!(
        parse_ess(&bytes).unwrap_err(),
        ParseError::BadFileID(*b"NOTASAVEFILE")
    );
}

#[test]
fn console_marker_is_foreign_container() {
    let mut bytes = b"CON 12345678".to_vec();
    assert_eq!(parse_ess(&bytes).unwrap_err(), ParseError::XboxContainer);
    // The condition holds whatever the remaining bytes are.
    bytes.extend_from_slice(&sample_save());
    assert_eq!(parse_ess(&bytes).unwrap_err(), ParseError::XboxContainer);
}

#[test]
fn truncated_save_is_unexpected_eof() {
    let bytes = sample_save();
    for cut in [13, 20, 60, bytes.len() - 1] {
        assert_eq!(parse_ess(&bytes[..cut]).unwrap_err(), ParseError::UnexpectedEOF);
    }
}

#[test]
fn created_items_are_an_unsupported_feature() {
    let mut bytes = save_front();
    push_u32(&mut bytes, 1); // one created-item record
    bytes.extend_from_slice(b"WEAP"); // record type tag
    push_u32(&mut bytes, 0x21); // record flag word
    assert_eq!(parse_ess(&bytes).unwrap_err(), ParseError::UnsupportedFeature);
}

#[test]
fn bstring_consumes_declared_length() {
    // A raw string consumes exactly its declared three bytes, zero included.
    let bytes = [3u8, b'a', 0, b'c', 0x7A];
    let mut sc = Scanner::new(&bytes);
    let text = sc.bstring().expect("in-bounds raw string");
    assert_eq!(text.len(), 3);
    assert_eq!(text.as_bytes()[0], b'a');
    assert_eq!(sc.u8().expect("one byte left"), 0x7A);
    assert_eq!(sc.u8().unwrap_err(), ParseError::UnexpectedEOF);
}

#[test]
fn bstring_decodes_through_the_code_page() {
    // 0x80 is the euro sign in the Western code page, not a byte identity
    // and not valid as a one-byte UTF-8 sequence.
    let bytes = [3u8, b'a', 0x80, b'c'];
    let mut sc = Scanner::new(&bytes);
    assert_eq!(sc.bstring().expect("total decode"), "a\u{20AC}c");
    let bytes = [1u8, 0xE9];
    let mut sc = Scanner::new(&bytes);
    assert_eq!(sc.bstring().expect("total decode"), "\u{E9}");
}

#[test]
fn bzstring_consumes_declared_length_but_stops_at_zero() {
    let bytes = [5u8, b'A', b'B', 0, b'x', b'y', 0x7A];
    let mut sc = Scanner::new(&bytes);
    assert_eq!(sc.bzstring().expect("in-bounds string"), "AB");
    // The two padding bytes after the zero were consumed all the same.
    assert_eq!(sc.u8().expect("one byte left"), 0x7A);
    assert_eq!(sc.u8().unwrap_err(), ParseError::UnexpectedEOF);
}

#[test]
fn bzstring_without_zero_decodes_whole() {
    let bytes = [2u8, b'h', b'i'];
    let mut sc = Scanner::new(&bytes);
    assert_eq!(sc.bzstring().expect("in-bounds string"), "hi");
}

#[test]
fn screenshot_section_is_three_bytes_per_pixel() {
    let mut bytes = Vec::new();
    push_u32(&mut bytes, 3 * 2 * 2 + 8); // declared size: 3*w*h + 8
    push_u32(&mut bytes, 2); // width
    push_u32(&mut bytes, 2); // height
    bytes.extend_from_slice(&[1, 2, 3, 4, 5, 6, 7, 8, 9, 10, 11, 12]);
    bytes.push(0x7A); // one byte past the pixel section
    let mut sc = Scanner::new(&bytes);
    let shot = parse_screenshot(&mut sc).expect("in-bounds screenshot");
    assert_eq!(shot.width, 2);
    assert_eq!(shot.height, 2);
    assert_eq!(shot.screen.len(), 4);
    assert_eq!(shot.screen[3], ess_decoder::RGB(10, 11, 12));
    assert_eq!(sc.u8().expect("exactly one byte left"), 0x7A);
    assert_eq!(sc.u8().unwrap_err(), ParseError::UnexpectedEOF);
}

#[test]
fn quick_key_slot_false_consumes_one_byte() {
    let bytes = [0u8, 9];
    let mut sc = Scanner::new(&bytes);
    assert_eq!(parse_quick_key(&mut sc).expect("empty slot"), None);
    assert_eq!(sc.u8().expect("one byte left"), 9);
}

#[test]
fn quick_key_slot_true_consumes_five_bytes() {
    let mut bytes = vec![1u8];
    push_u32(&mut bytes, 0xDEAD_BEEF);
    bytes.push(7);
    let mut sc = Scanner::new(&bytes);
    assert_eq!(
        parse_quick_key(&mut sc).expect("bound slot"),
        Some(IRef(0xDEAD_BEEF))
    );
    assert_eq!(sc.u8().expect("one byte left"), 7);
}

#[test]
fn quick_key_discriminant_is_lenient() {
    // Any nonzero discriminant byte counts as true.
    let mut bytes = vec![2u8];
    push_u32(&mut bytes, 5);
    let mut sc = Scanner::new(&bytes);
    assert_eq!(parse_quick_key(&mut sc).expect("bound slot"), Some(IRef(5)));
}

#[test]
fn little_endian_helpers_read_in_order() {
    let bytes = [0x01u8, 0x02, 0x03, 0x04, 0x05, 0x06, 0x07];
    let mut sc = Scanner::new(&bytes);
    assert_eq!(sc.next_u8(), Some(0x01));
    assert_eq!(sc.next_u16(), Some(0x0302));
    assert_eq!(sc.next_u32(), Some(0x07060504));
    assert_eq!(sc.next_u8(), None);
    assert_eq!(sc.next_u16(), None);
    assert_eq!(sc.next_u32(), None);
}

#[test]
fn low_minor_version_has_no_exe_time() {
    let bytes = sample_save_versioned(81);
    let ess = parse_ess(&bytes).expect("old saves decode without a timestamp");
    assert_eq!(ess.file_header.minor_version, 81);
    assert!(ess.file_header.exe_time.is_none());
    assert_eq!(ess.save_game_header.name, "Kheros");
    let bytes = sample_save_versioned(82);
    let ess = parse_ess(&bytes).expect("the timestamp starts at minor version 82");
    assert!(ess.file_header.exe_time.is_some());
}

#[test]
fn string_longer_than_stream_is_unexpected_eof() {
    let bytes = [5u8, b'a', b'b'];
    let mut sc = Scanner::new(&bytes);
    assert_eq!(sc.bstring().unwrap_err(), ParseError::UnexpectedEOF);
    let mut sc = Scanner::new(&bytes);
    assert_eq!(sc.bzstring().unwrap_err(), ParseError::UnexpectedEOF);
}
