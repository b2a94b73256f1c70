use vstd::prelude::*;

use crate::error::ParseError;
use crate::error::ParseResult;
use crate::error::SpecParseError;
use crate::model::records_view;
use crate::model::strings_view;
use crate::model::DeathCount;
use crate::model::FileHeader;
use crate::model::FileHeaderView;
use crate::model::FloatBits;
use crate::model::FormID;
use crate::model::GlobalSection;
use crate::model::GlobalSectionView;
use crate::model::IRef;
use crate::model::PlayerLocation;
use crate::model::Record;
use crate::model::RecordView;
use crate::model::Region;
use crate::model::SaveGameHeader;
use crate::model::SaveGameHeaderView;
use crate::model::Screenshot;
use crate::model::ScreenshotView;
use crate::model::RGB;
use crate::scanner::le32_at;
use crate::scanner::sp_bstring;
use crate::scanner::sp_bytes;
use crate::scanner::sp_systime;
use crate::scanner::sp_u16;
use crate::scanner::sp_u32;
use crate::scanner::sp_float32;
use crate::scanner::sp_bool;
use crate::scanner::Scanner;
use vstd::string::StringExecFns;

verus! {

/// The first twelve bytes of `s` are the save magic.
pub open spec fn is_magic_id(s: Seq<u8>) -> bool {
    &&& s.len() >= 12
    &&& s[0] == 0x54u8
    &&& s[1] == 0x45u8
    &&& s[2] == 0x53u8
    &&& s[3] == 0x34u8
    &&& s[4] == 0x53u8
    &&& s[5] == 0x41u8
    &&& s[6] == 0x56u8
    &&& s[7] == 0x45u8
    &&& s[8] == 0x47u8
    &&& s[9] == 0x41u8
    &&& s[10] == 0x4Du8
    &&& s[11] == 0x45u8
}

/// The first four bytes of `s` are the known console-container marker.
pub open spec fn is_console_marker(s: Seq<u8>) -> bool {
    &&& s.len() >= 4
    &&& s[0] == 0x43u8
    &&& s[1] == 0x4Fu8
    &&& s[2] == 0x4Eu8
    &&& s[3] == 0x20u8
}

/// The save magic as text.
pub open spec fn magic_text() -> Seq<char> {
    "TES4SAVEGAME"@
}

/// What reading the file header yields: twelve identifier bytes that must be
/// the magic, a major and a minor version byte, and an executable timestamp
/// present exactly when the minor version is 82 or more. An input too short
/// for the identifier fails with the missing-header condition; an identifier
/// that is not the magic fails with the foreign-container condition when it
/// starts with the console marker and with the bad-identifier condition,
/// carrying the twelve offending bytes, otherwise.
pub open spec fn sp_file_header(s: Seq<u8>) -> Result<(FileHeaderView, Seq<u8>), SpecParseError> {
    if s.len() < 12 {
        Err(SpecParseError::NoHeader)
    } else if is_magic_id(s) {
        if s.len() < 14 {
            Err(SpecParseError::UnexpectedEOF)
        } else {
            let major = s[12];
            let minor = s[13];
            if minor >= 82 {
                match sp_systime(s.skip(14)) {
                    None => Err(SpecParseError::UnexpectedEOF),
                    Some(p) => Ok(
                        (
                            FileHeaderView {
                                file_id: magic_text(),
                                major_version: major,
                                minor_version: minor,
                                exe_time: Some(p.0),
                            },
                            p.1,
                        ),
                    ),
                }
            } else {
                Ok(
                    (
                        FileHeaderView {
                            file_id: magic_text(),
                            major_version: major,
                            minor_version: minor,
                            exe_time: None,
                        },
                        s.skip(14),
                    ),
                )
            }
        }
    } else if is_console_marker(s) {
        Err(SpecParseError::XboxContainer)
    } else {
        Err(SpecParseError::BadFileID(s.subrange(0, 12)))
    }
}

/// Decode the file header.
pub fn parse_file_header<'a>(sc: &mut Scanner<'a>) -> (r: ParseResult<FileHeader>)
    requires
        old(sc).wf(),
    ensures
        final(sc).wf(),
        match sp_file_header(old(sc).remaining()) {
            Ok(p) => r matches Ok(v) && v@ == p.0 && final(sc).remaining() == p.1,
            Err(e) => r matches Err(pe) && pe@ == e,
        },
{
    let ghost s = old(sc).remaining();
    let id = match sc.read_bytes(12) {
        Ok(v) => v,
        Err(_) => {
            return Err(ParseError::NoHeader);
        },
    };
    let is_magic = id[0] == 0x54 && id[1] == 0x45 && id[2] == 0x53 && id[3] == 0x34 && id[4]
        == 0x53 && id[5] == 0x41 && id[6] == 0x56 && id[7] == 0x45 && id[8] == 0x47 && id[9]
        == 0x41 && id[10] == 0x4D && id[11] == 0x45;
    if is_magic {
        let major_version = sc.u8()?;
        let minor_version = sc.u8()?;
        proof {
            assert(s.skip(12).skip(1) =~= s.skip(13));
            assert(s.skip(13).skip(1) =~= s.skip(14));
        }
        let exe_time = if minor_version >= 82 {
            Some(sc.systime()?)
        } else {
            None
        };
        let fh = FileHeader {
            file_id: String::from_str("TES4SAVEGAME"),
            major_version,
            minor_version,
            exe_time,
        };
        proof {
            match sp_file_header(s) {
                Ok(p) => {
                    assert(fh@ =~= p.0);
                },
                Err(_) => {},
            }
        }
        Ok(fh)
    } else if id[0] == 0x43 && id[1] == 0x4F && id[2] == 0x4E && id[3] == 0x20 {
        Err(ParseError::XboxContainer)
    } else {
        let bad: [u8; 12] = [
            id[0],
            id[1],
            id[2],
            id[3],
            id[4],
            id[5],
            id[6],
            id[7],
            id[8],
            id[9],
            id[10],
            id[11],
        ];
        proof {
            assert(bad@ =~= s.subrange(0, 12));
        }
        Err(ParseError::BadFileID(bad))
    }
}

/// The pixels that `n` consecutive byte triples of `b` hold.
pub open spec fn rgb_of(b: Seq<u8>, n: int) -> Seq<RGB> {
    Seq::new(n as nat, |i: int| RGB(b[3 * i], b[3 * i + 1], b[3 * i + 2]))
}

/// What reading the embedded screenshot yields: a declared block size that a
/// well-formed file sets to `3 * width * height + 8` but that is read and
/// discarded as a non-fatal diagnostic, the width and height words, and then
/// exactly `3 * width * height` pixel bytes.
pub open spec fn sp_screenshot(s: Seq<u8>) -> Option<(ScreenshotView, Seq<u8>)> {
    if s.len() < 12 {
        None
    } else {
        let w = le32_at(s, 4);
        let h = le32_at(s, 8);
        let npix = 3 * (w as int) * (h as int);
        if 12 + npix <= s.len() {
            Some(
                (
                    ScreenshotView {
                        width: w,
                        height: h,
                        screen: rgb_of(s.skip(12), (w as int) * (h as int)),
                    },
                    s.skip(12 + npix),
                ),
            )
        } else {
            None
        }
    }
}

/// The pixel section of a screenshot of width `w` and height `h` is exactly
/// `3 * w * h` bytes: past the three leading words the decode consumes
/// precisely that many bytes, yields one pixel per byte triple, and the block
/// size a well-formed file declares for these dimensions is `3 * w * h + 8`.
pub proof fn lemma_screenshot_consumes(s: Seq<u8>, w: u32, h: u32)
    requires
        s.len() >= 12,
        le32_at(s, 4) == w,
        le32_at(s, 8) == h,
        s.len() >= 12 + 3 * (w as int) * (h as int),
    ensures
        sp_screenshot(s) matches Some(p) && p.1 == s.skip(12 + 3 * (w as int) * (h as int))
            && p.1.len() == s.len() - 12 - 3 * (w as int) * (h as int) && p.0.wf() && p.0.width
            == w && p.0.height == h && p.0.declared_size() == 3 * (w as int) * (h as int) + 8,
{
}

/// Decode the embedded screenshot.
#[verifier::loop_isolation(false)]
pub fn parse_screenshot<'a>(sc: &mut Scanner<'a>) -> (r: ParseResult<Screenshot>)
    requires
        old(sc).wf(),
    ensures
        final(sc).wf(),
        match sp_screenshot(old(sc).remaining()) {
            Some(p) => r matches Ok(v) && v@ == p.0 && final(sc).remaining() == p.1,
            None => r == Err::<Screenshot, ParseError>(ParseError::UnexpectedEOF),
        },
{
    let ghost s = old(sc).remaining();
    let _declared_size = sc.u32()?;
    let width = sc.u32()?;
    let height = sc.u32()?;
    proof {
        assert(s.skip(4).skip(4) =~= s.skip(8));
        assert(s.skip(8).skip(4) =~= s.skip(12));
        assert(le32_at(s.skip(4), 0) == le32_at(s, 4));
        assert(le32_at(s.skip(8), 0) == le32_at(s, 8));
        assert((width as int) * (height as int) <= 0xFFFFFFFFint * 0xFFFFFFFFint)
            by (nonlinear_arith)
            requires
                width as int <= 0xFFFFFFFFint,
                height as int <= 0xFFFFFFFFint,
        ;
        assert(3 * (width as int) * (height as int) == 3 * ((width as int) * (height as int)))
            by (nonlinear_arith);
    }
    let count64: u64 = (width as u64) * (height as u64);
    let npix128: u128 = 3u128 * (count64 as u128);
    let rem = sc.remaining_len();
    if npix128 > rem as u128 {
        return Err(ParseError::UnexpectedEOF);
    }
    let npix: usize = npix128 as usize;
    let count: usize = count64 as usize;
    let bytes = sc.read_bytes(npix)?;
    let mut screen: Vec<RGB> = Vec::new();
    let mut i: usize = 0;
    while i < count
        invariant
            i <= count,
            3 * count == npix <= bytes@.len(),
            screen@.len() == i as int,
            forall|j: int|
                0 <= j < i ==> screen@[j] == RGB(
                    bytes@[3 * j],
                    bytes@[3 * j + 1],
                    bytes@[3 * j + 2],
                ),
        decreases count - i,
    {
        let px = RGB(bytes[3 * i], bytes[3 * i + 1], bytes[3 * i + 2]);
        screen.push(px);
        i = i + 1;
    }
    let shot = Screenshot { width, height, screen };
    proof {
        assert(bytes@ =~= s.skip(12).take(npix as int));
        assert(shot@.screen =~= rgb_of(s.skip(12), (width as int) * (height as int)));
        assert(s.skip(12).skip(npix as int) =~= s.skip(12 + npix as int));
        match sp_screenshot(s) {
            Some(p) => {
                assert(shot@ =~= p.0);
            },
            None => {},
        }
    }
    Ok(shot)
}

/// What reading `n` consecutive items yields, each read by `item`: the items
/// in order and the bytes left after them, or nothing as soon as one read
/// fails.
pub open spec fn sp_many<T>(
    s: Seq<u8>,
    n: int,
    item: spec_fn(Seq<u8>) -> Option<(T, Seq<u8>)>,
) -> Option<(Seq<T>, Seq<u8>)>
    decreases n,
{
    if n <= 0 {
        Some((Seq::empty(), s))
    } else {
        match item(s) {
            None => None,
            Some(p) => match sp_many(p.1, n - 1, item) {
                None => None,
                Some(q) => Some((seq![p.0] + q.0, q.1)),
            },
        }
    }
}

/// Reading `n` items onto an accumulator: the order a loop reads them in.
pub open spec fn sp_many_acc<T>(
    acc: Seq<T>,
    s: Seq<u8>,
    n: int,
    item: spec_fn(Seq<u8>) -> Option<(T, Seq<u8>)>,
) -> Option<(Seq<T>, Seq<u8>)>
    decreases n,
{
    if n <= 0 {
        Some((acc, s))
    } else {
        match item(s) {
            None => None,
            Some(p) => sp_many_acc(acc.push(p.0), p.1, n - 1, item),
        }
    }
}

/// Reading onto an accumulator appends a plain reading to it.
pub proof fn lemma_many_acc<T>(
    acc: Seq<T>,
    s: Seq<u8>,
    n: int,
    item: spec_fn(Seq<u8>) -> Option<(T, Seq<u8>)>,
)
    ensures
        sp_many_acc(acc, s, n, item) == match sp_many(s, n, item) {
            None => None::<(Seq<T>, Seq<u8>)>,
            Some(p) => Some((acc + p.0, p.1)),
        },
    decreases n,
{
    if n <= 0 {
        assert(acc + Seq::<T>::empty() =~= acc);
    } else {
        match item(s) {
            None => {},
            Some(p) => {
                lemma_many_acc(acc.push(p.0), p.1, n - 1, item);
                match sp_many(p.1, n - 1, item) {
                    None => {},
                    Some(q) => {
                        assert(acc.push(p.0) + q.0 =~= acc + (seq![p.0] + q.0));
                    },
                }
            },
        }
    }
}

/// The raw-string reader, as a value.
pub open spec fn bstring_fn() -> spec_fn(Seq<u8>) -> Option<(Seq<char>, Seq<u8>)> {
    |s: Seq<u8>| sp_bstring(s)
}

/// What reading the plugin list yields: a one-byte count, then that many
/// raw length-prefixed strings.
pub open spec fn sp_plugins(s: Seq<u8>) -> Option<(Seq<Seq<char>>, Seq<u8>)> {
    match crate::scanner::sp_u8(s) {
        None => None,
        Some(p) => sp_many(p.1, p.0 as int, bstring_fn()),
    }
}

/// Decode the plugin list.
#[verifier::loop_isolation(false)]
pub fn parse_plugins<'a>(sc: &mut Scanner<'a>) -> (r: ParseResult<Vec<String>>)
    requires
        old(sc).wf(),
    ensures
        final(sc).wf(),
        match sp_plugins(old(sc).remaining()) {
            Some(p) => r matches Ok(v) && strings_view(v@) == p.0 && final(sc).remaining() == p.1,
            None => r == Err::<Vec<String>, ParseError>(ParseError::UnexpectedEOF),
        },
{
    let count = sc.u8()?;
    let ghost rest0 = sc.remaining();
    let mut plugins: Vec<String> = Vec::new();
    proof {
        assert(strings_view(plugins@) =~= Seq::<Seq<char>>::empty());
    }
    let mut i: u8 = 0;
    while i < count
        invariant
            sc.wf(),
            i <= count,
            sp_many_acc(
                strings_view(plugins@),
                sc.remaining(),
                count as int - i as int,
                bstring_fn(),
            ) == sp_many_acc(Seq::empty(), rest0, count as int, bstring_fn()),
        decreases count as int - i as int,
    {
        let ghost cur0 = sc.remaining();
        let ghost acc0 = strings_view(plugins@);
        proof {
            lemma_many_acc(Seq::empty(), rest0, count as int, bstring_fn());
            assert(bstring_fn()(cur0) == sp_bstring(cur0));
        }
        let name = sc.bstring()?;
        plugins.push(name);
        i = i + 1;
        proof {
            assert(strings_view(plugins@) =~= acc0.push(name@));
        }
    }
    proof {
        lemma_many_acc(Seq::empty(), rest0, count as int, bstring_fn());
        match sp_many(rest0, count as int, bstring_fn()) {
            Some(p) => {
                assert(Seq::<Seq<char>>::empty() + p.0 =~= p.0);
            },
            None => {},
        }
    }
    Ok(plugins)
}

/// What reading one global variable yields: a save-local reference and its
/// float-word value.
pub open spec fn sp_global_var(s: Seq<u8>) -> Option<((IRef, FloatBits), Seq<u8>)> {
    match sp_u32(s) {
        None => None,
        Some(p) => match sp_float32(p.1) {
            None => None,
            Some(q) => Some(((IRef(p.0), q.0), q.1)),
        },
    }
}

/// The global-variable reader, as a value.
pub open spec fn global_var_fn() -> spec_fn(Seq<u8>) -> Option<((IRef, FloatBits), Seq<u8>)> {
    |s: Seq<u8>| sp_global_var(s)
}

/// What reading one death-count entry yields: a save-local reference and how
/// many times that actor has died.
pub open spec fn sp_death_count(s: Seq<u8>) -> Option<(DeathCount, Seq<u8>)> {
    match sp_u32(s) {
        None => None,
        Some(p) => match sp_u16(p.1) {
            None => None,
            Some(q) => Some((DeathCount { actor: IRef(p.0), total: q.0 }, q.1)),
        },
    }
}

/// The death-count reader, as a value.
pub open spec fn death_count_fn() -> spec_fn(Seq<u8>) -> Option<(DeathCount, Seq<u8>)> {
    |s: Seq<u8>| sp_death_count(s)
}

/// What reading one quick-key slot yields: a one-byte boolean discriminant; a
/// false byte alone is an empty slot, a true byte is followed by the bound
/// reference.
pub open spec fn sp_quick_key(s: Seq<u8>) -> Option<(Option<IRef>, Seq<u8>)> {
    match sp_bool(s) {
        None => None,
        Some(p) => if p.0 {
            match sp_u32(p.1) {
                None => None,
                Some(q) => Some((Some(IRef(q.0)), q.1)),
            }
        } else {
            Some((None, p.1))
        },
    }
}

/// The quick-key reader, as a value.
pub open spec fn quick_key_fn() -> spec_fn(Seq<u8>) -> Option<(Option<IRef>, Seq<u8>)> {
    |s: Seq<u8>| sp_quick_key(s)
}

/// A quick-key slot with a false (zero) discriminant consumes exactly one
/// byte and yields an empty slot; one with a true (nonzero) discriminant
/// consumes exactly five bytes and yields the reference its last four hold.
pub proof fn lemma_quick_key_slot(s: Seq<u8>)
    requires
        s.len() >= 1,
    ensures
        s[0] == 0 ==> sp_quick_key(s) == Some((None::<IRef>, s.skip(1))),
        s[0] != 0 && s.len() >= 5 ==> sp_quick_key(s) == Some(
            (Some(IRef(le32_at(s, 1))), s.skip(5)),
        ),
{
    if s[0] != 0 && s.len() >= 5 {
        assert(s.skip(1).skip(4) =~= s.skip(5));
        assert(le32_at(s.skip(1), 0) == le32_at(s, 1));
    }
}

/// What reading one region entry yields: a save-local reference and its
/// 32-bit value.
pub open spec fn sp_region(s: Seq<u8>) -> Option<(Region, Seq<u8>)> {
    match sp_u32(s) {
        None => None,
        Some(p) => match sp_u32(p.1) {
            None => None,
            Some(q) => Some(((IRef(p.0), q.0), q.1)),
        },
    }
}

/// The region reader, as a value.
pub open spec fn region_fn() -> spec_fn(Seq<u8>) -> Option<(Region, Seq<u8>)> {
    |s: Seq<u8>| sp_region(s)
}

/// What reading one opaque blob yields: a 16-bit length, then that many
/// bytes, kept uninterpreted.
pub open spec fn sp_blob(s: Seq<u8>) -> Option<(Seq<u8>, Seq<u8>)> {
    match sp_u16(s) {
        None => None,
        Some(p) => sp_bytes(p.1, p.0 as int),
    }
}

/// What reading one record yields. The shared record header is a 4-byte type
/// tag and a 32-bit flag word; the per-type payload that follows is an open
/// extension seam, and the header carries no size prefix that would make
/// skipping it safe, so reading a record fails deterministically with the
/// unsupported-feature condition once the header is consumed.
pub open spec fn sp_record(s: Seq<u8>) -> Result<(RecordView, Seq<u8>), SpecParseError> {
    if s.len() < 8 {
        Err(SpecParseError::UnexpectedEOF)
    } else {
        Err(SpecParseError::UnsupportedFeature)
    }
}

/// What reading `n` consecutive records yields.
pub open spec fn sp_records(s: Seq<u8>, n: int) -> Result<
    (Seq<RecordView>, Seq<u8>),
    SpecParseError,
>
    decreases n,
{
    if n <= 0 {
        Ok((Seq::empty(), s))
    } else {
        match sp_record(s) {
            Err(e) => Err(e),
            Ok(p) => match sp_records(p.1, n - 1) {
                Err(e) => Err(e),
                Ok(q) => Ok((seq![p.0] + q.0, q.1)),
            },
        }
    }
}

/// Reading `n` records onto an accumulator: the order a loop reads them in.
pub open spec fn sp_records_acc(acc: Seq<RecordView>, s: Seq<u8>, n: int) -> Result<
    (Seq<RecordView>, Seq<u8>),
    SpecParseError,
>
    decreases n,
{
    if n <= 0 {
        Ok((acc, s))
    } else {
        match sp_record(s) {
            Err(e) => Err(e),
            Ok(p) => sp_records_acc(acc.push(p.0), p.1, n - 1),
        }
    }
}

/// Reading records onto an accumulator appends a plain reading to it.
pub proof fn lemma_records_acc(acc: Seq<RecordView>, s: Seq<u8>, n: int)
    ensures
        sp_records_acc(acc, s, n) == match sp_records(s, n) {
            Err(e) => Err::<(Seq<RecordView>, Seq<u8>), SpecParseError>(e),
            Ok(p) => Ok((acc + p.0, p.1)),
        },
    decreases n,
{
    if n <= 0 {
        assert(acc + Seq::<RecordView>::empty() =~= acc);
    } else {
        match sp_record(s) {
            Err(_) => {},
            Ok(p) => {
                lemma_records_acc(acc.push(p.0), p.1, n - 1);
                match sp_records(p.1, n - 1) {
                    Err(_) => {},
                    Ok(q) => {
                        assert(acc.push(p.0) + q.0 =~= acc + (seq![p.0] + q.0));
                    },
                }
            },
        }
    }
}

/// Decode one quick-key slot.
pub fn parse_quick_key<'a>(sc: &mut Scanner<'a>) -> (r: ParseResult<Option<IRef>>)
    requires
        old(sc).wf(),
    ensures
        final(sc).wf(),
        match sp_quick_key(old(sc).remaining()) {
            Some(p) => r matches Ok(v) && v == p.0 && final(sc).remaining() == p.1,
            None => r == Err::<Option<IRef>, ParseError>(ParseError::UnexpectedEOF),
        },
{
    let has_binding = sc.bool()?;
    if has_binding {
        let key = sc.iref()?;
        Ok(Some(key))
    } else {
        Ok(None)
    }
}

/// Decode one opaque blob: a 16-bit length, then that many bytes.
fn parse_blob<'a>(sc: &mut Scanner<'a>) -> (r: ParseResult<Vec<u8>>)
    requires
        old(sc).wf(),
    ensures
        final(sc).wf(),
        match sp_blob(old(sc).remaining()) {
            Some(p) => r matches Ok(v) && v@ == p.0 && final(sc).remaining() == p.1,
            None => r == Err::<Vec<u8>, ParseError>(ParseError::UnexpectedEOF),
        },
{
    let len = sc.u16()?;
    let data = sc.read_bytes(len as usize)?;
    Ok(data)
}

/// Decode `count` global variables.
#[verifier::loop_isolation(false)]
fn parse_global_vars<'a>(sc: &mut Scanner<'a>, count: u16) -> (r: ParseResult<
    Vec<(IRef, FloatBits)>,
>)
    requires
        old(sc).wf(),
    ensures
        final(sc).wf(),
        match sp_many(old(sc).remaining(), count as int, global_var_fn()) {
            Some(p) => r matches Ok(v) && v@ == p.0 && final(sc).remaining() == p.1,
            None => r == Err::<Vec<(IRef, FloatBits)>, ParseError>(ParseError::UnexpectedEOF),
        },
{
    let ghost rest0 = old(sc).remaining();
    let mut items: Vec<(IRef, FloatBits)> = Vec::new();
    let mut i: u16 = 0;
    while i < count
        invariant
            sc.wf(),
            i <= count,
            sp_many_acc(items@, sc.remaining(), count as int - i as int, global_var_fn())
                == sp_many_acc(Seq::empty(), rest0, count as int, global_var_fn()),
        decreases count as int - i as int,
    {
        let ghost cur0 = sc.remaining();
        let ghost acc0 = items@;
        proof {
            lemma_many_acc(Seq::empty(), rest0, count as int, global_var_fn());
            assert(global_var_fn()(cur0) == sp_global_var(cur0));
        }
        let actor = sc.iref()?;
        let value = sc.float32()?;
        items.push((actor, value));
        i = i + 1;
        proof {
            assert(items@ =~= acc0.push((actor, value)));
        }
    }
    proof {
        lemma_many_acc(Seq::empty(), rest0, count as int, global_var_fn());
        match sp_many(rest0, count as int, global_var_fn()) {
            Some(p) => {
                assert(Seq::<(IRef, FloatBits)>::empty() + p.0 =~= p.0);
            },
            None => {},
        }
    }
    Ok(items)
}

/// Decode `count` death-count entries.
#[verifier::loop_isolation(false)]
fn parse_death_counts<'a>(sc: &mut Scanner<'a>, count: u32) -> (r: ParseResult<Vec<DeathCount>>)
    requires
        old(sc).wf(),
    ensures
        final(sc).wf(),
        match sp_many(old(sc).remaining(), count as int, death_count_fn()) {
            Some(p) => r matches Ok(v) && v@ == p.0 && final(sc).remaining() == p.1,
            None => r == Err::<Vec<DeathCount>, ParseError>(ParseError::UnexpectedEOF),
        },
{
    let ghost rest0 = old(sc).remaining();
    let mut items: Vec<DeathCount> = Vec::new();
    let mut i: u32 = 0;
    while i < count
        invariant
            sc.wf(),
            i <= count,
            sp_many_acc(items@, sc.remaining(), count as int - i as int, death_count_fn())
                == sp_many_acc(Seq::empty(), rest0, count as int, death_count_fn()),
        decreases count as int - i as int,
    {
        let ghost cur0 = sc.remaining();
        let ghost acc0 = items@;
        proof {
            lemma_many_acc(Seq::empty(), rest0, count as int, death_count_fn());
            assert(death_count_fn()(cur0) == sp_death_count(cur0));
        }
        let actor = sc.iref()?;
        let total = sc.u16()?;
        items.push(DeathCount { actor, total });
        i = i + 1;
        proof {
            assert(items@ =~= acc0.push(DeathCount { actor, total }));
        }
    }
    proof {
        lemma_many_acc(Seq::empty(), rest0, count as int, death_count_fn());
        match sp_many(rest0, count as int, death_count_fn()) {
            Some(p) => {
                assert(Seq::<DeathCount>::empty() + p.0 =~= p.0);
            },
            None => {},
        }
    }
    Ok(items)
}

/// Decode `count` created-item records.
#[verifier::loop_isolation(false)]
fn parse_records<'a>(sc: &mut Scanner<'a>, count: u32) -> (r: ParseResult<Vec<Record>>)
    requires
        old(sc).wf(),
    ensures
        final(sc).wf(),
        match sp_records(old(sc).remaining(), count as int) {
            Ok(p) => r matches Ok(v) && records_view(v@) == p.0 && final(sc).remaining() == p.1,
            Err(e) => r matches Err(pe) && pe@ == e,
        },
{
    let ghost rest0 = old(sc).remaining();
    let mut items: Vec<Record> = Vec::new();
    proof {
        assert(records_view(items@) =~= Seq::<RecordView>::empty());
    }
    let mut i: u32 = 0;
    while i < count
        invariant
            sc.wf(),
            i <= count,
            sp_records_acc(records_view(items@), sc.remaining(), count as int - i as int)
                == sp_records_acc(Seq::empty(), rest0, count as int),
        decreases count as int - i as int,
    {
        let ghost acc0 = records_view(items@);
        proof {
            lemma_records_acc(Seq::empty(), rest0, count as int);
        }
        let rec = crate::parse_record(sc)?;
        items.push(rec);
        i = i + 1;
        proof {
            assert(records_view(items@) =~= acc0.push(rec@));
        }
    }
    proof {
        lemma_records_acc(Seq::empty(), rest0, count as int);
        match sp_records(rest0, count as int) {
            Ok(p) => {
                assert(Seq::<RecordView>::empty() + p.0 =~= p.0);
            },
            Err(_) => {},
        }
    }
    Ok(items)
}

/// Decode `count` quick-key slots.
#[verifier::loop_isolation(false)]
fn parse_quick_keys<'a>(sc: &mut Scanner<'a>, count: u16) -> (r: ParseResult<Vec<Option<IRef>>>)
    requires
        old(sc).wf(),
    ensures
        final(sc).wf(),
        match sp_many(old(sc).remaining(), count as int, quick_key_fn()) {
            Some(p) => r matches Ok(v) && v@ == p.0 && final(sc).remaining() == p.1,
            None => r == Err::<Vec<Option<IRef>>, ParseError>(ParseError::UnexpectedEOF),
        },
{
    let ghost rest0 = old(sc).remaining();
    let mut items: Vec<Option<IRef>> = Vec::new();
    let mut i: u16 = 0;
    while i < count
        invariant
            sc.wf(),
            i <= count,
            sp_many_acc(items@, sc.remaining(), count as int - i as int, quick_key_fn())
                == sp_many_acc(Seq::empty(), rest0, count as int, quick_key_fn()),
        decreases count as int - i as int,
    {
        let ghost cur0 = sc.remaining();
        let ghost acc0 = items@;
        proof {
            lemma_many_acc(Seq::empty(), rest0, count as int, quick_key_fn());
            assert(quick_key_fn()(cur0) == sp_quick_key(cur0));
        }
        let slot = parse_quick_key(sc)?;
        items.push(slot);
        i = i + 1;
        proof {
            assert(items@ =~= acc0.push(slot));
        }
    }
    proof {
        lemma_many_acc(Seq::empty(), rest0, count as int, quick_key_fn());
        match sp_many(rest0, count as int, quick_key_fn()) {
            Some(p) => {
                assert(Seq::<Option<IRef>>::empty() + p.0 =~= p.0);
            },
            None => {},
        }
    }
    Ok(items)
}

/// Decode `count` region entries.
#[verifier::loop_isolation(false)]
fn parse_regions<'a>(sc: &mut Scanner<'a>, count: u16) -> (r: ParseResult<Vec<Region>>)
    requires
        old(sc).wf(),
    ensures
        final(sc).wf(),
        match sp_many(old(sc).remaining(), count as int, region_fn()) {
            Some(p) => r matches Ok(v) && v@ == p.0 && final(sc).remaining() == p.1,
            None => r == Err::<Vec<Region>, ParseError>(ParseError::UnexpectedEOF),
        },
{
    let ghost rest0 = old(sc).remaining();
    let mut items: Vec<Region> = Vec::new();
    let mut i: u16 = 0;
    while i < count
        invariant
            sc.wf(),
            i <= count,
            sp_many_acc(items@, sc.remaining(), count as int - i as int, region_fn())
                == sp_many_acc(Seq::empty(), rest0, count as int, region_fn()),
        decreases count as int - i as int,
    {
        let ghost cur0 = sc.remaining();
        let ghost acc0 = items@;
        proof {
            lemma_many_acc(Seq::empty(), rest0, count as int, region_fn());
            assert(region_fn()(cur0) == sp_region(cur0));
        }
        let actor = sc.iref()?;
        let value = sc.u32()?;
        items.push((actor, value));
        i = i + 1;
        proof {
            assert(items@ =~= acc0.push((actor, value)));
        }
    }
    proof {
        lemma_many_acc(Seq::empty(), rest0, count as int, region_fn());
        match sp_many(rest0, count as int, region_fn()) {
            Some(p) => {
                assert(Seq::<Region>::empty() + p.0 =~= p.0);
            },
            None => {},
        }
    }
    Ok(items)
}

/// What reading the save header yields, in storage order: the duplicated
/// header version, a declared header size that is read and discarded, the
/// save number, the player name and level, the current cell name, the
/// elapsed in-game days word, the elapsed tick count, the wall-clock save
/// time, and the embedded screenshot.
pub open spec fn sp_save_header(s: Seq<u8>) -> Option<(SaveGameHeaderView, Seq<u8>)> {
    match sp_u32(s) {
        None => None,
        Some(p_hv) => match sp_u32(p_hv.1) {
            None => None,
            Some(p_sz) => match sp_u32(p_sz.1) {
                None => None,
                Some(p_sn) => match crate::scanner::sp_bzstring(p_sn.1) {
                    None => None,
                    Some(p_name) => match sp_u16(p_name.1) {
                        None => None,
                        Some(p_level) => match crate::scanner::sp_bzstring(p_level.1) {
                            None => None,
                            Some(p_cell) => match sp_float32(p_cell.1) {
                                None => None,
                                Some(p_days) => match sp_u32(p_days.1) {
                                    None => None,
                                    Some(p_ticks) => match sp_systime(p_ticks.1) {
                                        None => None,
                                        Some(p_time) => match sp_screenshot(p_time.1) {
                                            None => None,
                                            Some(p_shot) => Some(
                                                (
                                                    SaveGameHeaderView {
                                                        header_version: p_hv.0,
                                                        save_number: p_sn.0,
                                                        name: p_name.0,
                                                        level: p_level.0,
                                                        cell: p_cell.0,
                                                        game_days: p_days.0,
                                                        game_ticks: p_ticks.0,
                                                        game_time: p_time.0,
                                                        screenshot: p_shot.0,
                                                    },
                                                    p_shot.1,
                                                ),
                                            ),
                                        },
                                    },
                                },
                            },
                        },
                    },
                },
            },
        },
    }
}

/// Decode the save header.
pub fn parse_save_header<'a>(sc: &mut Scanner<'a>) -> (r: ParseResult<SaveGameHeader>)
    requires
        old(sc).wf(),
    ensures
        final(sc).wf(),
        match sp_save_header(old(sc).remaining()) {
            Some(p) => r matches Ok(v) && v@ == p.0 && final(sc).remaining() == p.1,
            None => r == Err::<SaveGameHeader, ParseError>(ParseError::UnexpectedEOF),
        },
{
    let header_version = sc.u32()?;
    let _header_size = sc.u32()?;
    let save_number = sc.u32()?;
    let name = sc.bzstring()?;
    let level = sc.u16()?;
    let cell = sc.bzstring()?;
    let game_days = sc.float32()?;
    let game_ticks = sc.u32()?;
    let game_time = sc.systime()?;
    let screenshot = parse_screenshot(sc)?;
    let sh = SaveGameHeader {
        header_version,
        save_number,
        name,
        level,
        cell,
        game_days,
        game_ticks,
        game_time,
        screenshot,
    };
    proof {
        match sp_save_header(old(sc).remaining()) {
            Some(p) => {
                assert(sh@ =~= p.0);
            },
            None => {},
        }
    }
    Ok(sh)
}

/// What reading the globals section yields, in storage order: a form-id
/// table offset that is read and discarded; a word the format mislabels as a
/// record length, also discarded; the next-object and world identifiers; the
/// world grid coordinates; the player location; the global-variable list; a
/// discarded 16-bit word and the death-count list; the elapsed game-mode
/// seconds word; the three opaque blobs for processes, spectator events and
/// weather; the combat-actor count; the created-item records; the quick-key
/// slots; the two opaque blobs for the reticule and the interface; and a
/// discarded 16-bit word followed by the region list.
pub open spec fn sp_global_section(s: Seq<u8>) -> Result<
    (GlobalSectionView, Seq<u8>),
    SpecParseError,
> {
    match sp_u32(s) {
        None => Err(SpecParseError::UnexpectedEOF),
        Some(p_off) => match sp_u32(p_off.1) {
            None => Err(SpecParseError::UnexpectedEOF),
            Some(p_rl) => match sp_u32(p_rl.1) {
                None => Err(SpecParseError::UnexpectedEOF),
                Some(p_next) => match sp_u32(p_next.1) {
                    None => Err(SpecParseError::UnexpectedEOF),
                    Some(p_world) => match sp_u32(p_world.1) {
                        None => Err(SpecParseError::UnexpectedEOF),
                        Some(p_wx) => match sp_u32(p_wx.1) {
                            None => Err(SpecParseError::UnexpectedEOF),
                            Some(p_wy) => match sp_u32(p_wy.1) {
                                None => Err(SpecParseError::UnexpectedEOF),
                                Some(p_pcell) => match sp_float32(p_pcell.1) {
                                    None => Err(SpecParseError::UnexpectedEOF),
                                    Some(p_px) => match sp_float32(p_px.1) {
                                        None => Err(SpecParseError::UnexpectedEOF),
                                        Some(p_py) => match sp_float32(p_py.1) {
                                            None => Err(SpecParseError::UnexpectedEOF),
                                            Some(p_pz) => sp_global_section_lists(
                                                p_pz.1,
                                                GlobalSectionPrefix {
                                                    next_object_id: FormID(p_next.0),
                                                    world_id: FormID(p_world.0),
                                                    world_x: p_wx.0,
                                                    world_y: p_wy.0,
                                                    player_location: PlayerLocation {
                                                        cell: FormID(p_pcell.0),
                                                        x: p_px.0,
                                                        y: p_py.0,
                                                        z: p_pz.0,
                                                    },
                                                },
                                            ),
                                        },
                                    },
                                },
                            },
                        },
                    },
                },
            },
        },
    }
}

/// The fixed-width fields that open the globals section.
pub struct GlobalSectionPrefix {
    pub next_object_id: FormID,
    pub world_id: FormID,
    pub world_x: u32,
    pub world_y: u32,
    pub player_location: PlayerLocation,
}

/// What reading the variable-length tail of the globals section yields,
/// assembled onto its fixed-width prefix.
pub open spec fn sp_global_section_lists(s: Seq<u8>, prefix: GlobalSectionPrefix) -> Result<
    (GlobalSectionView, Seq<u8>),
    SpecParseError,
> {
    match sp_u16(s) {
        None => Err(SpecParseError::UnexpectedEOF),
        Some(p_ng) => match sp_many(p_ng.1, p_ng.0 as int, global_var_fn()) {
            None => Err(SpecParseError::UnexpectedEOF),
            Some(p_globals) => match sp_u16(p_globals.1) {
                None => Err(SpecParseError::UnexpectedEOF),
                Some(p_pad) => match sp_u32(p_pad.1) {
                    None => Err(SpecParseError::UnexpectedEOF),
                    Some(p_nd) => match sp_many(p_nd.1, p_nd.0 as int, death_count_fn()) {
                        None => Err(SpecParseError::UnexpectedEOF),
                        Some(p_deaths) => match sp_float32(p_deaths.1) {
                            None => Err(SpecParseError::UnexpectedEOF),
                            Some(p_gms) => match sp_blob(p_gms.1) {
                                None => Err(SpecParseError::UnexpectedEOF),
                                Some(p_proc) => match sp_blob(p_proc.1) {
                                    None => Err(SpecParseError::UnexpectedEOF),
                                    Some(p_spec) => match sp_blob(p_spec.1) {
                                        None => Err(SpecParseError::UnexpectedEOF),
                                        Some(p_weather) => match sp_u32(p_weather.1) {
                                            None => Err(SpecParseError::UnexpectedEOF),
                                            Some(p_combat) => match sp_u32(p_combat.1) {
                                                None => Err(SpecParseError::UnexpectedEOF),
                                                Some(p_nr) => match sp_records(
                                                    p_nr.1,
                                                    p_nr.0 as int,
                                                ) {
                                                    Err(e) => Err(e),
                                                    Ok(p_records) => sp_global_section_close(
                                                        p_records.1,
                                                        prefix,
                                                        p_globals.0,
                                                        p_deaths.0,
                                                        p_gms.0,
                                                        p_proc.0,
                                                        p_spec.0,
                                                        p_weather.0,
                                                        p_combat.0,
                                                        p_records.0,
                                                    ),
                                                },
                                            },
                                        },
                                    },
                                },
                            },
                        },
                    },
                },
            },
        },
    }
}

/// What reading the closing fields of the globals section yields: the
/// quick-key slots, the reticule and interface blobs, and a discarded 16-bit
/// word followed by the region list.
pub open spec fn sp_global_section_close(
    s: Seq<u8>,
    prefix: GlobalSectionPrefix,
    globals: Seq<(IRef, FloatBits)>,
    death_counts: Seq<DeathCount>,
    game_mode_seconds: FloatBits,
    processes: Seq<u8>,
    spectator_events: Seq<u8>,
    weather: Seq<u8>,
    player_combat_count: u32,
    created_items: Seq<RecordView>,
) -> Result<(GlobalSectionView, Seq<u8>), SpecParseError> {
    match sp_u16(s) {
        None => Err(SpecParseError::UnexpectedEOF),
        Some(p_nq) => match sp_many(p_nq.1, p_nq.0 as int, quick_key_fn()) {
            None => Err(SpecParseError::UnexpectedEOF),
            Some(p_quick) => match sp_blob(p_quick.1) {
                None => Err(SpecParseError::UnexpectedEOF),
                Some(p_ret) => match sp_blob(p_ret.1) {
                    None => Err(SpecParseError::UnexpectedEOF),
                    Some(p_iface) => match sp_u16(p_iface.1) {
                        None => Err(SpecParseError::UnexpectedEOF),
                        Some(p_pad2) => match sp_u16(p_pad2.1) {
                            None => Err(SpecParseError::UnexpectedEOF),
                            Some(p_nreg) => match sp_many(p_nreg.1, p_nreg.0 as int, region_fn()) {
                                None => Err(SpecParseError::UnexpectedEOF),
                                Some(p_regions) => Ok(
                                    (
                                        GlobalSectionView {
                                            next_object_id: prefix.next_object_id,
                                            world_id: prefix.world_id,
                                            world_x: prefix.world_x,
                                            world_y: prefix.world_y,
                                            player_location: prefix.player_location,
                                            globals,
                                            death_counts,
                                            game_mode_seconds,
                                            processes,
                                            spectator_events,
                                            weather,
                                            player_combat_count,
                                            created_items,
                                            quick_keys: p_quick.0,
                                            reticule: p_ret.0,
                                            interface: p_iface.0,
                                            regions: p_regions.0,
                                        },
                                        p_regions.1,
                                    ),
                                ),
                            },
                        },
                    },
                },
            },
        },
    }
}

/// Decode the globals section.
#[verifier::rlimit(60)]
pub fn parse_global_section<'a>(sc: &mut Scanner<'a>) -> (r: ParseResult<GlobalSection>)
    requires
        old(sc).wf(),
    ensures
        final(sc).wf(),
        match sp_global_section(old(sc).remaining()) {
            Ok(p) => r matches Ok(v) && v@ == p.0 && final(sc).remaining() == p.1,
            Err(e) => r matches Err(pe) && pe@ == e,
        },
{
    let _form_ids_offset = sc.u32()?;
    let _mislabeled_length = sc.form_id()?;
    let next_object_id = sc.form_id()?;
    let world_id = sc.form_id()?;
    let world_x = sc.u32()?;
    let world_y = sc.u32()?;
    let player_cell = sc.form_id()?;
    let player_x = sc.float32()?;
    let player_y = sc.float32()?;
    let player_z = sc.float32()?;
    let n_globals = sc.u16()?;
    let globals = parse_global_vars(sc, n_globals)?;
    let _pad = sc.u16()?;
    let n_deaths = sc.u32()?;
    let death_counts = parse_death_counts(sc, n_deaths)?;
    let game_mode_seconds = sc.float32()?;
    let processes = parse_blob(sc)?;
    let spectator_events = parse_blob(sc)?;
    let weather = parse_blob(sc)?;
    let player_combat_count = sc.u32()?;
    let n_records = sc.u32()?;
    let created_items = parse_records(sc, n_records)?;
    let n_quick_keys = sc.u16()?;
    let quick_keys = parse_quick_keys(sc, n_quick_keys)?;
    let reticule = parse_blob(sc)?;
    let interface = parse_blob(sc)?;
    let _pad2 = sc.u16()?;
    let n_regions = sc.u16()?;
    let regions = parse_regions(sc, n_regions)?;
    let section = GlobalSection {
        next_object_id,
        world_id,
        world_x,
        world_y,
        player_location: PlayerLocation { cell: player_cell, x: player_x, y: player_y, z: player_z },
        globals,
        death_counts,
        game_mode_seconds,
        processes,
        spectator_events,
        weather,
        player_combat_count,
        created_items,
        quick_keys,
        reticule,
        interface,
        regions,
    };
    proof {
        match sp_global_section(old(sc).remaining()) {
            Ok(p) => {
                assert(section@ =~= p.0);
            },
            Err(_) => {},
        }
    }
    Ok(section)
}

} // verus!
