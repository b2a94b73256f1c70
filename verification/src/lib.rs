pub mod bytes;
pub mod error;
pub mod model;
pub mod scanner;
pub mod sections;

pub use bytes::BytesLE;
pub use error::ParseError;
pub use error::ParseResult;
pub use error::SpecParseError;
pub use model::DeathCount;
pub use model::EssView;
pub use model::FloatBits;
pub use model::FileHeader;
pub use model::FileHeaderView;
pub use model::FormID;
pub use model::GlobalSection;
pub use model::GlobalSectionView;
pub use model::IRef;
pub use model::PlayerLocation;
pub use model::Record;
pub use model::RecordFlag;
pub use model::RecordView;
pub use model::Region;
pub use model::SaveGameHeader;
pub use model::SaveGameHeaderView;
pub use model::Screenshot;
pub use model::ScreenshotView;
pub use model::SysTime;
pub use model::RGB;
pub use model::ESS;
pub use model::flags_of;

pub use scanner::Scanner;

use sections::sp_record;
use vstd::prelude::*;

verus! {

/// What decoding a whole save yields: the file header, the save header, the
/// plugin list and the globals section, in that order, assembled into the
/// root value only when every section decodes; the first failure is the
/// result.
pub open spec fn sp_parse_ess(s: Seq<u8>) -> Result<EssView, SpecParseError> {
    match sections::sp_file_header(s) {
        Err(e) => Err(e),
        Ok(p_fh) => match sections::sp_save_header(p_fh.1) {
            None => Err(SpecParseError::UnexpectedEOF),
            Some(p_sh) => match sections::sp_plugins(p_sh.1) {
                None => Err(SpecParseError::UnexpectedEOF),
                Some(p_pl) => match sections::sp_global_section(p_pl.1) {
                    Err(e) => Err(e),
                    Ok(p_g) => Ok(
                        EssView {
                            file_header: p_fh.0,
                            save_game_header: p_sh.0,
                            plugins: p_pl.0,
                            globals: p_g.0,
                        },
                    ),
                },
            },
        },
    }
}

/// Decode a full save from an ordered byte source: the single entry point.
/// Returns either the fully populated root value or a typed failure; any
/// failure aborts the whole decode, and no partially constructed value is
/// ever observable.
#[verifier::rlimit(100)]
pub fn parse_ess(file_bytes: &[u8]) -> (r: ParseResult<ESS>)
    ensures
        match sp_parse_ess(file_bytes@) {
            Ok(v) => r matches Ok(e) && e@ == v,
            Err(e) => r matches Err(pe) && pe@ == e,
        },
{
    let mut scanner = Scanner::new(file_bytes);
    let file_header = sections::parse_file_header(&mut scanner)?;
    let save_game_header = sections::parse_save_header(&mut scanner)?;
    let plugins = sections::parse_plugins(&mut scanner)?;
    let globals = sections::parse_global_section(&mut scanner)?;
    let ess = ESS { file_header, save_game_header, plugins, globals };
    proof {
        match sp_parse_ess(file_bytes@) {
            Ok(v) => {
                assert(ess@ =~= v);
            },
            Err(_) => {},
        }
    }
    Ok(ess)
}

/// An input shorter than the twelve identifier bytes fails with the
/// missing-header condition, never another one.
pub proof fn lemma_short_input_missing_header(s: Seq<u8>)
    requires
        s.len() < 12,
    ensures
        sp_parse_ess(s) == Err::<EssView, SpecParseError>(SpecParseError::NoHeader),
{
}

/// Twelve leading bytes that are neither the magic nor the console-container
/// marker fail with the bad-identifier condition, carrying exactly those
/// twelve bytes.
pub proof fn lemma_bad_identifier(s: Seq<u8>)
    requires
        s.len() >= 12,
        !sections::is_magic_id(s),
        !sections::is_console_marker(s),
    ensures
        sp_parse_ess(s) == Err::<EssView, SpecParseError>(
            SpecParseError::BadFileID(s.subrange(0, 12)),
        ),
{
}

/// Leading bytes that match the console-container marker fail with the
/// foreign-container condition, whatever the remaining bytes hold.
pub proof fn lemma_foreign_container(s: Seq<u8>)
    requires
        s.len() >= 12,
        sections::is_console_marker(s),
    ensures
        sp_parse_ess(s) == Err::<EssView, SpecParseError>(SpecParseError::XboxContainer),
{
}

/// Decode one record: its 4-byte type tag and 32-bit flag word, then refuse
/// the per-type payload. The shared record header carries no size prefix, so
/// skipping an unknown payload would desynchronize the cursor; this open
/// extension seam fails deterministically with the unsupported-feature
/// condition instead.
pub fn parse_record<'a>(scanner: &mut Scanner<'a>) -> (r: ParseResult<Record>)
    requires
        old(scanner).wf(),
    ensures
        final(scanner).wf(),
        match sp_record(old(scanner).remaining()) {
            Ok(p) => r matches Ok(v) && v@ == p.0 && final(scanner).remaining() == p.1,
            Err(e) => r matches Err(pe) && pe@ == e,
        },
{
    let kind_bytes = match scanner.read_bytes(4) {
        Ok(v) => v,
        Err(e) => {
            return Err(e);
        },
    };
    let word = scanner.u32()?;
    let _header = Record {
        kind: [kind_bytes[0], kind_bytes[1], kind_bytes[2], kind_bytes[3]],
        flags: RecordFlag::from_bits(word),
    };
    Err(ParseError::UnsupportedFeature)
}

} // verus!
