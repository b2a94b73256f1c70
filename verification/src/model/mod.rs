pub mod record;
pub mod screenshot;
pub mod system_time;

pub use record::flags_of;
pub use record::records_view;
pub use record::Record;
pub use record::RecordFlag;
pub use record::RecordView;
pub use screenshot::Screenshot;
pub use screenshot::ScreenshotView;
pub use screenshot::RGB;
pub use system_time::SysTime;

use vstd::prelude::*;

verus! {

/// The texts of a sequence of strings.
pub open spec fn strings_view(v: Seq<String>) -> Seq<Seq<char>> {
    v.map_values(|t: String| t@)
}

/// A persistent object identifier, resolved against external content.
/// Distinct from [`IRef`]; the two are never interchangeable. Ordering is
/// derived only for deterministic storage, not semantic comparison.
#[derive(Debug, Clone, Copy, PartialEq, Eq, PartialOrd, Ord, Structural)]
pub struct FormID(pub u32);

/// A save-local indirection index, distinct from [`FormID`]. Ordering is
/// derived only for deterministic storage.
#[derive(Debug, Clone, Copy, PartialEq, Eq, PartialOrd, Ord, Structural)]
pub struct IRef(pub u32);

/// A 32-bit floating-point field, kept as its little-endian bit pattern.
/// The decoder never interprets these values, so every pattern round-trips
/// faithfully; callers that want the number reconstruct it from the bits.
#[derive(Debug, Clone, Copy, PartialEq, Eq, Structural)]
pub struct FloatBits(pub u32);

/// The fixed file header: identifier, version pair, and the conditional
/// executable timestamp that exists only from minor version 82 on.
#[derive(Debug)]
pub struct FileHeader {
    pub file_id: String,
    /// Expected to be zero; not enforced.
    pub major_version: u8,
    /// Expected to be at most 126; not enforced. Gates `exe_time`.
    pub minor_version: u8,
    /// Present if and only if `minor_version >= 82`; absent, not zero-filled,
    /// below that.
    pub exe_time: Option<SysTime>,
}

/// The mathematical shape of a [`FileHeader`].
#[verifier::ext_equal]
pub struct FileHeaderView {
    pub file_id: Seq<char>,
    pub major_version: u8,
    pub minor_version: u8,
    pub exe_time: Option<SysTime>,
}

impl View for FileHeader {
    type V = FileHeaderView;

    open spec fn view(&self) -> FileHeaderView {
        FileHeaderView {
            file_id: self.file_id@,
            major_version: self.major_version,
            minor_version: self.minor_version,
            exe_time: self.exe_time,
        }
    }
}

/// The save header that follows the file header.
#[derive(Debug)]
pub struct SaveGameHeader {
    /// Should equal the file header's minor version; kept as a duplicate for
    /// historical compatibility, and checked only as a non-fatal diagnostic.
    pub header_version: u32,
    /// Save number, used in the default save filename.
    pub save_number: u32,
    /// Player name.
    pub name: String,
    /// Player level.
    pub level: u16,
    /// Player's current location.
    pub cell: String,
    /// Days that have passed in-game.
    pub game_days: FloatBits,
    /// Ticks elapsed during gameplay; equivalent to milliseconds spent in-game.
    pub game_ticks: u32,
    /// Wall-clock time at which the save was created.
    pub game_time: SysTime,
    /// Screenshot at the time of the save.
    pub screenshot: Screenshot,
}

/// The mathematical shape of a [`SaveGameHeader`].
#[verifier::ext_equal]
pub struct SaveGameHeaderView {
    pub header_version: u32,
    pub save_number: u32,
    pub name: Seq<char>,
    pub level: u16,
    pub cell: Seq<char>,
    pub game_days: FloatBits,
    pub game_ticks: u32,
    pub game_time: SysTime,
    pub screenshot: ScreenshotView,
}

impl View for SaveGameHeader {
    type V = SaveGameHeaderView;

    open spec fn view(&self) -> SaveGameHeaderView {
        SaveGameHeaderView {
            header_version: self.header_version,
            save_number: self.save_number,
            name: self.name@,
            level: self.level,
            cell: self.cell@,
            game_days: self.game_days,
            game_ticks: self.game_ticks,
            game_time: self.game_time,
            screenshot: self.screenshot@,
        }
    }
}

/// The player's position: cell identifier plus three coordinates.
#[derive(Debug, Clone, Copy, PartialEq, Eq, Structural)]
pub struct PlayerLocation {
    /// The cell the player stands in. A content identifier, not a save-local one.
    pub cell: FormID,
    pub x: FloatBits,
    pub y: FloatBits,
    pub z: FloatBits,
}

/// How many times one actor has died.
#[derive(Debug, Clone, Copy, PartialEq, Eq, Structural)]
pub struct DeathCount {
    pub actor: IRef,
    /// Number of times this actor has died.
    pub total: u16,
}

/// A region entry: a save-local reference and its value.
pub type Region = (IRef, u32);

/// The globals section that closes the save.
#[derive(Debug)]
pub struct GlobalSection {
    pub next_object_id: FormID,
    pub world_id: FormID,
    pub world_x: u32,
    pub world_y: u32,
    /// Cell location and position within the cell.
    pub player_location: PlayerLocation,
    /// Global variables: save-local reference to value. The value is stored
    /// as a float word whatever the variable's real type.
    pub globals: Vec<(IRef, FloatBits)>,
    pub death_counts: Vec<DeathCount>,
    pub game_mode_seconds: FloatBits,
    /// Opaque processes data, left uninterpreted.
    pub processes: Vec<u8>,
    /// Opaque spectator-event data, left uninterpreted.
    pub spectator_events: Vec<u8>,
    /// Opaque sky and weather data, left uninterpreted.
    pub weather: Vec<u8>,
    /// Number of actors in combat with the player.
    pub player_combat_count: u32,
    /// Items created in-game.
    pub created_items: Vec<Record>,
    /// Quick-key bindings: each slot is absent or one save-local reference.
    pub quick_keys: Vec<Option<IRef>>,
    /// Opaque reticule data, left uninterpreted.
    pub reticule: Vec<u8>,
    /// Opaque interface data, left uninterpreted.
    pub interface: Vec<u8>,
    pub regions: Vec<Region>,
}

/// The mathematical shape of a [`GlobalSection`].
#[verifier::ext_equal]
pub struct GlobalSectionView {
    pub next_object_id: FormID,
    pub world_id: FormID,
    pub world_x: u32,
    pub world_y: u32,
    pub player_location: PlayerLocation,
    pub globals: Seq<(IRef, FloatBits)>,
    pub death_counts: Seq<DeathCount>,
    pub game_mode_seconds: FloatBits,
    pub processes: Seq<u8>,
    pub spectator_events: Seq<u8>,
    pub weather: Seq<u8>,
    pub player_combat_count: u32,
    pub created_items: Seq<RecordView>,
    pub quick_keys: Seq<Option<IRef>>,
    pub reticule: Seq<u8>,
    pub interface: Seq<u8>,
    pub regions: Seq<Region>,
}

impl View for GlobalSection {
    type V = GlobalSectionView;

    open spec fn view(&self) -> GlobalSectionView {
        GlobalSectionView {
            next_object_id: self.next_object_id,
            world_id: self.world_id,
            world_x: self.world_x,
            world_y: self.world_y,
            player_location: self.player_location,
            globals: self.globals@,
            death_counts: self.death_counts@,
            game_mode_seconds: self.game_mode_seconds,
            processes: self.processes@,
            spectator_events: self.spectator_events@,
            weather: self.weather@,
            player_combat_count: self.player_combat_count,
            created_items: record::records_view(self.created_items@),
            quick_keys: self.quick_keys@,
            reticule: self.reticule@,
            interface: self.interface@,
            regions: self.regions@,
        }
    }
}

/// A fully decoded save: constructed atomically only on full success and
/// never partially exposed.
#[derive(Debug)]
pub struct ESS {
    pub file_header: FileHeader,
    pub save_game_header: SaveGameHeader,
    /// The plugin names the save depends on, in file order.
    pub plugins: Vec<String>,
    pub globals: GlobalSection,
}

/// The mathematical shape of an [`ESS`].
#[verifier::ext_equal]
pub struct EssView {
    pub file_header: FileHeaderView,
    pub save_game_header: SaveGameHeaderView,
    pub plugins: Seq<Seq<char>>,
    pub globals: GlobalSectionView,
}

impl View for ESS {
    type V = EssView;

    open spec fn view(&self) -> EssView {
        EssView {
            file_header: self.file_header@,
            save_game_header: self.save_game_header@,
            plugins: strings_view(self.plugins@),
            globals: self.globals@,
        }
    }
}

} // verus!
