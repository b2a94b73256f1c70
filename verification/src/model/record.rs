use vstd::prelude::*;

verus! {

/// The named booleans packed into a record's 32-bit flag word. Reserved bits
/// are dropped on decoding and never exposed.
#[derive(Debug, Clone, Copy, PartialEq, Eq, Structural)]
pub struct RecordFlag {
    pub esm_file: bool,
    pub deleted: bool,
    pub casts_shadows: bool,
    pub persistent_reference: bool,
    pub initially_disabled: bool,
    pub ignored: bool,
    pub visible_when_distant: bool,
    pub dangerous: bool,
    pub compressed: bool,
    pub cant_wait: bool,
}

/// The fixed low-to-high bit layout of a flag word: bit 0 `esm_file`,
/// bit 5 `deleted`, bit 9 `casts_shadows`, bit 10 `persistent_reference`,
/// bit 11 `initially_disabled`, bit 12 `ignored`, bit 15 `visible_when_distant`,
/// bit 17 `dangerous`, bit 18 `compressed`, bit 19 `cant_wait`; every other
/// bit is reserved. Decoding is total: every 32-bit word is legal.
pub open spec fn flags_of(word: u32) -> RecordFlag {
    RecordFlag {
        esm_file: word & 0x1 != 0,
        deleted: word & 0x20 != 0,
        casts_shadows: word & 0x200 != 0,
        persistent_reference: word & 0x400 != 0,
        initially_disabled: word & 0x800 != 0,
        ignored: word & 0x1000 != 0,
        visible_when_distant: word & 0x8000 != 0,
        dangerous: word & 0x20000 != 0,
        compressed: word & 0x40000 != 0,
        cant_wait: word & 0x80000 != 0,
    }
}

impl RecordFlag {
    /// Unpack a little-endian 32-bit flag word into its named bits.
    pub fn from_bits(word: u32) -> (r: RecordFlag)
        ensures
            r == flags_of(word),
    {
        RecordFlag {
            esm_file: word & 0x1 != 0,
            deleted: word & 0x20 != 0,
            casts_shadows: word & 0x200 != 0,
            persistent_reference: word & 0x400 != 0,
            initially_disabled: word & 0x800 != 0,
            ignored: word & 0x1000 != 0,
            visible_when_distant: word & 0x8000 != 0,
            dangerous: word & 0x20000 != 0,
            compressed: word & 0x40000 != 0,
            cant_wait: word & 0x80000 != 0,
        }
    }

    pub fn esm_file(&self) -> (r: bool)
        ensures
            r == self.esm_file,
    {
        self.esm_file
    }

    pub fn deleted(&self) -> (r: bool)
        ensures
            r == self.deleted,
    {
        self.deleted
    }

    pub fn casts_shadows(&self) -> (r: bool)
        ensures
            r == self.casts_shadows,
    {
        self.casts_shadows
    }

    pub fn persistent_reference(&self) -> (r: bool)
        ensures
            r == self.persistent_reference,
    {
        self.persistent_reference
    }

    pub fn initially_disabled(&self) -> (r: bool)
        ensures
            r == self.initially_disabled,
    {
        self.initially_disabled
    }

    pub fn ignored(&self) -> (r: bool)
        ensures
            r == self.ignored,
    {
        self.ignored
    }

    pub fn visible_when_distant(&self) -> (r: bool)
        ensures
            r == self.visible_when_distant,
    {
        self.visible_when_distant
    }

    pub fn dangerous(&self) -> (r: bool)
        ensures
            r == self.dangerous,
    {
        self.dangerous
    }

    pub fn compressed(&self) -> (r: bool)
        ensures
            r == self.compressed,
    {
        self.compressed
    }

    pub fn cant_wait(&self) -> (r: bool)
        ensures
            r == self.cant_wait,
    {
        self.cant_wait
    }
}

/// A type-tagged, flag-bearing unit. Its per-type payload is an open
/// extension seam, not decoded here.
#[derive(Debug, Clone, Copy)]
pub struct Record {
    pub kind: [u8; 4],
    pub flags: RecordFlag,
}

/// The mathematical shape of a [`Record`]: the type tag as a byte sequence.
#[verifier::ext_equal]
pub struct RecordView {
    pub kind: Seq<u8>,
    pub flags: RecordFlag,
}

impl View for Record {
    type V = RecordView;

    open spec fn view(&self) -> RecordView {
        RecordView { kind: self.kind@, flags: self.flags }
    }
}

/// The shapes of a sequence of records.
pub open spec fn records_view(v: Seq<Record>) -> Seq<RecordView> {
    v.map_values(|r: Record| r@)
}

} // verus!
