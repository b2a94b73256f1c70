use vstd::prelude::*;

verus! {

/// One pixel: three unsigned bytes, no alpha.
#[derive(Debug, Clone, Copy, PartialEq, Eq, Structural)]
pub struct RGB(pub u8, pub u8, pub u8);

/// The screenshot embedded in the save header: `width * height` pixels,
/// stored row after row.
#[derive(Debug)]
pub struct Screenshot {
    pub width: u32,
    pub height: u32,
    pub screen: Vec<RGB>,
}

/// The mathematical shape of a [`Screenshot`].
#[verifier::ext_equal]
pub struct ScreenshotView {
    pub width: u32,
    pub height: u32,
    pub screen: Seq<RGB>,
}

impl View for Screenshot {
    type V = ScreenshotView;

    open spec fn view(&self) -> ScreenshotView {
        ScreenshotView { width: self.width, height: self.height, screen: self.screen@ }
    }
}

impl ScreenshotView {
    /// Well-formed: the pixel buffer holds exactly `width * height` entries.
    pub open spec fn wf(&self) -> bool {
        self.screen.len() == (self.width as int) * (self.height as int)
    }

    /// The block size a well-formed file declares for a screenshot of these
    /// dimensions: the pixel bytes plus the width and height words.
    pub open spec fn declared_size(&self) -> int {
        3 * (self.width as int) * (self.height as int) + 8
    }
}

} // verus!
