//! Colours of the clearance and interference zones.

use vstd::prelude::*;

verus! {

/// Fit zone colours for the clearance and interference display, as RGBA.
#[derive(Clone, Copy, Debug)]
pub struct FitZoneColors {
    pub clearance: [u8; 4],
    pub interference: [u8; 4],
}

impl FitZoneColors {
    pub fn light() -> (r: Self)
        ensures
            r.clearance@ == seq![0u8, 80, 220, 120],
            r.interference@ == seq![220u8, 20, 20, 120],
    {
        Self {
            clearance: [0, 80, 220, 120],  // saturated blue with alpha
            interference: [220, 20, 20, 120],  // saturated red with alpha
        }
    }

    pub fn dark() -> (r: Self)
        ensures
            r.clearance@ == seq![40u8, 120, 255, 120],
            r.interference@ == seq![255u8, 40, 40, 120],
    {
        Self {
            clearance: [40, 120, 255, 120],  // bright blue for dark mode
            interference: [255, 40, 40, 120],  // bright red for dark mode
        }
    }

    pub fn from_dark_mode(dark_mode: bool) -> (r: Self)
        ensures
            dark_mode ==> r.clearance@ == seq![40u8, 120, 255, 120] && r.interference@ == seq![
                255u8,
                40,
                40,
                120,
            ],
            !dark_mode ==> r.clearance@ == seq![0u8, 80, 220, 120] && r.interference@ == seq![
                220u8,
                20,
                20,
                120,
            ],
    {
        if dark_mode {
            Self::dark()
        } else {
            Self::light()
        }
    }

}

} // verus!
