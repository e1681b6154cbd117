//! The configuration a driver session carries.

use vstd::prelude::*;
use crate::address::Geometry;
use crate::frame::Link;
use crate::instruction::{Backlight, Font};
use crate::timing::TimingProfile;

verus! {

/// What the driver knows about the display and how it is set up.
#[derive(Clone, Copy, Debug, PartialEq, Eq, Structural)]
pub struct Settings {
    /// Seven-bit bus address of the expander.
    pub address: u8,
    /// Number of rows; zero selects single-line mode.
    pub rows: u8,
    /// Number of columns.
    pub columns: u8,
    pub backlight: Backlight,
    pub cursor_on: bool,
    pub cursor_blink: bool,
    pub font: Font,
    /// How nibbles are pulsed onto the bus.
    pub profile: TimingProfile,
}

impl Settings {
    /// The settings of a fresh session: backlight on, cursor off, no blink,
    /// 5x8 font, zero rows and columns, address zero, modern timing.
    pub open spec fn initial() -> Settings {
        Settings {
            address: 0,
            rows: 0,
            columns: 0,
            backlight: Backlight::On,
            cursor_on: false,
            cursor_blink: false,
            font: Font::Font5x8,
            profile: TimingProfile::Modern,
        }
    }

    /// The display's size as the address mapping takes it.
    pub open spec fn spec_geometry(self) -> Geometry {
        Geometry { rows: self.rows, columns: self.columns }
    }

    /// What every frame sent under these settings carries.
    pub open spec fn spec_link(self) -> Link {
        Link { address: self.address, backlight: self.backlight, profile: self.profile }
    }

    #[verifier::when_used_as_spec(spec_link)]
    pub fn link(self) -> (l: Link)
        ensures
            l == self.spec_link(),
    {
        Link { address: self.address, backlight: self.backlight, profile: self.profile }
    }

    #[verifier::when_used_as_spec(spec_geometry)]
    pub fn geometry(self) -> (g: Geometry)
        ensures
            g == self.spec_geometry(),
    {
        Geometry { rows: self.rows, columns: self.columns }
    }
}

impl Default for Settings {
    fn default() -> (s: Settings)
        ensures
            s == Settings::initial(),
    {
        Settings {
            address: 0,
            rows: 0,
            columns: 0,
            backlight: Backlight::On,
            cursor_on: false,
            cursor_blink: false,
            font: Font::Font5x8,
            profile: TimingProfile::Modern,
        }
    }
}

} // verus!
