//! Protocol encoder and initialization sequencer for HD44780-compatible
//! character displays driven through an I2C 4-bit expander.
//!
//! The library never touches a bus. Every display operation is turned into
//! the exact ordered list of bus writes and waits it needs; the caller
//! performs them one by one and reports each outcome back to the driver.

pub mod timing;
pub mod instruction;
pub mod address;
pub mod frame;
pub mod settings;
pub mod sequence;
pub mod lcd;

pub use address::Geometry;
pub use frame::{BusOp, Link, Register};
pub use instruction::{Backlight, BitMode, Commands, CursorMoveDir, DisplayControl, DisplayShift, Font, Mode};
pub use sequence::{InitStage, Transfer};
pub use settings::Settings;
pub use lcd::{Lcd, LcdState, Outcome, Phase};
pub use timing::TimingProfile;
