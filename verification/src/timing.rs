//! Minimum waits the controller needs between protocol steps, and the two
//! ways of pulsing the enable line.

use vstd::prelude::*;

verus! {

/// Milliseconds to wait after power-up before the first command.
pub const POWER_ON_DELAY_MS: u32 = 80;

/// Milliseconds to wait after each of the first two 8-bit-mode handshake writes.
pub const HANDSHAKE_DELAY_MS: u32 = 5;

/// Microseconds the controller needs to settle after a nibble transfer.
pub const NIBBLE_SETTLE_US: u32 = 700;

/// Microseconds the legacy profile waits after a nibble transfer.
pub const LEGACY_NIBBLE_SETTLE_US: u32 = 5000;

/// Milliseconds the clear and return-home instructions take to execute.
pub const CLEAR_HOME_DELAY_MS: u32 = 2;

/// How a nibble is pulsed onto the bus. A session uses one profile
/// throughout.
#[derive(Clone, Copy, Debug, PartialEq, Eq, Structural)]
pub enum TimingProfile {
    /// Three writes per nibble (enable low, high, low) and a short settle time.
    Modern,
    /// Two writes per nibble (enable high, low) and a longer settle time.
    Legacy,
}

impl TimingProfile {
    /// The wait after each nibble transfer, in microseconds.
    pub open spec fn spec_settle_us(self) -> u32 {
        match self {
            TimingProfile::Modern => NIBBLE_SETTLE_US,
            TimingProfile::Legacy => LEGACY_NIBBLE_SETTLE_US,
        }
    }

    #[verifier::when_used_as_spec(spec_settle_us)]
    pub fn settle_us(self) -> (us: u32)
        ensures
            us == self.spec_settle_us(),
    {
        match self {
            TimingProfile::Modern => NIBBLE_SETTLE_US,
            TimingProfile::Legacy => LEGACY_NIBBLE_SETTLE_US,
        }
    }

    /// Whether the nibble is put on the bus with enable low before the strobe.
    pub open spec fn spec_asserts_before_strobe(self) -> bool {
        self == TimingProfile::Modern
    }

    #[verifier::when_used_as_spec(spec_asserts_before_strobe)]
    pub fn asserts_before_strobe(self) -> (b: bool)
        ensures
            b == self.spec_asserts_before_strobe(),
    {
        match self {
            TimingProfile::Modern => true,
            TimingProfile::Legacy => false,
        }
    }

    /// Number of bus operations in one nibble transfer, the wait included.
    pub open spec fn nibble_len(self) -> nat {
        match self {
            TimingProfile::Modern => 4,
            TimingProfile::Legacy => 3,
        }
    }

    /// Position, within a nibble transfer, of the write with enable high.
    pub open spec fn strobe_index(self) -> int {
        match self {
            TimingProfile::Modern => 1,
            TimingProfile::Legacy => 0,
        }
    }
}

} // verus!
