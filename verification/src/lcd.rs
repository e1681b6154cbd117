//! The driver session: its settings, the operation in progress, and the
//! step-by-step hand-over of bus operations to the caller.

use vstd::prelude::*;
use crate::address::Geometry;
use crate::frame::{byte_transfer, lemma_byte_transfer_reassembles, reassemble, BusOp, Register};
use crate::instruction::{
    display_control, display_control_spec, function_set, function_set_spec, Backlight, BitMode,
    Commands, Font,
};
use crate::sequence::{
    backlight_ops, clear_ops, command_ops, command_sequence, display_control_ops,
    function_set_ops, init_len, init_ops, init_sequence, init_stage_at, lemma_init_ops_unfold,
    return_home_ops, set_cursor_ops, set_cursor_sequence, slow_command_sequence, stage_at,
    text_ops, text_sequence, InitStage,
};
use crate::settings::Settings;
use crate::timing::{TimingProfile, CLEAR_HOME_DELAY_MS};

verus! {

/// Where a session stands.
#[derive(Clone, Copy, Debug, PartialEq, Eq, Structural)]
pub enum Phase {
    /// Configured, never initialized.
    Created,
    /// The initialization sequence is being performed.
    Initializing,
    /// Initialized and idle: display operations may be started.
    Ready,
    /// A display operation is being performed.
    Executing,
    /// A bus operation failed. The controller's state is unknown until the
    /// session is initialized again.
    Failed,
}

/// How a bus operation handed to the caller ended.
#[derive(Clone, Copy, Debug, PartialEq, Eq, Structural)]
pub enum Outcome {
    /// The write or the wait was carried out.
    Completed,
    /// The bus reported an error.
    BusError,
}

/// The mathematical model of a session.
pub ghost struct LcdState {
    pub settings: Settings,
    pub phase: Phase,
    /// The bus operations of the sequence last started.
    pub queue: Seq<BusOp>,
    /// How many of them have been carried out.
    pub done: nat,
}

impl LcdState {
    /// A fresh session.
    pub open spec fn initial() -> LcdState {
        LcdState { settings: Settings::initial(), phase: Phase::Created, queue: Seq::empty(), done: 0 }
    }

    /// What holds of every session: a session that is initializing or
    /// executing has an operation left to hand out, a ready one has none,
    /// and one never initialized has started no sequence.
    pub open spec fn wf(self) -> bool {
        &&& self.done <= self.queue.len()
        &&& (self.phase == Phase::Initializing || self.phase == Phase::Executing) ==> self.done
            < self.queue.len()
        &&& self.phase == Phase::Ready ==> self.done == self.queue.len()
        &&& self.phase == Phase::Created ==> self.queue.len() == 0
    }

    /// The same session with other settings.
    pub open spec fn configured(self, settings: Settings) -> LcdState {
        LcdState { settings, ..self }
    }

    /// Whether a bus operation is waiting to be carried out.
    pub open spec fn is_busy(self) -> bool {
        (self.phase == Phase::Initializing || self.phase == Phase::Executing) && self.done
            < self.queue.len()
    }

    /// The bus operation to carry out next, if any.
    pub open spec fn next(self) -> Option<BusOp> {
        if self.is_busy() {
            Some(self.queue[self.done as int])
        } else {
            None
        }
    }

    /// The stage of initialization that the operation to carry out next
    /// belongs to, while the session is initializing.
    pub open spec fn init_stage(self) -> Option<InitStage> {
        if self.phase == Phase::Initializing && self.done < self.queue.len() {
            Some(stage_at(self.settings.profile, self.done))
        } else {
            None
        }
    }

    /// The session once initialization has been started.
    pub open spec fn begin_init(self) -> LcdState {
        LcdState {
            settings: self.settings,
            phase: Phase::Initializing,
            queue: init_ops(self.settings),
            done: 0,
        }
    }

    /// The session once a display operation with the given bus operations
    /// has been started.
    pub open spec fn begin(self, ops: Seq<BusOp>) -> LcdState {
        LcdState {
            settings: self.settings,
            phase: if ops.len() == 0 {
                Phase::Ready
            } else {
                Phase::Executing
            },
            queue: ops,
            done: 0,
        }
    }

    /// The session once the caller has reported how the operation handed out
    /// last ended. A completed operation moves on to the next, and the last
    /// one makes the session ready; an error ends the sequence and leaves the
    /// session failed. A report with nothing handed out changes nothing.
    pub open spec fn after(self, outcome: Outcome) -> LcdState {
        if !self.is_busy() {
            self
        } else {
            match outcome {
                Outcome::Completed => LcdState {
                    done: self.done + 1,
                    phase: if self.done + 1 == self.queue.len() {
                        Phase::Ready
                    } else {
                        self.phase
                    },
                    ..self
                },
                Outcome::BusError => LcdState { phase: Phase::Failed, ..self },
            }
        }
    }

    /// The session after `n` operations in a row have completed.
    pub open spec fn completed(self, n: nat) -> LcdState
        decreases n,
    {
        if n == 0 {
            self
        } else {
            self.completed((n - 1) as nat).after(Outcome::Completed)
        }
    }
}

/// A driver session.
#[derive(Debug)]
pub struct Lcd {
    settings: Settings,
    phase: Phase,
    queue: Vec<BusOp>,
    done: usize,
}

impl View for Lcd {
    type V = LcdState;

    closed spec fn view(&self) -> LcdState {
        LcdState {
            settings: self.settings,
            phase: self.phase,
            queue: self.queue@,
            done: self.done as nat,
        }
    }
}

impl Lcd {
    /// Creates a session with the default settings.
    pub fn new() -> (lcd: Lcd)
        ensures
            lcd@ == LcdState::initial(),
    {
        Lcd {
            settings: Settings {
                address: 0,
                rows: 0,
                columns: 0,
                backlight: Backlight::On,
                cursor_on: false,
                cursor_blink: false,
                font: Font::Font5x8,
                profile: TimingProfile::Modern,
            },
            phase: Phase::Created,
            queue: Vec::new(),
            done: 0,
        }
    }

    /// Sets the number of rows; zero selects single-line mode.
    pub fn with_rows(self, rows: u8) -> (lcd: Lcd)
        ensures
            lcd@ == self@.configured((Settings { rows, ..self@.settings })),
    {
        let mut lcd = self;
        lcd.settings.rows = rows;
        lcd
    }

    /// Sets the number of columns.
    pub fn with_columns(self, columns: u8) -> (lcd: Lcd)
        ensures
            lcd@ == self@.configured((Settings { columns, ..self@.settings })),
    {
        let mut lcd = self;
        lcd.settings.columns = columns;
        lcd
    }

    /// Sets rows and columns at once.
    pub fn with_geometry(self, geometry: Geometry) -> (lcd: Lcd)
        ensures
            lcd@ == self@.configured(
                (Settings { rows: geometry.rows, columns: geometry.columns, ..self@.settings }),
            ),
    {
        let mut lcd = self;
        lcd.settings.rows = geometry.rows;
        lcd.settings.columns = geometry.columns;
        lcd
    }

    /// Selects how nibbles are pulsed onto the bus.
    pub fn with_timing(self, profile: TimingProfile) -> (lcd: Lcd)
        ensures
            lcd@ == self@.configured((Settings { profile, ..self@.settings })),
    {
        let mut lcd = self;
        lcd.settings.profile = profile;
        lcd
    }

    /// Sets the bus address of the expander.
    pub fn with_address(self, address: u8) -> (lcd: Lcd)
        ensures
            lcd@ == self@.configured((Settings { address, ..self@.settings })),
    {
        let mut lcd = self;
        lcd.settings.address = address;
        lcd
    }

    /// Sets whether the cursor is visible once the display is initialized.
    pub fn with_cursor_on(self, on: bool) -> (lcd: Lcd)
        ensures
            lcd@ == self@.configured((Settings { cursor_on: on, ..self@.settings })),
    {
        let mut lcd = self;
        lcd.settings.cursor_on = on;
        lcd
    }

    /// Sets whether the cursor blinks once the display is initialized.
    pub fn with_cursor_blink(self, blink: bool) -> (lcd: Lcd)
        ensures
            lcd@ == self@.configured((Settings { cursor_blink: blink, ..self@.settings })),
    {
        let mut lcd = self;
        lcd.settings.cursor_blink = blink;
        lcd
    }

    /// The current settings.
    pub fn settings(&self) -> (s: Settings)
        ensures
            s == self@.settings,
    {
        self.settings
    }

    /// The current phase.
    pub fn phase(&self) -> (p: Phase)
        ensures
            p == self@.phase,
    {
        self.phase
    }

    /// The bus operations of the sequence last started.
    pub fn sequence(&self) -> (ops: &Vec<BusOp>)
        ensures
            ops@ == self@.queue,
    {
        &self.queue
    }

    /// How many operations of that sequence have been carried out.
    pub fn performed(&self) -> (n: usize)
        ensures
            n == self@.done,
    {
        self.done
    }

    /// Whether the session is initialized and idle.
    pub fn is_ready(&self) -> (b: bool)
        ensures
            b == (self@.phase == Phase::Ready),
    {
        self.phase == Phase::Ready
    }

    /// The stage of initialization in progress, or `None` when the session
    /// is not initializing.
    pub fn init_stage(&self) -> (stage: Option<InitStage>)
        ensures
            stage == self@.init_stage(),
    {
        if self.phase == Phase::Initializing && self.done < self.queue.len() {
            Some(init_stage_at(self.settings.profile, self.done))
        } else {
            None
        }
    }

    /// Starts the initialization sequence, whatever the session was doing.
    pub fn init(self) -> (lcd: Lcd)
        ensures
            lcd@ == self@.begin_init(),
    {
        let queue = init_sequence(&self.settings);
        Lcd { settings: self.settings, phase: Phase::Initializing, queue, done: 0 }
    }

    /// The bus operation the caller has to carry out now, or `None` when
    /// nothing is in progress.
    pub fn next_action(&self) -> (action: Option<BusOp>)
        ensures
            action == self@.next(),
    {
        if (self.phase == Phase::Initializing || self.phase == Phase::Executing) && self.done
            < self.queue.len() {
            Some(self.queue[self.done])
        } else {
            None
        }
    }

    /// Takes the outcome of the operation handed out last and returns the
    /// next one to carry out, if any.
    pub fn advance(&mut self, outcome: Outcome) -> (action: Option<BusOp>)
        ensures
            final(self)@ == old(self)@.after(outcome),
            action == final(self)@.next(),
    {
        if (self.phase == Phase::Initializing || self.phase == Phase::Executing) && self.done
            < self.queue.len() {
            match outcome {
                Outcome::Completed => {
                    self.done = self.done + 1;
                    if self.done == self.queue.len() {
                        self.phase = Phase::Ready;
                    }
                },
                Outcome::BusError => {
                    self.phase = Phase::Failed;
                },
            }
        }
        self.next_action()
    }

    fn start(&mut self, ops: Vec<BusOp>)
        ensures
            final(self)@ == old(self)@.begin(ops@),
    {
        self.phase = if ops.len() == 0 { Phase::Ready } else { Phase::Executing };
        self.queue = ops;
        self.done = 0;
    }

    /// Sets the backlight and starts the single write that shows it.
    pub fn backlight(&mut self, backlight: Backlight)
        requires
            old(self)@.phase == Phase::Ready,
        ensures
            final(self)@ == old(self)@.configured((Settings { backlight, ..old(self)@.settings })).begin(
                backlight_ops((Settings { backlight, ..old(self)@.settings })),
            ),
    {
        self.settings.backlight = backlight;
        let mut ops: Vec<BusOp> = Vec::new();
        ops.push(BusOp::Write { address: self.settings.address, frame: backlight.bits() });
        assert(ops@ =~= backlight_ops(self.settings));
        self.start(ops);
    }

    /// Starts writing text at the cursor.
    pub fn write_str(&mut self, data: &str)
        requires
            old(self)@.phase == Phase::Ready,
        ensures
            final(self)@ == old(self)@.begin(text_ops(old(self)@.settings, data@)),
    {
        let ops = text_sequence(&self.settings, data);
        self.start(ops);
    }

    /// Starts clearing the display.
    pub fn clear(&mut self)
        requires
            old(self)@.phase == Phase::Ready,
        ensures
            final(self)@ == old(self)@.begin(clear_ops(old(self)@.settings)),
    {
        let ops = slow_command_sequence(&self.settings, Commands::Clear.bits());
        self.start(ops);
    }

    /// Starts returning the cursor to the upper left corner.
    pub fn return_home(&mut self)
        requires
            old(self)@.phase == Phase::Ready,
        ensures
            final(self)@ == old(self)@.begin(return_home_ops(old(self)@.settings)),
    {
        let ops = slow_command_sequence(&self.settings, Commands::ReturnHome.bits());
        self.start(ops);
    }

    /// Starts moving the cursor to a zero-based position. The offset table
    /// has four rows.
    pub fn set_cursor(&mut self, row: u8, col: u8)
        requires
            old(self)@.phase == Phase::Ready,
            row < 4,
        ensures
            final(self)@ == old(self)@.begin(set_cursor_ops(old(self)@.settings, row, col)),
    {
        let ops = set_cursor_sequence(&self.settings, row, col);
        self.start(ops);
    }

    fn update_display_control(&mut self)
        ensures
            final(self)@ == old(self)@.begin(display_control_ops(old(self)@.settings)),
    {
        let byte: u8 = display_control(self.settings.cursor_on, self.settings.cursor_blink);
        let ops = command_sequence(&self.settings, byte);
        self.start(ops);
    }

    /// Sets whether the cursor blinks and starts sending the one
    /// display-control byte that says so.
    pub fn cursor_blink(&mut self, blink: bool)
        requires
            old(self)@.phase == Phase::Ready,
        ensures
            final(self)@ == old(self)@.configured(
                (Settings { cursor_blink: blink, ..old(self)@.settings }),
            ).begin(display_control_ops((Settings { cursor_blink: blink, ..old(self)@.settings }))),
    {
        self.settings.cursor_blink = blink;
        self.update_display_control();
    }

    /// Sets whether the cursor is visible and starts sending the one
    /// display-control byte that says so.
    pub fn cursor_on(&mut self, on: bool)
        requires
            old(self)@.phase == Phase::Ready,
        ensures
            final(self)@ == old(self)@.configured((Settings { cursor_on: on, ..old(self)@.settings })).begin(
                display_control_ops((Settings { cursor_on: on, ..old(self)@.settings })),
            ),
    {
        self.settings.cursor_on = on;
        self.update_display_control();
    }

    fn update_function_set(&mut self)
        ensures
            final(self)@ == old(self)@.begin(function_set_ops(old(self)@.settings)),
    {
        let byte: u8 = function_set(BitMode::Bit4, self.settings.font, self.settings.rows > 0);
        let ops = command_sequence(&self.settings, byte);
        self.start(ops);
    }

    /// Selects the font and starts sending the one function-set byte that
    /// says so.
    pub fn font_mode(&mut self, mode: Font)
        requires
            old(self)@.phase == Phase::Ready,
        ensures
            final(self)@ == old(self)@.configured((Settings { font: mode, ..old(self)@.settings })).begin(
                function_set_ops((Settings { font: mode, ..old(self)@.settings })),
            ),
    {
        self.settings.font = mode;
        self.update_function_set();
    }

    /// Starts scrolling the display one character to the left.
    pub fn scroll_display_left(&mut self)
        requires
            old(self)@.phase == Phase::Ready,
        ensures
            final(self)@ == old(self)@.begin(
                command_ops(old(self)@.settings, Commands::ShiftDisplayLeft.spec_bits()),
            ),
    {
        let ops = command_sequence(&self.settings, Commands::ShiftDisplayLeft.bits());
        self.start(ops);
    }

    /// Starts scrolling the display one character to the right.
    pub fn scroll_display_right(&mut self)
        requires
            old(self)@.phase == Phase::Ready,
        ensures
            final(self)@ == old(self)@.begin(
                command_ops(old(self)@.settings, Commands::ShiftDisplayRight.spec_bits()),
            ),
    {
        let ops = command_sequence(&self.settings, Commands::ShiftDisplayRight.bits());
        self.start(ops);
    }

    /// Starts moving the cursor one character to the left.
    pub fn scroll_cursor_left(&mut self)
        requires
            old(self)@.phase == Phase::Ready,
        ensures
            final(self)@ == old(self)@.begin(
                command_ops(old(self)@.settings, Commands::ShiftCursorLeft.spec_bits()),
            ),
    {
        let ops = command_sequence(&self.settings, Commands::ShiftCursorLeft.bits());
        self.start(ops);
    }

    /// Starts moving the cursor one character to the right.
    pub fn scroll_cursor_right(&mut self)
        requires
            old(self)@.phase == Phase::Ready,
        ensures
            final(self)@ == old(self)@.begin(
                command_ops(old(self)@.settings, Commands::ShiftCursorRight.spec_bits()),
            ),
    {
        let ops = command_sequence(&self.settings, Commands::ShiftCursorRight.bits());
        self.start(ops);
    }
}

/// A fresh session is well formed, and every step a session can take keeps
/// it so. A well-formed session has nothing to hand out only when it is not
/// in the middle of a sequence.
pub proof fn lemma_wf_is_kept(s: LcdState, settings: Settings, ops: Seq<BusOp>, outcome: Outcome)
    requires
        s.wf(),
    ensures
        LcdState::initial().wf(),
        s.configured(settings).wf(),
        s.begin_init().wf(),
        s.begin(ops).wf(),
        s.after(outcome).wf(),
        s.next() is None <==> !(s.phase == Phase::Initializing || s.phase == Phase::Executing),
{
    lemma_init_ops_unfold(s.settings);
}

/// While a sequence is in progress, `n` completed operations that do not
/// exhaust it move the session on by `n`; the one that exhausts it makes the
/// session ready. Nothing else changes.
pub proof fn lemma_completed(s: LcdState, n: nat)
    requires
        s.phase == Phase::Initializing || s.phase == Phase::Executing,
        s.done + n <= s.queue.len(),
        n > 0 || s.done < s.queue.len(),
    ensures
        s.completed(n) == (LcdState {
            done: s.done + n,
            phase: if s.done + n == s.queue.len() {
                Phase::Ready
            } else {
                s.phase
            },
            ..s
        }),
    decreases n,
{
    if n > 0 {
        if n > 1 {
            lemma_completed(s, (n - 1) as nat);
        }
    }
}

/// A sequence whose operations all complete hands them out one by one in
/// their order, then nothing more, and ends with the session ready and its
/// settings as they were.
pub proof fn lemma_sequence_runs_in_order(s: LcdState, i: nat)
    requires
        s.phase == Phase::Initializing || s.phase == Phase::Executing,
        s.done == 0,
        s.queue.len() > 0,
        i < s.queue.len(),
    ensures
        s.completed(i).next() == Some(s.queue[i as int]),
        s.completed(s.queue.len()).next() is None,
        s.completed(s.queue.len()).phase == Phase::Ready,
        s.completed(s.queue.len()).settings == s.settings,
{
    lemma_completed(s, i);
    lemma_completed(s, s.queue.len());
}

/// A bus error on any operation of a sequence ends it at once: the session
/// is failed, not ready, nothing further is handed out, and later reports
/// change nothing.
pub proof fn lemma_bus_error_aborts(s: LcdState, later: Outcome)
    requires
        s.is_busy(),
    ensures
        s.after(Outcome::BusError).phase == Phase::Failed,
        s.after(Outcome::BusError).next() is None,
        s.after(Outcome::BusError).settings == s.settings,
        s.after(Outcome::BusError).after(later) == s.after(Outcome::BusError),
{
}

/// Initialization that meets no bus error ends with the session ready,
/// whatever state it was started from; started again from there it is the
/// same sequence.
pub proof fn lemma_init_reaches_ready(s: LcdState)
    ensures
        s.begin_init().queue == init_ops(s.settings),
        s.begin_init().queue.len() == init_len(s.settings.profile),
        s.begin_init().completed(init_len(s.settings.profile)).phase == Phase::Ready,
        s.begin_init().completed(init_len(s.settings.profile)).settings == s.settings,
        s.begin_init().completed(init_len(s.settings.profile)).begin_init() == s.begin_init(),
{
    lemma_init_ops_unfold(s.settings);
    lemma_completed(s.begin_init(), init_len(s.settings.profile));
}

/// Clearing twice in a row is the same instruction byte and the same wait
/// both times, and the session after the second clear is the session after
/// the first.
pub proof fn lemma_clear_twice(s: LcdState)
    requires
        s.phase == Phase::Ready,
    ensures
        ({
            let first = s.begin(clear_ops(s.settings));
            let between = first.completed(first.queue.len());
            let second = between.begin(clear_ops(between.settings));
            &&& first.queue == command_ops(s.settings, Commands::Clear.spec_bits()) + seq![
                BusOp::DelayMs(CLEAR_HOME_DELAY_MS),
            ]
            &&& between.phase == Phase::Ready
            &&& second.queue == first.queue
            &&& second.completed(second.queue.len()) == between
        }),
{
    let first = s.begin(clear_ops(s.settings));
    lemma_completed(first, first.queue.len());
    let between = first.completed(first.queue.len());
    let second = between.begin(clear_ops(between.settings));
    lemma_completed(second, second.queue.len());
}

/// Changing the cursor flags or the font of a ready session starts exactly
/// one byte transfer to the instruction register, two nibble transfers that
/// carry the new control byte; the session is executing, not initializing,
/// so the power-on handshake is not sent again.
pub proof fn lemma_control_update_is_one_byte(s: LcdState, settings: Settings)
    requires
        s.phase == Phase::Ready,
    ensures
        display_control_ops(settings) == byte_transfer(
            settings.spec_link(),
            display_control_spec(settings.cursor_on, settings.cursor_blink),
            Register::Command,
        ),
        reassemble(settings.profile, display_control_ops(settings)) == display_control_spec(
            settings.cursor_on,
            settings.cursor_blink,
        ),
        function_set_ops(settings) == byte_transfer(
            settings.spec_link(),
            function_set_spec(BitMode::Bit4, settings.font, settings.rows > 0),
            Register::Command,
        ),
        reassemble(settings.profile, function_set_ops(settings)) == function_set_spec(
            BitMode::Bit4,
            settings.font,
            settings.rows > 0,
        ),
        s.configured(settings).begin(display_control_ops(settings)).phase == Phase::Executing,
        s.configured(settings).begin(display_control_ops(settings)).queue.len() == 2
            * settings.profile.nibble_len(),
        s.configured(settings).begin(function_set_ops(settings)).phase == Phase::Executing,
        s.configured(settings).begin(function_set_ops(settings)).queue.len() == 2
            * settings.profile.nibble_len(),
{
    lemma_byte_transfer_reassembles(
        settings.spec_link(),
        display_control_spec(settings.cursor_on, settings.cursor_blink),
        Register::Command,
    );
    lemma_byte_transfer_reassembles(
        settings.spec_link(),
        function_set_spec(BitMode::Bit4, settings.font, settings.rows > 0),
        Register::Command,
    );
}

} // verus!
