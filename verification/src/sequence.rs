//! The operation lists of initialization and of every display operation.

use vstd::prelude::*;
use crate::address::address_of;
use crate::address::row_col_to_address;
use crate::frame::{byte_transfer, nibble_transfer, push_byte, push_nibble, BusOp, Link, Register};
use crate::instruction::{
    ddram_address, ddram_address_spec, display_control, display_control_spec, entry_mode,
    entry_mode_spec, function_set, function_set_spec, BitMode, Commands, CursorMoveDir,
    DisplayShift, Font,
};
use crate::settings::Settings;
use crate::timing::{CLEAR_HOME_DELAY_MS, HANDSHAKE_DELAY_MS, POWER_ON_DELAY_MS, TimingProfile};

verus! {

/// One step of a protocol sequence, before it is framed for the bus.
#[derive(Clone, Copy, Debug, PartialEq, Eq, Structural)]
pub enum Transfer {
    /// A single nibble transfer to the instruction register; only the top
    /// four bits of `high` travel.
    Nibble { high: u8 },
    /// A full byte transfer, as two nibbles.
    Byte { value: u8, register: Register },
    /// A wait of `ms` milliseconds.
    Pause { ms: u32 },
}

/// The bus operations that realize one step.
pub open spec fn transfer_ops(step: Transfer, link: Link) -> Seq<BusOp> {
    match step {
        Transfer::Nibble { high } => nibble_transfer(link, high, Register::Command),
        Transfer::Byte { value, register } => byte_transfer(link, value, register),
        Transfer::Pause { ms } => seq![BusOp::DelayMs(ms)],
    }
}

/// The bus operations that realize a sequence of steps, in order.
pub open spec fn plan_ops(plan: Seq<Transfer>, link: Link) -> Seq<BusOp>
    decreases plan.len(),
{
    if plan.len() == 0 {
        Seq::empty()
    } else {
        plan_ops(plan.drop_last(), link) + transfer_ops(plan.last(), link)
    }
}

/// Frames a sequence of steps for the bus.
pub fn lower(plan: &Vec<Transfer>, link: Link) -> (ops: Vec<BusOp>)
    ensures
        ops@ == plan_ops(plan@, link),
{
    let mut ops: Vec<BusOp> = Vec::new();
    let mut i: usize = 0;
    while i < plan.len()
        invariant
            i <= plan.len(),
            ops@ == plan_ops(plan@.take(i as int), link),
        decreases plan.len() - i,
    {
        let step: Transfer = plan[i];
        match step {
            Transfer::Nibble { high } => {
                push_nibble(&mut ops, link, high, Register::Command);
            },
            Transfer::Byte { value, register } => {
                push_byte(&mut ops, link, value, register);
            },
            Transfer::Pause { ms } => {
                ops.push(BusOp::DelayMs(ms));
                assert(ops@ =~= plan_ops(plan@.take(i as int), link) + seq![
                    BusOp::DelayMs(ms),
                ]);
            },
        }
        assert(plan@.take(i + 1).drop_last() =~= plan@.take(i as int));
        i += 1;
    }
    assert(plan@.take(i as int) =~= plan@);
    ops
}

/// The instruction that forces the controller into 8-bit mode.
pub open spec fn eight_bit_mode() -> u8 {
    function_set_spec(BitMode::Bit8, Font::Font5x8, false)
}

/// The instruction that switches the controller to 4-bit mode.
pub open spec fn four_bit_mode() -> u8 {
    function_set_spec(BitMode::Bit4, Font::Font5x8, false)
}

/// The handshake step that forces 8-bit mode: a single nibble transfer.
pub open spec fn force_eight_bit() -> Transfer {
    Transfer::Nibble { high: eight_bit_mode() }
}

/// The handshake step that switches to 4-bit mode: a single nibble transfer.
pub open spec fn switch_four_bit() -> Transfer {
    Transfer::Nibble { high: four_bit_mode() }
}

/// The steps of initialization: the power-on wait, the 8-bit-mode
/// instruction three times with a pause after the first and the second, the
/// switch to 4-bit mode, then function set, display control, clear, entry
/// mode and return home as full bytes.
pub open spec fn init_plan_spec(settings: Settings) -> Seq<Transfer> {
    seq![
        Transfer::Pause { ms: POWER_ON_DELAY_MS },
        force_eight_bit(),
        Transfer::Pause { ms: HANDSHAKE_DELAY_MS },
        force_eight_bit(),
        Transfer::Pause { ms: HANDSHAKE_DELAY_MS },
        force_eight_bit(),
        switch_four_bit(),
        Transfer::Byte {
            value: function_set_spec(BitMode::Bit4, settings.font, settings.rows > 0),
            register: Register::Command,
        },
        Transfer::Byte {
            value: display_control_spec(settings.cursor_on, settings.cursor_blink),
            register: Register::Command,
        },
        Transfer::Byte { value: Commands::Clear.spec_bits(), register: Register::Command },
        Transfer::Pause { ms: CLEAR_HOME_DELAY_MS },
        Transfer::Byte {
            value: entry_mode_spec(CursorMoveDir::Left, DisplayShift::Decrement),
            register: Register::Command,
        },
        Transfer::Byte { value: Commands::ReturnHome.spec_bits(), register: Register::Command },
        Transfer::Pause { ms: CLEAR_HOME_DELAY_MS },
    ]
}

/// Builds the steps of initialization for the given settings.
pub fn init_plan(settings: &Settings) -> (plan: Vec<Transfer>)
    ensures
        plan@ == init_plan_spec(*settings),
{
    let force: u8 = function_set(BitMode::Bit8, Font::Font5x8, false);
    let switch: u8 = function_set(BitMode::Bit4, Font::Font5x8, false);
    let mut plan: Vec<Transfer> = Vec::new();
    plan.push(Transfer::Pause { ms: POWER_ON_DELAY_MS });
    plan.push(Transfer::Nibble { high: force });
    plan.push(Transfer::Pause { ms: HANDSHAKE_DELAY_MS });
    plan.push(Transfer::Nibble { high: force });
    plan.push(Transfer::Pause { ms: HANDSHAKE_DELAY_MS });
    plan.push(Transfer::Nibble { high: force });
    plan.push(Transfer::Nibble { high: switch });
    plan.push(
        Transfer::Byte {
            value: function_set(BitMode::Bit4, settings.font, settings.rows > 0),
            register: Register::Command,
        },
    );
    plan.push(
        Transfer::Byte {
            value: display_control(settings.cursor_on, settings.cursor_blink),
            register: Register::Command,
        },
    );
    plan.push(Transfer::Byte { value: Commands::Clear.bits(), register: Register::Command });
    plan.push(Transfer::Pause { ms: CLEAR_HOME_DELAY_MS });
    plan.push(
        Transfer::Byte {
            value: entry_mode(CursorMoveDir::Left, DisplayShift::Decrement),
            register: Register::Command,
        },
    );
    plan.push(Transfer::Byte { value: Commands::ReturnHome.bits(), register: Register::Command });
    plan.push(Transfer::Pause { ms: CLEAR_HOME_DELAY_MS });
    assert(plan@ =~= init_plan_spec(*settings));
    plan
}

/// The bus operations of initialization.
pub open spec fn init_ops(settings: Settings) -> Seq<BusOp> {
    plan_ops(init_plan_spec(settings), settings.spec_link())
}

/// Builds the bus operations of initialization.
pub fn init_sequence(settings: &Settings) -> (ops: Vec<BusOp>)
    ensures
        ops@ == init_ops(*settings),
{
    let plan = init_plan(settings);
    lower(&plan, settings.link())
}

/// Whatever the settings, initialization holds the 8-bit-mode instruction as
/// a single nibble exactly three times, each before the 4-bit-mode
/// instruction, which it holds as a single nibble exactly once; every later
/// step is a full byte or a wait.
pub proof fn lemma_handshake_order(settings: Settings)
    ensures
        init_plan_spec(settings).len() == 14,
        eight_bit_mode() == 0x30,
        four_bit_mode() == 0x20,
        forall|i: int|
            0 <= i < 14 ==> ((#[trigger] init_plan_spec(settings)[i] == force_eight_bit()) <==> (i
                == 1 || i == 3 || i == 5)),
        forall|i: int|
            0 <= i < 14 ==> ((#[trigger] init_plan_spec(settings)[i] == switch_four_bit()) <==> i
                == 6),
        forall|i: int|
            6 < i < 14 ==> !(#[trigger] init_plan_spec(settings)[i] is Nibble),
{
}

/// The bus operations of a single instruction byte.
pub open spec fn command_ops(settings: Settings, instruction: u8) -> Seq<BusOp> {
    byte_transfer(settings.spec_link(), instruction, Register::Command)
}

/// Frames one instruction byte.
pub fn command_sequence(settings: &Settings, instruction: u8) -> (ops: Vec<BusOp>)
    ensures
        ops@ == command_ops(*settings, instruction),
{
    let mut ops: Vec<BusOp> = Vec::new();
    push_byte(&mut ops, settings.link(), instruction, Register::Command);
    assert(ops@ =~= command_ops(*settings, instruction));
    ops
}

/// The bus operations of an instruction that erases display memory: the
/// instruction byte, then the longer execution time.
pub open spec fn slow_command_ops(settings: Settings, instruction: u8) -> Seq<BusOp> {
    command_ops(settings, instruction) + seq![BusOp::DelayMs(CLEAR_HOME_DELAY_MS)]
}

/// Frames an instruction byte and adds the clear/home execution time.
pub fn slow_command_sequence(settings: &Settings, instruction: u8) -> (ops: Vec<BusOp>)
    ensures
        ops@ == slow_command_ops(*settings, instruction),
{
    let mut ops: Vec<BusOp> = command_sequence(settings, instruction);
    ops.push(BusOp::DelayMs(CLEAR_HOME_DELAY_MS));
    assert(ops@ =~= slow_command_ops(*settings, instruction));
    ops
}

/// The bus operations of clearing the display.
pub open spec fn clear_ops(settings: Settings) -> Seq<BusOp> {
    slow_command_ops(settings, Commands::Clear.spec_bits())
}

/// The bus operations of returning the cursor to the upper left corner.
pub open spec fn return_home_ops(settings: Settings) -> Seq<BusOp> {
    slow_command_ops(settings, Commands::ReturnHome.spec_bits())
}

/// The bus operations of moving the cursor to a position.
pub open spec fn set_cursor_ops(settings: Settings, row: u8, col: u8) -> Seq<BusOp>
    recommends
        row < 4,
{
    command_ops(settings, ddram_address_spec(address_of(row, col, settings.spec_geometry())))
}

/// Frames the instruction that moves the cursor to a position.
pub fn set_cursor_sequence(settings: &Settings, row: u8, col: u8) -> (ops: Vec<BusOp>)
    requires
        row < 4,
    ensures
        ops@ == set_cursor_ops(*settings, row, col),
{
    let address: u8 = row_col_to_address(row, col, settings.geometry());
    command_sequence(settings, ddram_address(address))
}

/// The bus operations of sending the display-control instruction that the
/// settings' cursor flags ask for.
pub open spec fn display_control_ops(settings: Settings) -> Seq<BusOp> {
    command_ops(settings, display_control_spec(settings.cursor_on, settings.cursor_blink))
}

/// The bus operations of sending the function-set instruction that the
/// settings' font and row count ask for.
pub open spec fn function_set_ops(settings: Settings) -> Seq<BusOp> {
    command_ops(settings, function_set_spec(BitMode::Bit4, settings.font, settings.rows > 0))
}

/// The single write that puts the settings' backlight state on the bus.
pub open spec fn backlight_ops(settings: Settings) -> Seq<BusOp> {
    seq![BusOp::Write { address: settings.address, frame: settings.backlight.spec_bits() }]
}

/// The byte sent for a character: its code point's low eight bits.
pub open spec fn glyph_code(c: char) -> u8 {
    (c as u32 % 0x100) as u8
}

/// Computes the byte sent for a character.
pub fn glyph(c: char) -> (code: u8)
    ensures
        code == glyph_code(c),
{
    let point: u32 = c as u32;
    (point % 0x100) as u8
}

/// The bus operations of writing text: one byte transfer to the data
/// register for each character, in order.
pub open spec fn text_ops(settings: Settings, text: Seq<char>) -> Seq<BusOp>
    decreases text.len(),
{
    if text.len() == 0 {
        Seq::empty()
    } else {
        text_ops(settings, text.drop_last()) + byte_transfer(
            settings.spec_link(),
            glyph_code(text.last()),
            Register::Data,
        )
    }
}

/// Frames text for the data register, character by character.
pub fn text_sequence(settings: &Settings, text: &str) -> (ops: Vec<BusOp>)
    ensures
        ops@ == text_ops(*settings, text@),
        ops@.len() == 2 * settings.profile.nibble_len() * text@.len(),
{
    let n: usize = text.unicode_len();
    let mut ops: Vec<BusOp> = Vec::new();
    let mut i: usize = 0;
    while i < n
        invariant
            n == text@.len(),
            i <= n,
            ops@ == text_ops(*settings, text@.take(i as int)),
            settings.profile == TimingProfile::Modern ==> ops@.len() == 8 * i,
            settings.profile == TimingProfile::Legacy ==> ops@.len() == 6 * i,
        decreases n - i,
    {
        let c: char = text.get_char(i);
        push_byte(&mut ops, settings.link(), glyph(c), Register::Data);
        assert(text@.take(i + 1).drop_last() =~= text@.take(i as int));
        i += 1;
    }
    assert(text@.take(i as int) =~= text@);
    ops
}

/// Adding a step to a sequence adds that step's bus operations at the end.
pub proof fn lemma_plan_ops_push(plan: Seq<Transfer>, step: Transfer, link: Link)
    ensures
        plan_ops(plan.push(step), link) == plan_ops(plan, link)
            + transfer_ops(step, link),
{
    assert(plan.push(step).drop_last() =~= plan);
}

/// The bus operations of the power-on handshake: the power-on wait, the
/// 8-bit-mode nibble three times with a pause after the first and the
/// second, then the 4-bit-mode nibble.
pub open spec fn handshake_ops(link: Link) -> Seq<BusOp> {
    seq![BusOp::DelayMs(POWER_ON_DELAY_MS)] + nibble_transfer(
        link,
        eight_bit_mode(),
        Register::Command,
    ) + seq![BusOp::DelayMs(HANDSHAKE_DELAY_MS)] + nibble_transfer(
        link,
        eight_bit_mode(),
        Register::Command,
    ) + seq![BusOp::DelayMs(HANDSHAKE_DELAY_MS)] + nibble_transfer(
        link,
        eight_bit_mode(),
        Register::Command,
    ) + nibble_transfer(link, four_bit_mode(), Register::Command)
}

/// The bus operations that apply the settings once the controller is in
/// 4-bit mode: function set, display control, clear, entry mode and return
/// home.
pub open spec fn configuration_ops(settings: Settings) -> Seq<BusOp> {
    function_set_ops(settings) + display_control_ops(settings) + clear_ops(settings) + command_ops(
        settings,
        entry_mode_spec(CursorMoveDir::Left, DisplayShift::Decrement),
    ) + return_home_ops(settings)
}

/// The first seven steps of initialization are framed as the handshake.
proof fn lemma_handshake_plan(settings: Settings)
    ensures
        plan_ops(init_plan_spec(settings).take(7), settings.spec_link()) == handshake_ops(
            settings.spec_link(),
        ),
{
    let l = settings.spec_link();
    let p = init_plan_spec(settings);
    let upto0 = Seq::<Transfer>::empty();
    let upto1 = upto0.push(p[0]);
    let upto2 = upto1.push(p[1]);
    let upto3 = upto2.push(p[2]);
    let upto4 = upto3.push(p[3]);
    let upto5 = upto4.push(p[4]);
    let upto6 = upto5.push(p[5]);
    let upto7 = upto6.push(p[6]);
    assert(upto7 =~= p.take(7));
    assert(plan_ops(upto0, l) =~= Seq::<BusOp>::empty());
    lemma_plan_ops_push(upto0, p[0], l);
    assert(plan_ops(upto1, l) =~= seq![BusOp::DelayMs(POWER_ON_DELAY_MS)]);
    lemma_plan_ops_push(upto1, p[1], l);
    lemma_plan_ops_push(upto2, p[2], l);
    lemma_plan_ops_push(upto3, p[3], l);
    lemma_plan_ops_push(upto4, p[4], l);
    lemma_plan_ops_push(upto5, p[5], l);
    lemma_plan_ops_push(upto6, p[6], l);
}

/// Initialization is the handshake, which depends on nothing but the bus
/// address, the backlight and the timing profile, followed by the
/// configuration: fourteen nibble transfers and five waits in all.
pub proof fn lemma_init_ops_unfold(settings: Settings)
    ensures
        init_ops(settings) == handshake_ops(settings.spec_link()) + configuration_ops(settings),
        handshake_ops(settings.spec_link()).len() == 4 * settings.profile.nibble_len() + 3,
        configuration_ops(settings).len() == 10 * settings.profile.nibble_len() + 2,
        init_ops(settings).len() == init_len(settings.profile),
{
    let l = settings.spec_link();
    let p = init_plan_spec(settings);
    let h = handshake_ops(l);
    lemma_handshake_plan(settings);
    let upto7 = p.take(7);
    let upto8 = upto7.push(p[7]);
    let upto9 = upto8.push(p[8]);
    let upto10 = upto9.push(p[9]);
    let upto11 = upto10.push(p[10]);
    let upto12 = upto11.push(p[11]);
    let upto13 = upto12.push(p[12]);
    let upto14 = upto13.push(p[13]);
    assert(upto14 =~= p);
    let c1 = function_set_ops(settings);
    let c2 = c1 + display_control_ops(settings);
    let c3 = c2 + clear_ops(settings);
    let c4 = c3 + command_ops(settings, entry_mode_spec(CursorMoveDir::Left, DisplayShift::Decrement));
    let c5 = c4 + return_home_ops(settings);
    lemma_plan_ops_push(upto7, p[7], l);
    assert(plan_ops(upto8, l) =~= h + c1);
    lemma_plan_ops_push(upto8, p[8], l);
    assert(plan_ops(upto9, l) =~= h + c2);
    lemma_plan_ops_push(upto9, p[9], l);
    lemma_plan_ops_push(upto10, p[10], l);
    assert(plan_ops(upto11, l) =~= h + c3);
    lemma_plan_ops_push(upto11, p[11], l);
    assert(plan_ops(upto12, l) =~= h + c4);
    lemma_plan_ops_push(upto12, p[12], l);
    lemma_plan_ops_push(upto13, p[13], l);
    assert(plan_ops(upto14, l) =~= h + c5);
}

/// Number of bus operations of initialization: sixty-one with the modern
/// profile, forty-seven with the legacy one.
pub open spec fn init_len(profile: TimingProfile) -> nat {
    14 * profile.nibble_len() + 5
}

/// The stages of initialization, in the order they are gone through.
#[derive(Clone, Copy, Debug, PartialEq, Eq, Structural)]
pub enum InitStage {
    /// The wait for the controller to settle after power-up.
    PowerWait,
    /// The 8-bit-mode instruction, three times, as single nibbles.
    ForceEightBit,
    /// The switch to 4-bit mode, as a single nibble.
    SwitchFourBit,
    /// The function-set byte with bus width, font and line count.
    FunctionSetFinal,
    /// The display-control byte with the cursor flags.
    DisplayControlInit,
    /// The clear instruction and its wait.
    Clear,
    /// The entry-mode byte.
    EntryModeSet,
    /// The return-home instruction and its wait.
    ReturnHome,
}

/// The bus operations of one stage of initialization.
pub open spec fn stage_ops(stage: InitStage, settings: Settings) -> Seq<BusOp> {
    let link = settings.spec_link();
    match stage {
        InitStage::PowerWait => seq![BusOp::DelayMs(POWER_ON_DELAY_MS)],
        InitStage::ForceEightBit => nibble_transfer(link, eight_bit_mode(), Register::Command)
            + seq![BusOp::DelayMs(HANDSHAKE_DELAY_MS)] + nibble_transfer(
            link,
            eight_bit_mode(),
            Register::Command,
        ) + seq![BusOp::DelayMs(HANDSHAKE_DELAY_MS)] + nibble_transfer(
            link,
            eight_bit_mode(),
            Register::Command,
        ),
        InitStage::SwitchFourBit => nibble_transfer(link, four_bit_mode(), Register::Command),
        InitStage::FunctionSetFinal => function_set_ops(settings),
        InitStage::DisplayControlInit => display_control_ops(settings),
        InitStage::Clear => clear_ops(settings),
        InitStage::EntryModeSet => command_ops(
            settings,
            entry_mode_spec(CursorMoveDir::Left, DisplayShift::Decrement),
        ),
        InitStage::ReturnHome => return_home_ops(settings),
    }
}

/// Position in the initialization sequence of a stage's first bus operation.
pub open spec fn stage_start(stage: InitStage, profile: TimingProfile) -> nat {
    let n = profile.nibble_len();
    match stage {
        InitStage::PowerWait => 0,
        InitStage::ForceEightBit => 1,
        InitStage::SwitchFourBit => 3 * n + 3,
        InitStage::FunctionSetFinal => 4 * n + 3,
        InitStage::DisplayControlInit => 6 * n + 3,
        InitStage::Clear => 8 * n + 3,
        InitStage::EntryModeSet => 10 * n + 4,
        InitStage::ReturnHome => 12 * n + 4,
    }
}

/// Position just behind a stage's last bus operation.
pub open spec fn stage_end(stage: InitStage, profile: TimingProfile) -> nat {
    let n = profile.nibble_len();
    match stage {
        InitStage::PowerWait => 1,
        InitStage::ForceEightBit => 3 * n + 3,
        InitStage::SwitchFourBit => 4 * n + 3,
        InitStage::FunctionSetFinal => 6 * n + 3,
        InitStage::DisplayControlInit => 8 * n + 3,
        InitStage::Clear => 10 * n + 4,
        InitStage::EntryModeSet => 12 * n + 4,
        InitStage::ReturnHome => 14 * n + 5,
    }
}

/// The stage that the bus operation at position `done` of the
/// initialization sequence belongs to.
pub open spec fn stage_at(profile: TimingProfile, done: nat) -> InitStage
    recommends
        done < init_len(profile),
{
    if done < stage_end(InitStage::PowerWait, profile) {
        InitStage::PowerWait
    } else if done < stage_end(InitStage::ForceEightBit, profile) {
        InitStage::ForceEightBit
    } else if done < stage_end(InitStage::SwitchFourBit, profile) {
        InitStage::SwitchFourBit
    } else if done < stage_end(InitStage::FunctionSetFinal, profile) {
        InitStage::FunctionSetFinal
    } else if done < stage_end(InitStage::DisplayControlInit, profile) {
        InitStage::DisplayControlInit
    } else if done < stage_end(InitStage::Clear, profile) {
        InitStage::Clear
    } else if done < stage_end(InitStage::EntryModeSet, profile) {
        InitStage::EntryModeSet
    } else {
        InitStage::ReturnHome
    }
}

/// Finds the stage that the bus operation at position `done` of the
/// initialization sequence belongs to.
pub fn init_stage_at(profile: TimingProfile, done: usize) -> (stage: InitStage)
    ensures
        stage == stage_at(profile, done as nat),
{
    let n: usize = if profile.asserts_before_strobe() { 4 } else { 3 };
    if done < 1 {
        InitStage::PowerWait
    } else if done < 3 * n + 3 {
        InitStage::ForceEightBit
    } else if done < 4 * n + 3 {
        InitStage::SwitchFourBit
    } else if done < 6 * n + 3 {
        InitStage::FunctionSetFinal
    } else if done < 8 * n + 3 {
        InitStage::DisplayControlInit
    } else if done < 10 * n + 4 {
        InitStage::Clear
    } else if done < 12 * n + 4 {
        InitStage::EntryModeSet
    } else {
        InitStage::ReturnHome
    }
}

/// The stages follow one another without a gap from the first bus operation
/// of initialization to the last, and the operations of the sequence that
/// fall into a stage are that stage's own: the power-on wait; the three
/// 8-bit-mode nibbles with their two pauses; the 4-bit-mode nibble; then one
/// byte each, with the longer wait behind clear and return home.
pub proof fn lemma_stage_ops(settings: Settings, stage: InitStage)
    ensures
        stage_start(InitStage::PowerWait, settings.profile) == 0,
        stage_end(InitStage::ReturnHome, settings.profile) == init_len(settings.profile),
        stage_start(stage, settings.profile) < stage_end(stage, settings.profile) <= init_len(
            settings.profile,
        ),
        stage != InitStage::PowerWait ==> exists|before: InitStage| #[trigger]
            stage_end(before, settings.profile) == stage_start(stage, settings.profile),
        init_ops(settings).subrange(
            stage_start(stage, settings.profile) as int,
            stage_end(stage, settings.profile) as int,
        ) == stage_ops(stage, settings),
        forall|done: nat|
            stage_start(stage, settings.profile) <= done < stage_end(stage, settings.profile)
                ==> #[trigger] stage_at(settings.profile, done) == stage,
{
    lemma_init_ops_unfold(settings);
    let p = settings.profile;
    match stage {
        InitStage::PowerWait => {},
        InitStage::ForceEightBit => {
            assert(stage_end(InitStage::PowerWait, p) == stage_start(stage, p));
        },
        InitStage::SwitchFourBit => {
            assert(stage_end(InitStage::ForceEightBit, p) == stage_start(stage, p));
        },
        InitStage::FunctionSetFinal => {
            assert(stage_end(InitStage::SwitchFourBit, p) == stage_start(stage, p));
        },
        InitStage::DisplayControlInit => {
            assert(stage_end(InitStage::FunctionSetFinal, p) == stage_start(stage, p));
        },
        InitStage::Clear => {
            assert(stage_end(InitStage::DisplayControlInit, p) == stage_start(stage, p));
        },
        InitStage::EntryModeSet => {
            assert(stage_end(InitStage::Clear, p) == stage_start(stage, p));
        },
        InitStage::ReturnHome => {
            assert(stage_end(InitStage::EntryModeSet, p) == stage_start(stage, p));
        },
    }
    assert(init_ops(settings).subrange(stage_start(stage, p) as int, stage_end(stage, p) as int)
        =~= stage_ops(stage, settings));
}

} // verus!
