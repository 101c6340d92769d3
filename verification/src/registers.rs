//! Register map of the clock controller and the flash controller.
//!
//! Every register is one machine word wide. The driver never touches a raw
//! bit position: it names a register and a field of this map.

use vstd::prelude::*;

verus! {

/// The memory-mapped registers that the driver reads and writes.
#[derive(Clone, Copy, Debug, PartialEq, Eq, Structural)]
pub enum Register {
    /// Clock controller: oscillator and PLL enables with their "stable" flags.
    ClockControl,
    /// Clock controller: clock source selection, bus prescalers, PLL setup.
    ClockConfig,
    /// Flash controller: key register of the unlock protocol.
    FlashKey,
    /// Flash controller: busy and error flags.
    FlashStatus,
    /// Flash controller: command bits and the lock bit.
    FlashControl,
    /// Flash controller: address of the sector to erase.
    FlashAddress,
}

/// First word of the unlock sequence.
pub const FLASH_KEY1: u32 = 0x4567_0123;

/// Second word of the unlock sequence.
pub const FLASH_KEY2: u32 = 0xCDEF_89AB;

/// Word that re-arms the lock when written to the key register.
pub const FLASH_LOCK: u32 = 0;

/// Flash control: "program" command bit.
pub const CTL_PG: u32 = 0x0000_0001;

/// Flash control: "page erase" command bit.
pub const CTL_PER: u32 = 0x0000_0002;

/// Flash control: "start" bit.
pub const CTL_START: u32 = 0x0000_0040;

/// Flash control: lock bit.
pub const CTL_LK: u32 = 0x0000_0080;

/// Flash control: value of the register after reset (locked, no command).
pub const CTL_RESET: u32 = 0x0000_0080;

/// Flash control: value with every command bit cleared.
pub const CTL_IDLE: u32 = 0;

/// Flash status: busy flag.
pub const STAT_BUSY: u32 = 0x0000_0001;

/// Flash status: programming error flag (write one to clear).
pub const STAT_PGERR: u32 = 0x0000_0004;

/// Flash status: write protection error flag (write one to clear).
pub const STAT_WPERR: u32 = 0x0000_0010;

/// Flash status: both error flags.
pub const STAT_ERRORS: u32 = 0x0000_0014;

/// Clock control: internal high-speed oscillator enable.
pub const CLK_OSC_ENABLE: u32 = 0x0000_0001;

/// Clock control: internal high-speed oscillator stable.
pub const CLK_OSC_STABLE: u32 = 0x0000_0002;

/// Clock control: PLL enable.
pub const CLK_PLL_ENABLE: u32 = 0x0100_0000;

/// Clock control: PLL stable.
pub const CLK_PLL_STABLE: u32 = 0x0200_0000;

/// Clock config: system clock source selection (two bits).
pub const CFG_SOURCE: u32 = 0x0000_0003;

/// Clock config: system clock source in use (two bits, read only).
pub const CFG_SOURCE_STATUS: u32 = 0x0000_000C;

/// Clock config: AHB prescaler (four bits).
pub const CFG_AHB_PRESCALER: u32 = 0x0000_00F0;

/// Clock config: APB1 prescaler (three bits).
pub const CFG_APB1_PRESCALER: u32 = 0x0000_0700;

/// Clock config: APB2 prescaler (three bits).
pub const CFG_APB2_PRESCALER: u32 = 0x0000_3800;

/// Clock config: PLL input selection.
pub const CFG_PLL_INPUT: u32 = 0x0001_0000;

/// Clock config: low four bits of the PLL multiplier.
pub const CFG_PLL_FACTOR_LOW: u32 = 0x003C_0000;

/// Clock config: fifth bit of the PLL multiplier.
pub const CFG_PLL_FACTOR_HIGH: u32 = 0x2000_0000;

/// Clock config, source selection: the internal oscillator.
pub const SOURCE_OSCILLATOR: u32 = 0x0000_0000;

/// Clock config, source selection: the PLL.
pub const SOURCE_PLL: u32 = 0x0000_0002;

/// Clock config, source in use: the internal oscillator.
pub const SOURCE_STATUS_OSCILLATOR: u32 = 0x0000_0000;

/// Clock config, source in use: the PLL.
pub const SOURCE_STATUS_PLL: u32 = 0x0000_0008;

/// Clock config: every field that the PLL setup rewrites.
pub const CFG_PLL_SETUP_FIELDS: u32 = 0x203D_3FF0;

/// Clock config: the PLL setup. AHB and APB2 undivided, APB1 divided by two,
/// half the internal oscillator as PLL input, multiplier code `0b11010`.
pub const CFG_PLL_SETUP: u32 = 0x2028_0400;

/// `value` with the bits under `clear` cleared and then those under `set` set.
pub open spec fn spec_modified(value: u32, clear: u32, set: u32) -> u32 {
    (value & !clear) | set
}

/// Whether `value` shows `expect` in the field `mask`.
pub open spec fn spec_field_is(value: u32, mask: u32, expect: u32) -> bool {
    value & mask == expect
}

/// Whether any bit of `mask` is set in `value`.
pub open spec fn spec_any_set(value: u32, mask: u32) -> bool {
    value & mask != 0
}

/// The word a read-modify-write stores: the bits under `clear` are cleared,
/// those under `set` are set, every other bit of `value` is kept.
pub fn modified(value: u32, clear: u32, set: u32) -> (r: u32)
    ensures
        r == spec_modified(value, clear, set),
        r & set == set,
        r & (clear & !set) == 0,
        r & !(clear | set) == value & !(clear | set),
{
    let r: u32 = (value & !clear) | set;
    assert(((value & !clear) | set) & set == set) by (bit_vector);
    assert(((value & !clear) | set) & (clear & !set) == 0) by (bit_vector);
    assert(((value & !clear) | set) & !(clear | set) == value & !(clear | set)) by (bit_vector);
    r
}

/// Tests whether the field `mask` of `value` holds `expect`.
pub fn field_is(value: u32, mask: u32, expect: u32) -> (b: bool)
    ensures
        b == spec_field_is(value, mask, expect),
{
    value & mask == expect
}

/// Tests whether any bit of `mask` is set in `value`.
pub fn any_set(value: u32, mask: u32) -> (b: bool)
    ensures
        b == spec_any_set(value, mask),
{
    value & mask != 0
}

/// The PLL setup word is made of the fields it names, with the values that
/// the bring-up calls for.
pub proof fn pll_setup_fields()
    ensures
        CFG_PLL_SETUP_FIELDS == CFG_AHB_PRESCALER | CFG_APB1_PRESCALER | CFG_APB2_PRESCALER
            | CFG_PLL_INPUT | CFG_PLL_FACTOR_LOW | CFG_PLL_FACTOR_HIGH,
        CFG_PLL_SETUP & !CFG_PLL_SETUP_FIELDS == 0,
        CFG_PLL_SETUP & CFG_AHB_PRESCALER == 0,
        CFG_PLL_SETUP & CFG_APB1_PRESCALER == 0x0000_0400,
        CFG_PLL_SETUP & CFG_APB2_PRESCALER == 0,
        CFG_PLL_SETUP & CFG_PLL_INPUT == 0,
        CFG_PLL_SETUP & CFG_PLL_FACTOR_LOW == 0x0028_0000,
        CFG_PLL_SETUP & CFG_PLL_FACTOR_HIGH == CFG_PLL_FACTOR_HIGH,
        STAT_ERRORS == STAT_PGERR | STAT_WPERR,
{
    assert(0x203D_3FF0u32 == 0x0000_00F0u32 | 0x0000_0700u32 | 0x0000_3800u32 | 0x0001_0000u32
        | 0x003C_0000u32 | 0x2000_0000u32) by (bit_vector);
    assert(0x2028_0400u32 & !0x203D_3FF0u32 == 0) by (bit_vector);
    assert(0x2028_0400u32 & 0x0000_00F0u32 == 0) by (bit_vector);
    assert(0x2028_0400u32 & 0x0000_0700u32 == 0x0000_0400u32) by (bit_vector);
    assert(0x2028_0400u32 & 0x0000_3800u32 == 0) by (bit_vector);
    assert(0x2028_0400u32 & 0x0001_0000u32 == 0) by (bit_vector);
    assert(0x2028_0400u32 & 0x003C_0000u32 == 0x0028_0000u32) by (bit_vector);
    assert(0x2028_0400u32 & 0x2000_0000u32 == 0x2000_0000u32) by (bit_vector);
    assert(0x0000_0014u32 == 0x0000_0004u32 | 0x0000_0010u32) by (bit_vector);
}

} // verus!
