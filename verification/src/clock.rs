//! Clock bring-up: raises the core clock to the frequency that flash
//! programming runs at.
//!
//! Every wait is a busy-poll without a timeout: a stuck oscillator keeps the
//! operation polling until the host's own watchdog halts the target.

use vstd::prelude::*;
use crate::registers::{
    Register, CFG_PLL_SETUP, CFG_PLL_SETUP_FIELDS, CFG_SOURCE, CFG_SOURCE_STATUS, CLK_OSC_ENABLE,
    CLK_OSC_STABLE, CLK_PLL_ENABLE, CLK_PLL_STABLE, SOURCE_OSCILLATOR, SOURCE_PLL,
    SOURCE_STATUS_OSCILLATOR, SOURCE_STATUS_PLL,
};
use crate::script::Instr;

verus! {

/// Number of instructions of the bring-up.
pub const BRING_UP_LEN: usize = 10;

/// The bring-up, step by step:
/// the internal oscillator is enabled and awaited; it becomes the system
/// clock source; the PLL is switched off, set up together with the bus
/// prescalers, switched on and awaited; the PLL becomes the system clock
/// source.
pub open spec fn bring_up_script() -> Seq<Instr> {
    seq![
        Instr::Modify { register: Register::ClockControl, clear: 0, set: CLK_OSC_ENABLE },
        Instr::WaitFor {
            register: Register::ClockControl,
            mask: CLK_OSC_STABLE,
            expect: CLK_OSC_STABLE,
        },
        Instr::Modify { register: Register::ClockConfig, clear: CFG_SOURCE, set: SOURCE_OSCILLATOR },
        Instr::WaitFor {
            register: Register::ClockConfig,
            mask: CFG_SOURCE_STATUS,
            expect: SOURCE_STATUS_OSCILLATOR,
        },
        Instr::Modify { register: Register::ClockControl, clear: CLK_PLL_ENABLE, set: 0 },
        Instr::Modify {
            register: Register::ClockConfig,
            clear: CFG_PLL_SETUP_FIELDS,
            set: CFG_PLL_SETUP,
        },
        Instr::Modify { register: Register::ClockControl, clear: 0, set: CLK_PLL_ENABLE },
        Instr::WaitFor {
            register: Register::ClockControl,
            mask: CLK_PLL_STABLE,
            expect: CLK_PLL_STABLE,
        },
        Instr::Modify { register: Register::ClockConfig, clear: CFG_SOURCE, set: SOURCE_PLL },
        Instr::WaitFor {
            register: Register::ClockConfig,
            mask: CFG_SOURCE_STATUS,
            expect: SOURCE_STATUS_PLL,
        },
    ]
}

/// The instruction of the bring-up at position `pc`, if there is one.
pub fn bring_up_instr(pc: usize) -> (r: Option<Instr>)
    ensures
        bring_up_script().len() == BRING_UP_LEN,
        r == if pc < BRING_UP_LEN {
            Some(bring_up_script()[pc as int])
        } else {
            None
        },
{
    if pc == 0 {
        Some(Instr::Modify { register: Register::ClockControl, clear: 0, set: CLK_OSC_ENABLE })
    } else if pc == 1 {
        Some(
            Instr::WaitFor {
                register: Register::ClockControl,
                mask: CLK_OSC_STABLE,
                expect: CLK_OSC_STABLE,
            },
        )
    } else if pc == 2 {
        Some(
            Instr::Modify {
                register: Register::ClockConfig,
                clear: CFG_SOURCE,
                set: SOURCE_OSCILLATOR,
            },
        )
    } else if pc == 3 {
        Some(
            Instr::WaitFor {
                register: Register::ClockConfig,
                mask: CFG_SOURCE_STATUS,
                expect: SOURCE_STATUS_OSCILLATOR,
            },
        )
    } else if pc == 4 {
        Some(Instr::Modify { register: Register::ClockControl, clear: CLK_PLL_ENABLE, set: 0 })
    } else if pc == 5 {
        Some(
            Instr::Modify {
                register: Register::ClockConfig,
                clear: CFG_PLL_SETUP_FIELDS,
                set: CFG_PLL_SETUP,
            },
        )
    } else if pc == 6 {
        Some(Instr::Modify { register: Register::ClockControl, clear: 0, set: CLK_PLL_ENABLE })
    } else if pc == 7 {
        Some(
            Instr::WaitFor {
                register: Register::ClockControl,
                mask: CLK_PLL_STABLE,
                expect: CLK_PLL_STABLE,
            },
        )
    } else if pc == 8 {
        Some(Instr::Modify { register: Register::ClockConfig, clear: CFG_SOURCE, set: SOURCE_PLL })
    } else if pc == 9 {
        Some(
            Instr::WaitFor {
                register: Register::ClockConfig,
                mask: CFG_SOURCE_STATUS,
                expect: SOURCE_STATUS_PLL,
            },
        )
    } else {
        None
    }
}

/// The bring-up is made of read-modify-writes and waits on the two registers
/// of the clock controller: it writes no other register, stores nothing to
/// flash, and holds no test that could fail.
pub proof fn bring_up_touches_clock_only()
    ensures
        bring_up_script().len() == BRING_UP_LEN,
        forall|i: int|
            0 <= i < bring_up_script().len() ==> {
                let instr = #[trigger] bring_up_script()[i];
                match instr {
                    Instr::Modify { register, .. } => register == Register::ClockControl
                        || register == Register::ClockConfig,
                    Instr::WaitFor { register, .. } => register == Register::ClockControl
                        || register == Register::ClockConfig,
                    _ => false,
                }
            },
{
}

} // verus!
