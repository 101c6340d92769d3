//! The four operations, run against a simulated clock controller and flash
//! controller.

use flash_algorithm::registers::{
    CFG_PLL_SETUP, CFG_PLL_SETUP_FIELDS, CLK_OSC_ENABLE, CLK_OSC_STABLE, CLK_PLL_ENABLE,
    CLK_PLL_STABLE, CTL_LK, CTL_PER, CTL_PG, CTL_RESET, CTL_START, FLASH_KEY1, FLASH_KEY2,
    SOURCE_PLL, STAT_BUSY, STAT_ERRORS, STAT_PGERR, STAT_WPERR,
};
use flash_algorithm::session::{Operation, Session};
use flash_algorithm::{can_program, Action, EraseSector, Init, ProgramPage, Register, UnInit};

/// A simulated target: registers that behave as the controllers do, and a log
/// of everything the driver asked for.
struct Target {
    clock_control: u32,
    clock_config: u32,
    flash_control: u32,
    flash_status: u32,
    flash_address: u32,
    /// Reads of a flag that still show the old state after a change.
    delay: u32,
    osc_wait: u32,
    source_wait: u32,
    pll_wait: u32,
    busy_wait: u32,
    /// Error flags raised by the erase, if any.
    erase_error: u32,
    /// Number of the store (from 1) that raises `store_error`, if any.
    failing_store: usize,
    store_error: u32,
    key_writes: Vec<u32>,
    stores: Vec<(u32, u32)>,
    log: Vec<Action>,
}

impl Target {
    fn new(delay: u32) -> Target {
        Target {
            clock_control: 0,
            clock_config: 0,
            flash_control: CTL_LK,
            flash_status: 0,
            flash_address: 0,
            delay,
            osc_wait: 0,
            source_wait: 0,
            pll_wait: 0,
            busy_wait: 0,
            erase_error: 0,
            failing_store: 0,
            store_error: 0,
            key_writes: Vec::new(),
            stores: Vec::new(),
            log: Vec::new(),
        }
    }

    fn read(&mut self, register: Register) -> u32 {
        match register {
            Register::ClockControl => {
                let mut value = self.clock_control & !(CLK_OSC_STABLE | CLK_PLL_STABLE);
                if self.clock_control & CLK_OSC_ENABLE != 0 {
                    if self.osc_wait == 0 {
                        value |= CLK_OSC_STABLE;
                    } else {
                        self.osc_wait -= 1;
                    }
                }
                if self.clock_control & CLK_PLL_ENABLE != 0 {
                    if self.pll_wait == 0 {
                        value |= CLK_PLL_STABLE;
                    } else {
                        self.pll_wait -= 1;
                    }
                }
                value
            }
            Register::ClockConfig => {
                if self.source_wait == 0 {
                    let source = self.clock_config & 0x3;
                    self.clock_config = (self.clock_config & !0xC) | (source << 2);
                } else {
                    self.source_wait -= 1;
                }
                self.clock_config
            }
            Register::FlashStatus => {
                if self.busy_wait == 0 {
                    self.flash_status &= !STAT_BUSY;
                } else {
                    self.busy_wait -= 1;
                }
                self.flash_status
            }
            Register::FlashControl => self.flash_control,
            Register::FlashAddress => self.flash_address,
            Register::FlashKey => 0,
        }
    }

    fn write(&mut self, register: Register, value: u32) {
        match register {
            Register::ClockControl => {
                if value & CLK_OSC_ENABLE != 0 && self.clock_control & CLK_OSC_ENABLE == 0 {
                    self.osc_wait = self.delay;
                }
                if value & CLK_PLL_ENABLE != 0 && self.clock_control & CLK_PLL_ENABLE == 0 {
                    self.pll_wait = self.delay;
                }
                self.clock_control = value;
            }
            Register::ClockConfig => {
                if value & 0x3 != self.clock_config & 0x3 {
                    self.source_wait = self.delay;
                }
                self.clock_config = (value & !0xC) | (self.clock_config & 0xC);
            }
            Register::FlashKey => {
                self.key_writes.push(value);
                let n = self.key_writes.len();
                if n >= 2 && self.key_writes[n - 2] == FLASH_KEY1 && value == FLASH_KEY2 {
                    self.flash_control &= !CTL_LK;
                } else if value != FLASH_KEY1 {
                    self.flash_control |= CTL_LK;
                }
            }
            Register::FlashStatus => {
                // the error flags are cleared by writing ones
                self.flash_status &= !(value & STAT_ERRORS);
            }
            Register::FlashControl => {
                let lock = (self.flash_control | value) & CTL_LK;
                self.flash_control = (value & !CTL_LK) | lock;
                if value & CTL_START != 0 {
                    self.flash_status |= STAT_BUSY | self.erase_error;
                    self.busy_wait = self.delay;
                }
            }
            Register::FlashAddress => self.flash_address = value,
        }
    }

    fn store(&mut self, address: u32, word: u32) {
        self.stores.push((address, word));
        self.flash_status |= STAT_BUSY;
        self.busy_wait = self.delay;
        if self.stores.len() == self.failing_store {
            self.flash_status |= self.store_error;
        }
    }

    /// Runs a session to its end, performing each action, and gives the
    /// status back.
    fn run(&mut self, mut session: Session) -> i32 {
        let mut reply = 0;
        for _ in 0..100_000 {
            let action = session.step(reply);
            self.log.push(action);
            match action {
                Action::Read(register) => reply = self.read(register),
                Action::Write(register, value) => self.write(register, value),
                Action::Store { address, word } => self.store(address, word),
                Action::Return(status) => {
                    assert_eq!(session.status(), Some(status));
                    return status;
                }
            }
        }
        panic!("the session did not end");
    }

    fn writes_to(&self, register: Register) -> Vec<u32> {
        let mut out = Vec::new();
        for action in &self.log {
            if let Action::Write(r, value) = action {
                if *r == register {
                    out.push(*value);
                }
            }
        }
        out
    }

    fn reads_of(&self, register: Register) -> usize {
        let mut count = 0;
        for action in &self.log {
            if *action == Action::Read(register) {
                count += 1;
            }
        }
        count
    }
}

#[test]
fn cold_start_unlocks_with_both_keys_in_order() {
    let mut target = Target::new(3);
    let status = target.run(Init(0x0800_0000, 72_000_000, 1));
    assert_eq!(status, 0);
    assert_eq!(target.key_writes, vec![0x4567_0123, 0xCDEF_89AB]);
    assert_eq!(target.flash_control & CTL_LK, 0);
    assert!(target.stores.is_empty());
}

#[test]
fn init_leaves_the_pll_as_clock_source() {
    let mut target = Target::new(2);
    target.clock_config = 0x0000_0055;
    assert_eq!(target.run(Init(0x0800_0000, 72_000_000, 2)), 0);
    assert_ne!(target.clock_control & CLK_OSC_ENABLE, 0);
    assert_ne!(target.clock_control & CLK_PLL_ENABLE, 0);
    assert_eq!(target.clock_config & 0x3, SOURCE_PLL);
    assert_eq!(target.clock_config & 0xC, 0x8);
    assert_eq!(target.clock_config & CFG_PLL_SETUP_FIELDS, CFG_PLL_SETUP);
    // AHB undivided, APB1 divided by two, APB2 undivided
    assert_eq!(target.clock_config & 0x0000_00F0, 0);
    assert_eq!(target.clock_config & 0x0000_0700, 0x0000_0400);
    assert_eq!(target.clock_config & 0x0000_3800, 0);
}

#[test]
fn init_on_ready_hardware_takes_exactly_these_actions() {
    let mut target = Target::new(0);
    assert_eq!(target.run(Init(0, 0, 3)), 0);
    let cc = Register::ClockControl;
    let cf = Register::ClockConfig;
    let expected = vec![
        Action::Read(cc),
        Action::Write(cc, 0x0000_0001),
        Action::Read(cc),
        Action::Read(cf),
        Action::Write(cf, 0x0000_0000),
        Action::Read(cf),
        Action::Read(cc),
        // the "stable" flag that was read is written back with the rest
        Action::Write(cc, 0x0000_0003),
        Action::Read(cf),
        Action::Write(cf, 0x2028_0400),
        Action::Read(cc),
        Action::Write(cc, 0x0100_0003),
        Action::Read(cc),
        Action::Read(cf),
        Action::Write(cf, 0x2028_0402),
        Action::Read(cf),
        Action::Read(Register::FlashControl),
        Action::Write(Register::FlashKey, 0x4567_0123),
        Action::Write(Register::FlashKey, 0xCDEF_89AB),
        Action::Return(0),
    ];
    assert_eq!(target.log, expected);
}

#[test]
fn init_writes_no_key_when_the_controller_is_unlocked() {
    let mut target = Target::new(1);
    target.flash_control = 0;
    assert_eq!(target.run(Init(0x0800_0000, 72_000_000, 1)), 0);
    assert!(target.key_writes.is_empty());
    assert_eq!(target.reads_of(Register::FlashControl), 1);
    assert_eq!(target.log[target.log.len() - 2], Action::Read(Register::FlashControl));
}

#[test]
fn init_polls_until_each_flag_shows() {
    let mut quick = Target::new(0);
    let mut slow = Target::new(7);
    // both targets run from the PLL when the call comes
    quick.clock_config = 0x0000_000A;
    slow.clock_config = 0x0000_000A;
    assert_eq!(quick.run(Init(0, 0, 1)), 0);
    assert_eq!(slow.run(Init(0, 0, 1)), 0);
    // four waits, seven more reads each
    assert_eq!(slow.log.len(), quick.log.len() + 4 * 7);
    assert_eq!(
        slow.writes_to(Register::ClockControl),
        quick.writes_to(Register::ClockControl)
    );
    assert_eq!(
        slow.writes_to(Register::ClockConfig),
        quick.writes_to(Register::ClockConfig)
    );
}

#[test]
fn erase_sector_sets_and_clears_page_erase() {
    let mut target = Target::new(4);
    target.flash_control = 0;
    let status = target.run(EraseSector(0x0800_0400));
    assert_eq!(status, 0);
    let status_reg = Register::FlashStatus;
    let expected = vec![
        Action::Write(Register::FlashControl, CTL_PER),
        Action::Write(Register::FlashAddress, 0x0800_0400),
        Action::Read(Register::FlashControl),
        Action::Write(Register::FlashControl, CTL_PER | CTL_START),
        Action::Read(status_reg),
        Action::Read(status_reg),
        Action::Read(status_reg),
        Action::Read(status_reg),
        Action::Read(status_reg),
        Action::Write(Register::FlashControl, 0),
        Action::Read(status_reg),
        Action::Return(0),
    ];
    assert_eq!(target.log, expected);
    assert_eq!(target.flash_address, 0x0800_0400);
    assert_eq!(target.flash_control & CTL_PER, 0);
}

#[test]
fn erase_sector_failure_clears_the_flags_and_does_not_lock() {
    for error in [STAT_PGERR, STAT_WPERR, STAT_ERRORS] {
        let mut target = Target::new(2);
        target.flash_control = 0;
        target.erase_error = error;
        let status = target.run(EraseSector(0x0800_1000));
        assert_eq!(status, 1);
        assert_eq!(target.writes_to(Register::FlashStatus), vec![STAT_ERRORS]);
        assert_eq!(target.flash_status & STAT_ERRORS, 0);
        assert!(target.key_writes.is_empty());
        assert_eq!(target.flash_control & CTL_LK, 0);
        let control = target.writes_to(Register::FlashControl);
        assert_eq!(control.len(), 3);
        assert_eq!(control[2] & CTL_PER, 0);
        assert_eq!(target.log[target.log.len() - 1], Action::Return(1));
        assert_eq!(
            target.log[target.log.len() - 2],
            Action::Write(Register::FlashStatus, STAT_ERRORS)
        );
    }
}

#[test]
fn erase_sector_keeps_the_bits_it_read_when_it_sets_start() {
    let mut target = Target::new(0);
    // locked: the lock bit is read back and written again with the start bit
    assert_eq!(target.run(EraseSector(0x0800_0000)), 0);
    assert_eq!(
        target.writes_to(Register::FlashControl),
        vec![CTL_PER, CTL_LK | CTL_PER | CTL_START, 0]
    );
}

#[test]
fn program_page_stores_little_endian_words_at_rising_addresses() {
    let buf: [u8; 16] = [
        0x11, 0x22, 0x33, 0x44, 0x55, 0x66, 0x77, 0x88, 0x99, 0xAA, 0xBB, 0xCC, 0xDD, 0xEE, 0xFF,
        0x00,
    ];
    let mut target = Target::new(3);
    target.flash_control = 0;
    assert!(can_program(0x0800_0000, 16, &buf));
    let status = target.run(ProgramPage(0x0800_0000, 16, &buf));
    assert_eq!(status, 0);
    assert_eq!(
        target.stores,
        vec![
            (0x0800_0000, 0x4433_2211),
            (0x0800_0004, 0x8877_6655),
            (0x0800_0008, 0xCCBB_AA99),
            (0x0800_000C, 0x00FF_EEDD),
        ]
    );
    assert_eq!(target.log[0], Action::Write(Register::FlashControl, CTL_PG));
    assert_eq!(target.writes_to(Register::FlashControl), vec![CTL_PG]);
    assert!(target.key_writes.is_empty());
    // each store is followed by its polls: three busy, one idle, one for the flags
    assert_eq!(target.reads_of(Register::FlashStatus), 4 * 5);
    for (i, action) in target.log.iter().enumerate() {
        if let Action::Store { .. } = action {
            assert_eq!(target.log[i + 1], Action::Read(Register::FlashStatus));
            if i > 1 {
                // the word before was awaited and tested
                assert_eq!(target.log[i - 1], Action::Read(Register::FlashStatus));
                assert_eq!(target.log[i - 2], Action::Read(Register::FlashStatus));
            }
        }
    }
    let n = target.log.len();
    assert_eq!(target.log[n - 1], Action::Return(0));
    assert_eq!(target.log[n - 2], Action::Read(Register::FlashStatus));
}

#[test]
fn program_page_write_protect_fault_on_second_word_locks() {
    let buf: [u8; 16] = [1, 2, 3, 4, 5, 6, 7, 8, 9, 10, 11, 12, 13, 14, 15, 16];
    let mut target = Target::new(2);
    target.flash_control = 0;
    target.failing_store = 2;
    target.store_error = STAT_WPERR;
    let status = target.run(ProgramPage(0x0800_0000, 16, &buf));
    assert_eq!(status, 1);
    assert_eq!(target.key_writes, vec![0]);
    assert_ne!(target.flash_control & CTL_LK, 0);
    assert_eq!(target.stores, vec![(0x0800_0000, 0x0403_0201), (0x0800_0004, 0x0807_0605)]);
    let n = target.log.len();
    assert_eq!(target.log[n - 1], Action::Return(1));
    assert_eq!(target.log[n - 2], Action::Write(Register::FlashKey, 0));
}

#[test]
fn program_page_programming_error_on_first_word_locks() {
    let buf: [u8; 8] = [0xFF; 8];
    let mut target = Target::new(0);
    target.flash_control = 0;
    target.failing_store = 1;
    target.store_error = STAT_PGERR;
    assert_eq!(target.run(ProgramPage(0x0800_0100, 8, &buf)), 1);
    assert_eq!(target.stores, vec![(0x0800_0100, 0xFFFF_FFFF)]);
    assert_eq!(target.key_writes, vec![0]);
}

#[test]
fn program_page_of_nothing_only_sets_the_command() {
    let buf: [u8; 0] = [];
    let mut target = Target::new(5);
    assert_eq!(target.run(ProgramPage(0x0800_0000, 0, &buf)), 0);
    assert_eq!(
        target.log,
        vec![Action::Write(Register::FlashControl, CTL_PG), Action::Return(0)]
    );
}

#[test]
fn program_page_uses_the_first_sz_bytes_only() {
    let buf: [u8; 12] = [1, 0, 0, 0, 2, 0, 0, 0, 3, 0, 0, 0];
    let mut target = Target::new(0);
    assert_eq!(target.run(ProgramPage(0x0801_FFF8, 8, &buf)), 0);
    assert_eq!(target.stores, vec![(0x0801_FFF8, 1), (0x0801_FFFC, 2)]);
}

#[test]
fn program_page_reaches_the_last_word_of_the_address_space() {
    let buf: [u8; 4] = [0x78, 0x56, 0x34, 0x12];
    assert!(can_program(0xFFFF_FFFC, 4, &buf));
    let mut target = Target::new(0);
    assert_eq!(target.run(ProgramPage(0xFFFF_FFFC, 4, &buf)), 0);
    assert_eq!(target.stores, vec![(0xFFFF_FFFC, 0x1234_5678)]);
}

#[test]
fn can_program_tells_what_program_page_asks_for() {
    let buf: [u8; 8] = [0; 8];
    assert!(can_program(0x0800_0000, 8, &buf));
    assert!(can_program(0x0800_0000, 4, &buf));
    assert!(can_program(0x0800_0000, 0, &buf));
    // address not a multiple of four
    assert!(!can_program(0x0800_0002, 8, &buf));
    // size not a multiple of four
    assert!(!can_program(0x0800_0000, 6, &buf));
    // buffer too short
    assert!(!can_program(0x0800_0000, 12, &buf));
    // past the end of the address space
    assert!(!can_program(0xFFFF_FFFC, 8, &buf));
    assert!(can_program(0xFFFF_FFF8, 8, &buf));
}

#[test]
fn uninit_resets_the_flash_control_register() {
    let mut target = Target::new(0);
    target.flash_control = CTL_PG;
    let status = target.run(UnInit(2));
    assert_eq!(status, 0);
    assert_eq!(CTL_RESET, 0x0000_0080);
    assert_eq!(
        target.log,
        vec![Action::Write(Register::FlashControl, 0x0000_0080), Action::Return(0)]
    );
    assert_ne!(target.flash_control & CTL_LK, 0);
    // the clocks are left alone
    assert_eq!(target.reads_of(Register::ClockControl), 0);
    assert!(target.writes_to(Register::ClockConfig).is_empty());
}

#[test]
fn a_return_is_repeated_by_every_later_step() {
    let mut session = EraseSector(0x0800_0000);
    let mut target = Target::new(0);
    target.erase_error = STAT_WPERR;
    let mut reply = 0;
    let mut status = None;
    while status.is_none() {
        match session.step(reply) {
            Action::Read(register) => reply = target.read(register),
            Action::Write(register, value) => target.write(register, value),
            Action::Store { address, word } => target.store(address, word),
            Action::Return(code) => status = Some(code),
        }
    }
    assert_eq!(status, Some(1));
    for reply in [0, 1, 0xFFFF_FFFF] {
        assert_eq!(session.step(reply), Action::Return(1));
        assert_eq!(session.status(), Some(1));
    }
}

#[test]
fn a_session_has_no_status_before_it_returns() {
    let mut session = UnInit(1);
    assert_eq!(session.status(), None);
    assert_eq!(session.step(0), Action::Write(Register::FlashControl, CTL_RESET));
    assert_eq!(session.status(), None);
    assert_eq!(session.step(0), Action::Return(0));
    assert_eq!(session.status(), Some(0));
}

#[test]
fn a_busy_flash_is_polled_for_as_long_as_it_is_busy() {
    let mut session = EraseSector(0x0800_0400);
    assert_eq!(session.step(0), Action::Write(Register::FlashControl, CTL_PER));
    assert_eq!(session.step(0), Action::Write(Register::FlashAddress, 0x0800_0400));
    assert_eq!(session.step(0), Action::Read(Register::FlashControl));
    assert_eq!(session.step(CTL_PER), Action::Write(Register::FlashControl, 0x42));
    assert_eq!(session.step(0), Action::Read(Register::FlashStatus));
    for _ in 0..10_000 {
        assert_eq!(session.step(STAT_BUSY), Action::Read(Register::FlashStatus));
    }
    // the error flags do not end the wait, only the busy flag does
    assert_eq!(session.step(STAT_BUSY | STAT_WPERR), Action::Read(Register::FlashStatus));
    assert_eq!(session.step(STAT_WPERR), Action::Write(Register::FlashControl, 0));
    assert_eq!(session.step(0), Action::Read(Register::FlashStatus));
    assert_eq!(session.step(STAT_WPERR), Action::Write(Register::FlashStatus, STAT_ERRORS));
    assert_eq!(session.step(0), Action::Return(1));
}

#[test]
fn a_session_opened_on_an_operation_is_the_one_the_entry_point_opens() {
    let mut direct = Session::new(Operation::EraseSector { adr: 0x0800_0800 });
    let mut entry = EraseSector(0x0800_0800);
    for reply in [0, 0, 0, 0, 0, 0, 1, 0, 0, 0, 0, 0] {
        assert_eq!(direct.step(reply), entry.step(reply));
    }
    assert_eq!(direct.status(), Some(0));
}

#[test]
fn unlock_words_are_the_documented_keys() {
    assert_eq!(FLASH_KEY1, 0x4567_0123);
    assert_eq!(FLASH_KEY2, 0xCDEF_89AB);
}
