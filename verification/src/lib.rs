//! Flash programming algorithm for an on-chip flash controller.
//!
//! A host debugger loads the algorithm into the target's RAM, reads the
//! device descriptor, and then calls `Init`, any number of `EraseSector` and
//! `ProgramPage`, and `UnInit`. Each call opens a [`session::Session`]: the
//! driver decides what goes over the bus, step by step, and the caller of
//! `step` performs each action on the hardware. The driver itself never
//! touches a register, so all of it is verified: see `erase_laws`,
//! `program_laws` and `init_laws` for what holds of every run.

#![allow(non_snake_case)]

pub mod registers;
pub mod script;
pub mod clock;
pub mod flash;
pub mod session;
pub mod trace;
pub mod erase_laws;
pub mod program_laws;
pub mod init_laws;
pub mod descriptor;

pub use descriptor::{flash_device, sectors, FlashDeviceDescription, FlashSector};
pub use registers::Register;
pub use script::Action;
pub use session::Session;

use vstd::prelude::*;
use flash::{erase_script, le_words, program_script, reset_script};
use session::{init_script, start, Operation};

verus! {

/// Opens the session that prepares the target for flash programming: the
/// clock bring-up, then the unlock. `adr` is the base address of the device,
/// `clk` the clock frequency the host assumes and `fnc` the purpose of the
/// call (1 erase, 2 program, 3 verify); none of them changes what is done.
pub fn Init(adr: u32, clk: u32, fnc: u32) -> (session: Session<'static>)
    ensures
        session@ == start(init_script()),
{
    Session::new(Operation::Init)
}

/// Opens the session that ends flash programming: the flash controller is
/// reset, the clocks are left as `Init` set them. `fnc` is the purpose of the
/// call, as for `Init`, and changes nothing.
pub fn UnInit(fnc: u32) -> (session: Session<'static>)
    ensures
        session@ == start(reset_script()),
{
    Session::new(Operation::UnInit)
}

/// Opens the session that erases the sector holding the address `adr`.
pub fn EraseSector(adr: u32) -> (session: Session<'static>)
    ensures
        session@ == start(erase_script(adr)),
{
    Session::new(Operation::EraseSector { adr })
}

/// Whether `sz` bytes of `buf` can be programmed to `adr`: address and size
/// are multiples of four, the buffer holds `sz` bytes, and the last byte
/// still has an address.
pub open spec fn spec_can_program(adr: u32, sz: u32, buf: Seq<u8>) -> bool {
    &&& adr % 4 == 0
    &&& sz % 4 == 0
    &&& sz <= buf.len()
    &&& adr + sz <= 0x1_0000_0000
}

/// Tests what `ProgramPage` asks of its arguments.
pub fn can_program(adr: u32, sz: u32, buf: &[u8]) -> (ok: bool)
    ensures
        ok == spec_can_program(adr, sz, buf@),
{
    adr % 4 == 0 && sz % 4 == 0 && sz as usize <= buf.len() && sz as u64 + adr as u64
        <= 0x1_0000_0000
}

/// Opens the session that programs the first `sz` bytes of `buf` to the
/// address `adr`, word by word, each word read least significant byte first.
pub fn ProgramPage<'a>(adr: u32, sz: u32, buf: &'a [u8]) -> (session: Session<'a>)
    requires
        spec_can_program(adr, sz, buf@),
    ensures
        session@ == start(program_script(adr, le_words(buf@, sz as nat))),
{
    Session::new(Operation::ProgramPage { adr, sz, buf })
}

} // verus!
