//! The device descriptor: the record a host reads before it calls any code,
//! and the bytes it reads it as.

use vstd::prelude::*;

verus! {

/// Number of entries of the sector table.
pub const SECTOR_SLOTS: usize = 512;

/// Number of bytes of the device name.
pub const NAME_LEN: usize = 128;

/// Number of bytes of the descriptor before the sector table.
pub const HEADER_LEN: usize = 157;

/// Number of bytes of the whole descriptor.
pub const DESCRIPTOR_LEN: usize = 4253;

/// Size and address that mark the end of the sector table.
pub const SECTOR_END_MARK: u32 = 0xffff_ffff;

/// Version of the descriptor format: 1.1.
pub const FORMAT_VERSION: u16 = 0x0101;

/// Kind of the device: on-chip flash.
pub const DEVICE_KIND: u16 = 1;

/// Base address of the flash in the target's address space.
pub const DEVICE_BASE: u32 = 0x0800_0000;

/// Size of the flash in bytes: 128 KiB.
pub const DEVICE_SIZE: u32 = 0x0002_0000;

/// Size of a page in bytes.
pub const PAGE_SIZE: u32 = 1024;

/// Size of a sector in bytes.
pub const SECTOR_SIZE: u32 = 0x0400;

/// Value of a byte of erased flash.
pub const ERASED_BYTE: u8 = 0xff;

/// Time the host allows for programming one page, in milliseconds.
pub const PROGRAM_TIME_OUT: u32 = 100;

/// Time the host allows for erasing one sector, in milliseconds.
pub const ERASE_TIME_OUT: u32 = 6000;

/// One run of equally sized sectors: the size of each, and the offset of the
/// first of them from the device base.
#[derive(Clone, Copy, Debug, PartialEq, Eq, Structural)]
pub struct FlashSector {
    pub size: u32,
    pub address: u32,
}

impl FlashSector {
    /// The entry that ends a sector table.
    pub open spec fn spec_end() -> FlashSector {
        FlashSector { size: SECTOR_END_MARK, address: SECTOR_END_MARK }
    }

    /// The entry of an unused slot.
    pub open spec fn spec_default() -> FlashSector {
        FlashSector { size: 0, address: 0 }
    }

    /// The entry of an unused slot: size and address zero.
    pub fn default() -> (s: FlashSector)
        ensures
            s == FlashSector::spec_default(),
    {
        FlashSector { size: 0, address: 0 }
    }

    /// The entry that ends a sector table: size and address all ones.
    pub fn end() -> (s: FlashSector)
        ensures
            s == FlashSector::spec_end(),
    {
        FlashSector { size: SECTOR_END_MARK, address: SECTOR_END_MARK }
    }

    /// Whether this entry ends a sector table.
    pub fn is_end(&self) -> (b: bool)
        ensures
            b == (*self == FlashSector::spec_end()),
    {
        self.size == SECTOR_END_MARK && self.address == SECTOR_END_MARK
    }
}

/// The sector table of the device: sectors of 1 KiB from offset 0, then the
/// end mark, then unused slots.
pub open spec fn spec_sectors() -> Seq<FlashSector> {
    Seq::new(
        SECTOR_SLOTS as nat,
        |i: int|
            if i == 0 {
                FlashSector { size: SECTOR_SIZE, address: 0 }
            } else if i == 1 {
                FlashSector::spec_end()
            } else {
                FlashSector::spec_default()
            },
    )
}

/// Builds the sector table of the device.
pub fn sectors() -> (table: [FlashSector; 512])
    ensures
        table@ == spec_sectors(),
{
    let mut table = [FlashSector::default();512];
    table[0] = FlashSector { size: SECTOR_SIZE, address: 0x0 };
    table[1] = FlashSector::end();
    assert(table@ =~= spec_sectors());
    table
}

/// The name of the device in ASCII.
pub open spec fn spec_name_text() -> Seq<u8> {
    seq![
        0x47u8, 0x44u8, 0x33u8, 0x32u8, 0x56u8, 0x46u8, 0x31u8, 0x30u8, 0x33u8, 0x20u8, 0x31u8,
        0x32u8, 0x38u8, 0x20u8, 0x4bu8, 0x42u8, 0x20u8, 0x69u8, 0x6eu8, 0x74u8, 0x65u8, 0x72u8,
        0x6eu8, 0x61u8, 0x6cu8, 0x20u8, 0x66u8, 0x6cu8, 0x61u8, 0x73u8, 0x68u8,
    ]
}

/// `text` followed by zeros up to the length of the name field.
pub open spec fn spec_padded_name(text: Seq<u8>) -> Seq<u8> {
    Seq::new(
        NAME_LEN as nat,
        |i: int|
            if i < text.len() {
                text[i]
            } else {
                0u8
            },
    )
}

/// The name field of the device: "GD32VF103 128 KB internal flash", padded
/// with zeros.
pub fn device_name() -> (name: [u8; 128])
    ensures
        name@ == spec_padded_name(spec_name_text()),
{
    let text: [u8; 31] = [
        0x47, 0x44, 0x33, 0x32, 0x56, 0x46, 0x31, 0x30, 0x33, 0x20, 0x31, 0x32, 0x38, 0x20, 0x4b,
        0x42, 0x20, 0x69, 0x6e, 0x74, 0x65, 0x72, 0x6e, 0x61, 0x6c, 0x20, 0x66, 0x6c, 0x61, 0x73,
        0x68,
    ];
    assert(text@ =~= spec_name_text());
    let mut name = [0u8;128];
    let mut i: usize = 0;
    while i < 31
        invariant
            i <= 31,
            text@ == spec_name_text(),
            name@.len() == 128,
            forall|k: int| 0 <= k < i ==> name@[k] == text@[k],
            forall|k: int| i <= k < 128 ==> name@[k] == 0u8,
        decreases 31 - i,
    {
        name[i] = text[i];
        i = i + 1;
    }
    assert(name@ =~= spec_padded_name(spec_name_text()));
    name
}

/// The record that describes the device to the host.
pub struct FlashDeviceDescription {
    /// Version of the descriptor format.
    pub vers: u16,
    /// Name of the device, ASCII, padded with zeros.
    pub dev_name: [u8; 128],
    /// Kind of the device.
    pub dev_type: u16,
    /// Base address of the device in the target's address space.
    pub dev_addr: u32,
    /// Programmable size in bytes.
    pub device_size: u32,
    /// Smallest unit of programming in bytes.
    pub page_size: u32,
    /// Always zero.
    pub _reserved: u32,
    /// Value of a byte of erased memory.
    pub empty: u8,
    /// Time the host allows for programming one page, in milliseconds.
    pub program_time_out: u32,
    /// Time the host allows for erasing one sector, in milliseconds.
    pub erase_time_out: u32,
    /// The sector table, ended by the end mark.
    pub flash_sectors: [FlashSector; 512],
}

/// The two bytes of `x`, least significant first.
pub open spec fn le16(x: u16) -> Seq<u8> {
    seq![(x % 0x100) as u8, (x / 0x100) as u8]
}

/// The four bytes of `x`, least significant first.
pub open spec fn le32(x: u32) -> Seq<u8> {
    seq![
        (x % 0x100) as u8,
        (x / 0x100 % 0x100) as u8,
        (x / 0x1_0000 % 0x100) as u8,
        (x / 0x100_0000) as u8,
    ]
}

/// The eight bytes of a sector entry: its size, then its address.
pub open spec fn sector_bytes(s: FlashSector) -> Seq<u8> {
    le32(s.size) + le32(s.address)
}

/// The bytes of a sector table: its entries one after another.
pub open spec fn table_bytes(table: Seq<FlashSector>) -> Seq<u8> {
    Seq::new(8 * table.len(), |k: int| sector_bytes(table[k / 8])[k % 8])
}

impl FlashDeviceDescription {
    /// Whether the first end mark of the table is at slot `n`.
    pub open spec fn ends_at(&self, n: int) -> bool {
        &&& 0 <= n < SECTOR_SLOTS
        &&& self.flash_sectors@[n] == FlashSector::spec_end()
        &&& forall|i: int| 0 <= i < n ==> self.flash_sectors@[i] != FlashSector::spec_end()
    }

    /// A descriptor is well formed when its reserved word is zero, its name
    /// is ASCII and zero from its first zero byte on, and its sector table
    /// holds an end mark, with a change of size from each entry before the
    /// mark to the next.
    pub open spec fn wf(&self) -> bool {
        &&& self._reserved == 0
        &&& forall|i: int| 0 <= i < NAME_LEN ==> self.dev_name@[i] < 0x80
        &&& forall|i: int, j: int|
            0 <= i <= j < NAME_LEN && self.dev_name@[i] == 0 ==> self.dev_name@[j] == 0
        &&& exists|n: int| self.ends_at(n)
        &&& forall|n: int, i: int|
            #[trigger] self.ends_at(n) && 0 <= i && i + 1 < n ==> #[trigger] self.size_changes_after(
                i,
            )
    }

    /// Whether entry `i` and the entry after it differ in size.
    pub open spec fn size_changes_after(&self, i: int) -> bool {
        self.flash_sectors@[i].size != self.flash_sectors@[i + 1].size
    }

    /// The bytes of the descriptor as the host reads them: the fields in
    /// their order, each least significant byte first, with nothing between
    /// them.
    pub open spec fn layout(&self) -> Seq<u8> {
        le16(self.vers) + self.dev_name@ + le16(self.dev_type) + le32(self.dev_addr) + le32(
            self.device_size,
        ) + le32(self.page_size) + le32(self._reserved) + seq![self.empty] + le32(
            self.program_time_out,
        ) + le32(self.erase_time_out) + table_bytes(self.flash_sectors@)
    }

    /// Finds the end mark: the number of entries before it, or `None` when
    /// the table has no end mark.
    pub fn sector_count(&self) -> (r: Option<usize>)
        ensures
            match r {
                Some(n) => self.ends_at(n as int),
                None => forall|n: int| !self.ends_at(n),
            },
    {
        let mut i: usize = 0;
        while i < 512
            invariant
                i <= 512,
                self.flash_sectors@.len() == 512,
                forall|k: int| 0 <= k < i ==> self.flash_sectors@[k] != FlashSector::spec_end(),
            decreases 512 - i,
        {
            if self.flash_sectors[i].is_end() {
                return Some(i);
            }
            i = i + 1;
        }
        None
    }

    /// Writes the descriptor out as the host reads it.
    pub fn to_bytes(&self) -> (bytes: Vec<u8>)
        ensures
            bytes@ == self.layout(),
            bytes@.len() == DESCRIPTOR_LEN,
    {
        let mut out: Vec<u8> = Vec::new();
        push_le16(&mut out, self.vers);
        let mut i: usize = 0;
        while i < 128
            invariant
                i <= 128,
                self.dev_name@.len() == 128,
                out@ == le16(self.vers) + self.dev_name@.take(i as int),
            decreases 128 - i,
        {
            out.push(self.dev_name[i]);
            assert(self.dev_name@.take(i + 1) =~= self.dev_name@.take(i as int).push(
                self.dev_name@[i as int],
            ));
            i = i + 1;
        }
        assert(self.dev_name@.take(128) =~= self.dev_name@);
        push_le16(&mut out, self.dev_type);
        push_le32(&mut out, self.dev_addr);
        push_le32(&mut out, self.device_size);
        push_le32(&mut out, self.page_size);
        push_le32(&mut out, self._reserved);
        out.push(self.empty);
        push_le32(&mut out, self.program_time_out);
        push_le32(&mut out, self.erase_time_out);
        let ghost header = out@;
        assert(header =~= le16(self.vers) + self.dev_name@ + le16(self.dev_type) + le32(
            self.dev_addr,
        ) + le32(self.device_size) + le32(self.page_size) + le32(self._reserved)
            + seq![self.empty] + le32(self.program_time_out) + le32(self.erase_time_out));
        assert(header.len() == HEADER_LEN);
        let mut k: usize = 0;
        while k < 512
            invariant
                k <= 512,
                self.flash_sectors@.len() == 512,
                header.len() == HEADER_LEN,
                out@ == header + table_bytes(self.flash_sectors@.take(k as int)),
            decreases 512 - k,
        {
            let sector = self.flash_sectors[k];
            let ghost before = out@;
            push_le32(&mut out, sector.size);
            push_le32(&mut out, sector.address);
            proof {
                let done = self.flash_sectors@.take(k as int);
                let more = self.flash_sectors@.take(k + 1);
                assert(out@ =~= before + sector_bytes(sector));
                assert(table_bytes(more) =~= table_bytes(done) + sector_bytes(sector)) by {
                    assert forall|j: int| 0 <= j < 8 * (k + 1) implies table_bytes(more)[j] == (
                    table_bytes(done) + sector_bytes(sector))[j] by {
                        if j < 8 * k {
                            assert(more[j / 8] == done[j / 8]);
                        } else {
                            assert(j / 8 == k);
                            assert(j % 8 == j - 8 * k);
                        }
                    }
                }
                assert(out@ =~= header + table_bytes(more));
            }
            k = k + 1;
        }
        assert(self.flash_sectors@.take(512) =~= self.flash_sectors@);
        out
    }
}

/// Appends the two bytes of `x`, least significant first.
fn push_le16(out: &mut Vec<u8>, x: u16)
    ensures
        final(out)@ == old(out)@ + le16(x),
{
    out.push((x % 0x100) as u8);
    out.push((x / 0x100) as u8);
    assert(out@ =~= old(out)@ + le16(x));
}

/// Appends the four bytes of `x`, least significant first.
fn push_le32(out: &mut Vec<u8>, x: u32)
    ensures
        final(out)@ == old(out)@ + le32(x),
{
    out.push((x % 0x100) as u8);
    out.push((x / 0x100 % 0x100) as u8);
    out.push((x / 0x1_0000 % 0x100) as u8);
    out.push((x / 0x100_0000) as u8);
    assert(out@ =~= old(out)@ + le32(x));
}

/// The descriptor of the device: format version 1.1, on-chip flash of
/// 128 KiB at `0x0800_0000` in pages and sectors of 1 KiB, erased bytes read
/// `0xFF`, 100 ms to program a page and 6000 ms to erase a sector.
pub fn flash_device() -> (d: FlashDeviceDescription)
    ensures
        d.vers == FORMAT_VERSION,
        d.dev_name@ == spec_padded_name(spec_name_text()),
        d.dev_type == DEVICE_KIND,
        d.dev_addr == DEVICE_BASE,
        d.device_size == DEVICE_SIZE,
        d.page_size == PAGE_SIZE,
        d._reserved == 0,
        d.empty == ERASED_BYTE,
        d.program_time_out == PROGRAM_TIME_OUT,
        d.erase_time_out == ERASE_TIME_OUT,
        d.flash_sectors@ == spec_sectors(),
        d.ends_at(1),
        d.wf(),
{
    let d = FlashDeviceDescription {
        vers: FORMAT_VERSION,
        dev_name: device_name(),
        dev_type: DEVICE_KIND,
        dev_addr: DEVICE_BASE,
        device_size: DEVICE_SIZE,
        page_size: PAGE_SIZE,
        _reserved: 0,
        empty: ERASED_BYTE,
        program_time_out: PROGRAM_TIME_OUT,
        erase_time_out: ERASE_TIME_OUT,
        flash_sectors: sectors(),
    };
    proof {
        let text = spec_name_text();
        assert(text.len() == 31);
        assert forall|i: int| 0 <= i < NAME_LEN implies d.dev_name@[i] < 0x80 && (i < 31
            ==> d.dev_name@[i] != 0) by {
            if i < 31 {
                assert(d.dev_name@[i] == text[i]);
                lemma_name_text(i);
            }
        }
        assert(d.ends_at(1));
        assert forall|n: int, i: int| #[trigger]
            d.ends_at(n) && 0 <= i && i + 1 < n implies #[trigger] d.size_changes_after(i) by {
            if n > 1 {
                assert(d.flash_sectors@[1] == FlashSector::spec_end());
            }
        }
    }
    d
}

/// Every byte of the device name is a printing ASCII character.
proof fn lemma_name_text(i: int)
    requires
        0 <= i < 31,
    ensures
        0x20 <= spec_name_text()[i] < 0x7f,
{
    let t = spec_name_text();
    assert(t[0] == 0x47 && t[1] == 0x44 && t[2] == 0x33 && t[3] == 0x32 && t[4] == 0x56 && t[5]
        == 0x46 && t[6] == 0x31 && t[7] == 0x30 && t[8] == 0x33 && t[9] == 0x20);
    assert(t[10] == 0x31 && t[11] == 0x32 && t[12] == 0x38 && t[13] == 0x20 && t[14] == 0x4b
        && t[15] == 0x42 && t[16] == 0x20 && t[17] == 0x69 && t[18] == 0x6e && t[19] == 0x74);
    assert(t[20] == 0x65 && t[21] == 0x72 && t[22] == 0x6e && t[23] == 0x61 && t[24] == 0x6c
        && t[25] == 0x20 && t[26] == 0x66 && t[27] == 0x6c && t[28] == 0x61 && t[29] == 0x73 && t[30]
        == 0x68);
}

/// The layout puts each field where the host looks for it: the version at
/// offset 0, the name at 2, the kind at 130, the base address at 132, the
/// sizes of device and page at 136 and 140, the reserved word at 144, the
/// erased byte at 148, the two time-outs at 149 and 153, and the sector table
/// at 157, in which entry `i` holds its size at `157 + 8 * i` and its address
/// four bytes further. The descriptor is 4253 bytes long.
pub proof fn layout_offsets(d: FlashDeviceDescription)
    ensures
        d.layout().len() == DESCRIPTOR_LEN,
        d.layout().subrange(0, 2) == le16(d.vers),
        d.layout().subrange(2, 130) == d.dev_name@,
        d.layout().subrange(130, 132) == le16(d.dev_type),
        d.layout().subrange(132, 136) == le32(d.dev_addr),
        d.layout().subrange(136, 140) == le32(d.device_size),
        d.layout().subrange(140, 144) == le32(d.page_size),
        d.layout().subrange(144, 148) == le32(d._reserved),
        d.layout()[148] == d.empty,
        d.layout().subrange(149, 153) == le32(d.program_time_out),
        d.layout().subrange(153, 157) == le32(d.erase_time_out),
        forall|i: int|
            0 <= i < SECTOR_SLOTS ==> #[trigger] d.layout().subrange(157 + 8 * i, 161 + 8 * i)
                == le32(d.flash_sectors@[i].size),
        forall|i: int|
            0 <= i < SECTOR_SLOTS ==> #[trigger] d.layout().subrange(161 + 8 * i, 165 + 8 * i)
                == le32(d.flash_sectors@[i].address),
{
    let l = d.layout();
    assert(d.dev_name@.len() == 128);
    assert(d.flash_sectors@.len() == 512);
    assert(l.len() == DESCRIPTOR_LEN);
    assert(l.subrange(0, 2) =~= le16(d.vers));
    assert(l.subrange(2, 130) =~= d.dev_name@);
    assert(l.subrange(130, 132) =~= le16(d.dev_type));
    assert(l.subrange(132, 136) =~= le32(d.dev_addr));
    assert(l.subrange(136, 140) =~= le32(d.device_size));
    assert(l.subrange(140, 144) =~= le32(d.page_size));
    assert(l.subrange(144, 148) =~= le32(d._reserved));
    assert(l.subrange(149, 153) =~= le32(d.program_time_out));
    assert(l.subrange(153, 157) =~= le32(d.erase_time_out));
    let table = table_bytes(d.flash_sectors@);
    assert forall|i: int| 0 <= i < SECTOR_SLOTS implies #[trigger] l.subrange(
        157 + 8 * i,
        161 + 8 * i,
    ) == le32(d.flash_sectors@[i].size) by {
        let part = l.subrange(157 + 8 * i, 161 + 8 * i);
        let want = le32(d.flash_sectors@[i].size);
        assert forall|k: int| 0 <= k < 4 implies part[k] == want[k] by {
            assert(part[k] == table[8 * i + k]);
            assert((8 * i + k) / 8 == i);
            assert((8 * i + k) % 8 == k);
        }
        assert(part =~= want);
    }
    assert forall|i: int| 0 <= i < SECTOR_SLOTS implies #[trigger] l.subrange(
        161 + 8 * i,
        165 + 8 * i,
    ) == le32(d.flash_sectors@[i].address) by {
        let part = l.subrange(161 + 8 * i, 165 + 8 * i);
        let want = le32(d.flash_sectors@[i].address);
        assert forall|k: int| 0 <= k < 4 implies part[k] == want[k] by {
            assert(part[k] == table[8 * i + 4 + k]);
            assert((8 * i + 4 + k) / 8 == i);
            assert((8 * i + 4 + k) % 8 == 4 + k);
        }
        assert(part =~= want);
    }
}

} // verus!
