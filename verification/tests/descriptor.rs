//! The device descriptor and its bytes.

use flash_algorithm::descriptor::{
    device_name, DESCRIPTOR_LEN, HEADER_LEN, NAME_LEN, SECTOR_END_MARK, SECTOR_SLOTS,
};
use flash_algorithm::{flash_device, sectors, FlashDeviceDescription, FlashSector};

fn le32(x: u32) -> [u8; 4] {
    x.to_le_bytes()
}

#[test]
fn descriptor_holds_the_values_of_the_device() {
    let d = flash_device();
    assert_eq!(d.vers, 0x0101);
    assert_eq!(d.dev_type, 1);
    assert_eq!(d.dev_addr, 0x0800_0000);
    assert_eq!(d.device_size, 0x0002_0000);
    assert_eq!(d.page_size, 1024);
    assert_eq!(d._reserved, 0);
    assert_eq!(d.empty, 0xFF);
    assert_eq!(d.program_time_out, 100);
    assert_eq!(d.erase_time_out, 6000);
    assert_eq!(d.flash_sectors[0], FlashSector { size: 0x400, address: 0 });
    assert_eq!(d.flash_sectors[1], FlashSector { size: 0xFFFF_FFFF, address: 0xFFFF_FFFF });
}

#[test]
fn descriptor_round_trip() {
    let bytes = flash_device().to_bytes();
    let mut expected: Vec<u8> = Vec::new();
    expected.extend_from_slice(&[0x01, 0x01]);
    let mut name = [0u8; 128];
    let text = b"GD32VF103 128 KB internal flash";
    name[..text.len()].copy_from_slice(text);
    expected.extend_from_slice(&name);
    expected.extend_from_slice(&[0x01, 0x00]);
    expected.extend_from_slice(&[0x00, 0x00, 0x00, 0x08]);
    expected.extend_from_slice(&[0x00, 0x00, 0x02, 0x00]);
    expected.extend_from_slice(&[0x00, 0x04, 0x00, 0x00]);
    expected.extend_from_slice(&[0x00, 0x00, 0x00, 0x00]);
    expected.push(0xFF);
    expected.extend_from_slice(&[100, 0, 0, 0]);
    expected.extend_from_slice(&[0x70, 0x17, 0x00, 0x00]);
    assert_eq!(expected.len(), 157);
    // the first two entries of the sector table
    expected.extend_from_slice(&[0x00, 0x04, 0x00, 0x00, 0x00, 0x00, 0x00, 0x00]);
    expected.extend_from_slice(&[0xFF; 8]);
    // and the unused slot after them
    expected.extend_from_slice(&[0x00; 8]);
    assert_eq!(expected.len(), 165 + 8 * 2);
    assert_eq!(&bytes[..165 + 8 * 2], &expected[..]);
}

#[test]
fn descriptor_fields_sit_at_their_offsets() {
    let d = FlashDeviceDescription {
        vers: 0xA1B2,
        dev_name: [0x41; 128],
        dev_type: 0xC3D4,
        dev_addr: 0x0102_0304,
        device_size: 0x1112_1314,
        page_size: 0x2122_2324,
        _reserved: 0x3132_3334,
        empty: 0x5A,
        program_time_out: 0x4142_4344,
        erase_time_out: 0x5152_5354,
        flash_sectors: [FlashSector { size: 0x6162_6364, address: 0x7172_7374 }; 512],
    };
    let bytes = d.to_bytes();
    assert_eq!(bytes.len(), 4253);
    assert_eq!(bytes.len(), DESCRIPTOR_LEN);
    assert_eq!(HEADER_LEN + 8 * SECTOR_SLOTS, DESCRIPTOR_LEN);
    assert_eq!(&bytes[0..2], &[0xB2, 0xA1]);
    assert_eq!(&bytes[2..130], &[0x41; 128]);
    assert_eq!(&bytes[130..132], &[0xD4, 0xC3]);
    assert_eq!(&bytes[132..136], &le32(0x0102_0304));
    assert_eq!(&bytes[136..140], &le32(0x1112_1314));
    assert_eq!(&bytes[140..144], &le32(0x2122_2324));
    assert_eq!(&bytes[144..148], &le32(0x3132_3334));
    assert_eq!(bytes[148], 0x5A);
    assert_eq!(&bytes[149..153], &le32(0x4142_4344));
    assert_eq!(&bytes[153..157], &le32(0x5152_5354));
    for i in [0usize, 1, 255, 511] {
        assert_eq!(&bytes[157 + 8 * i..161 + 8 * i], &[0x64, 0x63, 0x62, 0x61]);
        assert_eq!(&bytes[161 + 8 * i..165 + 8 * i], &[0x74, 0x73, 0x72, 0x71]);
    }
}

#[test]
fn descriptor_bytes_past_the_end_mark_are_zero() {
    let bytes = flash_device().to_bytes();
    assert_eq!(bytes.len(), DESCRIPTOR_LEN);
    assert!(bytes[157 + 16..].iter().all(|b| *b == 0));
}

#[test]
fn sector_table_is_one_run_then_the_end_mark() {
    let table = sectors();
    assert_eq!(table.len(), 512);
    assert_eq!(table[0], FlashSector { size: 0x0400, address: 0 });
    assert_eq!(table[1], FlashSector::end());
    assert_eq!(table[1].size, 0xFFFF_FFFF);
    assert_eq!(table[1].address, 0xFFFF_FFFF);
    for i in 2..512 {
        assert_eq!(table[i], FlashSector::default());
    }
}

#[test]
fn default_sector_is_all_zero() {
    let s = FlashSector::default();
    assert_eq!(s.size, 0);
    assert_eq!(s.address, 0);
    assert!(!s.is_end());
}

#[test]
fn end_mark_is_all_ones() {
    let end = FlashSector::end();
    assert_eq!(end, FlashSector { size: SECTOR_END_MARK, address: SECTOR_END_MARK });
    assert!(end.is_end());
    assert!(!FlashSector { size: 0xFFFF_FFFF, address: 0 }.is_end());
    assert!(!FlashSector { size: 0, address: 0xFFFF_FFFF }.is_end());
}

#[test]
fn sector_count_finds_the_first_end_mark() {
    let mut d = flash_device();
    assert_eq!(d.sector_count(), Some(1));
    d.flash_sectors[0] = FlashSector::end();
    assert_eq!(d.sector_count(), Some(0));
    d.flash_sectors[0] = FlashSector { size: 0x400, address: 0 };
    d.flash_sectors[1] = FlashSector { size: 0x1000, address: 0x8000 };
    assert_eq!(d.sector_count(), None);
    d.flash_sectors[511] = FlashSector::end();
    assert_eq!(d.sector_count(), Some(511));
    d.flash_sectors[300] = FlashSector::end();
    assert_eq!(d.sector_count(), Some(300));
}

#[test]
fn device_name_is_ascii_padded_with_zeros() {
    let name = device_name();
    assert_eq!(name.len(), NAME_LEN);
    let text = b"GD32VF103 128 KB internal flash";
    assert_eq!(&name[..31], &text[..]);
    assert!(name[31..].iter().all(|b| *b == 0));
    assert_eq!(flash_device().dev_name, name);
}
