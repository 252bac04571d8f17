use penguin::pe::FileInfo;
use penguin::PeError;

fn put16(d: &mut Vec<u8>, off: usize, v: u16) {
    d[off..off + 2].copy_from_slice(&v.to_le_bytes());
}

fn put32(d: &mut Vec<u8>, off: usize, v: u32) {
    d[off..off + 4].copy_from_slice(&v.to_le_bytes());
}

fn put_str(d: &mut Vec<u8>, off: usize, s: &str) {
    d[off..off + s.len()].copy_from_slice(s.as_bytes());
}

/// The same synthetic 64-bit image the reader tests use; the export name
/// slot at file offset 2048 has a recorded capacity of 8 bytes.
fn build_pe64() -> Vec<u8> {
    let mut d = vec![0u8; 4096];
    put16(&mut d, 0, 0x5A4D);
    put16(&mut d, 60, 128);
    put32(&mut d, 128, 0x0000_4550);
    put16(&mut d, 132, 0x8664);
    put16(&mut d, 134, 1);
    put16(&mut d, 152, 0x20B);
    put32(&mut d, 260, 16);
    put32(&mut d, 264, 0x1300);
    put32(&mut d, 268, 0x100);
    put_str(&mut d, 392, ".rdata");
    put32(&mut d, 400, 0x1000);
    put32(&mut d, 404, 0x1000);
    put32(&mut d, 408, 0xC00);
    put32(&mut d, 412, 1024);
    put32(&mut d, 1792 + 12, 0x1450);
    put32(&mut d, 1792 + 20, 5);
    put32(&mut d, 1792 + 24, 1);
    put32(&mut d, 1792 + 28, 0x1340);
    put32(&mut d, 1792 + 32, 0x1350);
    put32(&mut d, 1792 + 36, 0x1360);
    put32(&mut d, 1856, 0x1000);
    put32(&mut d, 1872, 0x1400);
    put16(&mut d, 1888, 0);
    put_str(&mut d, 2048, "Foo");
    put_str(&mut d, 2056, "Bar");
    put_str(&mut d, 2128, "demo.dll");
    d
}

#[test]
fn a_name_past_the_capacity_changes_nothing() {
    let mut fi = FileInfo::new(build_pe64()).unwrap();
    let exports = fi.get_export().unwrap();
    let slot = exports.0[0].clone();
    assert_eq!(slot.name_max_length, 8);
    let before = fi.data.clone();
    let r = slot.write_func_name(&mut fi.data, "ABCDEFGHI");
    assert_eq!(r.unwrap_err(), PeError::NameTooLong);
    assert_eq!(fi.data, before);
}

#[test]
fn a_shorter_name_is_zero_padded_and_nothing_else_moves() {
    let mut fi = FileInfo::new(build_pe64()).unwrap();
    let exports = fi.get_export().unwrap();
    let slot = exports.0[0].clone();
    let before = fi.data.clone();
    slot.write_func_name(&mut fi.data, "Hello").unwrap();
    assert_eq!(&fi.data[2048..2053], b"Hello");
    assert_eq!(&fi.data[2053..2056], &[0u8, 0, 0]);
    for i in 0..fi.data.len() {
        if !(2048..2056).contains(&i) {
            assert_eq!(fi.data[i], before[i], "byte {} moved", i);
        }
    }
    assert_eq!(fi.data.len(), before.len());
}

#[test]
fn empty_non_ascii_and_digit_names_are_refused() {
    let mut fi = FileInfo::new(build_pe64()).unwrap();
    let exports = fi.get_export().unwrap();
    let slot = exports.0[0].clone();
    let before = fi.data.clone();
    assert_eq!(slot.write_func_name(&mut fi.data, "").unwrap_err(), PeError::NameEmpty);
    assert_eq!(
        slot.write_func_name(&mut fi.data, "H\u{e9}llo").unwrap_err(),
        PeError::NameNotAscii
    );
    assert_eq!(
        slot.write_func_name(&mut fi.data, "9abc").unwrap_err(),
        PeError::NameStartsWithDigit
    );
    assert_eq!(fi.data, before);
}

#[test]
fn the_address_cell_is_overwritten_little_endian() {
    let mut fi = FileInfo::new(build_pe64()).unwrap();
    let exports = fi.get_export().unwrap();
    let slot = exports.0[0].clone();
    assert_eq!(slot.function_address, 1856);
    let before = fi.data.clone();
    slot.write_func_address(&mut fi.data, 0xDEADBEEF).unwrap();
    assert_eq!(&fi.data[1856..1860], &[0xEF, 0xBE, 0xAD, 0xDE]);
    for i in 0..fi.data.len() {
        if !(1856..1860).contains(&i) {
            assert_eq!(fi.data[i], before[i]);
        }
    }
}

#[test]
fn an_import_name_slot_is_rewritten_the_same_way() {
    let mut d = build_pe64();
    // Give the image an import table again for this test.
    put32(&mut d, 272, 0x1000);
    put32(&mut d, 276, 0x14);
    put32(&mut d, 1024, 0x1100);
    put32(&mut d, 1036, 0x1180);
    d[1280..1288].copy_from_slice(&0x1200u64.to_le_bytes());
    put_str(&mut d, 1408, "KERNEL32.DLL");
    put_str(&mut d, 1538, "ExitProcess");
    put_str(&mut d, 1560, "Beep");
    let mut fi = FileInfo::new(d).unwrap();
    let imports = fi.get_imports().unwrap();
    let f = imports.0[0].function_info[0].clone();
    assert_eq!(f.name_address, 1538);
    assert_eq!(f.name_max_length, 22);
    f.write_func_name(&mut fi.data, "Quit").unwrap();
    assert_eq!(&fi.data[1538..1542], b"Quit");
    assert_eq!(fi.data[1542], 0);
    assert_eq!(&fi.data[1560..1564], b"Beep");
}
