use penguin::pe::FileInfo;
use penguin::PeError;
use penguin::section::rva_2_fo;
use penguin::resource::ResourceTree;

fn put16(d: &mut Vec<u8>, off: usize, v: u16) {
    d[off..off + 2].copy_from_slice(&v.to_le_bytes());
}

fn put32(d: &mut Vec<u8>, off: usize, v: u32) {
    d[off..off + 4].copy_from_slice(&v.to_le_bytes());
}

fn put64(d: &mut Vec<u8>, off: usize, v: u64) {
    d[off..off + 8].copy_from_slice(&v.to_le_bytes());
}

fn put_str(d: &mut Vec<u8>, off: usize, s: &str) {
    d[off..off + s.len()].copy_from_slice(s.as_bytes());
}

/// A synthetic 64-bit image: one section mapping RVA 0x1000..0x1C00 to
/// file offsets 1024..4096, one import descriptor for KERNEL32.DLL with
/// a named thunk and an ordinal thunk, one export named Foo at RVA
/// 0x1000, and a small resource tree.
fn build_pe64() -> Vec<u8> {
    let mut d = vec![0u8; 4096];
    // DOS header.
    put16(&mut d, 0, 0x5A4D);
    put16(&mut d, 60, 128);
    // NT headers at 128.
    put32(&mut d, 128, 0x0000_4550);
    put16(&mut d, 132, 0x8664);
    put16(&mut d, 134, 1); // one section
    put16(&mut d, 148, 0xF0);
    put16(&mut d, 152, 0x20B); // optional magic
    put32(&mut d, 168, 0x1000); // entry point
    put32(&mut d, 260, 16); // directory count
    // Data directory at 264: export, import, resource slots.
    put32(&mut d, 264, 0x1300);
    put32(&mut d, 268, 0x100);
    put32(&mut d, 272, 0x1000);
    put32(&mut d, 276, 0x14 * 100); // a lying size hint
    put32(&mut d, 280, 0x1500);
    put32(&mut d, 284, 0x200);
    // Section table at 392.
    put_str(&mut d, 392, ".rdata");
    put32(&mut d, 400, 0x1000); // virtual size
    put32(&mut d, 404, 0x1000); // virtual address
    put32(&mut d, 408, 0xC00); // raw size
    put32(&mut d, 412, 1024); // raw pointer
    // Import descriptors at RVA 0x1000 = fo 1024.
    put32(&mut d, 1024, 0x1100); // thunk array RVA
    put32(&mut d, 1036, 0x1180); // module name RVA
    // Descriptor 1 stays zero: the stop sign.
    // Thunks at fo 1280: a named import, an ordinal import, the end.
    put64(&mut d, 1280, 0x1200);
    put64(&mut d, 1288, 0x8000000000000003);
    // Module name at fo 1408 (RVA 0x1180).
    put_str(&mut d, 1408, "KERNEL32.DLL");
    // Hint and name at fo 1536 (RVA 0x1200).
    put_str(&mut d, 1538, "ExitProcess");
    put_str(&mut d, 1560, "Beep");
    // Export directory at fo 1792 (RVA 0x1300).
    put32(&mut d, 1792 + 12, 0x1450); // module name field, nonzero
    put32(&mut d, 1792 + 20, 5); // number_of_func, deliberately larger
    put32(&mut d, 1792 + 24, 1); // number_of_names
    put32(&mut d, 1792 + 28, 0x1340);
    put32(&mut d, 1792 + 32, 0x1350);
    put32(&mut d, 1792 + 36, 0x1360);
    put32(&mut d, 1856, 0x1000); // functions[0]
    put32(&mut d, 1872, 0x1400); // names[0]
    put16(&mut d, 1888, 0); // ordinals[0]
    // Export name at fo 2048 (RVA 0x1400), slot capacity 8.
    put_str(&mut d, 2048, "Foo");
    put_str(&mut d, 2056, "Bar");
    put_str(&mut d, 2128, "demo.dll");
    // Resource tree at fo 2304 (RVA 0x1500): one named and one id entry.
    put16(&mut d, 2304 + 12, 1); // named entries
    put16(&mut d, 2304 + 14, 1); // id entries
    put32(&mut d, 2320, 0x8000_0080); // name at rel 0x80
    put32(&mut d, 2324, 0x8000_0030); // subdirectory at rel 0x30
    put32(&mut d, 2328, 3); // id entry: RT_ICON
    put32(&mut d, 2332, 0x8000_0030); // same subdirectory
    // Subdirectory at rel 0x30 = fo 2352: one id entry.
    put16(&mut d, 2352 + 14, 1);
    put32(&mut d, 2368, 5); // ID_5
    put32(&mut d, 2372, 0x60); // leaf data entry at rel 0x60
    // Data entry at fo 2400: RVA 0x1200, ten bytes.
    put32(&mut d, 2400, 0x1200);
    put32(&mut d, 2404, 10);
    // UTF-16 name at rel 0x80 = fo 2432: two units, "AB".
    put16(&mut d, 2432, 2);
    put16(&mut d, 2434, 'A' as u16);
    put16(&mut d, 2436, 'B' as u16);
    d
}

/// A synthetic 32-bit image: the 120-byte NT record and one section.
fn build_pe32() -> Vec<u8> {
    let mut d = vec![0u8; 2048];
    put16(&mut d, 0, 0x5A4D);
    put16(&mut d, 60, 128);
    put32(&mut d, 128, 0x0000_4550);
    put16(&mut d, 132, 0x014C);
    put16(&mut d, 134, 1);
    put16(&mut d, 152, 0x10B);
    put32(&mut d, 244, 16); // directory count for the 32-bit record
    // Directory at 248..376, all zero: no tables.
    // Section table at 376.
    put_str(&mut d, 376, ".text");
    put32(&mut d, 384, 0x1000);
    put32(&mut d, 388, 0x1000);
    put32(&mut d, 392, 0x400);
    put32(&mut d, 396, 1024);
    d
}

#[test]
fn machine_id_selects_64_bit() {
    let fi = FileInfo::new(build_pe64()).unwrap();
    assert!(fi.is_64_bit);
    assert_eq!(fi.dos_head.e_lfanew, 128);
    assert_eq!(fi.file_size, 4096);
    assert_eq!(fi.data_directory.0.len(), 16);
    assert_eq!(fi.section_headers.0.len(), 1);
}

#[test]
fn machine_id_selects_32_bit() {
    let fi = FileInfo::new(build_pe32()).unwrap();
    assert!(!fi.is_64_bit);
}

#[test]
fn unknown_machine_id_is_refused() {
    let mut d = build_pe64();
    put16(&mut d, 132, 0x1234);
    assert_eq!(FileInfo::new(d).unwrap_err(), PeError::UnknownMachine);
}

#[test]
fn bad_dos_magic_is_refused() {
    let mut d = build_pe64();
    d[0] = 0;
    assert_eq!(FileInfo::new(d).unwrap_err(), PeError::BadDosMagic);
}

#[test]
fn bad_nt_signature_is_refused() {
    let mut d = build_pe64();
    d[128] = 0;
    assert_eq!(FileInfo::new(d).unwrap_err(), PeError::BadNtSignature);
}

#[test]
fn short_file_is_truncated() {
    assert_eq!(FileInfo::new(vec![0x4D, 0x5A]).unwrap_err(), PeError::Truncated);
}

#[test]
fn rva_translation_follows_the_covering_section() {
    let fi = FileInfo::new(build_pe64()).unwrap();
    assert_eq!(rva_2_fo(&fi.nt_head, &fi.section_headers, 0x1000), Some(1024));
    assert_eq!(rva_2_fo(&fi.nt_head, &fi.section_headers, 0x1234), Some(1024 + 0x234));
    assert_eq!(rva_2_fo(&fi.nt_head, &fi.section_headers, 0x1BFF), Some(1024 + 0xBFF));
    assert_eq!(rva_2_fo(&fi.nt_head, &fi.section_headers, 0x1C00), None);
    assert_eq!(rva_2_fo(&fi.nt_head, &fi.section_headers, 0x0FFF), None);
    assert_eq!(rva_2_fo(&fi.nt_head, &fi.section_headers, 0), None);
}

#[test]
fn end_to_end_import_and_export() {
    let fi = FileInfo::new(build_pe64()).unwrap();
    let imports = fi.get_imports().unwrap();
    assert_eq!(imports.0.len(), 1);
    assert_eq!(imports.0[0].name, "KERNEL32.DLL");
    assert_eq!(imports.0[0].function_info.len(), 2);
    assert_eq!(imports.0[0].function_info[0].name, "ExitProcess");
    let exports = fi.get_export().unwrap();
    assert_eq!(exports.0.len(), 1);
    assert_eq!(exports.0[0].name, "Foo");
    assert_eq!(exports.0[0].function, 0x1000);
}

#[test]
fn import_walk_ignores_the_declared_size() {
    // The directory claims a hundred descriptors; the walk stops at the
    // first all-zero one.
    let fi = FileInfo::new(build_pe64()).unwrap();
    assert_eq!(fi.data_directory.get_import_directory_num().unwrap(), 100);
    let imports = fi.get_imports().unwrap();
    assert_eq!(imports.0.len(), 1);
}

#[test]
fn ordinal_thunk_gets_its_masked_rendering() {
    let fi = FileInfo::new(build_pe64()).unwrap();
    let imports = fi.get_imports().unwrap();
    assert_eq!(imports.0[0].function_info[1].name, "0x3");
    assert_eq!(imports.0[0].function_info[1].name_max_length, 0);
}

#[test]
fn export_walk_reads_exactly_number_of_names() {
    // number_of_func says five; the single name yields a single entry.
    let fi = FileInfo::new(build_pe64()).unwrap();
    let exports = fi.get_export().unwrap();
    assert_eq!(exports.0.len(), 1);
    assert_eq!(exports.0[0].ordinals, 0);
    assert_eq!(exports.0[0].name_rva, 1872);
    assert_eq!(exports.0[0].function_address, 1856);
    assert_eq!(exports.0[0].ordinals_address, 1888);
    assert_eq!(exports.0[0].name_string_fo, 2048);
    assert_eq!(exports.0[0].name_max_length, 8);
}

#[test]
fn export_cursors_advance_four_four_two() {
    // A second name: the cells are read 4, 4 and 2 bytes further on.
    let mut d = build_pe64();
    put32(&mut d, 1792 + 24, 2);
    put32(&mut d, 1860, 0x1010); // functions[1]
    put32(&mut d, 1876, 0x1458); // names[1] -> RVA 0x1458, fo 2136
    put16(&mut d, 1890, 7); // ordinals[1]
    put_str(&mut d, 2136, "Second");
    let fi = FileInfo::new(d).unwrap();
    let exports = fi.get_export().unwrap();
    assert_eq!(exports.0.len(), 2);
    assert_eq!(exports.0[1].name, "Second");
    assert_eq!(exports.0[1].function, 0x1010);
    assert_eq!(exports.0[1].ordinals, 7);
    assert_eq!(exports.0[1].name_rva, 1876);
    assert_eq!(exports.0[1].function_address, 1860);
    assert_eq!(exports.0[1].ordinals_address, 1890);
}

#[test]
fn absent_tables_are_empty_not_errors() {
    let fi = FileInfo::new(build_pe32()).unwrap();
    assert_eq!(fi.get_imports().unwrap().0.len(), 0);
    assert_eq!(fi.get_export().unwrap().0.len(), 0);
}

#[test]
fn unmapped_export_arrays_are_refused() {
    let mut d = build_pe64();
    put32(&mut d, 1792 + 32, 0x9000); // names array outside every section
    let fi = FileInfo::new(d).unwrap();
    assert_eq!(fi.get_export().unwrap_err(), PeError::Unmapped);
}

#[test]
fn resource_tree_names_and_leaves() {
    let fi = FileInfo::new(build_pe64()).unwrap();
    let va = fi.data_directory.get_resource_directory_address().unwrap();
    let tree =
        ResourceTree::get_resource_tree(&fi.data, va, &fi.nt_head, &fi.section_headers, &fi.data_directory)
            .unwrap();
    assert_eq!(tree.name, "Directory");
    let children = tree.children.as_ref().unwrap();
    assert_eq!(children.len(), 2);
    assert_eq!(children[0].name, "AB");
    assert_eq!(children[0].id, None);
    assert_eq!(children[1].name, "RT_ICON");
    assert_eq!(children[1].id, Some(3));
    let sub = children[0].children.as_ref().unwrap();
    assert_eq!(sub.len(), 1);
    assert_eq!(sub[0].name, "ID_5");
    assert_eq!(sub[0].id, Some(5));
    assert_eq!(sub[0].data_address, 1536);
    assert_eq!(sub[0].size, 10);
}

#[test]
fn cyclic_resource_directories_stop_at_the_depth_bound() {
    let mut d = build_pe64();
    put32(&mut d, 2324, 0x8000_0000); // the entry points back at the root
    let fi = FileInfo::new(d).unwrap();
    let va = fi.data_directory.get_resource_directory_address().unwrap();
    let r = ResourceTree::get_resource_tree(
        &fi.data,
        va,
        &fi.nt_head,
        &fi.section_headers,
        &fi.data_directory,
    );
    assert_eq!(r.unwrap_err(), PeError::TooDeep);
}

#[test]
fn extraction_skips_icon_parts_and_names_files() {
    let fi = FileInfo::new(build_pe64()).unwrap();
    let va = fi.data_directory.get_resource_directory_address().unwrap();
    let tree =
        ResourceTree::get_resource_tree(&fi.data, va, &fi.nt_head, &fi.section_headers, &fi.data_directory)
            .unwrap();
    let files = tree.extract_resources(&fi.data);
    assert_eq!(files.len(), 1);
    assert_eq!(files[0].0, "Directory/AB/ID_5.bin");
    assert_eq!(files[0].1.len(), 10);
}

#[test]
fn snapshot_record_copies_the_decoded_fields() {
    let fi = FileInfo::new(build_pe64()).unwrap();
    let s = penguin::pe::SerializableFileInfo::from_file_info(&fi).unwrap();
    assert!(s.is_64_bit);
    assert_eq!(s.file_size, 4096);
    assert_eq!(s.dos_head, *fi.dos_head);
    assert_eq!(s.import_dll.0.len(), 1);
    assert_eq!(s.export.0.len(), 1);
    assert!(!s.is_little_endian);
}

#[test]
fn thunks_are_four_bytes_in_a_32_bit_image() {
    let mut d = build_pe32();
    put32(&mut d, 256, 0x1000); // import slot
    put32(&mut d, 260, 0x14);
    put32(&mut d, 1024, 0x1100); // thunk array RVA
    put32(&mut d, 1036, 0x1180); // module name RVA
    put32(&mut d, 1280, 0x1200); // a 4-byte thunk
    put32(&mut d, 1284, 0); // the end
    put_str(&mut d, 1408, "USER32.dll");
    put_str(&mut d, 1538, "MessageBoxA");
    let fi = FileInfo::new(d).unwrap();
    let imports = fi.get_imports().unwrap();
    assert_eq!(imports.0.len(), 1);
    assert_eq!(imports.0[0].name, "USER32.dll");
    assert_eq!(imports.0[0].function_info.len(), 1);
    assert_eq!(imports.0[0].function_info[0].name, "MessageBoxA");
}

#[test]
fn section_accessors_hand_back_the_record() {
    let fi = FileInfo::new(build_pe64()).unwrap();
    let t = &fi.section_headers;
    assert_eq!(t.get_num(), Ok(1));
    assert_eq!(t.get_section_virtual_address(0), 0x1000);
    assert_eq!(t.get_section_size_of_raw_data(0), Ok(0xC00));
    assert_eq!(t.get_section_pointer_to_raw_data(0), 1024);
    assert_eq!(t.get_virtual_rva_end(0), 0x1000 + 0xC00);
    assert_eq!(t.get_section_misc(0), Ok(0x1000));
    assert_eq!(t.get_section_name(0).unwrap(), ".rdata\0\0");
}

#[test]
fn snapshot_copies_filled_caches_and_reads_empty_ones() {
    let mut fi = FileInfo::new(build_pe64()).unwrap();
    // Fill the caches once, as a session would after its first access.
    fi.import_dll = fi.get_imports().unwrap();
    fi.export = fi.get_export().unwrap();
    let s = penguin::pe::SerializableFileInfo::from_file_info(&fi).unwrap();
    assert_eq!(s.import_dll.0.len(), fi.import_dll.0.len());
    assert_eq!(s.import_dll.0[0].name, "KERNEL32.DLL");
    assert_eq!(s.export.0.len(), 1);
    assert_eq!(s.export.0[0].name, "Foo");
    assert_eq!(s.export.0[0].function, 0x1000);
}

#[test]
fn snapshot_fails_exactly_when_a_needed_read_fails() {
    // An unmapped export-name array breaks the export read; with an empty
    // export cache the snapshot is refused, with a filled one it is not.
    let mut d = build_pe64();
    put32(&mut d, 1792 + 32, 0x9000);
    let mut fi = FileInfo::new(d).unwrap();
    assert!(penguin::pe::SerializableFileInfo::from_file_info(&fi).is_err());
    fi.export = penguin::export::ExportTable(vec![]);
    assert!(penguin::pe::SerializableFileInfo::from_file_info(&fi).is_err());
    fi.export = FileInfo::new(build_pe64()).unwrap().get_export().unwrap();
    let s = penguin::pe::SerializableFileInfo::from_file_info(&fi).unwrap();
    assert_eq!(s.export.0[0].name, "Foo");
}

#[test]
fn an_unmapped_resource_root_is_an_empty_tree() {
    // A zero or unmapped slot address is an absent directory: success
    // with nothing in it, like the absent import and export tables.
    let mut d = build_pe64();
    put32(&mut d, 280, 0); // resource slot address
    let fi = FileInfo::new(d).unwrap();
    let va = fi.data_directory.get_resource_directory_address().unwrap();
    let tree = ResourceTree::get_resource_tree(
        &fi.data,
        va,
        &fi.nt_head,
        &fi.section_headers,
        &fi.data_directory,
    )
    .unwrap();
    assert_eq!(tree.name, "Directory");
    assert_eq!(tree.children.as_ref().unwrap().len(), 0);
    assert_eq!(tree.extract_resources(&fi.data).len(), 0);
}

#[test]
fn characteristics_offsets_are_recorded_per_section() {
    // Two sections: each records the file offset of its own
    // characteristics field, forty bytes apart.
    let mut d = build_pe32();
    put16(&mut d, 134, 2);
    put_str(&mut d, 416, ".data");
    put32(&mut d, 424, 0x1000);
    put32(&mut d, 428, 0x2000);
    put32(&mut d, 432, 0x400);
    put32(&mut d, 436, 1424);
    let fi = FileInfo::new(d).unwrap();
    assert_eq!(fi.section_headers.get_section_characteristics_addr(0), 376 + 36);
    assert_eq!(fi.section_headers.get_section_characteristics_addr(1), 376 + 40 + 36);
}
