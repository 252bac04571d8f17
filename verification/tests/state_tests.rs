use penguin::flags::SectionFlag;
use penguin::messages::{SubWindowManager, ToastType};
use penguin::nt::{DataDirectory, ImageDataDirectory};
use penguin::dos::ImageDosStub;
use penguin::PeError;
use penguin::section::SectionCharacteristics;

#[test]
fn section_flags_follow_their_masks() {
    let f = SectionFlag::match_flag(0x20 | 0x40 | 0x80000000);
    assert!(f.image_scn_cnt_code);
    assert!(f.image_scn_cnt_initialized_data);
    assert!(f.image_scn_mem_write);
    assert!(!f.image_scn_mem_read);
    assert!(!f.image_scn_cnt_uninitialized_data);
    let none = SectionFlag::match_flag(0);
    assert!(!none.image_scn_cnt_code && !none.image_scn_mem_write);
}

#[test]
fn characteristic_masks_are_the_documented_bits() {
    assert_eq!(SectionCharacteristics::CntCode.mask(), 0x20);
    assert_eq!(SectionCharacteristics::MemWrite.mask(), 0x80000000);
    assert_eq!(SectionCharacteristics::Align4096Bytes.mask(), 0x00D00000);
}

#[test]
fn the_manager_queues_and_clears() {
    let mut m = SubWindowManager::new();
    assert!(m.toasts.is_empty());
    m.show_success("saved");
    m.show_error("broke");
    assert_eq!(m.toasts.len(), 2);
    assert_eq!(m.toasts[0].message, "saved");
    assert!(matches!(m.toasts[0].toast_type, ToastType::Success));
    assert!(matches!(m.toasts[1].toast_type, ToastType::Error));
    m.demo_toasts();
    assert_eq!(m.toasts.len(), 6);
    m.section_message.section_flag = Some(SectionFlag::match_flag(0x20));
    assert!(m.section_message.get_image_scn_cnt_code());
    m.clear_data();
    assert!(m.section_message.section_flag.is_none());
}

#[test]
fn directory_slots_answer_by_index() {
    let mut dd = DataDirectory(Vec::new());
    dd.add(ImageDataDirectory { virtual_address: 0x10, size: 1 });
    dd.add(ImageDataDirectory { virtual_address: 0x20, size: 40 });
    assert_eq!(dd.get_export_directory_address(), Ok(0x10));
    assert_eq!(dd.get_import_directory_address(), Ok(0x20));
    assert_eq!(dd.get_import_directory_size(), Ok(40));
    assert_eq!(dd.get_import_directory_num(), Ok(2));
    assert_eq!(dd.get_data_directory_size(1), Ok(40));
    assert_eq!(dd.get_data_directory_virtual_address(0), Ok(0x10));
    assert_eq!(dd.get_resource_directory_address(), Err(PeError::Unmapped));
}

#[test]
fn the_stub_is_the_bytes_between_the_headers() {
    let mut d = vec![0u8; 200];
    for i in 64..96 {
        d[i] = i as u8;
    }
    let stub = ImageDosStub::new(&d, 96);
    assert_eq!(stub.buffer.len(), 32);
    assert_eq!(stub.buffer[0], 64);
    let clipped = ImageDosStub::new(&d, 64);
    assert!(clipped.buffer.is_empty());
}

#[test]
fn errors_carry_their_text() {
    assert_eq!(PeError::NameTooLong.message(), "func_name too long");
    assert_eq!(PeError::NameNotAscii.message(), "func_name not ascii");
    assert_eq!(
        PeError::BadDosMagic.message(),
        "Opened file is not a valid PE file"
    );
}
