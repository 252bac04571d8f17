use penguin::resource::ResourceTree;
use penguin::PeError;

fn group_payload(ids: &[u16]) -> Vec<u8> {
    let mut g = vec![0u8; 6 + 14 * ids.len()];
    g[2] = 1; // the in-image type field; the rebuild replaces it anyway
    g[4..6].copy_from_slice(&(ids.len() as u16).to_le_bytes());
    for (i, id) in ids.iter().enumerate() {
        let e = 6 + 14 * i;
        g[e] = 32; // width
        g[e + 1] = 32; // height
        g[e + 6] = 1; // bit count, low byte
        g[e + 8..e + 12].copy_from_slice(&999u32.to_le_bytes()); // a stale size
        g[e + 12..e + 14].copy_from_slice(&id.to_le_bytes());
    }
    g
}

#[test]
fn two_images_get_running_offsets() {
    let g = group_payload(&[1, 2]);
    let map = vec![(1u16, vec![0xAAu8; 296]), (2u16, vec![0xBBu8; 1384])];
    let out = ResourceTree::build_icon_file(&g, &map, false).unwrap();
    assert_eq!(&out[0..6], &[0x00, 0x00, 0x01, 0x00, 0x02, 0x00]);
    // First 16-byte record: size 296, offset 6 + 2 * 16 = 38.
    assert_eq!(&out[6 + 8..6 + 12], &296u32.to_le_bytes());
    assert_eq!(&out[6 + 12..6 + 16], &38u32.to_le_bytes());
    // Second record: size 1384, offset 38 + 296 = 334.
    assert_eq!(&out[22 + 8..22 + 12], &1384u32.to_le_bytes());
    assert_eq!(&out[22 + 12..22 + 16], &334u32.to_le_bytes());
    assert_eq!(out.len(), 38 + 296 + 1384);
    assert!(out[38..38 + 296].iter().all(|&b| b == 0xAA));
    assert!(out[334..334 + 1384].iter().all(|&b| b == 0xBB));
}

#[test]
fn a_cursor_gets_type_two() {
    let g = group_payload(&[7]);
    let map = vec![(7u16, vec![1u8, 2, 3, 4])];
    let out = ResourceTree::build_icon_file(&g, &map, true).unwrap();
    assert_eq!(&out[0..6], &[0x00, 0x00, 0x02, 0x00, 0x01, 0x00]);
    assert_eq!(&out[6 + 8..6 + 12], &4u32.to_le_bytes());
    assert_eq!(&out[22..26], &[1u8, 2, 3, 4]);
}

#[test]
fn a_missing_image_shrinks_the_offsets_with_the_output() {
    // Two records, only the second has data: one directory entry is
    // written, and its offset is a running total over the output stream,
    // so it points right past the single written record.
    let g = group_payload(&[9, 2]);
    let map = vec![(2u16, vec![5u8; 10])];
    let out = ResourceTree::build_icon_file(&g, &map, false).unwrap();
    assert_eq!(out.len(), 6 + 16 + 10);
    assert_eq!(&out[6 + 12..6 + 16], &22u32.to_le_bytes());
    assert_eq!(&out[22..32], &[5u8; 10]);
}

#[test]
fn a_later_record_for_the_same_id_wins() {
    let g = group_payload(&[3]);
    let map = vec![(3u16, vec![1u8; 4]), (3u16, vec![9u8; 8])];
    let out = ResourceTree::build_icon_file(&g, &map, false).unwrap();
    assert_eq!(&out[6 + 8..6 + 12], &8u32.to_le_bytes());
    assert_eq!(&out[22..30], &[9u8; 8]);
}

#[test]
fn a_payload_without_its_header_is_refused() {
    let g = vec![0u8; 5];
    let map: Vec<(u16, Vec<u8>)> = Vec::new();
    assert_eq!(
        ResourceTree::build_icon_file(&g, &map, false).unwrap_err(),
        PeError::Truncated
    );
}

#[test]
fn magic_numbers_pick_the_extension() {
    assert_eq!(
        ResourceTree::detect_file_type(&vec![0x89, 0x50, 0x4E, 0x47, 0, 0, 0, 0]),
        Some(".png")
    );
    assert_eq!(ResourceTree::detect_file_type(&vec![0xFF, 0xD8, 0xFF, 0x00]), Some(".jpg"));
    assert_eq!(ResourceTree::detect_file_type(&vec![0x42, 0x4D, 0, 0]), Some(".bmp"));
    assert_eq!(ResourceTree::detect_file_type(&vec![0x00, 0x00, 0x01, 0x00]), Some(".ico"));
    assert_eq!(ResourceTree::detect_file_type(&vec![0x00, 0x00, 0x02, 0x00]), Some(".cur"));
    assert_eq!(ResourceTree::detect_file_type(&vec![0x47, 0x49, 0x46, 0x38]), Some(".gif"));
    assert_eq!(ResourceTree::detect_file_type(&"<?xml v".as_bytes().to_vec()), Some(".xml"));
    assert_eq!(ResourceTree::detect_file_type(&"<html>".as_bytes().to_vec()), Some(".html"));
    assert_eq!(ResourceTree::detect_file_type(&vec![0x4D, 0x5A, 0x90, 0x00]), Some(".dll"));
    assert_eq!(ResourceTree::detect_file_type(&vec![0x50, 0x4B, 0x03, 0x04]), Some(".zip"));
    assert_eq!(
        ResourceTree::detect_file_type(&vec![0xEF, 0xBB, 0xBF, b'a']),
        Some(".txt")
    );
    assert_eq!(ResourceTree::detect_file_type(&"just text".as_bytes().to_vec()), Some(".txt"));
    assert_eq!(ResourceTree::detect_file_type(&vec![0x01, 0x02, 0x03, 0x04]), None);
    assert_eq!(ResourceTree::detect_file_type(&vec![0x42]), None);
}

#[test]
fn filenames_fall_back_in_order() {
    let png = vec![0x89u8, 0x50, 0x4E, 0x47, 0, 0, 0, 0];
    let opaque = vec![1u8, 2, 3, 4];
    assert_eq!(ResourceTree::generate_filename("a.dat", &png, None), "a.dat");
    assert_eq!(ResourceTree::generate_filename("a", &png, None), "a.png");
    assert_eq!(ResourceTree::generate_filename("a", &opaque, Some("RT_BITMAP")), "a.bmp");
    assert_eq!(ResourceTree::generate_filename("a", &opaque, None), "a.bin");
}

#[test]
fn default_extensions_follow_the_type_table() {
    assert_eq!(ResourceTree::get_default_extension("RT_GROUP_ICON"), ".ico");
    assert_eq!(ResourceTree::get_default_extension("RT_MANIFEST"), ".xml");
    assert_eq!(ResourceTree::get_default_extension("RT_VERSION"), ".rc");
    assert_eq!(ResourceTree::get_default_extension("RT_SOMETHING"), ".bin");
}

#[test]
fn type_ids_get_their_names() {
    assert_eq!(ResourceTree::get_resource_type_name(3), "RT_ICON");
    assert_eq!(ResourceTree::get_resource_type_name(14), "RT_GROUP_ICON");
    assert_eq!(ResourceTree::get_resource_type_name(24), "RT_MANIFEST");
    assert_eq!(ResourceTree::get_resource_type_name(99), "RT_UNKNOWN_99");
}

#[test]
fn icon_leaves_are_collected_under_their_ids() {
    let leaf = ResourceTree {
        name: String::from("leaf"),
        id: None,
        children: None,
        data_address: 1234,
        size: 56,
    };
    let item = ResourceTree {
        name: String::from("ID_5"),
        id: Some(5),
        children: Some(vec![leaf]),
        data_address: 0,
        size: 0,
    };
    let ty = ResourceTree {
        name: String::from("RT_ICON"),
        id: Some(3),
        children: Some(vec![item]),
        data_address: 0,
        size: 0,
    };
    let root = ResourceTree {
        name: String::from("Directory"),
        id: None,
        children: Some(vec![ty]),
        data_address: 0,
        size: 0,
    };
    let got = root.collect_icon_resources();
    assert_eq!(got, vec![(5u16, 1234u32, 56u32)]);
}
