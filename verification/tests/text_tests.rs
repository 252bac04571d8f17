use penguin::parse_address_string;
use penguin::search;
use penguin::i18n;
use penguin::text::{u64_to_dec, u64_to_hex_upper, u64_to_hex_0x, u64_to_hex_0x_lower};
use penguin::nt::{
    get_characteristics_descriptions,
    get_dll_characteristics_description,
    get_machine_descriptions,
    machine_is_32,
    machine_is_64,
    magic_hover,
};

#[test]
fn decimal_rendering_is_exact() {
    assert_eq!(u64_to_dec(0), "0");
    assert_eq!(u64_to_dec(7), "7");
    assert_eq!(u64_to_dec(1234), "1234");
    assert_eq!(u64_to_dec(18446744073709551615), "18446744073709551615");
}

#[test]
fn hexadecimal_rendering_is_exact() {
    assert_eq!(u64_to_hex_upper(0), "0");
    assert_eq!(u64_to_hex_upper(0x4D2), "4D2");
    assert_eq!(u64_to_hex_0x(0x2000), "0x2000");
    assert_eq!(u64_to_hex_0x(0xDEADBEEF), "0xDEADBEEF");
    assert_eq!(u64_to_hex_0x_lower(0x3), "0x3");
    assert_eq!(u64_to_hex_0x_lower(0xAB), "0xab");
}

#[test]
fn addresses_parse_in_both_bases() {
    assert_eq!(parse_address_string("1234"), Ok(1234));
    assert_eq!(parse_address_string("0x4D2"), Ok(1234));
    assert_eq!(parse_address_string("0X4d2"), Ok(1234));
    assert_eq!(parse_address_string("4D2"), Ok(1234)); // a letter selects hex
    assert_eq!(parse_address_string("  42  "), Ok(42));
    assert_eq!(parse_address_string(""), Ok(0));
    assert_eq!(parse_address_string("   "), Ok(0));
}

#[test]
fn bad_addresses_carry_the_matching_message() {
    assert_eq!(parse_address_string("0x"), Err(i18n::HEX_PARSE_ERROR.to_string()));
    assert_eq!(parse_address_string("0xZZ"), Err(i18n::HEX_PARSE_ERROR.to_string()));
    assert_eq!(parse_address_string("12g34"), Err(i18n::HEX_PARSE_ERROR.to_string()));
    assert_eq!(
        parse_address_string("99999999999999999999999999"),
        Err(i18n::DECIMAL_PARSE_ERROR.to_string())
    );
    assert_eq!(
        parse_address_string("12-4"),
        Err(i18n::DECIMAL_PARSE_ERROR.to_string())
    );
}

#[test]
fn search_is_substring_match_with_empty_catch_all() {
    assert!(search("ExitProcess", ""));
    assert!(search("ExitProcess", "Proc"));
    assert!(search("ExitProcess", "ExitProcess"));
    assert!(!search("ExitProcess", "exit"));
    assert!(!search("", "x"));
}

#[test]
fn machine_sets_are_disjoint_and_described() {
    assert!(machine_is_32(0x014C));
    assert!(!machine_is_64(0x014C));
    assert!(machine_is_64(0x8664));
    assert!(!machine_is_32(0x8664));
    assert!(!machine_is_32(0x1234) && !machine_is_64(0x1234));
    assert_eq!(get_machine_descriptions(0x14C), "32-bit x86 architecture");
    assert_eq!(get_machine_descriptions(0x8664), "64-bit x64 architecture");
    assert_eq!(get_machine_descriptions(0xBEEF), "unknown");
}

#[test]
fn characteristics_join_matching_lines() {
    assert_eq!(get_characteristics_descriptions(0), "");
    assert_eq!(
        get_characteristics_descriptions(0x0002),
        "File is executable"
    );
    assert_eq!(
        get_characteristics_descriptions(0x2002),
        "File is executable\nFile is DLL"
    );
    assert_eq!(
        get_dll_characteristics_description(0x0100),
        "NX compatible"
    );
    assert_eq!(
        get_dll_characteristics_description(0x0140),
        "DLL can be relocated\nNX compatible"
    );
}

#[test]
fn magic_values_name_their_width() {
    assert_eq!(magic_hover(0x10B), "PE32");
    assert_eq!(magic_hover(0x20B), "PE64");
    assert_eq!(magic_hover(0x111), "unknown");
}
