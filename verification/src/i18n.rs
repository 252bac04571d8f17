//! The fixed texts the library hands out: error messages and the
//! human-readable descriptions of header fields and bit flags.

use vstd::prelude::*;

verus! {

pub const CURRENT_LANGUAGE: &'static str = "english";

pub const APP_TITLE: &'static str = "Penguin PE Analyzer";
pub const ABOUT_TITLE: &'static str = "About Penguin";
pub const SETTINGS_TITLE: &'static str = "Settings";

// Error messages.
pub const NOT_VALID_PE_FILE: &'static str = "Opened file is not a valid PE file";
pub const NOT_NORMAL_MACHINE_IMAGE: &'static str = "Not a normal machine image file";
pub const ERROR_GET_RVA_OFFSET: &'static str = "Failed to translate the address to a file offset";
pub const FILE_TRUNCATED: &'static str = "The file ends before the structure it should hold";
pub const RESOURCE_TOO_DEEP: &'static str = "The resource directory nests too deeply";
pub const FUNC_NAME_EMPTY: &'static str = "func_name is empty";
pub const FUNC_NAME_TOO_LONG: &'static str = "func_name too long";
pub const FUNC_NAME_NOT_ASCII: &'static str = "func_name not ascii";
pub const FUNC_NAME_FIRST_DIGIT: &'static str = "func_name first can't be digit";
pub const HEX_PARSE_ERROR: &'static str = "Hex parse error";
pub const DECIMAL_PARSE_ERROR: &'static str = "Decimal parse error";

// Demo notification texts.
pub const DEMO_OPERATION_SUCCESS: &'static str = "Operation completed successfully!";
pub const DEMO_ERROR_OCCURRED: &'static str = "An error occurred";
pub const DEMO_WARNING_NOTICE: &'static str = "Please note this warning";
pub const DEMO_INFO_MESSAGE: &'static str = "This is an information message";

// Machine architecture descriptions.
pub const MACHINE_X86_32: &'static str = "32-bit x86 architecture";
pub const MACHINE_MIPS_BIG_ENDIAN: &'static str = "MIPS big-endian";
pub const MACHINE_MIPS_LITTLE_ENDIAN: &'static str = "MIPS little-endian";
pub const MACHINE_ALPHA: &'static str = "Alpha";
pub const MACHINE_SH3_LITTLE_ENDIAN: &'static str = "SH3 little-endian";
pub const MACHINE_SH3E_LITTLE_ENDIAN: &'static str = "SH3E little-endian";
pub const MACHINE_SH4_LITTLE_ENDIAN: &'static str = "SH4 little-endian";
pub const MACHINE_SH5: &'static str = "SH5";
pub const MACHINE_ARM_LITTLE_ENDIAN: &'static str = "ARM little-endian";
pub const MACHINE_ARM_THUMB_LITTLE_ENDIAN: &'static str = "ARM Thumb/Thumb-2 little-endian";
pub const MACHINE_ARM: &'static str = "ARM";
pub const MACHINE_IBM: &'static str = "IBM";
pub const MACHINE_POWERCFP: &'static str = "POWERCFP";
pub const MACHINE_INTEL_64: &'static str = "Intel 64";
pub const MACHINE_MIPS: &'static str = "MIPS";
pub const MACHINE_ALPHA64: &'static str = "ALPHA64";
pub const MACHINE_INFINEON: &'static str = "Infineon";
pub const MACHINE_X64_64: &'static str = "64-bit x64 architecture";
pub const MACHINE_ARM64_LITTLE_ENDIAN: &'static str = "ARM64 little-endian";
pub const MACHINE_UNKNOWN: &'static str = "unknown";

// File characteristics descriptions.
pub const CHARACTERISTICS_RELOCS_STRIPPED: &'static str = "Relocation information stripped";
pub const CHARACTERISTICS_EXECUTABLE_IMAGE: &'static str = "File is executable";
pub const CHARACTERISTICS_LINE_NUMS_STRIPPED: &'static str = "Line numbers stripped";
pub const CHARACTERISTICS_LOCAL_SYMS_STRIPPED: &'static str = "Local symbols stripped";
pub const CHARACTERISTICS_AGGRESSIVE_WS_TRIM: &'static str = "Aggressively trim working set";
pub const CHARACTERISTICS_LARGE_ADDRESS_AWARE: &'static str =
    "Application can handle >2GB addresses";
pub const CHARACTERISTICS_BYTES_REVERSED_LO: &'static str = "Machine bytes are reversed";
pub const CHARACTERISTICS_32BIT_MACHINE: &'static str = "32-bit machine word";
pub const CHARACTERISTICS_DEBUG_STRIPPED: &'static str = "Debug information stripped";
pub const CHARACTERISTICS_REMOVABLE_RUN_FROM_SWAP: &'static str =
    "If image is on removable media, copy and run from swap file";
pub const CHARACTERISTICS_NET_RUN_FROM_SWAP: &'static str =
    "If image is on network, copy and run from swap file";
pub const CHARACTERISTICS_SYSTEM: &'static str = "System file";
pub const CHARACTERISTICS_DLL: &'static str = "File is DLL";
pub const CHARACTERISTICS_UP_SYSTEM_ONLY: &'static str = "File should only run on UP machine";
pub const CHARACTERISTICS_BYTES_REVERSED_HI: &'static str = "Machine bytes are reversed";

// DLL characteristics descriptions.
pub const DLL_CHARACTERISTICS_APPCONTAINER: &'static str = "Image must run in AppContainer";
pub const DLL_CHARACTERISTICS_CONTROL_FLOW_GUARD: &'static str = "Control Flow Guard";
pub const DLL_CHARACTERISTICS_DYNAMIC_BASE: &'static str = "DLL can be relocated";
pub const DLL_CHARACTERISTICS_FORCE_INTEGRITY: &'static str = "Force code integrity checks";
pub const DLL_CHARACTERISTICS_HIGH_ENTROPY_VA: &'static str =
    "Image can handle 64-bit high entropy VA space";
pub const DLL_CHARACTERISTICS_NOBIND: &'static str = "Do not bind";
pub const DLL_CHARACTERISTICS_NOLSOLATION: &'static str =
    "Image understands isolation but doesn't isolate";
pub const DLL_CHARACTERISTICS_NOSEH: &'static str = "No SEH, cannot handle any SE handlers";
pub const DLL_CHARACTERISTICS_NXCOMPAT: &'static str = "NX compatible";
pub const DLL_CHARACTERISTICS_PROCESSINIT: &'static str = "Process initialization";
pub const DLL_CHARACTERISTICS_PROCESSTERM: &'static str = "Process termination";
pub const DLL_CHARACTERISTICS_TERMINALSERVERAWARE: &'static str = "Terminal server aware";
pub const DLL_CHARACTERISTICS_THREADINIT: &'static str = "Thread initialization";
pub const DLL_CHARACTERISTICS_THREADTERM: &'static str = "Thread termination";
pub const DLL_CHARACTERISTICS_WDMDRIVER: &'static str = "WDM driver";

/// The language the texts above are written in.
pub fn get_current_language() -> (r: &'static str)
    ensures
        r@ == CURRENT_LANGUAGE@,
{
    CURRENT_LANGUAGE
}

/// Whether the current language is the one named.
pub fn is_language(lang: &str) -> (r: bool)
    ensures
        r == (CURRENT_LANGUAGE@ == lang@),
{
    crate::text::str_eq(CURRENT_LANGUAGE, lang)
}

} // verus!
