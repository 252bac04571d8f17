//! A verified decoder and patcher for Windows Portable Executable (PE) images.
//!
//! The whole image is held in memory as a byte vector; every structure is
//! decoded from those bytes by verified code, and the two patch operations
//! rewrite bytes in place without moving anything else.

pub mod cli;
pub mod dos;
pub mod export;
pub mod flags;
pub mod i18n;
pub mod icon;
pub mod import;
pub mod messages;
pub mod nt;
pub mod patch;
pub mod pe;
pub mod raw;
pub mod resource;
pub mod section;
pub mod text;

use vstd::prelude::*;

verus! {

/// The ways an operation on a PE image can fail.
///
/// An absent table (no imports, no exports, no resources) is not an error:
/// readers return an empty table for it.
#[derive(Clone, Copy, Debug, PartialEq, Eq, Structural)]
pub enum PeError {
    /// A read needed more bytes than the image holds.
    Truncated,
    /// The DOS header magic is not 0x5A4D.
    BadDosMagic,
    /// The NT header signature is not "PE\0\0".
    BadNtSignature,
    /// The machine id belongs to neither of the two known width sets.
    UnknownMachine,
    /// An address that had to map into a section did not.
    Unmapped,
    /// The resource directory nests deeper than the decoder follows.
    TooDeep,
    /// A replacement name is empty.
    NameEmpty,
    /// A replacement name does not fit the slot's recorded capacity.
    NameTooLong,
    /// A replacement name holds a byte outside ASCII.
    NameNotAscii,
    /// A replacement name starts with a decimal digit.
    NameStartsWithDigit,
}

impl PeError {
    /// A fixed description of the error, for display by callers.
    pub fn message(&self) -> (r: &'static str)
        ensures
            r@ == spec_error_message(*self),
    {
        match self {
            PeError::Truncated => i18n::FILE_TRUNCATED,
            PeError::BadDosMagic => i18n::NOT_VALID_PE_FILE,
            PeError::BadNtSignature => i18n::NOT_VALID_PE_FILE,
            PeError::UnknownMachine => i18n::NOT_NORMAL_MACHINE_IMAGE,
            PeError::Unmapped => i18n::ERROR_GET_RVA_OFFSET,
            PeError::TooDeep => i18n::RESOURCE_TOO_DEEP,
            PeError::NameEmpty => i18n::FUNC_NAME_EMPTY,
            PeError::NameTooLong => i18n::FUNC_NAME_TOO_LONG,
            PeError::NameNotAscii => i18n::FUNC_NAME_NOT_ASCII,
            PeError::NameStartsWithDigit => i18n::FUNC_NAME_FIRST_DIGIT,
        }
    }
}

/// Whether a trimmed address string asks for a hexadecimal read: the
/// `0x` or `0X` prefix.
pub open spec fn spec_hex_prefixed(t: Seq<char>) -> bool {
    t.len() >= 2 && t[0] == '0' && (t[1] == 'x' || t[1] == 'X')
}

/// Reads an address from text: blank input is zero, a `0x`/`0X` prefix or
/// any letter selects hexadecimal, and plain digits are decimal. A string
/// that does not parse in its selected base, or whose value outgrows the
/// machine word, is refused with the matching parse-error text.
pub fn parse_address_string(input: &str) -> (r: Result<usize, String>)
    ensures
        ({
            let t = text::spec_trimmed(input@);
            &&& t.len() == 0 ==> r == Ok::<usize, String>(0)
            &&& t.len() > 0 && spec_hex_prefixed(t) ==> {
                let h = t.subrange(2, t.len() as int);
                &&& (h.len() > 0 && text::spec_all_hex(h) && text::spec_hex_value(h) <= usize::MAX)
                    ==> r == Ok::<usize, String>(text::spec_hex_value(h) as usize)
                &&& !(h.len() > 0 && text::spec_all_hex(h) && text::spec_hex_value(h)
                    <= usize::MAX) ==> r is Err && r->Err_0@ == i18n::HEX_PARSE_ERROR@
            }
            &&& t.len() > 0 && !spec_hex_prefixed(t) && text::spec_has_alpha(t) ==> {
                &&& (text::spec_all_hex(t) && text::spec_hex_value(t) <= usize::MAX) ==> r == Ok::<
                    usize,
                    String,
                >(text::spec_hex_value(t) as usize)
                &&& !(text::spec_all_hex(t) && text::spec_hex_value(t) <= usize::MAX) ==> r is Err
                    && r->Err_0@ == i18n::HEX_PARSE_ERROR@
            }
            &&& t.len() > 0 && !spec_hex_prefixed(t) && !text::spec_has_alpha(t) ==> {
                &&& (text::spec_all_dec(t) && text::spec_dec_value(t) <= usize::MAX) ==> r == Ok::<
                    usize,
                    String,
                >(text::spec_dec_value(t) as usize)
                &&& !(text::spec_all_dec(t) && text::spec_dec_value(t) <= usize::MAX) ==> r is Err
                    && r->Err_0@ == i18n::DECIMAL_PARSE_ERROR@
            }
        }),
{
    let trimmed = text::trim_str(input);
    let t = trimmed.as_str();
    let n = t.unicode_len();
    if n == 0 {
        return Ok(0);
    }
    let prefixed = n >= 2 && t.get_char(0) == '0' && (t.get_char(1) == 'x' || t.get_char(1)
        == 'X');
    if prefixed {
        match text::parse_hex_str(t, 2) {
            Some(v) => Ok(v),
            None => Err(i18n::HEX_PARSE_ERROR.to_owned()),
        }
    } else if text::has_alpha(t) {
        proof {
            assert(t@.subrange(0, t@.len() as int) =~= t@);
        }
        match text::parse_hex_str(t, 0) {
            Some(v) => Ok(v),
            None => Err(i18n::HEX_PARSE_ERROR.to_owned()),
        }
    } else {
        proof {
            assert(t@.subrange(0, t@.len() as int) =~= t@);
        }
        match text::parse_dec_str(t, 0) {
            Some(v) => Ok(v),
            None => Err(i18n::DECIMAL_PARSE_ERROR.to_owned()),
        }
    }
}

/// Whether the shown text matches a search: an empty search matches
/// everything, any other search must occur in the text.
pub fn search(export_data: &str, search_string: &str) -> (r: bool)
    ensures
        r == (search_string@.len() == 0 || text::contains_seq(export_data@, search_string@)),
{
    if search_string.is_empty() {
        return true;
    }
    text::str_contains(export_data, search_string)
}

/// The text `message` returns for each error value.
pub open spec fn spec_error_message(e: PeError) -> Seq<char> {
    match e {
        PeError::Truncated => i18n::FILE_TRUNCATED@,
        PeError::BadDosMagic => i18n::NOT_VALID_PE_FILE@,
        PeError::BadNtSignature => i18n::NOT_VALID_PE_FILE@,
        PeError::UnknownMachine => i18n::NOT_NORMAL_MACHINE_IMAGE@,
        PeError::Unmapped => i18n::ERROR_GET_RVA_OFFSET@,
        PeError::TooDeep => i18n::RESOURCE_TOO_DEEP@,
        PeError::NameEmpty => i18n::FUNC_NAME_EMPTY@,
        PeError::NameTooLong => i18n::FUNC_NAME_TOO_LONG@,
        PeError::NameNotAscii => i18n::FUNC_NAME_NOT_ASCII@,
        PeError::NameStartsWithDigit => i18n::FUNC_NAME_FIRST_DIGIT@,
    }
}

} // verus!
