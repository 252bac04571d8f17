//! In-place rewriting of decoded name and address slots.
//!
//! A rewrite never moves a byte: the new name is written over the slot and
//! zero-padded out to the slot's recorded capacity, and every byte outside
//! the slot keeps its value. A name that fails validation leaves the image
//! untouched.

use vstd::prelude::*;
use crate::PeError;
use crate::export::ExportInfo;
use crate::import::ImportFunction;
use crate::raw::spec_splice;

verus! {

/// Whether the character is a decimal digit.
pub open spec fn is_digit_char(c: char) -> bool {
    48 <= c as u32 <= 57
}

/// Why a name rewrite is refused, in the order the checks run: an empty
/// name, a name with a byte outside ASCII, a leading digit, a name longer
/// than the slot's capacity, and a slot that runs past the image.
pub open spec fn spec_name_patch_err(
    b: Seq<u8>,
    fo: int,
    cap: int,
    name: Seq<char>,
    ascii: bool,
) -> Option<PeError> {
    if name.len() == 0 {
        Some(PeError::NameEmpty)
    } else if !ascii {
        Some(PeError::NameNotAscii)
    } else if is_digit_char(name[0]) {
        Some(PeError::NameStartsWithDigit)
    } else if name.len() > cap {
        Some(PeError::NameTooLong)
    } else if fo + cap > b.len() {
        Some(PeError::Truncated)
    } else {
        None
    }
}

/// What a slot holds after a rewrite: the name's bytes, then zero padding
/// out to the slot's capacity.
pub open spec fn spec_padded_name(name: Seq<char>, cap: int) -> Seq<u8> {
    Seq::new(cap as nat, |k: int| if k < name.len() { name[k] as u8 } else { 0 })
}

/// Writes `func_name` over the `cap`-byte slot at `fo`, zero-padded, after
/// validating it; a refused name leaves the image untouched.
fn rewrite_name_at(d: &mut Vec<u8>, fo: u32, cap: u32, func_name: &str) -> (r: Result<(), PeError>)
    ensures
        ({
            let e = spec_name_patch_err(
                old(d)@,
                fo as int,
                cap as int,
                func_name@,
                vstd::string::is_ascii(func_name),
            );
            &&& e is Some ==> r == Err::<(), PeError>(e->0) && final(d)@ == old(d)@
            &&& e is None ==> r == Ok::<(), PeError>(()) && final(d)@ == spec_splice(
                old(d)@,
                fo as int,
                spec_padded_name(func_name@, cap as int),
            ) && final(d)@.len() == old(d)@.len()
        }),
{
    let m = func_name.unicode_len();
    if m == 0 {
        return Err(PeError::NameEmpty);
    }
    if !func_name.is_ascii() {
        return Err(PeError::NameNotAscii);
    }
    let first = func_name.get_char(0);
    if 48 <= first as u32 && first as u32 <= 57 {
        return Err(PeError::NameStartsWithDigit);
    }
    if m > cap as usize {
        return Err(PeError::NameTooLong);
    }
    if fo as u64 + cap as u64 > d.len() as u64 {
        return Err(PeError::Truncated);
    }
    let base = fo as usize;
    let mut k: usize = 0;
    while k < cap as usize
        invariant
            m == func_name@.len(),
            vstd::string::is_ascii(func_name),
            base == fo,
            m <= cap,
            d@.len() <= usize::MAX,
            base + cap <= d@.len(),
            d@.len() == old(d)@.len(),
            0 <= k <= cap,
            forall|j: int|
                0 <= j < k ==> d@[base + j] == spec_padded_name(func_name@, cap as int)[j],
            forall|j: int| !(base <= j < base + cap) && 0 <= j < d@.len() ==> d@[j] == old(d)@[j],
        decreases cap - k,
    {
        if k < m {
            d[base + k] = func_name.get_ascii(k);
        } else {
            d[base + k] = 0;
        }
        k = k + 1;
    }
    proof {
        assert(d@ =~= spec_splice(old(d)@, fo as int, spec_padded_name(func_name@, cap as int)));
    }
    Ok(())
}

impl ExportInfo {
    /// Rewrites this export's name slot with `func_name`, zero-padded out
    /// to the slot's recorded capacity. A name that is empty, not ASCII,
    /// starts with a digit or outgrows the capacity is refused, and the
    /// image keeps every byte it had; a successful write changes the slot
    /// bytes alone.
    pub fn write_func_name(&self, d: &mut Vec<u8>, func_name: &str) -> (r: Result<(), PeError>)
        ensures
            ({
                let e = spec_name_patch_err(
                    old(d)@,
                    self.name_string_fo as int,
                    self.name_max_length as int,
                    func_name@,
                    vstd::string::is_ascii(func_name),
                );
                &&& e is Some ==> r == Err::<(), PeError>(e->0) && final(d)@ == old(d)@
                &&& e is None ==> r == Ok::<(), PeError>(()) && final(d)@ == spec_splice(
                    old(d)@,
                    self.name_string_fo as int,
                    spec_padded_name(func_name@, self.name_max_length as int),
                ) && final(d)@.len() == old(d)@.len()
            }),
    {
        rewrite_name_at(d, self.name_string_fo, self.name_max_length, func_name)
    }

    /// Overwrites this export's 4-byte function-address cell with `func`,
    /// little-endian; every other byte keeps its value. Only a cell past
    /// the end of the image is refused.
    pub fn write_func_address(&self, d: &mut Vec<u8>, func: u32) -> (r: Result<(), PeError>)
        ensures
            self.function_address + 4 > old(d)@.len() ==> r == Err::<(), PeError>(
                PeError::Truncated,
            ) && final(d)@ == old(d)@,
            self.function_address + 4 <= old(d)@.len() ==> r == Ok::<(), PeError>(())
                && final(d)@ == spec_splice(
                old(d)@,
                self.function_address as int,
                crate::patch::spec_le4(func),
            ) && final(d)@.len() == old(d)@.len(),
    {
        let fo = self.function_address;
        if fo as u64 + 4 > d.len() as u64 {
            return Err(PeError::Truncated);
        }
        let base = fo as usize;
        d[base] = (func % 0x100) as u8;
        d[base + 1] = (func / 0x100 % 0x100) as u8;
        d[base + 2] = (func / 0x10000 % 0x100) as u8;
        d[base + 3] = (func / 0x1000000) as u8;
        proof {
            assert(d@ =~= spec_splice(old(d)@, fo as int, spec_le4(func)));
        }
        Ok(())
    }
}

/// The four little-endian bytes of a 32-bit value.
pub open spec fn spec_le4(x: u32) -> Seq<u8> {
    seq![
        (x % 0x100) as u8,
        ((x / 0x100) % 0x100) as u8,
        ((x / 0x10000) % 0x100) as u8,
        (x / 0x1000000) as u8,
    ]
}

/// Writing the four bytes of `spec_le4` stores exactly the value a
/// little-endian read decodes back.
pub proof fn lemma_le4_round_trip(x: u32)
    ensures
        crate::raw::le32(spec_le4(x), 0) == x,
{
}

impl ImportFunction {
    /// Rewrites this import's name slot with `func_name`, under the same
    /// validation and with the same byte-exact effect as the export name
    /// rewrite.
    pub fn write_func_name(&self, d: &mut Vec<u8>, func_name: &str) -> (r: Result<(), PeError>)
        ensures
            ({
                let e = spec_name_patch_err(
                    old(d)@,
                    self.name_address as int,
                    self.name_max_length as int,
                    func_name@,
                    vstd::string::is_ascii(func_name),
                );
                &&& e is Some ==> r == Err::<(), PeError>(e->0) && final(d)@ == old(d)@
                &&& e is None ==> r == Ok::<(), PeError>(()) && final(d)@ == spec_splice(
                    old(d)@,
                    self.name_address as int,
                    spec_padded_name(func_name@, self.name_max_length as int),
                ) && final(d)@.len() == old(d)@.len()
            }),
    {
        rewrite_name_at(d, self.name_address, self.name_max_length, func_name)
    }
}

} // verus!
