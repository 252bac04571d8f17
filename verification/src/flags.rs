//! The decoded view of one section's characteristics bits, as the
//! presentation layer shows them: one flag per named bit.

use vstd::prelude::*;

verus! {

/// One boolean per named section characteristics bit.
#[derive(Debug, Clone, Copy, Eq, PartialEq, Structural)]
pub struct SectionFlag {
    pub image_scn_cnt_code: bool,
    pub image_scn_cnt_initialized_data: bool,
    pub image_scn_cnt_uninitialized_data: bool,
    pub image_scn_lnk_other: bool,
    pub image_scn_lnk_info: bool,
    pub image_scn_lnk_remove: bool,
    pub image_scn_lnk_comdat: bool,
    pub image_scn_no_defer_spec_exc: bool,
    pub image_scn_gprel: bool,
    pub image_scn_align1_bytes: bool,
    pub image_scn_align2_bytes: bool,
    pub image_scn_align4_bytes: bool,
    pub image_scn_align8_bytes: bool,
    pub image_scn_align16_bytes: bool,
    pub image_scn_align32_bytes: bool,
    pub image_scn_align64_bytes: bool,
    pub image_scn_align128_bytes: bool,
    pub image_scn_align256_bytes: bool,
    pub image_scn_align512_bytes: bool,
    pub image_scn_align1024_bytes: bool,
    pub image_scn_align2048_bytes: bool,
    pub image_scn_align4096_bytes: bool,
    pub image_scn_align8192_bytes: bool,
    pub image_scn_lnk_nreloc_ovfl: bool,
    pub image_scn_mem_discardable: bool,
    pub image_scn_mem_not_paged: bool,
    pub image_scn_mem_shared: bool,
    pub image_scn_mem_execute: bool,
    pub image_scn_mem_read: bool,
    pub image_scn_mem_write: bool,
}

impl SectionFlag {
    /// Splits a characteristics field into its named bits; a flag is set
    /// exactly when its mask finds a bit in `flag`.
    pub fn match_flag(flag: u32) -> (r: Self)
        ensures
            r.image_scn_cnt_code == (flag & 0x00000020 != 0),
            r.image_scn_cnt_initialized_data == (flag & 0x00000040 != 0),
            r.image_scn_cnt_uninitialized_data == (flag & 0x00000080 != 0),
            r.image_scn_lnk_other == (flag & 0x00000100 != 0),
            r.image_scn_lnk_info == (flag & 0x00000200 != 0),
            r.image_scn_lnk_remove == (flag & 0x00000800 != 0),
            r.image_scn_lnk_comdat == (flag & 0x00001000 != 0),
            r.image_scn_no_defer_spec_exc == (flag & 0x00004000 != 0),
            r.image_scn_gprel == (flag & 0x00008000 != 0),
            r.image_scn_align1_bytes == (flag & 0x00100000 != 0),
            r.image_scn_align2_bytes == (flag & 0x00200000 != 0),
            r.image_scn_align4_bytes == (flag & 0x00300000 != 0),
            r.image_scn_align8_bytes == (flag & 0x00400000 != 0),
            r.image_scn_align16_bytes == (flag & 0x00500000 != 0),
            r.image_scn_align32_bytes == (flag & 0x00600000 != 0),
            r.image_scn_align64_bytes == (flag & 0x00700000 != 0),
            r.image_scn_align128_bytes == (flag & 0x00800000 != 0),
            r.image_scn_align256_bytes == (flag & 0x00900000 != 0),
            r.image_scn_align512_bytes == (flag & 0x00A00000 != 0),
            r.image_scn_align1024_bytes == (flag & 0x00B00000 != 0),
            r.image_scn_align2048_bytes == (flag & 0x00C00000 != 0),
            r.image_scn_align4096_bytes == (flag & 0x00D00000 != 0),
            r.image_scn_align8192_bytes == (flag & 0x00E00000 != 0),
            r.image_scn_lnk_nreloc_ovfl == (flag & 0x01000000 != 0),
            r.image_scn_mem_discardable == (flag & 0x02000000 != 0),
            r.image_scn_mem_not_paged == (flag & 0x08000000 != 0),
            r.image_scn_mem_shared == (flag & 0x10000000 != 0),
            r.image_scn_mem_execute == (flag & 0x20000000 != 0),
            r.image_scn_mem_read == (flag & 0x40000000 != 0),
            r.image_scn_mem_write == (flag & 0x80000000 != 0),
    {
        Self {
            image_scn_cnt_code: flag & 0x00000020 != 0,
            image_scn_cnt_initialized_data: flag & 0x00000040 != 0,
            image_scn_cnt_uninitialized_data: flag & 0x00000080 != 0,
            image_scn_lnk_other: flag & 0x00000100 != 0,
            image_scn_lnk_info: flag & 0x00000200 != 0,
            image_scn_lnk_remove: flag & 0x00000800 != 0,
            image_scn_lnk_comdat: flag & 0x00001000 != 0,
            image_scn_no_defer_spec_exc: flag & 0x00004000 != 0,
            image_scn_gprel: flag & 0x00008000 != 0,
            image_scn_align1_bytes: flag & 0x00100000 != 0,
            image_scn_align2_bytes: flag & 0x00200000 != 0,
            image_scn_align4_bytes: flag & 0x00300000 != 0,
            image_scn_align8_bytes: flag & 0x00400000 != 0,
            image_scn_align16_bytes: flag & 0x00500000 != 0,
            image_scn_align32_bytes: flag & 0x00600000 != 0,
            image_scn_align64_bytes: flag & 0x00700000 != 0,
            image_scn_align128_bytes: flag & 0x00800000 != 0,
            image_scn_align256_bytes: flag & 0x00900000 != 0,
            image_scn_align512_bytes: flag & 0x00A00000 != 0,
            image_scn_align1024_bytes: flag & 0x00B00000 != 0,
            image_scn_align2048_bytes: flag & 0x00C00000 != 0,
            image_scn_align4096_bytes: flag & 0x00D00000 != 0,
            image_scn_align8192_bytes: flag & 0x00E00000 != 0,
            image_scn_lnk_nreloc_ovfl: flag & 0x01000000 != 0,
            image_scn_mem_discardable: flag & 0x02000000 != 0,
            image_scn_mem_not_paged: flag & 0x08000000 != 0,
            image_scn_mem_shared: flag & 0x10000000 != 0,
            image_scn_mem_execute: flag & 0x20000000 != 0,
            image_scn_mem_read: flag & 0x40000000 != 0,
            image_scn_mem_write: flag & 0x80000000 != 0,
        }
    }
}

} // verus!
