//! Reconstruction of standalone icon and cursor files from fragmented
//! resource records, and the content sniffing used when resources are
//! extracted.
//!
//! A group-icon resource holds a header and 14-byte records that refer to
//! sibling icon leaves by id; the in-image layout is never a valid `ICO`
//! stream. The rebuilt stream gets a corrected header, one 16-byte record
//! per referenced image whose offset is a running total over the output,
//! and the image bytes concatenated behind them.

use vstd::prelude::*;
use crate::PeError;
use crate::raw::le16;
use crate::raw::le32;
use crate::resource::ResourceTree;
use crate::resource::MAX_RESOURCE_DEPTH;
use crate::text::str_eq;
use crate::text::str_contains;
use crate::text::contains_seq;

verus! {

/// The index of the last pair whose id is `id`, or -1: a later record for
/// the same id replaces an earlier one, as a map insert would.
pub open spec fn assoc_find(m: Seq<(u16, Vec<u8>)>, id: u16) -> int
    decreases m.len(),
{
    if m.len() == 0 {
        -1
    } else if m[m.len() - 1].0 == id {
        m.len() - 1
    } else {
        assoc_find(m.drop_last(), id)
    }
}

/// The lookup lands on a pair of the list, or on nothing at all.
pub proof fn lemma_assoc_find_range(m: Seq<(u16, Vec<u8>)>, id: u16)
    ensures
        -1 <= assoc_find(m, id) < m.len(),
        assoc_find(m, id) >= 0 ==> m[assoc_find(m, id)].0 == id,
    decreases m.len(),
{
    if m.len() > 0 && m[m.len() - 1].0 != id {
        lemma_assoc_find_range(m.drop_last(), id);
        if assoc_find(m, id) >= 0 {
            assert(m.drop_last()[assoc_find(m, id)] == m[assoc_find(m, id)]);
        }
    }
}

/// Looks an icon id up in the gathered data, taking the latest record.
fn find_icon_data(m: &Vec<(u16, Vec<u8>)>, id: u16) -> (r: Option<usize>)
    ensures
        r is None <==> assoc_find(m@, id) == -1,
        r is Some ==> 0 <= assoc_find(m@, id) < m@.len() && r->0 as int == assoc_find(m@, id),
{
    proof {
        lemma_assoc_find_range(m@, id);
        assert(m@.subrange(0, m@.len() as int) =~= m@);
    }
    let mut k: usize = m.len();
    while k > 0
        invariant
            0 <= k <= m@.len(),
            assoc_find(m@, id) == assoc_find(m@.subrange(0, k as int), id),
            -1 <= assoc_find(m@, id) < m@.len(),
        decreases k,
    {
        proof {
            assert(m@.subrange(0, k as int).drop_last() =~= m@.subrange(0, k - 1));
            assert(m@.subrange(0, k as int)[k - 1] == m@[k - 1]);
        }
        if m[k - 1].0 == id {
            return Some(k - 1);
        }
        k = k - 1;
    }
    proof {
        assert(m@.subrange(0, 0) =~= Seq::<(u16, Vec<u8>)>::empty());
    }
    None
}

/// The declared image count of a group payload.
pub open spec fn spec_group_count(g: Seq<u8>) -> int {
    le16(g, 4) as int
}

/// How many whole 14-byte records the payload holds, up to the declared
/// count: the scan stops at the first record that would run past the end.
pub open spec fn spec_parsed_count(g: Seq<u8>) -> int {
    if 6 + 14 * spec_group_count(g) <= g.len() {
        spec_group_count(g)
    } else if g.len() < 6 {
        0
    } else {
        (g.len() - 6) / 14
    }
}

/// The icon id record `k` refers to.
pub open spec fn spec_group_id(g: Seq<u8>, k: int) -> u16 {
    le16(g, 6 + 14 * k + 12)
}

/// Whether record `k` refers to an id the gathered data holds.
pub open spec fn spec_found(g: Seq<u8>, m: Seq<(u16, Vec<u8>)>, k: int) -> bool {
    assoc_find(m, spec_group_id(g, k)) >= 0
}

/// The data bytes record `k` refers to.
pub open spec fn spec_found_data(g: Seq<u8>, m: Seq<(u16, Vec<u8>)>, k: int) -> Seq<u8> {
    m[assoc_find(m, spec_group_id(g, k))].1@
}

/// How many of the first `k` records refer to data the map holds.
pub open spec fn spec_found_count(g: Seq<u8>, m: Seq<(u16, Vec<u8>)>, k: int) -> int
    decreases k,
{
    if k <= 0 {
        0
    } else {
        spec_found_count(g, m, k - 1) + (if spec_found(g, m, k - 1) {
            1int
        } else {
            0int
        })
    }
}

/// The total size of the data the first `k` records refer to.
pub open spec fn spec_data_sum(g: Seq<u8>, m: Seq<(u16, Vec<u8>)>, k: int) -> int
    decreases k,
{
    if k <= 0 {
        0
    } else {
        spec_data_sum(g, m, k - 1) + (if spec_found(g, m, k - 1) {
            spec_found_data(g, m, k - 1).len() as int
        } else {
            0int
        })
    }
}

/// The running counts are counts and sizes: never negative.
pub proof fn lemma_found_counts_nonneg(g: Seq<u8>, m: Seq<(u16, Vec<u8>)>, k: int)
    ensures
        spec_found_count(g, m, k) >= 0,
        spec_data_sum(g, m, k) >= 0,
    decreases k,
{
    if k > 0 {
        lemma_found_counts_nonneg(g, m, k - 1);
    }
}

/// Both running counts never fall and never go negative.
pub proof fn lemma_found_counts_mono(g: Seq<u8>, m: Seq<(u16, Vec<u8>)>, k: int, n: int)
    requires
        0 <= k <= n,
    ensures
        0 <= spec_found_count(g, m, k) <= spec_found_count(g, m, n),
        0 <= spec_data_sum(g, m, k) <= spec_data_sum(g, m, n),
    decreases n - k,
{
    lemma_found_counts_nonneg(g, m, k);
    if k < n {
        lemma_found_counts_mono(g, m, k + 1, n);
    }
}

/// The position of record `k`'s 16-byte entry in the rebuilt stream.
pub open spec fn spec_block_pos(g: Seq<u8>, m: Seq<(u16, Vec<u8>)>, k: int) -> int {
    6 + 16 * spec_found_count(g, m, k)
}

/// The position of record `k`'s data in the rebuilt stream.
pub open spec fn spec_data_pos(g: Seq<u8>, m: Seq<(u16, Vec<u8>)>, k: int) -> int {
    6 + 16 * spec_found_count(g, m, spec_parsed_count(g)) + spec_data_sum(g, m, k)
}

/// Where the rebuilt stream says image `k` starts: a running total over
/// the output stream, so it is exactly where the image's bytes land —
/// past the written records' header, plus the found data before it.
pub open spec fn spec_image_offset(g: Seq<u8>, m: Seq<(u16, Vec<u8>)>, k: int) -> int {
    spec_data_pos(g, m, k)
}

/// Whether stream `r` holds record `k`'s 16-byte directory entry at its
/// block position: the first eight bytes copied from the record, then the
/// found data's size and the running image offset, little-endian.
pub open spec fn icon_entry_block_ok(
    g: Seq<u8>,
    m: Seq<(u16, Vec<u8>)>,
    k: int,
    r: Seq<u8>,
) -> bool {
    let p = spec_block_pos(g, m, k);
    let e = 6 + 14 * k;
    &&& r[p] == g[e]
    &&& r[p + 1] == g[e + 1]
    &&& r[p + 2] == g[e + 2]
    &&& r[p + 3] == g[e + 3]
    &&& r[p + 4] == g[e + 4]
    &&& r[p + 5] == g[e + 5]
    &&& r[p + 6] == g[e + 6]
    &&& r[p + 7] == g[e + 7]
    &&& le32(r, p + 8) == spec_found_data(g, m, k).len()
    &&& le32(r, p + 12) == spec_image_offset(g, m, k)
}

/// Whether stream `r` holds record `k`'s image bytes at its data
/// position.
pub open spec fn icon_data_block_ok(
    g: Seq<u8>,
    m: Seq<(u16, Vec<u8>)>,
    k: int,
    r: Seq<u8>,
) -> bool {
    r.subrange(
        spec_data_pos(g, m, k),
        spec_data_pos(g, m, k) + spec_found_data(g, m, k).len(),
    ) == spec_found_data(g, m, k)
}

/// An entry block already in place stays in place when the stream only
/// grows behind it.
pub proof fn lemma_entry_block_stable(
    g: Seq<u8>,
    m: Seq<(u16, Vec<u8>)>,
    k: int,
    r1: Seq<u8>,
    r2: Seq<u8>,
)
    requires
        icon_entry_block_ok(g, m, k, r1),
        spec_block_pos(g, m, k) + 16 <= r1.len(),
        r1.len() <= r2.len(),
        forall|q: int| 0 <= q < r1.len() ==> r2[q] == r1[q],
    ensures
        icon_entry_block_ok(g, m, k, r2),
{
    lemma_found_counts_nonneg(g, m, k);
}

/// Whether the rebuilt stream `r` is exactly what the group payload `g`
/// and the gathered data `m` describe.
pub open spec fn icon_file_matches(
    g: Seq<u8>,
    m: Seq<(u16, Vec<u8>)>,
    is_cursor: bool,
    r: Seq<u8>,
) -> bool {
    let n = spec_parsed_count(g);
    &&& r.len() == 6 + 16 * spec_found_count(g, m, n) + spec_data_sum(g, m, n)
    &&& le16(r, 0) == le16(g, 0)
    &&& le16(r, 2) == (if is_cursor {
        2int
    } else {
        1int
    })
    &&& le16(r, 4) == le16(g, 4)
    &&& forall|k: int|
        0 <= k < n && #[trigger] spec_found(g, m, k) ==> icon_entry_block_ok(g, m, k, r)
            && icon_data_block_ok(g, m, k, r)
}

impl ResourceTree {
    /// Rebuilds a standalone `ICO`/`CUR` byte stream from a group
    /// payload: the corrected 6-byte header, one 16-byte record per
    /// referenced image the gathered data holds (its size taken from the
    /// data, its offset a running total over the output), then the image
    /// bytes in the same order.
    ///
    /// Fails with `Truncated` when the payload cannot hold its 6-byte
    /// header, or when the rebuilt offsets would outgrow 32 bits.
    #[verifier::rlimit(100)]
    #[verifier::spinoff_prover]
    pub fn build_icon_file(
        group_data: &Vec<u8>,
        icon_data_map: &Vec<(u16, Vec<u8>)>,
        is_cursor: bool,
    ) -> (r: Result<Vec<u8>, PeError>)
        ensures
            r is Ok <==> group_data@.len() >= 6 && spec_image_offset(
                group_data@,
                icon_data_map@,
                spec_parsed_count(group_data@),
            ) <= u32::MAX,
            r is Err ==> r == Err::<Vec<u8>, PeError>(PeError::Truncated),
            r is Ok ==> icon_file_matches(group_data@, icon_data_map@, is_cursor, r->Ok_0@),
    {
        let g = group_data;
        let ghost m = icon_data_map@;
        if g.len() < 6 {
            return Err(PeError::Truncated);
        }
        let declared: u16 = crate::raw::read_u16(g, 4);
        let n: usize = if 14 * (declared as u64) <= (g.len() as u64) - 6 {
            declared as usize
        } else {
            (g.len() - 6) / 14
        };
        proof {
            assert(n == spec_parsed_count(g@));
        }
        // The header and the record walk are written once the walk below
        // has counted the written records and checked that the running
        // offsets stay inside 32 bits.
        let mut total: u64 = 6;
        let mut fcnt: u64 = 0;
        let mut k: usize = 0;
        while k < n
            invariant
                g == group_data,
                icon_data_map@ == m,
                g@.len() >= 6,
                n == spec_parsed_count(g@),
                6 + 14 * n <= g@.len(),
                0 <= k <= n,
                fcnt <= k,
                fcnt == spec_found_count(g@, m, k as int),
                total == 6 + 16 * spec_found_count(g@, m, k as int) + spec_data_sum(
                    g@,
                    m,
                    k as int,
                ),
                total <= u32::MAX,
            decreases n - k,
        {
            let e = 6 + 14 * k;
            let id = crate::raw::read_u16(g, e + 12);
            if let Some(idx) = find_icon_data(icon_data_map, id) {
                let dlen = icon_data_map[idx].1.len() as u64;
                proof {
                    assert(spec_found(g@, m, k as int));
                    assert(spec_found_data(g@, m, k as int) == icon_data_map@[idx as int].1@);
                    assert(spec_data_sum(g@, m, k + 1) == spec_data_sum(g@, m, k as int) + dlen);
                }
                if dlen > u32::MAX as u64 || 16 + dlen > u32::MAX as u64 - total {
                    proof {
                        lemma_found_counts_mono(g@, m, k + 1, n as int);
                        assert(spec_image_offset(g@, icon_data_map@, spec_parsed_count(g@))
                            > u32::MAX);
                    }
                    return Err(PeError::Truncated);
                }
                total = total + 16 + dlen;
                fcnt = fcnt + 1;
            }
            k = k + 1;
        }
        let foundn: u64 = fcnt;
        let ghost nn = n as int;
        proof {
            lemma_found_counts_nonneg(g@, m, nn);
            assert(16 * (foundn as int) <= u32::MAX);
        }
        let mut out: Vec<u8> = Vec::new();
        out.push(g[0]);
        out.push(g[1]);
        if is_cursor {
            out.push(2);
            out.push(0);
        } else {
            out.push(1);
            out.push(0);
        }
        out.push(g[4]);
        out.push(g[5]);
        let mut offset: u64 = 6 + 16 * foundn;
        let mut k: usize = 0;
        while k < n
            invariant
                g == group_data,
                icon_data_map@ == m,
                g@.len() >= 6,
                n == spec_parsed_count(g@),
                6 + 14 * n <= g@.len(),
                foundn == spec_found_count(g@, m, n as int),
                6 + 16 * spec_found_count(g@, m, n as int) + spec_data_sum(g@, m, n as int)
                    <= u32::MAX,
                0 <= k <= n,
                offset == spec_image_offset(g@, m, k as int),
                out@.len() == spec_block_pos(g@, m, k as int),
                le16(out@, 0) == le16(g@, 0),
                le16(out@, 2) == (if is_cursor { 2int } else { 1int }),
                le16(out@, 4) == le16(g@, 4),
                forall|j: int|
                    0 <= j < k && #[trigger] spec_found(g@, m, j) ==> icon_entry_block_ok(
                        g@,
                        m,
                        j,
                        out@,
                    ),
            decreases n - k,
        {
            proof {
                lemma_found_counts_mono(g@, m, k as int, n as int);
                lemma_found_counts_mono(g@, m, k + 1, n as int);
            }
            let ghost prev = out@;
            let e = 6 + 14 * k;
            let id = crate::raw::read_u16(g, e + 12);
            if let Some(idx) = find_icon_data(icon_data_map, id) {
                let dlen: u64 = icon_data_map[idx].1.len() as u64;
                proof {
                    assert(spec_found(g@, m, k as int));
                    assert(spec_found_data(g@, m, k as int) == icon_data_map@[idx as int].1@);
                    assert(spec_data_sum(g@, m, k + 1) == spec_data_sum(g@, m, k as int) + dlen);
                }
                out.push(g[e]);
                out.push(g[e + 1]);
                out.push(g[e + 2]);
                out.push(g[e + 3]);
                out.push(g[e + 4]);
                out.push(g[e + 5]);
                out.push(g[e + 6]);
                out.push(g[e + 7]);
                let dl32: u32 = dlen as u32;
                out.push((dl32 % 0x100) as u8);
                out.push((dl32 / 0x100 % 0x100) as u8);
                out.push((dl32 / 0x10000 % 0x100) as u8);
                out.push((dl32 / 0x1000000) as u8);
                let of32: u32 = offset as u32;
                out.push((of32 % 0x100) as u8);
                out.push((of32 / 0x100 % 0x100) as u8);
                out.push((of32 / 0x10000 % 0x100) as u8);
                out.push((of32 / 0x1000000) as u8);
                offset = offset + dlen;
                proof {
                    assert(forall|q: int| 0 <= q < prev.len() ==> out@[q] == prev[q]);
                    assert(le32(out@, prev.len() as int + 8) == dl32);
                    assert(le32(out@, prev.len() as int + 12) == of32);
                    assert(icon_entry_block_ok(g@, m, k as int, out@));
                    assert forall|j: int|
                        0 <= j < k && spec_found(g@, m, j) implies icon_entry_block_ok(
                        g@,
                        m,
                        j,
                        out@,
                    ) by {
                        lemma_found_counts_mono(g@, m, j + 1, k as int);
                        lemma_entry_block_stable(g@, m, j, prev, out@);
                    }
                }
            } else {
                proof {
                    assert(out@ == prev);
                }
            }
            k = k + 1;
        }
        let ghost dir_end = out@;
        proof {
            assert(out@.subrange(0, dir_end.len() as int) =~= dir_end);
        }
        let mut k: usize = 0;
        while k < n
            invariant
                g == group_data,
                icon_data_map@ == m,
                g@.len() >= 6,
                n == spec_parsed_count(g@),
                6 + 14 * n <= g@.len(),
                6 + 16 * spec_found_count(g@, m, n as int) + spec_data_sum(g@, m, n as int)
                    <= u32::MAX,
                0 <= k <= n,
                dir_end.len() == spec_block_pos(g@, m, n as int),
                out@.len() == spec_data_pos(g@, m, k as int),
                out@.subrange(0, dir_end.len() as int) == dir_end,
                forall|j: int|
                    0 <= j < k && #[trigger] spec_found(g@, m, j) ==> icon_data_block_ok(
                        g@,
                        m,
                        j,
                        out@,
                    ),
            decreases n - k,
        {
            proof {
                lemma_found_counts_mono(g@, m, k as int, n as int);
                lemma_found_counts_mono(g@, m, k + 1, n as int);
            }
            let ghost prev = out@;
            let e = 6 + 14 * k;
            let id = crate::raw::read_u16(g, e + 12);
            if let Some(idx) = find_icon_data(icon_data_map, id) {
                let data = &icon_data_map[idx].1;
                proof {
                    assert(spec_found(g@, m, k as int));
                    assert(spec_found_data(g@, m, k as int) == icon_data_map@[idx as int].1@);
                    assert(spec_data_sum(g@, m, k + 1) == spec_data_sum(g@, m, k as int)
                        + data@.len());
                }
                out.extend_from_slice(data.as_slice());
                proof {
                    assert(out@ =~= prev + spec_found_data(g@, m, k as int));
                    assert(out@.subrange(0, dir_end.len() as int) =~= prev.subrange(
                        0,
                        dir_end.len() as int,
                    ));
                    assert(out@.subrange(
                        spec_data_pos(g@, m, k as int),
                        spec_data_pos(g@, m, k as int) + spec_found_data(g@, m, k as int).len(),
                    ) =~= spec_found_data(g@, m, k as int));
                    assert(icon_data_block_ok(g@, m, k as int, out@));
                    assert forall|j: int|
                        0 <= j < k && spec_found(g@, m, j) implies icon_data_block_ok(
                        g@,
                        m,
                        j,
                        out@,
                    ) by {
                        lemma_found_counts_nonneg(g@, m, j);
                        lemma_found_counts_mono(g@, m, j + 1, k as int);
                        assert(out@.subrange(
                            spec_data_pos(g@, m, j),
                            spec_data_pos(g@, m, j) + spec_found_data(g@, m, j).len(),
                        ) =~= prev.subrange(
                            spec_data_pos(g@, m, j),
                            spec_data_pos(g@, m, j) + spec_found_data(g@, m, j).len(),
                        ));
                    }
                }
            }
            k = k + 1;
        }
        proof {
            lemma_found_counts_nonneg(g@, m, nn);
            assert forall|j: int| 0 <= j < nn && spec_found(g@, m, j) implies icon_entry_block_ok(
                g@,
                m,
                j,
                out@,
            ) by {
                lemma_found_counts_mono(g@, m, j + 1, nn);
                assert(forall|q: int|
                    0 <= q < dir_end.len() ==> out@[q] == out@.subrange(
                        0,
                        dir_end.len() as int,
                    )[q]);
                lemma_entry_block_stable(g@, m, j, dir_end, out@);
            }
            assert(le16(out@, 0) == le16(dir_end, 0));
            assert(le16(out@, 2) == le16(dir_end, 2));
            assert(le16(out@, 4) == le16(dir_end, 4));
            assert(group_data@.len() >= 6);
            assert(total == 6 + 16 * spec_found_count(g@, m, nn) + spec_data_sum(g@, m, nn));
            assert(spec_image_offset(group_data@, icon_data_map@, spec_parsed_count(group_data@))
                <= u32::MAX);
        }
        Ok(out)
    }
}


/// What the content sniffing decides for a leaf's bytes: the extension of
/// the first magic number that matches, in the fixed priority order, then
/// a plain-text guess, and nothing when the bytes name no known type.
pub open spec fn spec_detect(b: Seq<u8>) -> Option<Seq<char>> {
    if b.len() < 4 {
        None
    } else if b.len() >= 8 && b[0] == 0x89 && b[1] == 0x50 && b[2] == 0x4E && b[3] == 0x47 {
        Some(".png"@)
    } else if b[0] == 0xFF && b[1] == 0xD8 && b[2] == 0xFF {
        Some(".jpg"@)
    } else if b[0] == 0x42 && b[1] == 0x4D {
        Some(".bmp"@)
    } else if b[0] == 0x00 && b[1] == 0x00 && b[2] == 0x01 && b[3] == 0x00 {
        Some(".ico"@)
    } else if b[0] == 0x00 && b[1] == 0x00 && b[2] == 0x02 && b[3] == 0x00 {
        Some(".cur"@)
    } else if b[0] == 0x47 && b[1] == 0x49 && b[2] == 0x46 && b[3] == 0x38 {
        Some(".gif"@)
    } else if b[0] == 0x3C && b[1] == 0x3F && b[2] == 0x78 && b[3] == 0x6D {
        Some(".xml"@)
    } else if b[0] == 0x3C && b.len() >= 5 && b[1] == 0x68 && b[2] == 0x74 && b[3] == 0x6D && (b[4]
        == 0x6C || b[4] == 0x3E) {
        Some(".html"@)
    } else if b[0] == 0x3C && b.len() >= 5 && b[1] == 0x3F {
        Some(".xml"@)
    } else if b[0] == 0x4D && b[1] == 0x5A {
        Some(".dll"@)
    } else if b[0] == 0x50 && b[1] == 0x4B && b[2] == 0x03 && b[3] == 0x04 {
        Some(".zip"@)
    } else if b[0] == 0xEF && b[1] == 0xBB && b[2] == 0xBF {
        Some(".txt"@)
    } else if spec_is_texty(b) {
        Some(".txt"@)
    } else {
        None
    }
}

/// Whether the first hundred bytes look like plain text: control
/// whitespace, printable ASCII, or bytes past ASCII.
pub open spec fn spec_is_texty(b: Seq<u8>) -> bool {
    forall|i: int|
        0 <= i < b.len() && i < 100 ==> (b[i] == 0x09 || b[i] == 0x0A || b[i] == 0x0D || (0x20
            <= b[i] <= 0x7E) || b[i] >= 0x80)
}

/// The fallback extension for a resource type without content sniffing.
pub open spec fn spec_default_ext(t: Seq<char>) -> Seq<char> {
    if t == "RT_ICON"@ || t == "RT_GROUP_ICON"@ {
        ".ico"@
    } else if t == "RT_BITMAP"@ {
        ".bmp"@
    } else if t == "RT_CURSOR"@ || t == "RT_GROUP_CURSOR"@ {
        ".cur"@
    } else if t == "RT_ANICURSOR"@ || t == "RT_ANIICON"@ {
        ".ani"@
    } else if t == "RT_MANIFEST"@ {
        ".xml"@
    } else if t == "RT_HTML"@ {
        ".html"@
    } else if t == "RT_VERSION"@ || t == "RT_MENU"@ || t == "RT_DIALOG"@ || t == "RT_ACCELERATOR"@ {
        ".rc"@
    } else if t == "RT_STRING"@ || t == "RT_MESSAGETABLE"@ {
        ".txt"@
    } else if t == "RT_FONT"@ {
        ".fnt"@
    } else if t == "RT_FONTDIR"@ {
        ".fon"@
    } else {
        ".bin"@
    }
}

/// The name a leaf's file gets: the path as it stands when it already
/// carries a dot, else the path with the sniffed extension, the parent
/// type's default, or the raw-binary fallback, in that order.
pub open spec fn spec_generate_filename(
    path: Seq<char>,
    data: Seq<u8>,
    parent: Option<Seq<char>>,
) -> Seq<char> {
    if contains_seq(path, "."@) {
        path
    } else if spec_detect(data) is Some {
        path + spec_detect(data)->0
    } else if parent is Some {
        path + spec_default_ext(parent->0)
    } else {
        path + ".bin"@
    }
}

impl ResourceTree {
    /// Sniffs a file type from the magic numbers at the start of the
    /// bytes, as `spec_detect` lays the priorities down.
    pub fn detect_file_type(data: &Vec<u8>) -> (r: Option<&'static str>)
        ensures
            r is Some <==> spec_detect(data@) is Some,
            r is Some ==> r->0@ == spec_detect(data@)->0,
    {
        let b = data;
        if b.len() < 4 {
            return None;
        }
        if b.len() >= 8 && b[0] == 0x89 && b[1] == 0x50 && b[2] == 0x4E && b[3] == 0x47 {
            return Some(".png");
        }
        if b[0] == 0xFF && b[1] == 0xD8 && b[2] == 0xFF {
            return Some(".jpg");
        }
        if b[0] == 0x42 && b[1] == 0x4D {
            return Some(".bmp");
        }
        if b[0] == 0x00 && b[1] == 0x00 && b[2] == 0x01 && b[3] == 0x00 {
            return Some(".ico");
        }
        if b[0] == 0x00 && b[1] == 0x00 && b[2] == 0x02 && b[3] == 0x00 {
            return Some(".cur");
        }
        if b[0] == 0x47 && b[1] == 0x49 && b[2] == 0x46 && b[3] == 0x38 {
            return Some(".gif");
        }
        if b[0] == 0x3C {
            if b[1] == 0x3F && b[2] == 0x78 && b[3] == 0x6D {
                return Some(".xml");
            }
            if b.len() >= 5 && b[1] == 0x68 && b[2] == 0x74 && b[3] == 0x6D && (b[4] == 0x6C || b[4]
                == 0x3E) {
                return Some(".html");
            }
            if b.len() >= 5 && b[1] == 0x3F {
                return Some(".xml");
            }
        }
        if b[0] == 0x4D && b[1] == 0x5A {
            return Some(".dll");
        }
        if b[0] == 0x50 && b[1] == 0x4B && b[2] == 0x03 && b[3] == 0x04 {
            return Some(".zip");
        }
        if b.len() >= 3 && b[0] == 0xEF && b[1] == 0xBB && b[2] == 0xBF {
            return Some(".txt");
        }
        let mut texty = true;
        let mut i: usize = 0;
        let limit: usize = if b.len() < 100 {
            b.len()
        } else {
            100
        };
        while i < limit
            invariant
                limit <= b@.len(),
                limit == (if b@.len() < 100 { b@.len() as int } else { 100int }),
                0 <= i <= limit,
                texty <==> (forall|j: int|
                    0 <= j < i ==> (b@[j] == 0x09 || b@[j] == 0x0A || b@[j] == 0x0D || (0x20
                        <= b@[j] <= 0x7E) || b@[j] >= 0x80)),
            decreases limit - i,
        {
            let x = b[i];
            if !(x == 0x09 || x == 0x0A || x == 0x0D || (0x20 <= x && x <= 0x7E) || x >= 0x80) {
                texty = false;
                assert(!(b@[i as int] == 0x09 || b@[i as int] == 0x0A || b@[i as int] == 0x0D || (
                0x20 <= b@[i as int] <= 0x7E) || b@[i as int] >= 0x80));
                i = limit;
            } else {
                i = i + 1;
            }
        }
        if texty {
            return Some(".txt");
        }
        None
    }

    /// The fallback extension for a resource type.
    pub fn get_default_extension(resource_type: &str) -> (r: &'static str)
        ensures
            r@ == spec_default_ext(resource_type@),
    {
        let t = resource_type;
        if str_eq(t, "RT_ICON") || str_eq(t, "RT_GROUP_ICON") {
            ".ico"
        } else if str_eq(t, "RT_BITMAP") {
            ".bmp"
        } else if str_eq(t, "RT_CURSOR") || str_eq(t, "RT_GROUP_CURSOR") {
            ".cur"
        } else if str_eq(t, "RT_ANICURSOR") || str_eq(t, "RT_ANIICON") {
            ".ani"
        } else if str_eq(t, "RT_MANIFEST") {
            ".xml"
        } else if str_eq(t, "RT_HTML") {
            ".html"
        } else if str_eq(t, "RT_VERSION") || str_eq(t, "RT_MENU") || str_eq(t, "RT_DIALOG")
            || str_eq(t, "RT_ACCELERATOR") {
            ".rc"
        } else if str_eq(t, "RT_STRING") || str_eq(t, "RT_MESSAGETABLE") {
            ".txt"
        } else if str_eq(t, "RT_FONT") {
            ".fnt"
        } else if str_eq(t, "RT_FONTDIR") {
            ".fon"
        } else {
            ".bin"
        }
    }

    /// Names a leaf's file, as `spec_generate_filename` lays it down.
    pub fn generate_filename(
        resource_path: &str,
        file_data: &Vec<u8>,
        parent_type: Option<&str>,
    ) -> (r: String)
        ensures
            ({
                let parent = match parent_type {
                    Some(t) => Some(t@),
                    None => None,
                };
                r@ == spec_generate_filename(resource_path@, file_data@, parent)
            }),
    {
        proof {
            reveal_strlit(".");
        }
        if str_contains(resource_path, ".") {
            return resource_path.to_owned();
        }
        let mut r = resource_path.to_owned();
        if let Some(ext) = Self::detect_file_type(file_data) {
            r.append(ext);
            return r;
        }
        if let Some(res_type) = parent_type {
            r.append(Self::get_default_extension(res_type));
            return r;
        }
        r.append(".bin");
        r
    }
}

/// The leaf records under one id item: one triple per data leaf, in
/// child order.
pub open spec fn spec_leaf_triples(ds: Seq<ResourceTree>, j: int, id: u16) -> Seq<(u16, u32, u32)>
    decreases j,
{
    if j <= 0 {
        Seq::empty()
    } else {
        spec_leaf_triples(ds, j - 1, id) + (if ds[j - 1].children is None {
            seq![(id, ds[j - 1].data_address, ds[j - 1].size)]
        } else {
            Seq::<(u16, u32, u32)>::empty()
        })
    }
}

/// The leaf records under the first `j` items of one type directory:
/// only items with a 16-bit numeric id and children contribute.
pub open spec fn spec_item_triples(items: Seq<ResourceTree>, j: int) -> Seq<(u16, u32, u32)>
    decreases j,
{
    if j <= 0 {
        Seq::empty()
    } else {
        spec_item_triples(items, j - 1) + (if items[j - 1].id is Some && items[j - 1].id->0
            <= 0xFFFF && items[j - 1].children is Some {
            spec_leaf_triples(
                items[j - 1].children->0@,
                items[j - 1].children->0@.len() as int,
                items[j - 1].id->0 as u16,
            )
        } else {
            Seq::<(u16, u32, u32)>::empty()
        })
    }
}

/// The icon and cursor leaf records under the first `j` type directories.
pub open spec fn spec_type_triples(ts: Seq<ResourceTree>, j: int) -> Seq<(u16, u32, u32)>
    decreases j,
{
    if j <= 0 {
        Seq::empty()
    } else {
        spec_type_triples(ts, j - 1) + (if (ts[j - 1].id == Some(3u32) || ts[j - 1].id == Some(
            1u32,
        )) && ts[j - 1].children is Some {
            spec_item_triples(ts[j - 1].children->0@, ts[j - 1].children->0@.len() as int)
        } else {
            Seq::<(u16, u32, u32)>::empty()
        })
    }
}

impl ResourceTree {
    /// Gathers every icon and cursor leaf of the tree into an id-to-span
    /// list: the type directories with the icon or cursor type id, their
    /// numeric-id items, and each item's data leaves.
    pub fn collect_icon_resources(&self) -> (r: Vec<(u16, u32, u32)>)
        ensures
            self.children is None ==> r@ == Seq::<(u16, u32, u32)>::empty(),
            self.children is Some ==> r@ == spec_type_triples(
                self.children->0@,
                self.children->0@.len() as int,
            ),
    {
        let mut r: Vec<(u16, u32, u32)> = Vec::new();
        let types = match &self.children {
            Some(ts) => ts,
            None => {
                assert(r@ =~= Seq::<(u16, u32, u32)>::empty());
                return r;
            },
        };
        let mut ci: usize = 0;
        while ci < types.len()
            invariant
                self.children is Some,
                types == self.children->0,
                0 <= ci <= types@.len(),
                r@ == spec_type_triples(types@, ci as int),
            decreases types@.len() - ci,
        {
            let ghost r_type = r@;
            let t = &types[ci];
            let is_icon_type = match t.id {
                Some(x) => x == 3 || x == 1,
                None => false,
            };
            if is_icon_type {
                if let Some(items) = &t.children {
                    let mut ii: usize = 0;
                    while ii < items.len()
                        invariant
                            0 <= ii <= items@.len(),
                            r@ == r_type + spec_item_triples(items@, ii as int),
                        decreases items@.len() - ii,
                    {
                        let ghost r_item = r@;
                        let item = &items[ii];
                        let idv: Option<u16> = match item.id {
                            Some(x) => if x <= 0xFFFF {
                                Some(x as u16)
                            } else {
                                None
                            },
                            None => None,
                        };
                        if let Some(id) = idv {
                            if let Some(datas) = &item.children {
                                let mut di: usize = 0;
                                while di < datas.len()
                                    invariant
                                        0 <= di <= datas@.len(),
                                        r@ == r_item + spec_leaf_triples(datas@, di as int, id),
                                    decreases datas@.len() - di,
                                {
                                    let dn = &datas[di];
                                    if dn.children.is_none() {
                                        r.push((id, dn.data_address, dn.size));
                                        assert(r@ =~= r_item + spec_leaf_triples(
                                            datas@,
                                            di + 1,
                                            id,
                                        ));
                                    } else {
                                        assert(r@ =~= r_item + spec_leaf_triples(
                                            datas@,
                                            di + 1,
                                            id,
                                        ));
                                    }
                                    di = di + 1;
                                }
                                assert(r@ =~= r_type + spec_item_triples(items@, ii + 1));
                            } else {
                                assert(r@ =~= r_type + spec_item_triples(items@, ii + 1));
                            }
                        } else {
                            assert(r@ =~= r_type + spec_item_triples(items@, ii + 1));
                        }
                        ii = ii + 1;
                    }
                    assert(r@ =~= spec_type_triples(types@, ci + 1));
                } else {
                    assert(r@ =~= spec_type_triples(types@, ci + 1));
                }
            } else {
                assert(r@ =~= spec_type_triples(types@, ci + 1));
            }
            ci = ci + 1;
        }
        r
    }
}



/// How many files one node contributes to an extraction: a nonempty leaf
/// contributes one, a directory what its children contribute, and the
/// icon and cursor part directories at the type level contribute nothing
/// on their own.
pub open spec fn spec_extract_count(node: ResourceTree, depth: int) -> int
    decreases MAX_RESOURCE_DEPTH - depth, 0int,
{
    if depth < 0 || depth >= MAX_RESOURCE_DEPTH {
        0
    } else {
        match node.children {
            Some(cs) => {
                if depth == 1 && (node.name@ == "RT_ICON"@ || node.name@ == "RT_CURSOR"@) {
                    0
                } else {
                    spec_extract_count_prefix(cs@, cs@.len() as int, depth + 1)
                }
            },
            None => {
                if node.data_address > 0 && node.size > 0 {
                    1
                } else {
                    0
                }
            },
        }
    }
}

/// How many files the first `i` children contribute, each one level
/// deeper.
pub open spec fn spec_extract_count_prefix(cs: Seq<ResourceTree>, i: int, depth: int) -> int
    decreases MAX_RESOURCE_DEPTH - depth, i,
{
    if depth < 0 || depth > MAX_RESOURCE_DEPTH {
        0
    } else if i <= 0 {
        0
    } else {
        spec_extract_count_prefix(cs, i - 1, depth) + spec_extract_count(cs[i - 1], depth)
    }
}


/// The contribution counts are counts: never negative.
pub proof fn lemma_extract_count_nonneg(node: ResourceTree, depth: int)
    ensures
        spec_extract_count(node, depth) >= 0,
    decreases MAX_RESOURCE_DEPTH - depth, 0int,
{
    if 0 <= depth < MAX_RESOURCE_DEPTH {
        match node.children {
            Some(cs) => {
                lemma_extract_prefix_nonneg(cs@, cs@.len() as int, depth + 1);
            },
            None => {},
        }
    }
}

/// The running contribution of a child prefix is never negative.
pub proof fn lemma_extract_prefix_nonneg(cs: Seq<ResourceTree>, i: int, depth: int)
    ensures
        spec_extract_count_prefix(cs, i, depth) >= 0,
    decreases MAX_RESOURCE_DEPTH - depth, i,
{
    if 0 <= depth <= MAX_RESOURCE_DEPTH && i > 0 {
        lemma_extract_prefix_nonneg(cs, i - 1, depth);
        lemma_extract_count_nonneg(cs[i - 1], depth);
    }
}

/// The running contribution never falls as more children are walked.
pub proof fn lemma_extract_prefix_mono(cs: Seq<ResourceTree>, i: int, j: int, depth: int)
    requires
        0 <= i <= j,
    ensures
        spec_extract_count_prefix(cs, i, depth) <= spec_extract_count_prefix(cs, j, depth),
    decreases j,
{
    if i < j {
        lemma_extract_prefix_mono(cs, i, j - 1, depth);
        if 0 <= depth <= MAX_RESOURCE_DEPTH {
            lemma_extract_count_nonneg(cs[j - 1], depth);
        }
    }
}

/// Looks an icon id up in the gathered span list, taking the latest
/// record, as the data lookup does.
/// The index of the last gathered span whose id is `id`, or -1.
pub open spec fn span_find(m: Seq<(u16, u32, u32)>, id: u16) -> int
    decreases m.len(),
{
    if m.len() == 0 {
        -1
    } else if m[m.len() - 1].0 == id {
        m.len() - 1
    } else {
        span_find(m.drop_last(), id)
    }
}

/// The span lookup lands on a record of the list, or on nothing at all.
pub proof fn lemma_span_find_range(m: Seq<(u16, u32, u32)>, id: u16)
    ensures
        -1 <= span_find(m, id) < m.len(),
        span_find(m, id) >= 0 ==> m[span_find(m, id)].0 == id,
    decreases m.len(),
{
    if m.len() > 0 && m[m.len() - 1].0 != id {
        lemma_span_find_range(m.drop_last(), id);
        if span_find(m, id) >= 0 {
            assert(m.drop_last()[span_find(m, id)] == m[span_find(m, id)]);
        }
    }
}

fn find_icon_span(m: &Vec<(u16, u32, u32)>, id: u16) -> (r: Option<(u32, u32)>)
    ensures
        r is None <==> span_find(m@, id) == -1,
        r is Some ==> 0 <= span_find(m@, id) < m@.len() && (r->0).0 == m@[span_find(m@, id)].1
            && (r->0).1 == m@[span_find(m@, id)].2,
{
    proof {
        lemma_span_find_range(m@, id);
        assert(m@.subrange(0, m@.len() as int) =~= m@);
    }
    let mut k: usize = m.len();
    while k > 0
        invariant
            0 <= k <= m@.len(),
            span_find(m@, id) == span_find(m@.subrange(0, k as int), id),
            -1 <= span_find(m@, id) < m@.len(),
        decreases k,
    {
        proof {
            assert(m@.subrange(0, k as int).drop_last() =~= m@.subrange(0, k - 1));
            assert(m@.subrange(0, k as int)[k - 1] == m@[k - 1]);
        }
        if m[k - 1].0 == id {
            return Some((m[k - 1].1, m[k - 1].2));
        }
        k = k - 1;
    }
    proof {
        assert(m@.subrange(0, 0) =~= Seq::<(u16, u32, u32)>::empty());
    }
    None
}

/// Whether record `k` of a group payload refers to an id the gathered
/// spans hold.
pub open spec fn gr_found(g: Seq<u8>, tri: Seq<(u16, u32, u32)>, k: int) -> bool {
    span_find(tri, spec_group_id(g, k)) >= 0
}

/// How many of the first `k` records refer to a gathered span.
pub open spec fn gr_count(g: Seq<u8>, tri: Seq<(u16, u32, u32)>, k: int) -> int
    decreases k,
{
    if k <= 0 {
        0
    } else {
        gr_count(g, tri, k - 1) + (if gr_found(g, tri, k - 1) {
            1int
        } else {
            0int
        })
    }
}

/// The span count is a count: it is never negative.
pub proof fn lemma_gr_count_nonneg(g: Seq<u8>, tri: Seq<(u16, u32, u32)>, k: int)
    ensures
        gr_count(g, tri, k) >= 0,
    decreases k,
{
    if k > 0 {
        lemma_gr_count_nonneg(g, tri, k - 1);
    }
}

/// The span count never falls, and a found record takes a place of its
/// own below the later counts.
pub proof fn lemma_gr_count_mono(g: Seq<u8>, tri: Seq<(u16, u32, u32)>, k: int, n: int)
    requires
        0 <= k <= n,
    ensures
        0 <= gr_count(g, tri, k) <= gr_count(g, tri, n),
        gr_count(g, tri, k) + (if 0 <= k < n && gr_found(g, tri, k) {
            1int
        } else {
            0int
        }) <= gr_count(g, tri, n),
    decreases n - k,
{
    lemma_gr_count_nonneg(g, tri, k);
    if k < n {
        lemma_gr_count_mono(g, tri, k + 1, n);
    }
}

/// Whether `m` is exactly the icon data gathered for a group payload:
/// one pair per referenced record whose id the span list holds, in
/// record order, each carrying the id and the bytes of its span.
pub open spec fn gathered_matches(
    dta: Seq<u8>,
    g: Seq<u8>,
    tri: Seq<(u16, u32, u32)>,
    m: Seq<(u16, Vec<u8>)>,
) -> bool {
    let n = spec_parsed_count(g);
    &&& m.len() == gr_count(g, tri, n)
    &&& forall|k: int|
        0 <= k < n && #[trigger] gr_found(g, tri, k) ==> {
            let t = tri[span_find(tri, spec_group_id(g, k))];
            &&& m[gr_count(g, tri, k)].0 == spec_group_id(g, k)
            &&& m[gr_count(g, tri, k)].1@ == crate::raw::spec_window(dta, t.1 as int, t.2 as int)
        }
}

/// The path a child is written under: its name, behind its parent's path
/// and a separator when there is one.
pub open spec fn spec_child_path(path: Seq<char>, name: Seq<char>) -> Seq<char> {
    if path.len() == 0 {
        name
    } else {
        path + "/"@ + name
    }
}

/// Whether a name carries the resource-type prefix.
pub open spec fn spec_is_rt_name(name: Seq<char>) -> bool {
    "RT_"@.len() <= name.len() && name.subrange(0, "RT_"@.len() as int) =~= "RT_"@
}

/// Whether `out` is the payload an extraction writes for the leaf: the
/// leaf's bytes as they stand, or, under a group-icon or group-cursor
/// directory, the rebuilt stream from those bytes and the gathered icon
/// data — falling back to the raw bytes when the rebuild is refused.
pub open spec fn leaf_payload_ok(
    dta: Seq<u8>,
    node: ResourceTree,
    parent: Option<Seq<char>>,
    tri: Seq<(u16, u32, u32)>,
    out: Seq<u8>,
) -> bool {
    let raw = crate::raw::spec_window(dta, node.data_address as int, node.size as int);
    let is_gi = parent == Some("RT_GROUP_ICON"@);
    let is_gc = parent == Some("RT_GROUP_CURSOR"@);
    if is_gi || is_gc {
        exists|m: Seq<(u16, Vec<u8>)>|
            {
                &&& #[trigger] gathered_matches(dta, raw, tri, m)
                &&& if raw.len() >= 6 && spec_image_offset(raw, m, spec_parsed_count(raw))
                    <= u32::MAX {
                    icon_file_matches(raw, m, is_gc, out)
                } else {
                    out == raw
                }
            }
    } else {
        out == raw
    }
}

/// Whether `pair` is the file an extraction writes for the leaf at
/// `path`: the payload above, named by the filename rule over it.
pub open spec fn extract_pair_ok(
    dta: Seq<u8>,
    node: ResourceTree,
    path: Seq<char>,
    parent: Option<Seq<char>>,
    tri: Seq<(u16, u32, u32)>,
    pair: (String, Vec<u8>),
) -> bool {
    &&& leaf_payload_ok(dta, node, parent, tri, pair.1@)
    &&& pair.0@ == spec_generate_filename(path, pair.1@, parent)
}

/// Whether `out` is everything an extraction writes for one node, in
/// walk order: nothing past the followed depth, nothing for an icon or
/// cursor part directory at the type level, the children's files for any
/// other directory, and the leaf's single file for a nonempty leaf.
pub open spec fn extract_output_ok(
    dta: Seq<u8>,
    node: ResourceTree,
    path: Seq<char>,
    parent: Option<Seq<char>>,
    depth: int,
    tri: Seq<(u16, u32, u32)>,
    out: Seq<(String, Vec<u8>)>,
) -> bool
    decreases MAX_RESOURCE_DEPTH - depth, 0int,
{
    if depth < 0 || depth >= MAX_RESOURCE_DEPTH {
        out.len() == 0
    } else {
        let newpath = spec_child_path(path, node.name@);
        match node.children {
            Some(cs) => {
                if depth == 1 && (node.name@ == "RT_ICON"@ || node.name@ == "RT_CURSOR"@) {
                    out.len() == 0
                } else {
                    let rtype = if depth == 1 && spec_is_rt_name(node.name@) {
                        Some(node.name@)
                    } else {
                        parent
                    };
                    extract_children_ok(dta, cs@, newpath, rtype, depth + 1, tri, out)
                }
            },
            None => {
                if node.data_address > 0 && node.size > 0 {
                    out.len() == 1 && extract_pair_ok(dta, node, newpath, parent, tri, out[0])
                } else {
                    out.len() == 0
                }
            },
        }
    }
}

/// Whether `out` is everything the children write, one slice per child
/// at its running position.
pub open spec fn extract_children_ok(
    dta: Seq<u8>,
    cs: Seq<ResourceTree>,
    path: Seq<char>,
    parent: Option<Seq<char>>,
    depth: int,
    tri: Seq<(u16, u32, u32)>,
    out: Seq<(String, Vec<u8>)>,
) -> bool
    decreases MAX_RESOURCE_DEPTH - depth, 1int,
{
    if depth < 0 || depth > MAX_RESOURCE_DEPTH {
        out.len() == 0
    } else {
        &&& out.len() == spec_extract_count_prefix(cs, cs.len() as int, depth)
        &&& forall|i: int|
            0 <= i < cs.len() ==> extract_output_ok(
                dta,
                cs[i],
                path,
                parent,
                depth,
                tri,
                out.subrange(
                    #[trigger] spec_extract_count_prefix(cs, i, depth),
                    spec_extract_count_prefix(cs, i + 1, depth),
                ),
            )
    }
}

impl ResourceTree {
    /// Computes the files a resource extraction writes: one name and byte
    /// payload per nonempty leaf, the names mirroring the tree as a path
    /// with an extension, and group-icon leaves rebuilt into standalone
    /// icon or cursor streams. Writing the files is the caller's part.
    pub fn extract_resources(&self, d: &Vec<u8>) -> (r: Vec<(String, Vec<u8>)>)
        ensures
            r@.len() == spec_extract_count(*self, 0),
            ({
                let tri = if self.children is Some {
                    spec_type_triples(self.children->0@, self.children->0@.len() as int)
                } else {
                    Seq::<(u16, u32, u32)>::empty()
                };
                extract_output_ok(d@, *self, Seq::empty(), None, 0, tri, r@)
            }),
    {
        let icon_resources = self.collect_icon_resources();
        let mut files: Vec<(String, Vec<u8>)> = Vec::new();
        let empty = String::new();
        self.extract_resources_recursive(d, &mut files, &empty, None, 0, &icon_resources);
        proof {
            assert(files@.subrange(0, files@.len() as int) =~= files@);
        }
        files
    }

    /// Walks one node: a directory recurses into its children, a leaf
    /// contributes its bytes. What the list already holds stays as it
    /// is, and what is appended is exactly the node's output.
    fn extract_resources_recursive(
        &self,
        d: &Vec<u8>,
        files: &mut Vec<(String, Vec<u8>)>,
        current_path: &str,
        parent_type: Option<&str>,
        depth: u32,
        icon_resources: &Vec<(u16, u32, u32)>,
    )
        ensures
            final(files)@.len() == old(files)@.len() + spec_extract_count(*self, depth as int),
            forall|i: int|
                0 <= i < old(files)@.len() ==> final(files)@[i] == old(files)@[i],
            ({
                let parent = match parent_type {
                    Some(t) => Some(t@),
                    None => None,
                };
                extract_output_ok(
                    d@,
                    *self,
                    current_path@,
                    parent,
                    depth as int,
                    icon_resources@,
                    final(files)@.subrange(old(files)@.len() as int, final(files)@.len() as int),
                )
            }),
        decreases MAX_RESOURCE_DEPTH - depth,
    {
        let ghost base = files@.len() as int;
        let ghost tri = icon_resources@;
        let ghost parent = match parent_type {
            Some(t) => Some(t@),
            None => None,
        };
        if depth >= MAX_RESOURCE_DEPTH {
            proof {
                assert(files@.subrange(base, base) =~= Seq::<(String, Vec<u8>)>::empty());
            }
            return ;
        }
        let new_path: String = if current_path.is_empty() {
            self.name.clone()
        } else {
            let mut p = current_path.to_owned();
            p.append("/");
            p.append(self.name.as_str());
            p
        };
        proof {
            assert(new_path@ == spec_child_path(current_path@, self.name@));
        }
        if let Some(children) = &self.children {
            // Icon and cursor leaves are not written on their own: the
            // group leaves fold them in.
            if depth == 1 && (str_eq(self.name.as_str(), "RT_ICON") || str_eq(
                self.name.as_str(),
                "RT_CURSOR",
            )) {
                proof {
                    assert(files@.subrange(base, base) =~= Seq::<(String, Vec<u8>)>::empty());
                }
                return ;
            }
            let is_type_name = depth == 1 && crate::text::str_starts_with(
                self.name.as_str(),
                "RT_",
            );
            let resource_type: Option<&str> = if is_type_name {
                Some(self.name.as_str())
            } else {
                parent_type
            };
            let ghost rtv: Option<Seq<char>> = if depth == 1 && spec_is_rt_name(self.name@) {
                Some(self.name@)
            } else {
                parent
            };
            proof {
                assert(match resource_type {
                    Some(t) => Some(t@),
                    None => None::<Seq<char>>,
                } == rtv);
            }
            let mut ci: usize = 0;
            while ci < children.len()
                invariant
                    children == self.children->0,
                    depth < MAX_RESOURCE_DEPTH,
                    icon_resources@ == tri,
                    base == old(files)@.len(),
                    new_path@ == spec_child_path(current_path@, self.name@),
                    (match resource_type {
                        Some(t) => Some(t@),
                        None => None::<Seq<char>>,
                    }) == rtv,
                    0 <= ci <= children@.len(),
                    files@.len() == old(files)@.len() + spec_extract_count_prefix(
                        children@,
                        ci as int,
                        depth + 1,
                    ),
                    forall|i: int|
                        0 <= i < old(files)@.len() ==> files@[i] == old(files)@[i],
                    forall|j: int|
                        0 <= j < ci ==> extract_output_ok(
                            d@,
                            children@[j],
                            new_path@,
                            rtv,
                            depth + 1,
                            tri,
                            files@.subrange(
                                base + #[trigger] spec_extract_count_prefix(
                                    children@,
                                    j,
                                    depth + 1,
                                ),
                                base + spec_extract_count_prefix(children@, j + 1, depth + 1),
                            ),
                        ),
                decreases children@.len() - ci,
            {
                proof {
                    lemma_extract_prefix_nonneg(children@, ci as int, depth + 1);
                    lemma_extract_count_nonneg(children@[ci as int], depth + 1);
                }
                let ghost before = files@;
                children[ci].extract_resources_recursive(
                    d,
                    files,
                    new_path.as_str(),
                    resource_type,
                    depth + 1,
                    icon_resources,
                );
                proof {
                    assert forall|j: int| 0 <= j < ci + 1 implies extract_output_ok(
                        d@,
                        children@[j],
                        new_path@,
                        rtv,
                        depth + 1,
                        tri,
                        files@.subrange(
                            base + spec_extract_count_prefix(children@, j, depth + 1),
                            base + spec_extract_count_prefix(children@, j + 1, depth + 1),
                        ),
                    ) by {
                        lemma_extract_prefix_nonneg(children@, j, depth + 1);
                        lemma_extract_prefix_mono(children@, j, j + 1, depth + 1);
                        if j < ci {
                            lemma_extract_prefix_mono(children@, j + 1, ci as int, depth + 1);
                            assert(files@.subrange(
                                base + spec_extract_count_prefix(children@, j, depth + 1),
                                base + spec_extract_count_prefix(children@, j + 1, depth + 1),
                            ) =~= before.subrange(
                                base + spec_extract_count_prefix(children@, j, depth + 1),
                                base + spec_extract_count_prefix(children@, j + 1, depth + 1),
                            ));
                        } else {
                            assert(files@.subrange(
                                base + spec_extract_count_prefix(children@, j, depth + 1),
                                base + spec_extract_count_prefix(children@, j + 1, depth + 1),
                            ) =~= files@.subrange(
                                before.len() as int,
                                files@.len() as int,
                            ));
                        }
                    }
                }
                ci = ci + 1;
            }
            proof {
                lemma_extract_prefix_nonneg(children@, children@.len() as int, depth + 1);
                let emitted = files@.subrange(base, files@.len() as int);
                assert(emitted.len() == spec_extract_count_prefix(
                    children@,
                    children@.len() as int,
                    depth + 1,
                ));
                assert forall|i: int| 0 <= i < children@.len() implies extract_output_ok(
                    d@,
                    children@[i],
                    new_path@,
                    rtv,
                    depth + 1,
                    tri,
                    emitted.subrange(
                        spec_extract_count_prefix(children@, i, depth + 1),
                        spec_extract_count_prefix(children@, i + 1, depth + 1),
                    ),
                ) by {
                    lemma_extract_prefix_nonneg(children@, i, depth + 1);
                    lemma_extract_prefix_mono(children@, i, i + 1, depth + 1);
                    lemma_extract_prefix_mono(
                        children@,
                        i + 1,
                        children@.len() as int,
                        depth + 1,
                    );
                    assert(emitted.subrange(
                        spec_extract_count_prefix(children@, i, depth + 1),
                        spec_extract_count_prefix(children@, i + 1, depth + 1),
                    ) =~= files@.subrange(
                        base + spec_extract_count_prefix(children@, i, depth + 1),
                        base + spec_extract_count_prefix(children@, i + 1, depth + 1),
                    ));
                }
                assert(extract_children_ok(d@, children@, new_path@, rtv, depth + 1, tri, emitted));
            }
        } else {
            if self.data_address > 0 && self.size > 0 {
                let mut buffer = crate::raw::take_window(
                    d,
                    self.data_address as usize,
                    self.size as usize,
                );
                let ghost raw = buffer@;
                let is_group_icon = match parent_type {
                    Some(t) => str_eq(t, "RT_GROUP_ICON"),
                    None => false,
                };
                let is_group_cursor = match parent_type {
                    Some(t) => str_eq(t, "RT_GROUP_CURSOR"),
                    None => false,
                };
                proof {
                    assert(is_group_icon == (parent == Some("RT_GROUP_ICON"@)));
                    assert(is_group_cursor == (parent == Some("RT_GROUP_CURSOR"@)));
                }
                if is_group_icon || is_group_cursor {
                    let mut icon_data_map: Vec<(u16, Vec<u8>)> = Vec::new();
                    if buffer.len() >= 6 {
                        let image_count = crate::raw::read_u16(&buffer, 4);
                        let nrec: usize = if 14 * (image_count as u64) <= (buffer.len() as u64)
                            - 6 {
                            image_count as usize
                        } else {
                            (buffer.len() - 6) / 14
                        };
                        proof {
                            assert(nrec == spec_parsed_count(buffer@));
                        }
                        let mut i: usize = 0;
                        while i < nrec
                            invariant
                                icon_resources@ == tri,
                                buffer@ == raw,
                                raw.len() >= 6,
                                nrec == spec_parsed_count(raw),
                                6 + 14 * nrec <= raw.len(),
                                0 <= i <= nrec,
                                icon_data_map@.len() == gr_count(raw, tri, i as int),
                                forall|k: int|
                                    0 <= k < i && #[trigger] gr_found(raw, tri, k) ==> {
                                        let s = tri[span_find(tri, spec_group_id(raw, k))];
                                        &&& icon_data_map@[gr_count(raw, tri, k)].0
                                            == spec_group_id(raw, k)
                                        &&& icon_data_map@[gr_count(raw, tri, k)].1@
                                            == crate::raw::spec_window(
                                            d@,
                                            s.1 as int,
                                            s.2 as int,
                                        )
                                    },
                            decreases nrec - i,
                        {
                            proof {
                                lemma_gr_count_mono(raw, tri, i as int, nrec as int);
                            }
                            let ghost prev = icon_data_map@;
                            let off = 6 + 14 * i;
                            let icon_id = crate::raw::read_u16(&buffer, off + 12);
                            if let Some((a, s)) = find_icon_span(icon_resources, icon_id) {
                                let icon_data = crate::raw::take_window(d, a as usize, s as usize);
                                icon_data_map.push((icon_id, icon_data));
                                proof {
                                    assert(gr_found(raw, tri, i as int));
                                }
                            } else {
                                proof {
                                    assert(!gr_found(raw, tri, i as int));
                                }
                            }
                            proof {
                                assert forall|k: int|
                                    0 <= k < i + 1 && gr_found(raw, tri, k) implies {
                                    let s = tri[span_find(tri, spec_group_id(raw, k))];
                                    &&& icon_data_map@[gr_count(raw, tri, k)].0 == spec_group_id(
                                        raw,
                                        k,
                                    )
                                    &&& icon_data_map@[gr_count(raw, tri, k)].1@
                                        == crate::raw::spec_window(d@, s.1 as int, s.2 as int)
                                } by {
                                    if k < i {
                                        lemma_gr_count_nonneg(raw, tri, k);
                                        lemma_gr_count_mono(raw, tri, k, i as int);
                                        assert(icon_data_map@[gr_count(raw, tri, k)]
                                            == prev[gr_count(raw, tri, k)]);
                                    }
                                }
                            }
                            i = i + 1;
                        }
                    }
                    proof {
                        assert(gathered_matches(d@, raw, tri, icon_data_map@));
                    }
                    match Self::build_icon_file(&buffer, &icon_data_map, is_group_cursor) {
                        Ok(complete_icon) => {
                            buffer = complete_icon;
                        },
                        Err(_) => {
                            // The raw group payload is kept when the
                            // stream cannot be rebuilt.
                        },
                    }
                    proof {
                        assert(leaf_payload_ok(d@, *self, parent, tri, buffer@));
                    }
                } else {
                    proof {
                        assert(leaf_payload_ok(d@, *self, parent, tri, buffer@));
                    }
                }
                let filename = Self::generate_filename(new_path.as_str(), &buffer, parent_type);
                proof {
                    assert(extract_pair_ok(
                        d@,
                        *self,
                        new_path@,
                        parent,
                        tri,
                        (filename, buffer),
                    ));
                }
                files.push((filename, buffer));
                proof {
                    assert(files@.subrange(base, files@.len() as int) =~= seq![
                        files@[base],
                    ]);
                }
            } else {
                proof {
                    assert(files@.subrange(base, base) =~= Seq::<(String, Vec<u8>)>::empty());
                }
            }
        }
    }
}

} // verus!
