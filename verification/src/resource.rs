//! The resource directory tree: recursive decode of directories, entries
//! and data leaves.
//!
//! All offsets inside the tree are relative to the translated start of the
//! resource section. An entry's high name bit selects a counted UTF-16
//! name over a numeric id; ids at the top level are shown as resource-type
//! names. The decoder follows at most `MAX_RESOURCE_DEPTH` directory
//! levels: real trees are three deep, and the bound makes every walk end
//! even on a malformed image whose directories point at each other.

use vstd::prelude::*;
use crate::PeError;
use crate::nt::{DataDirectory, NtHeaders};
use crate::raw::{
    le16,
    le32,
    read_u16,
    read_u32,
    utf16_chars,
    no_surrogates,
    utf16_to_string_lossy,
};
use crate::section::{ImageSectionHeader, ImageSectionHeaders, spec_rva_2_fo, rva_2_fo};
use crate::text::{spec_dec, u64_to_dec};

verus! {

/// How many directory levels the decoder follows.
pub const MAX_RESOURCE_DEPTH: u32 = 16;

/// The fixed 16-byte resource directory record.
#[derive(Debug, Clone, Copy, Eq, PartialEq, Structural)]
pub struct ImageResourceDirectory {
    pub characteristics: u32,
    pub time_date_stamp: u32,
    pub major_version: u16,
    pub minor_version: u16,
    pub number_of_named_entries: u16,
    pub number_of_id_entries: u16,
}

/// One 8-byte directory entry: a name-or-id field and an offset whose
/// high bit selects a subdirectory over a data leaf.
#[derive(Debug, Clone, Copy, Eq, PartialEq, Structural)]
pub struct ImageResourceDirectoryEntry {
    pub name_offset: u32,
    pub offset_to_data: u32,
}

/// The 16-byte data-entry record a leaf points at.
#[derive(Debug, Clone, Copy, Eq, PartialEq, Structural)]
pub struct ImageResourceDataEntry {
    pub data_offset: u32,
    pub data_size: u32,
    pub code_page: u32,
    pub reserved: u32,
}

/// One node of the decoded tree: a directory with children, or a leaf
/// with a translated file offset and byte size. `id` keeps the numeric id
/// of an id-named entry beside its display name.
#[derive(Debug)]
pub struct ResourceTree {
    pub name: String,
    pub id: Option<u32>,
    pub children: Option<Vec<ResourceTree>>,
    pub data_address: u32,
    pub size: u32,
}

impl ResourceTree {
    /// A fresh node: a directory with no children yet, or a leaf with its
    /// data span.
    pub fn new(name: String, is_dic: bool, data_address: u32, size: u32) -> (r: Self)
        ensures
            r.name@ == name@,
            r.id is None,
            is_dic ==> r.children is Some && r.children->0@.len() == 0 && r.size == 0,
            !is_dic ==> r.children is None && r.size == size,
            r.data_address == data_address,
    {
        if is_dic {
            Self { name, id: None, children: Some(vec![]), data_address, size: 0 }
        } else {
            Self { name, id: None, children: None, data_address, size }
        }
    }

    /// Appends a child to a directory node; a leaf is left as it is.
    pub fn add_child(&mut self, child: Self)
        ensures
            old(self).children is Some ==> final(self).children is Some
                && final(self).children->0@ == old(self).children->0@.push(child),
            old(self).children is None ==> *final(self) == *old(self),
            final(self).name == old(self).name,
            final(self).id == old(self).id,
            final(self).data_address == old(self).data_address,
            final(self).size == old(self).size,
    {
        if let Some(ref mut children) = self.children {
            children.push(child);
        }
    }
}

/// Whether `h` holds exactly the directory record at `off`.
pub open spec fn resource_dir_matches(b: Seq<u8>, off: int, h: ImageResourceDirectory) -> bool {
    &&& h.characteristics == le32(b, off)
    &&& h.time_date_stamp == le32(b, off + 4)
    &&& h.major_version == le16(b, off + 8)
    &&& h.minor_version == le16(b, off + 10)
    &&& h.number_of_named_entries == le16(b, off + 12)
    &&& h.number_of_id_entries == le16(b, off + 14)
}

impl ImageResourceDirectory {
    /// Decodes the 16-byte directory record at `address`.
    pub fn new(d: &Vec<u8>, address: u32) -> (r: Result<Self, PeError>)
        ensures
            r is Ok <==> address + 16 <= d@.len(),
            r is Err ==> r == Err::<ImageResourceDirectory, PeError>(PeError::Truncated),
            r is Ok ==> resource_dir_matches(d@, address as int, r->Ok_0),
    {
        let off = address as usize;
        if d.len() < 16 || off > d.len() - 16 {
            return Err(PeError::Truncated);
        }
        Ok(
            ImageResourceDirectory {
                characteristics: read_u32(d, off),
                time_date_stamp: read_u32(d, off + 4),
                major_version: read_u16(d, off + 8),
                minor_version: read_u16(d, off + 10),
                number_of_named_entries: read_u16(d, off + 12),
                number_of_id_entries: read_u16(d, off + 14),
            },
        )
    }
}

impl ImageResourceDirectoryEntry {
    /// Decodes the 8-byte entry record at `address`.
    pub fn new(d: &Vec<u8>, address: u32) -> (r: Result<Self, PeError>)
        ensures
            r is Ok <==> address + 8 <= d@.len(),
            r is Err ==> r == Err::<ImageResourceDirectoryEntry, PeError>(PeError::Truncated),
            r is Ok ==> r->Ok_0.name_offset == le32(d@, address as int) && r->Ok_0.offset_to_data
                == le32(d@, address as int + 4),
    {
        let off = address as usize;
        if d.len() < 8 || off > d.len() - 8 {
            return Err(PeError::Truncated);
        }
        Ok(
            ImageResourceDirectoryEntry {
                name_offset: read_u32(d, off),
                offset_to_data: read_u32(d, off + 4),
            },
        )
    }
}

impl ImageResourceDataEntry {
    /// Translates `address` and decodes the 16-byte data-entry record
    /// there; an address no section maps yields the all-zero record, as
    /// an absent leaf.
    pub fn new(
        d: &Vec<u8>,
        nt_head: &NtHeaders,
        image_section_headers: &ImageSectionHeaders,
        address: u32,
    ) -> (r: Result<Self, PeError>)
        requires
            image_section_headers.0@.len() >= nt_head.spec_section_number(),
        ensures
            ({
                let fo = spec_rva_2_fo(
                    image_section_headers.0@,
                    nt_head.spec_section_number() as int,
                    address,
                );
                &&& fo is None ==> r == Ok::<ImageResourceDataEntry, PeError>(
                    ImageResourceDataEntry {
                        data_offset: 0,
                        data_size: 0,
                        code_page: 0,
                        reserved: 0,
                    },
                )
                &&& fo is Some ==> {
                    let o = fo->0 as int;
                    &&& (o + 16 > d@.len() ==> r == Err::<ImageResourceDataEntry, PeError>(
                        PeError::Truncated,
                    ))
                    &&& (o + 16 <= d@.len() ==> r is Ok && (r->Ok_0 == ImageResourceDataEntry {
                        data_offset: le32(d@, o),
                        data_size: le32(d@, o + 4),
                        code_page: le32(d@, o + 8),
                        reserved: le32(d@, o + 12),
                    }))
                }
            }),
    {
        if let Some(fo) = rva_2_fo(nt_head, image_section_headers, address) {
            let off = fo as usize;
            if d.len() < 16 || off > d.len() - 16 {
                return Err(PeError::Truncated);
            }
            return Ok(
                ImageResourceDataEntry {
                    data_offset: read_u32(d, off),
                    data_size: read_u32(d, off + 4),
                    code_page: read_u32(d, off + 8),
                    reserved: read_u32(d, off + 12),
                },
            );
        }
        Ok(ImageResourceDataEntry { data_offset: 0, data_size: 0, code_page: 0, reserved: 0 })
    }
}

/// Where a counted UTF-16 name starts: the resource base plus the name
/// field's low 31 bits.
pub open spec fn spec_name_off(base: int, name_offset: u32) -> int {
    base + (name_offset & 0x7FFFFFFF)
}

/// Whether the counted UTF-16 string at the name field's offset can be
/// read whole: its length cell and all its units lie inside the image,
/// at offsets a 32-bit cursor can reach.
pub open spec fn name_read_parses(b: Seq<u8>, base: int, name_offset: u32) -> bool {
    let off = spec_name_off(base, name_offset);
    &&& off + 2 <= b.len()
    &&& off + 2 + 2 * le16(b, off) <= b.len()
    &&& off + 2 + 2 * le16(b, off) <= 0x100000000
}

/// The UTF-16 units of the counted string at the name field's offset.
pub open spec fn spec_name_units(b: Seq<u8>, base: int, name_offset: u32) -> Seq<u16> {
    let off = spec_name_off(base, name_offset);
    Seq::new(le16(b, off) as nat, |k: int| le16(b, off + 2 + 2 * k))
}

/// Whether `name` is the text of the counted UTF-16 string, as far as the
/// units pin it down: exactly their characters when none is a surrogate.
pub open spec fn named_name_ok(b: Seq<u8>, base: int, name_offset: u32, name: Seq<char>) -> bool {
    no_surrogates(spec_name_units(b, base, name_offset)) ==> name == utf16_chars(
        spec_name_units(b, base, name_offset),
    )
}

/// Reads the counted UTF-16 resource name the name field points at.
pub fn read_resource_name(d: &Vec<u8>, base_offset: u32, name_offset: u32) -> (r: Result<
    String,
    PeError,
>)
    ensures
        r is Ok <==> name_read_parses(d@, base_offset as int, name_offset),
        r is Err ==> r == Err::<String, PeError>(PeError::Truncated),
        r is Ok ==> named_name_ok(d@, base_offset as int, name_offset, r->Ok_0@),
{
    let off64: u64 = base_offset as u64 + (name_offset & 0x7FFFFFFF) as u64;
    if off64 + 2 > d.len() as u64 {
        return Err(PeError::Truncated);
    }
    let off = off64 as usize;
    let n = read_u16(d, off) as usize;
    if off64 + 2 + 2 * (n as u64) > d.len() as u64 {
        return Err(PeError::Truncated);
    }
    if off64 + 2 + 2 * (n as u64) > 0x100000000 {
        return Err(PeError::Truncated);
    }
    let mut units: Vec<u16> = Vec::new();
    let mut k: usize = 0;
    while k < n
        invariant
            d@.len() <= usize::MAX,
            off + 2 + 2 * n <= d@.len(),
            0 <= k <= n,
            units@.len() == k,
            forall|j: int| 0 <= j < k ==> units@[j] == le16(d@, off + 2 + 2 * j),
        decreases n - k,
    {
        units.push(read_u16(d, off + 2 + 2 * k));
        k = k + 1;
    }
    proof {
        assert(units@ =~= spec_name_units(d@, base_offset as int, name_offset));
    }
    Ok(utf16_to_string_lossy(&units))
}

/// The display name of a resource-type id: the well-known `RT_` names,
/// or `RT_UNKNOWN_` with the id in decimal.
pub open spec fn spec_rt_name(id: u32) -> Seq<char> {
    if id == 1 {
        "RT_CURSOR"@
    } else if id == 2 {
        "RT_BITMAP"@
    } else if id == 3 {
        "RT_ICON"@
    } else if id == 4 {
        "RT_MENU"@
    } else if id == 5 {
        "RT_DIALOG"@
    } else if id == 6 {
        "RT_STRING"@
    } else if id == 7 {
        "RT_FONTDIR"@
    } else if id == 8 {
        "RT_FONT"@
    } else if id == 9 {
        "RT_ACCELERATOR"@
    } else if id == 10 {
        "RT_RCDATA"@
    } else if id == 11 {
        "RT_MESSAGETABLE"@
    } else if id == 12 {
        "RT_GROUP_CURSOR"@
    } else if id == 14 {
        "RT_GROUP_ICON"@
    } else if id == 16 {
        "RT_VERSION"@
    } else if id == 17 {
        "RT_DLGINCLUDE"@
    } else if id == 19 {
        "RT_PLUGPLAY"@
    } else if id == 20 {
        "RT_VXD"@
    } else if id == 21 {
        "RT_ANICURSOR"@
    } else if id == 22 {
        "RT_ANIICON"@
    } else if id == 23 {
        "RT_HTML"@
    } else if id == 24 {
        "RT_MANIFEST"@
    } else {
        "RT_UNKNOWN_"@ + spec_dec(id as int)
    }
}

/// The display name of an id entry below the type level.
pub open spec fn spec_id_name(id: u32) -> Seq<char> {
    "ID_"@ + spec_dec(id as int)
}

impl ResourceTree {
    /// The display name of a resource-type id.
    pub fn get_resource_type_name(id: u32) -> (r: String)
        ensures
            r@ == spec_rt_name(id),
    {
        match id {
            1 => ("RT_CURSOR").to_owned(),
            2 => ("RT_BITMAP").to_owned(),
            3 => ("RT_ICON").to_owned(),
            4 => ("RT_MENU").to_owned(),
            5 => ("RT_DIALOG").to_owned(),
            6 => ("RT_STRING").to_owned(),
            7 => ("RT_FONTDIR").to_owned(),
            8 => ("RT_FONT").to_owned(),
            9 => ("RT_ACCELERATOR").to_owned(),
            10 => ("RT_RCDATA").to_owned(),
            11 => ("RT_MESSAGETABLE").to_owned(),
            12 => ("RT_GROUP_CURSOR").to_owned(),
            14 => ("RT_GROUP_ICON").to_owned(),
            16 => ("RT_VERSION").to_owned(),
            17 => ("RT_DLGINCLUDE").to_owned(),
            19 => ("RT_PLUGPLAY").to_owned(),
            20 => ("RT_VXD").to_owned(),
            21 => ("RT_ANICURSOR").to_owned(),
            22 => ("RT_ANIICON").to_owned(),
            23 => ("RT_HTML").to_owned(),
            24 => ("RT_MANIFEST").to_owned(),
            _ => {
                let mut s = ("RT_UNKNOWN_").to_owned();
                let tail = u64_to_dec(id as u64);
                s.append(tail.as_str());
                assert(s@ =~= spec_rt_name(id));
                s
            },
        }
    }

    /// The display name of an entry: its UTF-16 name when the high name
    /// bit is set, a type name at the type level, a plain id name below.
    pub fn get_entry_name(
        d: &Vec<u8>,
        base_offset: u32,
        name_offset: u32,
        is_type_level: bool,
    ) -> (r: Result<String, PeError>)
        ensures
            name_offset & 0x80000000 != 0 ==> {
                &&& (r is Ok <==> name_read_parses(d@, base_offset as int, name_offset))
                &&& (r is Err ==> r == Err::<String, PeError>(PeError::Truncated))
                &&& (r is Ok ==> named_name_ok(d@, base_offset as int, name_offset, r->Ok_0@))
            },
            name_offset & 0x80000000 == 0 ==> {
                &&& r is Ok
                &&& (is_type_level ==> r->Ok_0@ == spec_rt_name(name_offset & 0x7FFFFFFF))
                &&& (!is_type_level ==> r->Ok_0@ == spec_id_name(name_offset & 0x7FFFFFFF))
            },
    {
        if name_offset & 0x80000000 != 0 {
            read_resource_name(d, base_offset, name_offset)
        } else {
            let id = name_offset & 0x7FFFFFFF;
            if is_type_level {
                Ok(Self::get_resource_type_name(id))
            } else {
                proof {
                    reveal_strlit("ID_");
                }
                let mut s = ("ID_").to_owned();
                let tail = u64_to_dec(id as u64);
                s.append(tail.as_str());
                assert(s@ =~= spec_id_name(id));
                Ok(s)
            }
        }
    }
}

/// The file offset of entry `i` of the directory at `rel`: the 16-byte
/// record, then 8 bytes per entry.
pub open spec fn resource_entry_off(base: int, rel: int, i: int) -> int {
    base + rel + 16 + 8 * i
}

/// Whether the directory at `rel` and everything below it can be decoded:
/// the record, each entry, each entry's name, each leaf's data record,
/// and each subdirectory in turn, within the depth the decoder follows.
pub open spec fn dir_parses(
    b: Seq<u8>,
    ss: Seq<ImageSectionHeader>,
    nsec: int,
    base: int,
    rel: int,
    depth: int,
) -> bool
    decreases MAX_RESOURCE_DEPTH - depth, 1int,
{
    if depth < 0 || depth >= MAX_RESOURCE_DEPTH {
        false
    } else {
        let off = base + rel;
        let cnt = le16(b, off + 12) + le16(b, off + 14);
        &&& off + 16 <= b.len()
        &&& off + 16 + 8 * cnt <= b.len()
        &&& off + 16 + 8 * cnt <= 0x100000000
        &&& forall|i: int|
            0 <= i < cnt ==> entry_parses(
                b,
                ss,
                nsec,
                base,
                #[trigger] resource_entry_off(base, rel, i),
                depth,
            )
    }
}

/// Whether one entry record and what it points at can be decoded.
pub open spec fn entry_parses(
    b: Seq<u8>,
    ss: Seq<ImageSectionHeader>,
    nsec: int,
    base: int,
    eoff: int,
    depth: int,
) -> bool
    decreases MAX_RESOURCE_DEPTH - depth, 0int,
{
    if depth < 0 || depth >= MAX_RESOURCE_DEPTH {
        false
    } else {
        let name_field = le32(b, eoff);
        let data_field = le32(b, eoff + 4);
        &&& eoff + 8 <= b.len()
        &&& (name_field & 0x80000000 != 0 ==> name_read_parses(b, base, name_field))
        &&& (data_field & 0x80000000 != 0 ==> dir_parses(
            b,
            ss,
            nsec,
            base,
            (data_field & 0x7FFFFFFF) as int,
            depth + 1,
        ))
        &&& (data_field & 0x80000000 == 0 ==> {
            &&& base + (data_field & 0x7FFFFFFF) + 16 <= b.len()
            &&& base + (data_field & 0x7FFFFFFF) + 16 <= 0x100000000
        })
    }
}

/// Whether `node` holds exactly what the entry at `eoff` describes: its
/// name or id, and below it either the subdirectory's children or the
/// leaf's translated data span.
pub open spec fn resource_subtree_ok(
    b: Seq<u8>,
    ss: Seq<ImageSectionHeader>,
    nsec: int,
    base: int,
    eoff: int,
    depth: int,
    node: ResourceTree,
) -> bool
    decreases MAX_RESOURCE_DEPTH - depth, 0int,
{
    if depth < 0 || depth >= MAX_RESOURCE_DEPTH {
        false
    } else {
        let name_field = le32(b, eoff);
        let data_field = le32(b, eoff + 4);
        &&& (name_field & 0x80000000 != 0 ==> node.id is None && named_name_ok(
            b,
            base,
            name_field,
            node.name@,
        ))
        &&& (name_field & 0x80000000 == 0 ==> {
            &&& node.id == Some(name_field & 0x7FFFFFFF)
            &&& (depth == 0 ==> node.name@ == spec_rt_name(name_field & 0x7FFFFFFF))
            &&& (depth != 0 ==> node.name@ == spec_id_name(name_field & 0x7FFFFFFF))
        })
        &&& (data_field & 0x80000000 != 0 ==> {
            &&& node.children is Some
            &&& node.data_address == eoff
            &&& node.size == 0
            &&& dir_children_ok(
                b,
                ss,
                nsec,
                base,
                (data_field & 0x7FFFFFFF) as int,
                depth + 1,
                node.children->0@,
            )
        })
        &&& (data_field & 0x80000000 == 0 ==> {
            let de = base + (data_field & 0x7FFFFFFF);
            &&& node.children is None
            &&& node.data_address == (match spec_rva_2_fo(ss, nsec, le32(b, de)) {
                Some(fo) => fo,
                None => 0u32,
            })
            &&& node.size == le32(b, de + 4)
        })
    }
}

/// Whether `children` are exactly the decoded entries of the directory at
/// `rel`, in record order.
pub open spec fn dir_children_ok(
    b: Seq<u8>,
    ss: Seq<ImageSectionHeader>,
    nsec: int,
    base: int,
    rel: int,
    depth: int,
    children: Seq<ResourceTree>,
) -> bool
    decreases MAX_RESOURCE_DEPTH - depth, 1int,
{
    if depth < 0 || depth >= MAX_RESOURCE_DEPTH {
        false
    } else {
        let off = base + rel;
        let cnt = le16(b, off + 12) + le16(b, off + 14);
        &&& children.len() == cnt
        &&& forall|i: int|
            0 <= i < cnt ==> resource_subtree_ok(
                b,
                ss,
                nsec,
                base,
                #[trigger] resource_entry_off(base, rel, i),
                depth,
                children[i],
            )
    }
}

/// A directory whose entry `i` cannot be decoded cannot be decoded
/// whole.
pub proof fn lemma_dir_not_parses(
    b: Seq<u8>,
    ss: Seq<ImageSectionHeader>,
    nsec: int,
    base: int,
    rel: int,
    depth: int,
    i: int,
)
    requires
        0 <= i < le16(b, base + rel + 12) + le16(b, base + rel + 14),
        !entry_parses(b, ss, nsec, base, resource_entry_off(base, rel, i), depth),
    ensures
        !dir_parses(b, ss, nsec, base, rel, depth),
{
    if dir_parses(b, ss, nsec, base, rel, depth) {
        assert(entry_parses(b, ss, nsec, base, resource_entry_off(base, rel, i), depth));
    }
}

impl ResourceTree {
    /// Decodes the directory at `relative_offset` and everything below
    /// it, `depth` levels under the root. Succeeds exactly when the whole
    /// subtree can be decoded within the followed depth.
    pub fn parse_resource_directory(
        d: &Vec<u8>,
        base_offset: u32,
        relative_offset: u32,
        nt_head: &NtHeaders,
        image_section_headers: &ImageSectionHeaders,
        depth: u32,
    ) -> (r: Result<Self, PeError>)
        requires
            image_section_headers.0@.len() >= nt_head.spec_section_number(),
        ensures
            r is Ok <==> dir_parses(
                d@,
                image_section_headers.0@,
                nt_head.spec_section_number() as int,
                base_offset as int,
                relative_offset as int,
                depth as int,
            ),
            depth >= MAX_RESOURCE_DEPTH ==> r == Err::<ResourceTree, PeError>(PeError::TooDeep),
            r is Ok ==> {
                let t = r->Ok_0;
                &&& t.name@ == "Directory"@
                &&& t.id is None
                &&& t.children is Some
                &&& t.data_address == base_offset + relative_offset
                &&& t.size == 0
                &&& dir_children_ok(
                    d@,
                    image_section_headers.0@,
                    nt_head.spec_section_number() as int,
                    base_offset as int,
                    relative_offset as int,
                    depth as int,
                    t.children->0@,
                )
            },
        decreases MAX_RESOURCE_DEPTH - depth,
    {
        let ghost ss = image_section_headers.0@;
        let ghost nsec = nt_head.spec_section_number() as int;
        if depth >= MAX_RESOURCE_DEPTH {
            return Err(PeError::TooDeep);
        }
        let off64: u64 = base_offset as u64 + relative_offset as u64;
        if off64 + 16 > d.len() as u64 {
            return Err(PeError::Truncated);
        }
        let off: usize = off64 as usize;
        let dir = ImageResourceDirectory {
            characteristics: read_u32(d, off),
            time_date_stamp: read_u32(d, off + 4),
            major_version: read_u16(d, off + 8),
            minor_version: read_u16(d, off + 10),
            number_of_named_entries: read_u16(d, off + 12),
            number_of_id_entries: read_u16(d, off + 14),
        };
        let cnt: u32 = dir.number_of_named_entries as u32 + dir.number_of_id_entries as u32;
        if off64 + 16 + 8 * (cnt as u64) > d.len() as u64 {
            return Err(PeError::Truncated);
        }
        if off64 + 16 + 8 * (cnt as u64) > 0x100000000 {
            return Err(PeError::Truncated);
        }
        let mut children: Vec<ResourceTree> = Vec::new();
        let mut i: u32 = 0;
        while i < cnt
            invariant
                image_section_headers.0@ == ss,
                nt_head.spec_section_number() as int == nsec,
                image_section_headers.0@.len() >= nt_head.spec_section_number(),
                d@.len() <= usize::MAX,
                depth < MAX_RESOURCE_DEPTH,
                off == base_offset + relative_offset,
                off + 16 + 8 * cnt <= d@.len(),
                off + 16 + 8 * cnt <= 0x100000000,
                cnt == le16(d@, off + 12) + le16(d@, off + 14),
                0 <= i <= cnt,
                children@.len() == i,
                forall|j: int|
                    0 <= j < i ==> entry_parses(
                        d@,
                        ss,
                        nsec,
                        base_offset as int,
                        #[trigger] resource_entry_off(base_offset as int, relative_offset as int, j),
                        depth as int,
                    ),
                forall|j: int|
                    0 <= j < i ==> resource_subtree_ok(
                        d@,
                        ss,
                        nsec,
                        base_offset as int,
                        #[trigger] resource_entry_off(base_offset as int, relative_offset as int, j),
                        depth as int,
                        children@[j],
                    ),
            decreases cnt - i,
        {
            let eoff: usize = off + 16 + 8 * (i as usize);
            let entry = match ImageResourceDirectoryEntry::new(d, eoff as u32) {
                Ok(e) => e,
                Err(e) => {
                    proof {
                        assert(!entry_parses(
                            d@,
                            ss,
                            nsec,
                            base_offset as int,
                            resource_entry_off(base_offset as int, relative_offset as int, i as int),
                            depth as int,
                        ));
                        lemma_dir_not_parses(
                            d@,
                            ss,
                            nsec,
                            base_offset as int,
                            relative_offset as int,
                            depth as int,
                            i as int,
                        );
                    }
                    return Err(e);
                },
            };
            let entry_name = match Self::get_entry_name(
                d,
                base_offset,
                entry.name_offset,
                depth == 0,
            ) {
                Ok(s) => s,
                Err(e) => {
                    proof {
                        assert(!entry_parses(
                            d@,
                            ss,
                            nsec,
                            base_offset as int,
                            resource_entry_off(base_offset as int, relative_offset as int, i as int),
                            depth as int,
                        ));
                        lemma_dir_not_parses(
                            d@,
                            ss,
                            nsec,
                            base_offset as int,
                            relative_offset as int,
                            depth as int,
                            i as int,
                        );
                    }
                    return Err(e);
                },
            };
            let entry_id: Option<u32> = if entry.name_offset & 0x80000000 == 0 {
                Some(entry.name_offset & 0x7FFFFFFF)
            } else {
                None
            };
            let node: ResourceTree;
            if entry.offset_to_data & 0x80000000 != 0 {
                let subdir_rel = entry.offset_to_data & 0x7FFFFFFF;
                let subdirectory = match Self::parse_resource_directory(
                    d,
                    base_offset,
                    subdir_rel,
                    nt_head,
                    image_section_headers,
                    depth + 1,
                ) {
                    Ok(t) => t,
                    Err(e) => {
                        proof {
                            assert(!entry_parses(
                                d@,
                                ss,
                                nsec,
                                base_offset as int,
                                resource_entry_off(
                                    base_offset as int,
                                    relative_offset as int,
                                    i as int,
                                ),
                                depth as int,
                            ));
                            lemma_dir_not_parses(
                                d@,
                                ss,
                                nsec,
                                base_offset as int,
                                relative_offset as int,
                                depth as int,
                                i as int,
                            );
                        }
                        return Err(e);
                    },
                };
                node = ResourceTree {
                    name: entry_name,
                    id: entry_id,
                    children: subdirectory.children,
                    data_address: eoff as u32,
                    size: 0,
                };
            } else {
                let de64: u64 = base_offset as u64 + (entry.offset_to_data & 0x7FFFFFFF) as u64;
                if de64 + 16 > d.len() as u64 || de64 + 16 > 0x100000000 {
                    proof {
                        assert(!entry_parses(
                            d@,
                            ss,
                            nsec,
                            base_offset as int,
                            resource_entry_off(
                                base_offset as int,
                                relative_offset as int,
                                i as int,
                            ),
                            depth as int,
                        ));
                        lemma_dir_not_parses(
                            d@,
                            ss,
                            nsec,
                            base_offset as int,
                            relative_offset as int,
                            depth as int,
                            i as int,
                        );
                    }
                    return Err(PeError::Truncated);
                }
                let de: usize = de64 as usize;
                let data_offset = read_u32(d, de);
                let data_size = read_u32(d, de + 4);
                let data_file_offset = match rva_2_fo(nt_head, image_section_headers, data_offset) {
                    Some(fo) => fo,
                    None => 0,
                };
                node = ResourceTree {
                    name: entry_name,
                    id: entry_id,
                    children: None,
                    data_address: data_file_offset,
                    size: data_size,
                };
            }
            proof {
                assert(eoff as int == resource_entry_off(
                    base_offset as int,
                    relative_offset as int,
                    i as int,
                ));
                assert(entry_parses(
                    d@,
                    ss,
                    nsec,
                    base_offset as int,
                    resource_entry_off(base_offset as int, relative_offset as int, i as int),
                    depth as int,
                ));
                assert(resource_subtree_ok(
                    d@,
                    ss,
                    nsec,
                    base_offset as int,
                    resource_entry_off(base_offset as int, relative_offset as int, i as int),
                    depth as int,
                    node,
                ));
            }
            children.push(node);
            i = i + 1;
        }
        let root = ResourceTree {
            name: ("Directory").to_owned(),
            id: None,
            children: Some(children),
            data_address: off as u32,
            size: 0,
        };
        proof {
            assert(dir_parses(
                d@,
                ss,
                nsec,
                base_offset as int,
                relative_offset as int,
                depth as int,
            ));
            assert(dir_children_ok(
                d@,
                ss,
                nsec,
                base_offset as int,
                relative_offset as int,
                depth as int,
                root.children->0@,
            ));
        }
        Ok(root)
    }

    /// Translates the resource slot's address, once, and decodes the
    /// whole tree below it, the translated offset serving as the base for
    /// every relative sub-offset in the subtree.
    ///
    /// An absent resource directory is success, not an error: an address
    /// no section maps — a zero slot among them — yields the empty root,
    /// as the absent import and export directories yield empty tables.
    pub fn get_resource_tree(
        d: &Vec<u8>,
        address: u32,
        nt_head: &NtHeaders,
        image_section_headers: &ImageSectionHeaders,
        _data_dir: &DataDirectory,
    ) -> (r: Result<Self, PeError>)
        requires
            image_section_headers.0@.len() >= nt_head.spec_section_number(),
        ensures
            ({
                let fo = spec_rva_2_fo(
                    image_section_headers.0@,
                    nt_head.spec_section_number() as int,
                    address,
                );
                &&& fo is None ==> {
                    &&& r is Ok
                    &&& r->Ok_0.name@ == "Directory"@
                    &&& r->Ok_0.id is None
                    &&& r->Ok_0.children is Some
                    &&& r->Ok_0.children->0@.len() == 0
                    &&& r->Ok_0.data_address == 0
                    &&& r->Ok_0.size == 0
                }
                &&& fo is Some ==> {
                    &&& (r is Ok <==> dir_parses(
                        d@,
                        image_section_headers.0@,
                        nt_head.spec_section_number() as int,
                        fo->0 as int,
                        0,
                        0,
                    ))
                    &&& (r is Ok ==> r->Ok_0.children is Some && dir_children_ok(
                        d@,
                        image_section_headers.0@,
                        nt_head.spec_section_number() as int,
                        fo->0 as int,
                        0,
                        0,
                        r->Ok_0.children->0@,
                    ))
                }
            }),
    {
        let base_offset = match rva_2_fo(nt_head, image_section_headers, address) {
            Some(fo) => fo,
            None => { return Ok(Self::new(("Directory").to_owned(), true, 0, 0)) },
        };
        Self::parse_resource_directory(d, base_offset, 0, nt_head, image_section_headers, 0)
    }
}

} // verus!
