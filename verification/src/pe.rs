//! The owning model of one opened image: the whole file as bytes, the
//! decoded headers, and the readers for the import and export tables.
//!
//! Decoding runs top to bottom once: DOS header, width selection, NT
//! header with its directory, then the section table. The import, export
//! and resource readers run on demand against the kept bytes.

use vstd::prelude::*;
use crate::PeError;
use crate::dos::{ImageDosHeader, ImageDosStub, dos_header_matches, spec_dos_ok, spec_dos_stub};
use crate::export::{
    ExportDir,
    ExportTable,
    export_tables_alike,
    spec_export_read_ok,
    spec_export_table_result,
};
use crate::import::{
    ImportDescriptor,
    ImportDll,
    ImportTable,
    import_dll_matches_at,
    import_dll_ok_at,
    import_tables_alike,
    spec_import_base,
    spec_import_count_from,
    spec_import_table_matches,
    spec_imports_ok,
};
use crate::nt::{
    DataDirectory,
    NtHeaders,
    read_nt_head,
    is_64,
    nt_headers_match,
    dirs_match,
    spec_machine_32,
    spec_machine_64,
    spec_machine_field,
    spec_nt_ok,
    spec_nt_fixed_size,
    spec_num_rva,
};
use crate::raw::{le16, le32};
use crate::resource::ResourceTree;
use crate::section::{ImageSectionHeaders, section_matches, spec_rva_2_fo};

verus! {

/// The two digests an outside hashing collaborator reports for a file.
#[derive(Debug, Clone, Eq, PartialEq)]
pub struct HashInfo {
    pub md5: String,
    pub sha1: String,
}

/// Which view of the file a presentation layer shows.
#[derive(Debug, Clone, Copy, Eq, PartialEq, Structural)]
pub enum Page {
    DosHead,
    DosStub,
    NtHead,
    SectionHead,
    Import,
    Export,
}

/// One opened image: its bytes, its decoded headers, and the cached
/// tables a caller may fill from the readers.
#[derive(Debug)]
pub struct FileInfo {
    pub file_name: String,
    pub file_path: String,
    pub file_hash: Option<HashInfo>,
    pub dos_head: Box<ImageDosHeader>,
    pub dos_stub: ImageDosStub,
    pub is_64_bit: bool,
    pub file_size: u64,
    pub nt_head: NtHeaders,
    pub data_directory: DataDirectory,
    pub section_headers: ImageSectionHeaders,
    pub import_dll: ImportTable,
    pub export: ExportTable,
    pub resource_tree: Option<ResourceTree>,
    pub data: Vec<u8>,
}

/// Where the section table starts: the NT offset, the fixed record of the
/// selected width, and the declared directory slots.
pub open spec fn spec_section_table_start(b: Seq<u8>) -> int {
    let nt = le16(b, 60) as int;
    let w = spec_machine_64(spec_machine_field(b, nt));
    nt + spec_nt_fixed_size(w) + 8 * spec_num_rva(b, nt, w)
}

/// Whether the image decodes whole: DOS header, a known machine id, the
/// NT record with its signature and directory, and the section table.
pub open spec fn spec_pe_ok(b: Seq<u8>) -> bool {
    &&& spec_dos_ok(b)
    &&& {
        let nt = le16(b, 60) as int;
        let m = spec_machine_field(b, nt);
        &&& nt + 24 <= b.len()
        &&& (spec_machine_32(m) || spec_machine_64(m))
        &&& spec_nt_ok(b, nt, spec_machine_64(m))
        &&& spec_section_table_start(b) <= u32::MAX
        &&& spec_section_table_start(b) + 40 * le16(b, nt + 6) <= b.len()
    }
}

/// Whether the decoded fields of `f` are exactly what its bytes hold.
pub open spec fn file_info_matches(b: Seq<u8>, f: FileInfo) -> bool {
    let nt = le16(b, 60) as int;
    let m = spec_machine_field(b, nt);
    let w = spec_machine_64(m);
    &&& f.data@ == b
    &&& f.file_size == b.len()
    &&& dos_header_matches(b, *f.dos_head)
    &&& f.dos_stub.buffer@ == spec_dos_stub(b, le16(b, 60) as int)
    &&& f.is_64_bit == w
    &&& nt_headers_match(b, nt, f.nt_head)
    &&& (f.nt_head is Bits64 <==> w)
    &&& dirs_match(
        b,
        nt + spec_nt_fixed_size(w),
        spec_num_rva(b, nt, w) as int,
        f.data_directory,
    )
    &&& f.section_headers.0@.len() == le16(b, nt + 6)
    &&& forall|i: int|
        0 <= i < le16(b, nt + 6) ==> section_matches(
            b,
            spec_section_table_start(b) + 40 * i,
            #[trigger] f.section_headers.0@[i],
        )
}

impl FileInfo {
    /// The shape every decoded image keeps: the section table holds at
    /// least as many records as the header declares, and the width flag
    /// agrees with the header variant.
    pub open spec fn wf(&self) -> bool {
        &&& self.section_headers.0@.len() >= self.nt_head.spec_section_number()
        &&& self.is_64_bit == (self.nt_head is Bits64)
    }

    /// Decodes an image from its bytes, top to bottom: the DOS header,
    /// the width from the machine id, the NT record and directory, the
    /// section table, and the stub. The name, path and hash fields start
    /// empty; the import and export caches start empty.
    ///
    /// Succeeds exactly when the whole fixed layout decodes, and hands
    /// every header field back as the bytes hold it.
    pub fn new(data: Vec<u8>) -> (r: Result<Box<FileInfo>, PeError>)
        ensures
            r is Ok <==> spec_pe_ok(data@),
            r is Ok ==> file_info_matches(data@, *r->Ok_0) && r->Ok_0.wf()
                && r->Ok_0.import_dll.0@.len() == 0 && r->Ok_0.export.0@.len() == 0
                && r->Ok_0.resource_tree is None && r->Ok_0.file_name@.len() == 0
                && r->Ok_0.file_path@.len() == 0 && r->Ok_0.file_hash is None,
            data@.len() < 64 ==> r == Err::<Box<FileInfo>, PeError>(PeError::Truncated),
            data@.len() >= 64 && le16(data@, 0) != 0x5A4D ==> r == Err::<Box<FileInfo>, PeError>(
                PeError::BadDosMagic,
            ),
            spec_dos_ok(data@) && le16(data@, 60) + 24 <= data@.len() && !spec_machine_32(
                spec_machine_field(data@, le16(data@, 60) as int),
            ) && !spec_machine_64(spec_machine_field(data@, le16(data@, 60) as int)) ==> r == Err::<
                Box<FileInfo>,
                PeError,
            >(PeError::UnknownMachine),
            ({
                let nt = le16(data@, 60) as int;
                let m = spec_machine_field(data@, nt);
                spec_dos_ok(data@) && nt + 24 <= data@.len() && (spec_machine_32(m)
                    || spec_machine_64(m)) && nt + spec_nt_fixed_size(spec_machine_64(m))
                    <= data@.len() && le32(data@, nt) != 0x4550 ==> r == Err::<
                    Box<FileInfo>,
                    PeError,
                >(PeError::BadNtSignature)
            }),
    {
        let dos_head = match ImageDosHeader::new(&data) {
            Ok(h) => Box::new(h),
            Err(e) => { return Err(e) },
        };
        let nt_addr = dos_head.get_nt_addr();
        let is_64_bit = match is_64(&data, &dos_head) {
            Ok(w) => w,
            Err(e) => { return Err(e) },
        };
        let (nt_head, data_directory) = match Self::parse_nt_headers(&data, nt_addr, is_64_bit) {
            Ok(p) => p,
            Err(e) => { return Err(e) },
        };
        let fixed: u64 = if is_64_bit {
            136
        } else {
            4 + 20 + 96
        };
        let n_rva = nt_head.num_of_rva();
        let section_start: u64 = nt_addr as u64 + fixed + 8 * (n_rva as u64);
        if section_start > u32::MAX as u64 {
            return Err(PeError::Truncated);
        }
        let section_headers = match ImageSectionHeaders::new(
            &data,
            section_start as u32,
            nt_head.section_number(),
        ) {
            Ok(t) => t,
            Err(e) => { return Err(e) },
        };
        let dos_stub = ImageDosStub::new(&data, nt_addr);
        let file_size = data.len() as u64;
        Ok(
            Box::new(
                FileInfo {
                    file_name: String::new(),
                    file_path: String::new(),
                    file_hash: None,
                    dos_head,
                    dos_stub,
                    is_64_bit,
                    file_size,
                    nt_head,
                    data_directory,
                    section_headers,
                    import_dll: ImportTable(Vec::new()),
                    export: ExportTable(Vec::new()),
                    resource_tree: None,
                    data,
                },
            ),
        )
    }

    /// Decodes the NT record in the width the machine id selected.
    fn parse_nt_headers(d: &Vec<u8>, nt_addr: u16, is_64_bit: bool) -> (r: Result<
        (NtHeaders, DataDirectory),
        PeError,
    >)
        ensures
            r is Ok <==> spec_nt_ok(d@, nt_addr as int, is_64_bit),
            r is Ok ==> {
                let (h, dd) = r->Ok_0;
                &&& nt_headers_match(d@, nt_addr as int, h)
                &&& (h is Bits64 <==> is_64_bit)
                &&& dirs_match(
                    d@,
                    nt_addr + spec_nt_fixed_size(is_64_bit),
                    spec_num_rva(d@, nt_addr as int, is_64_bit) as int,
                    dd,
                )
            },
            nt_addr + spec_nt_fixed_size(is_64_bit) > d@.len() ==> r == Err::<
                (NtHeaders, DataDirectory),
                PeError,
            >(PeError::Truncated),
            nt_addr + spec_nt_fixed_size(is_64_bit) <= d@.len() && le32(d@, nt_addr as int)
                != 0x4550 ==> r == Err::<(NtHeaders, DataDirectory), PeError>(
                PeError::BadNtSignature,
            ),
    {
        read_nt_head(d, nt_addr, is_64_bit)
    }

    /// Reads the export table from the kept bytes. An absent or unmapped
    /// export directory, or one whose module-name field is zero, is the
    /// empty table; only a directory or table that cannot be read whole
    /// is an error.
    pub fn get_export(&self) -> (r: Result<ExportTable, PeError>)
        requires
            self.wf(),
        ensures
            r is Ok <==> spec_export_read_ok(
                self.data@,
                self.section_headers.0@,
                self.nt_head.spec_section_number() as int,
                self.data_directory,
            ),
            r is Ok ==> spec_export_table_result(
                self.data@,
                self.section_headers.0@,
                self.nt_head.spec_section_number() as int,
                self.data_directory,
                r->Ok_0,
            ),
            ({
                let b = self.data@;
                let ss = self.section_headers.0@;
                let nsec = self.nt_head.spec_section_number() as int;
                let dirs = self.data_directory.0@;
                dirs.len() > 0 ==> {
                    let fo = spec_rva_2_fo(ss, nsec, dirs[0].virtual_address);
                    fo is Some ==> {
                        let o = fo->0 as int;
                        &&& o + 40 > b.len() ==> r == Err::<ExportTable, PeError>(
                            PeError::Truncated,
                        )
                        &&& o + 40 <= b.len() && le32(b, o + 12) != 0 ==> {
                            let na = spec_rva_2_fo(ss, nsec, le32(b, o + 32));
                            let fa = spec_rva_2_fo(ss, nsec, le32(b, o + 28));
                            let oa = spec_rva_2_fo(ss, nsec, le32(b, o + 36));
                            &&& (na is None || fa is None || oa is None) ==> r == Err::<
                                ExportTable,
                                PeError,
                            >(PeError::Unmapped)
                            &&& na is Some && fa is Some && oa is Some && r is Err ==> r == Err::<
                                ExportTable,
                                PeError,
                            >(PeError::Truncated)
                        }
                    }
                }
            }),
    {
        let export_dir = match ExportDir::new(
            &self.data,
            &self.nt_head,
            &self.section_headers,
            &self.data_directory,
        ) {
            Ok(Some(e)) => e,
            Ok(None) => { return Ok(ExportTable(Vec::new())) },
            Err(e) => { return Err(e) },
        };
        ExportTable::new(&self.data, &self.nt_head, &self.section_headers, &export_dir)
    }

    /// Walks the import descriptors from the kept bytes, one module per
    /// descriptor, stopping exactly at the first descriptor whose
    /// module-name field is zero or that runs past the end of the image —
    /// the directory's declared size never bounds the walk. An absent or
    /// unmapped import directory is the empty table.
    pub fn get_imports(&self) -> (r: Result<ImportTable, PeError>)
        requires
            self.wf(),
        ensures
            r is Ok <==> spec_imports_ok(
                self.data@,
                self.section_headers.0@,
                self.nt_head.spec_section_number() as int,
                self.data_directory,
                self.dos_head.e_lfanew,
            ),
            r is Ok ==> spec_import_table_matches(
                self.data@,
                self.section_headers.0@,
                self.nt_head.spec_section_number() as int,
                self.data_directory,
                self.dos_head.e_lfanew,
                r->Ok_0,
            ),
    {
        let ghost b = self.data@;
        let ghost ss = self.section_headers.0@;
        let ghost nsec = self.nt_head.spec_section_number() as int;
        let _dlen = self.data.len();
        let mut import_infos: Vec<ImportDll> = Vec::new();
        let mut index: u32 = 0;
        loop
            invariant
                self.wf(),
                self.data@ == b,
                self.section_headers.0@ == ss,
                self.nt_head.spec_section_number() as int == nsec,
                b.len() <= usize::MAX,
                0 <= index,
                20 * index <= b.len() + 20,
                ({
                    let base = spec_import_base(ss, nsec, self.data_directory);
                    base is Some ==> {
                        let fo = base->0 as int;
                        &&& spec_import_count_from(b, fo, 0) == spec_import_count_from(
                            b,
                            fo,
                            index as int,
                        )
                        &&& import_infos@.len() == index
                        &&& forall|k: int|
                            0 <= k < index ==> #[trigger] import_dll_ok_at(
                                b,
                                ss,
                                nsec,
                                self.dos_head.e_lfanew,
                                fo,
                                k,
                            )
                        &&& forall|k: int|
                            0 <= k < index ==> import_dll_matches_at(
                                b,
                                ss,
                                nsec,
                                fo,
                                k,
                                spec_machine_64(
                                    spec_machine_field(b, self.dos_head.e_lfanew as int),
                                ),
                                #[trigger] import_infos@[k],
                            )
                    }
                }),
                ({
                    let base = spec_import_base(ss, nsec, self.data_directory);
                    base is None ==> import_infos@.len() == 0 && index == 0
                }),
            ensures
                ({
                    let base = spec_import_base(ss, nsec, self.data_directory);
                    &&& (base is None ==> import_infos@.len() == 0)
                    &&& (base is Some ==> {
                        let fo = base->0 as int;
                        &&& import_infos@.len() == spec_import_count_from(b, fo, 0)
                        &&& forall|k: int|
                            0 <= k < import_infos@.len() ==> #[trigger] import_dll_ok_at(
                                b,
                                ss,
                                nsec,
                                self.dos_head.e_lfanew,
                                fo,
                                k,
                            )
                        &&& forall|k: int|
                            0 <= k < import_infos@.len() ==> import_dll_matches_at(
                                b,
                                ss,
                                nsec,
                                fo,
                                k,
                                spec_machine_64(
                                    spec_machine_field(b, self.dos_head.e_lfanew as int),
                                ),
                                #[trigger] import_infos@[k],
                            )
                    })
                }),
            decreases b.len() + 20 - 20 * index,
        {
            let import = match ImportDescriptor::new(
                &self.data,
                &self.nt_head,
                &self.section_headers,
                &self.data_directory,
                index,
            ) {
                Ok(o) => o,
                Err(e) => { return Err(e) },
            };
            match import {
                Some(import) => {
                    let import_info = match ImportDll::new(
                        &self.data,
                        &self.dos_head,
                        import,
                        &self.nt_head,
                        &self.section_headers,
                    ) {
                        Ok(dll) => dll,
                        Err(e) => {
                            proof {
                                let base = spec_import_base(ss, nsec, self.data_directory);
                                crate::import::lemma_import_count_lower(
                                    b,
                                    base->0 as int,
                                    index + 1,
                                );
                                assert(!import_dll_ok_at(
                                    b,
                                    ss,
                                    nsec,
                                    self.dos_head.e_lfanew,
                                    base->0 as int,
                                    index as int,
                                ));
                            }
                            return Err(e);
                        },
                    };
                    import_infos.push(import_info);
                },
                None => {
                    break ;
                },
            }
            proof {
                let base = spec_import_base(ss, nsec, self.data_directory);
                crate::import::lemma_import_count_lower(b, base->0 as int, index + 1);
            }
            if index == u32::MAX {
                return Err(PeError::Truncated);
            }
            index = index + 1;
        }
        Ok(ImportTable(import_infos))
    }
}


/// Copies a vector of plain values.
fn copy_vec<T: Copy>(v: &Vec<T>) -> (r: Vec<T>)
    ensures
        r@ == v@,
{
    let mut r: Vec<T> = Vec::new();
    let mut i: usize = 0;
    while i < v.len()
        invariant
            0 <= i <= v@.len(),
            r@ =~= v@.subrange(0, i as int),
        decreases v@.len() - i,
    {
        r.push(v[i]);
        assert(r@ =~= v@.subrange(0, i + 1));
        i = i + 1;
    }
    proof {
        assert(r@ =~= v@);
    }
    r
}

/// Copies a byte vector.
fn copy_bytes(v: &Vec<u8>) -> (r: Vec<u8>)
    ensures
        r@ == v@,
{
    copy_vec(v)
}

/// The flat record a snapshot export serializes: every decoded structure
/// of one image as plain data, with the import and export tables read in
/// when the caches are empty.
#[derive(Debug)]
pub struct SerializableFileInfo {
    pub file_name: String,
    pub file_path: String,
    pub file_hash: Option<HashInfo>,
    pub is_64_bit: bool,
    pub is_little_endian: bool,
    pub file_size: u64,
    pub dos_head: ImageDosHeader,
    pub dos_stub: ImageDosStub,
    pub nt_headers: NtHeaders,
    pub data_directory: DataDirectory,
    pub section_headers: ImageSectionHeaders,
    pub import_dll: ImportTable,
    pub export: ExportTable,
}

impl SerializableFileInfo {
    /// Builds the snapshot record from a decoded image: the header-side
    /// fields are copied, and each table is read from the bytes when its
    /// cache is empty and copied from the cache when it is filled.
    /// Succeeds exactly when the tables it has to read read cleanly.
    pub fn from_file_info(file_info: &FileInfo) -> (r: Result<SerializableFileInfo, PeError>)
        requires
            file_info.wf(),
        ensures
            ({
                let b = file_info.data@;
                let ss = file_info.section_headers.0@;
                let nsec = file_info.nt_head.spec_section_number() as int;
                let dd = file_info.data_directory;
                let lfanew = file_info.dos_head.e_lfanew;
                &&& (r is Ok <==> (file_info.import_dll.0@.len() > 0 || spec_imports_ok(
                    b,
                    ss,
                    nsec,
                    dd,
                    lfanew,
                )) && (file_info.export.0@.len() > 0 || spec_export_read_ok(b, ss, nsec, dd)))
                &&& r is Ok ==> {
                    let s = r->Ok_0;
                    &&& s.file_name@ == file_info.file_name@
                    &&& s.file_path@ == file_info.file_path@
                    &&& s.is_64_bit == file_info.is_64_bit
                    &&& s.is_little_endian == false
                    &&& s.file_size == file_info.file_size
                    &&& s.dos_head == *file_info.dos_head
                    &&& s.dos_stub.buffer@ == file_info.dos_stub.buffer@
                    &&& s.nt_headers == file_info.nt_head
                    &&& s.data_directory.0@ == file_info.data_directory.0@
                    &&& s.section_headers.0@ == file_info.section_headers.0@
                    &&& (file_info.import_dll.0@.len() == 0 ==> spec_import_table_matches(
                        b,
                        ss,
                        nsec,
                        dd,
                        lfanew,
                        s.import_dll,
                    ))
                    &&& (file_info.import_dll.0@.len() > 0 ==> import_tables_alike(
                        s.import_dll,
                        file_info.import_dll,
                    ))
                    &&& (file_info.export.0@.len() == 0 ==> spec_export_table_result(
                        b,
                        ss,
                        nsec,
                        dd,
                        s.export,
                    ))
                    &&& (file_info.export.0@.len() > 0 ==> export_tables_alike(
                        s.export,
                        file_info.export,
                    ))
                }
            }),
    {
        let import_dll = if file_info.import_dll.0.is_empty() {
            match file_info.get_imports() {
                Ok(t) => t,
                Err(e) => { return Err(e) },
            }
        } else {
            file_info.import_dll.fclone()
        };
        let export = if file_info.export.0.is_empty() {
            match file_info.get_export() {
                Ok(t) => t,
                Err(e) => { return Err(e) },
            }
        } else {
            file_info.export.fclone()
        };
        let h = &file_info.dos_head;
        let dos_head = ImageDosHeader {
            e_magic: h.e_magic,
            e_cblp: h.e_cblp,
            e_cp: h.e_cp,
            e_crlc: h.e_crlc,
            e_cparhdr: h.e_cparhdr,
            e_minalloc: h.e_minalloc,
            e_maxalloc: h.e_maxalloc,
            e_ss: h.e_ss,
            e_sp: h.e_sp,
            e_csum: h.e_csum,
            e_ip: h.e_ip,
            e_cs: h.e_cs,
            e_lfarlc: h.e_lfarlc,
            e_ovno: h.e_ovno,
            e_res: h.e_res,
            e_oemid: h.e_oemid,
            e_oeminfo: h.e_oeminfo,
            e_res2: h.e_res2,
            e_lfanew: h.e_lfanew,
        };
        let hash = match &file_info.file_hash {
            Some(hi) => Some(HashInfo { md5: hi.md5.clone(), sha1: hi.sha1.clone() }),
            None => None,
        };
        Ok(
            SerializableFileInfo {
                file_name: file_info.file_name.clone(),
                file_path: file_info.file_path.clone(),
                file_hash: hash,
                is_64_bit: file_info.is_64_bit,
                is_little_endian: false,
                file_size: file_info.file_size,
                dos_head,
                dos_stub: ImageDosStub { buffer: copy_bytes(&file_info.dos_stub.buffer) },
                nt_headers: file_info.nt_head,
                data_directory: DataDirectory(copy_vec(&file_info.data_directory.0)),
                section_headers: ImageSectionHeaders(
                    copy_vec(&file_info.section_headers.0),
                    copy_vec(&file_info.section_headers.1),
                ),
                import_dll,
                export,
            },
        )
    }
}

/// The names an outside danger-list collaborator flags, split into the
/// set shown as dangerous and the set shown as warnings. Consulted for
/// presentation only, never for parsing.
pub struct DangerousFunction {
    pub dangerous: Vec<String>,
    pub warning: Vec<String>,
}

impl Default for DangerousFunction {
    /// The built-in lists: the memory-protection calls as dangerous, the
    /// process-creation calls as warnings.
    fn default() -> (r: Self)
        ensures
            r.dangerous@.len() == 6,
            r.warning@.len() == 8,
            r.dangerous@[0]@ == "VirtualAlloc"@,
            r.warning@[0]@ == "CreateProcessA"@,
    {
        let mut dangerous: Vec<String> = Vec::new();
        dangerous.push(("VirtualAlloc").to_owned());
        dangerous.push(("VirtualFree").to_owned());
        dangerous.push(("VirtualProtect").to_owned());
        dangerous.push(("VirtualQuery").to_owned());
        dangerous.push(("VirtualProtectEx").to_owned());
        dangerous.push(("VirtualQueryEx").to_owned());
        let mut warning: Vec<String> = Vec::new();
        warning.push(("CreateProcessA").to_owned());
        warning.push(("CreateProcessW").to_owned());
        warning.push(("CreateProcess").to_owned());
        warning.push(("CreateProcessAsUserA").to_owned());
        warning.push(("CreateProcessAsUserW").to_owned());
        warning.push(("CreateProcessWithTokenW").to_owned());
        warning.push(("CreateProcessWithLogonW").to_owned());
        warning.push(("CreateProcessWithTokenW").to_owned());
        Self { dangerous, warning }
    }
}

} // verus!
