//! The entries of the central directory: the catalog record of each
//! archived item, decoded one after another from where the EOCD says the
//! directory starts.

use crate::endian::{u16_le_at, u32_le_at};
use crate::io::{ByteSource, IoError, SeekFrom};
use crate::read_ext::{ReadExt, Take};
use crate::zip_eocd::{ZipEOCD, SIGNATURE_SIZE};
use crate::zip_error::{ZipReadError, ZipReadErrorView};
use vstd::prelude::*;

verus! {

/// The signature of a central directory entry, `PK\x01\x02`, read as a
/// little-endian integer.
pub const CD_MAGIC: u32 = 0x0201_4b50;

/// The length of the fixed fields of a central directory entry, with the
/// signature.
pub const CD_FIXED_SIZE: u64 = 46;

/// The bit of the general purpose flags that says that the file name and
/// the comment are encoded in UTF-8.
pub const UTF8_FLAG: u16 = 0x0800;

/// One entry of the central directory.
#[derive(Debug, Clone, PartialEq, Eq)]
pub struct ZipCDEntry {
    /// Version of the software that made the entry.
    pub version_made_by: u16,
    /// Version needed to extract the item.
    pub version_required_to_extract: u16,
    /// General purpose bit flags.
    pub general_purpose_flags: u16,
    /// Compression method (0 = stored).
    pub compression_method: u16,
    /// Time of the last modification.
    pub last_mod_time: u16,
    /// Date of the last modification.
    pub last_mod_date: u16,
    /// CRC-32 of the uncompressed data.
    pub crc32: u32,
    /// Size of the compressed data.
    pub compressed_size: u32,
    /// Size of the uncompressed data.
    pub uncompressed_size: u32,
    /// Declared length of the file name.
    pub file_name_length: u16,
    /// Declared length of the extra field.
    pub extra_field_length: u16,
    /// Declared length of the file comment.
    pub file_comment_length: u16,
    /// Number of the disk on which the item starts.
    pub disk_number_start: u16,
    /// Internal file attributes.
    pub internal_file_attributes: u16,
    /// External file attributes.
    pub external_file_attributes: u32,
    /// Offset of the local file header of the item (absolute, 0-based).
    pub local_header_position: u32,
    /// The file name, as the bytes that stand in the archive.
    pub file_name_raw: Vec<u8>,
    /// The extra field.
    pub extra_field: Vec<u8>,
    /// The file comment.
    pub file_comment: Vec<u8>,
    /// Offset of the signature of the entry.
    pub starting_position_with_signature: u64,
    /// Offset of the first byte behind the signature of the entry.
    pub starting_position_without_signature: u64,
}

/// What a [`ZipCDEntry`] holds, the three regions of variable length as
/// sequences of bytes.
pub struct ZipCDEntryView {
    pub version_made_by: u16,
    pub version_required_to_extract: u16,
    pub general_purpose_flags: u16,
    pub compression_method: u16,
    pub last_mod_time: u16,
    pub last_mod_date: u16,
    pub crc32: u32,
    pub compressed_size: u32,
    pub uncompressed_size: u32,
    pub file_name_length: u16,
    pub extra_field_length: u16,
    pub file_comment_length: u16,
    pub disk_number_start: u16,
    pub internal_file_attributes: u16,
    pub external_file_attributes: u32,
    pub local_header_position: u32,
    pub file_name_raw: Seq<u8>,
    pub extra_field: Seq<u8>,
    pub file_comment: Seq<u8>,
    pub starting_position_with_signature: u64,
    pub starting_position_without_signature: u64,
}

impl View for ZipCDEntry {
    type V = ZipCDEntryView;

    open spec fn view(&self) -> ZipCDEntryView {
        ZipCDEntryView {
            version_made_by: self.version_made_by,
            version_required_to_extract: self.version_required_to_extract,
            general_purpose_flags: self.general_purpose_flags,
            compression_method: self.compression_method,
            last_mod_time: self.last_mod_time,
            last_mod_date: self.last_mod_date,
            crc32: self.crc32,
            compressed_size: self.compressed_size,
            uncompressed_size: self.uncompressed_size,
            file_name_length: self.file_name_length,
            extra_field_length: self.extra_field_length,
            file_comment_length: self.file_comment_length,
            disk_number_start: self.disk_number_start,
            internal_file_attributes: self.internal_file_attributes,
            external_file_attributes: self.external_file_attributes,
            local_header_position: self.local_header_position,
            file_name_raw: self.file_name_raw@,
            extra_field: self.extra_field@,
            file_comment: self.file_comment@,
            starting_position_with_signature: self.starting_position_with_signature,
            starting_position_without_signature: self.starting_position_without_signature,
        }
    }
}

impl ZipCDEntryView {
    /// The entry that holds nothing: every number zero, every region
    /// empty.
    pub open spec fn empty() -> ZipCDEntryView {
        ZipCDEntryView {
            version_made_by: 0,
            version_required_to_extract: 0,
            general_purpose_flags: 0,
            compression_method: 0,
            last_mod_time: 0,
            last_mod_date: 0,
            crc32: 0,
            compressed_size: 0,
            uncompressed_size: 0,
            file_name_length: 0,
            extra_field_length: 0,
            file_comment_length: 0,
            disk_number_start: 0,
            internal_file_attributes: 0,
            external_file_attributes: 0,
            local_header_position: 0,
            file_name_raw: Seq::empty(),
            extra_field: Seq::empty(),
            file_comment: Seq::empty(),
            starting_position_with_signature: 0,
            starting_position_without_signature: 0,
        }
    }

    /// Each region of variable length is as long as declared, and the two
    /// offsets lie one signature apart.
    pub open spec fn is_well_formed(self) -> bool {
        &&& self.file_name_raw.len() == self.file_name_length
        &&& self.extra_field.len() == self.extra_field_length
        &&& self.file_comment.len() == self.file_comment_length
        &&& self.starting_position_with_signature + 4 == self.starting_position_without_signature
    }

    /// Bit 11 of the general purpose flags is set: the file name is
    /// encoded in UTF-8.
    pub open spec fn is_encoded_in_utf8(self) -> bool {
        (self.general_purpose_flags as int / 2048) % 2 == 1
    }
}

/// The four bytes at `p` in `s` are the signature of a central directory
/// entry.
pub open spec fn cd_signature_at(s: Seq<u8>, p: int) -> bool {
    &&& 0 <= p
    &&& p + 4 <= s.len()
    &&& s[p] == 0x50
    &&& s[p + 1] == 0x4b
    &&& s[p + 2] == 0x01
    &&& s[p + 3] == 0x02
}

/// The file name length that a central directory entry at `p` declares.
pub open spec fn cd_file_name_length_at(s: Seq<u8>, p: int) -> int {
    u16_le_at(s, p + 28)
}

/// The extra field length that a central directory entry at `p` declares.
pub open spec fn cd_extra_field_length_at(s: Seq<u8>, p: int) -> int {
    u16_le_at(s, p + 30)
}

/// The file comment length that a central directory entry at `p`
/// declares.
pub open spec fn cd_file_comment_length_at(s: Seq<u8>, p: int) -> int {
    u16_le_at(s, p + 32)
}

/// The offset behind a central directory entry at `p`.
pub open spec fn cd_entry_end(s: Seq<u8>, p: int) -> int {
    p + CD_FIXED_SIZE + cd_file_name_length_at(s, p) + cd_extra_field_length_at(s, p)
        + cd_file_comment_length_at(s, p)
}

/// The central directory entry whose signature stands at `p`, for an entry
/// that lies within `s`.
pub open spec fn cd_entry_at(s: Seq<u8>, p: int) -> ZipCDEntryView {
    let name_start = p + CD_FIXED_SIZE;
    let extra_start = name_start + cd_file_name_length_at(s, p);
    let comment_start = extra_start + cd_extra_field_length_at(s, p);
    ZipCDEntryView {
        version_made_by: u16_le_at(s, p + 4) as u16,
        version_required_to_extract: u16_le_at(s, p + 6) as u16,
        general_purpose_flags: u16_le_at(s, p + 8) as u16,
        compression_method: u16_le_at(s, p + 10) as u16,
        last_mod_time: u16_le_at(s, p + 12) as u16,
        last_mod_date: u16_le_at(s, p + 14) as u16,
        crc32: u32_le_at(s, p + 16) as u32,
        compressed_size: u32_le_at(s, p + 20) as u32,
        uncompressed_size: u32_le_at(s, p + 24) as u32,
        file_name_length: cd_file_name_length_at(s, p) as u16,
        extra_field_length: cd_extra_field_length_at(s, p) as u16,
        file_comment_length: cd_file_comment_length_at(s, p) as u16,
        disk_number_start: u16_le_at(s, p + 34) as u16,
        internal_file_attributes: u16_le_at(s, p + 36) as u16,
        external_file_attributes: u32_le_at(s, p + 38) as u32,
        local_header_position: u32_le_at(s, p + 42) as u32,
        file_name_raw: s.subrange(name_start, extra_start),
        extra_field: s.subrange(extra_start, comment_start),
        file_comment: s.subrange(comment_start, cd_entry_end(s, p)),
        starting_position_with_signature: p as u64,
        starting_position_without_signature: (p + 4) as u64,
    }
}

/// The reason given where the signature of a central directory entry is
/// expected and other bytes stand.
pub open spec fn cd_bad_signature_reason() -> Seq<char> {
    "central directory signature (PK\\x01\\x02) was not found at the expected position"@
}

/// The reason given where the input ends within the file name of an entry.
pub open spec fn cd_short_file_name_reason() -> Seq<char> {
    "file name of a central directory entry is shorter than its declared length"@
}

/// The reason given where the input ends within the extra field of an
/// entry.
pub open spec fn cd_short_extra_field_reason() -> Seq<char> {
    "extra field of a central directory entry is shorter than its declared length"@
}

/// The reason given where the input ends within the comment of an entry.
pub open spec fn cd_short_file_comment_reason() -> Seq<char> {
    "file comment of a central directory entry is shorter than its declared length"@
}

/// What decoding a central directory entry at `p` gives: the entry, if it
/// lies within `s`; the read failure, if `s` ends within the signature or
/// the fixed fields; else the invalid-archive error that names the first
/// fault: other bytes in place of the signature, or the region of variable
/// length within which `s` ends.
pub open spec fn cd_entry_decode(s: Seq<u8>, p: int) -> Result<ZipCDEntryView, ZipReadErrorView> {
    let name_end = p + CD_FIXED_SIZE + cd_file_name_length_at(s, p);
    let extra_end = name_end + cd_extra_field_length_at(s, p);
    if p + SIGNATURE_SIZE > s.len() {
        Err(ZipReadErrorView::IOError(IoError::UnexpectedEof))
    } else if !cd_signature_at(s, p) {
        Err(ZipReadErrorView::InvalidZipArchive { reason: cd_bad_signature_reason() })
    } else if p + CD_FIXED_SIZE > s.len() {
        Err(ZipReadErrorView::IOError(IoError::UnexpectedEof))
    } else if name_end > s.len() {
        Err(ZipReadErrorView::InvalidZipArchive { reason: cd_short_file_name_reason() })
    } else if extra_end > s.len() {
        Err(ZipReadErrorView::InvalidZipArchive { reason: cd_short_extra_field_reason() })
    } else if cd_entry_end(s, p) > s.len() {
        Err(ZipReadErrorView::InvalidZipArchive { reason: cd_short_file_comment_reason() })
    } else {
        Ok(cd_entry_at(s, p))
    }
}

/// `r` with `prefix` before its entries, or the error of `r`.
pub open spec fn cd_entries_after(
    prefix: Seq<ZipCDEntryView>,
    r: Result<Seq<ZipCDEntryView>, ZipReadErrorView>,
) -> Result<Seq<ZipCDEntryView>, ZipReadErrorView> {
    match r {
        Ok(rest) => Ok(prefix + rest),
        Err(f) => Err(f),
    }
}

/// What decoding `n` central directory entries gives, the first at `p` and
/// each of the others behind the one before: all of them in the order in
/// which they stand, or the error of the first that cannot be decoded.
pub open spec fn cd_entries_decode(s: Seq<u8>, p: int, n: nat) -> Result<
    Seq<ZipCDEntryView>,
    ZipReadErrorView,
>
    decreases n,
{
    if n == 0 {
        Ok(Seq::empty())
    } else {
        match cd_entry_decode(s, p) {
            Err(f) => Err(f),
            Ok(v) => cd_entries_after(
                seq![v],
                cd_entries_decode(s, cd_entry_end(s, p), (n - 1) as nat),
            ),
        }
    }
}

/// The offset behind `n` central directory entries, the first at `p` and
/// each of the others behind the one before.
pub open spec fn cd_entries_end(s: Seq<u8>, p: int, n: nat) -> int
    decreases n,
{
    if n == 0 {
        p
    } else {
        cd_entries_end(s, cd_entry_end(s, p), (n - 1) as nat)
    }
}

/// Decoding `n` entries gives `n` entries or none: never a shorter list.
pub proof fn lemma_cd_entries_count(s: Seq<u8>, p: int, n: nat)
    ensures
        cd_entries_decode(s, p, n) matches Ok(entries) ==> entries.len() == n,
    decreases n,
{
    if n > 0 {
        lemma_cd_entries_count(s, cd_entry_end(s, p), (n - 1) as nat);
    }
}

/// Every entry that decoding gives has a file name, an extra field and a
/// comment of the length that it declares.
pub proof fn lemma_cd_entries_well_formed(s: Seq<u8>, p: int, n: nat, i: int)
    requires
        0 <= p,
        s.len() <= u64::MAX,
        cd_entries_decode(s, p, n) is Ok,
        0 <= i < n,
    ensures
        cd_entries_decode(s, p, n)->Ok_0.len() == n,
        cd_entries_decode(s, p, n)->Ok_0[i].is_well_formed(),
    decreases n,
{
    lemma_cd_entries_count(s, p, n);
    if i > 0 {
        lemma_cd_entries_count(s, cd_entry_end(s, p), (n - 1) as nat);
        lemma_cd_entries_well_formed(s, cd_entry_end(s, p), (n - 1) as nat, i - 1);
    }
}

/// The four bytes at `p`, read as a little-endian integer, are `CD_MAGIC`
/// exactly where they are the signature.
pub proof fn lemma_cd_magic(s: Seq<u8>, p: int)
    requires
        0 <= p,
        p + 4 <= s.len(),
    ensures
        u32_le_at(s, p) == CD_MAGIC <==> cd_signature_at(s, p),
{
}

impl ZipCDEntry {
    /// An entry that holds nothing: every number zero, every region empty.
    pub fn empty() -> (e: ZipCDEntry)
        ensures
            e@ == ZipCDEntryView::empty(),
    {
        ZipCDEntry {
            version_made_by: 0,
            version_required_to_extract: 0,
            general_purpose_flags: 0,
            compression_method: 0,
            last_mod_time: 0,
            last_mod_date: 0,
            crc32: 0,
            compressed_size: 0,
            uncompressed_size: 0,
            file_name_length: 0,
            extra_field_length: 0,
            file_comment_length: 0,
            disk_number_start: 0,
            internal_file_attributes: 0,
            external_file_attributes: 0,
            local_header_position: 0,
            file_name_raw: Vec::new(),
            extra_field: Vec::new(),
            file_comment: Vec::new(),
            starting_position_with_signature: 0,
            starting_position_without_signature: 0,
        }
    }

    /// Decodes the entry whose signature ends just before the position of
    /// `read`.
    fn read_from_eocd_next_signature(&mut self, read: &mut ByteSource) -> (r: Result<
        (),
        ZipReadError,
    >)
        requires
            old(read)@.pos >= 4,
            cd_signature_at(old(read)@.bytes, old(read)@.pos - 4),
        ensures
            final(read)@.bytes == old(read)@.bytes,
            match cd_entry_decode(old(read)@.bytes, old(read)@.pos - 4) {
                Ok(v) => r is Ok && final(self)@ == v && final(read)@.pos == cd_entry_end(
                    old(read)@.bytes,
                    old(read)@.pos - 4,
                ),
                Err(f) => r matches Err(e) && e@ == f,
            },
    {
        let ghost s = read@.bytes;
        let ghost p = read@.pos - 4;
        self.starting_position_without_signature = read.position();
        self.starting_position_with_signature = self.starting_position_without_signature - 4;
        match self.read_fixed_fields(read) {
            Ok(()) => {},
            Err(e) => {
                return Err(ZipReadError::from(e));
            },
        }
        self.file_name_raw = Vec::new();
        let mut file_name = Take::new(read, self.file_name_length as u64);
        let read_file_name_length: usize = match file_name.read_to_end(&mut self.file_name_raw) {
            Ok(n) => n,
            Err(e) => {
                return Err(ZipReadError::from(e));
            },
        };
        if read_file_name_length != self.file_name_length as usize {
            return Err(
                ZipReadError::invalid(
                    "file name of a central directory entry is shorter than its declared length",
                ),
            );
        }
        self.extra_field = Vec::new();
        let mut extra_field = Take::new(read, self.extra_field_length as u64);
        let read_extra_field_length: usize = match extra_field.read_to_end(&mut self.extra_field) {
            Ok(n) => n,
            Err(e) => {
                return Err(ZipReadError::from(e));
            },
        };
        if read_extra_field_length != self.extra_field_length as usize {
            return Err(
                ZipReadError::invalid(
                    "extra field of a central directory entry is shorter than its declared length",
                ),
            );
        }
        self.file_comment = Vec::new();
        let mut file_comment = Take::new(read, self.file_comment_length as u64);
        let read_file_comment_length: usize = match file_comment.read_to_end(
            &mut self.file_comment,
        ) {
            Ok(n) => n,
            Err(e) => {
                return Err(ZipReadError::from(e));
            },
        };
        if read_file_comment_length != self.file_comment_length as usize {
            return Err(
                ZipReadError::invalid(
                    "file comment of a central directory entry is shorter than its declared length",
                ),
            );
        }
        proof {
            let v = cd_entry_at(s, p);
            assert(self.file_name_raw@ =~= v.file_name_raw);
            assert(self.extra_field@ =~= v.extra_field);
            assert(self.file_comment@ =~= v.file_comment);
        }
        Ok(())
    }

    /// Decodes the sixteen fixed fields that follow the signature. The
    /// regions of variable length and the two offsets stay as they are.
    fn read_fixed_fields(&mut self, read: &mut ByteSource) -> (r: Result<(), IoError>)
        requires
            old(read)@.pos >= 4,
        ensures
            final(read)@.bytes == old(read)@.bytes,
            old(read)@.pos + 42 > old(read)@.bytes.len() ==> r == Err::<(), IoError>(
                IoError::UnexpectedEof,
            ),
            old(read)@.pos + 42 <= old(read)@.bytes.len() ==> {
                let v = cd_entry_at(old(read)@.bytes, old(read)@.pos - 4);
                &&& r is Ok
                &&& final(read)@.pos == old(read)@.pos + 42
                &&& final(self)@ == (ZipCDEntryView {
                    file_name_raw: old(self)@.file_name_raw,
                    extra_field: old(self)@.extra_field,
                    file_comment: old(self)@.file_comment,
                    starting_position_with_signature: old(self)@.starting_position_with_signature,
                    starting_position_without_signature: old(
                        self,
                    )@.starting_position_without_signature,
                    ..v
                })
            },
    {
        self.version_made_by = read.read_u16()?;
        self.version_required_to_extract = read.read_u16()?;
        self.general_purpose_flags = read.read_u16()?;
        self.compression_method = read.read_u16()?;
        self.last_mod_time = read.read_u16()?;
        self.last_mod_date = read.read_u16()?;
        self.crc32 = read.read_u32()?;
        self.compressed_size = read.read_u32()?;
        self.uncompressed_size = read.read_u32()?;
        self.file_name_length = read.read_u16()?;
        self.extra_field_length = read.read_u16()?;
        self.file_comment_length = read.read_u16()?;
        self.disk_number_start = read.read_u16()?;
        self.internal_file_attributes = read.read_u16()?;
        self.external_file_attributes = read.read_u32()?;
        self.local_header_position = read.read_u32()?;
        Ok(())
    }

    /// Decodes the central directory entry at the position of `read`, which
    /// is left behind the entry.
    pub fn read_and_generate_from_signature(read: &mut ByteSource) -> (r: Result<
        ZipCDEntry,
        ZipReadError,
    >)
        ensures
            final(read)@.bytes == old(read)@.bytes,
            match cd_entry_decode(old(read)@.bytes, old(read)@.pos) {
                Ok(v) => r matches Ok(e) && e@ == v && v.is_well_formed() && final(read)@.pos
                    == cd_entry_end(old(read)@.bytes, old(read)@.pos),
                Err(f) => r matches Err(e) && e@ == f,
            },
    {
        proof {
            read.lemma_view_bounds();
            if old(read)@.pos + 4 <= old(read)@.bytes.len() {
                lemma_cd_magic(old(read)@.bytes, old(read)@.pos);
            }
        }
        let signature: u32 = match read.read_u32() {
            Ok(n) => n,
            Err(e) => {
                return Err(ZipReadError::from(e));
            },
        };
        if signature != CD_MAGIC {
            return Err(
                ZipReadError::invalid(
                    "central directory signature (PK\\x01\\x02) was not found at the expected position",
                ),
            );
        }
        let mut result = ZipCDEntry::empty();
        match result.read_from_eocd_next_signature(read) {
            Ok(()) => {},
            Err(e) => {
                return Err(e);
            },
        }
        Ok(result)
    }

    /// Decodes the whole central directory that `eocd` describes: as many
    /// entries as `eocd` counts, the first where `eocd` says the directory
    /// starts, in the order in which they stand there. One entry that
    /// cannot be decoded fails the call: no shorter list is returned.
    pub fn all_from_eocd(read: &mut ByteSource, eocd: &ZipEOCD) -> (r: Result<
        Vec<ZipCDEntry>,
        ZipReadError,
    >)
        ensures
            final(read)@.bytes == old(read)@.bytes,
            match cd_entries_decode(
                old(read)@.bytes,
                eocd.cd_starting_position as int,
                eocd.n_cd_entries as nat,
            ) {
                Ok(views) => r matches Ok(list) && list@.len() == eocd.n_cd_entries && views.len()
                    == eocd.n_cd_entries && (forall|i: int|
                    0 <= i < list@.len() ==> (#[trigger] list@[i])@ == views[i]
                        && views[i].is_well_formed()) && final(read)@.pos == cd_entries_end(
                    old(read)@.bytes,
                    eocd.cd_starting_position as int,
                    eocd.n_cd_entries as nat,
                ),
                Err(f) => r matches Err(e) && e@ == f,
            },
    {
        let ghost s = read@.bytes;
        let ghost start = eocd.cd_starting_position as int;
        let ghost total = eocd.n_cd_entries as nat;
        match read.seek(SeekFrom::Start(eocd.cd_starting_position as u64)) {
            Ok(_) => {},
            Err(e) => {
                return Err(ZipReadError::from(e));
            },
        }
        let mut result: Vec<ZipCDEntry> = Vec::new();
        let ghost mut done: Seq<ZipCDEntryView> = Seq::empty();
        let mut i: u16 = 0;
        proof {
            assert(cd_entries_after(done, cd_entries_decode(s, start, total)) == cd_entries_decode(
                s,
                start,
                total,
            )) by {
                match cd_entries_decode(s, start, total) {
                    Ok(rest) => {
                        assert(done + rest =~= rest);
                    },
                    Err(_) => {},
                }
            }
        }
        while i < eocd.n_cd_entries
            invariant
                read@.bytes == s,
                old(read)@.bytes == s,
                start == eocd.cd_starting_position as int,
                total == eocd.n_cd_entries as nat,
                i <= eocd.n_cd_entries,
                result@.len() == i,
                done.len() == i,
                forall|j: int|
                    0 <= j < i ==> (#[trigger] result@[j])@ == done[j] && done[j].is_well_formed(),
                cd_entries_decode(s, start, total) == cd_entries_after(
                    done,
                    cd_entries_decode(s, read@.pos, (total - i) as nat),
                ),
                cd_entries_end(s, start, total) == cd_entries_end(
                    s,
                    read@.pos,
                    (total - i) as nat,
                ),
            decreases eocd.n_cd_entries - i,
        {
            let ghost cur = read@.pos;
            let ghost rest = cd_entries_decode(s, cd_entry_end(s, cur), (total - i - 1) as nat);
            let entry = match ZipCDEntry::read_and_generate_from_signature(read) {
                Ok(entry) => entry,
                Err(e) => {
                    return Err(e);
                },
            };
            proof {
                match rest {
                    Ok(tail) => {
                        assert(done + (seq![entry@] + tail) =~= done.push(entry@) + tail);
                    },
                    Err(_) => {},
                }
                done = done.push(entry@);
            }
            result.push(entry);
            i = i + 1;
        }
        proof {
            assert(done + Seq::<ZipCDEntryView>::empty() =~= done);
        }
        Ok(result)
    }

    /// Returns `true` if the file name is encoded in UTF-8, as bit 11 of
    /// the general purpose flags says.
    pub fn is_encoded_in_utf8(&self) -> (b: bool)
        ensures
            b == self@.is_encoded_in_utf8(),
    {
        let flags: u16 = self.general_purpose_flags;
        assert((flags & 0x0800 != 0) <==> ((flags / 2048) % 2 == 1)) by (bit_vector);
        (flags & UTF8_FLAG) != 0
    }
}

} // verus!
