//! The local file header of an archived item and the raw payload behind
//! it, resolved from the offset that a central directory entry records.

use crate::endian::{u16_le_at, u32_le_at};
use crate::io::{ByteSource, ByteSourceView, IoError, SeekFrom};
use crate::read_ext::{ReadExt, Take};
use crate::zip_central_directory::{ZipCDEntry, ZipCDEntryView};
use crate::zip_eocd::SIGNATURE_SIZE;
use crate::zip_error::{ZipReadError, ZipReadErrorView};
use vstd::prelude::*;

verus! {

/// The signature of a local file header, `PK\x03\x04`, read as a
/// little-endian integer.
pub const LOCAL_FILE_MAGIC: u32 = 0x0403_4b50;

/// The length of the fixed fields of a local file header, with the
/// signature.
pub const LOCAL_FILE_FIXED_SIZE: u64 = 30;

/// The local file header of one item, with the payload as it stands in the
/// archive: still compressed.
#[derive(Debug, Clone, PartialEq, Eq)]
pub struct ZipLocalFileHeader {
    /// Version needed to extract the item.
    pub version_required_to_extract: u16,
    /// General purpose bit flags.
    pub general_purpose_flags: u16,
    /// Compression method (0 = stored).
    pub compression_method: u16,
    /// Time of the last modification.
    pub last_mod_time: u16,
    /// Date of the last modification.
    pub last_mod_date: u16,
    /// CRC-32 of the uncompressed data.
    pub crc32: u32,
    /// Size of the compressed data.
    pub compressed_size: u32,
    /// Size of the uncompressed data.
    pub uncompressed_size: u32,
    /// Declared length of the file name.
    pub file_name_length: u16,
    /// Declared length of the extra field.
    pub extra_field_length: u16,
    /// The file name, as the bytes that stand in the archive.
    pub file_name_raw: Vec<u8>,
    /// The extra field.
    pub extra_field: Vec<u8>,
    /// The payload, as the bytes that stand in the archive.
    pub compressed_data: Vec<u8>,
    /// Offset of the signature of the header.
    pub starting_position_with_signature: u64,
    /// Offset of the first byte behind the signature of the header.
    pub starting_position_without_signature: u64,
}

/// What a [`ZipLocalFileHeader`] holds, the three regions of variable
/// length as sequences of bytes.
pub struct ZipLocalFileHeaderView {
    pub version_required_to_extract: u16,
    pub general_purpose_flags: u16,
    pub compression_method: u16,
    pub last_mod_time: u16,
    pub last_mod_date: u16,
    pub crc32: u32,
    pub compressed_size: u32,
    pub uncompressed_size: u32,
    pub file_name_length: u16,
    pub extra_field_length: u16,
    pub file_name_raw: Seq<u8>,
    pub extra_field: Seq<u8>,
    pub compressed_data: Seq<u8>,
    pub starting_position_with_signature: u64,
    pub starting_position_without_signature: u64,
}

impl View for ZipLocalFileHeader {
    type V = ZipLocalFileHeaderView;

    open spec fn view(&self) -> ZipLocalFileHeaderView {
        ZipLocalFileHeaderView {
            version_required_to_extract: self.version_required_to_extract,
            general_purpose_flags: self.general_purpose_flags,
            compression_method: self.compression_method,
            last_mod_time: self.last_mod_time,
            last_mod_date: self.last_mod_date,
            crc32: self.crc32,
            compressed_size: self.compressed_size,
            uncompressed_size: self.uncompressed_size,
            file_name_length: self.file_name_length,
            extra_field_length: self.extra_field_length,
            file_name_raw: self.file_name_raw@,
            extra_field: self.extra_field@,
            compressed_data: self.compressed_data@,
            starting_position_with_signature: self.starting_position_with_signature,
            starting_position_without_signature: self.starting_position_without_signature,
        }
    }
}

impl ZipLocalFileHeaderView {
    /// The header that holds nothing: every number zero, every region
    /// empty.
    pub open spec fn empty() -> ZipLocalFileHeaderView {
        ZipLocalFileHeaderView {
            version_required_to_extract: 0,
            general_purpose_flags: 0,
            compression_method: 0,
            last_mod_time: 0,
            last_mod_date: 0,
            crc32: 0,
            compressed_size: 0,
            uncompressed_size: 0,
            file_name_length: 0,
            extra_field_length: 0,
            file_name_raw: Seq::empty(),
            extra_field: Seq::empty(),
            compressed_data: Seq::empty(),
            starting_position_with_signature: 0,
            starting_position_without_signature: 0,
        }
    }

    /// The file name and the extra field are as long as declared, the
    /// payload is as long as the compressed size, and the two offsets lie
    /// one signature apart.
    pub open spec fn is_well_formed(self) -> bool {
        &&& self.file_name_raw.len() == self.file_name_length
        &&& self.extra_field.len() == self.extra_field_length
        &&& self.compressed_data.len() == self.compressed_size
        &&& self.starting_position_with_signature + 4 == self.starting_position_without_signature
    }
}

/// The four bytes at `p` in `s` are the signature of a local file header.
pub open spec fn lfh_signature_at(s: Seq<u8>, p: int) -> bool {
    &&& 0 <= p
    &&& p + 4 <= s.len()
    &&& s[p] == 0x50
    &&& s[p + 1] == 0x4b
    &&& s[p + 2] == 0x03
    &&& s[p + 3] == 0x04
}

/// The compressed size that a local file header at `p` declares.
pub open spec fn lfh_compressed_size_at(s: Seq<u8>, p: int) -> int {
    u32_le_at(s, p + 18)
}

/// The file name length that a local file header at `p` declares.
pub open spec fn lfh_file_name_length_at(s: Seq<u8>, p: int) -> int {
    u16_le_at(s, p + 26)
}

/// The extra field length that a local file header at `p` declares.
pub open spec fn lfh_extra_field_length_at(s: Seq<u8>, p: int) -> int {
    u16_le_at(s, p + 28)
}

/// The offset of the payload behind a local file header at `p`.
pub open spec fn lfh_payload_start(s: Seq<u8>, p: int) -> int {
    p + LOCAL_FILE_FIXED_SIZE + lfh_file_name_length_at(s, p) + lfh_extra_field_length_at(s, p)
}

/// The offset behind the payload of a local file header at `p`.
pub open spec fn lfh_end(s: Seq<u8>, p: int) -> int {
    lfh_payload_start(s, p) + lfh_compressed_size_at(s, p)
}

/// The local file header whose signature stands at `p`, with its payload,
/// for a header and a payload that lie within `s`.
pub open spec fn lfh_at(s: Seq<u8>, p: int) -> ZipLocalFileHeaderView {
    let name_start = p + LOCAL_FILE_FIXED_SIZE;
    let extra_start = name_start + lfh_file_name_length_at(s, p);
    ZipLocalFileHeaderView {
        version_required_to_extract: u16_le_at(s, p + 4) as u16,
        general_purpose_flags: u16_le_at(s, p + 6) as u16,
        compression_method: u16_le_at(s, p + 8) as u16,
        last_mod_time: u16_le_at(s, p + 10) as u16,
        last_mod_date: u16_le_at(s, p + 12) as u16,
        crc32: u32_le_at(s, p + 14) as u32,
        compressed_size: lfh_compressed_size_at(s, p) as u32,
        uncompressed_size: u32_le_at(s, p + 22) as u32,
        file_name_length: lfh_file_name_length_at(s, p) as u16,
        extra_field_length: lfh_extra_field_length_at(s, p) as u16,
        file_name_raw: s.subrange(name_start, extra_start),
        extra_field: s.subrange(extra_start, lfh_payload_start(s, p)),
        compressed_data: s.subrange(lfh_payload_start(s, p), lfh_end(s, p)),
        starting_position_with_signature: p as u64,
        starting_position_without_signature: (p + 4) as u64,
    }
}

/// The reason given where the signature of a local file header is expected
/// and other bytes stand.
pub open spec fn lfh_bad_signature_reason() -> Seq<char> {
    "local file header signature (PK\\x03\\x04) was not found at the expected position"@
}

/// The reason given where the input ends within the file name of a header.
pub open spec fn lfh_short_file_name_reason() -> Seq<char> {
    "file name of a local file header is shorter than its declared length"@
}

/// The reason given where the input ends within the extra field of a
/// header.
pub open spec fn lfh_short_extra_field_reason() -> Seq<char> {
    "extra field of a local file header is shorter than its declared length"@
}

/// The reason given where the input ends within the payload.
pub open spec fn lfh_short_payload_reason() -> Seq<char> {
    "compressed data of a local file header is shorter than its declared size"@
}

/// What decoding a local file header at `p` gives: the header with its
/// payload, if both lie within `s`; the read failure, if `s` ends within
/// the signature or the fixed fields; else the invalid-archive error that
/// names the first fault: other bytes in place of the signature, or the
/// region of variable length within which `s` ends.
pub open spec fn lfh_decode(s: Seq<u8>, p: int) -> Result<
    ZipLocalFileHeaderView,
    ZipReadErrorView,
> {
    let name_end = p + LOCAL_FILE_FIXED_SIZE + lfh_file_name_length_at(s, p);
    if p + SIGNATURE_SIZE > s.len() {
        Err(ZipReadErrorView::IOError(IoError::UnexpectedEof))
    } else if !lfh_signature_at(s, p) {
        Err(ZipReadErrorView::InvalidZipArchive { reason: lfh_bad_signature_reason() })
    } else if p + LOCAL_FILE_FIXED_SIZE > s.len() {
        Err(ZipReadErrorView::IOError(IoError::UnexpectedEof))
    } else if name_end > s.len() {
        Err(ZipReadErrorView::InvalidZipArchive { reason: lfh_short_file_name_reason() })
    } else if lfh_payload_start(s, p) > s.len() {
        Err(ZipReadErrorView::InvalidZipArchive { reason: lfh_short_extra_field_reason() })
    } else if lfh_end(s, p) > s.len() {
        Err(ZipReadErrorView::InvalidZipArchive { reason: lfh_short_payload_reason() })
    } else {
        Ok(lfh_at(s, p))
    }
}

/// What resolving the central directory entry `cd` against `source` gives:
/// the header decoded at the offset that `cd` records. The position of
/// `source` has no part in it.
pub open spec fn lfh_resolve(source: ByteSourceView, cd: ZipCDEntryView) -> Result<
    ZipLocalFileHeaderView,
    ZipReadErrorView,
> {
    lfh_decode(source.bytes, cd.local_header_position as int)
}

/// The four bytes at `p`, read as a little-endian integer, are
/// `LOCAL_FILE_MAGIC` exactly where they are the signature.
pub proof fn lemma_local_file_magic(s: Seq<u8>, p: int)
    requires
        0 <= p,
        p + 4 <= s.len(),
    ensures
        u32_le_at(s, p) == LOCAL_FILE_MAGIC <==> lfh_signature_at(s, p),
{
}

/// Resolving one entry twice against an input whose bytes have not changed
/// gives the same header and payload, or the same error, wherever the
/// first call left the read position.
pub proof fn lemma_resolve_is_repeatable(
    first: ByteSourceView,
    second: ByteSourceView,
    cd: ZipCDEntryView,
)
    requires
        second.bytes == first.bytes,
    ensures
        lfh_resolve(second, cd) == lfh_resolve(first, cd),
{
}

/// A header that decoding gives has a file name and an extra field of the
/// length that it declares, and a payload of its compressed size.
pub proof fn lemma_decoded_lfh_is_well_formed(s: Seq<u8>, p: int)
    requires
        0 <= p,
        s.len() <= u64::MAX,
        lfh_decode(s, p) is Ok,
    ensures
        lfh_decode(s, p)->Ok_0.is_well_formed(),
{
}

impl ZipLocalFileHeader {
    /// A header that holds nothing: every number zero, every region empty.
    pub fn empty() -> (h: ZipLocalFileHeader)
        ensures
            h@ == ZipLocalFileHeaderView::empty(),
    {
        ZipLocalFileHeader {
            version_required_to_extract: 0,
            general_purpose_flags: 0,
            compression_method: 0,
            last_mod_time: 0,
            last_mod_date: 0,
            crc32: 0,
            compressed_size: 0,
            uncompressed_size: 0,
            file_name_length: 0,
            extra_field_length: 0,
            file_name_raw: Vec::new(),
            extra_field: Vec::new(),
            compressed_data: Vec::new(),
            starting_position_with_signature: 0,
            starting_position_without_signature: 0,
        }
    }

    /// Decodes the ten fixed fields that follow the signature. The regions
    /// of variable length and the two offsets stay as they are.
    fn read_fixed_fields(&mut self, read: &mut ByteSource) -> (r: Result<(), IoError>)
        requires
            old(read)@.pos >= 4,
        ensures
            final(read)@.bytes == old(read)@.bytes,
            old(read)@.pos + 26 > old(read)@.bytes.len() ==> r == Err::<(), IoError>(
                IoError::UnexpectedEof,
            ),
            old(read)@.pos + 26 <= old(read)@.bytes.len() ==> {
                let v = lfh_at(old(read)@.bytes, old(read)@.pos - 4);
                &&& r is Ok
                &&& final(read)@.pos == old(read)@.pos + 26
                &&& final(self)@ == (ZipLocalFileHeaderView {
                    file_name_raw: old(self)@.file_name_raw,
                    extra_field: old(self)@.extra_field,
                    compressed_data: old(self)@.compressed_data,
                    starting_position_with_signature: old(self)@.starting_position_with_signature,
                    starting_position_without_signature: old(
                        self,
                    )@.starting_position_without_signature,
                    ..v
                })
            },
    {
        self.version_required_to_extract = read.read_u16()?;
        self.general_purpose_flags = read.read_u16()?;
        self.compression_method = read.read_u16()?;
        self.last_mod_time = read.read_u16()?;
        self.last_mod_date = read.read_u16()?;
        self.crc32 = read.read_u32()?;
        self.compressed_size = read.read_u32()?;
        self.uncompressed_size = read.read_u32()?;
        self.file_name_length = read.read_u16()?;
        self.extra_field_length = read.read_u16()?;
        Ok(())
    }

    /// Decodes the header whose signature ends just before the position of
    /// `read`, and reads the payload behind it.
    fn read_without_signature(&mut self, read: &mut ByteSource) -> (r: Result<(), ZipReadError>)
        requires
            old(read)@.pos >= 4,
            lfh_signature_at(old(read)@.bytes, old(read)@.pos - 4),
        ensures
            final(read)@.bytes == old(read)@.bytes,
            match lfh_decode(old(read)@.bytes, old(read)@.pos - 4) {
                Ok(v) => r is Ok && final(self)@ == v && final(read)@.pos == lfh_end(
                    old(read)@.bytes,
                    old(read)@.pos - 4,
                ),
                Err(f) => r matches Err(e) && e@ == f,
            },
    {
        let ghost s = read@.bytes;
        let ghost p = read@.pos - 4;
        self.starting_position_without_signature = read.position();
        self.starting_position_with_signature = self.starting_position_without_signature - 4;
        match self.read_fixed_fields(read) {
            Ok(()) => {},
            Err(e) => {
                return Err(ZipReadError::from(e));
            },
        }
        self.file_name_raw = Vec::new();
        let mut file_name = Take::new(read, self.file_name_length as u64);
        let read_file_name_length: usize = match file_name.read_to_end(&mut self.file_name_raw) {
            Ok(n) => n,
            Err(e) => {
                return Err(ZipReadError::from(e));
            },
        };
        if read_file_name_length != self.file_name_length as usize {
            return Err(
                ZipReadError::invalid(
                    "file name of a local file header is shorter than its declared length",
                ),
            );
        }
        self.extra_field = Vec::new();
        let mut extra_field = Take::new(read, self.extra_field_length as u64);
        let read_extra_field_length: usize = match extra_field.read_to_end(&mut self.extra_field) {
            Ok(n) => n,
            Err(e) => {
                return Err(ZipReadError::from(e));
            },
        };
        if read_extra_field_length != self.extra_field_length as usize {
            return Err(
                ZipReadError::invalid(
                    "extra field of a local file header is shorter than its declared length",
                ),
            );
        }
        self.compressed_data = Vec::new();
        let mut payload = Take::new(read, self.compressed_size as u64);
        let read_payload_length: usize = match payload.read_to_end(&mut self.compressed_data) {
            Ok(n) => n,
            Err(e) => {
                return Err(ZipReadError::from(e));
            },
        };
        if read_payload_length as u64 != self.compressed_size as u64 {
            return Err(
                ZipReadError::invalid(
                    "compressed data of a local file header is shorter than its declared size",
                ),
            );
        }
        proof {
            let v = lfh_at(s, p);
            assert(self.file_name_raw@ =~= v.file_name_raw);
            assert(self.extra_field@ =~= v.extra_field);
            assert(self.compressed_data@ =~= v.compressed_data);
        }
        Ok(())
    }

    /// Decodes the local file header at the position of `read` and reads
    /// its payload. `read` is left behind the payload.
    pub fn read_and_generate_from_signature(read: &mut ByteSource) -> (r: Result<
        ZipLocalFileHeader,
        ZipReadError,
    >)
        ensures
            final(read)@.bytes == old(read)@.bytes,
            match lfh_decode(old(read)@.bytes, old(read)@.pos) {
                Ok(v) => r matches Ok(h) && h@ == v && v.is_well_formed() && final(read)@.pos
                    == lfh_end(old(read)@.bytes, old(read)@.pos),
                Err(f) => r matches Err(e) && e@ == f,
            },
    {
        proof {
            read.lemma_view_bounds();
            if old(read)@.pos + 4 <= old(read)@.bytes.len() {
                lemma_local_file_magic(old(read)@.bytes, old(read)@.pos);
            }
        }
        let signature: u32 = match read.read_u32() {
            Ok(n) => n,
            Err(e) => {
                return Err(ZipReadError::from(e));
            },
        };
        if signature != LOCAL_FILE_MAGIC {
            return Err(
                ZipReadError::invalid(
                    "local file header signature (PK\\x03\\x04) was not found at the expected position",
                ),
            );
        }
        let mut result = ZipLocalFileHeader::empty();
        match result.read_without_signature(read) {
            Ok(()) => {},
            Err(e) => {
                return Err(e);
            },
        }
        Ok(result)
    }

    /// Resolves the central directory entry `cd`: decodes the local file
    /// header at the offset that `cd` records and reads its payload. The
    /// lengths are those that the header itself declares. A payload that
    /// the input cuts short fails the call: no part of it is returned.
    pub fn from_central_directory(read: &mut ByteSource, cd: &ZipCDEntry) -> (r: Result<
        ZipLocalFileHeader,
        ZipReadError,
    >)
        ensures
            final(read)@.bytes == old(read)@.bytes,
            match lfh_resolve(old(read)@, cd@) {
                Ok(v) => r matches Ok(h) && h@ == v && v.is_well_formed()
                    && v.starting_position_with_signature == cd.local_header_position
                    && final(read)@.pos == lfh_end(
                    old(read)@.bytes,
                    cd.local_header_position as int,
                ),
                Err(f) => r matches Err(e) && e@ == f,
            },
    {
        match read.seek(SeekFrom::Start(cd.local_header_position as u64)) {
            Ok(_) => {},
            Err(e) => {
                return Err(ZipReadError::from(e));
            },
        }
        ZipLocalFileHeader::read_and_generate_from_signature(read)
    }
}

} // verus!
