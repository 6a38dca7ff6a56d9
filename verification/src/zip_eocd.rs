//! The end-of-central-directory record (EOCD): where it lies in an input,
//! what it holds, and which archives it describes.
//!
//! The record closes the archive. It is found by scanning the tail of the
//! input for its signature; a signature found is a true one only if the
//! record decoded behind it, comment included, ends exactly where the input
//! ends.

use crate::endian::{
    lemma_u16_round_trip, lemma_u32_round_trip, put_u16, put_u32, u16_le_at, u16_le_bytes,
    u32_le_at, u32_le_bytes,
};
use crate::io::{ByteSource, IoError, SeekFrom};
use crate::read_ext::{ReadExt, Take};
use crate::zip_error::{ZipReadError, ZipReadErrorView};
use vstd::prelude::*;

verus! {

/// The length of a signature.
pub const SIGNATURE_SIZE: u64 = 4;

/// The length of the fixed fields of an EOCD, without the signature.
pub const EOCD_FIXED_SIZE: u64 = 18;

/// The longest comment that an EOCD can declare.
pub const MAX_COMMENT_SIZE: u64 = 65535;

/// The length of an EOCD without comment: signature and fixed fields.
pub const EOCD_MIN_SIZE: u64 = SIGNATURE_SIZE + EOCD_FIXED_SIZE;

/// The length of the longest EOCD: signature, fixed fields and comment. No
/// EOCD begins earlier than this many bytes before the end of the input.
pub const EOCD_SEARCH_SPAN: u64 = EOCD_MIN_SIZE + MAX_COMMENT_SIZE;

/// The signature of an EOCD: `PK\x05\x06`.
pub open spec fn eocd_magic() -> Seq<u8> {
    seq![0x50u8, 0x4bu8, 0x05u8, 0x06u8]
}

/// The `k`-th byte of the signature of an EOCD.
pub fn eocd_magic_byte(k: usize) -> (b: u8)
    requires
        k < 4,
    ensures
        b == eocd_magic()[k as int],
{
    if k == 0 {
        0x50
    } else if k == 1 {
        0x4b
    } else if k == 2 {
        0x05
    } else {
        0x06
    }
}

/// How many bytes of the EOCD signature the bytes read so far match, once
/// `byte` has been read behind `point` bytes that matched: one more if
/// `byte` is the next byte of the signature; else one if `byte` begins a
/// signature, and none if it does not.
pub open spec fn eocd_magic_next(point: int, byte: u8) -> int {
    if byte == eocd_magic()[point] {
        point + 1
    } else if byte == eocd_magic()[0] {
        1
    } else {
        0
    }
}

/// Steps the match against the EOCD signature over one byte: `point` bytes
/// matched before `byte` was read; the result is the number that match
/// behind it. A result of 4 says that the signature has just been read.
pub fn eocd_magic_advance(point: usize, byte: u8) -> (next: usize)
    requires
        point < 4,
    ensures
        next == eocd_magic_next(point as int, byte),
        next <= 4,
{
    if eocd_magic_byte(point) == byte {
        point + 1
    } else if eocd_magic_byte(0) == byte {
        1
    } else {
        0
    }
}

/// EOCD (End of Central Directory) information.
#[derive(Debug, Clone, PartialEq, Eq)]
pub struct ZipEOCD {
    /// Number of the disk where the EOCD is (0-based).
    pub eocd_disk_index: u16,
    /// Number of the disk where the central directory starts (0-based).
    pub cd_start_disk_index: u16,
    /// Number of central directory entries on the disk of the EOCD.
    pub n_cd_entries_in_disk: u16,
    /// Number of central directory entries in all.
    pub n_cd_entries: u16,
    /// Size of the central directory in bytes.
    pub cd_size: u32,
    /// Offset at which the central directory starts (absolute, 0-based).
    pub cd_starting_position: u32,
    /// Declared length of the comment.
    pub comment_length: u16,
    /// The comment.
    pub comment: Vec<u8>,
    /// Offset of the signature of the EOCD.
    pub starting_position_with_signature: u64,
    /// Offset of the first byte behind the signature of the EOCD.
    pub starting_position_without_signature: u64,
}

/// What a [`ZipEOCD`] holds, the comment as a sequence of bytes.
pub struct ZipEOCDView {
    pub eocd_disk_index: u16,
    pub cd_start_disk_index: u16,
    pub n_cd_entries_in_disk: u16,
    pub n_cd_entries: u16,
    pub cd_size: u32,
    pub cd_starting_position: u32,
    pub comment_length: u16,
    pub comment: Seq<u8>,
    pub starting_position_with_signature: u64,
    pub starting_position_without_signature: u64,
}

impl View for ZipEOCD {
    type V = ZipEOCDView;

    open spec fn view(&self) -> ZipEOCDView {
        ZipEOCDView {
            eocd_disk_index: self.eocd_disk_index,
            cd_start_disk_index: self.cd_start_disk_index,
            n_cd_entries_in_disk: self.n_cd_entries_in_disk,
            n_cd_entries: self.n_cd_entries,
            cd_size: self.cd_size,
            cd_starting_position: self.cd_starting_position,
            comment_length: self.comment_length,
            comment: self.comment@,
            starting_position_with_signature: self.starting_position_with_signature,
            starting_position_without_signature: self.starting_position_without_signature,
        }
    }
}

impl ZipEOCDView {
    /// The record that holds nothing: every number zero, no comment.
    pub open spec fn empty() -> ZipEOCDView {
        ZipEOCDView {
            eocd_disk_index: 0,
            cd_start_disk_index: 0,
            n_cd_entries_in_disk: 0,
            n_cd_entries: 0,
            cd_size: 0,
            cd_starting_position: 0,
            comment_length: 0,
            comment: Seq::empty(),
            starting_position_with_signature: 0,
            starting_position_without_signature: 0,
        }
    }

    /// The comment is as long as declared, and the two offsets lie one
    /// signature apart.
    pub open spec fn is_well_formed(self) -> bool {
        &&& self.comment.len() == self.comment_length
        &&& self.starting_position_with_signature + 4 == self.starting_position_without_signature
    }

    /// The disk of the EOCD holds no more entries than there are in all.
    pub open spec fn has_consistent_counts(self) -> bool {
        self.n_cd_entries_in_disk <= self.n_cd_entries
    }

    /// The archive is not split over several disks.
    pub open spec fn is_single_archive(self) -> bool {
        self.eocd_disk_index == 0 && self.n_cd_entries == self.n_cd_entries_in_disk
    }

    /// One of the six counts and sizes holds the largest value of its
    /// width, which says that the real value stands in a ZIP64 record.
    pub open spec fn is_zip64(self) -> bool {
        ||| self.cd_starting_position == 0xFFFF_FFFFu32
        ||| self.cd_size == 0xFFFF_FFFFu32
        ||| self.n_cd_entries == 0xFFFFu16
        ||| self.n_cd_entries_in_disk == 0xFFFFu16
        ||| self.eocd_disk_index == 0xFFFFu16
        ||| self.cd_start_disk_index == 0xFFFFu16
    }

    /// Why the archive cannot be read here, if it cannot: it is split over
    /// several disks, or else it is ZIP64.
    pub open spec fn unsupported_reason(self) -> Option<Seq<char>> {
        if !self.is_single_archive() {
            Some("it is one of splitted arvhives"@)
        } else if self.is_zip64() {
            Some("it is ZIP64 formatted"@)
        } else {
            None
        }
    }

    /// The bytes of the record: signature, fixed fields, comment.
    pub open spec fn to_bytes(self) -> Seq<u8> {
        eocd_magic() + u16_le_bytes(self.eocd_disk_index) + u16_le_bytes(self.cd_start_disk_index)
            + u16_le_bytes(self.n_cd_entries_in_disk) + u16_le_bytes(self.n_cd_entries)
            + u32_le_bytes(self.cd_size) + u32_le_bytes(self.cd_starting_position) + u16_le_bytes(
            self.comment_length,
        ) + self.comment
    }
}

/// The four bytes at `p` in `s` are the signature of an EOCD.
pub open spec fn eocd_signature_at(s: Seq<u8>, p: int) -> bool {
    &&& 0 <= p
    &&& p + 4 <= s.len()
    &&& s[p] == 0x50
    &&& s[p + 1] == 0x4b
    &&& s[p + 2] == 0x05
    &&& s[p + 3] == 0x06
}

/// The input ends before the fixed fields of an EOCD at `p` do.
pub open spec fn eocd_is_truncated_at(s: Seq<u8>, p: int) -> bool {
    p + EOCD_MIN_SIZE > s.len()
}

/// The comment length that an EOCD at `p` declares.
pub open spec fn eocd_comment_length_at(s: Seq<u8>, p: int) -> int {
    u16_le_at(s, p + 20)
}

/// An EOCD at `p` ends, comment included, exactly where the input ends.
pub open spec fn eocd_is_complete_at(s: Seq<u8>, p: int) -> bool {
    &&& 0 <= p
    &&& p + EOCD_MIN_SIZE <= s.len()
    &&& p + EOCD_MIN_SIZE + eocd_comment_length_at(s, p) == s.len()
}

/// The EOCD whose signature stands at `p`, for a record that is complete
/// there.
pub open spec fn eocd_at(s: Seq<u8>, p: int) -> ZipEOCDView {
    ZipEOCDView {
        eocd_disk_index: u16_le_at(s, p + 4) as u16,
        cd_start_disk_index: u16_le_at(s, p + 6) as u16,
        n_cd_entries_in_disk: u16_le_at(s, p + 8) as u16,
        n_cd_entries: u16_le_at(s, p + 10) as u16,
        cd_size: u32_le_at(s, p + 12) as u32,
        cd_starting_position: u32_le_at(s, p + 16) as u32,
        comment_length: eocd_comment_length_at(s, p) as u16,
        comment: s.subrange(
            p + EOCD_MIN_SIZE,
            p + EOCD_MIN_SIZE + eocd_comment_length_at(s, p),
        ),
        starting_position_with_signature: p as u64,
        starting_position_without_signature: (p + 4) as u64,
    }
}

/// The offset at which the search for an EOCD starts in an input of `len`
/// bytes: the length of the longest EOCD before the end, or the beginning.
pub open spec fn eocd_search_start(len: int) -> int {
    if len >= EOCD_SEARCH_SPAN {
        len - EOCD_SEARCH_SPAN
    } else {
        0
    }
}

/// An EOCD signature at `p` that the search passes over: its fixed fields
/// lie within the input, and its record does not end where the input ends.
pub open spec fn eocd_is_rejected_at(s: Seq<u8>, p: int) -> bool {
    !eocd_is_truncated_at(s, p) && !eocd_is_complete_at(s, p)
}

/// `p` is where the search stops: the first offset from the start of the
/// search that holds an EOCD signature and is not passed over.
pub open spec fn eocd_search_stops_at(s: Seq<u8>, p: int) -> bool {
    &&& eocd_search_start(s.len() as int) <= p
    &&& eocd_signature_at(s, p)
    &&& !eocd_is_rejected_at(s, p)
    &&& forall|q: int|
        eocd_search_start(s.len() as int) <= q < p && #[trigger] eocd_signature_at(s, q)
            ==> eocd_is_rejected_at(s, q)
}

/// How the search for an EOCD ends.
pub enum EocdSearch {
    /// A complete record, with its signature at `at`.
    Found { at: int },
    /// A signature at `at`, so close to the end of the input that the fixed
    /// fields do not fit behind it.
    Truncated { at: int },
    /// Every signature, if there is one, was passed over.
    NotFound,
}

/// How the search for an EOCD in `s` ends.
pub open spec fn eocd_search(s: Seq<u8>) -> EocdSearch {
    if exists|p: int| eocd_search_stops_at(s, p) {
        let p = choose|p: int| eocd_search_stops_at(s, p);
        if eocd_is_truncated_at(s, p) {
            EocdSearch::Truncated { at: p }
        } else {
            EocdSearch::Found { at: p }
        }
    } else {
        EocdSearch::NotFound
    }
}

/// What locating the EOCD of `s` gives: the record found, the read
/// failure, or the invalid-archive error.
pub open spec fn eocd_locate(s: Seq<u8>) -> Result<ZipEOCDView, ZipReadErrorView> {
    match eocd_search(s) {
        EocdSearch::Found { at } => Ok(eocd_at(s, at)),
        EocdSearch::Truncated { at } => Err(ZipReadErrorView::IOError(IoError::UnexpectedEof)),
        EocdSearch::NotFound => Err(
            ZipReadErrorView::InvalidZipArchive { reason: eocd_not_found_reason() },
        ),
    }
}

/// The search stops at one offset at most.
pub proof fn lemma_eocd_search_stops_once(s: Seq<u8>, p: int, q: int)
    requires
        eocd_search_stops_at(s, p),
        eocd_search_stops_at(s, q),
    ensures
        p == q,
{
}

/// Where the search stops at `p`, its result is the record at `p`, or the
/// read failure if the input ends within the fixed fields of that record.
pub proof fn lemma_eocd_search_result(s: Seq<u8>, p: int)
    requires
        eocd_search_stops_at(s, p),
    ensures
        eocd_search(s) == if eocd_is_truncated_at(s, p) {
            EocdSearch::Truncated { at: p }
        } else {
            EocdSearch::Found { at: p }
        },
{
    lemma_eocd_search_stops_once(s, p, choose|q: int| eocd_search_stops_at(s, q));
}

/// No complete record begins before the start of the search: the search
/// misses none by starting there.
pub proof fn lemma_complete_eocd_is_in_search_span(s: Seq<u8>, p: int)
    requires
        eocd_is_complete_at(s, p),
    ensures
        eocd_search_start(s.len() as int) <= p,
{
}

/// An input that holds one EOCD signature, with a record behind it that
/// ends where the input ends, has that record found: the comment length
/// recovered is the declared one, the comment is that long, and the offset
/// behind the signature lies four bytes after the offset of the signature.
pub proof fn lemma_single_eocd_is_found(s: Seq<u8>, p: int)
    requires
        s.len() <= u64::MAX,
        eocd_signature_at(s, p),
        eocd_is_complete_at(s, p),
        forall|q: int| q != p ==> !eocd_signature_at(s, q),
    ensures
        eocd_search(s) == (EocdSearch::Found { at: p }),
        eocd_locate(s) == Ok::<ZipEOCDView, ZipReadErrorView>(eocd_at(s, p)),
        eocd_at(s, p).comment_length == eocd_comment_length_at(s, p),
        eocd_at(s, p).comment.len() == eocd_comment_length_at(s, p),
        eocd_at(s, p).starting_position_with_signature == p,
        eocd_at(s, p).starting_position_with_signature + 4 == eocd_at(
            s,
            p,
        ).starting_position_without_signature,
{
    assert(eocd_search_stops_at(s, p));
    lemma_eocd_search_result(s, p);
}

/// An input without any EOCD signature has no EOCD: locating one fails
/// with the invalid-archive error.
pub proof fn lemma_no_signature_no_eocd(s: Seq<u8>)
    requires
        forall|q: int| !eocd_signature_at(s, q),
    ensures
        eocd_search(s) == EocdSearch::NotFound,
        eocd_locate(s) == Err::<ZipEOCDView, ZipReadErrorView>(
            ZipReadErrorView::InvalidZipArchive { reason: eocd_not_found_reason() },
        ),
{
}

/// In an archive that is not split, the disk of the EOCD holds no more
/// entries than there are in all.
pub proof fn lemma_single_archive_has_consistent_counts(v: ZipEOCDView)
    requires
        v.is_single_archive(),
    ensures
        v.has_consistent_counts(),
{
}

/// A record that is complete at `p` is well formed.
pub proof fn lemma_complete_eocd_is_well_formed(s: Seq<u8>, p: int)
    requires
        s.len() <= u64::MAX,
        eocd_is_complete_at(s, p),
    ensures
        eocd_at(s, p).is_well_formed(),
{
}

/// A well-formed record written behind `prefix` is the record decoded
/// there: its signature stands where the prefix ends, it ends where the
/// input ends, and every field comes back as it was written.
pub proof fn lemma_written_eocd_is_decoded(prefix: Seq<u8>, v: ZipEOCDView)
    requires
        v.is_well_formed(),
        v.starting_position_with_signature == prefix.len(),
    ensures
        eocd_signature_at(prefix + v.to_bytes(), prefix.len() as int),
        eocd_is_complete_at(prefix + v.to_bytes(), prefix.len() as int),
        eocd_at(prefix + v.to_bytes(), prefix.len() as int) == v,
{
    let s = prefix + v.to_bytes();
    let p = prefix.len() as int;
    let fixed = eocd_magic() + u16_le_bytes(v.eocd_disk_index) + u16_le_bytes(
        v.cd_start_disk_index,
    ) + u16_le_bytes(v.n_cd_entries_in_disk) + u16_le_bytes(v.n_cd_entries) + u32_le_bytes(
        v.cd_size,
    ) + u32_le_bytes(v.cd_starting_position) + u16_le_bytes(v.comment_length);
    assert(fixed.len() == 22);
    assert(s.len() == p + 22 + v.comment.len());
    assert(s.subrange(p, p + 4) =~= eocd_magic());
    assert(s[p] == s.subrange(p, p + 4)[0] && s[p + 1] == s.subrange(p, p + 4)[1] && s[p + 2]
        == s.subrange(p, p + 4)[2] && s[p + 3] == s.subrange(p, p + 4)[3]);
    assert(s.subrange(p + 4, p + 6) =~= u16_le_bytes(v.eocd_disk_index));
    lemma_u16_round_trip(s, p + 4, v.eocd_disk_index);
    assert(s.subrange(p + 6, p + 8) =~= u16_le_bytes(v.cd_start_disk_index));
    lemma_u16_round_trip(s, p + 6, v.cd_start_disk_index);
    assert(s.subrange(p + 8, p + 10) =~= u16_le_bytes(v.n_cd_entries_in_disk));
    lemma_u16_round_trip(s, p + 8, v.n_cd_entries_in_disk);
    assert(s.subrange(p + 10, p + 12) =~= u16_le_bytes(v.n_cd_entries));
    lemma_u16_round_trip(s, p + 10, v.n_cd_entries);
    assert(s.subrange(p + 12, p + 16) =~= u32_le_bytes(v.cd_size));
    lemma_u32_round_trip(s, p + 12, v.cd_size);
    assert(s.subrange(p + 16, p + 20) =~= u32_le_bytes(v.cd_starting_position));
    lemma_u32_round_trip(s, p + 16, v.cd_starting_position);
    assert(s.subrange(p + 20, p + 22) =~= u16_le_bytes(v.comment_length));
    lemma_u16_round_trip(s, p + 20, v.comment_length);
    assert(s.subrange(p + 22, p + 22 + v.comment_length) =~= v.comment);
}

/// The first `k` bytes of the EOCD signature stand at `at` in `s`.
pub open spec fn eocd_magic_prefix_at(s: Seq<u8>, at: int, k: int) -> bool {
    &&& 0 <= k <= 4
    &&& 0 <= at
    &&& at + k <= s.len()
    &&& forall|j: int| 0 <= j < k ==> s[at + j] == #[trigger] eocd_magic()[j]
}

/// One step of the match keeps what the search relies on. Where `k` bytes
/// at `at` match the beginning of the signature and one more byte follows
/// them, the `m` bytes that match behind that byte are again a beginning of
/// the signature, no signature begins before them at or behind `at`, and
/// with `m` at 4 they are a signature.
proof fn lemma_magic_step(s: Seq<u8>, at: int, k: int)
    requires
        eocd_magic_prefix_at(s, at, k),
        k < 4,
        at + k < s.len(),
    ensures
        ({
            let m = eocd_magic_next(k, s[at + k]);
            &&& eocd_magic_prefix_at(s, at + k + 1 - m, m)
            &&& forall|q: int| at <= q < at + k + 1 - m ==> !#[trigger] eocd_signature_at(s, q)
            &&& m == 4 ==> eocd_signature_at(s, at)
        }),
{
    let m = eocd_magic_next(k, s[at + k]);
    assert(eocd_magic()[0] == 0x50 && eocd_magic()[1] == 0x4b && eocd_magic()[2] == 0x05
        && eocd_magic()[3] == 0x06);
    assert forall|j: int| 0 <= j < k implies s[at + j] == eocd_magic()[j] by {
        assert(eocd_magic()[j] == eocd_magic()[j]);
    }
    assert forall|j: int| 0 <= j < m implies s[at + k + 1 - m + j] == #[trigger] eocd_magic()[j] by {
        if m == k + 1 {
            if j < k {
                assert(s[at + j] == eocd_magic()[j]);
            }
        }
    }
    assert forall|q: int| at <= q < at + k + 1 - m implies !#[trigger] eocd_signature_at(s, q) by {
        if q == at {
            if eocd_signature_at(s, q) {
                assert(s[at + k] == eocd_magic()[k]);
            }
        } else if q < at + k {
            assert(s[at + (q - at)] == eocd_magic()[q - at]);
        }
    }
    if m == 4 {
        assert(s[at + 0] == eocd_magic()[0]);
        assert(s[at + 1] == eocd_magic()[1]);
        assert(s[at + 2] == eocd_magic()[2]);
        assert(s[at + 3] == eocd_magic()[3]);
    }
}

/// The text of the error for an input in which no EOCD was found.
pub open spec fn eocd_not_found_reason() -> Seq<char> {
    "valid end of central directory signature (PK\\x05\\x06) was not found"@
}

impl ZipEOCD {
    /// Decodes the record whose signature ends just before the position of
    /// `read`. Any comment held before is discarded. Returns whether the
    /// record is complete: whether exactly as many comment bytes follow the
    /// fixed fields as these declare. Only then does `self` hold a record.
    fn from_reader_next_to_signature(&mut self, read: &mut ByteSource) -> (r: Result<bool, IoError>)
        requires
            old(read)@.pos >= 4,
        ensures
            final(read)@.bytes == old(read)@.bytes,
            eocd_is_truncated_at(old(read)@.bytes, old(read)@.pos - 4) ==> r == Err::<bool, IoError>(
                IoError::UnexpectedEof,
            ),
            !eocd_is_truncated_at(old(read)@.bytes, old(read)@.pos - 4) ==> r == Ok::<
                bool,
                IoError,
            >(eocd_is_complete_at(old(read)@.bytes, old(read)@.pos - 4)),
            r == Ok::<bool, IoError>(true) ==> final(self)@ == eocd_at(
                old(read)@.bytes,
                old(read)@.pos - 4,
            ) && final(read)@.pos == old(read)@.bytes.len(),
    {
        let ghost s = read@.bytes;
        let ghost p = read@.pos - 4;
        self.starting_position_without_signature = read.position();
        self.starting_position_with_signature = self.starting_position_without_signature - 4;
        self.eocd_disk_index = read.read_u16()?;
        self.cd_start_disk_index = read.read_u16()?;
        self.n_cd_entries_in_disk = read.read_u16()?;
        self.n_cd_entries = read.read_u16()?;
        self.cd_size = read.read_u32()?;
        self.cd_starting_position = read.read_u32()?;
        self.comment_length = read.read_u16()?;
        self.comment = Vec::new();
        // One byte more than declared, to tell a record that ends the input
        // from one that is followed by more.
        let mut comment = Take::new(read, self.comment_length as u64 + 1);
        let read_comment_length: usize = comment.read_to_end(&mut self.comment)?;
        if read_comment_length != self.comment_length as usize {
            return Ok(false);
        }
        proof {
            assert(self.comment@ =~= s.subrange(p + 22, p + 22 + eocd_comment_length_at(s, p)));
        }
        Ok(true)
    }

    /// Finds the EOCD of the archive in `read` and decodes it.
    ///
    /// The search runs forward from the earliest offset at which an EOCD
    /// can begin. The record behind each signature found is decoded; the
    /// first one that ends where the input ends is returned. A signature
    /// whose record does not is passed over, and the search resumes at the
    /// byte behind the first byte of that signature. A signature too close
    /// to the end of the input for the fixed fields ends the search with
    /// the read failure. Without any record the archive is invalid.
    pub fn from_reader(read: &mut ByteSource) -> (r: Result<ZipEOCD, ZipReadError>)
        ensures
            final(read)@.bytes == old(read)@.bytes,
            match eocd_locate(old(read)@.bytes) {
                Ok(v) => r matches Ok(e) && e@ == v && v.is_well_formed(),
                Err(f) => r matches Err(e) && e@ == f,
            },
            eocd_search(old(read)@.bytes) is Truncated || final(read)@.pos == old(
                read,
            )@.bytes.len(),
    {
        let ghost s = read@.bytes;
        proof {
            read.lemma_view_bounds();
        }
        let mut eocd = ZipEOCD::empty();
        let zip_size: u64 = match read.seek(SeekFrom::End(0)) {
            Ok(n) => n,
            Err(e) => {
                return Err(ZipReadError::from(e));
            },
        };
        // A comment is 65535 bytes at most.
        let zip_eocd_left_bound_pos: u64 = match zip_size.checked_sub(EOCD_SEARCH_SPAN) {
            Some(n) => n,
            None => 0,
        };
        match read.seek(SeekFrom::Start(zip_eocd_left_bound_pos)) {
            Ok(_) => {},
            Err(e) => {
                return Err(ZipReadError::from(e));
            },
        }
        let ghost start = eocd_search_start(s.len() as int);
        // The number of signature bytes that the bytes just read match.
        let mut eocd_magic_point: usize = 0;
        loop
            invariant
                read@.bytes == s,
                old(read)@.bytes == s,
                s.len() <= usize::MAX,
                start == eocd_search_start(s.len() as int),
                start <= read@.pos - eocd_magic_point,
                read@.pos <= s.len(),
                eocd_magic_point < 4,
                eocd_magic_prefix_at(s, read@.pos - eocd_magic_point, eocd_magic_point as int),
                forall|q: int|
                    start <= q < read@.pos - eocd_magic_point && #[trigger] eocd_signature_at(s, q)
                        ==> eocd_is_rejected_at(s, q),
            ensures
                read@.pos == s.len(),
            decreases s.len() - (read@.pos - eocd_magic_point), 4 - eocd_magic_point,
        {
            let ghost cur = read@.pos;
            let ghost k = eocd_magic_point as int;
            let byte: u8 = match read.read_u8() {
                Ok(b) => b,
                Err(_) => {
                    break ;
                },
            };
            assert(byte == s[cur]);
            eocd_magic_point = eocd_magic_advance(eocd_magic_point, byte);
            proof {
                lemma_magic_step(s, cur - k, k);
            }
            if eocd_magic_point >= 4 {
                // The signature stands at `candidate`.
                let candidate: u64 = read.position() - 4;
                match eocd.from_reader_next_to_signature(read) {
                    Err(e) => {
                        proof {
                            lemma_eocd_search_result(s, candidate as int);
                        }
                        return Err(ZipReadError::from(e));
                    },
                    Ok(true) => {
                        proof {
                            lemma_eocd_search_result(s, candidate as int);
                        }
                        return Ok(eocd);
                    },
                    Ok(false) => {},
                }
                // Not an EOCD after all: go on behind its first byte.
                match read.seek(SeekFrom::Start(candidate + 1)) {
                    Ok(_) => {},
                    Err(e) => {
                        return Err(ZipReadError::from(e));
                    },
                }
                eocd_magic_point = 0;
            }
        }
        proof {
            assert forall|p: int| !eocd_search_stops_at(s, p) by {
                if eocd_search_stops_at(s, p) {
                    if p >= read@.pos - eocd_magic_point {
                        assert(p + 4 > s.len());
                    }
                }
            }
        }
        Err(
            ZipReadError::invalid(
                "valid end of central directory signature (PK\\x05\\x06) was not found",
            ),
        )
    }

    /// An EOCD that holds nothing: every number zero, no comment.
    pub fn empty() -> (e: ZipEOCD)
        ensures
            e@ == ZipEOCDView::empty(),
    {
        ZipEOCD {
            eocd_disk_index: 0,
            cd_start_disk_index: 0,
            n_cd_entries_in_disk: 0,
            n_cd_entries: 0,
            cd_size: 0,
            cd_starting_position: 0,
            comment_length: 0,
            comment: Vec::new(),
            starting_position_with_signature: 0,
            starting_position_without_signature: 0,
        }
    }

    /// Returns `true` if the archive is not split over several disks.
    pub fn is_single_archive(&self) -> (b: bool)
        ensures
            b == self@.is_single_archive(),
    {
        self.eocd_disk_index == 0 && self.n_cd_entries == self.n_cd_entries_in_disk
    }

    /// Says why the archive cannot be read here, if it cannot: a split
    /// archive first, a ZIP64 archive second.
    pub fn check_unsupported_zip_type(&self) -> (r: Result<(), ZipReadError>)
        ensures
            match self@.unsupported_reason() {
                Some(text) => r matches Err(e) && e@ == (
                    ZipReadErrorView::UnsupportedZipArchive { reason: text }),
                None => r is Ok,
            },
    {
        if !self.is_single_archive() {
            return Err(ZipReadError::unsupported("it is one of splitted arvhives"));
        }
        if self.is_zip64() {
            return Err(ZipReadError::unsupported("it is ZIP64 formatted"));
        }
        Ok(())
    }

    /// Appends the record to `write`: signature, fixed fields, comment.
    /// Every field is written as it stands, whether or not the comment is
    /// as long as declared.
    pub fn write(&self, write: &mut Vec<u8>) -> (r: Result<(), IoError>)
        ensures
            r is Ok,
            final(write)@ == old(write)@ + self@.to_bytes(),
    {
        let mut k: usize = 0;
        while k < 4
            invariant
                k <= 4,
                write@ == old(write)@ + eocd_magic().subrange(0, k as int),
            decreases 4 - k,
        {
            write.push(eocd_magic_byte(k));
            k = k + 1;
            assert(write@ =~= old(write)@ + eocd_magic().subrange(0, k as int));
        }
        assert(eocd_magic().subrange(0, 4) =~= eocd_magic());
        put_u16(write, self.eocd_disk_index);
        put_u16(write, self.cd_start_disk_index);
        put_u16(write, self.n_cd_entries_in_disk);
        put_u16(write, self.n_cd_entries);
        put_u32(write, self.cd_size);
        put_u32(write, self.cd_starting_position);
        put_u16(write, self.comment_length);
        let ghost before = write@;
        let n: usize = self.comment.len();
        let mut i: usize = 0;
        while i < n
            invariant
                i <= n,
                n == self.comment.len(),
                write@ == before + self.comment@.subrange(0, i as int),
            decreases n - i,
        {
            write.push(self.comment[i]);
            i = i + 1;
            assert(write@ =~= before + self.comment@.subrange(0, i as int));
        }
        assert(self.comment@.subrange(0, n as int) =~= self.comment@);
        assert(write@ =~= old(write)@ + self@.to_bytes());
        Ok(())
    }

    /// Returns `true` if the archive is ZIP64.
    pub fn is_zip64(&self) -> (b: bool)
        ensures
            b == self@.is_zip64(),
    {
        self.cd_starting_position == u32::MAX || self.cd_size == u32::MAX || self.n_cd_entries
            == u16::MAX || self.n_cd_entries_in_disk == u16::MAX || self.eocd_disk_index
            == u16::MAX || self.cd_start_disk_index == u16::MAX
    }
}

} // verus!
