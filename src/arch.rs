//! Target-machine detection from the headers of a PE executable.
use vstd::prelude::*;

verus! {

/// The machine a binary was built for.
#[derive(Debug, Clone, Copy, PartialEq, Eq, Structural)]
pub enum BinaryArch {
    X86,
    X86_64,
    Unknown,
}

/// Why the architecture of a binary could not be read.
#[derive(Debug)]
pub enum ArchDetectError {
    FileTooSmall,
    InvalidMZHeader,
    InvalidPESignature,
    IoError(std::io::Error),
}

/// Size of the DOS header that is read first.
pub const DOS_HEADER_LEN: usize = 64;

/// Size of the record read at the PE offset: signature and machine code.
pub const PE_RECORD_LEN: usize = 8;

/// Machine code of 32-bit x86 images.
pub const MACHINE_I386: u16 = 0x014c;

/// Machine code of x86-64 images.
pub const MACHINE_AMD64: u16 = 0x8664;

/// Bytes 0 and 1 hold the DOS-stub magic "MZ".
pub open spec fn has_dos_magic(h: Seq<u8>) -> bool {
    h.len() >= 2 && h[0] == 0x4Du8 && h[1] == 0x5Au8
}

/// Bytes `at..at+4` hold the PE signature "PE\0\0".
pub open spec fn has_pe_signature(d: Seq<u8>, at: int) -> bool {
    0 <= at && at + 4 <= d.len() && d[at] == 0x50u8 && d[at + 1] == 0x45u8 && d[at + 2] == 0u8
        && d[at + 3] == 0u8
}

/// The little-endian 16-bit number at `at`.
pub open spec fn le16(d: Seq<u8>, at: int) -> int {
    d[at] + 256 * d[at + 1]
}

/// The little-endian 32-bit number at `at`.
pub open spec fn le32(d: Seq<u8>, at: int) -> int {
    d[at] + 256 * d[at + 1] + 65536 * d[at + 2] + 16777216 * d[at + 3]
}

/// The offset of the PE header, stored at byte 0x3C of the DOS header.
pub open spec fn pe_offset_of(h: Seq<u8>) -> int {
    le32(h, 0x3C)
}

/// The architecture named by a machine code.
pub open spec fn arch_of_machine(m: int) -> BinaryArch {
    if m == 0x014c {
        BinaryArch::X86
    } else if m == 0x8664 {
        BinaryArch::X86_64
    } else {
        BinaryArch::Unknown
    }
}

fn le32_at(d: &[u8], at: usize) -> (r: u32)
    requires
        at + 4 <= d@.len(),
    ensures
        r as int == le32(d@, at as int),
{
    d[at] as u32 + 256 * (d[at + 1] as u32) + 65536 * (d[at + 2] as u32) + 16777216 * (
    d[at + 3] as u32)
}

fn le16_at(d: &[u8], at: usize) -> (r: u16)
    requires
        at + 2 <= d@.len(),
    ensures
        r as int == le16(d@, at as int),
{
    d[at] as u16 + 256 * (d[at + 1] as u16)
}

/// Checks the DOS header and returns the offset of the PE header.
pub fn pe_header_offset(header: &[u8]) -> (r: Result<u32, ArchDetectError>)
    ensures
        header@.len() < 64 ==> r is Err && r->Err_0 is FileTooSmall,
        header@.len() >= 64 && !has_dos_magic(header@) ==> r is Err && r->Err_0 is InvalidMZHeader,
        header@.len() >= 64 && has_dos_magic(header@) ==> r is Ok && r->Ok_0 as int
            == pe_offset_of(header@),
{
    if header.len() < DOS_HEADER_LEN {
        return Err(ArchDetectError::FileTooSmall);
    }
    if header[0] != 0x4Du8 || header[1] != 0x5Au8 {
        return Err(ArchDetectError::InvalidMZHeader);
    }
    Ok(le32_at(header, 0x3C))
}

fn arch_at(d: &[u8], at: usize) -> (r: Result<BinaryArch, ArchDetectError>)
    requires
        at + 8 <= d@.len(),
    ensures
        !has_pe_signature(d@, at as int) ==> r is Err && r->Err_0 is InvalidPESignature,
        has_pe_signature(d@, at as int) ==> r == Ok::<BinaryArch, ArchDetectError>(
            arch_of_machine(le16(d@, at + 4))),
{
    if d[at] != 0x50u8 || d[at + 1] != 0x45u8 || d[at + 2] != 0u8 || d[at + 3] != 0u8 {
        return Err(ArchDetectError::InvalidPESignature);
    }
    let machine = le16_at(d, at + 4);
    if machine == MACHINE_I386 {
        Ok(BinaryArch::X86)
    } else if machine == MACHINE_AMD64 {
        Ok(BinaryArch::X86_64)
    } else {
        Ok(BinaryArch::Unknown)
    }
}

/// Checks the 8-byte record found at the PE offset and maps its machine code.
pub fn arch_from_pe_record(record: &[u8; 8]) -> (r: Result<BinaryArch, ArchDetectError>)
    ensures
        !has_pe_signature(record@, 0) ==> r is Err && r->Err_0 is InvalidPESignature,
        has_pe_signature(record@, 0) ==> r == Ok::<BinaryArch, ArchDetectError>(
            arch_of_machine(le16(record@, 4))),
{
    arch_at(record.as_slice(), 0)
}

/// Relies on std's `From<ErrorKind> for io::Error`: the error that a read past
/// the end of a file reports.
#[verifier::external_body]
fn unexpected_eof() -> std::io::Error {
    std::io::Error::from(std::io::ErrorKind::UnexpectedEof)
}

/// Reads the architecture of a binary whose whole content is `data`: the DOS
/// header, then the PE record at the offset that the DOS header names.
pub fn detect_arch_in_bytes(data: &[u8]) -> (r: Result<BinaryArch, ArchDetectError>)
    ensures
        data@.len() < 64 ==> r is Err && r->Err_0 is FileTooSmall,
        data@.len() >= 64 && !has_dos_magic(data@) ==> r is Err && r->Err_0 is InvalidMZHeader,
        data@.len() >= 64 && has_dos_magic(data@) && pe_offset_of(data@) + 8 > data@.len() ==> r is Err
            && r->Err_0 is IoError,
        data@.len() >= 64 && has_dos_magic(data@) && pe_offset_of(data@) + 8 <= data@.len()
            && !has_pe_signature(data@, pe_offset_of(data@)) ==> r is Err && r->Err_0 is InvalidPESignature,
        data@.len() >= 64 && has_dos_magic(data@) && pe_offset_of(data@) + 8 <= data@.len()
            && has_pe_signature(data@, pe_offset_of(data@)) ==> r == Ok::<BinaryArch, ArchDetectError>(
            arch_of_machine(le16(data@, pe_offset_of(data@) + 4))),
{
    let offset = match pe_header_offset(data) {
        Ok(o) => o as usize,
        Err(e) => return Err(e),
    };
    if offset > data.len() || data.len() - offset < PE_RECORD_LEN {
        return Err(ArchDetectError::IoError(unexpected_eof()));
    }
    arch_at(data, offset)
}

/// Reading the first 64 bytes, then the 8 bytes at the PE offset, decides as
/// reading the whole file does.
pub proof fn lemma_staged_read_agrees(d: Seq<u8>)
    requires
        d.len() >= 64,
    ensures
        has_dos_magic(d.take(64)) == has_dos_magic(d),
        pe_offset_of(d.take(64)) == pe_offset_of(d),
        has_dos_magic(d) && pe_offset_of(d) + 8 <= d.len() ==> {
            let at = pe_offset_of(d);
            let record = d.subrange(at, at + 8);
            &&& has_pe_signature(record, 0) == has_pe_signature(d, at)
            &&& le16(record, 4) == le16(d, at + 4)
        },
{
}

} // verus!
