//! Trusted boundary to the archive and digest crates. Reading and
//! writing gzip-compressed tar archives, and hashing bytes, are functions
//! of their inputs alone; their results — including whether the calls
//! succeed — are named here, and everything the library decides about
//! them is proved in `storage` and `project`.

use vstd::prelude::*;

verus! {

/// The kind code of a regular-file archive entry.
pub const ENTRY_FILE: u8 = 0;

/// The kind code of a directory archive entry.
pub const ENTRY_DIR: u8 = 1;

/// The kind code of any other archive entry (links, devices and the
/// like).
pub const ENTRY_OTHER: u8 = 2;

/// The entries stored in a gzip-compressed tar archive: each entry's
/// path, contents, and kind code (directory and special entries carry
/// no contents).
pub uninterp spec fn archive_entries_of(data: Seq<u8>) -> Seq<(Seq<char>, Seq<u8>, u8)>;

/// Whether the bytes parse as a gzip-compressed tar archive: decoding
/// in-memory bytes is deterministic, so the reader's success is a
/// function of the bytes alone.
pub uninterp spec fn targz_wellformed(data: Seq<u8>) -> bool;

/// The gzip-compressed tar archive holding the given files, each with
/// the given mode and modification time.
pub uninterp spec fn targz_of(files: Seq<(Seq<char>, Seq<u8>)>, mode: u32, mtime: u64) -> Seq<u8>;

/// Whether the archive builder accepts these files: every path must fit
/// the archive's header format, a function of the paths alone.
pub uninterp spec fn targz_buildable(files: Seq<(Seq<char>, Seq<u8>)>) -> bool;

/// The SHA-256 digest of a byte string.
pub uninterp spec fn sha256_of(data: Seq<u8>) -> Seq<u8>;

/// The entry views of a list of (path, contents) pairs.
pub open spec fn entry_views(entries: Seq<(String, Vec<u8>)>) -> Seq<(Seq<char>, Seq<u8>)> {
    entries.map_values(|e: (String, Vec<u8>)| (e.0@, e.1@))
}

/// The entry views of a list of (path, contents, kind) triples.
pub open spec fn typed_entry_views(entries: Seq<(String, Vec<u8>, u8)>) -> Seq<
    (Seq<char>, Seq<u8>, u8),
> {
    entries.map_values(|e: (String, Vec<u8>, u8)| (e.0@, e.1@, e.2))
}

/// Relies on flate2's `GzDecoder` and tar's `Archive`: lists the entries
/// of a gzip-compressed tar archive held in memory, each tagged with its
/// kind — regular file, directory, or other. The entries, and whether
/// the read succeeds, are functions of the bytes alone.
#[verifier::external_body]
pub fn read_tar_gz(data: &Vec<u8>) -> (r: Result<Vec<(String, Vec<u8>, u8)>, String>)
    ensures
        r is Ok <==> targz_wellformed(data@),
        r matches Ok(v) ==> typed_entry_views(v@) == archive_entries_of(data@),
{
    let mut ar = tar::Archive::new(flate2::read::GzDecoder::new(&data[..]));
    let mut out = Vec::new();
    for ent in ar.entries().map_err(|e| e.to_string())? {
        let mut ent = ent.map_err(|e| e.to_string())?;
        let path = String::from_utf8_lossy(&ent.path_bytes()).into_owned();
        let t = ent.header().entry_type();
        let mut buf = Vec::new();
        std::io::Read::read_to_end(&mut ent, &mut buf).map_err(|e| e.to_string())?;
        out.push((path, buf, if t.is_file() { 0 } else if t.is_dir() { 1 } else { 2 }));
    }
    Ok(out)
}

/// Relies on tar's `Builder` and flate2's `GzEncoder`: packs the given
/// files, under the given mode and modification time, into a
/// gzip-compressed tar archive. The bytes, and whether the build
/// succeeds, are functions of the arguments alone.
#[verifier::external_body]
pub fn build_tar_gz(files: &Vec<(String, Vec<u8>)>, mode: u32, mtime: u64) -> (r: Result<
    Vec<u8>,
    String,
>)
    ensures
        r is Ok <==> targz_buildable(entry_views(files@)),
        r matches Ok(v) ==> v@ == targz_of(entry_views(files@), mode, mtime),
{
    let enc = flate2::write::GzEncoder::new(Vec::new(), flate2::Compression::default());
    let mut tar = tar::Builder::new(enc);
    for (path, contents) in files {
        let mut header = tar::Header::new_gnu();
        header.set_path(path).map_err(|e| e.to_string())?;
        header.set_size(contents.len() as u64);
        header.set_mode(mode);
        header.set_mtime(mtime);
        header.set_cksum();
        tar.append(&header, &contents[..]).map_err(|e| e.to_string())?;
    }
    let enc = tar.into_inner().map_err(|e| e.to_string())?;
    enc.finish().map_err(|e| e.to_string())
}

/// Relies on sha2's `Sha256`: the 32-byte digest of a byte string, as
/// the crate documents.
#[verifier::external_body]
pub fn sha256(data: &Vec<u8>) -> (r: Vec<u8>)
    ensures
        r@ == sha256_of(data@),
        r@.len() == 32,
{
    <sha2::Sha256 as sha2::Digest>::digest(data.as_slice()).to_vec()
}

/// The digest of a byte string, rendered as 64 lower-case hexadecimal
/// characters.
pub fn sha256_hex(data: &Vec<u8>) -> (r: String)
    ensures
        r@ == crate::text::hex_of(sha256_of(data@)),
        r@.len() == 64,
{
    crate::text::bytes_to_hex(&sha256(data))
}

} // verus!
