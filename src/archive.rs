use vstd::prelude::*;
use crate::error::Error;
use std::io::Cursor;
use std::io::Read;
use std::io::Write;
use zip::ZipArchive;
use zip::ZipWriter;

verus! {

/// `std::io::Cursor`, the in-memory reader that an archive is opened over.
#[verifier::external_type_specification]
#[verifier::external_body]
#[verifier::reject_recursive_types(T)]
pub struct ExCursor<T>(Cursor<T>);

/// `zip::ZipArchive`, an opened archive; its entries are `archive_entries`.
#[verifier::external_type_specification]
#[verifier::external_body]
#[verifier::reject_recursive_types(R)]
pub struct ExZipArchive<R>(ZipArchive<R>);

/// An archive being written into memory. The writer is kept opaque: Verus
/// cannot take a declaration of `ZipWriter`, whose parameter is bound by
/// outside traits.
#[verifier::external_body]
pub struct ArchiveWriter {
    inner: ZipWriter<Cursor<Vec<u8>>>,
}

/// The entries that `ZipArchive::new` finds in these bytes, each name mapped
/// to what reading that entry yields: its uncompressed contents, or `None` for
/// a listed entry that cannot be read (no password given, unsupported
/// compression, damaged data). The whole is `None` where the bytes are not
/// accepted as an archive.
pub uninterp spec fn zip_entries(bytes: Seq<u8>) -> Option<Map<Seq<char>, Option<Seq<u8>>>>;

/// The entries of an opened archive, each name mapped to what reading it
/// yields, as in `zip_entries`.
pub uninterp spec fn archive_entries(a: ZipArchive<Cursor<Vec<u8>>>) -> Map<Seq<char>, Option<Seq<u8>>>;

/// The entries handed to a writer so far, in order: each a name and the bytes
/// written under it.
pub uninterp spec fn written_entries(w: ArchiveWriter) -> Seq<(Seq<char>, Seq<u8>)>;

/// The writer is usable: it has not been closed, and the entry being written,
/// if any, holds fewer than 2^31 bytes, so that it closes without the
/// large-file option.
pub uninterp spec fn writer_open(w: ArchiveWriter) -> bool;

/// The bytes of the archive that `ZipWriter::finish` produces from these
/// entries, written in this order with the default file options.
pub uninterp spec fn encoded_archive(entries: Seq<(Seq<char>, Seq<u8>)>) -> Seq<u8>;

/// Relies on `ZipArchive::new`: it reads the central directory of the bytes
/// and fails on bytes that are not an archive.
#[verifier::external_body]
pub(crate) fn open_archive(bytes: Vec<u8>) -> (r: Result<ZipArchive<Cursor<Vec<u8>>>, Error>)
    ensures
        r is Ok <==> zip_entries(bytes@) is Some,
        r is Ok ==> archive_entries(r->Ok_0) == zip_entries(bytes@)->Some_0,
        r is Err ==> r->Err_0 == Error::InvalidArchive,
{
    ZipArchive::new(Cursor::new(bytes)).map_err(|_| Error::InvalidArchive)
}

/// Relies on `ZipArchive::by_name_decrypt` with an empty password, which
/// fails with `FileNotFound` exactly when no entry has that name and ignores
/// the password for an entry that needs none; the entry it finds is read to
/// its end.
#[verifier::external_body]
pub(crate) fn read_entry(a: &mut ZipArchive<Cursor<Vec<u8>>>, name: &str) -> (r: Result<Vec<u8>, Error>)
    ensures
        archive_entries(*final(a)) == archive_entries(*old(a)),
        (r is Err && r->Err_0 == Error::MissingEntry) <==> !archive_entries(*old(a)).contains_key(name@),
        r is Ok <==> archive_entries(*old(a)).contains_key(name@) && archive_entries(*old(a))[name@] is Some,
        r is Ok ==> archive_entries(*old(a))[name@] == Some(r->Ok_0@),
        r is Err ==> r->Err_0 == Error::MissingEntry || r->Err_0 == Error::InvalidArchive,
{
    let mut file = match a.by_name_decrypt(name, &[]) {
        Ok(Ok(file)) => file,
        Ok(Err(_)) => return Err(Error::InvalidArchive),
        Err(zip::result::ZipError::FileNotFound) => return Err(Error::MissingEntry),
        Err(_) => return Err(Error::InvalidArchive),
    };
    let mut out = Vec::new();
    file.read_to_end(&mut out).map_err(|_| Error::InvalidArchive)?;
    Ok(out)
}

/// Relies on `ZipWriter::new`: a writer over an empty buffer holds no entries.
#[verifier::external_body]
pub(crate) fn new_writer() -> (w: ArchiveWriter)
    ensures
        written_entries(w) == Seq::<(Seq<char>, Seq<u8>)>::empty(),
        writer_open(w),
{
    ArchiveWriter { inner: ZipWriter::new(Cursor::new(Vec::new())) }
}

/// Relies on `ZipWriter::start_file` with the default options: it opens a new
/// entry with that name, into which later writes go. On a writer that is
/// open it only writes headers into memory, which does not fail.
#[verifier::external_body]
pub(crate) fn start_file(w: &mut ArchiveWriter, name: String) -> (r: Result<(), Error>)
    ensures
        writer_open(*old(w)) ==> r is Ok && writer_open(*final(w)),
        r is Err ==> r->Err_0 == Error::Io,
        r is Ok ==> written_entries(*final(w)) == written_entries(*old(w)).push((name@, Seq::<u8>::empty())),
{
    w.inner.start_file(name, Default::default()).map_err(|_| Error::Io)
}

/// Relies on `Write::write_all` of `ZipWriter`: the bytes are appended to the
/// entry that is open. Writing into memory fails only on a closed writer or
/// once an entry passes 4 GiB without the large-file option.
#[verifier::external_body]
pub(crate) fn write_all(w: &mut ArchiveWriter, data: &Vec<u8>) -> (r: Result<(), Error>)
    requires
        written_entries(*old(w)).len() > 0,
    ensures
        writer_open(*old(w)) && written_entries(*old(w)).last().1.len() + data@.len() < 0x8000_0000
            ==> r is Ok && writer_open(*final(w)),
        r is Err ==> r->Err_0 == Error::Io,
        r is Ok ==> written_entries(*final(w)) == written_entries(*old(w)).update(
            written_entries(*old(w)).len() - 1,
            (
                written_entries(*old(w)).last().0,
                written_entries(*old(w)).last().1 + data@,
            ),
        ),
{
    w.inner.write_all(data).map_err(|_| Error::Io)
}

/// Relies on `ZipWriter::finish`: it writes the central directory and hands
/// back the buffer, which then holds the whole archive. On a writer that is
/// open this only writes into memory, which does not fail.
#[verifier::external_body]
pub(crate) fn finish(w: &mut ArchiveWriter) -> (r: Result<Vec<u8>, Error>)
    ensures
        writer_open(*old(w)) ==> r is Ok,
        r is Err ==> r->Err_0 == Error::Io,
        r is Ok ==> r->Ok_0@ == encoded_archive(written_entries(*old(w))),
{
    w.inner.finish().map(|c| c.into_inner()).map_err(|_| Error::Io)
}

} // verus!
