use vstd::prelude::*;
use crate::archive::{open_archive, read_entry, zip_entries};
use crate::error::Error;

verus! {

/// Path, inside a loader release archive, of the loader's secondary module.
pub open spec fn subsdk_entry() -> Seq<char> {
    "exefs/subsdk1"@
}

/// Path, inside a loader release archive, of the loader's metadata descriptor.
pub open spec fn npdm_entry() -> Seq<char> {
    "exefs/main.npdm"@
}

/// The two files taken from a loader release archive.
pub struct Exefs {
    pub main_npdm: Vec<u8>,
    pub subsdk1: Vec<u8>,
}

/// The metadata descriptor and the secondary module held by a loader release
/// archive, in that order; `None` where the bytes are not an archive, or
/// either entry is absent or cannot be read.
pub open spec fn loader_files(archive: Seq<u8>) -> Option<(Seq<u8>, Seq<u8>)> {
    match zip_entries(archive) {
        Some(m) => if m.contains_key(npdm_entry()) && m[npdm_entry()] is Some
            && m.contains_key(subsdk_entry()) && m[subsdk_entry()] is Some {
            Some((m[npdm_entry()]->Some_0, m[subsdk_entry()]->Some_0))
        } else {
            None
        },
        None => None,
    }
}

/// Why a loader release archive is unusable, checking the secondary module
/// before the metadata descriptor; `None` where it is usable.
pub open spec fn loader_failure(archive: Seq<u8>) -> Option<Error> {
    match zip_entries(archive) {
        None => Some(Error::InvalidArchive),
        Some(m) => if !m.contains_key(subsdk_entry()) {
            Some(Error::MissingEntry)
        } else if m[subsdk_entry()] is None {
            Some(Error::InvalidArchive)
        } else if !m.contains_key(npdm_entry()) {
            Some(Error::MissingEntry)
        } else if m[npdm_entry()] is None {
            Some(Error::InvalidArchive)
        } else {
            None
        },
    }
}

/// An error that says the loader release archive is unusable.
pub open spec fn is_archive_failure(e: Error) -> bool {
    e == Error::InvalidArchive || e == Error::MissingEntry
}

/// Takes the metadata descriptor and the secondary module out of the bytes of
/// a loader release archive, unmodified. It succeeds exactly when both entries
/// are present and readable; otherwise it fails with the reason that
/// `loader_failure` gives, and hands out neither file.
pub fn get_exefs(zip_bytes: Vec<u8>) -> (r: Result<Exefs, Error>)
    ensures
        r is Ok <==> loader_files(zip_bytes@) is Some,
        r is Ok ==> loader_files(zip_bytes@) == Some((r->Ok_0.main_npdm@, r->Ok_0.subsdk1@)),
        r is Err <==> loader_failure(zip_bytes@) is Some,
        r is Err ==> r->Err_0 == loader_failure(zip_bytes@)->Some_0,
        r is Err ==> is_archive_failure(r->Err_0),
{
    proof { reveal_strlit("exefs/subsdk1"); reveal_strlit("exefs/main.npdm"); }
    let mut zip = open_archive(zip_bytes)?;
    let subsdk1 = read_entry(&mut zip, "exefs/subsdk1")?;
    let main_npdm = read_entry(&mut zip, "exefs/main.npdm")?;
    Ok(Exefs { main_npdm, subsdk1 })
}

} // verus!
