use vstd::prelude::*;
use vstd::string::StringExecFns;
use crate::archive::{encoded_archive, finish, new_writer, start_file, write_all, writer_open, written_entries};
use crate::error::Error;
use crate::exefs::{get_exefs, is_archive_failure, loader_failure, loader_files, Exefs};
use crate::paths::{
    get_npdm_path, get_plugin_nro_path, get_subsdk_path, npdm_path, plugin_nro_path, subsdk_path,
};

verus! {

/// A file of the output archive: where it is installed, and its bytes.
pub struct PackageEntry {
    pub path: String,
    pub data: Vec<u8>,
}

impl PackageEntry {
    pub open spec fn view(&self) -> (Seq<char>, Seq<u8>) {
        (self.path@, self.data@)
    }
}

pub open spec fn entries_view(es: Seq<PackageEntry>) -> Seq<(Seq<char>, Seq<u8>)> {
    es.map_values(|e: PackageEntry| e.view())
}

/// Every entry holds fewer than 2^31 bytes: small enough to be written
/// without the large-file option.
pub open spec fn entries_fit(es: Seq<PackageEntry>) -> bool {
    forall|k: int| 0 <= k < es.len() ==> #[trigger] es[k].data@.len() < 0x8000_0000
}

pub open spec fn str_opt_view(o: Option<&str>) -> Option<Seq<char>> {
    match o {
        Some(s) => Some(s@),
        None => None,
    }
}

/// The title identifier to package for: the explicit one where it is given
/// and not empty, else the configured one where it is not empty.
pub open spec fn resolved_title(explicit: Option<Seq<char>>, configured: Option<Seq<char>>) -> Option<Seq<char>> {
    if explicit is Some && explicit->Some_0.len() > 0 {
        explicit
    } else if configured is Some && configured->Some_0.len() > 0 {
        configured
    } else {
        None
    }
}

/// The three files of a package, in the order they are written: the plugin,
/// the loader's metadata descriptor, the loader's secondary module.
pub open spec fn package_layout(
    title_id: Seq<char>,
    plugin_name: Seq<char>,
    plugin_data: Seq<u8>,
    main_npdm: Seq<u8>,
    subsdk1: Seq<u8>,
) -> Seq<(Seq<char>, Seq<u8>)> {
    seq![
        (plugin_nro_path(title_id, plugin_name), plugin_data),
        (npdm_path(title_id), main_npdm),
        (subsdk_path(title_id), subsdk1),
    ]
}

/// The output archive for a title, a plugin and a loader release archive;
/// `None` where the loader archive is unusable.
pub open spec fn packaged_archive(
    title_id: Seq<char>,
    plugin_name: Seq<char>,
    plugin_data: Seq<u8>,
    loader_archive: Seq<u8>,
) -> Option<Seq<u8>> {
    match loader_files(loader_archive) {
        Some(files) => Some(
            encoded_archive(package_layout(title_id, plugin_name, plugin_data, files.0, files.1)),
        ),
        None => None,
    }
}

/// Picks the title identifier: an explicit, non-empty one wins over the
/// configured one; with neither, packaging cannot go on.
pub fn resolve_title_id(explicit: Option<&str>, configured: Option<&str>) -> (r: Result<String, Error>)
    ensures
        match resolved_title(str_opt_view(explicit), str_opt_view(configured)) {
            Some(t) => r is Ok && r->Ok_0@ == t,
            None => r is Err && r->Err_0 == Error::NoTitleId,
        },
{
    if let Some(t) = explicit {
        if !t.is_empty() {
            return Ok(String::from_str(t));
        }
    }
    if let Some(t) = configured {
        if !t.is_empty() {
            return Ok(String::from_str(t));
        }
    }
    Err(Error::NoTitleId)
}

/// Places the plugin and the two loader files at their install paths.
pub fn package_entries(title_id: &str, plugin_name: &str, plugin_data: Vec<u8>, exefs: Exefs) -> (r: Vec<PackageEntry>)
    ensures
        entries_view(r@) == package_layout(
            title_id@,
            plugin_name@,
            plugin_data@,
            exefs.main_npdm@,
            exefs.subsdk1@,
        ),
{
    let mut r: Vec<PackageEntry> = Vec::new();
    r.push(PackageEntry { path: get_plugin_nro_path(title_id, plugin_name), data: plugin_data });
    r.push(PackageEntry { path: get_npdm_path(title_id), data: exefs.main_npdm });
    r.push(PackageEntry { path: get_subsdk_path(title_id), data: exefs.subsdk1 });
    assert(entries_view(r@) =~= package_layout(
        title_id@,
        plugin_name@,
        plugin_data@,
        exefs.main_npdm@,
        exefs.subsdk1@,
    ));
    r
}

/// Writes the entries, in order, into a new zip archive held in memory. This
/// succeeds whenever every entry is under 2^31 bytes.
pub fn write_archive(entries: &Vec<PackageEntry>) -> (r: Result<Vec<u8>, Error>)
    ensures
        r is Ok ==> r->Ok_0@ == encoded_archive(entries_view(entries@)),
        r is Err ==> r->Err_0 == Error::Io,
        entries_fit(entries@) ==> r is Ok,
{
    let mut w = new_writer();
    let mut i: usize = 0;
    while i < entries.len()
        invariant
            0 <= i <= entries@.len(),
            written_entries(w) == entries_view(entries@.take(i as int)),
            entries_fit(entries@) ==> writer_open(w),
        decreases entries@.len() - i,
    {
        let e = &entries[i];
        start_file(&mut w, e.path.clone())?;
        write_all(&mut w, &e.data)?;
        proof {
            assert(e.data@ =~= Seq::<u8>::empty() + e.data@);
            assert(entries_view(entries@.take(i + 1)) =~= entries_view(entries@.take(i as int)).push(e.view()));
        }
        i = i + 1;
    }
    assert(entries@.take(i as int) =~= entries@);
    finish(&mut w)
}

/// Builds the output archive: the built plugin, and the metadata descriptor
/// and secondary module taken from the loader release archive, each at its
/// install path for the title. It succeeds whenever the loader archive is
/// usable and each of the three files is under 2^31 bytes.
pub fn package(title_id: &str, plugin_name: &str, plugin_data: Vec<u8>, loader_archive: Vec<u8>) -> (r: Result<Vec<u8>, Error>)
    ensures
        r is Ok ==> packaged_archive(title_id@, plugin_name@, plugin_data@, loader_archive@) == Some(r->Ok_0@),
        ({
            let files = loader_files(loader_archive@);
            files is Some && plugin_data@.len() < 0x8000_0000 && files->Some_0.0.len() < 0x8000_0000
                && files->Some_0.1.len() < 0x8000_0000 ==> r is Ok
        }),
        loader_failure(loader_archive@) is Some ==> r is Err && r->Err_0 == loader_failure(loader_archive@)->Some_0,
        r is Err ==> is_archive_failure(r->Err_0) || r->Err_0 == Error::Io,
{
    let ghost data = plugin_data@;
    let exefs = get_exefs(loader_archive)?;
    let ghost (npdm, subsdk) = (exefs.main_npdm@, exefs.subsdk1@);
    let entries = package_entries(title_id, plugin_name, plugin_data, exefs);
    proof {
        let l = entries_view(entries@);
        assert(entries@.len() == l.len());
        assert forall|k: int| 0 <= k < entries@.len() implies #[trigger] entries@[k].data@ == l[k].1 by {}
        if data.len() < 0x8000_0000 && npdm.len() < 0x8000_0000 && subsdk.len() < 0x8000_0000 {
            assert(entries_fit(entries@));
        }
    }
    write_archive(&entries)
}

} // verus!
