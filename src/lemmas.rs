use vstd::prelude::*;
use crate::archive::encoded_archive;
use crate::exefs::loader_files;
use crate::package::{package_layout, packaged_archive, resolved_title};
use crate::paths::{npdm_path, plugin_nro_path, subsdk_path};

verus! {

/// A non-empty explicit title identifier is taken as it is, whatever the
/// configuration holds.
pub proof fn lemma_explicit_title_wins(explicit: Seq<char>, configured: Option<Seq<char>>)
    requires
        explicit.len() > 0,
    ensures
        resolved_title(Some(explicit), configured) == Some(explicit),
{
}

/// With no explicit title identifier and none configured, no title resolves.
pub proof fn lemma_no_title_without_sources()
    ensures
        resolved_title(None, None) is None,
{
}

/// A package holds exactly three files: the plugin, the metadata descriptor and
/// the secondary module, each at its install path and with its bytes unchanged.
pub proof fn lemma_layout_has_three_entries(
    title_id: Seq<char>,
    plugin_name: Seq<char>,
    plugin_data: Seq<u8>,
    main_npdm: Seq<u8>,
    subsdk1: Seq<u8>,
)
    ensures
        ({
            let l = package_layout(title_id, plugin_name, plugin_data, main_npdm, subsdk1);
            &&& l.len() == 3
            &&& l[0] == (plugin_nro_path(title_id, plugin_name), plugin_data)
            &&& l[1] == (npdm_path(title_id), main_npdm)
            &&& l[2] == (subsdk_path(title_id), subsdk1)
        }),
{
}

/// The title that resolves is the one the package is laid out for: a
/// non-empty explicit title, verbatim, whatever is configured; else a
/// non-empty configured one. With a usable loader archive the package holds
/// the three files at that title's install paths.
pub proof fn lemma_resolved_title_in_package(
    explicit: Option<Seq<char>>,
    configured: Option<Seq<char>>,
    plugin_name: Seq<char>,
    plugin_data: Seq<u8>,
    loader_archive: Seq<u8>,
)
    requires
        loader_files(loader_archive) is Some,
        resolved_title(explicit, configured) is Some,
    ensures
        ({
            let t = resolved_title(explicit, configured)->Some_0;
            let files = loader_files(loader_archive)->Some_0;
            &&& (explicit is Some && explicit->Some_0.len() > 0 ==> t == explicit->Some_0)
            &&& (explicit is None ==> t == configured->Some_0)
            &&& packaged_archive(t, plugin_name, plugin_data, loader_archive) == Some(
                encoded_archive(package_layout(t, plugin_name, plugin_data, files.0, files.1)),
            )
        }),
{
}

/// Packaging twice with the same inputs and the same loader archive gives the
/// same bytes.
pub proof fn lemma_package_deterministic(
    title_id: Seq<char>,
    plugin_name: Seq<char>,
    plugin_data: Seq<u8>,
    loader_archive: Seq<u8>,
    first: Seq<u8>,
    second: Seq<u8>,
)
    requires
        packaged_archive(title_id, plugin_name, plugin_data, loader_archive) == Some(first),
        packaged_archive(title_id, plugin_name, plugin_data, loader_archive) == Some(second),
    ensures
        first == second,
{
}

} // verus!
