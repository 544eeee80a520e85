use vstd::prelude::*;
use vstd::string::StringExecFns;

verus! {

/// The directory under which a title's installed content lives.
pub open spec fn title_dir(title_id: Seq<char>) -> Seq<char> {
    "atmosphere/contents/"@ + title_id
}

/// Install path of a plugin named `nro` for the given title.
pub open spec fn plugin_nro_path(title_id: Seq<char>, nro: Seq<char>) -> Seq<char> {
    title_dir(title_id) + "/romfs/skyline/plugins/"@ + nro
}

/// Install path of the loader's metadata descriptor for the given title.
pub open spec fn npdm_path(title_id: Seq<char>) -> Seq<char> {
    title_dir(title_id) + "/exefs/main.npdm"@
}

/// Install path of the loader's secondary module for the given title.
pub open spec fn subsdk_path(title_id: Seq<char>) -> Seq<char> {
    title_dir(title_id) + "/exefs/subsdk9"@
}

fn title_dir_string(title_id: &str) -> (r: String)
    ensures
        r@ == title_dir(title_id@),
{
    let mut r = String::from_str("atmosphere/contents/");
    r.append(title_id);
    r
}

/// Where a plugin binary named `nro` is installed for the title.
pub fn get_plugin_nro_path(title_id: &str, nro: &str) -> (r: String)
    ensures
        r@ == plugin_nro_path(title_id@, nro@),
{
    let mut r = title_dir_string(title_id);
    r.append("/romfs/skyline/plugins/");
    r.append(nro);
    r
}

/// Where the loader's metadata descriptor is installed for the title.
pub fn get_npdm_path(title_id: &str) -> (r: String)
    ensures
        r@ == npdm_path(title_id@),
{
    let mut r = title_dir_string(title_id);
    r.append("/exefs/main.npdm");
    r
}

/// Where the loader's secondary module is installed for the title.
pub fn get_subsdk_path(title_id: &str) -> (r: String)
    ensures
        r@ == subsdk_path(title_id@),
{
    let mut r = title_dir_string(title_id);
    r.append("/exefs/subsdk9");
    r
}

} // verus!
