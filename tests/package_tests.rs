use skyline_package::error::Error;
use skyline_package::exefs::{get_exefs, Exefs};
use skyline_package::package::{package, package_entries, resolve_title_id, write_archive, PackageEntry};
use skyline_package::paths::{get_npdm_path, get_plugin_nro_path, get_subsdk_path};
use std::io::{Cursor, Read, Write};

fn make_zip(entries: &[(&str, &[u8])]) -> Vec<u8> {
    let mut w = zip::ZipWriter::new(Cursor::new(Vec::new()));
    for (name, data) in entries {
        w.start_file(*name, zip::write::FileOptions::default()).unwrap();
        w.write_all(data).unwrap();
    }
    w.finish().unwrap().into_inner()
}

fn read_zip(bytes: &[u8]) -> Vec<(String, Vec<u8>)> {
    let mut a = zip::ZipArchive::new(Cursor::new(bytes.to_vec())).unwrap();
    let mut out = Vec::new();
    for i in 0..a.len() {
        let mut f = a.by_index(i).unwrap();
        let mut data = Vec::new();
        f.read_to_end(&mut data).unwrap();
        out.push((f.name().to_string(), data));
    }
    out
}

fn loader_archive() -> Vec<u8> {
    make_zip(&[
        ("exefs/main", b"main module"),
        ("exefs/main.npdm", b"NPDM descriptor bytes"),
        ("exefs/subsdk1", &[0u8, 1, 2, 3, 255, 254]),
    ])
}

#[test]
fn plugin_path_layout() {
    assert_eq!(
        get_plugin_nro_path("01006A800016E000", "my_plugin.nro"),
        "atmosphere/contents/01006A800016E000/romfs/skyline/plugins/my_plugin.nro"
    );
}

#[test]
fn loader_path_layout() {
    assert_eq!(get_npdm_path("01006A800016E000"), "atmosphere/contents/01006A800016E000/exefs/main.npdm");
    assert_eq!(get_subsdk_path("01006A800016E000"), "atmosphere/contents/01006A800016E000/exefs/subsdk9");
}

#[test]
fn explicit_title_overrides_configured() {
    assert_eq!(resolve_title_id(Some("0100AAAA"), Some("0100BBBB")), Ok(String::from("0100AAAA")));
    assert_eq!(resolve_title_id(Some("0100AAAA"), None), Ok(String::from("0100AAAA")));
}

#[test]
fn configured_title_used_without_explicit() {
    assert_eq!(resolve_title_id(None, Some("0100BBBB")), Ok(String::from("0100BBBB")));
    assert_eq!(resolve_title_id(Some(""), Some("0100BBBB")), Ok(String::from("0100BBBB")));
}

#[test]
fn no_title_is_an_error() {
    assert_eq!(resolve_title_id(None, None), Err(Error::NoTitleId));
    assert_eq!(resolve_title_id(Some(""), Some("")), Err(Error::NoTitleId));
}

#[test]
fn exefs_contents_round_trip() {
    let e = get_exefs(loader_archive()).unwrap();
    assert_eq!(e.main_npdm, b"NPDM descriptor bytes".to_vec());
    assert_eq!(e.subsdk1, vec![0u8, 1, 2, 3, 255, 254]);
}

#[test]
fn exefs_empty_entries_round_trip() {
    let e = get_exefs(make_zip(&[("exefs/main.npdm", b""), ("exefs/subsdk1", b"")])).unwrap();
    assert!(e.main_npdm.is_empty());
    assert!(e.subsdk1.is_empty());
}

#[test]
fn exefs_missing_npdm() {
    let bytes = make_zip(&[("exefs/subsdk1", b"sdk")]);
    assert!(matches!(get_exefs(bytes), Err(Error::MissingEntry)));
}

#[test]
fn exefs_missing_subsdk() {
    let bytes = make_zip(&[("exefs/main.npdm", b"npdm")]);
    assert!(matches!(get_exefs(bytes), Err(Error::MissingEntry)));
}

#[test]
fn exefs_rejects_non_archive() {
    assert!(matches!(get_exefs(b"not a zip archive at all".to_vec()), Err(Error::InvalidArchive)));
    assert!(matches!(get_exefs(Vec::new()), Err(Error::InvalidArchive)));
}

#[test]
fn entries_in_install_order() {
    let exefs = Exefs { main_npdm: vec![1, 2], subsdk1: vec![3] };
    let es = package_entries("0100AAAA", "a.nro", vec![9, 9, 9], exefs);
    assert_eq!(es.len(), 3);
    assert_eq!(es[0].path, "atmosphere/contents/0100AAAA/romfs/skyline/plugins/a.nro");
    assert_eq!(es[0].data, vec![9, 9, 9]);
    assert_eq!(es[1].path, "atmosphere/contents/0100AAAA/exefs/main.npdm");
    assert_eq!(es[1].data, vec![1, 2]);
    assert_eq!(es[2].path, "atmosphere/contents/0100AAAA/exefs/subsdk9");
    assert_eq!(es[2].data, vec![3]);
}

#[test]
fn written_archive_reads_back() {
    let entries = vec![
        PackageEntry { path: String::from("a/b.bin"), data: vec![5, 6, 7] },
        PackageEntry { path: String::from("c.txt"), data: b"hello".to_vec() },
    ];
    let bytes = write_archive(&entries).unwrap();
    assert_eq!(
        read_zip(&bytes),
        vec![(String::from("a/b.bin"), vec![5, 6, 7]), (String::from("c.txt"), b"hello".to_vec())]
    );
}

#[test]
fn empty_archive_is_written() {
    let bytes = write_archive(&Vec::new()).unwrap();
    assert!(!bytes.is_empty());
    assert!(read_zip(&bytes).is_empty());
}

#[test]
fn package_holds_exactly_three_entries() {
    let plugin = b"NRO0 plugin payload".to_vec();
    let out = package("01006A800016E000", "my_plugin.nro", plugin.clone(), loader_archive()).unwrap();
    assert_eq!(
        read_zip(&out),
        vec![
            (
                String::from("atmosphere/contents/01006A800016E000/romfs/skyline/plugins/my_plugin.nro"),
                plugin,
            ),
            (
                String::from("atmosphere/contents/01006A800016E000/exefs/main.npdm"),
                b"NPDM descriptor bytes".to_vec(),
            ),
            (
                String::from("atmosphere/contents/01006A800016E000/exefs/subsdk9"),
                vec![0u8, 1, 2, 3, 255, 254],
            ),
        ]
    );
}

#[test]
fn package_fails_on_missing_entry() {
    let loader = make_zip(&[("exefs/main.npdm", b"npdm")]);
    assert_eq!(package("0100AAAA", "a.nro", vec![1], loader), Err(Error::MissingEntry));
}

#[test]
fn package_fails_on_invalid_loader() {
    assert_eq!(package("0100AAAA", "a.nro", vec![1], vec![1, 2, 3]), Err(Error::InvalidArchive));
}

#[test]
fn package_twice_gives_same_bytes() {
    let first = package("01006A800016E000", "my_plugin.nro", vec![1, 2, 3], loader_archive()).unwrap();
    let second = package("01006A800016E000", "my_plugin.nro", vec![1, 2, 3], loader_archive()).unwrap();
    assert_eq!(first, second);
}

#[test]
fn exefs_damaged_entry_is_invalid() {
    let mut w = zip::ZipWriter::new(Cursor::new(Vec::new()));
    let stored = zip::write::FileOptions::default().compression_method(zip::CompressionMethod::Stored);
    w.start_file("exefs/main.npdm", stored).unwrap();
    w.write_all(b"descriptor").unwrap();
    w.start_file("exefs/subsdk1", stored).unwrap();
    w.write_all(b"SUBSDKPAYLOAD").unwrap();
    let mut bytes = w.finish().unwrap().into_inner();
    let at = bytes.windows(13).position(|win| win == b"SUBSDKPAYLOAD").unwrap();
    bytes[at] = b'X';
    assert!(matches!(get_exefs(bytes), Err(Error::InvalidArchive)));
}

#[test]
fn package_with_configured_title() {
    let title = resolve_title_id(None, Some("0100CCCC")).unwrap();
    let out = package(&title, "b.nro", vec![7], loader_archive()).unwrap();
    let names: Vec<String> = read_zip(&out).into_iter().map(|(n, _)| n).collect();
    assert_eq!(
        names,
        vec![
            String::from("atmosphere/contents/0100CCCC/romfs/skyline/plugins/b.nro"),
            String::from("atmosphere/contents/0100CCCC/exefs/main.npdm"),
            String::from("atmosphere/contents/0100CCCC/exefs/subsdk9"),
        ]
    );
}
