use recamera::loader::LibraryLoad;
use recamera::loader::{
    atomic_library, library_candidates, vendor_library, LibrarySearch, SEARCH_DIR_COUNT,
    VENDOR_LIBRARY_COUNT,
};
use std::path::Path;

#[test]
fn candidates_follow_search_dirs_then_bare_name() {
    let c = library_candidates("libsys.so");
    assert_eq!(
        c,
        vec![
            "/usr/lib/libsys.so",
            "/lib/libsys.so",
            "/mnt/system/lib/libsys.so",
            "/mnt/system/usr/lib/libsys.so",
            "libsys.so"
        ]
    );
    for (i, dir) in ["/usr/lib/", "/lib/", "/mnt/system/lib/", "/mnt/system/usr/lib/"].iter().enumerate() {
        assert_eq!(Path::new(dir).join("libvi.so").to_str().unwrap(), library_candidates("libvi.so")[i]);
    }
    assert_eq!(SEARCH_DIR_COUNT, 4);
    let abs = library_candidates("/opt/x.so");
    assert!(abs.iter().all(|p| p == "/opt/x.so"));
}

#[test]
fn search_reports_error_of_last_candidate() {
    let mut s = LibrarySearch::new("libvi.so");
    let mut tried = Vec::new();
    let mut code = 1;
    let result = loop {
        let p = s.next_path().expect("a candidate").to_string();
        tried.push(p);
        if let Some(e) = s.failed(code) {
            break e;
        }
        code += 1;
    };
    assert_eq!(tried.len(), 5);
    assert_eq!(tried[4], "libvi.so");
    // The bare name is the last attempted path: its error (5) is the one reported.
    assert_eq!(result, 5u32);
    assert!(s.next_path().is_none());
}

#[test]
fn vendor_library_order() {
    let names: Vec<&str> = (0..VENDOR_LIBRARY_COUNT).map(vendor_library).collect();
    assert_eq!(names, ["libsys.so", "libvi.so", "libvpss.so", "libvenc.so", "libcviruntime.so"]);
    assert_eq!(atomic_library(0), "libatomic.so.1");
    assert_eq!(atomic_library(1), "libatomic.so");
}

#[test]
fn library_load_skips_optional_and_stops_at_vendor_failure() {
    let mut load = LibraryLoad::new();
    assert_eq!(load.next_library(), Some("libatomic.so.1"));
    assert!(load.loading_optional());
    assert_eq!(load.failed("a"), None);
    assert_eq!(load.next_library(), Some("libatomic.so"));
    assert_eq!(load.failed("b"), None);
    assert_eq!(load.next_library(), Some("libsys.so"));
    assert!(!load.loading_optional());
    load.loaded();
    assert_eq!(load.next_library(), Some("libvi.so"));
    assert_eq!(load.failed("vi missing"), Some("vi missing"));
    assert_eq!(load.next_library(), None);
    assert!(!load.is_complete());

    let mut ok = LibraryLoad::new();
    let mut names = Vec::new();
    while let Some(n) = ok.next_library() {
        names.push(n);
        ok.loaded();
    }
    assert_eq!(names, ["libatomic.so.1", "libsys.so", "libvi.so", "libvpss.so", "libvenc.so", "libcviruntime.so"]);
    assert!(ok.is_complete());
}
