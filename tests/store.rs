use leptos_build::site::{module_files, snippet_files, to_decimal, SiteFile};
use leptos_build::store::OutputStore;

#[test]
fn round_trip_same_then_different_bytes() {
    let mut store = OutputStore::new();
    let p = "pkg/style.css".to_string();
    assert_eq!(store.stored_hash(&p), None);
    assert!(store.updated_with(&p, b"a{}"));
    assert!(!store.updated_with(&p, b"a{}"));
    assert!(store.updated_with(&p, b"b{}"));
    assert_eq!(store.stored_hash(&p), Some(seahash::hash(b"b{}")));
    assert!(!store.updated_with(&p, b"b{}"));
}

#[test]
fn record_hash_directly() {
    let mut store = OutputStore::new();
    let p = "x".to_string();
    assert!(store.record(&p, 7));
    assert!(!store.record(&p, 7));
    assert!(store.record(&p, 8));
    assert_eq!(store.stored_hash(&p), Some(8));
}

#[test]
fn second_identical_cycle_writes_nothing() {
    let files = vec![
        SiteFile { site: "snippets/a/inline0.js".into(), dest: "t/snippets/a/inline0.js".into(), contents: "1".into() },
        SiteFile { site: "snippets/m.js".into(), dest: "t/snippets/m.js".into(), contents: "2".into() },
    ];
    let mut store = OutputStore::new();
    let (flags, any) = store.updated_all(&files);
    assert_eq!(flags, vec![true, true]);
    assert!(any);
    let (flags, any) = store.updated_all(&files);
    assert_eq!(flags, vec![false, false]);
    assert!(!any);
}

#[test]
fn snippet_paths() {
    let snippets = vec![
        ("abc".to_string(), vec!["x()".to_string(), "y()".to_string()]),
        ("d".to_string(), vec!["z()".to_string()]),
    ];
    let files = snippet_files(&"target/site/pkg".to_string(), &snippets);
    let sites: Vec<&str> = files.iter().map(|f| f.site.as_str()).collect();
    assert_eq!(sites, vec!["snippets/abc/inline0.js", "snippets/abc/inline1.js", "snippets/d/inline0.js"]);
    assert_eq!(files[1].dest, "target/site/pkg/snippets/abc/inline1.js");
    assert_eq!(files[2].contents, "z()");
}

#[test]
fn module_paths() {
    let modules = vec![("inline/mod.js".to_string(), "export {}".to_string())];
    let files = module_files(&"pkg".to_string(), &modules);
    assert_eq!(files.len(), 1);
    assert_eq!(files[0].site, "snippets/inline/mod.js");
    assert_eq!(files[0].dest, "pkg/snippets/inline/mod.js");
    assert_eq!(files[0].contents, "export {}");
}

#[test]
fn decimal_numbers() {
    assert_eq!(to_decimal(0), "0");
    assert_eq!(to_decimal(7), "7");
    assert_eq!(to_decimal(10), "10");
    assert_eq!(to_decimal(1203), "1203");
    assert_eq!(to_decimal(usize::MAX), usize::MAX.to_string());
}
