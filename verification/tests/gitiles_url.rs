use samply_symbols::gitiles::parse_gitiles_url;
use samply_symbols::mapped_path::MappedPath;

#[test]
fn test_parse_gitiles_url() {
    assert_eq!(
        parse_gitiles_url("https://pdfium.googlesource.com/pdfium.git/+/dab1161c861cc239e48a17e1a5d729aa12785a53/core/fdrm/fx_crypt.cpp?format=TEXT"),
        Some(MappedPath::Git {
            repo: "pdfium.googlesource.com/pdfium".into(),
            rev: "dab1161c861cc239e48a17e1a5d729aa12785a53".into(),
            path: "core/fdrm/fx_crypt.cpp".into(),
        })
    );

    assert_eq!(
        parse_gitiles_url("https://chromium.googlesource.com/chromium/src.git/+/c15858db55ed54c230743eaa9678117f21d5517e/third_party/blink/renderer/core/svg/svg_point.cc?format=TEXT"),
        Some(MappedPath::Git {
            repo: "chromium.googlesource.com/chromium/src".into(),
            rev: "c15858db55ed54c230743eaa9678117f21d5517e".into(),
            path: "third_party/blink/renderer/core/svg/svg_point.cc".into(),
        })
    );

    assert_eq!(
        parse_gitiles_url("https://pdfium.googlesource.com/pdfium.git/+/dab1161c861cc239e48a17e1a5d729aa12785a53/core/fdrm/fx_crypt.cpp?format=TEXTotherstuff"),
        None
    );
}

#[test]
fn round_trip_of_built_url() {
    let repo = "android.googlesource.com/platform/frameworks/base";
    let rev = "0123456789abcdef0123456789abcdef01234567";
    let path = "core/java/android/os/Binder.java";
    let url = format!("https://{repo}.git/+/{rev}/{path}?format=TEXT");
    assert_eq!(
        parse_gitiles_url(&url),
        Some(MappedPath::Git { repo: repo.into(), rev: rev.into(), path: path.into() })
    );
}

#[test]
fn rejects_malformed_urls() {
    // Wrong scheme.
    assert_eq!(
        parse_gitiles_url("http://pdfium.googlesource.com/pdfium.git/+/rev1/a.cpp?format=TEXT"),
        None
    );
    // No repository marker.
    assert_eq!(parse_gitiles_url("https://example.com/a.cpp?format=TEXT"), None);
    // Empty repository.
    assert_eq!(parse_gitiles_url("https://.git/+/rev1/a.cpp?format=TEXT"), None);
    // No revision separator and no format suffix.
    assert_eq!(parse_gitiles_url("https://x.git/+/rev-only"), None);
    // Empty path.
    assert_eq!(parse_gitiles_url("https://x.git/+/rev1/?format=TEXT"), None);
    // Missing format suffix.
    assert_eq!(parse_gitiles_url("https://x.git/+/rev1/a.cpp"), None);
}
