use samply_symbols::mapped_path::MappedPath;
use samply_symbols::path_mapper::{PathMapper, SrcSrvPathMapper};

const EXTRACT_CMD: &str = r#"cmd /c "mkdir "%SRC_EXTRACT_TARGET_DIR%" & python3 -c "import urllib.request, base64;url = \"%var4%\";u = urllib.request.urlopen(url);open(r\"%SRC_EXTRACT_TARGET%\", \"wb\").write(%var5%(u.read()))""#;

const GITILES_URL: &str = "https://pdfium.googlesource.com/pdfium.git/+/dab1161c861cc239e48a17e1a5d729aa12785a53/core/fdrm/fx_crypt.cpp?format=TEXT";

/// A source-index stream using the known gitiles extraction workaround.
fn gitiles_stream() -> Vec<u8> {
    let mut s = String::new();
    s.push_str("SRCSRV: ini ------------------------------------------------\n");
    s.push_str("VERSION=2\n");
    s.push_str("SRCSRV: variables ------------------------------------------\n");
    s.push_str("SRCSRVTRG=%SRC_EXTRACT_TARGET%\n");
    s.push_str("SRCSRVCMD=%SRC_EXTRACT_CMD%\n");
    s.push_str("SRC_EXTRACT_TARGET_DIR=%targ%\\%fnbksl%(%var2%)\\%var3%\n");
    s.push_str("SRC_EXTRACT_TARGET=%SRC_EXTRACT_TARGET_DIR%\\%fnfile%(%var1%)\n");
    s.push_str(&format!("SRC_EXTRACT_CMD={EXTRACT_CMD}\n"));
    s.push_str("SRCSRV: source files ---------------------------------------\n");
    s.push_str(&format!(
        "c:\\build\\core\\fdrm\\fx_crypt.cpp*core/fdrm/fx_crypt.cpp*dab1161c861cc239e48a17e1a5d729aa12785a53*{GITILES_URL}*base64.b64decode\n"
    ));
    s.push_str("SRCSRV: end ------------------------------------------------\n");
    s.into_bytes()
}

/// A source-index stream using plain download URLs.
fn download_stream() -> Vec<u8> {
    let mut s = String::new();
    s.push_str("SRCSRV: ini ------------------------------------------------\n");
    s.push_str("VERSION=2\n");
    s.push_str("SRCSRV: variables ------------------------------------------\n");
    s.push_str("SRCSRVTRG=https://example.com/raw/%var2%\n");
    s.push_str("SRCSRV: source files ---------------------------------------\n");
    s.push_str("c:\\src\\lib\\thing.cpp*v1.2/lib/thing.cpp\n");
    s.push_str("SRCSRV: end ------------------------------------------------\n");
    s.into_bytes()
}

#[test]
fn gitiles_workaround_maps_to_git_permalink() {
    let mut mapper = SrcSrvPathMapper::new(gitiles_stream());
    let mapped = mapper.map_path("c:\\build\\core\\fdrm\\fx_crypt.cpp");
    assert_eq!(
        mapped,
        Some(MappedPath::Git {
            repo: "pdfium.googlesource.com/pdfium".into(),
            rev: "dab1161c861cc239e48a17e1a5d729aa12785a53".into(),
            path: "core/fdrm/fx_crypt.cpp".into(),
        })
    );
}

#[test]
fn download_url_maps_to_url_permalink() {
    let mut mapper = SrcSrvPathMapper::new(download_stream());
    let mapped = mapper.map_path("c:\\src\\lib\\thing.cpp");
    assert_eq!(mapped, Some(MappedPath::Url("https://example.com/raw/v1.2/lib/thing.cpp".into())));
    assert_eq!(
        mapped.unwrap().to_special_path(),
        "https://example.com/raw/v1.2/lib/thing.cpp".to_string()
    );
}

#[test]
fn mapping_twice_returns_the_same_result() {
    let mut mapper = SrcSrvPathMapper::new(gitiles_stream());
    let first = mapper.map_path("c:\\build\\core\\fdrm\\fx_crypt.cpp");
    let second = mapper.map_path("c:\\build\\core\\fdrm\\fx_crypt.cpp");
    assert_eq!(first, second);
    assert!(first.is_some());

    let miss_first = mapper.map_path("c:\\not\\indexed.cpp");
    let miss_second = mapper.map_path("c:\\not\\indexed.cpp");
    assert_eq!(miss_first, None);
    assert_eq!(miss_second, None);
}

#[test]
fn unknown_path_maps_to_none() {
    let mut mapper = SrcSrvPathMapper::new(gitiles_stream());
    assert_eq!(mapper.map_path("c:\\elsewhere\\other.cpp"), None);
}

#[test]
fn workaround_requires_base64_decode_variable() {
    // Same stream shape, but variable 5 names another decode function:
    // the command is not reinterpreted, and the path maps to nothing.
    let stream = String::from_utf8(gitiles_stream())
        .unwrap()
        .replace("*base64.b64decode", "*zlib.decompress");
    let mut mapper = SrcSrvPathMapper::new(stream.into_bytes());
    assert_eq!(mapper.map_path("c:\\build\\core\\fdrm\\fx_crypt.cpp"), None);
}

#[test]
fn older_python_command_variant_is_not_reinterpreted() {
    // The historical python 2 form of the extraction command is not one
    // of the recognized texts: nothing maps.
    let stream = String::from_utf8(gitiles_stream()).unwrap().replace(
        "python3 -c \"import urllib.request, base64;url = \\\"%var4%\\\";u = urllib.request.urlopen(url);",
        "python -c \"import urllib2, base64;url = \\\"%var4%\\\";u = urllib2.urlopen(url);",
    );
    let mut mapper = SrcSrvPathMapper::new(stream.into_bytes());
    assert_eq!(mapper.map_path("c:\\build\\core\\fdrm\\fx_crypt.cpp"), None);
}

#[test]
fn value_ending_at_function_paren_degrades_to_none() {
    // A variables-section value that stops right at a substitution
    // function's opening parenthesis; the stream parser cannot handle
    // that shape, so the mapper must reject the stream up front and map
    // nothing, in whatever letter case the function name is written.
    for fragment in ["%fnbksl%(", "%FnVaR%(", "%FNFILE%("] {
        let stream = String::from_utf8(gitiles_stream()).unwrap().replace(
            "SRC_EXTRACT_TARGET_DIR=%targ%\\%fnbksl%(%var2%)\\%var3%",
            &format!("SRC_EXTRACT_TARGET_DIR=%targ%\\{fragment}"),
        );
        let mut mapper = SrcSrvPathMapper::new(stream.into_bytes());
        assert_eq!(mapper.map_path("c:\\build\\core\\fdrm\\fx_crypt.cpp"), None);
    }
}

#[test]
fn unparseable_stream_maps_everything_to_none() {
    let mut mapper = SrcSrvPathMapper::new(b"not a srcsrv stream".to_vec());
    assert_eq!(mapper.map_path("c:\\build\\core\\fdrm\\fx_crypt.cpp"), None);
}

#[test]
fn path_mapper_without_stream_maps_to_none() {
    let mut mapper = PathMapper::new_with_maybe_extra_mapper(None);
    assert_eq!(mapper.map_path("c:\\build\\core\\fdrm\\fx_crypt.cpp"), None);
}

#[test]
fn special_path_forms() {
    let git = MappedPath::Git { repo: "r/a".into(), path: "p/b.c".into(), rev: "deadbeef".into() };
    assert_eq!(git.to_special_path(), "git:r/a:p/b.c:deadbeef".to_string());
    let hg = MappedPath::Mercurial {
        repo: "hg.example.org/repo".into(),
        path: "dir/file.h".into(),
        rev: "0a1b2c".into(),
    };
    assert_eq!(hg.to_special_path(), "hg:hg.example.org/repo:dir/file.h:0a1b2c".to_string());
    let s3 = MappedPath::S3 { bucket: "bkt".into(), digest_and_path: "d123/x.rs".into() };
    assert_eq!(s3.to_special_path(), "s3:bkt:d123/x.rs:".to_string());
    let url = MappedPath::Url("https://example.com/f.c".into());
    assert_eq!(url.to_special_path(), "https://example.com/f.c".to_string());
}
