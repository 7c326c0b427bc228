use samply_symbols::path_mapper::PathMapper;
use samply_symbols::pdb_backend::{
    address_info_from_frames, has_debug_info, hex_string, is_pdb_file, FrameData, FunctionFrames,
};
use samply_symbols::pe::{compute_function_addresses_pe, pe_debug_file_reference};
use samply_symbols::shared::{validate_subrange, DebugIdentity, Error, FramesLookupResult};
use samply_symbols::symbol_map::{
    get_symbol_map_for_pdb, load_symbol_map_for_pdb_corresponding_to_binary,
};

fn frame(function: Option<&str>, file: Option<&str>, line: Option<u32>) -> FrameData {
    FrameData {
        function: function.map(str::to_string),
        file: file.map(str::to_string),
        line,
    }
}

#[test]
fn bare_single_frame_counts_as_no_debug_info() {
    let ff = FunctionFrames {
        start_rva: 0x100,
        end_rva: Some(0x140),
        frames: vec![frame(Some("main"), None, None)],
    };
    assert!(!has_debug_info(&ff));

    let with_line = FunctionFrames {
        start_rva: 0x100,
        end_rva: Some(0x140),
        frames: vec![frame(Some("main"), None, Some(17))],
    };
    assert!(has_debug_info(&with_line));

    let with_file = FunctionFrames {
        start_rva: 0x100,
        end_rva: None,
        frames: vec![frame(None, Some("a.c"), None)],
    };
    assert!(has_debug_info(&with_file));

    let inlined = FunctionFrames {
        start_rva: 0x100,
        end_rva: None,
        frames: vec![frame(None, None, None), frame(None, None, None)],
    };
    assert!(has_debug_info(&inlined));

    let empty = FunctionFrames { start_rva: 0x100, end_rva: None, frames: vec![] };
    assert!(!has_debug_info(&empty));
}

#[test]
fn single_frame_without_file_or_line_omits_frames_but_keeps_symbol() {
    let ff = FunctionFrames {
        start_rva: 0x2000,
        end_rva: Some(0x2040),
        frames: vec![frame(Some("my_function"), None, None)],
    };
    let mut pm = PathMapper::new_with_maybe_extra_mapper(None);
    let info = address_info_from_frames(&ff, &mut pm);
    assert!(info.frames.is_none());
    assert_eq!(info.symbol.address, 0x2000);
    assert_eq!(info.symbol.size, Some(0x40));
    assert_eq!(info.symbol.name, "my_function".to_string());
}

#[test]
fn single_frame_with_line_reports_debug_info() {
    let ff = FunctionFrames {
        start_rva: 0x2000,
        end_rva: Some(0x2040),
        frames: vec![frame(Some("my_function"), Some("c:\\src\\a.cpp"), Some(42))],
    };
    let mut pm = PathMapper::new_with_maybe_extra_mapper(None);
    let info = address_info_from_frames(&ff, &mut pm);
    let Some(FramesLookupResult::Available(frames)) = info.frames else {
        panic!("frames must be reported");
    };
    assert_eq!(frames.len(), 1);
    assert_eq!(frames[0].function, Some("my_function".to_string()));
    assert_eq!(frames[0].line_number, Some(42));
    let fp = frames[0].file_path.as_ref().unwrap();
    assert_eq!(fp.raw_path, "c:\\src\\a.cpp".to_string());
    assert!(fp.mapped_path.is_none());
}

#[test]
fn missing_innermost_name_reports_unknown() {
    let ff = FunctionFrames {
        start_rva: 0x10,
        end_rva: None,
        frames: vec![frame(None, None, Some(3))],
    };
    let mut pm = PathMapper::new_with_maybe_extra_mapper(None);
    let info = address_info_from_frames(&ff, &mut pm);
    assert_eq!(info.symbol.name, "unknown".to_string());
    assert_eq!(info.symbol.size, None);
}

#[test]
fn msvc_decorated_name_is_demangled() {
    let ff = FunctionFrames {
        start_rva: 0x10,
        end_rva: None,
        frames: vec![frame(Some("?square@@YAHH@Z"), None, None)],
    };
    let mut pm = PathMapper::new_with_maybe_extra_mapper(None);
    let info = address_info_from_frames(&ff, &mut pm);
    assert_ne!(info.symbol.name, "?square@@YAHH@Z".to_string());
    assert!(info.symbol.name.contains("square"));
}

#[test]
fn end_below_start_leaves_size_unbounded() {
    let ff = FunctionFrames {
        start_rva: 0x100,
        end_rva: Some(0x80),
        frames: vec![frame(Some("f"), None, None)],
    };
    let mut pm = PathMapper::new_with_maybe_extra_mapper(None);
    let info = address_info_from_frames(&ff, &mut pm);
    assert_eq!(info.symbol.size, None);
}

#[test]
fn hex_formatting() {
    assert_eq!(hex_string(0), "0".to_string());
    assert_eq!(hex_string(0xf), "f".to_string());
    assert_eq!(hex_string(0x10), "10".to_string());
    assert_eq!(hex_string(0xdead_beef), "deadbeef".to_string());
    assert_eq!(hex_string(u32::MAX), "ffffffff".to_string());
}

#[test]
fn subrange_validation() {
    assert_eq!(validate_subrange(100, 10, 20), Some((10, 20)));
    assert_eq!(validate_subrange(100, 80, 20), Some((80, 20)));
    assert_eq!(validate_subrange(100, 81, 20), None);
    assert_eq!(validate_subrange(100, u64::MAX, 2), None);
    assert_eq!(validate_subrange(0, 0, 0), Some((0, 0)));
}

#[test]
fn identity_matching() {
    let a = DebugIdentity { guid: [1; 16], appendix: 2 };
    let same = DebugIdentity { guid: [1; 16], appendix: 2 };
    let other_age = DebugIdentity { guid: [1; 16], appendix: 3 };
    let mut other_guid = DebugIdentity { guid: [1; 16], appendix: 2 };
    other_guid.guid[7] = 9;
    assert!(a.matches(&same));
    assert!(!a.matches(&other_age));
    assert!(!a.matches(&other_guid));
}

#[test]
fn malformed_containers_are_rejected() {
    assert!(!is_pdb_file(&b"not a pdb".to_vec()));
    assert!(matches!(get_symbol_map_for_pdb(b"not a pdb".to_vec()), Err(Error::PdbParseError)));

    let binary_id = DebugIdentity { guid: [5; 16], appendix: 1 };
    assert!(matches!(
        load_symbol_map_for_pdb_corresponding_to_binary(&binary_id, b"junk".to_vec()),
        Err(Error::PdbParseError)
    ));

    assert!(matches!(
        pe_debug_file_reference(&b"MZ but not a pe".to_vec()),
        Err(Error::ObjectParseError)
    ));

    let (starts, ends) = compute_function_addresses_pe(&vec![0u8; 32]);
    assert!(starts.is_none() && ends.is_none());
}
