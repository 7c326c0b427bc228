use samply_symbols::pe::{compute_function_addresses_pe, pe_debug_file_reference};
use samply_symbols::shared::{DebugIdentity, Error};

fn push_u16(v: &mut Vec<u8>, x: u16) {
    v.extend_from_slice(&x.to_le_bytes());
}

fn push_u32(v: &mut Vec<u8>, x: u32) {
    v.extend_from_slice(&x.to_le_bytes());
}

fn push_u64(v: &mut Vec<u8>, x: u64) {
    v.extend_from_slice(&x.to_le_bytes());
}

/// Build a minimal 64-bit PE image with two sections: `.rdata` holding
/// the debug directory (when a CodeView record is given) and `.pdata`
/// holding the given unwind table bytes.
fn build_pe64(codeview: Option<(&[u8; 16], u32, &[u8])>, pdata: &[u8]) -> Vec<u8> {
    assert!(pdata.len() <= 0x200);
    let mut v = Vec::new();

    // DOS header: magic, then the offset of the PE signature at 0x3c.
    v.extend_from_slice(b"MZ");
    v.resize(0x3c, 0);
    push_u32(&mut v, 64);

    // PE signature and COFF file header.
    v.extend_from_slice(b"PE\0\0");
    push_u16(&mut v, 0x8664); // machine: x86-64
    push_u16(&mut v, 2); // number of sections
    push_u32(&mut v, 0); // timestamp
    push_u32(&mut v, 0); // symbol table offset
    push_u32(&mut v, 0); // symbol count
    push_u16(&mut v, 112 + 16 * 8); // size of optional header
    push_u16(&mut v, 0x0022); // characteristics

    // Optional header, PE32+.
    push_u16(&mut v, 0x020b); // magic
    v.push(0); // linker major
    v.push(0); // linker minor
    push_u32(&mut v, 0); // size of code
    push_u32(&mut v, 0x400); // size of initialized data
    push_u32(&mut v, 0); // size of uninitialized data
    push_u32(&mut v, 0); // entry point
    push_u32(&mut v, 0); // base of code
    push_u64(&mut v, 0x1_4000_0000); // image base
    push_u32(&mut v, 0x1000); // section alignment
    push_u32(&mut v, 0x200); // file alignment
    push_u32(&mut v, 0); // os version
    push_u32(&mut v, 0); // image version
    push_u16(&mut v, 6); // subsystem version major
    push_u16(&mut v, 0); // subsystem version minor
    push_u32(&mut v, 0); // win32 version
    push_u32(&mut v, 0x3000); // size of image
    push_u32(&mut v, 0x400); // size of headers
    push_u32(&mut v, 0); // checksum
    push_u16(&mut v, 3); // subsystem: console
    push_u16(&mut v, 0); // dll characteristics
    push_u64(&mut v, 0x100000); // stack reserve
    push_u64(&mut v, 0x1000); // stack commit
    push_u64(&mut v, 0x100000); // heap reserve
    push_u64(&mut v, 0x1000); // heap commit
    push_u32(&mut v, 0); // loader flags
    push_u32(&mut v, 16); // number of data directories

    // Data directories; only the debug directory (index 6) may be set.
    for i in 0..16 {
        if i == 6 && codeview.is_some() {
            push_u32(&mut v, 0x1000);
            push_u32(&mut v, 28);
        } else {
            push_u32(&mut v, 0);
            push_u32(&mut v, 0);
        }
    }

    // Section headers.
    v.extend_from_slice(b".rdata\0\0");
    push_u32(&mut v, 0x200); // virtual size
    push_u32(&mut v, 0x1000); // virtual address
    push_u32(&mut v, 0x200); // size of raw data
    push_u32(&mut v, 0x400); // pointer to raw data
    push_u32(&mut v, 0);
    push_u32(&mut v, 0);
    push_u16(&mut v, 0);
    push_u16(&mut v, 0);
    push_u32(&mut v, 0x4000_0040); // initialized data, readable

    v.extend_from_slice(b".pdata\0\0");
    push_u32(&mut v, pdata.len() as u32); // virtual size
    push_u32(&mut v, 0x2000); // virtual address
    push_u32(&mut v, 0x200); // size of raw data
    push_u32(&mut v, 0x600); // pointer to raw data
    push_u32(&mut v, 0);
    push_u32(&mut v, 0);
    push_u16(&mut v, 0);
    push_u16(&mut v, 0);
    push_u32(&mut v, 0x4000_0040);

    // .rdata contents: debug directory entry plus the CodeView record.
    v.resize(0x400, 0);
    if let Some((guid, age, path)) = codeview {
        let blob_len = 4 + 16 + 4 + path.len() as u32;
        push_u32(&mut v, 0); // characteristics
        push_u32(&mut v, 0); // timestamp
        push_u16(&mut v, 0); // major version
        push_u16(&mut v, 0); // minor version
        push_u32(&mut v, 2); // type: CodeView
        push_u32(&mut v, blob_len);
        push_u32(&mut v, 0x1000 + 28); // address of raw data (rva)
        push_u32(&mut v, 0x400 + 28); // pointer to raw data (file offset)
        v.extend_from_slice(b"RSDS");
        v.extend_from_slice(guid);
        push_u32(&mut v, age);
        v.extend_from_slice(path);
    }

    // .pdata contents.
    v.resize(0x600, 0);
    v.extend_from_slice(pdata);
    v.resize(0x800, 0);
    v
}

fn unwind_record(begin: u32, end: u32, unwind_info: u32) -> Vec<u8> {
    let mut v = Vec::new();
    push_u32(&mut v, begin);
    push_u32(&mut v, end);
    push_u32(&mut v, unwind_info);
    v
}

#[test]
fn pe_without_debug_directory_has_no_debug_info() {
    let image = build_pe64(None, &[]);
    assert!(matches!(
        pe_debug_file_reference(&image),
        Err(Error::NoDebugInfoInPeBinary)
    ));
}

#[test]
fn pe_debug_reference_carries_path_and_normalized_identity() {
    let guid: [u8; 16] = [
        0x11, 0x22, 0x33, 0x44, 0x55, 0x66, 0x77, 0x88, 0x99, 0xaa, 0xbb, 0xcc, 0xdd, 0xee,
        0xff, 0x00,
    ];
    let image = build_pe64(Some((&guid, 7, b"test.pdb\0")), &[]);
    let reference = pe_debug_file_reference(&image).unwrap();
    assert_eq!(reference.path, "test.pdb".to_string());
    // The identity's GUID carries the first three fields byte-swapped
    // into big-endian order, as debug identifiers are normalized.
    let expected = DebugIdentity {
        guid: [
            0x44, 0x33, 0x22, 0x11, 0x66, 0x55, 0x88, 0x77, 0x99, 0xaa, 0xbb, 0xcc, 0xdd, 0xee,
            0xff, 0x00,
        ],
        appendix: 7,
    };
    assert!(reference.identity.matches(&expected));
}

#[test]
fn pe_debug_reference_with_invalid_path_encoding_fails() {
    let guid: [u8; 16] = [0; 16];
    let image = build_pe64(Some((&guid, 1, b"\xff\xfe bad \xff\0")), &[]);
    assert!(matches!(pe_debug_file_reference(&image), Err(Error::PdbPathNotUtf8)));
}

#[test]
fn pe_function_boundaries_come_from_the_unwind_table() {
    // Two records that resolve to the same canonical start (their unwind
    // info addresses dereference to nothing, so each record's own begin
    // is canonical), then one distinct record.
    let mut table = unwind_record(0x1000, 0x1010, 0x3000);
    table.extend(unwind_record(0x1000, 0x1030, 0x3008));
    table.extend(unwind_record(0x2000, 0x2010, 0x3010));
    let image = build_pe64(None, &table);
    let (starts, ends) = compute_function_addresses_pe(&image);
    assert_eq!(starts.unwrap(), vec![0x1000, 0x2000]);
    assert_eq!(ends.unwrap(), vec![0x1030, 0x2010]);
}

#[test]
fn pe_misaligned_unwind_table_is_rejected() {
    let mut table = unwind_record(0x1000, 0x1010, 0x3000);
    table.push(0);
    let image = build_pe64(None, &table);
    let (starts, ends) = compute_function_addresses_pe(&image);
    assert!(starts.is_none() && ends.is_none());
}
