//! Data types shared by the backends: addresses, identities, symbol and
//! frame records, and the error kinds of the resolution pipeline.

use vstd::prelude::*;

verus! {

/// An address a caller wants symbol information for.
///
/// Backends support only a subset of the kinds; an unsupported kind yields
/// "no result" from a lookup, never an error.
#[derive(Clone, Copy, Debug)]
pub enum LookupAddress {
    /// Offset relative to the module's load base.
    Relative(u32),
    /// Stated virtual memory address inside the image.
    Svma(u64),
    /// Offset into the file on disk.
    FileOffset(u64),
}

/// The identity token that binds a binary to exactly one companion debug
/// file: a 16-byte GUID in its normalized byte order, plus a generation
/// counter ("age" / appendix). Two files whose identities differ must never
/// be treated as a matching pair.
#[derive(Clone, Copy, Debug)]
pub struct DebugIdentity {
    pub guid: [u8; 16],
    pub appendix: u32,
}

/// Mathematical content of a `DebugIdentity`.
pub struct DebugIdentityView {
    pub guid: Seq<u8>,
    pub appendix: u32,
}

impl View for DebugIdentity {
    type V = DebugIdentityView;

    open spec fn view(&self) -> DebugIdentityView {
        DebugIdentityView { guid: self.guid@, appendix: self.appendix }
    }
}

impl DebugIdentity {
    /// Whether two identities are the same token.
    pub fn matches(&self, other: &DebugIdentity) -> (r: bool)
        ensures
            r == (self@.guid =~= other@.guid && self@.appendix == other@.appendix),
    {
        if self.appendix != other.appendix {
            return false;
        }
        let mut i: usize = 0;
        while i < 16
            invariant
                i <= 16,
                self.appendix == other.appendix,
                forall|j: int| 0 <= j < i ==> self.guid@[j] == other.guid@[j],
            decreases 16 - i,
        {
            if self.guid[i] != other.guid[i] {
                return false;
            }
            i = i + 1;
        }
        true
    }
}

/// Errors of symbol-map construction. All are terminal for the operation
/// that raised them; query-time "no result" outcomes are not errors.
#[derive(Debug)]
pub enum Error {
    /// The binary could not be parsed as its expected container format.
    ObjectParseError,
    /// The binary has no embedded reference to an external debug file.
    NoDebugInfoInPeBinary,
    /// The recorded companion-file path is not valid UTF-8 text.
    PdbPathNotUtf8,
    /// The external location resolver declined to produce a location for
    /// the companion file path.
    FileLocationRefusedPdbLocation,
    /// The external byte loader failed to open the named file.
    HelperErrorDuringOpenFile(String),
    /// A companion debug file was loaded but its identity does not match the
    /// binary's. Carries the binary's identity, then the debug file's.
    UnmatchedDebugId(DebugIdentity, DebugIdentity),
    /// The debug file could not be parsed as a PDB, or its identity header
    /// could not be read.
    PdbParseError,
    /// Reading the source-index stream failed for a reason other than the
    /// stream being absent.
    PdbStreamReadError,
    /// The source-index stream is present but malformed.
    SrcSrvParseError,
    /// The address-to-function query context could not be built.
    ContextConstructionError,
}

/// One resolved symbol: a relative start address, the function's size when
/// the backend can bound it, and a name.
#[derive(Debug)]
pub struct SymbolInfo {
    pub address: u32,
    pub size: Option<u32>,
    pub name: String,
}

/// A raw compile-time source path together with the permalink the path
/// mapper produced for it, if any. The raw path is always present.
#[derive(Debug)]
pub struct SourceFilePath {
    pub raw_path: String,
    pub mapped_path: Option<crate::mapped_path::MappedPath>,
}

/// Debug info for one frame of an inline stack, innermost last.
#[derive(Debug)]
pub struct FrameDebugInfo {
    pub function: Option<String>,
    pub file_path: Option<SourceFilePath>,
    pub line_number: Option<u32>,
}

/// How the per-frame debug info of a lookup was obtained. Further
/// acquisition paths (debug info held in yet another external file) are
/// outside this crate's scope.
#[derive(Debug)]
pub enum FramesLookupResult {
    Available(Vec<FrameDebugInfo>),
}

/// The full result of a successful address lookup.
#[derive(Debug)]
pub struct SyncAddressInfo {
    pub symbol: SymbolInfo,
    pub frames: Option<FramesLookupResult>,
}

/// Checks that the half-open range `[start, start + size)` fits inside a
/// buffer of length `total_len`, converting the bounds to `usize`.
/// Returns the converted `(start, size)` pair exactly when it fits.
pub fn validate_subrange(total_len: usize, start: u64, size: u64) -> (r: Option<(usize, usize)>)
    ensures
        match r {
            Some((s, z)) => s == start && z == size && start + size <= total_len,
            None => start + size > total_len,
        },
{
    if start > usize::MAX as u64 || size > usize::MAX as u64 {
        return None;
    }
    let s = start as usize;
    let z = size as usize;
    match s.checked_add(z) {
        Some(end) if end <= total_len => Some((s, z)),
        _ => None,
    }
}

} // verus!
