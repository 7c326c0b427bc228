//! The PE binary backend: parse the executable image, extract the
//! embedded reference to its companion debug file, and derive function
//! boundaries from the image's unwind metadata.

use crate::shared::{DebugIdentity, DebugIdentityView, Error};
use crate::unwind;
use vstd::prelude::*;
use vstd::utf8::{encode_utf8, valid_utf8};

verus! {

/// What the image's debug directory yields: an unparseable image, an
/// image without a companion reference, or the recorded path bytes plus
/// the binary's identity.
#[derive(Debug)]
pub enum PeDebugRef {
    NoParse,
    NoDebugInfo,
    Reference { path: Vec<u8>, identity: DebugIdentity },
}

/// Mathematical content of a `PeDebugRef`.
pub enum PeDebugRefView {
    NoParse,
    NoDebugInfo,
    Reference { path: Seq<u8>, identity: DebugIdentityView },
}

impl View for PeDebugRef {
    type V = PeDebugRefView;

    open spec fn view(&self) -> PeDebugRefView {
        match self {
            PeDebugRef::NoParse => PeDebugRefView::NoParse,
            PeDebugRef::NoDebugInfo => PeDebugRefView::NoDebugInfo,
            PeDebugRef::Reference { path, identity } => PeDebugRefView::Reference {
                path: path@,
                identity: identity@,
            },
        }
    }
}

/// The companion debug-file reference embedded in a PE image. A function
/// of the image bytes alone.
pub uninterp spec fn pe_debug_ref_of(image: Seq<u8>) -> PeDebugRefView;

/// Relies on object's `File::parse` and `Object::pdb_info`, and on
/// debugid's `DebugId::from_guid_age` for the normalized GUID byte order:
/// the CodeView companion-file path and the binary's identity. A missing
/// or unreadable debug directory entry is `NoDebugInfo`.
#[verifier::external_body]
fn pe_read_debug_ref(image: &[u8]) -> (r: PeDebugRef)
    ensures
        r@ == pe_debug_ref_of(image@),
{
    let file = match object::File::parse(image) { Ok(f) => f, Err(_) => return PeDebugRef::NoParse };
    let info = match object::Object::pdb_info(&file) { Ok(Some(ci)) => ci, _ => return PeDebugRef::NoDebugInfo };
    let guid_age = debugid::DebugId::from_guid_age(&info.guid(), info.age());
    let id = match guid_age { Ok(i) => i, Err(_) => return PeDebugRef::NoDebugInfo };
    PeDebugRef::Reference {
        path: info.path().to_vec(),
        identity: DebugIdentity { guid: *id.uuid().as_bytes(), appendix: id.appendix() },
    }
}

/// Relies on std's `str::from_utf8`: `Some` exactly on valid UTF-8 input,
/// with the decoded characters re-encoding to the input bytes.
#[verifier::external_body]
fn decode_utf8(b: &[u8]) -> (r: Option<String>)
    ensures
        match r {
            Some(s) => valid_utf8(b@) && encode_utf8(s@) == b@,
            None => !valid_utf8(b@),
        },
{
    match std::str::from_utf8(b) {
        Ok(s) => Some(s.to_string()),
        Err(_) => None,
    }
}

/// The companion debug-file reference of a binary: the recorded path as
/// text, and the binary's identity token.
#[derive(Debug)]
pub struct PeDebugReference {
    pub path: String,
    pub identity: DebugIdentity,
}

/// Extract the companion debug-file reference from a PE image.
///
/// Fails with `ObjectParseError` when the image does not parse as its
/// container format, with `NoDebugInfoInPeBinary` when it embeds no
/// reference to external debug info, and with `PdbPathNotUtf8` when the
/// recorded path is not valid text.
pub fn pe_debug_file_reference(image: &Vec<u8>) -> (r: Result<PeDebugReference, Error>)
    ensures
        match pe_debug_ref_of(image@) {
            PeDebugRefView::NoParse => r matches Err(Error::ObjectParseError),
            PeDebugRefView::NoDebugInfo => r matches Err(Error::NoDebugInfoInPeBinary),
            PeDebugRefView::Reference { path, identity } => if valid_utf8(path) {
                r matches Ok(pr) && encode_utf8(pr.path@) == path && pr.identity@ == identity
            } else {
                r matches Err(Error::PdbPathNotUtf8)
            },
        },
{
    match pe_read_debug_ref(image.as_slice()) {
        PeDebugRef::NoParse => Err(Error::ObjectParseError),
        PeDebugRef::NoDebugInfo => Err(Error::NoDebugInfoInPeBinary),
        PeDebugRef::Reference { path, identity } => match decode_utf8(path.as_slice()) {
            Some(s) => Ok(PeDebugReference { path: s, identity }),
            None => Err(Error::PdbPathNotUtf8),
        },
    }
}

/// The contents of the unwind-metadata (`.pdata`) section, present only
/// for a 64-bit PE image that has one. A function of the image bytes
/// alone.
pub uninterp spec fn pe_pdata_of(image: Seq<u8>) -> Option<Seq<u8>>;

/// Relies on object's `File::parse`, `section_by_name_bytes` and
/// `ObjectSection::data`: the raw bytes of the `.pdata` section of a
/// 64-bit PE image.
#[verifier::external_body]
fn pe_read_pdata(image: &[u8]) -> (r: Option<Vec<u8>>)
    ensures
        match r {
            Some(v) => pe_pdata_of(image@) == Some(v@),
            None => pe_pdata_of(image@) is None,
        },
{
    let file = object::File::parse(image).ok()?;
    if !matches!(file, object::File::Pe64(_)) {
        return None;
    }
    let section = object::Object::section_by_name_bytes(&file, b".pdata")?;
    match object::ObjectSection::data(&section) { Ok(d) => Some(d.to_vec()), Err(_) => None }
}

/// Function start and end addresses for a PE image, derived from its
/// unwind metadata via the boundary extractor. Both vectors are present
/// exactly when the image has an unwind table that is a whole number of
/// records; they override whatever bounds a generic symbol-table parser
/// would infer. Leaf functions without unwind metadata are absent.
pub fn compute_function_addresses_pe(image: &Vec<u8>) -> (r: (Option<Vec<u32>>, Option<Vec<u32>>))
    ensures
        match pe_pdata_of(image@) {
            Some(table) => if table.len() % 12 == 0 {
                {
                    let merged = unwind::merge_boundaries(
                        unwind::resolved_entries(image@, table),
                    );
                    &&& r.0 matches Some(starts) && starts@.len() == merged.len() && (forall|
                        i: int,
                    |
                        0 <= i < merged.len() ==> starts@[i] == #[trigger] merged[i].0)
                    &&& r.1 matches Some(ends) && ends@.len() == merged.len() && (forall|i: int|
                        0 <= i < merged.len() ==> ends@[i] == #[trigger] merged[i].1)
                }
            } else {
                r.0 is None && r.1 is None
            },
            None => r.0 is None && r.1 is None,
        },
{
    match pe_read_pdata(image.as_slice()) {
        Some(pdata) => match unwind::function_start_and_end_addresses(image.as_slice(), &pdata) {
            Some((starts, ends)) => (Some(starts), Some(ends)),
            None => (None, None),
        },
        None => (None, None),
    }
}

} // verus!
