//! The PDB debug-info backend: owns a parsed debug-info container, builds
//! an address-to-function query context over it, and wires the source path
//! mapper into per-line path resolution.
//!
//! The container is parsed by the outside PDB libraries; everything read
//! from it is either a pure function of the file bytes or a pure function
//! of the query context value, and is named accordingly.

use crate::mapped_path::opt_path_view;
use crate::path_mapper::PathMapper;
use crate::shared::{
    DebugIdentity, DebugIdentityView, FrameDebugInfo, FramesLookupResult, LookupAddress,
    SourceFilePath, SymbolInfo, SyncAddressInfo,
};
use crate::srcsrv_stream::opt_string_view;
use vstd::prelude::*;
use vstd::string::StrSliceExecFns;
use vstd::string::StringExecFns;

verus! {

/// The parsed, owned query data of one PDB file: the outside library's
/// context-data object over a cursor that owns the file bytes. Opaque to
/// verification; what can be read from it is named by [`frames_at`],
/// [`context_functions`] and [`context_function_count`].
#[verifier::external_body]
pub struct PdbQueryData {
    inner: pdb_addr2line::ContextPdbData<'static, 'static, std::io::Cursor<Vec<u8>>>,
}

/// The identity header of the information stream: the GUID in its
/// normalized byte order, with the information-stream age as the
/// generation counter. `None` when the container or that stream cannot
/// be read. A function of the file bytes alone.
pub uninterp spec fn pdb_info_identity_of(bytes: Seq<u8>) -> Option<DebugIdentityView>;

/// Relies on the pdb library's `PDB::open` and `pdb_information`, and on
/// debugid's `DebugId::from_parts` for the normalized byte order of the
/// GUID.
#[verifier::external_body]
fn pdb_read_info_identity(bytes: &[u8]) -> (r: Option<DebugIdentity>)
    ensures
        match r {
            Some(id) => pdb_info_identity_of(bytes@) == Some(id@),
            None => pdb_info_identity_of(bytes@) is None,
        },
{
    let mut pdb = pdb_addr2line::pdb::PDB::open(std::io::Cursor::new(bytes)).ok()?;
    let info = pdb.pdb_information().ok()?;
    let id = debugid::DebugId::from_parts(info.guid, info.age);
    Some(DebugIdentity { guid: *id.uuid().as_bytes(), appendix: id.appendix() })
}

/// What the debug-information stream says about the module's age.
#[derive(Clone, Copy, Debug, PartialEq, Eq, Structural)]
pub enum DbiAge {
    /// The stream records this age.
    Age(u32),
    /// The stream records no age (its header holds zero).
    NoAge,
    /// The container or the stream cannot be read.
    Unreadable,
}

/// The age of the debug-information stream. A function of the file bytes
/// alone.
pub uninterp spec fn pdb_dbi_age_of(bytes: Seq<u8>) -> DbiAge;

/// Relies on the pdb library's `PDB::open`, `debug_information` and
/// `DebugInformation::age` (which yields nothing for a zero header age).
#[verifier::external_body]
fn pdb_read_dbi_age(bytes: &[u8]) -> (r: DbiAge)
    ensures
        r == pdb_dbi_age_of(bytes@),
{
    let opened = pdb_addr2line::pdb::PDB::open(std::io::Cursor::new(bytes));
    let mut pdb = match opened { Ok(p) => p, Err(_) => return DbiAge::Unreadable };
    let dbi = match pdb.debug_information() { Ok(d) => d, Err(_) => return DbiAge::Unreadable };
    match dbi.age() { Some(a) => DbiAge::Age(a), None => DbiAge::NoAge }
}

/// The identity a PDB file records: the information-stream GUID, with
/// the debug-information age preferred and the information-stream age as
/// the fallback. `None` when either header cannot be read.
pub open spec fn pdb_identity_of(bytes: Seq<u8>) -> Option<DebugIdentityView> {
    match pdb_info_identity_of(bytes) {
        None => None,
        Some(base) => match pdb_dbi_age_of(bytes) {
            DbiAge::Unreadable => None,
            DbiAge::NoAge => Some(base),
            DbiAge::Age(a) => Some(DebugIdentityView { guid: base.guid, appendix: a }),
        },
    }
}

/// Read the identity of a PDB file, preferring the debug-information age
/// over the information-stream age.
pub(crate) fn pdb_read_identity(bytes: &[u8]) -> (r: Option<DebugIdentity>)
    ensures
        match r {
            Some(id) => pdb_identity_of(bytes@) == Some(id@),
            None => pdb_identity_of(bytes@) is None,
        },
{
    let base = match pdb_read_info_identity(bytes) {
        Some(b) => b,
        None => {
            return None;
        },
    };
    match pdb_read_dbi_age(bytes) {
        DbiAge::Unreadable => None,
        DbiAge::NoAge => Some(base),
        DbiAge::Age(a) => Some(DebugIdentity { guid: base.guid, appendix: a }),
    }
}

/// Whether the bytes open as a PDB container at all. A function of the
/// bytes alone.
pub uninterp spec fn pdb_opens(bytes: Seq<u8>) -> bool;

/// Relies on the pdb library's `PDB::open`.
#[verifier::external_body]
fn pdb_open_check(bytes: &[u8]) -> (r: bool)
    ensures
        r == pdb_opens(bytes@),
{
    pdb_addr2line::pdb::PDB::open(std::io::Cursor::new(bytes)).is_ok()
}

/// Whether a file is a PDB file.
pub fn is_pdb_file(bytes: &Vec<u8>) -> (r: bool)
    ensures
        r == pdb_opens(bytes@),
{
    pdb_open_check(bytes.as_slice())
}

/// The outcome of reading the named source-index stream of a PDB file.
#[derive(Debug)]
pub enum SrcSrvStreamOutcome {
    /// The stream exists; its bytes.
    Present(Vec<u8>),
    /// The file has no such stream. Not an error.
    Absent,
    /// Reading failed for another reason.
    Failed,
}

/// Mathematical content of a `SrcSrvStreamOutcome`.
pub enum SrcSrvPresence {
    Present(Seq<u8>),
    Absent,
    Failed,
}

impl View for SrcSrvStreamOutcome {
    type V = SrcSrvPresence;

    open spec fn view(&self) -> SrcSrvPresence {
        match self {
            SrcSrvStreamOutcome::Present(b) => SrcSrvPresence::Present(b@),
            SrcSrvStreamOutcome::Absent => SrcSrvPresence::Absent,
            SrcSrvStreamOutcome::Failed => SrcSrvPresence::Failed,
        }
    }
}

/// The source-index ("srcsrv") stream of a PDB file. A function of the
/// file bytes alone.
pub uninterp spec fn pdb_srcsrv_of(bytes: Seq<u8>) -> SrcSrvPresence;

/// Relies on the pdb library's `PDB::named_stream`: a missing stream
/// (name or stream not found) is `Absent`; any other failure, including a
/// container that does not open, is `Failed`.
#[verifier::external_body]
pub(crate) fn pdb_read_srcsrv(bytes: &[u8]) -> (r: SrcSrvStreamOutcome)
    ensures
        r@ == pdb_srcsrv_of(bytes@),
{
    let opened = pdb_addr2line::pdb::PDB::open(std::io::Cursor::new(bytes));
    let mut pdb = match opened { Ok(p) => p, Err(_) => return SrcSrvStreamOutcome::Failed };
    match pdb.named_stream(b"srcsrv") {
        Ok(stream) => SrcSrvStreamOutcome::Present(stream.as_slice().to_vec()),
        Err(
            pdb_addr2line::pdb::Error::StreamNameNotFound
            | pdb_addr2line::pdb::Error::StreamNotFound(_),
        ) => SrcSrvStreamOutcome::Absent,
        Err(_) => SrcSrvStreamOutcome::Failed,
    }
}

/// Whether a query context can be built from the file bytes. A function
/// of the bytes alone.
pub uninterp spec fn pdb_context_ok(bytes: Seq<u8>) -> bool;

/// Relies on the pdb library's `PDB::open` and pdb_addr2line's
/// `ContextPdbData::try_from_pdb`: parses the streams the query context
/// needs and takes ownership of the file bytes.
#[verifier::external_body]
pub(crate) fn pdb_make_query_data(bytes: Vec<u8>) -> (r: Option<PdbQueryData>)
    ensures
        r is Some <==> pdb_context_ok(bytes@),
{
    let pdb = pdb_addr2line::pdb::PDB::open(std::io::Cursor::new(bytes)).ok()?;
    let inner = pdb_addr2line::ContextPdbData::try_from_pdb(pdb).ok()?;
    Some(PdbQueryData { inner })
}

/// One frame of the inline stack at a looked-up address.
#[derive(Debug)]
pub struct FrameData {
    /// The function name, if stringification succeeded.
    pub function: Option<String>,
    /// The source file, if known.
    pub file: Option<String>,
    /// The source line, if known.
    pub line: Option<u32>,
}

/// Mathematical content of a `FrameData`.
pub struct FrameDataView {
    pub function: Option<Seq<char>>,
    pub file: Option<Seq<char>>,
    pub line: Option<u32>,
}

impl View for FrameData {
    type V = FrameDataView;

    open spec fn view(&self) -> FrameDataView {
        FrameDataView {
            function: opt_string_view(self.function),
            file: opt_string_view(self.file),
            line: self.line,
        }
    }
}

/// The inline stack covering one address: the containing function's start
/// (and end, if known), and one entry per inlined frame, innermost last.
/// A hit always carries at least one frame.
#[derive(Debug)]
pub struct FunctionFrames {
    pub start_rva: u32,
    pub end_rva: Option<u32>,
    pub frames: Vec<FrameData>,
}

/// Mathematical content of a `FunctionFrames`.
pub struct FunctionFramesView {
    pub start_rva: u32,
    pub end_rva: Option<u32>,
    pub frames: Seq<FrameDataView>,
}

impl View for FunctionFrames {
    type V = FunctionFramesView;

    open spec fn view(&self) -> FunctionFramesView {
        FunctionFramesView {
            start_rva: self.start_rva,
            end_rva: self.end_rva,
            frames: self.frames@.map_values(|f: FrameData| f@),
        }
    }
}

/// The inline stack the query context resolves for a relative address.
/// A function of the context value and the address alone.
pub uninterp spec fn frames_at(ctx: PdbQueryData, rva: u32) -> Option<FunctionFramesView>;

/// Relies on pdb_addr2line's `ContextPdbData::make_context` and
/// `Context::find_frames`: the inline stack covering `rva`, owned. Every
/// failure (context construction, resolution error, address not covered)
/// is `None`. A hit carries at least one frame, as the library documents.
#[verifier::external_body]
fn context_find_frames(ctx: &PdbQueryData, rva: u32) -> (r: Option<FunctionFrames>)
    ensures
        match r {
            Some(f) => frames_at(*ctx, rva) == Some(f@) && f.frames@.len() >= 1,
            None => frames_at(*ctx, rva) is None,
        },
{
    let context = ctx.inner.make_context().ok()?;
    let ff = context.find_frames(rva).ok()??;
    let frames = ff.frames.into_iter().map(|fr| FrameData {
        function: fr.function,
        file: fr.file.map(std::borrow::Cow::into_owned),
        line: fr.line,
    }).collect();
    Some(FunctionFrames { start_rva: ff.start_rva, end_rva: ff.end_rva, frames })
}

/// One function of the module list: start, optional end, optional name.
#[derive(Debug)]
pub struct FunctionEntry {
    pub start_rva: u32,
    pub end_rva: Option<u32>,
    pub name: Option<String>,
}

/// Mathematical content of a `FunctionEntry`.
pub struct FunctionEntryView {
    pub start_rva: u32,
    pub end_rva: Option<u32>,
    pub name: Option<Seq<char>>,
}

impl View for FunctionEntry {
    type V = FunctionEntryView;

    open spec fn view(&self) -> FunctionEntryView {
        FunctionEntryView {
            start_rva: self.start_rva,
            end_rva: self.end_rva,
            name: opt_string_view(self.name),
        }
    }
}

/// The number of functions the context knows. A function of the context
/// value alone.
pub uninterp spec fn context_function_count(ctx: PdbQueryData) -> nat;

/// Relies on pdb_addr2line's `Context::function_count`; a context that
/// cannot be rebuilt counts zero functions.
#[verifier::external_body]
fn pdb_function_count(ctx: &PdbQueryData) -> (r: usize)
    ensures
        r == context_function_count(*ctx),
{
    match ctx.inner.make_context() { Ok(c) => c.function_count(), Err(_) => 0 }
}

/// The functions of the context, in its enumeration order. A function of
/// the context value alone.
pub uninterp spec fn context_functions(ctx: PdbQueryData) -> Seq<FunctionEntryView>;

/// Relies on pdb_addr2line's `Context::functions`: every function in the
/// modules, converted to owned entries; empty when the context cannot be
/// rebuilt.
#[verifier::external_body]
fn pdb_function_list(ctx: &PdbQueryData) -> (r: Vec<FunctionEntry>)
    ensures
        r@.len() == context_functions(*ctx).len(),
        forall|i: int| 0 <= i < r@.len() ==> r@[i]@ == context_functions(*ctx)[i],
{
    let context = match ctx.inner.make_context() { Ok(c) => c, Err(_) => return Vec::new() };
    context.functions().map(|f| FunctionEntry {
        start_rva: f.start_rva,
        end_rva: f.end_rva,
        name: f.name,
    }).collect()
}

/// The demangled ("undecorated") form of a symbol name, or the name
/// unchanged where it does not demangle. A function of the characters
/// alone.
pub uninterp spec fn demangled(name: Seq<char>) -> Seq<char>;

/// Relies on `msvc_demangler::demangle`. Note that the demangler's
/// parser recurses with the nesting of the name and has no depth guard,
/// so an extremely deeply nested crafted name can exhaust the stack.
#[verifier::external_body]
fn demangle_symbol(name: &str) -> (r: String)
    ensures
        r@ == demangled(name@),
{
    match msvc_demangler::demangle(name, msvc_demangler::DemangleFlags::llvm()) {
        Ok(s) => s,
        Err(_) => name.to_string(),
    }
}

/// A match "has debug info" exactly when inlining proves it (more than
/// one frame) or the single frame carries a file or a line.
pub open spec fn has_debug_info_spec(f: FunctionFramesView) -> bool {
    if f.frames.len() > 1 {
        true
    } else if f.frames.len() == 0 {
        false
    } else {
        f.frames[0].file is Some || f.frames[0].line is Some
    }
}

/// Whether a lookup match carries per-frame debug info worth reporting.
pub fn has_debug_info(func: &FunctionFrames) -> (r: bool)
    ensures
        r == has_debug_info_spec(func@),
{
    if func.frames.len() > 1 {
        true
    } else if func.frames.len() == 0 {
        false
    } else {
        func.frames[0].file.is_some() || func.frames[0].line.is_some()
    }
}

/// The lowercase hex digit for a value below 16.
pub open spec fn hex_digit(d: int) -> char {
    "0123456789abcdef"@[d]
}

/// The lowercase hex text of `v`, without leading zeros.
pub open spec fn hex_rep(v: nat) -> Seq<char>
    decreases v,
{
    if v < 16 {
        seq![hex_digit(v as int)]
    } else {
        hex_rep(v / 16) + seq![hex_digit((v % 16) as int)]
    }
}

/// Format `v` in lowercase hex.
pub fn hex_string(v: u32) -> (r: String)
    ensures
        r@ == hex_rep(v as nat),
    decreases v,
{
    proof {
        reveal_strlit("0123456789abcdef");
    }
    let digits = "0123456789abcdef";
    if v < 16 {
        let d = digits.substring_char(v as usize, v as usize + 1);
        let mut s = String::new();
        s.append(d);
        proof {
            assert(s@ =~= seq![hex_digit(v as int)]);
        }
        s
    } else {
        let mut s = hex_string(v / 16);
        let idx = (v % 16) as usize;
        let d = digits.substring_char(idx, idx + 1);
        s.append(d);
        proof {
            assert(s@ =~= hex_rep((v / 16) as nat) + seq![hex_digit((v % 16) as int)]);
        }
        s
    }
}

/// The name a listed function is reported under: its own name, or
/// `fun_<start address in hex>` where stringification failed.
pub open spec fn listed_symbol_name(e: FunctionEntryView) -> Seq<char> {
    match e.name {
        Some(n) => n,
        None => "fun_"@ + hex_rep(e.start_rva as nat),
    }
}

/// The function size a lookup reports: the distance from start to end
/// when the end is known and not below the start, else unbounded.
pub open spec fn frames_size_of(f: FunctionFramesView) -> Option<u32> {
    match f.end_rva {
        Some(e) => if f.start_rva <= e {
            Some((e - f.start_rva) as u32)
        } else {
            None
        },
        None => None,
    }
}

/// The symbol name a lookup reports: the innermost frame's function name,
/// demangled, else the literal `unknown`.
pub open spec fn frames_symbol_name(f: FunctionFramesView) -> Seq<char> {
    match f.frames.last().function {
        Some(n) => demangled(n),
        None => "unknown"@,
    }
}

/// One reported frame is the given resolved frame with its raw file path
/// mapped through `pm`.
pub open spec fn frame_matches(fd: FrameDataView, pm: PathMapper, out: FrameDebugInfo) -> bool {
    &&& opt_string_view(out.function) == fd.function
    &&& out.line_number == fd.line
    &&& match fd.file {
        Some(p) => out.file_path matches Some(sf) && sf.raw_path@ == p && opt_path_view(
            sf.mapped_path,
        ) == pm.mapping(p),
        None => out.file_path is None,
    }
}

/// The full contract of assembling a lookup result from a resolved inline
/// stack `f` under path mapper state `pm`.
pub open spec fn sync_info_matches(
    f: FunctionFramesView,
    pm: PathMapper,
    r: SyncAddressInfo,
) -> bool {
    &&& r.symbol.address == f.start_rva
    &&& r.symbol.size == frames_size_of(f)
    &&& r.symbol.name@ == frames_symbol_name(f)
    &&& if has_debug_info_spec(f) {
        match r.frames {
            Some(FramesLookupResult::Available(v)) => v@.len() == f.frames.len() && forall|i: int|
                0 <= i < f.frames.len() ==> frame_matches(f.frames[i], pm, #[trigger] v@[i]),
            None => false,
        }
    } else {
        r.frames is None
    }
}

/// Assemble the reported address info from a resolved inline stack: the
/// symbol comes from the containing function's bounds and the innermost
/// frame's demangled name; the per-frame file/line list is attached only
/// when the match has debug info, with each raw path passed through the
/// path mapper.
pub fn address_info_from_frames(func: &FunctionFrames, path_mapper: &mut PathMapper) -> (r:
    SyncAddressInfo)
    requires
        func.frames@.len() >= 1,
        old(path_mapper).wf(),
    ensures
        final(path_mapper).wf(),
        forall|p: Seq<char>| final(path_mapper).mapping(p) == old(path_mapper).mapping(p),
        sync_info_matches(func@, *old(path_mapper), r),
{
    let n = func.frames.len();
    let symbol_name = match &func.frames[n - 1].function {
        Some(name) => demangle_symbol(name.as_str()),
        None => String::from_str("unknown"),
    };
    let function_size = match func.end_rva {
        Some(e) => if func.start_rva <= e {
            Some(e - func.start_rva)
        } else {
            None
        },
        None => None,
    };
    let symbol = SymbolInfo { address: func.start_rva, size: function_size, name: symbol_name };
    let frames = if has_debug_info(func) {
        let mut out: Vec<FrameDebugInfo> = Vec::new();
        let mut i: usize = 0;
        while i < n
            invariant
                i <= n,
                n == func.frames@.len(),
                out@.len() == i,
                path_mapper.wf(),
                forall|p: Seq<char>| path_mapper.mapping(p) == old(path_mapper).mapping(p),
                forall|j: int|
                    0 <= j < i ==> frame_matches(
                        func@.frames[j],
                        *old(path_mapper),
                        #[trigger] out@[j],
                    ),
            decreases n - i,
        {
            let fd = &func.frames[i];
            let function = match &fd.function {
                Some(name) => Some(name.clone()),
                None => None,
            };
            let file_path = match &fd.file {
                Some(p) => {
                    let mapped = path_mapper.map_path(p.as_str());
                    Some(SourceFilePath { raw_path: p.clone(), mapped_path: mapped })
                },
                None => None,
            };
            out.push(FrameDebugInfo { function, file_path, line_number: fd.line });
            i = i + 1;
        }
        Some(FramesLookupResult::Available(out))
    } else {
        None
    };
    SyncAddressInfo { symbol, frames }
}

/// The queryable core of one PDB symbol map: the query context, the
/// module identity, and the path mapper — the only state mutated after
/// construction.
pub struct PdbSymbolMapInnerWrapper {
    context: PdbQueryData,
    debug_id: DebugIdentity,
    path_mapper: PathMapper,
}

impl PdbSymbolMapInnerWrapper {
    /// The path mapper is consistent.
    pub closed spec fn wf(self) -> bool {
        self.path_mapper.wf()
    }

    /// The query context value.
    pub closed spec fn ctx(self) -> PdbQueryData {
        self.context
    }

    /// The module identity.
    pub closed spec fn identity(self) -> DebugIdentityView {
        self.debug_id@
    }

    /// The path mapper state.
    pub closed spec fn mapper(self) -> PathMapper {
        self.path_mapper
    }

    /// Assemble a symbol map core from its parts.
    pub fn new(context: PdbQueryData, debug_id: DebugIdentity, path_mapper: PathMapper) -> (r:
        Self)
        requires
            path_mapper.wf(),
        ensures
            r.wf(),
            r.ctx() == context,
            r.identity() == debug_id@,
            r.mapper() == path_mapper,
    {
        PdbSymbolMapInnerWrapper { context, debug_id, path_mapper }
    }

    /// The identity of the module this map answers for.
    pub fn debug_id(&self) -> (r: DebugIdentity)
        ensures
            r@ == self.identity(),
    {
        self.debug_id
    }

    /// How many functions the map knows.
    pub fn symbol_count(&self) -> (r: usize)
        ensures
            r == context_function_count(self.ctx()),
    {
        pdb_function_count(&self.context)
    }

    /// Every known function as `(start address, name)`, the name
    /// synthesized as `fun_<start in hex>` where none was resolved.
    /// Recomputed fresh on each call.
    pub fn iter_symbols(&self) -> (r: Vec<(u32, String)>)
        ensures
            r@.len() == context_functions(self.ctx()).len(),
            forall|i: int|
                0 <= i < r@.len() ==> #[trigger] r@[i].0 == context_functions(self.ctx())[i]
                    .start_rva && r@[i].1@ == listed_symbol_name(context_functions(self.ctx())[i]),
    {
        let entries = pdb_function_list(&self.context);
        let mut out: Vec<(u32, String)> = Vec::new();
        let mut i: usize = 0;
        while i < entries.len()
            invariant
                i <= entries@.len(),
                entries@.len() == context_functions(self.ctx()).len(),
                forall|j: int|
                    0 <= j < entries@.len() ==> entries@[j]@ == context_functions(self.ctx())[j],
                out@.len() == i,
                forall|j: int|
                    0 <= j < i ==> #[trigger] out@[j].0 == context_functions(self.ctx())[j]
                        .start_rva && out@[j].1@ == listed_symbol_name(
                        context_functions(self.ctx())[j],
                    ),
            decreases entries@.len() - i,
        {
            let e = &entries[i];
            proof {
                assert(entries@[i as int]@ == context_functions(self.ctx())[i as int]);
            }
            let name = match &e.name {
                Some(n) => n.clone(),
                None => {
                    let mut s = String::from_str("fun_");
                    let hex = hex_string(e.start_rva);
                    s.append(hex.as_str());
                    s
                },
            };
            proof {
                assert(name@ == listed_symbol_name(entries@[i as int]@));
            }
            out.push((e.start_rva, name));
            proof {
                assert(out@[i as int].0 == context_functions(self.ctx())[i as int].start_rva);
                assert(out@[i as int].1@ == listed_symbol_name(
                    context_functions(self.ctx())[i as int],
                ));
            }
            i = i + 1;
        }
        out
    }

    /// Resolve an address to its symbol and inline stack. Only relative
    /// addresses are supported: the other kinds return no result — never
    /// an error. An address the context does not cover returns no result.
    pub fn lookup_sync(&mut self, address: LookupAddress) -> (r: Option<SyncAddressInfo>)
        requires
            old(self).wf(),
        ensures
            final(self).wf(),
            final(self).ctx() == old(self).ctx(),
            final(self).identity() == old(self).identity(),
            forall|p: Seq<char>|
                final(self).mapper().mapping(p) == old(self).mapper().mapping(p),
            match address {
                LookupAddress::Relative(rva) => match frames_at(old(self).ctx(), rva) {
                    Some(f) => r matches Some(info) && sync_info_matches(
                        f,
                        old(self).mapper(),
                        info,
                    ),
                    None => r is None,
                },
                _ => r is None,
            },
    {
        let rva = match address {
            LookupAddress::Relative(rva) => rva,
            LookupAddress::Svma(_) => {
                return None;
            },
            LookupAddress::FileOffset(_) => {
                return None;
            },
        };
        let function_frames = match context_find_frames(&self.context, rva) {
            Some(f) => f,
            None => {
                return None;
            },
        };
        Some(address_info_from_frames(&function_frames, &mut self.path_mapper))
    }
}

} // verus!
