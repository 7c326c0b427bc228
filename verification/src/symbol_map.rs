//! The symbol-map abstraction: one uniform handle per module through
//! which callers query address-to-symbol information without knowing the
//! concrete debug format, plus the identity-checked loader that binds a
//! binary to its companion debug file.

use crate::path_mapper::{PathMapper, SrcSrvPathMapper};
use crate::pdb_backend::{
    context_function_count, context_functions, frames_at, listed_symbol_name, pdb_context_ok,
    pdb_identity_of, pdb_srcsrv_of, sync_info_matches, PdbQueryData, PdbSymbolMapInnerWrapper,
    SrcSrvPresence, SrcSrvStreamOutcome,
};
use crate::shared::{DebugIdentity, DebugIdentityView, Error, LookupAddress, SyncAddressInfo};
use crate::srcsrv_stream::{srcsrv_parses, srcsrv_stream_hazardous, stream_has_hazardous_line};
use crate::mapped_path::MappedPathView;
use vstd::prelude::*;

verus! {

/// The closed set of backends a symbol map can be backed by. Dispatch is
/// fixed when the handle is constructed, not per call.
pub enum InnerSymbolMap {
    Pdb(PdbSymbolMapInnerWrapper),
}

/// The externally visible symbol map for one module: owns everything
/// needed to answer queries, and is stateless after construction except
/// for the path-mapper cache.
pub struct SymbolMap {
    inner: InnerSymbolMap,
}

impl SymbolMap {
    /// The inner state is consistent.
    pub closed spec fn wf(self) -> bool {
        match self.inner {
            InnerSymbolMap::Pdb(m) => m.wf(),
        }
    }

    /// The identity of the module this map answers for.
    pub closed spec fn identity(self) -> DebugIdentityView {
        match self.inner {
            InnerSymbolMap::Pdb(m) => m.identity(),
        }
    }

    /// The backing query context.
    pub closed spec fn ctx(self) -> PdbQueryData {
        match self.inner {
            InnerSymbolMap::Pdb(m) => m.ctx(),
        }
    }

    /// The path-mapper state.
    pub closed spec fn mapper(self) -> PathMapper {
        match self.inner {
            InnerSymbolMap::Pdb(m) => m.mapper(),
        }
    }

    /// The permalink mapping this map applies to raw source paths.
    pub open spec fn mapping(self, path: Seq<char>) -> Option<MappedPathView> {
        self.mapper().mapping(path)
    }

    /// Wrap a PDB backend as a plain symbol map.
    pub fn new_plain(inner: PdbSymbolMapInnerWrapper) -> (r: SymbolMap)
        requires
            inner.wf(),
        ensures
            r.wf(),
            r.identity() == inner.identity(),
            r.ctx() == inner.ctx(),
            r.mapper() == inner.mapper(),
    {
        SymbolMap { inner: InnerSymbolMap::Pdb(inner) }
    }

    /// The identity of the module this map answers for.
    pub fn debug_id(&self) -> (r: DebugIdentity)
        ensures
            r@ == self.identity(),
    {
        match &self.inner {
            InnerSymbolMap::Pdb(m) => m.debug_id(),
        }
    }

    /// How many functions the map knows.
    pub fn symbol_count(&self) -> (r: usize)
        ensures
            r == context_function_count(self.ctx()),
    {
        match &self.inner {
            InnerSymbolMap::Pdb(m) => m.symbol_count(),
        }
    }

    /// Every known function as `(start address, name)`, finite and
    /// recomputed fresh on each call.
    pub fn iter_symbols(&self) -> (r: Vec<(u32, String)>)
        ensures
            r@.len() == context_functions(self.ctx()).len(),
            forall|i: int|
                0 <= i < r@.len() ==> #[trigger] r@[i].0 == context_functions(self.ctx())[i]
                    .start_rva && r@[i].1@ == listed_symbol_name(context_functions(self.ctx())[i]),
    {
        match &self.inner {
            InnerSymbolMap::Pdb(m) => {
                let r = m.iter_symbols();
                proof {
                    assert forall|i: int| 0 <= i < r@.len() implies #[trigger] r@[i].0
                        == context_functions(self.ctx())[i].start_rva && r@[i].1@
                        == listed_symbol_name(context_functions(self.ctx())[i]) by {
                        assert(r@[i].0 == context_functions(m.ctx())[i].start_rva);
                        assert(r@[i].1@ == listed_symbol_name(context_functions(m.ctx())[i]));
                    }
                }
                r
            },
        }
    }

    /// Resolve an address. An address kind the backend does not support,
    /// and an address the module does not cover, return no result —
    /// never an error.
    pub fn lookup_sync(&mut self, address: LookupAddress) -> (r: Option<SyncAddressInfo>)
        requires
            old(self).wf(),
        ensures
            final(self).wf(),
            final(self).ctx() == old(self).ctx(),
            final(self).identity() == old(self).identity(),
            forall|p: Seq<char>| final(self).mapping(p) == old(self).mapping(p),
            match address {
                LookupAddress::Relative(rva) => match frames_at(old(self).ctx(), rva) {
                    Some(f) => r matches Some(info) && sync_info_matches(
                        f,
                        old(self).mapper(),
                        info,
                    ),
                    None => r is None,
                },
                _ => r is None,
            },
    {
        match &mut self.inner {
            InnerSymbolMap::Pdb(m) => m.lookup_sync(address),
        }
    }
}

/// A symbol map can be built over these file bytes: the identity header
/// reads, the source-index stream is absent or safe and well-formed, and
/// the query context builds.
pub open spec fn pdb_map_constructible(bytes: Seq<u8>) -> bool {
    &&& pdb_identity_of(bytes) is Some
    &&& match pdb_srcsrv_of(bytes) {
        SrcSrvPresence::Present(b) => !srcsrv_stream_hazardous(b) && srcsrv_parses(b),
        SrcSrvPresence::Absent => true,
        SrcSrvPresence::Failed => false,
    }
    &&& pdb_context_ok(bytes)
}

/// A successfully built map reflects the file: it carries the file's
/// identity, and maps source paths through the file's source-index
/// stream (or not at all, when the file has none).
pub open spec fn pdb_symbol_map_ok(bytes: Seq<u8>, m: SymbolMap) -> bool {
    &&& m.wf()
    &&& Some(m.identity()) == pdb_identity_of(bytes)
    &&& forall|p: Seq<char>|
        #[trigger] m.mapping(p) == (match pdb_srcsrv_of(bytes) {
            SrcSrvPresence::Present(b) => SrcSrvPathMapper::mapping_of(b, p),
            SrcSrvPresence::Absent => None,
            SrcSrvPresence::Failed => None,
        })
}

/// The full outcome of building a symbol map over PDB file bytes: which
/// error each failure yields, and what a success carries.
pub open spec fn pdb_symbol_map_outcome(bytes: Seq<u8>, r: Result<SymbolMap, Error>) -> bool {
    match pdb_identity_of(bytes) {
        None => r matches Err(Error::PdbParseError),
        Some(id) => match pdb_srcsrv_of(bytes) {
            SrcSrvPresence::Failed => r matches Err(Error::PdbStreamReadError),
            SrcSrvPresence::Present(b) => if srcsrv_stream_hazardous(b) || !srcsrv_parses(b) {
                r matches Err(Error::SrcSrvParseError)
            } else if !pdb_context_ok(bytes) {
                r matches Err(Error::ContextConstructionError)
            } else {
                r matches Ok(m) && pdb_symbol_map_ok(bytes, m)
            },
            SrcSrvPresence::Absent => if !pdb_context_ok(bytes) {
                r matches Err(Error::ContextConstructionError)
            } else {
                r matches Ok(m) && pdb_symbol_map_ok(bytes, m)
            },
        },
    }
}

/// Build a symbol map over the bytes of a PDB file: read the identity
/// header, read the source-index stream (absence is not an error; any
/// other read failure is), and build the query context.
pub fn get_symbol_map_for_pdb(file_contents: Vec<u8>) -> (r: Result<SymbolMap, Error>)
    ensures
        pdb_symbol_map_outcome(file_contents@, r),
{
    let identity = match crate::pdb_backend::pdb_read_identity(file_contents.as_slice()) {
        Some(id) => id,
        None => {
            return Err(Error::PdbParseError);
        },
    };
    let srcsrv_bytes = match crate::pdb_backend::pdb_read_srcsrv(file_contents.as_slice()) {
        SrcSrvStreamOutcome::Present(b) => {
            if stream_has_hazardous_line(b.as_slice()) {
                return Err(Error::SrcSrvParseError);
            }
            if !crate::srcsrv_stream::srcsrv_parse_check(b.as_slice()) {
                return Err(Error::SrcSrvParseError);
            }
            Some(b)
        },
        SrcSrvStreamOutcome::Absent => None,
        SrcSrvStreamOutcome::Failed => {
            return Err(Error::PdbStreamReadError);
        },
    };
    let context = match crate::pdb_backend::pdb_make_query_data(file_contents) {
        Some(c) => c,
        None => {
            return Err(Error::ContextConstructionError);
        },
    };
    let extra = match srcsrv_bytes {
        Some(b) => Some(SrcSrvPathMapper::new(b)),
        None => None,
    };
    let path_mapper = PathMapper::new_with_maybe_extra_mapper(extra);
    let inner = PdbSymbolMapInnerWrapper::new(context, identity, path_mapper);
    Ok(SymbolMap::new_plain(inner))
}

/// Build the symbol map for the companion PDB of a binary and require the
/// identities to match exactly: a mismatch fails with an error carrying
/// both identities — the binary's, then the debug file's — and is never
/// silently accepted.
pub fn load_symbol_map_for_pdb_corresponding_to_binary(
    binary_debug_id: &DebugIdentity,
    pdb_file_contents: Vec<u8>,
) -> (r: Result<SymbolMap, Error>)
    ensures
        ({
            let bytes = pdb_file_contents@;
            if pdb_map_constructible(bytes) {
                let id = pdb_identity_of(bytes)->Some_0;
                if id == binary_debug_id@ {
                    r matches Ok(m) && pdb_symbol_map_ok(bytes, m)
                } else {
                    r matches Err(Error::UnmatchedDebugId(a, b)) && a@ == binary_debug_id@ && b@
                        == id
                }
            } else {
                pdb_symbol_map_outcome(bytes, r)
            }
        }),
{
    let symbol_map = match get_symbol_map_for_pdb(pdb_file_contents) {
        Ok(m) => m,
        Err(e) => {
            return Err(e);
        },
    };
    let map_id = symbol_map.debug_id();
    if !map_id.matches(binary_debug_id) {
        return Err(Error::UnmatchedDebugId(*binary_debug_id, map_id));
    }
    Ok(symbol_map)
}

} // verus!
