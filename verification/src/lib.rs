//! Symbolication primitives for Windows binaries: given a PE image or its
//! companion PDB debug file, resolve code addresses to function names,
//! file/line attribution, and stable source permalinks.

pub mod gitiles;
pub mod mapped_path;
pub mod path_mapper;
pub mod pdb_backend;
pub mod pe;
pub mod recording_props;
pub mod shared;
pub mod srcsrv_stream;
pub mod symbol_map;
pub mod unwind;
pub mod unwind_runs;
