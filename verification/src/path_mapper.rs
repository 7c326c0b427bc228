//! The source path mapper: translates compile-time source paths into
//! structured permalinks using the vendor source-indexing stream, memoized
//! per path.
//!
//! Only the direct-download retrieval method is honored as-is. Command
//! templates are never executed; the one known, safe-to-reinterpret
//! command shape (the gitiles base64 download workaround) is recognized
//! textually and its URL re-parsed. Everything else degrades to `None`.

use crate::gitiles::{gitiles_parse, parse_gitiles_url};
use crate::mapped_path::{duplicate_opt, opt_path_view, MappedPath, MappedPathView};
use crate::srcsrv_stream::{
    opt_string_view, raw_var_of, retrieval_of, source_retrieval, srcsrv_raw_var,
    srcsrv_stream_hazardous, stream_has_hazardous_line, SourceRetrieval, SourceRetrievalView,
};
use vstd::prelude::*;
use vstd::string::StringExecFns;

verus! {

/// Whether `a`'s text equals the literal `b`.
fn string_matches(a: &String, b: &str) -> (r: bool)
    ensures
        r == (a@ == b@),
{
    let bs = String::from_str(b);
    a.eq(&bs)
}

/// The stream's command template is the known gitiles workaround: the
/// stream is safe to hand to the stream parser, the global command
/// variable selects exactly the extract command, and the extract command
/// text equals one of the two known variants of the python
/// download-and-decode command (the second carries a redundant
/// variable-name prefix).
pub open spec fn chrome_workaround_of(stream: Seq<u8>) -> bool {
    &&& !srcsrv_stream_hazardous(stream)
    &&& raw_var_of(stream, "SRCSRVCMD"@) == Some("%SRC_EXTRACT_CMD%"@)
    &&& (raw_var_of(stream, "SRC_EXTRACT_CMD"@) == Some(
        r#"cmd /c "mkdir "%SRC_EXTRACT_TARGET_DIR%" & python3 -c "import urllib.request, base64;url = \"%var4%\";u = urllib.request.urlopen(url);open(r\"%SRC_EXTRACT_TARGET%\", \"wb\").write(%var5%(u.read()))""#@,
    ) || raw_var_of(stream, "SRC_EXTRACT_CMD"@) == Some(
        r#"SRC_EXTRACT_CMD=cmd /c "mkdir "%SRC_EXTRACT_TARGET_DIR%" & python3 -c "import urllib.request, base64;url = \"%var4%\";u = urllib.request.urlopen(url);open(r\"%SRC_EXTRACT_TARGET%\", \"wb\").write(%var5%(u.read()))""#@,
    ))
}

/// Decide [`chrome_workaround_of`] by reading the two raw variables.
fn matches_chrome_gitiles_workaround(stream: &Vec<u8>) -> (r: bool)
    ensures
        r == chrome_workaround_of(stream@),
{
    if stream_has_hazardous_line(stream.as_slice()) {
        return false;
    }
    let cmd_sel = match srcsrv_raw_var(stream.as_slice(), "SRCSRVCMD") {
        Some(v) => string_matches(&v, "%SRC_EXTRACT_CMD%"),
        None => false,
    };
    if !cmd_sel {
        return false;
    }
    match srcsrv_raw_var(stream.as_slice(), "SRC_EXTRACT_CMD") {
        Some(v) => string_matches(
            &v,
            r#"cmd /c "mkdir "%SRC_EXTRACT_TARGET_DIR%" & python3 -c "import urllib.request, base64;url = \"%var4%\";u = urllib.request.urlopen(url);open(r\"%SRC_EXTRACT_TARGET%\", \"wb\").write(%var5%(u.read()))""#,
        ) || string_matches(
            &v,
            r#"SRC_EXTRACT_CMD=cmd /c "mkdir "%SRC_EXTRACT_TARGET_DIR%" & python3 -c "import urllib.request, base64;url = \"%var4%\";u = urllib.request.urlopen(url);open(r\"%SRC_EXTRACT_TARGET%\", \"wb\").write(%var5%(u.read()))""#,
        ),
        None => false,
    }
}

/// Maps raw file paths to permalink paths, using the srcsrv stream.
/// Memoizes one `Option<MappedPath>` per distinct raw path, because the
/// underlying stream evaluation is not free and paths repeat across
/// frames.
pub struct SrcSrvPathMapper {
    stream: Vec<u8>,
    cache: Vec<(String, Option<MappedPath>)>,
    command_is_file_download_with_url_in_var4_and_uncompress_function_in_var5: bool,
}

impl SrcSrvPathMapper {
    /// The mapping the stream prescribes for `path`: a stream the stream
    /// parser cannot be trusted with maps nothing; a download URL maps
    /// to a URL permalink; the gitiles workaround command maps through the
    /// gitiles URL grammar when variable 5 is the base64 decode function;
    /// everything else maps to `None`.
    pub open spec fn mapping_of(stream: Seq<u8>, path: Seq<char>) -> Option<MappedPathView> {
        if srcsrv_stream_hazardous(stream) {
            None
        } else {
            Self::retrieval_mapping_of(stream, path)
        }
    }

    /// The mapping of a safe stream, by its evaluated retrieval method.
    pub open spec fn retrieval_mapping_of(stream: Seq<u8>, path: Seq<char>) -> Option<
        MappedPathView,
    > {
        match retrieval_of(stream, path, "C:\\Dummy"@) {
            SourceRetrievalView::Download { url } => Some(MappedPathView::Url(url)),
            SourceRetrievalView::Command { var4, var5 } => {
                if chrome_workaround_of(stream) && var5 == Some("base64.b64decode"@) {
                    match var4 {
                        Some(u) => gitiles_parse(u),
                        None => None,
                    }
                } else {
                    None
                }
            },
            SourceRetrievalView::NoMapping => None,
        }
    }

    /// The cache is consistent: the workaround flag reflects the stream,
    /// keys are distinct, and every entry holds exactly the stream's
    /// mapping for its key.
    pub closed spec fn wf(self) -> bool {
        &&& self.command_is_file_download_with_url_in_var4_and_uncompress_function_in_var5
            == chrome_workaround_of(self.stream@)
        &&& forall|i: int, j: int|
            0 <= i < j < self.cache@.len() ==> self.cache@[i].0@ != self.cache@[j].0@
        &&& forall|i: int|
            0 <= i < self.cache@.len() ==> opt_path_view(#[trigger] self.cache@[i].1)
                == Self::mapping_of(self.stream@, self.cache@[i].0@)
    }

    /// The stream bytes this mapper consults.
    pub closed spec fn stream_view(self) -> Seq<u8> {
        self.stream@
    }

    /// The cache holds an entry for `path`.
    pub closed spec fn cache_has(self, path: Seq<char>) -> bool {
        exists|i: int| 0 <= i < self.cache@.len() && self.cache@[i].0@ == path
    }

    /// Everything one call of `map_path` does: the result is exactly the
    /// stream's mapping for the path, the path is cached afterwards, and a
    /// call that hits the cache leaves the mapper untouched (the stream is
    /// not consulted again).
    pub closed spec fn map_path_rel(
        pre: Self,
        path: Seq<char>,
        r: Option<MappedPathView>,
        post: Self,
    ) -> bool {
        &&& post.stream@ == pre.stream@
        &&& r == Self::mapping_of(pre.stream@, path)
        &&& post.cache_has(path)
        &&& (pre.cache_has(path) ==> post == pre)
    }

    /// Build a mapper over the given source-index stream bytes, with an
    /// empty cache.
    pub fn new(stream: Vec<u8>) -> (r: SrcSrvPathMapper)
        ensures
            r.wf(),
            r.stream_view() == stream@,
            forall|p: Seq<char>| !r.cache_has(p),
    {
        let flag = matches_chrome_gitiles_workaround(&stream);
        SrcSrvPathMapper {
            stream,
            cache: Vec::new(),
            command_is_file_download_with_url_in_var4_and_uncompress_function_in_var5: flag,
        }
    }

    /// Recover the gitiles URL from the workaround command's variables:
    /// variable 5 must be the base64 decode function, and variable 4 must
    /// parse under the gitiles URL grammar.
    fn gitiles_to_mapped_path(&self, var4: &Option<String>, var5: &Option<String>) -> (r: Option<
        MappedPath,
    >)
        requires
            self.command_is_file_download_with_url_in_var4_and_uncompress_function_in_var5
                == chrome_workaround_of(self.stream@),
        ensures
            opt_path_view(r) == (if chrome_workaround_of(self.stream@) && opt_string_view(*var5)
                == Some("base64.b64decode"@) {
                match opt_string_view(*var4) {
                    Some(u) => gitiles_parse(u),
                    None => None::<MappedPathView>,
                }
            } else {
                None::<MappedPathView>
            }),
    {
        if !self.command_is_file_download_with_url_in_var4_and_uncompress_function_in_var5 {
            return None;
        }
        match var5 {
            Some(v5) => {
                if !string_matches(v5, "base64.b64decode") {
                    return None;
                }
            },
            None => {
                return None;
            },
        }
        match var4 {
            Some(url) => parse_gitiles_url(url.as_str()),
            None => None,
        }
    }

    /// Map a raw source path to a permalink. Never fails: every error or
    /// unrecognized case degrades to `None`. Memoized: a second call for
    /// the same path is answered from the cache.
    pub fn map_path(&mut self, path: &str) -> (r: Option<MappedPath>)
        requires
            old(self).wf(),
        ensures
            final(self).wf(),
            Self::map_path_rel(*old(self), path@, opt_path_view(r), *final(self)),
    {
        let key = String::from_str(path);
        let mut i: usize = 0;
        while i < self.cache.len()
            invariant
                i <= self.cache@.len(),
                key@ == path@,
                self.wf(),
                self == old(self),
                forall|j: int| 0 <= j < i ==> self.cache@[j].0@ != path@,
            decreases self.cache@.len() - i,
        {
            if self.cache[i].0.eq(&key) {
                let r = duplicate_opt(&self.cache[i].1);
                proof {
                    assert(self.cache_has(path@));
                }
                return r;
            }
            i = i + 1;
        }
        proof {
            assert(!old(self).cache_has(path@));
        }
        let value = if stream_has_hazardous_line(self.stream.as_slice()) {
            None
        } else {
            match source_retrieval(self.stream.as_slice(), path, "C:\\Dummy") {
                SourceRetrieval::Download { url } => Some(MappedPath::Url(url)),
                SourceRetrieval::Command { var4, var5 } => self.gitiles_to_mapped_path(
                    &var4,
                    &var5,
                ),
                SourceRetrieval::NoMapping => None,
            }
        };
        let stored = duplicate_opt(&value);
        let ghost old_cache = self.cache@;
        self.cache.push((key, stored));
        proof {
            assert forall|a: int, b: int|
                0 <= a < b < self.cache@.len() implies self.cache@[a].0@ != self.cache@[b].0@ by {
                if b < old_cache.len() {
                } else {
                    assert(self.cache@[b].0@ == path@);
                }
            }
            assert(self.cache@[self.cache@.len() - 1].0@ == path@);
        }
        value
    }

    /// Law: mapping the same path twice yields the same result both
    /// times, and the second call leaves the mapper exactly as the first
    /// left it — the underlying stream evaluation happens at most once
    /// per distinct path.
    pub proof fn lemma_map_path_memoized(
        pre: Self,
        mid: Self,
        post: Self,
        path: Seq<char>,
        r1: Option<MappedPathView>,
        r2: Option<MappedPathView>,
    )
        requires
            Self::map_path_rel(pre, path, r1, mid),
            Self::map_path_rel(mid, path, r2, post),
        ensures
            r1 == r2,
            post == mid,
    {
    }
}

/// The per-handle path mapper: a srcsrv-backed mapper when the debug file
/// carries a source-index stream, else the identity that maps every path
/// to `None`.
pub struct PathMapper {
    extra: Option<SrcSrvPathMapper>,
}

impl PathMapper {
    /// Consistency of the inner mapper, if any.
    pub closed spec fn wf(self) -> bool {
        match self.extra {
            Some(m) => m.wf(),
            None => true,
        }
    }

    /// The mapping this mapper prescribes for `path`.
    pub closed spec fn mapping(self, path: Seq<char>) -> Option<MappedPathView> {
        match self.extra {
            Some(m) => SrcSrvPathMapper::mapping_of(m.stream_view(), path),
            None => None,
        }
    }

    /// The mapping a mapper built over `extra` prescribes for `path`.
    pub open spec fn mapping_for_extra(
        extra: Option<SrcSrvPathMapper>,
        path: Seq<char>,
    ) -> Option<MappedPathView> {
        match extra {
            Some(m) => SrcSrvPathMapper::mapping_of(m.stream_view(), path),
            None => None,
        }
    }

    /// Wrap an optional srcsrv mapper.
    pub fn new_with_maybe_extra_mapper(extra: Option<SrcSrvPathMapper>) -> (r: PathMapper)
        requires
            extra matches Some(m) ==> m.wf(),
        ensures
            r.wf(),
            forall|p: Seq<char>| r.mapping(p) == PathMapper::mapping_for_extra(extra, p),
    {
        PathMapper { extra }
    }

    /// Map a raw source path to a permalink; `None` without a stream.
    pub fn map_path(&mut self, path: &str) -> (r: Option<MappedPath>)
        requires
            old(self).wf(),
        ensures
            final(self).wf(),
            forall|p: Seq<char>| final(self).mapping(p) == old(self).mapping(p),
            opt_path_view(r) == old(self).mapping(path@),
    {
        match &mut self.extra {
            Some(m) => m.map_path(path),
            None => None,
        }
    }
}

} // verus!
