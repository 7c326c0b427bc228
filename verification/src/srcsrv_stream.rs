//! Trusted interface to the vendor source-indexing ("srcsrv") stream.
//!
//! The stream maps compile-time source paths to retrieval instructions.
//! Everything read from it is a pure function of the stream bytes and the
//! query arguments, so each query is named by an uninterpreted function
//! and performed by a wrapper that parses the stream and evaluates it.

use vstd::prelude::*;

verus! {

/// How a source file can be obtained, as far as the path mapper needs it:
/// a direct download URL, a command template (with the values of
/// substitution variables 4 and 5 of the matching file entry carried
/// along), or nothing.
#[derive(Debug)]
pub enum SourceRetrieval {
    Download { url: String },
    Command { var4: Option<String>, var5: Option<String> },
    NoMapping,
}

/// Mathematical content of a `SourceRetrieval`.
pub enum SourceRetrievalView {
    Download { url: Seq<char> },
    Command { var4: Option<Seq<char>>, var5: Option<Seq<char>> },
    NoMapping,
}

/// Content of an optional string.
pub open spec fn opt_string_view(s: Option<String>) -> Option<Seq<char>> {
    match s {
        Some(v) => Some(v@),
        None => None,
    }
}

impl View for SourceRetrieval {
    type V = SourceRetrievalView;

    open spec fn view(&self) -> SourceRetrievalView {
        match self {
            SourceRetrieval::Download { url } => SourceRetrievalView::Download { url: url@ },
            SourceRetrieval::Command { var4, var5 } => SourceRetrievalView::Command {
                var4: opt_string_view(*var4),
                var5: opt_string_view(*var5),
            },
            SourceRetrieval::NoMapping => SourceRetrievalView::NoMapping,
        }
    }
}


/// The ASCII-lowercase form of a byte.
pub open spec fn ascii_lower(b: u8) -> u8 {
    if 'A' as u8 <= b && b <= 'Z' as u8 {
        (b + 32) as u8
    } else {
        b
    }
}

/// The bytes of `stream` just before position `e` spell `pat`, compared
/// ASCII-case-insensitively.
pub open spec fn suffix_matches_ci(stream: Seq<u8>, e: int, pat: Seq<u8>) -> bool {
    &&& pat.len() <= e <= stream.len()
    &&& forall|i: int|
        0 <= i < pat.len() ==> ascii_lower(stream[e - pat.len() + i]) == #[trigger] pat[i]
}

/// `e` is the end of a line of `stream`: the end of the text, or a
/// position holding a line feed.
pub open spec fn line_end_at(stream: Seq<u8>, e: int) -> bool {
    0 <= e <= stream.len() && (e == stream.len() || stream[e] == 10u8)
}

/// The end of a line's text: the line end with one carriage return, if
/// present, stepped over.
pub open spec fn line_text_end(stream: Seq<u8>, e: int) -> int {
    if e > 0 && stream[e - 1] == 13u8 {
        e - 1
    } else {
        e
    }
}

/// The text `%fnvar%(`.
pub open spec fn fnvar_open() -> Seq<u8> {
    seq!['%' as u8, 'f' as u8, 'n' as u8, 'v' as u8, 'a' as u8, 'r' as u8, '%' as u8, '(' as u8]
}

/// The text `%fnbksl%(`.
pub open spec fn fnbksl_open() -> Seq<u8> {
    seq![
        '%' as u8,
        'f' as u8,
        'n' as u8,
        'b' as u8,
        'k' as u8,
        's' as u8,
        'l' as u8,
        '%' as u8,
        '(' as u8,
    ]
}

/// The text `%fnfile%(`.
pub open spec fn fnfile_open() -> Seq<u8> {
    seq![
        '%' as u8,
        'f' as u8,
        'n' as u8,
        'f' as u8,
        'i' as u8,
        'l' as u8,
        'e' as u8,
        '%' as u8,
        '(' as u8,
    ]
}

/// Some line of the stream ends (carriage return aside) in a
/// substitution function name followed by its opening parenthesis and
/// nothing after it. On a variables-section value of that shape the
/// outside stream parser indexes past the end of the value, so such
/// streams must be rejected before it runs. The check is conservative:
/// it looks at every line, not only the variables section.
pub open spec fn srcsrv_stream_hazardous(stream: Seq<u8>) -> bool {
    exists|e: int|
        #[trigger] line_end_at(stream, e) && {
            let t = line_text_end(stream, e);
            ||| suffix_matches_ci(stream, t, fnvar_open())
            ||| suffix_matches_ci(stream, t, fnbksl_open())
            ||| suffix_matches_ci(stream, t, fnfile_open())
        }
}

/// The ASCII-lowercase form of a byte.
fn lower_byte(b: u8) -> (r: u8)
    ensures
        r == ascii_lower(b),
{
    if b >= 'A' as u8 && b <= 'Z' as u8 {
        b + 32
    } else {
        b
    }
}

/// Whether the bytes just before position `e` spell `pat`, compared
/// ASCII-case-insensitively.
fn suffix_matches(stream: &[u8], e: usize, pat: &[u8]) -> (r: bool)
    requires
        e <= stream@.len(),
    ensures
        r == suffix_matches_ci(stream@, e as int, pat@),
{
    let m = pat.len();
    if e < m {
        return false;
    }
    let mut i: usize = 0;
    while i < m
        invariant
            i <= m,
            m == pat@.len(),
            m <= e <= stream@.len(),
            forall|j: int|
                0 <= j < i ==> ascii_lower(stream@[e - m + j]) == #[trigger] pat@[j],
        decreases m - i,
    {
        if lower_byte(stream[e - m + i]) != pat[i] {
            return false;
        }
        i = i + 1;
    }
    true
}

/// Whether some line of the stream ends in one of the three hazardous
/// substitution-function fragments of [`srcsrv_stream_hazardous`]. Run
/// this before handing a stream to any of the trusted readers below.
pub fn stream_has_hazardous_line(stream: &[u8]) -> (r: bool)
    ensures
        r == srcsrv_stream_hazardous(stream@),
{
    let fnvar: [u8; 8] = [
        '%' as u8,
        'f' as u8,
        'n' as u8,
        'v' as u8,
        'a' as u8,
        'r' as u8,
        '%' as u8,
        '(' as u8,
    ];
    let fnbksl: [u8; 9] = [
        '%' as u8,
        'f' as u8,
        'n' as u8,
        'b' as u8,
        'k' as u8,
        's' as u8,
        'l' as u8,
        '%' as u8,
        '(' as u8,
    ];
    let fnfile: [u8; 9] = [
        '%' as u8,
        'f' as u8,
        'n' as u8,
        'f' as u8,
        'i' as u8,
        'l' as u8,
        'e' as u8,
        '%' as u8,
        '(' as u8,
    ];
    proof {
        assert(fnvar@ =~= fnvar_open());
        assert(fnbksl@ =~= fnbksl_open());
        assert(fnfile@ =~= fnfile_open());
    }
    let n = stream.len();
    let mut e: usize = 0;
    loop
        invariant
            e <= n,
            n == stream@.len(),
            fnvar@ == fnvar_open(),
            fnbksl@ == fnbksl_open(),
            fnfile@ == fnfile_open(),
            forall|k: int|
                0 <= k < e && #[trigger] line_end_at(stream@, k) ==> {
                    let t = line_text_end(stream@, k);
                    !suffix_matches_ci(stream@, t, fnvar_open()) && !suffix_matches_ci(
                        stream@,
                        t,
                        fnbksl_open(),
                    ) && !suffix_matches_ci(stream@, t, fnfile_open())
                },
        decreases n - e,
    {
        if e == n || stream[e] == 10 {
            let t = if e > 0 && stream[e - 1] == 13 {
                e - 1
            } else {
                e
            };
            proof {
                assert(t as int == line_text_end(stream@, e as int));
            }
            if suffix_matches(stream, t, fnvar.as_slice()) || suffix_matches(
                stream,
                t,
                fnbksl.as_slice(),
            ) || suffix_matches(stream, t, fnfile.as_slice()) {
                proof {
                    assert(line_end_at(stream@, e as int));
                }
                return true;
            }
        }
        if e == n {
            proof {
                assert forall|k: int| !(#[trigger] line_end_at(stream@, k) && {
                    let t = line_text_end(stream@, k);
                    ||| suffix_matches_ci(stream@, t, fnvar_open())
                    ||| suffix_matches_ci(stream@, t, fnbksl_open())
                    ||| suffix_matches_ci(stream@, t, fnfile_open())
                }) by {
                    if line_end_at(stream@, k) && k < n {
                    }
                }
            }
            return false;
        }
        e = e + 1;
    }
}

/// Whether the stream bytes form a well-formed source-index stream.
pub uninterp spec fn srcsrv_parses(stream: Seq<u8>) -> bool;

/// Relies on `srcsrv::SrcSrvStream::parse`: whether the stream is
/// well-formed. A function of the bytes alone. The parser reads past the
/// end of a hazardous value (see [`srcsrv_stream_hazardous`]), so such
/// streams are excluded here and must be rejected by the caller first.
#[verifier::external_body]
pub(crate) fn srcsrv_parse_check(stream: &[u8]) -> (r: bool)
    requires
        !srcsrv_stream_hazardous(stream@),
    ensures
        r == srcsrv_parses(stream@),
{
    srcsrv::SrcSrvStream::parse(stream).is_ok()
}

/// The raw, unevaluated value of the named variable of the stream's
/// variables section (matched case-insensitively by the stream format).
/// `None` when the stream does not parse or has no such variable.
pub uninterp spec fn raw_var_of(stream: Seq<u8>, name: Seq<char>) -> Option<Seq<char>>;

/// Relies on `srcsrv::SrcSrvStream::get_raw_var`: the raw text of a
/// variable. A function of the stream bytes and the name alone. Streams
/// on which the parse would read past the end of a value (see
/// [`srcsrv_stream_hazardous`]) are excluded.
#[verifier::external_body]
pub(crate) fn srcsrv_raw_var(stream: &[u8], name: &str) -> (r: Option<String>)
    requires
        !srcsrv_stream_hazardous(stream@),
    ensures
        match r {
            Some(s) => raw_var_of(stream@, name@) == Some(s@),
            None => raw_var_of(stream@, name@) is None,
        },
{
    let parsed = match srcsrv::SrcSrvStream::parse(stream) { Ok(s) => s, Err(_) => return None };
    match parsed.get_raw_var(name) { Some(v) => Some(v.to_owned()), None => None }
}

/// What the stream prescribes for obtaining the source of `path`, with
/// `targ` as the extraction base directory. A function of the stream
/// bytes, the path and the base alone.
pub uninterp spec fn retrieval_of(
    stream: Seq<u8>,
    path: Seq<char>,
    targ: Seq<char>,
) -> SourceRetrievalView;

/// Relies on `srcsrv::SrcSrvStream::source_and_raw_var_values_for_path`:
/// evaluates the file entry for `path`. A direct download URL is returned
/// as `Download`; a command template as `Command` with the evaluated
/// values of variables 4 and 5; a missing entry, an unparseable stream, an
/// evaluation error, and any other method all yield `NoMapping`. Streams
/// on which the parse would read past the end of a value (see
/// [`srcsrv_stream_hazardous`]) are excluded.
#[verifier::external_body]
pub(crate) fn source_retrieval(stream: &[u8], path: &str, targ: &str) -> (r: SourceRetrieval)
    requires
        !srcsrv_stream_hazardous(stream@),
    ensures
        r@ == retrieval_of(stream@, path@, targ@),
{
    let parsed = match srcsrv::SrcSrvStream::parse(stream) { Ok(s) => s, Err(_) => return SourceRetrieval::NoMapping };
    match parsed.source_and_raw_var_values_for_path(path, targ) {
        Ok(Some((srcsrv::SourceRetrievalMethod::Download { url }, _))) => SourceRetrieval::Download { url },
        Ok(Some((srcsrv::SourceRetrievalMethod::ExecuteCommand { .. }, map))) => SourceRetrieval::Command {
            var4: map.get("var4").cloned(),
            var5: map.get("var5").cloned(),
        },
        _ => SourceRetrieval::NoMapping,
    }
}

} // verus!
