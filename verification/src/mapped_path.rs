//! Structured "permalink" paths: location-independent descriptions of a
//! source file that replace raw, build-machine-specific paths.

use vstd::prelude::*;
use vstd::string::StringExecFns;

verus! {

/// A permalink for one source file. Each variant fully determines a
/// canonical external string form, produced by [`MappedPath::to_special_path`].
#[derive(Debug)]
pub enum MappedPath {
    /// A file in a git repository, pinned to a revision.
    Git { repo: String, path: String, rev: String },
    /// A file in a Mercurial repository, pinned to a revision.
    Mercurial { repo: String, path: String, rev: String },
    /// A file in an object-storage bucket.
    S3 { bucket: String, digest_and_path: String },
    /// A plain URL the file can be downloaded from.
    Url(String),
}

/// Mathematical content of a `MappedPath`.
pub enum MappedPathView {
    Git { repo: Seq<char>, path: Seq<char>, rev: Seq<char> },
    Mercurial { repo: Seq<char>, path: Seq<char>, rev: Seq<char> },
    S3 { bucket: Seq<char>, digest_and_path: Seq<char> },
    Url(Seq<char>),
}

impl View for MappedPath {
    type V = MappedPathView;

    open spec fn view(&self) -> MappedPathView {
        match self {
            MappedPath::Git { repo, path, rev } => MappedPathView::Git {
                repo: repo@,
                path: path@,
                rev: rev@,
            },
            MappedPath::Mercurial { repo, path, rev } => MappedPathView::Mercurial {
                repo: repo@,
                path: path@,
                rev: rev@,
            },
            MappedPath::S3 { bucket, digest_and_path } => MappedPathView::S3 {
                bucket: bucket@,
                digest_and_path: digest_and_path@,
            },
            MappedPath::Url(url) => MappedPathView::Url(url@),
        }
    }
}

/// The canonical external string form of a permalink:
/// `git:<repo>:<path>:<rev>`, `hg:<repo>:<path>:<rev>`,
/// `s3:<bucket>:<digest_and_path>:`, or the URL itself.
pub open spec fn special_path_of(p: MappedPathView) -> Seq<char> {
    match p {
        MappedPathView::Git { repo, path, rev } => "git:"@ + repo + ":"@ + path + ":"@ + rev,
        MappedPathView::Mercurial { repo, path, rev } => "hg:"@ + repo + ":"@ + path + ":"@
            + rev,
        MappedPathView::S3 { bucket, digest_and_path } => "s3:"@ + bucket + ":"@
            + digest_and_path + ":"@,
        MappedPathView::Url(url) => url,
    }
}

impl MappedPath {
    /// Emit the canonical external string form of this permalink.
    pub fn to_special_path(&self) -> (r: String)
        ensures
            r@ == special_path_of(self@),
    {
        match self {
            MappedPath::Git { repo, path, rev } => {
                let mut s = String::from_str("git:");
                s.append(repo.as_str());
                s.append(":");
                s.append(path.as_str());
                s.append(":");
                s.append(rev.as_str());
                s
            },
            MappedPath::Mercurial { repo, path, rev } => {
                let mut s = String::from_str("hg:");
                s.append(repo.as_str());
                s.append(":");
                s.append(path.as_str());
                s.append(":");
                s.append(rev.as_str());
                s
            },
            MappedPath::S3 { bucket, digest_and_path } => {
                let mut s = String::from_str("s3:");
                s.append(bucket.as_str());
                s.append(":");
                s.append(digest_and_path.as_str());
                s.append(":");
                s
            },
            MappedPath::Url(url) => url.clone(),
        }
    }

    /// A copy of this permalink with the same content.
    pub fn duplicate(&self) -> (r: MappedPath)
        ensures
            r@ == self@,
    {
        match self {
            MappedPath::Git { repo, path, rev } => MappedPath::Git {
                repo: repo.clone(),
                path: path.clone(),
                rev: rev.clone(),
            },
            MappedPath::Mercurial { repo, path, rev } => MappedPath::Mercurial {
                repo: repo.clone(),
                path: path.clone(),
                rev: rev.clone(),
            },
            MappedPath::S3 { bucket, digest_and_path } => MappedPath::S3 {
                bucket: bucket.clone(),
                digest_and_path: digest_and_path.clone(),
            },
            MappedPath::Url(url) => MappedPath::Url(url.clone()),
        }
    }
}

/// Content of an optional permalink.
pub open spec fn opt_path_view(p: Option<MappedPath>) -> Option<MappedPathView> {
    match p {
        Some(m) => Some(m@),
        None => None,
    }
}

/// A copy of an optional permalink with the same content.
pub fn duplicate_opt(p: &Option<MappedPath>) -> (r: Option<MappedPath>)
    ensures
        match p {
            Some(m) => r matches Some(n) && n@ == m@,
            None => r is None,
        },
{
    match p {
        Some(m) => Some(m.duplicate()),
        None => None,
    }
}

impl PartialEq for MappedPath {
    fn eq(&self, other: &MappedPath) -> (r: bool) {
        match (self, other) {
            (
                MappedPath::Git { repo: a, path: b, rev: c },
                MappedPath::Git { repo: x, path: y, rev: z },
            ) => a.eq(x) && b.eq(y) && c.eq(z),
            (
                MappedPath::Mercurial { repo: a, path: b, rev: c },
                MappedPath::Mercurial { repo: x, path: y, rev: z },
            ) => a.eq(x) && b.eq(y) && c.eq(z),
            (
                MappedPath::S3 { bucket: a, digest_and_path: b },
                MappedPath::S3 { bucket: x, digest_and_path: y },
            ) => a.eq(x) && b.eq(y),
            (MappedPath::Url(a), MappedPath::Url(x)) => a.eq(x),
            _ => false,
        }
    }
}

impl vstd::std_specs::cmp::PartialEqSpecImpl for MappedPath {
    open spec fn obeys_eq_spec() -> bool {
        true
    }

    open spec fn eq_spec(&self, other: &MappedPath) -> bool {
        match (self, other) {
            (
                MappedPath::Git { repo: a, path: b, rev: c },
                MappedPath::Git { repo: x, path: y, rev: z },
            ) => a@ == x@ && b@ == y@ && c@ == z@,
            (
                MappedPath::Mercurial { repo: a, path: b, rev: c },
                MappedPath::Mercurial { repo: x, path: y, rev: z },
            ) => a@ == x@ && b@ == y@ && c@ == z@,
            (
                MappedPath::S3 { bucket: a, digest_and_path: b },
                MappedPath::S3 { bucket: x, digest_and_path: y },
            ) => a@ == x@ && b@ == y@,
            (MappedPath::Url(a), MappedPath::Url(x)) => a@ == x@,
            _ => false,
        }
    }
}

} // verus!
