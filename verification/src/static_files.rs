//! Static file resolution.
//!
//! A request path is looked up under a fixed directory of prebuilt frontend
//! assets. An exact hit is served as it is. On a miss the path is retried
//! with an `.html` suffix appended (the rewritten URI keeps any query
//! string), so that pages can be addressed without their extension. When
//! both lookups miss, the answer is a plain not-found page; a request whose
//! URI carries no path at all is answered with a server error.
//!
//! `StaticDir` models the directory as the finite set of files it holds, so
//! the resolution rule is stated and checked over plain paths and bytes; the
//! caller fills it from, or mirrors it against, the directory on disk.

use vstd::prelude::*;
use vstd::string::StringExecFns;

verus! {

/// The path the fallback lookup uses: the request path with `.html` appended.
pub open spec fn fallback_path(path: Seq<char>) -> Seq<char> {
    path + ".html"@
}

/// The rewritten URI of the fallback lookup: `.html` is appended to the path
/// and any query string is kept behind it.
pub open spec fn fallback_uri(path: Seq<char>, query: Option<Seq<char>>) -> Seq<char> {
    match query {
        Option::Some(q) => path + ".html"@ + "?"@ + q,
        Option::None => path + ".html"@,
    }
}

/// The path and query string of one request's URI.
pub struct RequestTarget {
    pub path: String,
    pub query: Option<String>,
}

/// Build the fallback URI for a request: `fallback_uri` of its path and query.
pub fn rewrite_uri(target: &RequestTarget) -> (r: String)
    ensures
        r@ == fallback_uri(target.path@, target.query.deep_view()),
{
    let mut s: String = target.path.clone();
    s.append(".html");
    match &target.query {
        Option::Some(q) => {
            s.append("?");
            s.append(q.as_str());
        },
        Option::None => {},
    }
    proof {
        assert(s@ =~= fallback_uri(target.path@, target.query.deep_view()));
    }
    s
}

/// The first entry with the given path, searched from the front.
spec fn lookup(entries: Seq<(String, Vec<u8>)>, path: Seq<char>) -> Option<Seq<u8>>
    decreases entries.len(),
{
    if entries.len() == 0 {
        Option::None
    } else if entries[0].0@ == path {
        Option::Some(entries[0].1@)
    } else {
        lookup(entries.skip(1), path)
    }
}

/// The directory of static assets: each file a path with its bytes.
pub struct StaticDir {
    files: Vec<(String, Vec<u8>)>,
}

impl StaticDir {
    /// The bytes the directory holds at a path, if any.
    pub closed spec fn contents(&self, path: Seq<char>) -> Option<Seq<u8>> {
        lookup(self.files@, path)
    }

    /// An empty directory: no path has contents.
    pub fn new() -> (d: StaticDir)
        ensures
            forall|q: Seq<char>| d.contents(q) is None,
    {
        StaticDir { files: Vec::new() }
    }

    /// Put a file into the directory: the given path now holds the given
    /// bytes, and every other path is untouched.
    pub fn add_file(&mut self, path: String, bytes: Vec<u8>)
        ensures
            forall|q: Seq<char>|
                final(self).contents(q) == if q == path@ {
                    Option::Some(bytes@)
                } else {
                    old(self).contents(q)
                },
    {
        self.files.insert(0, (path, bytes));
        proof {
            assert(self.files@.skip(1) =~= old(self).files@);
        }
    }

    /// Look a path up: exactly `contents`.
    pub fn get<'a>(&'a self, path: &str) -> (r: Option<&'a Vec<u8>>)
        ensures
            match r {
                Option::Some(bytes) => self.contents(path@) == Option::Some(bytes@),
                Option::None => self.contents(path@) is None,
            },
    {
        let p: String = path.to_owned();
        let n = self.files.len();
        let mut i: usize = 0;
        proof {
            assert(self.files@.skip(0) =~= self.files@);
        }
        while i < n
            invariant
                n == self.files.len(),
                i <= n,
                p@ == path@,
                lookup(self.files@, path@) == lookup(self.files@.skip(i as int), path@),
            decreases n - i,
        {
            proof {
                assert(self.files@.skip(i as int)[0] == self.files@[i as int]);
                assert(self.files@.skip(i as int).skip(1) =~= self.files@.skip(i as int + 1));
            }
            if self.files[i].0 == p {
                return Option::Some(&self.files[i].1);
            }
            i = i + 1;
        }
        proof {
            assert(self.files@.skip(n as int) =~= Seq::<(String, Vec<u8>)>::empty());
        }
        Option::None
    }
}

/// The answer to one static-file request.
pub enum StaticOutcome<'a> {
    /// An asset was found: its bytes, served with status 200.
    Content(&'a Vec<u8>),
    /// Neither the path nor its `.html` fallback exists: status 404.
    NotFoundPage,
    /// The request URI carried no path and query: status 500.
    PathUnavailable,
}

impl<'a> StaticOutcome<'a> {
    /// The HTTP status code of this answer.
    pub fn status_code(&self) -> (s: u16)
        ensures
            *self is Content ==> s == 200,
            *self is NotFoundPage ==> s == 404,
            *self is PathUnavailable ==> s == 500,
    {
        match self {
            StaticOutcome::Content(_) => 200,
            StaticOutcome::NotFoundPage => 404,
            StaticOutcome::PathUnavailable => 500,
        }
    }
}

/// The body of the not-found answer.
pub fn not_found_body() -> (r: &'static str)
    ensures
        r@ == "Page not found"@,
{
    "Page not found"
}

/// The body of the answer to a URI without path and query.
pub fn missing_path_body() -> (r: &'static str)
    ensures
        r@ == "Failed to get path and query"@,
{
    "Failed to get path and query"
}

/// Resolve one request against the directory: serve the exact path when it
/// exists, else the path with `.html` appended when that exists, else the
/// not-found page; a request without a path gets the server error.
pub fn resolve<'a>(dir: &'a StaticDir, target: Option<&RequestTarget>) -> (r: StaticOutcome<'a>)
    ensures
        match target {
            Option::None => r is PathUnavailable,
            Option::Some(t) => match r {
                StaticOutcome::Content(bytes) => if dir.contents(t.path@) is Some {
                    dir.contents(t.path@) == Option::Some(bytes@)
                } else {
                    dir.contents(fallback_path(t.path@)) == Option::Some(bytes@)
                },
                StaticOutcome::NotFoundPage => dir.contents(t.path@) is None && dir.contents(
                    fallback_path(t.path@),
                ) is None,
                StaticOutcome::PathUnavailable => false,
            },
        },
{
    match target {
        Option::None => StaticOutcome::PathUnavailable,
        Option::Some(t) => {
            match dir.get(t.path.as_str()) {
                Option::Some(bytes) => StaticOutcome::Content(bytes),
                Option::None => {
                    let mut fb: String = t.path.clone();
                    fb.append(".html");
                    match dir.get(fb.as_str()) {
                        Option::Some(bytes) => StaticOutcome::Content(bytes),
                        Option::None => StaticOutcome::NotFoundPage,
                    }
                },
            }
        },
    }
}

} // verus!
