//! Helpers when loading configuration files: where a file lies, the dotted
//! path of a setting, and the checks that settings are given.

use vstd::prelude::*;
use crate::error::ContextError;
use crate::path::{join_path, path_parent, spec_join_path, spec_path_parent};
use crate::text::{push_char, push_str, str_eq, string_views, trim, spec_trim};

verus! {

/// `"` + text + `"`
pub open spec fn spec_quote(s: Seq<char>) -> Seq<char> {
    seq!['"'] + s + seq!['"']
}

/// the text between double quotes
pub fn quote(s: &str) -> (rtn: String)
    ensures
        rtn@ == spec_quote(s@),
{
    let mut rtn = String::new();
    push_char(&mut rtn, '"');
    push_str(&mut rtn, s);
    push_char(&mut rtn, '"');
    assert(rtn@ =~= spec_quote(s@));
    rtn
}

/// the paths of a config file
#[derive(Debug)]
pub struct SrcFile {
    /// the parent directory of the config file
    parent: String,
    /// the full path of the config file
    src: String,
}

impl SrcFile {
    pub closed spec fn spec_parent(&self) -> Seq<char> {
        self.parent@
    }

    pub closed spec fn spec_src(&self) -> Seq<char> {
        self.src@
    }

    /// how the file is named in messages: its path in quotes
    pub open spec fn spec_display(&self) -> Seq<char> {
        spec_quote(self.spec_src())
    }

    /// creates the SrcFile from the given path; fails when the path has no
    /// parent directory
    pub fn new(src: &str) -> (rtn: Result<Self, ContextError>)
        ensures
            match rtn {
                Ok(file) => spec_path_parent(src@) == Some(file.spec_parent()) && file.spec_src() == src@,
                Err(e) => spec_path_parent(src@) is None && e.spec_cxt()
                    == "failed to retrieve parent path from source file "@ + spec_quote(src@),
            },
    {
        match path_parent(src) {
            Some(parent) => {
                let mut owned = String::new();
                push_str(&mut owned, src);
                Ok(SrcFile { parent, src: owned })
            },
            None => {
                let mut msg = String::new();
                push_str(&mut msg, "failed to retrieve parent path from source file ");
                let q = quote(src);
                push_str(&mut msg, q.as_str());
                Err(ContextError::context(msg))
            },
        }
    }

    /// resolves a given path against the directory of the config file
    pub fn normalize(&self, given: &str) -> (rtn: String)
        ensures
            rtn@ == spec_join_path(self.spec_parent(), given@),
    {
        join_path(self.parent.as_str(), given)
    }

    /// how the file is named in messages: its path in quotes
    pub fn display(&self) -> (rtn: String)
        ensures
            rtn@ == self.spec_display(),
    {
        quote(self.src.as_str())
    }
}

/// a value put between double quotes when shown
pub struct Quote(pub String);

impl Quote {
    /// the text of the value between double quotes
    pub fn display(&self) -> (rtn: String)
        ensures
            rtn@ == spec_quote(self.0@),
    {
        quote(self.0.as_str())
    }
}

/// the names of a dotted path, joined by `.`
pub open spec fn spec_dot_text(names: Seq<Seq<char>>) -> Seq<char>
    decreases names.len(),
{
    if names.len() == 0 {
        Seq::empty()
    } else if names.len() == 1 {
        names[0]
    } else {
        spec_dot_text(names.drop_last()) + seq!['.'] + names.last()
    }
}

/// a list of names that stand for the dotted path to a setting
#[derive(Clone)]
pub struct DotPath(Vec<String>);

impl View for DotPath {
    type V = Seq<Seq<char>>;

    closed spec fn view(&self) -> Seq<Seq<char>> {
        string_views(self.0@)
    }
}

impl DotPath {
    /// the dotted text of the path
    pub open spec fn spec_display(&self) -> Seq<char> {
        spec_dot_text(self@)
    }

    /// creates a new DotPath with a single name
    pub fn new(name: &str) -> (rtn: Self)
        ensures
            rtn@ == seq![name@],
    {
        let mut v: Vec<String> = Vec::new();
        let mut s = String::new();
        push_str(&mut s, name);
        v.push(s);
        let rtn = DotPath(v);
        assert(rtn@ =~= seq![name@]);
        rtn
    }

    /// the path extended by a name, leaving this path as it is
    pub fn push(&self, name: &str) -> (rtn: Self)
        ensures
            rtn@ == self@.push(name@),
    {
        let mut path: Vec<String> = Vec::new();
        let len = self.0.len();
        let mut i: usize = 0;
        while i < len
            invariant
                i <= len,
                len == self.0@.len(),
                path@.len() == i,
                forall|j: int| 0 <= j < i ==> #[trigger] path@[j]@ == self.0@[j]@,
            decreases len - i,
        {
            let mut s = String::new();
            push_str(&mut s, self.0[i].as_str());
            path.push(s);
            i = i + 1;
        }
        let mut s = String::new();
        push_str(&mut s, name);
        path.push(s);
        let rtn = DotPath(path);
        assert(rtn@ =~= self@.push(name@));
        rtn
    }

    /// the dotted text of the path
    pub fn display(&self) -> (rtn: String)
        ensures
            rtn@ == self.spec_display(),
    {
        let mut rtn = String::new();
        let len = self.0.len();
        let mut i: usize = 0;
        while i < len
            invariant
                i <= len,
                len == self@.len(),
                rtn@ == spec_dot_text(self@.take(i as int)),
            decreases len - i,
        {
            let ghost before = rtn@;
            if i > 0 {
                push_char(&mut rtn, '.');
            }
            push_str(&mut rtn, self.0[i].as_str());
            proof {
                let t = self@.take(i + 1);
                assert(t.drop_last() =~= self@.take(i as int));
                assert(t.last() == self.0@[i as int]@);
                if i == 0 {
                    assert(rtn@ =~= spec_dot_text(t));
                } else {
                    assert(rtn@ =~= spec_dot_text(t));
                }
            }
            i = i + 1;
        }
        assert(self@.take(len as int) =~= self@);
        rtn
    }
}

/// what the file system holds at a path
#[derive(Debug, Clone, Copy, PartialEq, Eq, Structural)]
pub enum PathState {
    /// nothing is at the path
    NotFound,
    /// a file is at the path
    File,
    /// a directory is at the path
    Dir,
    /// something else is at the path
    Other,
    /// the metadata of the path could not be retrieved
    Failed,
}

/// what has been learned of the file system and of listener addresses
/// while loading settings
pub struct Facts {
    /// what is at each looked up path
    pub paths: Vec<(String, PathState)>,
    /// each looked up listener address and its canonical form, or `None`
    /// when it is not a valid address
    pub addrs: Vec<(String, Option<String>)>,
}

/// the first entry for `key`, if any
pub open spec fn spec_lookup<V>(entries: Seq<(Seq<char>, V)>, key: Seq<char>) -> Option<V>
    decreases entries.len(),
{
    if entries.len() == 0 {
        None
    } else if entries[0].0 == key {
        Some(entries[0].1)
    } else {
        spec_lookup(entries.drop_first(), key)
    }
}

impl Facts {
    /// the looked up paths with their states
    pub open spec fn spec_paths(&self) -> Seq<(Seq<char>, PathState)> {
        self.paths@.map_values(|e: (String, PathState)| (e.0@, e.1))
    }

    /// the looked up addresses with their canonical forms
    pub open spec fn spec_addrs(&self) -> Seq<(Seq<char>, Option<Seq<char>>)> {
        self.addrs@.map_values(
            |e: (String, Option<String>)|
                (
                    e.0@,
                    match e.1 {
                        Some(a) => Some(a@),
                        None => None,
                    },
                ),
        )
    }

    /// nothing learned yet
    pub fn new() -> (rtn: Self)
        ensures
            rtn.spec_paths() == Seq::<(Seq<char>, PathState)>::empty(),
            rtn.spec_addrs() == Seq::<(Seq<char>, Option<Seq<char>>)>::empty(),
    {
        let rtn = Facts { paths: Vec::new(), addrs: Vec::new() };
        assert(rtn.spec_paths() =~= Seq::<(Seq<char>, PathState)>::empty());
        assert(rtn.spec_addrs() =~= Seq::<(Seq<char>, Option<Seq<char>>)>::empty());
        rtn
    }

    /// what is known of a path
    pub fn path_state(&self, path: &str) -> (rtn: Option<PathState>)
        ensures
            rtn == spec_lookup(self.spec_paths(), path@),
    {
        let len = self.paths.len();
        let mut i: usize = 0;
        assert(self.spec_paths().skip(0) =~= self.spec_paths());
        while i < len
            invariant
                i <= len,
                len == self.paths@.len(),
                spec_lookup(self.spec_paths(), path@) == spec_lookup(
                    self.spec_paths().skip(i as int),
                    path@,
                ),
            decreases len - i,
        {
            let ghost rest = self.spec_paths().skip(i as int);
            assert(rest.drop_first() =~= self.spec_paths().skip(i + 1));
            if str_eq(self.paths[i].0.as_str(), path) {
                return Some(self.paths[i].1);
            }
            i = i + 1;
        }
        None
    }

    /// what is known of an address: `Some(Some(canonical))`, `Some(None)`
    /// for an invalid address, or `None` when it was not looked up
    pub fn addr_state(&self, addr: &str) -> (rtn: Option<Option<String>>)
        ensures
            match rtn {
                Some(Some(a)) => spec_lookup(self.spec_addrs(), addr@) == Some(Some(a@)),
                Some(None) => spec_lookup(self.spec_addrs(), addr@) == Some(None::<Seq<char>>),
                None => spec_lookup(self.spec_addrs(), addr@) is None,
            },
    {
        let len = self.addrs.len();
        let mut i: usize = 0;
        assert(self.spec_addrs().skip(0) =~= self.spec_addrs());
        while i < len
            invariant
                i <= len,
                len == self.addrs@.len(),
                spec_lookup(self.spec_addrs(), addr@) == spec_lookup(
                    self.spec_addrs().skip(i as int),
                    addr@,
                ),
            decreases len - i,
        {
            let ghost rest = self.spec_addrs().skip(i as int);
            assert(rest.drop_first() =~= self.spec_addrs().skip(i + 1));
            if str_eq(self.addrs[i].0.as_str(), addr) {
                return match &self.addrs[i].1 {
                    Some(a) => {
                        let mut s = String::new();
                        push_str(&mut s, a.as_str());
                        Some(Some(s))
                    },
                    None => Some(None),
                };
            }
            i = i + 1;
        }
        None
    }
}

/// why merging settings stopped
#[derive(Debug)]
pub enum MergeError {
    /// the settings are refused with this error
    Invalid(ContextError),
    /// what is at this path must be looked up first
    NeedPath(String),
    /// this listener address must be parsed first
    NeedAddr(String),
}

/// why merging settings stopped, as plain text
pub enum MergeStop {
    Invalid(Seq<char>),
    NeedPath(Seq<char>),
    NeedAddr(Seq<char>),
}

impl View for MergeError {
    type V = MergeStop;

    open spec fn view(&self) -> MergeStop {
        match self {
            MergeError::Invalid(e) => MergeStop::Invalid(e.spec_cxt()),
            MergeError::NeedPath(p) => MergeStop::NeedPath(p@),
            MergeError::NeedAddr(a) => MergeStop::NeedAddr(a@),
        }
    }
}

/// the outcome of checking that a path exists as a file (`is_file`) or a
/// directory, given what is known of it
pub open spec fn spec_check_path(
    given: Seq<char>,
    src: Seq<char>,
    dot: Seq<char>,
    is_file: bool,
    paths: Seq<(Seq<char>, PathState)>,
) -> Result<(), MergeStop> {
    let q = spec_quote(given);
    match spec_lookup(paths, given) {
        None => Err(MergeStop::NeedPath(given)),
        Some(PathState::Failed) => Err(
            MergeStop::Invalid(dot + " failed to retrieve metadata for "@ + q + " in "@ + src),
        ),
        Some(PathState::NotFound) => Err(MergeStop::Invalid(dot + " "@ + q + " was not found "@ + src)),
        Some(PathState::File) => if is_file {
            Ok(())
        } else {
            Err(MergeStop::Invalid(dot + " "@ + q + " is not a directory in "@ + src))
        },
        Some(PathState::Dir) => if is_file {
            Err(MergeStop::Invalid(dot + " "@ + q + " is not a file in "@ + src))
        } else {
            Ok(())
        },
        Some(PathState::Other) => if is_file {
            Err(MergeStop::Invalid(dot + " "@ + q + " is not a file in "@ + src))
        } else {
            Err(MergeStop::Invalid(dot + " "@ + q + " is not a directory in "@ + src))
        },
    }
}

/// the view of a result whose error is a `MergeError`
pub open spec fn spec_merge_result<T>(r: Result<T, MergeError>) -> Result<T, MergeStop> {
    match r {
        Ok(v) => Ok(v),
        Err(e) => Err(e@),
    }
}

fn invalid_msg(dot: &DotPath, q: &str, middle: &str, src: &SrcFile) -> (rtn: MergeError)
    ensures
        rtn@ == MergeStop::Invalid(dot.spec_display() + middle@ + q@ + src.spec_display()),
{
    let mut msg = dot.display();
    push_str(&mut msg, middle);
    push_str(&mut msg, q);
    let s = src.display();
    push_str(&mut msg, s.as_str());
    MergeError::Invalid(ContextError::context(msg))
}

/// checks that a given path exists as a file (`is_file`) or as a
/// directory, by what is known of it
pub fn check_path(given: &str, src: &SrcFile, dot: &DotPath, is_file: bool, facts: &Facts) -> (rtn: Result<(), MergeError>)
    ensures
        spec_merge_result(rtn) == spec_check_path(given@, src.spec_display(), dot.spec_display(), is_file, facts.spec_paths()),
{
    let q = quote(given);
    let qs = q.as_str();
    proof {
        reveal_strlit(" failed to retrieve metadata for ");
        reveal_strlit(" in ");
        reveal_strlit(" ");
        reveal_strlit(" was not found ");
        reveal_strlit(" is not a directory in ");
        reveal_strlit(" is not a file in ");
    }
    match facts.path_state(given) {
        None => {
            let mut p = String::new();
            push_str(&mut p, given);
            Err(MergeError::NeedPath(p))
        },
        Some(PathState::Failed) => {
            let mut middle = String::new();
            push_str(&mut middle, " failed to retrieve metadata for ");
            push_str(&mut middle, qs);
            push_str(&mut middle, " in ");
            let e = invalid_msg(dot, "", middle.as_str(), src);
            assert(e@ == spec_check_path(given@, src.spec_display(), dot.spec_display(), is_file, facts.spec_paths())->Err_0) by {
                reveal_strlit("");
                assert(dot.spec_display() + middle@ + ""@ + src.spec_display() =~= dot.spec_display() + " failed to retrieve metadata for "@ + spec_quote(given@) + " in "@ + src.spec_display());
            }
            Err(e)
        },
        Some(PathState::NotFound) => {
            let mut middle = String::new();
            push_str(&mut middle, " ");
            push_str(&mut middle, qs);
            push_str(&mut middle, " was not found ");
            let e = invalid_msg(dot, "", middle.as_str(), src);
            assert(e@ == spec_check_path(given@, src.spec_display(), dot.spec_display(), is_file, facts.spec_paths())->Err_0) by {
                reveal_strlit("");
                assert(dot.spec_display() + middle@ + ""@ + src.spec_display() =~= dot.spec_display() + " "@ + spec_quote(given@) + " was not found "@ + src.spec_display());
            }
            Err(e)
        },
        Some(state) => {
            let ok = if is_file {
                match state {
                    PathState::File => true,
                    _ => false,
                }
            } else {
                match state {
                    PathState::Dir => true,
                    _ => false,
                }
            };
            if ok {
                Ok(())
            } else {
                let mut middle = String::new();
                push_str(&mut middle, " ");
                push_str(&mut middle, qs);
                if is_file {
                    push_str(&mut middle, " is not a file in ");
                } else {
                    push_str(&mut middle, " is not a directory in ");
                }
                let e = invalid_msg(dot, "", middle.as_str(), src);
                assert(e@ == spec_check_path(given@, src.spec_display(), dot.spec_display(), is_file, facts.spec_paths())->Err_0) by {
                    reveal_strlit("");
                    if is_file {
                        assert(dot.spec_display() + middle@ + ""@ + src.spec_display() =~= dot.spec_display() + " "@ + spec_quote(given@) + " is not a file in "@ + src.spec_display());
                    } else {
                        assert(dot.spec_display() + middle@ + ""@ + src.spec_display() =~= dot.spec_display() + " "@ + spec_quote(given@) + " is not a directory in "@ + src.spec_display());
                    }
                }
                Err(e)
            }
        },
    }
}

/// what `url::Url::parse` followed by `Url::path_segments` gives for a
/// text: `None` when the text is not a valid url, else the segments of its
/// path
pub uninterp spec fn spec_url_path_segments(s: Seq<char>) -> Option<Seq<Seq<char>>>;

/// Calls `url::Url::parse` and reads the path segments of the parsed url.
/// The result is named `spec_url_path_segments` of the text; the url
/// grammar is not written out here.
#[verifier::external_body]
fn url_path_segments(s: &str) -> (rtn: Option<Vec<String>>)
    ensures
        match rtn {
            Some(v) => spec_url_path_segments(s@) == Some(string_views(v@)),
            None => spec_url_path_segments(s@) is None,
        },
{
    match url::Url::parse(s) {
        Ok(url) => Some(url.path_segments().into_iter().flatten().map(|p| p.to_string()).collect()),
        Err(_) => None,
    }
}

/// the text that a url key is checked as, and the key that is kept
pub open spec fn spec_url_key_parts(given: Seq<char>) -> (Seq<char>, Seq<char>) {
    let trimmed = spec_trim(given);
    if trimmed.len() > 0 && trimmed[0] == '/' {
        ("https://localhost"@ + trimmed, trimmed)
    } else {
        ("https://localhost/"@ + trimmed, seq!['/'] + trimmed)
    }
}

/// whether a url path has a `.` or `..` segment
pub open spec fn has_dot_segment(segs: Seq<Seq<char>>) -> bool {
    exists|i: int| 0 <= i < segs.len() && (segs[i] == ".."@ || segs[i] == "."@)
}

/// the outcome of sanitizing a url key: the key with a leading `/`, or an
/// error when it does not parse as a url path or has a `.` or `..` segment
pub open spec fn spec_sanitize_url_key(given: Seq<char>, src: Seq<char>, dot: Seq<char>) -> Result<Seq<char>, MergeStop> {
    let (to_parse, rtn) = spec_url_key_parts(given);
    let msg = dot + " \""@ + given + "\" is not a valid url path. file: "@ + src;
    match spec_url_path_segments(to_parse) {
        None => Err(MergeStop::Invalid(msg)),
        Some(segs) => if has_dot_segment(segs) {
            Err(MergeStop::Invalid(msg))
        } else {
            Ok(rtn)
        },
    }
}

/// sanitizes a given string as a url path and returns the resulting key
pub fn sanitize_url_key(given: &str, src: &SrcFile, dot: &DotPath) -> (rtn: Result<String, MergeError>)
    ensures
        match rtn {
            Ok(k) => spec_sanitize_url_key(given@, src.spec_display(), dot.spec_display()) == Ok::<Seq<char>, MergeStop>(k@),
            Err(e) => spec_sanitize_url_key(given@, src.spec_display(), dot.spec_display()) == Err::<Seq<char>, MergeStop>(e@),
        },
{
    let trimmed = trim(given);
    let mut rtn = String::new();
    let mut to_parse = String::new();
    if trimmed.unicode_len() > 0 && trimmed.get_char(0) == '/' {
        push_str(&mut rtn, trimmed);
        push_str(&mut to_parse, "https://localhost");
        push_str(&mut to_parse, trimmed);
    } else {
        push_char(&mut rtn, '/');
        push_str(&mut rtn, trimmed);
        push_str(&mut to_parse, "https://localhost/");
        push_str(&mut to_parse, trimmed);
    }
    proof {
        assert(to_parse@ =~= spec_url_key_parts(given@).0);
        assert(rtn@ =~= spec_url_key_parts(given@).1);
    }
    let mut msg = dot.display();
    push_str(&mut msg, " \"");
    push_str(&mut msg, given);
    push_str(&mut msg, "\" is not a valid url path. file: ");
    let s = src.display();
    push_str(&mut msg, s.as_str());
    assert(msg@ =~= dot.spec_display() + " \""@ + given@ + "\" is not a valid url path. file: "@ + src.spec_display());
    match url_path_segments(to_parse.as_str()) {
        None => Err(MergeError::Invalid(ContextError::context(msg))),
        Some(segs) => {
            let ghost views = string_views(segs@);
            let len = segs.len();
            let mut i: usize = 0;
            while i < len
                invariant
                    i <= len,
                    len == segs@.len(),
                    views == string_views(segs@),
                    spec_url_path_segments(to_parse@) == Some(views),
                    to_parse@ == spec_url_key_parts(given@).0,
                    rtn@ == spec_url_key_parts(given@).1,
                    msg@ == dot.spec_display() + " \""@ + given@ + "\" is not a valid url path. file: "@ + src.spec_display(),
                    forall|j: int| 0 <= j < i ==> !(views[j] == ".."@ || views[j] == "."@),
                decreases len - i,
            {
                let part = segs[i].as_str();
                if str_eq(part, "..") || str_eq(part, ".") {
                    assert(views[i as int] == segs@[i as int]@);
                    let e = MergeError::Invalid(ContextError::context(msg));
                    assert(has_dot_segment(views));
                    return Err(e);
                }
                i = i + 1;
            }
            Ok(rtn)
        },
    }
}

} // verus!
