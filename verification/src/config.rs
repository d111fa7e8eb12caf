//! Server configuration: the shapes read from config files and the final
//! settings they are merged into.
//!
//! Merging never touches the file system: what is at a path, and what a
//! listener address parses to, come in a `Facts` value. When a merge needs
//! a fact that is not known yet it stops with `MergeError::NeedPath` or
//! `MergeError::NeedAddr`, and the caller looks it up and merges again.

pub mod meta;

use vstd::prelude::*;
use crate::path::{join_path, spec_join_path, spec_path_parent};
use crate::text::{ascii_lowercase, push_str, spec_ascii_lowercase, str_eq, string_views, to_owned_string};
use meta::{
    check_path, sanitize_url_key, spec_check_path, spec_dot_text, spec_lookup, spec_merge_result,
    spec_quote, spec_sanitize_url_key, DotPath, Facts, MergeError, MergeStop, Quote, SrcFile,
};

verus! {

/// the verbosity level of the tracing logs; each level includes the ones
/// before it
#[derive(Debug, Clone, Copy, PartialEq, Eq, Structural)]
pub enum Verbosity {
    Off,
    Error,
    Warn,
    Info,
    Debug,
    Trace,
}

impl View for Verbosity {
    type V = Verbosity;

    open spec fn view(&self) -> Verbosity {
        *self
    }
}

/// the lowercase name of a verbosity
pub open spec fn spec_verbosity_str(v: Verbosity) -> Seq<char> {
    match v {
        Verbosity::Off => "off"@,
        Verbosity::Error => "error"@,
        Verbosity::Warn => "warn"@,
        Verbosity::Info => "info"@,
        Verbosity::Debug => "debug"@,
        Verbosity::Trace => "trace"@,
    }
}

impl Verbosity {
    /// the lowercase name of the verbosity
    pub fn as_str(&self) -> (rtn: &'static str)
        ensures
            rtn@ == spec_verbosity_str(*self),
    {
        match self {
            Verbosity::Off => "off",
            Verbosity::Error => "error",
            Verbosity::Warn => "warn",
            Verbosity::Info => "info",
            Verbosity::Debug => "debug",
            Verbosity::Trace => "trace",
        }
    }
}

/// the command line arguments that the server accepts
#[derive(Debug)]
pub struct CliArgs {
    /// the config file to use when starting the server
    pub config_path: String,
    /// whether to generate test data for the server
    pub gen_test_data: bool,
}

/// the formats that logs can be written in
#[derive(Debug, Clone, Copy, PartialEq, Eq, Structural)]
pub enum LogFormat {
    /// all logs in valid JSON
    Json,
    /// a more human readable log output
    Pretty,
    /// compact log format
    Compact,
}

/// the kinds of rotation available for file logging output
#[derive(Debug, Clone, Copy, PartialEq, Eq, Structural)]
pub enum LoggingRotation {
    /// rotates logs every minute
    Minutely,
    /// rotates logs every hour
    Hourly,
    /// rotates logs every day
    Daily,
    /// consolidates logs to a single file
    Never,
}

/// a map from texts to values in which a later insert of a key replaces
/// the earlier one
#[derive(Debug)]
pub struct StrMap<V> {
    /// the entries in insertion order; for a key given more than once the
    /// last entry counts
    pub entries: Vec<(String, V)>,
}

/// the map that inserting the given entries in order gives
pub open spec fn spec_map_of<V: View>(entries: Seq<(String, V)>) -> Map<Seq<char>, V::V>
    decreases entries.len(),
{
    if entries.len() == 0 {
        Map::empty()
    } else {
        spec_map_of(entries.drop_last()).insert(entries.last().0@, entries.last().1@)
    }
}

impl<V: View> View for StrMap<V> {
    type V = Map<Seq<char>, V::V>;

    closed spec fn view(&self) -> Map<Seq<char>, V::V> {
        spec_map_of(self.entries@)
    }
}

impl<V: View> StrMap<V> {
    /// an empty map
    pub fn new() -> (rtn: Self)
        ensures
            rtn@ == Map::<Seq<char>, V::V>::empty(),
    {
        StrMap { entries: Vec::new() }
    }

    /// maps the key to the value, replacing what the key was mapped to
    pub fn insert(&mut self, key: String, value: V)
        ensures
            final(self)@ == old(self)@.insert(key@, value@),
    {
        let ghost before = self.entries@;
        self.entries.push((key, value));
        assert(self.entries@.drop_last() =~= before);
    }

    /// the entries in insertion order; for a key given more than once the
    /// last entry counts
    pub fn entries(&self) -> (rtn: &Vec<(String, V)>)
        ensures
            spec_map_of(rtn@) == self@,
    {
        &self.entries
    }
}

/// the texts of the optional strings
pub open spec fn opt_view(o: Option<String>) -> Option<Seq<char>> {
    match o {
        Some(s) => Some(s@),
        None => None,
    }
}

/// the text of the optional string, or the default
pub open spec fn opt_or(o: Option<String>, d: Seq<char>) -> Seq<char> {
    match o {
        Some(s) => s@,
        None => d,
    }
}

/// what merging is done against: the directory and quoted name of the
/// config file, and what is known of paths and addresses
pub struct MergeCtx {
    pub parent: Seq<char>,
    pub src: Seq<char>,
    pub paths: Seq<(Seq<char>, meta::PathState)>,
    pub addrs: Seq<(Seq<char>, Option<Seq<char>>)>,
}

/// the context of merging a file with the given facts
pub open spec fn spec_ctx(src: &SrcFile, facts: &Facts) -> MergeCtx {
    MergeCtx {
        parent: src.spec_parent(),
        src: src.spec_display(),
        paths: facts.spec_paths(),
        addrs: facts.spec_addrs(),
    }
}

/// the outcome of normalizing a path and checking it
pub open spec fn spec_checked_path(
    ctx: MergeCtx,
    given: Seq<char>,
    dot: Seq<Seq<char>>,
    is_file: bool,
) -> Result<Seq<char>, MergeStop> {
    let n = spec_join_path(ctx.parent, given);
    match spec_check_path(n, ctx.src, spec_dot_text(dot), is_file, ctx.paths) {
        Ok(()) => Ok(n),
        Err(e) => Err(e),
    }
}

/// normalizes a path against the directory of the config file and checks
/// it
fn checked_path(src: &SrcFile, given: &str, dot: &DotPath, is_file: bool, facts: &Facts) -> (rtn: Result<String, MergeError>)
    ensures
        match rtn {
            Ok(n) => spec_checked_path(spec_ctx(src, facts), given@, dot@, is_file) == Ok::<Seq<char>, MergeStop>(n@),
            Err(e) => spec_checked_path(spec_ctx(src, facts), given@, dot@, is_file) == Err::<Seq<char>, MergeStop>(e@),
        },
{
    let norm = src.normalize(given);
    match check_path(norm.as_str(), src, dot, is_file, facts) {
        Ok(()) => Ok(norm),
        Err(e) => Err(e),
    }
}

/// the structure of logging loaded from a config file
#[derive(Debug)]
pub struct LoggingShape {
    pub verbosity: Option<Verbosity>,
    pub format: Option<LogFormat>,
    pub directives: Option<Vec<(String, Verbosity)>>,
    pub output: Option<LoggingOutputShape>,
}

/// the structure of logging output loaded from a config file
#[derive(Debug)]
pub enum LoggingOutputShape {
    Stdio,
    File {
        directory: Option<String>,
        rotation: Option<LoggingRotation>,
        max_files: Option<usize>,
        prefix: Option<String>,
    },
}

/// the options for logging of the server
#[derive(Debug)]
pub struct Logging {
    pub verbosity: Verbosity,
    pub format: Option<LogFormat>,
    pub directives: StrMap<Verbosity>,
    pub output: LoggingOutput,
}

/// where logs are written
#[derive(Debug)]
pub enum LoggingOutput {
    /// logs are sent to stdout or stderr
    Stdio,
    /// logs are written to files in a directory
    File {
        /// the directory of the log files
        directory: String,
        /// how often a new log file is started
        rotation: LoggingRotation,
        /// the most log files kept
        max_files: Option<usize>,
        /// the name prefix of the log files
        prefix: String,
    },
}

/// where logs are written, as plain values
pub enum OutputView {
    Stdio,
    File { directory: Seq<char>, rotation: LoggingRotation, max_files: Option<usize>, prefix: Seq<char> },
}

impl View for LoggingOutput {
    type V = OutputView;

    open spec fn view(&self) -> OutputView {
        match self {
            LoggingOutput::Stdio => OutputView::Stdio,
            LoggingOutput::File { directory, rotation, max_files, prefix } => OutputView::File {
                directory: directory@,
                rotation: *rotation,
                max_files: *max_files,
                prefix: prefix@,
            },
        }
    }
}

/// the options of logging, as plain values
pub struct LoggingView {
    pub verbosity: Verbosity,
    pub format: Option<LogFormat>,
    pub directives: Map<Seq<char>, Verbosity>,
    pub output: OutputView,
}

impl View for Logging {
    type V = LoggingView;

    open spec fn view(&self) -> LoggingView {
        LoggingView {
            verbosity: self.verbosity,
            format: self.format,
            directives: self.directives@,
            output: self.output@,
        }
    }
}

/// the outcome of merging an output shape into the current output
pub open spec fn spec_output_merge(
    cur: OutputView,
    shape: LoggingOutputShape,
    ctx: MergeCtx,
    dot: Seq<Seq<char>>,
) -> Result<OutputView, MergeStop> {
    let dir_dot = dot.push("directory"@);
    match (cur, shape) {
        (_, LoggingOutputShape::Stdio) => Ok(OutputView::Stdio),
        (OutputView::Stdio, LoggingOutputShape::File { directory, rotation, max_files, prefix }) => {
            let d = opt_or(directory, Seq::empty());
            let checked = if d.len() == 0 {
                Ok(d)
            } else {
                spec_checked_path(ctx, d, dir_dot, false)
            };
            match checked {
                Err(e) => Err(e),
                Ok(dir) => Ok(
                    OutputView::File {
                        directory: dir,
                        rotation: match rotation {
                            Some(r) => r,
                            None => LoggingRotation::Daily,
                        },
                        max_files,
                        prefix: opt_or(prefix, "rsf_server"@),
                    },
                ),
            }
        },
        (
            OutputView::File { directory, rotation, max_files, prefix },
            LoggingOutputShape::File {
                directory: shape_dir,
                rotation: shape_rot,
                max_files: shape_max,
                prefix: shape_pfx,
            },
        ) => {
            let checked = match shape_dir {
                Some(d) => spec_checked_path(ctx, d@, dir_dot, false),
                None => Ok(directory),
            };
            match checked {
                Err(e) => Err(e),
                Ok(dir) => Ok(
                    OutputView::File {
                        directory: dir,
                        rotation: match shape_rot {
                            Some(r) => r,
                            None => rotation,
                        },
                        max_files: match shape_max {
                            Some(m) => Some(m),
                            None => max_files,
                        },
                        prefix: opt_or(shape_pfx, prefix),
                    },
                ),
            }
        },
    }
}

impl LoggingOutput {
    /// merges an output shape into this output
    pub fn merge(self, src: &SrcFile, dot: &DotPath, output: LoggingOutputShape, facts: &Facts) -> (rtn: Result<Self, MergeError>)
        ensures
            match rtn {
                Ok(o) => spec_output_merge(self@, output, spec_ctx(src, facts), dot@) == Ok::<OutputView, MergeStop>(o@),
                Err(e) => spec_output_merge(self@, output, spec_ctx(src, facts), dot@) == Err::<OutputView, MergeStop>(e@),
            },
    {
        let ghost old_self = self@;
        let ghost shape = output;
        match (self, output) {
            (LoggingOutput::Stdio, LoggingOutputShape::Stdio) => Ok(LoggingOutput::Stdio),
            (LoggingOutput::Stdio, LoggingOutputShape::File { directory, rotation, max_files, prefix }) => {
                let mut dir = match directory {
                    Some(d) => d,
                    None => String::new(),
                };
                if dir.unicode_len() != 0 {
                    let dir_dot = dot.push("directory");
                    dir = match checked_path(src, dir.as_str(), &dir_dot, false, facts) {
                        Ok(n) => n,
                        Err(e) => return Err(e),
                    };
                }
                Ok(LoggingOutput::File {
                    directory: dir,
                    rotation: match rotation {
                        Some(r) => r,
                        None => LoggingRotation::Daily,
                    },
                    max_files,
                    prefix: match prefix {
                        Some(p) => p,
                        None => to_owned_string("rsf_server"),
                    },
                })
            },
            (LoggingOutput::File { .. }, LoggingOutputShape::Stdio) => Ok(LoggingOutput::Stdio),
            (
                LoggingOutput::File { directory, rotation, max_files, prefix },
                LoggingOutputShape::File {
                    directory: shape_dir,
                    rotation: shape_rot,
                    max_files: shape_max,
                    prefix: shape_pfx,
                },
            ) => {
                let mut directory = directory;
                let mut rotation = rotation;
                let mut max_files = max_files;
                let mut prefix = prefix;
                if let Some(dir) = shape_dir {
                    let dir_dot = dot.push("directory");
                    directory = match checked_path(src, dir.as_str(), &dir_dot, false, facts) {
                        Ok(n) => n,
                        Err(e) => return Err(e),
                    };
                }
                if let Some(rot) = shape_rot {
                    rotation = rot;
                }
                if let Some(max) = shape_max {
                    max_files = Some(max);
                }
                if let Some(pfx) = shape_pfx {
                    prefix = pfx;
                }
                Ok(LoggingOutput::File { directory, rotation, max_files, prefix })
            },
        }
    }
}


/// the outcome of merging a logging shape into the current logging
pub open spec fn spec_logging_merge(
    cur: LoggingView,
    shape: LoggingShape,
    ctx: MergeCtx,
    dot: Seq<Seq<char>>,
) -> Result<LoggingView, MergeStop> {
    let directives = match shape.directives {
        Some(d) => spec_insert_all(cur.directives, d@),
        None => cur.directives,
    };
    let output = match shape.output {
        Some(o) => spec_output_merge(cur.output, o, ctx, dot.push("output"@)),
        None => Ok(cur.output),
    };
    match output {
        Err(e) => Err(e),
        Ok(out) => Ok(
            LoggingView {
                verbosity: match shape.verbosity {
                    Some(v) => v,
                    None => cur.verbosity,
                },
                format: shape.format,
                directives,
                output: out,
            },
        ),
    }
}

/// the map after inserting the entries in order
pub open spec fn spec_insert_all<V: View>(m: Map<Seq<char>, V::V>, entries: Seq<(String, V)>) -> Map<Seq<char>, V::V>
    decreases entries.len(),
{
    if entries.len() == 0 {
        m
    } else {
        spec_insert_all(m, entries.drop_last()).insert(entries.last().0@, entries.last().1@)
    }
}

/// the text of a tracing directive: the target, `=`, and the verbosity
pub open spec fn spec_directive_text(key: Seq<char>, v: Verbosity) -> Seq<char> {
    key + "="@ + spec_verbosity_str(v)
}

/// whether one of the entries has the key
pub open spec fn spec_has_key(entries: Seq<(String, Verbosity)>, key: Seq<char>) -> bool {
    exists|j: int| 0 <= j < entries.len() && (#[trigger] entries[j]).0@ == key
}

/// the directives of the entries: one for each key, from the last entry
/// with that key, in the order of those entries
pub open spec fn spec_directives(entries: Seq<(String, Verbosity)>) -> Seq<Seq<char>>
    decreases entries.len(),
{
    if entries.len() == 0 {
        Seq::empty()
    } else {
        let rest = entries.drop_first();
        if spec_has_key(rest, entries[0].0@) {
            spec_directives(rest)
        } else {
            seq![spec_directive_text(entries[0].0@, entries[0].1)] + spec_directives(rest)
        }
    }
}

/// whether an entry after the `i`th has the same key
fn given_later(entries: &Vec<(String, Verbosity)>, i: usize) -> (rtn: bool)
    requires
        i < entries.len(),
    ensures
        rtn == spec_has_key(entries@.skip(i as int + 1), entries@[i as int].0@),
{
    let mut j: usize = i + 1;
    while j < entries.len()
        invariant
            i < j <= entries.len(),
            forall|k: int| i < k < j ==> (#[trigger] entries@[k]).0@ != entries@[i as int].0@,
        decreases entries.len() - j,
    {
        if str_eq(entries[j].0.as_str(), entries[i].0.as_str()) {
            proof {
                let rest = entries@.skip(i as int + 1);
                assert(rest[j - i - 1] == entries@[j as int]);
            }
            return true;
        }
        j = j + 1;
    }
    proof {
        let rest = entries@.skip(i as int + 1);
        assert forall|k: int| 0 <= k < rest.len() implies (#[trigger] rest[k]).0@ != entries@[i as int].0@ by {
            assert(rest[k] == entries@[k + i + 1]);
        }
    }
    false
}

impl Logging {
    /// the logging options before any config file: logging off, no format,
    /// no directives, output to stdio
    pub fn default() -> (rtn: Self)
        ensures
            rtn@ == (LoggingView {
                verbosity: Verbosity::Off,
                format: None,
                directives: Map::empty(),
                output: OutputView::Stdio,
            }),
    {
        Logging {
            verbosity: Verbosity::Off,
            format: None,
            directives: StrMap::new(),
            output: LoggingOutput::Stdio,
        }
    }

    /// the tracing directives of the options: `target=verbosity`, one for
    /// each target
    pub fn directive_texts(&self) -> (rtn: Vec<String>)
        ensures
            string_views(rtn@) == spec_directives(self.directives.entries@),
    {
        let entries = &self.directives.entries;
        let mut rtn: Vec<String> = Vec::new();
        let mut i: usize = entries.len();
        while i > 0
            invariant
                i <= entries.len(),
                string_views(rtn@) == spec_directives(entries@.skip(i as int)),
            decreases i,
        {
            i = i - 1;
            let ghost rest = entries@.skip(i as int);
            assert(rest.drop_first() =~= entries@.skip(i as int + 1));
            if !given_later(entries, i) {
                let mut text = to_owned_string(entries[i].0.as_str());
                push_str(&mut text, "=");
                push_str(&mut text, entries[i].1.as_str());
                let ghost before = rtn@;
                rtn.insert(0, text);
                proof {
                    assert(string_views(rtn@) =~= seq![spec_directive_text(entries@[i as int].0@, entries@[i as int].1)]
                        + string_views(before));
                }
            }
        }
        assert(entries@.skip(0) =~= entries@);
        rtn
    }

    /// merges a logging shape into these options
    pub fn merge(&mut self, src: &SrcFile, dot: &DotPath, logging: LoggingShape, facts: &Facts) -> (rtn: Result<(), MergeError>)
        ensures
            match rtn {
                Ok(()) => spec_logging_merge(old(self)@, logging, spec_ctx(src, facts), dot@) == Ok::<LoggingView, MergeStop>(final(self)@),
                Err(e) => spec_logging_merge(old(self)@, logging, spec_ctx(src, facts), dot@) is Err
                    && spec_logging_merge(old(self)@, logging, spec_ctx(src, facts), dot@)->Err_0 == e@,
            },
    {
        let ghost shape = logging;
        if let Some(verbosity) = logging.verbosity {
            self.verbosity = verbosity;
        }
        self.format = logging.format;
        if let Some(directives) = logging.directives {
            let ghost start = self.directives@;
            let len = directives.len();
            let mut i: usize = 0;
            while i < len
                invariant
                    i <= len,
                    len == directives@.len(),
                    shape.directives == Some(directives),
                    self.directives@ == spec_insert_all(start, directives@.take(i as int)),
                    self.verbosity == (match shape.verbosity {
                        Some(v) => v,
                        None => old(self).verbosity,
                    }),
                    self.format == shape.format,
                    self.output == old(self).output,
                decreases len - i,
            {
                let key = directives[i].0.clone();
                let v = directives[i].1;
                self.directives.insert(key, v);
                assert(directives@.take(i + 1).drop_last() =~= directives@.take(i as int));
                i = i + 1;
            }
            assert(directives@.take(len as int) =~= directives@);
        }
        if let Some(output) = logging.output {
            let mut curr = LoggingOutput::Stdio;
            std::mem::swap(&mut curr, &mut self.output);
            let out_dot = dot.push("output");
            match curr.merge(src, &out_dot, output, facts) {
                Ok(o) => self.output = o,
                Err(e) => return Err(e),
            }
        }
        Ok(())
    }
}


/// the structure of a listener loaded from a config file
#[derive(Debug)]
pub struct ListenerShape {
    pub addr: String,
    pub tls: Option<TlsShape>,
}

/// a listener of the server
#[derive(Debug)]
pub struct Listener {
    /// the socket address to listen on, in its canonical text form
    pub addr: String,
    /// the key and certificate files when the listener serves tls
    pub tls: Option<Tls>,
}

/// a listener as plain values: its address, and the key and certificate
/// paths of its tls
pub type ListenerView = (Seq<char>, Option<(Seq<char>, Seq<char>)>);

/// the key and certificate paths of a listener's tls
pub open spec fn tls_view(tls: Option<Tls>) -> Option<(Seq<char>, Seq<char>)> {
    match tls {
        Some(t) => Some((t.key@, t.cert@)),
        None => None,
    }
}

/// a listener as plain values
pub open spec fn listener_view(l: Listener) -> ListenerView {
    (l.addr@, tls_view(l.tls))
}

/// the outcome of merging a tls shape: both paths resolved against the
/// config file's directory, and each a file
pub open spec fn spec_tls_merge(tls: TlsShape, ctx: MergeCtx, dot: Seq<Seq<char>>) -> Result<(Seq<char>, Seq<char>), MergeStop> {
    match (
        spec_checked_path(ctx, tls.key@, dot.push("key"@), true),
        spec_checked_path(ctx, tls.cert@, dot.push("cert"@), true),
    ) {
        (Err(e), _) => Err(e),
        (Ok(_), Err(e)) => Err(e),
        (Ok(k), Ok(c)) => Ok((k, c)),
    }
}

/// the outcome of merging a listener shape into a listener whose tls is
/// `prior`: the address must be valid, and a tls given in the shape
/// replaces the prior one
pub open spec fn spec_listener_merge(
    shape: ListenerShape,
    prior: Option<(Seq<char>, Seq<char>)>,
    ctx: MergeCtx,
    dot: Seq<Seq<char>>,
) -> Result<ListenerView, MergeStop> {
    match spec_lookup(ctx.addrs, shape.addr@) {
        None => Err(MergeStop::NeedAddr(shape.addr@)),
        Some(None) => Err(
            MergeStop::Invalid(spec_dot_text(dot) + ".addr invalid: \""@ + shape.addr@ + "\" file: "@ + ctx.src),
        ),
        Some(Some(a)) => match shape.tls {
            None => Ok((a, prior)),
            Some(t) => match spec_tls_merge(t, ctx, dot.push("tls"@)) {
                Err(e) => Err(e),
                Ok(kc) => Ok((a, Some(kc))),
            },
        },
    }
}

impl Listener {
    /// the default listener: every IPv6 address, port 8080, no tls
    pub fn default() -> (rtn: Self)
        ensures
            rtn.addr@ == "[::]:8080"@,
            rtn.tls is None,
    {
        Listener { addr: to_owned_string("[::]:8080"), tls: None }
    }

    /// merges a listener shape into this listener: its address must be a
    /// socket address, or an ip address that gets port 8080; a tls given
    /// in the shape is merged into an empty one and replaces this
    /// listener's
    pub fn merge(&mut self, src: &SrcFile, dot: &DotPath, listener: ListenerShape, facts: &Facts) -> (rtn: Result<(), MergeError>)
        ensures
            match rtn {
                Ok(()) => spec_listener_merge(listener, tls_view(old(self).tls), spec_ctx(src, facts), dot@)
                    == Ok::<ListenerView, MergeStop>(listener_view(*final(self))),
                Err(e) => spec_listener_merge(listener, tls_view(old(self).tls), spec_ctx(src, facts), dot@)
                    == Err::<ListenerView, MergeStop>(e@),
            },
    {
        match facts.addr_state(listener.addr.as_str()) {
            None => Err(MergeError::NeedAddr(listener.addr)),
            Some(None) => {
                let mut msg = dot.display();
                push_str(&mut msg, ".addr invalid: \"");
                push_str(&mut msg, listener.addr.as_str());
                push_str(&mut msg, "\" file: ");
                let s = src.display();
                push_str(&mut msg, s.as_str());
                Err(MergeError::Invalid(crate::error::ContextError::context(msg)))
            },
            Some(Some(a)) => {
                self.addr = a;
                match listener.tls {
                    None => Ok(()),
                    Some(t) => {
                        let tls_dot = dot.push("tls");
                        let mut base = Tls { key: String::new(), cert: String::new() };
                        match base.merge(src, &tls_dot, t, facts) {
                            Ok(()) => {
                                self.tls = Some(base);
                                Ok(())
                            },
                            Err(e) => Err(e),
                        }
                    },
                }
            },
        }
    }
}

/// the structure of a tls listener from a config file
#[derive(Debug)]
pub struct TlsShape {
    pub key: String,
    pub cert: String,
}

/// the files of a tls listener
#[derive(Debug)]
pub struct Tls {
    /// the path of the private key
    pub key: String,
    /// the path of the certificate
    pub cert: String,
}

impl Tls {
    /// merges a tls shape: both paths are resolved against the config
    /// file's directory and must be files
    pub fn merge(&mut self, src: &SrcFile, dot: &DotPath, tls: TlsShape, facts: &Facts) -> (rtn: Result<(), MergeError>)
        ensures
            match (
                spec_checked_path(spec_ctx(src, facts), tls.key@, dot@.push("key"@), true),
                spec_checked_path(spec_ctx(src, facts), tls.cert@, dot@.push("cert"@), true),
            ) {
                (Err(e), _) => rtn matches Err(r) && r@ == e,
                (Ok(_), Err(e)) => rtn matches Err(r) && r@ == e,
                (Ok(k), Ok(c)) => rtn is Ok && final(self).key@ == k && final(self).cert@ == c,
            },
    {
        let key_dot = dot.push("key");
        let cert_dot = dot.push("cert");
        self.key = src.normalize(tls.key.as_str());
        self.cert = src.normalize(tls.cert.as_str());
        match check_path(self.key.as_str(), src, &key_dot, true, facts) {
            Ok(()) => {},
            Err(e) => return Err(e),
        }
        match check_path(self.cert.as_str(), src, &cert_dot, true, facts) {
            Ok(()) => {},
            Err(e) => return Err(e),
        }
        Ok(())
    }
}

/// the structure of an assets config: url keys and the paths they serve
#[derive(Debug)]
pub struct AssetsShape {
    pub files: Option<Vec<(String, String)>>,
    pub directories: Option<Vec<(String, String)>>,
}

/// the files and directories that the server serves publicly, by url key
#[derive(Debug)]
pub struct Assets {
    /// files served when directly requested
    pub files: StrMap<String>,
    /// directories searched when a requested file is not in `files`
    pub directories: StrMap<String>,
}

/// the assets as plain values
pub struct AssetsView {
    pub files: Map<Seq<char>, Seq<char>>,
    pub directories: Map<Seq<char>, Seq<char>>,
}

impl View for Assets {
    type V = AssetsView;

    open spec fn view(&self) -> AssetsView {
        AssetsView { files: self.files@, directories: self.directories@ }
    }
}

/// the outcome of merging asset entries, in order, into a map: each url
/// key is sanitized and each path resolved and checked
pub open spec fn spec_assets_entries(
    m: Map<Seq<char>, Seq<char>>,
    entries: Seq<(String, String)>,
    ctx: MergeCtx,
    dot: Seq<Seq<char>>,
    is_file: bool,
) -> Result<Map<Seq<char>, Seq<char>>, MergeStop>
    decreases entries.len(),
{
    if entries.len() == 0 {
        Ok(m)
    } else {
        let (url_key, path) = entries[0];
        let key_dot = dot.push(spec_quote(url_key@));
        match spec_sanitize_url_key(url_key@, ctx.src, spec_dot_text(key_dot)) {
            Err(e) => Err(e),
            Ok(k) => match spec_checked_path(ctx, path@, key_dot, is_file) {
                Err(e) => Err(e),
                Ok(n) => spec_assets_entries(m.insert(k, n), entries.drop_first(), ctx, dot, is_file),
            },
        }
    }
}

/// merges asset entries into a map
fn merge_asset_entries(
    map: &mut StrMap<String>,
    entries: &Vec<(String, String)>,
    src: &SrcFile,
    dot: &DotPath,
    is_file: bool,
    facts: &Facts,
) -> (rtn: Result<(), MergeError>)
    ensures
        match rtn {
            Ok(()) => spec_assets_entries(old(map)@, entries@, spec_ctx(src, facts), dot@, is_file) == Ok::<Map<Seq<char>, Seq<char>>, MergeStop>(final(map)@),
            Err(e) => spec_assets_entries(old(map)@, entries@, spec_ctx(src, facts), dot@, is_file) == Err::<Map<Seq<char>, Seq<char>>, MergeStop>(e@),
        },
{
    let ghost ctx = spec_ctx(src, facts);
    let ghost whole = spec_assets_entries(old(map)@, entries@, ctx, dot@, is_file);
    let len = entries.len();
    let mut i: usize = 0;
    assert(entries@.skip(0) =~= entries@);
    while i < len
        invariant
            i <= len,
            len == entries@.len(),
            ctx == spec_ctx(src, facts),
            whole == spec_assets_entries(old(map)@, entries@, ctx, dot@, is_file),
            whole == spec_assets_entries(map@, entries@.skip(i as int), ctx, dot@, is_file),
        decreases len - i,
    {
        let ghost rest = entries@.skip(i as int);
        assert(rest.drop_first() =~= entries@.skip(i + 1));
        assert(rest[0] == entries@[i as int]);
        let url_key = entries[i].0.as_str();
        let key_quote = Quote(to_owned_string(url_key));
        let q = key_quote.display();
        let key_dot = dot.push(q.as_str());
        let key = match sanitize_url_key(url_key, src, &key_dot) {
            Ok(k) => k,
            Err(e) => return Err(e),
        };
        let normalized = match checked_path(src, entries[i].1.as_str(), &key_dot, is_file, facts) {
            Ok(n) => n,
            Err(e) => return Err(e),
        };
        map.insert(key, normalized);
        i = i + 1;
    }
    Ok(())
}

/// the outcome of merging an assets shape
pub open spec fn spec_assets_merge(cur: AssetsView, shape: AssetsShape, ctx: MergeCtx, dot: Seq<Seq<char>>) -> Result<AssetsView, MergeStop> {
    let files = match shape.files {
        Some(f) => spec_assets_entries(cur.files, f@, ctx, dot.push("files"@), true),
        None => Ok(cur.files),
    };
    match files {
        Err(e) => Err(e),
        Ok(fm) => {
            let dirs = match shape.directories {
                Some(d) => spec_assets_entries(cur.directories, d@, ctx, dot.push("directories"@), false),
                None => Ok(cur.directories),
            };
            match dirs {
                Err(e) => Err(e),
                Ok(dm) => Ok(AssetsView { files: fm, directories: dm }),
            }
        },
    }
}

impl Assets {
    /// no files and no directories
    pub fn default() -> (rtn: Self)
        ensures
            rtn@.files == Map::<Seq<char>, Seq<char>>::empty(),
            rtn@.directories == Map::<Seq<char>, Seq<char>>::empty(),
    {
        Assets { files: StrMap::new(), directories: StrMap::new() }
    }

    /// merges an assets shape: each url key is sanitized, each path
    /// resolved against the config file's directory and checked, and the
    /// entry replaces any earlier one of the same key
    pub fn merge(&mut self, src: &SrcFile, dot: &DotPath, assets: AssetsShape, facts: &Facts) -> (rtn: Result<(), MergeError>)
        ensures
            match rtn {
                Ok(()) => spec_assets_merge(old(self)@, assets, spec_ctx(src, facts), dot@) == Ok::<AssetsView, MergeStop>(final(self)@),
                Err(e) => spec_assets_merge(old(self)@, assets, spec_ctx(src, facts), dot@) == Err::<AssetsView, MergeStop>(e@),
            },
    {
        if let Some(files) = &assets.files {
            let files_dot = dot.push("files");
            match merge_asset_entries(&mut self.files, files, src, &files_dot, true, facts) {
                Ok(()) => {},
                Err(e) => return Err(e),
            }
        }
        if let Some(directories) = &assets.directories {
            let dir_dot = dot.push("directories");
            match merge_asset_entries(&mut self.directories, directories, src, &dir_dot, false, facts) {
                Ok(()) => {},
                Err(e) => return Err(e),
            }
        }
        Ok(())
    }
}

/// the structure of a templates config
#[derive(Debug)]
pub struct TemplatesShape {
    pub directory: Option<String>,
}

/// where the templates of the server are
#[derive(Debug)]
pub struct Templates {
    /// the directory that holds all templates
    pub directory: String,
}

impl Templates {
    /// the templates directory `templates` under the working directory
    pub fn default_in(cwd: &str) -> (rtn: Self)
        ensures
            rtn.directory@ == spec_join_path(cwd@, "templates"@),
    {
        Templates { directory: join_path(cwd, "templates") }
    }

    /// merges a templates shape: a given directory is resolved against the
    /// config file's directory and must be a directory
    pub fn merge(&mut self, src: &SrcFile, dot: &DotPath, templates: TemplatesShape, facts: &Facts) -> (rtn: Result<(), MergeError>)
        ensures
            match templates.directory {
                None => rtn is Ok && final(self).directory@ == old(self).directory@,
                Some(d) => match spec_checked_path(spec_ctx(src, facts), d@, dot@.push("directory"@), false) {
                    Ok(n) => rtn is Ok && final(self).directory@ == n,
                    Err(e) => rtn matches Err(r) && r@ == e,
                },
            },
    {
        if let Some(directory) = templates.directory {
            let dir_dot = dot.push("directory");
            self.directory = src.normalize(directory.as_str());
            match check_path(self.directory.as_str(), src, &dir_dot, false, facts) {
                Ok(()) => {},
                Err(e) => return Err(e),
            }
        }
        Ok(())
    }
}

/// the structure of a db config
#[derive(Debug)]
pub struct DbShape {
    pub user: Option<String>,
    pub password: Option<String>,
    pub host: Option<String>,
    pub port: Option<u16>,
    pub dbname: Option<String>,
}

/// how to connect to the database
#[derive(Debug)]
pub struct Db {
    /// the user for connecting to the database
    pub user: String,
    /// the optional password of the user
    pub password: Option<String>,
    /// the host name of the database
    pub host: String,
    /// the port the database listens on
    pub port: u16,
    /// the name of the database
    pub dbname: String,
}

impl Db {
    /// user "postgres", no password, host "localhost", port 5432, database
    /// "tj2"
    pub fn default() -> (rtn: Self)
        ensures
            rtn.user@ == "postgres"@,
            rtn.password is None,
            rtn.host@ == "localhost"@,
            rtn.port == 5432,
            rtn.dbname@ == "tj2"@,
    {
        Db {
            user: to_owned_string("postgres"),
            password: None,
            host: to_owned_string("localhost"),
            port: 5432,
            dbname: to_owned_string("tj2"),
        }
    }

    /// merges a db shape: every given value replaces the current one
    pub fn merge(&mut self, _src: &SrcFile, _dot: &DotPath, db: DbShape) -> (rtn: Result<(), MergeError>)
        ensures
            rtn is Ok,
            final(self).user@ == opt_or(db.user, old(self).user@),
            opt_view(final(self).password) == (match db.password {
                Some(p) => Some(p@),
                None => opt_view(old(self).password),
            }),
            final(self).host@ == opt_or(db.host, old(self).host@),
            final(self).port == (match db.port {
                Some(p) => p,
                None => old(self).port,
            }),
            final(self).dbname@ == opt_or(db.dbname, old(self).dbname@),
    {
        if let Some(user) = db.user {
            self.user = user;
        }
        if let Some(password) = db.password {
            self.password = Some(password);
        }
        if let Some(host) = db.host {
            self.host = host;
        }
        if let Some(port) = db.port {
            self.port = port;
        }
        if let Some(dbname) = db.dbname {
            self.dbname = dbname;
        }
        Ok(())
    }
}


/// the structure of a config file
#[derive(Debug)]
pub struct SettingsShape {
    pub preload: Option<Vec<String>>,
    pub data: Option<String>,
    pub storage: Option<String>,
    pub thread_pool: Option<usize>,
    pub blocking_pool: Option<usize>,
    pub logging: Option<LoggingShape>,
    pub listeners: Option<Vec<ListenerShape>>,
    pub assets: Option<AssetsShape>,
    pub templates: Option<TemplatesShape>,
    pub db: Option<DbShape>,
}

/// the settings of the server
#[derive(Debug)]
pub struct Settings {
    /// the directory for data needed during operation
    pub data: String,
    /// the directory for user data created during operation
    pub storage: String,
    /// the number of asynchronous worker threads
    pub thread_pool: usize,
    /// the number of threads for blocking operations
    pub blocking_pool: usize,
    /// the logging options, if logging is configured
    pub logging: Option<Logging>,
    /// the listeners of the server
    pub listeners: Vec<Listener>,
    /// the public assets of the server
    pub assets: Assets,
    /// the templates of the server
    pub templates: Templates,
    /// how to connect to the database
    pub db: Db,
}

/// the database options as plain values
pub struct DbView {
    pub user: Seq<char>,
    pub password: Option<Seq<char>>,
    pub host: Seq<char>,
    pub port: u16,
    pub dbname: Seq<char>,
}

impl View for Db {
    type V = DbView;

    open spec fn view(&self) -> DbView {
        DbView {
            user: self.user@,
            password: opt_view(self.password),
            host: self.host@,
            port: self.port,
            dbname: self.dbname@,
        }
    }
}

/// the settings as plain values
pub struct SettingsView {
    pub data: Seq<char>,
    pub storage: Seq<char>,
    pub thread_pool: usize,
    pub blocking_pool: usize,
    pub logging: Option<LoggingView>,
    pub listeners: Seq<ListenerView>,
    pub assets: AssetsView,
    pub templates: Seq<char>,
    pub db: DbView,
}

/// the listeners as plain values
pub open spec fn listener_views(listeners: Seq<Listener>) -> Seq<ListenerView> {
    listeners.map_values(|l: Listener| listener_view(l))
}

impl View for Settings {
    type V = SettingsView;

    open spec fn view(&self) -> SettingsView {
        SettingsView {
            data: self.data@,
            storage: self.storage@,
            thread_pool: self.thread_pool,
            blocking_pool: self.blocking_pool,
            logging: match self.logging {
                Some(l) => Some(l@),
                None => None,
            },
            listeners: listener_views(self.listeners@),
            assets: self.assets@,
            templates: self.templates.directory@,
            db: self.db@,
        }
    }
}

/// the outcome of merging listener shapes, in order, each into a default
/// listener
pub open spec fn spec_listeners_merge(list: Seq<ListenerShape>, ctx: MergeCtx, dot: Seq<Seq<char>>) -> Result<Seq<ListenerView>, MergeStop>
    decreases list.len(),
{
    if list.len() == 0 {
        Ok(Seq::empty())
    } else {
        match spec_listeners_merge(list.drop_last(), ctx, dot) {
            Err(e) => Err(e),
            Ok(prev) => match spec_listener_merge(list.last(), None, ctx, dot) {
                Err(e) => Err(e),
                Ok(a) => Ok(prev.push(a)),
            },
        }
    }
}

/// when merging the first listeners of a list is refused, merging the
/// whole list is refused with the same error
proof fn lemma_listeners_merge_prefix_err(list: Seq<ListenerShape>, i: int, ctx: MergeCtx, dot: Seq<Seq<char>>)
    requires
        0 <= i < list.len(),
        spec_listeners_merge(list.take(i + 1), ctx, dot) is Err,
    ensures
        spec_listeners_merge(list, ctx, dot) == spec_listeners_merge(list.take(i + 1), ctx, dot),
    decreases list.len() - i,
{
    if i + 1 < list.len() {
        assert(list.take(i + 2).drop_last() =~= list.take(i + 1));
        lemma_listeners_merge_prefix_err(list, i + 1, ctx, dot);
    } else {
        assert(list.take(i + 1) =~= list);
    }
}

/// the outcome of merging an optional path setting
pub open spec fn spec_opt_path(cur: Seq<char>, given: Option<String>, ctx: MergeCtx, dot: Seq<Seq<char>>) -> Result<Seq<char>, MergeStop> {
    match given {
        Some(d) => spec_checked_path(ctx, d@, dot, false),
        None => Ok(cur),
    }
}

/// the outcome of merging an optional thread count; zero is refused
pub open spec fn spec_opt_pool(cur: usize, given: Option<usize>, msg: Seq<char>) -> Result<usize, MergeStop> {
    match given {
        Some(n) => if n == 0 {
            Err(MergeStop::Invalid(msg))
        } else {
            Ok(n)
        },
        None => Ok(cur),
    }
}

/// the db options after merging a db shape
pub open spec fn spec_db_merge(cur: DbView, shape: Option<DbShape>) -> DbView {
    match shape {
        None => cur,
        Some(db) => DbView {
            user: opt_or(db.user, cur.user),
            password: match db.password {
                Some(p) => Some(p@),
                None => cur.password,
            },
            host: opt_or(db.host, cur.host),
            port: match db.port {
                Some(p) => p,
                None => cur.port,
            },
            dbname: opt_or(db.dbname, cur.dbname),
        },
    }
}

/// the logging options that a config file starts from
pub open spec fn spec_default_logging() -> LoggingView {
    LoggingView { verbosity: Verbosity::Off, format: None, directives: Map::empty(), output: OutputView::Stdio }
}

/// the outcome of merging the later parts of a settings shape (logging,
/// listeners, assets, templates, db) after the paths and pools
pub open spec fn spec_settings_rest(
    cur: SettingsView,
    data: Seq<char>,
    storage: Seq<char>,
    tp: usize,
    bp: usize,
    logging: Option<LoggingShape>,
    listeners: Option<Vec<ListenerShape>>,
    assets: Option<AssetsShape>,
    templates: Option<TemplatesShape>,
    db: Option<DbShape>,
    ctx: MergeCtx,
    dot: Seq<Seq<char>>,
) -> Result<SettingsView, MergeStop> {
    let logging = match logging {
        None => Ok(cur.logging),
        Some(l) => {
            let base = match cur.logging {
                Some(c) => c,
                None => spec_default_logging(),
            };
            match spec_logging_merge(base, l, ctx, dot.push("logging"@)) {
                Ok(v) => Ok(Some(v)),
                Err(e) => Err(e),
            }
        },
    };
    match logging {
        Err(e) => Err(e),
        Ok(lg) => {
            let listeners = match listeners {
                None => Ok(cur.listeners),
                Some(list) => spec_listeners_merge(list@, ctx, dot.push("listeners"@)),
            };
            match listeners {
                Err(e) => Err(e),
                Ok(ls) => {
                    let assets = match assets {
                        None => Ok(cur.assets),
                        Some(a) => spec_assets_merge(cur.assets, a, ctx, dot.push("assets"@)),
                    };
                    match assets {
                        Err(e) => Err(e),
                        Ok(asv) => {
                            let templates = match templates {
                                None => Ok(cur.templates),
                                Some(t) => spec_opt_path(cur.templates, t.directory, ctx, dot.push("templates"@).push("directory"@)),
                            };
                            match templates {
                                Err(e) => Err(e),
                                Ok(tv) => Ok(
                                    SettingsView {
                                        data,
                                        storage,
                                        thread_pool: tp,
                                        blocking_pool: bp,
                                        logging: lg,
                                        listeners: ls,
                                        assets: asv,
                                        templates: tv,
                                        db: spec_db_merge(cur.db, db),
                                    },
                                ),
                            }
                        },
                    }
                },
            }
        },
    }
}

/// the outcome of merging a settings shape into the current settings, in
/// the order data, storage, thread pool, blocking pool, logging, listeners,
/// assets, templates, db; the first refusal stops the merge
pub open spec fn spec_settings_merge(
    cur: SettingsView,
    shape: SettingsShape,
    ctx: MergeCtx,
    dot: Seq<Seq<char>>,
) -> Result<SettingsView, MergeStop> {
    let dt = spec_dot_text(dot);
    match spec_opt_path(cur.data, shape.data, ctx, dot.push("data"@)) {
        Err(e) => Err(e),
        Ok(data) => match spec_opt_path(cur.storage, shape.storage, ctx, dot.push("data"@)) {
            Err(e) => Err(e),
            Ok(storage) => match spec_opt_pool(
                cur.thread_pool,
                shape.thread_pool,
                dt + ".thread_pool amount is 0 in "@ + ctx.src,
            ) {
                Err(e) => Err(e),
                Ok(tp) => match spec_opt_pool(
                    cur.blocking_pool,
                    shape.blocking_pool,
                    dt + ".blocking_pool amount is 0 in "@ + ctx.src,
                ) {
                    Err(e) => Err(e),
                    Ok(bp) => spec_settings_rest(
                        cur,
                        data,
                        storage,
                        tp,
                        bp,
                        shape.logging,
                        shape.listeners,
                        shape.assets,
                        shape.templates,
                        shape.db,
                        ctx,
                        dot,
                    ),
                },
            },
        },
    }
}

/// the path a config file gives, resolved against the file's directory,
/// or the current one when the file gives none
pub open spec fn spec_resolved(cur: Seq<char>, given: Option<String>, parent: Seq<char>) -> Seq<char> {
    match given {
        Some(d) => spec_join_path(parent, d@),
        None => cur,
    }
}

/// Relative paths in a config file are resolved against the directory of
/// that file, and what a later file gives overrides what came before: when
/// a merge succeeds, the data, storage and templates directories it gives
/// are joined onto the file's directory, the pools it gives replace the
/// current ones, and whatever it does not give stays as it was.
pub proof fn lemma_merge_resolves_against_file(cur: SettingsView, shape: SettingsShape, ctx: MergeCtx, dot: Seq<Seq<char>>)
    requires
        spec_settings_merge(cur, shape, ctx, dot) is Ok,
    ensures
        ({
            let r = spec_settings_merge(cur, shape, ctx, dot)->Ok_0;
            &&& r.data == spec_resolved(cur.data, shape.data, ctx.parent)
            &&& r.storage == spec_resolved(cur.storage, shape.storage, ctx.parent)
            &&& r.templates == match shape.templates {
                Some(t) => spec_resolved(cur.templates, t.directory, ctx.parent),
                None => cur.templates,
            }
            &&& r.thread_pool == match shape.thread_pool {
                Some(n) => n,
                None => cur.thread_pool,
            }
            &&& r.blocking_pool == match shape.blocking_pool {
                Some(n) => n,
                None => cur.blocking_pool,
            }
        }),
{
}

/// Inserting entries in order maps the key of an entry that no later
/// entry names to that entry's value.
pub proof fn lemma_insert_all_last_wins<V: View>(m: Map<Seq<char>, V::V>, entries: Seq<(String, V)>, i: int)
    requires
        0 <= i < entries.len(),
        forall|j: int| i < j < entries.len() ==> (#[trigger] entries[j]).0@ != entries[i].0@,
    ensures
        spec_insert_all(m, entries).dom().contains(entries[i].0@),
        spec_insert_all(m, entries)[entries[i].0@] == entries[i].1@,
    decreases entries.len(),
{
    let n = entries.len() - 1;
    if i < n {
        let prev = entries.drop_last();
        assert(entries[n].0@ != entries[i].0@);
        assert forall|j: int| i < j < prev.len() implies (#[trigger] prev[j]).0@ != prev[i].0@ by {
            assert(prev[j] == entries[j]);
        }
        lemma_insert_all_last_wins(m, prev, i);
        assert(prev[i] == entries[i]);
    }
}

/// Inserting entries in order leaves a key that no entry names as it was.
pub proof fn lemma_insert_all_untouched<V: View>(m: Map<Seq<char>, V::V>, entries: Seq<(String, V)>, k: Seq<char>)
    requires
        forall|j: int| 0 <= j < entries.len() ==> (#[trigger] entries[j]).0@ != k,
    ensures
        spec_insert_all(m, entries).dom().contains(k) == m.dom().contains(k),
        m.dom().contains(k) ==> spec_insert_all(m, entries)[k] == m[k],
    decreases entries.len(),
{
    if entries.len() > 0 {
        let prev = entries.drop_last();
        assert(entries[entries.len() - 1].0@ != k);
        assert forall|j: int| 0 <= j < prev.len() implies (#[trigger] prev[j]).0@ != k by {
            assert(prev[j] == entries[j]);
        }
        lemma_insert_all_untouched(m, prev, k);
    }
}

/// A logging section sets what it gives and keeps the rest: when a merge
/// of a logging shape succeeds, the verbosity is the one the shape gives,
/// or the current one when it gives none; the format is the one the shape
/// gives (none when it gives none); each directive given sets its target
/// to the verbosity of the last entry for it, and targets it does not
/// name keep theirs; and the directives and the output stay as they were
/// when the shape does not give them.
pub proof fn lemma_logging_merge_sets_given(cur: LoggingView, shape: LoggingShape, ctx: MergeCtx, dot: Seq<Seq<char>>)
    requires
        spec_logging_merge(cur, shape, ctx, dot) is Ok,
    ensures
        ({
            let r = spec_logging_merge(cur, shape, ctx, dot)->Ok_0;
            &&& shape.verbosity matches Some(v) ==> r.verbosity == v
            &&& shape.verbosity is None ==> r.verbosity == cur.verbosity
            &&& r.format == shape.format
            &&& shape.directives is None ==> r.directives == cur.directives
            &&& shape.directives matches Some(d) ==> forall|i: int|
                0 <= i < d@.len() && (forall|j: int| i < j < d@.len() ==> (#[trigger] d@[j]).0@ != d@[i].0@)
                    ==> r.directives.dom().contains((#[trigger] d@[i]).0@) && r.directives[d@[i].0@] == d@[i].1
            &&& shape.directives matches Some(d) ==> forall|k: Seq<char>|
                (forall|j: int| 0 <= j < d@.len() ==> (#[trigger] d@[j]).0@ != k) ==> (
                #[trigger] r.directives.dom().contains(k) == cur.directives.dom().contains(k) && (
                cur.directives.dom().contains(k) ==> r.directives[k] == cur.directives[k]))
            &&& shape.output is None ==> r.output == cur.output
        }),
{
    if let Some(d) = shape.directives {
        let r = spec_logging_merge(cur, shape, ctx, dot)->Ok_0;
        assert(r.directives == spec_insert_all(cur.directives, d@));
        assert forall|i: int|
            0 <= i < d@.len() && (forall|j: int| i < j < d@.len() ==> (#[trigger] d@[j]).0@ != d@[i].0@)
                implies r.directives.dom().contains((#[trigger] d@[i]).0@) && r.directives[d@[i].0@] == d@[i].1 by {
            lemma_insert_all_last_wins(cur.directives, d@, i);
        }
        assert forall|k: Seq<char>|
            (forall|j: int| 0 <= j < d@.len() ==> (#[trigger] d@[j]).0@ != k) implies (
            #[trigger] r.directives.dom().contains(k) == cur.directives.dom().contains(k) && (
            cur.directives.dom().contains(k) ==> r.directives[k] == cur.directives[k])) by {
            lemma_insert_all_untouched(cur.directives, d@, k);
        }
    }
}

/// A config file sets the logging verbosity and the database options it
/// gives and keeps the others: when a settings merge succeeds, a
/// verbosity given in the file's logging section is the merged verbosity
/// (a file with no logging section keeps the logging as it was); each of
/// the database user, password, host, port and name given in the file's
/// db section is the merged one, and each that it does not give stays as
/// it was.
pub proof fn lemma_merge_sets_given_options(cur: SettingsView, shape: SettingsShape, ctx: MergeCtx, dot: Seq<Seq<char>>)
    requires
        spec_settings_merge(cur, shape, ctx, dot) is Ok,
    ensures
        ({
            let r = spec_settings_merge(cur, shape, ctx, dot)->Ok_0;
            &&& shape.logging is None ==> r.logging == cur.logging
            &&& shape.logging matches Some(l) ==> (l.verbosity matches Some(v) ==> (r.logging matches Some(lg)
                && lg.verbosity == v))
            &&& shape.db matches Some(d) ==> (d.port matches Some(p) ==> r.db.port == p)
            &&& (shape.db matches Some(d) ==> d.port is None) ==> r.db.port == cur.db.port
            &&& shape.db matches Some(d) ==> (d.user matches Some(u) ==> r.db.user == u@)
            &&& (shape.db matches Some(d) ==> d.user is None) ==> r.db.user == cur.db.user
            &&& shape.db matches Some(d) ==> (d.host matches Some(h) ==> r.db.host == h@)
            &&& (shape.db matches Some(d) ==> d.host is None) ==> r.db.host == cur.db.host
            &&& shape.db matches Some(d) ==> (d.dbname matches Some(n) ==> r.db.dbname == n@)
            &&& (shape.db matches Some(d) ==> d.dbname is None) ==> r.db.dbname == cur.db.dbname
            &&& shape.db matches Some(d) ==> (d.password matches Some(p) ==> r.db.password == Some(p@))
            &&& (shape.db matches Some(d) ==> d.password is None) ==> r.db.password == cur.db.password
        }),
{
    if let Some(l) = shape.logging {
        let base = match cur.logging {
            Some(c) => c,
            None => spec_default_logging(),
        };
        if spec_logging_merge(base, l, ctx, dot.push("logging"@)) is Ok {
            lemma_logging_merge_sets_given(base, l, ctx, dot.push("logging"@));
        }
    }
}

impl Settings {
    /// the settings before any config file: `data` and `storage` under the
    /// working directory, one thread in each pool, no logging, no
    /// listeners, no assets, templates under the working directory and the
    /// default database options
    pub fn default_in(cwd: &str) -> (rtn: Self)
        ensures
            rtn@.data == spec_join_path(cwd@, "data"@),
            rtn@.storage == spec_join_path(cwd@, "storage"@),
            rtn@.thread_pool == 1,
            rtn@.blocking_pool == 1,
            rtn@.logging is None,
            rtn@.listeners == Seq::<ListenerView>::empty(),
            rtn@.assets.files == Map::<Seq<char>, Seq<char>>::empty(),
            rtn@.assets.directories == Map::<Seq<char>, Seq<char>>::empty(),
            rtn@.templates == spec_join_path(cwd@, "templates"@),
            rtn@.db.user == "postgres"@,
            rtn@.db.password is None,
            rtn@.db.host == "localhost"@,
            rtn@.db.port == 5432,
            rtn@.db.dbname == "tj2"@,
    {
        let rtn = Settings {
            data: join_path(cwd, "data"),
            storage: join_path(cwd, "storage"),
            thread_pool: 1,
            blocking_pool: 1,
            logging: None,
            listeners: Vec::new(),
            assets: Assets::default(),
            templates: Templates::default_in(cwd),
            db: Db::default(),
        };
        assert(rtn@.listeners =~= Seq::<ListenerView>::empty());
        rtn
    }

    /// merges a settings shape into these settings
    pub fn merge(&mut self, src: &SrcFile, dot: &DotPath, settings: SettingsShape, facts: &Facts) -> (rtn: Result<(), MergeError>)
        ensures
            match rtn {
                Ok(()) => spec_settings_merge(old(self)@, settings, spec_ctx(src, facts), dot@) == Ok::<SettingsView, MergeStop>(final(self)@),
                Err(e) => spec_settings_merge(old(self)@, settings, spec_ctx(src, facts), dot@) == Err::<SettingsView, MergeStop>(e@),
            },
    {
        let ghost cur = self@;
        let data_dot = dot.push("data");
        if let Some(data) = &settings.data {
            self.data = match checked_path(src, data.as_str(), &data_dot, false, facts) {
                Ok(n) => n,
                Err(e) => return Err(e),
            };
        }
        if let Some(storage) = &settings.storage {
            self.storage = match checked_path(src, storage.as_str(), &data_dot, false, facts) {
                Ok(n) => n,
                Err(e) => return Err(e),
            };
        }
        if let Some(thread_pool) = settings.thread_pool {
            if thread_pool == 0 {
                return Err(pool_error(dot, ".thread_pool amount is 0 in ", src));
            }
            self.thread_pool = thread_pool;
        }
        if let Some(blocking_pool) = settings.blocking_pool {
            if blocking_pool == 0 {
                return Err(pool_error(dot, ".blocking_pool amount is 0 in ", src));
            }
            self.blocking_pool = blocking_pool;
        }
        self.merge_rest(
            src,
            dot,
            settings.logging,
            settings.listeners,
            settings.assets,
            settings.templates,
            settings.db,
            facts,
            Ghost(cur),
        )
    }

    /// merges the logging, listeners, assets, templates and db parts of a
    /// settings shape, after the paths and pools have been merged
    fn merge_rest(
        &mut self,
        src: &SrcFile,
        dot: &DotPath,
        logging: Option<LoggingShape>,
        listeners: Option<Vec<ListenerShape>>,
        assets: Option<AssetsShape>,
        templates: Option<TemplatesShape>,
        db: Option<DbShape>,
        facts: &Facts,
        Ghost(cur): Ghost<SettingsView>,
    ) -> (rtn: Result<(), MergeError>)
        requires
            old(self)@.logging == cur.logging,
            old(self)@.listeners == cur.listeners,
            old(self)@.assets == cur.assets,
            old(self)@.templates == cur.templates,
            old(self)@.db == cur.db,
        ensures
            match rtn {
                Ok(()) => spec_settings_rest(
                    cur,
                    old(self)@.data,
                    old(self)@.storage,
                    old(self)@.thread_pool,
                    old(self)@.blocking_pool,
                    logging,
                    listeners,
                    assets,
                    templates,
                    db,
                    spec_ctx(src, facts),
                    dot@,
                ) == Ok::<SettingsView, MergeStop>(final(self)@),
                Err(e) => spec_settings_rest(
                    cur,
                    old(self)@.data,
                    old(self)@.storage,
                    old(self)@.thread_pool,
                    old(self)@.blocking_pool,
                    logging,
                    listeners,
                    assets,
                    templates,
                    db,
                    spec_ctx(src, facts),
                    dot@,
                ) == Err::<SettingsView, MergeStop>(e@),
            },
    {
        if let Some(logging) = logging {
            let log_dot = dot.push("logging");
            match &mut self.logging {
                Some(curr) => {
                    match curr.merge(src, &log_dot, logging, facts) {
                        Ok(()) => {},
                        Err(e) => return Err(e),
                    }
                },
                None => {
                    let mut default = Logging::default();
                    match default.merge(src, &log_dot, logging, facts) {
                        Ok(()) => {},
                        Err(e) => return Err(e),
                    }
                    self.logging = Some(default);
                },
            }
        }
        if let Some(listeners) = listeners {
            let list_dot = dot.push("listeners");
            self.listeners = match merge_listeners(listeners, src, &list_dot, facts) {
                Ok(l) => l,
                Err(e) => return Err(e),
            };
        }
        if let Some(assets) = assets {
            let assets_dot = dot.push("assets");
            match self.assets.merge(src, &assets_dot, assets, facts) {
                Ok(()) => {},
                Err(e) => return Err(e),
            }
        }
        if let Some(templates) = templates {
            let templates_dot = dot.push("templates");
            match self.templates.merge(src, &templates_dot, templates, facts) {
                Ok(()) => {},
                Err(e) => return Err(e),
            }
        }
        if let Some(db) = db {
            let db_dot = dot.push("db");
            let _ = self.db.merge(src, &db_dot, db);
        }
        Ok(())
    }
}

/// the error for a thread pool of zero threads
fn pool_error(dot: &DotPath, middle: &str, src: &SrcFile) -> (rtn: MergeError)
    ensures
        rtn@ == MergeStop::Invalid(dot.spec_display() + middle@ + src.spec_display()),
{
    let mut msg = dot.display();
    push_str(&mut msg, middle);
    let sd = src.display();
    push_str(&mut msg, sd.as_str());
    MergeError::Invalid(crate::error::ContextError::context(msg))
}

/// merges listener shapes, in order, each into a default listener
fn merge_listeners(listeners: Vec<ListenerShape>, src: &SrcFile, list_dot: &DotPath, facts: &Facts) -> (rtn: Result<Vec<Listener>, MergeError>)
    ensures
        match rtn {
            Ok(l) => spec_listeners_merge(listeners@, spec_ctx(src, facts), list_dot@) == Ok::<Seq<ListenerView>, MergeStop>(listener_views(l@)),
            Err(e) => spec_listeners_merge(listeners@, spec_ctx(src, facts), list_dot@) == Err::<Seq<ListenerView>, MergeStop>(e@),
        },
{
    let ghost list = listeners@;
    let mut merged: Vec<Listener> = Vec::new();
    let len = listeners.len();
    let mut i: usize = 0;
    let mut rest = listeners;
    assert(list.take(0) =~= Seq::<ListenerShape>::empty());
    assert(listener_views(merged@) =~= Seq::<ListenerView>::empty());
    assert(rest@ =~= list.skip(0));
    while i < len
        invariant
            i <= len,
            len == list.len(),
            rest@ == list.skip(i as int),
            list == listeners@,
            spec_listeners_merge(list.take(i as int), spec_ctx(src, facts), list_dot@) == Ok::<Seq<ListenerView>, MergeStop>(listener_views(merged@)),
        decreases len - i,
    {
        let shape_i = rest.remove(0);
        assert(shape_i == list[i as int]);
        assert(list.take(i + 1).drop_last() =~= list.take(i as int));
        assert(list.take(i + 1).last() == list[i as int]);
        let mut default = Listener::default();
        match default.merge(src, list_dot, shape_i, facts) {
            Ok(()) => {},
            Err(e) => {
                proof {
                    assert(spec_listener_merge(list[i as int], None, spec_ctx(src, facts), list_dot@) == Err::<ListenerView, MergeStop>(e@));
                    assert(spec_listeners_merge(list.take(i + 1), spec_ctx(src, facts), list_dot@) == Err::<Seq<ListenerView>, MergeStop>(e@));
                    lemma_listeners_merge_prefix_err(list, i as int, spec_ctx(src, facts), list_dot@);
                    assert(spec_listeners_merge(list, spec_ctx(src, facts), list_dot@) == Err::<Seq<ListenerView>, MergeStop>(e@));
                }
                return Err(e);
            },
        }
        let ghost before = merged@;
        merged.push(default);
        assert(listener_views(merged@) =~= listener_views(before).push(listener_view(merged@.last())));
        assert(rest@ =~= list.skip(i + 1));
        i = i + 1;
    }
    assert(list.take(len as int) =~= list);
    Ok(merged)
}

/// the final server configuration
#[derive(Debug)]
pub struct Config {
    pub settings: Settings,
}

/// the formats a config file can be written in
#[derive(Debug, Clone, Copy, PartialEq, Eq, Structural)]
pub enum ConfigFormat {
    Json,
    Yaml,
    Toml,
}

/// what `std::path::Path::extension` returns for a path given as text
pub uninterp spec fn spec_path_extension(p: Seq<char>) -> Option<Seq<char>>;

/// Calls `std::path::Path::extension` and turns the extension back into
/// text. The result is named `spec_path_extension` of the path; std
/// documents it as the part of the file name after its last `.`, which is
/// not written out here.
#[verifier::external_body]
fn path_extension(p: &str) -> (rtn: Option<String>)
    ensures
        match rtn {
            Some(e) => spec_path_extension(p@) == Some(e@),
            None => spec_path_extension(p@) is None,
        },
{
    std::path::Path::new(p).extension().map(|e| e.to_string_lossy().into_owned())
}


/// the format of a config file by the extension of its path, in any case:
/// `json`, `yaml` or `yml`, `toml`
pub open spec fn spec_config_format(path: Seq<char>) -> Result<ConfigFormat, Seq<char>> {
    match spec_path_extension(path) {
        None => Err("failed to retrieve the file extension from the config specified: "@ + spec_quote(path)),
        Some(ext) => {
            let e = spec_ascii_lowercase(ext);
            if e == "json"@ {
                Ok(ConfigFormat::Json)
            } else if e == "yaml"@ || e == "yml"@ {
                Ok(ConfigFormat::Yaml)
            } else if e == "toml"@ {
                Ok(ConfigFormat::Toml)
            } else {
                Err("unknown type of config file: "@ + spec_quote(path))
            }
        },
    }
}

impl ConfigFormat {
    /// the format of a config file by the extension of its path
    pub fn from_path(path: &str) -> (rtn: Result<Self, crate::error::ContextError>)
        ensures
            match rtn {
                Ok(f) => spec_config_format(path@) == Ok::<ConfigFormat, Seq<char>>(f),
                Err(e) => spec_config_format(path@) == Err::<ConfigFormat, Seq<char>>(e.spec_cxt()),
            },
    {
        let ext = match path_extension(path) {
            Some(e) => e,
            None => {
                let mut msg = to_owned_string("failed to retrieve the file extension from the config specified: ");
                let q = meta::quote(path);
                push_str(&mut msg, q.as_str());
                return Err(crate::error::ContextError::context(msg));
            },
        };
        let lower = ascii_lowercase(ext.as_str());
        let l = lower.as_str();
        if crate::text::str_eq(l, "json") {
            Ok(ConfigFormat::Json)
        } else if crate::text::str_eq(l, "yaml") || crate::text::str_eq(l, "yml") {
            Ok(ConfigFormat::Yaml)
        } else if crate::text::str_eq(l, "toml") {
            Ok(ConfigFormat::Toml)
        } else {
            let mut msg = to_owned_string("unknown type of config file: ");
            let q = meta::quote(path);
            push_str(&mut msg, q.as_str());
            Err(crate::error::ContextError::context(msg))
        }
    }
}

/// the outcome of checking a directory setting after all files are merged
pub open spec fn spec_final_dir(path: Seq<char>, name: Seq<char>, paths: Seq<(Seq<char>, meta::PathState)>) -> Result<(), MergeStop> {
    match spec_lookup(paths, path) {
        None => Err(MergeStop::NeedPath(path)),
        Some(meta::PathState::Failed) => Err(MergeStop::Invalid("failed to retrieve metadata for settings."@ + name)),
        Some(meta::PathState::NotFound) => Err(MergeStop::Invalid("settings."@ + name + " was not found: "@ + path)),
        Some(meta::PathState::Dir) => Ok(()),
        Some(_) => Err(MergeStop::Invalid("settings."@ + name + " is not a directory"@)),
    }
}

/// checks a directory setting after all files are merged
fn final_dir(path: &str, name: &str, facts: &Facts) -> (rtn: Result<(), MergeError>)
    ensures
        spec_merge_result(rtn) == spec_final_dir(path@, name@, facts.spec_paths()),
{
    match facts.path_state(path) {
        None => Err(MergeError::NeedPath(to_owned_string(path))),
        Some(meta::PathState::Failed) => {
            let mut msg = to_owned_string("failed to retrieve metadata for settings.");
            push_str(&mut msg, name);
            Err(MergeError::Invalid(crate::error::ContextError::context(msg)))
        },
        Some(meta::PathState::NotFound) => {
            let mut msg = to_owned_string("settings.");
            push_str(&mut msg, name);
            push_str(&mut msg, " was not found: ");
            push_str(&mut msg, path);
            Err(MergeError::Invalid(crate::error::ContextError::context(msg)))
        },
        Some(meta::PathState::Dir) => Ok(()),
        Some(_) => {
            let mut msg = to_owned_string("settings.");
            push_str(&mut msg, name);
            push_str(&mut msg, " is not a directory");
            Err(MergeError::Invalid(crate::error::ContextError::context(msg)))
        },
    }
}

impl Config {
    /// the configuration from the merged settings: the data and storage
    /// directories must exist and at least one listener must be given
    pub fn from_settings(settings: Settings, facts: &Facts) -> (rtn: Result<Self, MergeError>)
        ensures
            match rtn {
                Ok(c) => c.settings@ == settings@
                    && spec_final_dir(settings@.data, "data"@, facts.spec_paths()) is Ok
                    && spec_final_dir(settings@.storage, "storage"@, facts.spec_paths()) is Ok
                    && settings@.listeners.len() > 0,
                Err(e) => match spec_final_dir(settings@.data, "data"@, facts.spec_paths()) {
                    Err(d) => e@ == d,
                    Ok(()) => match spec_final_dir(settings@.storage, "storage"@, facts.spec_paths()) {
                        Err(s) => e@ == s,
                        Ok(()) => settings@.listeners.len() == 0 && e@ == MergeStop::Invalid(
                            "no server listeners have been specified in config files"@,
                        ),
                    },
                },
            },
    {
        match final_dir(settings.data.as_str(), "data", facts) {
            Ok(()) => {},
            Err(e) => return Err(e),
        }
        match final_dir(settings.storage.as_str(), "storage", facts) {
            Ok(()) => {},
            Err(e) => return Err(e),
        }
        if settings.listeners.len() == 0 {
            return Err(MergeError::Invalid(crate::error::ContextError::context(
                to_owned_string("no server listeners have been specified in config files"),
            )));
        }
        Ok(Config { settings })
    }
}

/// a config file waiting on stack: its shape, its path, the files it
/// preloads and how many of them have been asked for
struct ConfigFrame {
    shape: SettingsShape,
    path: String,
    preload: Vec<String>,
    next: usize,
}

/// a config file waiting on stack, as plain values
pub struct FrameView {
    pub shape: SettingsShape,
    pub path: Seq<char>,
    pub preload: Seq<Seq<char>>,
    pub next: int,
}

/// what the loader asks for next
#[derive(Debug)]
pub enum LoadStep {
    /// load the config file at this path and push it
    Load(String),
    /// a config file has been merged into the settings
    Merged,
    /// every config file has been merged
    Done,
    /// loading stops with this error
    Stop(MergeError),
}

/// loads config files: each file may name files to preload, which are
/// loaded and merged, depth first and in the order given, before the file
/// that names them; later merges override earlier ones
pub struct ConfigLoader {
    stack: Vec<ConfigFrame>,
    settings: Settings,
    dot: DotPath,
}

/// the view of a frame
closed spec fn spec_frame_view(f: ConfigFrame) -> FrameView {
    FrameView { shape: f.shape, path: f.path@, preload: string_views(f.preload@), next: f.next as int }
}

/// the settings shape with its preload list taken out
pub open spec fn spec_without_preload(shape: SettingsShape) -> SettingsShape {
    SettingsShape { preload: None, ..shape }
}

/// the message for a config file whose path has no parent
pub open spec fn spec_no_parent_msg(path: Seq<char>) -> Seq<char> {
    "failed to retrieve parent directory of path: "@ + spec_quote(path)
}

impl ConfigLoader {
    /// the config files on stack, the first at the bottom
    pub closed spec fn frames(&self) -> Seq<FrameView> {
        self.stack@.map_values(|f: ConfigFrame| spec_frame_view(f))
    }

    /// the settings merged so far
    pub closed spec fn settings_view(&self) -> SettingsView {
        self.settings@
    }

    /// the dotted path that settings are named under
    pub closed spec fn dot_view(&self) -> Seq<Seq<char>> {
        self.dot@
    }

    /// a loader that merges into the given settings, naming them `settings`
    pub fn new(settings: Settings) -> (rtn: Self)
        ensures
            rtn.frames() == Seq::<FrameView>::empty(),
            rtn.settings_view() == settings@,
            rtn.dot_view() == seq!["settings"@],
    {
        let rtn = ConfigLoader { stack: Vec::new(), settings, dot: DotPath::new("settings") };
        assert(rtn.frames() =~= Seq::<FrameView>::empty());
        rtn
    }

    /// the path of the first config file: the given path resolved against
    /// the working directory
    pub fn first_path(cwd: &str, config_path: &str) -> (rtn: String)
        ensures
            rtn@ == spec_join_path(cwd@, config_path@),
    {
        join_path(cwd, config_path)
    }

    /// puts a loaded config file on top of the stack
    pub fn push_file(&mut self, path: String, shape: SettingsShape)
        ensures
            final(self).frames() == old(self).frames().push(
                (FrameView {
                    shape: spec_without_preload(shape),
                    path: path@,
                    preload: match shape.preload {
                        Some(p) => string_views(p@),
                        None => Seq::empty(),
                    },
                    next: 0,
                }),
            ),
            final(self).settings_view() == old(self).settings_view(),
            final(self).dot_view() == old(self).dot_view(),
    {
        let ghost g = shape;
        let mut shape = shape;
        let preload = match shape.preload.take() {
            Some(p) => p,
            None => {
                let v: Vec<String> = Vec::new();
                assert(string_views(v@) =~= Seq::<Seq<char>>::empty());
                v
            },
        };
        assert(shape == spec_without_preload(g));
        let ghost before = self.stack@;
        self.stack.push(ConfigFrame { shape, path, preload, next: 0 });
        assert(self.frames() =~= before.map_values(|f: ConfigFrame| spec_frame_view(f)).push(spec_frame_view(self.stack@.last())));
    }

    /// takes one step: asks for the next preloaded file of the top config
    /// file, or merges the top config file once all its preloads are done
    pub fn step(&mut self, facts: &Facts) -> (rtn: LoadStep)
        ensures
            ({
                let st = old(self).frames();
                if st.len() == 0 {
                    rtn is Done && final(self).frames() == st && final(self).settings_view() == old(self).settings_view()
                } else {
                    let top = st.last();
                    if top.next < top.preload.len() {
                        match spec_path_parent(top.path) {
                            None => rtn matches LoadStep::Stop(e) && e@ == MergeStop::Invalid(spec_no_parent_msg(top.path)),
                            Some(par) => rtn matches LoadStep::Load(p)
                                && p@ == spec_join_path(par, top.preload[top.next])
                                && final(self).frames() == st.update(st.len() - 1, (FrameView { next: top.next + 1, ..top }))
                                && final(self).settings_view() == old(self).settings_view(),
                        }
                    } else {
                        match spec_path_parent(top.path) {
                            None => rtn matches LoadStep::Stop(e) && e@ == MergeStop::Invalid(
                                "failed to retrieve parent path from source file "@ + spec_quote(top.path),
                            ),
                            Some(par) => {
                                let ctx = MergeCtx {
                                    parent: par,
                                    src: spec_quote(top.path),
                                    paths: facts.spec_paths(),
                                    addrs: facts.spec_addrs(),
                                };
                                match spec_settings_merge(old(self).settings_view(), top.shape, ctx, old(self).dot_view()) {
                                    Err(e) => rtn matches LoadStep::Stop(r) && r@ == e,
                                    Ok(merged) => rtn is Merged && final(self).frames() == st.drop_last()
                                        && final(self).settings_view() == merged,
                                }
                            },
                        }
                    }
                }
            }),
            final(self).dot_view() == old(self).dot_view(),
    {
        let ghost st = self.frames();
        let len = self.stack.len();
        if len == 0 {
            return LoadStep::Done;
        }
        let ghost top = st.last();
        assert(top == spec_frame_view(self.stack@[len - 1]));
        if self.stack[len - 1].next < self.stack[len - 1].preload.len() {
            let next = self.stack[len - 1].next;
            let parent = match crate::path::path_parent(self.stack[len - 1].path.as_str()) {
                Some(p) => p,
                None => {
                    let mut msg = to_owned_string("failed to retrieve parent directory of path: ");
                    let q = meta::quote(self.stack[len - 1].path.as_str());
                    push_str(&mut msg, q.as_str());
                    return LoadStep::Stop(MergeError::Invalid(crate::error::ContextError::context(msg)));
                },
            };
            let resolved = join_path(parent.as_str(), self.stack[len - 1].preload[next].as_str());
            let ghost old_stack = self.stack@;
            let mut frame = self.stack.pop().unwrap();
            frame.next = next + 1;
            self.stack.push(frame);
            assert(self.stack@ =~= old_stack.update(len - 1, self.stack@[len - 1]));
            assert(self.frames() =~= st.update(st.len() - 1, (FrameView { next: top.next + 1, ..top })));
            return LoadStep::Load(resolved);
        }
        let ghost old_stack = self.stack@;
        let frame = self.stack.pop().unwrap();
        assert(self.frames() =~= st.drop_last());
        let src = match SrcFile::new(frame.path.as_str()) {
            Ok(s) => s,
            Err(e) => return LoadStep::Stop(MergeError::Invalid(e)),
        };
        match self.settings.merge(&src, &self.dot, frame.shape, facts) {
            Ok(()) => LoadStep::Merged,
            Err(e) => LoadStep::Stop(e),
        }
    }

    /// the settings merged so far
    pub fn into_settings(self) -> (rtn: Settings)
        ensures
            rtn@ == self.settings_view(),
    {
        self.settings
    }
}

} // verus!
