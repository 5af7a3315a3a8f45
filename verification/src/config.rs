//! Configuration bootstrap: resolve the per-user configuration directory
//! and the default configuration file, once per process.
//!
//! The decisions live here; the filesystem probes and writes they depend
//! on are performed by the caller, which reports each answer back.  A
//! completed resolution is remembered so that repeated calls neither touch
//! the filesystem nor consult the platform again.

use vstd::prelude::*;

verus! {

/// A path `name` appended under `base`, with `/` as the separator, as the
/// platform path type joins them on Unix: no separator is inserted after
/// an empty base or one that already ends in `/`.
pub open spec fn path_join(base: Seq<char>, name: Seq<char>) -> Seq<char> {
    if base.len() == 0 {
        name
    } else if base.last() == '/' {
        base + name
    } else {
        base + seq!['/'] + name
    }
}

/// Join a path and a further component, inserting `/` where needed.
pub fn join_path(base: &str, name: &str) -> (p: String)
    ensures
        p@ == path_join(base@, name@),
{
    let n = base.unicode_len();
    let mut p = base.to_owned();
    if n > 0 && base.get_char(n - 1) != '/' {
        p.append("/");
        proof {
            reveal_strlit("/");
            assert("/"@ =~= seq!['/']);
        }
    }
    p.append(name);
    proof {
        if n == 0 {
            assert(p@ =~= name@);
        }
    }
    p
}

/// Whether two resolution outcomes carry the same answer: both no
/// directory, both the same directory path, or both the same error text.
pub open spec fn same_resolution(
    a: Result<Option<String>, String>,
    b: Result<Option<String>, String>,
) -> bool {
    match (a, b) {
        (Result::Ok(Option::None), Result::Ok(Option::None)) => true,
        (Result::Ok(Option::Some(x)), Result::Ok(Option::Some(y))) => x@ == y@,
        (Result::Err(x), Result::Err(y)) => x@ == y@,
        _ => false,
    }
}

fn clone_resolution(r: &Result<Option<String>, String>) -> (c: Result<Option<String>, String>)
    ensures
        same_resolution(*r, c),
{
    match r {
        Result::Ok(Option::Some(p)) => Result::Ok(Option::Some(p.clone())),
        Result::Ok(Option::None) => Result::Ok(Option::None),
        Result::Err(e) => Result::Err(e.clone()),
    }
}

/// What the caller must do next to resolve the configuration directory.
#[derive(Debug, PartialEq, Eq)]
pub enum DirStep {
    /// Resolution is finished with this outcome: the directory path, no
    /// directory because the platform has no configuration root, or the
    /// filesystem's description of a creation failure.
    Done(Result<Option<String>, String>),
    /// Ask the filesystem whether any entry exists at this path, then
    /// report the answer through `dir_checked`.
    CheckDir(String),
    /// Create a directory at this path, then report the outcome through
    /// `dir_created`.
    CreateDir(String),
}

/// The once-per-process cache of the resolved configuration directory.
/// It is created before the user interface starts and passed by reference
/// to whatever needs the directory afterwards.
pub struct ConfigBootstrap {
    /// The remembered outcome of a completed resolution, if any completed.
    pub resolved: Option<Result<Option<String>, String>>,
}

impl ConfigBootstrap {
    /// A fresh cache holding no resolution yet.
    pub fn new() -> (b: Self)
        ensures
            b.resolved is None,
    {
        ConfigBootstrap { resolved: Option::None }
    }

    /// Begin, or repeat, the resolution of the configuration directory.
    /// A previously completed resolution is answered from the cache, with
    /// the platform and the filesystem left untouched.  Otherwise the
    /// platform's configuration root is consulted: with no root the
    /// resolution completes at once with no directory, a legitimate
    /// outcome and not an error; with a root, the caller is asked whether
    /// the application subdirectory under it exists.
    pub fn init_config_dir(&mut self) -> (step: DirStep)
        ensures
            old(self).resolved matches Option::Some(c) ==> *final(self) == *old(self)
                && (step matches DirStep::Done(r) && same_resolution(r, c)),
            old(self).resolved is None ==> match step {
                DirStep::Done(r) => r == Result::<Option<String>, String>::Ok(Option::None)
                    && final(self).resolved == Option::Some(r),
                DirStep::CheckDir(p) => *final(self) == *old(self) && (exists|root: Seq<char>|
                    p@ == path_join(root, "tuifeed/"@)),
                DirStep::CreateDir(_) => false,
            },
    {
        if let Option::Some(r) = &self.resolved {
            return DirStep::Done(clone_resolution(r));
        }
        match platform_config_root() {
            Option::Some(root) => DirStep::CheckDir(join_path(root.as_str(), "tuifeed/")),
            Option::None => {
                self.resolved = Option::Some(Result::Ok(Option::None));
                DirStep::Done(Result::Ok(Option::None))
            },
        }
    }

    /// Record the filesystem's answer for the candidate directory `path`.
    /// An entry of any kind there resolves the directory as it stands: a
    /// plain file left at that path is not told apart here and only makes
    /// later file operations under it fail.  A missing entry asks the
    /// caller to create the directory and report through `dir_created`.
    pub fn dir_checked(&mut self, path: &str, entry_exists: bool) -> (step: DirStep)
        requires
            old(self).resolved is None,
        ensures
            entry_exists ==> match (step, final(self).resolved) {
                (
                    DirStep::Done(Result::Ok(Option::Some(p))),
                    Option::Some(Result::Ok(Option::Some(c))),
                ) => p@ == path@ && c@ == path@,
                _ => false,
            },
            !entry_exists ==> *final(self) == *old(self) && (step matches DirStep::CreateDir(p)
                && p@ == path@),
    {
        if entry_exists {
            self.resolved = Option::Some(Result::Ok(Option::Some(path.to_owned())));
            DirStep::Done(Result::Ok(Option::Some(path.to_owned())))
        } else {
            DirStep::CreateDir(path.to_owned())
        }
    }

    /// Record the outcome of creating the candidate directory `path`:
    /// success resolves to the directory, and a failure becomes the final
    /// error of the resolution, carrying the filesystem's description.
    /// Either way the outcome is remembered.
    pub fn dir_created(&mut self, path: &str, outcome: Result<(), String>) -> (r: Result<
        Option<String>,
        String,
    >)
        requires
            old(self).resolved is None,
        ensures
            final(self).resolved matches Option::Some(c) && same_resolution(c, r),
            match (outcome, r) {
                (Result::Ok(_), Result::Ok(Option::Some(p))) => p@ == path@,
                (Result::Err(e), Result::Err(e2)) => e2@ == e@,
                _ => false,
            },
    {
        let r = match outcome {
            Result::Ok(_) => Result::Ok(Option::Some(path.to_owned())),
            Result::Err(e) => Result::Err(e),
        };
        self.resolved = Option::Some(clone_resolution(&r));
        r
    }
}

/// Relies on `dirs::config_dir`: the platform's per-user configuration
/// root as a path string, or nothing where the platform defines none.
/// The answer depends on the machine and its environment, so nothing is
/// assumed about the returned text.
#[verifier::external_body]
fn platform_config_root() -> (r: Option<String>) {
    dirs::config_dir().map(|p| p.to_string_lossy().into_owned())
}

/// What the caller must do to make the configuration file usable.
#[derive(Debug, PartialEq, Eq)]
pub enum FileStep {
    /// The file already exists at this path; it is returned unchanged,
    /// with no validation of its contents.
    Ready(String),
    /// Write the default template to this path, then report the outcome
    /// through `file_written`.
    WriteDefault(String),
}

/// The path of the configuration file under `config_dir`; the caller asks
/// the filesystem about this path before calling `get_config_file`.
pub fn config_file_path(config_dir: &str) -> (p: String)
    ensures
        p@ == path_join(config_dir@, "config.toml"@),
{
    join_path(config_dir, "config.toml")
}

/// Resolve the configuration file under `config_dir`: `file_exists` is the
/// filesystem's answer for `config_file_path(config_dir)`.  An existing
/// file is ready as it stands; a missing one must first be written with
/// the default template.
pub fn get_config_file(config_dir: &str, file_exists: bool) -> (step: FileStep)
    ensures
        match step {
            FileStep::Ready(p) => file_exists && p@ == path_join(config_dir@, "config.toml"@),
            FileStep::WriteDefault(p) => !file_exists && p@ == path_join(
                config_dir@,
                "config.toml"@,
            ),
        },
{
    let p = join_path(config_dir, "config.toml");
    if file_exists {
        FileStep::Ready(p)
    } else {
        FileStep::WriteDefault(p)
    }
}

/// The exact text of the default configuration file: a commented example
/// mapping of feed names to feed URLs.
pub open spec fn default_config_text() -> Seq<char> {
    "[sources]\n# Write here the sources you want to get the feed from following the example below\n# New_York_Times = \"https://rss.nytimes.com/services/xml/rss/nyt/World.xml\"\n"@
}

/// The default template a fresh configuration file is initialized with,
/// byte for byte.
pub fn init_config_file() -> (s: String)
    ensures
        s@ == default_config_text(),
{
    "[sources]\n# Write here the sources you want to get the feed from following the example below\n# New_York_Times = \"https://rss.nytimes.com/services/xml/rss/nyt/World.xml\"\n".to_owned()
}

/// Fold the outcome of writing the default template at `path` into the
/// result of the file resolution: success yields the path, failure the
/// filesystem's description of the error.
pub fn file_written(path: String, outcome: Result<(), String>) -> (r: Result<String, String>)
    ensures
        match (outcome, r) {
            (Result::Ok(_), Result::Ok(p)) => p@ == path@,
            (Result::Err(e), Result::Err(e2)) => e2@ == e@,
            _ => false,
        },
{
    match outcome {
        Result::Ok(_) => Result::Ok(path),
        Result::Err(e) => Result::Err(e),
    }
}

} // verus!
