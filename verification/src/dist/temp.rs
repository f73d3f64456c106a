//! The temporary-entry manager.
//!
//! [`Cfg`] owns the staging root and allocates uniquely named files and
//! directories under it; [`Dir`] and [`File`] are the scoped handles a
//! successful allocation returns. The filesystem calls themselves —
//! ensuring the root, probing a candidate, creating and removing
//! entries — are performed by the surrounding program; each function
//! here takes what the filesystem reported and is verified to turn it
//! into the right name, handle, error or cleanup action.

use vstd::prelude::*;

use crate::Verbosity;

verus! {

/// The underlying cause of a failed filesystem call, as the surrounding
/// program reported it; carried through unchanged for diagnostics.
#[derive(Debug)]
pub struct IoError {
    pub message: String,
}

/// The failures a factory call can return. Each carries the path whose
/// creation failed and the underlying cause. A name collision is never
/// an error: it only makes the protocol retry.
#[derive(Debug)]
pub enum Error {
    CreatingRoot { path: String, error: IoError },
    CreatingFile { path: String, error: IoError },
    CreatingDirectory { path: String, error: IoError },
}

/// The configuration one staging root is managed under.
#[derive(Debug)]
pub struct Cfg {
    root_directory: String,
    pub dist_server: String,
    verbosity: Verbosity,
}

/// A scoped handle for one directory created under the staging root.
/// At the end of its scope the whole tree beneath its path is removed;
/// `cleanup` decides that action.
#[derive(Debug)]
pub struct Dir<'a> {
    cfg: &'a Cfg,
    path: String,
}

/// A scoped handle for one regular file created under the staging root.
/// At the end of its scope the file is removed; `cleanup` decides that
/// action.
#[derive(Debug)]
pub struct File<'a> {
    cfg: &'a Cfg,
    path: String,
}

/// What the surrounding program observed for one candidate path: an
/// entry already stands there, or it created the entry, or creation
/// itself failed.
#[derive(Debug)]
pub enum Attempt {
    AlreadyExists,
    Created,
    Failed(IoError),
}

/// What one round of the collision-retry protocol decides: draw a new
/// name and try again, hand out the finished handle, or give up with a
/// creation error.
#[derive(Debug)]
pub enum Step<T> {
    Retry,
    Done(T),
    Fail(Error),
}

/// The cleanup a handle asks for at the end of its scope.
#[derive(Debug)]
pub enum Cleanup {
    RemoveTree(String),
    RemoveFile(String),
    Nothing,
}

/// `root` with `name` joined under it by a single separator.
pub open spec fn path_join(root: Seq<char>, name: Seq<char>) -> Seq<char> {
    root + "/"@ + name
}

/// The entry name one directory round uses for a drawn random core.
pub open spec fn dir_name(rand: Seq<char>) -> Seq<char> {
    rand + "_dir"@
}

/// The entry name one file round uses for a drawn random core.
pub open spec fn file_name(prefix: Seq<char>, rand: Seq<char>, ext: Seq<char>) -> Seq<char> {
    prefix + rand + "_file"@ + ext
}

pub open spec fn is_ascii_alphanumeric_char(c: char) -> bool {
    ('0' as int <= c as int && c as int <= '9' as int) || ('a' as int <= c as int && c as int
        <= 'z' as int) || ('A' as int <= c as int && c as int <= 'Z' as int)
}

/// The shape of the random core the protocol draws for each candidate:
/// 16 alphanumeric characters.
pub open spec fn is_random_core(s: Seq<char>) -> bool {
    s.len() == 16 && (forall|i: int| 0 <= i < s.len() ==> is_ascii_alphanumeric_char(#[trigger] s[i]))
}

impl Error {
    /// The path whose creation failed.
    pub open spec fn spec_path(&self) -> Seq<char> {
        match self {
            Error::CreatingRoot { path, .. } => path@,
            Error::CreatingFile { path, .. } => path@,
            Error::CreatingDirectory { path, .. } => path@,
        }
    }

    /// The wrapped cause.
    pub open spec fn spec_cause(&self) -> IoError {
        match self {
            Error::CreatingRoot { error, .. } => *error,
            Error::CreatingFile { error, .. } => *error,
            Error::CreatingDirectory { error, .. } => *error,
        }
    }

    pub open spec fn spec_description(&self) -> Seq<char> {
        match self {
            Error::CreatingRoot { .. } => "could not create temp root"@,
            Error::CreatingFile { .. } => "could not create temp file"@,
            Error::CreatingDirectory { .. } => "could not create temp directory"@,
        }
    }

    /// The one-line rendering: the description, a separator, the path.
    pub open spec fn spec_message(&self) -> Seq<char> {
        self.spec_description() + ": "@ + self.spec_path()
    }

    /// A short, path-free account of what failed.
    pub fn description(&self) -> (r: &'static str)
        ensures
            r@ == self.spec_description(),
    {
        match self {
            Error::CreatingRoot { .. } => "could not create temp root",
            Error::CreatingFile { .. } => "could not create temp file",
            Error::CreatingDirectory { .. } => "could not create temp directory",
        }
    }

    /// The underlying cause, for chained diagnostics.
    pub fn cause(&self) -> (r: Option<&IoError>)
        ensures
            r matches Some(c) && *c == self.spec_cause(),
    {
        match self {
            Error::CreatingRoot { error, .. } => Some(error),
            Error::CreatingFile { error, .. } => Some(error),
            Error::CreatingDirectory { error, .. } => Some(error),
        }
    }

    /// Renders the error as its one-line human message.
    pub fn message(&self) -> (r: String)
        ensures
            r@ == self.spec_message(),
    {
        let path: &String = match self {
            Error::CreatingRoot { path, .. } => path,
            Error::CreatingFile { path, .. } => path,
            Error::CreatingDirectory { path, .. } => path,
        };
        let r = self.description().to_owned().concat(": ").concat(path.as_str());
        proof {
            assert(r@ =~= self.spec_message());
        }
        r
    }
}

impl Cfg {
    /// The staging root this configuration manages.
    pub closed spec fn spec_root(&self) -> Seq<char> {
        self.root_directory@
    }

    pub closed spec fn spec_verbosity(&self) -> Verbosity {
        self.verbosity
    }

    /// The configured remote identifier, carried for caller context.
    pub closed spec fn spec_dist_server(&self) -> Seq<char> {
        self.dist_server@
    }

    pub fn new(root_directory: String, dist_server: &str, verbosity: Verbosity) -> (r: Cfg)
        ensures
            r.spec_root() == root_directory@,
            r.spec_dist_server() == dist_server@,
            r.spec_verbosity() == verbosity,
    {
        Cfg { root_directory, dist_server: dist_server.to_owned(), verbosity }
    }

    /// The staging root, for the surrounding program to ensure and probe.
    pub fn root_directory(&self) -> (r: &String)
        ensures
            r@ == self.spec_root(),
    {
        &self.root_directory
    }

    /// Whether creation events are to be emitted, per the verbosity
    /// toggle.
    pub fn is_verbose(&self) -> (r: bool)
        ensures
            r == (self.spec_verbosity() == Verbosity::Verbose),
    {
        match self.verbosity {
            Verbosity::Verbose => true,
            Verbosity::NotVerbose => false,
        }
    }

    /// Finishes "ensure the staging root exists": a reported outcome is
    /// passed through, a failure becomes `CreatingRoot` carrying the
    /// root path.
    pub fn create_root(&self, ensured: Result<bool, IoError>) -> (r: Result<bool, Error>)
        ensures
            ensured matches Ok(created) ==> r == Ok::<bool, Error>(created),
            ensured matches Err(e) ==> (r matches Err(err) && err matches Error::CreatingRoot {
                path,
                error,
            } && path@ == self.spec_root() && error == e),
    {
        match ensured {
            Ok(created) => Ok(created),
            Err(e) => Err(
                Error::CreatingRoot { path: self.root_directory.clone(), error: e },
            ),
        }
    }

    /// The candidate path one directory round probes and creates.
    pub fn dir_candidate(&self, rand: &str) -> (r: String)
        ensures
            r@ == path_join(self.spec_root(), dir_name(rand@)),
    {
        let r = self.root_directory.clone().concat("/").concat(rand).concat("_dir");
        proof {
            assert(r@ =~= path_join(self.spec_root(), dir_name(rand@)));
        }
        r
    }

    /// The candidate path one file round probes and creates.
    pub fn file_candidate(&self, prefix: &str, rand: &str, ext: &str) -> (r: String)
        ensures
            r@ == path_join(self.spec_root(), file_name(prefix@, rand@, ext@)),
    {
        let r = self
            .root_directory
            .clone()
            .concat("/")
            .concat(prefix)
            .concat(rand)
            .concat("_file")
            .concat(ext);
        proof {
            assert(r@ =~= path_join(self.spec_root(), file_name(prefix@, rand@, ext@)));
        }
        r
    }

    /// One round of the collision-retry protocol for a directory, on
    /// the random core drawn for this round and what the filesystem
    /// reported for the candidate: an occupied candidate only makes the
    /// protocol retry with a fresh name, a created one becomes the
    /// handle, and a creation failure becomes `CreatingDirectory`
    /// carrying the candidate path.
    pub fn new_directory<'a>(&'a self, rand: &str, attempt: Attempt) -> (r: Step<Dir<'a>>)
        ensures
            (r is Retry) == (attempt is AlreadyExists),
            attempt is Created ==> (r matches Step::Done(d) && d.spec_path() == path_join(
                self.spec_root(),
                dir_name(rand@),
            ) && d.spec_cfg() == *self),
            attempt matches Attempt::Failed(e) ==> (r matches Step::Fail(err)
                && err matches Error::CreatingDirectory { path, error } && path@ == path_join(
                self.spec_root(),
                dir_name(rand@),
            ) && error == e),
    {
        match attempt {
            Attempt::AlreadyExists => Step::Retry,
            Attempt::Created => Step::Done(Dir { cfg: self, path: self.dir_candidate(rand) }),
            Attempt::Failed(e) => Step::Fail(
                Error::CreatingDirectory { path: self.dir_candidate(rand), error: e },
            ),
        }
    }

    /// One round of the collision-retry protocol for a file with a bare
    /// random core: the same protocol as `new_file_with_ext` with an
    /// empty prefix and an empty extension.
    pub fn new_file<'a>(&'a self, rand: &str, attempt: Attempt) -> (r: Step<File<'a>>)
        ensures
            (r is Retry) == (attempt is AlreadyExists),
            attempt is Created ==> (r matches Step::Done(f) && f.spec_path() == path_join(
                self.spec_root(),
                file_name(Seq::<char>::empty(), rand@, Seq::<char>::empty()),
            ) && f.spec_cfg() == *self),
            attempt matches Attempt::Failed(e) ==> (r matches Step::Fail(err)
                && err matches Error::CreatingFile { path, error } && path@ == path_join(
                self.spec_root(),
                file_name(Seq::<char>::empty(), rand@, Seq::<char>::empty()),
            ) && error == e),
    {
        proof {
            reveal_strlit("");
            assert(""@ =~= Seq::<char>::empty());
        }
        self.new_file_with_ext("", "", rand, attempt)
    }

    /// One round of the collision-retry protocol for a file whose name
    /// is `prefix`, the drawn random core, `_file`, `ext`: an occupied
    /// candidate only makes the protocol retry with a fresh name, a
    /// created one becomes the handle, and a creation failure becomes
    /// `CreatingFile` carrying the candidate path. `prefix` and `ext`
    /// are taken as given and are not sanitized: callers are trusted
    /// not to pass path separators.
    pub fn new_file_with_ext<'a>(
        &'a self,
        prefix: &str,
        ext: &str,
        rand: &str,
        attempt: Attempt,
    ) -> (r: Step<File<'a>>)
        ensures
            (r is Retry) == (attempt is AlreadyExists),
            attempt is Created ==> (r matches Step::Done(f) && f.spec_path() == path_join(
                self.spec_root(),
                file_name(prefix@, rand@, ext@),
            ) && f.spec_cfg() == *self),
            attempt matches Attempt::Failed(e) ==> (r matches Step::Fail(err)
                && err matches Error::CreatingFile { path, error } && path@ == path_join(
                self.spec_root(),
                file_name(prefix@, rand@, ext@),
            ) && error == e),
    {
        match attempt {
            Attempt::AlreadyExists => Step::Retry,
            Attempt::Created => Step::Done(
                File { cfg: self, path: self.file_candidate(prefix, rand, ext) },
            ),
            Attempt::Failed(e) => Step::Fail(
                Error::CreatingFile { path: self.file_candidate(prefix, rand, ext), error: e },
            ),
        }
    }
}

impl<'a> Dir<'a> {
    /// The absolute path of the directory this handle owns.
    pub closed spec fn spec_path(&self) -> Seq<char> {
        self.path@
    }

    /// The configuration this handle was created by.
    pub closed spec fn spec_cfg(&self) -> Cfg {
        *self.cfg
    }

    pub fn path(&self) -> (r: &String)
        ensures
            r@ == self.spec_path(),
    {
        &self.path
    }

    /// The cleanup this handle asks for at the end of its scope, given
    /// whether its path still denotes a directory: remove the whole
    /// tree when it does; when it does not (the entry was already
    /// removed by some external actor), do nothing.
    pub fn cleanup(&self, is_directory: bool) -> (r: Cleanup)
        ensures
            is_directory ==> (r matches Cleanup::RemoveTree(p) && p@ == self.spec_path()),
            !is_directory ==> r is Nothing,
    {
        if is_directory {
            Cleanup::RemoveTree(self.path.clone())
        } else {
            Cleanup::Nothing
        }
    }
}

impl<'a> File<'a> {
    /// The absolute path of the regular file this handle owns.
    pub closed spec fn spec_path(&self) -> Seq<char> {
        self.path@
    }

    /// The configuration this handle was created by.
    pub closed spec fn spec_cfg(&self) -> Cfg {
        *self.cfg
    }

    pub fn path(&self) -> (r: &String)
        ensures
            r@ == self.spec_path(),
    {
        &self.path
    }

    /// The cleanup this handle asks for at the end of its scope, given
    /// whether its path still denotes a regular file: remove exactly
    /// that file when it does; when it does not, do nothing.
    pub fn cleanup(&self, is_file: bool) -> (r: Cleanup)
        ensures
            is_file ==> (r matches Cleanup::RemoveFile(p) && p@ == self.spec_path()),
            !is_file ==> r is Nothing,
    {
        if is_file {
            Cleanup::RemoveFile(self.path.clone())
        } else {
            Cleanup::Nothing
        }
    }
}

/// Distinct random cores of equal length give distinct directory
/// candidates under one root: two live directory handles from one
/// configuration can share a path only if the protocol drew the same
/// core while the first entry was found absent — which the occupancy
/// probe rules out.
pub proof fn lemma_distinct_cores_distinct_dirs(root: Seq<char>, r1: Seq<char>, r2: Seq<char>)
    requires
        r1.len() == r2.len(),
        r1 != r2,
    ensures
        path_join(root, dir_name(r1)) != path_join(root, dir_name(r2)),
{
    reveal_strlit("/");
    if path_join(root, dir_name(r1)) == path_join(root, dir_name(r2)) {
        assert forall|i: int| 0 <= i < r1.len() implies r1[i] == r2[i] by {
            assert(path_join(root, dir_name(r1))[root.len() + 1 + i] == r1[i]);
            assert(path_join(root, dir_name(r2))[root.len() + 1 + i] == r2[i]);
        }
        assert(r1 =~= r2);
    }
}

/// Distinct random cores of equal length give distinct file candidates
/// under one root, for one prefix and one extension.
pub proof fn lemma_distinct_cores_distinct_files(
    root: Seq<char>,
    prefix: Seq<char>,
    ext: Seq<char>,
    r1: Seq<char>,
    r2: Seq<char>,
)
    requires
        r1.len() == r2.len(),
        r1 != r2,
    ensures
        path_join(root, file_name(prefix, r1, ext)) != path_join(root, file_name(prefix, r2, ext)),
{
    reveal_strlit("/");
    if path_join(root, file_name(prefix, r1, ext)) == path_join(root, file_name(prefix, r2, ext)) {
        assert forall|i: int| 0 <= i < r1.len() implies r1[i] == r2[i] by {
            assert(path_join(root, file_name(prefix, r1, ext))[root.len() + 1 + prefix.len() + i]
                == r1[i]);
            assert(path_join(root, file_name(prefix, r2, ext))[root.len() + 1 + prefix.len() + i]
                == r2[i]);
        }
        assert(r1 =~= r2);
    }
}

/// The filename protocol: with a 16-character alphanumeric random core,
/// the produced entry name is the prefix, then 16 alphanumeric
/// characters, then `_file`, then the extension.
pub proof fn lemma_file_name_shape(prefix: Seq<char>, rand: Seq<char>, ext: Seq<char>)
    requires
        is_random_core(rand),
    ensures
        file_name(prefix, rand, ext).len() == prefix.len() + 21 + ext.len(),
        file_name(prefix, rand, ext).subrange(0, prefix.len() as int) == prefix,
        forall|i: int|
            prefix.len() <= i < prefix.len() + 16 ==> is_ascii_alphanumeric_char(
                #[trigger] file_name(prefix, rand, ext)[i],
            ),
        file_name(prefix, rand, ext).subrange(prefix.len() as int, prefix.len() + 16 as int)
            == rand,
        file_name(prefix, rand, ext).subrange(prefix.len() + 16 as int, prefix.len() + 21 as int)
            == "_file"@,
        file_name(prefix, rand, ext).subrange(
            prefix.len() + 21 as int,
            file_name(prefix, rand, ext).len() as int,
        ) == ext,
{
    reveal_strlit("_file");
    let n = file_name(prefix, rand, ext);
    assert(n.subrange(0, prefix.len() as int) =~= prefix);
    assert(n.subrange(prefix.len() as int, prefix.len() + 16 as int) =~= rand);
    assert(n.subrange(prefix.len() + 16 as int, prefix.len() + 21 as int) =~= "_file"@);
    assert(n.subrange(prefix.len() + 21 as int, n.len() as int) =~= ext);
    assert forall|i: int| prefix.len() <= i < prefix.len() + 16 implies is_ascii_alphanumeric_char(
        #[trigger] n[i],
    ) by {
        assert(n[i] == rand[i - prefix.len()]);
    }
}

} // verus!
