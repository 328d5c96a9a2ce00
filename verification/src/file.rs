//! Resolution of the scripting layer's directories: the configuration
//! directory under the user's home, the entry script inside it, and the
//! fixed system library directory.
//!
//! The filesystem itself is the embedding's business: the embedding reports
//! which of the candidate paths are present, and the functions here build
//! the candidate paths and decide, deterministically, what was resolved and
//! which setup error to report otherwise.
use vstd::prelude::*;

verus! {

/// The configuration directory candidate under a home directory.
pub open spec fn spec_config_dir(home: Seq<char>) -> Seq<char> {
    home + "/.config/lxid"@
}

/// The entry-script candidate inside a configuration directory.
pub open spec fn spec_init_file(config_dir: Seq<char>) -> Seq<char> {
    config_dir + "/init.lua"@
}

/// Keeps a path only when the embedding found it present on disk.
pub fn existing(path: String, present: bool) -> (r: Option<String>)
    ensures
        present ==> (r matches Some(p) && p == path),
        !present ==> r is None,
{
    if present {
        Some(path)
    } else {
        None
    }
}

/// The configuration directory under the given home directory, if the
/// embedding found it present.
pub fn config_path(home: &str, present: bool) -> (r: Option<String>)
    ensures
        present ==> (r matches Some(p) && p@ == spec_config_dir(home@)),
        !present ==> r is None,
{
    existing(home.to_owned().concat("/.config/lxid"), present)
}

/// The fixed system library directory, if the embedding found it present.
pub fn library_path(present: bool) -> (r: Option<String>)
    ensures
        present ==> (r matches Some(p) && p@ == "/usr/share/lxid/lib"@),
        !present ==> r is None,
{
    existing("/usr/share/lxid/lib".to_owned(), present)
}

/// The entry script inside the given directory, if the embedding found it
/// present.
pub fn append_init(dir: &str, present: bool) -> (r: Option<String>)
    ensures
        present ==> (r matches Some(p) && p@ == spec_init_file(dir@)),
        !present ==> r is None,
{
    existing(dir.to_owned().concat("/init.lua"), present)
}

/// A setup failure: which required location could not be resolved. Each
/// class carries its own non-zero exit status, so the observable status
/// identifies the failure.
#[derive(Clone, Copy, PartialEq, Eq, Structural, Debug)]
pub enum SetupError {
    ConfigDirMissing,
    InitFileMissing,
    LibraryDirMissing,
}

impl SetupError {
    /// The human-readable report printed before the process exits.
    pub fn message(&self) -> (r: String)
        ensures
            *self is ConfigDirMissing ==> r@ == "No Config dir found"@,
            *self is InitFileMissing ==> r@
                == "No init.lua not found in configuration directory"@,
            *self is LibraryDirMissing ==> r@ == "Libraries not found"@,
    {
        match self {
            SetupError::ConfigDirMissing => "No Config dir found".to_owned(),
            SetupError::InitFileMissing => "No init.lua not found in configuration directory".to_owned(),
            SetupError::LibraryDirMissing => "Libraries not found".to_owned(),
        }
    }

    /// The process exit status for this setup failure.
    pub fn exit_status(&self) -> (r: i32)
        ensures
            r == self.spec_exit_status(),
    {
        match self {
            SetupError::ConfigDirMissing => 2,
            SetupError::InitFileMissing => 3,
            SetupError::LibraryDirMissing => 4,
        }
    }

    /// The exit status of each setup failure class.
    pub open spec fn spec_exit_status(self) -> i32 {
        match self {
            SetupError::ConfigDirMissing => 2,
            SetupError::InitFileMissing => 3,
            SetupError::LibraryDirMissing => 4,
        }
    }
}

/// Law: setup-failure exit statuses are non-zero, distinct per class, and
/// distinct from every handler-failure status.
pub proof fn lemma_setup_status_distinct(a: SetupError, b: SetupError, c: crate::dispatch::Category)
    ensures
        a.spec_exit_status() != 0,
        a != b ==> a.spec_exit_status() != b.spec_exit_status(),
        a.spec_exit_status() != crate::dispatch::spec_exit_status(c),
{
}

/// The three resolved locations the scripting layer needs: where the user
/// configuration lives, the entry script, and the shared library tree.
#[derive(Debug)]
pub struct LuaPaths {
    pub config_dir: String,
    pub init_file: String,
    pub library_dir: String,
}

impl LuaPaths {
    /// Resolves all three locations from what the embedding reports: the
    /// home directory the platform knows (if any), and whether each
    /// candidate path is present on disk. Fails with the first missing
    /// location, checked in the order configuration directory, entry
    /// script, library directory.
    pub fn new(home: Option<&str>, config_present: bool, init_present: bool, library_present: bool)
        -> (r: Result<LuaPaths, SetupError>)
        ensures
            home is None ==> r == Err::<LuaPaths, SetupError>(SetupError::ConfigDirMissing),
            home is Some && !config_present ==> r == Err::<LuaPaths, SetupError>(
                SetupError::ConfigDirMissing,
            ),
            home is Some && config_present && !init_present ==> r == Err::<LuaPaths, SetupError>(
                SetupError::InitFileMissing,
            ),
            home is Some && config_present && init_present && !library_present ==> r == Err::<
                LuaPaths,
                SetupError,
            >(SetupError::LibraryDirMissing),
            home is Some && config_present && init_present && library_present ==> (r matches Ok(
                p,
            ) && p.config_dir@ == spec_config_dir(home->0@) && p.init_file@ == spec_init_file(
                spec_config_dir(home->0@),
            ) && p.library_dir@ == "/usr/share/lxid/lib"@),
    {
        let h = match home {
            Some(h) => h,
            None => {
                return Err(SetupError::ConfigDirMissing);
            },
        };
        let config_dir = match config_path(h, config_present) {
            Some(path) => path,
            None => {
                return Err(SetupError::ConfigDirMissing);
            },
        };
        let init_file = match append_init(config_dir.as_str(), init_present) {
            Some(path) => path,
            None => {
                return Err(SetupError::InitFileMissing);
            },
        };
        let library_dir = match library_path(library_present) {
            Some(path) => path,
            None => {
                return Err(SetupError::LibraryDirMissing);
            },
        };
        Ok(LuaPaths { config_dir, init_file, library_dir })
    }
}

/// The module search path prefix handed to the scripting environment: the
/// configuration directory and the library directory, each with the plain
/// and the package-directory pattern, in that order.
pub fn lua_search_path(config_dir: &str, library_dir: &str) -> (r: String)
    ensures
        r@ == config_dir@ + "/?.lua;"@ + config_dir@ + "/?/init.lua;"@ + library_dir@ + "/?.lua;"@
            + library_dir@ + "/?/init.lua;"@,
{
    let r = config_dir.to_owned().concat("/?.lua;").concat(config_dir).concat(
        "/?/init.lua;",
    ).concat(library_dir).concat("/?.lua;").concat(library_dir).concat("/?/init.lua;");
    proof {
        assert(r@ == config_dir@ + "/?.lua;"@ + config_dir@ + "/?/init.lua;"@ + library_dir@
            + "/?.lua;"@ + library_dir@ + "/?/init.lua;"@);
    }
    r
}

} // verus!
