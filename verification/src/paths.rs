//! Where the backend lives on disk and how it is launched.
//!
//! Nothing here looks at the disk. The caller reports which of the
//! proposed paths exist; the functions below pick among them.

use vstd::prelude::*;
use vstd::string::StringExecFns;
use crate::config::Platform;
use crate::error::{StartError, StartErrorView};
use crate::text::{decimal, decimal_string, texts};

verus! {

/// How the application was built, with the directories that matter in each case.
#[derive(Clone, Debug, PartialEq, Eq)]
pub enum BuildLayout {
    /// A development build, run from a source tree.
    Development {
        /// The current working directory.
        working_dir: String,
    },
    /// A packaged build.
    Production {
        /// The directory of bundled resources, where the shell knows one.
        resource_dir: Option<String>,
        /// The directory that holds the running executable.
        executable_dir: String,
    },
}

/// The mathematical content of a [`BuildLayout`].
pub enum BuildLayoutView {
    Development { working_dir: Seq<char> },
    Production { resource_dir: Option<Seq<char>>, executable_dir: Seq<char> },
}

impl View for BuildLayout {
    type V = BuildLayoutView;

    open spec fn view(&self) -> BuildLayoutView {
        match self {
            BuildLayout::Development { working_dir } => BuildLayoutView::Development {
                working_dir: working_dir@,
            },
            BuildLayout::Production { resource_dir, executable_dir } => BuildLayoutView::Production {
                resource_dir: match resource_dir {
                    Some(dir) => Some(dir@),
                    None => None,
                },
                executable_dir: executable_dir@,
            },
        }
    }
}

/// Everything about the surroundings that a launch depends on.
#[derive(Clone, Debug, PartialEq, Eq)]
pub struct LaunchContext {
    /// The operating-system family.
    pub platform: Platform,
    /// The build mode and its directories.
    pub layout: BuildLayout,
    /// The application's data directory, where the port hint is kept.
    pub data_dir: String,
}

/// The mathematical content of a [`LaunchContext`].
pub struct LaunchContextView {
    pub platform: Platform,
    pub layout: BuildLayoutView,
    pub data_dir: Seq<char>,
}

impl View for LaunchContext {
    type V = LaunchContextView;

    open spec fn view(&self) -> LaunchContextView {
        LaunchContextView {
            platform: self.platform,
            layout: self.layout@,
            data_dir: self.data_dir@,
        }
    }
}

/// The path of `name` inside the directory `base`.
pub open spec fn join_path(base: Seq<char>, name: Seq<char>) -> Seq<char> {
    base + "/"@ + name
}

/// The backend directory as a child of `parent`.
pub open spec fn backend_dir_in(parent: Seq<char>) -> Seq<char> {
    join_path(parent, "python-backend"@)
}

/// The directories in which the backend is looked for, in the order of
/// preference. A development build looks beside the working directory
/// and then inside it; a packaged build looks among the bundled
/// resources, where there are any, and then beside the executable.
pub open spec fn candidate_dirs(layout: BuildLayoutView) -> Seq<Seq<char>> {
    match layout {
        BuildLayoutView::Development { working_dir } => seq![
            backend_dir_in(join_path(working_dir, ".."@)),
            backend_dir_in(working_dir),
        ],
        BuildLayoutView::Production { resource_dir, executable_dir } => match resource_dir {
            Some(resources) => seq![backend_dir_in(resources), backend_dir_in(executable_dir)],
            None => seq![backend_dir_in(executable_dir)],
        },
    }
}

/// Whether `index` is the first of `count` candidates that `exists`
/// reports as present. A candidate without a report counts as absent.
pub open spec fn is_first_existing(exists: Seq<bool>, count: int, index: int) -> bool {
    &&& 0 <= index < count
    &&& index < exists.len()
    &&& exists[index]
    &&& forall|earlier: int| 0 <= earlier < index ==> !#[trigger] exists[earlier]
}

/// Whether none of `count` candidates is reported as present.
pub open spec fn none_exists(exists: Seq<bool>, count: int) -> bool {
    forall|index: int| 0 <= index < count && index < exists.len() ==> !#[trigger] exists[index]
}

/// The index of the first present candidate, if any is present.
pub open spec fn first_existing(exists: Seq<bool>, count: int) -> Option<int> {
    if exists|index: int| is_first_existing(exists, count, index) {
        Some(choose|index: int| is_first_existing(exists, count, index))
    } else {
        None
    }
}

/// The entry script of the backend in `backend_dir`.
pub open spec fn entry_script_path(backend_dir: Seq<char>) -> Seq<char> {
    join_path(backend_dir, "app.py"@)
}

/// The interpreter of the backend's own virtual environment.
pub open spec fn venv_interpreter_path(backend_dir: Seq<char>, platform: Platform) -> Seq<char> {
    match platform {
        Platform::Posix => join_path(backend_dir, "venv/bin/python"@),
        Platform::Windows => join_path(backend_dir, "venv/Scripts/python.exe"@),
    }
}

/// The name under which the platform offers its own interpreter.
pub open spec fn system_interpreter_name(platform: Platform) -> Seq<char> {
    match platform {
        Platform::Posix => "python3"@,
        Platform::Windows => "python"@,
    }
}

/// The interpreter to launch: the virtual environment's when it is
/// present, the platform's otherwise.
pub open spec fn interpreter_choice(
    backend_dir: Seq<char>,
    platform: Platform,
    venv_present: bool,
) -> Seq<char> {
    if venv_present {
        venv_interpreter_path(backend_dir, platform)
    } else {
        system_interpreter_name(platform)
    }
}

/// The arguments the backend is launched with: its entry script, then
/// the port behind `--port`.
pub open spec fn launch_arguments_of(entry_script: Seq<char>, port: u16) -> Seq<Seq<char>> {
    seq![entry_script, "--port"@, decimal(port as nat)]
}

/// The file that tells the shell which port the backend listens on.
pub open spec fn hint_path_in(data_dir: Seq<char>) -> Seq<char> {
    join_path(data_dir, "backend_port"@)
}

/// There is at most one first present candidate.
pub proof fn lemma_first_existing_unique(exists: Seq<bool>, count: int, a: int, b: int)
    requires
        is_first_existing(exists, count, a),
        is_first_existing(exists, count, b),
    ensures
        a == b,
{
    if a < b {
        assert(!exists[a]);
    } else if b < a {
        assert(!exists[b]);
    }
}

/// The path of `name` inside the directory `base`.
pub fn join(base: &str, name: &str) -> (path: String)
    ensures
        path@ == join_path(base@, name@),
{
    let mut path = String::from_str(base);
    path.append("/");
    path.append(name);
    path
}

impl BuildLayout {
    /// A copy with the same content.
    pub fn duplicate(&self) -> (copy: BuildLayout)
        ensures
            copy@ == self@,
    {
        match self {
            BuildLayout::Development { working_dir } => BuildLayout::Development {
                working_dir: working_dir.clone(),
            },
            BuildLayout::Production { resource_dir, executable_dir } => {
                let resources = match resource_dir {
                    Some(dir) => Some(dir.clone()),
                    None => None,
                };
                BuildLayout::Production {
                    resource_dir: resources,
                    executable_dir: executable_dir.clone(),
                }
            },
        }
    }

    /// The directories in which the backend is looked for, most
    /// preferred first.
    pub fn candidates(&self) -> (dirs: Vec<String>)
        ensures
            texts(dirs@) == candidate_dirs(self@),
    {
        let mut dirs: Vec<String> = Vec::new();
        match self {
            BuildLayout::Development { working_dir } => {
                let parent = join(working_dir.as_str(), "..");
                dirs.push(join(parent.as_str(), "python-backend"));
                dirs.push(join(working_dir.as_str(), "python-backend"));
            },
            BuildLayout::Production { resource_dir, executable_dir } => {
                match resource_dir {
                    Some(resources) => {
                        dirs.push(join(resources.as_str(), "python-backend"));
                    },
                    None => {},
                }
                dirs.push(join(executable_dir.as_str(), "python-backend"));
            },
        }
        assert(texts(dirs@) =~= candidate_dirs(self@));
        dirs
    }
}

impl LaunchContext {
    /// A copy with the same content.
    pub fn duplicate(&self) -> (copy: LaunchContext)
        ensures
            copy@ == self@,
    {
        LaunchContext {
            platform: self.platform,
            layout: self.layout.duplicate(),
            data_dir: self.data_dir.clone(),
        }
    }

    /// The path of the port hint file.
    pub fn hint_path(&self) -> (path: String)
        ensures
            path@ == hint_path_in(self@.data_dir),
    {
        join(self.data_dir.as_str(), "backend_port")
    }
}

/// Picks the first candidate directory that exists. `exists[i]` tells
/// whether the `i`-th of `count` candidates is on disk.
pub fn select_existing(exists: &Vec<bool>, count: usize) -> (choice: Option<usize>)
    ensures
        match choice {
            Some(index) => is_first_existing(exists@, count as int, index as int),
            None => none_exists(exists@, count as int),
        },
        match choice {
            Some(index) => first_existing(exists@, count as int) == Some(index as int),
            None => first_existing(exists@, count as int).is_none(),
        },
{
    let mut index: usize = 0;
    while index < count && index < exists.len()
        invariant
            forall|earlier: int| 0 <= earlier < index ==> !#[trigger] exists@[earlier],
            index <= count,
            index <= exists.len(),
        decreases exists.len() - index,
    {
        if exists[index] {
            proof {
                let found = choose|i: int| is_first_existing(exists@, count as int, i);
                assert(is_first_existing(exists@, count as int, index as int));
                lemma_first_existing_unique(exists@, count as int, found, index as int);
            }
            return Some(index);
        }
        index = index + 1;
    }
    proof {
        assert(none_exists(exists@, count as int));
        assert forall|i: int| !is_first_existing(exists@, count as int, i) by {
            if is_first_existing(exists@, count as int, i) {
                assert(!exists@[i]);
            }
        }
    }
    None
}

/// What resolving the backend directory owes: the first candidate of
/// `layout` that `exists` reports as present, or the failure that
/// lists every candidate.
pub open spec fn backend_dir_of(layout: BuildLayoutView, exists: Seq<bool>) -> Result<
    Seq<char>,
    StartErrorView,
> {
    match first_existing(exists, candidate_dirs(layout).len() as int) {
        Some(index) => Ok(candidate_dirs(layout)[index]),
        None => Err(StartErrorView::PathResolution { tried: candidate_dirs(layout) }),
    }
}

/// The content of what [`resolve_backend_dir`] hands back.
pub open spec fn resolution_view(resolution: Result<String, StartError>) -> Result<
    Seq<char>,
    StartErrorView,
> {
    match resolution {
        Ok(path) => Ok(path@),
        Err(error) => Err(error@),
    }
}

/// Resolves the backend directory among the candidates of `layout`,
/// where `exists[i]` tells whether the `i`-th candidate is on disk. It
/// answers with the first candidate that exists, and fails with the
/// list of every candidate if none does.
pub fn resolve_backend_dir(layout: &BuildLayout, exists: &Vec<bool>) -> (resolution: Result<
    String,
    StartError,
>)
    ensures
        resolution_view(resolution) == backend_dir_of(layout@, exists@),
{
    let dirs = layout.candidates();
    match select_existing(exists, dirs.len()) {
        Some(index) => {
            assert(texts(dirs@)[index as int] == dirs@[index as int]@);
            Ok(dirs[index].clone())
        },
        None => Err(StartError::PathResolution { tried: dirs }),
    }
}

/// The entry script of the backend in `backend_dir`.
pub fn entry_script(backend_dir: &str) -> (path: String)
    ensures
        path@ == entry_script_path(backend_dir@),
{
    join(backend_dir, "app.py")
}

/// The interpreter of the virtual environment inside `backend_dir`.
pub fn venv_interpreter(backend_dir: &str, platform: Platform) -> (path: String)
    ensures
        path@ == venv_interpreter_path(backend_dir@, platform),
{
    match platform {
        Platform::Posix => join(backend_dir, "venv/bin/python"),
        Platform::Windows => join(backend_dir, "venv/Scripts/python.exe"),
    }
}

/// The interpreter to launch the backend with. It prefers the virtual
/// environment inside `backend_dir`, which the caller reports as present
/// or not, and falls back on the platform's interpreter. It always
/// answers; whether the answer can be run shows when it is spawned.
pub fn resolve_interpreter(backend_dir: &str, platform: Platform, venv_present: bool) -> (path:
    String)
    ensures
        path@ == interpreter_choice(backend_dir@, platform, venv_present),
{
    if venv_present {
        venv_interpreter(backend_dir, platform)
    } else {
        match platform {
            Platform::Posix => String::from_str("python3"),
            Platform::Windows => String::from_str("python"),
        }
    }
}

/// The arguments to launch the backend with on `port`.
pub fn launch_arguments(entry_script: &str, port: u16) -> (arguments: Vec<String>)
    ensures
        texts(arguments@) == launch_arguments_of(entry_script@, port),
{
    let mut arguments: Vec<String> = Vec::new();
    arguments.push(String::from_str(entry_script));
    arguments.push(String::from_str("--port"));
    arguments.push(decimal_string(port as u64));
    assert(texts(arguments@) =~= launch_arguments_of(entry_script@, port));
    arguments
}

} // verus!
