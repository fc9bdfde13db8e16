//! Where Docker keeps its configuration and its contexts.

use vstd::prelude::*;

use crate::text::{copied, push_text, texts};

verus! {

/// The name of the metadata file in the directory of a context.
pub const META_FILE: &'static str = "meta.json";

/// The system that the program runs on.
#[derive(Clone, Copy, Debug, PartialEq, Eq, Structural)]
pub enum Platform {
    Unix,
    Windows,
}

/// A path, as the parts that are joined in order by the path rules of the system.
///
/// A part that is itself an absolute path takes the place of what stands before it.
#[derive(Debug)]
pub struct DockerPath {
    pub parts: Vec<String>,
}

impl View for DockerPath {
    type V = Seq<Seq<char>>;

    open spec fn view(&self) -> Seq<Seq<char>> {
        texts(self.parts@)
    }
}

impl DockerPath {
    /// The same path.
    pub fn copy(&self) -> (path: DockerPath)
        ensures
            path@ == self@,
    {
        DockerPath { parts: copied(&self.parts) }
    }

    /// This path joined with one more part.
    pub fn join(&self, part: &str) -> (path: DockerPath)
        ensures
            path@ == self@.push(part@),
    {
        let mut parts = copied(&self.parts);
        push_text(&mut parts, part);
        DockerPath { parts }
    }
}

/// The environment variable that names the home directory.
pub open spec fn home_variable_of(platform: Platform) -> Seq<char> {
    match platform {
        Platform::Windows => "USERPROFILE"@,
        Platform::Unix => "HOME"@,
    }
}

/// The home directory where the environment names none.
pub open spec fn default_home_of(platform: Platform) -> Seq<char> {
    match platform {
        Platform::Windows => "C:\\Users\\Default"@,
        Platform::Unix => "/root"@,
    }
}

/// The configuration directory below the home directory that the environment names, if any.
pub open spec fn config_dir_of(platform: Platform, home: Option<Seq<char>>) -> Seq<Seq<char>> {
    match home {
        Some(home) => seq![home, ".docker"@],
        None => seq![default_home_of(platform), ".docker"@],
    }
}

/// The configuration file in the configuration directory `dir`.
pub open spec fn config_file_in(dir: Seq<Seq<char>>) -> Seq<Seq<char>> {
    dir.push("config.json"@)
}

/// The directory that holds one directory for each context.
pub open spec fn contexts_dir_in(dir: Seq<Seq<char>>) -> Seq<Seq<char>> {
    dir.push("contexts"@).push("meta"@)
}

/// The directory of the context `name`.
pub open spec fn context_dir_in(dir: Seq<Seq<char>>, name: Seq<char>) -> Seq<Seq<char>> {
    contexts_dir_in(dir).push(name)
}

/// The metadata file in the directory of a context.
pub open spec fn meta_file_in(context_dir: Seq<Seq<char>>) -> Seq<Seq<char>> {
    context_dir.push(META_FILE@)
}

/// The environment variable that names the home directory.
pub fn home_variable(platform: Platform) -> (name: &'static str)
    ensures
        name@ == home_variable_of(platform),
{
    match platform {
        Platform::Windows => "USERPROFILE",
        Platform::Unix => "HOME",
    }
}

/// Docker's configuration directory, given the home directory that the environment names.
pub fn docker_config_dir(platform: Platform, home: Option<&str>) -> (dir: DockerPath)
    ensures
        dir@ == config_dir_of(
            platform,
            match home {
                Some(h) => Some(h@),
                None => None,
            },
        ),
{
    let mut parts: Vec<String> = Vec::new();
    match home {
        Some(home) => push_text(&mut parts, home),
        None => match platform {
            Platform::Windows => push_text(&mut parts, "C:\\Users\\Default"),
            Platform::Unix => push_text(&mut parts, "/root"),
        },
    }
    push_text(&mut parts, ".docker");
    let dir = DockerPath { parts };
    assert(dir@ =~= config_dir_of(
        platform,
        match home {
            Some(h) => Some(h@),
            None => None,
        },
    ));
    dir
}

/// The configuration file.
pub fn config_file(dir: &DockerPath) -> (file: DockerPath)
    ensures
        file@ == config_file_in(dir@),
{
    dir.join("config.json")
}

/// The directory that holds one directory for each context.
pub fn contexts_dir(dir: &DockerPath) -> (path: DockerPath)
    ensures
        path@ == contexts_dir_in(dir@),
{
    dir.join("contexts").join("meta")
}

/// The directory of the context `name`.
pub fn context_dir(dir: &DockerPath, name: &str) -> (path: DockerPath)
    ensures
        path@ == context_dir_in(dir@, name@),
{
    contexts_dir(dir).join(name)
}

/// The metadata file in the directory of a context.
pub fn meta_file(context_dir: &DockerPath) -> (file: DockerPath)
    ensures
        file@ == meta_file_in(context_dir@),
{
    context_dir.join(META_FILE)
}

// ---- laws ----

/// The configuration lies in `.docker` below the home directory, whatever the system; without a home
/// directory it lies below the default one of the system.
pub proof fn law_configuration_is_below_home(platform: Platform, home: Seq<char>)
    ensures
        config_dir_of(platform, Some(home)) == seq![home, ".docker"@],
        config_dir_of(Platform::Unix, None) == seq!["/root"@, ".docker"@],
        config_dir_of(Platform::Windows, None) == seq!["C:\\Users\\Default"@, ".docker"@],
        home_variable_of(Platform::Unix) == "HOME"@,
        home_variable_of(Platform::Windows) == "USERPROFILE"@,
{
}

/// Everything that belongs to Docker lies below its configuration directory: the configuration itself,
/// the directory of all contexts, in it that of each context under the context's own name, and in that
/// the metadata.
pub proof fn law_places(dir: Seq<Seq<char>>, name: Seq<char>)
    ensures
        config_file_in(dir) == dir + seq!["config.json"@],
        contexts_dir_in(dir) == dir + seq!["contexts"@, "meta"@],
        context_dir_in(dir, name) == dir + seq!["contexts"@, "meta"@, name],
        meta_file_in(context_dir_in(dir, name)) == dir + seq![
            "contexts"@,
            "meta"@,
            name,
            "meta.json"@,
        ],
        meta_file_in(dir) == dir + seq!["meta.json"@],
        META_FILE@ == "meta.json"@,
{
}

/// The metadata of different contexts lies in different files.
pub proof fn law_contexts_lie_apart(dir: Seq<Seq<char>>, a: Seq<char>, b: Seq<char>)
    requires
        a != b,
    ensures
        context_dir_in(dir, a) != context_dir_in(dir, b),
        meta_file_in(context_dir_in(dir, a)) != meta_file_in(context_dir_in(dir, b)),
{
    let n = dir.len() as int;
    assert(context_dir_in(dir, a)[n + 2] == a);
    assert(context_dir_in(dir, b)[n + 2] == b);
    assert(meta_file_in(context_dir_in(dir, a))[n + 2] == a);
    assert(meta_file_in(context_dir_in(dir, b))[n + 2] == b);
}

/// A path is the text of each of its parts, in order.
pub proof fn law_path_is_its_parts(path: DockerPath)
    ensures
        path@.len() == path.parts@.len(),
        forall|i: int| 0 <= i < path@.len() ==> #[trigger] path@[i] == path.parts@[i]@,
{
}

} // verus!
