//! Persisted manager state: where each manager's state file lives, when it is
//! rewritten, and how a loaded state is merged into a running manager.
use vstd::prelude::*;

verus! {

/// A manager whose state survives restarts in a JSON file.
pub trait SaveState: Sized {
    /// What is written to the file.
    type State;

    /// The file name, without the `.json` extension.
    fn filename() -> &'static str;

    /// The manager rebuilt from a loaded state and, when there is one, the
    /// manager that was running before the state was loaded.
    fn build(state: Self::State, this: Option<Self>) -> Self;

    /// The state to write to the file.
    fn save(&self) -> Self::State;
}

/// The directory holding the state files.
#[derive(Debug)]
pub struct StateDir(pub String);

/// A path with a component pushed onto it, as `PathBuf::push` does on Unix: an
/// absolute component (one that starts with `/`) replaces the path; a relative
/// one is appended, with a `/` between them unless the path is empty or already
/// ends in `/`.
pub open spec fn push_path(dir: Seq<char>, name: Seq<char>) -> Seq<char> {
    if name.len() > 0 && name[0] == '/' {
        name
    } else if dir.len() == 0 || dir.last() == '/' {
        dir + name
    } else {
        dir + seq!['/'] + name
    }
}

/// `<name>.json`.
pub open spec fn json_file_name(name: Seq<char>) -> Seq<char> {
    name + ".json"@
}

/// The file name `<name>.json`.
pub fn json_name(name: &str) -> (r: String)
    ensures
        r@ == json_file_name(name@),
{
    String::from_str(name).concat(".json")
}

/// Pushes a component onto a path.
pub fn push_component(dir: &str, name: &str) -> (r: String)
    ensures
        r@ == push_path(dir@, name@),
{
    let n = dir.unicode_len();
    proof {
        reveal_strlit("/");
    }
    if name.unicode_len() > 0 && name.get_char(0) == '/' {
        String::from_str(name)
    } else if n == 0 {
        String::from_str(name)
    } else if dir.get_char(n - 1) == '/' {
        String::from_str(dir).concat(name)
    } else {
        String::from_str(dir).concat("/").concat(name)
    }
}

/// The path of a state file: `<dir>/<filename>.json` (an absolute file name
/// replaces the directory).
pub fn state_file_path(dir: &StateDir, filename: &str) -> (r: String)
    ensures
        r@ == push_path(dir.0@, json_file_name(filename@)),
{
    let name = json_name(filename);
    proof {
        if filename@.len() == 0 {
            reveal_strlit(".json");
        }
    }
    push_component(dir.0.as_str(), name.as_str())
}

/// Whether a changed manager's state is written out: only while state files are
/// in use, and not for the change of the manager being added.
pub fn should_persist(enabled: bool, changed: bool, added: bool) -> (r: bool)
    ensures
        r == (enabled && changed && !added),
{
    enabled && changed && !added
}

} // verus!
