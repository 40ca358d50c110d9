//! Configuration files: each configurable part has a JSON file named after it
//! under `<data directory>/config`.
use vstd::prelude::*;
use crate::plugins::state_file::{json_file_name, json_name, push_component, push_path};
use crate::plugins::manager::{aeroponic_spray, growlight, ph_dosing};

verus! {

/// A part of the controller configured from a JSON file.
pub trait ConfigFile {
    /// What the file holds.
    type Config;

    /// The file name, without the `.json` extension.
    fn filename() -> &'static str;
}

/// `<data_dir>/config/<name>.json` (an absolute name replaces the directory).
pub open spec fn config_path_spec(data_dir: Seq<char>, name: Seq<char>) -> Seq<char> {
    push_path(push_path(data_dir, "config"@), json_file_name(name))
}

/// The path of a configuration file.
pub fn filepath(data_dir: &str, name: &str) -> (r: String)
    ensures
        r@ == config_path_spec(data_dir@, name@),
{
    proof {
        reveal_strlit("config");
        reveal_strlit(".json");
    }
    let dir = push_component(data_dir, "config");
    let file = json_name(name);
    push_component(dir.as_str(), file.as_str())
}

impl ConfigFile for aeroponic_spray::Manager {
    type Config = aeroponic_spray::Config;

    fn filename() -> (r: &'static str)
        ensures
            r@ == "aeroponic_spray"@,
    {
        "aeroponic_spray"
    }
}

impl ConfigFile for ph_dosing::Manager {
    type Config = ph_dosing::Config;

    fn filename() -> (r: &'static str)
        ensures
            r@ == "ph_dosing"@,
    {
        "ph_dosing"
    }
}

impl ConfigFile for growlight::Manager {
    type Config = growlight::Config;

    fn filename() -> (r: &'static str)
        ensures
            r@ == "growlight"@,
    {
        "growlight"
    }
}

} // verus!
