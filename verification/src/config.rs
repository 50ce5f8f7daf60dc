use vstd::prelude::*;
use crate::model::GameVersion;

verus! {

/// The editor's stored settings.
#[derive(Debug, Clone)]
pub struct Config {
    /// The folder that saves are exported to.
    pub export_path: Option<String>,
    /// The game version last chosen for new templates.
    pub selected_version: Option<GameVersion>,
}

impl Default for Config {
    fn default() -> (c: Self)
        ensures
            c.export_path is None,
            c.selected_version is None,
    {
        Config { export_path: None, selected_version: None }
    }
}

} // verus!
