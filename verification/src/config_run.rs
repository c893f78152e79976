use vstd::prelude::*;

use crate::text::owned;

verus! {

/// Which settings file the program reads and which launch style it uses.
pub struct ConfigRun {
    pub config_file_name: String,
    pub launch_type: u8,
}

impl ConfigRun {
    /// The settings in force after reading the run configuration: what was
    /// read when the file could be read and parsed, else the defaults.
    pub fn resolve_loaded(parsed: Option<ConfigRun>) -> (c: ConfigRun)
        ensures
            match parsed {
                Some(p) => c == p,
                None => c.config_file_name@ == "config-2.json"@ && c.launch_type == 2,
            },
    {
        match parsed {
            Some(p) => p,
            None => ConfigRun::default(),
        }
    }
}

impl Default for ConfigRun {
    /// The run configuration used when none can be read: the settings file
    /// `config-2.json` and launch style 2.
    fn default() -> (c: ConfigRun)
        ensures
            c.config_file_name@ == "config-2.json"@,
            c.launch_type == 2,
    {
        ConfigRun { config_file_name: owned("config-2.json"), launch_type: 2 }
    }
}

} // verus!
