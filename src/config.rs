use vstd::prelude::*;

verus! {

/// Where the profile files are kept.
pub struct Config {
    pub vpn_files_path: String,
}

/// The configuration file's name inside the per-user configuration directory.
pub open spec fn config_file_name() -> Seq<char> {
    "/openvpn-tui.toml"@
}

/// The profile directory used when no configuration file gives one.
pub open spec fn default_dir_name() -> Seq<char> {
    "/.vpns"@
}

impl Config {
    /// The configuration used without a configuration file: the `.vpns`
    /// directory under the user's home directory.
    pub fn default(home: &str) -> (r: Config)
        ensures
            r.vpn_files_path@ == home@ + default_dir_name(),
    {
        Config { vpn_files_path: home.to_owned().concat("/.vpns") }
    }

    /// The path of the configuration file inside the per-user configuration
    /// directory.
    pub fn file_path(config_dir: &str) -> (r: String)
        ensures
            r@ == config_dir@ + config_file_name(),
    {
        config_dir.to_owned().concat("/openvpn-tui.toml")
    }

    /// The configuration in effect: the one read from the configuration file,
    /// or the default when the file was missing, unreadable or malformed.
    pub fn from_file(loaded: Option<Config>, home: &str) -> (r: Config)
        ensures
            loaded matches Some(c) ==> r == c,
            loaded is None ==> r.vpn_files_path@ == home@ + default_dir_name(),
    {
        match loaded {
            Some(c) => c,
            None => Config::default(home),
        }
    }
}

} // verus!
