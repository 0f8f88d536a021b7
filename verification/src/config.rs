//! Where the configuration lives.
use vstd::prelude::*;
use vstd::string::StringExecFns;

verus! {

/// The configuration home: `XDG_CONFIG_HOME` when set, else `.config` under
/// `HOME`, else none.
pub fn config_folder(xdg_config_home: Option<&str>, home: Option<&str>) -> (r: Option<String>)
    ensures
        match xdg_config_home {
            Some(x) => r matches Some(s) && s@ == x@,
            None => match home {
                Some(h) => r matches Some(s) && s@ == h@ + "/.config"@,
                None => r is None,
            },
        },
{
    match xdg_config_home {
        Some(x) => Some(x.to_owned()),
        None => match home {
            Some(h) => {
                let mut s = h.to_owned();
                s.append("/.config");
                Some(s)
            },
            None => None,
        },
    }
}

/// The keybinds locations under the configuration home `config`: the
/// program's folder, its keybinds file, and the file of the program it was
/// forked from, whose keybinds are carried over on first run.
pub fn keybinds_paths(config: &str) -> (r: (String, String, String))
    ensures
        r.0@ == config@ + "/nanashi"@,
        r.1@ == config@ + "/nanashi"@ + "/keybinds.conf"@,
        r.2@ == config@ + "/tui-chan/keybinds.conf"@,
{
    let mut folder = config.to_owned();
    folder.append("/nanashi");
    let mut file = folder.clone();
    file.append("/keybinds.conf");
    let mut legacy = config.to_owned();
    legacy.append("/tui-chan/keybinds.conf");
    (folder, file, legacy)
}

} // verus!
