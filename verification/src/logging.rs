//! Tiny append-only diagnostic log at `%APPDATA%\brightvol\brightvol.log`.
//!
//! The caller appends the lines built here and ignores any failure:
//! diagnostics must never break the app.
use vstd::prelude::*;
use vstd::string::*;
use crate::config::{component_names, config_dir_names, Config, ConfigLocation};
use crate::decimal::{decimal, push_decimal};

verus! {

/// Path to the log file: `brightvol.log` beside the config file.
pub fn log_path<P>(appdata: Option<P>, home: Option<P>, temp: P) -> (path: ConfigLocation<P>)
    ensures
        path.base == (match appdata {
            Some(a) => a,
            None => match home {
                Some(h) => h,
                None => temp,
            },
        }),
        component_names(path.components@) == config_dir_names(
            appdata is None && home is Some,
        ).push("brightvol.log"@),
{
    let mut path = Config::config_path(appdata, home, temp);
    let ghost before = path.components@;
    let ghost dir_names = config_dir_names(appdata is None && home is Some);
    assert(component_names(before).len() == before.len());
    assert(before.len() == dir_names.len() + 1);
    let _ = path.components.pop();
    path.components.push("brightvol.log");
    assert(path.components@ == before.drop_last().push("brightvol.log"));
    assert(component_names(before.drop_last()) =~= dir_names) by {
        assert(component_names(before).drop_last() =~= dir_names);
    }
    assert(component_names(path.components@) =~= dir_names.push("brightvol.log"@));
    path
}

/// The log line for `message` written at `secs` seconds since the Unix epoch:
/// `[secs] message`.
pub fn log_line(secs: u64, message: &str) -> (line: String)
    ensures
        line@ == "["@ + decimal(secs as nat) + "] "@ + message@,
{
    let mut line = String::from_str("[");
    push_decimal(&mut line, secs);
    line.append("] ");
    line.append(message);
    line
}

} // verus!
