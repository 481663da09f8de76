//! The choice of action from the command line.
use vstd::prelude::*;
use crate::text::{is_named, is_prefix, starts_with};

verus! {

/// What the program is asked to do.
pub enum Settings {
    /// Show the report of a station: its identifier, and whether to decode it.
    GetMetar(String, bool),
    /// Show a forecast.
    GetTaf(String, bool),
    Help,
    List,
}

/// The mathematical value of `Settings`.
pub enum SettingsView {
    GetMetar(Seq<char>, bool),
    GetTaf(Seq<char>, bool),
    Help,
    List,
}

impl View for Settings {
    type V = SettingsView;

    open spec fn view(&self) -> SettingsView {
        match self {
            Settings::GetMetar(id, full) => SettingsView::GetMetar(id@, *full),
            Settings::GetTaf(id, full) => SettingsView::GetTaf(id@, *full),
            Settings::Help => SettingsView::Help,
            Settings::List => SettingsView::List,
        }
    }
}

/// The action that the arguments ask for; the first argument is the program's
/// name. An option comes alone; a station identifier may be followed by `-a`
/// for the decoded report. Anything else asks for help.
pub open spec fn settings_of(args: Seq<Seq<char>>) -> SettingsView {
    if args.len() <= 1 {
        SettingsView::Help
    } else if is_prefix("-"@, args[1]) {
        if args[1] == "-t"@ || args[1] == "-taf"@ {
            SettingsView::GetTaf(Seq::empty(), false)
        } else if args[1] == "-l"@ || args[1] == "-list"@ {
            SettingsView::List
        } else {
            SettingsView::Help
        }
    } else if args.len() == 2 {
        SettingsView::GetMetar(args[1], false)
    } else if args.len() == 3 && args[2] == "-a"@ {
        SettingsView::GetMetar(args[1], true)
    } else {
        SettingsView::Help
    }
}

/// Reads the command line.
pub fn parse_arguments(args: Vec<String>) -> (r: Settings)
    ensures
        r@ == settings_of(args@.map_values(|s: String| s@)),
{
    let ghost v = args@.map_values(|s: String| s@);
    if args.len() <= 1 {
        return Settings::Help;
    }
    assert(v[1] == args@[1]@);
    let a = args[1].as_str();
    if starts_with(a, "-") {
        if is_named(a, "-t") || is_named(a, "-taf") {
            return Settings::GetTaf(String::new(), false);
        } else if is_named(a, "-l") || is_named(a, "-list") {
            return Settings::List;
        }
        return Settings::Help;
    }
    if args.len() == 2 {
        return Settings::GetMetar(args[1].clone(), false);
    }
    if args.len() == 3 {
        assert(v[2] == args@[2]@);
        if is_named(args[2].as_str(), "-a") {
            return Settings::GetMetar(args[1].clone(), true);
        }
    }
    Settings::Help
}

} // verus!
