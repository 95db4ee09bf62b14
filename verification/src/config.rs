//! Where the protocol tools are found: compiled-in defaults, each of which a
//! variable of the environment can replace.

use crate::text::optional_text;
use vstd::prelude::*;
use vstd::string::*;

verus! {

/// Variable that names the directory of the protocol tools.
pub const LIBMBUS_PATH_VAR: &'static str = "LIBMBUS_PATH";

/// Variable that names the tool that reads one frame.
pub const LIBMBUS_GET_VAR: &'static str = "LIBMBUS_GET";

/// Variable that names the tool that reads several frames.
pub const LIBMBUS_GET_MULTI_VAR: &'static str = "LIBMBUS_GET_MULTI";

/// Variable that names the tool that scans the bus.
pub const LIBMBUS_SCAN_VAR: &'static str = "LIBMBUS_SCAN";

/// Variable by which the tools find their shared library.
pub const LD_LIBRARY_PATH_VAR: &'static str = "LD_LIBRARY_PATH";

/// Directory of the protocol tools where the environment names none.
pub const LIBMBUS_PATH_DEF: &'static str = "/usr/local/bin/";

/// Tool that reads one frame where the environment names none.
pub const LIBMBUS_GET_DEF: &'static str = "mbus-serial-request-data";

/// Tool that reads several frames where the environment names none.
pub const LIBMBUS_GET_MULTI_DEF: &'static str = "mbus-serial-request-data-multi-reply";

/// Tool that scans the bus where the environment names none.
pub const LIBMBUS_SCAN_DEF: &'static str = "mbus-serial-scan";

/// The names of the variables that the gateway reads, in the order in which
/// it documents them.
pub open spec fn env_names() -> Seq<Seq<char>> {
    seq![
        LIBMBUS_PATH_VAR@,
        LIBMBUS_GET_VAR@,
        LIBMBUS_GET_MULTI_VAR@,
        LIBMBUS_SCAN_VAR@,
        LD_LIBRARY_PATH_VAR@,
    ]
}

/// The variables of the environment that configure the gateway.
pub fn get_env() -> (names: Vec<&'static str>)
    ensures
        names@.len() == 5,
        forall|i: int| 0 <= i < 5 ==> (#[trigger] names@[i])@ == env_names()[i],
{
    let mut names: Vec<&'static str> = Vec::new();
    names.push(LIBMBUS_PATH_VAR);
    names.push(LIBMBUS_GET_VAR);
    names.push(LIBMBUS_GET_MULTI_VAR);
    names.push(LIBMBUS_SCAN_VAR);
    names.push(LD_LIBRARY_PATH_VAR);
    names
}

/// The directory and the names of the three protocol tools.
#[derive(Debug, Clone, PartialEq, Eq)]
pub struct ToolConfig {
    /// Directory of the tools, with its closing separator.
    pub path: String,
    /// Tool that reads one frame.
    pub get: String,
    /// Tool that reads several frames.
    pub get_multi: String,
    /// Tool that scans the bus.
    pub scan: String,
}

/// What the contracts see of a `ToolConfig`.
pub struct ToolConfigView {
    pub path: Seq<char>,
    pub get: Seq<char>,
    pub get_multi: Seq<char>,
    pub scan: Seq<char>,
}

impl View for ToolConfig {
    type V = ToolConfigView;

    open spec fn view(&self) -> ToolConfigView {
        ToolConfigView {
            path: self.path@,
            get: self.get@,
            get_multi: self.get_multi@,
            scan: self.scan@,
        }
    }
}

/// The configuration that is compiled in.
pub open spec fn default_tools() -> ToolConfigView {
    ToolConfigView {
        path: LIBMBUS_PATH_DEF@,
        get: LIBMBUS_GET_DEF@,
        get_multi: LIBMBUS_GET_MULTI_DEF@,
        scan: LIBMBUS_SCAN_DEF@,
    }
}

/// The value of a setting: what the environment holds, else the default.
pub open spec fn setting(value: Option<Seq<char>>, default: Seq<char>) -> Seq<char> {
    match value {
        Some(v) => v,
        None => default,
    }
}

/// The configuration for what the environment holds of the four variables.
pub open spec fn tools_from_env(
    path: Option<Seq<char>>,
    get: Option<Seq<char>>,
    get_multi: Option<Seq<char>>,
    scan: Option<Seq<char>>,
) -> ToolConfigView {
    ToolConfigView {
        path: setting(path, LIBMBUS_PATH_DEF@),
        get: setting(get, LIBMBUS_GET_DEF@),
        get_multi: setting(get_multi, LIBMBUS_GET_MULTI_DEF@),
        scan: setting(scan, LIBMBUS_SCAN_DEF@),
    }
}

fn setting_or(value: Option<String>, default: &str) -> (s: String)
    ensures
        s@ == setting(optional_text(value), default@),
{
    match value {
        Some(v) => v,
        None => default.to_owned(),
    }
}

impl ToolConfig {
    /// The configuration that is compiled in.
    pub fn new() -> (c: ToolConfig)
        ensures
            c@ == default_tools(),
    {
        ToolConfig {
            path: LIBMBUS_PATH_DEF.to_owned(),
            get: LIBMBUS_GET_DEF.to_owned(),
            get_multi: LIBMBUS_GET_MULTI_DEF.to_owned(),
            scan: LIBMBUS_SCAN_DEF.to_owned(),
        }
    }

    /// The configuration for the values that the environment holds of the
    /// variables for the directory and for the three tools; an absent value
    /// leaves the default.
    pub fn from_env(
        path: Option<String>,
        get: Option<String>,
        get_multi: Option<String>,
        scan: Option<String>,
    ) -> (c: ToolConfig)
        ensures
            c@ == tools_from_env(
                optional_text(path),
                optional_text(get),
                optional_text(get_multi),
                optional_text(scan),
            ),
    {
        ToolConfig {
            path: setting_or(path, LIBMBUS_PATH_DEF),
            get: setting_or(get, LIBMBUS_GET_DEF),
            get_multi: setting_or(get_multi, LIBMBUS_GET_MULTI_DEF),
            scan: setting_or(scan, LIBMBUS_SCAN_DEF),
        }
    }
}

/// With nothing set in the environment the defaults hold.
pub proof fn lemma_empty_env_is_default()
    ensures
        tools_from_env(None, None, None, None) == default_tools(),
{
}

} // verus!
