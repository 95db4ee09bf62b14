//! The protocol tools: which device names are accepted, the command line of
//! each tool, and how what a tool reports is told apart into a payload or a
//! failure message.

use crate::config::{ToolConfig, ToolConfigView};
use crate::models::Baudrate;
use crate::text::{decimal_string, decimal_text, optional_text, report_view, ReportView};
use vstd::prelude::*;
use vstd::string::*;
use vstd::utf8::{decode_utf8, valid_utf8};

verus! {

/// Directory under which every serial device is looked up.
pub const DEV_PREFIX: &'static str = "/dev/";

/// The three ways in which the bus is used, each with a tool of its own.
#[derive(Debug, Clone, Copy, PartialEq, Eq, Hash, Structural)]
pub enum ToolProfile {
    /// Read one frame from one device.
    Get,
    /// Read up to a number of frames from one device.
    GetMulti,
    /// Look for the devices on the bus.
    Scan,
}

/// A program and its arguments, ready to be run.
#[derive(Debug, Clone, PartialEq, Eq)]
pub struct ToolCommand {
    /// Path of the program.
    pub program: String,
    /// Arguments, in order.
    pub args: Vec<String>,
}

/// What the contracts see of a `ToolCommand`.
pub struct ToolCommandView {
    pub program: Seq<char>,
    pub args: Seq<Seq<char>>,
}

impl View for ToolCommand {
    type V = ToolCommandView;

    open spec fn view(&self) -> ToolCommandView {
        ToolCommandView {
            program: self.program@,
            args: Seq::new(self.args@.len(), |i: int| self.args@[i]@),
        }
    }
}

/// The message for a device name that is refused.
pub open spec fn invalid_device_text() -> Seq<char> {
    "Not a valid device name"@
}

/// A device name: one entry of the device directory. It is not empty, holds
/// no `/`, and is neither `.` nor `..`, so that the directory is never
/// left and never named itself.
pub open spec fn valid_device_name(name: Seq<char>) -> bool {
    &&& name.len() > 0
    &&& forall|i: int| 0 <= i < name.len() ==> #[trigger] name[i] != '/'
    &&& !(name.len() == 1 && name[0] == '.')
    &&& !(name.len() == 2 && name[0] == '.' && name[1] == '.')
}

/// The path of the serial device `device`: the device directory, then the
/// name.
pub open spec fn device_path(device: Seq<char>) -> Seq<char> {
    DEV_PREFIX@ + device
}

/// True for a path that names an entry of the device directory: it begins
/// with the directory, and what follows is a device name.
pub open spec fn below_device_directory(path: Seq<char>) -> bool {
    &&& path.len() >= DEV_PREFIX@.len()
    &&& path.subrange(0, DEV_PREFIX@.len() as int) == DEV_PREFIX@
    &&& valid_device_name(path.subrange(DEV_PREFIX@.len() as int, path.len() as int))
}

/// The path of a device, for a device name; nothing for any other text.
pub open spec fn device_path_of(device: Seq<char>) -> Option<Seq<char>> {
    if valid_device_name(device) {
        Some(device_path(device))
    } else {
        None
    }
}

/// The command that reads one frame from a device: `-b`, the rate, the
/// device's path, the address.
pub open spec fn get_invocation(
    tools: ToolConfigView,
    device: Seq<char>,
    baudrate: Baudrate,
    address: Seq<char>,
) -> ToolCommandView {
    ToolCommandView {
        program: tools.path + tools.get,
        args: seq!["-b"@, baudrate.text(), device_path(device), address],
    }
}

/// The command that reads several frames: `-b`, the rate, `-f`, the largest
/// number of frames, the device's path, the address.
pub open spec fn get_multi_invocation(
    tools: ToolConfigView,
    device: Seq<char>,
    baudrate: Baudrate,
    address: Seq<char>,
    maxframes: int,
) -> ToolCommandView {
    ToolCommandView {
        program: tools.path + tools.get_multi,
        args: seq![
            "-b"@,
            baudrate.text(),
            "-f"@,
            decimal_text(maxframes),
            device_path(device),
            address,
        ],
    }
}

/// The command that scans the bus: `-b`, the rate, the device's path.
pub open spec fn scan_invocation(
    tools: ToolConfigView,
    device: Seq<char>,
    baudrate: Baudrate,
) -> ToolCommandView {
    ToolCommandView {
        program: tools.path + tools.scan,
        args: seq!["-b"@, baudrate.text(), device_path(device)],
    }
}

/// The command that reads one frame, for a device name; nothing for any
/// other text.
pub open spec fn get_invocation_of(
    tools: ToolConfigView,
    device: Seq<char>,
    baudrate: Baudrate,
    address: Seq<char>,
) -> Option<ToolCommandView> {
    if valid_device_name(device) {
        Some(get_invocation(tools, device, baudrate, address))
    } else {
        None
    }
}

/// The command that reads several frames, for a device name; nothing for
/// any other text.
pub open spec fn get_multi_invocation_of(
    tools: ToolConfigView,
    device: Seq<char>,
    baudrate: Baudrate,
    address: Seq<char>,
    maxframes: int,
) -> Option<ToolCommandView> {
    if valid_device_name(device) {
        Some(get_multi_invocation(tools, device, baudrate, address, maxframes))
    } else {
        None
    }
}

/// The command that scans the bus, for a device name; nothing for any other
/// text.
pub open spec fn scan_invocation_of(
    tools: ToolConfigView,
    device: Seq<char>,
    baudrate: Baudrate,
) -> Option<ToolCommandView> {
    if valid_device_name(device) {
        Some(scan_invocation(tools, device, baudrate))
    } else {
        None
    }
}

/// The view of an optional command.
pub open spec fn optional_command(c: Option<ToolCommand>) -> Option<ToolCommandView> {
    match c {
        Some(c) => Some(c@),
        None => None,
    }
}

/// Joins two texts.
fn join(a: &str, b: &str) -> (s: String)
    ensures
        s@ == a@ + b@,
{
    let mut s = a.to_owned();
    s.append(b);
    s
}

/// Tells whether the `len` characters of `s` hold a `/`.
fn holds_separator(s: &str, len: usize) -> (b: bool)
    requires
        len == s@.len(),
    ensures
        b == !(forall|i: int| 0 <= i < s@.len() ==> #[trigger] s@[i] != '/'),
{
    let mut i: usize = 0;
    while i < len
        invariant
            i <= len,
            len == s@.len(),
            forall|j: int| 0 <= j < i ==> #[trigger] s@[j] != '/',
        decreases len - i,
    {
        if s.get_char(i) == '/' {
            return true;
        }
        i = i + 1;
    }
    false
}

/// Checks the name of a device before a command is built with it: accepted
/// is a device name, everything else is refused with a message.
pub fn check_device(device: &str) -> (r: Result<(), String>)
    ensures
        r is Ok <==> valid_device_name(device@),
        r matches Err(e) ==> e@ == invalid_device_text(),
{
    let len = device.unicode_len();
    let refused = if len == 0 {
        true
    } else if len == 1 && device.get_char(0) == '.' {
        true
    } else if len == 2 && device.get_char(0) == '.' && device.get_char(1) == '.' {
        true
    } else {
        holds_separator(device, len)
    };
    if refused {
        Err("Not a valid device name".to_owned())
    } else {
        Ok(())
    }
}

/// The path of a serial device, for a device name; nothing for any other
/// text.
pub fn device_file(device: &str) -> (path: Option<String>)
    ensures
        optional_text(path) == device_path_of(device@),
{
    match check_device(device) {
        Ok(_) => Some(join(DEV_PREFIX, device)),
        Err(_) => None,
    }
}

/// Builds the command that reads one frame from the device at `address`;
/// nothing is built for a text that is no device name.
pub fn get_command(tools: &ToolConfig, device: &str, baudrate: Baudrate, address: &str) -> (c:
    Option<ToolCommand>)
    ensures
        optional_command(c) == get_invocation_of(tools@, device@, baudrate, address@),
{
    let path = match device_file(device) {
        Some(path) => path,
        None => {
            return None;
        },
    };
    let mut args: Vec<String> = Vec::new();
    args.push("-b".to_owned());
    args.push(baudrate.to_string());
    args.push(path);
    args.push(address.to_owned());
    let c = ToolCommand { program: join(tools.path.as_str(), tools.get.as_str()), args };
    assert(c@.args =~= get_invocation(tools@, device@, baudrate, address@).args);
    Some(c)
}

/// Builds the command that reads up to `maxframes` frames from the device at
/// `address`; nothing is built for a text that is no device name.
pub fn get_multi_command(
    tools: &ToolConfig,
    device: &str,
    baudrate: Baudrate,
    address: &str,
    maxframes: i32,
) -> (c: Option<ToolCommand>)
    ensures
        optional_command(c) == get_multi_invocation_of(
            tools@,
            device@,
            baudrate,
            address@,
            maxframes as int,
        ),
{
    let path = match device_file(device) {
        Some(path) => path,
        None => {
            return None;
        },
    };
    let mut args: Vec<String> = Vec::new();
    args.push("-b".to_owned());
    args.push(baudrate.to_string());
    args.push("-f".to_owned());
    args.push(decimal_string(maxframes as i64));
    args.push(path);
    args.push(address.to_owned());
    let c = ToolCommand { program: join(tools.path.as_str(), tools.get_multi.as_str()), args };
    assert(c@.args =~= get_multi_invocation(
        tools@,
        device@,
        baudrate,
        address@,
        maxframes as int,
    ).args);
    Some(c)
}

/// Builds the command that scans the bus; nothing is built for a text that
/// is no device name.
pub fn scan_command(tools: &ToolConfig, device: &str, baudrate: Baudrate) -> (c: Option<
    ToolCommand,
>)
    ensures
        optional_command(c) == scan_invocation_of(tools@, device@, baudrate),
{
    let path = match device_file(device) {
        Some(path) => path,
        None => {
            return None;
        },
    };
    let mut args: Vec<String> = Vec::new();
    args.push("-b".to_owned());
    args.push(baudrate.to_string());
    args.push(path);
    let c = ToolCommand { program: join(tools.path.as_str(), tools.scan.as_str()), args };
    assert(c@.args =~= scan_invocation(tools@, device@, baudrate).args);
    Some(c)
}

/// The path of a device name names an entry of the device directory, and
/// the path made of any other text does not: with `/dev/` in front, a text
/// stays below the directory exactly when it is a device name.
pub proof fn lemma_device_path_stays_below(device: Seq<char>)
    ensures
        below_device_directory(device_path(device)) <==> valid_device_name(device),
        device_path_of(device) matches Some(path) ==> below_device_directory(path),
{
    let path = device_path(device);
    let n = DEV_PREFIX@.len() as int;
    assert(path.subrange(0, n) =~= DEV_PREFIX@);
    assert(path.subrange(n, path.len() as int) =~= device);
}

/// Every command that is built carries the path of a device below the
/// device directory: as the third argument where one frame is read or the
/// bus is scanned, as the fifth where several frames are read.
pub proof fn lemma_commands_stay_below(
    tools: ToolConfigView,
    device: Seq<char>,
    baudrate: Baudrate,
    address: Seq<char>,
    maxframes: int,
)
    ensures
        get_invocation_of(tools, device, baudrate, address) matches Some(c)
            ==> below_device_directory(c.args[2]),
        get_multi_invocation_of(tools, device, baudrate, address, maxframes) matches Some(c)
            ==> below_device_directory(c.args[4]),
        scan_invocation_of(tools, device, baudrate) matches Some(c) ==> below_device_directory(
            c.args[2],
        ),
{
    lemma_device_path_stays_below(device);
}

/// What came of running a tool.
#[derive(Debug, Clone, PartialEq, Eq)]
pub enum ToolOutcome {
    /// The program could not be started; the text describes why.
    NotStarted(String),
    /// The program ran and ended. `code` is its exit code, absent where a
    /// signal ended it.
    Exited { code: Option<i32>, stdout: Vec<u8>, stderr: Vec<u8> },
}

/// What the contracts see of a `ToolOutcome`.
pub enum ToolOutcomeView {
    NotStarted(Seq<char>),
    Exited { code: Option<i32>, stdout: Seq<u8>, stderr: Seq<u8> },
}

impl View for ToolOutcome {
    type V = ToolOutcomeView;

    open spec fn view(&self) -> ToolOutcomeView {
        match self {
            ToolOutcome::NotStarted(e) => ToolOutcomeView::NotStarted(e@),
            ToolOutcome::Exited { code, stdout, stderr } => ToolOutcomeView::Exited {
                code: *code,
                stdout: stdout@,
                stderr: stderr@,
            },
        }
    }
}

/// The text in which `std::str::from_utf8` describes, when printed for
/// debugging, why `bytes` are not UTF-8.
pub uninterp spec fn utf8_error_text(bytes: Seq<u8>) -> Seq<char>;

/// The text in which `String::from_utf8` describes, when printed for
/// debugging, why `bytes` are not UTF-8.
pub uninterp spec fn from_utf8_error_text(bytes: Seq<u8>) -> Seq<char>;

/// What reading `bytes` as UTF-8 gives where the bytes are only looked at:
/// the text, or the description of the fault.
pub open spec fn decoded(bytes: Seq<u8>) -> ReportView {
    if valid_utf8(bytes) {
        Ok(decode_utf8(bytes))
    } else {
        Err(utf8_error_text(bytes))
    }
}

/// What reading `bytes` as UTF-8 gives where the bytes are handed over: the
/// text, or the description of the fault.
pub open spec fn decoded_owned(bytes: Seq<u8>) -> ReportView {
    if valid_utf8(bytes) {
        Ok(decode_utf8(bytes))
    } else {
        Err(from_utf8_error_text(bytes))
    }
}

/// Calls `std::str::from_utf8`. Trusted: the call succeeds exactly on valid
/// UTF-8 and then gives the text that the bytes encode; else it gives the
/// debug text of the error, which depends on the bytes alone.
#[verifier::external_body]
fn decode(bytes: &Vec<u8>) -> (r: Result<String, String>)
    ensures
        r is Ok <==> valid_utf8(bytes@),
        r matches Ok(s) ==> s@ == decode_utf8(bytes@),
        r matches Err(e) ==> e@ == utf8_error_text(bytes@),
{
    match std::str::from_utf8(bytes) {
        Ok(s) => Ok(s.to_string()),
        Err(e) => Err(format!("{:?}", e)),
    }
}

/// Calls `String::from_utf8`. Trusted: the call succeeds exactly on valid
/// UTF-8 and then gives the text that the bytes encode; else it gives the
/// debug text of the error, which depends on the bytes alone.
#[verifier::external_body]
fn decode_owned(bytes: Vec<u8>) -> (r: Result<String, String>)
    ensures
        r is Ok <==> valid_utf8(bytes@),
        r matches Ok(s) ==> s@ == decode_utf8(bytes@),
        r matches Err(e) ==> e@ == from_utf8_error_text(bytes@),
{
    match String::from_utf8(bytes) {
        Ok(s) => Ok(s),
        Err(e) => Err(format!("{:?}", e)),
    }
}

/// True for the exit code of a tool that succeeded.
pub open spec fn succeeded(code: Option<i32>) -> bool {
    code == Some(0i32)
}

/// The message for a tool that could not be started.
pub open spec fn start_failure_text(error: Seq<char>) -> Seq<char> {
    "Failed to query M-Bus: Internal error "@ + error
}

/// The message for a tool whose output is not text.
pub open spec fn decode_failure_text(error: Seq<char>) -> Seq<char> {
    "Failed to query M-Bus: "@ + error
}

/// The exit code as it stands in a message.
pub open spec fn code_text(code: Option<i32>) -> Seq<char> {
    match code {
        Some(c) => decimal_text(c as int),
        None => "None"@,
    }
}

/// What a tool wrote to its error stream as it stands in a message.
pub open spec fn stderr_text(stderr: ReportView) -> Seq<char> {
    match stderr {
        Ok(s) => s,
        Err(e) => "Failed to parse stderr "@ + e,
    }
}

/// The message for a tool that ended with a failure.
pub open spec fn exit_failure_text(code: Option<i32>, stderr: ReportView) -> Seq<char> {
    "Failed to query M-Bus: Internal error, return code "@ + code_text(code) + ", stderr "@
        + stderr_text(stderr)
}

/// What a successful tool reports: its output if that is text, else a
/// message.
pub open spec fn success_report_of(stdout: ReportView) -> ReportView {
    match stdout {
        Ok(s) => Ok(s),
        Err(e) => Err(decode_failure_text(e)),
    }
}

/// What reading the output of a successful tool gives, for each profile.
pub open spec fn decoded_stdout(profile: ToolProfile, stdout: Seq<u8>) -> ReportView {
    if profile == ToolProfile::Get {
        decoded_owned(stdout)
    } else {
        decoded(stdout)
    }
}

/// The payload or failure message for an outcome, in this order: the tool
/// could not be started; it ended with a failure; it succeeded and its
/// output is not text; it succeeded and its output is the payload.
pub open spec fn report_of(profile: ToolProfile, outcome: ToolOutcomeView) -> ReportView {
    match outcome {
        ToolOutcomeView::NotStarted(e) => Err(start_failure_text(e)),
        ToolOutcomeView::Exited { code, stdout, stderr } => if succeeded(code) {
            success_report_of(decoded_stdout(profile, stdout))
        } else {
            Err(exit_failure_text(code, decoded(stderr)))
        },
    }
}

/// The message for a tool that could not be started for the reason `error`.
pub fn start_failure(error: &str) -> (m: String)
    ensures
        m@ == start_failure_text(error@),
{
    join("Failed to query M-Bus: Internal error ", error)
}

/// The report of a tool that succeeded, from what reading its output as
/// text gave.
pub fn success_report(stdout: Result<String, String>) -> (r: Result<String, String>)
    ensures
        report_view(r) == success_report_of(report_view(stdout)),
{
    match stdout {
        Ok(s) => Ok(s),
        Err(e) => Err(join("Failed to query M-Bus: ", e.as_str())),
    }
}

/// The message for a tool that ended with the code `code`, from what
/// reading its error stream as text gave.
pub fn exit_failure(code: Option<i32>, stderr: Result<String, String>) -> (m: String)
    ensures
        m@ == exit_failure_text(code, report_view(stderr)),
{
    let code_part = match code {
        Some(c) => decimal_string(c as i64),
        None => "None".to_owned(),
    };
    let stderr_part = match stderr {
        Ok(s) => s,
        Err(e) => join("Failed to parse stderr ", e.as_str()),
    };
    let mut m = join("Failed to query M-Bus: Internal error, return code ", code_part.as_str());
    m.append(", stderr ");
    m.append(stderr_part.as_str());
    m
}

/// Tells a payload from a failure in what came of running a tool.
pub fn classify(profile: ToolProfile, outcome: ToolOutcome) -> (r: Result<String, String>)
    ensures
        report_view(r) == report_of(profile, outcome@),
{
    match outcome {
        ToolOutcome::NotStarted(e) => Err(start_failure(e.as_str())),
        ToolOutcome::Exited { code, stdout, stderr } => {
            let success = match code {
                Some(c) => c == 0,
                None => false,
            };
            if success {
                let text = match profile {
                    ToolProfile::Get => decode_owned(stdout),
                    _ => decode(&stdout),
                };
                success_report(text)
            } else {
                Err(exit_failure(code, decode(&stderr)))
            }
        },
    }
}

/// The rules by which an outcome is told apart, in their order: a tool that
/// could not be started is a failure, whatever the profile; a tool that
/// ended with another code than 0, or with none, is a failure that names
/// the code and what stood on the error stream, whatever it wrote to its
/// output; a tool that ended with 0 is judged by its output alone, which is
/// the payload exactly when it is valid UTF-8.
pub proof fn lemma_classification_rules(
    profile: ToolProfile,
    error: Seq<char>,
    code: Option<i32>,
    stdout: Seq<u8>,
    stderr: Seq<u8>,
)
    ensures
        report_of(profile, ToolOutcomeView::NotStarted(error)) == Err::<Seq<char>, Seq<char>>(
            start_failure_text(error),
        ),
        code != Some(0i32) ==> report_of(profile, ToolOutcomeView::Exited { code, stdout, stderr })
            == Err::<Seq<char>, Seq<char>>(exit_failure_text(code, decoded(stderr))),
        report_of(profile, ToolOutcomeView::Exited { code: Some(0i32), stdout, stderr }) is Ok
            <==> valid_utf8(stdout),
        valid_utf8(stdout) ==> report_of(
            profile,
            ToolOutcomeView::Exited { code: Some(0i32), stdout, stderr },
        ) == Ok::<Seq<char>, Seq<char>>(decode_utf8(stdout)),
{
}

} // verus!
