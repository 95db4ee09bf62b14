//! The bus access controller. Each operation on the bus is made in two
//! steps: the first checks the request, takes the bus lock and names the
//! command to run; the second takes what came of running it, gives the lock
//! back and states the response. Running the command between the two steps
//! is the caller's part.
//!
//! A request is checked in this order: a malformed address is a bad
//! request; a bus in use turns the request away; a text that is no device
//! name is refused. Only then is the lock taken and a command handed out,
//! so no command ever names a path outside the device directory.

use crate::address::{check_address, invalid_address_text, valid_address};
use crate::bus::{BusGuard, BusLock};
use crate::config::{default_tools, ToolConfig, ToolConfigView};
use crate::models::Baudrate;
use crate::responses::{BusResponseView, GetMultiResponse, GetResponse, ScanResponse};
use crate::text::ReportView;
use crate::tool::{
    below_device_directory, classify, get_command, get_invocation, get_invocation_of,
    get_multi_command, get_multi_invocation, get_multi_invocation_of, invalid_device_text,
    lemma_device_path_stays_below, report_of, scan_command, scan_invocation,
    scan_invocation_of, valid_device_name, ToolCommand, ToolCommandView, ToolOutcome,
    ToolOutcomeView, ToolProfile,
};
use vstd::prelude::*;
use vstd::string::*;

verus! {

/// The message for a request that finds the bus in use.
pub open spec fn bus_busy_text() -> Seq<char> {
    "Bus is currently in use"@
}

/// What the first step of a bus operation decides.
#[derive(Debug)]
pub enum BusStep<R> {
    /// The request ends here with this response; nothing is to be run.
    Respond(R),
    /// The lock is taken: run the command, then hand its outcome and the
    /// guard to the second step.
    Run(ToolCommand, BusGuard),
}

/// What the contracts see of a `BusStep`: the response, or the command. Of
/// the guard that comes with a command the step functions speak in a
/// clause of their own.
pub enum BusStepView {
    Respond(BusResponseView),
    Run(ToolCommandView),
}

impl<R: View<V = BusResponseView>> View for BusStep<R> {
    type V = BusStepView;

    open spec fn view(&self) -> BusStepView {
        match self {
            BusStep::Respond(r) => BusStepView::Respond(r@),
            BusStep::Run(c, _) => BusStepView::Run(c@),
        }
    }
}

/// The first step, once the address is dealt with: a held lock turns the
/// request away; on a free bus a text that is no device name is refused,
/// for which there is no `command`; else the command is to be run.
pub open spec fn device_step(held: bool, command: Option<ToolCommandView>) -> BusStepView {
    if held {
        BusStepView::Respond(BusResponseView::NotFound(bus_busy_text()))
    } else {
        match command {
            Some(c) => BusStepView::Run(c),
            None => BusStepView::Respond(BusResponseView::NotFound(invalid_device_text())),
        }
    }
}

/// The first step for an operation on the device at `address`: a malformed
/// address is a bad request, whatever the state of the bus and whatever the
/// device; else the step is that of `device_step`.
pub open spec fn addressed_step(
    held: bool,
    address: Seq<char>,
    command: Option<ToolCommandView>,
) -> BusStepView {
    if !valid_address(address) {
        BusStepView::Respond(BusResponseView::BadRequest(invalid_address_text()))
    } else {
        device_step(held, command)
    }
}

/// The first step of reading one frame.
pub open spec fn get_step(
    held: bool,
    tools: ToolConfigView,
    device: Seq<char>,
    baudrate: Baudrate,
    address: Seq<char>,
) -> BusStepView {
    addressed_step(held, address, get_invocation_of(tools, device, baudrate, address))
}

/// The first step of reading several frames.
pub open spec fn get_multi_step(
    held: bool,
    tools: ToolConfigView,
    device: Seq<char>,
    baudrate: Baudrate,
    address: Seq<char>,
    maxframes: int,
) -> BusStepView {
    addressed_step(
        held,
        address,
        get_multi_invocation_of(tools, device, baudrate, address, maxframes),
    )
}

/// The first step of a scan, which has no address to check.
pub open spec fn scan_step(
    held: bool,
    tools: ToolConfigView,
    device: Seq<char>,
    baudrate: Baudrate,
) -> BusStepView {
    device_step(held, scan_invocation_of(tools, device, baudrate))
}

/// Whether the lock is held after a first step that found it `held`.
pub open spec fn held_after_step(held: bool, step: BusStepView) -> bool {
    held || step is Run
}

/// The response for a payload or a failure message.
pub open spec fn response_of(report: ReportView) -> BusResponseView {
    match report {
        Ok(payload) => BusResponseView::OK(payload),
        Err(message) => BusResponseView::NotFound(message),
    }
}

/// The response that the second step of an operation gives.
pub open spec fn finished_response(profile: ToolProfile, outcome: ToolOutcomeView)
    -> BusResponseView {
    response_of(report_of(profile, outcome))
}

/// The bus access controller: the bus lock and the configuration of the
/// tools.
#[derive(Debug)]
pub struct Server {
    bus: BusLock,
    tools: ToolConfig,
}

impl Server {
    /// The ticket of the guard that holds the bus, if any does.
    pub closed spec fn holder(&self) -> Option<u64> {
        self.bus.holder()
    }

    /// True while an operation holds the bus.
    pub open spec fn bus_held(&self) -> bool {
        self.holder() is Some
    }

    /// True where `guard` is the guard of the operation that holds the bus
    /// of this controller.
    pub open spec fn held_by(&self, guard: &BusGuard) -> bool {
        self.holder() == Some(guard@)
    }

    /// What a first step does to the lock: with a command comes the guard
    /// that now holds the bus; without one the bus stays with whoever held
    /// it, or free.
    pub open spec fn lock_after_step<R>(&self, before: &Server, step: &BusStep<R>) -> bool {
        match step {
            BusStep::Run(_, guard) => !before.bus_held() && self.held_by(guard),
            BusStep::Respond(_) => self.holder() == before.holder(),
        }
    }

    /// The configuration of the tools.
    pub closed spec fn tools(&self) -> ToolConfigView {
        self.tools@
    }

    /// A controller with a free bus and the tools that are compiled in.
    pub fn new() -> (server: Server)
        ensures
            !server.bus_held(),
            server.tools() == default_tools(),
    {
        Server { bus: BusLock::new(), tools: ToolConfig::new() }
    }

    /// A controller with a free bus and the tools given.
    pub fn with_tools(tools: ToolConfig) -> (server: Server)
        ensures
            !server.bus_held(),
            server.tools() == tools@,
    {
        Server { bus: BusLock::new(), tools }
    }

    /// Tells whether an operation holds the bus.
    pub fn is_bus_held(&self) -> (held: bool)
        ensures
            held == self.bus_held(),
    {
        self.bus.held()
    }

    /// Tells whether `guard` is the guard of the operation that holds the
    /// bus of this controller: the test to make before a second step.
    pub fn holds(&self, guard: &BusGuard) -> (b: bool)
        ensures
            b == self.held_by(guard),
    {
        self.bus.holds(guard)
    }

    /// Takes the bus for `command`: a held bus turns the caller away; on a
    /// free bus a missing command is a refused device; else the lock is
    /// taken and the command handed back with the guard.
    fn start(&mut self, command: Option<ToolCommand>) -> (r: Result<
        (ToolCommand, BusGuard),
        String,
    >)
        ensures
            r is Ok <==> !old(self).bus_held() && command is Some,
            r matches Ok(started) ==> Some(started.0) == command && final(self).held_by(
                &started.1,
            ),
            r matches Err(message) ==> final(self).holder() == old(self).holder(),
            r matches Err(message) ==> old(self).bus_held() ==> message@ == bus_busy_text(),
            r matches Err(message) ==> !old(self).bus_held() ==> message@ == invalid_device_text(),
            final(self).tools() == old(self).tools(),
    {
        if self.bus.held() {
            return Err("Bus is currently in use".to_owned());
        }
        let command = match command {
            Some(command) => command,
            None => {
                return Err("Not a valid device name".to_owned());
            },
        };
        match self.bus.try_acquire() {
            Some(guard) => Ok((command, guard)),
            None => Err("Bus is currently in use".to_owned()),
        }
    }

    /// First step of reading one frame from the device at `address`.
    pub fn get(&mut self, device: &str, baudrate: Baudrate, address: &str) -> (step: BusStep<
        GetResponse,
    >)
        ensures
            step@ == get_step(
                old(self).bus_held(),
                old(self).tools(),
                device@,
                baudrate,
                address@,
            ),
            final(self).lock_after_step(old(self), &step),
            final(self).bus_held() == held_after_step(old(self).bus_held(), step@),
            final(self).tools() == old(self).tools(),
    {
        match check_address(address) {
            Ok(_) => {},
            Err(message) => {
                return BusStep::Respond(GetResponse::BadRequest(message));
            },
        }
        let command = get_command(&self.tools, device, baudrate, address);
        match self.start(command) {
            Ok((command, guard)) => BusStep::Run(command, guard),
            Err(message) => BusStep::Respond(GetResponse::NotFound(message)),
        }
    }

    /// Second step of reading one frame: gives the bus back, whatever came
    /// of the tool, and states the response. The guard is the one that the
    /// first step handed out on this controller.
    pub fn get_finish(&mut self, guard: BusGuard, outcome: ToolOutcome) -> (response: GetResponse)
        requires
            old(self).held_by(&guard),
        ensures
            response@ == finished_response(ToolProfile::Get, outcome@),
            !final(self).bus_held(),
            final(self).tools() == old(self).tools(),
    {
        self.bus.release(guard);
        match classify(ToolProfile::Get, outcome) {
            Ok(payload) => GetResponse::OK(payload),
            Err(message) => GetResponse::NotFound(message),
        }
    }

    /// First step of reading up to `maxframes` frames from the device at
    /// `address`.
    pub fn get_multi(
        &mut self,
        device: &str,
        baudrate: Baudrate,
        address: &str,
        maxframes: i32,
    ) -> (step: BusStep<GetMultiResponse>)
        ensures
            step@ == get_multi_step(
                old(self).bus_held(),
                old(self).tools(),
                device@,
                baudrate,
                address@,
                maxframes as int,
            ),
            final(self).lock_after_step(old(self), &step),
            final(self).bus_held() == held_after_step(old(self).bus_held(), step@),
            final(self).tools() == old(self).tools(),
    {
        match check_address(address) {
            Ok(_) => {},
            Err(message) => {
                return BusStep::Respond(GetMultiResponse::BadRequest(message));
            },
        }
        let command = get_multi_command(&self.tools, device, baudrate, address, maxframes);
        match self.start(command) {
            Ok((command, guard)) => BusStep::Run(command, guard),
            Err(message) => BusStep::Respond(GetMultiResponse::NotFound(message)),
        }
    }

    /// Second step of reading several frames: gives the bus back, whatever
    /// came of the tool, and states the response. The guard is the one that
    /// the first step handed out on this controller.
    pub fn get_multi_finish(&mut self, guard: BusGuard, outcome: ToolOutcome) -> (response:
        GetMultiResponse)
        requires
            old(self).held_by(&guard),
        ensures
            response@ == finished_response(ToolProfile::GetMulti, outcome@),
            !final(self).bus_held(),
            final(self).tools() == old(self).tools(),
    {
        self.bus.release(guard);
        match classify(ToolProfile::GetMulti, outcome) {
            Ok(payload) => GetMultiResponse::OK(payload),
            Err(message) => GetMultiResponse::NotFound(message),
        }
    }

    /// First step of a scan of the bus.
    pub fn scan(&mut self, device: &str, baudrate: Baudrate) -> (step: BusStep<ScanResponse>)
        ensures
            step@ == scan_step(old(self).bus_held(), old(self).tools(), device@, baudrate),
            final(self).lock_after_step(old(self), &step),
            final(self).bus_held() == held_after_step(old(self).bus_held(), step@),
            final(self).tools() == old(self).tools(),
    {
        let command = scan_command(&self.tools, device, baudrate);
        match self.start(command) {
            Ok((command, guard)) => BusStep::Run(command, guard),
            Err(message) => BusStep::Respond(ScanResponse::NotFound(message)),
        }
    }

    /// Second step of a scan: gives the bus back, whatever came of the tool,
    /// and states the response. The guard is the one that the first step
    /// handed out on this controller.
    pub fn scan_finish(&mut self, guard: BusGuard, outcome: ToolOutcome) -> (response:
        ScanResponse)
        requires
            old(self).held_by(&guard),
        ensures
            response@ == finished_response(ToolProfile::Scan, outcome@),
            !final(self).bus_held(),
            final(self).tools() == old(self).tools(),
    {
        self.bus.release(guard);
        match classify(ToolProfile::Scan, outcome) {
            Ok(payload) => ScanResponse::OK(payload),
            Err(message) => ScanResponse::NotFound(message),
        }
    }
}

/// While the bus is held no operation is given a command to run, the lock
/// stays held, and a request with a well-formed address is answered that
/// the bus is in use, whatever device it names.
pub proof fn lemma_held_bus_turns_requests_away(
    tools: ToolConfigView,
    device: Seq<char>,
    baudrate: Baudrate,
    address: Seq<char>,
    maxframes: int,
)
    ensures
        get_step(true, tools, device, baudrate, address) is Respond,
        get_multi_step(true, tools, device, baudrate, address, maxframes) is Respond,
        scan_step(true, tools, device, baudrate) == BusStepView::Respond(
            BusResponseView::NotFound(bus_busy_text()),
        ),
        valid_address(address) ==> get_step(true, tools, device, baudrate, address)
            == BusStepView::Respond(BusResponseView::NotFound(bus_busy_text())),
        valid_address(address) ==> get_multi_step(
            true,
            tools,
            device,
            baudrate,
            address,
            maxframes,
        ) == BusStepView::Respond(BusResponseView::NotFound(bus_busy_text())),
        held_after_step(true, get_step(true, tools, device, baudrate, address)),
        held_after_step(
            true,
            get_multi_step(true, tools, device, baudrate, address, maxframes),
        ),
        held_after_step(true, scan_step(true, tools, device, baudrate)),
{
}

/// A malformed address is a bad request in every state of the bus and for
/// every device, and it leaves the lock as it was.
pub proof fn lemma_malformed_address_leaves_bus(
    held: bool,
    tools: ToolConfigView,
    device: Seq<char>,
    baudrate: Baudrate,
    address: Seq<char>,
    maxframes: int,
)
    requires
        !valid_address(address),
    ensures
        get_step(held, tools, device, baudrate, address) == BusStepView::Respond(
            BusResponseView::BadRequest(invalid_address_text()),
        ),
        get_multi_step(held, tools, device, baudrate, address, maxframes) == BusStepView::Respond(
            BusResponseView::BadRequest(invalid_address_text()),
        ),
        held_after_step(held, get_step(held, tools, device, baudrate, address)) == held,
        held_after_step(held, get_multi_step(held, tools, device, baudrate, address, maxframes))
            == held,
{
}

/// A text that is no device name gets no command in any state of the bus,
/// and the lock is left as it was. On a free bus, with a well-formed
/// address where one is asked for, the answer is "not found" with the
/// message for a refused device.
pub proof fn lemma_refused_device_gets_no_command(
    held: bool,
    tools: ToolConfigView,
    device: Seq<char>,
    baudrate: Baudrate,
    address: Seq<char>,
    maxframes: int,
)
    requires
        !valid_device_name(device),
    ensures
        get_step(held, tools, device, baudrate, address) is Respond,
        get_multi_step(held, tools, device, baudrate, address, maxframes) is Respond,
        scan_step(held, tools, device, baudrate) is Respond,
        held_after_step(held, get_step(held, tools, device, baudrate, address)) == held,
        held_after_step(held, get_multi_step(held, tools, device, baudrate, address, maxframes))
            == held,
        held_after_step(held, scan_step(held, tools, device, baudrate)) == held,
        valid_address(address) ==> get_step(false, tools, device, baudrate, address)
            == BusStepView::Respond(BusResponseView::NotFound(invalid_device_text())),
        valid_address(address) ==> get_multi_step(
            false,
            tools,
            device,
            baudrate,
            address,
            maxframes,
        ) == BusStepView::Respond(BusResponseView::NotFound(invalid_device_text())),
        scan_step(false, tools, device, baudrate) == BusStepView::Respond(
            BusResponseView::NotFound(invalid_device_text()),
        ),
{
}

/// No command that a first step hands out names a path outside the device
/// directory: the device argument of every command is the directory
/// followed by a device name.
pub proof fn lemma_no_command_leaves_device_directory(
    held: bool,
    tools: ToolConfigView,
    device: Seq<char>,
    baudrate: Baudrate,
    address: Seq<char>,
    maxframes: int,
)
    ensures
        get_step(held, tools, device, baudrate, address) matches BusStepView::Run(c)
            ==> valid_device_name(device) && below_device_directory(c.args[2]),
        get_multi_step(held, tools, device, baudrate, address, maxframes) matches BusStepView::Run(
            c,
        ) ==> valid_device_name(device) && below_device_directory(c.args[4]),
        scan_step(held, tools, device, baudrate) matches BusStepView::Run(c) ==> valid_device_name(
            device,
        ) && below_device_directory(c.args[2]),
{
    lemma_device_path_stays_below(device);
}

/// On a free bus a request with a well-formed address and a device name is
/// given its command and takes the lock. As the second step of every
/// operation leaves the bus free, the request that follows a finished
/// operation is served.
pub proof fn lemma_free_bus_serves_requests(
    tools: ToolConfigView,
    device: Seq<char>,
    baudrate: Baudrate,
    address: Seq<char>,
    maxframes: int,
)
    requires
        valid_device_name(device),
    ensures
        valid_address(address) ==> get_step(false, tools, device, baudrate, address)
            == BusStepView::Run(get_invocation(tools, device, baudrate, address)),
        valid_address(address) ==> get_multi_step(
            false,
            tools,
            device,
            baudrate,
            address,
            maxframes,
        ) == BusStepView::Run(get_multi_invocation(tools, device, baudrate, address, maxframes)),
        scan_step(false, tools, device, baudrate) == BusStepView::Run(
            scan_invocation(tools, device, baudrate),
        ),
        valid_address(address) ==> held_after_step(
            false,
            get_step(false, tools, device, baudrate, address),
        ),
        valid_address(address) ==> held_after_step(
            false,
            get_multi_step(false, tools, device, baudrate, address, maxframes),
        ),
        held_after_step(false, scan_step(false, tools, device, baudrate)),
{
}

} // verus!
