//! Switching the bus power through one GPIO pin of the power-control module.
//!
//! The library decides what is asked of the pin and in which order; the
//! caller performs each request and hands back what came of it. A switch to
//! "on" or "off" always writes the pin again: asking for the state that
//! already holds is no fault.

use crate::hat::{hat_is_mbus_master, is_mbus_master, HatFiles, HatFilesView};
use crate::responses::{HatOffResponse, HatOnResponse, PowerResponseView};
use crate::text::{decimal_string, decimal_text};
use vstd::prelude::*;
use vstd::string::*;

verus! {

/// Number of the pin that switches the bus power.
pub const MBUS_MASTER_POWER_GPIO: u64 = 26;

/// What the caller is asked to do with the pin.
#[derive(Debug, Clone, Copy, PartialEq, Eq, Hash, Structural)]
pub enum GpioRequest {
    /// Tell whether the pin is exported for use.
    IsExported,
    /// Export the pin.
    Export,
    /// Make the pin an output.
    SetDirectionOut,
    /// Write the value: 0 switches the power off, 1 switches it on.
    SetValue(u8),
}

/// How far a switch of the power has come: the next request waits for its
/// reply.
#[derive(Debug, Clone, Copy, PartialEq, Eq, Hash, Structural)]
pub enum PowerStage {
    /// The question whether the pin is exported is out.
    QueryExport,
    /// The export of the pin is out.
    Export,
    /// The request to make the pin an output is out.
    Direction,
    /// The write of the value is out.
    Value,
}

/// A switch of the power under way.
#[derive(Debug, Clone, Copy, PartialEq, Eq, Hash, Structural)]
pub struct PowerSequence {
    /// The value to write in the end.
    pub value: u8,
    /// The request that is out.
    pub stage: PowerStage,
}

/// What is to happen next in a switch of the power.
#[derive(Debug, PartialEq, Eq)]
pub enum PowerStep {
    /// Perform the request of this sequence and hand its reply to `advance`.
    Perform(PowerSequence),
    /// The switch has ended, well or with the message of a failure.
    Finished(Result<(), String>),
}

/// What the contracts see of a `PowerStep`.
pub enum PowerStepView {
    Perform(PowerSequence),
    Finished(Result<(), Seq<char>>),
}

impl View for PowerStep {
    type V = PowerStepView;

    open spec fn view(&self) -> PowerStepView {
        match self {
            PowerStep::Perform(s) => PowerStepView::Perform(*s),
            PowerStep::Finished(Ok(_)) => PowerStepView::Finished(Ok(())),
            PowerStep::Finished(Err(e)) => PowerStepView::Finished(Err(e@)),
        }
    }
}

/// The reply to a request as the contracts see it: `Ok` with the answer to
/// the question whether the pin is exported, or the message of a failure.
pub type GpioReplyView = Result<bool, Seq<char>>;

/// The view of a reply.
pub open spec fn reply_view(reply: Result<bool, String>) -> GpioReplyView {
    match reply {
        Ok(b) => Ok(b),
        Err(e) => Err(e@),
    }
}

/// The view of the result of a switch.
pub open spec fn result_view(result: Result<(), String>) -> Result<(), Seq<char>> {
    match result {
        Ok(_) => Ok(()),
        Err(e) => Err(e@),
    }
}

/// The message where the power-control module is not fitted.
pub open spec fn not_installed_text() -> Seq<char> {
    "M-Bus Master Hat not installed"@
}

/// The message where the pin could not be taken into use.
pub open spec fn export_failure_text(error: Seq<char>) -> Seq<char> {
    "Failed to get GPIO control: "@ + error
}

/// The message where the pin could not be made an output.
pub open spec fn direction_failure_text(error: Seq<char>) -> Seq<char> {
    "Failed to set GPIO as output: "@ + error
}

/// The message where the value could not be written.
pub open spec fn value_failure_text(value: u8, error: Seq<char>) -> Seq<char> {
    "Failed to set GPIO value: "@ + decimal_text(value as int) + ", "@ + error
}

impl PowerSequence {
    /// The request that is out.
    pub open spec fn pending(self) -> GpioRequest {
        match self.stage {
            PowerStage::QueryExport => GpioRequest::IsExported,
            PowerStage::Export => GpioRequest::Export,
            PowerStage::Direction => GpioRequest::SetDirectionOut,
            PowerStage::Value => GpioRequest::SetValue(self.value),
        }
    }

    /// The place of the stage in the order of the requests.
    pub open spec fn rank(self) -> nat {
        match self.stage {
            PowerStage::QueryExport => 0,
            PowerStage::Export => 1,
            PowerStage::Direction => 2,
            PowerStage::Value => 3,
        }
    }

    /// What follows the reply to the request that is out:
    /// an exported pin is not exported again; after the export, or without
    /// it, the pin is made an output; then the value is written; then the
    /// switch has ended well. A failure at any request ends the switch with
    /// the message of that request.
    pub open spec fn next(self, reply: GpioReplyView) -> PowerStepView {
        match (self.stage, reply) {
            (PowerStage::QueryExport, Ok(true)) => PowerStepView::Perform(
                PowerSequence { value: self.value, stage: PowerStage::Direction },
            ),
            (PowerStage::QueryExport, Ok(false)) => PowerStepView::Perform(
                PowerSequence { value: self.value, stage: PowerStage::Export },
            ),
            (PowerStage::QueryExport, Err(e)) => PowerStepView::Finished(
                Err(export_failure_text(e)),
            ),
            (PowerStage::Export, Ok(_)) => PowerStepView::Perform(
                PowerSequence { value: self.value, stage: PowerStage::Direction },
            ),
            (PowerStage::Export, Err(e)) => PowerStepView::Finished(Err(export_failure_text(e))),
            (PowerStage::Direction, Ok(_)) => PowerStepView::Perform(
                PowerSequence { value: self.value, stage: PowerStage::Value },
            ),
            (PowerStage::Direction, Err(e)) => PowerStepView::Finished(
                Err(direction_failure_text(e)),
            ),
            (PowerStage::Value, Ok(_)) => PowerStepView::Finished(Ok(())),
            (PowerStage::Value, Err(e)) => PowerStepView::Finished(
                Err(value_failure_text(self.value, e)),
            ),
        }
    }

    /// The request to perform now.
    pub fn request(&self) -> (r: GpioRequest)
        ensures
            r == self.pending(),
    {
        match self.stage {
            PowerStage::QueryExport => GpioRequest::IsExported,
            PowerStage::Export => GpioRequest::Export,
            PowerStage::Direction => GpioRequest::SetDirectionOut,
            PowerStage::Value => GpioRequest::SetValue(self.value),
        }
    }

    /// Takes the reply to the request that is out and decides what is next.
    /// `Ok` carries the answer to `IsExported`; for the other requests it
    /// says that the request was done, and its value is not looked at.
    /// `Err` carries the text of the failure.
    pub fn advance(self, reply: Result<bool, String>) -> (step: PowerStep)
        ensures
            step@ == self.next(reply_view(reply)),
    {
        match self.stage {
            PowerStage::QueryExport => match reply {
                Ok(true) => PowerStep::Perform(
                    PowerSequence { value: self.value, stage: PowerStage::Direction },
                ),
                Ok(false) => PowerStep::Perform(
                    PowerSequence { value: self.value, stage: PowerStage::Export },
                ),
                Err(e) => PowerStep::Finished(Err(failure("Failed to get GPIO control: ", &e))),
            },
            PowerStage::Export => match reply {
                Ok(_) => PowerStep::Perform(
                    PowerSequence { value: self.value, stage: PowerStage::Direction },
                ),
                Err(e) => PowerStep::Finished(Err(failure("Failed to get GPIO control: ", &e))),
            },
            PowerStage::Direction => match reply {
                Ok(_) => PowerStep::Perform(
                    PowerSequence { value: self.value, stage: PowerStage::Value },
                ),
                Err(e) => PowerStep::Finished(Err(failure("Failed to set GPIO as output: ", &e))),
            },
            PowerStage::Value => match reply {
                Ok(_) => PowerStep::Finished(Ok(())),
                Err(e) => {
                    let mut prefix = "Failed to set GPIO value: ".to_owned();
                    prefix.append(decimal_string(self.value as i64).as_str());
                    prefix.append(", ");
                    PowerStep::Finished(Err(failure(prefix.as_str(), &e)))
                },
            },
        }
    }
}

/// A message: what failed, then the text of the failure.
fn failure(prefix: &str, error: &String) -> (m: String)
    ensures
        m@ == prefix@ + error@,
{
    let mut m = prefix.to_owned();
    m.append(error.as_str());
    m
}

/// How a switch of the power begins: without the power-control module it
/// ends at once and the pin is left alone; with it the first question goes
/// to the pin.
pub open spec fn power_start(value: u8, master: bool) -> PowerStepView {
    if master {
        PowerStepView::Perform(PowerSequence { value, stage: PowerStage::QueryExport })
    } else {
        PowerStepView::Finished(Err(not_installed_text()))
    }
}

/// Begins to switch the power: `value` 0 for off, 1 for on.
pub fn hat_power(value: u8, files: &HatFiles) -> (step: PowerStep)
    ensures
        step@ == power_start(value, is_mbus_master(files@)),
{
    if hat_is_mbus_master(files) {
        PowerStep::Perform(PowerSequence { value, stage: PowerStage::QueryExport })
    } else {
        PowerStep::Finished(Err("M-Bus Master Hat not installed".to_owned()))
    }
}

/// Begins to switch the bus power off.
pub fn hat_off(files: &HatFiles) -> (step: PowerStep)
    ensures
        step@ == power_start(0, is_mbus_master(files@)),
{
    hat_power(0, files)
}

/// Begins to switch the bus power on.
pub fn hat_on(files: &HatFiles) -> (step: PowerStep)
    ensures
        step@ == power_start(1, is_mbus_master(files@)),
{
    hat_power(1, files)
}

/// The response for the result of a switch. Every failure, a missing module
/// as well as a fault of the pin, is "not found" with its message.
pub open spec fn power_response(result: Result<(), Seq<char>>) -> PowerResponseView {
    match result {
        Ok(_) => PowerResponseView::OK,
        Err(e) => PowerResponseView::NotFound(e),
    }
}

/// The response for the result of switching the power off.
pub fn hat_off_response(result: Result<(), String>) -> (response: HatOffResponse)
    ensures
        response@ == power_response(result_view(result)),
{
    match result {
        Ok(_) => HatOffResponse::OK,
        Err(e) => HatOffResponse::NotFound(e),
    }
}

/// The response for the result of switching the power on.
pub fn hat_on_response(result: Result<(), String>) -> (response: HatOnResponse)
    ensures
        response@ == power_response(result_view(result)),
{
    match result {
        Ok(_) => HatOnResponse::OK,
        Err(e) => HatOnResponse::NotFound(e),
    }
}

/// Without the power-control module, switching off and switching on end
/// alike: at once, with the same "not found" message, and with no request
/// to the pin.
pub proof fn lemma_no_master_no_gpio(files: HatFilesView)
    requires
        !is_mbus_master(files),
    ensures
        power_start(0, is_mbus_master(files)) == PowerStepView::Finished(
            Err(not_installed_text()),
        ),
        power_start(1, is_mbus_master(files)) == power_start(0, is_mbus_master(files)),
        power_response(Err(not_installed_text())) == PowerResponseView::NotFound(
            not_installed_text(),
        ),
{
}

/// Each reply moves a switch on to a later request or ends it, so a switch
/// makes at most four requests; the value is written only after the pin was
/// made an output, and it is the value that was asked for.
pub proof fn lemma_power_advances(sequence: PowerSequence, reply: GpioReplyView)
    ensures
        sequence.next(reply) matches PowerStepView::Perform(later) ==> later.rank()
            > sequence.rank() && later.value == sequence.value && reply is Ok,
        sequence.next(reply) matches PowerStepView::Perform(later) ==> (later.stage
            == PowerStage::Value <==> sequence.stage == PowerStage::Direction),
        sequence.next(reply) == PowerStepView::Finished(Ok(())) <==> (sequence.stage
            == PowerStage::Value && reply is Ok),
        reply is Err ==> sequence.next(reply) is Finished,
{
}

/// With the module fitted and every request done well, a switch asks
/// whether the pin is exported, exports it only if it is not, makes it an
/// output, writes the value and ends well.
pub proof fn lemma_power_runs_through(value: u8, exported: bool)
    ensures
        ({
            let first = PowerSequence { value, stage: PowerStage::QueryExport };
            let export = PowerSequence { value, stage: PowerStage::Export };
            let direction = PowerSequence { value, stage: PowerStage::Direction };
            let write = PowerSequence { value, stage: PowerStage::Value };
            &&& power_start(value, true) == PowerStepView::Perform(first)
            &&& first.pending() == GpioRequest::IsExported
            &&& first.next(Ok(true)) == PowerStepView::Perform(direction)
            &&& first.next(Ok(false)) == PowerStepView::Perform(export)
            &&& export.pending() == GpioRequest::Export
            &&& export.next(Ok(exported)) == PowerStepView::Perform(direction)
            &&& direction.pending() == GpioRequest::SetDirectionOut
            &&& direction.next(Ok(exported)) == PowerStepView::Perform(write)
            &&& write.pending() == GpioRequest::SetValue(value)
            &&& write.next(Ok(exported)) == PowerStepView::Finished(Ok(()))
        }),
{
}

} // verus!
