//! What is published for the result of a polled command.

use crate::error::MqttError;
use crate::mqtt::client::{topic, topic_under};
use crate::number::{integer_value, Number};
use crate::text::{
    decimal, i64_to_decimal, to_chars, trim_end_matches, trim_end_matches_len,
};
use crate::vcontrold::protocol::{CommandResult, CommandResultView, Value, ValueView};
use vstd::prelude::*;
use vstd::string::StringExecFns;

verus! {

/// The seconds one publish may take before the poller moves on.
pub const PUBLISH_TIMEOUT_SECS: u64 = 5;

/// The payload of a number: a whole number of magnitude below `2^63` is
/// written as an integer; any other number is written with six decimals,
/// which is `fixed`, without the zeros at its end and without a decimal
/// point left at its end.
pub open spec fn format_number_spec(bits: u64, fixed: Seq<char>) -> Seq<char> {
    match integer_value(bits) {
        Some(k) => decimal(k),
        None => trim_end_matches(trim_end_matches(fixed, '0'), '.'),
    }
}

/// Formats a number for a payload.
///
/// `fixed` is the number written in decimal notation with exactly six
/// digits after the decimal point.
pub fn format_number(n: Number, fixed: &str) -> (r: String)
    ensures
        r@ == format_number_spec(n.bits(), fixed@),
{
    match n.as_integer() {
        Some(k) => i64_to_decimal(k),
        None => {
            let chars: Vec<char> = to_chars(fixed);
            assert(chars@.take(chars@.len() as int) =~= chars@);
            let without_zeros: usize = trim_end_matches_len(&chars, chars.len(), '0');
            let end: usize = trim_end_matches_len(&chars, without_zeros, '.');
            assert(chars@.take(end as int) =~= fixed@.subrange(0, end as int));
            fixed.substring_char(0, end).to_owned()
        },
    }
}

/// What a result is published as.
#[derive(Debug)]
pub enum Payload {
    /// A number, still to be formatted with [`format_number`].
    Number(Number),
    /// A text, published as it stands.
    Text(String),
}

/// The mathematical model of a [`Payload`].
pub enum PayloadView {
    Number(Number),
    Text(Seq<char>),
}

impl View for Payload {
    type V = PayloadView;

    open spec fn view(&self) -> PayloadView {
        match self {
            Payload::Number(n) => PayloadView::Number(*n),
            Payload::Text(text) => PayloadView::Text(text@),
        }
    }
}

/// What is done with a result.
#[derive(Debug)]
pub enum Plan {
    /// The command failed: nothing is published, and a warning is due.
    SkipError,
    /// The response held no value: nothing is published.
    SkipAbsent,
    /// The value is published and retained.
    Send { topic: String, payload: Payload },
}

/// The mathematical model of a [`Plan`].
pub enum PlanView {
    SkipError,
    SkipAbsent,
    Send { topic: Seq<char>, payload: PayloadView },
}

impl View for Plan {
    type V = PlanView;

    open spec fn view(&self) -> PlanView {
        match self {
            Plan::SkipError => PlanView::SkipError,
            Plan::SkipAbsent => PlanView::SkipAbsent,
            Plan::Send { topic, payload } => PlanView::Send { topic: topic@, payload: payload@ },
        }
    }
}

/// The topic of the command `command` under the base topic `base`.
pub open spec fn command_topic(base: Seq<char>, command: Seq<char>) -> Seq<char> {
    topic_under(base, "command/"@ + command)
}

/// What is done with `result` under the base topic `base`: nothing for a
/// result with an error or without a value; otherwise its value goes to the
/// topic of its command.
pub open spec fn plan_for(base: Seq<char>, result: CommandResultView) -> PlanView {
    if result.error is Some {
        PlanView::SkipError
    } else {
        match result.value {
            ValueView::Absent => PlanView::SkipAbsent,
            ValueView::Number(n) => PlanView::Send {
                topic: command_topic(base, result.command),
                payload: PayloadView::Number(n),
            },
            ValueView::String(s) => PlanView::Send {
                topic: command_topic(base, result.command),
                payload: PayloadView::Text(s),
            },
        }
    }
}

/// Publishes the results of polled commands under one base topic.
#[derive(Debug)]
pub struct Publisher {
    base_topic: String,
}

impl View for Publisher {
    type V = Seq<char>;

    /// The base topic.
    closed spec fn view(&self) -> Seq<char> {
        self.base_topic@
    }
}

impl Publisher {
    /// A publisher under the base topic `base_topic`.
    pub fn new(base_topic: &str) -> (r: Publisher)
        ensures
            r@ == base_topic@,
    {
        Publisher { base_topic: base_topic.to_owned() }
    }

    /// Decides what is published for `result`.
    pub fn publish_result(&self, result: &CommandResult) -> (r: Plan)
        ensures
            r@ == plan_for(self@, result@),
    {
        if result.error.is_some() {
            return Plan::SkipError;
        }
        let payload: Payload = match &result.value {
            Value::Number(n) => Payload::Number(*n),
            Value::String(s) => Payload::Text(s.clone()),
            Value::Absent => {
                return Plan::SkipAbsent;
            },
        };
        let mut suffix: String = String::from_str("command/");
        suffix.append(result.command.as_str());
        Plan::Send { topic: topic(self.base_topic.as_str(), suffix.as_str()), payload }
    }

    /// Decides what is published for each of `results`, in their order.
    pub fn publish_results(&self, results: &[CommandResult]) -> (r: Vec<Plan>)
        ensures
            r@.len() == results@.len(),
            forall|i: int|
                0 <= i < results@.len() ==> (#[trigger] r@[i])@ == plan_for(self@, results@[i]@),
    {
        let mut plans: Vec<Plan> = Vec::new();
        let n: usize = results.len();
        let mut i: usize = 0;
        while i < n
            invariant
                i <= n == results@.len(),
                plans@.len() == i,
                forall|j: int|
                    0 <= j < i ==> (#[trigger] plans@[j])@ == plan_for(self@, results@[j]@),
            decreases n - i,
        {
            let plan: Plan = self.publish_result(&results[i]);
            plans.push(plan);
            i = i + 1;
        }
        plans
    }
}

/// How handing a message to the broker session ended.
#[derive(Debug)]
pub enum PublishOutcome {
    /// The session took the message.
    Sent,
    /// The session refused the message, with the reason.
    Failed(String),
    /// The session did not take the message within
    /// [`PUBLISH_TIMEOUT_SECS`].
    TimedOut,
}

/// What a publish comes to: a refusal is an error; a publish that took too
/// long is not, a warning is due and the poller moves on.
pub fn settle(outcome: PublishOutcome) -> (r: Result<(), MqttError>)
    ensures
        match outcome {
            PublishOutcome::Failed(reason) => r matches Err(MqttError::PublishFailed(msg)) && msg
                == reason,
            _ => r is Ok,
        },
{
    match outcome {
        PublishOutcome::Sent => Ok(()),
        PublishOutcome::Failed(reason) => Err(MqttError::PublishFailed(reason)),
        PublishOutcome::TimedOut => Ok(()),
    }
}

} // verus!
