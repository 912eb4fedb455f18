//! The request and response bridge: requests that arrive over MQTT become
//! commands for the daemon, and their results one JSON response.

use crate::error::VcontroldError;
use crate::json::JsonObject;
use crate::mqtt::client::{topic, topic_under};
use crate::text::{list_items, split_list, to_chars, trim, trim_bounds};
use crate::vcontrold::protocol::{
    build_json_response, error_free, response_members, results_view, successful, CommandResult,
};
use vstd::prelude::*;
use vstd::string::StringExecFns;

verus! {

/// The suffix of the topic on which requests arrive.
pub const REQUEST_SUFFIX: &'static str = "request";

/// The suffix of the topic on which responses are published.
pub const RESPONSE_SUFFIX: &'static str = "response";

/// The commands in the payload of a request: the pieces between its commas,
/// trimmed, without those that are empty.
pub open spec fn commands_in(payload: Seq<char>) -> Seq<Seq<char>> {
    list_items(payload)
}

/// Serves the requests under one base topic.
#[derive(Debug)]
pub struct Subscriber {
    base_topic: String,
}

impl View for Subscriber {
    type V = Seq<char>;

    /// The base topic.
    closed spec fn view(&self) -> Seq<char> {
        self.base_topic@
    }
}

/// What is done with a message that arrived.
#[derive(Debug)]
pub enum Request {
    /// The message did not arrive on the request topic: it is passed over.
    NotARequest,
    /// The payload is empty: the request is passed over.
    Empty,
    /// The payload names no command: the request is dropped with a warning.
    NoCommands,
    /// These commands are executed, in this order.
    Execute(Vec<String>),
}

/// The mathematical model of a [`Request`].
pub enum RequestView {
    NotARequest,
    Empty,
    NoCommands,
    Execute(Seq<Seq<char>>),
}

impl View for Request {
    type V = RequestView;

    open spec fn view(&self) -> RequestView {
        match self {
            Request::NotARequest => RequestView::NotARequest,
            Request::Empty => RequestView::Empty,
            Request::NoCommands => RequestView::NoCommands,
            Request::Execute(commands) => RequestView::Execute(commands.deep_view()),
        }
    }
}

/// What is done with a message that arrived on `topic` with `payload`,
/// under the base topic `base`: only a message on the request topic is a
/// request, and only a request that names commands is executed.
pub open spec fn request_in(base: Seq<char>, topic: Seq<char>, payload: Seq<char>) -> RequestView {
    if topic != topic_under(base, REQUEST_SUFFIX@) {
        RequestView::NotARequest
    } else if trim(payload).len() == 0 {
        RequestView::Empty
    } else if commands_in(payload).len() == 0 {
        RequestView::NoCommands
    } else {
        RequestView::Execute(commands_in(payload))
    }
}

impl Subscriber {
    /// A subscriber under the base topic `base_topic`.
    pub fn new(base_topic: &str) -> (r: Subscriber)
        ensures
            r@ == base_topic@,
    {
        Subscriber { base_topic: base_topic.to_owned() }
    }

    /// The topic on which requests arrive.
    pub fn request_topic(&self) -> (r: String)
        ensures
            r@ == topic_under(self@, REQUEST_SUFFIX@),
    {
        topic(self.base_topic.as_str(), REQUEST_SUFFIX)
    }

    /// The topic on which responses are published.
    pub fn response_topic(&self) -> (r: String)
        ensures
            r@ == topic_under(self@, RESPONSE_SUFFIX@),
    {
        topic(self.base_topic.as_str(), RESPONSE_SUFFIX)
    }

    /// Whether a message on `topic` is a request.
    pub fn is_request(&self, topic: &str) -> (r: bool)
        ensures
            r == (topic@ == topic_under(self@, REQUEST_SUFFIX@)),
    {
        topic.to_owned() == self.request_topic()
    }

    /// The commands in the payload of a request.
    ///
    /// A payload holds one command or several with commas between them; a
    /// command may carry an argument after a space, which is passed on as it
    /// stands.
    pub fn parse_commands(payload: &str) -> (r: Vec<String>)
        ensures
            r.deep_view() == commands_in(payload@),
    {
        split_list(payload)
    }

    /// Decides what is done with a message that arrived on `topic` with
    /// `payload`.
    pub fn on_message(&self, topic: &str, payload: &str) -> (r: Request)
        ensures
            r@ == request_in(self@, topic@, payload@),
    {
        if !self.is_request(topic) {
            return Request::NotARequest;
        }
        let v: Vec<char> = to_chars(payload);
        let (a, b) = trim_bounds(&v);
        if a == b {
            return Request::Empty;
        }
        let commands: Vec<String> = Subscriber::parse_commands(payload);
        if commands.len() == 0 {
            return Request::NoCommands;
        }
        Request::Execute(commands)
    }

    /// The response to a request whose commands came back with `results`:
    /// the JSON object of the results without errors, and `None`, with a
    /// warning due, where every command failed.
    pub fn response_for(results: &[Result<CommandResult, VcontroldError>]) -> (r: Option<
        JsonObject,
    >)
        ensures
            error_free(results@).len() == 0 ==> r is None,
            error_free(results@).len() > 0 ==> (r matches Some(object) && object@
                == response_members(results_view(error_free(results@)))),
    {
        let kept: Vec<CommandResult> = successful(results);
        if kept.len() == 0 {
            return None;
        }
        Some(build_json_response(kept.as_slice()))
    }
}

} // verus!
