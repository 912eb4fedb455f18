//! The daemon's line protocol: command lines out, prompt-delimited responses
//! in.

use crate::error::{VcontroldError, VcontroldErrorView};
use crate::json::{
    has_key, lemma_with_member_new, with_member, JsonObject, JsonValue, JsonValueView, Members,
};
use crate::number::{integer_value, is_finite_bits, Number};
use crate::text::{
    char_is_control, find, find_in, first_token, first_token_str, has_prefix, is_control,
    lemma_find_from, to_chars, trim, trim_bounds, trim_str,
};
use vstd::prelude::*;
use vstd::string::StringExecFns;

verus! {

/// The prompt the daemon sends, without a line feed, when it is ready for a
/// command.
pub const PROMPT: &'static str = "vctrld>";

/// What the daemon sends when a session ends.
pub const BYE: &'static str = "good bye!";

/// How a response that reports an error begins.
pub const ERR_PREFIX: &'static str = "ERR:";

/// The characters of [`PROMPT`].
pub open spec fn prompt() -> Seq<char> {
    seq!['v', 'c', 't', 'r', 'l', 'd', '>']
}

/// The characters of [`ERR_PREFIX`].
pub open spec fn err_prefix() -> Seq<char> {
    seq!['E', 'R', 'R', ':']
}

/// [`PROMPT`] holds the characters of [`prompt`].
pub proof fn lemma_prompt()
    ensures
        PROMPT@ == prompt(),
{
    reveal_strlit("vctrld>");
    assert(PROMPT@ =~= prompt());
}

/// [`ERR_PREFIX`] holds the characters of [`err_prefix`].
pub proof fn lemma_err_prefix()
    ensures
        ERR_PREFIX@ == err_prefix(),
{
    reveal_strlit("ERR:");
    assert(ERR_PREFIX@ =~= err_prefix());
}

/// Whether `buffer` holds the prompt.
pub fn has_prompt(buffer: &str) -> (r: bool)
    ensures
        r == (find(buffer@, prompt()) is Some),
{
    proof {
        lemma_prompt();
    }
    let hay: Vec<char> = to_chars(buffer);
    let needle: Vec<char> = to_chars(PROMPT);
    find_in(&hay, &needle).is_some()
}

/// A value the daemon returned for a command.
#[derive(Debug)]
pub enum Value {
    /// A finite number.
    Number(Number),
    /// A text that is not empty.
    String(String),
    /// No value: the response was empty or reported an error.
    Absent,
}

/// The mathematical model of a [`Value`].
pub enum ValueView {
    Number(Number),
    String(Seq<char>),
    Absent,
}

impl View for Value {
    type V = ValueView;

    open spec fn view(&self) -> ValueView {
        match self {
            Value::Number(n) => ValueView::Number(*n),
            Value::String(s) => ValueView::String(s@),
            Value::Absent => ValueView::Absent,
        }
    }
}

/// The JSON value that stands for a value: a whole number of magnitude
/// below `2^63` is written as an integer, any other number as it is, a text
/// as a string, and no value as `null`.
pub open spec fn to_json(value: ValueView) -> JsonValueView {
    match value {
        ValueView::Number(n) => match integer_value(n.bits()) {
            Some(k) => JsonValueView::Integer(k as i64),
            None => JsonValueView::Float(n),
        },
        ValueView::String(s) => JsonValueView::String(s),
        ValueView::Absent => JsonValueView::Null,
    }
}

impl Value {
    /// This value as a JSON value.
    pub fn to_json_value(&self) -> (r: JsonValue)
        ensures
            r@ == to_json(self@),
    {
        match self {
            Value::Number(n) => match n.as_integer() {
                Some(k) => JsonValue::Integer(k),
                None => JsonValue::Float(*n),
            },
            Value::String(s) => JsonValue::String(s.clone()),
            Value::Absent => JsonValue::Null,
        }
    }
}

impl Clone for Value {
    fn clone(&self) -> (r: Self)
        ensures
            r == *self,
    {
        match self {
            Value::Number(n) => Value::Number(*n),
            Value::String(s) => Value::String(s.clone()),
            Value::Absent => Value::Absent,
        }
    }
}

/// What came of executing one command.
#[derive(Debug)]
pub struct CommandResult {
    /// The command that was executed.
    pub command: String,
    /// The value parsed from the response.
    pub value: Value,
    /// The response as received, trimmed.
    pub raw: String,
    /// The response, where it reported an error.
    pub error: Option<String>,
}

/// The mathematical model of a [`CommandResult`].
pub struct CommandResultView {
    pub command: Seq<char>,
    pub value: ValueView,
    pub raw: Seq<char>,
    pub error: Option<Seq<char>>,
}

impl CommandResultView {
    /// What holds of every result the codec produces: an error leaves no
    /// value; without an error the value is absent exactly where the
    /// response was empty; a number is finite, and a text is never empty.
    pub open spec fn wf(self) -> bool {
        &&& self.error is Some ==> self.value is Absent
        &&& self.error is None ==> (self.value is Absent <==> self.raw.len() == 0)
        &&& self.value matches ValueView::Number(n) ==> is_finite_bits(n.bits())
        &&& self.value matches ValueView::String(s) ==> s.len() > 0
    }
}

impl View for CommandResult {
    type V = CommandResultView;

    open spec fn view(&self) -> CommandResultView {
        CommandResultView {
            command: self.command@,
            value: self.value@,
            raw: self.raw@,
            error: match self.error {
                Some(e) => Some(e@),
                None => None,
            },
        }
    }
}

impl Clone for CommandResult {
    fn clone(&self) -> (r: Self)
        ensures
            r == *self,
    {
        CommandResult {
            command: self.command.clone(),
            value: self.value.clone(),
            raw: self.raw.clone(),
            error: match &self.error {
                Some(e) => Some(e.clone()),
                None => None,
            },
        }
    }
}

/// What [`parse_response`] makes of a response: the trimmed line is an error
/// where it begins with the error prefix; otherwise its value is the number
/// that its first token denotes, else the line itself, else nothing where
/// the line is empty.
pub open spec fn parse_response_spec(
    command: Seq<char>,
    raw: Seq<char>,
    number: Option<Number>,
) -> CommandResultView {
    let line = trim(raw);
    if err_prefix().is_prefix_of(line) {
        CommandResultView { command, value: ValueView::Absent, raw: line, error: Some(line) }
    } else {
        CommandResultView {
            command,
            value: if line.len() == 0 {
                ValueView::Absent
            } else {
                match number {
                    Some(n) => ValueView::Number(n),
                    None => ValueView::String(line),
                }
            },
            raw: line,
            error: None,
        }
    }
}

/// The token of a response that may denote its number: the first
/// white-space-delimited word.
pub fn number_token(raw: &str) -> (r: &str)
    ensures
        r@ == first_token(raw@),
{
    first_token_str(raw)
}

/// Parses one response of the daemon to `command`.
///
/// `number` is the finite number that [`number_token`] of `raw` denotes, and
/// `None` where it denotes none.
pub fn parse_response(command: &str, raw: &str, number: Option<Number>) -> (r: CommandResult)
    ensures
        r@ == parse_response_spec(command@, raw@, number),
        r@.wf(),
{
    proof {
        lemma_err_prefix();
    }
    let line: &str = trim_str(raw);
    let chars: Vec<char> = to_chars(line);
    let prefix: Vec<char> = to_chars(ERR_PREFIX);
    if has_prefix(&chars, &prefix) {
        return CommandResult {
            command: command.to_owned(),
            value: Value::Absent,
            raw: line.to_owned(),
            error: Some(line.to_owned()),
        };
    }
    let value: Value = if chars.len() == 0 {
        Value::Absent
    } else {
        match number {
            Some(n) => {
                // Reading the bits brings to light that they are finite.
                let _: u64 = n.bits();
                Value::Number(n)
            },
            None => Value::String(line.to_owned()),
        }
    };
    CommandResult { command: command.to_owned(), value, raw: line.to_owned(), error: None }
}

/// The line that sends `cmd` to the daemon: the trimmed command and one line
/// feed.
pub open spec fn command_line(cmd: Seq<char>) -> Seq<char> {
    trim(cmd).push('\n')
}

/// The line that asks the daemon to end the session.
pub open spec fn quit_line() -> Seq<char> {
    seq!['q', 'u', 'i', 't', '\n']
}

/// The line that sends `cmd` to the daemon.
pub fn format_command(cmd: &str) -> (r: String)
    ensures
        r@ == command_line(cmd@),
{
    proof {
        reveal_strlit("\n");
    }
    let line: String = String::from_str(trim_str(cmd)).concat("\n");
    assert(line@ =~= command_line(cmd@));
    line
}

/// The line that asks the daemon to end the session.
pub fn format_quit() -> (r: String)
    ensures
        r@ == quit_line(),
{
    proof {
        reveal_strlit("quit\n");
    }
    let line: String = String::from_str("quit\n");
    assert(line@ =~= quit_line());
    line
}

/// What stands before the first prompt in `buffer`, trimmed; `None` where
/// `buffer` holds no prompt.
pub open spec fn extract_response_spec(buffer: Seq<char>) -> Option<Seq<char>> {
    match find(buffer, prompt()) {
        Some(i) => Some(trim(buffer.take(i))),
        None => None,
    }
}

/// The response in `buffer`: everything before the first prompt, trimmed.
pub fn extract_response(buffer: &str) -> (r: Option<&str>)
    ensures
        match r {
            Some(text) => extract_response_spec(buffer@) == Some(text@),
            None => extract_response_spec(buffer@) is None,
        },
{
    proof {
        lemma_prompt();
    }
    let hay: Vec<char> = to_chars(buffer);
    let needle: Vec<char> = to_chars(PROMPT);
    match find_in(&hay, &needle) {
        Some(i) => {
            proof {
                lemma_find_from(hay@, needle@, 0);
            }
            let head: &str = buffer.substring_char(0, i);
            Some(trim_str(head))
        },
        None => None,
    }
}

/// Whether `response` reports an error.
pub fn is_error_response(response: &str) -> (r: bool)
    ensures
        r == err_prefix().is_prefix_of(response@),
{
    proof {
        lemma_err_prefix();
    }
    let chars: Vec<char> = to_chars(response);
    let prefix: Vec<char> = to_chars(ERR_PREFIX);
    has_prefix(&chars, &prefix)
}

/// Whether `cmd`, trimmed, may be sent: it is not empty and holds no control
/// character.
pub open spec fn is_valid_command(cmd: Seq<char>) -> bool {
    trim(cmd).len() > 0 && forall|i: int| 0 <= i < trim(cmd).len() ==> !is_control(trim(cmd)[i])
}

/// The error that refuses `cmd`, which is not valid: it is empty, or holds
/// characters that it may not hold.
pub open spec fn command_error(cmd: Seq<char>) -> VcontroldErrorView {
    if trim(cmd).len() == 0 {
        VcontroldErrorView::Command("empty command"@)
    } else {
        VcontroldErrorView::Command("invalid characters"@)
    }
}

/// Checks that `cmd` may be sent to the daemon.
pub fn validate_command(cmd: &str) -> (r: Result<(), VcontroldError>)
    ensures
        match r {
            Ok(()) => is_valid_command(cmd@),
            Err(e) => !is_valid_command(cmd@) && e@ == command_error(cmd@),
        },
{
    let v: Vec<char> = to_chars(cmd);
    let (a, b) = trim_bounds(&v);
    if a == b {
        return Err(VcontroldError::Command("empty command".to_owned()));
    }
    let mut i: usize = a;
    while i < b
        invariant
            a <= i <= b <= v@.len(),
            v@.subrange(a as int, b as int) == trim(cmd@),
            forall|j: int| 0 <= j < i - a ==> !is_control(trim(cmd@)[j]),
        decreases b - i,
    {
        if char_is_control(v[i]) {
            assert(trim(cmd@)[i - a] == v@[i as int]);
            return Err(VcontroldError::Command("invalid characters".to_owned()));
        }
        assert(trim(cmd@)[i - a] == v@[i as int]);
        i = i + 1;
    }
    Ok(())
}

/// The results among `results` that came back without an error of either
/// kind, in their order.
pub open spec fn error_free(results: Seq<Result<CommandResult, VcontroldError>>) -> Seq<
    CommandResult,
> {
    results.filter_map(
        |r: Result<CommandResult, VcontroldError>|
            match r {
                Ok(result) if result.error is None => Some(result),
                _ => None,
            },
    )
}

/// Keeps the results that came back without an error of either kind.
pub fn successful(results: &[Result<CommandResult, VcontroldError>]) -> (r: Vec<CommandResult>)
    ensures
        r@ == error_free(results@),
{
    let mut kept: Vec<CommandResult> = Vec::new();
    let ghost keep = |r: Result<CommandResult, VcontroldError>|
        match r {
            Ok(result) if result.error is None => Some(result),
            _ => None,
        };
    let n: usize = results.len();
    let mut i: usize = 0;
    assert(results@.take(0).filter_map(keep) =~= kept@);
    while i < n
        invariant
            i <= n == results@.len(),
            keep == |r: Result<CommandResult, VcontroldError>|
                match r {
                    Ok(result) if result.error is None => Some(result),
                    _ => None,
                },
            kept@ == results@.take(i as int).filter_map(keep),
        decreases n - i,
    {
        proof {
            results@.lemma_filter_map_take_succ(keep, i as int);
        }
        match &results[i] {
            Ok(result) => {
                if result.error.is_none() {
                    kept.push(result.clone());
                }
            },
            Err(_) => {},
        }
        i = i + 1;
    }
    assert(results@.take(n as int) =~= results@);
    kept
}

/// The models of a list of results.
pub open spec fn results_view(results: Seq<CommandResult>) -> Seq<CommandResultView> {
    results.map_values(|r: CommandResult| r@)
}

/// The members of the response to a request: each result without an error
/// sets its command's name to its value, in the order of the results.
pub open spec fn response_members(results: Seq<CommandResultView>) -> Members
    decreases results.len(),
{
    if results.len() == 0 {
        Members::empty()
    } else {
        let earlier = response_members(results.drop_last());
        let last = results.last();
        if last.error is None {
            with_member(earlier, last.command, to_json(last.value))
        } else {
            earlier
        }
    }
}

/// Builds the JSON object that answers a request from the results of its
/// commands.
pub fn build_json_response(results: &[CommandResult]) -> (r: JsonObject)
    ensures
        r@ == response_members(results_view(results@)),
{
    let mut object: JsonObject = JsonObject::new();
    let n: usize = results.len();
    let mut i: usize = 0;
    assert(results_view(results@).take(0) =~= Seq::<CommandResultView>::empty());
    while i < n
        invariant
            i <= n == results@.len(),
            object@ == response_members(results_view(results@).take(i as int)),
        decreases n - i,
    {
        let result: &CommandResult = &results[i];
        proof {
            let all = results_view(results@);
            assert(all.take(i + 1).drop_last() =~= all.take(i as int));
            assert(all.take(i + 1).last() == result@);
        }
        if result.error.is_none() {
            object.insert(result.command.clone(), result.value.to_json_value());
        }
        i = i + 1;
    }
    assert(results_view(results@).take(n as int) =~= results_view(results@));
    object
}

/// The member that a result without an error stands for.
pub open spec fn member_of(result: CommandResultView) -> (Seq<char>, JsonValueView) {
    (result.command, to_json(result.value))
}

/// For results without errors and with distinct command names, the response
/// holds exactly one member per result, in the order of the results: each
/// command's name with the JSON value of its result.
pub proof fn lemma_json_round_trip(results: Seq<CommandResultView>)
    requires
        forall|i: int| 0 <= i < results.len() ==> results[i].error is None,
        forall|i: int, j: int|
            0 <= i < j < results.len() ==> results[i].command != results[j].command,
    ensures
        response_members(results) == results.map_values(|r: CommandResultView| member_of(r)),
    decreases results.len(),
{
    let mapped = results.map_values(|r: CommandResultView| member_of(r));
    if results.len() == 0 {
        assert(response_members(results) =~= mapped);
    } else {
        let earlier = results.drop_last();
        let last = results.last();
        lemma_json_round_trip(earlier);
        let head = earlier.map_values(|r: CommandResultView| member_of(r));
        assert(!has_key(head, last.command)) by {
            assert forall|i: int| 0 <= i < head.len() implies #[trigger] head[i].0
                != last.command by {
                assert(head[i].0 == results[i].command);
            }
        }
        lemma_with_member_new(head, last.command, to_json(last.value));
        assert(head.push(member_of(last)) =~= mapped);
    }
}

} // verus!
