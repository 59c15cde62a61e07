//! Outcomes of a dispatch pass and what is reported of them.

use vstd::prelude::*;
use crate::checks::{Check, Reason};
use crate::text::{chars_of, decimal, decimal_of, push_all, push_str, string_of};

verus! {

/// The colour of the panel in which a failure is shown.
pub const ERROR_COLOUR: u32 = 0xE74C3C;

/// Why a command did not run, or did not run to its end.
#[derive(Debug)]
pub enum Failure {
    /// Fewer arguments were given than the command needs.
    NotEnoughArguments { min: usize, given: usize },
    /// More arguments were given than the command takes.
    TooManyArguments { max: usize, given: usize },
    /// A check of the command did not pass.
    CheckFailed { check: Check, reason: Reason },
    /// The handler gave up, with this message.
    Handler { message: String },
}

impl Failure {
    /// Whether this is the failure of a handler with the message `text`.
    pub open spec fn is_handler(self, text: Seq<char>) -> bool {
        self matches Failure::Handler { message } && message@ == text
    }
}

/// The failure of a handler with the message `message`.
pub fn handler_failure(message: &str) -> (f: Failure)
    ensures
        f.is_handler(message@),
{
    let mut text: Vec<char> = Vec::new();
    push_str(&mut text, message);
    Failure::Handler { message: string_of(&text) }
}

/// How a dispatch pass ended.
#[derive(Debug)]
pub enum Outcome {
    Success,
    Failure(Failure),
}

/// A reply that shows a failure to the user.
#[derive(Debug)]
pub struct ErrorReply {
    pub title: Option<String>,
    pub description: String,
    pub colour: u32,
}

/// What is done about an outcome: at most one reply, and one line for the log.
#[derive(Debug)]
pub struct Report {
    pub reply: Option<ErrorReply>,
    pub log: String,
}

/// The sentence for a command that was given too few arguments.
pub open spec fn too_few_text(min: nat) -> Seq<char> {
    "Command needs at least "@ + decimal(min)
        + " arguments. See ~help <command> for guidance."@
}

/// The sentence for a command that was given too many arguments.
pub open spec fn too_many_text(max: nat) -> Seq<char> {
    "Command takes at most "@ + decimal(max) + " arguments. See ~help <command> for guidance."@
}

/// The text that is shown to the user for `failure`.
pub open spec fn reply_text(failure: Failure) -> Seq<char> {
    match failure {
        Failure::NotEnoughArguments { min, given } => too_few_text(min as nat),
        Failure::TooManyArguments { max, given } => too_many_text(max as nat),
        Failure::CheckFailed { check, reason } => reason.text(),
        Failure::Handler { message } => message@,
    }
}

/// What the log says of `failure`.
pub open spec fn detail_text(failure: Failure) -> Seq<char> {
    match failure {
        Failure::NotEnoughArguments { min, given } => "not enough arguments: "@ + decimal(
            given as nat,
        ) + " given, at least "@ + decimal(min as nat) + " expected"@,
        Failure::TooManyArguments { max, given } => "too many arguments: "@ + decimal(given as nat)
            + " given, at most "@ + decimal(max as nat) + " expected"@,
        Failure::CheckFailed { check, reason } => "check '"@ + check.name_text() + "' failed: "@
            + reason.text(),
        Failure::Handler { message } => message@,
    }
}

/// The line that is logged for `outcome` of the command `command` on the
/// message `content`: the name of the command, the message, and the detail
/// of the failure if it is one.
pub open spec fn log_text(command: Seq<char>, content: Seq<char>, outcome: Outcome) -> Seq<char> {
    match outcome {
        Outcome::Success => "Command '"@ + command + "' processed message: "@ + content,
        Outcome::Failure(failure) => "Command '"@ + command + "' returned error. Message: "@
            + content + ", Error: "@ + detail_text(failure),
    }
}

/// What is to be done about `outcome`. A success is silent: the handler has
/// sent what it had to say. A failure is shown once, in the error colour.
pub open spec fn reported(command: Seq<char>, content: Seq<char>, outcome: Outcome, r: Report) -> bool {
    &&& r.log@ == log_text(command, content, outcome)
    &&& match outcome {
        Outcome::Success => r.reply is None,
        Outcome::Failure(failure) => r.reply matches Some(reply) && reply.title is None
            && reply.description@ == reply_text(failure) && reply.colour == ERROR_COLOUR,
    }
}

fn arity_sentence(head: &str, count: usize) -> (m: Vec<char>)
    ensures
        m@ == head@ + decimal(count as nat) + " arguments. See ~help <command> for guidance."@,
{
    let mut out: Vec<char> = Vec::new();
    push_str(&mut out, head);
    push_all(&mut out, &decimal_of(count as u64));
    push_str(&mut out, " arguments. See ~help <command> for guidance.");
    out
}

fn arity_detail(head: &str, given: usize, middle: &str, expected: usize) -> (m: Vec<char>)
    ensures
        m@ == head@ + decimal(given as nat) + middle@ + decimal(expected as nat) + " expected"@,
{
    let mut out: Vec<char> = Vec::new();
    push_str(&mut out, head);
    push_all(&mut out, &decimal_of(given as u64));
    push_str(&mut out, middle);
    push_all(&mut out, &decimal_of(expected as u64));
    push_str(&mut out, " expected");
    out
}

/// The text that is shown to the user for `failure`.
pub fn reply_for(failure: &Failure) -> (text: Vec<char>)
    ensures
        text@ == reply_text(*failure),
{
    match failure {
        Failure::NotEnoughArguments { min, given } => arity_sentence(
            "Command needs at least ",
            *min,
        ),
        Failure::TooManyArguments { max, given } => arity_sentence("Command takes at most ", *max),
        Failure::CheckFailed { check, reason } => {
            let sentence = reason.message();
            chars_of(sentence.as_str())
        },
        Failure::Handler { message } => chars_of(message.as_str()),
    }
}

/// What the log says of `failure`.
pub fn detail_for(failure: &Failure) -> (text: Vec<char>)
    ensures
        text@ == detail_text(*failure),
{
    match failure {
        Failure::NotEnoughArguments { min, given } => arity_detail(
            "not enough arguments: ",
            *given,
            " given, at least ",
            *min,
        ),
        Failure::TooManyArguments { max, given } => arity_detail(
            "too many arguments: ",
            *given,
            " given, at most ",
            *max,
        ),
        Failure::CheckFailed { check, reason } => {
            let mut out: Vec<char> = Vec::new();
            push_str(&mut out, "check '");
            let name = check.name();
            push_str(&mut out, name.as_str());
            push_str(&mut out, "' failed: ");
            let sentence = reason.message();
            push_str(&mut out, sentence.as_str());
            out
        },
        Failure::Handler { message } => chars_of(message.as_str()),
    }
}

/// Turns the outcome of the command `command` on the message `content` into
/// what is to be done about it: one line for the log, and one reply where
/// the outcome is a failure.
pub fn report(command: &str, content: &str, outcome: &Outcome) -> (r: Report)
    ensures
        reported(command@, content@, *outcome, r),
{
    let mut log: Vec<char> = Vec::new();
    push_str(&mut log, "Command '");
    push_str(&mut log, command);
    match outcome {
        Outcome::Success => {
            push_str(&mut log, "' processed message: ");
            push_str(&mut log, content);
            Report { reply: None, log: string_of(&log) }
        },
        Outcome::Failure(failure) => {
            push_str(&mut log, "' returned error. Message: ");
            push_str(&mut log, content);
            push_str(&mut log, ", Error: ");
            push_all(&mut log, &detail_for(failure));
            let shown = reply_for(failure);
            Report {
                reply: Some(
                    ErrorReply { title: None, description: string_of(&shown), colour: ERROR_COLOUR },
                ),
                log: string_of(&log),
            }
        },
    }
}

/// Every failure is shown to the user, and no success is.
pub proof fn law_reply_only_for_failure(
    command: Seq<char>,
    content: Seq<char>,
    outcome: Outcome,
    r: Report,
)
    requires
        reported(command, content, outcome, r),
    ensures
        r.reply is Some <==> outcome is Failure,
{
}

/// The reply that shows `message` as an error, under `title` if there is one.
pub fn error_reply(title: Option<String>, message: &str) -> (reply: ErrorReply)
    ensures
        reply.title == title,
        reply.description@ == message@,
        reply.colour == ERROR_COLOUR,
{
    let mut text: Vec<char> = Vec::new();
    push_str(&mut text, message);
    ErrorReply { title, description: string_of(&text), colour: ERROR_COLOUR }
}

} // verus!
