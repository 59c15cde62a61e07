//! The dispatcher: from one message to what is to be done about it.

use vstd::prelude::*;
use crate::checks::{
    evaluate_all, evaluations, first_failure, lemma_first_failure, InvocationContext,
};
use crate::cursor::{skip_spaces_from, token_end_from, ArgumentCursor, CursorModel};
use crate::help::{answers, lookup, HelpAnswer};
use crate::registry::{first_with_name, lemma_first_with_name, Command, Registry};
use crate::report::Failure;
use crate::text::{chars_of, decimal, decimal_of, push_all, push_str, same_chars, slice_of, string_of};

verus! {

/// How a message addresses the bot.
#[derive(Debug)]
pub struct Addressing {
    /// The literal prefixes, tried in their order.
    pub prefixes: Vec<String>,
    /// The bot's own user id: a mention of it at the start of a message
    /// counts as a prefix, and is tried before the literal ones.
    pub mention: Option<u64>,
    /// The name under which the help is asked for, if the help is on.
    pub help: Option<String>,
    /// Whether messages that bots sent are passed over.
    pub ignore_bots: bool,
}

/// The two forms of a mention of the user `id`.
pub open spec fn mention_text(id: u64, nick: bool) -> Seq<char> {
    (if nick {
        "<@!"@
    } else {
        "<@"@
    }) + decimal(id as nat) + ">"@
}

/// What is left of `text` behind the first of `prefixes` that it begins with.
pub open spec fn strip_literal(prefixes: Seq<String>, text: Seq<char>) -> Option<Seq<char>>
    decreases prefixes.len(),
{
    if prefixes.len() == 0 {
        None
    } else if prefixes[0]@.is_prefix_of(text) {
        Some(text.skip(prefixes[0]@.len() as int))
    } else {
        strip_literal(prefixes.drop_first(), text)
    }
}

/// What is left of `text` behind a mention of the user `id`.
pub open spec fn strip_mention(id: u64, text: Seq<char>) -> Option<Seq<char>> {
    if mention_text(id, false).is_prefix_of(text) {
        Some(text.skip(mention_text(id, false).len() as int))
    } else if mention_text(id, true).is_prefix_of(text) {
        Some(text.skip(mention_text(id, true).len() as int))
    } else {
        None
    }
}

/// What is left of `text` behind the prefix that addresses the bot; `None`
/// for a message that does not address it.
pub open spec fn strip_prefix(addressing: Addressing, text: Seq<char>) -> Option<Seq<char>> {
    match addressing.mention {
        Some(id) => match strip_mention(id, text) {
            Some(rest) => Some(rest),
            None => strip_literal(addressing.prefixes@, text),
        },
        None => strip_literal(addressing.prefixes@, text),
    }
}

/// The text behind the first token of `body`: the arguments of the command
/// that the first token names.
pub open spec fn argument_text(body: Seq<char>) -> Seq<char> {
    body.skip(CursorModel::start(body).consume().pos)
}

/// What keeps `command` from running when it is given `given` arguments in
/// the context `ctx`: too few arguments, too many, or the first of its checks
/// that does not pass, in this order.
pub open spec fn refusal(command: Command, given: nat, ctx: InvocationContext) -> Option<Failure> {
    if given < command.min_args {
        Some(Failure::NotEnoughArguments { min: command.min_args, given: given as usize })
    } else if command.max_args is Some && given > command.max_args->0 {
        Some(Failure::TooManyArguments { max: command.max_args->0, given: given as usize })
    } else {
        match first_failure(command.checks@, ctx) {
            Some(i) => Some(
                Failure::CheckFailed {
                    check: command.checks[i],
                    reason: command.checks[i].reason(),
                },
            ),
            None => None,
        }
    }
}

/// How many checks of `command` are evaluated before it is admitted or
/// refused: none where the number of arguments is wrong.
pub open spec fn admission_evaluations(command: Command, given: nat, ctx: InvocationContext) -> nat {
    if given < command.min_args || (command.max_args is Some && given > command.max_args->0) {
        0
    } else {
        evaluations(command.checks@, ctx)
    }
}

/// Whether `prefix` stands at the start of `text`.
pub fn starts_with(text: &Vec<char>, prefix: &Vec<char>) -> (r: bool)
    ensures
        r == prefix@.is_prefix_of(text@),
{
    if prefix.len() > text.len() {
        return false;
    }
    let mut i: usize = 0;
    while i < prefix.len()
        invariant
            i <= prefix.len() <= text.len(),
            forall|k: int| 0 <= k < i ==> prefix[k] == text[k],
        decreases prefix.len() - i,
    {
        if prefix[i] != text[i] {
            return false;
        }
        i += 1;
    }
    true
}

/// The mention of the user `id`, in one of its two forms.
pub fn mention_of(id: u64, nick: bool) -> (m: Vec<char>)
    ensures
        m@ == mention_text(id, nick),
{
    let mut out: Vec<char> = Vec::new();
    if nick {
        push_str(&mut out, "<@!");
    } else {
        push_str(&mut out, "<@");
    }
    let digits = decimal_of(id);
    push_all(&mut out, &digits);
    push_str(&mut out, ">");
    out
}

/// The length of the prefix with which `text` addresses the bot.
pub fn prefix_length(addressing: &Addressing, text: &Vec<char>) -> (r: Option<usize>)
    ensures
        match r {
            Some(n) => n <= text.len() && strip_prefix(*addressing, text@) == Some(
                text@.skip(n as int),
            ),
            None => strip_prefix(*addressing, text@) is None,
        },
{
    match addressing.mention {
        Some(id) => {
            let plain = mention_of(id, false);
            if starts_with(text, &plain) {
                return Some(plain.len());
            }
            let nick = mention_of(id, true);
            if starts_with(text, &nick) {
                return Some(nick.len());
            }
        },
        None => {},
    }
    let mut i: usize = 0;
    assert(addressing.prefixes@.skip(0) == addressing.prefixes@);
    while i < addressing.prefixes.len()
        invariant
            i <= addressing.prefixes.len(),
            strip_prefix(*addressing, text@) == strip_literal(
                addressing.prefixes@.skip(i as int),
                text@,
            ),
        decreases addressing.prefixes.len() - i,
    {
        let prefix = chars_of(addressing.prefixes[i].as_str());
        let ghost rest = addressing.prefixes@.skip(i as int);
        proof {
            assert(rest.drop_first() == addressing.prefixes@.skip(i + 1));
        }
        if starts_with(text, &prefix) {
            return Some(prefix.len());
        }
        i += 1;
    }
    None
}

/// Whether a command was admitted.
#[derive(Debug)]
pub struct Admission {
    /// What kept the command from running, if anything did.
    pub failure: Option<Failure>,
    /// How many of the command's checks were evaluated.
    pub evaluated: usize,
}

/// Holds `command`, given `given` arguments in the context `ctx`, to its
/// arity and then to its checks, in their order.
pub fn screen_command(command: &Command, given: usize, ctx: &InvocationContext) -> (run: Admission)
    ensures
        run.failure == refusal(*command, given as nat, *ctx),
        run.evaluated == admission_evaluations(*command, given as nat, *ctx),
{
    if given < command.min_args {
        return Admission {
            failure: Some(Failure::NotEnoughArguments { min: command.min_args, given }),
            evaluated: 0,
        };
    }
    match command.max_args {
        Some(max) => {
            if given > max {
                return Admission {
                    failure: Some(Failure::TooManyArguments { max, given }),
                    evaluated: 0,
                };
            }
        },
        None => {},
    }
    let run = evaluate_all(&command.checks, ctx);
    match run.failure {
        Some((check, reason)) => Admission {
            failure: Some(Failure::CheckFailed { check, reason }),
            evaluated: run.evaluated,
        },
        None => Admission { failure: None, evaluated: run.evaluated },
    }
}

/// What a message asks for.
#[derive(Debug)]
pub enum Resolution {
    /// Nothing: the message does not address the bot, or names no command.
    Ignored,
    /// The help was asked for without a name: the commands are to be listed.
    HelpOverview,
    /// The help was asked for a name.
    Help(HelpAnswer),
    /// The command with this index, with these arguments.
    Command { command: usize, args: ArgumentCursor },
}

/// What is to be done about one message.
#[derive(Debug)]
pub enum Dispatch {
    /// Nothing: the message does not address the bot, or names no command.
    Ignored,
    /// The help was asked for without a name: the commands are to be listed.
    HelpOverview,
    /// The help was asked for a name.
    Help(HelpAnswer),
    /// The command was found and refused: the failure is to be reported and
    /// the handler is not to be run.
    Failed { command: usize, failure: Failure },
    /// The handler of the command is to be run on the arguments.
    Invoke { command: usize, args: ArgumentCursor },
}

/// What a message asks for, as a value of mathematics.
pub enum Target {
    Ignored,
    HelpOverview,
    /// The help for this name.
    Help(Seq<char>),
    /// The command with this index, with these arguments.
    Command(int, CursorModel),
}

/// What the message `content` asks for. A message of a bot asks for
/// nothing where bots are passed over, nor does a message without a prefix
/// or without a word behind it. The first word behind the prefix is the
/// name: that of the help, which then looks at the word behind it, or that
/// of a command, whose arguments are the text behind the name.
pub open spec fn target(
    commands: Seq<Command>,
    addressing: Addressing,
    from_bot: bool,
    content: Seq<char>,
) -> Target {
    if addressing.ignore_bots && from_bot {
        Target::Ignored
    } else {
        match strip_prefix(addressing, content) {
            None => Target::Ignored,
            Some(body) => {
                let name = CursorModel::start(body).token();
                let args = CursorModel::start(argument_text(body));
                if !CursorModel::start(body).has_token() {
                    Target::Ignored
                } else if addressing.help is Some && addressing.help->0@ == name {
                    if args.has_token() {
                        Target::Help(args.token())
                    } else {
                        Target::HelpOverview
                    }
                } else {
                    match first_with_name(commands, name) {
                        None => Target::Ignored,
                        Some(i) => Target::Command(i, args),
                    }
                }
            },
        }
    }
}

/// Whether `r` is what the message `content` asks for.
pub open spec fn resolved(
    commands: Seq<Command>,
    addressing: Addressing,
    from_bot: bool,
    content: Seq<char>,
    r: Resolution,
) -> bool {
    match target(commands, addressing, from_bot, content) {
        Target::Ignored => r is Ignored,
        Target::HelpOverview => r is HelpOverview,
        Target::Help(name) => r matches Resolution::Help(answer) && answers(commands, name, answer),
        Target::Command(i, args) => r matches Resolution::Command { command, args: cursor }
            && command == i && command < commands.len() && cursor.wf() && cursor@ == args,
    }
}

/// Whether `d` is what is to be done about the command `command`, which
/// has the index `index`, asked for with the arguments `args` in the
/// context `ctx`: its failure is to be reported where it is refused, and
/// its handler is to be run on the arguments where it is not.
pub open spec fn screened(
    command: Command,
    index: int,
    args: CursorModel,
    ctx: InvocationContext,
    d: Dispatch,
) -> bool {
    match refusal(command, args.remaining(), ctx) {
        Some(f) => d matches Dispatch::Failed { command: found, failure } && found == index
            && failure == f,
        None => d matches Dispatch::Invoke { command: found, args: cursor } && found == index
            && cursor.wf() && cursor@ == args,
    }
}

/// Whether `d` is what is to be done about the message `content`.
pub open spec fn dispatched(
    commands: Seq<Command>,
    addressing: Addressing,
    from_bot: bool,
    content: Seq<char>,
    ctx: InvocationContext,
    d: Dispatch,
) -> bool {
    match target(commands, addressing, from_bot, content) {
        Target::Ignored => d is Ignored,
        Target::HelpOverview => d is HelpOverview,
        Target::Help(name) => d matches Dispatch::Help(answer) && answers(commands, name, answer),
        Target::Command(i, args) => screened(commands[i], i, args, ctx, d),
    }
}

/// Finds out what the message `content` asks for: strips the prefix, takes
/// the first token as the name, and resolves it. Nothing of the member or
/// the channel is needed for this.
pub fn resolve(registry: &Registry, addressing: &Addressing, from_bot: bool, content: &str) -> (r:
    Resolution)
    ensures
        resolved(registry@, *addressing, from_bot, content@, r),
{
    if addressing.ignore_bots && from_bot {
        return Resolution::Ignored;
    }
    let text = chars_of(content);
    let n = match prefix_length(addressing, &text) {
        Some(n) => n,
        None => {
            return Resolution::Ignored;
        },
    };
    let body = slice_of(&text, n, text.len());
    let start = skip_spaces_from(&body, 0);
    if start >= body.len() {
        return Resolution::Ignored;
    }
    let end = token_end_from(&body, start);
    let name = slice_of(&body, start, end);
    let rest = slice_of(&body, end, body.len());
    let mut args = ArgumentCursor::from_chars(rest);
    let asks_help = match &addressing.help {
        Some(help) => {
            let help_name = chars_of(help.as_str());
            same_chars(&help_name, &name)
        },
        None => false,
    };
    if asks_help {
        return match args.single() {
            Ok(token) => Resolution::Help(lookup(registry, token.as_str())),
            Err(_) => Resolution::HelpOverview,
        };
    }
    let name_text = string_of(&name);
    match registry.resolve(name_text.as_str()) {
        None => Resolution::Ignored,
        Some(command) => Resolution::Command { command, args },
    }
}

/// Decides what is to be done about the command `command`, which has the
/// index `index`, asked for with the arguments `args` in the context `ctx`:
/// holds it to its arity and its checks. The handler is to be run only
/// where `Invoke` comes back.
pub fn decide(command: &Command, index: usize, args: ArgumentCursor, ctx: &InvocationContext) -> (d:
    Dispatch)
    requires
        args.wf(),
    ensures
        screened(*command, index as int, args@, *ctx, d),
{
    let given = args.len();
    let run = screen_command(command, given, ctx);
    match run.failure {
        Some(failure) => Dispatch::Failed { command: index, failure },
        None => Dispatch::Invoke { command: index, args },
    }
}

/// Decides what is to be done about the message `content`, sent in the
/// context `ctx`: finds out what it asks for and, where that is a command,
/// holds the command to its arity and its checks.
pub fn dispatch(
    registry: &Registry,
    addressing: &Addressing,
    from_bot: bool,
    content: &str,
    ctx: &InvocationContext,
) -> (d: Dispatch)
    ensures
        dispatched(registry@, *addressing, from_bot, content@, *ctx, d),
{
    match resolve(registry, addressing, from_bot, content) {
        Resolution::Ignored => Dispatch::Ignored,
        Resolution::HelpOverview => Dispatch::HelpOverview,
        Resolution::Help(answer) => Dispatch::Help(answer),
        Resolution::Command { command, args } => decide(registry.get(command), command, args, ctx),
    }
}

/// With fewer arguments than the command's minimum the command is refused
/// with the arity failure that holds exactly these two numbers, and no check
/// is evaluated, whatever the context.
pub proof fn law_too_few_arguments(command: Command, given: nat, ctx: InvocationContext)
    requires
        given < command.min_args,
    ensures
        refusal(command, given, ctx) == Some(
            Failure::NotEnoughArguments { min: command.min_args, given: given as usize },
        ),
        admission_evaluations(command, given, ctx) == 0,
{
}

/// The handler is run only for a command that was admitted: one that the
/// message names, with enough arguments and with every check passed.
pub proof fn law_invoke_was_admitted(
    commands: Seq<Command>,
    addressing: Addressing,
    from_bot: bool,
    content: Seq<char>,
    ctx: InvocationContext,
    d: Dispatch,
)
    requires
        dispatched(commands, addressing, from_bot, content, ctx, d),
        d is Invoke,
    ensures
        0 <= d->Invoke_command < commands.len(),
        target(commands, addressing, from_bot, content) == Target::Command(
            d->Invoke_command as int,
            d->Invoke_args@,
        ),
        d->Invoke_args@.remaining() >= commands[d->Invoke_command as int].min_args,
        first_failure(commands[d->Invoke_command as int].checks@, ctx) is None,
{
    let body = strip_prefix(addressing, content)->0;
    lemma_first_with_name(commands, CursorModel::start(body).token());
}

/// Where a check refuses the command, the checks were evaluated up to the
/// first that does not pass and no further.
pub proof fn law_admission_short_circuit(command: Command, given: nat, ctx: InvocationContext)
    requires
        refusal(command, given, ctx) matches Some(Failure::CheckFailed { check, reason }),
    ensures
        first_failure(command.checks@, ctx) is Some,
        admission_evaluations(command, given, ctx) == first_failure(command.checks@, ctx)->0 + 1,
{
    lemma_first_failure(command.checks@, ctx);
}

} // verus!
