//! Help lookup: the command that goes by a name, or else the registered
//! names that are close to it.

use vstd::prelude::*;
use crate::distance::{edit_distance, levenshtein};
use crate::embed::{Embed, EmbedModel};
use crate::registry::{first_with_name, Command, Registry};
use crate::text::{
    chars_of, decimal, decimal_of, join, joined_with, owned, push_all, push_str, quoted,
    string_of,
};

verus! {

/// The greatest edit distance at which a registered name is still suggested.
pub const MAX_DISTANCE: usize = 3;

/// The names and aliases of `commands`, command by command.
pub open spec fn all_names(commands: Seq<Command>) -> Seq<Seq<char>>
    decreases commands.len(),
{
    if commands.len() == 0 {
        Seq::empty()
    } else {
        all_names(commands.drop_last()) + commands.last().names()
    }
}

/// Those of `names` that lie within the distance `max` of `input`, in their
/// order.
pub open spec fn close_names(names: Seq<Seq<char>>, input: Seq<char>, max: nat) -> Seq<Seq<char>> {
    names.filter(|name: Seq<char>| edit_distance(name, input) <= max)
}

/// The position in `distances` of the least distance, the first of them if
/// there are several; 0 for an empty list.
pub open spec fn closest(distances: Seq<nat>) -> int
    decreases distances.len(),
{
    if distances.len() <= 1 {
        0
    } else {
        let best = closest(distances.drop_last());
        if distances.last() < distances[best] {
            distances.len() - 1
        } else {
            best
        }
    }
}

/// The sentence for a name that no command goes by or comes close to.
pub open spec fn not_found_text(input: Seq<char>) -> Seq<char> {
    "Could not find: `"@ + input + "`."@
}

/// A registered name that is close to what was asked for.
#[derive(Debug)]
pub struct Suggestion {
    pub name: String,
    pub distance: usize,
}

/// The names of a list of suggestions.
pub open spec fn suggested_names(list: Seq<Suggestion>) -> Seq<Seq<char>> {
    list.map_values(|s: Suggestion| s.name@)
}

/// The distances of a list of suggestions.
pub open spec fn suggested_distances(list: Seq<Suggestion>) -> Seq<nat> {
    list.map_values(|s: Suggestion| s.distance as nat)
}

/// What a help lookup found.
#[derive(Debug)]
pub enum HelpAnswer {
    /// The command with this index goes by the name.
    Command(usize),
    /// No command goes by the name; these registered names are close to it.
    /// `best` is the position of the closest of them.
    Suggestions { names: Vec<Suggestion>, best: usize },
    /// No command goes by the name and none comes close.
    NotFound(String),
}

/// The names and aliases of the registry's commands, command by command.
pub fn names_of(registry: &Registry) -> (names: Vec<Vec<char>>)
    ensures
        names@.map_values(|n: Vec<char>| n@) == all_names(registry@),
{
    let mut names: Vec<Vec<char>> = Vec::new();
    let mut i: usize = 0;
    while i < registry.len()
        invariant
            i <= registry@.len(),
            names@.map_values(|n: Vec<char>| n@) == all_names(registry@.take(i as int)),
        decreases registry@.len() - i,
    {
        let command = registry.get(i);
        let ghost before = names@.map_values(|n: Vec<char>| n@);
        names.push(chars_of(command.name.as_str()));
        let mut k: usize = 0;
        while k < command.aliases.len()
            invariant
                k <= command.aliases.len(),
                *command == registry@[i as int],
                names@.map_values(|n: Vec<char>| n@) == before + command.names().take(k + 1),
            decreases command.aliases.len() - k,
        {
            let ghost prev = names@.map_values(|n: Vec<char>| n@);
            names.push(chars_of(command.aliases[k].as_str()));
            proof {
                assert(command.names().take(k + 2) == command.names().take(k + 1).push(
                    command.names()[k + 1],
                ));
                assert(names@.map_values(|n: Vec<char>| n@) == prev.push(
                    command.aliases[k as int]@,
                ));
            }
            k += 1;
        }
        proof {
            let next = registry@.take(i + 1);
            assert(next.drop_last() == registry@.take(i as int));
        }
        i += 1;
    }
    proof {
        assert(registry@.take(registry@.len() as int) == registry@);
    }
    names
}

/// The registered names within the distance `max` of `input`, each with its
/// distance, in the order of the registry.
pub fn suggest(registry: &Registry, input: &str, max: usize) -> (list: Vec<Suggestion>)
    ensures
        suggested_names(list@) == close_names(all_names(registry@), input@, max as nat),
        forall|i: int|
            0 <= i < list.len() ==> (#[trigger] list[i]).distance == edit_distance(
                list[i].name@,
                input@,
            ),
        forall|i: int| 0 <= i < list.len() ==> (#[trigger] list[i]).distance <= max,
{
    let wanted = chars_of(input);
    let names = names_of(registry);
    let ghost all = names@.map_values(|n: Vec<char>| n@);
    let ghost near = |name: Seq<char>| edit_distance(name, input@) <= max as nat;
    let mut list: Vec<Suggestion> = Vec::new();
    let mut i: usize = 0;
    while i < names.len()
        invariant
            i <= names.len(),
            wanted@ == input@,
            all == names@.map_values(|n: Vec<char>| n@),
            near == |name: Seq<char>| edit_distance(name, input@) <= max as nat,
            suggested_names(list@) == all.take(i as int).filter(near),
            forall|k: int|
                0 <= k < list.len() ==> (#[trigger] list[k]).distance == edit_distance(
                    list[k].name@,
                    input@,
                ),
            forall|k: int| 0 <= k < list.len() ==> (#[trigger] list[k]).distance <= max,
        decreases names.len() - i,
    {
        let distance = levenshtein(&names[i], &wanted);
        proof {
            assert(all.take(i + 1) == all.take(i as int).push(all[i as int]));
            Seq::lemma_filter_push(all.take(i as int), all[i as int], near);
        }
        if distance <= max {
            list.push(Suggestion { name: string_of(&names[i]), distance });
        }
        i += 1;
    }
    proof {
        assert(all.take(names.len() as int) == all);
    }
    list
}

/// The position of the closest suggestion, the first of them if several are
/// equally close.
pub fn closest_of(list: &Vec<Suggestion>) -> (best: usize)
    ensures
        best == closest(suggested_distances(list@)),
        list.len() > 0 ==> best < list.len(),
{
    let ghost distances = suggested_distances(list@);
    let mut best: usize = 0;
    let mut i: usize = 1;
    if list.len() <= 1 {
        return 0;
    }
    while i < list.len()
        invariant
            1 <= i <= list.len(),
            best < i,
            distances == suggested_distances(list@),
            best == closest(distances.take(i as int)),
        decreases list.len() - i,
    {
        proof {
            let next = distances.take(i + 1);
            assert(next.drop_last() == distances.take(i as int));
        }
        if list[i].distance < list[best].distance {
            best = i;
        }
        i += 1;
    }
    proof {
        assert(distances.take(list.len() as int) == distances);
    }
    best
}

/// The sentence for a name that no command goes by or comes close to.
pub fn not_found_message(input: &str) -> (m: String)
    ensures
        m@ == not_found_text(input@),
{
    let mut out: Vec<char> = Vec::new();
    push_str(&mut out, "Could not find: `");
    push_str(&mut out, input);
    push_str(&mut out, "`.");
    string_of(&out)
}

/// Whether `answer` is what the help says of `name` over `commands`: the
/// command that goes by exactly this name; else the registered names within
/// `MAX_DISTANCE` of it, each with its distance, and the closest of them;
/// else the sentence that nothing was found.
pub open spec fn answers(commands: Seq<Command>, name: Seq<char>, answer: HelpAnswer) -> bool {
    match answer {
        HelpAnswer::Command(i) => first_with_name(commands, name) == Some(i as int),
        HelpAnswer::Suggestions { names, best } => {
            &&& first_with_name(commands, name) is None
            &&& names.len() > 0
            &&& suggested_names(names@) == close_names(
                all_names(commands),
                name,
                MAX_DISTANCE as nat,
            )
            &&& forall|i: int|
                0 <= i < names.len() ==> (#[trigger] names[i]).distance == edit_distance(
                    names[i].name@,
                    name,
                )
            &&& best == closest(suggested_distances(names@))
            &&& best < names.len()
        },
        HelpAnswer::NotFound(message) => {
            &&& first_with_name(commands, name) is None
            &&& close_names(all_names(commands), name, MAX_DISTANCE as nat).len() == 0
            &&& message@ == not_found_text(name)
        },
    }
}

/// Looks `name` up for the help.
pub fn lookup(registry: &Registry, name: &str) -> (answer: HelpAnswer)
    ensures
        answers(registry@, name@, answer),
{
    match registry.resolve(name) {
        Some(i) => HelpAnswer::Command(i),
        None => {
            let names = suggest(registry, name, MAX_DISTANCE);
            if names.len() == 0 {
                HelpAnswer::NotFound(not_found_message(name))
            } else {
                let best = closest_of(&names);
                HelpAnswer::Suggestions { names, best }
            }
        },
    }
}

/// The tip that stands over the list of commands.
pub open spec fn tip_text() -> Seq<char> {
    "If you want more information about a specific command, just pass the command as argument.\n"@
}

/// The canonical names of `commands`, each between backticks.
pub open spec fn quoted_names(commands: Seq<Command>) -> Seq<Seq<char>> {
    commands.map_values(|c: Command| quoted(c.name@))
}

/// The message that lists the commands: the tip, then the canonical names
/// with a comma and a blank between each two.
pub open spec fn overview_model(commands: Seq<Command>) -> EmbedModel {
    EmbedModel::titled("Commands"@, tip_text() + joined_with(quoted_names(commands), ", "@))
}

/// The message that lists the commands of the registry.
pub fn overview(registry: &Registry) -> (e: Embed)
    ensures
        e@ == overview_model(registry@),
{
    let ghost wanted = quoted_names(registry@);
    let mut parts: Vec<Vec<char>> = Vec::new();
    let mut i: usize = 0;
    while i < registry.len()
        invariant
            i <= registry@.len(),
            wanted == quoted_names(registry@),
            parts@.map_values(|p: Vec<char>| p@) == wanted.take(i as int),
        decreases registry@.len() - i,
    {
        let mut part: Vec<char> = Vec::new();
        push_str(&mut part, "`");
        push_str(&mut part, registry.get(i).name.as_str());
        push_str(&mut part, "`");
        proof {
            assert(wanted.take(i + 1) == wanted.take(i as int).push(wanted[i as int]));
        }
        parts.push(part);
        i += 1;
    }
    proof {
        assert(wanted.take(registry@.len() as int) == wanted);
    }
    let mut text: Vec<char> = Vec::new();
    push_str(
        &mut text,
        "If you want more information about a specific command, just pass the command as argument.\n",
    );
    let names = join(&parts, ", ");
    push_all(&mut text, &names);
    Embed::titled(owned("Commands"), string_of(&text))
}

/// What the help says of one command: how many arguments it needs at
/// least, and its aliases if it has any.
pub open spec fn command_text(command: Command) -> Seq<char> {
    "At least "@ + decimal(command.min_args as nat) + " arguments"@ + (if command.aliases.len()
        == 0 {
        Seq::empty()
    } else {
        "\nAliases: "@ + joined_with(command.aliases@.map_values(|a: String| a@), ", "@)
    })
}

/// The message that tells of one command.
pub fn describe(command: &Command) -> (e: Embed)
    ensures
        e@ == EmbedModel::titled(command.name@, command_text(*command)),
{
    let mut text: Vec<char> = Vec::new();
    push_str(&mut text, "At least ");
    push_all(&mut text, &decimal_of(command.min_args as u64));
    push_str(&mut text, " arguments");
    if command.aliases.len() > 0 {
        let ghost wanted = command.aliases@.map_values(|a: String| a@);
        let mut parts: Vec<Vec<char>> = Vec::new();
        let mut i: usize = 0;
        while i < command.aliases.len()
            invariant
                i <= command.aliases.len(),
                wanted == command.aliases@.map_values(|a: String| a@),
                parts@.map_values(|p: Vec<char>| p@) == wanted.take(i as int),
            decreases command.aliases.len() - i,
        {
            let ghost before = parts@.map_values(|p: Vec<char>| p@);
            let part = chars_of(command.aliases[i].as_str());
            proof {
                assert(wanted.take(i + 1) == wanted.take(i as int).push(wanted[i as int]));
            }
            parts.push(part);
            i += 1;
        }
        proof {
            assert(wanted.take(command.aliases.len() as int) == wanted);
        }
        let ghost before = text@;
        push_str(&mut text, "\nAliases: ");
        let names = join(&parts, ", ");
        push_all(&mut text, &names);
        assert(text@ == before + ("\nAliases: "@ + names@));
    }
    Embed::titled(owned(command.name.as_str()), string_of(&text))
}

/// The question that offers the names `names`.
pub open spec fn suggestion_text(names: Seq<Seq<char>>) -> Seq<char> {
    "Did you mean `"@ + joined_with(names, "`, `"@) + "`?"@
}

/// The question that offers the suggested names, in their order.
pub fn suggestion_message(list: &Vec<Suggestion>) -> (m: String)
    ensures
        m@ == suggestion_text(suggested_names(list@)),
{
    let ghost wanted = suggested_names(list@);
    let mut parts: Vec<Vec<char>> = Vec::new();
    let mut i: usize = 0;
    while i < list.len()
        invariant
            i <= list.len(),
            wanted == suggested_names(list@),
            parts@.map_values(|p: Vec<char>| p@) == wanted.take(i as int),
        decreases list.len() - i,
    {
        let part = chars_of(list[i].name.as_str());
        proof {
            assert(wanted.take(i + 1) == wanted.take(i as int).push(wanted[i as int]));
        }
        parts.push(part);
        i += 1;
    }
    proof {
        assert(wanted.take(list.len() as int) == wanted);
    }
    let mut text: Vec<char> = Vec::new();
    push_str(&mut text, "Did you mean `");
    let names = join(&parts, "`, `");
    push_all(&mut text, &names);
    push_str(&mut text, "`?");
    string_of(&text)
}

} // verus!
