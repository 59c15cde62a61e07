//! The command registry: every command under its name and its aliases, no
//! name twice.

use vstd::prelude::*;
use crate::checks::Check;
use crate::text::{chars_of, same_chars};

verus! {

/// A command as it is registered.
#[derive(Debug)]
pub struct Command {
    /// The canonical name.
    pub name: String,
    /// Further names under which the command is found.
    pub aliases: Vec<String>,
    /// The checks that must pass before the command runs, in their order.
    pub checks: Vec<Check>,
    /// The least number of arguments.
    pub min_args: usize,
    /// The greatest number of arguments, if there is a limit.
    pub max_args: Option<usize>,
    /// The key under which the caller keeps the command's handler.
    pub handler: u32,
}

impl Command {
    /// The name and the aliases, in that order.
    pub open spec fn names(self) -> Seq<Seq<char>> {
        seq![self.name@] + self.aliases@.map_values(|a: String| a@)
    }

    /// Whether the command goes by `name`.
    pub fn has_name(&self, name: &Vec<char>) -> (r: bool)
        ensures
            r == self.names().contains(name@),
    {
        let own = chars_of(self.name.as_str());
        if same_chars(&own, name) {
            assert(self.names()[0] == name@);
            return true;
        }
        let mut i: usize = 0;
        while i < self.aliases.len()
            invariant
                i <= self.aliases.len(),
                self.name@ != name@,
                forall|k: int| 0 <= k < i ==> self.aliases[k]@ != name@,
            decreases self.aliases.len() - i,
        {
            let alias = chars_of(self.aliases[i].as_str());
            if same_chars(&alias, name) {
                assert(self.names()[i + 1] == name@);
                return true;
            }
            i += 1;
        }
        assert forall|k: int| 0 <= k < self.names().len() implies self.names()[k] != name@ by {}
        false
    }
}

/// Whether some command of `commands` goes by `name`.
pub open spec fn name_taken(commands: Seq<Command>, name: Seq<char>) -> bool {
    exists|i: int| 0 <= i < commands.len() && (#[trigger] commands[i]).names().contains(name)
}

/// No name occurs twice: not within a command, not in two commands.
pub open spec fn names_unique(commands: Seq<Command>) -> bool {
    &&& forall|i: int| 0 <= i < commands.len() ==> (#[trigger] commands[i]).names().no_duplicates()
    &&& forall|i: int, j: int, name: Seq<char>|
        0 <= i < commands.len() && 0 <= j < commands.len() && #[trigger] commands[i].names().contains(
            name,
        ) && #[trigger] commands[j].names().contains(name) ==> i == j
}

/// The index of the first command of `commands` that goes by `name`.
pub open spec fn first_with_name(commands: Seq<Command>, name: Seq<char>) -> Option<int>
    decreases commands.len(),
{
    if commands.len() == 0 {
        None
    } else {
        match first_with_name(commands.drop_last(), name) {
            Some(i) => Some(i),
            None => if commands.last().names().contains(name) {
                Some(commands.len() - 1)
            } else {
                None
            },
        }
    }
}

/// What `first_with_name` finds: a command that goes by the name, with none
/// before it that does; or nothing, where no command goes by the name.
pub proof fn lemma_first_with_name(commands: Seq<Command>, name: Seq<char>)
    ensures
        match first_with_name(commands, name) {
            Some(i) => 0 <= i < commands.len() && commands[i].names().contains(name) && forall|
                k: int,
            |
                0 <= k < i ==> !(#[trigger] commands[k]).names().contains(name),
            None => !name_taken(commands, name),
        },
    decreases commands.len(),
{
    if commands.len() > 0 {
        let front = commands.drop_last();
        lemma_first_with_name(front, name);
        assert forall|k: int| 0 <= k < front.len() implies front[k] == commands[k] by {}
        match first_with_name(front, name) {
            Some(i) => {},
            None => {
                if !commands.last().names().contains(name) {
                    assert forall|k: int| 0 <= k < commands.len() implies !(
                    #[trigger] commands[k]).names().contains(name) by {}
                } else {
                    assert forall|k: int| 0 <= k < commands.len() - 1 implies !(
                    #[trigger] commands[k]).names().contains(name) by {}
                }
            },
        }
    }
}

/// The index of the first command of `commands` that goes by `name`.
pub fn find_name(commands: &Vec<Command>, name: &Vec<char>) -> (r: Option<usize>)
    ensures
        match r {
            Some(i) => first_with_name(commands@, name@) == Some(i as int),
            None => first_with_name(commands@, name@) is None,
        },
{
    let mut i: usize = 0;
    while i < commands.len()
        invariant
            i <= commands.len(),
            first_with_name(commands@.take(i as int), name@) is None,
        decreases commands.len() - i,
    {
        let ghost next = commands@.take(i + 1);
        proof {
            assert(next.drop_last() == commands@.take(i as int));
        }
        if commands[i].has_name(name) {
            proof {
                lemma_first_of_prefix(commands@, name@, i + 1);
            }
            return Some(i);
        }
        i += 1;
    }
    proof {
        assert(commands@.take(commands.len() as int) == commands@);
    }
    None
}

/// A command found among the first `k` is the one found in the whole list.
pub proof fn lemma_first_of_prefix(commands: Seq<Command>, name: Seq<char>, k: int)
    requires
        0 <= k <= commands.len(),
        first_with_name(commands.take(k), name) is Some,
    ensures
        first_with_name(commands, name) == first_with_name(commands.take(k), name),
    decreases commands.len(),
{
    if k < commands.len() {
        assert(commands.drop_last().take(k) == commands.take(k));
        lemma_first_of_prefix(commands.drop_last(), name, k);
    } else {
        assert(commands.take(k) == commands);
    }
}

/// Whether the `k`-th name of `command` cannot be registered beside
/// `commands`: a command of `commands` goes by it, or an earlier name of
/// `command` is the same.
pub open spec fn clashes(commands: Seq<Command>, command: Command, k: int) -> bool {
    ||| name_taken(commands, command.names()[k])
    ||| exists|e: int| 0 <= e < k && #[trigger] command.names()[e] == command.names()[k]
}

/// The index of the first of the first `upto` names of `command` that clashes.
pub open spec fn first_clash(commands: Seq<Command>, command: Command, upto: int) -> Option<int>
    decreases upto,
{
    if upto <= 0 {
        None
    } else {
        match first_clash(commands, command, upto - 1) {
            Some(k) => Some(k),
            None => if clashes(commands, command, upto - 1) {
                Some(upto - 1)
            } else {
                None
            },
        }
    }
}

/// Whether `command` can be registered beside `commands`: none of its names
/// clashes.
pub open spec fn admits(commands: Seq<Command>, command: Command) -> bool {
    first_clash(commands, command, command.names().len() as int) is None
}

/// What `first_clash` finds: a name that clashes, with none before it that
/// does; or nothing, where none of the first `upto` names clashes.
pub proof fn lemma_first_clash(commands: Seq<Command>, command: Command, upto: int)
    ensures
        match first_clash(commands, command, upto) {
            Some(k) => 0 <= k < upto && clashes(commands, command, k) && forall|e: int|
                0 <= e < k ==> !clashes(commands, command, e),
            None => forall|e: int| 0 <= e < upto ==> !clashes(commands, command, e),
        },
    decreases upto,
{
    if upto > 0 {
        lemma_first_clash(commands, command, upto - 1);
    }
}

/// A clash among the first `k` names is the first clash among more names too.
pub proof fn lemma_first_clash_stays(commands: Seq<Command>, command: Command, k: int, n: int)
    requires
        k <= n,
        first_clash(commands, command, k) is Some,
    ensures
        first_clash(commands, command, n) == first_clash(commands, command, k),
    decreases n - k,
{
    if k < n {
        lemma_first_clash_stays(commands, command, k, n - 1);
    }
}

/// Beside commands whose names are unique, a command is admitted exactly if
/// the names stay unique with it.
pub proof fn lemma_admits_is_unique(commands: Seq<Command>, command: Command)
    requires
        names_unique(commands),
    ensures
        admits(commands, command) <==> names_unique(commands.push(command)),
{
    let all = commands.push(command);
    let names = command.names();
    let n = names.len() as int;
    lemma_first_clash(commands, command, n);
    assert forall|i: int| 0 <= i < commands.len() implies all[i] == commands[i] by {}
    if admits(commands, command) {
        assert forall|a: int, b: int| 0 <= a < n && 0 <= b < n && a != b implies names[a]
            != names[b] by {
            if a < b {
                assert(!clashes(commands, command, b));
            } else {
                assert(!clashes(commands, command, a));
            }
        }
        assert forall|i: int, j: int, name: Seq<char>|
            0 <= i < all.len() && 0 <= j < all.len() && #[trigger] all[i].names().contains(name)
                && #[trigger] all[j].names().contains(name) implies i == j by {
            if (i < commands.len()) != (j < commands.len()) {
                let k = choose|k: int| 0 <= k < names.len() && names[k] == name;
                assert(clashes(commands, command, k));
            }
        }
    } else {
        let k = first_clash(commands, command, n)->0;
        if name_taken(commands, names[k]) {
            assert(all[commands.len() as int].names().contains(names[k]));
        }
    }
}

/// A name that was refused: it is registered already, or the command that
/// was to be registered holds it twice.
#[derive(Debug)]
pub struct DuplicateNameError {
    pub name: String,
}

/// The registered commands. A command is known by its index, which it keeps:
/// commands are added at the end and never taken out.
#[derive(Debug)]
pub struct Registry {
    commands: Vec<Command>,
}

impl View for Registry {
    type V = Seq<Command>;

    closed spec fn view(&self) -> Seq<Command> {
        self.commands@
    }
}

impl Registry {
    /// Validity: no name or alias occurs twice.
    pub open spec fn wf(&self) -> bool {
        names_unique(self@)
    }

    /// A registry without commands.
    pub fn new() -> (r: Registry)
        ensures
            r.wf(),
            r@ == Seq::<Command>::empty(),
    {
        Registry { commands: Vec::new() }
    }

    /// The number of commands.
    pub fn len(&self) -> (n: usize)
        ensures
            n == self@.len(),
    {
        self.commands.len()
    }

    /// The command with the index `index`.
    pub fn get(&self, index: usize) -> (c: &Command)
        requires
            index < self@.len(),
        ensures
            *c == self@[index as int],
    {
        &self.commands[index]
    }

    /// Adds `command`, unless one of its names is registered already or it
    /// holds a name twice: then the registry stays as it is and the error
    /// holds the first such name.
    pub fn register(&mut self, command: Command) -> (r: Result<(), DuplicateNameError>)
        requires
            old(self).wf(),
        ensures
            final(self).wf(),
            match r {
                Ok(()) => admits(old(self)@, command) && final(self)@ == old(self)@.push(command),
                Err(e) => final(self)@ == old(self)@ && !admits(old(self)@, command) && e.name@
                    == command.names()[first_clash(
                    old(self)@,
                    command,
                    command.names().len() as int,
                )->0],
            },
    {
        let ghost names = command.names();
        let ghost n = names.len() as int;
        let name = chars_of(command.name.as_str());
        proof {
            lemma_first_with_name(self.commands@, names[0]);
        }
        if find_name(&self.commands, &name).is_some() {
            proof {
                assert(first_clash(self@, command, 0) is None);
                lemma_first_clash_stays(self@, command, 1, n);
            }
            return Err(DuplicateNameError { name: command.name.clone() });
        }
        let mut i: usize = 0;
        while i < command.aliases.len()
            invariant
                i <= command.aliases.len(),
                names == command.names(),
                n == names.len(),
                name@ == command.name@,
                self.commands@ == old(self).commands@,
                self.wf(),
                first_clash(self@, command, i + 1) is None,
            decreases command.aliases.len() - i,
        {
            let alias = chars_of(command.aliases[i].as_str());
            proof {
                lemma_first_with_name(self.commands@, alias@);
                lemma_first_clash(self@, command, i + 1);
            }
            let mut clash = find_name(&self.commands, &alias).is_some() || same_chars(&alias, &name);
            assert(names[0] == name@);
            let mut j: usize = 0;
            while !clash && j < i
                invariant
                    j <= i < command.aliases.len(),
                    names == command.names(),
                    alias@ == names[i + 1],
                    !clash ==> !name_taken(self@, alias@) && forall|e: int|
                        0 <= e < j + 1 ==> #[trigger] names[e] != names[i + 1],
                    clash ==> clashes(self@, command, i + 1),
                decreases i - j + (if clash { 0int } else { 1int }),
            {
                let earlier = chars_of(command.aliases[j].as_str());
                assert(names[j + 1] == earlier@);
                if same_chars(&earlier, &alias) {
                    clash = true;
                } else {
                    j += 1;
                }
            }
            if clash {
                proof {
                    lemma_first_clash_stays(self@, command, i + 2, n);
                }
                return Err(DuplicateNameError { name: command.aliases[i].clone() });
            }
            i += 1;
        }
        proof {
            lemma_admits_is_unique(self@, command);
        }
        self.commands.push(command);
        Ok(())
    }

    /// The index of the command that goes by `token`: by exactly these
    /// characters, capitals and small letters told apart.
    pub fn resolve(&self, token: &str) -> (r: Option<usize>)
        ensures
            match r {
                Some(i) => first_with_name(self@, token@) == Some(i as int) && i < self@.len()
                    && self@[i as int].names().contains(token@),
                None => first_with_name(self@, token@) is None && !name_taken(self@, token@),
            },
    {
        let name = chars_of(token);
        proof {
            lemma_first_with_name(self@, token@);
        }
        find_name(&self.commands, &name)
    }
}

/// Where the names of a list of commands are unique, so are those of each
/// beginning of the list.
pub proof fn lemma_unique_prefix(commands: Seq<Command>, k: int)
    requires
        0 <= k <= commands.len(),
        names_unique(commands),
    ensures
        names_unique(commands.take(k)),
{
    let front = commands.take(k);
    assert forall|i: int| 0 <= i < front.len() implies (#[trigger] front[i]).names().no_duplicates() by {}
    assert forall|i: int, j: int, name: Seq<char>|
        0 <= i < front.len() && 0 <= j < front.len() && #[trigger] front[i].names().contains(name)
            && #[trigger] front[j].names().contains(name) implies i == j by {}
}

/// Builds a registry of `commands`, registered in their order. It fails at the
/// first command that cannot be registered, with the name that clashes.
pub fn from_commands(commands: Vec<Command>) -> (r: Result<Registry, DuplicateNameError>)
    ensures
        match r {
            Ok(registry) => registry.wf() && registry@ == commands@ && names_unique(commands@),
            Err(e) => !names_unique(commands@) && exists|i: int|
                0 <= i < commands.len() && names_unique(commands@.take(i)) && !admits(
                    commands@.take(i),
                    #[trigger] commands[i],
                ) && e.name@ == commands[i].names()[first_clash(
                    commands@.take(i),
                    commands[i],
                    commands[i].names().len() as int,
                )->0],
        },
{
    let mut registry = Registry::new();
    let ghost all = commands@;
    for command in it: commands
        invariant
            registry.wf(),
            it.seq() == all,
            registry@ == all.take(it.index()),
    {
        let ghost done = it.index();
        match registry.register(command) {
            Ok(()) => {},
            Err(e) => {
                proof {
                    lemma_admits_is_unique(all.take(done), all[done]);
                    if names_unique(all) {
                        lemma_unique_prefix(all, done + 1);
                    }
                }
                return Err(e);
            },
        }
    }
    Ok(registry)
}

/// No two commands share a name or an alias: in a valid registry a name
/// belongs to one command only.
pub proof fn law_names_belong_to_one(registry: Registry, i: int, j: int, name: Seq<char>)
    requires
        registry.wf(),
        0 <= i < registry@.len(),
        0 <= j < registry@.len(),
        registry@[i].names().contains(name),
        registry@[j].names().contains(name),
    ensures
        i == j,
{
}

/// Resolving a name gives the one command that goes by it, however often it
/// is asked: every command that goes by the name is the one that is found.
pub proof fn law_resolve_is_stable(registry: Registry, name: Seq<char>, j: int)
    requires
        registry.wf(),
        0 <= j < registry@.len(),
        registry@[j].names().contains(name),
    ensures
        first_with_name(registry@, name) == Some(j),
{
    lemma_first_with_name(registry@, name);
    match first_with_name(registry@, name) {
        Some(i) => {},
        None => {},
    }
}

/// A command keeps its index: what a name resolved to before a command was
/// added, it resolves to afterwards.
pub proof fn law_register_keeps_commands(commands: Seq<Command>, command: Command, name: Seq<char>)
    requires
        first_with_name(commands, name) is Some,
    ensures
        first_with_name(commands.push(command), name) == first_with_name(commands, name),
{
    assert(commands.push(command).drop_last() == commands);
}

} // verus!
