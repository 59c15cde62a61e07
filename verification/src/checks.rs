//! Preconditions: the guards that a command declares and that must pass
//! before it runs.

use vstd::prelude::*;
use crate::text::{chars_of, string_of};

verus! {

/// The role that makes a member a moderator.
pub const MODERATOR_ROLE_ID: u64 = 134040353517862912;

/// A guard on the channel or on the member who invoked a command.
#[derive(Clone, Copy, Debug, PartialEq, Eq, Structural)]
pub enum Check {
    /// The channel is marked for sensitive content.
    Nsfw,
    /// The member is an administrator.
    Admin,
    /// The member is a moderator; an administrator counts as one.
    Moderator,
}

/// Why a check did not pass.
#[derive(Clone, Copy, Debug, PartialEq, Eq, Structural)]
pub enum Reason {
    ChannelNotRestricted,
    NotAdministrator,
    NotModerator,
}

/// What is known of one invocation. A `None` stands for something that could
/// not be found out; a check that needs it does not pass.
#[derive(Debug)]
pub struct InvocationContext {
    /// Whether the channel is marked for sensitive content.
    pub channel_restricted: Option<bool>,
    /// Whether the member's permissions include that of an administrator.
    pub administrator: Option<bool>,
    /// The ids of the member's roles.
    pub roles: Option<Vec<u64>>,
}

impl InvocationContext {
    /// Whether the member is known to be an administrator.
    pub open spec fn is_administrator(self) -> bool {
        self.administrator == Some(true)
    }

    /// Whether the member is known to hold the role of a moderator.
    pub open spec fn has_moderator_role(self) -> bool {
        self.roles matches Some(roles) && roles@.contains(MODERATOR_ROLE_ID)
    }
}

impl Check {
    /// Whether the check passes in the context `ctx`.
    pub open spec fn passes(self, ctx: InvocationContext) -> bool {
        match self {
            Check::Nsfw => ctx.channel_restricted == Some(true),
            Check::Admin => ctx.is_administrator(),
            Check::Moderator => ctx.is_administrator() || ctx.has_moderator_role(),
        }
    }

    /// The reason that the check gives when it does not pass.
    pub open spec fn reason(self) -> Reason {
        match self {
            Check::Nsfw => Reason::ChannelNotRestricted,
            Check::Admin => Reason::NotAdministrator,
            Check::Moderator => Reason::NotModerator,
        }
    }

    /// The verdict of the check in the context `ctx`.
    pub open spec fn verdict(self, ctx: InvocationContext) -> Result<(), Reason> {
        if self.passes(ctx) {
            Ok(())
        } else {
            Err(self.reason())
        }
    }

    /// The name under which the check is declared.
    pub open spec fn name_text(self) -> Seq<char> {
        match self {
            Check::Nsfw => "NSFW"@,
            Check::Admin => "Admin"@,
            Check::Moderator => "Moderator"@,
        }
    }

    /// The name under which the check is declared.
    pub fn name(&self) -> (n: String)
        ensures
            n@ == self.name_text(),
    {
        let text = match self {
            Check::Nsfw => chars_of("NSFW"),
            Check::Admin => chars_of("Admin"),
            Check::Moderator => chars_of("Moderator"),
        };
        string_of(&text)
    }

    /// Evaluates the check. It reads the context and changes nothing, so it
    /// gives the same verdict however often it is asked.
    pub fn evaluate(&self, ctx: &InvocationContext) -> (r: Result<(), Reason>)
        ensures
            r == self.verdict(*ctx),
        decreases (if *self == Check::Moderator { 1nat } else { 0nat }),
    {
        let passed = match self {
            Check::Nsfw => is_true(&ctx.channel_restricted),
            Check::Admin => is_true(&ctx.administrator),
            Check::Moderator => {
                if (Check::Admin).evaluate(ctx).is_ok() {
                    true
                } else {
                    match &ctx.roles {
                        Some(roles) => has_role(roles, MODERATOR_ROLE_ID),
                        None => false,
                    }
                }
            },
        };
        if passed {
            Ok(())
        } else {
            match self {
                Check::Nsfw => Err(Reason::ChannelNotRestricted),
                Check::Admin => Err(Reason::NotAdministrator),
                Check::Moderator => Err(Reason::NotModerator),
            }
        }
    }
}

impl Reason {
    /// The sentence shown to the user.
    pub open spec fn text(self) -> Seq<char> {
        match self {
            Reason::ChannelNotRestricted => "This command can only be used in nsfw-enabled channels"@,
            Reason::NotAdministrator => "This command can only be run as an administrator"@,
            Reason::NotModerator => "This command can only be run as a moderator"@,
        }
    }

    /// The sentence shown to the user. It names the missing right and holds
    /// nothing of how the context was found out.
    pub fn message(&self) -> (m: String)
        ensures
            m@ == self.text(),
    {
        let text = match self {
            Reason::ChannelNotRestricted => chars_of(
                "This command can only be used in nsfw-enabled channels",
            ),
            Reason::NotAdministrator => chars_of("This command can only be run as an administrator"),
            Reason::NotModerator => chars_of("This command can only be run as a moderator"),
        };
        string_of(&text)
    }
}

fn is_true(flag: &Option<bool>) -> (r: bool)
    ensures
        r == (*flag == Some(true)),
{
    match flag {
        Some(b) => *b,
        None => false,
    }
}

/// Whether `role` is among `roles`.
pub fn has_role(roles: &Vec<u64>, role: u64) -> (r: bool)
    ensures
        r == roles@.contains(role),
{
    let mut i: usize = 0;
    while i < roles.len()
        invariant
            i <= roles.len(),
            forall|k: int| 0 <= k < i ==> roles[k] != role,
        decreases roles.len() - i,
    {
        if roles[i] == role {
            return true;
        }
        i += 1;
    }
    false
}

/// The index of the first check of `checks` that does not pass, if any.
pub open spec fn first_failure(checks: Seq<Check>, ctx: InvocationContext) -> Option<int>
    decreases checks.len(),
{
    if checks.len() == 0 {
        None
    } else {
        match first_failure(checks.drop_last(), ctx) {
            Some(i) => Some(i),
            None => if checks.last().passes(ctx) {
                None
            } else {
                Some(checks.len() - 1)
            },
        }
    }
}

/// How many checks are evaluated: those up to the first that does not pass,
/// itself included.
pub open spec fn evaluations(checks: Seq<Check>, ctx: InvocationContext) -> nat {
    match first_failure(checks, ctx) {
        Some(i) => (i + 1) as nat,
        None => checks.len(),
    }
}

/// What a run through a command's checks gave.
#[derive(Debug)]
pub struct CheckRun {
    /// The first check that did not pass, with its reason.
    pub failure: Option<(Check, Reason)>,
    /// How many checks were evaluated.
    pub evaluated: usize,
}

/// Evaluates `checks` in their order and stops at the first that does not
/// pass: the checks behind it are not evaluated.
pub fn evaluate_all(checks: &Vec<Check>, ctx: &InvocationContext) -> (run: CheckRun)
    ensures
        run.evaluated == evaluations(checks@, *ctx),
        match first_failure(checks@, *ctx) {
            Some(i) => run.failure == Some((checks[i], checks[i].reason())),
            None => run.failure is None,
        },
{
    let mut i: usize = 0;
    while i < checks.len()
        invariant
            i <= checks.len(),
            first_failure(checks@.take(i as int), *ctx) is None,
        decreases checks.len() - i,
    {
        let ghost next = checks@.take(i + 1);
        proof {
            assert(next.drop_last() == checks@.take(i as int));
        }
        match checks[i].evaluate(ctx) {
            Ok(()) => {},
            Err(reason) => {
                proof {
                    lemma_first_failure_of_prefix(checks@, *ctx, i + 1);
                }
                return CheckRun { failure: Some((checks[i], reason)), evaluated: i + 1 };
            },
        }
        i += 1;
    }
    proof {
        assert(checks@.take(checks.len() as int) == checks@);
    }
    CheckRun { failure: None, evaluated: i }
}

/// A failure among the first `k` checks is the first failure of the whole list.
pub proof fn lemma_first_failure_of_prefix(checks: Seq<Check>, ctx: InvocationContext, k: int)
    requires
        0 <= k <= checks.len(),
        first_failure(checks.take(k), ctx) is Some,
    ensures
        first_failure(checks, ctx) == first_failure(checks.take(k), ctx),
    decreases checks.len(),
{
    if k < checks.len() {
        assert(checks.drop_last().take(k) == checks.take(k));
        lemma_first_failure_of_prefix(checks.drop_last(), ctx, k);
    } else {
        assert(checks.take(k) == checks);
    }
}

/// The first failure lies in the list, the check there does not pass, and
/// every check before it passes.
pub proof fn lemma_first_failure(checks: Seq<Check>, ctx: InvocationContext)
    ensures
        match first_failure(checks, ctx) {
            Some(i) => 0 <= i < checks.len() && !checks[i].passes(ctx) && forall|k: int|
                0 <= k < i ==> (#[trigger] checks[k]).passes(ctx),
            None => forall|k: int| 0 <= k < checks.len() ==> (#[trigger] checks[k]).passes(ctx),
        },
    decreases checks.len(),
{
    if checks.len() > 0 {
        lemma_first_failure(checks.drop_last(), ctx);
        assert forall|k: int| 0 <= k < checks.len() - 1 implies checks.drop_last()[k]
            == checks[k] by {}
    }
}

/// Short circuit: where the first check does not pass, it is the only one
/// evaluated, and its reason is the one given, whatever checks follow.
pub proof fn law_short_circuit(checks: Seq<Check>, ctx: InvocationContext)
    requires
        checks.len() > 0,
        !checks[0].passes(ctx),
    ensures
        first_failure(checks, ctx) == Some(0int),
        evaluations(checks, ctx) == 1,
{
    lemma_first_failure(checks, ctx);
}

/// A check is known by its name: two checks with the same name are the
/// same check.
pub proof fn law_check_names_differ(a: Check, b: Check)
    requires
        a.name_text() == b.name_text(),
    ensures
        a == b,
{
    reveal_strlit("NSFW");
    reveal_strlit("Admin");
    reveal_strlit("Moderator");
    assert("NSFW"@.len() == 4 && "Admin"@.len() == 5 && "Moderator"@.len() == 9);
}

/// An administrator passes the moderator check.
pub proof fn law_administrator_is_moderator(ctx: InvocationContext)
    requires
        Check::Admin.passes(ctx),
    ensures
        Check::Moderator.passes(ctx),
{
}

} // verus!
