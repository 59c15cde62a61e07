use miobot::checks::{evaluate_all, Check, InvocationContext, Reason, MODERATOR_ROLE_ID};
use miobot::dispatch::{
    decide, dispatch, resolve, screen_command, Addressing, Dispatch, Resolution,
};
use miobot::help::{describe, lookup, overview, suggest, suggestion_message, HelpAnswer};
use miobot::registry::{from_commands, Command, Registry};
use miobot::report::{report, Failure, Outcome, ERROR_COLOUR};

fn command(name: &str, aliases: &[&str], checks: Vec<Check>, min: usize, handler: u32) -> Command {
    Command {
        name: name.to_string(),
        aliases: aliases.iter().map(|a| a.to_string()).collect(),
        checks,
        min_args: min,
        max_args: None,
        handler,
    }
}

fn registry() -> Registry {
    let mut r = Registry::new();
    r.register(command("say", &[], vec![], 1, 0)).unwrap();
    r.register(command("boosts", &[], vec![Check::Moderator], 0, 1)).unwrap();
    r.register(command("fetch", &["get"], vec![], 0, 2)).unwrap();
    r
}

fn addressing() -> Addressing {
    Addressing {
        prefixes: vec!["~".to_string(), "mio ".to_string()],
        mention: Some(77),
        help: Some("help".to_string()),
        ignore_bots: true,
    }
}

fn member(admin: bool, roles: Vec<u64>) -> InvocationContext {
    InvocationContext {
        channel_restricted: Some(false),
        administrator: Some(admin),
        roles: Some(roles),
    }
}

#[test]
fn say_without_arguments_is_an_arity_failure() {
    let d = dispatch(&registry(), &addressing(), false, "~say", &member(false, vec![]));
    match d {
        Dispatch::Failed { command, failure: Failure::NotEnoughArguments { min, given } } => {
            assert_eq!(command, 0);
            assert_eq!(min, 1);
            assert_eq!(given, 0);
        }
        other => panic!("unexpected: {:?}", other),
    }
}

#[test]
fn boosts_needs_a_moderator() {
    let d = dispatch(&registry(), &addressing(), false, "~boosts", &member(false, vec![5]));
    match d {
        Dispatch::Failed { command, failure: Failure::CheckFailed { check, reason } } => {
            assert_eq!(command, 1);
            assert_eq!(check, Check::Moderator);
            assert_eq!(reason, Reason::NotModerator);
            assert_eq!(reason.message(), "This command can only be run as a moderator");
        }
        other => panic!("unexpected: {:?}", other),
    }
}

#[test]
fn administrator_passes_the_moderator_check() {
    let d = dispatch(&registry(), &addressing(), false, "~boosts", &member(true, vec![]));
    match d {
        Dispatch::Invoke { command, args } => {
            assert_eq!(command, 1);
            assert!(args.is_empty());
        }
        other => panic!("unexpected: {:?}", other),
    }
    let by_role = dispatch(&registry(), &addressing(), false,
        "mio boosts",
        &member(false, vec![1, MODERATOR_ROLE_ID]),
    );
    assert!(matches!(by_role, Dispatch::Invoke { command: 1, .. }));
}

#[test]
fn unknown_permissions_do_not_pass() {
    let ctx = InvocationContext { channel_restricted: None, administrator: None, roles: None };
    assert_eq!(Check::Admin.evaluate(&ctx), Err(Reason::NotAdministrator));
    assert_eq!(Check::Moderator.evaluate(&ctx), Err(Reason::NotModerator));
    assert_eq!(Check::Nsfw.evaluate(&ctx), Err(Reason::ChannelNotRestricted));
    let open = InvocationContext {
        channel_restricted: Some(true),
        administrator: None,
        roles: None,
    };
    assert_eq!(Check::Nsfw.evaluate(&open), Ok(()));
    assert_eq!(
        Reason::ChannelNotRestricted.message(),
        "This command can only be used in nsfw-enabled channels"
    );
    assert_eq!(
        Reason::NotAdministrator.message(),
        "This command can only be run as an administrator"
    );
}

#[test]
fn checks_stop_at_the_first_failure() {
    let ctx = member(false, vec![]);
    let run = evaluate_all(&vec![Check::Admin, Check::Nsfw, Check::Moderator], &ctx);
    assert_eq!(run.evaluated, 1);
    assert_eq!(run.failure, Some((Check::Admin, Reason::NotAdministrator)));
    let ctx = InvocationContext {
        channel_restricted: Some(true),
        administrator: Some(false),
        roles: Some(vec![]),
    };
    let run = evaluate_all(&vec![Check::Nsfw, Check::Moderator, Check::Admin], &ctx);
    assert_eq!(run.evaluated, 2);
    assert_eq!(run.failure, Some((Check::Moderator, Reason::NotModerator)));
    let run = evaluate_all(&vec![Check::Nsfw], &ctx);
    assert_eq!(run.evaluated, 1);
    assert_eq!(run.failure, None);
}

#[test]
fn arity_comes_before_checks() {
    let mut c = command("x", &[], vec![Check::Admin], 2, 9);
    c.max_args = Some(3);
    let ctx = member(false, vec![]);
    let run = screen_command(&c, 1, &ctx);
    assert!(matches!(run.failure, Some(Failure::NotEnoughArguments { min: 2, given: 1 })));
    assert_eq!(run.evaluated, 0);
    let run = screen_command(&c, 4, &ctx);
    assert!(matches!(run.failure, Some(Failure::TooManyArguments { max: 3, given: 4 })));
    assert_eq!(run.evaluated, 0);
    let run = screen_command(&c, 2, &ctx);
    assert!(matches!(run.failure, Some(Failure::CheckFailed { check: Check::Admin, .. })));
    assert_eq!(run.evaluated, 1);
    let run = screen_command(&c, 3, &member(true, vec![]));
    assert!(run.failure.is_none());
    assert_eq!(run.evaluated, 1);
}

#[test]
fn messages_without_prefix_or_command_are_ignored() {
    let r = registry();
    let a = addressing();
    let ctx = member(true, vec![]);
    assert!(matches!(dispatch(&r, &a, false, "say hello", &ctx), Dispatch::Ignored));
    assert!(matches!(dispatch(&r, &a, false, "~", &ctx), Dispatch::Ignored));
    assert!(matches!(dispatch(&r, &a, false, "~   ", &ctx), Dispatch::Ignored));
    assert!(matches!(dispatch(&r, &a, false, "~fetchx", &ctx), Dispatch::Ignored));
    assert!(matches!(dispatch(&r, &a, false, "~Say hello", &ctx), Dispatch::Ignored));
    assert!(matches!(dispatch(&r, &a, false, "", &ctx), Dispatch::Ignored));
}

#[test]
fn prefixes_and_mentions_address_the_bot() {
    let r = registry();
    let a = addressing();
    let ctx = member(false, vec![]);
    for text in ["~say hi there", "mio say hi there", "<@77> say hi there", "<@!77>say hi there"] {
        match dispatch(&r, &a, false, text, &ctx) {
            Dispatch::Invoke { command, mut args } => {
                assert_eq!(command, 0);
                assert_eq!(args.len(), 2);
                assert_eq!(args.rest(), "hi there");
                assert!(!args.rewind());
                assert_eq!(args.single(), Ok("hi".to_string()));
            }
            other => panic!("unexpected for {:?}: {:?}", text, other),
        }
    }
    assert!(matches!(dispatch(&r, &a, false, "<@78> say hi", &ctx), Dispatch::Ignored));
    assert!(matches!(dispatch(&r, &a, false, "~get", &ctx), Dispatch::Invoke { command: 2, .. }));
}

#[test]
fn help_suggests_close_names() {
    let r = registry();
    match lookup(&r, "fetchx") {
        HelpAnswer::Suggestions { names, best } => {
            assert!(names.iter().any(|s| s.name == "fetch" && s.distance == 1));
            assert_eq!(names[best].name, "fetch");
        }
        other => panic!("unexpected: {:?}", other),
    }
    match dispatch(&r, &addressing(), false, "~help fetchx", &member(false, vec![])) {
        Dispatch::Help(HelpAnswer::Suggestions { names, best }) => {
            assert_eq!(names[best].name, "fetch");
            assert_eq!(names[best].distance, 1);
        }
        other => panic!("unexpected: {:?}", other),
    }
    assert!(matches!(lookup(&r, "get"), HelpAnswer::Command(2)));
    match lookup(&r, "completely-different") {
        HelpAnswer::NotFound(m) => assert_eq!(m, "Could not find: `completely-different`."),
        other => panic!("unexpected: {:?}", other),
    }
    assert!(matches!(
        dispatch(&r, &addressing(), false, "~help", &member(false, vec![])),
        Dispatch::HelpOverview
    ));
    let mut off = addressing();
    off.help = None;
    assert!(matches!(
        dispatch(&r, &off, false, "~help fetchx", &member(false, vec![])),
        Dispatch::Ignored
    ));
}

#[test]
fn suggestions_come_in_registry_order_with_distances() {
    let r = registry();
    let list = suggest(&r, "sat", 3);
    let got: Vec<(String, usize)> = list.into_iter().map(|s| (s.name, s.distance)).collect();
    assert_eq!(got, vec![("say".to_string(), 1), ("get".to_string(), 2)]);
    assert!(suggest(&r, "sat", 0).is_empty());
}

#[test]
fn duplicate_names_are_refused() {
    let mut r = registry();
    let e = r.register(command("other", &["x", "get"], vec![], 0, 3)).unwrap_err();
    assert_eq!(e.name, "get");
    assert_eq!(r.len(), 3);
    assert_eq!(r.resolve("other"), None);
    let e = r.register(command("say", &[], vec![], 0, 3)).unwrap_err();
    assert_eq!(e.name, "say");
    let e = r.register(command("twice", &["a", "b", "a"], vec![], 0, 3)).unwrap_err();
    assert_eq!(e.name, "a");
    let e = r.register(command("same", &["same"], vec![], 0, 3)).unwrap_err();
    assert_eq!(e.name, "same");
    assert!(r.register(command("Say", &["SAY"], vec![], 0, 3)).is_ok());
    assert_eq!(r.resolve("Say"), Some(3));
    assert_eq!(r.resolve("say"), Some(0));
    assert_eq!(r.get(3).handler, 3);
}

#[test]
fn construction_fails_fast() {
    let built = from_commands(vec![
        command("a", &["b"], vec![], 0, 0),
        command("c", &["b"], vec![], 0, 1),
        command("a", &[], vec![], 0, 2),
    ]);
    assert_eq!(built.unwrap_err().name, "b");
    let built = from_commands(vec![command("a", &["b"], vec![], 0, 0), command("c", &[], vec![], 0, 1)])
        .unwrap();
    assert_eq!(built.len(), 2);
    assert_eq!(built.resolve("b"), Some(0));
    assert_eq!(built.resolve("c"), Some(1));
}

#[test]
fn resolving_twice_gives_the_same_command() {
    let r = registry();
    assert_eq!(r.resolve("fetch"), r.resolve("fetch"));
    assert_eq!(r.resolve("fetch"), Some(2));
    assert_eq!(r.resolve("get"), Some(2));
    assert_eq!(r.resolve("nothing"), None);
}

#[test]
fn failures_are_reported_once_in_the_error_colour() {
    let too_few = Outcome::Failure(Failure::NotEnoughArguments { min: 1, given: 0 });
    let r = report("say", "~say", &too_few);
    let reply = r.reply.unwrap();
    assert_eq!(
        reply.description,
        "Command needs at least 1 arguments. See ~help <command> for guidance."
    );
    assert_eq!(reply.colour, ERROR_COLOUR);
    assert_eq!(reply.title, None);
    assert_eq!(
        r.log,
        "Command 'say' returned error. Message: ~say, Error: not enough arguments: 0 given, at least 1 expected"
    );
    let failed = Outcome::Failure(Failure::Handler { message: "no such city".to_string() });
    let r = report("weather", "~weather Atlantis", &failed);
    assert_eq!(r.reply.unwrap().description, "no such city");
    assert_eq!(
        r.log,
        "Command 'weather' returned error. Message: ~weather Atlantis, Error: no such city"
    );
    let check = Outcome::Failure(Failure::CheckFailed {
        check: Check::Admin,
        reason: Reason::NotAdministrator,
    });
    let r = report("x", "~x", &check);
    assert_eq!(r.reply.unwrap().description, "This command can only be run as an administrator");
    assert_eq!(
        r.log,
        "Command 'x' returned error. Message: ~x, Error: check 'Admin' failed: This command can only be run as an administrator"
    );
    let r = report("say", "~say hi", &Outcome::Success);
    assert!(r.reply.is_none());
    assert_eq!(r.log, "Command 'say' processed message: ~say hi");
    let many = Outcome::Failure(Failure::TooManyArguments { max: 1, given: 12 });
    let r = report("say", "~say a b", &many);
    assert_eq!(
        r.reply.unwrap().description,
        "Command takes at most 1 arguments. See ~help <command> for guidance."
    );
    assert_eq!(
        r.log,
        "Command 'say' returned error. Message: ~say a b, Error: too many arguments: 12 given, at most 1 expected"
    );
}

#[test]
fn help_messages() {
    let r = registry();
    let e = overview(&r);
    assert_eq!(e.title.as_deref(), Some("Commands"));
    assert_eq!(
        e.description.as_deref(),
        Some("If you want more information about a specific command, just pass the command as argument.\n`say`, `boosts`, `fetch`")
    );
    let e = overview(&Registry::new());
    assert_eq!(
        e.description.as_deref(),
        Some("If you want more information about a specific command, just pass the command as argument.\n")
    );
    let e = describe(r.get(2));
    assert_eq!(e.title.as_deref(), Some("fetch"));
    assert_eq!(e.description.as_deref(), Some("At least 0 arguments\nAliases: get"));
    let e = describe(r.get(0));
    assert_eq!(e.description.as_deref(), Some("At least 1 arguments"));
    let e = describe(&command("x", &["y", "z"], vec![], 12, 0));
    assert_eq!(e.description.as_deref(), Some("At least 12 arguments\nAliases: y, z"));
    assert_eq!(suggestion_message(&suggest(&r, "sat", 3)), "Did you mean `say`, `get`?");
    assert_eq!(suggestion_message(&suggest(&r, "fetchx", 1)), "Did you mean `fetch`?");
}

#[test]
fn bots_are_passed_over() {
    let r = registry();
    let ctx = member(true, vec![]);
    assert!(matches!(dispatch(&r, &addressing(), true, "~say hi", &ctx), Dispatch::Ignored));
    assert!(matches!(resolve(&r, &addressing(), true, "~help"), Resolution::Ignored));
    let mut listen = addressing();
    listen.ignore_bots = false;
    assert!(matches!(
        dispatch(&r, &listen, true, "~say hi", &ctx),
        Dispatch::Invoke { command: 0, .. }
    ));
}

#[test]
fn resolving_needs_no_context() {
    let r = registry();
    let a = addressing();
    match resolve(&r, &a, false, "mio boosts now") {
        Resolution::Command { command, args } => {
            assert_eq!(command, 1);
            assert_eq!(args.rest(), "now");
            let refused = decide(r.get(command), command, args, &member(false, vec![]));
            assert!(matches!(refused, Dispatch::Failed { command: 1, .. }));
        }
        other => panic!("unexpected: {:?}", other),
    }
    match resolve(&r, &a, false, "~say") {
        Resolution::Command { command, args } => {
            let d = decide(r.get(command), command, args, &member(true, vec![]));
            assert!(matches!(d, Dispatch::Failed { command: 0, .. }));
        }
        other => panic!("unexpected: {:?}", other),
    }
    assert!(matches!(resolve(&r, &a, false, "~help"), Resolution::HelpOverview));
    assert!(matches!(resolve(&r, &a, false, "~help say"), Resolution::Help(_)));
    assert!(matches!(resolve(&r, &a, false, "~nothing"), Resolution::Ignored));
    assert!(matches!(resolve(&r, &a, false, "hello"), Resolution::Ignored));
}
