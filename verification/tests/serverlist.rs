use miobot::commands::serverlist::{
    create_server_embed, find_invite_code, plan, plan_for, Author, InviteGuild, InviteInfo,
};
use miobot::embed::MAIN_COLOUR;
use miobot::report::Failure;

fn info(icon: Option<&str>, expires: Option<&str>, description: Option<&str>) -> InviteInfo {
    InviteInfo {
        code: "gochiusa".to_string(),
        guild: InviteGuild {
            id: "123".to_string(),
            name: "Rabbit House".to_string(),
            splash: None,
            banner: None,
            description: description.map(|s| s.to_string()),
            icon: icon.map(|s| s.to_string()),
        },
        approximate_member_count: 1500,
        approximate_presence_count: 0,
        expires_at: expires.map(|s| s.to_string()),
    }
}

#[test]
fn invitation_codes() {
    assert_eq!(find_invite_code("https://discord.gg/gochiusa"), Some("gochiusa".to_string()));
    assert_eq!(find_invite_code("see discord.gg/a_1-b and discord.gg/zz"), Some("a_1".to_string()));
    assert_eq!(find_invite_code("https://discord.gg/"), None);
    assert_eq!(find_invite_code("discordxgg/abc"), None);
    assert_eq!(find_invite_code(""), None);
}

#[test]
fn invitation_address() {
    assert_eq!(
        plan("https://discord.gg/gochiusa").unwrap(),
        "https://discord.com/api/v9/invites/gochiusa?with_counts=true&with_expiration=true"
    );
    match plan("nothing here").unwrap_err() {
        Failure::Handler { message } => assert_eq!(message, "Please supply a valid discord invite link"),
        other => panic!("unexpected: {:?}", other),
    }
    assert!(plan_for(&None).is_err());
}

#[test]
fn server_message() {
    let author = Author { name: "cocoa".to_string(), avatar_url: Some("http://a/b.png".to_string()) };
    let e = create_server_embed(&info(Some("a_ff"), Some("2021-07-01T00:00:00+00:00"), Some("Coffee")), &author);
    assert_eq!(e.colour, Some(MAIN_COLOUR));
    assert_eq!(e.title.as_deref(), Some("Rabbit House"));
    assert_eq!(
        e.description.as_deref(),
        Some("Coffee\nhttps://discord.gg/gochiusa\n\n**1500** Members, **0** Online")
    );
    assert_eq!(e.thumbnail.as_deref(), Some("https://cdn.discordapp.com/icons/123/a_ff.gif?size=64"));
    let footer = e.footer.unwrap();
    assert_eq!(footer.text, "cocoa   Expires on");
    assert_eq!(footer.icon_url.as_deref(), Some("http://a/b.png"));
    assert_eq!(e.timestamp.as_deref(), Some("2021-07-01T00:00:00+00:00"));
    assert!(e.fields.is_empty());

    let plain = Author { name: "chino".to_string(), avatar_url: None };
    let e = create_server_embed(&info(None, None, None), &plain);
    assert_eq!(
        e.description.as_deref(),
        Some("\nhttps://discord.gg/gochiusa\n\n**1500** Members, **0** Online")
    );
    assert_eq!(e.thumbnail, None);
    let footer = e.footer.unwrap();
    assert_eq!(footer.text, "chino");
    assert_eq!(footer.icon_url, None);
    assert_eq!(e.timestamp, None);
    let e = create_server_embed(&info(Some("ff"), None, None), &plain);
    assert_eq!(e.thumbnail.as_deref(), Some("https://cdn.discordapp.com/icons/123/ff.webp?size=64"));
}

use miobot::commands::serverlist::{
    list_order, plain_server_embed, rising_order, route, sort_plan, ListCommand, ListedMessage,
};
use miobot::cursor::ArgumentCursor;
use miobot::text::chars_of;

fn keys(list: &[&str]) -> Vec<Vec<char>> {
    list.iter().map(|s| chars_of(s)).collect()
}

#[test]
fn plain_server_message() {
    let author = Author { name: "rize".to_string(), avatar_url: None };
    let e = plain_server_embed(&info(Some("ff"), Some("soon"), Some("Tea")), "abc", &author);
    assert_eq!(e.colour, None);
    assert_eq!(e.title.as_deref(), Some("Rabbit House"));
    assert_eq!(e.description.as_deref(), Some("Tea\nhttps://discord.gg/abc\n\n**1500** Members, **0** Online"));
    assert_eq!(e.thumbnail.as_deref(), Some("https://cdn.discordapp.com/icons/123/ff.gif?size=64"));
    assert_eq!(e.footer.unwrap().text, "rize   Expires on");
    assert_eq!(e.timestamp.as_deref(), Some("soon"));
}

#[test]
fn rising_order_is_stable() {
    assert_eq!(rising_order(&keys(&["b", "a", "c", "a", "", "ab"])), vec![4, 1, 3, 5, 0, 2]);
    assert_eq!(rising_order(&keys(&[])), Vec::<usize>::new());
    assert_eq!(rising_order(&keys(&["x"])), vec![0]);
    assert_eq!(rising_order(&keys(&["Z", "a", "é", "z", "A"])), vec![4, 0, 1, 3, 2]);
    let mut expected: Vec<usize> = (0..5).collect();
    let words = ["delta", "Alpha", "charlie", "bravo", "alpha"];
    expected.sort_by_cached_key(|i| words[*i].to_string());
    assert_eq!(rising_order(&keys(&words)), expected);
}

#[test]
fn list_order_gives_the_first_entry_the_last_title() {
    assert_eq!(list_order(&keys(&["b", "a", "c", "a"])), vec![2, 0, 3, 1]);
}

#[test]
fn sorting_plan_takes_the_entries_of_the_bot() {
    let m = |author: u64, titles: Vec<Option<&str>>| ListedMessage {
        author,
        titles: titles.into_iter().map(|t| t.map(|s| s.to_string())).collect(),
    };
    let messages = vec![
        m(1, vec![Some("Beta")]),
        m(2, vec![Some("Zeta")]),
        m(1, vec![]),
        m(1, vec![None, Some("Omega")]),
        m(1, vec![Some("Alpha"), Some("ignored")]),
    ];
    let plan = sort_plan(1, &messages);
    assert_eq!(plan.entries, vec![0, 3, 4]);
    assert_eq!(plan.sources, vec![0, 2, 1]);
    let none = sort_plan(9, &messages);
    assert!(none.entries.is_empty() && none.sources.is_empty());
}

#[test]
fn first_word_says_what_is_asked_of_the_list() {
    use_route("add https://discord.gg/x", ListCommand::Add, "https://discord.gg/x");
    use_route("  sort  ", ListCommand::Sort, "");
    use_route("Add x", ListCommand::Overview, "Add x");
    use_route("remove x", ListCommand::Overview, "remove x");
    use_route("", ListCommand::Overview, "");
}

fn use_route(text: &str, expected: ListCommand, rest: &str) {
    let mut args = ArgumentCursor::new(text);
    assert_eq!(route(&mut args), expected);
    assert_eq!(args.rest(), rest);
    assert!(!(expected == ListCommand::Overview && args.rewind()));
}
