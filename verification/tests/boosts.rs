use miobot::commands::boosts::{boosting, boosts_reply, boosts_reply_with, BoostsReply, EmptyStyle, Member};
use miobot::embed::MAIN_COLOUR;
use miobot::report::ERROR_COLOUR;

fn member(name: &str, discriminator: u16, since: Option<i64>) -> Member {
    Member { name: name.to_string(), discriminator, premium_since: since }
}

#[test]
fn boosters_are_listed_one_behind_the_other() {
    let members = vec![
        member("maya", 1, Some(1_600_000_000)),
        member("megu", 2, None),
        member("aoyama", 4242, Some(0)),
    ];
    assert_eq!(boosting(&members).iter().map(|m| m.name.as_str()).collect::<Vec<_>>(), vec!["maya", "aoyama"]);
    match boosts_reply(&members, EmptyStyle::Panel).unwrap() {
        BoostsReply::List(e) => {
            assert_eq!(e.title.as_deref(), Some("Members boosting this server"));
            assert_eq!(e.colour, Some(MAIN_COLOUR));
            assert_eq!(
                e.description.as_deref(),
                Some("**maya#1** - Sep 13 2020**aoyama#4242** - Jan  1 1970")
            );
        }
        other => panic!("unexpected: {:?}", other),
    }
}

#[test]
fn nobody_boosts() {
    let members = vec![member("megu", 2, None)];
    match boosts_reply(&members, EmptyStyle::Panel).unwrap() {
        BoostsReply::Nobody(e) => {
            assert_eq!(e.description, "Couldn't find any members boosting this server");
            assert_eq!(e.colour, ERROR_COLOUR);
            assert_eq!(e.title, None);
        }
        other => panic!("unexpected: {:?}", other),
    }
    match boosts_reply(&vec![], EmptyStyle::Plain).unwrap() {
        BoostsReply::Say(text) => assert_eq!(text, "Couldn't find any members boosting this server!"),
        other => panic!("unexpected: {:?}", other),
    }
}

#[test]
fn a_day_that_cannot_be_written_gives_no_reply() {
    let members = vec![member("maya", 1, Some(i64::MAX))];
    assert!(boosts_reply(&members, EmptyStyle::Panel).is_none());
    let m = member("a", 7, Some(1));
    assert!(boosts_reply_with(&vec![&m], &vec![], EmptyStyle::Plain).is_none());
    assert!(boosts_reply_with(&vec![&m], &vec![None], EmptyStyle::Plain).is_none());
    match boosts_reply_with(&vec![&m], &vec![Some("today".to_string())], EmptyStyle::Plain).unwrap() {
        BoostsReply::List(e) => assert_eq!(e.description.as_deref(), Some("**a#7** - today")),
        other => panic!("unexpected: {:?}", other),
    }
}
