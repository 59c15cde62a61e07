//! The members who boost a server, and since when.

use vstd::prelude::*;
use crate::embed::{Embed, EmbedModel};
use crate::report::{error_reply, ErrorReply, ERROR_COLOUR};
use crate::text::{chars_of, decimal, decimal_of, push_all, push_str, string_of, text_of};
use crate::timefmt::{format_timestamp, local_time_text};

verus! {

/// A member of a server.
#[derive(Debug)]
pub struct Member {
    pub name: String,
    pub discriminator: u16,
    /// Since when the member boosts the server, in seconds after the start
    /// of 1970, if the member does.
    pub premium_since: Option<i64>,
}

/// Whether a member boosts the server.
pub open spec fn is_boosting(member: Member) -> bool {
    member.premium_since is Some
}

/// Those of `members` who boost the server, in their order.
pub fn boosting(members: &Vec<Member>) -> (found: Vec<&Member>)
    ensures
        found@.map_values(|m: &Member| *m) == members@.filter(|m: Member| is_boosting(m)),
{
    let ghost wanted = |m: Member| is_boosting(m);
    let mut found: Vec<&Member> = Vec::new();
    let mut i: usize = 0;
    assert(members@.take(0).filter(wanted) =~= Seq::empty()) by {
        Seq::<Member>::lemma_filter_len(members@.take(0), wanted);
    }
    while i < members.len()
        invariant
            i <= members.len(),
            wanted == |m: Member| is_boosting(m),
            found@.map_values(|m: &Member| *m) == members@.take(i as int).filter(wanted),
        decreases members.len() - i,
    {
        proof {
            assert(members@.take(i + 1) == members@.take(i as int).push(members[i as int]));
            Seq::lemma_filter_push(members@.take(i as int), members[i as int], wanted);
        }
        if members[i].premium_since.is_some() {
            found.push(&members[i]);
        }
        i += 1;
    }
    proof {
        assert(members@.take(members.len() as int) == members@);
    }
    found
}

/// What is said of one member who boosts, where `date` is the day since
/// when, written out.
pub open spec fn booster_text(member: Member, date: Seq<char>) -> Seq<char> {
    "**"@ + member.name@ + "#"@ + decimal(member.discriminator as nat) + "** - "@ + date
}

/// What is said of the members `boosters`, one behind the other, where
/// `dates` holds their days written out; nothing where a day is missing.
pub open spec fn boosters_text(boosters: Seq<Member>, dates: Seq<Option<Seq<char>>>) -> Option<
    Seq<char>,
>
    decreases boosters.len(),
{
    if boosters.len() == 0 {
        Some(Seq::empty())
    } else {
        match (boosters_text(boosters.drop_last(), dates.drop_last()), dates.last()) {
            (Some(front), Some(date)) => Some(front + booster_text(boosters.last(), date)),
            _ => None,
        }
    }
}

/// A day missing among the first `k` is missing in the whole.
pub proof fn lemma_boosters_text_none(
    boosters: Seq<Member>,
    dates: Seq<Option<Seq<char>>>,
    k: int,
)
    requires
        0 <= k <= boosters.len() == dates.len(),
        boosters_text(boosters.take(k), dates.take(k)) is None,
    ensures
        boosters_text(boosters, dates) is None,
    decreases boosters.len(),
{
    if k < boosters.len() {
        assert(boosters.drop_last().take(k) == boosters.take(k));
        assert(dates.drop_last().take(k) == dates.take(k));
        lemma_boosters_text_none(boosters.drop_last(), dates.drop_last(), k);
    } else {
        assert(boosters.take(k) == boosters);
        assert(dates.take(k) == dates);
    }
}

/// What is sent about the members who boost.
#[derive(Debug)]
pub enum BoostsReply {
    /// The list of those who boost.
    List(Embed),
    /// Nobody boosts: shown as an error.
    Nobody(ErrorReply),
    /// Nobody boosts: said in plain words.
    Say(String),
}

/// How it is said that nobody boosts.
#[derive(Clone, Copy, Debug, PartialEq, Eq, Structural)]
pub enum EmptyStyle {
    /// In the panel of an error.
    Panel,
    /// In plain words.
    Plain,
}

/// What is sent about the members `boosters`, where `dates` holds their
/// days written out; nothing where the dates are not as many as the
/// members or a day is missing.
pub open spec fn replied(
    boosters: Seq<Member>,
    dates: Seq<Option<Seq<char>>>,
    style: EmptyStyle,
    reply: Option<BoostsReply>,
) -> bool {
    if boosters.len() != dates.len() {
        reply is None
    } else if boosters.len() == 0 {
        match style {
            EmptyStyle::Panel => reply matches Some(BoostsReply::Nobody(e)) && e.title is None
                && e.description@ == "Couldn't find any members boosting this server"@
                && e.colour == ERROR_COLOUR,
            EmptyStyle::Plain => reply matches Some(BoostsReply::Say(text)) && text@
                == "Couldn't find any members boosting this server!"@,
        }
    } else {
        match boosters_text(boosters, dates) {
            Some(text) => reply matches Some(BoostsReply::List(e)) && e@ == EmbedModel::titled(
                "Members boosting this server"@,
                text,
            ),
            None => reply is None,
        }
    }
}

/// The dates of a list, as text.
pub open spec fn dates_text(dates: Seq<Option<String>>) -> Seq<Option<Seq<char>>> {
    dates.map_values(|d: Option<String>| text_of(d))
}

/// The members behind references.
pub open spec fn members_behind(refs: Seq<&Member>) -> Seq<Member> {
    refs.map_values(|m: &Member| *m)
}

/// What is sent about the members `boosters`, with the days since when they
/// boost given as text.
#[verifier::loop_isolation(false)]
pub fn boosts_reply_with(
    boosters: &Vec<&Member>,
    dates: &Vec<Option<String>>,
    style: EmptyStyle,
) -> (reply: Option<BoostsReply>)
    ensures
        replied(members_behind(boosters@), dates_text(dates@), style, reply),
{
    if boosters.len() != dates.len() {
        return None;
    }
    if boosters.len() == 0 {
        return match style {
            EmptyStyle::Panel => Some(
                BoostsReply::Nobody(
                    error_reply(None, "Couldn't find any members boosting this server"),
                ),
            ),
            EmptyStyle::Plain => Some(
                BoostsReply::Say(
                    string_of(&chars_of("Couldn't find any members boosting this server!")),
                ),
            ),
        };
    }
    let ghost all = members_behind(boosters@);
    let ghost written = dates_text(dates@);
    let mut text: Vec<char> = Vec::new();
    let mut i: usize = 0;
    while i < boosters.len()
        invariant
            i <= boosters.len(),
            boosters_text(all.take(i as int), written.take(i as int)) == Some(text@),
        decreases boosters.len() - i,
    {
        proof {
            let next = all.take(i + 1);
            let next_dates = written.take(i + 1);
            assert(next.drop_last() == all.take(i as int));
            assert(next_dates.drop_last() == written.take(i as int));
        }
        match &dates[i] {
            Some(date) => {
                push_str(&mut text, "**");
                push_str(&mut text, boosters[i].name.as_str());
                push_str(&mut text, "#");
                push_all(&mut text, &decimal_of(boosters[i].discriminator as u64));
                push_str(&mut text, "** - ");
                push_str(&mut text, date.as_str());
            },
            None => {
                proof {
                    lemma_boosters_text_none(all, written, i + 1);
                }
                return None;
            },
        }
        i += 1;
    }
    proof {
        assert(all.take(boosters.len() as int) == all);
        assert(written.take(boosters.len() as int) == written);
    }
    Some(
        BoostsReply::List(
            Embed::titled(string_of(&chars_of("Members boosting this server")), string_of(&text)),
        ),
    )
}

/// The days since when `boosters` boost, each written as the month, the day
/// of the month and the year.
pub open spec fn boost_dates(boosters: Seq<Member>) -> Seq<Option<Seq<char>>> {
    boosters.map_values(
        |m: Member|
            match m.premium_since {
                Some(since) => local_time_text(since as int, 0, "%b %e %Y"@),
                None => None,
            },
    )
}

/// What is sent about those of `members` who boost the server.
pub fn boosts_reply(members: &Vec<Member>, style: EmptyStyle) -> (reply: Option<BoostsReply>)
    ensures
        replied(
            members@.filter(|m: Member| is_boosting(m)),
            boost_dates(members@.filter(|m: Member| is_boosting(m))),
            style,
            reply,
        ),
{
    let boosters = boosting(members);
    let ghost all = members_behind(boosters@);
    let mut dates: Vec<Option<String>> = Vec::new();
    let mut i: usize = 0;
    while i < boosters.len()
        invariant
            i <= boosters.len(),
            all == members_behind(boosters@),
            dates.len() == i,
            forall|k: int| 0 <= k < i ==> text_of(#[trigger] dates[k]) == boost_dates(all)[k],
        decreases boosters.len() - i,
    {
        let date = match boosters[i].premium_since {
            Some(since) => format_timestamp(since, 0, "%b %e %Y"),
            None => None,
        };
        dates.push(date);
        i += 1;
    }
    assert(dates_text(dates@) =~= boost_dates(all));
    boosts_reply_with(&boosters, &dates, style)
}

} // verus!
