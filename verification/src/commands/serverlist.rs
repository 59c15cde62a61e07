//! The server list: invitations, the message that shows a server, and the
//! order of the list.

use vstd::prelude::*;
use crate::cursor::{ArgumentCursor, CursorModel};
use crate::embed::{Embed, EmbedModel, Footer, FooterModel, MAIN_COLOUR};
use crate::pattern::{capture_first, first_capture};
use crate::report::{handler_failure, Failure};
use crate::text::{
    chars_of, comes_before, decimal, decimal_of, lemma_text_le_antisymmetric, lemma_text_le_total,
    lemma_text_le_transitive,
    owned, push_all, push_str, spells, string_of, text_le, text_lt, text_of,
};
use crate::util::{guild_icon_url, guild_icon_url_text};

verus! {

/// The server that an invitation leads to.
#[derive(Debug)]
pub struct InviteGuild {
    pub id: String,
    pub name: String,
    pub splash: Option<String>,
    pub banner: Option<String>,
    pub description: Option<String>,
    pub icon: Option<String>,
}

/// What the platform says of an invitation.
#[derive(Debug)]
pub struct InviteInfo {
    pub code: String,
    pub guild: InviteGuild,
    pub approximate_member_count: u32,
    pub approximate_presence_count: u32,
    pub expires_at: Option<String>,
}

/// Who asked for a server to be listed.
#[derive(Debug)]
pub struct Author {
    pub name: String,
    pub avatar_url: Option<String>,
}

/// The expression that finds the code of an invitation in a link.
pub open spec fn invite_pattern() -> Seq<char> {
    "discord\\.gg/(\\w+)"@
}

/// The code of the first invitation that `text` links to.
pub open spec fn invite_code_in(text: Seq<char>) -> Option<Seq<char>> {
    match first_capture(invite_pattern(), text) {
        Some(Some(code)) => Some(code),
        _ => None,
    }
}

/// The code of the first invitation that `text` links to.
pub fn find_invite_code(text: &str) -> (code: Option<String>)
    ensures
        text_of(code) == invite_code_in(text@),
{
    match capture_first("discord\\.gg/(\\w+)", text) {
        Some(Some(code)) => Some(code),
        _ => None,
    }
}

/// The address at which the platform tells of the invitation `code`.
pub open spec fn invite_url_text(code: Seq<char>) -> Seq<char> {
    "https://discord.com/api/v9/invites/"@ + code + "?with_counts=true&with_expiration=true"@
}

/// What is asked of the platform for the invitation code that was found:
/// the address of the invitation; a failure where no code was found.
pub open spec fn planned(code: Option<Seq<char>>) -> Result<Seq<char>, Seq<char>> {
    match code {
        Some(code) => Ok(invite_url_text(code)),
        None => Err("Please supply a valid discord invite link"@),
    }
}

/// The address to ask for the invitation `code`.
pub fn plan_for(code: &Option<String>) -> (r: Result<String, Failure>)
    ensures
        match planned(text_of(*code)) {
            Ok(url) => r matches Ok(found) && found@ == url,
            Err(text) => r matches Err(failure) && failure.is_handler(text),
        },
{
    match code {
        Some(code) => {
            let mut out: Vec<char> = Vec::new();
            push_str(&mut out, "https://discord.com/api/v9/invites/");
            push_str(&mut out, code.as_str());
            push_str(&mut out, "?with_counts=true&with_expiration=true");
            Ok(string_of(&out))
        },
        None => Err(handler_failure("Please supply a valid discord invite link")),
    }
}

/// The address to ask for the invitation that the arguments `text` link to.
pub fn plan(text: &str) -> (r: Result<String, Failure>)
    ensures
        match planned(invite_code_in(text@)) {
            Ok(url) => r matches Ok(found) && found@ == url,
            Err(text) => r matches Err(failure) && failure.is_handler(text),
        },
{
    let code = find_invite_code(text);
    plan_for(&code)
}

/// The text under the name of a server: its description, the link of the
/// invitation `code`, and how many members it has and how many are there.
pub open spec fn server_text(info: InviteInfo, code: Seq<char>) -> Seq<char> {
    (match info.guild.description {
        Some(d) => d@,
        None => Seq::empty(),
    }) + "\nhttps://discord.gg/"@ + code + "\n\n**"@ + decimal(
        info.approximate_member_count as nat,
    ) + "** Members, **"@ + decimal(info.approximate_presence_count as nat) + "** Online"@
}

/// The foot of the message: who asked, with a note where the invitation
/// runs out.
pub open spec fn footer_model(info: InviteInfo, author: Author) -> FooterModel {
    FooterModel {
        text: if info.expires_at is Some {
            author.name@ + "   Expires on"@
        } else {
            author.name@
        },
        icon_url: text_of(author.avatar_url),
    }
}

/// The message that shows the server of the invitation `info`, asked for by
/// `author`.
pub open spec fn server_embed_model(info: InviteInfo, author: Author) -> EmbedModel {
    EmbedModel {
        colour: Some(MAIN_COLOUR),
        title: Some(info.guild.name@),
        description: Some(server_text(info, info.code@)),
        thumbnail: match info.guild.icon {
            Some(icon) => Some(guild_icon_url_text(info.guild.id@, icon@, 64)),
            None => None,
        },
        footer: Some(footer_model(info, author)),
        timestamp: text_of(info.expires_at),
        ..EmbedModel::blank()
    }
}

fn owned_option(s: &Option<String>) -> (r: Option<String>)
    ensures
        text_of(r) == text_of(*s),
{
    match s {
        Some(s) => Some(owned(s.as_str())),
        None => None,
    }
}

/// The text under the name of a server.
pub fn server_description(info: &InviteInfo, code: &str) -> (text: String)
    ensures
        text@ == server_text(*info, code@),
{
    let mut out: Vec<char> = Vec::new();
    match &info.guild.description {
        Some(d) => {
            push_str(&mut out, d.as_str());
        },
        None => {},
    }
    push_str(&mut out, "\nhttps://discord.gg/");
    push_str(&mut out, code);
    push_str(&mut out, "\n\n**");
    push_all(&mut out, &decimal_of(info.approximate_member_count as u64));
    push_str(&mut out, "** Members, **");
    push_all(&mut out, &decimal_of(info.approximate_presence_count as u64));
    push_str(&mut out, "** Online");
    string_of(&out)
}

/// The foot of the message that shows a server.
pub fn server_footer(info: &InviteInfo, author: &Author) -> (footer: Footer)
    ensures
        footer@ == footer_model(*info, *author),
{
    let mut text: Vec<char> = Vec::new();
    push_str(&mut text, author.name.as_str());
    if info.expires_at.is_some() {
        push_str(&mut text, "   Expires on");
    }
    Footer { text: string_of(&text), icon_url: owned_option(&author.avatar_url) }
}

/// The message that shows the server of the invitation `info`, asked for by
/// `author`.
pub fn create_server_embed(info: &InviteInfo, author: &Author) -> (e: Embed)
    ensures
        e@ == server_embed_model(*info, *author),
{
    let mut e = Embed::new();
    e.colour = Some(MAIN_COLOUR);
    e.title = Some(owned(info.guild.name.as_str()));
    e.description = Some(server_description(info, info.code.as_str()));
    match &info.guild.icon {
        Some(icon_id) => {
            e.thumbnail = Some(guild_icon_url(info.guild.id.as_str(), icon_id.as_str(), 64));
        },
        None => {},
    }
    e.footer = Some(server_footer(info, author));
    e.timestamp = owned_option(&info.expires_at);
    e
}

/// A message of the channel in which the list stands.
#[derive(Debug)]
pub struct ListedMessage {
    /// Who sent the message.
    pub author: u64,
    /// The titles of the rich messages that it holds, in their order.
    pub titles: Vec<Option<String>>,
}

/// Whether a message is an entry of the list: the bot sent it and it holds
/// a rich message.
pub open spec fn is_entry(bot: u64, message: ListedMessage) -> bool {
    message.author == bot && message.titles.len() > 0
}

/// The title by which an entry is put in order: that of its first rich
/// message, or the empty text if that has none.
pub open spec fn entry_title(message: ListedMessage) -> Seq<char> {
    match message.titles[0] {
        Some(title) => title@,
        None => Seq::empty(),
    }
}

/// Whether the position `v` stands in `order`.
pub open spec fn occurs(order: Seq<usize>, v: int) -> bool {
    exists|i: int| 0 <= i < order.len() && #[trigger] order[i] == v
}

/// Whether `asc` puts the positions of `keys` in rising order of the keys,
/// positions with the same key in their own order: each position stands in
/// it once.
pub open spec fn is_rising_order(keys: Seq<Seq<char>>, asc: Seq<usize>) -> bool {
    &&& asc.len() == keys.len()
    &&& forall|i: int| 0 <= i < asc.len() ==> (#[trigger] asc[i]) < keys.len()
    &&& forall|v: int| 0 <= v < keys.len() ==> #[trigger] occurs(asc, v)
    &&& forall|i: int, j: int|
        0 <= i < j < asc.len() ==> text_le(
            keys[#[trigger] asc[i] as int],
            keys[#[trigger] asc[j] as int],
        ) && (keys[asc[i] as int] == keys[asc[j] as int] ==> asc[i] < asc[j]) && asc[i] != asc[j]
}

/// The positions of `keys` in rising order of the keys, positions with the
/// same key in their own order.
pub fn rising_order(keys: &Vec<Vec<char>>) -> (asc: Vec<usize>)
    ensures
        is_rising_order(keys@.map_values(|k: Vec<char>| k@), asc@),
{
    let ghost all = keys@.map_values(|k: Vec<char>| k@);
    let mut asc: Vec<usize> = Vec::new();
    let mut k: usize = 0;
    while k < keys.len()
        invariant
            k <= keys.len(),
            all == keys@.map_values(|key: Vec<char>| key@),
            asc.len() == k,
            forall|i: int| 0 <= i < asc.len() ==> (#[trigger] asc[i]) < k,
            forall|v: int| 0 <= v < k ==> #[trigger] occurs(asc@, v),
            forall|i: int, j: int|
                0 <= i < j < asc.len() ==> text_le(
                    all[#[trigger] asc[i] as int],
                    all[#[trigger] asc[j] as int],
                ) && (all[asc[i] as int] == all[asc[j] as int] ==> asc[i] < asc[j]) && asc[i]
                    != asc[j],
        decreases keys.len() - k,
    {
        let mut p: usize = asc.len();
        while p > 0 && comes_before(&keys[k], &keys[asc[p - 1]])
            invariant
                p <= asc.len() == k < keys.len(),
                all == keys@.map_values(|key: Vec<char>| key@),
                forall|i: int| 0 <= i < asc.len() ==> (#[trigger] asc[i]) < k,
                forall|j: int|
                    p <= j < asc.len() ==> text_lt(
                        all[k as int],
                        all[#[trigger] asc[j] as int],
                    ),
            decreases p,
        {
            p -= 1;
        }
        let ghost before = asc@;
        proof {
            if p > 0 {
                let prev = all[before[p - 1] as int];
                lemma_text_le_total(all[k as int], prev);
                assert forall|i: int| 0 <= i < p implies text_le(
                    all[#[trigger] before[i] as int],
                    all[k as int],
                ) by {
                    if i < p - 1 {
                        lemma_text_le_transitive(
                            all[before[i] as int],
                            prev,
                            all[k as int],
                        );
                    }
                }
            }
        }
        asc.insert(p, k);
        proof {
            assert forall|i: int, j: int| 0 <= i < j < asc.len() implies text_le(
                all[#[trigger] asc[i] as int],
                all[#[trigger] asc[j] as int],
            ) && (all[asc[i] as int] == all[asc[j] as int] ==> asc[i] < asc[j]) && asc[i]
                != asc[j] by {}
            assert forall|v: int| 0 <= v < k + 1 implies #[trigger] occurs(asc@, v) by {
                if v == k {
                    assert(asc@[p as int] == v);
                } else {
                    assert(occurs(before, v));
                    let i = choose|i: int| 0 <= i < before.len() && #[trigger] before[i] == v;
                    if i < p {
                        assert(asc@[i] == v);
                    } else {
                        assert(asc@[i + 1] == v);
                    }
                }
            }
        }
        k += 1;
    }
    asc
}

/// At most one order is the rising order of given keys: the contract of
/// `rising_order` leaves no choice.
pub proof fn law_rising_order_is_unique(keys: Seq<Seq<char>>, a: Seq<usize>, b: Seq<usize>)
    requires
        is_rising_order(keys, a),
        is_rising_order(keys, b),
    ensures
        a == b,
{
    assert forall|i: int| 0 <= i < a.len() implies a[i] == b[i] by {
        lemma_orders_agree(keys, a, b, i);
    }
    assert(a =~= b);
}

/// Two rising orders of the same keys hold the same position at `i`.
proof fn lemma_orders_agree(keys: Seq<Seq<char>>, a: Seq<usize>, b: Seq<usize>, i: int)
    requires
        is_rising_order(keys, a),
        is_rising_order(keys, b),
        0 <= i < a.len(),
    ensures
        a[i] == b[i],
    decreases i,
{
    assert forall|k: int| 0 <= k < i implies a[k] == b[k] by {
        lemma_orders_agree(keys, a, b, k);
    }
    let x = a[i];
    let y = b[i];
    if x != y {
        assert(occurs(b, x as int));
        let j = choose|j: int| 0 <= j < b.len() && #[trigger] b[j] == x as int;
        assert(occurs(a, y as int));
        let h = choose|h: int| 0 <= h < a.len() && #[trigger] a[h] == y as int;
        if j < i {
            assert(a[j] == b[j]);
            assert(a[j] != a[i]);
        }
        if h < i {
            assert(b[h] == a[h]);
            assert(b[h] != b[i]);
        }
        assert(i < j && i < h);
        assert(text_le(keys[b[i] as int], keys[b[j] as int]));
        assert(text_le(keys[a[i] as int], keys[a[h] as int]));
        lemma_text_le_antisymmetric(keys[x as int], keys[y as int]);
    }
}

/// Which entry each entry of the list is to show, so that the list reads in
/// the order of the titles: the entries stand newest first, so the first
/// entry gets the last of the titles. `plan[i]` is the position, among the
/// entries, of the one whose first rich message the `i`-th entry is to show.
pub open spec fn is_list_order(titles: Seq<Seq<char>>, plan: Seq<usize>) -> bool {
    is_rising_order(titles, plan.reverse())
}

/// Which entry each entry of the list is to show.
pub fn list_order(titles: &Vec<Vec<char>>) -> (plan: Vec<usize>)
    ensures
        is_list_order(titles@.map_values(|k: Vec<char>| k@), plan@),
{
    let asc = rising_order(titles);
    let mut plan: Vec<usize> = Vec::new();
    let mut i: usize = asc.len();
    while i > 0
        invariant
            i <= asc.len(),
            plan.len() == asc.len() - i,
            forall|j: int| 0 <= j < plan.len() ==> #[trigger] plan[j] == asc[asc.len() - 1 - j],
        decreases i,
    {
        i -= 1;
        plan.push(asc[i]);
    }
    assert(plan@.reverse() =~= asc@);
    plan
}

/// The positions in `messages` of the entries of the list, in their order.
pub open spec fn entries_of(bot: u64, messages: Seq<ListedMessage>) -> Seq<usize>
    decreases messages.len(),
{
    if messages.len() == 0 {
        Seq::empty()
    } else if is_entry(bot, messages.last()) {
        entries_of(bot, messages.drop_last()).push((messages.len() - 1) as usize)
    } else {
        entries_of(bot, messages.drop_last())
    }
}

/// The titles of the entries `entries` of `messages`.
pub open spec fn titles_of(messages: Seq<ListedMessage>, entries: Seq<usize>) -> Seq<Seq<char>> {
    entries.map_values(|i: usize| entry_title(messages[i as int]))
}

/// What is to be done to put the list in order.
#[derive(Debug)]
pub struct SortPlan {
    /// The positions in the channel's messages of the entries of the list.
    pub entries: Vec<usize>,
    /// For each entry, the position among the entries of the one whose
    /// first rich message it is to show.
    pub sources: Vec<usize>,
}

/// Plans the sorting of the list in a channel: finds the entries among
/// `messages` and says which entry is to show which.
pub fn sort_plan(bot: u64, messages: &Vec<ListedMessage>) -> (plan: SortPlan)
    ensures
        plan.entries@ == entries_of(bot, messages@),
        is_list_order(titles_of(messages@, plan.entries@), plan.sources@),
{
    let mut entries: Vec<usize> = Vec::new();
    let mut titles: Vec<Vec<char>> = Vec::new();
    let mut i: usize = 0;
    while i < messages.len()
        invariant
            i <= messages.len(),
            entries@ == entries_of(bot, messages@.take(i as int)),
            forall|k: int| 0 <= k < entries.len() ==> (#[trigger] entries[k]) < i,
            titles@.map_values(|t: Vec<char>| t@) == titles_of(messages@, entries@),
        decreases messages.len() - i,
    {
        let message = &messages[i];
        proof {
            let next = messages@.take(i + 1);
            assert(next.drop_last() == messages@.take(i as int));
        }
        if message.author == bot && message.titles.len() > 0 {
            let ghost before_entries = entries@;
            let title = match &message.titles[0] {
                Some(title) => chars_of(title.as_str()),
                None => Vec::new(),
            };
            entries.push(i);
            titles.push(title);
            proof {
                assert(titles_of(messages@, entries@) =~= titles_of(
                    messages@,
                    before_entries,
                ).push(entry_title(messages[i as int])));
            }
        }
        i += 1;
    }
    proof {
        assert(messages@.take(messages.len() as int) == messages@);
    }
    let sources = list_order(&titles);
    SortPlan { entries, sources }
}

/// The address of a server's icon as a GIF, 64 pixels wide.
pub open spec fn gif_icon_url_text(guild_id: Seq<char>, icon_id: Seq<char>) -> Seq<char> {
    "https://cdn.discordapp.com/icons/"@ + guild_id + "/"@ + icon_id + ".gif?size=64"@
}

/// The plain message that shows the server of the invitation `info`: without
/// a colour, with the code `code` as it stood in the link, and with the icon
/// as a GIF whatever its kind.
pub open spec fn plain_server_embed_model(info: InviteInfo, code: Seq<char>, author: Author) -> EmbedModel {
    EmbedModel {
        title: Some(info.guild.name@),
        description: Some(server_text(info, code)),
        thumbnail: match info.guild.icon {
            Some(icon) => Some(gif_icon_url_text(info.guild.id@, icon@)),
            None => None,
        },
        footer: Some(footer_model(info, author)),
        timestamp: text_of(info.expires_at),
        ..EmbedModel::blank()
    }
}

/// The plain message that shows the server of the invitation `info`, found
/// under the code `code` and asked for by `author`.
pub fn plain_server_embed(info: &InviteInfo, code: &str, author: &Author) -> (e: Embed)
    ensures
        e@ == plain_server_embed_model(*info, code@, *author),
{
    let mut e = Embed::new();
    e.title = Some(owned(info.guild.name.as_str()));
    e.description = Some(server_description(info, code));
    match &info.guild.icon {
        Some(icon_id) => {
            let mut url: Vec<char> = Vec::new();
            push_str(&mut url, "https://cdn.discordapp.com/icons/");
            push_str(&mut url, info.guild.id.as_str());
            push_str(&mut url, "/");
            push_str(&mut url, icon_id.as_str());
            push_str(&mut url, ".gif?size=64");
            e.thumbnail = Some(string_of(&url));
        },
        None => {},
    }
    e.footer = Some(server_footer(info, author));
    e.timestamp = owned_option(&info.expires_at);
    e
}

/// What is asked of the server list.
#[derive(Clone, Copy, Debug, PartialEq, Eq, Structural)]
pub enum ListCommand {
    /// Nothing in particular.
    Overview,
    /// A server is to be added.
    Add,
    /// The list is to be put in order.
    Sort,
}

/// What the first argument asks of the server list.
pub open spec fn routed(c: CursorModel) -> ListCommand {
    if c.has_token() && c.token() == "add"@ {
        ListCommand::Add
    } else if c.has_token() && c.token() == "sort"@ {
        ListCommand::Sort
    } else {
        ListCommand::Overview
    }
}

/// Reads from the arguments what is asked of the server list. The word that
/// asks for it is consumed; any other first word is left where it stood.
pub fn route(args: &mut ArgumentCursor) -> (r: ListCommand)
    requires
        old(args).wf(),
    ensures
        final(args).wf(),
        r == routed(old(args)@),
        final(args)@ == (if r != ListCommand::Overview {
            old(args)@.consume()
        } else if old(args)@.has_token() {
            old(args)@.consume().rewind()
        } else {
            old(args)@
        }),
{
    match args.single() {
        Ok(word) => {
            let chars = chars_of(word.as_str());
            if spells(&chars, "add") {
                ListCommand::Add
            } else if spells(&chars, "sort") {
                ListCommand::Sort
            } else {
                args.rewind();
                ListCommand::Overview
            }
        },
        Err(_) => ListCommand::Overview,
    }
}

} // verus!
