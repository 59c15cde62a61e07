//! Manual pages in short: which page is asked for, where it is looked for,
//! and what is made of each response.

use vstd::prelude::*;
use crate::cursor::{
    law_consume_counts, law_rewind_after_consume, ArgumentCursor, CursorModel,
};
use crate::embed::{Embed, EmbedModel};
use crate::report::{handler_failure, Failure};
use crate::text::{
    chars_of, decimal, decimal_of, join, joined_with, push_all, push_str, slice_of, spells,
    string_of,
};

verus! {

/// The position of the first line feed of `s` at or after `i`, or the length
/// of `s` if there is none.
pub open spec fn line_end(s: Seq<char>, i: int) -> int
    decreases s.len() - i,
{
    if 0 <= i < s.len() && s[i] != '\n' {
        line_end(s, i + 1)
    } else {
        i
    }
}

/// The end of a line lies in the text, at a line feed or at the end.
pub proof fn lemma_line_end(s: Seq<char>, i: int)
    requires
        0 <= i <= s.len(),
    ensures
        i <= line_end(s, i) <= s.len(),
        line_end(s, i) < s.len() ==> s[line_end(s, i)] == '\n',
    decreases s.len() - i,
{
    if i < s.len() && s[i] != '\n' {
        lemma_line_end(s, i + 1);
    }
}

/// The line of `s` that begins at `start`, without its line ending: a line
/// feed, or a carriage return and a line feed.
pub open spec fn line_at(s: Seq<char>, start: int) -> Seq<char> {
    let end = line_end(s, start);
    if end < s.len() && start < end && s[end - 1] == '\r' {
        s.subrange(start, end - 1)
    } else {
        s.subrange(start, end)
    }
}

/// The lines of `s` from `start` on. The last line needs no line ending, and
/// a line ending at the very end begins no further line.
pub open spec fn lines_from(s: Seq<char>, start: int) -> Seq<Seq<char>>
    decreases s.len() + 1 - start,
{
    if 0 <= start < s.len() {
        proof {
            lemma_line_end(s, start);
        }
        seq![line_at(s, start)] + lines_from(s, line_end(s, start) + 1)
    } else {
        Seq::empty()
    }
}

/// The first position of `line` at or after `i` that holds neither a blank
/// nor a hash sign.
pub open spec fn heading_start(line: Seq<char>, i: int) -> int
    decreases line.len() - i,
{
    if 0 <= i < line.len() && (line[i] == ' ' || line[i] == '#') {
        heading_start(line, i + 1)
    } else {
        i
    }
}

/// The title and the text of a page: the first line without the blanks and
/// hash signs at its start, and the lines behind it. An empty page has none.
pub open spec fn page_content(body: Seq<char>) -> Option<(Seq<char>, Seq<char>)> {
    let lines = lines_from(body, 0);
    if lines.len() == 0 {
        None
    } else {
        Some(
            (
                lines[0].subrange(heading_start(lines[0], 0), lines[0].len() as int),
                joined_with(lines.drop_first(), "\n"@),
            ),
        )
    }
}

/// The lines of `body`.
pub fn split_lines(body: &Vec<char>) -> (lines: Vec<Vec<char>>)
    ensures
        lines@.map_values(|l: Vec<char>| l@) == lines_from(body@, 0),
{
    let mut lines: Vec<Vec<char>> = Vec::new();
    let mut start: usize = 0;
    while start < body.len()
        invariant
            start <= body.len(),
            lines_from(body@, 0) == lines@.map_values(|l: Vec<char>| l@) + lines_from(
                body@,
                start as int,
            ),
        decreases body.len() - start,
    {
        let mut end: usize = start;
        while end < body.len() && body[end] != '\n'
            invariant
                start <= end <= body.len(),
                line_end(body@, start as int) == line_end(body@, end as int),
            decreases body.len() - end,
        {
            end += 1;
        }
        let stop: usize = if end < body.len() && start < end && body[end - 1] == '\r' {
            end - 1
        } else {
            end
        };
        let line = slice_of(body, start, stop);
        let ghost before = lines@.map_values(|l: Vec<char>| l@);
        lines.push(line);
        proof {
            assert(before.push(line@) + lines_from(body@, end + 1) == before + (seq![line@]
                + lines_from(body@, end + 1)));
        }
        if end == body.len() {
            start = end;
        } else {
            start = end + 1;
        }
    }
    proof {
        assert(lines@.map_values(|l: Vec<char>| l@) + Seq::<Seq<char>>::empty()
            == lines@.map_values(|l: Vec<char>| l@));
    }
    lines
}

/// The title and the text of the page `tldr_body`.
pub fn get_tldr_content_from_markdown(tldr_body: &str) -> (r: Option<(String, String)>)
    ensures
        match r {
            Some((title, text)) => page_content(tldr_body@) == Some((title@, text@)),
            None => page_content(tldr_body@) is None,
        },
{
    let body = chars_of(tldr_body);
    let lines = split_lines(&body);
    if lines.len() == 0 {
        return None;
    }
    let ghost all = lines@.map_values(|l: Vec<char>| l@);
    let first = &lines[0];
    let mut from: usize = 0;
    while from < first.len() && (first[from] == ' ' || first[from] == '#')
        invariant
            from <= first.len(),
            heading_start(first@, 0) == heading_start(first@, from as int),
        decreases first.len() - from,
    {
        from += 1;
    }
    let title = slice_of(first, from, first.len());
    let mut rest = lines;
    rest.remove(0);
    assert(rest@.map_values(|l: Vec<char>| l@) == all.drop_first());
    let text = join(&rest, "\n");
    Some((string_of(&title), string_of(&text)))
}

/// The page that is asked for.
#[derive(Debug)]
pub struct TldrQuery {
    /// The platform whose pages are searched first.
    pub platform: String,
    /// The command whose page is wanted.
    pub search: String,
}

/// A page that is asked for, as texts.
pub struct QueryModel {
    pub platform: Seq<char>,
    pub search: Seq<char>,
}

impl View for TldrQuery {
    type V = QueryModel;

    open spec fn view(&self) -> QueryModel {
        QueryModel { platform: self.platform@, search: self.search@ }
    }
}

/// Whether `name` is one of the platforms that have pages of their own.
pub open spec fn is_platform(name: Seq<char>) -> bool {
    name == "linux"@ || name == "windows"@ || name == "macos"@
}

/// What the arguments ask for: with one argument, the page of that command
/// for Linux; with two, the first is taken for the platform, or Linux if it
/// names none, and the second for the command.
pub open spec fn planned(c: CursorModel) -> Result<QueryModel, Seq<char>> {
    if c.remaining() == 1 {
        Ok(QueryModel { platform: "linux"@, search: c.token() })
    } else if c.remaining() == 2 {
        Ok(
            QueryModel {
                platform: if is_platform(c.token()) {
                    c.token()
                } else {
                    "linux"@
                },
                search: c.consume().token(),
            },
        )
    } else {
        Err("Invalid number of arguments"@)
    }
}

/// Reads from the arguments which page is asked for.
pub fn plan(args: ArgumentCursor) -> (r: Result<TldrQuery, Failure>)
    requires
        args.wf(),
    ensures
        match planned(args@) {
            Ok(query) => r matches Ok(found) && found@ == query,
            Err(text) => r matches Err(failure) && failure.is_handler(text),
        },
{
    let mut args = args;
    let count = args.len();
    proof {
        law_consume_counts(args@);
        if args@.has_token() {
            law_rewind_after_consume(args@);
            law_consume_counts(args@.consume());
        }
    }
    if count == 1 {
        match args.single() {
            Ok(search) => Ok(TldrQuery { platform: string_of(&chars_of("linux")), search }),
            Err(_) => Err(handler_failure("Invalid number of arguments")),
        }
    } else if count == 2 {
        let first = match args.single() {
            Ok(first) => first,
            Err(_) => {
                return Err(handler_failure("Invalid number of arguments"));
            },
        };
        let search = match args.single() {
            Ok(search) => search,
            Err(_) => {
                return Err(handler_failure("Invalid number of arguments"));
            },
        };
        let named = chars_of(first.as_str());
        let platform = if spells(&named, "linux") || spells(&named, "windows") || spells(
            &named,
            "macos",
        ) {
            first
        } else {
            string_of(&chars_of("linux"))
        };
        Ok(TldrQuery { platform, search })
    } else {
        Err(handler_failure("Invalid number of arguments"))
    }
}

/// The address of the page of `search` among the pages of `platform`.
pub open spec fn page_url_text(platform: Seq<char>, search: Seq<char>) -> Seq<char> {
    "https://raw.githubusercontent.com/tldr-pages/tldr/master/pages/"@ + platform + "/"@ + search
        + ".md"@
}

/// The addresses at which the page is looked for, in their order: among the
/// pages of the platform, then among the common pages.
pub open spec fn page_urls_text(query: QueryModel) -> Seq<Seq<char>> {
    seq![page_url_text(query.platform, query.search), page_url_text("common"@, query.search)]
}

/// The address of the page of `search` among the pages of `platform`.
pub fn page_url(platform: &str, search: &str) -> (url: String)
    ensures
        url@ == page_url_text(platform@, search@),
{
    let mut out: Vec<char> = Vec::new();
    push_str(&mut out, "https://raw.githubusercontent.com/tldr-pages/tldr/master/pages/");
    push_str(&mut out, platform);
    push_str(&mut out, "/");
    push_str(&mut out, search);
    push_str(&mut out, ".md");
    string_of(&out)
}

/// The addresses at which the page is looked for, in their order.
pub fn page_urls(query: &TldrQuery) -> (urls: Vec<String>)
    ensures
        urls@.map_values(|u: String| u@) == page_urls_text(query@),
{
    let mut urls: Vec<String> = Vec::new();
    urls.push(page_url(query.platform.as_str(), query.search.as_str()));
    urls.push(page_url("common", query.search.as_str()));
    urls
}

/// What is to be done next in the search for a page.
#[derive(Debug)]
pub enum TldrAction {
    /// The page is to be asked for at this address.
    Fetch(String),
    /// The page was found: this message is to be sent.
    Send(Embed),
    /// The page is nowhere: this sentence is to be sent.
    Say(String),
    /// The search failed.
    Fail(Failure),
}

/// An action, as texts.
pub enum ActionModel {
    Fetch(Seq<char>),
    Send(EmbedModel),
    Say(Seq<char>),
    Fail(Seq<char>),
}

/// Whether `action` is the action that `model` describes.
pub open spec fn is_action(action: TldrAction, model: ActionModel) -> bool {
    match model {
        ActionModel::Fetch(url) => action matches TldrAction::Fetch(u) && u@ == url,
        ActionModel::Send(embed) => action matches TldrAction::Send(e) && e@ == embed,
        ActionModel::Say(text) => action matches TldrAction::Say(t) && t@ == text,
        ActionModel::Fail(text) => action matches TldrAction::Fail(f) && f.is_handler(text),
    }
}

/// The sentence for a page that is nowhere.
pub open spec fn missing_page_text(search: Seq<char>) -> Seq<char> {
    "Could not find a tl:dr page for '"@ + search + "'"@
}

/// What follows the response with the status `status` and the body `body`
/// from the `attempt`-th address. A page that is not there sends the search
/// on to the next address, or ends it where there is none; a page that is
/// there is shown; any other status ends the search with a failure.
pub open spec fn next_action(query: QueryModel, attempt: nat, status: u16, body: Seq<char>) -> ActionModel {
    if status == 404 {
        if attempt + 1 < page_urls_text(query).len() {
            ActionModel::Fetch(page_urls_text(query)[attempt as int + 1])
        } else {
            ActionModel::Say(missing_page_text(query.search))
        }
    } else if status == 200 {
        match page_content(body) {
            Some((title, text)) => ActionModel::Send(EmbedModel::titled(title, text)),
            None => ActionModel::Fail("There was an error while parsing the markdown"@),
        }
    } else {
        ActionModel::Fail("Unexpected response status: "@ + decimal(status as nat))
    }
}

/// The first action of a search: the page is asked for at the first address.
pub fn first_action(query: &TldrQuery) -> (action: TldrAction)
    ensures
        is_action(action, ActionModel::Fetch(page_urls_text(query@)[0])),
{
    TldrAction::Fetch(page_url(query.platform.as_str(), query.search.as_str()))
}

/// Decides what follows the response with the status `status` and the body
/// `body` from the `attempt`-th address.
pub fn on_response(query: &TldrQuery, attempt: usize, status: u16, body: &str) -> (action:
    TldrAction)
    ensures
        is_action(action, next_action(query@, attempt as nat, status, body@)),
{
    if status == 404 {
        if attempt == 0 {
            TldrAction::Fetch(page_url("common", query.search.as_str()))
        } else {
            let mut out: Vec<char> = Vec::new();
            push_str(&mut out, "Could not find a tl:dr page for '");
            push_str(&mut out, query.search.as_str());
            push_str(&mut out, "'");
            TldrAction::Say(string_of(&out))
        }
    } else if status == 200 {
        match get_tldr_content_from_markdown(body) {
            Some((title, text)) => TldrAction::Send(Embed::titled(title, text)),
            None => TldrAction::Fail(
                handler_failure("There was an error while parsing the markdown"),
            ),
        }
    } else {
        let mut out: Vec<char> = Vec::new();
        push_str(&mut out, "Unexpected response status: ");
        let digits = decimal_of(status as u64);
        push_all(&mut out, &digits);
        let message = string_of(&out);
        TldrAction::Fail(handler_failure(message.as_str()))
    }
}

} // verus!
