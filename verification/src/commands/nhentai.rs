//! Gallery lookup: the ids in a message, the addresses to ask, and the
//! message that shows a gallery.

use vstd::prelude::*;
use crate::embed::{Embed, EmbedModel, FieldModel, MAIN_COLOUR};
use crate::pattern::{all_captures, capture_all};
use crate::report::{handler_failure, Failure};
use crate::text::{
    chars_of, join, joined_with, owned, push_all, push_str, quoted, signed_decimal,
    signed_decimal_of, spells, string_of, text_of,
};

verus! {

/// What a tag says of a gallery.
#[derive(Clone, Copy, Debug, PartialEq, Eq, Structural)]
pub enum TagType {
    Parody,
    Tag,
    Artist,
    Group,
    Language,
    Category,
    Character,
}

/// A tag of a gallery.
#[derive(Debug)]
pub struct GalleryTagInfo {
    pub id: i64,
    pub tag_type: TagType,
    pub name: String,
    pub url: String,
    pub count: i32,
}

/// An image of a gallery: the letter of its format, its width and height.
#[derive(Debug)]
pub struct GalleryImageInfo {
    pub t: String,
    pub w: i16,
    pub h: i16,
}

/// The images of a gallery.
#[derive(Debug)]
pub struct GalleryImages {
    pub pages: Vec<GalleryImageInfo>,
    pub cover: GalleryImageInfo,
    pub thumbnail: GalleryImageInfo,
}

/// The title of a gallery in its forms.
#[derive(Debug)]
pub struct GalleryTitle {
    pub english: String,
    pub japanese: String,
    pub pretty: String,
}

/// What the service says of a gallery.
#[derive(Debug)]
pub struct GalleryResponse {
    pub id: i32,
    pub media_id: String,
    pub title: GalleryTitle,
    pub images: GalleryImages,
    pub scanlator: String,
    pub tags: Vec<GalleryTagInfo>,
    pub num_pages: i32,
    pub num_favorites: i32,
}

/// The file extension that the letter `raw` stands for; empty for a letter
/// that stands for none.
pub open spec fn extension_text(raw: Seq<char>) -> Seq<char> {
    if raw == "j"@ {
        "jpg"@
    } else if raw == "p"@ {
        "png"@
    } else if raw == "g"@ {
        "gif"@
    } else {
        ""@
    }
}

/// The address of the cover of the gallery with the media id `media_id`.
pub open spec fn cover_url_text(media_id: Seq<char>, raw: Seq<char>) -> Seq<char> {
    "https://t.nhentai.net/galleries/"@ + media_id + "/cover."@ + extension_text(raw)
}

/// The file extension that the letter `raw_ext` stands for.
pub fn parse_extension(raw_ext: &str) -> (ext: String)
    ensures
        ext@ == extension_text(raw_ext@),
{
    let raw = chars_of(raw_ext);
    let ext = if spells(&raw, "j") {
        chars_of("jpg")
    } else if spells(&raw, "p") {
        chars_of("png")
    } else if spells(&raw, "g") {
        chars_of("gif")
    } else {
        chars_of("")
    };
    string_of(&ext)
}

/// The address of the cover of the gallery with the media id `media_id`,
/// whose format has the letter `cover_ext_raw`.
pub fn get_cover_url(media_id: &str, cover_ext_raw: &str) -> (url: String)
    ensures
        url@ == cover_url_text(media_id@, cover_ext_raw@),
{
    let cover_ext = parse_extension(cover_ext_raw);
    let mut out: Vec<char> = Vec::new();
    push_str(&mut out, "https://t.nhentai.net/galleries/");
    push_str(&mut out, media_id);
    push_str(&mut out, "/cover.");
    push_str(&mut out, cover_ext.as_str());
    string_of(&out)
}

/// The tags that references stand for.
pub open spec fn tags_behind(refs: Seq<&GalleryTagInfo>) -> Seq<GalleryTagInfo> {
    refs.map_values(|t: &GalleryTagInfo| *t)
}

/// Those of `tags` that are of the type `tag_type`, in their order.
pub open spec fn of_type(tags: Seq<GalleryTagInfo>, tag_type: TagType) -> Seq<GalleryTagInfo> {
    tags.filter(|t: GalleryTagInfo| t.tag_type == tag_type)
}

/// Those of `tags` that are of the type `tag_type`, in their order.
pub fn filter_tags_by_type(tags: &Vec<GalleryTagInfo>, tag_type: TagType) -> (found: Vec<
    &GalleryTagInfo,
>)
    ensures
        tags_behind(found@) == of_type(tags@, tag_type),
{
    let ghost wanted = |t: GalleryTagInfo| t.tag_type == tag_type;
    let mut found: Vec<&GalleryTagInfo> = Vec::new();
    let mut i: usize = 0;
    assert(tags@.take(0).filter(wanted) =~= Seq::empty()) by {
        Seq::<GalleryTagInfo>::lemma_filter_len(tags@.take(0), wanted);
    }
    while i < tags.len()
        invariant
            i <= tags.len(),
            wanted == |t: GalleryTagInfo| t.tag_type == tag_type,
            tags_behind(found@) == tags@.take(i as int).filter(wanted),
        decreases tags.len() - i,
    {
        proof {
            assert(tags@.take(i + 1) == tags@.take(i as int).push(tags[i as int]));
            Seq::lemma_filter_push(tags@.take(i as int), tags[i as int], wanted);
        }
        if tags[i].tag_type == tag_type {
            found.push(&tags[i]);
        }
        i += 1;
    }
    proof {
        assert(tags@.take(tags.len() as int) == tags@);
    }
    found
}

/// The names of `tags`, each between backticks, with a comma and a blank
/// between each two.
pub open spec fn tag_items_text(tags: Seq<GalleryTagInfo>) -> Seq<char> {
    joined_with(tags.map_values(|t: GalleryTagInfo| quoted(t.name@)), ", "@)
}

/// The names of `tags`, each between backticks, with a comma and a blank
/// between each two.
pub fn format_tag_items(tags: &Vec<&GalleryTagInfo>) -> (text: String)
    ensures
        text@ == tag_items_text(tags_behind(tags@)),
{
    let ghost names = tags_behind(tags@).map_values(|t: GalleryTagInfo| quoted(t.name@));
    let mut parts: Vec<Vec<char>> = Vec::new();
    let mut i: usize = 0;
    while i < tags.len()
        invariant
            i <= tags.len(),
            names == tags_behind(tags@).map_values(|t: GalleryTagInfo| quoted(t.name@)),
            parts@.map_values(|p: Vec<char>| p@) == names.take(i as int),
        decreases tags.len() - i,
    {
        let mut part: Vec<char> = Vec::new();
        push_str(&mut part, "`");
        push_str(&mut part, tags[i].name.as_str());
        push_str(&mut part, "`");
        proof {
            assert(names.take(i + 1) == names.take(i as int).push(names[i as int]));
        }
        parts.push(part);
        i += 1;
    }
    proof {
        assert(names.take(tags.len() as int) == names);
    }
    let text = join(&parts, ", ");
    string_of(&text)
}

/// A line for the tags of one type under `label`; nothing where there is no
/// such tag.
pub open spec fn section_text(label: Seq<char>, tags: Seq<GalleryTagInfo>) -> Seq<char> {
    if tags.len() == 0 {
        Seq::empty()
    } else {
        label + tag_items_text(tags)
    }
}

/// The tags of a gallery as text: the plain tags first, then a line for
/// each other type that the gallery has tags of.
pub open spec fn tag_string_text(all: Seq<GalleryTagInfo>) -> Seq<char> {
    tag_items_text(of_type(all, TagType::Tag)) + "\n"@ + section_text(
        "\n Parodies: "@,
        of_type(all, TagType::Parody),
    ) + section_text("\n Characters: "@, of_type(all, TagType::Character)) + section_text(
        "\n Artists: "@,
        of_type(all, TagType::Artist),
    ) + section_text("\n Groups: "@, of_type(all, TagType::Group)) + section_text(
        "\n Languages: "@,
        of_type(all, TagType::Language),
    ) + section_text("\n Categories: "@, of_type(all, TagType::Category))
}

fn push_section(out: &mut Vec<char>, label: &str, all: &Vec<GalleryTagInfo>, tag_type: TagType)
    ensures
        final(out)@ == old(out)@ + section_text(label@, of_type(all@, tag_type)),
{
    let found = filter_tags_by_type(all, tag_type);
    if found.len() > 0 {
        push_str(out, label);
        let items = format_tag_items(&found);
        push_str(out, items.as_str());
    }
}

/// The tags of a gallery as text.
pub fn build_tag_string(all_tags: &Vec<GalleryTagInfo>) -> (text: String)
    ensures
        text@ == tag_string_text(all_tags@),
{
    let tags = filter_tags_by_type(all_tags, TagType::Tag);
    let mut out: Vec<char> = Vec::new();
    let items = format_tag_items(&tags);
    push_str(&mut out, items.as_str());
    push_str(&mut out, "\n");
    push_section(&mut out, "\n Parodies: ", all_tags, TagType::Parody);
    push_section(&mut out, "\n Characters: ", all_tags, TagType::Character);
    push_section(&mut out, "\n Artists: ", all_tags, TagType::Artist);
    push_section(&mut out, "\n Groups: ", all_tags, TagType::Group);
    push_section(&mut out, "\n Languages: ", all_tags, TagType::Language);
    push_section(&mut out, "\n Categories: ", all_tags, TagType::Category);
    string_of(&out)
}

/// The expression that finds the gallery ids in a message: one to six
/// digits, then commas, white space or the end.
pub open spec fn id_pattern() -> Seq<char> {
    "([0-9]{1,6})(?:,|\\s|$)+"@
}

/// Those of `groups` that hold a text, in their order.
pub open spec fn present(groups: Seq<Option<Seq<char>>>) -> Seq<Seq<char>>
    decreases groups.len(),
{
    if groups.len() == 0 {
        Seq::empty()
    } else {
        match groups.last() {
            Some(text) => present(groups.drop_last()).push(text),
            None => present(groups.drop_last()),
        }
    }
}

/// The gallery ids in `message`, from left to right.
pub open spec fn ids_in(message: Seq<char>) -> Seq<Seq<char>> {
    present(all_captures(id_pattern(), message))
}

/// The texts that `groups` hold, in their order.
pub fn present_of(groups: Vec<Option<String>>) -> (found: Vec<String>)
    ensures
        found@.map_values(|s: String| s@) == present(
            groups@.map_values(|g: Option<String>| text_of(g)),
        ),
{
    let ghost all = groups@.map_values(|g: Option<String>| text_of(g));
    let mut found: Vec<String> = Vec::new();
    for group in it: groups
        invariant
            it.seq().map_values(|g: Option<String>| text_of(g)) == all,
            found@.map_values(|s: String| s@) == present(all.take(it.index())),
    {
        proof {
            let next = all.take(it.index() + 1);
            assert(next.drop_last() == all.take(it.index()));
        }
        match group {
            Some(text) => {
                found.push(text);
            },
            None => {},
        }
    }
    proof {
        assert(all.take(all.len() as int) == all);
    }
    found
}

/// The gallery ids in `message`, from left to right.
pub fn find_ids(message: &str) -> (ids: Vec<String>)
    ensures
        ids@.map_values(|s: String| s@) == ids_in(message@),
{
    present_of(capture_all("([0-9]{1,6})(?:,|\\s|$)+", message))
}

/// The address at which the service tells of the gallery `id`.
pub open spec fn api_url_text(id: Seq<char>) -> Seq<char> {
    "https://nhentai.net/api/gallery/"@ + id
}

/// What is asked of the service for the ids `ids`: one address for each, in
/// their order; a failure where there is no id.
pub open spec fn planned(ids: Seq<Seq<char>>) -> Result<Seq<Seq<char>>, Seq<char>> {
    if ids.len() == 0 {
        Err("Please supply a valid nhentai ID as an argument"@)
    } else {
        Ok(ids.map_values(|id: Seq<char>| api_url_text(id)))
    }
}

/// The addresses to ask for the ids `ids`.
pub fn plan_for(ids: &Vec<String>) -> (r: Result<Vec<String>, Failure>)
    ensures
        match planned(ids@.map_values(|s: String| s@)) {
            Ok(urls) => r matches Ok(found) && found@.map_values(|s: String| s@) == urls,
            Err(text) => r matches Err(failure) && failure.is_handler(text),
        },
{
    let ghost all = ids@.map_values(|s: String| s@);
    if ids.len() == 0 {
        return Err(handler_failure("Please supply a valid nhentai ID as an argument"));
    }
    let ghost wanted = all.map_values(|id: Seq<char>| api_url_text(id));
    let mut urls: Vec<String> = Vec::new();
    let mut i: usize = 0;
    while i < ids.len()
        invariant
            i <= ids.len(),
            all == ids@.map_values(|s: String| s@),
            wanted == all.map_values(|id: Seq<char>| api_url_text(id)),
            urls@.map_values(|s: String| s@) == wanted.take(i as int),
        decreases ids.len() - i,
    {
        let mut out: Vec<char> = Vec::new();
        push_str(&mut out, "https://nhentai.net/api/gallery/");
        push_str(&mut out, ids[i].as_str());
        let url = string_of(&out);
        proof {
            assert(wanted.take(i + 1) == wanted.take(i as int).push(wanted[i as int]));
        }
        urls.push(url);
        i += 1;
    }
    Ok(urls)
}

/// The addresses to ask for the galleries that `message` names.
pub fn plan(message: &str) -> (r: Result<Vec<String>, Failure>)
    ensures
        match planned(ids_in(message@)) {
            Ok(urls) => r matches Ok(found) && found@.map_values(|s: String| s@) == urls,
            Err(text) => r matches Err(failure) && failure.is_handler(text),
        },
{
    let ids = find_ids(message);
    plan_for(&ids)
}

/// The failure for an answer of the service that cannot be read.
pub fn unreadable_response() -> (f: Failure)
    ensures
        f.is_handler("There was an error parsing the nhentai api response"@),
{
    handler_failure("There was an error parsing the nhentai api response")
}

/// The address of the gallery with the number `id`.
pub open spec fn gallery_url_text(id: int) -> Seq<char> {
    "https://nhentai.net/g/"@ + signed_decimal(id)
}

/// The numbers of a gallery in a line.
pub open spec fn stats_text(pages: int, favorites: int) -> Seq<char> {
    "**"@ + signed_decimal(pages) + "** pages, **"@ + signed_decimal(favorites)
        + "** favorites"@
}

/// The message that shows a gallery: its title, its address, its cover, its
/// tags and its numbers.
pub open spec fn gallery_embed_model(data: GalleryResponse) -> EmbedModel {
    EmbedModel {
        colour: Some(MAIN_COLOUR),
        title: Some(data.title.pretty@),
        url: Some(gallery_url_text(data.id as int)),
        thumbnail: Some(cover_url_text(data.media_id@, data.images.cover.t@)),
        fields: seq![
            FieldModel { name: "Tags"@, value: tag_string_text(data.tags@), inline: false },
            FieldModel {
                name: "Stats"@,
                value: stats_text(data.num_pages as int, data.num_favorites as int),
                inline: false,
            },
        ],
        ..EmbedModel::blank()
    }
}

/// The message that shows the gallery `data`.
pub fn gallery_embed(data: &GalleryResponse) -> (e: Embed)
    ensures
        e@ == gallery_embed_model(*data),
{
    let mut url: Vec<char> = Vec::new();
    push_str(&mut url, "https://nhentai.net/g/");
    let id = signed_decimal_of(data.id as i64);
    push_all(&mut url, &id);
    let mut stats: Vec<char> = Vec::new();
    push_str(&mut stats, "**");
    let pages = signed_decimal_of(data.num_pages as i64);
    push_all(&mut stats, &pages);
    push_str(&mut stats, "** pages, **");
    let favorites = signed_decimal_of(data.num_favorites as i64);
    push_all(&mut stats, &favorites);
    push_str(&mut stats, "** favorites");
    let mut e = Embed::new();
    e.colour = Some(MAIN_COLOUR);
    e.title = Some(owned(data.title.pretty.as_str()));
    e.url = Some(string_of(&url));
    e.thumbnail = Some(get_cover_url(data.media_id.as_str(), data.images.cover.t.as_str()));
    e.field(owned("Tags"), build_tag_string(&data.tags), false);
    e.field(owned("Stats"), string_of(&stats), false);
    assert(e@.fields =~= gallery_embed_model(*data).fields);
    e
}

} // verus!
