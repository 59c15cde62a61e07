//! Rich messages: what a command sends, as plain values.

use vstd::prelude::*;
use crate::text::text_of;

verus! {

/// The colour of the panel of an ordinary answer.
pub const MAIN_COLOUR: u32 = 0x3498DB;

/// A titled part of a rich message.
#[derive(Debug)]
pub struct Field {
    pub name: String,
    pub value: String,
    pub inline: bool,
}

/// A field, as texts.
pub struct FieldModel {
    pub name: Seq<char>,
    pub value: Seq<char>,
    pub inline: bool,
}

impl View for Field {
    type V = FieldModel;

    open spec fn view(&self) -> FieldModel {
        FieldModel { name: self.name@, value: self.value@, inline: self.inline }
    }
}

/// The line at the foot of a rich message.
#[derive(Debug)]
pub struct Footer {
    pub text: String,
    pub icon_url: Option<String>,
}

/// A footer, as texts.
pub struct FooterModel {
    pub text: Seq<char>,
    pub icon_url: Option<Seq<char>>,
}

impl View for Footer {
    type V = FooterModel;

    open spec fn view(&self) -> FooterModel {
        FooterModel { text: self.text@, icon_url: text_of(self.icon_url) }
    }
}

/// A rich message.
#[derive(Debug)]
pub struct Embed {
    pub colour: Option<u32>,
    pub title: Option<String>,
    pub url: Option<String>,
    pub description: Option<String>,
    pub thumbnail: Option<String>,
    pub fields: Vec<Field>,
    pub footer: Option<Footer>,
    pub timestamp: Option<String>,
}

/// A rich message, as texts.
pub struct EmbedModel {
    pub colour: Option<u32>,
    pub title: Option<Seq<char>>,
    pub url: Option<Seq<char>>,
    pub description: Option<Seq<char>>,
    pub thumbnail: Option<Seq<char>>,
    pub fields: Seq<FieldModel>,
    pub footer: Option<FooterModel>,
    pub timestamp: Option<Seq<char>>,
}

impl View for Embed {
    type V = EmbedModel;

    open spec fn view(&self) -> EmbedModel {
        EmbedModel {
            colour: self.colour,
            title: text_of(self.title),
            url: text_of(self.url),
            description: text_of(self.description),
            thumbnail: text_of(self.thumbnail),
            fields: self.fields@.map_values(|f: Field| f@),
            footer: match self.footer {
                Some(f) => Some(f@),
                None => None,
            },
            timestamp: text_of(self.timestamp),
        }
    }
}

impl EmbedModel {
    /// A rich message that holds nothing.
    pub open spec fn blank() -> EmbedModel {
        EmbedModel {
            colour: None,
            title: None,
            url: None,
            description: None,
            thumbnail: None,
            fields: Seq::empty(),
            footer: None,
            timestamp: None,
        }
    }

    /// A panel in the main colour with a title and a text.
    pub open spec fn titled(title: Seq<char>, description: Seq<char>) -> EmbedModel {
        EmbedModel {
            colour: Some(MAIN_COLOUR),
            title: Some(title),
            description: Some(description),
            ..EmbedModel::blank()
        }
    }
}

impl Embed {
    /// A rich message that holds nothing.
    pub fn new() -> (e: Embed)
        ensures
            e@ == EmbedModel::blank(),
    {
        let e = Embed {
            colour: None,
            title: None,
            url: None,
            description: None,
            thumbnail: None,
            fields: Vec::new(),
            footer: None,
            timestamp: None,
        };
        assert(e.fields@.map_values(|f: Field| f@) =~= Seq::empty());
        e
    }

    /// A panel in the main colour with a title and a text.
    pub fn titled(title: String, description: String) -> (e: Embed)
        ensures
            e@ == EmbedModel::titled(title@, description@),
    {
        let mut e = Embed::new();
        e.colour = Some(MAIN_COLOUR);
        e.title = Some(title);
        e.description = Some(description);
        e
    }

    /// Adds a field at the end.
    pub fn field(&mut self, name: String, value: String, inline: bool)
        ensures
            final(self)@ == (EmbedModel {
                fields: old(self)@.fields.push(FieldModel { name: name@, value: value@, inline }),
                ..old(self)@
            }),
    {
        let ghost before = self.fields@.map_values(|f: Field| f@);
        self.fields.push(Field { name, value, inline });
        assert(self.fields@.map_values(|f: Field| f@) =~= before.push(
            FieldModel { name: name@, value: value@, inline },
        ));
    }
}

} // verus!
