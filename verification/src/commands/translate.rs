//! Translation: the languages, the request and the answer.

use vstd::prelude::*;
use crate::cursor::{ArgumentCursor, CursorModel, ParseError};
use crate::embed::{Embed, EmbedModel};
use crate::json::{parse_json, parsed_json, values_of, Json, JsonModel};
use crate::report::{handler_failure, Failure};
use crate::text::{
    chars_of, lowercase, lowered, owned, push_all, push_str, raised, same_chars, string_of,
    uppercase,
};

verus! {

/// The number of rows of `LANGUAGES`.
pub const LANGUAGE_ROWS: usize = 222;

/// The names under which a language can be asked for, each with the code of
/// the language. A name is looked up with its ASCII capitals made small, so
/// a row whose name holds a capital is never found.
pub const LANGUAGES: [(&'static str, &'static str); 222] = [
    ("afrikaans", "af"),
    ("af", "af"),
    ("albanian", "sq"),
    ("sq", "sq"),
    ("amharic", "am"),
    ("am", "am"),
    ("arabic", "ar"),
    ("ar", "ar"),
    ("armenian", "hy"),
    ("hy", "hy"),
    ("azerbaijani", "az"),
    ("az", "az"),
    ("basque", "eu"),
    ("eu", "eu"),
    ("belarusian", "be"),
    ("be", "be"),
    ("bengali", "bn"),
    ("bn", "bn"),
    ("bosnian", "bs"),
    ("bs", "bs"),
    ("bulgarian", "bg"),
    ("bg", "bg"),
    ("catalan", "ca"),
    ("ca", "ca"),
    ("cebuano", "ceb"),
    ("ceb", "ceb"),
    ("chinese", "zh"),
    ("zh-CN", "zh"),
    ("zh", "zh"),
    ("zh-TW", "zh-TW"),
    ("corsican", "co"),
    ("co", "co"),
    ("croatian", "hr"),
    ("hr", "hr"),
    ("czech", "cs"),
    ("cs", "cs"),
    ("danish", "da"),
    ("da", "da"),
    ("dutch", "nl"),
    ("nl", "nl"),
    ("english", "en"),
    ("en", "en"),
    ("esperanto", "eo"),
    ("eo", "eo"),
    ("estonian", "et"),
    ("et", "et"),
    ("finnish", "fi"),
    ("fi", "fi"),
    ("french", "fr"),
    ("fr", "fr"),
    ("frisian", "fy"),
    ("fy", "fy"),
    ("galician", "gl"),
    ("gl", "gl"),
    ("georgian", "ka"),
    ("ka", "ka"),
    ("german", "de"),
    ("de", "de"),
    ("greek", "el"),
    ("el", "el"),
    ("gujarati", "gu"),
    ("gu", "gu"),
    ("haitian", "ht"),
    ("creole", "ht"),
    ("ht", "ht"),
    ("hausa", "ha"),
    ("ha", "ha"),
    ("hawaiian", "haw"),
    ("haw", "haw"),
    ("hebrew", "iw"),
    ("he", "iw"),
    ("iw", "iw"),
    ("hindi", "hi"),
    ("hi", "hi"),
    ("hmong", "hmn"),
    ("hmn", "hmn"),
    ("hungarian", "hu"),
    ("hu", "hu"),
    ("icelandic", "is"),
    ("is", "is"),
    ("igbo", "ig"),
    ("ig", "ig"),
    ("indonesian", "id"),
    ("id", "id"),
    ("irish", "ga"),
    ("ga", "ga"),
    ("italian", "it"),
    ("it", "it"),
    ("japanese", "ja"),
    ("jp", "ja"),
    ("ja", "ja"),
    ("javanese", "jv"),
    ("jv", "jv"),
    ("kannada", "kn"),
    ("kn", "kn"),
    ("kazakh", "kk"),
    ("kk", "kk"),
    ("khmer", "km"),
    ("km", "km"),
    ("kinyarwanda", "rw"),
    ("rw", "rw"),
    ("korean", "ko"),
    ("ko", "ko"),
    ("kurdish", "ku"),
    ("ku", "ku"),
    ("kyrgyz", "ky"),
    ("ky", "ky"),
    ("lao", "lo"),
    ("lo", "lo"),
    ("latin", "la"),
    ("la", "la"),
    ("latvian", "lv"),
    ("lv", "lv"),
    ("lithuanian", "lt"),
    ("lt", "lt"),
    ("luxembourgish", "lb"),
    ("lb", "lb"),
    ("macedonian", "mk"),
    ("mk", "mk"),
    ("malagasy", "mg"),
    ("mg", "mg"),
    ("malay", "ms"),
    ("ms", "ms"),
    ("malayalam", "ml"),
    ("ml", "ml"),
    ("maltese", "mt"),
    ("mt", "mt"),
    ("maori", "mi"),
    ("mi", "mi"),
    ("marathi", "mr"),
    ("mr", "mr"),
    ("mongolian", "mn"),
    ("mn", "mn"),
    ("myanmar", "my"),
    ("my", "my"),
    ("nepali", "ne"),
    ("ne", "ne"),
    ("norwegian", "no"),
    ("no", "no"),
    ("nyanja", "ny"),
    ("ny", "ny"),
    ("odia", "or"),
    ("or", "or"),
    ("pashto", "ps"),
    ("ps", "ps"),
    ("persian", "fa"),
    ("fa", "fa"),
    ("polish", "pl"),
    ("pl", "pl"),
    ("portuguese", "pt"),
    ("pt", "pt"),
    ("punjabi", "pa"),
    ("pa", "pa"),
    ("romanian", "ro"),
    ("ro", "ro"),
    ("russian", "ru"),
    ("ru", "ru"),
    ("samoan", "sm"),
    ("sm", "sm"),
    ("scots", "gd"),
    ("gaelic", "gd"),
    ("gd", "gd"),
    ("serbian", "sr"),
    ("sr", "sr"),
    ("sesotho", "st"),
    ("st", "st"),
    ("shona", "sn"),
    ("sn", "sn"),
    ("sindhi", "sd"),
    ("sd", "sd"),
    ("sinhala", "si"),
    ("si", "si"),
    ("slovak", "sk"),
    ("sk", "sk"),
    ("slovenian", "sl"),
    ("sl", "sl"),
    ("somali", "so"),
    ("so", "so"),
    ("spanish", "es"),
    ("es", "es"),
    ("sundanese", "su"),
    ("su", "su"),
    ("swahili", "sw"),
    ("sw", "sw"),
    ("swedish", "sv"),
    ("sv", "sv"),
    ("tagalog", "tl"),
    ("tl", "tl"),
    ("tajik", "tg"),
    ("tg", "tg"),
    ("tamil", "ta"),
    ("ta", "ta"),
    ("tatar", "tt"),
    ("tt", "tt"),
    ("telugu", "te"),
    ("te", "te"),
    ("thai", "th"),
    ("th", "th"),
    ("turkish", "tr"),
    ("tr", "tr"),
    ("turkmen", "tk"),
    ("tk", "tk"),
    ("ukrainian", "uk"),
    ("uk", "uk"),
    ("urdu", "ur"),
    ("ur", "ur"),
    ("uyghur", "ug"),
    ("ug", "ug"),
    ("uzbek", "uz"),
    ("uz", "uz"),
    ("vietnamese", "vi"),
    ("vi", "vi"),
    ("welsh", "cy"),
    ("cy", "cy"),
    ("xhosa", "xh"),
    ("xh", "xh"),
    ("yiddish", "yi"),
    ("yi", "yi"),
    ("yoruba", "yo"),
    ("yo", "yo"),
    ("zulu", "zu"),
    ("zu", "zu"),
];

/// The index of the first of the first `upto` rows of `LANGUAGES` whose name
/// is `name`.
pub open spec fn language_row(name: Seq<char>, upto: int) -> Option<int>
    decreases upto,
{
    if upto <= 0 {
        None
    } else {
        match language_row(name, upto - 1) {
            Some(i) => Some(i),
            None => if LANGUAGES@[upto - 1].0@ == name {
                Some(upto - 1)
            } else {
                None
            },
        }
    }
}

/// The code of the language that `arg` names, capitals and small letters of
/// ASCII taken as the same.
pub open spec fn language_code(arg: Seq<char>) -> Option<Seq<char>> {
    match language_row(lowered(arg), LANGUAGE_ROWS as int) {
        Some(i) => Some(LANGUAGES@[i].1@),
        None => None,
    }
}

/// A row found among the first `k` is the one found among more rows too.
pub proof fn lemma_language_row_stays(name: Seq<char>, k: int, n: int)
    requires
        k <= n,
        language_row(name, k) is Some,
    ensures
        language_row(name, n) == language_row(name, k),
    decreases n - k,
{
    if k < n {
        lemma_language_row_stays(name, k, n - 1);
    }
}

/// The code of the language that `lang_arg` names, if it names one.
pub fn validate_lang_arg(lang_arg: &String) -> (r: Option<&'static str>)
    ensures
        match r {
            Some(code) => language_code(lang_arg@) == Some(code@),
            None => language_code(lang_arg@) is None,
        },
{
    let given = chars_of(lang_arg.as_str());
    let name = lowercase(&given);
    let mut i: usize = 0;
    while i < LANGUAGE_ROWS
        invariant
            i <= LANGUAGE_ROWS,
            name@ == lowered(lang_arg@),
            language_row(name@, i as int) is None,
        decreases LANGUAGE_ROWS - i,
    {
        let row = LANGUAGES[i];
        let candidate = chars_of(row.0);
        if same_chars(&candidate, &name) {
            proof {
                lemma_language_row_stays(name@, i + 1, LANGUAGE_ROWS as int);
            }
            return Some(row.1);
        }
        i += 1;
    }
    None
}

/// What is asked of the translation service.
#[derive(Debug)]
pub struct TranslationRequest {
    /// The code of the language of the text, or `auto`.
    pub source: String,
    /// The code of the language to translate into.
    pub target: String,
    /// The text to translate.
    pub text: String,
}

/// A request, as texts.
pub struct RequestModel {
    pub source: Seq<char>,
    pub target: Seq<char>,
    pub text: Seq<char>,
}

impl View for TranslationRequest {
    type V = RequestModel;

    open spec fn view(&self) -> RequestModel {
        RequestModel { source: self.source@, target: self.target@, text: self.text@ }
    }
}

/// The sentence for a first argument that names no language.
pub open spec fn no_language_text() -> Seq<char> {
    "The first argument must be a valid two letter language code!"@
}

/// The sentence for arguments that hold no text.
pub open spec fn no_text_text() -> Seq<char> {
    "There needs to be a text to be translated!"@
}

/// What the arguments ask for. The first two tokens are read. The first
/// names the target language; where the second names a language too, the
/// first is the source and the second the target, else the language is to be
/// found out and the second token belongs to the text.
pub open spec fn planned(c: CursorModel) -> Result<RequestModel, Seq<char>> {
    if !c.has_token() || !c.consume().has_token() {
        Err(ParseError::Missing.text())
    } else {
        let after = c.consume().consume();
        let one = language_code(c.token());
        let two = language_code(c.consume().token());
        let rest = if two is Some {
            after
        } else {
            after.rewind()
        };
        if one is None {
            Err(no_language_text())
        } else if !rest.has_token() {
            Err(no_text_text())
        } else if two is Some {
            Ok(RequestModel { source: one->0, target: two->0, text: rest.rest() })
        } else {
            Ok(RequestModel { source: "auto"@, target: one->0, text: rest.rest() })
        }
    }
}

/// Reads from the arguments what is to be translated, and between which
/// languages.
pub fn plan(args: ArgumentCursor) -> (r: Result<TranslationRequest, Failure>)
    requires
        args.wf(),
    ensures
        match planned(args@) {
            Ok(request) => r matches Ok(found) && found@ == request,
            Err(text) => r matches Err(failure) && failure.is_handler(text),
        },
{
    let mut args = args;
    let first_arg = match args.single() {
        Ok(token) => token,
        Err(e) => {
            let message = e.message();
            return Err(handler_failure(message.as_str()));
        },
    };
    let second_arg = match args.single() {
        Ok(token) => token,
        Err(e) => {
            let message = e.message();
            return Err(handler_failure(message.as_str()));
        },
    };
    let first = match validate_lang_arg(&first_arg) {
        Some(code) => code,
        None => {
            return Err(
                handler_failure("The first argument must be a valid two letter language code!"),
            );
        },
    };
    let (source, target) = match validate_lang_arg(&second_arg) {
        Some(code) => (first, code),
        None => {
            args.rewind();
            ("auto", first)
        },
    };
    if args.is_empty() {
        return Err(handler_failure("There needs to be a text to be translated!"));
    }
    Ok(TranslationRequest { source: owned(source), target: owned(target), text: args.rest() })
}

/// The address at which the translation is asked for.
pub open spec fn request_url_text(request: RequestModel) -> Seq<char> {
    "https://translate.googleapis.com/translate_a/single?client=gtx&sl="@ + request.source
        + "&tl="@ + request.target + "&dt=t&q="@ + request.text
}

/// The address at which the translation is asked for.
pub fn request_url(request: &TranslationRequest) -> (url: String)
    ensures
        url@ == request_url_text(request@),
{
    let mut out: Vec<char> = Vec::new();
    push_str(&mut out, "https://translate.googleapis.com/translate_a/single?client=gtx&sl=");
    push_str(&mut out, request.source.as_str());
    push_str(&mut out, "&tl=");
    push_str(&mut out, request.target.as_str());
    push_str(&mut out, "&dt=t&q=");
    push_str(&mut out, request.text.as_str());
    string_of(&out)
}

/// The translated sentence of one entry of the service's answer: the
/// string at the head of the entry.
pub open spec fn sentence(entry: JsonModel) -> Option<Seq<char>> {
    match entry.item(0) {
        Some(head) => head.text(),
        None => None,
    }
}

/// The sentences of `entries`, one behind the other; `None` if an entry
/// holds none.
pub open spec fn joined(entries: Seq<JsonModel>) -> Option<Seq<char>>
    decreases entries.len(),
{
    if entries.len() == 0 {
        Some(Seq::empty())
    } else {
        match (joined(entries.drop_last()), sentence(entries.last())) {
            (Some(front), Some(last)) => Some(front + last),
            _ => None,
        }
    }
}

/// A translation as the service gave it.
#[derive(Debug)]
pub struct Translation {
    /// The translated text.
    pub text: String,
    /// The code of the language that the service took the text to be in.
    pub source: String,
}

/// The translation that the service's answer holds: the sentences of the
/// entries of its first item, and the language in its third.
pub open spec fn translation_of(answer: JsonModel) -> Option<(Seq<char>, Seq<char>)> {
    match (answer.item(0), answer.item(2)) {
        (Some(list), Some(language)) => match (list.items(), language.text()) {
            (Some(entries), Some(source)) => match joined(entries) {
                Some(text) => Some((text, source)),
                None => None,
            },
            _ => None,
        },
        _ => None,
    }
}

/// A sentence missing among the first `k` entries is missing in the whole.
pub proof fn lemma_joined_none(entries: Seq<JsonModel>, k: int)
    requires
        0 <= k <= entries.len(),
        joined(entries.take(k)) is None,
    ensures
        joined(entries) is None,
    decreases entries.len(),
{
    if k < entries.len() {
        assert(entries.drop_last().take(k) == entries.take(k));
        lemma_joined_none(entries.drop_last(), k);
    } else {
        assert(entries.take(k) == entries);
    }
}

/// Takes the translation out of the service's answer.
#[verifier::loop_isolation(false)]
pub fn read_translation(answer: &Json) -> (r: Option<Translation>)
    ensures
        match r {
            Some(t) => translation_of(answer@) == Some((t.text@, t.source@)),
            None => translation_of(answer@) is None,
        },
{
    let list = match answer.get(0) {
        Some(list) => list,
        None => {
            return None;
        },
    };
    let language = match answer.get(2) {
        Some(language) => language,
        None => {
            return None;
        },
    };
    let entries = match list.as_array() {
        Some(entries) => entries,
        None => {
            return None;
        },
    };
    let source = match language.as_text() {
        Some(source) => source,
        None => {
            return None;
        },
    };
    let ghost all = values_of(entries@);
    let mut text: Vec<char> = Vec::new();
    let mut i: usize = 0;
    while i < entries.len()
        invariant
            i <= entries.len(),
            joined(all.take(i as int)) == Some(text@),
        decreases entries.len() - i,
    {
        proof {
            let next = all.take(i + 1);
            assert(next.drop_last() == all.take(i as int));
            assert(next.last() == entries[i as int]@);
        }
        let found = match entries[i].get(0) {
            Some(head) => head.as_text(),
            None => None,
        };
        match found {
            Some(words) => {
                push_str(&mut text, words.as_str());
            },
            None => {
                proof {
                    lemma_joined_none(all, i + 1);
                }
                return None;
            },
        }
        i += 1;
    }
    proof {
        assert(all.take(entries.len() as int) == all);
    }
    Some(Translation { text: string_of(&text), source: owned(source.as_str()) })
}

/// The title over a text that was put from `source` into `target`.
pub open spec fn title_text(source: Seq<char>, target: Seq<char>) -> Seq<char> {
    "Translation"@ + " from "@ + raised(source) + " -> "@ + raised(target)
}

/// The message that shows a translation into the language `target`.
pub fn translation_embed(translation: &Translation, target: &str) -> (e: Embed)
    ensures
        e@ == EmbedModel::titled(title_text(translation.source@, target@), translation.text@),
{
    let mut title: Vec<char> = Vec::new();
    push_str(&mut title, "Translation");
    push_str(&mut title, " from ");
    let source = uppercase(&chars_of(translation.source.as_str()));
    push_all(&mut title, &source);
    push_str(&mut title, " -> ");
    let into = uppercase(&chars_of(target));
    push_all(&mut title, &into);
    Embed::titled(string_of(&title), owned(translation.text.as_str()))
}

/// The sentence for an answer of the service that cannot be read.
pub open spec fn unreadable_text() -> Seq<char> {
    "There was an error parsing the translation response"@
}

/// What is sent for the service's answer `answer` to a request for a
/// translation into `target`, where `answer` was read as JSON.
pub open spec fn answered(answer: Option<JsonModel>, target: Seq<char>) -> Result<
    EmbedModel,
    Seq<char>,
> {
    match answer {
        Some(json) => match translation_of(json) {
            Some((text, source)) => Ok(EmbedModel::titled(title_text(source, target), text)),
            None => Err(unreadable_text()),
        },
        None => Err(unreadable_text()),
    }
}

/// The message for an answer of the service that was read as JSON already.
pub fn answer_from(answer: &Option<Json>, target: &str) -> (r: Result<Embed, Failure>)
    ensures
        match answered(
            match *answer {
                Some(json) => Some(json@),
                None => None,
            },
            target@,
        ) {
            Ok(embed) => r matches Ok(e) && e@ == embed,
            Err(text) => r matches Err(failure) && failure.is_handler(text),
        },
{
    let translation = match answer {
        Some(json) => read_translation(json),
        None => None,
    };
    match translation {
        Some(translation) => Ok(translation_embed(&translation, target)),
        None => Err(handler_failure("There was an error parsing the translation response")),
    }
}

/// The message for the body `response` of the service's answer to a request
/// for a translation into `target`.
pub fn answer(response: &str, target: &str) -> (r: Result<Embed, Failure>)
    ensures
        match answered(parsed_json(response@), target@) {
            Ok(embed) => r matches Ok(e) && e@ == embed,
            Err(text) => r matches Err(failure) && failure.is_handler(text),
        },
{
    let json = parse_json(response);
    answer_from(&json, target)
}

} // verus!
