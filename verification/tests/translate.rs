use miobot::commands::translate::validate_lang_arg;

fn code(arg: &str) -> Option<&'static str> {
    validate_lang_arg(&arg.to_string())
}

#[test]
fn languages_by_name_and_code() {
    assert_eq!(code("en"), Some("en"));
    assert_eq!(code("english"), Some("en"));
    assert_eq!(code("English"), Some("en"));
    assert_eq!(code("DE"), Some("de"));
    assert_eq!(code("jp"), Some("ja"));
    assert_eq!(code("hebrew"), Some("iw"));
    assert_eq!(code("he"), Some("iw"));
    assert_eq!(code("creole"), Some("ht"));
    assert_eq!(code("gaelic"), Some("gd"));
    assert_eq!(code("zulu"), Some("zu"));
    assert_eq!(code("afrikaans"), Some("af"));
    assert_eq!(code("chinese"), Some("zh"));
    assert_eq!(code("zh"), Some("zh"));
}

#[test]
fn unknown_languages() {
    assert_eq!(code(""), None);
    assert_eq!(code("hello"), None);
    assert_eq!(code("auto"), None);
    assert_eq!(code("klingon"), None);
    assert_eq!(code("zh-CN"), None);
    assert_eq!(code("zh-TW"), None);
    assert_eq!(code("zh-cn"), None);
    assert_eq!(code("ÉN"), None);
    assert_eq!(code("en "), None);
}

use miobot::commands::translate::{
    answer, answer_from, plan, read_translation, request_url, translation_embed, Translation,
};
use miobot::cursor::ArgumentCursor;
use miobot::embed::MAIN_COLOUR;
use miobot::json::Json;
use miobot::report::Failure;

fn message(f: Failure) -> String {
    match f {
        Failure::Handler { message } => message,
        other => panic!("unexpected: {:?}", other),
    }
}

#[test]
fn plan_with_target_only() {
    let r = plan(ArgumentCursor::new("en こんにちは！ みなさん")).unwrap();
    assert_eq!(r.source, "auto");
    assert_eq!(r.target, "en");
    assert_eq!(r.text, "こんにちは！ みなさん");
}

#[test]
fn plan_with_source_and_target() {
    let r = plan(ArgumentCursor::new("de en Guten Abend!")).unwrap();
    assert_eq!(r.source, "de");
    assert_eq!(r.target, "en");
    assert_eq!(r.text, "Guten Abend!");
    let r = plan(ArgumentCursor::new("German  JP   Guten   Abend!  ")).unwrap();
    assert_eq!(r.source, "de");
    assert_eq!(r.target, "ja");
    assert_eq!(r.text, "Guten   Abend!");
    assert_eq!(
        request_url(&r),
        "https://translate.googleapis.com/translate_a/single?client=gtx&sl=de&tl=ja&dt=t&q=Guten   Abend!"
    );
}

#[test]
fn plan_failures() {
    assert_eq!(message(plan(ArgumentCursor::new("")).unwrap_err()), "ArgError(\"end of string\")");
    assert_eq!(
        message(plan(ArgumentCursor::new("en")).unwrap_err()),
        "ArgError(\"end of string\")"
    );
    assert_eq!(
        message(plan(ArgumentCursor::new("xx hello")).unwrap_err()),
        "The first argument must be a valid two letter language code!"
    );
    assert_eq!(
        message(plan(ArgumentCursor::new("en de")).unwrap_err()),
        "There needs to be a text to be translated!"
    );
    let r = plan(ArgumentCursor::new("en hello")).unwrap();
    assert_eq!((r.source.as_str(), r.target.as_str(), r.text.as_str()), ("auto", "en", "hello"));
}

#[test]
fn answer_is_read_from_json() {
    let body = r#"[[["Good evening! ","Guten Abend!",null,null,10],["How are you?","Wie geht's?",null,null,3]],null,"de",null,null,null,1.0,[]]"#;
    let e = answer(body, "en").unwrap();
    assert_eq!(e.title, Some(format!("{} from DE -> EN", "Translation")));
    assert_eq!(e.description.as_deref(), Some("Good evening! How are you?"));
    assert_eq!(e.colour, Some(MAIN_COLOUR));
    assert!(e.fields.is_empty());
    assert_eq!(e.url, None);
}

#[test]
fn unreadable_answers_fail() {
    for body in ["", "not json", "{}", "[]", "[[],null]", "[[[1]],null,\"de\"]", "[[[\"a\"]],null,7]", "[[\"a\"],null,\"de\"]"] {
        assert_eq!(
            message(answer(body, "en").unwrap_err()),
            "There was an error parsing the translation response",
            "{:?}",
            body
        );
    }
    assert_eq!(
        message(answer_from(&None, "en").unwrap_err()),
        "There was an error parsing the translation response"
    );
    let e = answer("[[],null,\"en\"]", "de").unwrap();
    assert_eq!(e.description.as_deref(), Some(""));
}

#[test]
fn translation_is_shown_in_capitals() {
    let t = Translation { text: "hola".to_string(), source: "en".to_string() };
    let e = translation_embed(&t, "es");
    assert_eq!(e.title, Some(format!("{} from EN -> ES", "Translation")));
    assert_eq!(e.description.as_deref(), Some("hola"));
    let text = |s: &str| Json::Text(s.to_string());
    let j = Json::Array(vec![
        Json::Array(vec![
            Json::Array(vec![text("x"), Json::Null]),
            Json::Array(vec![text("y"), Json::Bool(true), Json::Number("1.5".to_string())]),
        ]),
        Json::Number("0".to_string()),
        text("zh-cn"),
    ]);
    let t = read_translation(&j).unwrap();
    assert_eq!(t.source, "zh-cn");
    assert_eq!(t.text, "xy");
    assert!(j.get(3).is_none());
    assert!(j.get(2).unwrap().as_text().is_some());
    assert!(j.get(2).unwrap().as_array().is_none());
    assert!(j.get(1).unwrap().as_text().is_none());
    assert_eq!(j.get(0).unwrap().as_array().unwrap().len(), 2);
    let object = Json::Object(vec![("a".to_string(), text("b"))]);
    assert!(object.get(0).is_none());
    assert!(read_translation(&object).is_none());
}
