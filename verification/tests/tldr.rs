use miobot::commands::tldr::{
    first_action, get_tldr_content_from_markdown, on_response, page_urls, plan, TldrAction,
    TldrQuery,
};
use miobot::cursor::ArgumentCursor;
use miobot::report::Failure;

fn content(body: &str) -> Option<(String, String)> {
    get_tldr_content_from_markdown(body)
}

fn pair(a: &str, b: &str) -> Option<(String, String)> {
    Some((a.to_string(), b.to_string()))
}

#[test]
fn title_and_text_of_a_page() {
    assert_eq!(content("# ls\n\n> List directory contents.\n\n- List files:\n\n`ls`\n"),
        pair("ls", "\n> List directory contents.\n\n- List files:\n\n`ls`"));
    assert_eq!(content("## # tar"), pair("tar", ""));
    assert_eq!(content("#  # \r\nline one\r\nline two"), pair("", "line one\nline two"));
    assert_eq!(content("title\nrest\r"), pair("title", "rest\r"));
    assert_eq!(content("\n"), pair("", ""));
    assert_eq!(content("\n\n"), pair("", ""));
    assert_eq!(content("\n\n\n"), pair("", "\n"));
    assert_eq!(content("a #b\n"), pair("a #b", ""));
    assert_eq!(content(""), None);
}

fn failure(a: TldrAction) -> String {
    match a {
        TldrAction::Fail(Failure::Handler { message }) => message,
        other => panic!("unexpected: {:?}", other),
    }
}

#[test]
fn plan_by_number_of_arguments() {
    let q = plan(ArgumentCursor::new("ls")).unwrap();
    assert_eq!((q.platform.as_str(), q.search.as_str()), ("linux", "ls"));
    let q = plan(ArgumentCursor::new("windows dir")).unwrap();
    assert_eq!((q.platform.as_str(), q.search.as_str()), ("windows", "dir"));
    let q = plan(ArgumentCursor::new(" macos   open ")).unwrap();
    assert_eq!((q.platform.as_str(), q.search.as_str()), ("macos", "open"));
    let q = plan(ArgumentCursor::new("Windows dir")).unwrap();
    assert_eq!((q.platform.as_str(), q.search.as_str()), ("linux", "dir"));
    for text in ["", "a b c", "   "] {
        match plan(ArgumentCursor::new(text)).unwrap_err() {
            Failure::Handler { message } => assert_eq!(message, "Invalid number of arguments"),
            other => panic!("unexpected: {:?}", other),
        }
    }
}

#[test]
fn search_goes_from_platform_to_common() {
    let q = TldrQuery { platform: "windows".to_string(), search: "dir".to_string() };
    assert_eq!(
        page_urls(&q),
        vec![
            "https://raw.githubusercontent.com/tldr-pages/tldr/master/pages/windows/dir.md",
            "https://raw.githubusercontent.com/tldr-pages/tldr/master/pages/common/dir.md"
        ]
    );
    match first_action(&q) {
        TldrAction::Fetch(url) => assert_eq!(url, page_urls(&q)[0]),
        other => panic!("unexpected: {:?}", other),
    }
    match on_response(&q, 0, 404, "") {
        TldrAction::Fetch(url) => assert_eq!(url, page_urls(&q)[1]),
        other => panic!("unexpected: {:?}", other),
    }
    match on_response(&q, 1, 404, "") {
        TldrAction::Say(text) => assert_eq!(text, "Could not find a tl:dr page for 'dir'"),
        other => panic!("unexpected: {:?}", other),
    }
    match on_response(&q, 1, 200, "# dir\n\n> List.\n") {
        TldrAction::Send(e) => {
            assert_eq!(e.title.as_deref(), Some("dir"));
            assert_eq!(e.description.as_deref(), Some("\n> List."));
        }
        other => panic!("unexpected: {:?}", other),
    }
    assert_eq!(failure(on_response(&q, 0, 200, "")), "There was an error while parsing the markdown");
    assert_eq!(failure(on_response(&q, 0, 500, "oops")), "Unexpected response status: 500");
    assert_eq!(failure(on_response(&q, 1, 301, "")), "Unexpected response status: 301");
}
