use miobot::commands::nhentai::{
    build_tag_string, filter_tags_by_type, find_ids, format_tag_items, gallery_embed,
    get_cover_url, parse_extension, plan, plan_for, unreadable_response, GalleryImageInfo,
    GalleryImages, GalleryResponse, GalleryTagInfo, GalleryTitle, TagType,
};
use miobot::embed::MAIN_COLOUR;
use miobot::report::Failure;

fn tag(id: i64, tag_type: TagType, name: &str) -> GalleryTagInfo {
    GalleryTagInfo { id, tag_type, name: name.to_string(), url: format!("/tag/{}/", name), count: 1 }
}

fn image(t: &str) -> GalleryImageInfo {
    GalleryImageInfo { t: t.to_string(), w: 10, h: 20 }
}

#[test]
fn extensions() {
    assert_eq!(parse_extension("j"), "jpg");
    assert_eq!(parse_extension("p"), "png");
    assert_eq!(parse_extension("g"), "gif");
    assert_eq!(parse_extension("x"), "");
    assert_eq!(parse_extension(""), "");
    assert_eq!(parse_extension("jp"), "");
}

#[test]
fn cover_addresses() {
    assert_eq!(get_cover_url("987", "j"), "https://t.nhentai.net/galleries/987/cover.jpg");
    assert_eq!(get_cover_url("1", "w"), "https://t.nhentai.net/galleries/1/cover.");
}

#[test]
fn tags_by_type_and_as_text() {
    let tags = vec![
        tag(1, TagType::Tag, "one"),
        tag(2, TagType::Artist, "painter"),
        tag(3, TagType::Tag, "two"),
        tag(4, TagType::Language, "english"),
        tag(5, TagType::Language, "translated"),
    ];
    let plain = filter_tags_by_type(&tags, TagType::Tag);
    assert_eq!(plain.iter().map(|t| t.id).collect::<Vec<_>>(), vec![1, 3]);
    assert_eq!(format_tag_items(&plain), "`one`, `two`");
    assert!(filter_tags_by_type(&tags, TagType::Parody).is_empty());
    assert_eq!(format_tag_items(&vec![]), "");
    assert_eq!(format_tag_items(&vec![&tags[1]]), "`painter`");
    assert_eq!(
        build_tag_string(&tags),
        "`one`, `two`\n\n Artists: `painter`\n Languages: `english`, `translated`"
    );
    assert_eq!(build_tag_string(&vec![]), "\n");
    let every = vec![
        tag(1, TagType::Category, "c"),
        tag(2, TagType::Language, "l"),
        tag(3, TagType::Group, "g"),
        tag(4, TagType::Artist, "a"),
        tag(5, TagType::Character, "ch"),
        tag(6, TagType::Parody, "p"),
    ];
    assert_eq!(
        build_tag_string(&every),
        "\n\n Parodies: `p`\n Characters: `ch`\n Artists: `a`\n Groups: `g`\n Languages: `l`\n Categories: `c`"
    );
}

#[test]
fn ids_are_found_by_the_expression() {
    assert_eq!(find_ids("177013"), vec!["177013"]);
    assert_eq!(find_ids("1, 22,333 4444"), vec!["1", "22", "333", "4444"]);
    assert_eq!(find_ids("12345678"), vec!["345678"]);
    assert_eq!(find_ids("abc"), Vec::<String>::new());
    assert_eq!(find_ids("12a 34"), vec!["34"]);
    assert_eq!(find_ids(""), Vec::<String>::new());
}

#[test]
fn one_address_for_each_id() {
    assert_eq!(
        plan("177013, 5").unwrap(),
        vec!["https://nhentai.net/api/gallery/177013", "https://nhentai.net/api/gallery/5"]
    );
    match plan("no numbers").unwrap_err() {
        Failure::Handler { message } => {
            assert_eq!(message, "Please supply a valid nhentai ID as an argument")
        }
        other => panic!("unexpected: {:?}", other),
    }
    assert!(plan_for(&vec![]).is_err());
    assert_eq!(
        plan_for(&vec!["x".to_string()]).unwrap(),
        vec!["https://nhentai.net/api/gallery/x"]
    );
    match unreadable_response() {
        Failure::Handler { message } => {
            assert_eq!(message, "There was an error parsing the nhentai api response")
        }
        other => panic!("unexpected: {:?}", other),
    }
}

#[test]
fn gallery_message() {
    let data = GalleryResponse {
        id: 177013,
        media_id: "987".to_string(),
        title: GalleryTitle {
            english: "E".to_string(),
            japanese: "J".to_string(),
            pretty: "Pretty".to_string(),
        },
        images: GalleryImages { pages: vec![image("j")], cover: image("p"), thumbnail: image("j") },
        scanlator: String::new(),
        tags: vec![tag(1, TagType::Tag, "one")],
        num_pages: 225,
        num_favorites: -3,
    };
    let e = gallery_embed(&data);
    assert_eq!(e.colour, Some(MAIN_COLOUR));
    assert_eq!(e.title.as_deref(), Some("Pretty"));
    assert_eq!(e.url.as_deref(), Some("https://nhentai.net/g/177013"));
    assert_eq!(e.thumbnail.as_deref(), Some("https://t.nhentai.net/galleries/987/cover.png"));
    assert_eq!(e.fields.len(), 2);
    assert_eq!(e.fields[0].name, "Tags");
    assert_eq!(e.fields[0].value, "`one`\n");
    assert!(!e.fields[0].inline);
    assert_eq!(e.fields[1].name, "Stats");
    assert_eq!(e.fields[1].value, "**225** pages, **-3** favorites");
    assert!(!e.fields[1].inline);
    assert!(e.description.is_none() && e.footer.is_none() && e.timestamp.is_none());
}
