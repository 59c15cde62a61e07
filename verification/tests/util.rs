use miobot::util::guild_icon_url;

#[test]
fn static_icon_is_webp() {
    assert_eq!(
        guild_icon_url("81384788765712384", "1f0bfc0f1f1c1f1c", 64),
        "https://cdn.discordapp.com/icons/81384788765712384/1f0bfc0f1f1c1f1c.webp?size=64"
    );
}

#[test]
fn animated_icon_is_gif() {
    assert_eq!(
        guild_icon_url("42", "a_beef", 1024),
        "https://cdn.discordapp.com/icons/42/a_beef.gif?size=1024"
    );
    assert_eq!(guild_icon_url("", "a", 0), "https://cdn.discordapp.com/icons//a.webp?size=0");
    assert_eq!(
        guild_icon_url("7", "a_", 65535),
        "https://cdn.discordapp.com/icons/7/a_.gif?size=65535"
    );
}
