//! Helpers shared by the commands.

use vstd::prelude::*;
use crate::text::{chars_of, decimal, decimal_of, push_all, push_str, string_of};

verus! {

/// Whether an icon id names an animated icon: it begins with `a_`.
pub open spec fn is_animated_icon(icon_id: Seq<char>) -> bool {
    icon_id.len() >= 2 && icon_id[0] == 'a' && icon_id[1] == '_'
}

/// The address of a guild's icon: a GIF for an animated icon, WebP otherwise.
pub open spec fn guild_icon_url_text(guild_id: Seq<char>, icon_id: Seq<char>, size: nat) -> Seq<
    char,
> {
    "https://cdn.discordapp.com/icons/"@ + guild_id + "/"@ + icon_id + (if is_animated_icon(
        icon_id,
    ) {
        ".gif?size="@
    } else {
        ".webp?size="@
    }) + decimal(size)
}

/// The address of the icon `icon_id` of the guild `guild_id`, `size` pixels wide.
pub fn guild_icon_url(guild_id: &str, icon_id: &str, size: u16) -> (url: String)
    ensures
        url@ == guild_icon_url_text(guild_id@, icon_id@, size as nat),
{
    let icon = chars_of(icon_id);
    let animated = icon.len() >= 2 && icon[0] == 'a' && icon[1] == '_';
    let mut out: Vec<char> = Vec::new();
    push_str(&mut out, "https://cdn.discordapp.com/icons/");
    push_str(&mut out, guild_id);
    push_str(&mut out, "/");
    push_all(&mut out, &icon);
    if animated {
        push_str(&mut out, ".gif?size=");
    } else {
        push_str(&mut out, ".webp?size=");
    }
    let digits = decimal_of(size as u64);
    push_all(&mut out, &digits);
    string_of(&out)
}

} // verus!
