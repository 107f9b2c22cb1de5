use vstd::prelude::*;
use vstd::string::*;
use crate::text::same_text;

verus! {

/// The colours a pywal-style generator wrote for the popup: background,
/// foreground and the sixteen terminal colours, each as a hex string.
pub struct Pywal {
    pub bg: String,
    pub fg: String,
    pub color0: String,
    pub color1: String,
    pub color2: String,
    pub color3: String,
    pub color4: String,
    pub color5: String,
    pub color6: String,
    pub color7: String,
    pub color8: String,
    pub color9: String,
    pub color10: String,
    pub color11: String,
    pub color12: String,
    pub color13: String,
    pub color14: String,
    pub color15: String,
}

/// The colour a key names in a palette, if it names one: `bg`, `fg`, or
/// `color0` to `color15`.
pub open spec fn color_spec(p: &Pywal, key: Seq<char>) -> Option<Seq<char>> {
    if key == "bg"@ {
        Some(p.bg@)
    } else if key == "fg"@ {
        Some(p.fg@)
    } else if key == "color0"@ {
        Some(p.color0@)
    } else if key == "color1"@ {
        Some(p.color1@)
    } else if key == "color2"@ {
        Some(p.color2@)
    } else if key == "color3"@ {
        Some(p.color3@)
    } else if key == "color4"@ {
        Some(p.color4@)
    } else if key == "color5"@ {
        Some(p.color5@)
    } else if key == "color6"@ {
        Some(p.color6@)
    } else if key == "color7"@ {
        Some(p.color7@)
    } else if key == "color8"@ {
        Some(p.color8@)
    } else if key == "color9"@ {
        Some(p.color9@)
    } else if key == "color10"@ {
        Some(p.color10@)
    } else if key == "color11"@ {
        Some(p.color11@)
    } else if key == "color12"@ {
        Some(p.color12@)
    } else if key == "color13"@ {
        Some(p.color13@)
    } else if key == "color14"@ {
        Some(p.color14@)
    } else if key == "color15"@ {
        Some(p.color15@)
    } else {
        None
    }
}

/// Looks a colour key up in a palette, where the key names a colour.
fn lookup_color<'a>(colors: &'a Pywal, key: &str) -> (r: Option<&'a String>)
    ensures
        r is Some <==> color_spec(colors, key@) is Some,
        r is Some ==> r->0@ == color_spec(colors, key@)->0,
{
    if same_text(key, "bg") {
        Some(&colors.bg)
    } else if same_text(key, "fg") {
        Some(&colors.fg)
    } else if same_text(key, "color0") {
        Some(&colors.color0)
    } else if same_text(key, "color1") {
        Some(&colors.color1)
    } else if same_text(key, "color2") {
        Some(&colors.color2)
    } else if same_text(key, "color3") {
        Some(&colors.color3)
    } else if same_text(key, "color4") {
        Some(&colors.color4)
    } else if same_text(key, "color5") {
        Some(&colors.color5)
    } else if same_text(key, "color6") {
        Some(&colors.color6)
    } else if same_text(key, "color7") {
        Some(&colors.color7)
    } else if same_text(key, "color8") {
        Some(&colors.color8)
    } else if same_text(key, "color9") {
        Some(&colors.color9)
    } else if same_text(key, "color10") {
        Some(&colors.color10)
    } else if same_text(key, "color11") {
        Some(&colors.color11)
    } else if same_text(key, "color12") {
        Some(&colors.color12)
    } else if same_text(key, "color13") {
        Some(&colors.color13)
    } else if same_text(key, "color14") {
        Some(&colors.color14)
    } else if same_text(key, "color15") {
        Some(&colors.color15)
    } else {
        None
    }
}

/// Whether `key` names a colour of a palette.
pub fn is_color_key(colors: &Pywal, key: &str) -> (r: bool)
    ensures
        r == color_spec(colors, key@) is Some,
{
    lookup_color(colors, key).is_some()
}

/// The colour that `key` names in the palette.
pub fn get_color<'a>(colors: &'a Pywal, key: &str) -> (r: &'a str)
    requires
        color_spec(colors, key@) is Some,
    ensures
        r@ == color_spec(colors, key@)->0,
{
    match lookup_color(colors, key) {
        Some(c) => c.as_str(),
        None => "",
    }
}

/// The four colours of the popup (background, border, title, message), each
/// looked up by its key in the palette.
pub fn pywal(
    colors: &Pywal,
    background_color: String,
    border_color: String,
    title_color: String,
    message_color: String,
) -> (r: (String, String, String, String))
    requires
        color_spec(colors, background_color@) is Some,
        color_spec(colors, border_color@) is Some,
        color_spec(colors, title_color@) is Some,
        color_spec(colors, message_color@) is Some,
    ensures
        r.0@ == color_spec(colors, background_color@)->0,
        r.1@ == color_spec(colors, border_color@)->0,
        r.2@ == color_spec(colors, title_color@)->0,
        r.3@ == color_spec(colors, message_color@)->0,
{
    (
        String::from_str(get_color(colors, background_color.as_str())),
        String::from_str(get_color(colors, border_color.as_str())),
        String::from_str(get_color(colors, title_color.as_str())),
        String::from_str(get_color(colors, message_color.as_str())),
    )
}

fn text_or(value: Option<String>, default: &str) -> (r: String)
    ensures
        r@ == (match value {
            Some(v) => v@,
            None => default@,
        }),
{
    match value {
        Some(v) => v,
        None => String::from_str(default),
    }
}

/// The popup's colours (background, border, title, message) from the
/// configuration, each with its built-in default where it is left out.
pub fn fallback_colors(
    background: Option<String>,
    border: Option<String>,
    title: Option<String>,
    message: Option<String>,
) -> (r: (String, String, String, String))
    ensures
        r.0@ == (match background {
            Some(v) => v@,
            None => "#000000"@,
        }),
        r.1@ == (match border {
            Some(v) => v@,
            None => "#62777d"@,
        }),
        r.2@ == (match title {
            Some(v) => v@,
            None => "#b8b8b8"@,
        }),
        r.3@ == (match message {
            Some(v) => v@,
            None => "#501701"@,
        }),
{
    (
        text_or(background, "#000000"),
        text_or(border, "#62777d"),
        text_or(title, "#b8b8b8"),
        text_or(message, "#501701"),
    )
}

} // verus!
