//! The desktop theme files written from a wallpaper's accent colour: colour
//! codes, the accent description, and where each file goes.
use vstd::prelude::*;
use crate::paths::{join, path_join};
use crate::text::{owned, push_char, push_str};

verus! {

/// An upper-case hexadecimal digit.
pub open spec fn hex_upper_digit(d: nat) -> char {
    if d < 10 { ((d + 48) as u8) as char } else { ((d + 55) as u8) as char }
}

/// A byte as two upper-case hexadecimal digits.
pub open spec fn hex2(b: u8) -> Seq<char> {
    seq![hex_upper_digit((b / 16) as nat), hex_upper_digit((b % 16) as nat)]
}

fn hex_digit(d: u8) -> (c: char)
    requires
        d < 16,
    ensures
        c == hex_upper_digit(d as nat),
{
    if d < 10 {
        (d + 48) as char
    } else {
        (d + 55) as char
    }
}

/// A colour code `#RRGGBB` followed by an alpha code (such as `FF`).
pub open spec fn color_code(r: u8, g: u8, b: u8, alpha: Seq<char>) -> Seq<char> {
    seq!['#'] + hex2(r) + hex2(g) + hex2(b) + alpha
}

fn push_hex2(s: &mut String, b: u8)
    ensures
        final(s)@ == old(s)@ + hex2(b),
{
    push_char(s, hex_digit(b / 16));
    push_char(s, hex_digit(b % 16));
    proof {
        assert(final(s)@ =~= old(s)@ + hex2(b));
    }
}

/// See `color_code`.
pub fn color_hex(r: u8, g: u8, b: u8, alpha: &str) -> (s: String)
    ensures
        s@ == color_code(r, g, b, alpha@),
{
    let mut s = String::new();
    push_char(&mut s, '#');
    push_hex2(&mut s, r);
    push_hex2(&mut s, g);
    push_hex2(&mut s, b);
    push_str(&mut s, alpha);
    proof {
        assert(s@ =~= color_code(r, g, b, alpha@));
    }
    s
}

/// The colours of text over the accent: black over a light accent, white
/// over a dark one (each with its disabled shade).
pub fn on_colors(light_accent: bool) -> (r: (&'static str, &'static str))
    ensures
        light_accent ==> r.0@ == "#000000FF"@ && r.1@ == "#333333FF"@,
        !light_accent ==> r.0@ == "#FFFFFFFF"@ && r.1@ == "#AAAAAAFF"@,
{
    if light_accent { ("#000000FF", "#333333FF") } else { ("#FFFFFFFF", "#AAAAAAFF") }
}

/// The accent setting of the theme builder.
pub open spec fn builder_accent_text(base: Seq<char>) -> Seq<char> {
    "Some(\""@ + base + "\")\n"@
}

/// See `builder_accent_text`.
pub fn builder_accent(base: &str) -> (r: String)
    ensures
        r@ == builder_accent_text(base@),
{
    let mut r = owned("Some(\"");
    push_str(&mut r, base);
    push_str(&mut r, "\")\n");
    r
}

/// A line `    name: "value",` of the accent description.
pub open spec fn accent_line(name: Seq<char>, value: Seq<char>) -> Seq<char> {
    "    "@ + name + ": \""@ + value + "\",\n"@
}

/// The accent description of a theme variant, from the colour codes of the
/// accent (`base`), its hover and pressed shades, the half-transparent
/// border, the divider of the variant and the colours of text over it.
pub open spec fn accent_text(base: Seq<char>, hover: Seq<char>, pressed: Seq<char>, disabled_border: Seq<char>,
    divider: Seq<char>, on: Seq<char>, on_disabled: Seq<char>) -> Seq<char>
{
    "(\n"@
        + accent_line("base"@, base) + accent_line("hover"@, hover) + accent_line("pressed"@, pressed)
        + accent_line("selected"@, hover) + accent_line("selected_text"@, base) + accent_line("focus"@, base)
        + accent_line("divider"@, divider) + accent_line("on"@, on) + accent_line("disabled"@, base)
        + accent_line("on_disabled"@, on_disabled) + accent_line("border"@, base)
        + accent_line("disabled_border"@, disabled_border) + ")\n"@
}

fn push_accent_line(s: &mut String, name: &str, value: &str)
    ensures
        final(s)@ == old(s)@ + accent_line(name@, value@),
{
    push_str(s, "    ");
    push_str(s, name);
    push_str(s, ": \"");
    push_str(s, value);
    push_str(s, "\",\n");
    proof {
        assert(final(s)@ =~= old(s)@ + accent_line(name@, value@));
    }
}

/// See `accent_text`.
pub fn accent_description(base: &str, hover: &str, pressed: &str, disabled_border: &str,
    divider: &str, on: &str, on_disabled: &str) -> (r: String)
    ensures
        r@ == accent_text(base@, hover@, pressed@, disabled_border@, divider@, on@, on_disabled@),
{
    let mut r = owned("(\n");
    push_accent_line(&mut r, "base", base);
    push_accent_line(&mut r, "hover", hover);
    push_accent_line(&mut r, "pressed", pressed);
    push_accent_line(&mut r, "selected", hover);
    push_accent_line(&mut r, "selected_text", base);
    push_accent_line(&mut r, "focus", base);
    push_accent_line(&mut r, "divider", divider);
    push_accent_line(&mut r, "on", on);
    push_accent_line(&mut r, "disabled", base);
    push_accent_line(&mut r, "on_disabled", on_disabled);
    push_accent_line(&mut r, "border", base);
    push_accent_line(&mut r, "disabled_border", disabled_border);
    push_str(&mut r, ")\n");
    proof {
        assert(r@ =~= accent_text(base@, hover@, pressed@, disabled_border@, divider@, on@, on_disabled@));
    }
    r
}

/// The theme variants written, each with the colour of its dividers.
pub fn theme_variants() -> (r: Vec<(&'static str, &'static str)>)
    ensures
        r@.len() == 2,
        r@[0].0@ == "Dark"@ && r@[0].1@ == "#000000FF"@,
        r@[1].0@ == "Light"@ && r@[1].1@ == "#FFFFFFFF"@,
{
    let mut r: Vec<(&'static str, &'static str)> = Vec::new();
    r.push(("Dark", "#000000FF"));
    r.push(("Light", "#FFFFFFFF"));
    r
}

/// The folder of a theme component's settings under the desktop's
/// configuration folder: `com.system76.CosmicTheme.<component>/<version>`.
pub open spec fn theme_dir_spec(cosmic_config: Seq<char>, component: Seq<char>, version: Seq<char>) -> Seq<char> {
    join(join(cosmic_config, "com.system76.CosmicTheme."@ + component), version)
}

/// See `theme_dir_spec`.
pub fn theme_dir(cosmic_config: &str, component: &str, version: &str) -> (r: String)
    ensures
        r@ == theme_dir_spec(cosmic_config@, component@, version@),
{
    let mut name = owned("com.system76.CosmicTheme.");
    push_str(&mut name, component);
    let d = path_join(cosmic_config, name.as_str());
    path_join(d.as_str(), version)
}

/// The content of the dark-mode switch.
pub fn dark_mode_text(is_dark: bool) -> (r: &'static str)
    ensures
        is_dark ==> r@ == "true\n"@,
        !is_dark ==> r@ == "false\n"@,
{
    if is_dark { "true\n" } else { "false\n" }
}

/// Whether the theme is touched at all: when the accent or the dark mode
/// follows the wallpaper.
pub fn theme_wanted(auto_theme: bool, auto_dark: bool) -> (b: bool)
    ensures
        b == (auto_theme || auto_dark),
{
    auto_theme || auto_dark
}

} // verus!
