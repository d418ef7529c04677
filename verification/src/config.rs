//! Configuration values of the GLASS overlay that carry no geometry: the
//! input settings and the detection of the config file format.
use vstd::prelude::*;
use crate::error::GlassError;
use crate::text::str_eq;

verus! {

/// Input/interaction configuration.
#[derive(Debug, Clone, PartialEq, Eq, Structural)]
pub struct InputConfig {
    /// Virtual key code for the interactive-mode toggle hotkey.
    /// Default: `0x7B` = F12. Common alternatives: `0x79` (F10), `0x7A` (F11).
    pub hotkey_vk: u32,
    /// Hotkey modifier flags (Win32 `MOD_*` bit mask).
    /// Default: `0` (no modifier). `1` = Alt, `2` = Ctrl, `4` = Shift, `8` = Win.
    pub hotkey_modifiers: u32,
    /// Interactive mode timeout in milliseconds.
    /// After this duration, the overlay reverts to passive mode.
    pub interactive_timeout_ms: u32,
    /// Whether to show the visual indicator (border + label) in interactive mode.
    pub show_indicator: bool,
}

/// Default toggle hotkey: `VK_F12`.
pub fn default_hotkey_vk() -> (r: u32)
    ensures
        r == 0x7B,
{
    0x7B
}

/// Default interactive-mode timeout: 4000 ms.
pub fn default_interactive_timeout_ms() -> (r: u32)
    ensures
        r == 4000,
{
    4000
}

/// The indicator is shown by default.
pub fn default_show_indicator() -> (r: bool)
    ensures
        r,
{
    true
}

impl Default for InputConfig {
    fn default() -> (r: Self)
        ensures
            r == (InputConfig {
                hotkey_vk: 0x7B,
                hotkey_modifiers: 0,
                interactive_timeout_ms: 4000,
                show_indicator: true,
            }),
    {
        InputConfig {
            hotkey_vk: default_hotkey_vk(),
            hotkey_modifiers: 0,
            interactive_timeout_ms: default_interactive_timeout_ms(),
            show_indicator: default_show_indicator(),
        }
    }
}

/// Detected config file format.
#[derive(Debug, Clone, Copy, PartialEq, Eq, Structural)]
pub enum ConfigFormat {
    /// Rusty Object Notation (`.ron`).
    Ron,
    /// TOML (`.toml`).
    Toml,
}

/// Whether `r` is the outcome of detecting the format of a file whose
/// extension is `ext`: `.ron` and `.toml` are recognised; any other
/// extension, or none, is a config error naming the problem.
pub open spec fn format_for_extension(ext: Option<Seq<char>>, r: Result<ConfigFormat, GlassError>) -> bool {
    match ext {
        Some(e) => if e == "ron"@ {
            r == Ok::<ConfigFormat, GlassError>(ConfigFormat::Ron)
        } else if e == "toml"@ {
            r == Ok::<ConfigFormat, GlassError>(ConfigFormat::Toml)
        } else {
            r matches Err(GlassError::ConfigError(m)) && m@ == "Unknown config extension '."@ + e
                + "'; expected .ron or .toml"@
        },
        None => r matches Err(GlassError::ConfigError(m)) && m@
            == "Config file has no extension; expected .ron or .toml"@,
    }
}

/// Map a file extension (without the dot) to the config format it denotes.
pub fn format_from_extension(ext: Option<&str>) -> (r: Result<ConfigFormat, GlassError>)
    ensures
        format_for_extension(
            match ext {
                Some(e) => Some(e@),
                None => None,
            },
            r,
        ),
{
    match ext {
        Some(e) => {
            if str_eq(e, "ron") {
                Ok(ConfigFormat::Ron)
            } else if str_eq(e, "toml") {
                Ok(ConfigFormat::Toml)
            } else {
                let mut m = String::from_str("Unknown config extension '.");
                m.append(e);
                m.append("'; expected .ron or .toml");
                Err(GlassError::ConfigError(m))
            }
        },
        None => Err(GlassError::ConfigError(String::from_str("Config file has no extension; expected .ron or .toml"))),
    }
}

/// Whether `p` is a plain file name: a single path component, with no
/// separator (`/` or a backslash), no drive (`:`), and not the parent marker `..`.
pub open spec fn is_plain_name(p: Seq<char>) -> bool {
    !p.contains('/') && !p.contains('\\') && !p.contains(':') && p != ".."@
}

/// The position of the last `.` in `p`, or -1 when it has none.
pub open spec fn last_dot(p: Seq<char>) -> int
    decreases p.len(),
{
    if p.len() == 0 {
        -1
    } else if p.last() == '.' {
        p.len() - 1
    } else {
        last_dot(p.drop_last())
    }
}

/// The extension of a plain file name: the part after its last `.`; none
/// when the name has no `.`, or when its only `.` is the first character.
pub open spec fn plain_extension(p: Seq<char>) -> Option<Seq<char>> {
    let k = last_dot(p);
    if k <= 0 {
        None
    } else {
        Some(p.subrange(k + 1, p.len() as int))
    }
}

/// The position of the last `/` in `p`, or -1 when it has none.
pub open spec fn last_slash(p: Seq<char>) -> int
    decreases p.len(),
{
    if p.len() == 0 {
        -1
    } else if p.last() == '/' {
        p.len() - 1
    } else {
        last_slash(p.drop_last())
    }
}

/// What follows the last `/` of `p` (all of `p` when it has none).
pub open spec fn last_component(p: Seq<char>) -> Seq<char> {
    p.subrange(last_slash(p) + 1, p.len() as int)
}

/// Whether `p` is a `/`-separated path that every platform reads alike and
/// whose file name is its last part: no backslash, no drive (`:`), no leading
/// `//`, and a last part that is a name (not empty, `.` or `..`).
pub open spec fn is_simple_path(p: Seq<char>) -> bool {
    &&& !p.contains('\\')
    &&& !p.contains(':')
    &&& !(p.len() >= 2 && p[0] == '/' && p[1] == '/')
    &&& last_component(p).len() > 0
    &&& last_component(p) != "."@
    &&& last_component(p) != ".."@
}

/// Whether `c` ends a path component or a drive on some platform: `/`, a
/// backslash, or `:`.
pub open spec fn is_name_break(c: char) -> bool {
    c == '/' || c == '\\' || c == ':'
}

/// The position of the last component or drive break in `p`, or -1.
pub open spec fn last_break(p: Seq<char>) -> int
    decreases p.len(),
{
    if p.len() == 0 {
        -1
    } else if is_name_break(p.last()) {
        p.len() - 1
    } else {
        last_break(p.drop_last())
    }
}

/// The file name of `p` as every platform reads it: what follows its last
/// `/`, backslash or `:`.
pub open spec fn name_part(p: Seq<char>) -> Seq<char> {
    p.subrange(last_break(p) + 1, p.len() as int)
}

/// Whether `p` starts with two separators, which on Windows opens a UNC,
/// device or verbatim prefix.
pub open spec fn starts_with_double_separator(p: Seq<char>) -> bool {
    p.len() >= 2 && (p[0] == '/' || p[0] == '\\') && (p[1] == '/' || p[1] == '\\')
}

/// Whether every platform reads the extension of `p` from its name part:
/// no prefix that two leading separators would open, a name part that is
/// not `..`, and one with a `.` after its first character.
pub open spec fn has_clear_extension(p: Seq<char>) -> bool {
    &&& !starts_with_double_separator(p)
    &&& name_part(p) != ".."@
    &&& plain_extension(name_part(p)) is Some
}

/// The extension that `path_extension` returned, as characters.
pub open spec fn ext_chars(r: Option<String>) -> Option<Seq<char>> {
    match r {
        Some(e) => Some(e@),
        None => None,
    }
}

/// Calls `std::path::Path::extension` on `path` and converts the result to
/// a string. The extension is the part of the file name (the last
/// component) after its final `.`; there is none when the file name has no
/// `.` other than a leading one. For a plain file name, and for a simple
/// `/`-separated path (whose file name is its last part), the extension is
/// stated exactly. So it is for any path whose name part (what follows its
/// last `/`, backslash or `:`) has a `.` after its first character, unless
/// the path starts with two separators: Unix reads a backslash or `:` as
/// part of the file name, Windows as a separator or a drive, and the part
/// after the name part's last `.` is the extension either way. Elsewhere
/// what counts as the file name depends on the
/// platform's path syntax; of such a path only this is stated: an extension
/// holds no `.`, and follows a `.` in the path.
#[verifier::external_body]
fn path_extension(path: &str) -> (r: Option<String>)
    ensures
        r matches Some(e) ==> !e@.contains('.') && exists|i: int|
            0 <= i && i + 1 + e@.len() <= path@.len() && path@[i] == '.' && #[trigger] path@.subrange(
                i + 1,
                i + 1 + e@.len(),
            ) == e@,
        is_plain_name(path@) ==> ext_chars(r) == plain_extension(path@),
        is_simple_path(path@) ==> ext_chars(r) == plain_extension(last_component(path@)),
        has_clear_extension(path@) ==> ext_chars(r) == plain_extension(name_part(path@)),
{
    match std::path::Path::new(path).extension() {
        Some(e) => match e.to_str() {
            Some(s) => Some(s.to_string()),
            None => None,
        },
        None => None,
    }
}

/// What detecting the format of `path` may give: for a plain file name, a
/// simple `/`-separated path, or any path whose name part has a clear
/// extension (a Windows path such as `C:\\dir\\config.toml` among them),
/// the outcome for that extension; for any other path, the outcome for some
/// extension without a `.`.
pub open spec fn detected_format(path: Seq<char>, r: Result<ConfigFormat, GlassError>) -> bool {
    &&& is_plain_name(path) ==> format_for_extension(plain_extension(path), r)
    &&& is_simple_path(path) ==> format_for_extension(plain_extension(last_component(path)), r)
    &&& has_clear_extension(path) ==> format_for_extension(plain_extension(name_part(path)), r)
    &&& exists|ext: Option<Seq<char>>|
        #[trigger] format_for_extension(ext, r) && (ext matches Some(e) ==> !e.contains('.'))
}

/// Detect the config format from the file extension of `path`.
///
/// For a plain file name the outcome is exact: `"config.ron"` is RON,
/// `"overlay.toml"` is TOML, and `"config.yaml"` or `"config"` is a config
/// error; so it is for a simple `/`-separated path such as
/// `"settings/overlay.toml"`, and for a path whose file name has a clear
/// extension, such as `"C:\\Users\\me\\config.toml"`. For any other path,
/// the outcome is that of some extension without a `.`.
pub fn detect_format(path: &str) -> (r: Result<ConfigFormat, GlassError>)
    ensures
        is_plain_name(path@) ==> format_for_extension(plain_extension(path@), r),
        is_simple_path(path@) ==> format_for_extension(plain_extension(last_component(path@)), r),
        has_clear_extension(path@) ==> format_for_extension(plain_extension(name_part(path@)), r),
        detected_format(path@, r),
        exists|ext: Option<Seq<char>>|
            #[trigger] format_for_extension(ext, r) && (ext matches Some(e) ==> !e.contains('.')),
{
    let ext = path_extension(path);
    let r = match &ext {
        Some(e) => format_from_extension(Some(e.as_str())),
        None => format_from_extension(None),
    };
    proof {
        let w = ext_chars(ext);
        assert(format_for_extension(w, r));
    }
    r
}

/// Appending characters that break no name keeps the last break.
proof fn last_break_append(x: Seq<char>, y: Seq<char>)
    requires
        forall|i: int| 0 <= i < y.len() ==> !is_name_break(#[trigger] y[i]),
    ensures
        last_break(x + y) == last_break(x),
    decreases y.len(),
{
    if y.len() == 0 {
        assert(x + y =~= x);
    } else {
        let yd = y.drop_last();
        assert forall|i: int| 0 <= i < yd.len() implies !is_name_break(#[trigger] yd[i]) by {
            assert(yd[i] == y[i]);
        }
        last_break_append(x, yd);
        assert((x + y).drop_last() =~= x + yd);
        assert((x + y).last() == y[y.len() - 1]);
    }
}

/// Appending characters other than `.` keeps the last `.`.
proof fn last_dot_append(x: Seq<char>, y: Seq<char>)
    requires
        forall|i: int| 0 <= i < y.len() ==> #[trigger] y[i] != '.',
    ensures
        last_dot(x + y) == last_dot(x),
    decreases y.len(),
{
    if y.len() == 0 {
        assert(x + y =~= x);
    } else {
        let yd = y.drop_last();
        assert forall|i: int| 0 <= i < yd.len() implies #[trigger] yd[i] != '.' by {
            assert(yd[i] == y[i]);
        }
        last_dot_append(x, yd);
        assert((x + y).drop_last() =~= x + yd);
        assert((x + y).last() == y[y.len() - 1]);
    }
}

/// The name part of `dir + stem + "." + ext`, for a stem and an extension
/// without breaks or dots in the extension, ends in the stem, and the
/// extension read from it is `ext`.
proof fn name_part_extension(dir: Seq<char>, stem: Seq<char>, ext: Seq<char>)
    requires
        stem.len() > 0,
        forall|i: int| 0 <= i < stem.len() ==> !is_name_break(#[trigger] stem[i]),
        forall|i: int| 0 <= i < ext.len() ==> !is_name_break(#[trigger] ext[i]) && ext[i] != '.',
    ensures
        name_part(dir + stem + seq!['.'] + ext) != ".."@ || ext.len() == 0,
        plain_extension(name_part(dir + stem + seq!['.'] + ext)) == Some(ext),
{
    let tail = stem + seq!['.'] + ext;
    assert forall|i: int| 0 <= i < tail.len() implies !is_name_break(#[trigger] tail[i]) by {
        if i < stem.len() {
            assert(tail[i] == stem[i]);
        } else if i > stem.len() {
            assert(tail[i] == ext[i - stem.len() - 1]);
        }
    }
    let p = dir + stem + seq!['.'] + ext;
    assert(p =~= dir + tail);
    last_break_append(dir, tail);
    let b = last_break(dir);
    assert(-1 <= b < dir.len()) by {
        last_break_bounds(dir);
    }
    let n = name_part(p);
    let front = dir.subrange(b + 1, dir.len() as int) + stem;
    assert(n =~= front + seq!['.'] + ext);
    last_dot_append(front + seq!['.'], ext);
    assert(front + seq!['.'] + ext =~= (front + seq!['.']) + ext);
    assert(last_dot(front + seq!['.']) == front.len()) by {
        assert((front + seq!['.']).last() == '.');
    }
    assert(front.len() > 0);
    assert(n.subrange(front.len() + 1 as int, n.len() as int) =~= ext);
    if ext.len() > 0 {
        reveal_strlit("..");
        assert(n[n.len() - 1] == ext[ext.len() - 1]);
        assert(n[n.len() - 1] != '.');
        assert(".."@[1] == '.');
    }
}

/// The last break lies within the path.
proof fn last_break_bounds(p: Seq<char>)
    ensures
        -1 <= last_break(p) < p.len(),
    decreases p.len(),
{
    if p.len() > 0 {
        last_break_bounds(p.drop_last());
    }
}

/// The extension of the file name decides the format, whatever directories
/// or drive precede the name, on Windows as on Unix: for a stem without `/`,
/// backslash or `:`, the path `dir + stem + ".toml"` is TOML and
/// `dir + stem + ".ron"` is RON, unless the path starts with two separators
/// (a Windows network or device prefix, which may swallow the name).
pub proof fn file_extension_decides_format(dir: Seq<char>, stem: Seq<char>, r: Result<ConfigFormat, GlassError>)
    requires
        stem.len() > 0,
        forall|i: int| 0 <= i < stem.len() ==> !is_name_break(#[trigger] stem[i]),
        !starts_with_double_separator(dir + stem),
    ensures
        detected_format(dir + stem + ".toml"@, r) ==> r == Ok::<ConfigFormat, GlassError>(ConfigFormat::Toml),
        detected_format(dir + stem + ".ron"@, r) ==> r == Ok::<ConfigFormat, GlassError>(ConfigFormat::Ron),
{
    reveal_strlit(".toml");
    reveal_strlit(".ron");
    reveal_strlit("toml");
    reveal_strlit("ron");
    reveal_strlit("..");
    let t = "toml"@;
    let o = "ron"@;
    assert(".toml"@ =~= seq!['.'] + t);
    assert(".ron"@ =~= seq!['.'] + o);
    assert(dir + stem + ".toml"@ =~= dir + stem + seq!['.'] + t);
    assert(dir + stem + ".ron"@ =~= dir + stem + seq!['.'] + o);
    name_part_extension(dir, stem, t);
    name_part_extension(dir, stem, o);
    let pt = dir + stem + ".toml"@;
    let po = dir + stem + ".ron"@;
    assert(!starts_with_double_separator(pt)) by {
        assert(dir + stem + ".toml"@ =~= (dir + stem) + ".toml"@);
        if (dir + stem).len() >= 2 {
            assert(pt[0] == (dir + stem)[0] && pt[1] == (dir + stem)[1]);
        } else {
            assert(pt[(dir + stem).len() as int] == '.');
        }
    }
    assert(!starts_with_double_separator(po)) by {
        assert(dir + stem + ".ron"@ =~= (dir + stem) + ".ron"@);
        if (dir + stem).len() >= 2 {
            assert(po[0] == (dir + stem)[0] && po[1] == (dir + stem)[1]);
        } else {
            assert(po[(dir + stem).len() as int] == '.');
        }
    }
    assert(has_clear_extension(pt));
    assert(has_clear_extension(po));
    assert(t != o);
}

} // verus!
