//! The JSON IPC protocol of the player: socket locations, the commands that
//! are sent, and how replies are read.
use vstd::prelude::*;
use crate::paths::{join, path_join};
use crate::text::{contains_seq, owned, push_char, push_str, str_contains, string_of};
use crate::unicode::{char_is_alphanumeric, is_unicode_alphanumeric};

verus! {

/// The folder of the player sockets: `$XDG_RUNTIME_DIR/aura` when that
/// variable is set and not empty, else `$HOME/.cache/aura/ipc` (with `/tmp`
/// for a missing home).
pub open spec fn socket_dir_spec(xdg_runtime: Option<Seq<char>>, home: Option<Seq<char>>) -> Seq<char> {
    match xdg_runtime {
        Some(x) if x.len() != 0 => join(x, "aura"@),
        _ => join(match home { Some(h) => h, None => "/tmp"@ }, ".cache/aura/ipc"@),
    }
}

/// See `socket_dir_spec`.
pub fn socket_dir(xdg_runtime: Option<&str>, home: Option<&str>) -> (r: String)
    ensures
        r@ == socket_dir_spec(
            match xdg_runtime { Some(x) => Some(x@), None => None },
            match home { Some(h) => Some(h@), None => None },
        ),
{
    match xdg_runtime {
        Some(x) => {
            if !x.is_empty() {
                return path_join(x, "aura");
            }
        },
        None => {},
    }
    let h = match home {
        Some(h) => h,
        None => "/tmp",
    };
    path_join(h, ".cache/aura/ipc")
}

/// The characters of an output name that are kept in a socket name.
pub open spec fn keep_socket_char(c: char) -> bool {
    is_unicode_alphanumeric(c) || c == '-' || c == '_'
}

/// The kept characters of an output name, in order.
pub open spec fn socket_chars(s: Seq<char>) -> Seq<char>
    decreases s.len(),
{
    if s.len() == 0 {
        seq![]
    } else if keep_socket_char(s.last()) {
        socket_chars(s.drop_last()).push(s.last())
    } else {
        socket_chars(s.drop_last())
    }
}

/// The socket file name of an output: `mpv_<kept characters>.sock`, with
/// `all` when no character is kept (as for `*`, all outputs).
pub open spec fn socket_name_spec(output: Seq<char>) -> Seq<char> {
    let clean = socket_chars(output);
    "mpv_"@ + (if clean.len() == 0 { "all"@ } else { clean }) + ".sock"@
}

/// See `socket_name_spec`.
pub fn socket_name(output: &str) -> (r: String)
    ensures
        r@ == socket_name_spec(output@),
{
    let chars = crate::text::chars_of(output);
    let mut clean: Vec<char> = Vec::new();
    proof {
        assert(chars@.take(0) =~= Seq::<char>::empty());
    }
    for i in 0..chars.len()
        invariant
            clean@ == socket_chars(chars@.take(i as int)),
    {
        proof {
            assert(chars@.take(i + 1).drop_last() =~= chars@.take(i as int));
        }
        let c = chars[i];
        if char_is_alphanumeric(c) || c == '-' || c == '_' {
            clean.push(c);
        }
    }
    proof {
        assert(chars@.take(chars@.len() as int) =~= chars@);
    }
    let mut name = owned("mpv_");
    if clean.len() == 0 {
        push_str(&mut name, "all");
    } else {
        let c = string_of(&clean);
        push_str(&mut name, c.as_str());
    }
    push_str(&mut name, ".sock");
    name
}

/// The socket of an output inside the socket folder.
pub fn socket_path_for_output(dir: &str, output: &str) -> (r: String)
    ensures
        r@ == join(dir@, socket_name_spec(output@)),
{
    let name = socket_name(output);
    path_join(dir, name.as_str())
}

/// The output that a socket found on disk belongs to: its file stem without
/// the `mpv_` prefix (the whole stem when it has none).
pub open spec fn output_of_socket_stem_spec(stem: Seq<char>) -> Seq<char> {
    if crate::text::has_prefix(stem, "mpv_"@) {
        stem.subrange(4, stem.len() as int)
    } else {
        stem
    }
}

/// See `output_of_socket_stem_spec`.
pub fn output_of_socket_stem(stem: &str) -> (r: String)
    ensures
        r@ == output_of_socket_stem_spec(stem@),
{
    let v = crate::text::chars_of(stem);
    let p = crate::text::chars_of("mpv_");
    proof {
        reveal_strlit("mpv_");
    }
    if crate::text::starts_with(&v, &p) {
        string_of(&crate::text::slice_chars(&v, 4, v.len()))
    } else {
        owned(stem)
    }
}

/// Whether a reply to a `get_property` probe shows a live player: it holds
/// both `error` and `success`.
pub fn reply_shows_alive(resp: &str) -> (b: bool)
    ensures
        b == (contains_seq(resp@, "error"@) && contains_seq(resp@, "success"@)),
{
    str_contains(resp, "error") && str_contains(resp, "success")
}

/// Whether a reply reports success: it holds `"error":"success"`.
pub fn reply_is_success(resp: &str) -> (b: bool)
    ensures
        b == contains_seq(resp@, "\"error\":\"success\""@),
{
    str_contains(resp, "\"error\":\"success\"")
}

/// A lower-case hexadecimal digit.
pub open spec fn hex_lower_digit(d: nat) -> char {
    seq!['0', '1', '2', '3', '4', '5', '6', '7', '8', '9', 'a', 'b', 'c', 'd', 'e', 'f'][d as int]
}

/// How JSON writes one character inside a string, as `serde_json` does:
/// `"` and `\` behind a backslash, backspace, tab, line feed, form feed and
/// carriage return as `\b \t \n \f \r`, the other characters below 0x20 as
/// `\u00` and two lower-case hexadecimal digits, any other character as it
/// is.
pub open spec fn json_char_text(c: char) -> Seq<char> {
    let u = c as u32;
    if c == '"' {
        seq!['\\', '"']
    } else if c == '\\' {
        seq!['\\', '\\']
    } else if u == 0x08 {
        seq!['\\', 'b']
    } else if u == 0x09 {
        seq!['\\', 't']
    } else if u == 0x0A {
        seq!['\\', 'n']
    } else if u == 0x0C {
        seq!['\\', 'f']
    } else if u == 0x0D {
        seq!['\\', 'r']
    } else if u < 0x20 {
        seq!['\\', 'u', '0', '0', hex_lower_digit((u / 16) as nat), hex_lower_digit((u % 16) as nat)]
    } else {
        seq![c]
    }
}

/// The characters of a string as JSON writes them inside the quotes.
pub open spec fn json_escaped(s: Seq<char>) -> Seq<char>
    decreases s.len(),
{
    if s.len() == 0 {
        seq![]
    } else {
        json_escaped(s.drop_last()) + json_char_text(s.last())
    }
}

/// The JSON text of a string: its escaped characters between quotes.
pub open spec fn json_string_literal(s: Seq<char>) -> Seq<char> {
    seq!['"'] + json_escaped(s) + seq!['"']
}

/// Writes a string as JSON with `serde_json::to_string`, which escapes each
/// character as `json_char_text` says (`format_escaped_str_contents` with
/// its table of escapes) between quotes. Writing a string does not fail:
/// the documented failures are a failing `Serialize` impl and maps with
/// keys that are not strings, and a string is written into an in-memory
/// buffer.
#[verifier::external_body]
fn json_quote(s: &str) -> (r: Result<String, String>)
    ensures
        r is Ok,
        match r {
            Ok(t) => t@ == json_string_literal(s@),
            Err(_) => true,
        },
{
    match serde_json::to_string(s) {
        Ok(t) => Ok(t),
        Err(e) => Err(e.to_string()),
    }
}

/// The `loadfile` command that replaces what a player shows.
pub open spec fn loadfile_command_spec(path: Seq<char>) -> Seq<char> {
    "{\"command\":[\"loadfile\","@ + json_string_literal(path) + ",\"replace\"]}"@
}

/// See `loadfile_command_spec`; writing it does not fail.
pub fn loadfile_command(path: &str) -> (r: Result<String, String>)
    ensures
        r is Ok,
        r.unwrap()@ == loadfile_command_spec(path@),
{
    let quoted = json_quote(path)?;
    let mut cmd = owned("{\"command\":[\"loadfile\",");
    push_str(&mut cmd, quoted.as_str());
    push_str(&mut cmd, ",\"replace\"]}");
    Ok(cmd)
}

/// A property value sent to a player.
pub enum IpcValue {
    Flag(bool),
    Count(u64),
    /// A number written as the given decimal text, such as `1.0`.
    Decimal(String),
}

/// The JSON text of a property value.
pub open spec fn ipc_value_text(v: IpcValue) -> Seq<char> {
    match v {
        IpcValue::Flag(b) => if b { "true"@ } else { "false"@ },
        IpcValue::Count(n) => crate::text::decimal(n as nat),
        IpcValue::Decimal(t) => t@,
    }
}

/// The `set_property` command for a property and a value.
pub open spec fn set_property_command_spec(prop: Seq<char>, value: IpcValue) -> Seq<char> {
    "{\"command\":[\"set_property\","@ + json_string_literal(prop) + ","@ + ipc_value_text(value) + "]}"@
}

/// See `set_property_command_spec`; writing it does not fail.
pub fn set_property_command(prop: &str, value: &IpcValue) -> (r: Result<String, String>)
    ensures
        r is Ok,
        r.unwrap()@ == set_property_command_spec(prop@, *value),
{
    let quoted = json_quote(prop)?;
    let mut cmd = owned("{\"command\":[\"set_property\",");
    push_str(&mut cmd, quoted.as_str());
    push_char(&mut cmd, ',');
    match value {
        IpcValue::Flag(b) => {
            if *b {
                push_str(&mut cmd, "true");
            } else {
                push_str(&mut cmd, "false");
            }
        },
        IpcValue::Count(n) => {
            crate::text::push_decimal(&mut cmd, *n);
        },
        IpcValue::Decimal(t) => {
            push_str(&mut cmd, t.as_str());
        },
    }
    push_str(&mut cmd, "]}");
    proof {
        reveal_strlit(",");
    }
    Ok(cmd)
}

/// The `data` field of a JSON reply when it is a boolean.
pub uninterp spec fn json_data_bool(resp: Seq<char>) -> Option<bool>;

/// The `data` field of a JSON reply when it is an unsigned integer.
pub uninterp spec fn json_data_u64(resp: Seq<char>) -> Option<u64>;

/// Reads the reply with `serde_json::from_str` into a `serde_json::Value`
/// and takes its `data` field with `Value::get` and `Value::as_bool`;
/// `None` when the reply is no JSON or has no boolean `data`. The result is
/// named by `json_data_bool`.
#[verifier::external_body]
fn read_data_bool(resp: &str) -> (r: Option<bool>)
    ensures
        r == json_data_bool(resp@),
{
    match serde_json::from_str::<serde_json::Value>(resp) {
        Ok(v) => v.get("data").and_then(|d| d.as_bool()),
        Err(_) => None,
    }
}

/// Reads the reply with `serde_json::from_str` into a `serde_json::Value`
/// and takes its `data` field with `Value::get` and `Value::as_u64`; `None`
/// when the reply is no JSON or has no unsigned integer `data`. The result
/// is named by `json_data_u64`.
#[verifier::external_body]
fn read_data_u64(resp: &str) -> (r: Option<u64>)
    ensures
        r == json_data_u64(resp@),
{
    match serde_json::from_str::<serde_json::Value>(resp) {
        Ok(v) => v.get("data").and_then(|d| d.as_u64()),
        Err(_) => None,
    }
}

/// The pause state in a reply to `get_property pause`.
pub fn pause_from_reply(resp: &str) -> (r: Option<bool>)
    ensures
        r == json_data_bool(resp@),
{
    read_data_bool(resp)
}

/// The process id in a reply to `get_property pid`, cut to 32 bits.
pub fn pid_from_reply(resp: &str) -> (r: Option<u32>)
    ensures
        r == (match json_data_u64(resp@) { Some(p) => Some(p as u32), None => None }),
{
    match read_data_u64(resp) {
        Some(p) => Some(p as u32),
        None => None,
    }
}

/// The pause state after `cycle pause`, read from the reply to the
/// following `get_property pause`: `false` when the reply does not tell.
pub fn cycle_pause_result(resp: &str) -> (r: bool)
    ensures
        r == (match json_data_bool(resp@) { Some(b) => b, None => false }),
{
    match read_data_bool(resp) {
        Some(b) => b,
        None => false,
    }
}

} // verus!
