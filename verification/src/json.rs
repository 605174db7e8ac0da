//! Rendering of the version descriptor as JSON text.
//!
//! The descriptor is rendered with two-space indentation; the library list
//! is embedded as one compact JSON array carried in a string field, as the
//! launchers that read the artifact expect.

use vstd::prelude::*;

use crate::libraries::lib_views;
use crate::meta::{
    DescriptorView, FabricVersionDescriptor, LauncherMetaLibrariesItems, LibraryRefView,
    opt_str_view,
};

verus! {

/// The lowercase hexadecimal digit of a value below sixteen.
pub open spec fn spec_hex_digit(n: int) -> char {
    if n == 0 {
        '0'
    } else if n == 1 {
        '1'
    } else if n == 2 {
        '2'
    } else if n == 3 {
        '3'
    } else if n == 4 {
        '4'
    } else if n == 5 {
        '5'
    } else if n == 6 {
        '6'
    } else if n == 7 {
        '7'
    } else if n == 8 {
        '8'
    } else if n == 9 {
        '9'
    } else if n == 10 {
        'a'
    } else if n == 11 {
        'b'
    } else if n == 12 {
        'c'
    } else if n == 13 {
        'd'
    } else if n == 14 {
        'e'
    } else {
        'f'
    }
}

/// How one character appears inside a JSON string literal: quote and
/// backslash are escaped, the named control characters take their short
/// escapes, every other control character takes a `\u00..` escape, and all
/// remaining characters stand as themselves.
pub open spec fn spec_escape_char(c: char) -> Seq<char> {
    if c == '"' {
        seq!['\\', '"']
    } else if c == '\\' {
        seq!['\\', '\\']
    } else if c == '\u{8}' {
        seq!['\\', 'b']
    } else if c == '\t' {
        seq!['\\', 't']
    } else if c == '\n' {
        seq!['\\', 'n']
    } else if c == '\u{c}' {
        seq!['\\', 'f']
    } else if c == '\r' {
        seq!['\\', 'r']
    } else if (c as u32) < 32 {
        seq!['\\', 'u', '0', '0', spec_hex_digit((c as u32) as int / 16), spec_hex_digit(
            (c as u32) as int % 16,
        )]
    } else {
        seq![c]
    }
}

/// The body of a JSON string literal: every character escaped in turn.
pub open spec fn spec_escape(s: Seq<char>) -> Seq<char>
    decreases s.len(),
{
    if s.len() == 0 {
        Seq::empty()
    } else {
        spec_escape(s.drop_last()) + spec_escape_char(s.last())
    }
}

/// A JSON string literal: the escaped body between two quotes.
pub open spec fn spec_json_string(s: Seq<char>) -> Seq<char> {
    seq!['"'] + spec_escape(s) + seq!['"']
}

/// An optional string as JSON: a string literal, or `null`.
pub open spec fn spec_json_opt_string(s: Option<Seq<char>>) -> Seq<char> {
    match s {
        Option::Some(s) => spec_json_string(s),
        Option::None => "null"@,
    }
}

/// One library reference as a compact JSON object.
pub open spec fn spec_library_json(l: LibraryRefView) -> Seq<char> {
    "{\"name\":"@ + spec_json_opt_string(l.name) + ",\"url\":"@ + spec_json_opt_string(l.url)
        + "}"@
}

/// The comma-separated bodies of a library array, in list order.
pub open spec fn spec_libraries_json_inner(libs: Seq<LibraryRefView>) -> Seq<char>
    decreases libs.len(),
{
    if libs.len() == 0 {
        Seq::empty()
    } else if libs.len() == 1 {
        spec_library_json(libs[0])
    } else {
        spec_libraries_json_inner(libs.drop_last()) + ","@ + spec_library_json(libs.last())
    }
}

/// A library list as a compact JSON array.
pub open spec fn spec_libraries_json(libs: Seq<LibraryRefView>) -> Seq<char> {
    "["@ + spec_libraries_json_inner(libs) + "]"@
}

/// The full descriptor as JSON text with two-space indentation: id,
/// inheritsFrom, mainClass, the library array embedded as a string field,
/// the always-empty arguments block, and the two timestamps.
pub open spec fn spec_descriptor_json(d: DescriptorView) -> Seq<char> {
    "{\n  \"id\": "@ + spec_json_string(d.id) + ",\n  \"inheritsFrom\": "@ + spec_json_string(
        d.inherits_from,
    ) + ",\n  \"mainClass\": "@ + spec_json_string(d.main_class) + ",\n  \"libraries\": "@
        + spec_json_string(spec_libraries_json(d.libraries))
        + ",\n  \"arguments\": {\n    \"game\": [],\n    \"jvm\": []\n  },\n  \"releaseTime\": "@
        + spec_json_string(d.release_time) + ",\n  \"time\": "@ + spec_json_string(d.time) + "\n}"@
}

/// Relies on String::push: appends exactly the given character.
#[verifier::external_body]
fn push_char(s: &mut String, c: char)
    ensures
        final (s)@ == old(s)@ + seq![c],
{
    s.push(c);
}

/// The lowercase hexadecimal digit of a value below sixteen.
fn hex_digit(n: u32) -> (c: char)
    requires
        n < 16,
    ensures
        c == spec_hex_digit(n as int),
{
    if n == 0 {
        '0'
    } else if n == 1 {
        '1'
    } else if n == 2 {
        '2'
    } else if n == 3 {
        '3'
    } else if n == 4 {
        '4'
    } else if n == 5 {
        '5'
    } else if n == 6 {
        '6'
    } else if n == 7 {
        '7'
    } else if n == 8 {
        '8'
    } else if n == 9 {
        '9'
    } else if n == 10 {
        'a'
    } else if n == 11 {
        'b'
    } else if n == 12 {
        'c'
    } else if n == 13 {
        'd'
    } else if n == 14 {
        'e'
    } else {
        'f'
    }
}

/// Appends the escape of one character.
fn append_escaped_char(out: &mut String, c: char)
    ensures
        final (out)@ == old(out)@ + spec_escape_char(c),
{
    if c == '"' {
        push_char(out, '\\');
        push_char(out, '"');
    } else if c == '\\' {
        push_char(out, '\\');
        push_char(out, '\\');
    } else if c == '\u{8}' {
        push_char(out, '\\');
        push_char(out, 'b');
    } else if c == '\t' {
        push_char(out, '\\');
        push_char(out, 't');
    } else if c == '\n' {
        push_char(out, '\\');
        push_char(out, 'n');
    } else if c == '\u{c}' {
        push_char(out, '\\');
        push_char(out, 'f');
    } else if c == '\r' {
        push_char(out, '\\');
        push_char(out, 'r');
    } else if (c as u32) < 32 {
        push_char(out, '\\');
        push_char(out, 'u');
        push_char(out, '0');
        push_char(out, '0');
        push_char(out, hex_digit((c as u32) / 16));
        push_char(out, hex_digit((c as u32) % 16));
    } else {
        push_char(out, c);
    }
    proof {
        assert(out@ =~= old(out)@ + spec_escape_char(c));
    }
}

/// Appends the escaped body of a string.
fn append_escaped(out: &mut String, s: &str)
    ensures
        final (out)@ == old(out)@ + spec_escape(s@),
{
    let len = s.unicode_len();
    let mut i: usize = 0;
    while i < len
        invariant
            i <= len,
            len == s@.len(),
            out@ == old(out)@ + spec_escape(s@.subrange(0, i as int)),
        decreases len - i,
    {
        let c = s.get_char(i);
        append_escaped_char(out, c);
        proof {
            assert(s@.subrange(0, i + 1 as int).drop_last() =~= s@.subrange(0, i as int));
            assert(s@.subrange(0, i + 1 as int).last() == s@[i as int]);
        }
        i = i + 1;
    }
    proof {
        assert(s@.subrange(0, s@.len() as int) =~= s@);
    }
}

/// Appends a string as a JSON string literal.
fn append_json_string(out: &mut String, s: &str)
    ensures
        final (out)@ == old(out)@ + spec_json_string(s@),
{
    push_char(out, '"');
    append_escaped(out, s);
    push_char(out, '"');
    proof {
        assert(out@ =~= old(out)@ + spec_json_string(s@));
    }
}

/// Appends an optional string as a JSON string literal or `null`.
fn append_json_opt_string(out: &mut String, s: &Option<String>)
    ensures
        final (out)@ == old(out)@ + spec_json_opt_string(opt_str_view(*s)),
{
    match s {
        Option::Some(s) => append_json_string(out, s.as_str()),
        Option::None => out.append("null"),
    }
}

/// Appends one library reference as a compact JSON object.
fn append_library_json(out: &mut String, l: &LauncherMetaLibrariesItems)
    ensures
        final (out)@ == old(out)@ + spec_library_json(l@),
{
    out.append("{\"name\":");
    append_json_opt_string(out, &l.name);
    out.append(",\"url\":");
    append_json_opt_string(out, &l.url);
    out.append("}");
    proof {
        assert(out@ =~= old(out)@ + spec_library_json(l@));
    }
}

/// Renders the library list as one compact JSON array, in list order.
pub fn libraries_json(libs: &Vec<LauncherMetaLibrariesItems>) -> (r: String)
    ensures
        r@ == spec_libraries_json(lib_views(libs@)),
{
    let ghost lv = lib_views(libs@);
    let mut out = String::from_str("[");
    let mut i: usize = 0;
    while i < libs.len()
        invariant
            i <= libs@.len(),
            lv == lib_views(libs@),
            out@ == "["@ + spec_libraries_json_inner(lv.subrange(0, i as int)),
        decreases libs@.len() - i,
    {
        if i > 0 {
            out.append(",");
        }
        append_library_json(&mut out, &libs[i]);
        proof {
            assert(lv.subrange(0, i + 1 as int).drop_last() =~= lv.subrange(0, i as int));
            assert(lv.subrange(0, i + 1 as int).last() == lv[i as int]);
            if i == 0 {
                assert(out@ =~= "["@ + spec_libraries_json_inner(lv.subrange(0, 1)));
            } else {
                assert(out@ =~= "["@ + spec_libraries_json_inner(lv.subrange(0, i + 1 as int)));
            }
        }
        i = i + 1;
    }
    out.append("]");
    proof {
        assert(lv.subrange(0, lv.len() as int) =~= lv);
        assert(out@ =~= spec_libraries_json(lv));
    }
    out
}

/// Renders the full descriptor as the on-disk JSON text.
pub fn descriptor_json(d: &FabricVersionDescriptor) -> (r: String)
    ensures
        r@ == spec_descriptor_json(d@),
{
    let mut out = String::from_str("{\n  \"id\": ");
    append_json_string(&mut out, d.id.as_str());
    out.append(",\n  \"inheritsFrom\": ");
    append_json_string(&mut out, d.inherits_from.as_str());
    out.append(",\n  \"mainClass\": ");
    append_json_string(&mut out, d.main_class.as_str());
    out.append(",\n  \"libraries\": ");
    let libs = libraries_json(&d.libraries);
    append_json_string(&mut out, libs.as_str());
    out.append(",\n  \"arguments\": {\n    \"game\": [],\n    \"jvm\": []\n  },\n  \"releaseTime\": ");
    append_json_string(&mut out, d.release_time.as_str());
    out.append(",\n  \"time\": ");
    append_json_string(&mut out, d.time.as_str());
    out.append("\n}");
    proof {
        assert(lib_views(d.libraries@) =~= d@.libraries);
        assert(out@ =~= spec_descriptor_json(d@));
    }
    out
}

} // verus!
