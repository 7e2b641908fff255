//! The result formatter: renders an id-sorted result set in one of several
//! output encodings. No format re-filters or re-sorts; each is a pure
//! projection and serialization of the given sequence.

use vstd::prelude::*;
use vstd::string::StrSliceExecFns;
use vstd::string::StringExecFns;
use crate::item_definition::{ItemDefinition, ItemView};
use crate::search::views_of;

verus! {

/// The requested output encoding.
#[derive(Clone, Copy, Debug, PartialEq, Eq, Structural)]
pub enum PrintFormat {
    /// One line per record: `id | name | description`, missing fields empty.
    Basic,
    /// A JSON array of the integer ids.
    JsonId,
    /// A JSON array of `[id, name]` pairs; a missing name is `"unnamed"`.
    JsonIdNameTuple,
}

/// Relies on `String::push`: appends the given character to the end of the
/// string.
pub assume_specification[ String::push ](s: &mut String, ch: char)
    ensures
        final(s)@ == old(s)@.push(ch),
;

/// The decimal digit characters of `n`, most significant first.
pub open spec fn dec_digits(n: nat) -> Seq<char>
    decreases n,
{
    if n < 10 {
        seq![digit_char(n)]
    } else {
        dec_digits(n / 10).push(digit_char(n % 10))
    }
}

/// The character of one decimal digit.
pub open spec fn digit_char(d: nat) -> char {
    if d == 0 {
        '0'
    } else if d == 1 {
        '1'
    } else if d == 2 {
        '2'
    } else if d == 3 {
        '3'
    } else if d == 4 {
        '4'
    } else if d == 5 {
        '5'
    } else if d == 6 {
        '6'
    } else if d == 7 {
        '7'
    } else if d == 8 {
        '8'
    } else {
        '9'
    }
}

/// The decimal rendering of a signed value: a minus sign and the digits of
/// the magnitude, or just the digits.
pub open spec fn dec_int(n: int) -> Seq<char> {
    if n < 0 {
        seq!['-'] + dec_digits((-n) as nat)
    } else {
        dec_digits(n as nat)
    }
}

/// The field separator of the basic format.
pub open spec fn sep() -> Seq<char> {
    seq![' ', '|', ' ']
}

/// An optional text field, rendered as the empty string when absent.
pub open spec fn opt_or_empty(o: Option<Seq<char>>) -> Seq<char> {
    match o {
        Some(s) => s,
        None => Seq::empty(),
    }
}

/// One line of the basic format: id, name and description joined by the
/// separator; missing optional fields render as the empty string.
pub open spec fn basic_line(a: ItemView) -> Seq<char> {
    dec_int(a.id as int) + sep() + opt_or_empty(a.name) + sep() + opt_or_empty(a.description)
}

/// The basic format: the lines joined by newlines, no trailing wrapper.
pub open spec fn basic_render(s: Seq<ItemView>) -> Seq<char>
    decreases s.len(),
{
    if s.len() == 0 {
        Seq::empty()
    } else if s.len() == 1 {
        basic_line(s[0])
    } else {
        basic_render(s.drop_last()) + seq!['\n'] + basic_line(s.last())
    }
}

/// The comma-separated ids of the JSON-ids format.
pub open spec fn ids_body(s: Seq<ItemView>) -> Seq<char>
    decreases s.len(),
{
    if s.len() == 0 {
        Seq::empty()
    } else if s.len() == 1 {
        dec_int(s[0].id as int)
    } else {
        ids_body(s.drop_last()) + seq![','] + dec_int(s.last().id as int)
    }
}

/// The JSON-ids format: a JSON array of the integer ids.
pub open spec fn ids_render(s: Seq<ItemView>) -> Seq<char> {
    seq!['['] + ids_body(s) + seq![']']
}

/// The character of one hexadecimal digit, lower case.
pub open spec fn hex_char(d: nat) -> char {
    if d < 10 {
        digit_char(d)
    } else if d == 10 {
        'a'
    } else if d == 11 {
        'b'
    } else if d == 12 {
        'c'
    } else if d == 13 {
        'd'
    } else if d == 14 {
        'e'
    } else {
        'f'
    }
}

/// The JSON escape of one character: quotes and backslashes are escaped,
/// control characters use the short escapes or `\u00..`; everything else
/// stands for itself.
pub open spec fn escape_char(c: char) -> Seq<char> {
    if c == '"' {
        seq!['\\', '"']
    } else if c == '\\' {
        seq!['\\', '\\']
    } else if c == '\u{8}' {
        seq!['\\', 'b']
    } else if c == '\t' {
        seq!['\\', 't']
    } else if c == '\n' {
        seq!['\\', 'n']
    } else if c == '\u{c}' {
        seq!['\\', 'f']
    } else if c == '\r' {
        seq!['\\', 'r']
    } else if (c as u32) < 32 {
        seq!['\\', 'u', '0', '0', hex_char((c as u32) as nat / 16), hex_char((c as u32) as nat % 16)]
    } else {
        seq![c]
    }
}

/// The JSON escape of a text, character by character.
pub open spec fn escaped(s: Seq<char>) -> Seq<char>
    decreases s.len(),
{
    if s.len() == 0 {
        Seq::empty()
    } else {
        escaped(s.drop_last()) + escape_char(s.last())
    }
}

/// A JSON string literal: the escaped text in double quotes.
pub open spec fn json_string(s: Seq<char>) -> Seq<char> {
    seq!['"'] + escaped(s) + seq!['"']
}

/// The name a record is rendered under in the tuple format: a missing name
/// is the literal placeholder.
pub open spec fn name_or_unnamed(a: ItemView) -> Seq<char> {
    match a.name {
        Some(n) => n,
        None => seq!['u', 'n', 'n', 'a', 'm', 'e', 'd'],
    }
}

/// One `[id, name]` pair of the tuple format.
pub open spec fn tuple_entry(a: ItemView) -> Seq<char> {
    seq!['['] + dec_int(a.id as int) + seq![','] + json_string(name_or_unnamed(a)) + seq![']']
}

/// The comma-separated pairs of the tuple format.
pub open spec fn tuples_body(s: Seq<ItemView>) -> Seq<char>
    decreases s.len(),
{
    if s.len() == 0 {
        Seq::empty()
    } else if s.len() == 1 {
        tuple_entry(s[0])
    } else {
        tuples_body(s.drop_last()) + seq![','] + tuple_entry(s.last())
    }
}

/// The JSON-id/name-tuple format: a JSON array of `[id, name]` pairs.
pub open spec fn tuples_render(s: Seq<ItemView>) -> Seq<char> {
    seq!['['] + tuples_body(s) + seq![']']
}

/// The exact output text of each format on a record sequence.
pub open spec fn render(f: PrintFormat, s: Seq<ItemView>) -> Seq<char> {
    match f {
        PrintFormat::Basic => basic_render(s),
        PrintFormat::JsonId => ids_render(s),
        PrintFormat::JsonIdNameTuple => tuples_render(s),
    }
}

fn digit_of(d: u32) -> (c: char)
    requires
        d < 10,
    ensures
        c == digit_char(d as nat),
{
    if d == 0 {
        '0'
    } else if d == 1 {
        '1'
    } else if d == 2 {
        '2'
    } else if d == 3 {
        '3'
    } else if d == 4 {
        '4'
    } else if d == 5 {
        '5'
    } else if d == 6 {
        '6'
    } else if d == 7 {
        '7'
    } else if d == 8 {
        '8'
    } else {
        '9'
    }
}

fn hex_of(d: u32) -> (c: char)
    requires
        d < 16,
    ensures
        c == hex_char(d as nat),
{
    if d < 10 {
        digit_of(d)
    } else if d == 10 {
        'a'
    } else if d == 11 {
        'b'
    } else if d == 12 {
        'c'
    } else if d == 13 {
        'd'
    } else if d == 14 {
        'e'
    } else {
        'f'
    }
}

/// Append the decimal digits of `n`.
pub(crate) fn push_dec_u32(out: &mut String, n: u32)
    ensures
        final(out)@ == old(out)@ + dec_digits(n as nat),
    decreases n,
{
    if n < 10 {
        out.push(digit_of(n));
        proof {
            assert(out@ =~= old(out)@ + dec_digits(n as nat));
        }
    } else {
        push_dec_u32(out, n / 10);
        out.push(digit_of(n % 10));
        proof {
            assert(out@ =~= old(out)@ + dec_digits(n as nat));
        }
    }
}

/// Append the decimal rendering of a signed id.
fn push_dec_i32(out: &mut String, n: i32)
    ensures
        final(out)@ == old(out)@ + dec_int(n as int),
{
    if n < 0 {
        out.push('-');
        let m: u32 = if n == -2147483648i32 {
            2147483648u32
        } else {
            (-n) as u32
        };
        proof {
            assert(m as nat == (-(n as int)) as nat);
        }
        push_dec_u32(out, m);
        proof {
            assert(out@ =~= old(out)@ + dec_int(n as int));
        }
    } else {
        push_dec_u32(out, n as u32);
    }
}

fn push_sep(out: &mut String)
    ensures
        final(out)@ == old(out)@ + sep(),
{
    out.push(' ');
    out.push('|');
    out.push(' ');
    proof {
        assert(out@ =~= old(out)@ + sep());
    }
}

fn push_opt(out: &mut String, o: &Option<String>)
    ensures
        final(out)@ == old(out)@ + opt_or_empty(crate::item_definition::view_opt_str(*o)),
{
    match o {
        Some(s) => {
            out.append(s.as_str());
        },
        None => {
            proof {
                assert(out@ =~= old(out)@ + Seq::<char>::empty());
            }
        },
    }
}

fn push_basic_line(out: &mut String, it: &ItemDefinition)
    ensures
        final(out)@ == old(out)@ + basic_line(it@),
{
    push_dec_i32(out, it.id);
    push_sep(out);
    push_opt(out, &it.name);
    push_sep(out);
    push_opt(out, &it.description);
    proof {
        assert(out@ =~= old(out)@ + basic_line(it@));
    }
}

fn push_escaped_char(out: &mut String, c: char)
    ensures
        final(out)@ == old(out)@ + escape_char(c),
{
    if c == '"' {
        out.push('\\');
        out.push('"');
    } else if c == '\\' {
        out.push('\\');
        out.push('\\');
    } else if c == '\u{8}' {
        out.push('\\');
        out.push('b');
    } else if c == '\t' {
        out.push('\\');
        out.push('t');
    } else if c == '\n' {
        out.push('\\');
        out.push('n');
    } else if c == '\u{c}' {
        out.push('\\');
        out.push('f');
    } else if c == '\r' {
        out.push('\\');
        out.push('r');
    } else if (c as u32) < 32 {
        let v: u32 = c as u32;
        out.push('\\');
        out.push('u');
        out.push('0');
        out.push('0');
        out.push(hex_of(v / 16));
        out.push(hex_of(v % 16));
    } else {
        out.push(c);
    }
    proof {
        assert(out@ =~= old(out)@ + escape_char(c));
    }
}

/// Append a JSON string literal holding the given text.
fn push_json_string(out: &mut String, s: &str)
    ensures
        final(out)@ == old(out)@ + json_string(s@),
{
    out.push('"');
    let n = s.unicode_len();
    let mut i: usize = 0;
    while i < n
        invariant
            i <= n,
            n == s@.len(),
            out@ == old(out)@ + seq!['"'] + escaped(s@.subrange(0, i as int)),
        decreases n - i,
    {
        let c = s.get_char(i);
        push_escaped_char(out, c);
        proof {
            assert(s@.subrange(0, i + 1).drop_last() =~= s@.subrange(0, i as int));
            assert(s@.subrange(0, i + 1).last() == s@[i as int]);
            assert(out@ =~= old(out)@ + seq!['"'] + escaped(s@.subrange(0, i + 1)));
        }
        i += 1;
    }
    out.push('"');
    proof {
        assert(s@.subrange(0, s@.len() as int) =~= s@);
        assert(out@ =~= old(out)@ + json_string(s@));
    }
}

fn render_basic(items: &Vec<ItemDefinition>) -> (r: String)
    ensures
        r@ == basic_render(views_of(items@)),
{
    let ghost sv = views_of(items@);
    let mut out = String::new();
    let mut i: usize = 0;
    while i < items.len()
        invariant
            i <= items.len(),
            sv == views_of(items@),
            sv.len() == items@.len(),
            out@ == basic_render(sv.subrange(0, i as int)),
        decreases items.len() - i,
    {
        if i > 0 {
            out.push('\n');
        }
        push_basic_line(&mut out, &items[i]);
        proof {
            assert(sv.subrange(0, i + 1).drop_last() =~= sv.subrange(0, i as int));
            assert(sv.subrange(0, i + 1).last() == sv[i as int]);
            assert(sv[i as int] == items@[i as int]@);
            if i == 0 {
                assert(out@ =~= basic_render(sv.subrange(0, 1)));
            } else {
                assert(out@ =~= basic_render(sv.subrange(0, i + 1)));
            }
        }
        i += 1;
    }
    proof {
        assert(sv.subrange(0, sv.len() as int) =~= sv);
    }
    out
}

fn render_json_ids(items: &Vec<ItemDefinition>) -> (r: String)
    ensures
        r@ == ids_render(views_of(items@)),
{
    let ghost sv = views_of(items@);
    let mut out = String::new();
    out.push('[');
    let mut i: usize = 0;
    while i < items.len()
        invariant
            i <= items.len(),
            sv == views_of(items@),
            sv.len() == items@.len(),
            out@ == seq!['['] + ids_body(sv.subrange(0, i as int)),
        decreases items.len() - i,
    {
        if i > 0 {
            out.push(',');
        }
        push_dec_i32(&mut out, items[i].id);
        proof {
            assert(sv.subrange(0, i + 1).drop_last() =~= sv.subrange(0, i as int));
            assert(sv.subrange(0, i + 1).last() == sv[i as int]);
            assert(sv[i as int] == items@[i as int]@);
            if i == 0 {
                assert(out@ =~= seq!['['] + ids_body(sv.subrange(0, 1)));
            } else {
                assert(out@ =~= seq!['['] + ids_body(sv.subrange(0, i + 1)));
            }
        }
        i += 1;
    }
    out.push(']');
    proof {
        assert(sv.subrange(0, sv.len() as int) =~= sv);
        assert(out@ =~= ids_render(sv));
    }
    out
}

fn push_tuple_entry(out: &mut String, it: &ItemDefinition)
    ensures
        final(out)@ == old(out)@ + tuple_entry(it@),
{
    out.push('[');
    push_dec_i32(out, it.id);
    out.push(',');
    match &it.name {
        Some(s) => {
            push_json_string(out, s.as_str());
        },
        None => {
            push_json_string(out, "unnamed");
            proof {
                reveal_strlit("unnamed");
                assert("unnamed"@ =~= name_or_unnamed(it@));
            }
        },
    }
    out.push(']');
    proof {
        assert(out@ =~= old(out)@ + tuple_entry(it@));
    }
}

fn render_json_tuples(items: &Vec<ItemDefinition>) -> (r: String)
    ensures
        r@ == tuples_render(views_of(items@)),
{
    let ghost sv = views_of(items@);
    let mut out = String::new();
    out.push('[');
    let mut i: usize = 0;
    while i < items.len()
        invariant
            i <= items.len(),
            sv == views_of(items@),
            sv.len() == items@.len(),
            out@ == seq!['['] + tuples_body(sv.subrange(0, i as int)),
        decreases items.len() - i,
    {
        if i > 0 {
            out.push(',');
        }
        push_tuple_entry(&mut out, &items[i]);
        proof {
            assert(sv.subrange(0, i + 1).drop_last() =~= sv.subrange(0, i as int));
            assert(sv.subrange(0, i + 1).last() == sv[i as int]);
            assert(sv[i as int] == items@[i as int]@);
            if i == 0 {
                assert(out@ =~= seq!['['] + tuples_body(sv.subrange(0, 1)));
            } else {
                assert(out@ =~= seq!['['] + tuples_body(sv.subrange(0, i + 1)));
            }
        }
        i += 1;
    }
    out.push(']');
    proof {
        assert(sv.subrange(0, sv.len() as int) =~= sv);
        assert(out@ =~= tuples_render(sv));
    }
    out
}

/// Render the given record sequence, in its given order, in the requested
/// format. A pure projection: no re-filtering, no re-sorting.
pub fn format_items(items: &Vec<ItemDefinition>, format: &PrintFormat) -> (r: String)
    ensures
        r@ == render(*format, views_of(items@)),
{
    match format {
        PrintFormat::Basic => render_basic(items),
        PrintFormat::JsonId => render_json_ids(items),
        PrintFormat::JsonIdNameTuple => render_json_tuples(items),
    }
}

} // verus!

