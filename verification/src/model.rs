//! The mathematical model of JSON documents and of the flattening rules.
//!
//! `Jv` is the abstract content of one JSON value: structure, exact key and
//! string characters, and for numbers the facts the coercions read (the exact
//! 64-bit integer when there is one, the IEEE-754 bits of the double reading,
//! and the parser's own decimal rendering).

use vstd::prelude::*;

verus! {

/// Abstract content of one JSON value.
pub enum Jv {
    Null,
    Bool(bool),
    Num { has_int: bool, int_val: i64, dbl_bits: u64, text: Seq<char> },
    Str(Seq<char>),
    Arr(Seq<Jv>),
    Obj(Seq<(Seq<char>, Jv)>),
}

/// The decimal digit character for `d` (expected `d < 10`).
pub open spec fn digit_char(d: nat) -> char {
    if d == 0 {
        '0'
    } else if d == 1 {
        '1'
    } else if d == 2 {
        '2'
    } else if d == 3 {
        '3'
    } else if d == 4 {
        '4'
    } else if d == 5 {
        '5'
    } else if d == 6 {
        '6'
    } else if d == 7 {
        '7'
    } else if d == 8 {
        '8'
    } else {
        '9'
    }
}

/// Decimal rendering of `n`, most significant digit first, no leading zeros
/// (a single `'0'` for zero).
pub open spec fn dec_digits(n: nat) -> Seq<char>
    decreases n,
{
    if n < 10 {
        seq![digit_char(n)]
    } else {
        dec_digits(n / 10).push(digit_char(n % 10))
    }
}

/// The named children of one matched node: array elements take their 0-based
/// index rendered in decimal as name, object members take their key; scalars
/// have no children.
pub open spec fn children_of(j: Jv) -> Seq<(Seq<char>, Jv)> {
    match j {
        Jv::Arr(items) => Seq::new(items.len(), |i: int| (dec_digits(i as nat), items[i])),
        Jv::Obj(entries) => entries,
        _ => Seq::empty(),
    }
}

/// Integer coercion: the exact 64-bit integer value of an integral JSON
/// number, and the default `0` for every other value.
pub open spec fn coerce_bigint(j: Jv) -> i64 {
    match j {
        Jv::Num { has_int, int_val, .. } => if has_int {
            int_val
        } else {
            0
        },
        _ => 0,
    }
}

/// Double coercion, as IEEE-754 bits: the double reading of a JSON number,
/// and the default `0.0` (bit pattern zero) for every other value.
pub open spec fn coerce_double_bits(j: Jv) -> u64 {
    match j {
        Jv::Num { dbl_bits, .. } => dbl_bits,
        _ => 0,
    }
}

/// String coercion: the exact character content of a JSON string, and the
/// default empty string for every other value.
pub open spec fn coerce_string(j: Jv) -> Seq<char> {
    match j {
        Jv::Str(s) => s,
        _ => Seq::empty(),
    }
}

/// The lowercase hexadecimal digit character for `d` (expected `d < 16`).
pub open spec fn hex_char(d: nat) -> char {
    if d < 10 {
        digit_char(d)
    } else if d == 10 {
        'a'
    } else if d == 11 {
        'b'
    } else if d == 12 {
        'c'
    } else if d == 13 {
        'd'
    } else if d == 14 {
        'e'
    } else {
        'f'
    }
}

/// How one character appears inside a JSON string literal: quote, backslash
/// and the five short-escaped control characters get a two-character escape,
/// every other control character below space gets a `\u00XY` escape with
/// lowercase hex digits, and every other character stands as itself.
pub open spec fn escape_char(c: char) -> Seq<char> {
    if c == '"' {
        seq!['\\', '"']
    } else if c == '\\' {
        seq!['\\', '\\']
    } else if c == '\u{8}' {
        seq!['\\', 'b']
    } else if c == '\t' {
        seq!['\\', 't']
    } else if c == '\n' {
        seq!['\\', 'n']
    } else if c == '\u{c}' {
        seq!['\\', 'f']
    } else if c == '\r' {
        seq!['\\', 'r']
    } else if (c as u32) < 32 {
        seq!['\\', 'u', '0', '0', hex_char((c as u32) as nat / 16), hex_char((c as u32) as nat % 16)]
    } else {
        seq![c]
    }
}

/// The body of a JSON string literal: each character escaped in order.
pub open spec fn escape_str(s: Seq<char>) -> Seq<char>
    decreases s.len(),
{
    if s.len() == 0 {
        Seq::empty()
    } else {
        escape_str(s.drop_last()) + escape_char(s.last())
    }
}

/// The compact JSON rendering of a value: members and elements in original
/// order, strings escaped as `escape_char` says, numbers rendered with the
/// parser's own decimal text.
pub open spec fn render_of(j: Jv) -> Seq<char>
    decreases j, 0int,
{
    match j {
        Jv::Null => seq!['n', 'u', 'l', 'l'],
        Jv::Bool(b) => if b {
            seq!['t', 'r', 'u', 'e']
        } else {
            seq!['f', 'a', 'l', 's', 'e']
        },
        Jv::Num { text, .. } => text,
        Jv::Str(s) => seq!['"'] + escape_str(s) + seq!['"'],
        Jv::Arr(items) => seq!['['] + render_items_upto(items, items.len() as int) + seq![']'],
        Jv::Obj(entries) => seq!['{'] + render_entries_upto(entries, entries.len() as int)
            + seq!['}'],
    }
}

/// The first `k` elements rendered and joined with commas.
pub open spec fn render_items_upto(items: Seq<Jv>, k: int) -> Seq<char>
    decreases items, k,
    when k <= items.len()
{
    if k <= 0 {
        Seq::empty()
    } else if k == 1 {
        render_of(items[0])
    } else {
        render_items_upto(items, k - 1) + seq![','] + render_of(items[k - 1])
    }
}

/// One object member rendered: quoted escaped key, colon, value.
pub open spec fn render_entry(e: (Seq<char>, Jv)) -> Seq<char>
    decreases e, 1int,
{
    seq!['"'] + escape_str(e.0) + seq!['"'] + seq![':'] + render_of(e.1)
}

/// The first `k` object members rendered and joined with commas.
pub open spec fn render_entries_upto(entries: Seq<(Seq<char>, Jv)>, k: int) -> Seq<char>
    decreases entries, k,
    when k <= entries.len()
{
    if k <= 0 {
        Seq::empty()
    } else if k == 1 {
        render_entry(entries[0])
    } else {
        render_entries_upto(entries, k - 1) + seq![','] + render_entry(entries[k - 1])
    }
}

} // verus!
