//! Rendering of record fields as text: decimal numbers, zero-padded
//! timestamp fields, positions, and the fixed names of categories and
//! actions.

use vstd::prelude::*;
use vstd::string::*;
use crate::event::{Action, Category, Position, Timestamp};

verus! {

/// The decimal digit character for `d`.
pub open spec fn spec_digit(d: int) -> char
    recommends
        0 <= d <= 9,
{
    if d == 0 {
        '0'
    } else if d == 1 {
        '1'
    } else if d == 2 {
        '2'
    } else if d == 3 {
        '3'
    } else if d == 4 {
        '4'
    } else if d == 5 {
        '5'
    } else if d == 6 {
        '6'
    } else if d == 7 {
        '7'
    } else if d == 8 {
        '8'
    } else {
        '9'
    }
}

/// The decimal digit string of a nonnegative `n`, most significant
/// digit first, with no leading zeros (a single `'0'` for zero).
pub open spec fn spec_udec(n: int) -> Seq<char>
    recommends
        n >= 0,
    decreases n,
{
    if n < 10 {
        seq![spec_digit(n)]
    } else {
        spec_udec(n / 10).push(spec_digit(n % 10))
    }
}

/// The decimal string of `n`, with a leading `'-'` when negative.
pub open spec fn spec_idec(n: int) -> Seq<char> {
    if n < 0 {
        seq!['-'] + spec_udec(-n)
    } else {
        spec_udec(n)
    }
}

/// `n` as exactly two decimal digits.
pub open spec fn spec_pad2(n: int) -> Seq<char>
    recommends
        0 <= n < 100,
{
    seq![spec_digit(n / 10), spec_digit(n % 10)]
}

/// `n` as exactly four decimal digits.
pub open spec fn spec_pad4(n: int) -> Seq<char>
    recommends
        0 <= n < 10000,
{
    seq![
        spec_digit(n / 1000),
        spec_digit(n / 100 % 10),
        spec_digit(n / 10 % 10),
        spec_digit(n % 10),
    ]
}

/// A well-formed timestamp rendered as `YYYY-MM-DD HH:MM:SS`.
pub open spec fn spec_render_timestamp(t: Timestamp) -> Seq<char>
    recommends
        t.wf(),
{
    spec_pad4(t.year as int) + seq!['-'] + spec_pad2(t.month as int) + seq!['-'] + spec_pad2(
        t.day as int,
    ) + seq![' '] + spec_pad2(t.hour as int) + seq![':'] + spec_pad2(t.minute as int) + seq![':']
        + spec_pad2(t.second as int)
}

/// A position rendered as `N/A` or `(x, y)`.
pub open spec fn spec_render_position(p: Position) -> Seq<char> {
    match p {
        Position::NotApplicable => "N/A"@,
        Position::At { x, y } => "("@ + spec_idec(x as int) + ", "@ + spec_idec(y as int) + ")"@,
    }
}

/// The fixed name of a category.
pub open spec fn spec_category_name(c: Category) -> Seq<char> {
    match c {
        Category::Keyboard => "Keyboard"@,
        Category::Mouse => "Mouse"@,
    }
}

/// The fixed name of an action.
pub open spec fn spec_action_name(a: Action) -> Seq<char> {
    match a {
        Action::Pressed => "Pressed"@,
        Action::Released => "Released"@,
        Action::Moved => "Moved"@,
    }
}

/// The one-character string holding the digit character for `d`.
fn digit_str(d: u8) -> (r: &'static str)
    requires
        d <= 9,
    ensures
        r@ == seq![spec_digit(d as int)],
{
    proof {
        reveal_strlit("0");
        reveal_strlit("1");
        reveal_strlit("2");
        reveal_strlit("3");
        reveal_strlit("4");
        reveal_strlit("5");
        reveal_strlit("6");
        reveal_strlit("7");
        reveal_strlit("8");
        reveal_strlit("9");
    }
    let r = match d {
        0 => "0",
        1 => "1",
        2 => "2",
        3 => "3",
        4 => "4",
        5 => "5",
        6 => "6",
        7 => "7",
        8 => "8",
        _ => "9",
    };
    proof {
        assert(r@ =~= seq![spec_digit(d as int)]);
    }
    r
}

/// Appends the decimal digits of `n` to `s`.
fn append_udec(s: &mut String, n: u64)
    ensures
        final(s)@ == old(s)@ + spec_udec(n as int),
    decreases n,
{
    if n < 10 {
        s.append(digit_str(n as u8));
    } else {
        append_udec(s, n / 10);
        s.append(digit_str((n % 10) as u8));
        proof {
            assert(final(s)@ =~= old(s)@ + spec_udec(n as int));
        }
    }
}

/// Appends the signed decimal rendering of `n` to `s`.
fn append_idec(s: &mut String, n: i64)
    ensures
        final(s)@ == old(s)@ + spec_idec(n as int),
{
    if n >= 0 {
        append_udec(s, n as u64);
    } else {
        s.append("-");
        let magnitude: u64 = if n == i64::MIN {
            9223372036854775808u64
        } else {
            (-n) as u64
        };
        append_udec(s, magnitude);
        proof {
            reveal_strlit("-");
            assert(final(s)@ =~= old(s)@ + spec_idec(n as int));
        }
    }
}

/// Appends `n` as exactly two decimal digits to `s`.
fn append_pad2(s: &mut String, n: u8)
    requires
        n < 100,
    ensures
        final(s)@ == old(s)@ + spec_pad2(n as int),
{
    s.append(digit_str(n / 10));
    s.append(digit_str(n % 10));
    proof {
        assert(final(s)@ =~= old(s)@ + spec_pad2(n as int));
    }
}

/// Appends `n` as exactly four decimal digits to `s`.
fn append_pad4(s: &mut String, n: u16)
    requires
        n < 10000,
    ensures
        final(s)@ == old(s)@ + spec_pad4(n as int),
{
    s.append(digit_str((n / 1000) as u8));
    s.append(digit_str((n / 100 % 10) as u8));
    s.append(digit_str((n / 10 % 10) as u8));
    s.append(digit_str((n % 10) as u8));
    proof {
        assert(final(s)@ =~= old(s)@ + spec_pad4(n as int));
    }
}

/// Appends a well-formed timestamp as `YYYY-MM-DD HH:MM:SS` to `s`.
pub fn append_timestamp(s: &mut String, t: Timestamp)
    requires
        t.wf(),
    ensures
        final(s)@ == old(s)@ + spec_render_timestamp(t),
{
    append_pad4(s, t.year);
    s.append("-");
    append_pad2(s, t.month);
    s.append("-");
    append_pad2(s, t.day);
    s.append(" ");
    append_pad2(s, t.hour);
    s.append(":");
    append_pad2(s, t.minute);
    s.append(":");
    append_pad2(s, t.second);
    proof {
        reveal_strlit("-");
        reveal_strlit(" ");
        reveal_strlit(":");
        assert(final(s)@ =~= old(s)@ + spec_render_timestamp(t));
    }
}

/// Appends the rendering of a position to `s`.
pub fn append_position(s: &mut String, p: Position)
    ensures
        final(s)@ == old(s)@ + spec_render_position(p),
{
    match p {
        Position::NotApplicable => {
            s.append("N/A");
        },
        Position::At { x, y } => {
            s.append("(");
            append_idec(s, x);
            s.append(", ");
            append_idec(s, y);
            s.append(")");
            proof {
                assert(final(s)@ =~= old(s)@ + spec_render_position(p));
            }
        },
    }
}

/// The fixed name of a category, as text.
pub fn category_name(c: Category) -> (r: &'static str)
    ensures
        r@ == spec_category_name(c),
{
    match c {
        Category::Keyboard => "Keyboard",
        Category::Mouse => "Mouse",
    }
}

/// The fixed name of an action, as text.
pub fn action_name(a: Action) -> (r: &'static str)
    ensures
        r@ == spec_action_name(a),
{
    match a {
        Action::Pressed => "Pressed",
        Action::Released => "Released",
        Action::Moved => "Moved",
    }
}

} // verus!
