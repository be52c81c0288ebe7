//! Rendering of values and rows as text, for messages.

use vstd::prelude::*;
use crate::value::{RowView, Value, ValueView};

verus! {

/// The sixteen digits, by value.
pub open spec fn digit_char(d: int) -> char {
    if d == 0 {
        '0'
    } else if d == 1 {
        '1'
    } else if d == 2 {
        '2'
    } else if d == 3 {
        '3'
    } else if d == 4 {
        '4'
    } else if d == 5 {
        '5'
    } else if d == 6 {
        '6'
    } else if d == 7 {
        '7'
    } else if d == 8 {
        '8'
    } else if d == 9 {
        '9'
    } else if d == 10 {
        'A'
    } else if d == 11 {
        'B'
    } else if d == 12 {
        'C'
    } else if d == 13 {
        'D'
    } else if d == 14 {
        'E'
    } else {
        'F'
    }
}

/// A natural number in decimal, without leading zeros.
pub open spec fn decimal_text(n: nat) -> Seq<char>
    decreases n,
{
    if n < 10 {
        seq![digit_char(n as int)]
    } else {
        decimal_text(n / 10).push(digit_char((n % 10) as int))
    }
}

/// An integer in decimal, with a minus sign when negative.
pub open spec fn integer_text(i: int) -> Seq<char> {
    if i < 0 {
        seq!['-'] + decimal_text((-i) as nat)
    } else {
        decimal_text(i as nat)
    }
}

/// Bytes in hexadecimal, two upper-case digits each.
pub open spec fn hex_text(bytes: Seq<u8>) -> Seq<char>
    decreases bytes.len(),
{
    if bytes.len() == 0 {
        Seq::empty()
    } else {
        hex_text(bytes.drop_last()).push(digit_char(bytes.last() as int / 16)).push(
            digit_char(bytes.last() as int % 16),
        )
    }
}

/// A value as it is written in a statement: `NULL`, a decimal integer, a
/// text between single quotes, or a blob literal `X'..'`.
pub open spec fn value_text(v: ValueView) -> Seq<char> {
    match v {
        ValueView::Null => "NULL"@,
        ValueView::Integer(i) => integer_text(i as int),
        ValueView::Text(t) => seq!['\''] + t + seq!['\''],
        ValueView::Blob(b) => seq!['X', '\''] + hex_text(b) + seq!['\''],
    }
}

/// The values of a row, separated by a comma and a space.
pub open spec fn row_text(row: RowView) -> Seq<char>
    decreases row.len(),
{
    if row.len() == 0 {
        Seq::empty()
    } else if row.len() == 1 {
        value_text(row[0])
    } else {
        row_text(row.drop_last()) + seq![',', ' '] + value_text(row.last())
    }
}

/// The one-character text of a digit.
pub(crate) fn digit_str(d: u8) -> (res: &'static str)
    requires
        d < 16,
    ensures
        res@ == seq![digit_char(d as int)],
{
    proof {
        reveal_strlit("0");
        reveal_strlit("1");
        reveal_strlit("2");
        reveal_strlit("3");
        reveal_strlit("4");
        reveal_strlit("5");
        reveal_strlit("6");
        reveal_strlit("7");
        reveal_strlit("8");
        reveal_strlit("9");
        reveal_strlit("A");
        reveal_strlit("B");
        reveal_strlit("C");
        reveal_strlit("D");
        reveal_strlit("E");
        reveal_strlit("F");
    }
    let res = match d {
        0 => "0",
        1 => "1",
        2 => "2",
        3 => "3",
        4 => "4",
        5 => "5",
        6 => "6",
        7 => "7",
        8 => "8",
        9 => "9",
        10 => "A",
        11 => "B",
        12 => "C",
        13 => "D",
        14 => "E",
        _ => "F",
    };
    assert(res@ =~= seq![digit_char(d as int)]);
    res
}

/// Appends a natural number in decimal.
fn push_decimal(text: &mut String, n: u64)
    ensures
        final(text)@ == old(text)@ + decimal_text(n as nat),
    decreases n,
{
    if n >= 10 {
        push_decimal(text, n / 10);
    }
    text.append(digit_str((n % 10) as u8));
    assert(text@ =~= old(text)@ + decimal_text(n as nat));
}

/// Appends an integer in decimal.
pub fn push_integer(text: &mut String, i: i64)
    ensures
        final(text)@ == old(text)@ + integer_text(i as int),
{
    if i < 0 {
        proof {
            reveal_strlit("-");
        }
        text.append("-");
        let magnitude: u64 = (-(i as i128)) as u64;
        push_decimal(text, magnitude);
        assert(text@ =~= old(text)@ + integer_text(i as int));
    } else {
        push_decimal(text, i as u64);
    }
}

/// Appends bytes in hexadecimal.
pub fn push_hex(text: &mut String, bytes: &Vec<u8>)
    ensures
        final(text)@ == old(text)@ + hex_text(bytes@),
{
    let mut i: usize = 0;
    assert(bytes@.take(0) =~= Seq::empty());
    assert(text@ =~= old(text)@ + hex_text(bytes@.take(0)));
    while i < bytes.len()
        invariant
            i <= bytes.len(),
            text@ == old(text)@ + hex_text(bytes@.take(i as int)),
        decreases bytes.len() - i,
    {
        let b = bytes[i];
        text.append(digit_str(b / 16));
        text.append(digit_str(b % 16));
        proof {
            let next = bytes@.take(i + 1);
            assert(next.drop_last() =~= bytes@.take(i as int));
            assert(next.last() == b);
            assert(text@ =~= old(text)@ + hex_text(next));
        }
        i += 1;
    }
    assert(bytes@.take(bytes.len() as int) =~= bytes@);
}

/// Appends a value as it is written in a statement.
pub fn push_value(text: &mut String, value: &Value)
    ensures
        final(text)@ == old(text)@ + value_text(value@),
{
    match value {
        Value::Null => {
            text.append("NULL");
        },
        Value::Integer(i) => {
            push_integer(text, *i);
        },
        Value::Text(t) => {
            proof {
                reveal_strlit("'");
            }
            text.append("'");
            text.append(t.as_str());
            text.append("'");
            assert(text@ =~= old(text)@ + value_text(value@));
        },
        Value::Blob(b) => {
            proof {
                reveal_strlit("X'");
                reveal_strlit("'");
            }
            text.append("X'");
            push_hex(text, b);
            text.append("'");
            assert(text@ =~= old(text)@ + value_text(value@));
        },
    }
}

/// Appends the values of a row, separated by a comma and a space.
pub fn push_row(text: &mut String, row: &Vec<Value>)
    ensures
        final(text)@ == old(text)@ + row_text(row.deep_view()),
{
    let mut i: usize = 0;
    assert(row.deep_view().take(0) =~= Seq::empty());
    assert(text@ =~= old(text)@ + row_text(row.deep_view().take(0)));
    while i < row.len()
        invariant
            i <= row.len(),
            text@ == old(text)@ + row_text(row.deep_view().take(i as int)),
        decreases row.len() - i,
    {
        if i > 0 {
            proof {
                reveal_strlit(", ");
            }
            text.append(", ");
        }
        push_value(text, &row[i]);
        proof {
            let next = row.deep_view().take(i + 1);
            assert(next.drop_last() =~= row.deep_view().take(i as int));
            assert(next.last() == row@[i as int]@);
            if i == 0 {
                assert(row.deep_view().take(0).len() == 0);
                assert(next[0] == row@[0]@);
            }
            assert(text@ =~= old(text)@ + row_text(next));
        }
        i += 1;
    }
    assert(row.deep_view().take(row.len() as int) =~= row.deep_view());
}

} // verus!
