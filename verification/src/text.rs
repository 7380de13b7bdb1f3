//! Text that the service writes itself: decimal numbers for messages, and
//! the count of placeholders in a statement.

use vstd::prelude::*;
use vstd::string::StringExecFns;

verus! {

/// The character of one decimal digit.
pub open spec fn digit(d: nat) -> char
    recommends
        d < 10,
{
    if d == 0 {
        '0'
    } else if d == 1 {
        '1'
    } else if d == 2 {
        '2'
    } else if d == 3 {
        '3'
    } else if d == 4 {
        '4'
    } else if d == 5 {
        '5'
    } else if d == 6 {
        '6'
    } else if d == 7 {
        '7'
    } else if d == 8 {
        '8'
    } else {
        '9'
    }
}

/// A number in decimal, without sign or leading zeros.
pub open spec fn decimal(n: nat) -> Seq<char>
    decreases n,
{
    if n < 10 {
        seq![digit(n)]
    } else {
        decimal(n / 10).push(digit(n % 10))
    }
}

fn digit_str(d: u64) -> (s: &'static str)
    requires
        d < 10,
    ensures
        s@ == seq![digit(d as nat)],
{
    proof {
        reveal_strlit("0");
        reveal_strlit("1");
        reveal_strlit("2");
        reveal_strlit("3");
        reveal_strlit("4");
        reveal_strlit("5");
        reveal_strlit("6");
        reveal_strlit("7");
        reveal_strlit("8");
        reveal_strlit("9");
    }
    let s = if d == 0 {
        "0"
    } else if d == 1 {
        "1"
    } else if d == 2 {
        "2"
    } else if d == 3 {
        "3"
    } else if d == 4 {
        "4"
    } else if d == 5 {
        "5"
    } else if d == 6 {
        "6"
    } else if d == 7 {
        "7"
    } else if d == 8 {
        "8"
    } else {
        "9"
    };
    assert(s@ =~= seq![digit(d as nat)]);
    s
}

/// Appends `n` in decimal to `out`.
pub fn append_decimal(out: &mut String, n: u64)
    ensures
        final(out)@ == old(out)@ + decimal(n as nat),
    decreases n,
{
    if n >= 10 {
        append_decimal(out, n / 10);
    }
    out.append(digit_str(n % 10));
    assert(out@ =~= old(out)@ + decimal(n as nat));
}

/// The number of question marks in a text: the placeholders of a MySQL
/// statement that quotes none.
pub open spec fn placeholders(sql: Seq<char>) -> nat
    decreases sql.len(),
{
    if sql.len() == 0 {
        0
    } else {
        placeholders(sql.drop_last()) + if sql.last() == '?' {
            1nat
        } else {
            0nat
        }
    }
}

/// The placeholders of two texts written one after the other are those of
/// the first and those of the second.
pub proof fn lemma_placeholders_concat(a: Seq<char>, b: Seq<char>)
    ensures
        placeholders(a + b) == placeholders(a) + placeholders(b),
    decreases b.len(),
{
    if b.len() == 0 {
        assert(a + b =~= a);
    } else {
        lemma_placeholders_concat(a, b.drop_last());
        assert((a + b).drop_last() =~= a + b.drop_last());
    }
}

/// A text in which no character is a question mark holds no placeholder.
pub proof fn lemma_plain_text(sql: Seq<char>)
    requires
        forall|i: int| 0 <= i < sql.len() ==> sql[i] != '?',
    ensures
        placeholders(sql) == 0,
    decreases sql.len(),
{
    if sql.len() > 0 {
        lemma_plain_text(sql.drop_last());
    }
}

} // verus!
