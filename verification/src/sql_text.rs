//! Rendering of the textual pieces of a parameterised statement.

use vstd::prelude::*;
use vstd::string::*;

verus! {

/// The character that stands for the decimal digit `d`.
pub open spec fn digit_char(d: nat) -> char
    recommends
        d < 10,
{
    if d == 0 {
        '0'
    } else if d == 1 {
        '1'
    } else if d == 2 {
        '2'
    } else if d == 3 {
        '3'
    } else if d == 4 {
        '4'
    } else if d == 5 {
        '5'
    } else if d == 6 {
        '6'
    } else if d == 7 {
        '7'
    } else if d == 8 {
        '8'
    } else {
        '9'
    }
}

/// The decimal numeral of `n`, without sign or leading zeros.
pub open spec fn decimal_text(n: nat) -> Seq<char>
    decreases n,
{
    if n < 10 {
        seq![digit_char(n)]
    } else {
        decimal_text(n / 10).push(digit_char(n % 10))
    }
}

/// The placeholder of the parameter at position `n`.
pub open spec fn placeholder_text(n: nat) -> Seq<char> {
    seq!['$'] + decimal_text(n)
}

/// The fragment that equates the field `name` with the parameter at position
/// `n`.
pub open spec fn fragment_text(name: Seq<char>, n: nat) -> Seq<char> {
    name + seq![' ', '=', ' '] + placeholder_text(n)
}

/// One fragment for each of `names`, in order, the parameters numbered from 1.
pub open spec fn fragments(names: Seq<Seq<char>>) -> Seq<Seq<char>> {
    Seq::new(names.len(), |i: int| fragment_text(names[i], (i + 1) as nat))
}

/// The texts `parts`, in order, with `sep` between each two neighbours.
pub open spec fn joined(parts: Seq<Seq<char>>, sep: Seq<char>) -> Seq<char>
    decreases parts.len(),
{
    if parts.len() == 0 {
        Seq::empty()
    } else if parts.len() == 1 {
        parts[0]
    } else {
        joined(parts.drop_last(), sep) + sep + parts.last()
    }
}

/// What each of `names` holds.
pub open spec fn texts(names: Seq<String>) -> Seq<Seq<char>> {
    Seq::new(names.len(), |i: int| names[i]@)
}

fn digit_str(d: u128) -> (s: &'static str)
    requires
        d < 10,
    ensures
        s@ == seq![digit_char(d as nat)],
{
    proof {
        reveal_strlit("0");
        reveal_strlit("1");
        reveal_strlit("2");
        reveal_strlit("3");
        reveal_strlit("4");
        reveal_strlit("5");
        reveal_strlit("6");
        reveal_strlit("7");
        reveal_strlit("8");
        reveal_strlit("9");
    }
    let s = if d == 0 {
        "0"
    } else if d == 1 {
        "1"
    } else if d == 2 {
        "2"
    } else if d == 3 {
        "3"
    } else if d == 4 {
        "4"
    } else if d == 5 {
        "5"
    } else if d == 6 {
        "6"
    } else if d == 7 {
        "7"
    } else if d == 8 {
        "8"
    } else {
        "9"
    };
    assert(s@ =~= seq![digit_char(d as nat)]);
    s
}

/// Renders `n` as a decimal numeral.
pub fn render_decimal(n: u128) -> (text: String)
    ensures
        text@ == decimal_text(n as nat),
    decreases n,
{
    if n < 10 {
        String::from_str(digit_str(n))
    } else {
        let mut text = render_decimal(n / 10);
        text.append(digit_str(n % 10));
        assert(text@ =~= decimal_text(n as nat));
        text
    }
}

/// Renders the placeholder of the parameter at position `n`.
pub fn render_placeholder(n: u128) -> (text: String)
    ensures
        text@ == placeholder_text(n as nat),
{
    proof {
        reveal_strlit("$");
    }
    let mut text = String::from_str("$");
    let numeral = render_decimal(n);
    text.append(numeral.as_str());
    assert(text@ =~= placeholder_text(n as nat));
    text
}

/// Renders the fragment that equates the field `name` with the parameter at
/// position `n`.
pub fn render_fragment(name: &String, n: u128) -> (text: String)
    ensures
        text@ == fragment_text(name@, n as nat),
{
    proof {
        reveal_strlit(" = ");
    }
    let mut text = name.clone();
    text.append(" = ");
    let placeholder = render_placeholder(n);
    text.append(placeholder.as_str());
    assert(text@ =~= fragment_text(name@, n as nat));
    text
}

/// Renders one fragment for each of `names`, in order, the parameters
/// numbered from 1, with `sep` between each two neighbours.
pub fn render_clause(names: &Vec<String>, sep: &str) -> (text: String)
    ensures
        text@ == joined(fragments(texts(names@)), sep@),
{
    let ghost parts = fragments(texts(names@));
    let mut text = String::new();
    let mut i: usize = 0;
    assert(parts.take(0) =~= Seq::<Seq<char>>::empty());
    while i < names.len()
        invariant
            0 <= i <= names.len(),
            parts == fragments(texts(names@)),
            parts.len() == names.len(),
            text@ == joined(parts.take(i as int), sep@),
        decreases names.len() - i,
    {
        let fragment = render_fragment(&names[i], i as u128 + 1);
        assert(fragment@ == parts[i as int]);
        if i > 0 {
            text.append(sep);
        }
        text.append(fragment.as_str());
        proof {
            let next = parts.take(i + 1);
            assert(next.drop_last() =~= parts.take(i as int));
            assert(next.last() == parts[i as int]);
            if i == 0 {
                assert(text@ =~= next[0]);
            }
        }
        i = i + 1;
    }
    assert(parts.take(names.len() as int) =~= parts);
    text
}

} // verus!
