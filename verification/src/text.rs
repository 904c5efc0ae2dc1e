//! Decimal rendering of integers and the derived name of an audit event.

use vstd::prelude::*;
use vstd::string::*;

verus! {

/// The character that stands for one decimal digit.
pub open spec fn digit_char(d: int) -> char {
    if d == 0 {
        '0'
    } else if d == 1 {
        '1'
    } else if d == 2 {
        '2'
    } else if d == 3 {
        '3'
    } else if d == 4 {
        '4'
    } else if d == 5 {
        '5'
    } else if d == 6 {
        '6'
    } else if d == 7 {
        '7'
    } else if d == 8 {
        '8'
    } else {
        '9'
    }
}

/// The digits of a natural number, most significant first, without leading zeros.
pub open spec fn natural_digits(n: nat) -> Seq<char>
    decreases n,
{
    if n < 10 {
        seq![digit_char(n as int)]
    } else {
        natural_digits(n / 10).push(digit_char((n % 10) as int))
    }
}

/// The decimal text of an integer: a minus sign for a negative one, then its digits.
pub open spec fn decimal(n: int) -> Seq<char> {
    if n < 0 {
        seq!['-'] + natural_digits((-n) as nat)
    } else {
        natural_digits(n as nat)
    }
}

/// The name of the event that records an outcome for `name` at the second `secs`.
pub open spec fn event_name_text(name: Seq<char>, secs: int) -> Seq<char> {
    name + seq!['-'] + decimal(secs)
}

fn digit_str(d: u64) -> (r: &'static str)
    requires
        d < 10,
    ensures
        r@ == seq![digit_char(d as int)],
{
    if d == 0 {
        proof { reveal_strlit("0"); }
        assert("0"@ =~= seq!['0']);
        "0"
    } else if d == 1 {
        proof { reveal_strlit("1"); }
        assert("1"@ =~= seq!['1']);
        "1"
    } else if d == 2 {
        proof { reveal_strlit("2"); }
        assert("2"@ =~= seq!['2']);
        "2"
    } else if d == 3 {
        proof { reveal_strlit("3"); }
        assert("3"@ =~= seq!['3']);
        "3"
    } else if d == 4 {
        proof { reveal_strlit("4"); }
        assert("4"@ =~= seq!['4']);
        "4"
    } else if d == 5 {
        proof { reveal_strlit("5"); }
        assert("5"@ =~= seq!['5']);
        "5"
    } else if d == 6 {
        proof { reveal_strlit("6"); }
        assert("6"@ =~= seq!['6']);
        "6"
    } else if d == 7 {
        proof { reveal_strlit("7"); }
        assert("7"@ =~= seq!['7']);
        "7"
    } else if d == 8 {
        proof { reveal_strlit("8"); }
        assert("8"@ =~= seq!['8']);
        "8"
    } else {
        proof { reveal_strlit("9"); }
        assert("9"@ =~= seq!['9']);
        "9"
    }
}

fn push_natural(out: &mut String, n: u64)
    ensures
        final(out)@ == old(out)@ + natural_digits(n as nat),
    decreases n,
{
    if n >= 10 {
        push_natural(out, n / 10);
    }
    out.append(digit_str(n % 10));
    assert(final(out)@ =~= old(out)@ + natural_digits(n as nat));
}

/// Appends the decimal text of `n` to `out`.
pub fn push_decimal(out: &mut String, n: i64)
    ensures
        final(out)@ == old(out)@ + decimal(n as int),
{
    if n < 0 {
        proof { reveal_strlit("-"); }
        out.append("-");
        let magnitude: u64 = ((-(n + 1)) as u64) + 1;
        push_natural(out, magnitude);
        assert(final(out)@ =~= old(out)@ + decimal(n as int));
    } else {
        push_natural(out, n as u64);
    }
}

/// The decimal text of `n`.
pub fn decimal_text(n: i64) -> (r: String)
    ensures
        r@ == decimal(n as int),
{
    let mut out = String::new();
    push_decimal(&mut out, n);
    assert(out@ =~= decimal(n as int));
    out
}

/// The name under which an event for `name` is stored when it is recorded at the
/// second `secs`: the resource's name, a hyphen, and the second in decimal.
pub fn event_name(name: &str, secs: i64) -> (r: String)
    ensures
        r@ == event_name_text(name@, secs as int),
{
    let mut out = String::from_str(name);
    proof { reveal_strlit("-"); }
    out.append("-");
    push_decimal(&mut out, secs);
    assert(out@ =~= event_name_text(name@, secs as int));
    out
}

/// The digit that a character stands for; zero for any other character.
pub open spec fn digit_value(c: char) -> nat {
    if c == '1' {
        1
    } else if c == '2' {
        2
    } else if c == '3' {
        3
    } else if c == '4' {
        4
    } else if c == '5' {
        5
    } else if c == '6' {
        6
    } else if c == '7' {
        7
    } else if c == '8' {
        8
    } else if c == '9' {
        9
    } else {
        0
    }
}

/// The number that a text of digits spells.
pub open spec fn digits_value(s: Seq<char>) -> nat
    decreases s.len(),
{
    if s.len() == 0 {
        0
    } else {
        digits_value(s.drop_last()) * 10 + digit_value(s.last())
    }
}

/// The digits of a number spell that number, are never empty, and hold no minus
/// sign.
pub proof fn lemma_digits_spell_the_number(n: nat)
    ensures
        digits_value(natural_digits(n)) == n,
        natural_digits(n).len() >= 1,
        natural_digits(n)[0] != '-',
    decreases n,
{
    if n < 10 {
        let s = natural_digits(n);
        assert(s.drop_last() =~= Seq::<char>::empty());
        assert(digits_value(s.drop_last()) == 0);
        assert(s.last() == digit_char(n as int));
    } else {
        lemma_digits_spell_the_number(n / 10);
        let head = natural_digits(n / 10);
        let s = head.push(digit_char((n % 10) as int));
        assert(s.drop_last() =~= head);
        assert(s.last() == digit_char((n % 10) as int));
        assert(s[0] == head[0]);
    }
}

/// Different integers have different decimal texts.
pub proof fn lemma_decimal_is_injective(a: int, b: int)
    requires
        decimal(a) == decimal(b),
    ensures
        a == b,
{
    let minus = seq!['-'];
    if a < 0 {
        lemma_digits_spell_the_number((-a) as nat);
        let x = natural_digits((-a) as nat);
        assert(decimal(a)[0] == '-');
        assert((minus + x).subrange(1, (minus + x).len() as int) =~= x);
        if b < 0 {
            lemma_digits_spell_the_number((-b) as nat);
            let y = natural_digits((-b) as nat);
            assert((minus + y).subrange(1, (minus + y).len() as int) =~= y);
        } else {
            lemma_digits_spell_the_number(b as nat);
        }
    } else {
        lemma_digits_spell_the_number(a as nat);
        if b < 0 {
            lemma_digits_spell_the_number((-b) as nat);
            assert(decimal(b)[0] == '-');
        } else {
            lemma_digits_spell_the_number(b as nat);
        }
    }
}

/// Two events for one resource have the same name exactly when they are recorded
/// within the same second.
pub proof fn law_event_names_collide_within_a_second_only(name: Seq<char>, a: int, b: int)
    ensures
        event_name_text(name, a) == event_name_text(name, b) <==> a == b,
{
    if event_name_text(name, a) == event_name_text(name, b) {
        let prefix = name + seq!['-'];
        let left = prefix + decimal(a);
        let right = prefix + decimal(b);
        assert(left.subrange(prefix.len() as int, left.len() as int) =~= decimal(a));
        assert(right.subrange(prefix.len() as int, right.len() as int) =~= decimal(b));
        lemma_decimal_is_injective(a, b);
    }
}

} // verus!
