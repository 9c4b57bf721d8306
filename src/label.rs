//! Display names for keys and pointer buttons.
use vstd::prelude::*;

verus! {

/// Linux input code of the left pointer button.
pub const BTN_LEFT: u32 = 0x110;

/// Linux input code of the right pointer button.
pub const BTN_RIGHT: u32 = 0x111;

/// Linux input code of the middle pointer button.
pub const BTN_MIDDLE: u32 = 0x112;

/// The ASCII digit for `d`, which is below ten.
pub open spec fn digit_char(d: nat) -> char {
    if d == 0 { '0' }
    else if d == 1 { '1' }
    else if d == 2 { '2' }
    else if d == 3 { '3' }
    else if d == 4 { '4' }
    else if d == 5 { '5' }
    else if d == 6 { '6' }
    else if d == 7 { '7' }
    else if d == 8 { '8' }
    else { '9' }
}

/// `n` written in decimal, without leading zeros.
pub open spec fn decimal(n: nat) -> Seq<char>
    decreases n,
{
    if n < 10 {
        seq![digit_char(n)]
    } else {
        decimal(n / 10) + seq![digit_char(n % 10)]
    }
}

/// The value of an ASCII digit.
pub open spec fn digit_value(c: char) -> nat {
    if c == '0' { 0 }
    else if c == '1' { 1 }
    else if c == '2' { 2 }
    else if c == '3' { 3 }
    else if c == '4' { 4 }
    else if c == '5' { 5 }
    else if c == '6' { 6 }
    else if c == '7' { 7 }
    else if c == '8' { 8 }
    else { 9 }
}

/// The number that a string of decimal digits denotes.
pub open spec fn decimal_value(s: Seq<char>) -> nat
    decreases s.len(),
{
    if s.len() == 0 {
        0
    } else {
        decimal_value(s.drop_last()) * 10 + digit_value(s.last())
    }
}

/// The digits in a fallback name read back as exactly the code they were
/// written from, and they are all decimal digits.
pub proof fn lemma_decimal_reads_back(n: nat)
    ensures
        decimal_value(decimal(n)) == n,
        forall|i: int| 0 <= i < decimal(n).len() ==> '0' <= #[trigger] decimal(n)[i] <= '9',
    decreases n,
{
    if n >= 10 {
        lemma_decimal_reads_back(n / 10);
        let prefix = decimal(n / 10);
        assert((prefix + seq![digit_char(n % 10)]).drop_last() =~= prefix);
        assert(decimal(n).last() == digit_char(n % 10));
        assert(digit_value(digit_char(n % 10)) == n % 10);
        assert(decimal_value(decimal(n)) == decimal_value(prefix) * 10 + n % 10);
        assert(n == (n / 10) * 10 + n % 10);
    } else {
        assert(decimal(n).drop_last() =~= Seq::<char>::empty());
        assert(decimal(n).last() == digit_char(n));
        assert(digit_value(digit_char(n)) == n);
        assert(decimal_value(Seq::<char>::empty()) == 0);
    }
}

/// The fallback name of a code that has no name: `Unknown(<code>)`.
pub open spec fn unknown_label(code: nat) -> Seq<char> {
    seq!['U', 'n', 'k', 'n', 'o', 'w', 'n', '('] + decimal(code) + seq![')']
}

/// The name of a key: the resolver's name where it has one, else the fallback.
pub open spec fn key_label_spec(code: nat, resolved: Option<Seq<char>>) -> Seq<char> {
    match resolved {
        Some(name) => name,
        None => unknown_label(code),
    }
}

/// The name of a pointer button.
pub open spec fn button_label_spec(code: nat) -> Seq<char> {
    if code == BTN_LEFT {
        seq!['L', 'e', 'f', 't']
    } else if code == BTN_RIGHT {
        seq!['R', 'i', 'g', 'h', 't']
    } else if code == BTN_MIDDLE {
        seq!['M', 'i', 'd', 'd', 'l', 'e']
    } else {
        unknown_label(code)
    }
}

fn digit_str(d: u32) -> (r: &'static str)
    requires
        d < 10,
    ensures
        r@ == seq![digit_char(d as nat)],
{
    proof {
        reveal_strlit("0");
        reveal_strlit("1");
        reveal_strlit("2");
        reveal_strlit("3");
        reveal_strlit("4");
        reveal_strlit("5");
        reveal_strlit("6");
        reveal_strlit("7");
        reveal_strlit("8");
        reveal_strlit("9");
    }
    if d == 0 { "0" }
    else if d == 1 { "1" }
    else if d == 2 { "2" }
    else if d == 3 { "3" }
    else if d == 4 { "4" }
    else if d == 5 { "5" }
    else if d == 6 { "6" }
    else if d == 7 { "7" }
    else if d == 8 { "8" }
    else { "9" }
}

/// Appends `n` in decimal to `s`.
pub fn push_decimal(s: &mut String, n: u32)
    ensures
        final(s)@ == old(s)@ + decimal(n as nat),
    decreases n,
{
    if n >= 10 {
        push_decimal(s, n / 10);
    }
    let d = digit_str(n % 10);
    s.append(d);
    proof {
        assert(final(s)@ =~= old(s)@ + decimal(n as nat));
    }
}

/// `Unknown(<code>)`, the name given to a code that nothing names.
pub fn unknown_name(code: u32) -> (r: String)
    ensures
        r@ == unknown_label(code as nat),
{
    let mut s = String::from_str("Unknown(");
    push_decimal(&mut s, code);
    s.append(")");
    proof {
        reveal_strlit("Unknown(");
        reveal_strlit(")");
        assert(s@ =~= unknown_label(code as nat));
    }
    s
}

/// The name of a key, from the resolver's answer for its code.
pub fn key_name(code: u32, resolved: Option<String>) -> (r: String)
    ensures
        r@ == key_label_spec(code as nat, match resolved {
            Some(n) => Some(n@),
            None => None,
        }),
{
    match resolved {
        Some(name) => name,
        None => unknown_name(code),
    }
}

/// The name of a pointer button: `Left`, `Right`, `Middle`, or `Unknown(<code>)`.
pub fn button_name(code: u32) -> (r: String)
    ensures
        r@ == button_label_spec(code as nat),
{
    proof {
        reveal_strlit("Left");
        reveal_strlit("Right");
        reveal_strlit("Middle");
    }
    if code == BTN_LEFT {
        String::from_str("Left")
    } else if code == BTN_RIGHT {
        String::from_str("Right")
    } else if code == BTN_MIDDLE {
        String::from_str("Middle")
    } else {
        unknown_name(code)
    }
}

} // verus!
