use vstd::prelude::*;
use vstd::string::*;

verus! {

/// The digit characters, in order of value.
pub open spec fn digit_chars() -> Seq<char> {
    "0123456789ABCDEF"@
}

/// The character of digit `d`, as one-character text.
pub open spec fn digit_text(d: int) -> Seq<char> {
    digit_chars().subrange(d, d + 1)
}

/// `n` written in decimal, without leading zeros.
pub open spec fn decimal_text(n: nat) -> Seq<char>
    decreases n,
{
    if n < 10 {
        digit_text(n as int)
    } else {
        decimal_text(n / 10) + digit_text((n % 10) as int)
    }
}

/// `n` written as four upper-case hexadecimal digits.
pub open spec fn hex4_text(n: u16) -> Seq<char> {
    digit_text(n as int / 0x1000) + digit_text((n as int / 0x100) % 16) + digit_text(
        (n as int / 0x10) % 16,
    ) + digit_text(n as int % 16)
}

/// Appends the character of digit `d` to `s`.
fn push_digit(s: &mut String, d: u16)
    requires
        d < 16,
    ensures
        final(s)@ == old(s)@ + digit_text(d as int),
{
    let digits = "0123456789ABCDEF";
    proof {
        reveal_strlit("0123456789ABCDEF");
    }
    let i = d as usize;
    s.append(digits.substring_ascii(i, i + 1));
}

/// `n` in decimal.
pub fn decimal_u8(n: u8) -> (r: String)
    ensures
        r@ == decimal_text(n as nat),
{
    let mut s = String::new();
    let ghost d0 = digit_text((n % 10) as int);
    if n >= 100 {
        push_digit(&mut s, (n / 100) as u16);
        push_digit(&mut s, ((n / 10) % 10) as u16);
        push_digit(&mut s, (n % 10) as u16);
        assert(decimal_text((n / 100) as nat) == digit_text((n / 100) as int));
        assert(decimal_text((n / 10) as nat) == decimal_text((n / 100) as nat) + digit_text(
            ((n / 10) % 10) as int,
        ));
        assert(decimal_text(n as nat) == decimal_text((n / 10) as nat) + d0);
        assert(s@ =~= decimal_text(n as nat));
    } else if n >= 10 {
        push_digit(&mut s, (n / 10) as u16);
        push_digit(&mut s, (n % 10) as u16);
        assert(decimal_text((n / 10) as nat) == digit_text((n / 10) as int));
        assert(decimal_text(n as nat) == decimal_text((n / 10) as nat) + d0);
        assert(s@ =~= decimal_text(n as nat));
    } else {
        push_digit(&mut s, n as u16);
        assert(s@ =~= decimal_text(n as nat));
    }
    s
}

/// `n` as four upper-case hexadecimal digits.
pub fn hex4(n: u16) -> (r: String)
    ensures
        r@ == hex4_text(n),
{
    let mut s = String::new();
    push_digit(&mut s, n / 0x1000);
    push_digit(&mut s, (n / 0x100) % 16);
    push_digit(&mut s, (n / 0x10) % 16);
    push_digit(&mut s, n % 16);
    s
}

} // verus!
