//! Textual rendering of the final snapshot rows.
//!
//! Balances are scaled by 10^4, and the output contract asks for a
//! fixed four-decimal-digit textual form: the amount 12_3456 prints
//! as "12.3456", -5000 as "-0.5000". Clients print as plain decimal
//! numbers and the locked flag as "true"/"false".

use vstd::prelude::*;
use crate::account::Account;
use vstd::string::StringExecFns;

verus! {

/// The decimal digit character for `d` (meaningful for 0 <= d <= 9).
pub open spec fn digit_char(d: int) -> char {
    if d == 0 {
        '0'
    } else if d == 1 {
        '1'
    } else if d == 2 {
        '2'
    } else if d == 3 {
        '3'
    } else if d == 4 {
        '4'
    } else if d == 5 {
        '5'
    } else if d == 6 {
        '6'
    } else if d == 7 {
        '7'
    } else if d == 8 {
        '8'
    } else {
        '9'
    }
}

/// The decimal digits of `n`, most significant first, no leading
/// zeros (a single "0" for zero).
pub open spec fn dec_digits(n: nat) -> Seq<char>
    decreases n,
{
    if n < 10 {
        seq![digit_char(n as int)]
    } else {
        dec_digits(n / 10) + seq![digit_char((n % 10) as int)]
    }
}

/// The four fractional digits of an amount, zero-padded, for
/// 0 <= f < 10000.
pub open spec fn frac_digits(f: int) -> Seq<char> {
    seq![
        digit_char((f / 1000) % 10),
        digit_char((f / 100) % 10),
        digit_char((f / 10) % 10),
        digit_char(f % 10),
    ]
}

/// The fixed four-decimal textual form of a balance scaled by 10^4:
/// optional minus sign, integer part, '.', four fractional digits.
pub open spec fn spec_amount_str(v: int) -> Seq<char> {
    let m = if v < 0 {
        -v
    } else {
        v
    };
    let body = dec_digits((m / 10000) as nat) + seq!['.'] + frac_digits(m % 10000);
    if v < 0 {
        seq!['-'] + body
    } else {
        body
    }
}

/// The textual form of the locked flag.
pub open spec fn spec_locked_str(locked: bool) -> Seq<char> {
    if locked {
        "true"@
    } else {
        "false"@
    }
}

/// Appends the digit character for `d` to `out`.
fn push_digit(d: u8, out: &mut String)
    requires
        d < 10,
    ensures
        final(out)@ == old(out)@ + seq![digit_char(d as int)],
{
    proof {
        reveal_strlit("0");
        reveal_strlit("1");
        reveal_strlit("2");
        reveal_strlit("3");
        reveal_strlit("4");
        reveal_strlit("5");
        reveal_strlit("6");
        reveal_strlit("7");
        reveal_strlit("8");
        reveal_strlit("9");
    }
    match d {
        0 => out.append("0"),
        1 => out.append("1"),
        2 => out.append("2"),
        3 => out.append("3"),
        4 => out.append("4"),
        5 => out.append("5"),
        6 => out.append("6"),
        7 => out.append("7"),
        8 => out.append("8"),
        _ => out.append("9"),
    }
    proof {
        assert(out@ =~= old(out)@ + seq![digit_char(d as int)]);
    }
}

/// Appends the decimal digits of `n`, most significant first, to `out`.
fn push_digits(n: u128, out: &mut String)
    ensures
        final(out)@ == old(out)@ + dec_digits(n as nat),
    decreases n,
{
    if n >= 10 {
        push_digits(n / 10, out);
    }
    push_digit((n % 10) as u8, out);
    proof {
        assert(out@ =~= old(out)@ + dec_digits(n as nat));
    }
}

/// Renders a balance in the fixed four-decimal textual form.
pub fn format_amount(v: i128) -> (r: String)
    ensures
        r@ == spec_amount_str(v as int),
{
    let mut out = String::new();
    let m: u128 = if v < 0 {
        proof {
            reveal_strlit("-");
        }
        out.append("-");
        ((-(v + 1)) as u128) + 1
    } else {
        v as u128
    };
    push_digits(m / 10000, &mut out);
    proof {
        reveal_strlit(".");
    }
    out.append(".");
    let f: u128 = m % 10000;
    push_digit(((f / 1000) % 10) as u8, &mut out);
    push_digit(((f / 100) % 10) as u8, &mut out);
    push_digit(((f / 10) % 10) as u8, &mut out);
    push_digit((f % 10) as u8, &mut out);
    proof {
        assert(out@ =~= spec_amount_str(v as int));
    }
    out
}

/// Renders a client identifier as a plain decimal number.
pub fn format_client(client: u16) -> (r: String)
    ensures
        r@ == dec_digits(client as nat),
{
    let mut out = String::new();
    push_digits(client as u128, &mut out);
    proof {
        assert(out@ =~= dec_digits(client as nat));
    }
    out
}

/// Renders the locked flag as "true" or "false".
pub fn format_locked(locked: bool) -> (r: String)
    ensures
        r@ == spec_locked_str(locked),
{
    if locked {
        String::from_str("true")
    } else {
        String::from_str("false")
    }
}

/// The five fields of one snapshot row, in output order: client,
/// available, held, total, locked.
pub fn render_account(client: u16, a: &Account) -> (r: Vec<String>)
    ensures
        r@.len() == 5,
        r@[0]@ == dec_digits(client as nat),
        r@[1]@ == spec_amount_str(a@.available),
        r@[2]@ == spec_amount_str(a@.held),
        r@[3]@ == spec_amount_str(a@.total),
        r@[4]@ == spec_locked_str(a.locked),
{
    let mut row: Vec<String> = Vec::new();
    row.push(format_client(client));
    row.push(format_amount(a.available));
    row.push(format_amount(a.held));
    row.push(format_amount(a.total));
    row.push(format_locked(a.locked));
    row
}

} // verus!
