//! Stock-keeping codes: a fixed prefix followed by a number in decimal.

use vstd::prelude::*;

verus! {

/// Smallest number a stock-keeping code may carry.
pub const SKU_LOW: u32 = 10000;

/// First number past the ones a stock-keeping code may carry.
pub const SKU_HIGH: u32 = 99999;

/// The character that writes the digit `d`.
pub open spec fn digit_char(d: nat) -> char {
    if d == 0 {
        '0'
    } else if d == 1 {
        '1'
    } else if d == 2 {
        '2'
    } else if d == 3 {
        '3'
    } else if d == 4 {
        '4'
    } else if d == 5 {
        '5'
    } else if d == 6 {
        '6'
    } else if d == 7 {
        '7'
    } else if d == 8 {
        '8'
    } else {
        '9'
    }
}

/// `n` written in base ten, most significant digit first, without leading zeros.
pub open spec fn decimal(n: nat) -> Seq<char>
    decreases n,
{
    if n < 10 {
        seq![digit_char(n)]
    } else {
        decimal(n / 10).push(digit_char(n % 10))
    }
}

/// The prefix every stock-keeping code starts with.
pub open spec fn sku_prefix() -> Seq<char> {
    seq!['S', 'K', 'U']
}

/// The stock-keeping code that carries the number `n`.
pub open spec fn sku_text(n: nat) -> Seq<char> {
    sku_prefix() + decimal(n)
}

/// Whether `text` is a stock-keeping code of the catalog: the prefix and a number
/// from `SKU_LOW` up to, but not including, `SKU_HIGH`.
pub open spec fn is_sku(text: Seq<char>) -> bool {
    exists|n: nat| SKU_LOW <= n < SKU_HIGH && text == #[trigger] sku_text(n)
}

fn digit_text(d: u32) -> (text: &'static str)
    requires
        d < 10,
    ensures
        text@ == seq![digit_char(d as nat)],
{
    proof {
        reveal_strlit("0");
        reveal_strlit("1");
        reveal_strlit("2");
        reveal_strlit("3");
        reveal_strlit("4");
        reveal_strlit("5");
        reveal_strlit("6");
        reveal_strlit("7");
        reveal_strlit("8");
        reveal_strlit("9");
    }
    let text = if d == 0 {
        "0"
    } else if d == 1 {
        "1"
    } else if d == 2 {
        "2"
    } else if d == 3 {
        "3"
    } else if d == 4 {
        "4"
    } else if d == 5 {
        "5"
    } else if d == 6 {
        "6"
    } else if d == 7 {
        "7"
    } else if d == 8 {
        "8"
    } else {
        "9"
    };
    assert(text@ =~= seq![digit_char(d as nat)]);
    text
}

/// Appends `n` in decimal to `text`.
pub fn push_decimal(text: &mut String, n: u32)
    ensures
        final(text)@ == old(text)@ + decimal(n as nat),
    decreases n,
{
    if n >= 10 {
        push_decimal(text, n / 10);
    }
    text.append(digit_text(n % 10));
    assert(text@ =~= old(text)@ + decimal(n as nat));
}

/// Writes the stock-keeping code that carries `n`.
pub fn format_sku(n: u32) -> (sku: String)
    ensures
        sku@ == sku_text(n as nat),
{
    proof {
        reveal_strlit("SKU");
    }
    let mut sku = String::from_str("SKU");
    assert(sku@ =~= sku_prefix());
    push_decimal(&mut sku, n);
    sku
}

} // verus!
