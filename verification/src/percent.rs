//! The share of the context window that is in use: the percentage, and how it is shown.
//!
//! A percentage is held in parts of which [`PARTS_PER_PERCENT`] make one percent. With this
//! many parts the percentage of every count of tokens is a whole number of parts, so nothing
//! is lost before the figure is rounded for display.

use vstd::prelude::*;
use crate::number::{decimal, push_decimal};

verus! {

/// The number of tokens that fills the context window.
pub const CONTEXT_WINDOW_TOKENS: u64 = 160_000;

/// The parts that make one percent: one part is one token of the window.
pub const PARTS_PER_PERCENT: u64 = 1_600;

/// From ninety percent on the figure is shown with one decimal, below that as a whole number.
pub const DECIMAL_FROM_PERCENT: u64 = 90;

/// The percentage `min(100, used * 100 / CONTEXT_WINDOW_TOKENS)`, in parts.
pub open spec fn percent_parts(used: nat) -> nat {
    let unbounded = (used * 100 * PARTS_PER_PERCENT / (CONTEXT_WINDOW_TOKENS as int)) as nat;
    if unbounded >= 100 * PARTS_PER_PERCENT {
        (100 * PARTS_PER_PERCENT) as nat
    } else {
        unbounded
    }
}

/// The percentage in parts is exact: the division in it leaves no remainder. It never falls
/// when the count of tokens grows, never passes one hundred percent, and is one hundred percent
/// from a full window on.
pub proof fn lemma_percent_is_capped_ratio(used: nat, more: nat)
    requires
        used <= more,
    ensures
        used * 100 * PARTS_PER_PERCENT % (CONTEXT_WINDOW_TOKENS as int) == 0,
        used < CONTEXT_WINDOW_TOKENS ==> percent_parts(used) * CONTEXT_WINDOW_TOKENS == used * 100
            * PARTS_PER_PERCENT,
        used >= CONTEXT_WINDOW_TOKENS ==> percent_parts(used) == 100 * PARTS_PER_PERCENT,
        percent_parts(used) <= 100 * PARTS_PER_PERCENT,
        percent_parts(used) <= percent_parts(more),
{
}

/// `n / d` rounded to the nearest whole number, a half upwards.
pub open spec fn round_half_up(n: nat, d: nat) -> nat {
    ((2 * n + d) / (2 * d)) as nat
}

/// `n / d` rounded to the nearest whole number, a half to the even neighbour.
pub open spec fn round_half_even(n: nat, d: nat) -> nat {
    let below = n / d;
    let rest = n % d;
    if 2 * rest > d || (2 * rest == d && below % 2 == 1) {
        (below + 1) as nat
    } else {
        below as nat
    }
}

/// Single-precision numbers between 64 and 128 are the multiples of `1 / BINARY_STEPS`.
pub const BINARY_STEPS: u64 = 131_072;

/// A percentage of ninety or more as single precision holds it: the nearest count of steps
/// of `1 / BINARY_STEPS`. No percentage lies halfway between two such counts.
pub open spec fn percent_steps(parts: nat) -> nat {
    round_half_up((parts * BINARY_STEPS) as nat, PARTS_PER_PERCENT as nat)
}

/// The tenths of a percent that are shown for a percentage of ninety or more: the
/// single-precision figure, rounded to one decimal, a half to the even neighbour.
pub open spec fn percent_tenths(parts: nat) -> nat {
    round_half_even((percent_steps(parts) * 10) as nat, BINARY_STEPS as nat)
}

/// The whole percent that are shown for a percentage below ninety: the nearest whole number,
/// a half upwards.
pub open spec fn percent_whole(parts: nat) -> nat {
    round_half_up(parts, PARTS_PER_PERCENT as nat)
}

/// Whether the percentage is shown with one decimal. The test is made on the percentage
/// itself, before any rounding.
pub open spec fn shows_decimal(parts: nat) -> bool {
    parts >= DECIMAL_FROM_PERCENT * PARTS_PER_PERCENT
}

/// The number that is shown for `used` tokens, in tenths of a percent.
pub open spec fn shown_tenths(used: nat) -> nat {
    let parts = percent_parts(used);
    if shows_decimal(parts) {
        percent_tenths(parts)
    } else {
        (percent_whole(parts) * 10) as nat
    }
}

/// The text that is shown for `used` tokens: the percentage with one decimal from ninety
/// percent on, and as a whole number below.
pub open spec fn percent_text(used: nat) -> Seq<char> {
    let parts = percent_parts(used);
    if shows_decimal(parts) {
        decimal((percent_tenths(parts) / 10) as nat) + seq!['.'] + decimal(
            (percent_tenths(parts) % 10) as nat,
        )
    } else {
        decimal(percent_whole(parts))
    }
}

/// From a full window on the text is `100.0`.
pub proof fn lemma_full_window_text(used: nat)
    requires
        used >= CONTEXT_WINDOW_TOKENS,
    ensures
        percent_text(used) == "100.0"@,
        shown_tenths(used) == 1000,
{
    reveal_strlit("100.0");
    reveal_with_fuel(decimal, 3);
    assert(percent_parts(used) == 160_000);
    assert(160_000 * BINARY_STEPS == 20_971_520_000) by (nonlinear_arith);
    assert(round_half_up(20_971_520_000, 1_600) == 13_107_200) by (nonlinear_arith);
    assert(percent_steps(160_000) == 13_107_200);
    assert(round_half_even(131_072_000, 131_072) == 1000) by (nonlinear_arith);
    assert(percent_tenths(160_000) == 1000);
    assert(decimal(100) == seq!['1', '0', '0']);
    assert(decimal(0) == seq!['0']);
    assert(percent_text(used) == seq!['1', '0', '0', '.', '0']);
}

/// A percentage from 89.95 up to, but not including, 90 is shown as the whole number `90`:
/// whether a decimal is shown is decided by the percentage before it is rounded, not by the
/// rounded figure.
pub proof fn lemma_just_below_ninety_is_whole(used: nat)
    requires
        8_995 * PARTS_PER_PERCENT <= 100 * percent_parts(used) < 9_000 * PARTS_PER_PERCENT,
    ensures
        !shows_decimal(percent_parts(used)),
        percent_text(used) == "90"@,
        shown_tenths(used) == 900,
{
    reveal_strlit("90");
    reveal_with_fuel(decimal, 2);
    let parts = percent_parts(used);
    assert(143_920 <= parts < 144_000);
    assert(round_half_up(parts, 1_600) == 90) by (nonlinear_arith)
        requires
            143_920 <= parts < 144_000,
    ;
    assert(percent_whole(parts) == 90);
    assert(decimal(90) == seq!['9', '0']);
}

/// The number that is shown for `used` tokens, in tenths of a percent.
pub fn shown_percent_tenths(used: u128) -> (tenths: u64)
    ensures
        tenths == shown_tenths(used as nat),
        tenths <= 1000,
{
    let parts: u64 = if used >= CONTEXT_WINDOW_TOKENS as u128 {
        CONTEXT_WINDOW_TOKENS
    } else {
        used as u64
    };
    assert(parts == percent_parts(used as nat));
    if parts >= DECIMAL_FROM_PERCENT * PARTS_PER_PERCENT {
        let steps: u64 = (2 * (parts * BINARY_STEPS) + PARTS_PER_PERCENT) / (2 * PARTS_PER_PERCENT);
        let scaled: u64 = steps * 10;
        let below: u64 = scaled / BINARY_STEPS;
        let rest: u64 = scaled % BINARY_STEPS;
        if 2 * rest > BINARY_STEPS || (2 * rest == BINARY_STEPS && below % 2 == 1) {
            below + 1
        } else {
            below
        }
    } else {
        (2 * parts + PARTS_PER_PERCENT) / (2 * PARTS_PER_PERCENT) * 10
    }
}

/// The text that is shown for `used` tokens.
pub fn format_percent(used: u128) -> (text: String)
    ensures
        text@ == percent_text(used as nat),
{
    let tenths = shown_percent_tenths(used);
    let mut text = String::new();
    if used >= (DECIMAL_FROM_PERCENT * PARTS_PER_PERCENT) as u128 {
        push_decimal(&mut text, (tenths / 10) as u128);
        text.push('.');
        push_decimal(&mut text, (tenths % 10) as u128);
    } else {
        push_decimal(&mut text, (tenths / 10) as u128);
    }
    text
}

} // verus!
