//! The player's bank: the funds, and the figure shown on screen, which rolls
//! toward the funds at a fixed rate.
use vstd::prelude::*;

verus! {

/// Funds a player starts a match with.
pub const STARTING_FUNDS: i32 = 10000;

/// How fast the displayed figure rolls toward the funds, in units per second.
pub const DISPLAY_SPEED: u64 = 1250;

/// Nanoseconds per second.
pub const NANOS_PER_SEC: u64 = 1_000_000_000;

/// A request to add the (possibly negative) amount to the funds.
#[derive(Clone, Copy, Debug)]
pub struct AdjustFundsEv(pub i32);

/// The player's funds and the figure currently shown for them.
pub struct Bank {
    pub funds: i32,
    pub displayed_funds: i32,
}

impl Default for Bank {
    fn default() -> (b: Self)
        ensures
            b.funds == STARTING_FUNDS,
            b.displayed_funds == 0,
    {
        Self { funds: STARTING_FUNDS, displayed_funds: 0 }
    }
}

/// Whether one frame lasting `nanos` nanoseconds covers a gap of `gap` units.
pub open spec fn step_covers(gap: int, nanos: int) -> bool {
    gap * (NANOS_PER_SEC as int) < (DISPLAY_SPEED as int) * nanos
}

/// The whole units the displayed figure moves in a frame lasting `nanos`
/// nanoseconds (the fractional part is dropped, and the amount saturates at
/// the largest `i32`).
pub open spec fn whole_step(nanos: int) -> int {
    let s = (DISPLAY_SPEED as int) * nanos / (NANOS_PER_SEC as int);
    if s > 0x7fff_ffff {
        0x7fff_ffff
    } else {
        s
    }
}

/// The figure shown after a frame lasting `nanos` nanoseconds.
pub open spec fn next_displayed(funds: int, displayed: int, nanos: int) -> int {
    if funds == displayed {
        displayed
    } else if step_covers(abs_diff(funds, displayed), nanos) {
        funds
    } else if funds > displayed {
        displayed + whole_step(nanos)
    } else {
        displayed - whole_step(nanos)
    }
}

/// `|a - b|`.
pub open spec fn abs_diff(a: int, b: int) -> int {
    if a < b {
        b - a
    } else {
        a - b
    }
}

/// The difference between the funds and the shown figure can be taken in
/// `i32` arithmetic, as the game does.
pub open spec fn gap_fits(funds: i32, displayed: i32) -> bool {
    funds == displayed || (i32::MIN <= funds - displayed <= i32::MAX)
}

/// Adds the adjustment to the funds.
pub fn adjust_funds(trigger: &AdjustFundsEv, bank: &mut Bank)
    requires
        i32::MIN <= old(bank).funds + trigger.0 <= i32::MAX,
    ensures
        final(bank).funds == old(bank).funds + trigger.0,
        final(bank).displayed_funds == old(bank).displayed_funds,
{
    bank.funds = bank.funds + trigger.0;
}

/// Rolls the displayed figure toward the funds for a frame lasting
/// `delta_nanos` nanoseconds: by 1250 units per second, landing on the funds
/// when the frame's step would reach them.  Returns whether the figure on
/// screen must be redrawn, which is whenever it differed from the funds.
pub fn update_bank_funds(delta_nanos: u64, bank: &mut Bank) -> (refresh: bool)
    requires
        gap_fits(old(bank).funds, old(bank).displayed_funds),
    ensures
        refresh == (old(bank).funds != old(bank).displayed_funds),
        final(bank).funds == old(bank).funds,
        final(bank).displayed_funds == next_displayed(
            old(bank).funds as int,
            old(bank).displayed_funds as int,
            delta_nanos as int,
        ),
{
    if bank.funds == bank.displayed_funds {
        return false;
    }
    let target = bank.funds;
    let diff: i32 = target - bank.displayed_funds;
    let gap: u128 = if diff < 0 {
        (0i64 - diff as i64) as u128
    } else {
        diff as u128
    };
    let reach: u128 = 1250u128 * (delta_nanos as u128);
    if gap * 1_000_000_000u128 < reach {
        bank.displayed_funds = target;
    } else {
        let whole: u128 = reach / 1_000_000_000u128;
        assert(whole <= gap) by (nonlinear_arith)
            requires
                gap * 1_000_000_000 >= reach,
                whole == reach / 1_000_000_000,
        ;
        let step: i32 = if whole > 0x7fff_ffff {
            0x7fff_ffff
        } else {
            whole as i32
        };
        if diff > 0 {
            bank.displayed_funds = bank.displayed_funds + step;
        } else {
            bank.displayed_funds = bank.displayed_funds - step;
        }
    }
    true
}

/// Law: a frame never carries the shown figure past the funds; it ends up
/// between where it was and the funds.
pub proof fn lemma_display_never_overshoots(funds: int, displayed: int, nanos: int)
    requires
        nanos >= 0,
    ensures
        displayed <= funds ==> displayed <= next_displayed(funds, displayed, nanos) <= funds,
        funds <= displayed ==> funds <= next_displayed(funds, displayed, nanos) <= displayed,
{
    let s = (DISPLAY_SPEED as int) * nanos / (NANOS_PER_SEC as int);
    if funds != displayed && !step_covers(abs_diff(funds, displayed), nanos) {
        assert(s <= abs_diff(funds, displayed)) by (nonlinear_arith)
            requires
                abs_diff(funds, displayed) * 1_000_000_000 >= 1250 * nanos,
                s == 1250 * nanos / 1_000_000_000,
        ;
        assert(0 <= s) by (nonlinear_arith)
            requires
                nanos >= 0,
                s == 1250 * nanos / 1_000_000_000,
        ;
    }
}

/// Law: the gap between the funds and the shown figure never grows, and once
/// the figure shows the funds it stays there.
pub proof fn lemma_display_converges(funds: int, displayed: int, nanos: int)
    requires
        nanos >= 0,
    ensures
        abs_diff(funds, next_displayed(funds, displayed, nanos)) <= abs_diff(funds, displayed),
        funds == displayed ==> next_displayed(funds, displayed, nanos) == displayed,
{
    lemma_display_never_overshoots(funds, displayed, nanos);
}

/// Law: a frame of at least 0.8 ms (one whole unit at 1250 units per second)
/// strictly shrinks a nonzero gap.
pub proof fn lemma_display_progresses(funds: int, displayed: int, nanos: int)
    requires
        nanos >= 800_000,
        funds != displayed,
    ensures
        abs_diff(funds, next_displayed(funds, displayed, nanos)) < abs_diff(funds, displayed),
{
    lemma_display_never_overshoots(funds, displayed, nanos);
    let s = (DISPLAY_SPEED as int) * nanos / (NANOS_PER_SEC as int);
    assert(s >= 1) by (nonlinear_arith)
        requires
            nanos >= 800_000,
            s == 1250 * nanos / 1_000_000_000,
    ;
}

} // verus!
