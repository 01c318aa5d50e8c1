//! The first PANX/AZERO pair: a constant-product pool with a 0.3% fee, whose
//! liquidity providers hold shares, and which keeps text logs of its trades.
//!
//! A message of this contract does not return errors: where it cannot go on it
//! traps, and the chain undoes everything the message did.  The functions here
//! return `Err` with a `PanxA0Trap` where the message traps.
use crate::account::{AccountId, Mapping};
use crate::env::{CallEnv, ChainCall};
use vstd::prelude::*;
use vstd::string::StringExecFns;

verus! {

/// Why a message of the pair traps.
#[derive(Debug, Clone, Copy, PartialEq, Eq)]
pub enum PanxA0Trap {
    /// An arithmetic step overflows, underflows or divides by zero.
    Overflow,
    /// The amount out is below what the caller validated, by the slippage or more.
    SlippageExceeded,
    /// A deposit would mint no shares.
    ZeroShares,
    /// The caller withdraws more shares than it holds.
    InsufficientShares,
    /// The block timestamp is past the last date that can be written.
    DateOutOfRange,
}

/// A call that a message makes, and whether its failure traps the message (or is
/// ignored).
#[derive(Debug, Clone, Copy, PartialEq, Eq)]
pub struct PanxA0Call {
    pub call: ChainCall,
    pub traps_on_failure: bool,
}

/// 10^12, one PANX.
pub const ONE_PANX: u128 = 1_000_000_000_000u128;

/// The last second that a date can be written for: the end of December 31, 262142.
pub const LAST_DATE_SECS: u64 = 8_210_266_876_799u64;

/// `a * b / c`, where the product fits in 128 bits and `c` is not zero.
pub open spec fn mul_div_spec(a: u128, b: u128, c: u128) -> Option<u128> {
    if a * b > u128::MAX || c == 0 {
        None
    } else {
        Some((a * b / (c as int)) as u128)
    }
}

/// `a + b`, where it fits in 128 bits.
pub open spec fn sum_spec(a: u128, b: u128) -> Option<u128> {
    if a + b > u128::MAX {
        None
    } else {
        Some((a + b) as u128)
    }
}

/// `a - b`, where it is not negative.
pub open spec fn diff_spec(a: u128, b: u128) -> Option<u128> {
    if a < b {
        None
    } else {
        Some((a - b) as u128)
    }
}

/// An amount less the 0.3% LP fee.
pub open spec fn with_lp_fee_spec(v: u128) -> Option<u128> {
    mul_div_spec(v, 997, 1000)
}

/// The constant-product price: what `amount_in` buys out of `reserve_out` against
/// `reserve_in`.
pub open spec fn swap_out_spec(reserve_out: u128, amount_in: u128, reserve_in: u128) -> Option<u128> {
    match sum_spec(reserve_in, amount_in) {
        None => None,
        Some(den) => mul_div_spec(reserve_out, amount_in, den),
    }
}

/// What the fee-reduced `value` buys, with the price impact of the trade itself
/// taken in: the swap is priced again against the reserves it leaves.
pub open spec fn impact_spec(reserve_out: u128, value: u128, reserve_in: u128) -> Option<u128> {
    match with_lp_fee_spec(value) {
        None => None,
        Some(w) => match swap_out_spec(reserve_out, w, reserve_in) {
            None => None,
            Some(out) => match sum_spec(reserve_in, value) {
                None => None,
                Some(grown) => match sum_spec(grown, w) {
                    None => None,
                    Some(den) => match diff_spec(reserve_out, out) {
                        None => None,
                        Some(left) => mul_div_spec(left, w, den),
                    },
                },
            },
        },
    }
}

/// The AZERO price of one PANX.
pub open spec fn price_for_one_spec(a0_balance: u128, panx_balance: u128) -> Option<u128> {
    match sum_spec(panx_balance, ONE_PANX) {
        None => None,
        Some(den) => mul_div_spec(a0_balance, ONE_PANX, den),
    }
}

/// The shares that a deposit of `d0` AZERO and `d1` PANX is worth, against the
/// reserves `a0_balance` and `panx_balance` and a supply of `total_supply` shares; the
/// first deposit is worth the square root of the product, `root` being that root.
pub open spec fn shares_spec(d0: u128, d1: u128, a0_balance: u128, panx_balance: u128, total_supply: u128, root: u128) -> Option<
    u128,
> {
    if total_supply > 0 {
        match (mul_div_spec(d0, total_supply, a0_balance), mul_div_spec(d1, total_supply, panx_balance)) {
            (Some(x), Some(y)) => Some(if x <= y { x } else { y }),
            _ => None,
        }
    } else if d0 * d1 > u128::MAX {
        None
    } else {
        Some(root)
    }
}

/// `r` is the integer square root of `n`.
pub open spec fn is_sqrt(r: u128, n: int) -> bool {
    r * r <= n < (r + 1) * (r + 1)
}

/// The character of the decimal digit `d`.
pub open spec fn digit_char(d: nat) -> char {
    (d + 48) as char
}

/// The decimal writing of `n`, without leading zeros.
pub open spec fn decimal_text(n: nat) -> Seq<char>
    decreases n,
{
    if n < 10 {
        seq![digit_char(n)]
    } else {
        decimal_text(n / 10).push(digit_char(n % 10))
    }
}

/// The text that chrono writes for the UTC date and time `secs` seconds after the
/// Unix epoch (such as `2022-06-01 12:00:00 UTC`).
pub uninterp spec fn utc_date_text(secs: u64) -> Seq<char>;

/// The one-character text of the digit `d`.
fn digit_str(d: u128) -> (r: &'static str)
    requires
        d < 10,
    ensures
        r@ == seq![digit_char(d as nat)],
{
    if d == 0 {
        proof {
            reveal_strlit("0");
        }
        "0"
    } else if d == 1 {
        proof {
            reveal_strlit("1");
        }
        "1"
    } else if d == 2 {
        proof {
            reveal_strlit("2");
        }
        "2"
    } else if d == 3 {
        proof {
            reveal_strlit("3");
        }
        "3"
    } else if d == 4 {
        proof {
            reveal_strlit("4");
        }
        "4"
    } else if d == 5 {
        proof {
            reveal_strlit("5");
        }
        "5"
    } else if d == 6 {
        proof {
            reveal_strlit("6");
        }
        "6"
    } else if d == 7 {
        proof {
            reveal_strlit("7");
        }
        "7"
    } else if d == 8 {
        proof {
            reveal_strlit("8");
        }
        "8"
    } else {
        proof {
            reveal_strlit("9");
        }
        "9"
    }
}

/// The decimal writing of `v`, with no sign and no leading zeros.
fn decimal_string(v: u128) -> (r: String)
    ensures
        r@ == decimal_text(v as nat),
    decreases v,
{
    if v < 10 {
        let mut s = String::new();
        s.append(digit_str(v));
        proof {
            assert(s@ =~= decimal_text(v as nat));
        }
        s
    } else {
        let mut s = decimal_string(v / 10);
        s.append(digit_str(v % 10));
        s
    }
}

/// The UTC date and time `secs` seconds after the epoch, written by chrono:
/// `NaiveDateTime::from_timestamp` (which panics past the last date that chrono
/// can hold), then `DateTime::<Utc>::from_utc` and its `to_string`.  The text is
/// named, not stated: it is the calendar date, the time and `UTC`.
#[verifier::external_body]
#[allow(deprecated)]
fn utc_date_string(secs: u64) -> (r: String)
    requires
        secs <= LAST_DATE_SECS,
    ensures
        r@ == utc_date_text(secs),
{
    let naive = chrono::NaiveDateTime::from_timestamp(secs as i64, 0);
    let date: chrono::DateTime<chrono::Utc> = chrono::DateTime::from_utc(naive, chrono::Utc);
    date.to_string()
}

/// The integer square root of `n`: num-integer's `Roots::sqrt` on `u128`, whose
/// documentation gives the truncated principal root.
#[verifier::external_body]
fn integer_sqrt(n: u128) -> (r: u128)
    ensures
        is_sqrt(r, n as int),
{
    num_integer::Roots::sqrt(&n)
}

/// `a * b / c`, where the product fits in 128 bits and `c` is not zero.
fn mul_div(a: u128, b: u128, c: u128) -> (r: Option<u128>)
    ensures
        r == mul_div_spec(a, b, c),
{
    if c == 0 {
        return None;
    }
    match a.checked_mul(b) {
        Some(p) => Some(p / c),
        None => None,
    }
}

/// `a + b`, where it fits.
fn sum(a: u128, b: u128) -> (r: Option<u128>)
    ensures
        r == sum_spec(a, b),
{
    a.checked_add(b)
}

/// `a - b`, where it is not negative.
fn diff(a: u128, b: u128) -> (r: Option<u128>)
    ensures
        r == diff_spec(a, b),
{
    a.checked_sub(b)
}

/// The constant-product price.
fn swap_out(reserve_out: u128, amount_in: u128, reserve_in: u128) -> (r: Option<u128>)
    ensures
        r == swap_out_spec(reserve_out, amount_in, reserve_in),
{
    match sum(reserve_in, amount_in) {
        None => None,
        Some(den) => mul_div(reserve_out, amount_in, den),
    }
}

/// The price with its own impact taken in.
fn impact(reserve_out: u128, value: u128, reserve_in: u128) -> (r: Option<u128>)
    ensures
        r == impact_spec(reserve_out, value, reserve_in),
{
    let w = match mul_div(value, 997, 1000) {
        None => return None,
        Some(w) => w,
    };
    let out = match swap_out(reserve_out, w, reserve_in) {
        None => return None,
        Some(out) => out,
    };
    let grown = match sum(reserve_in, value) {
        None => return None,
        Some(g) => g,
    };
    let den = match sum(grown, w) {
        None => return None,
        Some(d) => d,
    };
    let left = match diff(reserve_out, out) {
        None => return None,
        Some(l) => l,
    };
    mul_div(left, w, den)
}

/// The AZERO price of one PANX.
fn price_for_one(a0_balance: u128, panx_balance: u128) -> (r: Option<u128>)
    ensures
        r == price_for_one_spec(a0_balance, panx_balance),
{
    match sum(panx_balance, ONE_PANX) {
        None => None,
        Some(den) => mul_div(a0_balance, ONE_PANX, den),
    }
}

/// The integer square root of `n`, for `n` that is not negative.
pub open spec fn isqrt(n: int) -> u128 {
    choose|r: u128| is_sqrt(r, n)
}

/// A number has at most one integer square root.
pub proof fn lemma_sqrt_unique(r1: u128, r2: u128, n: int)
    requires
        is_sqrt(r1, n),
        is_sqrt(r2, n),
    ensures
        r1 == r2,
{
    if r1 < r2 {
        assert((r1 + 1) * (r1 + 1) <= r2 * r2) by (nonlinear_arith)
            requires
                r1 + 1 <= r2,
                0 <= r1,
        ;
    } else if r2 < r1 {
        assert((r2 + 1) * (r2 + 1) <= r1 * r1) by (nonlinear_arith)
            requires
                r2 + 1 <= r1,
                0 <= r2,
        ;
    }
}

/// The integer square root of `n`.
fn sqrt_of(n: u128) -> (r: u128)
    ensures
        r == isqrt(n as int),
{
    let r = integer_sqrt(n);
    proof {
        lemma_sqrt_unique(r, isqrt(n as int), n as int);
    }
    r
}

/// The shares that a deposit of `d0` AZERO and `d1` PANX is worth, against the
/// reserves `a0_balance` and `panx_balance` and a supply of `total_supply` shares: in
/// proportion to the smaller side, or, for the first deposit, the square root of
/// the product.
pub open spec fn deposit_shares_spec(d0: u128, d1: u128, a0_balance: u128, panx_balance: u128, total_supply: u128) -> Option<
    u128,
> {
    shares_spec(d0, d1, a0_balance, panx_balance, total_supply, isqrt(d0 * d1))
}

/// The shares of a deposit.
fn deposit_shares(d0: u128, d1: u128, a0_balance: u128, panx_balance: u128, total_supply: u128) -> (r: Option<u128>)
    ensures
        r == deposit_shares_spec(d0, d1, a0_balance, panx_balance, total_supply),
{
    if total_supply > 0 {
        let x = match mul_div(d0, total_supply, a0_balance) {
            None => return None,
            Some(x) => x,
        };
        let y = match mul_div(d1, total_supply, panx_balance) {
            None => return None,
            Some(y) => y,
        };
        Some(if x <= y { x } else { y })
    } else {
        match d0.checked_mul(d1) {
            None => None,
            Some(p) => Some(sqrt_of(p)),
        }
    }
}

/// Where a swap whose amount out is `out` traps against what the caller validated.
pub open spec fn slippage_trap(amount_to_validate: u128, out: u128, slippage: u128) -> Option<PanxA0Trap> {
    if out > amount_to_validate {
        Some(PanxA0Trap::Overflow)
    } else if (amount_to_validate - out) / 100 >= slippage {
        Some(PanxA0Trap::SlippageExceeded)
    } else {
        None
    }
}

/// `after` is `before` with one more entry, whose text is `text`.
pub open spec fn log_pushed(after: Seq<String>, before: Seq<String>, text: Seq<char>) -> bool {
    &&& after.len() == before.len() + 1
    &&& after.drop_last() == before
    &&& after.last()@ == text
}

/// The texts of the entries of a log, one after the other.
pub open spec fn log_text(log: Seq<String>) -> Seq<char>
    decreases log.len(),
{
    if log.len() == 0 {
        Seq::empty()
    } else {
        log_text(log.drop_last()) + log.last()@
    }
}

/// A trade log entry: an amount, the date and the closing text `kind`.
pub open spec fn trade_entry(amount: u128, date: Seq<char>, kind: Seq<char>) -> Seq<char> {
    decimal_text(amount as nat) + ", "@ + date + kind
}

/// A liquidity log entry.
pub open spec fn lp_entry(panx: u128, a0: u128, share: u128, date: Seq<char>, kind: Seq<char>) -> Seq<char> {
    "PANX: "@ + decimal_text(panx as nat) + ", AO: "@ + decimal_text(a0 as nat) + ", share: "@ + decimal_text(
        share as nat,
    ) + ", date: "@ + date + kind
}

/// The text of a trade log entry.
fn trade_entry_string(amount: u128, date: &String, kind: &str) -> (r: String)
    ensures
        r@ == trade_entry(amount, date@, kind@),
{
    let mut s = decimal_string(amount);
    s.append(", ");
    s.append(date.as_str());
    s.append(kind);
    s
}

/// The text of a liquidity log entry.
fn lp_entry_string(panx: u128, a0: u128, share: u128, date: &String, kind: &str) -> (r: String)
    ensures
        r@ == lp_entry(panx, a0, share, date@, kind@),
{
    let mut s = String::from_str("PANX: ");
    let p = decimal_string(panx);
    s.append(p.as_str());
    s.append(", AO: ");
    let a = decimal_string(a0);
    s.append(a.as_str());
    s.append(", share: ");
    let sh = decimal_string(share);
    s.append(sh.as_str());
    s.append(", date: ");
    s.append(date.as_str());
    s.append(kind);
    s
}

/// The entries of a log, one after the other.
fn join_log(log: &Vec<String>) -> (r: String)
    ensures
        r@ == log_text(log@),
{
    let mut s = String::new();
    let mut i: usize = 0;
    while i < log.len()
        invariant
            i <= log@.len(),
            s@ == log_text(log@.subrange(0, i as int)),
        decreases log@.len() - i,
    {
        s.append(log[i].as_str());
        proof {
            assert(log@.subrange(0, i + 1).drop_last() =~= log@.subrange(0, i as int));
        }
        i = i + 1;
    }
    assert(log@.subrange(0, log@.len() as int) =~= log@);
    s
}

/// The date of the block, written by chrono, or the trap where it cannot be.
fn block_date(env: &CallEnv) -> (r: Result<String, PanxA0Trap>)
    ensures
        env.now() <= LAST_DATE_SECS ==> (r matches Ok(s) && s@ == utc_date_text(env.now())),
        env.now() > LAST_DATE_SECS ==> r == Err::<String, PanxA0Trap>(PanxA0Trap::DateOutOfRange),
{
    let secs = env.current_timestamp();
    if secs > LAST_DATE_SECS {
        return Err(PanxA0Trap::DateOutOfRange);
    }
    Ok(utc_date_string(secs))
}

/// The storage of the pair.
#[derive(Debug, Clone)]
pub struct PanxA0 {
    pub transasction_number: i64,
    pub manager: AccountId,
    pub panx_psp22: AccountId,
    pub a0_reserve: u128,
    pub panx_reserve: u128,
    pub fee: u128,
    pub total_supply: u128,
    pub balances: Mapping<AccountId, u128>,
    pub trans_log: Vec<String>,
    pub panx_volume_log: Vec<String>,
    pub a0_volume_log: Vec<String>,
    pub lp_provision_log: Vec<String>,
    pub lp_providers: Mapping<AccountId, u128>,
}

impl PanxA0 {
    /// The supply of shares is the sum of the shares that the accounts hold.
    pub open spec fn shares_backed(&self) -> bool {
        self.balances.total() == self.total_supply
    }

    /// A new pair for `panx_contract`, managed by the caller.  Every other field
    /// starts at its default: the fee too, whatever `fee` is given.
    pub fn new(env: &CallEnv, panx_contract: AccountId, fee: u128) -> (r: Self)
        ensures
            r.transasction_number == 0,
            r.manager == env.caller,
            r.panx_psp22 == panx_contract,
            r.a0_reserve == 0,
            r.panx_reserve == 0,
            r.fee == 0,
            r.total_supply == 0,
            r.balances@ == Map::<AccountId, u128>::empty(),
            r.trans_log@.len() == 0,
            r.panx_volume_log@.len() == 0,
            r.a0_volume_log@.len() == 0,
            r.lp_provision_log@.len() == 0,
            r.lp_providers@ == Map::<AccountId, u128>::empty(),
            r.shares_backed(),
    {
        let pool = PanxA0 {
            transasction_number: 0,
            manager: env.caller,
            panx_psp22: panx_contract,
            a0_reserve: 0,
            panx_reserve: 0,
            fee: 0,
            total_supply: 0,
            balances: Mapping::new(),
            trans_log: Vec::new(),
            panx_volume_log: Vec::new(),
            a0_volume_log: Vec::new(),
            lp_provision_log: Vec::new(),
            lp_providers: Mapping::new(),
        };
        proof {
            Mapping::<AccountId, u128>::lemma_total_empty(&pool.balances);
        }
        pool
    }

    /// The AZERO price of one PANX, against the AZERO balance `a0_balance` and the
    /// PANX balance `panx_balance` of the pair.
    pub fn get_price_for_1_panx(&self, a0_balance: u128, panx_balance: u128) -> (r: Option<u128>)
        ensures
            r == price_for_one_spec(a0_balance, panx_balance),
    {
        price_for_one(a0_balance, panx_balance)
    }

    /// The AZERO that `value` PANX buy, less the LP fee.
    pub fn get_price_panx_to_a0_with_lp_fee(&self, value: u128, a0_balance: u128, panx_balance: u128) -> (r: Option<
        u128,
    >)
        ensures
            r == match with_lp_fee_spec(value) {
                None => None,
                Some(w) => swap_out_spec(a0_balance, w, panx_balance),
            },
    {
        match mul_div(value, 997, 1000) {
            None => None,
            Some(w) => swap_out(a0_balance, w, panx_balance),
        }
    }

    /// The AZERO that `value` PANX buy, without the LP fee.
    pub fn get_price_panx_to_a0(&self, value: u128, a0_balance: u128, panx_balance: u128) -> (r: Option<u128>)
        ensures
            r == swap_out_spec(a0_balance, value, panx_balance),
    {
        swap_out(a0_balance, value, panx_balance)
    }

    /// The PANX that the AZERO sent with the call buy, less the LP fee; the AZERO
    /// balance `a0_balance` holds the coins sent.
    pub fn get_price_a0_to_panx_with_lp_fee(&self, env: &CallEnv, a0_balance: u128, panx_balance: u128) -> (r:
        Option<u128>)
        ensures
            r == match with_lp_fee_spec(env.transferred_value) {
                None => None,
                Some(w) => swap_out_spec(panx_balance, w, a0_balance),
            },
    {
        match mul_div(env.transferred_value, 997, 1000) {
            None => None,
            Some(w) => swap_out(panx_balance, w, a0_balance),
        }
    }

    /// The PANX that the AZERO sent with the call buy, without the LP fee.
    pub fn get_price_a0_to_panx(&self, env: &CallEnv, a0_balance: u128, panx_balance: u128) -> (r: Option<u128>)
        ensures
            r == swap_out_spec(panx_balance, env.transferred_value, a0_balance),
    {
        swap_out(panx_balance, env.transferred_value, a0_balance)
    }

    /// The AZERO that `value` PANX buy with the swap's own price impact.
    pub fn get_price_impact_panx_to_a0(&self, value: u128, a0_balance: u128, panx_balance: u128) -> (r: Option<u128>)
        ensures
            r == impact_spec(a0_balance, value, panx_balance),
    {
        impact(a0_balance, value, panx_balance)
    }

    /// The PANX that the AZERO sent with the call buy with the swap's own price
    /// impact.
    pub fn get_price_impact_a0_to_panx(&self, env: &CallEnv, a0_balance: u128, panx_balance: u128) -> (r: Option<
        u128,
    >)
        ensures
            r == impact_spec(panx_balance, env.transferred_value, a0_balance),
    {
        impact(panx_balance, env.transferred_value, a0_balance)
    }

    /// The AZERO price of one PANX, without the LP fee.
    pub fn get_current_price(&self, a0_balance: u128, panx_balance: u128) -> (r: Option<u128>)
        ensures
            r == swap_out_spec(a0_balance, ONE_PANX, panx_balance),
    {
        self.get_price_panx_to_a0(ONE_PANX, a0_balance, panx_balance)
    }

    /// `self` and `other` agree on everything but the logs and the count of trades.
    pub open spec fn same_pool(&self, other: &Self) -> bool {
        &&& self.manager == other.manager
        &&& self.panx_psp22 == other.panx_psp22
        &&& self.a0_reserve == other.a0_reserve
        &&& self.panx_reserve == other.panx_reserve
        &&& self.fee == other.fee
        &&& self.total_supply == other.total_supply
        &&& self.balances == other.balances
        &&& self.lp_providers == other.lp_providers
    }

    /// The first step of a PANX to AZERO swap: moving `amount_to_transfer` PANX from
    /// the caller to the pair.  Its failure is ignored.
    pub fn swap_panx_to_a0(&self, env: &CallEnv, amount_to_transfer: u128) -> (r: PanxA0Call)
        ensures
            r == (PanxA0Call {
                call: ChainCall::Psp22TransferFrom {
                    token: self.panx_psp22,
                    from: env.caller,
                    to: env.account_id,
                    amount: amount_to_transfer,
                },
                traps_on_failure: false,
            }),
    {
        PanxA0Call {
            call: ChainCall::Psp22TransferFrom {
                token: self.panx_psp22,
                from: env.caller,
                to: env.account_id,
                amount: amount_to_transfer,
            },
            traps_on_failure: false,
        }
    }

    /// The second step of a PANX to AZERO swap, with the balances read after the PANX
    /// came in: the AZERO that `amount_to_transfer` PANX buy, less the LP fee, and
    /// the payment of it to the caller, whose failure traps.  The swap traps where
    /// the amount out falls short of `amount_to_validate` by `slippage` hundreds.
    pub fn price_swap_panx_to_a0(
        &self,
        env: &CallEnv,
        amount_to_transfer: u128,
        amount_to_validate: u128,
        slippage: u128,
        a0_balance: u128,
        panx_balance: u128,
    ) -> (r: Result<(u128, PanxA0Call), PanxA0Trap>)
        ensures
            ({
                let out = match with_lp_fee_spec(amount_to_transfer) {
                    None => None,
                    Some(w) => swap_out_spec(a0_balance, w, panx_balance),
                };
                match out {
                    None => r == Err::<(u128, PanxA0Call), PanxA0Trap>(PanxA0Trap::Overflow),
                    Some(o) => match slippage_trap(amount_to_validate, o, slippage) {
                        Some(t) => r == Err::<(u128, PanxA0Call), PanxA0Trap>(t),
                        None => r == Ok::<(u128, PanxA0Call), PanxA0Trap>(
                            (
                                o,
                                PanxA0Call {
                                    call: ChainCall::NativeTransfer { to: env.caller, amount: o },
                                    traps_on_failure: true,
                                },
                            ),
                        ),
                    },
                }
            }),
    {
        let out = match self.get_price_panx_to_a0_with_lp_fee(amount_to_transfer, a0_balance, panx_balance) {
            None => return Err(PanxA0Trap::Overflow),
            Some(o) => o,
        };
        if out > amount_to_validate {
            return Err(PanxA0Trap::Overflow);
        }
        if (amount_to_validate - out) / 100 >= slippage {
            return Err(PanxA0Trap::SlippageExceeded);
        }
        Ok((out, PanxA0Call { call: ChainCall::NativeTransfer { to: env.caller, amount: out }, traps_on_failure: true }))
    }

    /// Logs a trade: the price of one PANX against the balances read after the
    /// trade, the PANX amount and the AZERO amount, each with the date; and counts it.
    fn record_trade(
        &mut self,
        env: &CallEnv,
        panx_amount: u128,
        panx_kind: &str,
        a0_amount: u128,
        a0_kind: &str,
        a0_balance: u128,
        panx_balance: u128,
    ) -> (r: Result<(), PanxA0Trap>)
        ensures
            ({
                let date = utc_date_text(env.now());
                if env.now() > LAST_DATE_SECS {
                    r == Err::<(), PanxA0Trap>(PanxA0Trap::DateOutOfRange) && *final(self) == *old(self)
                } else if price_for_one_spec(a0_balance, panx_balance) is None || old(self).transasction_number
                    == i64::MAX {
                    r == Err::<(), PanxA0Trap>(PanxA0Trap::Overflow) && *final(self) == *old(self)
                } else {
                    &&& r is Ok
                    &&& log_pushed(
                        final(self).trans_log@,
                        old(self).trans_log@,
                        trade_entry(price_for_one_spec(a0_balance, panx_balance).unwrap(), date, ";"@),
                    )
                    &&& log_pushed(
                        final(self).panx_volume_log@,
                        old(self).panx_volume_log@,
                        trade_entry(panx_amount, date, panx_kind@),
                    )
                    &&& log_pushed(
                        final(self).a0_volume_log@,
                        old(self).a0_volume_log@,
                        trade_entry(a0_amount, date, a0_kind@),
                    )
                    &&& final(self).lp_provision_log == old(self).lp_provision_log
                    &&& final(self).transasction_number == old(self).transasction_number + 1
                    &&& final(self).same_pool(old(self))
                }
            }),
    {
        let date = match block_date(env) {
            Err(t) => return Err(t),
            Ok(d) => d,
        };
        let price_of_one_token = match price_for_one(a0_balance, panx_balance) {
            None => return Err(PanxA0Trap::Overflow),
            Some(p) => p,
        };
        if self.transasction_number == i64::MAX {
            return Err(PanxA0Trap::Overflow);
        }
        let price_entry = trade_entry_string(price_of_one_token, &date, ";");
        let panx_entry = trade_entry_string(panx_amount, &date, panx_kind);
        let a0_entry = trade_entry_string(a0_amount, &date, a0_kind);
        self.trans_log.push(price_entry);
        self.panx_volume_log.push(panx_entry);
        self.a0_volume_log.push(a0_entry);
        self.transasction_number = self.transasction_number + 1;
        proof {
            assert(self.trans_log@.drop_last() =~= old(self).trans_log@);
            assert(self.panx_volume_log@.drop_last() =~= old(self).panx_volume_log@);
            assert(self.a0_volume_log@.drop_last() =~= old(self).a0_volume_log@);
        }
        Ok(())
    }

    /// The last step of a PANX to AZERO swap, once the caller was paid `amount_out`
    /// AZERO and the balances read `a0_balance` and `panx_balance`: logs the price
    /// of one PANX, the PANX validated as sold and the AZERO bought, and counts the
    /// trade.
    pub fn record_swap_panx_to_a0(
        &mut self,
        env: &CallEnv,
        amount_to_validate: u128,
        amount_out: u128,
        a0_balance: u128,
        panx_balance: u128,
    ) -> (r: Result<(), PanxA0Trap>)
        ensures
            ({
                let date = utc_date_text(env.now());
                if env.now() > LAST_DATE_SECS {
                    r == Err::<(), PanxA0Trap>(PanxA0Trap::DateOutOfRange) && *final(self) == *old(self)
                } else if price_for_one_spec(a0_balance, panx_balance) is None || old(self).transasction_number
                    == i64::MAX {
                    r == Err::<(), PanxA0Trap>(PanxA0Trap::Overflow) && *final(self) == *old(self)
                } else {
                    &&& r is Ok
                    &&& log_pushed(
                        final(self).trans_log@,
                        old(self).trans_log@,
                        trade_entry(price_for_one_spec(a0_balance, panx_balance).unwrap(), date, ";"@),
                    )
                    &&& log_pushed(
                        final(self).panx_volume_log@,
                        old(self).panx_volume_log@,
                        trade_entry(amount_to_validate, date, ", type: SELL;"@),
                    )
                    &&& log_pushed(
                        final(self).a0_volume_log@,
                        old(self).a0_volume_log@,
                        trade_entry(amount_out, date, ", type: BUY;"@),
                    )
                    &&& final(self).lp_provision_log == old(self).lp_provision_log
                    &&& final(self).transasction_number == old(self).transasction_number + 1
                    &&& final(self).same_pool(old(self))
                }
            }),
    {
        self.record_trade(env, amount_to_validate, ", type: SELL;", amount_out, ", type: BUY;", a0_balance, panx_balance)
    }

    /// The first step of an AZERO to PANX swap, with the AZERO balance holding the
    /// coins sent: the PANX that they buy, less the LP fee, and the transfer of it to
    /// the caller, whose failure is ignored.  The swap traps where the amount out
    /// falls short of `amount_to_validate` by `slippage` hundreds.
    pub fn swap_a0_to_panx(
        &self,
        env: &CallEnv,
        amount_to_validate: u128,
        slippage: u128,
        a0_balance: u128,
        panx_balance: u128,
    ) -> (r: Result<(u128, PanxA0Call), PanxA0Trap>)
        ensures
            ({
                let out = match with_lp_fee_spec(env.transferred_value) {
                    None => None,
                    Some(w) => swap_out_spec(panx_balance, w, a0_balance),
                };
                match out {
                    None => r == Err::<(u128, PanxA0Call), PanxA0Trap>(PanxA0Trap::Overflow),
                    Some(o) => match slippage_trap(amount_to_validate, o, slippage) {
                        Some(t) => r == Err::<(u128, PanxA0Call), PanxA0Trap>(t),
                        None => r == Ok::<(u128, PanxA0Call), PanxA0Trap>(
                            (
                                o,
                                PanxA0Call {
                                    call: ChainCall::Psp22Transfer { token: self.panx_psp22, to: env.caller, amount: o },
                                    traps_on_failure: false,
                                },
                            ),
                        ),
                    },
                }
            }),
    {
        let out = match self.get_price_a0_to_panx_with_lp_fee(env, a0_balance, panx_balance) {
            None => return Err(PanxA0Trap::Overflow),
            Some(o) => o,
        };
        if out > amount_to_validate {
            return Err(PanxA0Trap::Overflow);
        }
        if (amount_to_validate - out) / 100 >= slippage {
            return Err(PanxA0Trap::SlippageExceeded);
        }
        Ok(
            (
                out,
                PanxA0Call {
                    call: ChainCall::Psp22Transfer { token: self.panx_psp22, to: env.caller, amount: out },
                    traps_on_failure: false,
                },
            ),
        )
    }

    /// The last step of an AZERO to PANX swap, once the PANX transfer was made and
    /// the balances read `a0_balance` and `panx_balance`: logs the price of one
    /// PANX, the `amount_out` PANX bought and the AZERO sold, and counts the trade.
    pub fn record_swap_a0_to_panx(&mut self, env: &CallEnv, amount_out: u128, a0_balance: u128, panx_balance: u128) -> (r:
        Result<(), PanxA0Trap>)
        ensures
            ({
                let date = utc_date_text(env.now());
                if env.now() > LAST_DATE_SECS {
                    r == Err::<(), PanxA0Trap>(PanxA0Trap::DateOutOfRange) && *final(self) == *old(self)
                } else if price_for_one_spec(a0_balance, panx_balance) is None || old(self).transasction_number
                    == i64::MAX {
                    r == Err::<(), PanxA0Trap>(PanxA0Trap::Overflow) && *final(self) == *old(self)
                } else {
                    &&& r is Ok
                    &&& log_pushed(
                        final(self).trans_log@,
                        old(self).trans_log@,
                        trade_entry(price_for_one_spec(a0_balance, panx_balance).unwrap(), date, ";"@),
                    )
                    &&& log_pushed(
                        final(self).panx_volume_log@,
                        old(self).panx_volume_log@,
                        trade_entry(amount_out, date, ", type: BUY;"@),
                    )
                    &&& log_pushed(
                        final(self).a0_volume_log@,
                        old(self).a0_volume_log@,
                        trade_entry(env.transferred_value, date, ", type: SELL;"@),
                    )
                    &&& final(self).lp_provision_log == old(self).lp_provision_log
                    &&& final(self).transasction_number == old(self).transasction_number + 1
                    &&& final(self).same_pool(old(self))
                }
            }),
    {
        self.record_trade(
            env,
            amount_out,
            ", type: BUY;",
            env.transferred_value,
            ", type: SELL;",
            a0_balance,
            panx_balance,
        )
    }

    /// The first step of a deposit: moving `panx_deposit_amount` PANX from the caller
    /// to the pair.  Its failure traps.
    pub fn add_to_pool(&self, env: &CallEnv, panx_deposit_amount: u128) -> (r: PanxA0Call)
        ensures
            r == (PanxA0Call {
                call: ChainCall::Psp22TransferFrom {
                    token: self.panx_psp22,
                    from: env.caller,
                    to: env.account_id,
                    amount: panx_deposit_amount,
                },
                traps_on_failure: true,
            }),
    {
        PanxA0Call {
            call: ChainCall::Psp22TransferFrom {
                token: self.panx_psp22,
                from: env.caller,
                to: env.account_id,
                amount: panx_deposit_amount,
            },
            traps_on_failure: true,
        }
    }

    /// The last step of a deposit of the AZERO sent and `panx_deposit_amount` PANX,
    /// with the balances read after the PANX came in: mints the caller the shares
    /// that the deposit is worth (which must be some) and logs the deposit.
    pub fn settle_add_to_pool(&mut self, env: &CallEnv, panx_deposit_amount: u128, a0_balance: u128, panx_balance: u128) -> (r:
        Result<u128, PanxA0Trap>)
        ensures
            ({
                let caller = env.caller;
                let shares = deposit_shares_spec(
                    env.transferred_value,
                    panx_deposit_amount,
                    a0_balance,
                    panx_balance,
                    old(self).total_supply,
                );
                let current = old(self).balances.get_or(caller, 0);
                match shares {
                    None => r == Err::<u128, PanxA0Trap>(PanxA0Trap::Overflow) && *final(self) == *old(self),
                    Some(sh) => if sh == 0 {
                        r == Err::<u128, PanxA0Trap>(PanxA0Trap::ZeroShares) && *final(self) == *old(self)
                    } else if current + sh > u128::MAX || old(self).total_supply + sh > u128::MAX {
                        r == Err::<u128, PanxA0Trap>(PanxA0Trap::Overflow) && *final(self) == *old(self)
                    } else if env.now() > LAST_DATE_SECS {
                        r == Err::<u128, PanxA0Trap>(PanxA0Trap::DateOutOfRange) && *final(self) == *old(self)
                    } else {
                        &&& r == Ok::<u128, PanxA0Trap>(sh)
                        &&& final(self).balances@ == old(self).balances@.insert(caller, (current + sh) as u128)
                        &&& final(self).lp_providers@ == old(self).lp_providers@.insert(caller, (current + sh) as u128)
                        &&& final(self).total_supply == old(self).total_supply + sh
                        &&& log_pushed(
                            final(self).lp_provision_log@,
                            old(self).lp_provision_log@,
                            lp_entry(
                                panx_deposit_amount,
                                env.transferred_value,
                                sh,
                                utc_date_text(env.now()),
                                ", type: ADD;"@,
                            ),
                        )
                        &&& final(self).trans_log == old(self).trans_log
                        &&& final(self).panx_volume_log == old(self).panx_volume_log
                        &&& final(self).a0_volume_log == old(self).a0_volume_log
                        &&& final(self).transasction_number == old(self).transasction_number
                        &&& final(self).manager == old(self).manager
                        &&& final(self).panx_psp22 == old(self).panx_psp22
                        &&& final(self).a0_reserve == old(self).a0_reserve
                        &&& final(self).panx_reserve == old(self).panx_reserve
                        &&& final(self).fee == old(self).fee
                    },
                }
            }),
            old(self).shares_backed() ==> final(self).shares_backed(),
    {
        let caller = env.caller;
        let a0_deposit_amount = env.transferred_value;
        let shares = match deposit_shares(a0_deposit_amount, panx_deposit_amount, a0_balance, panx_balance, self.total_supply) {
            None => return Err(PanxA0Trap::Overflow),
            Some(sh) => sh,
        };
        if shares == 0 {
            return Err(PanxA0Trap::ZeroShares);
        }
        let current_shares = self.balances.get_or_default(&caller, 0);
        let new_shares = match current_shares.checked_add(shares) {
            None => return Err(PanxA0Trap::Overflow),
            Some(n) => n,
        };
        let new_supply = match self.total_supply.checked_add(shares) {
            None => return Err(PanxA0Trap::Overflow),
            Some(n) => n,
        };
        let date = match block_date(env) {
            Err(t) => return Err(t),
            Ok(d) => d,
        };
        let entry = lp_entry_string(panx_deposit_amount, a0_deposit_amount, shares, &date, ", type: ADD;");
        self.lp_providers.insert(caller, new_shares);
        let ghost b0 = self.balances;
        self.balances.insert(caller, new_shares);
        proof {
            Mapping::<AccountId, u128>::lemma_total_insert(&b0, &self.balances, caller, new_shares);
        }
        self.total_supply = new_supply;
        self.lp_provision_log.push(entry);
        proof {
            assert(self.lp_provision_log@.drop_last() =~= old(self).lp_provision_log@);
        }
        Ok(shares)
    }

    /// Burns `share_amount` of the caller's `caller_shares` shares and pays out their
    /// part of the reserves: the PANX (approved, then sent; both failures ignored)
    /// and the AZERO (whose failure traps).  The log shows `caller_shares`.
    fn burn_and_pay(&mut self, env: &CallEnv, caller_shares: u128, share_amount: u128, a0_balance: u128, panx_balance: u128) -> (r:
        Result<Vec<PanxA0Call>, PanxA0Trap>)
        requires
            share_amount <= caller_shares,
            caller_shares == old(self).balances.get_or(env.caller, 0),
        ensures
            ({
                let caller = env.caller;
                let ts = old(self).total_supply;
                match (mul_div_spec(share_amount, a0_balance, ts), mul_div_spec(share_amount, panx_balance, ts)) {
                    (Some(a0_out), Some(panx_out)) => if ts < share_amount {
                        r == Err::<Vec<PanxA0Call>, PanxA0Trap>(PanxA0Trap::Overflow) && *final(self) == *old(self)
                    } else if env.now() > LAST_DATE_SECS {
                        r == Err::<Vec<PanxA0Call>, PanxA0Trap>(PanxA0Trap::DateOutOfRange) && *final(self) == *old(self)
                    } else {
                        &&& r matches Ok(calls)
                        &&& calls@ == seq![
                            PanxA0Call {
                                call: ChainCall::Psp22Approve { token: old(self).panx_psp22, spender: caller, amount: panx_out },
                                traps_on_failure: false,
                            },
                            PanxA0Call {
                                call: ChainCall::Psp22Transfer { token: old(self).panx_psp22, to: caller, amount: panx_out },
                                traps_on_failure: false,
                            },
                            PanxA0Call {
                                call: ChainCall::NativeTransfer { to: caller, amount: a0_out },
                                traps_on_failure: true,
                            },
                        ]
                        &&& final(self).balances@ == old(self).balances@.insert(caller, (caller_shares - share_amount) as u128)
                        &&& final(self).total_supply == ts - share_amount
                        &&& log_pushed(
                            final(self).lp_provision_log@,
                            old(self).lp_provision_log@,
                            lp_entry(panx_out, a0_out, caller_shares, utc_date_text(env.now()), ", type: REMOVE;"@),
                        )
                        &&& final(self).lp_providers == old(self).lp_providers
                        &&& final(self).trans_log == old(self).trans_log
                        &&& final(self).panx_volume_log == old(self).panx_volume_log
                        &&& final(self).a0_volume_log == old(self).a0_volume_log
                        &&& final(self).transasction_number == old(self).transasction_number
                        &&& final(self).manager == old(self).manager
                        &&& final(self).panx_psp22 == old(self).panx_psp22
                        &&& final(self).a0_reserve == old(self).a0_reserve
                        &&& final(self).panx_reserve == old(self).panx_reserve
                        &&& final(self).fee == old(self).fee
                    },
                    _ => r == Err::<Vec<PanxA0Call>, PanxA0Trap>(PanxA0Trap::Overflow) && *final(self) == *old(self),
                }
            }),
            old(self).shares_backed() ==> final(self).shares_backed(),
    {
        let caller = env.caller;
        let a0_out = match mul_div(share_amount, a0_balance, self.total_supply) {
            None => return Err(PanxA0Trap::Overflow),
            Some(v) => v,
        };
        let panx_out = match mul_div(share_amount, panx_balance, self.total_supply) {
            None => return Err(PanxA0Trap::Overflow),
            Some(v) => v,
        };
        if self.total_supply < share_amount {
            return Err(PanxA0Trap::Overflow);
        }
        let date = match block_date(env) {
            Err(t) => return Err(t),
            Ok(d) => d,
        };
        let entry = lp_entry_string(panx_out, a0_out, caller_shares, &date, ", type: REMOVE;");
        let ghost b0 = self.balances;
        self.balances.insert(caller, caller_shares - share_amount);
        proof {
            Mapping::<AccountId, u128>::lemma_total_insert(&b0, &self.balances, caller, (caller_shares - share_amount) as u128);
        }
        self.total_supply = self.total_supply - share_amount;
        self.lp_provision_log.push(entry);
        proof {
            assert(self.lp_provision_log@.drop_last() =~= old(self).lp_provision_log@);
        }
        let mut calls: Vec<PanxA0Call> = Vec::new();
        calls.push(
            PanxA0Call {
                call: ChainCall::Psp22Approve { token: self.panx_psp22, spender: caller, amount: panx_out },
                traps_on_failure: false,
            },
        );
        calls.push(
            PanxA0Call {
                call: ChainCall::Psp22Transfer { token: self.panx_psp22, to: caller, amount: panx_out },
                traps_on_failure: false,
            },
        );
        calls.push(PanxA0Call { call: ChainCall::NativeTransfer { to: caller, amount: a0_out }, traps_on_failure: true });
        Ok(calls)
    }

    /// The caller withdraws all its shares, against the balances `a0_balance` and
    /// `panx_balance`: they are burnt, and the calls pay out their part of the
    /// reserves.
    pub fn withdraw(&mut self, env: &CallEnv, a0_balance: u128, panx_balance: u128) -> (r: Result<
        Vec<PanxA0Call>,
        PanxA0Trap,
    >)
        ensures
            ({
                let caller = env.caller;
                let held = old(self).balances.get_or(caller, 0);
                let ts = old(self).total_supply;
                match (mul_div_spec(held, a0_balance, ts), mul_div_spec(held, panx_balance, ts)) {
                    (Some(a0_out), Some(panx_out)) => if ts < held {
                        r == Err::<Vec<PanxA0Call>, PanxA0Trap>(PanxA0Trap::Overflow) && *final(self) == *old(self)
                    } else if env.now() > LAST_DATE_SECS {
                        r == Err::<Vec<PanxA0Call>, PanxA0Trap>(PanxA0Trap::DateOutOfRange) && *final(self) == *old(self)
                    } else {
                        &&& r matches Ok(calls)
                        &&& calls@ == seq![
                            PanxA0Call {
                                call: ChainCall::Psp22Approve { token: old(self).panx_psp22, spender: caller, amount: panx_out },
                                traps_on_failure: false,
                            },
                            PanxA0Call {
                                call: ChainCall::Psp22Transfer { token: old(self).panx_psp22, to: caller, amount: panx_out },
                                traps_on_failure: false,
                            },
                            PanxA0Call {
                                call: ChainCall::NativeTransfer { to: caller, amount: a0_out },
                                traps_on_failure: true,
                            },
                        ]
                        &&& final(self).balances@ == old(self).balances@.insert(caller, 0)
                        &&& final(self).total_supply == ts - held
                        &&& log_pushed(
                            final(self).lp_provision_log@,
                            old(self).lp_provision_log@,
                            lp_entry(panx_out, a0_out, held, utc_date_text(env.now()), ", type: REMOVE;"@),
                        )
                        &&& final(self).lp_providers == old(self).lp_providers
                        &&& final(self).trans_log == old(self).trans_log
                        &&& final(self).panx_volume_log == old(self).panx_volume_log
                        &&& final(self).a0_volume_log == old(self).a0_volume_log
                        &&& final(self).transasction_number == old(self).transasction_number
                        &&& final(self).manager == old(self).manager
                        &&& final(self).panx_psp22 == old(self).panx_psp22
                        &&& final(self).fee == old(self).fee
                    },
                    _ => r == Err::<Vec<PanxA0Call>, PanxA0Trap>(PanxA0Trap::Overflow) && *final(self) == *old(self),
                }
            }),
            old(self).shares_backed() ==> final(self).shares_backed(),
    {
        let caller_shares = self.balances.get_or_default(&env.caller, 0);
        self.burn_and_pay(env, caller_shares, caller_shares, a0_balance, panx_balance)
    }

    /// The caller withdraws `share_amount` of its shares, against the balances
    /// `a0_balance` and `panx_balance`: they are burnt, and the calls pay out their
    /// part of the reserves.  The log shows all the shares the caller held.
    pub fn withdraw_specific_amount(&mut self, env: &CallEnv, share_amount: u128, a0_balance: u128, panx_balance: u128) -> (r:
        Result<Vec<PanxA0Call>, PanxA0Trap>)
        ensures
            ({
                let caller = env.caller;
                let held = old(self).balances.get_or(caller, 0);
                let ts = old(self).total_supply;
                if held < share_amount {
                    r == Err::<Vec<PanxA0Call>, PanxA0Trap>(PanxA0Trap::InsufficientShares) && *final(self) == *old(self)
                } else {
                    match (mul_div_spec(share_amount, a0_balance, ts), mul_div_spec(share_amount, panx_balance, ts)) {
                        (Some(a0_out), Some(panx_out)) => if ts < share_amount {
                            r == Err::<Vec<PanxA0Call>, PanxA0Trap>(PanxA0Trap::Overflow) && *final(self) == *old(self)
                        } else if env.now() > LAST_DATE_SECS {
                            r == Err::<Vec<PanxA0Call>, PanxA0Trap>(PanxA0Trap::DateOutOfRange) && *final(self)
                                == *old(self)
                        } else {
                            &&& r matches Ok(calls)
                            &&& calls@ == seq![
                                PanxA0Call {
                                    call: ChainCall::Psp22Approve { token: old(self).panx_psp22, spender: caller, amount: panx_out },
                                    traps_on_failure: false,
                                },
                                PanxA0Call {
                                    call: ChainCall::Psp22Transfer { token: old(self).panx_psp22, to: caller, amount: panx_out },
                                    traps_on_failure: false,
                                },
                                PanxA0Call {
                                    call: ChainCall::NativeTransfer { to: caller, amount: a0_out },
                                    traps_on_failure: true,
                                },
                            ]
                            &&& final(self).balances@ == old(self).balances@.insert(caller, (held - share_amount) as u128)
                            &&& final(self).total_supply == ts - share_amount
                            &&& log_pushed(
                                final(self).lp_provision_log@,
                                old(self).lp_provision_log@,
                                lp_entry(panx_out, a0_out, held, utc_date_text(env.now()), ", type: REMOVE;"@),
                            )
                            &&& final(self).lp_providers == old(self).lp_providers
                            &&& final(self).trans_log == old(self).trans_log
                            &&& final(self).panx_volume_log == old(self).panx_volume_log
                            &&& final(self).a0_volume_log == old(self).a0_volume_log
                            &&& final(self).transasction_number == old(self).transasction_number
                            &&& final(self).manager == old(self).manager
                            &&& final(self).panx_psp22 == old(self).panx_psp22
                            &&& final(self).fee == old(self).fee
                        },
                        _ => r == Err::<Vec<PanxA0Call>, PanxA0Trap>(PanxA0Trap::Overflow) && *final(self) == *old(self),
                    }
                }
            }),
            old(self).shares_backed() ==> final(self).shares_backed(),
    {
        let caller_shares = self.balances.get_or_default(&env.caller, 0);
        if caller_shares < share_amount {
            return Err(PanxA0Trap::InsufficientShares);
        }
        self.burn_and_pay(env, caller_shares, share_amount, a0_balance, panx_balance)
    }

    /// The AZERO and the PANX that `share_amount` shares are worth, in that order.
    pub fn get_withdraw_tokens_amount(&self, share_amount: u128, a0_balance: u128, panx_balance: u128) -> (r: Option<
        (u128, u128),
    >)
        ensures
            r == match (
                mul_div_spec(share_amount, a0_balance, self.total_supply),
                mul_div_spec(share_amount, panx_balance, self.total_supply),
            ) {
                (Some(a), Some(p)) => Some((a, p)),
                _ => None,
            },
    {
        let a = match mul_div(share_amount, a0_balance, self.total_supply) {
            None => return None,
            Some(a) => a,
        };
        let p = match mul_div(share_amount, panx_balance, self.total_supply) {
            None => return None,
            Some(p) => p,
        };
        Some((a, p))
    }

    /// The shares that a deposit of the AZERO sent and `panx_deposit_amount` PANX
    /// would mint.
    pub fn get_expected_lp_token_amount(&self, env: &CallEnv, panx_deposit_amount: u128, a0_balance: u128, panx_balance: u128) -> (r:
        Option<u128>)
        ensures
            r == deposit_shares_spec(
                env.transferred_value,
                panx_deposit_amount,
                a0_balance,
                panx_balance,
                self.total_supply,
            ),
    {
        deposit_shares(env.transferred_value, panx_deposit_amount, a0_balance, panx_balance, self.total_supply)
    }

    /// The PANX and the AZERO that the shares of `account_id` are worth, in that
    /// order.
    pub fn get_account_locked_tokens(&self, account_id: AccountId, a0_balance: u128, panx_balance: u128) -> (r: Option<
        (u128, u128),
    >)
        ensures
            ({
                let held = self.balances.get_or(account_id, 0);
                r == match (
                    mul_div_spec(held, panx_balance, self.total_supply),
                    mul_div_spec(held, a0_balance, self.total_supply),
                ) {
                    (Some(p), Some(a)) => Some((p, a)),
                    _ => None,
                }
            }),
    {
        let held = self.balances.get_or_default(&account_id, 0);
        let a = match mul_div(held, a0_balance, self.total_supply) {
            None => return None,
            Some(a) => a,
        };
        let p = match mul_div(held, panx_balance, self.total_supply) {
            None => return None,
            Some(p) => p,
        };
        Some((p, a))
    }

    /// The pair's own address.
    pub fn get_account_id(&self, env: &CallEnv) -> (r: AccountId)
        ensures
            r == env.account_id,
    {
        env.account_id
    }

    /// The liquidity log, entry after entry.
    pub fn get_lp_trans_log(&self) -> (r: String)
        ensures
            r@ == log_text(self.lp_provision_log@),
    {
        join_log(&self.lp_provision_log)
    }

    /// The price log, entry after entry.
    pub fn get_trans_log(&self) -> (r: String)
        ensures
            r@ == log_text(self.trans_log@),
    {
        join_log(&self.trans_log)
    }

    /// The PANX volume log, entry after entry.
    pub fn get_panx_volume_log(&self) -> (r: String)
        ensures
            r@ == log_text(self.panx_volume_log@),
    {
        join_log(&self.panx_volume_log)
    }

    /// The AZERO volume log, entry after entry.
    pub fn get_a0_volume_log(&self) -> (r: String)
        ensures
            r@ == log_text(self.a0_volume_log@),
    {
        join_log(&self.a0_volume_log)
    }

    /// The supply of shares.
    pub fn get_total_supply(&self) -> (r: u128)
        ensures
            r == self.total_supply,
    {
        self.total_supply
    }

    /// The shares of `of`.
    pub fn get_lp_token_of(&self, of: AccountId) -> (r: u128)
        ensures
            r == self.balances.get_or(of, 0),
    {
        self.balances.get_or_default(&of, 0)
    }

    /// The fee field.
    pub fn get_fee(&self) -> (r: u128)
        ensures
            r == self.fee,
    {
        self.fee
    }

    /// The block timestamp in seconds.
    pub fn get_current_timestamp(&self, env: &CallEnv) -> (r: u64)
        ensures
            r == env.now(),
    {
        env.current_timestamp()
    }

    /// The block's UTC date and time, as chrono writes it.
    pub fn get_current_timestamp_as_utc_string(&self, env: &CallEnv) -> (r: Result<String, PanxA0Trap>)
        ensures
            env.now() <= LAST_DATE_SECS ==> (r matches Ok(s) && s@ == utc_date_text(env.now())),
            env.now() > LAST_DATE_SECS ==> r == Err::<String, PanxA0Trap>(PanxA0Trap::DateOutOfRange),
    {
        block_date(env)
    }

    /// The number of trades.
    pub fn get_transactions_num(&self) -> (r: i64)
        ensures
            r == self.transasction_number,
    {
        self.transasction_number
    }

    /// The smaller of two values.
    pub fn _min(&self, val1: u128, val2: u128) -> (r: u128)
        ensures
            r == if val1 <= val2 {
                val1
            } else {
                val2
            },
    {
        if val1 <= val2 {
            val1
        } else {
            val2
        }
    }
}

/// A constant-product swap never pays out more than the reserve it pays from.
pub proof fn lemma_panx_swap_within_reserve(reserve_out: u128, amount_in: u128, reserve_in: u128)
    ensures
        swap_out_spec(reserve_out, amount_in, reserve_in) matches Some(o) ==> o <= reserve_out,
{
    if reserve_in + amount_in <= u128::MAX && reserve_out * amount_in <= u128::MAX && reserve_in + amount_in > 0 {
        if amount_in == 0 {
            assert(reserve_out * amount_in == 0);
        } else {
            crate::trading_pair_azero::lemma_mul_div_le(amount_in as int, reserve_out as int, reserve_in + amount_in);
        }
    }
}

/// A swap priced with its own impact pays no more than the reserve it pays from.
pub proof fn lemma_panx_impact_within_reserve(reserve_out: u128, value: u128, reserve_in: u128)
    ensures
        impact_spec(reserve_out, value, reserve_in) matches Some(o) ==> o <= reserve_out,
{
    if let Some(w) = with_lp_fee_spec(value) {
        if let Some(out) = swap_out_spec(reserve_out, w, reserve_in) {
            if let (Some(grown), Some(left)) = (sum_spec(reserve_in, value), diff_spec(reserve_out, out)) {
                if let Some(den) = sum_spec(grown, w) {
                    if w == 0 {
                        assert(left * w == 0) by (nonlinear_arith)
                            requires
                                w == 0,
                        ;
                    } else if den > 0 {
                        crate::trading_pair_azero::lemma_mul_div_le(w as int, left as int, den as int);
                        assert(left * w == w * left) by (nonlinear_arith);
                        assert(left * w / (den as int) <= left);
                        assert(left <= reserve_out);
                    }
                }
            }
        }
    }
}

/// All the shares stand for the whole pool: where the product fits, they are worth
/// every coin and token that the pair holds.
pub proof fn lemma_all_shares_take_whole_pool(pool: PanxA0, reserve: u128)
    requires
        pool.total_supply > 0,
    ensures
        mul_div_spec(pool.total_supply, reserve, pool.total_supply) matches Some(v) ==> v == reserve,
{
    vstd::arithmetic::div_mod::lemma_div_multiples_vanish(reserve as int, pool.total_supply as int);
}

/// A deposit into a pool that already has shares is worth no more than its part of
/// either reserve, and exactly its part of the reserve that it is the smaller part
/// of; where both parts can be computed, the deposit is worth something defined.
pub proof fn lemma_later_deposit_takes_the_smaller_part(
    d0: u128,
    d1: u128,
    a0_balance: u128,
    panx_balance: u128,
    total_supply: u128,
)
    requires
        total_supply > 0,
    ensures
        deposit_shares_spec(d0, d1, a0_balance, panx_balance, total_supply) matches Some(s) ==> {
            &&& a0_balance > 0 && panx_balance > 0
            &&& s <= d0 * total_supply / (a0_balance as int)
            &&& s <= d1 * total_supply / (panx_balance as int)
            &&& s == d0 * total_supply / (a0_balance as int) || s == d1 * total_supply / (panx_balance as int)
        },
        a0_balance > 0 && panx_balance > 0 && d0 * total_supply <= u128::MAX && d1 * total_supply <= u128::MAX
            ==> deposit_shares_spec(d0, d1, a0_balance, panx_balance, total_supply) is Some,
{
}

} // verus!
