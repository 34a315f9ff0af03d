//! SOL/USD quotes from the Pyth oracle.
use vstd::prelude::*;

verus! {

/// A Pyth price: `price * 10^expo` USD per SOL, with its confidence interval
/// and the time it was published.
#[derive(Clone, Copy, Debug, PartialEq, Eq, Structural)]
pub struct PriceQuote {
    pub price: i64,
    pub conf: u64,
    pub expo: i32,
    pub publish_time: i64,
}

/// Whether `quote_time_diff(quote, now)` can be computed in an `i64` and
/// negated there, as `PriceFeed::get_price_no_older_than` does.
pub open spec fn quote_time_in_range(quote: PriceQuote, now: i64) -> bool {
    i64::MIN < quote.publish_time - now <= i64::MAX
}

/// Distance in seconds between the quote's publish time and `now`.
pub open spec fn quote_age(quote: PriceQuote, now: i64) -> int {
    let d = quote.publish_time - now;
    if d < 0 { -d } else { d }
}

/// Whether the quote was published within `age` seconds of `now`, in either
/// direction.
pub open spec fn quote_is_fresh(quote: PriceQuote, now: i64, age: u64) -> bool {
    quote_age(quote, now) <= age
}

/// Calls `pyth_sdk::PriceFeed::get_price_no_older_than` on a feed whose
/// current price is `quote`. Per its source, it returns that price when the
/// absolute difference between the publish time and `current_time` is at most
/// `age`, and `None` otherwise; the difference is taken in `i64`, so its
/// overflow (and the negation of `i64::MIN`) is excluded by `requires`.
#[verifier::external_body]
pub(crate) fn price_no_older_than(quote: PriceQuote, current_time: i64, age: u64) -> (r: Option<PriceQuote>)
    requires
        quote_time_in_range(quote, current_time),
    ensures
        r == if quote_is_fresh(quote, current_time, age) {
            Some(quote)
        } else {
            None::<PriceQuote>
        },
{
    let price = pyth_sdk::Price {
        price: quote.price,
        conf: quote.conf,
        expo: quote.expo,
        publish_time: quote.publish_time,
    };
    let feed = pyth_sdk::PriceFeed::new(pyth_sdk::PriceIdentifier::default(), price, price);
    match feed.get_price_no_older_than(current_time, age) {
        Some(p) => Some(PriceQuote { price: p.price, conf: p.conf, expo: p.expo, publish_time: p.publish_time }),
        None => None,
    }
}

/// `10^n`.
pub open spec fn pow10(n: nat) -> int
    decreases n,
{
    if n == 0 {
        1
    } else {
        10 * pow10((n - 1) as nat)
    }
}

/// `pow10` is positive and grows with its exponent.
pub proof fn lemma_pow10_monotonic(m: nat, n: nat)
    requires
        m <= n,
    ensures
        0 < pow10(m) <= pow10(n),
    decreases n,
{
    if n > m {
        lemma_pow10_monotonic(m, (n - 1) as nat);
    } else if n > 0 {
        lemma_pow10_monotonic(0, (n - 1) as nat);
    }
}

/// `10^n` as a `u64`, or `None` when it does not fit.
pub fn checked_pow10(n: u32) -> (r: Option<u64>)
    ensures
        r is Some <==> pow10(n as nat) <= u64::MAX,
        r matches Some(v) ==> v == pow10(n as nat),
{
    let mut acc: u64 = 1;
    let mut i: u32 = 0;
    while i < n
        invariant
            i <= n,
            acc == pow10(i as nat),
        decreases n - i,
    {
        if acc > u64::MAX / 10 {
            proof {
                lemma_pow10_monotonic((i + 1) as nat, n as nat);
            }
            return None;
        }
        acc = acc * 10;
        i = i + 1;
    }
    Some(acc)
}

/// The SOL/USD price in micro-USD per whole SOL for a Pyth `price` with
/// exponent `expo`: `price * 10^(expo + 6)`, rounded down, or `None` when
/// the power of ten or the product does not fit in a `u64`.
pub open spec fn micro_usd_price(price: int, expo: int) -> Option<int> {
    let shift = expo + 6;
    if shift >= 0 {
        let p = pow10(shift as nat);
        if p > u64::MAX || price * p > u64::MAX {
            None
        } else {
            Some(price * p)
        }
    } else {
        let p = pow10((-shift) as nat);
        if p > u64::MAX {
            None
        } else {
            Some(price / p)
        }
    }
}

} // verus!
