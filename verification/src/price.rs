//! Prices, and the extrema of one product's order book.

use vstd::prelude::*;

verus! {

/// A price per unit, in fixed point: `PRICE_SCALE` units make one coin.
pub type Price = u64;

/// How many units of `Price` make one coin.
pub const PRICE_SCALE: u64 = 10;

/// What the lowest price of an empty list reads: 99 999 999 999 coins, more
/// than anything the market quotes.
pub const EMPTY_LOW: Price = 999_999_999_990;

/// What the highest price of an empty list reads.
pub const EMPTY_HIGH: Price = 0;

/// The order book of one product: the per-unit prices of its sell summary
/// and of its buy summary, in the order the market lists them.
#[derive(Debug)]
pub struct ProductSnapshot {
    pub sell_summary: Vec<Price>,
    pub buy_summary: Vec<Price>,
}

/// The four extrema of one order book.
#[derive(Clone, Copy, Debug, PartialEq, Eq, Structural)]
pub struct PriceExtrema {
    pub min_buy: Price,
    pub max_buy: Price,
    pub min_sell: Price,
    pub max_sell: Price,
}

/// The four figures shown to the user, each under its label.
#[derive(Clone, Copy, Debug, PartialEq, Eq, Structural)]
pub struct DisplayPrices {
    pub instant_buy: Price,
    pub instant_sell: Price,
    pub buy_order: Price,
    pub sell_order: Price,
}

/// The lowest of `EMPTY_LOW` and the prices in `prices`.
pub open spec fn lowest(prices: Seq<Price>) -> Price
    decreases prices.len(),
{
    if prices.len() == 0 {
        EMPTY_LOW
    } else {
        let rest = lowest(prices.drop_last());
        if prices.last() < rest {
            prices.last()
        } else {
            rest
        }
    }
}

/// The highest of `EMPTY_HIGH` and the prices in `prices`.
pub open spec fn highest(prices: Seq<Price>) -> Price
    decreases prices.len(),
{
    if prices.len() == 0 {
        EMPTY_HIGH
    } else {
        let rest = highest(prices.drop_last());
        if rest < prices.last() {
            prices.last()
        } else {
            rest
        }
    }
}

/// The extrema of an order book with the given sell and buy prices.
pub open spec fn extrema_of(sell: Seq<Price>, buy: Seq<Price>) -> PriceExtrema {
    PriceExtrema {
        min_buy: lowest(buy),
        max_buy: highest(buy),
        min_sell: lowest(sell),
        max_sell: highest(sell),
    }
}

/// `lowest(prices)` is a lower bound of the prices and of `EMPTY_LOW`, and
/// it is one of them.
pub proof fn lemma_lowest_is_least(prices: Seq<Price>)
    ensures
        lowest(prices) <= EMPTY_LOW,
        forall|i: int| 0 <= i < prices.len() ==> lowest(prices) <= #[trigger] prices[i],
        lowest(prices) == EMPTY_LOW || exists|i: int|
            0 <= i < prices.len() && #[trigger] prices[i] == lowest(prices),
    decreases prices.len(),
{
    if prices.len() > 0 {
        let front = prices.drop_last();
        lemma_lowest_is_least(front);
        assert forall|i: int| 0 <= i < prices.len() implies lowest(prices) <= #[trigger] prices[i] by {
            if i < front.len() {
                assert(front[i] == prices[i]);
            }
        }
        if lowest(prices) != EMPTY_LOW {
            if lowest(prices) == prices.last() {
                assert(prices[prices.len() - 1] == lowest(prices));
            } else {
                let i = choose|i: int| 0 <= i < front.len() && #[trigger] front[i] == lowest(front);
                assert(prices[i] == lowest(prices));
            }
        }
    }
}

/// `highest(prices)` is an upper bound of the prices and of `EMPTY_HIGH`,
/// and it is one of them.
pub proof fn lemma_highest_is_greatest(prices: Seq<Price>)
    ensures
        highest(prices) >= EMPTY_HIGH,
        forall|i: int| 0 <= i < prices.len() ==> highest(prices) >= #[trigger] prices[i],
        highest(prices) == EMPTY_HIGH || exists|i: int|
            0 <= i < prices.len() && #[trigger] prices[i] == highest(prices),
    decreases prices.len(),
{
    if prices.len() > 0 {
        let front = prices.drop_last();
        lemma_highest_is_greatest(front);
        assert forall|i: int| 0 <= i < prices.len() implies highest(prices) >= #[trigger] prices[i] by {
            if i < front.len() {
                assert(front[i] == prices[i]);
            }
        }
        if highest(prices) != EMPTY_HIGH {
            if highest(prices) == prices.last() {
                assert(prices[prices.len() - 1] == highest(prices));
            } else {
                let i = choose|i: int| 0 <= i < front.len() && #[trigger] front[i] == highest(front);
                assert(prices[i] == highest(prices));
            }
        }
    }
}

/// The lowest price in `prices`, or `EMPTY_LOW` where none is below it.
pub fn lowest_price(prices: &Vec<Price>) -> (low: Price)
    ensures
        low == lowest(prices@),
{
    let mut low: Price = EMPTY_LOW;
    let mut i: usize = 0;
    while i < prices.len()
        invariant
            i <= prices.len(),
            low == lowest(prices@.take(i as int)),
        decreases prices.len() - i,
    {
        assert(prices@.take(i + 1).drop_last() =~= prices@.take(i as int));
        if low > prices[i] {
            low = prices[i];
        }
        i += 1;
    }
    assert(prices@.take(i as int) =~= prices@);
    low
}

/// The highest price in `prices`, or `EMPTY_HIGH` where the list is empty.
pub fn highest_price(prices: &Vec<Price>) -> (high: Price)
    ensures
        high == highest(prices@),
{
    let mut high: Price = EMPTY_HIGH;
    let mut i: usize = 0;
    while i < prices.len()
        invariant
            i <= prices.len(),
            high == highest(prices@.take(i as int)),
        decreases prices.len() - i,
    {
        assert(prices@.take(i + 1).drop_last() =~= prices@.take(i as int));
        if high < prices[i] {
            high = prices[i];
        }
        i += 1;
    }
    assert(prices@.take(i as int) =~= prices@);
    high
}

/// Scans both sides of an order book for their lowest and highest price.
///
/// An empty side yields `EMPTY_LOW` and `EMPTY_HIGH`; nothing fails.
pub fn extract(snapshot: &ProductSnapshot) -> (extrema: PriceExtrema)
    ensures
        extrema == extrema_of(snapshot.sell_summary@, snapshot.buy_summary@),
{
    let min_sell = lowest_price(&snapshot.sell_summary);
    let max_sell = highest_price(&snapshot.sell_summary);
    let min_buy = lowest_price(&snapshot.buy_summary);
    let max_buy = highest_price(&snapshot.buy_summary);
    PriceExtrema { min_buy, max_buy, min_sell, max_sell }
}

impl PriceExtrema {
    /// What each label of the display shows.
    pub open spec fn spec_display(self) -> DisplayPrices {
        DisplayPrices {
            instant_buy: self.min_buy,
            instant_sell: self.max_sell,
            buy_order: self.max_sell,
            sell_order: self.min_buy,
        }
    }

    /// The figures shown under the four labels: the instant buy price and
    /// the sell order price are the lowest buy price, the instant sell price
    /// and the buy order price are the highest sell price.
    #[verifier::when_used_as_spec(spec_display)]
    pub fn display(self) -> (shown: DisplayPrices)
        ensures
            shown == self.spec_display(),
    {
        DisplayPrices {
            instant_buy: self.min_buy,
            instant_sell: self.max_sell,
            buy_order: self.max_sell,
            sell_order: self.min_buy,
        }
    }

    /// The `(buy, sell)` pair recorded in the history for this tick.
    pub open spec fn spec_sample(self) -> (Price, Price) {
        (self.min_buy, self.max_sell)
    }

    /// The `(buy, sell)` pair recorded in the history for this tick: the
    /// lowest buy price and the highest sell price.
    #[verifier::when_used_as_spec(spec_sample)]
    pub fn sample(self) -> (pair: (Price, Price))
        ensures
            pair == self.spec_sample(),
    {
        (self.min_buy, self.max_sell)
    }
}

} // verus!
