//! A snapshot of the whole market, and the search for one product in it.
//!
//! The market answers every request with its entire catalog. The product
//! that the dashboard follows is picked out of it by its exact identifier.

use crate::price::ProductSnapshot;
use vstd::prelude::*;

verus! {

/// One product of the catalog: its identifier and its order book.
#[derive(Debug)]
pub struct CatalogEntry {
    pub product_id: String,
    pub snapshot: ProductSnapshot,
}

/// The order books of all products, as one request returned them.
///
/// Identifiers are meant to be distinct. Where one occurs twice, its first
/// entry counts.
#[derive(Debug)]
pub struct OrderBookSnapshot {
    pub products: Vec<CatalogEntry>,
}

/// The index of the first entry of `products` whose identifier is exactly
/// `product_id`, if there is one.
pub open spec fn position(products: Seq<CatalogEntry>, product_id: Seq<char>) -> Option<int>
    decreases products.len(),
{
    if products.len() == 0 {
        None
    } else {
        match position(products.drop_last(), product_id) {
            Some(i) => Some(i),
            None => if products.last().product_id@ == product_id {
                Some(products.len() - 1)
            } else {
                None
            },
        }
    }
}

/// `position` finds an entry with the identifier asked for, and none comes
/// before it; it finds nothing only where no entry has that identifier.
pub proof fn lemma_position(products: Seq<CatalogEntry>, product_id: Seq<char>)
    ensures
        match position(products, product_id) {
            Some(i) => {
                &&& 0 <= i < products.len()
                &&& products[i].product_id@ == product_id
                &&& forall|j: int| 0 <= j < i ==> (#[trigger] products[j]).product_id@ != product_id
            },
            None => forall|j: int|
                0 <= j < products.len() ==> (#[trigger] products[j]).product_id@ != product_id,
        },
    decreases products.len(),
{
    if products.len() > 0 {
        let front = products.drop_last();
        lemma_position(front, product_id);
        assert forall|j: int| 0 <= j < front.len() implies front[j] == products[j] by {}
        match position(products, product_id) {
            Some(i) => {
                assert forall|j: int| 0 <= j < i implies (#[trigger] products[j]).product_id@
                    != product_id by {
                    assert(front[j] == products[j]);
                }
            },
            None => {
                assert forall|j: int| 0 <= j < products.len() implies (
                #[trigger] products[j]).product_id@ != product_id by {
                    if j < front.len() {
                        assert(front[j] == products[j]);
                    }
                }
            },
        }
    }
}

impl OrderBookSnapshot {
    /// The index of the entry for `product_id`, or `None` where the catalog
    /// has no product of exactly that identifier.
    pub fn find(&self, product_id: &str) -> (found: Option<usize>)
        ensures
            match found {
                Some(i) => {
                    &&& i < self.products.len()
                    &&& self.products[i as int].product_id@ == product_id@
                    &&& position(self.products@, product_id@) == Some(i as int)
                },
                None => position(self.products@, product_id@) is None,
            },
    {
        let wanted = String::from_str(product_id);
        let mut i: usize = 0;
        while i < self.products.len()
            invariant
                i <= self.products.len(),
                wanted@ == product_id@,
                position(self.products@.take(i as int), product_id@) is None,
            decreases self.products.len() - i,
        {
            assert(self.products@.take(i + 1).drop_last() =~= self.products@.take(i as int));
            if self.products[i].product_id == wanted {
                proof {
                    lemma_position_of_prefix(self.products@, product_id@, i + 1);
                }
                return Some(i);
            }
            i += 1;
        }
        assert(self.products@.take(i as int) =~= self.products@);
        None
    }

    /// The order book of `product_id`, or `None` where the catalog has no
    /// product of exactly that identifier.
    pub fn lookup(&self, product_id: &str) -> (found: Option<&ProductSnapshot>)
        ensures
            match found {
                Some(snapshot) => {
                    &&& position(self.products@, product_id@) is Some
                    &&& *snapshot == self.products@[position(
                        self.products@,
                        product_id@,
                    )->0].snapshot
                },
                None => position(self.products@, product_id@) is None,
            },
    {
        match self.find(product_id) {
            Some(i) => {
                proof {
                    lemma_position(self.products@, product_id@);
                }
                Some(&self.products[i].snapshot)
            },
            None => None,
        }
    }
}

/// What is found in the first `end` entries of a catalog is found in the
/// whole catalog.
proof fn lemma_position_of_prefix(products: Seq<CatalogEntry>, product_id: Seq<char>, end: int)
    requires
        0 <= end <= products.len(),
        position(products.take(end), product_id) is Some,
    ensures
        position(products, product_id) == position(products.take(end), product_id),
    decreases products.len() - end,
{
    if end < products.len() {
        assert(products.take(end + 1).drop_last() =~= products.take(end));
        lemma_position_of_prefix(products, product_id, end + 1);
    } else {
        assert(products.take(end) =~= products);
    }
}

} // verus!
