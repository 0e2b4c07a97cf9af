use crate::{
    check_success, decode_each, lemma_decode_each_err_stays, lemma_decode_each_step, viewed, Code,
    CodeView, RoliError,
};
use vstd::prelude::*;

verus! {

/// The price an item was sold at, from its recent average price before and
/// after the sale: the new average itself when there was none before, else
/// ten times the change added to the old average.
pub open spec fn sale_price(old_rap: int, new_rap: int) -> int {
    if old_rap == 0 {
        new_rap
    } else {
        10 * (new_rap - old_rap) + old_rap
    }
}

/// The sale price is a number that a sale can hold: not negative, and within
/// 64 bits.
pub open spec fn sale_price_fits(old_rap: int, new_rap: int) -> bool {
    0 <= sale_price(old_rap, new_rap) <= u64::MAX
}

/// Computes the price an item was sold at.
pub fn calculate_sale_price(old_rap: u64, new_rap: u64) -> (price: u64)
    requires
        sale_price_fits(old_rap as int, new_rap as int),
    ensures
        price == sale_price(old_rap as int, new_rap as int),
{
    if old_rap == 0 {
        return new_rap;
    }
    let change: i128 = new_rap as i128 - old_rap as i128;
    let price: i128 = 10 * change + old_rap as i128;
    price as u64
}

/// Computes the price an item was sold at, where that is a number a sale can
/// hold.
pub fn checked_sale_price(old_rap: u64, new_rap: u64) -> (price: Option<u64>)
    ensures
        price == if sale_price_fits(old_rap as int, new_rap as int) {
            Some(sale_price(old_rap as int, new_rap as int) as u64)
        } else {
            None
        },
{
    if old_rap != 0 {
        let change: i128 = new_rap as i128 - old_rap as i128;
        let price: i128 = 10 * change + old_rap as i128;
        if price < 0 || price > u64::MAX as i128 {
            return None;
        }
    }
    Some(calculate_sale_price(old_rap, new_rap))
}

/// The sale of a limited item.
#[derive(Clone, Debug, PartialEq, Eq, PartialOrd, Ord, Hash, Default)]
pub struct Sale {
    /// The item that was sold.
    pub item_id: u64,
    /// The item's recent average price before the sale.
    pub old_rap: u64,
    /// The item's recent average price after the sale.
    pub new_rap: u64,
    /// The price the item was sold at.
    pub sale_price: u64,
    /// The id of the sale.
    pub sale_id: u64,
    /// When the sale was seen, in unix time.
    pub timestamp: u64,
}

impl View for Sale {
    type V = Sale;

    open spec fn view(&self) -> Sale {
        *self
    }
}

impl DeepView for Sale {
    type V = Sale;

    open spec fn deep_view(&self) -> Sale {
        *self
    }
}

impl Sale {
    /// What a six-slot array `[timestamp, kind, item id, old rap, new rap,
    /// sale id]` decodes to. The kind must be `1`. The sale price is not
    /// sent: it follows from the two averages, and must be a number a sale
    /// can hold. Any other length, kind or price, and any slot that is not an
    /// integer, is malformed.
    pub open spec fn decode(codes: Seq<CodeView>) -> Result<Sale, RoliError> {
        if codes.len() != 6 {
            Err(RoliError::MalformedResponse)
        } else {
            match (
                codes[1].as_i64(),
                codes[0].as_u64(),
                codes[2].as_u64(),
                codes[3].as_u64(),
                codes[4].as_u64(),
                codes[5].as_u64(),
            ) {
                (
                    Ok(kind),
                    Ok(timestamp),
                    Ok(item_id),
                    Ok(old_rap),
                    Ok(new_rap),
                    Ok(sale_id),
                ) => if kind == 1 && sale_price_fits(old_rap as int, new_rap as int) {
                    Ok(
                        Sale {
                            item_id,
                            old_rap,
                            new_rap,
                            sale_price: sale_price(old_rap as int, new_rap as int) as u64,
                            sale_id,
                            timestamp,
                        },
                    )
                } else {
                    Err(RoliError::MalformedResponse)
                },
                _ => Err(RoliError::MalformedResponse),
            }
        }
    }

    /// The decoder as a value, for decoding a whole feed.
    pub open spec fn decoder() -> spec_fn(Seq<CodeView>) -> Result<Sale, RoliError> {
        |codes: Seq<CodeView>| Sale::decode(codes)
    }

    /// Decodes one sale.
    pub fn from_raw(codes: Vec<Code>) -> (r: Result<Self, RoliError>)
        ensures
            r == Sale::decode(codes.deep_view()),
    {
        if codes.len() != 6 {
            return Err(RoliError::MalformedResponse);
        }
        assert(forall|i: int| 0 <= i < 6 ==> codes.deep_view()[i] == (#[trigger] codes@[i])@);
        let activity_type = codes[1].to_i64()?;
        let timestamp = codes[0].to_u64()?;
        let item_id = codes[2].to_u64()?;
        let old_rap = codes[3].to_u64()?;
        let new_rap = codes[4].to_u64()?;
        let sale_id = codes[5].to_u64()?;
        if activity_type != 1 {
            return Err(RoliError::MalformedResponse);
        }
        match checked_sale_price(old_rap, new_rap) {
            Some(sale_price) => Ok(
                Sale { item_id, old_rap, new_rap, sale_price, sale_id, timestamp },
            ),
            None => Err(RoliError::MalformedResponse),
        }
    }
}

/// The envelope of the recent sales, as the JSON parser leaves it.
pub struct RecentSalesResponse {
    /// The envelope's own verdict on the request.
    pub success: bool,
    /// The feed, one positional array for each sale.
    pub activities: Vec<Vec<Code>>,
    /// How many sales the envelope says it holds.
    pub activities_count: u64,
}

impl RecentSalesResponse {
    /// What an envelope decodes to: nothing but the refusal when it reports
    /// failure, else its sales decoded in order, all or none.
    pub open spec fn decode(success: bool, activities: Seq<Seq<CodeView>>) -> Result<
        Seq<Sale>,
        RoliError,
    > {
        if !success {
            Err(RoliError::RequestReturnedUnsuccessful)
        } else {
            decode_each(activities, Sale::decoder())
        }
    }

    /// Decodes the whole feed.
    pub fn into_vec(self) -> (r: Result<Vec<Sale>, RoliError>)
        ensures
            viewed(r) == Self::decode(self.success, self.activities.deep_view()),
    {
        check_success(self.success)?;
        let ghost raws = self.activities.deep_view();
        let mut sales: Vec<Sale> = Vec::new();
        assert(raws.take(0) =~= Seq::empty());
        assert(sales.deep_view() =~= Seq::empty());
        for raw in it: self.activities
            invariant
                self.success,
                raws == self.activities.deep_view(),
                it.seq() == self.activities@,
                decode_each(raws.take(it.index()), Sale::decoder()) == Ok::<Seq<Sale>, RoliError>(
                    sales.deep_view(),
                ),
        {
            let ghost n = it.index();
            let ghost done = sales.deep_view();
            proof {
                lemma_decode_each_step(raws, Sale::decoder(), n);
            }
            assert(raw.deep_view() == raws[n]);
            match Sale::from_raw(raw) {
                Err(e) => {
                    proof {
                        lemma_decode_each_err_stays(raws, Sale::decoder(), n + 1);
                    }
                    return Err(e);
                },
                Ok(sale) => {
                    sales.push(sale);
                    assert(sales.deep_view() =~= done.push(sale));
                },
            }
        }
        assert(raws.take(raws.len() as int) =~= raws);
        Ok(sales)
    }
}

} // verus!
