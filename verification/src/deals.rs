use crate::{
    check_success, decode_each, lemma_decode_each_err_stays, lemma_decode_each_step, viewed, Code,
    CodeView, RoliError,
};
use vstd::prelude::*;

verus! {

/// A new price of an item on the deals page.
#[derive(Copy, Clone, Eq, PartialEq, Ord, PartialOrd, Hash, Debug, Default)]
pub struct PriceUpdate {
    /// When the activity happened, in unix time.
    pub timestamp: u64,
    /// The item that is for sale.
    pub item_id: u64,
    /// The price the item is offered at.
    pub price: u64,
}

/// A new recent average price of an item on the deals page.
#[derive(Copy, Clone, Eq, PartialEq, Ord, PartialOrd, Hash, Debug, Default)]
pub struct RapUpdate {
    /// When the activity happened, in unix time.
    pub timestamp: u64,
    /// The item whose average changed.
    pub item_id: u64,
    /// The item's new recent average price.
    pub rap: u64,
}

/// One element of the deals activity feed.
#[derive(Copy, Clone, Eq, PartialEq, Ord, PartialOrd, Hash, Debug)]
pub enum Activity {
    /// The element reports a price.
    PriceUpdate(PriceUpdate),
    /// The element reports a recent average price.
    RapUpdate(RapUpdate),
}

impl View for Activity {
    type V = Activity;

    open spec fn view(&self) -> Activity {
        *self
    }
}

impl DeepView for Activity {
    type V = Activity;

    open spec fn deep_view(&self) -> Activity {
        *self
    }
}

impl Activity {
    /// What a five-slot array `[timestamp, kind, item id, unused, amount]`
    /// decodes to. Kind `0` makes the amount a price, any other kind makes it
    /// a recent average price. Any other length, and any of the four slots
    /// read that is not an integer, is malformed.
    pub open spec fn decode(codes: Seq<CodeView>) -> Result<Activity, RoliError> {
        if codes.len() != 5 {
            Err(RoliError::MalformedResponse)
        } else {
            match (codes[1].as_i64(), codes[0].as_u64(), codes[2].as_u64(), codes[4].as_u64()) {
                (Ok(kind), Ok(timestamp), Ok(item_id), Ok(amount)) => Ok(
                    if kind == 0 {
                        Activity::PriceUpdate(PriceUpdate { timestamp, item_id, price: amount })
                    } else {
                        Activity::RapUpdate(RapUpdate { timestamp, item_id, rap: amount })
                    },
                ),
                _ => Err(RoliError::MalformedResponse),
            }
        }
    }

    /// The decoder as a value, for decoding a whole feed.
    pub open spec fn decoder() -> spec_fn(Seq<CodeView>) -> Result<Activity, RoliError> {
        |codes: Seq<CodeView>| Activity::decode(codes)
    }

    /// Decodes one element of the activity feed.
    pub fn from_raw(codes: Vec<Code>) -> (r: Result<Self, RoliError>)
        ensures
            r == Activity::decode(codes.deep_view()),
    {
        if codes.len() != 5 {
            return Err(RoliError::MalformedResponse);
        }
        assert(codes.deep_view()[0] == codes@[0]@);
        assert(codes.deep_view()[1] == codes@[1]@);
        assert(codes.deep_view()[2] == codes@[2]@);
        assert(codes.deep_view()[4] == codes@[4]@);
        let is_price_update = codes[1].to_i64()? == 0;
        let timestamp = codes[0].to_u64()?;
        let item_id = codes[2].to_u64()?;
        if is_price_update {
            let price = codes[4].to_u64()?;
            Ok(Activity::PriceUpdate(PriceUpdate { timestamp, item_id, price }))
        } else {
            let rap = codes[4].to_u64()?;
            Ok(Activity::RapUpdate(RapUpdate { timestamp, item_id, rap }))
        }
    }
}

/// The envelope of the deals activity feed, as the JSON parser leaves it.
pub struct DealsActivityResponse {
    /// The envelope's own verdict on the request.
    pub success: bool,
    /// The feed, one positional array for each activity.
    pub activities: Vec<Vec<Code>>,
}

impl DealsActivityResponse {
    /// What an envelope decodes to: nothing but the refusal when it reports
    /// failure, else its activities decoded in order, all or none.
    pub open spec fn decode(success: bool, activities: Seq<Seq<CodeView>>) -> Result<
        Seq<Activity>,
        RoliError,
    > {
        if !success {
            Err(RoliError::RequestReturnedUnsuccessful)
        } else {
            decode_each(activities, Activity::decoder())
        }
    }

    /// Decodes the whole feed.
    pub fn into_vec(self) -> (r: Result<Vec<Activity>, RoliError>)
        ensures
            viewed(r) == Self::decode(self.success, self.activities.deep_view()),
    {
        check_success(self.success)?;
        let ghost raws = self.activities.deep_view();
        let mut activities: Vec<Activity> = Vec::new();
        assert(raws.take(0) =~= Seq::empty());
        assert(activities.deep_view() =~= Seq::empty());
        for raw in it: self.activities
            invariant
                self.success,
                raws == self.activities.deep_view(),
                it.seq() == self.activities@,
                decode_each(raws.take(it.index()), Activity::decoder()) == Ok::<
                    Seq<Activity>,
                    RoliError,
                >(activities.deep_view()),
        {
            let ghost n = it.index();
            let ghost done = activities.deep_view();
            proof {
                lemma_decode_each_step(raws, Activity::decoder(), n);
            }
            assert(raw.deep_view() == raws[n]);
            match Activity::from_raw(raw) {
                Err(e) => {
                    proof {
                        lemma_decode_each_err_stays(raws, Activity::decoder(), n + 1);
                    }
                    return Err(e);
                },
                Ok(activity) => {
                    activities.push(activity);
                    assert(activities.deep_view() =~= done.push(activity));
                },
            }
        }
        assert(raws.take(raws.len() as int) =~= raws);
        Ok(activities)
    }
}

} // verus!
