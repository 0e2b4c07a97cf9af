use crate::decimal::{parse_u64, text_as_u64};
use crate::{
    check_success, decode_each, lemma_decode_each_err_stays, lemma_decode_each_step, viewed, Code,
    CodeView, RoliError,
};
use vstd::prelude::*;

verus! {

/// How much an item is sought after.
#[derive(Clone, Debug, PartialEq, Eq, PartialOrd, Ord, Hash, Default)]
pub enum Demand {
    /// No demand has been assigned.
    #[default]
    Unassigned,
    /// Hardly anyone wants the item.
    Terrible,
    /// Few want the item.
    Low,
    /// The item is wanted as much as most.
    Normal,
    /// Many want the item.
    High,
    /// Nearly everyone wants the item.
    Amazing,
}

/// Where the value of an item is heading.
#[derive(Clone, Debug, PartialEq, Eq, PartialOrd, Ord, Hash, Default)]
pub enum Trend {
    /// No trend has been assigned.
    #[default]
    Unassigned,
    /// The value is going down.
    Lowering,
    /// The value moves without direction.
    Unstable,
    /// The value stays where it is.
    Stable,
    /// The value is going up.
    Raising,
    /// The value goes up and down.
    Fluctuating,
}

impl Demand {
    /// The demand that a wire code stands for: `-1` for unassigned, `0` to
    /// `4` from terrible to amazing, and nothing for any other code.
    pub open spec fn of_code(code: int) -> Option<Demand> {
        if code == -1 {
            Some(Demand::Unassigned)
        } else if code == 0 {
            Some(Demand::Terrible)
        } else if code == 1 {
            Some(Demand::Low)
        } else if code == 2 {
            Some(Demand::Normal)
        } else if code == 3 {
            Some(Demand::High)
        } else if code == 4 {
            Some(Demand::Amazing)
        } else {
            None
        }
    }

    /// The wire code of a demand.
    pub open spec fn code(self) -> int {
        match self {
            Demand::Unassigned => -1,
            Demand::Terrible => 0,
            Demand::Low => 1,
            Demand::Normal => 2,
            Demand::High => 3,
            Demand::Amazing => 4,
        }
    }

    /// What a slot that holds a demand decodes to.
    pub open spec fn of_slot(slot: CodeView) -> Result<Demand, RoliError> {
        match slot.as_i64() {
            Ok(code) => match Demand::of_code(code as int) {
                Some(demand) => Ok(demand),
                None => Err(RoliError::MalformedResponse),
            },
            Err(e) => Err(e),
        }
    }

    /// Reads a wire code. A code outside the table is malformed: no
    /// variant stands in for it.
    pub fn from_code(code: i64) -> (r: Result<Demand, RoliError>)
        ensures
            r == match Demand::of_code(code as int) {
                Some(demand) => Ok::<Demand, RoliError>(demand),
                None => Err::<Demand, RoliError>(RoliError::MalformedResponse),
            },
    {
        match code {
            -1 => Ok(Demand::Unassigned),
            0 => Ok(Demand::Terrible),
            1 => Ok(Demand::Low),
            2 => Ok(Demand::Normal),
            3 => Ok(Demand::High),
            4 => Ok(Demand::Amazing),
            _ => Err(RoliError::MalformedResponse),
        }
    }

    /// The codes `-1` to `4` and the six demands correspond one to one, and
    /// no other code stands for a demand.
    pub proof fn lemma_codes_one_to_one(code: int, demand: Demand)
        ensures
            Demand::of_code(demand.code()) == Some(demand),
            Demand::of_code(code) is Some <==> -1 <= code <= 4,
            Demand::of_code(code) == Some(demand) <==> code == demand.code(),
    {
    }
}

impl Trend {
    /// The trend that a wire code stands for: `-1` for unassigned, `0` to `4`
    /// from lowering to fluctuating, and nothing for any other code.
    pub open spec fn of_code(code: int) -> Option<Trend> {
        if code == -1 {
            Some(Trend::Unassigned)
        } else if code == 0 {
            Some(Trend::Lowering)
        } else if code == 1 {
            Some(Trend::Unstable)
        } else if code == 2 {
            Some(Trend::Stable)
        } else if code == 3 {
            Some(Trend::Raising)
        } else if code == 4 {
            Some(Trend::Fluctuating)
        } else {
            None
        }
    }

    /// The wire code of a trend.
    pub open spec fn code(self) -> int {
        match self {
            Trend::Unassigned => -1,
            Trend::Lowering => 0,
            Trend::Unstable => 1,
            Trend::Stable => 2,
            Trend::Raising => 3,
            Trend::Fluctuating => 4,
        }
    }

    /// What a slot that holds a trend decodes to.
    pub open spec fn of_slot(slot: CodeView) -> Result<Trend, RoliError> {
        match slot.as_i64() {
            Ok(code) => match Trend::of_code(code as int) {
                Some(trend) => Ok(trend),
                None => Err(RoliError::MalformedResponse),
            },
            Err(e) => Err(e),
        }
    }

    /// Reads a wire code. A code outside the table is malformed: no
    /// variant stands in for it.
    pub fn from_code(code: i64) -> (r: Result<Trend, RoliError>)
        ensures
            r == match Trend::of_code(code as int) {
                Some(trend) => Ok::<Trend, RoliError>(trend),
                None => Err::<Trend, RoliError>(RoliError::MalformedResponse),
            },
    {
        match code {
            -1 => Ok(Trend::Unassigned),
            0 => Ok(Trend::Lowering),
            1 => Ok(Trend::Unstable),
            2 => Ok(Trend::Stable),
            3 => Ok(Trend::Raising),
            4 => Ok(Trend::Fluctuating),
            _ => Err(RoliError::MalformedResponse),
        }
    }

    /// The codes `-1` to `4` and the six trends correspond one to one, and no
    /// other code stands for a trend.
    pub proof fn lemma_codes_one_to_one(code: int, trend: Trend)
        ensures
            Trend::of_code(trend.code()) == Some(trend),
            Trend::of_code(code) is Some <==> -1 <= code <= 4,
            Trend::of_code(code) == Some(trend) <==> code == trend.code(),
    {
    }
}

/// What is known of one item.
#[derive(Clone, Debug, PartialEq, Eq, PartialOrd, Ord, Hash, Default)]
pub struct ItemDetails {
    /// The id of the item.
    pub item_id: u64,
    /// The name of the item.
    pub item_name: String,
    /// The short name the item goes by, if it has one.
    pub acronym: Option<String>,
    /// The recent average price of the item.
    pub rap: u64,
    /// Whether a value has been set for the item.
    pub valued: bool,
    /// The value of the item.
    pub value: u64,
    /// The demand for the item.
    pub demand: Demand,
    /// The trend of the item.
    pub trend: Trend,
    /// Whether the item is projected.
    pub projected: bool,
    /// Whether the item is hyped.
    pub hyped: bool,
    /// Whether the item is rare.
    pub rare: bool,
}

/// The mathematical content of an [`ItemDetails`].
pub struct ItemDetailsView {
    pub item_id: u64,
    pub item_name: Seq<char>,
    pub acronym: Option<Seq<char>>,
    pub rap: u64,
    pub valued: bool,
    pub value: u64,
    pub demand: Demand,
    pub trend: Trend,
    pub projected: bool,
    pub hyped: bool,
    pub rare: bool,
}

impl View for ItemDetails {
    type V = ItemDetailsView;

    open spec fn view(&self) -> ItemDetailsView {
        ItemDetailsView {
            item_id: self.item_id,
            item_name: self.item_name@,
            acronym: match self.acronym {
                Some(acronym) => Some(acronym@),
                None => None,
            },
            rap: self.rap,
            valued: self.valued,
            value: self.value,
            demand: self.demand,
            trend: self.trend,
            projected: self.projected,
            hyped: self.hyped,
            rare: self.rare,
        }
    }
}

impl DeepView for ItemDetails {
    type V = ItemDetailsView;

    open spec fn deep_view(&self) -> ItemDetailsView {
        self@
    }
}

impl ItemDetails {
    /// What the ten-slot array `[name, acronym, rap, valued, value, demand,
    /// trend, projected, hyped, rare]` of the item `item_id` decodes to.
    ///
    /// The name and the acronym are text however they were sent, and an empty
    /// acronym is none. Demand and trend go by their tables. The four flags,
    /// `valued` and the last three slots, are `1` for true and `-1` for
    /// false. Any other length, a numeric slot that is no integer, a code
    /// outside its table and a flag that is neither `1` nor `-1` are
    /// malformed.
    pub open spec fn decode(item_id: u64, codes: Seq<CodeView>) -> Result<
        ItemDetailsView,
        RoliError,
    > {
        if codes.len() != 10 {
            Err(RoliError::MalformedResponse)
        } else {
            match (
                codes[2].as_u64(),
                codes[3].as_flag(),
                codes[4].as_u64(),
                Demand::of_slot(codes[5]),
                Trend::of_slot(codes[6]),
                codes[7].as_flag(),
                codes[8].as_flag(),
                codes[9].as_flag(),
            ) {
                (
                    Ok(rap),
                    Ok(valued),
                    Ok(value),
                    Ok(demand),
                    Ok(trend),
                    Ok(projected),
                    Ok(hyped),
                    Ok(rare),
                ) => Ok(
                    ItemDetailsView {
                        item_id,
                        item_name: codes[0].text(),
                        acronym: if codes[1].text().len() == 0 {
                            None
                        } else {
                            Some(codes[1].text())
                        },
                        rap,
                        valued,
                        value,
                        demand,
                        trend,
                        projected,
                        hyped,
                        rare,
                    },
                ),
                _ => Err(RoliError::MalformedResponse),
            }
        }
    }

    /// What one entry of the keyed collection decodes to: the key must spell
    /// the item's id as an unsigned integer.
    pub open spec fn decode_entry(entry: (Seq<char>, Seq<CodeView>)) -> Result<
        ItemDetailsView,
        RoliError,
    > {
        match text_as_u64(entry.0) {
            Some(item_id) => ItemDetails::decode(item_id, entry.1),
            None => Err(RoliError::MalformedResponse),
        }
    }

    /// The entry decoder as a value, for decoding a whole collection.
    pub open spec fn entry_decoder() -> spec_fn((Seq<char>, Seq<CodeView>)) -> Result<
        ItemDetailsView,
        RoliError,
    > {
        |entry: (Seq<char>, Seq<CodeView>)| ItemDetails::decode_entry(entry)
    }

    /// Decodes the details of the item `item_id`.
    pub fn from_raw(item_id: u64, codes: Vec<Code>) -> (r: Result<Self, RoliError>)
        ensures
            viewed(r) == ItemDetails::decode(item_id, codes.deep_view()),
    {
        if codes.len() != 10 {
            return Err(RoliError::MalformedResponse);
        }
        assert(forall|i: int| 0 <= i < 10 ==> codes.deep_view()[i] == (#[trigger] codes@[i])@);
        let item_name = codes[0].to_string();
        let acronym_text = codes[1].to_string();
        let acronym = if acronym_text.as_str().is_empty() {
            None
        } else {
            Some(acronym_text)
        };
        let rap = codes[2].to_u64()?;
        let valued = codes[3].to_flag()?;
        let value = codes[4].to_u64()?;
        let demand = Demand::from_code(codes[5].to_i64()?)?;
        let trend = Trend::from_code(codes[6].to_i64()?)?;
        let projected = codes[7].to_flag()?;
        let hyped = codes[8].to_flag()?;
        let rare = codes[9].to_flag()?;
        Ok(
            ItemDetails {
                item_id,
                item_name,
                acronym,
                rap,
                valued,
                value,
                demand,
                trend,
                projected,
                hyped,
                rare,
            },
        )
    }
}

/// The envelope of the item details, as the JSON parser leaves it. The keyed
/// collection is held as its entries in the order they were read. On the wire
/// no key occurs twice ([`crate::keys_are_distinct`]); decoding does not
/// depend on that, since each entry is decoded by itself.
pub struct AllItemDetailsResponse {
    /// The envelope's own verdict on the request.
    pub success: bool,
    /// How many items the envelope says it holds.
    pub item_count: u64,
    /// One entry for each item: its id as text, and its positional array.
    pub items: Vec<(String, Vec<Code>)>,
}

impl AllItemDetailsResponse {
    /// What an envelope decodes to: nothing but the refusal when it reports
    /// failure, else its entries decoded in order, all or none.
    pub open spec fn decode(success: bool, items: Seq<(Seq<char>, Seq<CodeView>)>) -> Result<
        Seq<ItemDetailsView>,
        RoliError,
    > {
        if !success {
            Err(RoliError::RequestReturnedUnsuccessful)
        } else {
            decode_each(items, ItemDetails::entry_decoder())
        }
    }

    /// Decodes the whole collection.
    pub fn into_vec(self) -> (r: Result<Vec<ItemDetails>, RoliError>)
        ensures
            viewed(r) == Self::decode(self.success, self.items.deep_view()),
    {
        check_success(self.success)?;
        let ghost raws = self.items.deep_view();
        let mut item_details_vec: Vec<ItemDetails> = Vec::new();
        assert(raws.take(0) =~= Seq::empty());
        assert(item_details_vec.deep_view() =~= Seq::empty());
        for entry in it: self.items
            invariant
                self.success,
                raws == self.items.deep_view(),
                it.seq() == self.items@,
                decode_each(raws.take(it.index()), ItemDetails::entry_decoder()) == Ok::<
                    Seq<ItemDetailsView>,
                    RoliError,
                >(item_details_vec.deep_view()),
        {
            let ghost n = it.index();
            let ghost done = item_details_vec.deep_view();
            proof {
                lemma_decode_each_step(raws, ItemDetails::entry_decoder(), n);
            }
            assert(entry.deep_view() == raws[n]);
            let (key, codes) = entry;
            let decoded = match parse_u64(key.as_str()) {
                Some(item_id) => ItemDetails::from_raw(item_id, codes),
                None => Err(RoliError::MalformedResponse),
            };
            match decoded {
                Err(e) => {
                    proof {
                        lemma_decode_each_err_stays(raws, ItemDetails::entry_decoder(), n + 1);
                    }
                    return Err(e);
                },
                Ok(item_details) => {
                    item_details_vec.push(item_details);
                    assert(item_details_vec.deep_view() =~= done.push(item_details@));
                },
            }
        }
        assert(raws.take(raws.len() as int) =~= raws);
        Ok(item_details_vec)
    }
}

} // verus!
