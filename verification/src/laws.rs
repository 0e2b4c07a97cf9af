use crate::deals::{Activity, PriceUpdate, RapUpdate};
use crate::games::Game;
use crate::groups::GroupSearchResult;
use crate::items::{Demand, ItemDetails, ItemDetailsView, Trend};
use crate::market_activity::{sale_price, Sale};
use crate::players::PlayerSearchResult;
use crate::{CodeView, RoliError};
use vstd::prelude::*;

verus! {

/// A positional array whose length is not the arity of its entity is
/// malformed, whatever it holds: five slots for an activity, six for a sale,
/// seven for a group, two or three for a player, ten for an item and three
/// for a game.
pub proof fn lemma_wrong_arity_is_malformed(codes: Seq<CodeView>, id: u64)
    ensures
        codes.len() != 5 ==> Activity::decode(codes) == Err::<Activity, RoliError>(
            RoliError::MalformedResponse,
        ),
        codes.len() != 6 ==> Sale::decode(codes) == Err::<Sale, RoliError>(
            RoliError::MalformedResponse,
        ),
        codes.len() != 7 ==> GroupSearchResult::decode(codes) is Err
            && GroupSearchResult::decode(codes)->Err_0 == RoliError::MalformedResponse,
        codes.len() != 2 && codes.len() != 3 ==> PlayerSearchResult::decode(codes) is Err
            && PlayerSearchResult::decode(codes)->Err_0 == RoliError::MalformedResponse,
        codes.len() != 10 ==> ItemDetails::decode(id, codes) is Err && ItemDetails::decode(
            id,
            codes,
        )->Err_0 == RoliError::MalformedResponse,
        codes.len() != 3 ==> Game::decode(id, codes) is Err && Game::decode(id, codes)->Err_0
            == RoliError::MalformedResponse,
{
}

/// No positional decoder fails with anything but a malformed response.
pub proof fn lemma_records_fail_as_malformed(codes: Seq<CodeView>, id: u64)
    ensures
        Activity::decode(codes) matches Err(e) ==> e == RoliError::MalformedResponse,
        Sale::decode(codes) matches Err(e) ==> e == RoliError::MalformedResponse,
        GroupSearchResult::decode(codes) matches Err(e) ==> e == RoliError::MalformedResponse,
        PlayerSearchResult::decode(codes) matches Err(e) ==> e == RoliError::MalformedResponse,
        ItemDetails::decode(id, codes) matches Err(e) ==> e == RoliError::MalformedResponse,
        Game::decode(id, codes) matches Err(e) ==> e == RoliError::MalformedResponse,
{
}

/// An activity of five slots whose four slots read are integers decodes, and
/// its second slot alone picks the variant: `0` gives a price update whose
/// price is the fifth slot, anything else a rap update whose rap is the fifth
/// slot.
pub proof fn lemma_activity_kind(codes: Seq<CodeView>, kind: i64, timestamp: u64, item_id: u64, amount: u64)
    requires
        codes.len() == 5,
        codes[1].as_i64() == Ok::<i64, RoliError>(kind),
        codes[0].as_u64() == Ok::<u64, RoliError>(timestamp),
        codes[2].as_u64() == Ok::<u64, RoliError>(item_id),
        codes[4].as_u64() == Ok::<u64, RoliError>(amount),
    ensures
        kind == 0 ==> Activity::decode(codes) == Ok::<Activity, RoliError>(
            Activity::PriceUpdate(PriceUpdate { timestamp, item_id, price: amount }),
        ),
        kind != 0 ==> Activity::decode(codes) == Ok::<Activity, RoliError>(
            Activity::RapUpdate(RapUpdate { timestamp, item_id, rap: amount }),
        ),
{
}

/// A sale that decodes holds the price that follows from its two averages:
/// the new one when the old one is zero, else ten times the change on top of
/// the old one.
pub proof fn lemma_sale_price(codes: Seq<CodeView>)
    ensures
        Sale::decode(codes) matches Ok(sale) ==> sale.sale_price == sale_price(
            sale.old_rap as int,
            sale.new_rap as int,
        ) && (sale.old_rap == 0 ==> sale.sale_price == sale.new_rap) && (sale.old_rap != 0
            ==> sale.sale_price == 10 * (sale.new_rap - sale.old_rap) + sale.old_rap),
{
}

/// A flag is true for `1`, false for `-1`, and malformed for every other
/// integer.
pub proof fn lemma_flag_codes(code: i64)
    ensures
        CodeView::Integer(1i64).as_flag() == Ok::<bool, RoliError>(true),
        CodeView::Integer(-1i64).as_flag() == Ok::<bool, RoliError>(false),
        code != 1 && code != -1 ==> CodeView::Integer(code).as_flag() == Err::<bool, RoliError>(
            RoliError::MalformedResponse,
        ),
{
}

/// In an item of ten slots, a demand or trend code outside its table and a
/// flag that is neither `1` nor `-1`, `valued` among the flags, make the item
/// malformed; and an item that decodes holds, for each of these slots, what
/// the slot's code stands for.
pub proof fn lemma_item_codes(item_id: u64, codes: Seq<CodeView>)
    requires
        codes.len() == 10,
    ensures
        codes[3].as_flag() is Err || Demand::of_slot(codes[5]) is Err || Trend::of_slot(
            codes[6],
        ) is Err || codes[7].as_flag() is Err || codes[8].as_flag() is Err
            || codes[9].as_flag() is Err ==> ItemDetails::decode(item_id, codes) == Err::<
            ItemDetailsView,
            RoliError,
        >(RoliError::MalformedResponse),
        ItemDetails::decode(item_id, codes) matches Ok(item) ==> {
            &&& codes[3].as_flag() == Ok::<bool, RoliError>(item.valued)
            &&& codes[5].as_i64() matches Ok(code) && code == item.demand.code()
            &&& codes[6].as_i64() matches Ok(code) && code == item.trend.code()
            &&& codes[7].as_flag() == Ok::<bool, RoliError>(item.projected)
            &&& codes[8].as_flag() == Ok::<bool, RoliError>(item.hyped)
            &&& codes[9].as_flag() == Ok::<bool, RoliError>(item.rare)
        },
{
}

} // verus!
