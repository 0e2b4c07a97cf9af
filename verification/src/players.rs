use crate::decimal::{parse_u64, text_as_u64};
use crate::{
    check_success, decode_each, lemma_decode_each_err_stays, lemma_decode_each_step, viewed, Code,
    CodeView, RoliError,
};
use vstd::prelude::*;

verus! {

/// A player found by the player search: just enough to tell who it is.
#[derive(Clone, Debug, PartialEq, Eq, PartialOrd, Ord, Hash, Default)]
pub struct PlayerSearchResult {
    /// The id of the player.
    pub user_id: u64,
    /// The name of the player.
    pub username: String,
}

/// The mathematical content of a [`PlayerSearchResult`].
pub struct PlayerSearchResultView {
    pub user_id: u64,
    pub username: Seq<char>,
}

impl View for PlayerSearchResult {
    type V = PlayerSearchResultView;

    open spec fn view(&self) -> PlayerSearchResultView {
        PlayerSearchResultView { user_id: self.user_id, username: self.username@ }
    }
}

impl DeepView for PlayerSearchResult {
    type V = PlayerSearchResultView;

    open spec fn deep_view(&self) -> PlayerSearchResultView {
        self@
    }
}

impl PlayerSearchResult {
    /// What an array `[id, name]` or `[id, name, unused]` decodes to. The
    /// third slot, when it is there, is not read. Any other length, and an id
    /// that is not an integer, is malformed.
    pub open spec fn decode(codes: Seq<CodeView>) -> Result<PlayerSearchResultView, RoliError> {
        if codes.len() != 2 && codes.len() != 3 {
            Err(RoliError::MalformedResponse)
        } else {
            match codes[0].as_u64() {
                Ok(user_id) => Ok(PlayerSearchResultView { user_id, username: codes[1].text() }),
                Err(_) => Err(RoliError::MalformedResponse),
            }
        }
    }

    /// The decoder as a value, for decoding a whole result list.
    pub open spec fn decoder() -> spec_fn(Seq<CodeView>) -> Result<
        PlayerSearchResultView,
        RoliError,
    > {
        |codes: Seq<CodeView>| PlayerSearchResult::decode(codes)
    }

    /// Decodes one search result.
    pub fn from_raw(codes: Vec<Code>) -> (r: Result<Self, RoliError>)
        ensures
            viewed(r) == PlayerSearchResult::decode(codes.deep_view()),
    {
        if codes.len() != 2 && codes.len() != 3 {
            return Err(RoliError::MalformedResponse);
        }
        assert(forall|i: int| 0 <= i < 2 ==> codes.deep_view()[i] == (#[trigger] codes@[i])@);
        let user_id = codes[0].to_u64()?;
        let username = codes[1].to_string();
        Ok(PlayerSearchResult { user_id, username })
    }
}

/// The envelope of a player search, as the JSON parser leaves it.
pub struct PlayerSearchResponse {
    /// The envelope's own verdict on the request.
    pub success: bool,
    /// How many players the envelope says it holds.
    pub result_count: i64,
    /// The results, one positional array for each player.
    pub players: Vec<Vec<Code>>,
}

impl PlayerSearchResponse {
    /// What an envelope decodes to: nothing but the refusal when it reports
    /// failure, else its players decoded in order, all or none.
    pub open spec fn decode(success: bool, players: Seq<Seq<CodeView>>) -> Result<
        Seq<PlayerSearchResultView>,
        RoliError,
    > {
        if !success {
            Err(RoliError::RequestReturnedUnsuccessful)
        } else {
            decode_each(players, PlayerSearchResult::decoder())
        }
    }

    /// Decodes the whole result list.
    pub fn into_vec(self) -> (r: Result<Vec<PlayerSearchResult>, RoliError>)
        ensures
            viewed(r) == Self::decode(self.success, self.players.deep_view()),
    {
        check_success(self.success)?;
        let ghost raws = self.players.deep_view();
        let mut search_outputs: Vec<PlayerSearchResult> = Vec::new();
        assert(raws.take(0) =~= Seq::empty());
        assert(search_outputs.deep_view() =~= Seq::empty());
        for raw in it: self.players
            invariant
                self.success,
                raws == self.players.deep_view(),
                it.seq() == self.players@,
                decode_each(raws.take(it.index()), PlayerSearchResult::decoder()) == Ok::<
                    Seq<PlayerSearchResultView>,
                    RoliError,
                >(search_outputs.deep_view()),
        {
            let ghost n = it.index();
            let ghost done = search_outputs.deep_view();
            proof {
                lemma_decode_each_step(raws, PlayerSearchResult::decoder(), n);
            }
            assert(raw.deep_view() == raws[n]);
            match PlayerSearchResult::from_raw(raw) {
                Err(e) => {
                    proof {
                        lemma_decode_each_err_stays(raws, PlayerSearchResult::decoder(), n + 1);
                    }
                    return Err(e);
                },
                Ok(player) => {
                    search_outputs.push(player);
                    assert(search_outputs.deep_view() =~= done.push(player@));
                },
            }
        }
        assert(raws.take(raws.len() as int) =~= raws);
        Ok(search_outputs)
    }
}

/// Where a player is on the platform right now.
#[derive(Clone, Debug, PartialEq, Eq, PartialOrd, Ord, Hash)]
pub enum PresenceType {
    /// Where the player is cannot be told.
    Unavailable,
    /// The player is on the website.
    Website,
    /// The player is in a game.
    InGame,
    /// The player is in the studio.
    InStudio,
}

impl PresenceType {
    /// The presence that a wire code stands for: `0` to `3` go by the table,
    /// and every other code is read as unavailable.
    pub open spec fn of_code(code: u8) -> PresenceType {
        if code == 1 {
            PresenceType::Website
        } else if code == 2 {
            PresenceType::InGame
        } else if code == 3 {
            PresenceType::InStudio
        } else {
            PresenceType::Unavailable
        }
    }

    /// The wire code of a presence.
    pub open spec fn code(self) -> u8 {
        match self {
            PresenceType::Unavailable => 0,
            PresenceType::Website => 1,
            PresenceType::InGame => 2,
            PresenceType::InStudio => 3,
        }
    }

    /// Reads a wire code. This is the one table that takes a code it
    /// does not list: such a code means unavailable.
    pub fn from_u8(value: u8) -> (r: Self)
        ensures
            r == PresenceType::of_code(value),
    {
        match value {
            0 => PresenceType::Unavailable,
            1 => PresenceType::Website,
            2 => PresenceType::InGame,
            3 => PresenceType::InStudio,
            _ => PresenceType::Unavailable,
        }
    }

    /// The codes `0` to `3` and the four presences correspond one to one, and
    /// every other code is read as unavailable.
    pub proof fn lemma_codes_one_to_one(code: u8, presence: PresenceType)
        ensures
            PresenceType::of_code(presence.code()) == presence,
            code <= 3 ==> PresenceType::of_code(code).code() == code,
            code > 3 ==> PresenceType::of_code(code) == PresenceType::Unavailable,
    {
    }
}

/// A badge of a player.
#[derive(Clone, Debug, PartialEq, Eq, PartialOrd, Ord, Hash)]
pub struct Badge {
    /// The name of the badge.
    pub name: String,
    /// When the badge was earned, in unix time.
    pub timestamp_earned: u64,
}

/// The mathematical content of a [`Badge`].
pub struct BadgeView {
    pub name: Seq<char>,
    pub timestamp_earned: u64,
}

impl View for Badge {
    type V = BadgeView;

    open spec fn view(&self) -> BadgeView {
        BadgeView { name: self.name@, timestamp_earned: self.timestamp_earned }
    }
}

impl DeepView for Badge {
    type V = BadgeView;

    open spec fn deep_view(&self) -> BadgeView {
        self@
    }
}

/// An item a player owns, with every copy of it that the player owns.
#[derive(Clone, Debug, PartialEq, Eq, PartialOrd, Ord, Hash, Default)]
pub struct PlayerAsset {
    /// The id of the item.
    pub item_id: u64,
    /// The unique asset id of each copy.
    pub uaids: Vec<u64>,
}

/// The mathematical content of a [`PlayerAsset`].
pub struct PlayerAssetView {
    pub item_id: u64,
    pub uaids: Seq<u64>,
}

impl View for PlayerAsset {
    type V = PlayerAssetView;

    open spec fn view(&self) -> PlayerAssetView {
        PlayerAssetView { item_id: self.item_id, uaids: self.uaids@ }
    }
}

impl DeepView for PlayerAsset {
    type V = PlayerAssetView;

    open spec fn deep_view(&self) -> PlayerAssetView {
        self@
    }
}

impl PlayerAsset {
    /// What one entry of the ownership map decodes to: the key must spell the
    /// item's id as an unsigned integer.
    pub open spec fn decode_entry(entry: (Seq<char>, Seq<u64>)) -> Result<
        PlayerAssetView,
        RoliError,
    > {
        match text_as_u64(entry.0) {
            Some(item_id) => Ok(PlayerAssetView { item_id, uaids: entry.1 }),
            None => Err(RoliError::MalformedResponse),
        }
    }

    /// The entry decoder as a value, for decoding a whole inventory.
    pub open spec fn entry_decoder() -> spec_fn((Seq<char>, Seq<u64>)) -> Result<
        PlayerAssetView,
        RoliError,
    > {
        |entry: (Seq<char>, Seq<u64>)| PlayerAsset::decode_entry(entry)
    }

    /// Decodes one entry of the ownership map.
    pub fn from_entry(item_id: String, uaids: Vec<u64>) -> (r: Result<Self, RoliError>)
        ensures
            viewed(r) == PlayerAsset::decode_entry((item_id@, uaids@)),
    {
        match parse_u64(item_id.as_str()) {
            Some(item_id) => Ok(PlayerAsset { item_id, uaids }),
            None => Err(RoliError::MalformedResponse),
        }
    }
}

/// The profile of a player.
#[derive(Clone, Debug, PartialEq, Eq)]
pub struct PlayerProfile {
    /// The id of the player.
    pub user_id: u64,
    /// Whether the player's account is terminated.
    pub terminated: bool,
    /// Whether the player hides the inventory.
    pub privated: bool,
    /// Whether the player is online.
    pub is_online: bool,
    /// When the player was last online, in unix time.
    pub last_online: u64,
    /// Whether the player has premium.
    pub premium: bool,
    /// Where the player is right now.
    pub presence_type: PresenceType,
    /// The badges of the player.
    pub badges: Vec<Badge>,
    /// What the player owns.
    pub inventory: Vec<PlayerAsset>,
}

/// The mathematical content of a [`PlayerProfile`].
pub struct PlayerProfileView {
    pub user_id: u64,
    pub terminated: bool,
    pub privated: bool,
    pub is_online: bool,
    pub last_online: u64,
    pub premium: bool,
    pub presence_type: PresenceType,
    pub badges: Seq<BadgeView>,
    pub inventory: Seq<PlayerAssetView>,
}

impl View for PlayerProfile {
    type V = PlayerProfileView;

    open spec fn view(&self) -> PlayerProfileView {
        PlayerProfileView {
            user_id: self.user_id,
            terminated: self.terminated,
            privated: self.privated,
            is_online: self.is_online,
            last_online: self.last_online,
            premium: self.premium,
            presence_type: self.presence_type,
            badges: self.badges.deep_view(),
            inventory: self.inventory.deep_view(),
        }
    }
}

impl DeepView for PlayerProfile {
    type V = PlayerProfileView;

    open spec fn deep_view(&self) -> PlayerProfileView {
        self@
    }
}

/// A player's profile as the service sends it, a named object, as the JSON
/// parser leaves it. The two maps are held as their entries in the order they
/// were read. On the wire no key occurs twice in either
/// ([`crate::keys_are_distinct`]); decoding does not depend on that, since
/// each entry is decoded by itself.
pub struct PlayerProfileResponse {
    /// The envelope's own verdict on the request.
    pub success: bool,
    /// Whether the player's account is terminated.
    pub player_terminated: bool,
    /// Whether the player hides the inventory.
    pub player_privacy_enabled: bool,
    /// The id of the player.
    pub player_id: u64,
    /// One entry for each item owned: its id as text, and the copies owned.
    pub player_assets: Vec<(String, Vec<u64>)>,
    /// Whether the player is online.
    pub is_online: bool,
    /// The code of where the player is.
    pub presence_type: u8,
    /// When the player was last online, in unix time.
    pub last_online: u64,
    /// Whether the player has premium.
    pub premium: bool,
    /// One entry for each badge: its name, and when it was earned.
    pub badges: Vec<(String, u64)>,
}

/// The mathematical content of a [`PlayerProfileResponse`].
pub struct PlayerProfileResponseView {
    pub success: bool,
    pub player_terminated: bool,
    pub player_privacy_enabled: bool,
    pub player_id: u64,
    pub player_assets: Seq<(Seq<char>, Seq<u64>)>,
    pub is_online: bool,
    pub presence_type: u8,
    pub last_online: u64,
    pub premium: bool,
    pub badges: Seq<(Seq<char>, u64)>,
}

impl View for PlayerProfileResponse {
    type V = PlayerProfileResponseView;

    open spec fn view(&self) -> PlayerProfileResponseView {
        PlayerProfileResponseView {
            success: self.success,
            player_terminated: self.player_terminated,
            player_privacy_enabled: self.player_privacy_enabled,
            player_id: self.player_id,
            player_assets: self.player_assets.deep_view(),
            is_online: self.is_online,
            presence_type: self.presence_type,
            last_online: self.last_online,
            premium: self.premium,
            badges: self.badges.deep_view(),
        }
    }
}

impl PlayerProfile {
    /// The badges of a profile: one for each entry, in the entries' order.
    pub open spec fn decode_badges(badges: Seq<(Seq<char>, u64)>) -> Seq<BadgeView> {
        Seq::new(
            badges.len(),
            |i: int| BadgeView { name: badges[i].0, timestamp_earned: badges[i].1 },
        )
    }

    /// What a profile object decodes to: nothing but the refusal when it
    /// reports failure, else the profile with its presence read by the table,
    /// a badge for each badge entry, and the ownership map decoded in order,
    /// all or none.
    pub open spec fn decode(raw: PlayerProfileResponseView) -> Result<
        PlayerProfileView,
        RoliError,
    > {
        if !raw.success {
            Err(RoliError::RequestReturnedUnsuccessful)
        } else {
            match decode_each(raw.player_assets, PlayerAsset::entry_decoder()) {
                Err(e) => Err(e),
                Ok(inventory) => Ok(
                    PlayerProfileView {
                        user_id: raw.player_id,
                        terminated: raw.player_terminated,
                        privated: raw.player_privacy_enabled,
                        is_online: raw.is_online,
                        last_online: raw.last_online,
                        premium: raw.premium,
                        presence_type: PresenceType::of_code(raw.presence_type),
                        badges: PlayerProfile::decode_badges(raw.badges),
                        inventory,
                    },
                ),
            }
        }
    }

    /// Decodes a player's profile.
    pub fn from_raw(raw: PlayerProfileResponse) -> (r: Result<Self, RoliError>)
        ensures
            viewed(r) == PlayerProfile::decode(raw@),
    {
        check_success(raw.success)?;
        let ghost raw_badges = raw.badges.deep_view();
        let mut badges: Vec<Badge> = Vec::new();
        for entry in it: raw.badges
            invariant
                raw_badges == raw.badges.deep_view(),
                it.seq() == raw.badges@,
                badges.deep_view() =~= PlayerProfile::decode_badges(raw_badges).take(it.index()),
        {
            let ghost n = it.index();
            let ghost done = badges.deep_view();
            assert(entry.deep_view() == raw_badges[n]);
            let (name, timestamp) = entry;
            let badge = Badge { name, timestamp_earned: timestamp };
            badges.push(badge);
            assert(badges.deep_view() =~= done.push(badge@));
        }
        assert(badges.deep_view() =~= PlayerProfile::decode_badges(raw_badges));

        let ghost raws = raw.player_assets.deep_view();
        let mut inventory: Vec<PlayerAsset> = Vec::new();
        assert(raws.take(0) =~= Seq::empty());
        assert(inventory.deep_view() =~= Seq::empty());
        for entry in it: raw.player_assets
            invariant
                raw.success,
                raws == raw.player_assets.deep_view(),
                it.seq() == raw.player_assets@,
                decode_each(raws.take(it.index()), PlayerAsset::entry_decoder()) == Ok::<
                    Seq<PlayerAssetView>,
                    RoliError,
                >(inventory.deep_view()),
        {
            let ghost n = it.index();
            let ghost done = inventory.deep_view();
            proof {
                lemma_decode_each_step(raws, PlayerAsset::entry_decoder(), n);
            }
            assert(entry.deep_view() == raws[n]);
            let (item_id, uaids) = entry;
            assert(uaids.deep_view() =~= uaids@);
            match PlayerAsset::from_entry(item_id, uaids) {
                Err(e) => {
                    proof {
                        lemma_decode_each_err_stays(raws, PlayerAsset::entry_decoder(), n + 1);
                    }
                    return Err(e);
                },
                Ok(asset) => {
                    inventory.push(asset);
                    assert(inventory.deep_view() =~= done.push(asset@));
                },
            }
        }
        assert(raws.take(raws.len() as int) =~= raws);
        Ok(
            PlayerProfile {
                user_id: raw.player_id,
                terminated: raw.player_terminated,
                privated: raw.player_privacy_enabled,
                inventory,
                is_online: raw.is_online,
                presence_type: PresenceType::from_u8(raw.presence_type),
                last_online: raw.last_online,
                premium: raw.premium,
                badges,
            },
        )
    }
}

} // verus!
