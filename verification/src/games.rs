use crate::decimal::{parse_u64, text_as_u64};
use crate::{
    check_success, decode_each, lemma_decode_each_err_stays, lemma_decode_each_step, viewed, Code,
    CodeView, RoliError,
};
use vstd::prelude::*;

verus! {

/// A game on the list of tracked games.
#[derive(Clone, Debug, PartialEq, Eq, PartialOrd, Ord, Hash, Default)]
pub struct Game {
    /// The id of the game.
    pub id: u64,
    /// The name of the game.
    pub name: String,
    /// How many players are in the game right now.
    pub players_active: u64,
    /// Where the game's thumbnail is.
    pub thumbnail_url: String,
}

/// The mathematical content of a [`Game`].
pub struct GameView {
    pub id: u64,
    pub name: Seq<char>,
    pub players_active: u64,
    pub thumbnail_url: Seq<char>,
}

impl View for Game {
    type V = GameView;

    open spec fn view(&self) -> GameView {
        GameView {
            id: self.id,
            name: self.name@,
            players_active: self.players_active,
            thumbnail_url: self.thumbnail_url@,
        }
    }
}

impl DeepView for Game {
    type V = GameView;

    open spec fn deep_view(&self) -> GameView {
        self@
    }
}

impl Game {
    /// What the three-slot array `[name, players active, thumbnail]` of the
    /// game `id` decodes to. Any other length, and a player count that is not
    /// an integer, is malformed.
    pub open spec fn decode(id: u64, codes: Seq<CodeView>) -> Result<GameView, RoliError> {
        if codes.len() != 3 {
            Err(RoliError::MalformedResponse)
        } else {
            match codes[1].as_u64() {
                Ok(players_active) => Ok(
                    GameView {
                        id,
                        name: codes[0].text(),
                        players_active,
                        thumbnail_url: codes[2].text(),
                    },
                ),
                Err(_) => Err(RoliError::MalformedResponse),
            }
        }
    }

    /// What one entry of the keyed collection decodes to: the key must spell
    /// the game's id as an unsigned integer.
    pub open spec fn decode_entry(entry: (Seq<char>, Seq<CodeView>)) -> Result<
        GameView,
        RoliError,
    > {
        match text_as_u64(entry.0) {
            Some(id) => Game::decode(id, entry.1),
            None => Err(RoliError::MalformedResponse),
        }
    }

    /// The entry decoder as a value, for decoding a whole list.
    pub open spec fn entry_decoder() -> spec_fn((Seq<char>, Seq<CodeView>)) -> Result<
        GameView,
        RoliError,
    > {
        |entry: (Seq<char>, Seq<CodeView>)| Game::decode_entry(entry)
    }

    /// Decodes the game `id`.
    pub fn from_raw(id: u64, codes: Vec<Code>) -> (r: Result<Self, RoliError>)
        ensures
            viewed(r) == Game::decode(id, codes.deep_view()),
    {
        if codes.len() != 3 {
            return Err(RoliError::MalformedResponse);
        }
        assert(forall|i: int| 0 <= i < 3 ==> codes.deep_view()[i] == (#[trigger] codes@[i])@);
        let name = codes[0].to_string();
        let players_active = codes[1].to_u64()?;
        let thumbnail_url = codes[2].to_string();
        Ok(Game { id, name, players_active, thumbnail_url })
    }
}

/// The envelope of the games list, as the JSON parser leaves it. The keyed
/// collection is held as its entries in the order they were read. On the wire
/// no key occurs twice ([`crate::keys_are_distinct`]); decoding does not
/// depend on that, since each entry is decoded by itself.
pub struct GamesListResponse {
    /// The envelope's own verdict on the request.
    pub success: bool,
    /// How many games the envelope says it holds.
    pub game_count: i64,
    /// One entry for each game: its id as text, and its positional array.
    pub games: Vec<(String, Vec<Code>)>,
}

impl GamesListResponse {
    /// What an envelope decodes to: nothing but the refusal when it reports
    /// failure, else its entries decoded in order, all or none.
    pub open spec fn decode(success: bool, games: Seq<(Seq<char>, Seq<CodeView>)>) -> Result<
        Seq<GameView>,
        RoliError,
    > {
        if !success {
            Err(RoliError::RequestReturnedUnsuccessful)
        } else {
            decode_each(games, Game::entry_decoder())
        }
    }

    /// Decodes the whole list.
    pub fn into_vec(self) -> (r: Result<Vec<Game>, RoliError>)
        ensures
            viewed(r) == Self::decode(self.success, self.games.deep_view()),
    {
        check_success(self.success)?;
        let ghost raws = self.games.deep_view();
        let mut games: Vec<Game> = Vec::new();
        assert(raws.take(0) =~= Seq::empty());
        assert(games.deep_view() =~= Seq::empty());
        for entry in it: self.games
            invariant
                self.success,
                raws == self.games.deep_view(),
                it.seq() == self.games@,
                decode_each(raws.take(it.index()), Game::entry_decoder()) == Ok::<
                    Seq<GameView>,
                    RoliError,
                >(games.deep_view()),
        {
            let ghost n = it.index();
            let ghost done = games.deep_view();
            proof {
                lemma_decode_each_step(raws, Game::entry_decoder(), n);
            }
            assert(entry.deep_view() == raws[n]);
            let (key, codes) = entry;
            let decoded = match parse_u64(key.as_str()) {
                Some(id) => Game::from_raw(id, codes),
                None => Err(RoliError::MalformedResponse),
            };
            match decoded {
                Err(e) => {
                    proof {
                        lemma_decode_each_err_stays(raws, Game::entry_decoder(), n + 1);
                    }
                    return Err(e);
                },
                Ok(game) => {
                    games.push(game);
                    assert(games.deep_view() =~= done.push(game@));
                },
            }
        }
        assert(raws.take(raws.len() as int) =~= raws);
        Ok(games)
    }
}

} // verus!
