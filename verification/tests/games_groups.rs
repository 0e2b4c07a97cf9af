use roli::games::{Game, GamesListResponse};
use roli::groups::{GroupSearchResponse, GroupSearchResult};
use roli::{Code, RoliError};

fn game() -> Vec<Code> {
    vec![
        Code::String("Adopt Me!".to_string()),
        Code::Integer(251234),
        Code::String("https://tr.rbxcdn.com/a/150/150/Image/Png".to_string()),
    ]
}

#[test]
fn game_decodes_under_its_id() {
    assert_eq!(
        Game::from_raw(920587237, game()).unwrap(),
        Game {
            id: 920587237,
            name: "Adopt Me!".to_string(),
            players_active: 251234,
            thumbnail_url: "https://tr.rbxcdn.com/a/150/150/Image/Png".to_string(),
        }
    );
}

#[test]
fn game_of_wrong_length_is_malformed() {
    for len in [0usize, 1, 2, 4] {
        let mut codes = game();
        codes.resize(len, Code::Integer(0));
        assert!(matches!(
            Game::from_raw(1, codes),
            Err(RoliError::MalformedResponse)
        ));
    }
}

#[test]
fn game_with_a_player_count_that_is_no_integer_is_malformed() {
    let mut codes = game();
    codes[1] = Code::String("many".to_string());
    assert!(matches!(
        Game::from_raw(1, codes),
        Err(RoliError::MalformedResponse)
    ));
}

#[test]
fn games_list_decodes_each_entry_under_its_key() {
    let response = GamesListResponse {
        success: true,
        game_count: 2,
        games: vec![("920587237".to_string(), game()), ("5".to_string(), game())],
    };
    let games = response.into_vec().unwrap();
    assert_eq!(games.len(), 2);
    assert_eq!(games[0].id, 920587237);
    assert_eq!(games[1].id, 5);
}

#[test]
fn games_list_with_a_bad_key_or_record_is_malformed() {
    let bad_key = GamesListResponse {
        success: true,
        game_count: 1,
        games: vec![("five".to_string(), game())],
    };
    assert!(matches!(
        bad_key.into_vec(),
        Err(RoliError::MalformedResponse)
    ));
    let bad_record = GamesListResponse {
        success: true,
        game_count: 2,
        games: vec![("1".to_string(), game()), ("2".to_string(), vec![])],
    };
    assert!(matches!(
        bad_record.into_vec(),
        Err(RoliError::MalformedResponse)
    ));
    let refused = GamesListResponse {
        success: false,
        game_count: 0,
        games: vec![("five".to_string(), game())],
    };
    assert!(matches!(
        refused.into_vec(),
        Err(RoliError::RequestReturnedUnsuccessful)
    ));
}

fn group() -> Vec<Code> {
    vec![
        Code::Integer(4843918),
        Code::String("Tetra Games".to_string()),
        Code::Integer(1630643337),
        Code::Integer(1),
        Code::Integer(0),
        Code::Integer(3666006),
        Code::String("https://tr.rbxcdn.com/b/150/150/Image/Png".to_string()),
    ]
}

#[test]
fn group_decodes_from_seven_slots() {
    assert_eq!(
        GroupSearchResult::from_raw(group()).unwrap(),
        GroupSearchResult {
            id: 4843918,
            name: "Tetra Games".to_string(),
            member_count: 3666006,
            thumbnail_url: "https://tr.rbxcdn.com/b/150/150/Image/Png".to_string(),
        }
    );
}

#[test]
fn group_does_not_read_its_unknown_slots() {
    let mut codes = group();
    codes[2] = Code::String("?".to_string());
    codes[3] = Code::String("?".to_string());
    codes[4] = Code::String("?".to_string());
    assert_eq!(GroupSearchResult::from_raw(codes).unwrap().id, 4843918);
}

#[test]
fn group_of_wrong_length_is_malformed() {
    for len in [0usize, 6, 8] {
        let mut codes = group();
        codes.resize(len, Code::Integer(0));
        assert!(matches!(
            GroupSearchResult::from_raw(codes),
            Err(RoliError::MalformedResponse)
        ));
    }
}

#[test]
fn group_with_a_count_that_is_no_integer_is_malformed() {
    for slot in [0usize, 5] {
        let mut codes = group();
        codes[slot] = Code::String("n/a".to_string());
        assert!(matches!(
            GroupSearchResult::from_raw(codes),
            Err(RoliError::MalformedResponse)
        ));
    }
}

#[test]
fn group_search_decodes_in_order_or_not_at_all() {
    let response = GroupSearchResponse {
        success: true,
        result_count: 2,
        groups: vec![group(), group()],
    };
    assert_eq!(response.into_vec().unwrap().len(), 2);
    let broken = GroupSearchResponse {
        success: true,
        result_count: 2,
        groups: vec![group(), vec![Code::Integer(1)]],
    };
    assert!(matches!(
        broken.into_vec(),
        Err(RoliError::MalformedResponse)
    ));
    let refused = GroupSearchResponse {
        success: false,
        result_count: 0,
        groups: vec![],
    };
    assert!(matches!(
        refused.into_vec(),
        Err(RoliError::RequestReturnedUnsuccessful)
    ));
}
