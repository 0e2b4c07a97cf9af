use roli::players::{
    Badge, PlayerAsset, PlayerProfile, PlayerProfileResponse, PlayerSearchResponse,
    PlayerSearchResult, PresenceType,
};
use roli::{Code, RoliError};

#[test]
fn player_of_two_or_three_slots_decodes() {
    let two = vec![Code::Integer(2207291), Code::String("Linkmon99".to_string())];
    let three = vec![
        Code::String("2207291".to_string()),
        Code::String("Linkmon99".to_string()),
        Code::String("anything at all".to_string()),
    ];
    let expected = PlayerSearchResult {
        user_id: 2207291,
        username: "Linkmon99".to_string(),
    };
    assert_eq!(PlayerSearchResult::from_raw(two).unwrap(), expected);
    assert_eq!(PlayerSearchResult::from_raw(three).unwrap(), expected);
}

#[test]
fn player_of_wrong_length_is_malformed() {
    for len in [0usize, 1, 4, 5] {
        let codes: Vec<Code> = (0..len).map(|_| Code::Integer(1)).collect();
        assert!(matches!(
            PlayerSearchResult::from_raw(codes),
            Err(RoliError::MalformedResponse)
        ));
    }
}

#[test]
fn player_with_an_id_that_is_no_integer_is_malformed() {
    let codes = vec![
        Code::String("Linkmon99".to_string()),
        Code::String("Linkmon99".to_string()),
    ];
    assert!(matches!(
        PlayerSearchResult::from_raw(codes),
        Err(RoliError::MalformedResponse)
    ));
}

#[test]
fn player_search_decodes_in_order_or_not_at_all() {
    let response = PlayerSearchResponse {
        success: true,
        result_count: 2,
        players: vec![
            vec![Code::Integer(1), Code::String("a".to_string())],
            vec![Code::Integer(2), Code::Integer(42), Code::Integer(0)],
        ],
    };
    let players = response.into_vec().unwrap();
    assert_eq!(players.len(), 2);
    assert_eq!(players[0].username, "a");
    assert_eq!(players[1].user_id, 2);
    assert_eq!(players[1].username, "42");

    let broken = PlayerSearchResponse {
        success: true,
        result_count: 2,
        players: vec![
            vec![Code::Integer(1), Code::String("a".to_string())],
            vec![Code::Integer(2)],
        ],
    };
    assert!(matches!(
        broken.into_vec(),
        Err(RoliError::MalformedResponse)
    ));

    let refused = PlayerSearchResponse {
        success: false,
        result_count: 0,
        players: vec![],
    };
    assert!(matches!(
        refused.into_vec(),
        Err(RoliError::RequestReturnedUnsuccessful)
    ));
}

#[test]
fn presence_codes_go_by_the_table_and_the_rest_is_unavailable() {
    assert_eq!(PresenceType::from_u8(0), PresenceType::Unavailable);
    assert_eq!(PresenceType::from_u8(1), PresenceType::Website);
    assert_eq!(PresenceType::from_u8(2), PresenceType::InGame);
    assert_eq!(PresenceType::from_u8(3), PresenceType::InStudio);
    for code in [4u8, 5, 100, 255] {
        assert_eq!(PresenceType::from_u8(code), PresenceType::Unavailable);
    }
}

fn profile(success: bool, assets: Vec<(String, Vec<u64>)>) -> PlayerProfileResponse {
    PlayerProfileResponse {
        success,
        player_terminated: false,
        player_privacy_enabled: true,
        player_id: 2207291,
        player_assets: assets,
        is_online: true,
        presence_type: 2,
        last_online: 1680000000,
        premium: true,
        badges: vec![
            ("value_100k".to_string(), 1502496000),
            ("verified".to_string(), 1502496001),
        ],
    }
}

#[test]
fn profile_is_assembled_from_its_fields() {
    let raw = profile(
        true,
        vec![
            ("1028606".to_string(), vec![11, 12]),
            ("42".to_string(), vec![]),
        ],
    );
    assert_eq!(
        PlayerProfile::from_raw(raw).unwrap(),
        PlayerProfile {
            user_id: 2207291,
            terminated: false,
            privated: true,
            is_online: true,
            last_online: 1680000000,
            premium: true,
            presence_type: PresenceType::InGame,
            badges: vec![
                Badge {
                    name: "value_100k".to_string(),
                    timestamp_earned: 1502496000,
                },
                Badge {
                    name: "verified".to_string(),
                    timestamp_earned: 1502496001,
                },
            ],
            inventory: vec![
                PlayerAsset {
                    item_id: 1028606,
                    uaids: vec![11, 12],
                },
                PlayerAsset {
                    item_id: 42,
                    uaids: vec![],
                },
            ],
        }
    );
}

#[test]
fn profile_with_an_unlisted_presence_is_unavailable() {
    let mut raw = profile(true, vec![]);
    raw.presence_type = 9;
    assert_eq!(
        PlayerProfile::from_raw(raw).unwrap().presence_type,
        PresenceType::Unavailable
    );
}

#[test]
fn profile_with_a_bad_item_key_is_malformed() {
    for key in ["", "abc", "-5", "1.0", "18446744073709551616"] {
        let raw = profile(
            true,
            vec![("7".to_string(), vec![1]), (key.to_string(), vec![2])],
        );
        assert!(matches!(
            PlayerProfile::from_raw(raw),
            Err(RoliError::MalformedResponse)
        ));
    }
}

#[test]
fn profile_that_reports_failure_is_not_decoded() {
    let raw = profile(false, vec![("abc".to_string(), vec![])]);
    assert!(matches!(
        PlayerProfile::from_raw(raw),
        Err(RoliError::RequestReturnedUnsuccessful)
    ));
}

#[test]
fn asset_entry_needs_an_unsigned_key() {
    assert_eq!(
        PlayerAsset::from_entry("12".to_string(), vec![5]).unwrap(),
        PlayerAsset {
            item_id: 12,
            uaids: vec![5],
        }
    );
    assert!(matches!(
        PlayerAsset::from_entry("twelve".to_string(), vec![5]),
        Err(RoliError::MalformedResponse)
    ));
}
