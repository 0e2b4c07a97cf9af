use roli::items::{AllItemDetailsResponse, Demand, ItemDetails, Trend};
use roli::{Code, RoliError};

#[test]
fn test_from_raw_valid_data() {
    let item_id = 123;
    let codes = vec![
        Code::String("Test item name".to_string()),
        Code::String("TI".to_string()),
        Code::Integer(100),
        Code::Integer(1),
        Code::Integer(200),
        Code::Integer(3),
        Code::Integer(4),
        Code::Integer(1),
        Code::Integer(1),
        Code::Integer(1),
    ];

    let result = ItemDetails::from_raw(item_id, codes);

    assert!(result.is_ok());

    let item_details = result.unwrap();

    assert_eq!(item_details.item_id, item_id);
    assert_eq!(item_details.item_name, "Test item name");
    assert_eq!(item_details.acronym, Some("TI".to_string()));
    assert_eq!(item_details.rap, 100);
    assert!(item_details.valued);
    assert_eq!(item_details.value, 200);
    assert_eq!(item_details.demand, Demand::High);
    assert_eq!(item_details.trend, Trend::Fluctuating);
    assert!(item_details.projected);
    assert!(item_details.hyped);
    assert!(item_details.rare);
}

#[test]
fn test_from_raw_invalid_data() {
    let item_id = 123;
    let codes = vec![
        Code::String("Test item name".to_string()),
        Code::String("TI".to_string()),
        Code::String("Invalid".to_string()),
        Code::Integer(-1),
        Code::Integer(200),
        Code::Integer(3),
        Code::Integer(4),
        Code::Integer(1),
        Code::Integer(1),
        Code::Integer(1),
    ];

    let result = ItemDetails::from_raw(item_id, codes);

    assert!(result.is_err());
}

fn item(slots: [i64; 8]) -> Vec<Code> {
    let mut codes = vec![
        Code::String("Red Baseball Cap".to_string()),
        Code::String(String::new()),
    ];
    codes.extend(slots.iter().map(|x| Code::Integer(*x)));
    codes
}

#[test]
fn item_with_non_numeric_rap_is_malformed() {
    let mut codes = item([100, 1, 200, 3, 4, 1, 1, 1]);
    codes[2] = Code::String("Invalid".to_string());
    assert!(matches!(
        ItemDetails::from_raw(123, codes),
        Err(RoliError::MalformedResponse)
    ));
}

#[test]
fn item_with_empty_acronym_has_none() {
    let details = ItemDetails::from_raw(1028606, item([1351, -1, 1351, -1, -1, -1, -1, -1])).unwrap();
    assert_eq!(
        details,
        ItemDetails {
            item_id: 1028606,
            item_name: "Red Baseball Cap".to_string(),
            acronym: None,
            rap: 1351,
            valued: false,
            value: 1351,
            demand: Demand::Unassigned,
            trend: Trend::Unassigned,
            projected: false,
            hyped: false,
            rare: false,
        }
    );
}

#[test]
fn item_name_sent_as_a_number_is_its_decimal_text() {
    let mut codes = item([1, 1, 1, 0, 0, 1, 1, 1]);
    codes[0] = Code::Integer(-2048);
    codes[1] = Code::Integer(0);
    let details = ItemDetails::from_raw(7, codes).unwrap();
    assert_eq!(details.item_name, "-2048");
    assert_eq!(details.acronym, Some("0".to_string()));
}

#[test]
fn item_valued_is_one_or_minus_one() {
    for (code, valued) in [(-1i64, false), (1, true)] {
        let details = ItemDetails::from_raw(1, item([1, code, 1, 0, 0, 1, 1, 1])).unwrap();
        assert_eq!(details.valued, valued);
    }
    for code in [0i64, 2, -2, 25000, i64::MIN, i64::MAX] {
        assert!(matches!(
            ItemDetails::from_raw(1, item([1, code, 1, 0, 0, 1, 1, 1])),
            Err(RoliError::MalformedResponse)
        ));
    }
    let mut codes = item([1, 1, 1, 0, 0, 1, 1, 1]);
    codes[3] = Code::String("-1".to_string());
    assert!(!ItemDetails::from_raw(1, codes).unwrap().valued);
    let mut codes = item([1, 1, 1, 0, 0, 1, 1, 1]);
    codes[3] = Code::String("yes".to_string());
    assert!(matches!(
        ItemDetails::from_raw(1, codes),
        Err(RoliError::MalformedResponse)
    ));
}

#[test]
fn item_demand_codes_go_by_the_table() {
    let table = [
        (-1i64, Demand::Unassigned),
        (0, Demand::Terrible),
        (1, Demand::Low),
        (2, Demand::Normal),
        (3, Demand::High),
        (4, Demand::Amazing),
    ];
    for (code, demand) in table {
        let details = ItemDetails::from_raw(1, item([1, 1, 1, code, 0, 1, 1, 1])).unwrap();
        assert_eq!(details.demand, demand);
        assert_eq!(Demand::from_code(code).unwrap(), demand);
    }
    for code in [-2i64, 5, 6, 100, i64::MIN, i64::MAX] {
        assert!(matches!(
            ItemDetails::from_raw(1, item([1, 1, 1, code, 0, 1, 1, 1])),
            Err(RoliError::MalformedResponse)
        ));
        assert!(matches!(
            Demand::from_code(code),
            Err(RoliError::MalformedResponse)
        ));
    }
}

#[test]
fn item_trend_codes_go_by_the_table() {
    let table = [
        (-1i64, Trend::Unassigned),
        (0, Trend::Lowering),
        (1, Trend::Unstable),
        (2, Trend::Stable),
        (3, Trend::Raising),
        (4, Trend::Fluctuating),
    ];
    for (code, trend) in table {
        let details = ItemDetails::from_raw(1, item([1, 1, 1, 0, code, 1, 1, 1])).unwrap();
        assert_eq!(details.trend, trend);
        assert_eq!(Trend::from_code(code).unwrap(), trend);
    }
    for code in [-2i64, 5, 6, 100, i64::MIN, i64::MAX] {
        assert!(matches!(
            ItemDetails::from_raw(1, item([1, 1, 1, 0, code, 1, 1, 1])),
            Err(RoliError::MalformedResponse)
        ));
        assert!(matches!(
            Trend::from_code(code),
            Err(RoliError::MalformedResponse)
        ));
    }
}

#[test]
fn item_flags_are_one_or_minus_one() {
    for slot in 5..8usize {
        for (code, flag) in [(1i64, true), (-1, false)] {
            let mut slots = [1, 1, 1, 0, 0, 1, 1, 1];
            slots[slot] = code;
            let details = ItemDetails::from_raw(1, item(slots)).unwrap();
            let got = [details.projected, details.hyped, details.rare][slot - 5];
            assert_eq!(got, flag);
        }
        for code in [0i64, 2, -2, 255] {
            let mut slots = [1, 1, 1, 0, 0, 1, 1, 1];
            slots[slot] = code;
            assert!(matches!(
                ItemDetails::from_raw(1, item(slots)),
                Err(RoliError::MalformedResponse)
            ));
        }
    }
}

#[test]
fn item_of_wrong_length_is_malformed() {
    for len in [0usize, 2, 9, 11] {
        let mut codes = item([1, 1, 1, 0, 0, 1, 1, 1]);
        codes.resize(len, Code::Integer(1));
        assert!(matches!(
            ItemDetails::from_raw(1, codes),
            Err(RoliError::MalformedResponse)
        ));
    }
}

#[test]
fn item_negative_number_fills_an_unsigned_field_bit_for_bit() {
    let details = ItemDetails::from_raw(1, item([-1, 1, -2, 0, 0, 1, 1, 1])).unwrap();
    assert_eq!(details.rap, u64::MAX);
    assert_eq!(details.value, u64::MAX - 1);
}

#[test]
fn item_collection_decodes_each_entry_under_its_key() {
    let response = AllItemDetailsResponse {
        success: true,
        item_count: 2,
        items: vec![
            ("1028606".to_string(), item([1351, -1, 1351, -1, -1, -1, -1, -1])),
            ("+42".to_string(), item([5, 1, 6, 4, 3, 1, -1, 1])),
        ],
    };
    let details = response.into_vec().unwrap();
    assert_eq!(details.len(), 2);
    assert_eq!(details[0].item_id, 1028606);
    assert_eq!(details[1].item_id, 42);
    assert_eq!(details[1].demand, Demand::Amazing);
    assert_eq!(details[1].trend, Trend::Raising);
    assert!(!details[1].hyped);
}

#[test]
fn item_collection_with_a_bad_key_is_malformed() {
    for key in ["", "abc", "-1", "12a", " 12", "18446744073709551616", "1.5"] {
        let response = AllItemDetailsResponse {
            success: true,
            item_count: 1,
            items: vec![(key.to_string(), item([1, 1, 1, 0, 0, 1, 1, 1]))],
        };
        assert!(matches!(
            response.into_vec(),
            Err(RoliError::MalformedResponse)
        ));
    }
}

#[test]
fn item_collection_is_all_or_nothing() {
    let response = AllItemDetailsResponse {
        success: true,
        item_count: 2,
        items: vec![
            ("1".to_string(), item([1, 1, 1, 0, 0, 1, 1, 1])),
            ("2".to_string(), item([1, 1, 1, 9, 0, 1, 1, 1])),
        ],
    };
    assert!(matches!(
        response.into_vec(),
        Err(RoliError::MalformedResponse)
    ));
}

#[test]
fn item_collection_that_reports_failure_is_not_decoded() {
    let response = AllItemDetailsResponse {
        success: false,
        item_count: 0,
        items: vec![("x".to_string(), vec![])],
    };
    assert!(matches!(
        response.into_vec(),
        Err(RoliError::RequestReturnedUnsuccessful)
    ));
}
