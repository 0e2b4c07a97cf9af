use roli::trade_ads::{
    CreateTradeAdParams, Offer, RecentTradeAdsResponse, Request, RequestRaw, RequestTag, TradeAd,
};
use roli::RoliError;

#[test]
fn tag_codes_go_by_the_table() {
    let table = [
        (1u8, RequestTag::Demand),
        (2, RequestTag::Rares),
        (3, RequestTag::Robux),
        (4, RequestTag::Any),
        (5, RequestTag::Upgrade),
        (6, RequestTag::Downgrade),
        (7, RequestTag::Rap),
        (8, RequestTag::Wishlist),
        (9, RequestTag::Projecteds),
        (10, RequestTag::Adds),
    ];
    for (code, tag) in table {
        assert_eq!(RequestTag::try_from(code).unwrap(), tag);
    }
}

#[test]
fn tag_code_outside_the_table_is_malformed() {
    for code in [0u8, 11, 12, 100, 255] {
        assert!(matches!(
            RequestTag::try_from(code),
            Err(RoliError::MalformedResponse)
        ));
    }
}

#[test]
fn default_tag_is_any() {
    assert_eq!(RequestTag::default(), RequestTag::Any);
}

#[test]
fn request_reads_its_tags_in_order() {
    let raw = RequestRaw {
        tags: vec![4, 1, 10],
        items: vec![259425946, 7],
    };
    assert_eq!(
        Request::try_from(raw).unwrap(),
        Request {
            items: vec![259425946, 7],
            tags: vec![RequestTag::Any, RequestTag::Demand, RequestTag::Adds],
        }
    );
    assert_eq!(
        Request::try_from(RequestRaw::default()).unwrap(),
        Request::default()
    );
}

#[test]
fn request_with_a_tag_outside_the_table_is_malformed() {
    for bad in [0u8, 11, 200] {
        let raw = RequestRaw {
            tags: vec![4, bad, 1],
            items: vec![1],
        };
        assert!(matches!(
            Request::try_from(raw),
            Err(RoliError::MalformedResponse)
        ));
    }
}

fn ad(trade_id: u64, tags: Vec<u8>) -> (u64, u64, u64, String, Offer, RequestRaw) {
    (
        trade_id,
        1680000000,
        2207291,
        "Linkmon99".to_string(),
        Offer {
            items: vec![6803423284, 7212273948],
            robux: Some(500),
        },
        RequestRaw {
            tags,
            items: vec![259425946],
        },
    )
}

#[test]
fn trade_ad_decodes_with_its_request_tags_read() {
    assert_eq!(
        TradeAd::from_raw(ad(99, vec![9, 5])).unwrap(),
        TradeAd {
            trade_id: 99,
            timestamp: 1680000000,
            user_id: 2207291,
            username: "Linkmon99".to_string(),
            offer: Offer {
                items: vec![6803423284, 7212273948],
                robux: Some(500),
            },
            request: Request {
                items: vec![259425946],
                tags: vec![RequestTag::Projecteds, RequestTag::Upgrade],
            },
        }
    );
}

#[test]
fn trade_ads_decode_in_order() {
    let response = RecentTradeAdsResponse {
        success: true,
        trade_ad_count: 2,
        trade_ads: vec![ad(1, vec![]), ad(2, vec![3])],
    };
    let ads = response.into_vec().unwrap();
    assert_eq!(ads.len(), 2);
    assert_eq!(ads[0].trade_id, 1);
    assert!(ads[0].request.tags.is_empty());
    assert_eq!(ads[1].trade_id, 2);
    assert_eq!(ads[1].request.tags, vec![RequestTag::Robux]);
}

#[test]
fn trade_ads_fail_together() {
    let response = RecentTradeAdsResponse {
        success: true,
        trade_ad_count: 3,
        trade_ads: vec![ad(1, vec![1]), ad(2, vec![11]), ad(3, vec![2])],
    };
    assert!(matches!(
        response.into_vec(),
        Err(RoliError::MalformedResponse)
    ));
}

#[test]
fn trade_ads_that_report_failure_are_not_decoded() {
    let response = RecentTradeAdsResponse {
        success: false,
        trade_ad_count: 1,
        trade_ads: vec![ad(2, vec![11])],
    };
    assert!(matches!(
        response.into_vec(),
        Err(RoliError::RequestReturnedUnsuccessful)
    ));
}

#[test]
fn create_params_hold_what_is_posted() {
    let params = CreateTradeAdParams {
        player_id: 123456789,
        offer_item_ids: vec![6803423284, 7212273948],
        request_item_ids: vec![259425946],
        request_tags: vec![RequestTag::Any],
    };
    assert_eq!(params.clone(), params);
    assert_eq!(CreateTradeAdParams::default().player_id, 0);
}
