use crate::{
    check_success, decode_each, lemma_decode_each_err_stays, lemma_decode_each_step, viewed,
    RoliError,
};
use vstd::prelude::*;
use vstd::std_specs::convert::TryFromSpecImpl;
use vstd::string::*;

verus! {

/// What a trade ad may ask for in place of items.
#[derive(Debug, PartialEq, Eq, PartialOrd, Ord, Hash, Clone, Copy, Default)]
pub enum RequestTag {
    /// Anything at all.
    #[default]
    Any,
    /// Items in demand.
    Demand,
    /// Rare items.
    Rares,
    /// Robux.
    Robux,
    /// Fewer items of more value each.
    Upgrade,
    /// More items of less value each.
    Downgrade,
    /// Recent average price.
    Rap,
    /// Items on the wishlist.
    Wishlist,
    /// Projected items.
    Projecteds,
    /// Something added on top.
    Adds,
}

impl View for RequestTag {
    type V = RequestTag;

    open spec fn view(&self) -> RequestTag {
        *self
    }
}

impl DeepView for RequestTag {
    type V = RequestTag;

    open spec fn deep_view(&self) -> RequestTag {
        *self
    }
}

impl RequestTag {
    /// The tag that a wire code stands for: `1` to `10` go by the table, and
    /// no other code stands for a tag.
    pub open spec fn of_code(code: u8) -> Option<RequestTag> {
        if code == 1 {
            Some(RequestTag::Demand)
        } else if code == 2 {
            Some(RequestTag::Rares)
        } else if code == 3 {
            Some(RequestTag::Robux)
        } else if code == 4 {
            Some(RequestTag::Any)
        } else if code == 5 {
            Some(RequestTag::Upgrade)
        } else if code == 6 {
            Some(RequestTag::Downgrade)
        } else if code == 7 {
            Some(RequestTag::Rap)
        } else if code == 8 {
            Some(RequestTag::Wishlist)
        } else if code == 9 {
            Some(RequestTag::Projecteds)
        } else if code == 10 {
            Some(RequestTag::Adds)
        } else {
            None
        }
    }

    /// The wire code of a tag.
    pub open spec fn code(self) -> u8 {
        match self {
            RequestTag::Demand => 1,
            RequestTag::Rares => 2,
            RequestTag::Robux => 3,
            RequestTag::Any => 4,
            RequestTag::Upgrade => 5,
            RequestTag::Downgrade => 6,
            RequestTag::Rap => 7,
            RequestTag::Wishlist => 8,
            RequestTag::Projecteds => 9,
            RequestTag::Adds => 10,
        }
    }

    /// What a wire code decodes to: its tag, or a malformed response.
    pub open spec fn decode(code: u8) -> Result<RequestTag, RoliError> {
        match RequestTag::of_code(code) {
            Some(tag) => Ok(tag),
            None => Err(RoliError::MalformedResponse),
        }
    }

    /// The decoder as a value, for decoding all tags of a request.
    pub open spec fn decoder() -> spec_fn(u8) -> Result<RequestTag, RoliError> {
        |code: u8| RequestTag::decode(code)
    }

    /// The codes `1` to `10` and the ten tags correspond one to one, and no
    /// other code stands for a tag.
    pub proof fn lemma_codes_one_to_one(code: u8, tag: RequestTag)
        ensures
            RequestTag::of_code(tag.code()) == Some(tag),
            RequestTag::of_code(code) is Some <==> 1 <= code <= 10,
            RequestTag::of_code(code) == Some(tag) <==> code == tag.code(),
    {
    }
}

impl TryFrom<u8> for RequestTag {
    type Error = RoliError;

    /// Reads a wire code. A code outside the table is malformed: no tag
    /// stands in for it.
    fn try_from(value: u8) -> (r: Result<Self, Self::Error>)
        ensures
            r == RequestTag::decode(value),
    {
        match value {
            1 => Ok(RequestTag::Demand),
            2 => Ok(RequestTag::Rares),
            3 => Ok(RequestTag::Robux),
            4 => Ok(RequestTag::Any),
            5 => Ok(RequestTag::Upgrade),
            6 => Ok(RequestTag::Downgrade),
            7 => Ok(RequestTag::Rap),
            8 => Ok(RequestTag::Wishlist),
            9 => Ok(RequestTag::Projecteds),
            10 => Ok(RequestTag::Adds),
            _ => Err(RoliError::MalformedResponse),
        }
    }
}

impl TryFromSpecImpl<u8> for RequestTag {
    open spec fn obeys_try_from_spec() -> bool {
        true
    }

    open spec fn try_from_spec(value: u8) -> Result<Self, Self::Error> {
        RequestTag::decode(value)
    }
}

/// What a trade ad offers.
#[derive(Default, Debug, Clone, PartialEq, Eq, PartialOrd, Ord, Hash)]
pub struct Offer {
    /// The ids of the items offered.
    pub items: Vec<u64>,
    /// The robux offered, before tax.
    pub robux: Option<u64>,
}

/// The mathematical content of an [`Offer`].
pub struct OfferView {
    pub items: Seq<u64>,
    pub robux: Option<u64>,
}

impl View for Offer {
    type V = OfferView;

    open spec fn view(&self) -> OfferView {
        OfferView { items: self.items@, robux: self.robux }
    }
}

impl DeepView for Offer {
    type V = OfferView;

    open spec fn deep_view(&self) -> OfferView {
        self@
    }
}

/// What a trade ad asks for.
#[derive(Default, Debug, Clone, PartialEq, Eq, PartialOrd, Ord, Hash)]
pub struct Request {
    /// The ids of the items asked for.
    pub items: Vec<u64>,
    /// The tags asked for.
    pub tags: Vec<RequestTag>,
}

/// The mathematical content of a [`Request`].
pub struct RequestView {
    pub items: Seq<u64>,
    pub tags: Seq<RequestTag>,
}

impl View for Request {
    type V = RequestView;

    open spec fn view(&self) -> RequestView {
        RequestView { items: self.items@, tags: self.tags@ }
    }
}

impl DeepView for Request {
    type V = RequestView;

    open spec fn deep_view(&self) -> RequestView {
        self@
    }
}

/// What a trade ad asks for as the service sends it, with its tags as codes.
#[derive(Default, Debug, Clone, PartialEq)]
pub struct RequestRaw {
    /// The codes of the tags asked for.
    pub tags: Vec<u8>,
    /// The ids of the items asked for.
    pub items: Vec<u64>,
}

/// The mathematical content of a [`RequestRaw`].
pub struct RequestRawView {
    pub tags: Seq<u8>,
    pub items: Seq<u64>,
}

impl View for RequestRaw {
    type V = RequestRawView;

    open spec fn view(&self) -> RequestRawView {
        RequestRawView { tags: self.tags@, items: self.items@ }
    }
}

impl DeepView for RequestRaw {
    type V = RequestRawView;

    open spec fn deep_view(&self) -> RequestRawView {
        self@
    }
}

impl Request {
    /// What a raw request decodes to: its items as they are and its tag codes
    /// read by the table in order, all or none.
    pub open spec fn decode(raw: RequestRawView) -> Result<RequestView, RoliError> {
        match decode_each(raw.tags, RequestTag::decoder()) {
            Ok(tags) => Ok(RequestView { items: raw.items, tags }),
            Err(e) => Err(e),
        }
    }
}

impl TryFrom<RequestRaw> for Request {
    type Error = RoliError;

    /// Decodes what a trade ad asks for.
    fn try_from(value: RequestRaw) -> (r: Result<Self, Self::Error>)
        ensures
            viewed(r) == Request::decode(value@),
    {
        let ghost codes = value.tags@;
        let mut tags: Vec<RequestTag> = Vec::new();
        assert(codes.take(0) =~= Seq::empty());
        let mut i: usize = 0;
        while i < value.tags.len()
            invariant
                codes == value.tags@,
                0 <= i <= codes.len(),
                decode_each(codes.take(i as int), RequestTag::decoder()) == Ok::<
                    Seq<RequestTag>,
                    RoliError,
                >(tags@),
            decreases codes.len() - i,
        {
            proof {
                lemma_decode_each_step(codes, RequestTag::decoder(), i as int);
            }
            match RequestTag::try_from(value.tags[i]) {
                Err(e) => {
                    proof {
                        lemma_decode_each_err_stays(codes, RequestTag::decoder(), i + 1);
                    }
                    return Err(e);
                },
                Ok(tag) => {
                    tags.push(tag);
                },
            }
            i += 1;
        }
        assert(codes.take(codes.len() as int) =~= codes);
        Ok(Request { items: value.items, tags })
    }
}

/// What `Request::try_from` returns is stated by its own `ensures`, over
/// views: two requests with the same view need not be the same value, so no
/// function of the raw request names the one that is returned.
impl TryFromSpecImpl<RequestRaw> for Request {
    open spec fn obeys_try_from_spec() -> bool {
        false
    }

    open spec fn try_from_spec(value: RequestRaw) -> Result<Self, Self::Error> {
        arbitrary()
    }
}

/// A trade ad as it was posted.
#[derive(Debug, PartialEq, Eq, PartialOrd, Ord, Hash, Clone, Default)]
pub struct TradeAd {
    /// The id of the trade ad.
    pub trade_id: u64,
    /// When the trade ad was posted, in unix time.
    pub timestamp: u64,
    /// The id of the player who posted it.
    pub user_id: u64,
    /// The name of the player who posted it.
    pub username: String,
    /// What the player offers.
    pub offer: Offer,
    /// What the player asks for.
    pub request: Request,
}

/// The mathematical content of a [`TradeAd`].
pub struct TradeAdView {
    pub trade_id: u64,
    pub timestamp: u64,
    pub user_id: u64,
    pub username: Seq<char>,
    pub offer: OfferView,
    pub request: RequestView,
}

impl View for TradeAd {
    type V = TradeAdView;

    open spec fn view(&self) -> TradeAdView {
        TradeAdView {
            trade_id: self.trade_id,
            timestamp: self.timestamp,
            user_id: self.user_id,
            username: self.username@,
            offer: self.offer@,
            request: self.request@,
        }
    }
}

impl DeepView for TradeAd {
    type V = TradeAdView;

    open spec fn deep_view(&self) -> TradeAdView {
        self@
    }
}

impl TradeAd {
    /// What the tuple `(trade id, timestamp, user id, username, offer,
    /// request)` decodes to: the ad, with the tag codes of its request read
    /// by the table. A tag code outside the table makes the whole ad
    /// malformed.
    pub open spec fn decode(
        raw: (u64, u64, u64, Seq<char>, OfferView, RequestRawView),
    ) -> Result<TradeAdView, RoliError> {
        match Request::decode(raw.5) {
            Ok(request) => Ok(
                TradeAdView {
                    trade_id: raw.0,
                    timestamp: raw.1,
                    user_id: raw.2,
                    username: raw.3,
                    offer: raw.4,
                    request,
                },
            ),
            Err(e) => Err(e),
        }
    }

    /// The decoder as a value, for decoding a whole list of ads.
    pub open spec fn decoder() -> spec_fn(
        (u64, u64, u64, Seq<char>, OfferView, RequestRawView),
    ) -> Result<TradeAdView, RoliError> {
        |raw: (u64, u64, u64, Seq<char>, OfferView, RequestRawView)| TradeAd::decode(raw)
    }

    /// Decodes one trade ad.
    pub fn from_raw(raw: (u64, u64, u64, String, Offer, RequestRaw)) -> (r: Result<
        Self,
        RoliError,
    >)
        ensures
            viewed(r) == TradeAd::decode(raw.deep_view()),
    {
        let (trade_id, timestamp, user_id, username, offer, request_raw) = raw;
        let request = Request::try_from(request_raw)?;
        Ok(TradeAd { trade_id, timestamp, user_id, username, offer, request })
    }
}

/// The envelope of the recent trade ads, as the JSON parser leaves it.
pub struct RecentTradeAdsResponse {
    /// The envelope's own verdict on the request.
    pub success: bool,
    /// How many trade ads the envelope says it holds.
    pub trade_ad_count: u64,
    /// The ads, one tuple for each.
    pub trade_ads: Vec<(u64, u64, u64, String, Offer, RequestRaw)>,
}

impl RecentTradeAdsResponse {
    /// What an envelope decodes to: nothing but the refusal when it reports
    /// failure, else its ads decoded in order, all or none.
    pub open spec fn decode(
        success: bool,
        trade_ads: Seq<(u64, u64, u64, Seq<char>, OfferView, RequestRawView)>,
    ) -> Result<Seq<TradeAdView>, RoliError> {
        if !success {
            Err(RoliError::RequestReturnedUnsuccessful)
        } else {
            decode_each(trade_ads, TradeAd::decoder())
        }
    }

    /// Decodes the whole list of ads.
    pub fn into_vec(self) -> (r: Result<Vec<TradeAd>, RoliError>)
        ensures
            viewed(r) == Self::decode(self.success, self.trade_ads.deep_view()),
    {
        check_success(self.success)?;
        let ghost raws = self.trade_ads.deep_view();
        let mut trade_ads: Vec<TradeAd> = Vec::new();
        assert(raws.take(0) =~= Seq::empty());
        assert(trade_ads.deep_view() =~= Seq::empty());
        for raw in it: self.trade_ads
            invariant
                self.success,
                raws == self.trade_ads.deep_view(),
                it.seq() == self.trade_ads@,
                decode_each(raws.take(it.index()), TradeAd::decoder()) == Ok::<
                    Seq<TradeAdView>,
                    RoliError,
                >(trade_ads.deep_view()),
        {
            let ghost n = it.index();
            let ghost done = trade_ads.deep_view();
            proof {
                lemma_decode_each_step(raws, TradeAd::decoder(), n);
            }
            assert(raw.deep_view() == raws[n]);
            match TradeAd::from_raw(raw) {
                Err(e) => {
                    proof {
                        lemma_decode_each_err_stays(raws, TradeAd::decoder(), n + 1);
                    }
                    return Err(e);
                },
                Ok(trade_ad) => {
                    trade_ads.push(trade_ad);
                    assert(trade_ads.deep_view() =~= done.push(trade_ad@));
                },
            }
        }
        assert(raws.take(raws.len() as int) =~= raws);
        Ok(trade_ads)
    }
}

/// What a trade ad to be posted holds.
#[derive(Debug, PartialEq, Eq, PartialOrd, Ord, Hash, Clone, Default)]
pub struct CreateTradeAdParams {
    /// The id of the player who posts the ad.
    pub player_id: u64,
    /// The ids of the items offered.
    pub offer_item_ids: Vec<u64>,
    /// The ids of the items asked for.
    pub request_item_ids: Vec<u64>,
    /// The tags asked for.
    pub request_tags: Vec<RequestTag>,
}

/// What the status code of the answer to a posted trade ad means. Only `201`
/// says that the ad was posted.
pub open spec fn create_status_outcome(status: u16) -> Result<(), RoliError> {
    if status == 201 {
        Ok(())
    } else if status == 400 {
        Err(RoliError::CooldownNotExpired)
    } else if status == 422 {
        Err(RoliError::RoliVerificationInvalidOrExpired)
    } else if status == 429 {
        Err(RoliError::TooManyRequests)
    } else {
        Err(RoliError::UnidentifiedStatusCode(status))
    }
}

/// Decides from the status code whether a trade ad was posted.
pub fn check_create_status(status: u16) -> (r: Result<(), RoliError>)
    ensures
        r == create_status_outcome(status),
{
    if status == 201 {
        Ok(())
    } else if status == 400 {
        Err(RoliError::CooldownNotExpired)
    } else if status == 422 {
        Err(RoliError::RoliVerificationInvalidOrExpired)
    } else if status == 429 {
        Err(RoliError::TooManyRequests)
    } else {
        Err(RoliError::UnidentifiedStatusCode(status))
    }
}

/// What the transport's report on a posted trade ad means: its own failure,
/// passed on, or what the status code of the answer means.
pub open spec fn create_transport_outcome(sent: Result<u16, reqwest::Error>) -> Result<
    (),
    RoliError,
> {
    match sent {
        Ok(status) => create_status_outcome(status),
        Err(e) => Err(RoliError::ReqwestError(e)),
    }
}

/// Decides from what the transport reports, a status code or its own failure,
/// whether a trade ad was posted.
pub fn check_create_transport(sent: Result<u16, reqwest::Error>) -> (r: Result<(), RoliError>)
    ensures
        r == create_transport_outcome(sent),
{
    match sent {
        Ok(status) => check_create_status(status),
        Err(e) => Err(RoliError::from(e)),
    }
}

/// A byte that a header value may hold: a tab, or anything from the space on
/// but the delete character.
pub open spec fn is_header_value_byte(b: u8) -> bool {
    b >= 32 && b != 127 || b == 9
}

/// Text whose UTF-8 bytes a header value may hold, each of them.
pub open spec fn is_header_value(text: Seq<char>) -> bool {
    let bytes = vstd::utf8::encode_utf8(text);
    forall|i: int| 0 <= i < bytes.len() ==> is_header_value_byte(#[trigger] bytes[i])
}

/// The cookie that carries the verification token `token`.
pub open spec fn cookie_text(token: Seq<char>) -> Seq<char> {
    "_RoliVerification="@ + token
}

/// What the cookie header of a request that needs verification is: an error
/// without a token, an error for a token that no header value can hold, else
/// the cookie.
pub open spec fn cookie_outcome(token: Option<Seq<char>>) -> Result<Seq<char>, RoliError> {
    match token {
        None => Err(RoliError::RoliVerificationNotSet),
        Some(token) => if is_header_value(cookie_text(token)) {
            Ok(cookie_text(token))
        } else {
            Err(RoliError::RoliVerificationContainsInvalidCharacters)
        },
    }
}

/// Asks `reqwest::header::HeaderValue::from_str` whether `value` can be a
/// header value. That function walks the bytes of `value` and refuses it at
/// the first byte that is below 32 and not a tab, or that is 127; the result
/// here is whether it accepted.
#[verifier::external_body]
fn header_value_accepts(value: &str) -> (accepted: bool)
    ensures
        accepted == is_header_value(value@),
{
    reqwest::header::HeaderValue::from_str(value).is_ok()
}

/// Builds the cookie header that carries the verification token.
pub fn verification_cookie(roli_verification: Option<&str>) -> (r: Result<String, RoliError>)
    ensures
        viewed(r) == cookie_outcome(
            match roli_verification {
                Some(token) => Some(token@),
                None => None,
            },
        ),
{
    match roli_verification {
        None => Err(RoliError::RoliVerificationNotSet),
        Some(token) => {
            let cookie = "_RoliVerification=".to_owned().concat(token);
            if header_value_accepts(cookie.as_str()) {
                Ok(cookie)
            } else {
                Err(RoliError::RoliVerificationContainsInvalidCharacters)
            }
        },
    }
}

} // verus!
