//! Typed decoding of the Rolimons.com wire format.
//!
//! The service answers with loosely typed JSON: numbers that are sometimes
//! strings, records sent as bare arrays, enumerations sent as small integers.
//! This crate turns such payloads, once they are parsed into [`Code`] values,
//! into validated records, and classifies everything that can go wrong as a
//! [`RoliError`]. Every decoder ensures that the view of its outcome is a
//! spec function of the view of its payload: decoding has no memory, and two
//! runs on payloads with the same view end with the same view.

use vstd::prelude::*;

/// The activity feed of the deals page.
pub mod deals;
/// Base-10 integers as text.
pub mod decimal;
/// The list of tracked games.
pub mod games;
/// The group search.
pub mod groups;
/// The details of every tracked item.
pub mod items;
/// What holds of the decoders whatever the payload.
pub mod laws;
/// The feed of recent sales.
pub mod market_activity;
/// The player search and player profiles.
pub mod players;
/// Trade ads: reading the recent ones, and what posting one needs.
pub mod trade_ads;

verus! {

/// `reqwest::Error`: the transport's own account of a request that got no
/// response. It is carried through unread.
#[verifier::external_type_specification]
#[verifier::external_body]
pub struct ExReqwestError(reqwest::Error);

/// Everything that can go wrong between a request and its decoded records.
#[derive(Debug)]
pub enum RoliError {
    /// The response arrived with status 200 but says `success: false`.
    RequestReturnedUnsuccessful,
    /// The endpoint answered with status 429.
    TooManyRequests,
    /// The endpoint answered with status 500.
    InternalServerError,
    /// The response does not have the shape, types or ranges it must have.
    MalformedResponse,
    /// The verification token holds bytes that no header value may hold.
    RoliVerificationContainsInvalidCharacters,
    /// The verification token was refused as invalid or expired.
    RoliVerificationInvalidOrExpired,
    /// An endpoint that needs a verification token was used without one.
    RoliVerificationNotSet,
    /// A cooldown, such as the one between two trade ads, has not expired.
    CooldownNotExpired,
    /// The endpoint answered with a status that has no variant of its own.
    UnidentifiedStatusCode(u16),
    /// The transport failed and there is no response at all.
    ReqwestError(reqwest::Error),
}

impl Default for RoliError {
    fn default() -> (r: Self)
        ensures
            r == RoliError::TooManyRequests,
    {
        RoliError::TooManyRequests
    }
}

impl From<reqwest::Error> for RoliError {
    fn from(e: reqwest::Error) -> (r: Self) {
        RoliError::ReqwestError(e)
    }
}

impl vstd::std_specs::convert::FromSpecImpl<reqwest::Error> for RoliError {
    open spec fn obeys_from_spec() -> bool {
        true
    }

    open spec fn from_spec(e: reqwest::Error) -> Self {
        RoliError::ReqwestError(e)
    }
}

/// What the status code of a response to a query means: go on with the body,
/// or stop with an error.
pub open spec fn status_outcome(status: u16) -> Result<(), RoliError> {
    if status == 200 {
        Ok(())
    } else if status == 429 {
        Err(RoliError::TooManyRequests)
    } else if status == 500 {
        Err(RoliError::InternalServerError)
    } else {
        Err(RoliError::UnidentifiedStatusCode(status))
    }
}

/// What the transport's report means: its own failure, passed on, or what
/// the status code of the response means.
pub open spec fn transport_outcome(sent: Result<u16, reqwest::Error>) -> Result<(), RoliError> {
    match sent {
        Ok(status) => status_outcome(status),
        Err(e) => Err(RoliError::ReqwestError(e)),
    }
}

/// Decides from the status code alone, before the body is looked at, whether
/// a response to a query is decoded.
pub fn check_status(status: u16) -> (r: Result<(), RoliError>)
    ensures
        r == status_outcome(status),
{
    if status == 200 {
        Ok(())
    } else if status == 429 {
        Err(RoliError::TooManyRequests)
    } else if status == 500 {
        Err(RoliError::InternalServerError)
    } else {
        Err(RoliError::UnidentifiedStatusCode(status))
    }
}

/// Decides from what the transport reports, a status code or its own failure,
/// whether there is a response to decode.
pub fn check_transport(sent: Result<u16, reqwest::Error>) -> (r: Result<(), RoliError>)
    ensures
        r == transport_outcome(sent),
{
    match sent {
        Ok(status) => check_status(status),
        Err(e) => Err(RoliError::from(e)),
    }
}

/// Takes the body of a response as the JSON parser left it: a body that did
/// not parse into the expected envelope is malformed.
pub fn parsed_body<T>(body: Option<T>) -> (r: Result<T, RoliError>)
    ensures
        r == match body {
            Some(envelope) => Ok::<T, RoliError>(envelope),
            None => Err::<T, RoliError>(RoliError::MalformedResponse),
        },
{
    match body {
        Some(envelope) => Ok(envelope),
        None => Err(RoliError::MalformedResponse),
    }
}

/// The envelope's own verdict on the request: `success: false` ends the
/// decoding before any record is looked at.
pub fn check_success(success: bool) -> (r: Result<(), RoliError>)
    ensures
        r == if success {
            Ok::<(), RoliError>(())
        } else {
            Err::<(), RoliError>(RoliError::RequestReturnedUnsuccessful)
        },
{
    if success {
        Ok(())
    } else {
        Err(RoliError::RequestReturnedUnsuccessful)
    }
}

/// The unsigned 64-bit integer with the same two's-complement bits as `x`:
/// `x` itself when it is not negative, `x + 2^64` when it is.
pub open spec fn wire_u64(x: i64) -> u64 {
    if x >= 0 {
        x as u64
    } else {
        (x + 0x1_0000_0000_0000_0000) as u64
    }
}

/// Reads a signed wire integer as the unsigned field it fills.
pub fn i64_to_u64(x: i64) -> (r: u64)
    ensures
        r == wire_u64(x),
{
    if x >= 0 {
        x as u64
    } else {
        u64::MAX - ((-(x + 1)) as u64)
    }
}

/// The mathematical content of a [`Code`].
pub enum CodeView {
    /// A JSON integer.
    Integer(i64),
    /// A JSON string, as its characters.
    Text(Seq<char>),
}

impl CodeView {
    /// The scalar as a signed integer: an integer is itself, a string is the
    /// base-10 integer it spells, and any other string is malformed.
    pub open spec fn as_i64(self) -> Result<i64, RoliError> {
        match self {
            CodeView::Integer(x) => Ok(x),
            CodeView::Text(s) => match decimal::text_as_i64(s) {
                Some(x) => Ok(x),
                None => Err(RoliError::MalformedResponse),
            },
        }
    }

    /// The scalar as the unsigned field it fills.
    pub open spec fn as_u64(self) -> Result<u64, RoliError> {
        match self.as_i64() {
            Ok(x) => Ok(wire_u64(x)),
            Err(e) => Err(e),
        }
    }

    /// The scalar as a flag sent as a pair of integers: `1` is true, `-1` is
    /// false, and anything else is malformed.
    pub open spec fn as_flag(self) -> Result<bool, RoliError> {
        match self.as_i64() {
            Ok(x) => if x == 1 {
                Ok(true)
            } else if x == -1 {
                Ok(false)
            } else {
                Err(RoliError::MalformedResponse)
            },
            Err(e) => Err(e),
        }
    }

    /// The scalar as text: a string is itself, an integer is written in
    /// base 10.
    pub open spec fn text(self) -> Seq<char> {
        match self {
            CodeView::Integer(x) => decimal::int_text(x as int),
            CodeView::Text(s) => s,
        }
    }
}

/// One scalar of a response, which the service sends either as a JSON integer
/// or as a JSON string, with nothing to say which.
#[derive(Debug, PartialEq, Eq, PartialOrd, Ord, Hash)]
pub enum Code {
    /// The scalar was sent as an integer.
    Integer(i64),
    /// The scalar was sent as a string.
    String(String),
}

impl View for Code {
    type V = CodeView;

    open spec fn view(&self) -> CodeView {
        match self {
            Code::Integer(x) => CodeView::Integer(*x),
            Code::String(s) => CodeView::Text(s@),
        }
    }
}

impl Clone for Code {
    fn clone(&self) -> (r: Self)
        ensures
            r@ == self@,
    {
        match self {
            Code::Integer(x) => Code::Integer(*x),
            Code::String(s) => Code::String(s.clone()),
        }
    }
}

impl DeepView for Code {
    type V = CodeView;

    open spec fn deep_view(&self) -> CodeView {
        self@
    }
}

impl Code {
    /// The scalar as a signed 64-bit integer.
    pub fn to_i64(&self) -> (r: Result<i64, RoliError>)
        ensures
            r == self@.as_i64(),
    {
        match self {
            Code::Integer(x) => Ok(*x),
            Code::String(s) => match decimal::parse_i64(s.as_str()) {
                Some(x) => Ok(x),
                None => Err(RoliError::MalformedResponse),
            },
        }
    }

    /// The scalar as an unsigned 64-bit field.
    pub fn to_u64(&self) -> (r: Result<u64, RoliError>)
        ensures
            r == self@.as_u64(),
    {
        match self.to_i64() {
            Ok(x) => Ok(i64_to_u64(x)),
            Err(e) => Err(e),
        }
    }

    /// The scalar as a flag that is sent as `1` or `-1`.
    pub fn to_flag(&self) -> (r: Result<bool, RoliError>)
        ensures
            r == self@.as_flag(),
    {
        let x = self.to_i64()?;
        if x == 1 {
            Ok(true)
        } else if x == -1 {
            Ok(false)
        } else {
            Err(RoliError::MalformedResponse)
        }
    }

    /// The scalar as text, for fields that are textual whichever way they
    /// were sent.
    pub fn to_string(&self) -> (r: String)
        ensures
            r@ == self@.text(),
    {
        match self {
            Code::Integer(x) => decimal::i64_to_string(*x),
            Code::String(s) => s.clone(),
        }
    }
}

/// A string-typed scalar that holds an integer as written by
/// [`decimal::int_text`] reads back as that integer, and an integer-typed
/// scalar is read as itself.
pub proof fn lemma_code_round_trip(x: i64)
    ensures
        CodeView::Integer(x).as_i64() == Ok::<i64, RoliError>(x),
        CodeView::Text(decimal::int_text(x as int)).as_i64() == Ok::<i64, RoliError>(x),
        CodeView::Text(CodeView::Integer(x).text()).as_i64() == CodeView::Integer(x).as_i64(),
{
    decimal::lemma_i64_text_round_trip(x);
}

/// A string-typed scalar reads as an integer exactly when it spells one that
/// fits in 64 bits, and fails as malformed otherwise.
pub proof fn lemma_code_text(s: Seq<char>)
    ensures
        match decimal::signed_value(s) {
            Some(v) if i64::MIN <= v <= i64::MAX => CodeView::Text(s).as_i64() == Ok::<
                i64,
                RoliError,
            >(v as i64),
            _ => CodeView::Text(s).as_i64() == Err::<i64, RoliError>(RoliError::MalformedResponse),
        },
{
}

/// No key occurs twice among the entries of a keyed collection. A map of the
/// wire has this; no decoder asks for it.
pub open spec fn keys_are_distinct<V>(entries: Seq<(Seq<char>, V)>) -> bool {
    forall|i: int, j: int|
        0 <= i < j < entries.len() ==> (#[trigger] entries[i]).0 != (#[trigger] entries[j]).0
}

/// An outcome with its record replaced by the record's view.
pub open spec fn viewed<T: DeepView>(r: Result<T, RoliError>) -> Result<T::V, RoliError> {
    match r {
        Ok(record) => Ok(record.deep_view()),
        Err(e) => Err(e),
    }
}

/// The outcome of decoding the records of a batch in order: all of them, or
/// the error of the first one that fails.
pub open spec fn decode_each<R, T>(
    raws: Seq<R>,
    decode: spec_fn(R) -> Result<T, RoliError>,
) -> Result<Seq<T>, RoliError>
    decreases raws.len(),
{
    if raws.len() == 0 {
        Ok(Seq::empty())
    } else {
        match decode_each(raws.drop_last(), decode) {
            Err(e) => Err(e),
            Ok(done) => match decode(raws.last()) {
                Err(e) => Err(e),
                Ok(record) => Ok(done.push(record)),
            },
        }
    }
}

/// A batch decodes to a collection exactly when each of its records decodes,
/// and the collection then holds each record's result at the record's place.
pub proof fn lemma_decode_each_ok<R, T>(raws: Seq<R>, decode: spec_fn(R) -> Result<T, RoliError>)
    ensures
        decode_each(raws, decode) is Ok <==> forall|i: int|
            0 <= i < raws.len() ==> (#[trigger] decode(raws[i])) is Ok,
        decode_each(raws, decode) matches Ok(records) ==> records.len() == raws.len()
            && forall|i: int|
            0 <= i < raws.len() ==> #[trigger] decode(raws[i]) == Ok::<T, RoliError>(records[i]),
    decreases raws.len(),
{
    if raws.len() > 0 {
        let front = raws.drop_last();
        lemma_decode_each_ok(front, decode);
        assert(forall|i: int| 0 <= i < front.len() ==> front[i] == raws[i]);
        if decode_each(raws, decode) is Ok {
            assert forall|i: int| 0 <= i < raws.len() implies (#[trigger] decode(raws[i])) is Ok by {
                if i < front.len() {
                    assert(front[i] == raws[i]);
                }
            }
        }
    }
}

/// A batch that fails fails with the error of its first failing record: no
/// record before that one fails, and nothing else decides the error.
pub proof fn lemma_decode_each_err<R, T>(raws: Seq<R>, decode: spec_fn(R) -> Result<T, RoliError>)
    ensures
        decode_each(raws, decode) matches Err(e) ==> exists|i: int|
            0 <= i < raws.len() && #[trigger] decode(raws[i]) == Err::<T, RoliError>(e)
                && forall|j: int| 0 <= j < i ==> (#[trigger] decode(raws[j])) is Ok,
    decreases raws.len(),
{
    if raws.len() > 0 {
        let front = raws.drop_last();
        lemma_decode_each_err(front, decode);
        lemma_decode_each_ok(front, decode);
        assert(forall|i: int| 0 <= i < front.len() ==> front[i] == raws[i]);
        match decode_each(front, decode) {
            Err(e) => {
                let i = choose|i: int|
                    0 <= i < front.len() && #[trigger] decode(front[i]) == Err::<T, RoliError>(e)
                        && forall|j: int| 0 <= j < i ==> (#[trigger] decode(front[j])) is Ok;
                assert(decode(raws[i]) == Err::<T, RoliError>(e));
                assert forall|j: int| 0 <= j < i implies (#[trigger] decode(raws[j])) is Ok by {
                    assert(front[j] == raws[j]);
                }
            },
            Ok(done) => {
                if decode(raws.last()) is Err {
                    let i = raws.len() - 1;
                    assert forall|j: int| 0 <= j < i implies (#[trigger] decode(raws[j])) is Ok by {
                        assert(front[j] == raws[j]);
                    }
                    assert(decode(raws[i]) is Err);
                }
            },
        }
    }
}

/// Decoding one more record after a batch: the batch's error if it has one,
/// else the record's, else the batch's records with the new one at the end.
pub proof fn lemma_decode_each_step<R, T>(
    raws: Seq<R>,
    decode: spec_fn(R) -> Result<T, RoliError>,
    n: int,
)
    requires
        0 <= n < raws.len(),
    ensures
        decode_each(raws.take(n + 1), decode) == match decode_each(raws.take(n), decode) {
            Err(e) => Err::<Seq<T>, RoliError>(e),
            Ok(done) => match decode(raws[n]) {
                Err(e) => Err(e),
                Ok(record) => Ok(done.push(record)),
            },
        },
{
    assert(raws.take(n + 1).drop_last() =~= raws.take(n));
}

/// Once a front part of a batch has failed, the whole batch fails the same way.
pub proof fn lemma_decode_each_err_stays<R, T>(
    raws: Seq<R>,
    decode: spec_fn(R) -> Result<T, RoliError>,
    n: int,
)
    requires
        0 <= n <= raws.len(),
        decode_each(raws.take(n), decode) is Err,
    ensures
        decode_each(raws, decode) == decode_each(raws.take(n), decode),
    decreases raws.len() - n,
{
    if n < raws.len() {
        lemma_decode_each_step(raws, decode, n);
        lemma_decode_each_err_stays(raws, decode, n + 1);
    } else {
        assert(raws.take(n) =~= raws);
    }
}

} // verus!
