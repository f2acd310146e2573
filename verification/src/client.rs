//! The client itself: one-shot clock-offset estimation, and prediction of
//! report identifiers and URLs from the estimated delay.

use vstd::prelude::*;

use crate::json::doc_str_field;
use crate::json::json_str_field;
use crate::record::spec_decode_status;
use crate::record::decode_status;
use crate::record::DecodeError;
use crate::record::ResultRawResponse;
use crate::timestamp::civil_from_epoch;
use crate::timestamp::compact_chars;
use crate::timestamp::epoch_civil;
use crate::timestamp::epoch_of;
use crate::timestamp::format_compact;
use crate::timestamp::parse_slash;
use crate::timestamp::spec_parse_slash;
use crate::timestamp::timestamp_epoch;
use crate::timestamp::Timestamp;
use crate::timestamp::FEED_OFFSET_SECONDS;
use crate::timestamp::MAX_FEED_EPOCH;

verus! {

/// A feed client: the publication delay measured once at construction, and
/// read-only thereafter.  Every prediction is a pure function of this one
/// value and a caller-supplied clock reading, so concurrent readers share it
/// safely.
#[derive(Clone, Copy, Debug)]
pub struct KMoniClient {
    delay: i64,
}

/// The decoded body of the reference "latest data" endpoint.
#[derive(Debug, PartialEq, Eq)]
pub struct LatestDataTimeResponse {
    pub latest_time: Timestamp,
    pub request_time: Timestamp,
    pub result: ResultRawResponse,
}

/// The measured lag: wall-clock `now` minus the feed's latest published
/// time, the latter read at the feed's fixed UTC+9 offset.
pub open spec fn spec_delay_of(now_utc: int, latest: Timestamp) -> int {
    now_utc - (epoch_of(latest) - FEED_OFFSET_SECONDS)
}

/// The compact identifier predicted for wall-clock `now` under `delay`: the
/// feed time `now - delay`, read at UTC+9, in compact form.
pub open spec fn spec_identifier(now_utc: int, delay: int) -> Seq<char> {
    compact_chars(civil_from_epoch(now_utc - delay + FEED_OFFSET_SECONDS))
}

/// What decoding the reference endpoint's body yields: its two slash-format
/// timestamps and the two strings of its status block.
pub open spec fn spec_decode_latest(doc: Seq<char>) -> Result<
    (Timestamp, Timestamp, Seq<char>, Seq<char>),
    DecodeError,
> {
    match spec_decode_status(doc) {
        Err(e) => Err(e),
        Ok((status, message)) => {
            match (doc_str_field(doc, "latest_time"@), doc_str_field(doc, "request_time"@)) {
                (Some(lt), Some(rt)) => {
                    match (spec_parse_slash(lt), spec_parse_slash(rt)) {
                        (Some(l), Some(r)) => Ok((l, r, status, message)),
                        _ => Err(DecodeError::BadTimestamp),
                    }
                },
                _ => Err(DecodeError::Malformed),
            }
        },
    }
}

/// Decodes the reference endpoint's body.
pub fn decode_latest(doc: &str) -> (r: Result<LatestDataTimeResponse, DecodeError>)
    ensures
        match r {
            Ok(l) => {
                &&& spec_decode_latest(doc@) == Ok::<_, DecodeError>(
                    (l.latest_time, l.request_time, l.result.status@, l.result.message@),
                )
                &&& l.latest_time.valid()
                &&& l.request_time.valid()
            },
            Err(e) => spec_decode_latest(doc@) == Err::<
                (Timestamp, Timestamp, Seq<char>, Seq<char>),
                _,
            >(e),
        },
{
    let probe = match decode_status(doc) {
        Ok(p) => p,
        Err(e) => {
            return Err(e);
        },
    };
    let latest_s = match json_str_field(doc, "latest_time") {
        Some(s) => s,
        None => {
            return Err(DecodeError::Malformed);
        },
    };
    let request_s = match json_str_field(doc, "request_time") {
        Some(s) => s,
        None => {
            return Err(DecodeError::Malformed);
        },
    };
    let latest_time = match parse_slash(latest_s.as_str()) {
        Some(t) => t,
        None => {
            return Err(DecodeError::BadTimestamp);
        },
    };
    let request_time = match parse_slash(request_s.as_str()) {
        Some(t) => t,
        None => {
            return Err(DecodeError::BadTimestamp);
        },
    };
    Ok(LatestDataTimeResponse { latest_time, request_time, result: probe.result })
}

impl KMoniClient {
    /// The estimated publication delay, in seconds.
    pub closed spec fn spec_delay(self) -> int {
        self.delay as int
    }

    /// Reads the delay the client was built with.
    pub fn delay_seconds(&self) -> (d: i64)
        ensures
            d == self.spec_delay(),
    {
        self.delay
    }

    /// Wraps an already measured delay.
    pub fn from_delay(delay: i64) -> (c: KMoniClient)
        ensures
            c.spec_delay() == delay,
    {
        KMoniClient { delay }
    }

    /// The delay measured from one reference reading: `now` minus the
    /// latest published time interpreted at the feed's fixed UTC+9 offset,
    /// exact to the second.
    pub fn estimate_delay(now_utc: i64, latest: &Timestamp) -> (d: i64)
        requires
            latest.valid(),
            0 <= now_utc <= MAX_FEED_EPOCH,
        ensures
            d == spec_delay_of(now_utc as int, *latest),
    {
        let e = timestamp_epoch(latest);
        now_utc - (e - FEED_OFFSET_SECONDS)
    }

    /// Builds a client from one reference reading, freezing the measured
    /// delay for the client's lifetime.
    pub fn from_reference(now_utc: i64, latest: &Timestamp) -> (c: KMoniClient)
        requires
            latest.valid(),
            0 <= now_utc <= MAX_FEED_EPOCH,
        ensures
            c.spec_delay() == spec_delay_of(now_utc as int, *latest),
    {
        KMoniClient { delay: KMoniClient::estimate_delay(now_utc, latest) }
    }

    /// The compact report identifier predicted for wall-clock `now`.
    pub fn predicted_identifier(&self, now_utc: i64) -> (s: String)
        requires
            0 <= now_utc - self.spec_delay() + FEED_OFFSET_SECONDS <= MAX_FEED_EPOCH,
        ensures
            s@ == spec_identifier(now_utc as int, self.spec_delay()),
    {
        let feed_e = now_utc - self.delay + FEED_OFFSET_SECONDS;
        let ts = epoch_civil(feed_e);
        format_compact(&ts)
    }

    /// The full report URL for the predicted identifier.
    pub fn report_url(&self, now_utc: i64) -> (s: String)
        requires
            0 <= now_utc - self.spec_delay() + FEED_OFFSET_SECONDS <= MAX_FEED_EPOCH,
        ensures
            s@ == "http://www.kmoni.bosai.go.jp/webservice/hypo/eew/"@ + spec_identifier(
                now_utc as int,
                self.spec_delay(),
            ) + ".json"@,
    {
        let mut url = String::from_str("http://www.kmoni.bosai.go.jp/webservice/hypo/eew/");
        let id = self.predicted_identifier(now_utc);
        url.append(id.as_str());
        url.append(".json");
        url
    }

    /// The identifier predicted for the present moment, when the clock's
    /// reading and the stored delay admit one.
    pub fn current_identifier(&self) -> (r: Option<String>)
        ensures
            r matches Some(s) ==> exists|now: int|
                0 <= now - self.spec_delay() + FEED_OFFSET_SECONDS <= MAX_FEED_EPOCH && s@
                    == spec_identifier(now, self.spec_delay()),
    {
        let now = now_epoch_utc();
        if !(-300_000_000_000 <= now && now <= 300_000_000_000) {
            return None;
        }
        if !(-300_000_000_000 <= self.delay && self.delay <= 300_000_000_000) {
            return None;
        }
        let feed_e = now - self.delay + FEED_OFFSET_SECONDS;
        if 0 <= feed_e && feed_e <= MAX_FEED_EPOCH {
            let s = self.predicted_identifier(now);
            proof {
                assert(0 <= now - self.spec_delay() + FEED_OFFSET_SECONDS <= MAX_FEED_EPOCH && s@
                    == spec_identifier(now as int, self.spec_delay()));
            }
            Some(s)
        } else {
            None
        }
    }
}

/// Relies on `time::OffsetDateTime::now_utc` and `unix_timestamp`: the
/// current wall-clock time in seconds since the epoch.  Nothing is assumed
/// of the reading; callers state what holds of every outcome.
#[verifier::external_body]
fn now_epoch_utc() -> i64 {
    time::OffsetDateTime::now_utc().unix_timestamp()
}

/// Predicted identifiers are deterministic: two predictions from the same
/// `(now, delay)` pair are the same text.
pub proof fn lemma_identifier_deterministic(now_utc: int, delay: int, a: Seq<char>, b: Seq<char>)
    requires
        a == spec_identifier(now_utc, delay),
        b == spec_identifier(now_utc, delay),
    ensures
        a == b,
{
}

} // verus!
