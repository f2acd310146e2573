//! The feed's event payloads and their tolerant two-phase decode.
//!
//! A payload is one flat JSON object.  Whether data exists or not its shape
//! is the same, except that the meaningful fields become empty strings in the
//! absent case; the status block's message alone distinguishes the two.  The
//! decode therefore probes the status block first, dispatches on the "no
//! data" sentinel, and only then commits to the strict field normalization.

use vstd::prelude::*;

use crate::client::KMoniClient;
use crate::decimal::parse_decimal;
use crate::decimal::spec_parse_decimal;
use crate::decimal::Decimal;
use crate::json::doc_bool_field;
use crate::json::doc_nested_str_field;
use crate::json::doc_str_field;
use crate::json::json_bool_field;
use crate::json::json_nested_str_field;
use crate::json::json_str_field;
use crate::text::parse_u32;
use crate::text::spec_parse_u32;
use crate::text::str_eq;
use crate::timestamp::parse_compact;
use crate::timestamp::parse_slash;
use crate::timestamp::spec_parse_compact;
use crate::timestamp::spec_parse_slash;
use crate::timestamp::Timestamp;

verus! {

/// Why a payload failed to decode into a typed record.
#[derive(Clone, Copy, Debug, PartialEq, Eq, Structural)]
pub enum DecodeError {
    /// The document is not JSON of the expected shape, even for the narrow
    /// status probe.
    Malformed,
    /// A present timestamp field is not in its expected textual format.
    BadTimestamp,
    /// A present numeric field does not parse as a number.
    NotNumeric,
    /// The depth field lacks its mandatory `km` unit suffix.
    UnitSuffixMissing,
}

/// The status/message pair embedded in every feed response.
#[derive(Debug, PartialEq, Eq)]
pub struct ResultRawResponse {
    pub status: String,
    pub message: String,
}

/// The outcome of the narrow first decode phase: just the status block.
#[derive(Debug, PartialEq, Eq)]
pub struct EEWOnlyResult {
    pub result: ResultRawResponse,
}

/// One decoded early-warning report, with every field normalized.
#[derive(Debug, PartialEq)]
pub struct EEW {
    pub result: ResultRawResponse,
    pub report_time: Timestamp,
    pub region_code: String,
    pub request_time: Timestamp,
    pub region_name: String,
    pub longitude: Decimal,
    pub is_cancel: bool,
    pub depth: u32,
    pub calcintensity: String,
    pub is_final: bool,
    pub is_training: bool,
    pub latitude: Decimal,
    pub origin_time: Timestamp,
    pub magunitude: Decimal,
    pub report_num: u32,
    pub request_hypo_type: String,
    pub report_id: String,
}

/// The mathematical reading of a decoded report.
pub ghost struct EEWV {
    pub status: Seq<char>,
    pub message: Seq<char>,
    pub report_time: Timestamp,
    pub region_code: Seq<char>,
    pub request_time: Timestamp,
    pub region_name: Seq<char>,
    pub longitude: Decimal,
    pub is_cancel: bool,
    pub depth: u32,
    pub calcintensity: Seq<char>,
    pub is_final: bool,
    pub is_training: bool,
    pub latitude: Decimal,
    pub origin_time: Timestamp,
    pub magunitude: Decimal,
    pub report_num: u32,
    pub request_hypo_type: Seq<char>,
    pub report_id: Seq<char>,
}

impl View for EEW {
    type V = EEWV;

    open spec fn view(&self) -> EEWV {
        EEWV {
            status: self.result.status@,
            message: self.result.message@,
            report_time: self.report_time,
            region_code: self.region_code@,
            request_time: self.request_time,
            region_name: self.region_name@,
            longitude: self.longitude,
            is_cancel: self.is_cancel,
            depth: self.depth,
            calcintensity: self.calcintensity@,
            is_final: self.is_final,
            is_training: self.is_training,
            latitude: self.latitude,
            origin_time: self.origin_time,
            magunitude: self.magunitude,
            report_num: self.report_num,
            request_hypo_type: self.request_hypo_type@,
            report_id: self.report_id@,
        }
    }
}

impl EEW {
    /// The timestamps of a decoded record are calendar-valid.
    pub open spec fn wf(self) -> bool {
        self.report_time.valid() && self.request_time.valid() && self.origin_time.valid()
    }
}

/// The status message that marks a valid "no data yet" outcome.
pub open spec fn no_data_message() -> Seq<char> {
    "データがありません"@
}

/// First-phase decode: the two strings of the status block, or a structural
/// failure when even that narrow probe does not fit the document.
pub open spec fn spec_decode_status(doc: Seq<char>) -> Result<(Seq<char>, Seq<char>), DecodeError> {
    match (
        doc_nested_str_field(doc, "result"@, "status"@),
        doc_nested_str_field(doc, "result"@, "message"@),
    ) {
        (Some(st), Some(msg)) => Ok((st, msg)),
        _ => Err(DecodeError::Malformed),
    }
}

/// Whether every field of a populated payload is present in its raw wire type.
pub open spec fn fields_present(doc: Seq<char>) -> bool {
    &&& doc_str_field(doc, "report_time"@) is Some
    &&& doc_str_field(doc, "region_code"@) is Some
    &&& doc_str_field(doc, "request_time"@) is Some
    &&& doc_str_field(doc, "region_name"@) is Some
    &&& doc_str_field(doc, "longitude"@) is Some
    &&& doc_bool_field(doc, "is_cancel"@) is Some
    &&& doc_str_field(doc, "depth"@) is Some
    &&& doc_str_field(doc, "calcintensity"@) is Some
    &&& doc_bool_field(doc, "is_final"@) is Some
    &&& doc_bool_field(doc, "is_training"@) is Some
    &&& doc_str_field(doc, "latitude"@) is Some
    &&& doc_str_field(doc, "origin_time"@) is Some
    &&& doc_str_field(doc, "magunitude"@) is Some
    &&& doc_str_field(doc, "report_num"@) is Some
    &&& doc_str_field(doc, "request_hypo_type"@) is Some
    &&& doc_str_field(doc, "report_id"@) is Some
}

/// Whether `s` ends in the `km` unit suffix.
pub open spec fn has_km_suffix(s: Seq<char>) -> bool {
    s.len() >= 2 && s[s.len() - 2] == 'k' && s[s.len() - 1] == 'm'
}

/// Depth normalization: an unsigned integer with a mandatory `km` suffix.
pub open spec fn spec_parse_depth(s: Seq<char>) -> Result<u32, DecodeError> {
    if !has_km_suffix(s) {
        Err(DecodeError::UnitSuffixMissing)
    } else {
        match spec_parse_u32(s.take(s.len() - 2)) {
            Some(v) => Ok(v),
            None => Err(DecodeError::NotNumeric),
        }
    }
}

/// Second-phase decode of a populated (non-sentinel) payload: every field is
/// normalized, and any failure is atomic — no partial record.
pub open spec fn spec_decode_full(
    doc: Seq<char>,
    status: Seq<char>,
    message: Seq<char>,
) -> Result<Option<EEWV>, DecodeError> {
    if !fields_present(doc) {
        Err(DecodeError::Malformed)
    } else {
        let report_time = spec_parse_slash(doc_str_field(doc, "report_time"@)->0);
        let request_time = spec_parse_compact(doc_str_field(doc, "request_time"@)->0);
        let longitude = spec_parse_decimal(doc_str_field(doc, "longitude"@)->0);
        let depth = spec_parse_depth(doc_str_field(doc, "depth"@)->0);
        let latitude = spec_parse_decimal(doc_str_field(doc, "latitude"@)->0);
        let origin_time = spec_parse_compact(doc_str_field(doc, "origin_time"@)->0);
        let magunitude = spec_parse_decimal(doc_str_field(doc, "magunitude"@)->0);
        let report_num = spec_parse_u32(doc_str_field(doc, "report_num"@)->0);
        if report_time is None {
            Err(DecodeError::BadTimestamp)
        } else if request_time is None {
            Err(DecodeError::BadTimestamp)
        } else if longitude is None {
            Err(DecodeError::NotNumeric)
        } else if depth is Err {
            Err(depth->Err_0)
        } else if latitude is None {
            Err(DecodeError::NotNumeric)
        } else if origin_time is None {
            Err(DecodeError::BadTimestamp)
        } else if magunitude is None {
            Err(DecodeError::NotNumeric)
        } else if report_num is None {
            Err(DecodeError::NotNumeric)
        } else {
            Ok(
                Some(
                    EEWV {
                        status,
                        message,
                        report_time: report_time->0,
                        region_code: doc_str_field(doc, "region_code"@)->0,
                        request_time: request_time->0,
                        region_name: doc_str_field(doc, "region_name"@)->0,
                        longitude: longitude->0,
                        is_cancel: doc_bool_field(doc, "is_cancel"@)->0,
                        depth: depth->Ok_0,
                        calcintensity: doc_str_field(doc, "calcintensity"@)->0,
                        is_final: doc_bool_field(doc, "is_final"@)->0,
                        is_training: doc_bool_field(doc, "is_training"@)->0,
                        latitude: latitude->0,
                        origin_time: origin_time->0,
                        magunitude: magunitude->0,
                        report_num: report_num->0,
                        request_hypo_type: doc_str_field(doc, "request_hypo_type"@)->0,
                        report_id: doc_str_field(doc, "report_id"@)->0,
                    },
                ),
            )
        }
    }
}

/// The whole two-phase decode of one event payload.
pub open spec fn spec_decode(doc: Seq<char>) -> Result<Option<EEWV>, DecodeError> {
    match spec_decode_status(doc) {
        Err(e) => Err(e),
        Ok((status, message)) => {
            if message == no_data_message() {
                Ok(None)
            } else {
                spec_decode_full(doc, status, message)
            }
        },
    }
}

/// Decides the first decode phase: only the status block is read, so the
/// probe tolerates any other field values.
pub fn decode_status(doc: &str) -> (r: Result<EEWOnlyResult, DecodeError>)
    ensures
        match r {
            Ok(p) => spec_decode_status(doc@) == Ok::<_, DecodeError>(
                (p.result.status@, p.result.message@),
            ),
            Err(e) => spec_decode_status(doc@) == Err::<(Seq<char>, Seq<char>), _>(e),
        },
{
    let status = match json_nested_str_field(doc, "result", "status") {
        Some(s) => s,
        None => {
            return Err(DecodeError::Malformed);
        },
    };
    let message = match json_nested_str_field(doc, "result", "message") {
        Some(s) => s,
        None => {
            return Err(DecodeError::Malformed);
        },
    };
    Ok(EEWOnlyResult { result: ResultRawResponse { status, message } })
}

/// Parses the depth field: digits with a mandatory `km` suffix.
pub fn parse_depth(s: &str) -> (r: Result<u32, DecodeError>)
    ensures
        r == spec_parse_depth(s@),
{
    let n = s.unicode_len();
    if n < 2 || s.get_char(n - 2) != 'k' || s.get_char(n - 1) != 'm' {
        return Err(DecodeError::UnitSuffixMissing);
    }
    let body = s.substring_char(0, n - 2);
    proof {
        assert(body@ =~= s@.take(s@.len() - 2));
    }
    match parse_u32(body) {
        Some(v) => Ok(v),
        None => Err(DecodeError::NotNumeric),
    }
}

impl KMoniClient {
    /// Decodes one event payload in two phases: a sentinel "no data" message
    /// yields `Ok(None)`; a populated payload yields a fully normalized
    /// record, or fails atomically with the first field's failure.
    pub fn parse_eew(json: &str) -> (r: Result<Option<EEW>, DecodeError>)
        ensures
            match r {
                Ok(Some(e)) => spec_decode(json@) == Ok::<Option<EEWV>, DecodeError>(Some(e@)) && e.wf(),
                Ok(None) => spec_decode(json@) == Ok::<Option<EEWV>, DecodeError>(None),
                Err(er) => spec_decode(json@) == Err::<Option<EEWV>, _>(er),
            },
    {
        let probe = match decode_status(json) {
            Ok(p) => p,
            Err(e) => {
                return Err(e);
            },
        };
        if str_eq(probe.result.message.as_str(), "データがありません") {
            return Ok(None);
        }
        let report_time_s = match json_str_field(json, "report_time") {
            Some(s) => s,
            None => {
                return Err(DecodeError::Malformed);
            },
        };
        let region_code = match json_str_field(json, "region_code") {
            Some(s) => s,
            None => {
                return Err(DecodeError::Malformed);
            },
        };
        let request_time_s = match json_str_field(json, "request_time") {
            Some(s) => s,
            None => {
                return Err(DecodeError::Malformed);
            },
        };
        let region_name = match json_str_field(json, "region_name") {
            Some(s) => s,
            None => {
                return Err(DecodeError::Malformed);
            },
        };
        let longitude_s = match json_str_field(json, "longitude") {
            Some(s) => s,
            None => {
                return Err(DecodeError::Malformed);
            },
        };
        let is_cancel = match json_bool_field(json, "is_cancel") {
            Some(b) => b,
            None => {
                return Err(DecodeError::Malformed);
            },
        };
        let depth_s = match json_str_field(json, "depth") {
            Some(s) => s,
            None => {
                return Err(DecodeError::Malformed);
            },
        };
        let calcintensity = match json_str_field(json, "calcintensity") {
            Some(s) => s,
            None => {
                return Err(DecodeError::Malformed);
            },
        };
        let is_final = match json_bool_field(json, "is_final") {
            Some(b) => b,
            None => {
                return Err(DecodeError::Malformed);
            },
        };
        let is_training = match json_bool_field(json, "is_training") {
            Some(b) => b,
            None => {
                return Err(DecodeError::Malformed);
            },
        };
        let latitude_s = match json_str_field(json, "latitude") {
            Some(s) => s,
            None => {
                return Err(DecodeError::Malformed);
            },
        };
        let origin_time_s = match json_str_field(json, "origin_time") {
            Some(s) => s,
            None => {
                return Err(DecodeError::Malformed);
            },
        };
        let magunitude_s = match json_str_field(json, "magunitude") {
            Some(s) => s,
            None => {
                return Err(DecodeError::Malformed);
            },
        };
        let report_num_s = match json_str_field(json, "report_num") {
            Some(s) => s,
            None => {
                return Err(DecodeError::Malformed);
            },
        };
        let request_hypo_type = match json_str_field(json, "request_hypo_type") {
            Some(s) => s,
            None => {
                return Err(DecodeError::Malformed);
            },
        };
        let report_id = match json_str_field(json, "report_id") {
            Some(s) => s,
            None => {
                return Err(DecodeError::Malformed);
            },
        };
        let report_time = match parse_slash(report_time_s.as_str()) {
            Some(t) => t,
            None => {
                return Err(DecodeError::BadTimestamp);
            },
        };
        let request_time = match parse_compact(request_time_s.as_str()) {
            Some(t) => t,
            None => {
                return Err(DecodeError::BadTimestamp);
            },
        };
        let longitude = match parse_decimal(longitude_s.as_str()) {
            Some(d) => d,
            None => {
                return Err(DecodeError::NotNumeric);
            },
        };
        let depth = match parse_depth(depth_s.as_str()) {
            Ok(v) => v,
            Err(e) => {
                return Err(e);
            },
        };
        let latitude = match parse_decimal(latitude_s.as_str()) {
            Some(d) => d,
            None => {
                return Err(DecodeError::NotNumeric);
            },
        };
        let origin_time = match parse_compact(origin_time_s.as_str()) {
            Some(t) => t,
            None => {
                return Err(DecodeError::BadTimestamp);
            },
        };
        let magunitude = match parse_decimal(magunitude_s.as_str()) {
            Some(d) => d,
            None => {
                return Err(DecodeError::NotNumeric);
            },
        };
        let report_num = match parse_u32(report_num_s.as_str()) {
            Some(v) => v,
            None => {
                return Err(DecodeError::NotNumeric);
            },
        };
        Ok(
            Some(
                EEW {
                    result: probe.result,
                    report_time,
                    region_code,
                    request_time,
                    region_name,
                    longitude,
                    is_cancel,
                    depth,
                    calcintensity,
                    is_final,
                    is_training,
                    latitude,
                    origin_time,
                    magunitude,
                    report_num,
                    request_hypo_type,
                    report_id,
                },
            ),
        )
    }
}

/// Decoding any payload whose status message is the "no data" sentinel
/// yields the absent outcome, never an error, whatever every other field
/// holds.
pub proof fn lemma_no_data_yields_absent(doc: Seq<char>)
    requires
        spec_decode_status(doc) is Ok,
        spec_decode_status(doc)->Ok_0.1 == no_data_message(),
    ensures
        spec_decode(doc) == Ok::<Option<EEWV>, DecodeError>(None),
{
}

/// A populated payload whose depth field lacks the `km` unit suffix fails
/// with the unit-suffix error — it is never truncated or defaulted — as
/// long as the fields checked before depth normalize.
pub proof fn lemma_depth_without_suffix_fails(doc: Seq<char>)
    requires
        spec_decode_status(doc) is Ok,
        spec_decode_status(doc)->Ok_0.1 != no_data_message(),
        fields_present(doc),
        spec_parse_slash(doc_str_field(doc, "report_time"@)->0) is Some,
        spec_parse_compact(doc_str_field(doc, "request_time"@)->0) is Some,
        spec_parse_decimal(doc_str_field(doc, "longitude"@)->0) is Some,
        !has_km_suffix(doc_str_field(doc, "depth"@)->0),
    ensures
        spec_decode(doc) == Err::<Option<EEWV>, DecodeError>(DecodeError::UnitSuffixMissing),
{
}

} // verus!
