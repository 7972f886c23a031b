//! Results of evaluations by the WAF: what a run's status code means, and what
//! a run's output holds.
use vstd::prelude::*;

use core::time::Duration;
use vstd::string::StringSliceAdditionalSpecFns;
use crate::object::{
    first_match, key_is_bytes, Keyed, WafMap, WafObject, WafObjectType,
    WafOwnedOutputAllocator,
};
use crate::raw::{
    DDWAF_ERR_INTERNAL, DDWAF_ERR_INVALID_ARGUMENT, DDWAF_ERR_INVALID_OBJECT, DDWAF_MATCH,
    DDWAF_OK, DDWAF_RET_CODE,
};

verus! {

// ---------------------------------------------------------------------------
// Durations
// ---------------------------------------------------------------------------

/// The duration of `nanos` nanoseconds, as `Duration::from_nanos` builds it.
pub uninterp spec fn duration_from_nanos(nanos: u64) -> Duration;

/// The whole number of microseconds in `d`, as `Duration::as_micros` gives it.
pub uninterp spec fn duration_as_micros(d: Duration) -> u128;

/// Calls `Duration::from_nanos`; its result depends on `nanos` alone.
#[verifier::external_body]
fn nanos_to_duration(nanos: u64) -> (r: Duration)
    ensures
        r == duration_from_nanos(nanos),
{
    Duration::from_nanos(nanos)
}

/// Calls `Duration::as_micros`; its result depends on `d` alone.
#[verifier::external_body]
fn micros_of(d: &Duration) -> (r: u128)
    ensures
        r == duration_as_micros(*d),
{
    d.as_micros()
}

/// The time budget handed to the WAF for a run: the timeout in microseconds,
/// saturated at [`u64::MAX`].
pub open spec fn spec_timeout_budget(timeout: Duration) -> u64 {
    if duration_as_micros(timeout) > u64::MAX as u128 {
        u64::MAX
    } else {
        duration_as_micros(timeout) as u64
    }
}

/// Returns the time budget handed to the WAF for a run with this timeout: its
/// length in microseconds, saturated at [`u64::MAX`].
pub fn timeout_budget(timeout: Duration) -> (r: u64)
    ensures
        r == spec_timeout_budget(timeout),
{
    let micros = micros_of(&timeout);
    if micros > u64::MAX as u128 {
        u64::MAX
    } else {
        micros as u64
    }
}

// ---------------------------------------------------------------------------
// Run status
// ---------------------------------------------------------------------------

/// The result of a run of the WAF.
#[derive(Debug)]
pub enum RunResult {
    /// The WAF successfully processed the request, and produced no match.
    NoMatch(RunOutput),
    /// The WAF successfully processed the request and some event rules matched
    /// some of the supplied address data.
    Match(RunOutput),
}

/// The error that can occur during a run of the WAF.
#[non_exhaustive]
#[derive(Debug, PartialEq, Eq, Structural)]
pub enum RunError {
    /// The WAF encountered an internal error while processing the request.
    InternalError,
    /// The WAF encountered an invalid object while processing the request.
    InvalidObject,
    /// The WAF encountered an invalid argument while processing the request.
    InvalidArgument,
}

impl RunError {
    /// The message describing the error.
    pub open spec fn spec_message(self) -> Seq<char> {
        match self {
            RunError::InternalError => "The WAF encountered an internal error"@,
            RunError::InvalidObject => "The WAF encountered an invalid object"@,
            RunError::InvalidArgument => "The WAF encountered an invalid argument"@,
        }
    }

    /// Returns the message describing the error.
    pub fn message(&self) -> (r: &'static str)
        ensures
            r@ == self.spec_message(),
    {
        match self {
            RunError::InternalError => "The WAF encountered an internal error",
            RunError::InvalidObject => "The WAF encountered an invalid object",
            RunError::InvalidArgument => "The WAF encountered an invalid argument",
        }
    }
}

/// An unexpected internal error in the WAF, outside of runs.
#[derive(Debug)]
pub struct InternalError {}

impl InternalError {
    /// Returns the message describing the error.
    pub fn message(&self) -> (r: &'static str)
        ensures
            r@ == "An unexpected internal error occurred in the WAF; check the error logs"@,
    {
        "An unexpected internal error occurred in the WAF; check the error logs"
    }
}

/// The status codes a run of the WAF returns.
pub open spec fn is_run_status(status: DDWAF_RET_CODE) -> bool {
    ||| status == DDWAF_ERR_INTERNAL
    ||| status == DDWAF_ERR_INVALID_OBJECT
    ||| status == DDWAF_ERR_INVALID_ARGUMENT
    ||| status == DDWAF_OK
    ||| status == DDWAF_MATCH
}

/// What a run's status code means: a match or no match, with the run's output,
/// or the error it reports.
pub open spec fn spec_run_result(status: DDWAF_RET_CODE, output: RunOutput) -> Result<
    RunResult,
    RunError,
> {
    if status == DDWAF_MATCH {
        Ok(RunResult::Match(output))
    } else if status == DDWAF_OK {
        Ok(RunResult::NoMatch(output))
    } else if status == DDWAF_ERR_INTERNAL {
        Err(RunError::InternalError)
    } else if status == DDWAF_ERR_INVALID_OBJECT {
        Err(RunError::InvalidObject)
    } else {
        Err(RunError::InvalidArgument)
    }
}

/// Decodes the status code of a run, given the output the run produced.
pub fn run_result(status: DDWAF_RET_CODE, output: RunOutput) -> (r: Result<RunResult, RunError>)
    requires
        is_run_status(status),
    ensures
        r == spec_run_result(status, output),
{
    if status == DDWAF_MATCH {
        Ok(RunResult::Match(output))
    } else if status == DDWAF_OK {
        Ok(RunResult::NoMatch(output))
    } else if status == DDWAF_ERR_INTERNAL {
        Err(RunError::InternalError)
    } else if status == DDWAF_ERR_INVALID_OBJECT {
        Err(RunError::InvalidObject)
    } else {
        Err(RunError::InvalidArgument)
    }
}

/// Returns whether the WAF kept the input data of a run with this status: it
/// does for every status but [`DDWAF_ERR_INVALID_ARGUMENT`], after which the
/// data is still the caller's to release.
pub fn waf_keeps_input(status: DDWAF_RET_CODE) -> (r: bool)
    requires
        is_run_status(status),
    ensures
        r == (status != DDWAF_ERR_INVALID_ARGUMENT),
{
    status != DDWAF_ERR_INVALID_ARGUMENT
}

// ---------------------------------------------------------------------------
// Run output
// ---------------------------------------------------------------------------

/// The value of the first entry whose key is a string with the bytes `key`.
pub open spec fn entry_value(entries: Seq<Keyed<WafObject>>, key: Seq<u8>) -> Option<WafObject> {
    match first_match(entries, key_is_bytes(key)) {
        Some(i) => Some(entries[i].spec_value()),
        None => None,
    }
}

/// A flag of the output: the value under the key if it is a boolean, else false.
pub open spec fn flag_value(v: Option<WafObject>) -> bool {
    match v {
        Some(o) => o.spec_to_bool() == Some(true),
        None => false,
    }
}

/// A count of the output: the value under the key if it is an unsigned integer,
/// else zero.
pub open spec fn count_value(v: Option<WafObject>) -> u64 {
    match v {
        Some(o) => match o.spec_to_u64() {
            Some(n) => n,
            None => 0,
        },
        None => 0,
    }
}

/// The data produced by a run of the WAF: a map owned by the Rust-registered
/// allocator.
#[derive(Debug)]
pub struct RunOutput {
    data: WafOwnedOutputAllocator<WafMap>,
}

impl RunOutput {
    /// The entries of the output map.
    pub closed spec fn spec_entries(self) -> Seq<Keyed<WafObject>> {
        self.data.spec_inner().spec_entries()
    }

    /// The value of the output under `key`, if there is one.
    pub open spec fn value_of(self, key: &str) -> Option<WafObject> {
        entry_value(self.spec_entries(), key.spec_bytes())
    }

    /// Wraps the map a run produced.
    pub fn from_data(data: WafOwnedOutputAllocator<WafMap>) -> (r: Self)
        ensures
            r.spec_entries() == data.spec_inner().spec_entries(),
    {
        RunOutput { data }
    }

    /// Returns the output map.
    pub fn data(&self) -> (r: &WafMap)
        ensures
            r.spec_entries() == self.spec_entries(),
    {
        &self.data
    }

    /// Returns the value of the first entry of the output under the string key.
    fn find(&self, key: &str) -> (r: Option<&WafObject>)
        ensures
            match self.value_of(key) {
                Some(v) => r == Some(&v),
                None => r is None,
            },
    {
        match self.data.get_str(key) {
            Some(e) => Some(e.value()),
            None => None,
        }
    }

    /// Returns true if the WAF did not have enough time to process all the
    /// address data that was being evaluated.
    pub fn timeout(&self) -> (r: bool)
        ensures
            r == flag_value(self.value_of("timeout")),
    {
        match self.find("timeout") {
            Some(v) => match v.to_bool() {
                Some(b) => b,
                None => false,
            },
            None => false,
        }
    }

    /// Returns true if the WAF determined the trace for this request should have
    /// its priority overridden to ensure it is not dropped by the sampler.
    pub fn keep(&self) -> (r: bool)
        ensures
            r == flag_value(self.value_of("keep")),
    {
        match self.find("keep") {
            Some(v) => match v.to_bool() {
                Some(b) => b,
                None => false,
            },
            None => false,
        }
    }

    /// Returns the total time spent processing the request: the nanoseconds
    /// under `duration` if there is an unsigned integer there, else zero.
    pub fn duration(&self) -> (r: Duration)
        ensures
            r == duration_from_nanos(count_value(self.value_of("duration"))),
            match self.value_of("duration") {
                Some(o) => o.spec_to_u64() is Some ==> r == duration_from_nanos(
                    o.spec_to_u64()->0,
                ),
                None => r == duration_from_nanos(0),
            },
    {
        let nanos: u64 = match self.find("duration") {
            Some(v) => match v.to_u64() {
                Some(n) => n,
                None => 0,
            },
            None => 0,
        };
        nanos_to_duration(nanos)
    }

    /// Returns the number of input batches fully evaluated by the WAF.
    pub fn evaluated(&self) -> (r: u64)
        ensures
            r == count_value(self.value_of("evaluated")),
            match self.value_of("evaluated") {
                Some(o) => o.spec_to_u64() is Some ==> r == o.spec_to_u64()->0,
                None => r == 0,
            },
    {
        match self.find("evaluated") {
            Some(v) => match v.to_u64() {
                Some(n) => n,
                None => 0,
            },
            None => 0,
        }
    }

    /// The first entry of the output under `key`, when its value has type `t`.
    pub open spec fn typed_entry(self, key: &str, t: WafObjectType) -> Option<Keyed<WafObject>> {
        match first_match(self.spec_entries(), key_is_bytes(key.spec_bytes())) {
            Some(i) => if self.spec_entries()[i].spec_value().spec_object_type() == t {
                Some(self.spec_entries()[i])
            } else {
                None
            },
            None => None,
        }
    }

    /// Returns the first entry of the output under the string key when its value
    /// has type `t`.
    fn find_entry(&self, key: &str, t: WafObjectType) -> (r: Option<&Keyed<WafObject>>)
        ensures
            match self.typed_entry(key, t) {
                Some(e) => r == Some(&e),
                None => r is None,
            },
    {
        match self.data.get_str(key) {
            Some(e) => if e.value().object_type() == t {
                Some(e)
            } else {
                None
            },
            None => None,
        }
    }

    /// Returns the entry of events that were produced by this run: the first
    /// entry under `events`, if its value is an array.
    ///
    /// The entry is returned as stored, a [`Keyed<WafObject>`] whose value is
    /// known to be an array: a typed view of an entry by reference would need a
    /// reinterpreting cast.
    pub fn events(&self) -> (r: Option<&Keyed<WafObject>>)
        ensures
            match self.typed_entry("events", WafObjectType::Array) {
                Some(e) => r == Some(&e),
                None => r is None,
            },
    {
        self.find_entry("events", WafObjectType::Array)
    }

    /// Returns the entry of actions that were produced by this run: the first
    /// entry under `actions`, if its value is a map.
    ///
    /// The entry is returned as stored, a [`Keyed<WafObject>`] whose value is
    /// known to be a map.
    pub fn actions(&self) -> (r: Option<&Keyed<WafObject>>)
        ensures
            match self.typed_entry("actions", WafObjectType::Mapping) {
                Some(e) => r == Some(&e),
                None => r is None,
            },
    {
        self.find_entry("actions", WafObjectType::Mapping)
    }

    /// Returns the entry of attributes that were produced by this run, to be
    /// attached to the surrounding trace: the first entry under `attributes`, if
    /// its value is a map.
    ///
    /// The entry is returned as stored, a [`Keyed<WafObject>`] whose value is
    /// known to be a map.
    pub fn attributes(&self) -> (r: Option<&Keyed<WafObject>>)
        ensures
            match self.typed_entry("attributes", WafObjectType::Mapping) {
                Some(e) => r == Some(&e),
                None => r is None,
            },
    {
        self.find_entry("attributes", WafObjectType::Mapping)
    }
}


/// What the output's readers make of the value stored under a key: a count is
/// the unsigned integer stored there, whatever its size, and zero when anything
/// else or nothing is stored there; a flag is the boolean stored there, and
/// false otherwise.
pub proof fn lemma_output_values(v: Option<WafObject>)
    ensures
        match v {
            Some(o) => o.spec_to_u64() is Some ==> count_value(v) == o.spec_to_u64()->0,
            None => count_value(v) == 0,
        },
        !(v matches Some(o) && o.spec_object_type() == WafObjectType::Unsigned) ==> count_value(v)
            == 0,
        match v {
            Some(o) => o.spec_to_bool() is Some ==> flag_value(v) == o.spec_to_bool()->0,
            None => !flag_value(v),
        },
        !(v matches Some(o) && o.spec_object_type() == WafObjectType::Bool) ==> !flag_value(v),
{
}

} // verus!
