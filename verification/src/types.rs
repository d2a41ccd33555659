//! Configuration of basins and streams in the form a user writes it.

use crate::duration::Duration;
use crate::outside::{digit_count, parse_duration, parsed_duration, MAX_DURATION_DIGITS};
use vstd::prelude::*;

verus! {

/// Field-mask path of a stream's storage class.
pub const STORAGE_CLASS_PATH: &'static str = "default_stream_config.storage_class";

/// Field-mask path of a stream's retention policy.
pub const RETENTION_POLICY_PATH: &'static str = "default_stream_config.retention_policy";

/// Storage tier of a stream.
#[derive(Clone, Copy, Debug, PartialEq, Eq)]
pub enum StorageClass {
    Unspecified,
    Standard,
    Express,
}

/// How long a stream keeps its records.
#[derive(Clone, Copy, Debug, PartialEq, Eq)]
pub enum RetentionPolicy {
    /// Records older than this are dropped.
    Age(Duration),
}

/// Configuration of a stream; an absent field leaves the choice to the service.
#[derive(Clone, Copy, Debug, PartialEq, Eq)]
pub struct StreamConfig {
    /// Storage class for a stream.
    pub storage_class: Option<StorageClass>,
    /// Retention policy for a stream.
    pub retention_policy: Option<RetentionPolicy>,
}

/// Configuration of a basin.
#[derive(Clone, Copy, Debug, PartialEq, Eq)]
pub struct BasinConfig {
    /// Configuration given to streams created without one; absent to inherit
    /// the service's own default.
    pub default_stream_config: Option<StreamConfig>,
}

/// A name and a value attached to a record, both plain bytes.
#[derive(Debug, PartialEq, Eq)]
pub struct Header {
    pub name: Vec<u8>,
    pub value: Vec<u8>,
}

/// A record to append: its headers in order, and its body.
#[derive(Debug, PartialEq, Eq)]
pub struct AppendRecord {
    /// Series of name-value pairs for this record.
    pub headers: Vec<Header>,
    /// Body of the record.
    pub body: Vec<u8>,
}

/// What a header holds.
pub struct HeaderView {
    pub name: Seq<u8>,
    pub value: Seq<u8>,
}

/// What a record holds.
pub struct AppendRecordView {
    pub headers: Seq<HeaderView>,
    pub body: Seq<u8>,
}

impl View for Header {
    type V = HeaderView;

    open spec fn view(&self) -> HeaderView {
        HeaderView { name: self.name@, value: self.value@ }
    }
}

impl View for AppendRecord {
    type V = AppendRecordView;

    open spec fn view(&self) -> AppendRecordView {
        AppendRecordView {
            headers: Seq::new(self.headers@.len(), |i: int| self.headers@[i]@),
            body: self.body@,
        }
    }
}

impl StreamConfig {
    /// The retention policy, where there is one, is well-formed.
    pub open spec fn well_formed(self) -> bool {
        self.retention_policy matches Some(policy) ==> policy.well_formed()
    }
}

impl BasinConfig {
    /// The default stream configuration, where there is one, is well-formed.
    pub open spec fn well_formed(self) -> bool {
        self.default_stream_config matches Some(config) ==> config.well_formed()
    }
}

impl RetentionPolicy {
    /// The age that the policy holds is a well-formed span.
    pub open spec fn well_formed(self) -> bool {
        match self {
            RetentionPolicy::Age(age) => age.well_formed(),
        }
    }

    /// The policy that the outcome of parsing stands for: the age read where
    /// the text was a duration, the age of no time at all where it was not.
    pub open spec fn of_parsed(parsed: Option<(u64, u32)>) -> RetentionPolicy {
        match parsed {
            Some((secs, nanos)) => RetentionPolicy::Age(Duration { secs, nanos }),
            None => RetentionPolicy::Age(Duration::zero()),
        }
    }

    /// The policy for the outcome of parsing a duration. A text that was no
    /// duration is not an error: it gives the age of no time at all.
    pub fn from_parsed(parsed: Option<Duration>) -> (policy: RetentionPolicy)
        ensures
            parsed matches Some(age) ==> policy == RetentionPolicy::Age(age),
            parsed is None ==> policy == RetentionPolicy::Age(Duration::zero()),
            (parsed matches Some(age) ==> age.well_formed()) ==> policy.well_formed(),
    {
        match parsed {
            Some(age) => RetentionPolicy::Age(age),
            None => RetentionPolicy::Age(Duration::from_secs(0)),
        }
    }

    /// The policy that a human-readable duration such as `1d` or `2h 37min`
    /// asks for. A text that is no duration gives the age of no time at all.
    pub fn from_text(text: &str) -> (policy: RetentionPolicy)
        requires
            digit_count(text@) <= MAX_DURATION_DIGITS,
        ensures
            policy == RetentionPolicy::of_parsed(parsed_duration(text@)),
            policy.well_formed(),
    {
        match parse_duration(text) {
            Some((secs, nanos)) => RetentionPolicy::from_parsed(Some(Duration { secs, nanos })),
            None => RetentionPolicy::from_parsed(None),
        }
    }

    /// As `from_text`, for any text: `None` where the text holds more digits
    /// than the parser is handed.
    pub fn try_from_text(text: &str) -> (policy: Option<RetentionPolicy>)
        ensures
            digit_count(text@) <= MAX_DURATION_DIGITS ==> policy == Some(
                RetentionPolicy::of_parsed(parsed_duration(text@)),
            ),
            digit_count(text@) > MAX_DURATION_DIGITS ==> policy is None,
            policy matches Some(p) ==> p.well_formed(),
    {
        if RetentionPolicy::admits(text) {
            Some(RetentionPolicy::from_text(text))
        } else {
            None
        }
    }

    /// Whether a text is short enough in digits to be handed to the parser.
    pub fn admits(text: &str) -> (admitted: bool)
        ensures
            admitted == (digit_count(text@) <= MAX_DURATION_DIGITS),
    {
        let mut digits: usize = 0;
        for c in seen: text.chars()
            invariant
                seen.seq() == text@,
                digits <= MAX_DURATION_DIGITS + 1,
                digits <= MAX_DURATION_DIGITS ==> digits == digit_count(text@.take(seen.index())),
                digits > MAX_DURATION_DIGITS ==> digit_count(text@.take(seen.index()))
                    > MAX_DURATION_DIGITS,
        {
            proof {
                let longer = text@.take(seen.index() + 1);
                assert(longer.drop_last() == text@.take(seen.index()));
            }
            if c >= '0' && c <= '9' && digits <= MAX_DURATION_DIGITS {
                digits = digits + 1;
            }
        }
        proof {
            assert(text@.take(text@.len() as int) == text@);
        }
        digits <= MAX_DURATION_DIGITS
    }
}

} // verus!
