//! Configuration in the service's canonical form, where every choice is
//! resolved, and the conversions between it and the form a user writes.

use crate::duration::Duration;
use crate::outside::parsed_duration;
use crate::types::{
    AppendRecord, AppendRecordView, BasinConfig, Header, HeaderView, RetentionPolicy, StorageClass,
    StreamConfig,
};
use vstd::prelude::*;
use vstd::std_specs::convert::FromSpecImpl;

verus! {

/// Storage tier of a stream as the service names it.
#[derive(Clone, Copy, Debug, PartialEq, Eq)]
pub enum CanonicalStorageClass {
    Unspecified,
    Standard,
    Express,
}

/// Retention policy of a stream as the service holds it.
#[derive(Clone, Copy, Debug, PartialEq, Eq)]
pub enum CanonicalRetentionPolicy {
    Age(Duration),
}

/// Configuration of a stream as the service holds it: the storage class is
/// always one of its named values, the retention policy is set or not.
#[derive(Clone, Copy, Debug, PartialEq, Eq)]
pub struct CanonicalStreamConfig {
    pub storage_class: CanonicalStorageClass,
    pub retention_policy: Option<CanonicalRetentionPolicy>,
}

/// Configuration of a basin as the service holds it.
#[derive(Clone, Copy, Debug, PartialEq, Eq)]
pub struct CanonicalBasinConfig {
    pub default_stream_config: Option<CanonicalStreamConfig>,
}

/// A header as the service takes it.
#[derive(Debug, PartialEq, Eq)]
pub struct CanonicalHeader {
    pub name: Vec<u8>,
    pub value: Vec<u8>,
}

/// A record as the service takes it.
#[derive(Debug, PartialEq, Eq)]
pub struct CanonicalAppendRecord {
    pub headers: Vec<CanonicalHeader>,
    pub body: Vec<u8>,
}

impl View for CanonicalHeader {
    type V = HeaderView;

    open spec fn view(&self) -> HeaderView {
        HeaderView { name: self.name@, value: self.value@ }
    }
}

impl View for CanonicalAppendRecord {
    type V = AppendRecordView;

    open spec fn view(&self) -> AppendRecordView {
        AppendRecordView {
            headers: Seq::new(self.headers@.len(), |i: int| self.headers@[i]@),
            body: self.body@,
        }
    }
}

impl CanonicalRetentionPolicy {
    /// The age that the policy holds is a well-formed span.
    pub open spec fn well_formed(self) -> bool {
        match self {
            CanonicalRetentionPolicy::Age(age) => age.well_formed(),
        }
    }
}

impl CanonicalStreamConfig {
    /// The retention policy, where there is one, is well-formed.
    pub open spec fn well_formed(self) -> bool {
        self.retention_policy matches Some(policy) ==> policy.well_formed()
    }
}

impl CanonicalBasinConfig {
    /// The default stream configuration, where there is one, is well-formed.
    pub open spec fn well_formed(self) -> bool {
        self.default_stream_config matches Some(config) ==> config.well_formed()
    }
}

impl StorageClass {
    /// The canonical storage class of the same name.
    pub open spec fn to_canonical(self) -> CanonicalStorageClass {
        match self {
            StorageClass::Unspecified => CanonicalStorageClass::Unspecified,
            StorageClass::Standard => CanonicalStorageClass::Standard,
            StorageClass::Express => CanonicalStorageClass::Express,
        }
    }

    /// The storage class of the same name as a canonical one.
    pub open spec fn from_canonical(class: CanonicalStorageClass) -> StorageClass {
        match class {
            CanonicalStorageClass::Unspecified => StorageClass::Unspecified,
            CanonicalStorageClass::Standard => StorageClass::Standard,
            CanonicalStorageClass::Express => StorageClass::Express,
        }
    }
}

impl RetentionPolicy {
    /// The canonical policy with the same age.
    pub open spec fn to_canonical(self) -> CanonicalRetentionPolicy {
        match self {
            RetentionPolicy::Age(age) => CanonicalRetentionPolicy::Age(age),
        }
    }

    /// The policy with the same age as a canonical one.
    pub open spec fn from_canonical(policy: CanonicalRetentionPolicy) -> RetentionPolicy {
        match policy {
            CanonicalRetentionPolicy::Age(age) => RetentionPolicy::Age(age),
        }
    }
}

impl StreamConfig {
    /// The canonical form: an absent storage class becomes `Unspecified`, an
    /// absent retention policy stays absent.
    pub open spec fn to_canonical(self) -> CanonicalStreamConfig {
        CanonicalStreamConfig {
            storage_class: match self.storage_class {
                Some(class) => class.to_canonical(),
                None => CanonicalStorageClass::Unspecified,
            },
            retention_policy: match self.retention_policy {
                Some(policy) => Some(policy.to_canonical()),
                None => None,
            },
        }
    }

    /// The form a user reads: the storage class is always present, the
    /// retention policy is present where the canonical one is.
    pub open spec fn from_canonical(config: CanonicalStreamConfig) -> StreamConfig {
        StreamConfig {
            storage_class: Some(StorageClass::from_canonical(config.storage_class)),
            retention_policy: match config.retention_policy {
                Some(policy) => Some(RetentionPolicy::from_canonical(policy)),
                None => None,
            },
        }
    }
}

impl BasinConfig {
    /// The canonical form: an absent default stream configuration stays absent.
    pub open spec fn to_canonical(self) -> CanonicalBasinConfig {
        CanonicalBasinConfig {
            default_stream_config: match self.default_stream_config {
                Some(config) => Some(config.to_canonical()),
                None => None,
            },
        }
    }

    /// The form a user reads of a canonical basin configuration.
    pub open spec fn from_canonical(config: CanonicalBasinConfig) -> BasinConfig {
        BasinConfig {
            default_stream_config: match config.default_stream_config {
                Some(config) => Some(StreamConfig::from_canonical(config)),
                None => None,
            },
        }
    }
}

impl From<StreamConfig> for CanonicalStreamConfig {
    fn from(config: StreamConfig) -> (canonical: CanonicalStreamConfig) {
        let storage_class = match config.storage_class {
            Some(class) => CanonicalStorageClass::from(class),
            None => CanonicalStorageClass::Unspecified,
        };
        let retention_policy = match config.retention_policy {
            Some(policy) => Some(CanonicalRetentionPolicy::from(policy)),
            None => None,
        };
        CanonicalStreamConfig { storage_class, retention_policy }
    }
}

impl FromSpecImpl<StreamConfig> for CanonicalStreamConfig {
    open spec fn obeys_from_spec() -> bool {
        true
    }

    open spec fn from_spec(config: StreamConfig) -> CanonicalStreamConfig {
        config.to_canonical()
    }
}

impl From<CanonicalStreamConfig> for StreamConfig {
    fn from(config: CanonicalStreamConfig) -> (shown: StreamConfig) {
        let retention_policy = match config.retention_policy {
            Some(policy) => Some(RetentionPolicy::from(policy)),
            None => None,
        };
        StreamConfig {
            storage_class: Some(StorageClass::from(config.storage_class)),
            retention_policy,
        }
    }
}

impl FromSpecImpl<CanonicalStreamConfig> for StreamConfig {
    open spec fn obeys_from_spec() -> bool {
        true
    }

    open spec fn from_spec(config: CanonicalStreamConfig) -> StreamConfig {
        StreamConfig::from_canonical(config)
    }
}

impl From<AppendRecord> for CanonicalAppendRecord {
    /// The record with every header and the body as they are, in the same
    /// order; nothing is checked and nothing is left out.
    fn from(record: AppendRecord) -> (canonical: CanonicalAppendRecord)
        ensures
            canonical@ == record@,
    {
        let ghost given = record.headers@;
        let mut headers: Vec<CanonicalHeader> = Vec::new();
        for header in it: record.headers.into_iter()
            invariant
                it.seq() == given,
                headers@.len() == it.index(),
                forall|i: int| 0 <= i < headers@.len() ==> (#[trigger] headers@[i])@ == given[i]@,
        {
            headers.push(CanonicalHeader::from(header));
        }
        let canonical = CanonicalAppendRecord { headers, body: record.body };
        assert(canonical@.headers =~= record@.headers);
        canonical
    }
}

/// The conversion of a record promises what the result holds, which is what
/// `from` ensures, and not which of the values that hold it comes back: so
/// `from_spec` picks one of them and is not binding.
impl FromSpecImpl<AppendRecord> for CanonicalAppendRecord {
    open spec fn obeys_from_spec() -> bool {
        false
    }

    open spec fn from_spec(record: AppendRecord) -> CanonicalAppendRecord {
        choose|canonical: CanonicalAppendRecord| canonical@ == record@
    }
}

impl From<Header> for CanonicalHeader {
    fn from(header: Header) -> (canonical: CanonicalHeader)
        ensures
            canonical@ == header@,
    {
        CanonicalHeader { name: header.name, value: header.value }
    }
}

impl FromSpecImpl<Header> for CanonicalHeader {
    open spec fn obeys_from_spec() -> bool {
        true
    }

    open spec fn from_spec(header: Header) -> CanonicalHeader {
        CanonicalHeader { name: header.name, value: header.value }
    }
}

impl From<StorageClass> for CanonicalStorageClass {
    fn from(class: StorageClass) -> (canonical: CanonicalStorageClass) {
        match class {
            StorageClass::Unspecified => CanonicalStorageClass::Unspecified,
            StorageClass::Standard => CanonicalStorageClass::Standard,
            StorageClass::Express => CanonicalStorageClass::Express,
        }
    }
}

impl FromSpecImpl<StorageClass> for CanonicalStorageClass {
    open spec fn obeys_from_spec() -> bool {
        true
    }

    open spec fn from_spec(class: StorageClass) -> CanonicalStorageClass {
        class.to_canonical()
    }
}

impl From<CanonicalStorageClass> for StorageClass {
    fn from(class: CanonicalStorageClass) -> (shown: StorageClass) {
        match class {
            CanonicalStorageClass::Unspecified => StorageClass::Unspecified,
            CanonicalStorageClass::Standard => StorageClass::Standard,
            CanonicalStorageClass::Express => StorageClass::Express,
        }
    }
}

impl FromSpecImpl<CanonicalStorageClass> for StorageClass {
    open spec fn obeys_from_spec() -> bool {
        true
    }

    open spec fn from_spec(class: CanonicalStorageClass) -> StorageClass {
        StorageClass::from_canonical(class)
    }
}

impl From<BasinConfig> for CanonicalBasinConfig {
    fn from(config: BasinConfig) -> (canonical: CanonicalBasinConfig) {
        let default_stream_config = match config.default_stream_config {
            Some(config) => Some(CanonicalStreamConfig::from(config)),
            None => None,
        };
        CanonicalBasinConfig { default_stream_config }
    }
}

impl FromSpecImpl<BasinConfig> for CanonicalBasinConfig {
    open spec fn obeys_from_spec() -> bool {
        true
    }

    open spec fn from_spec(config: BasinConfig) -> CanonicalBasinConfig {
        config.to_canonical()
    }
}

impl From<CanonicalBasinConfig> for BasinConfig {
    fn from(config: CanonicalBasinConfig) -> (shown: BasinConfig) {
        let default_stream_config = match config.default_stream_config {
            Some(config) => Some(StreamConfig::from(config)),
            None => None,
        };
        BasinConfig { default_stream_config }
    }
}

impl FromSpecImpl<CanonicalBasinConfig> for BasinConfig {
    open spec fn obeys_from_spec() -> bool {
        true
    }

    open spec fn from_spec(config: CanonicalBasinConfig) -> BasinConfig {
        BasinConfig::from_canonical(config)
    }
}

impl From<RetentionPolicy> for CanonicalRetentionPolicy {
    fn from(policy: RetentionPolicy) -> (canonical: CanonicalRetentionPolicy) {
        match policy {
            RetentionPolicy::Age(age) => CanonicalRetentionPolicy::Age(age),
        }
    }
}

impl FromSpecImpl<RetentionPolicy> for CanonicalRetentionPolicy {
    open spec fn obeys_from_spec() -> bool {
        true
    }

    open spec fn from_spec(policy: RetentionPolicy) -> CanonicalRetentionPolicy {
        policy.to_canonical()
    }
}

impl From<CanonicalRetentionPolicy> for RetentionPolicy {
    fn from(policy: CanonicalRetentionPolicy) -> (shown: RetentionPolicy) {
        match policy {
            CanonicalRetentionPolicy::Age(age) => RetentionPolicy::Age(age),
        }
    }
}

impl FromSpecImpl<CanonicalRetentionPolicy> for RetentionPolicy {
    open spec fn obeys_from_spec() -> bool {
        true
    }

    open spec fn from_spec(policy: CanonicalRetentionPolicy) -> RetentionPolicy {
        RetentionPolicy::from_canonical(policy)
    }
}

/// The two forms of a storage class stand one for one: converting a storage
/// class to its canonical form and back gives the class one started with,
/// and so does converting a canonical class to a user's and back.
pub proof fn storage_class_round_trip(class: StorageClass, canonical: CanonicalStorageClass)
    ensures
        StorageClass::from_canonical(class.to_canonical()) == class,
        StorageClass::from_canonical(canonical).to_canonical() == canonical,
{
}

/// A retention policy survives the way to its canonical form and back with
/// the duration it had, and a canonical one the way to a user's and back.
pub proof fn retention_policy_round_trip(policy: RetentionPolicy, canonical: CanonicalRetentionPolicy)
    ensures
        RetentionPolicy::from_canonical(policy.to_canonical()) == policy,
        RetentionPolicy::from_canonical(canonical).to_canonical() == canonical,
        policy.to_canonical() matches CanonicalRetentionPolicy::Age(age) && policy
            == RetentionPolicy::Age(age),
{
}

/// A stream configuration without a storage class resolves to `Unspecified`,
/// never to `Standard` or `Express`; one without a retention policy has none
/// in canonical form either.
pub proof fn absent_fields_resolve(config: StreamConfig)
    ensures
        config.storage_class is None ==> config.to_canonical().storage_class
            == CanonicalStorageClass::Unspecified,
        config.storage_class matches Some(class) ==> config.to_canonical().storage_class
            == class.to_canonical(),
        config.retention_policy is None <==> config.to_canonical().retention_policy is None,
{
}

/// A canonical stream configuration shown to a user and converted back is
/// the one it was. The other way round only the storage class can change:
/// an absent one comes back as `Some(Unspecified)`, everything else as it was.
pub proof fn stream_config_round_trip(config: StreamConfig, canonical: CanonicalStreamConfig)
    ensures
        StreamConfig::from_canonical(canonical).to_canonical() == canonical,
        StreamConfig::from_canonical(canonical).storage_class is Some,
        StreamConfig::from_canonical(config.to_canonical()).retention_policy
            == config.retention_policy,
        StreamConfig::from_canonical(config.to_canonical()).storage_class == Some(
            match config.storage_class {
                Some(class) => class,
                None => StorageClass::Unspecified,
            },
        ),
{
}

/// A basin configuration without a default stream configuration has none in
/// canonical form, not one with default fields; with one, it has that one's
/// canonical form. A canonical basin configuration shown to a user and
/// converted back is the one it was.
pub proof fn basin_config_keeps_absence(config: BasinConfig, canonical: CanonicalBasinConfig)
    ensures
        config.default_stream_config is None <==> config.to_canonical().default_stream_config
            is None,
        config.default_stream_config matches Some(stream) ==> config.to_canonical().default_stream_config
            == Some(stream.to_canonical()),
        BasinConfig::from_canonical(canonical).to_canonical() == canonical,
{
}

/// Conversion keeps durations as they are, so a configuration is well-formed
/// in one form exactly where it is in the other.
pub proof fn conversions_keep_well_formed(config: BasinConfig, canonical: CanonicalBasinConfig)
    ensures
        config.to_canonical().well_formed() == config.well_formed(),
        BasinConfig::from_canonical(canonical).well_formed() == canonical.well_formed(),
        config.default_stream_config matches Some(stream) ==> stream.to_canonical().well_formed()
            == stream.well_formed(),
        canonical.default_stream_config matches Some(stream) ==> StreamConfig::from_canonical(
            stream,
        ).well_formed() == stream.well_formed(),
{
}

/// From a text to a policy, to its canonical form and back: where the text
/// is a duration the policy holds that duration all the way, and where it is
/// none the policy holds the age of no time at all.
pub proof fn retention_text_round_trip(text: Seq<char>)
    ensures
        ({
            let policy = RetentionPolicy::of_parsed(parsed_duration(text));
            &&& RetentionPolicy::from_canonical(policy.to_canonical()) == policy
            &&& parsed_duration(text) matches Some((secs, nanos)) ==> policy
                == RetentionPolicy::Age(Duration { secs, nanos })
            &&& parsed_duration(text) is None ==> policy == RetentionPolicy::Age(Duration::zero())
        }),
{
}

} // verus!
