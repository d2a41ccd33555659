//! The administrative operations on the streams of a basin. Each operation
//! is one exchange with the service: this module says which request it sends
//! and what its reply means to the caller; sending is the caller's part.

use crate::canonical::CanonicalStreamConfig;
use crate::types::{StreamConfig, RETENTION_POLICY_PATH, STORAGE_CLASS_PATH};
use s2::client::{BasinClient, ClientError};
use vstd::prelude::*;

verus! {

/// The operations on one basin, and the client that reaches it.
pub struct BasinService {
    client: BasinClient,
}

/// The operation that failed, with the failure the client reported.
#[derive(Debug)]
pub enum BasinServiceError {
    /// Failed to list streams
    ListStreams(ClientError),
    /// Failed to create stream
    CreateStream(ClientError),
    /// Failed to delete stream
    DeleteStream(ClientError),
    /// Failed to get stream config
    GetStreamConfig(ClientError),
    /// Failed to reconfigure stream
    ReconfigureStream(ClientError),
}

/// Asks for the names of streams that begin with `prefix` and come after
/// `start_after`, at most `limit` of them.
#[derive(Debug, PartialEq, Eq)]
pub struct ListStreamsRequest {
    pub prefix: String,
    pub start_after: String,
    pub limit: Option<usize>,
}

/// The service's answer to a list request.
#[derive(Debug, PartialEq, Eq)]
pub struct ListStreamsResponse {
    pub streams: Vec<String>,
    pub has_more: bool,
}

/// Asks for a new stream, with a configuration or with the basin's default.
#[derive(Debug, PartialEq, Eq)]
pub struct CreateStreamRequest {
    pub stream: String,
    pub config: Option<CanonicalStreamConfig>,
}

/// Asks for a stream to be deleted.
#[derive(Debug, PartialEq, Eq)]
pub struct DeleteStreamRequest {
    pub stream: String,
}

/// Asks for the configuration of a stream.
#[derive(Debug, PartialEq, Eq)]
pub struct GetStreamConfigRequest {
    pub stream: String,
}

/// Asks for a stream's configuration to be changed: of `config`, the service
/// applies the fields that `mask` names and no others.
#[derive(Debug, PartialEq, Eq)]
pub struct ReconfigureStreamRequest {
    pub stream: String,
    pub config: CanonicalStreamConfig,
    pub mask: Vec<String>,
}

/// Whether `a` comes before `b` in the order in which the service lists
/// names: character by character, a shorter name before its extensions.
pub open spec fn comes_before(a: Seq<char>, b: Seq<char>) -> bool
    decreases a.len(),
{
    if b.len() == 0 {
        false
    } else if a.len() == 0 {
        true
    } else if a[0] != b[0] {
        a[0] < b[0]
    } else {
        comes_before(a.drop_first(), b.drop_first())
    }
}

/// Whether names stand in ascending order, none twice.
pub open spec fn ascending(names: Seq<String>) -> bool {
    forall|i: int, j: int|
        0 <= i < j < names.len() ==> comes_before((#[trigger] names[i])@, (#[trigger] names[j])@)
}

impl ListStreamsResponse {
    /// Whether the reply is one that the service gives to `request`: names
    /// in ascending order, each with the prefix and after the cursor, and
    /// no more of them than the limit.
    pub open spec fn answers(self, request: ListStreamsRequest) -> bool {
        &&& ascending(self.streams@)
        &&& forall|i: int|
            0 <= i < self.streams@.len() ==> comes_before(
                request.start_after@,
                (#[trigger] self.streams@[i])@,
            )
        &&& forall|i: int|
            0 <= i < self.streams@.len() ==> request.prefix@.is_prefix_of(
                (#[trigger] self.streams@[i])@,
            )
        &&& request.limit matches Some(limit) ==> self.streams@.len() <= limit
    }
}

/// Whether a mask holds `path`.
pub open spec fn mask_names(mask: Seq<String>, path: Seq<char>) -> bool {
    exists|i: int| 0 <= i < mask.len() && (#[trigger] mask[i])@ == path
}

impl ReconfigureStreamRequest {
    /// Whether the request has the service change the field at `path`.
    pub open spec fn names(self, path: Seq<char>) -> bool {
        mask_names(self.mask@, path)
    }

    /// Whether the request has the service clear the retention policy: the
    /// mask names it and the configuration holds none.
    pub open spec fn clears_retention_policy(self) -> bool {
        self.names(RETENTION_POLICY_PATH@) && self.config.retention_policy is None
    }

    /// The configuration a stream has once the service has applied the
    /// request to `current`: a field that the mask names is taken from the
    /// request, whether it holds a value or not; any other stays as it was.
    pub open spec fn applied(self, current: CanonicalStreamConfig) -> CanonicalStreamConfig {
        CanonicalStreamConfig {
            storage_class: if self.names(STORAGE_CLASS_PATH@) {
                self.config.storage_class
            } else {
                current.storage_class
            },
            retention_policy: if self.names(RETENTION_POLICY_PATH@) {
                self.config.retention_policy
            } else {
                current.retention_policy
            },
        }
    }

    /// Whether the request has the service change the field at `path`.
    pub fn touches(&self, path: &str) -> (named: bool)
        ensures
            named == self.names(path@),
    {
        let wanted = path.to_owned();
        let mut i: usize = 0;
        while i < self.mask.len()
            invariant
                i <= self.mask@.len(),
                wanted@ == path@,
                forall|j: int| 0 <= j < i ==> (#[trigger] self.mask@[j])@ != path@,
            decreases self.mask@.len() - i,
        {
            if self.mask[i] == wanted {
                return true;
            }
            i = i + 1;
        }
        false
    }

    /// The configuration a stream has once the service has applied the
    /// request to `current`.
    pub fn applied_to(&self, current: CanonicalStreamConfig) -> (after: CanonicalStreamConfig)
        ensures
            after == self.applied(current),
    {
        let storage_class = if self.touches(STORAGE_CLASS_PATH) {
            self.config.storage_class
        } else {
            current.storage_class
        };
        let retention_policy = if self.touches(RETENTION_POLICY_PATH) {
            self.config.retention_policy
        } else {
            current.retention_policy
        };
        CanonicalStreamConfig { storage_class, retention_policy }
    }
}

impl BasinService {
    /// The client that reaches the basin.
    pub closed spec fn handle(self) -> BasinClient {
        self.client
    }

    /// The request that lists streams.
    pub open spec fn list_request(
        prefix: String,
        start_after: String,
        limit: usize,
    ) -> ListStreamsRequest {
        ListStreamsRequest { prefix, start_after, limit: Some(limit) }
    }

    /// The request that creates a stream.
    pub open spec fn create_request(
        stream: String,
        config: Option<StreamConfig>,
    ) -> CreateStreamRequest {
        CreateStreamRequest {
            stream,
            config: match config {
                Some(config) => Some(config.to_canonical()),
                None => None,
            },
        }
    }

    /// The request that reconfigures a stream.
    pub open spec fn reconfigure_request(
        stream: String,
        config: StreamConfig,
        mask: Vec<String>,
    ) -> ReconfigureStreamRequest {
        ReconfigureStreamRequest { stream, config: config.to_canonical(), mask }
    }

    /// What a reply to a list request means.
    pub open spec fn list_streams_outcome(
        reply: Result<ListStreamsResponse, ClientError>,
    ) -> Result<Vec<String>, BasinServiceError> {
        match reply {
            Ok(response) => Ok(response.streams),
            Err(cause) => Err(BasinServiceError::ListStreams(cause)),
        }
    }

    /// What a reply to a create request means.
    pub open spec fn create_stream_outcome(
        reply: Result<(), ClientError>,
    ) -> Result<(), BasinServiceError> {
        match reply {
            Ok(_) => Ok(()),
            Err(cause) => Err(BasinServiceError::CreateStream(cause)),
        }
    }

    /// What a reply to a delete request means.
    pub open spec fn delete_stream_outcome(
        reply: Result<(), ClientError>,
    ) -> Result<(), BasinServiceError> {
        match reply {
            Ok(_) => Ok(()),
            Err(cause) => Err(BasinServiceError::DeleteStream(cause)),
        }
    }

    /// What a reply to a configuration request means.
    pub open spec fn get_stream_config_outcome(
        reply: Result<CanonicalStreamConfig, ClientError>,
    ) -> Result<StreamConfig, BasinServiceError> {
        match reply {
            Ok(config) => Ok(StreamConfig::from_canonical(config)),
            Err(cause) => Err(BasinServiceError::GetStreamConfig(cause)),
        }
    }

    /// What a reply to a reconfigure request means.
    pub open spec fn reconfigure_stream_outcome(
        reply: Result<(), ClientError>,
    ) -> Result<(), BasinServiceError> {
        match reply {
            Ok(_) => Ok(()),
            Err(cause) => Err(BasinServiceError::ReconfigureStream(cause)),
        }
    }

    /// The operations on the basin that `client` reaches.
    pub fn new(client: BasinClient) -> (service: BasinService)
        ensures
            service.handle() == client,
    {
        BasinService { client }
    }

    /// The client that reaches the basin.
    pub fn client(&self) -> (client: &BasinClient)
        ensures
            *client == self.handle(),
    {
        &self.client
    }

    /// The request that lists streams: it carries the prefix, the cursor
    /// and the limit as given.
    pub fn list_streams(
        &self,
        prefix: String,
        start_after: String,
        limit: usize,
    ) -> (request: ListStreamsRequest)
        ensures
            request == Self::list_request(prefix, start_after, limit),
    {
        ListStreamsRequest { prefix, start_after, limit: Some(limit) }
    }

    /// What a reply to a list request means: the names of the streams as
    /// the service gave them, and nothing else of the reply; a failure as
    /// `ListStreams`.
    pub fn list_streams_reply(
        &self,
        reply: Result<ListStreamsResponse, ClientError>,
    ) -> (outcome: Result<Vec<String>, BasinServiceError>)
        ensures
            outcome == Self::list_streams_outcome(reply),
    {
        match reply {
            Ok(response) => Ok(response.streams),
            Err(cause) => Err(BasinServiceError::ListStreams(cause)),
        }
    }

    /// The request that creates a stream: with the canonical form of the
    /// configuration where one is given, with none where none is.
    pub fn create_stream(
        &self,
        stream: String,
        config: Option<StreamConfig>,
    ) -> (request: CreateStreamRequest)
        ensures
            request == Self::create_request(stream, config),
    {
        let config = match config {
            Some(config) => Some(CanonicalStreamConfig::from(config)),
            None => None,
        };
        CreateStreamRequest { stream, config }
    }

    /// What a reply to a create request means: a failure as `CreateStream`.
    pub fn create_stream_reply(
        &self,
        reply: Result<(), ClientError>,
    ) -> (outcome: Result<(), BasinServiceError>)
        ensures
            outcome == Self::create_stream_outcome(reply),
    {
        match reply {
            Ok(_) => Ok(()),
            Err(cause) => Err(BasinServiceError::CreateStream(cause)),
        }
    }

    /// The request that deletes a stream.
    pub fn delete_stream(&self, stream: String) -> (request: DeleteStreamRequest)
        ensures
            request == (DeleteStreamRequest { stream }),
    {
        DeleteStreamRequest { stream }
    }

    /// What a reply to a delete request means: a failure as `DeleteStream`.
    pub fn delete_stream_reply(
        &self,
        reply: Result<(), ClientError>,
    ) -> (outcome: Result<(), BasinServiceError>)
        ensures
            outcome == Self::delete_stream_outcome(reply),
    {
        match reply {
            Ok(_) => Ok(()),
            Err(cause) => Err(BasinServiceError::DeleteStream(cause)),
        }
    }

    /// The request that fetches a stream's configuration.
    pub fn get_stream_config(&self, stream: String) -> (request: GetStreamConfigRequest)
        ensures
            request == (GetStreamConfigRequest { stream }),
    {
        GetStreamConfigRequest { stream }
    }

    /// What a reply to a configuration request means: the configuration in
    /// the form a user reads; a failure as `GetStreamConfig`.
    pub fn get_stream_config_reply(
        &self,
        reply: Result<CanonicalStreamConfig, ClientError>,
    ) -> (outcome: Result<StreamConfig, BasinServiceError>)
        ensures
            outcome == Self::get_stream_config_outcome(reply),
    {
        match reply {
            Ok(config) => Ok(StreamConfig::from(config)),
            Err(cause) => Err(BasinServiceError::GetStreamConfig(cause)),
        }
    }

    /// The request that reconfigures a stream: it carries the canonical form
    /// of the configuration and the mask as given, path for path.
    pub fn reconfigure_stream(
        &self,
        stream: String,
        config: StreamConfig,
        mask: Vec<String>,
    ) -> (request: ReconfigureStreamRequest)
        ensures
            request == Self::reconfigure_request(stream, config, mask),
    {
        ReconfigureStreamRequest { stream, config: CanonicalStreamConfig::from(config), mask }
    }

    /// What a reply to a reconfigure request means: a failure as
    /// `ReconfigureStream`.
    pub fn reconfigure_stream_reply(
        &self,
        reply: Result<(), ClientError>,
    ) -> (outcome: Result<(), BasinServiceError>)
        ensures
            outcome == Self::reconfigure_stream_outcome(reply),
    {
        match reply {
            Ok(_) => Ok(()),
            Err(cause) => Err(BasinServiceError::ReconfigureStream(cause)),
        }
    }
}

/// A failure is reported under the operation that failed and under no
/// other, with the cause as the client gave it; an answer is never turned
/// into a failure.
pub proof fn failure_keeps_its_operation(cause: ClientError)
    ensures
        BasinService::list_streams_outcome(Err(cause)) == Err::<Vec<String>, BasinServiceError>(
            BasinServiceError::ListStreams(cause),
        ),
        BasinService::create_stream_outcome(Err(cause)) == Err::<(), BasinServiceError>(
            BasinServiceError::CreateStream(cause),
        ),
        BasinService::delete_stream_outcome(Err(cause)) == Err::<(), BasinServiceError>(
            BasinServiceError::DeleteStream(cause),
        ),
        BasinService::delete_stream_outcome(Err(cause)) matches Err(e) && !(e
            is CreateStream) && !(e is ListStreams) && !(e is GetStreamConfig) && !(e
            is ReconfigureStream),
        BasinService::get_stream_config_outcome(Err(cause)) == Err::<
            StreamConfig,
            BasinServiceError,
        >(BasinServiceError::GetStreamConfig(cause)),
        BasinService::reconfigure_stream_outcome(Err(cause)) == Err::<(), BasinServiceError>(
            BasinServiceError::ReconfigureStream(cause),
        ),
        BasinService::create_stream_outcome(Ok(())) is Ok,
        BasinService::delete_stream_outcome(Ok(())) is Ok,
        BasinService::reconfigure_stream_outcome(Ok(())) is Ok,
{
}

/// The two paths that a mask can hold are different texts.
pub proof fn mask_paths_differ()
    ensures
        STORAGE_CLASS_PATH@ != RETENTION_POLICY_PATH@,
{
    reveal_strlit("default_stream_config.storage_class");
    reveal_strlit("default_stream_config.retention_policy");
    assert(STORAGE_CLASS_PATH@.len() != RETENTION_POLICY_PATH@.len());
}

/// A field that the mask leaves out stays untouched, whatever the
/// configuration of the request holds for it: the request does not ask for
/// it to be cleared, and the stream keeps what it had. A field that the
/// mask names is taken from the request, present or absent.
pub proof fn unmasked_field_is_untouched(
    stream: String,
    config: StreamConfig,
    mask: Vec<String>,
    current: CanonicalStreamConfig,
)
    ensures
        ({
            let request = BasinService::reconfigure_request(stream, config, mask);
            &&& request.mask == mask
            &&& !mask_names(mask@, RETENTION_POLICY_PATH@) ==> !request.clears_retention_policy()
                && request.applied(current).retention_policy == current.retention_policy
            &&& !mask_names(mask@, STORAGE_CLASS_PATH@) ==> request.applied(current).storage_class
                == current.storage_class
            &&& mask_names(mask@, RETENTION_POLICY_PATH@) ==> request.applied(
                current,
            ).retention_policy == config.to_canonical().retention_policy
            &&& mask_names(mask@, STORAGE_CLASS_PATH@) ==> request.applied(current).storage_class
                == config.to_canonical().storage_class
        }),
{
}

/// A mask that holds the storage class path and nothing else does not ask
/// for the retention policy to be cleared, even where the configuration of
/// the request holds none.
pub proof fn storage_class_mask_spares_retention(
    stream: String,
    config: StreamConfig,
    mask: Vec<String>,
    current: CanonicalStreamConfig,
)
    requires
        mask@.len() == 1,
        mask@[0]@ == STORAGE_CLASS_PATH@,
    ensures
        ({
            let request = BasinService::reconfigure_request(stream, config, mask);
            &&& !request.clears_retention_policy()
            &&& request.applied(current).retention_policy == current.retention_policy
            &&& request.applied(current).storage_class == config.to_canonical().storage_class
        }),
{
    mask_paths_differ();
}

/// No name comes before itself.
pub proof fn comes_before_is_irreflexive(a: Seq<char>)
    ensures
        !comes_before(a, a),
    decreases a.len(),
{
    if a.len() > 0 {
        comes_before_is_irreflexive(a.drop_first());
    }
}

/// What comes before a name comes before all that the name comes before.
pub proof fn comes_before_is_transitive(a: Seq<char>, b: Seq<char>, c: Seq<char>)
    requires
        comes_before(a, b),
        comes_before(b, c),
    ensures
        comes_before(a, c),
    decreases a.len(),
{
    if a.len() > 0 && a[0] == b[0] && b[0] == c[0] {
        comes_before_is_transitive(a.drop_first(), b.drop_first(), c.drop_first());
    }
}

/// Listing on from the last name of a page repeats none of that page:
/// where the service answers a first request with a page that is not empty,
/// and a second request, with the same prefix and limit and the page's last
/// name as its cursor, with another page, no name stands in both.
pub proof fn next_page_repeats_nothing(
    prefix: String,
    limit: usize,
    start_after: String,
    first: ListStreamsResponse,
    second: ListStreamsResponse,
)
    requires
        first.streams@.len() > 0,
        first.answers(BasinService::list_request(prefix, start_after, limit)),
        second.answers(BasinService::list_request(prefix, first.streams@.last(), limit)),
    ensures
        BasinService::list_streams_outcome(Ok(first)) matches Ok(seen)
            && BasinService::list_streams_outcome(Ok(second)) matches Ok(next) && forall|
            i: int,
            j: int,
        |
            0 <= i < seen@.len() && 0 <= j < next@.len() ==> (#[trigger] seen@[i])@ != (
            #[trigger] next@[j])@,
{
    let seen = first.streams@;
    let next = second.streams@;
    let last = seen.last()@;
    assert forall|i: int, j: int| 0 <= i < seen.len() && 0 <= j < next.len() implies (
    #[trigger] seen[i])@ != (#[trigger] next[j])@ by {
        if i < seen.len() - 1 {
            comes_before_is_transitive(seen[i]@, last, next[j]@);
        }
        comes_before_is_irreflexive(next[j]@);
    }
}

} // verus!
