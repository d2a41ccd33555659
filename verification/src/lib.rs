//! Administration of the streams of a basin: configuration in the form a user
//! writes it, its canonical form, and the requests and replies of each
//! administrative operation.

pub mod basin;
pub mod canonical;
pub mod config;
pub mod duration;
pub mod outside;
pub mod types;

pub use basin::{
    BasinService, BasinServiceError, CreateStreamRequest, DeleteStreamRequest,
    GetStreamConfigRequest, ListStreamsRequest, ListStreamsResponse, ReconfigureStreamRequest,
};
pub use canonical::{
    CanonicalAppendRecord, CanonicalBasinConfig, CanonicalHeader, CanonicalRetentionPolicy,
    CanonicalStorageClass, CanonicalStreamConfig,
};
pub use config::{
    config_path, config_path_in, create_config, create_config_outcome, load_config, ConfigPath,
    S2Config, S2ConfigError, CONFIG_FILE, CONFIG_FOLDER, TOKEN_KEY,
};
pub use duration::Duration;
pub use types::{
    AppendRecord, AppendRecordView, BasinConfig, Header, HeaderView, RetentionPolicy,
    StorageClass, StreamConfig, RETENTION_POLICY_PATH, STORAGE_CLASS_PATH,
};
