//! Lifecycle orchestration for a single dedicated game-server instance per
//! host: the shared instance state, the provisioning pipeline, archive
//! handling and the small pieces of host identity the control API reports.

pub mod error;
pub mod lifecycle;
pub mod settings;
pub mod pipeline;
pub mod control;
pub mod net;
pub mod archive;
pub mod frp;
pub mod s3;
pub mod supervisor;
