//! A symbol-file reverse proxy: fallback over upstream symbol servers, with an
//! optional mirror that receives every artifact fetched from elsewhere.
//!
//! The library holds the decisions of the proxy; the network, the disk, the
//! identity provider and the publishing tool are driven by the caller, which
//! hands each outcome back as an event.

mod error;
mod handler;
mod publish;
mod request;
mod startup;
mod tee;
mod upstream;

pub use error::{Error, ErrorKind};
pub use upstream::{resolve, CacheConfig, Origin, UpstreamDescriptor};
pub use request::{target_url, RequestKey};
pub use handler::{Action, Event, Phase, ProxyHandler};
pub use tee::{TeeAction, TeeEvent, TeePhase, TeeStreamer};
pub use publish::{new_staging_id, publish_arguments, PublishAction, PublishEvent, PublishPhase, Publisher};
pub use startup::{check_bind, startup_scopes, ListenAddress};
