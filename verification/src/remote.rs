//! Remote actors: the wire format of messages between processes and the routing
//! decisions of a peer (a connection to another process).
pub mod error;
pub mod id_bytes;
pub mod service_id;
pub mod conn_id;
pub mod multi_service;
pub mod table;
pub mod peer_event;
pub mod call;
pub mod peer;

pub use call::Call;
pub use conn_id::ConnID;
pub use error::{ThesRemoteErr, ThesRemoteErrKind};
pub use multi_service::{Codecs, HEADER_LEN, MultiServiceImpl};
pub use peer::{Incoming, Peer, RelayCallOutcome, relay_call_reply, relay_send_outcome};
pub use peer_event::{ConnectionError, PeerEvent, RelayEvent};
pub use service_id::ServiceID;
