//! Stream multiplexing over one reliable byte transport: the framing of stream
//! identifiers, the routing of inbound frames and the serialising of outbound
//! ones, stated and proved as functions on plain values.

pub mod codec;
pub mod error;
pub mod handles;
pub mod laws;
pub mod options;
pub mod reader;
pub mod session;
pub mod stream;
pub mod tcp;
pub mod writer;

pub use codec::{append_id, shift_id};
pub use error::NxError;
pub use options::{parse, Client, Options, Serve, Subcommands};
pub use reader::{NxPool, NxPoolHashMap, NxReader, NxRoute};
pub use session::{connect, listen, NxClient, NxListener, NxSession};
pub use stream::{NxBoxIo, NxBoxReader, NxBoxWriter, NxWriteChannel};
pub use writer::NxWriter;
