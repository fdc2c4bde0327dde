//! Plain-text clipboard sharing between machines on one network: the messages
//! and their framing, the state that keeps a copied text from looping, and the
//! decisions of the peer connections and of the platform clipboards.
//!
//! Nothing here opens a socket, a display connection or a pasteboard. Every
//! module takes what was read or observed as plain values and answers with
//! what is to be written, applied or closed.

pub mod backend;
pub mod clipboard;
pub mod clipboard_net;
pub mod clipboard_state;
pub mod commands;
pub mod content;
pub mod crypto;
pub mod error;
pub mod loop_laws;
pub mod macos;
pub mod peer_addr;
pub mod peer_session;
pub mod peer_table;
pub mod proto;
pub mod selection_laws;
pub mod session_laws;
pub mod table_laws;
pub mod task_laws;
pub mod text;
pub mod wayland;
pub mod wayland_dispatch;
pub mod wire;

pub use backend::{Backend, Clipboard, LanMouseClipboard};
pub use content::{ClipboardChange, ClipboardContent, OriginHint};
pub use error::{ClipboardCreationError, ClipboardError, IoError};
pub use proto::{CapMsg, FrameError, CAP_CLIPBOARD, PROTOCOL_VERSION};
