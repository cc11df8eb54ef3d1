//! The chat-channel backend: documents of the remote API, its client, the
//! cached file session and the virtual filesystem.

pub mod client;
pub mod file;
pub mod fs;
pub mod json;

pub use self::client::{DiscordClient, FilePart, HttpRequest, Method};
pub use self::file::{DiscordFile, DiscordFileView, LoadAction, LoadActionView, LoadState};
pub use self::file::{SendAction, SendActionView};
pub use self::fs::{DiscordFs, OpenOptions};
pub use self::json::{MsgAttachmentJson, MsgJson, SendAttachmentJson, SendMsgReqJson, SendMsgResJson};
