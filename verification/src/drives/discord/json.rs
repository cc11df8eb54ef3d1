//! The documents exchanged with the remote API, as plain records. The
//! transport turns them into JSON text and back.

use vstd::prelude::*;

verus! {

/// An attachment of a fetched message.
#[derive(Debug)]
pub struct MsgAttachmentJson {
    pub id: String,
    pub filename: String,
    pub size: usize,
    /// Where the attachment's bytes can be downloaded.
    pub url: String,
    pub proxy_url: String,
}

/// A fetched message: the sidecar metadata as text, and the attachments.
#[derive(Debug)]
pub struct MsgJson {
    pub content: String,
    pub attachments: Vec<MsgAttachmentJson>,
}

impl MsgJson {
    /// The download address of the first attachment, where there is one.
    pub open spec fn first_url(&self) -> Option<Seq<char>> {
        if self.attachments@.len() > 0 {
            Some(self.attachments@[0].url@)
        } else {
            None
        }
    }
}

/// Named attachments as values: each name with its bytes.
pub open spec fn attachments_view(v: Seq<(String, Vec<u8>)>) -> Seq<(Seq<char>, Seq<u8>)> {
    v.map_values(|a: (String, Vec<u8>)| (a.0@, a.1@))
}

/// The description of one attachment in a message that is sent.
#[derive(Debug)]
pub struct SendAttachmentJson<'a> {
    /// The index of the binary part that carries the bytes.
    pub id: usize,
    pub description: &'a str,
    pub filename: &'a str,
}

/// The JSON part of a message that is sent.
#[derive(Debug)]
pub struct SendMsgReqJson<'a> {
    pub content: &'a str,
    pub attachments: Vec<SendAttachmentJson<'a>>,
}

/// The answer to a message that was created: its handle.
#[derive(Debug)]
pub struct SendMsgResJson {
    pub id: String,
}

} // verus!
