//! The remote blob client's object model: which request each operation
//! makes, and what its answer means. The transport that carries a request
//! out belongs to the caller.

use vstd::prelude::*;
use vstd::string::*;
use crate::drives::discord::json::{MsgJson, SendAttachmentJson, SendMsgReqJson, SendMsgResJson};
use crate::drives::discord::json::attachments_view;
use crate::error::{Error, Result};
use crate::text::{decimal, decimal_string};

verus! {

/// The verb of a request.
#[derive(Clone, Copy, Debug, PartialEq, Eq, Structural)]
pub enum Method {
    Get,
    Post,
    Patch,
}

/// One binary part of a multipart request, as a value.
pub struct FilePartView {
    pub name: Seq<char>,
    pub file_name: Seq<char>,
    pub bytes: Seq<u8>,
}

/// One binary part of a multipart request.
#[derive(Debug)]
pub struct FilePart<'a> {
    /// The name of the part.
    pub name: String,
    /// The file name the part announces.
    pub file_name: &'a str,
    pub bytes: &'a [u8],
}

impl<'a> View for FilePart<'a> {
    type V = FilePartView;

    open spec fn view(&self) -> FilePartView {
        FilePartView { name: self.name@, file_name: self.file_name@, bytes: self.bytes@ }
    }
}

/// The description of one attachment, as a value.
pub struct SendAttachmentView {
    pub id: usize,
    pub description: Seq<char>,
    pub filename: Seq<char>,
}

/// The JSON part of a message that is sent, as a value.
pub struct PayloadView {
    pub content: Seq<char>,
    pub attachments: Seq<SendAttachmentView>,
}

/// The JSON part as a value.
pub open spec fn payload_view(p: SendMsgReqJson) -> PayloadView {
    PayloadView {
        content: p.content@,
        attachments: p.attachments@.map_values(
            |a: SendAttachmentJson|
                SendAttachmentView {
                    id: a.id,
                    description: a.description@,
                    filename: a.filename@,
                },
        ),
    }
}

/// A request as a value.
pub struct HttpRequestView {
    pub method: Method,
    pub url: Seq<char>,
    pub headers: Seq<(Seq<char>, Seq<char>)>,
    pub payload: Option<PayloadView>,
    pub files: Seq<FilePartView>,
}

/// A request to the remote side. One with a payload is sent as multipart:
/// the payload as the part `payload_json`, then each file part.
#[derive(Debug)]
pub struct HttpRequest<'a> {
    pub method: Method,
    pub url: String,
    pub headers: Vec<(String, String)>,
    pub payload: Option<SendMsgReqJson<'a>>,
    pub files: Vec<FilePart<'a>>,
}

impl<'a> View for HttpRequest<'a> {
    type V = HttpRequestView;

    open spec fn view(&self) -> HttpRequestView {
        HttpRequestView {
            method: self.method,
            url: self.url@,
            headers: self.headers@.map_values(|h: (String, String)| (h.0@, h.1@)),
            payload: match self.payload {
                Some(p) => Some(payload_view(p)),
                None => None,
            },
            files: self.files@.map_values(|f: FilePart| f@),
        }
    }
}

/// The address of the channel's messages.
pub open spec fn messages_url(channel_id: Seq<char>) -> Seq<char> {
    "https://discord.com/api/v10/channels/"@ + channel_id + "/messages"@
}

/// The address of one message of the channel.
pub open spec fn message_url(channel_id: Seq<char>, msg_id: Seq<char>) -> Seq<char> {
    messages_url(channel_id) + "/"@ + msg_id
}

/// The headers every request to the API carries: who asks, and the bot's
/// authorization.
pub open spec fn api_headers(token: Seq<char>) -> Seq<(Seq<char>, Seq<char>)> {
    seq![
        ("User-Agent"@, "DiscordBot (https://github.com/Arkitu/multi-drive, 0.0.1)"@),
        ("Authorization"@, "Bot "@ + token),
    ]
}

/// The name of the `i`-th binary part.
pub open spec fn part_name(i: nat) -> Seq<char> {
    "files["@ + decimal(i) + "]"@
}

/// The JSON part for a message with this sidecar text and these
/// attachments: each is described by its index, no description, and its
/// name.
pub open spec fn payload_model(content: Seq<char>, attachment: Seq<(Seq<char>, Seq<u8>)>) -> PayloadView {
    PayloadView {
        content,
        attachments: Seq::new(
            attachment.len(),
            |i: int|
                SendAttachmentView {
                    id: i as usize,
                    description: Seq::empty(),
                    filename: attachment[i].0,
                },
        ),
    }
}

/// The binary parts for these attachments, in their order.
pub open spec fn file_parts_model(attachment: Seq<(Seq<char>, Seq<u8>)>) -> Seq<FilePartView> {
    Seq::new(
        attachment.len(),
        |i: int|
            FilePartView {
                name: part_name(i as nat),
                file_name: attachment[i].0,
                bytes: attachment[i].1,
            },
    )
}

/// The multipart request that carries a message to `url`.
pub open spec fn multipart_model(
    method: Method,
    url: Seq<char>,
    token: Seq<char>,
    content: Seq<char>,
    attachment: Seq<(Seq<char>, Seq<u8>)>,
) -> HttpRequestView {
    HttpRequestView {
        method,
        url,
        headers: api_headers(token),
        payload: Some(payload_model(content, attachment)),
        files: file_parts_model(attachment),
    }
}

/// Whether a status code lies in the success range, 200 to 299.
pub open spec fn status_ok(status: u16) -> bool {
    200 <= status < 300
}

/// The client of one channel of the remote API.
#[derive(Debug)]
pub struct DiscordClient {
    token: String,
    channel_id: String,
}

impl DiscordClient {
    /// The bot token the client authorizes with.
    pub closed spec fn token(&self) -> Seq<char> {
        self.token@
    }

    /// The channel the client keeps its objects in.
    pub closed spec fn channel_id(&self) -> Seq<char> {
        self.channel_id@
    }

    /// A client for the channel, authorized by the token.
    pub fn new(token: String, channel_id: String) -> (r: Self)
        ensures
            r.token() == token@,
            r.channel_id() == channel_id@,
    {
        Self { token, channel_id }
    }

    /// The address of the channel's messages.
    fn messages_address(&self) -> (r: String)
        ensures
            r@ == messages_url(self.channel_id()),
    {
        let mut url = String::from_str("https://discord.com/api/v10/channels/");
        url.append(self.channel_id.as_str());
        url.append("/messages");
        url
    }

    /// The address of one message of the channel.
    fn message_address(&self, msg_id: &str) -> (r: String)
        ensures
            r@ == message_url(self.channel_id(), msg_id@),
    {
        let mut url = self.messages_address();
        url.append("/");
        url.append(msg_id);
        url
    }

    /// The headers every request to the API carries.
    fn headers(&self) -> (r: Vec<(String, String)>)
        ensures
            r@.map_values(|h: (String, String)| (h.0@, h.1@)) == api_headers(self.token()),
    {
        let mut auth = String::from_str("Bot ");
        auth.append(self.token.as_str());
        let mut r: Vec<(String, String)> = Vec::new();
        r.push(
            (
                String::from_str("User-Agent"),
                String::from_str("DiscordBot (https://github.com/Arkitu/multi-drive, 0.0.1)"),
            ),
        );
        r.push((String::from_str("Authorization"), auth));
        assert(r@.map_values(|h: (String, String)| (h.0@, h.1@)) =~= api_headers(self.token()));
        r
    }

    /// The request that fetches a message: a GET of its address.
    pub fn get_message(&self, msg_id: &str) -> (r: HttpRequest<'static>)
        ensures
            r@ == (HttpRequestView {
                method: Method::Get,
                url: message_url(self.channel_id(), msg_id@),
                headers: api_headers(self.token()),
                payload: None,
                files: Seq::empty(),
            }),
    {
        let r = HttpRequest {
            method: Method::Get,
            url: self.message_address(msg_id),
            headers: self.headers(),
            payload: None,
            files: Vec::new(),
        };
        assert(r@.files =~= Seq::empty());
        r
    }

    /// The request that downloads an attachment: a plain GET of its address.
    pub fn get_attachment(&self, url: &str) -> (r: HttpRequest<'static>)
        ensures
            r@ == (HttpRequestView {
                method: Method::Get,
                url: url@,
                headers: Seq::empty(),
                payload: None,
                files: Seq::empty(),
            }),
    {
        let r = HttpRequest {
            method: Method::Get,
            url: String::from_str(url),
            headers: Vec::new(),
            payload: None,
            files: Vec::new(),
        };
        assert(r@.files =~= Seq::empty());
        assert(r@.headers =~= Seq::empty());
        r
    }

    /// The multipart request that carries a message with attachments to
    /// `url`. Creation and update differ in verb and address only.
    pub fn multipart_request<'a>(
        &self,
        method: Method,
        url: String,
        content: &'a str,
        attachment: &'a Vec<(String, Vec<u8>)>,
    ) -> (r: HttpRequest<'a>)
        ensures
            r@ == multipart_model(method, url@, self.token(), content@, attachments_view(attachment@)),
    {
        let mut descriptions: Vec<SendAttachmentJson<'a>> = Vec::new();
        let mut files: Vec<FilePart<'a>> = Vec::new();
        let mut i: usize = 0;
        proof {
            reveal_strlit("");
        }
        while i < attachment.len()
            invariant
                i <= attachment@.len(),
                ""@.len() == 0,
                descriptions@.len() == i,
                files@.len() == i,
                forall|k: int|
                    0 <= k < i ==> (#[trigger] descriptions@[k]).id == k
                        && descriptions@[k].description@ == Seq::<char>::empty()
                        && descriptions@[k].filename@ == attachment@[k].0@,
                forall|k: int|
                    0 <= k < i ==> (#[trigger] files@[k])@ == (FilePartView {
                        name: part_name(k as nat),
                        file_name: attachment@[k].0@,
                        bytes: attachment@[k].1@,
                    }),
            decreases attachment@.len() - i,
        {
            let named = &attachment[i];
            assert(""@ =~= Seq::<char>::empty());
            descriptions.push(
                SendAttachmentJson { id: i, description: "", filename: named.0.as_str() },
            );
            let mut name = String::from_str("files[");
            name.append(decimal_string(i).as_str());
            name.append("]");
            files.push(FilePart { name, file_name: named.0.as_str(), bytes: named.1.as_slice() });
            i = i + 1;
        }
        let r = HttpRequest {
            method,
            url,
            headers: self.headers(),
            payload: Some(SendMsgReqJson { content, attachments: descriptions }),
            files,
        };
        assert(r@.files =~= file_parts_model(attachments_view(attachment@)));
        assert(r@.payload->Some_0.attachments =~= payload_model(
            content@,
            attachments_view(attachment@),
        ).attachments);
        r
    }

    /// The request that creates a message with attachments: a POST to the
    /// channel's messages.
    pub fn send_msg_with_attachment<'a>(
        &self,
        content: &'a str,
        attachment: &'a Vec<(String, Vec<u8>)>,
    ) -> (r: HttpRequest<'a>)
        ensures
            r@ == multipart_model(
                Method::Post,
                messages_url(self.channel_id()),
                self.token(),
                content@,
                attachments_view(attachment@),
            ),
    {
        self.multipart_request(Method::Post, self.messages_address(), content, attachment)
    }

    /// The request that puts a message with attachments in the place of the
    /// one with the handle: a PATCH of its address.
    pub fn edit_msg_with_attachments<'a>(
        &self,
        msg_id: &str,
        content: &'a str,
        attachment: &'a Vec<(String, Vec<u8>)>,
    ) -> (r: HttpRequest<'a>)
        ensures
            r@ == multipart_model(
                Method::Patch,
                message_url(self.channel_id(), msg_id@),
                self.token(),
                content@,
                attachments_view(attachment@),
            ),
    {
        self.multipart_request(Method::Patch, self.message_address(msg_id), content, attachment)
    }
}

/// Whether a status code lies in the success range.
pub fn is_success(status: u16) -> (r: bool)
    ensures
        r == status_ok(status),
{
    200 <= status && status < 300
}

/// What the answer to an update means: a status outside the success range
/// is a failure of the remote side.
pub fn edited(status: u16) -> (r: Result<()>)
    ensures
        r == if status_ok(status) {
            Ok::<(), Error>(())
        } else {
            Err::<(), Error>(Error::DiscordError)
        },
{
    if is_success(status) {
        Ok(())
    } else {
        Err(Error::DiscordError)
    }
}

/// What the answer to a creation means: `body` is the answer's document,
/// `None` where it could not be decoded. A status outside the success range
/// is a failure of the remote side, whatever the body; an undecodable body
/// a decoding failure; else the new handle is the document's id.
pub fn created_handle(status: u16, body: Option<SendMsgResJson>) -> (r: Result<String>)
    ensures
        !status_ok(status) ==> r == Err::<String, Error>(Error::DiscordError),
        status_ok(status) && body is None ==> r == Err::<String, Error>(Error::Serde),
        status_ok(status) && body is Some ==> r is Ok && r->Ok_0@ == body->Some_0.id@,
{
    if !is_success(status) {
        return Err(Error::DiscordError);
    }
    match body {
        Some(res) => Ok(res.id),
        None => Err(Error::Serde),
    }
}

/// What the answer to a fetch means: `body` is the answer's document,
/// `None` where it could not be decoded. A status outside the success range
/// is a failure of the remote side, whatever the body; an undecodable body
/// a decoding failure; else the message is the document.
pub fn fetched_message(status: u16, body: Option<MsgJson>) -> (r: Result<MsgJson>)
    ensures
        !status_ok(status) ==> r == Err::<MsgJson, Error>(Error::DiscordError),
        status_ok(status) && body is None ==> r == Err::<MsgJson, Error>(Error::Serde),
        status_ok(status) && body is Some ==> r == Ok::<MsgJson, Error>(body->Some_0),
{
    if !is_success(status) {
        return Err(Error::DiscordError);
    }
    match body {
        Some(msg) => Ok(msg),
        None => Err(Error::Serde),
    }
}

} // verus!
