//! A small client library for topic-based push notification relays that
//! speak the ntfy protocol.
//!
//! A [`Client`] holds the addressing information for one topic: the server
//! base URL, the topic name, and a uuid-like secret that is appended to the
//! topic for privacy. A [`Message`] holds the notification content: a
//! required body plus an optional title and an optional comma-separated tag
//! string, assembled through [`MessageBuilder`]. [`prepare`] combines the
//! two into the exact wire-level request — URL, `Title` and `Tags` headers,
//! and body — which a thin I/O layer then posts over HTTP.

use vstd::prelude::*;
use vstd::string::StringExecFns;

verus! {

/// The destination URL for a target: the server, a path separator, the
/// topic, a literal underscore, and the secret, concatenated in that order
/// with no character transformation and no URL-encoding of any component.
pub open spec fn url_view(server: Seq<char>, topic: Seq<char>, uuid: Seq<char>) -> Seq<char> {
    server + "/"@ + topic + "_"@ + uuid
}

/// The header value that an optional field resolves to: the field itself
/// when present, the empty string when absent. The header is still sent in
/// the absent case, with an empty value — it is never omitted.
pub open spec fn resolved(field: Option<Seq<char>>) -> Seq<char> {
    match field {
        Some(t) => t,
        None => Seq::<char>::empty(),
    }
}

/// Define the target for a notification.
#[derive(Debug)]
pub struct Client {
    /// The URL of the ntfy server, e.g. `"https://ntfy.sh"`.
    pub server: String,

    /// A topic which acts like a channel that receives notifications for that topic, e.g. `backup`.
    pub topic: String,

    /// A uuid (or another password like String) that will be appended to the topic for privacy reasons.
    pub uuid: String,
}

impl Client {
    /// Constructs a new `Client`. All three fields are stored verbatim: no
    /// trimming, no normalization, no validation.
    pub fn new(server: &str, topic: &str, uuid: &str) -> (c: Self)
        ensures
            c.server@ == server@,
            c.topic@ == topic@,
            c.uuid@ == uuid@,
    {
        Self {
            server: server.to_owned(),
            topic: topic.to_owned(),
            uuid: uuid.to_owned(),
        }
    }
}

/// The mathematical content of a notification: what [`Message`] and
/// [`MessageBuilder`] hold, seen as plain sequences of characters.
pub ghost struct MessageView {
    /// The title, or `None` when no title was set.
    pub title: Option<Seq<char>>,

    /// The body text.
    pub message: Seq<char>,

    /// The comma-separated tag string, or `None` when no tags were set.
    pub tags: Option<Seq<char>>,
}

impl MessageView {
    /// The content after the title is set to `t`: whatever title was there
    /// before is replaced, everything else is kept.
    pub open spec fn with_title(self, t: Seq<char>) -> MessageView {
        MessageView { title: Some(t), ..self }
    }

    /// The content after the tag string is set to `t`: whatever tags were
    /// there before are replaced, everything else is kept.
    pub open spec fn with_tags(self, t: Seq<char>) -> MessageView {
        MessageView { tags: Some(t), ..self }
    }
}

/// Setting the title twice keeps only the second value, whatever the first
/// was; the message and the tags are untouched. Last write wins.
pub proof fn lemma_title_last_write_wins(v: MessageView, a: Seq<char>, b: Seq<char>)
    ensures
        v.with_title(a).with_title(b) == v.with_title(b),
{
}

/// Setting the tag string twice keeps only the second value, whatever the
/// first was; the message and the title are untouched. Last write wins.
pub proof fn lemma_tags_last_write_wins(v: MessageView, a: Seq<char>, b: Seq<char>)
    ensures
        v.with_tags(a).with_tags(b) == v.with_tags(b),
{
}

/// Define the content of a notification.
#[derive(Debug, Clone)]
pub struct Message {
    /// The title of the notification. Sent as an empty `Title` header if `None`.
    title: Option<String>,

    /// The body text of the notification.
    message: String,

    /// One tag or multiple tags as a comma separated String, e.g. `important` or `"foo,bar"`.
    ///
    /// If a tag matches an emoji short code the relay converts it to an emoji
    /// and prepends it to the title, otherwise the relay lists it below the
    /// notification; this library passes the string through untouched.
    ///
    /// Sent as an empty `Tags` header if `None`.
    tags: Option<String>,
}

impl View for Message {
    type V = MessageView;

    closed spec fn view(&self) -> MessageView {
        MessageView {
            title: self.title.deep_view(),
            message: self.message@,
            tags: self.tags.deep_view(),
        }
    }
}

impl Message {
    /// Constructs a new `Message` via the `MessageBuilder` pattern.
    pub fn builder(message: &str) -> (b: MessageBuilder)
        ensures
            b@ == (MessageView { title: None, message: message@, tags: None }),
    {
        MessageBuilder::new(message)
    }
}

/// Accumulates the fields of a [`Message`] prior to finalizing it. Every
/// operation is total: no field is validated, and an empty message body is
/// accepted.
#[derive(Debug)]
pub struct MessageBuilder {
    title: Option<String>,
    message: String,
    tags: Option<String>,
}

impl View for MessageBuilder {
    type V = MessageView;

    closed spec fn view(&self) -> MessageView {
        MessageView {
            title: self.title.deep_view(),
            message: self.message@,
            tags: self.tags.deep_view(),
        }
    }
}

impl MessageBuilder {
    fn new(message: &str) -> (b: MessageBuilder)
        ensures
            b@ == (MessageView { title: None, message: message@, tags: None }),
    {
        MessageBuilder { title: None, message: message.to_owned(), tags: None }
    }

    /// Adds an optional title to the message, replacing any title set before.
    pub fn title(self, title: &str) -> (b: MessageBuilder)
        ensures
            b@ == self@.with_title(title@),
    {
        MessageBuilder { title: Some(title.to_owned()), ..self }
    }

    /// Adds one or more optional tags to the message, e.g. `"foo"` or
    /// `"foo,bar"`, replacing any tags set before.
    pub fn tags(self, tags: &str) -> (b: Self)
        ensures
            b@ == self@.with_tags(tags@),
    {
        Self { tags: Some(tags.to_owned()), ..self }
    }

    /// Create a `Message` from a `MessageBuilder`.
    pub fn build(self) -> (m: Message)
        ensures
            m@ == self@,
    {
        Message { title: self.title, message: self.message, tags: self.tags }
    }
}

/// The wire-level HTTP POST request that one dispatch sends: everything the
/// transport needs, with every field already in its final form.
pub struct Request {
    /// The destination, `{server}/{topic}_{uuid}`.
    pub url: String,

    /// The value of the `Title` header; empty when no title was set.
    pub title: String,

    /// The value of the `Tags` header; empty when no tags were set.
    pub tags: String,

    /// The request body: the message text, passed through verbatim.
    pub body: String,
}

/// Translates a target and a content value into the outbound request: the
/// URL is the plain concatenation `{server}/{topic}_{uuid}`, the `Title` and
/// `Tags` headers carry the title and tags or the empty string in their
/// absence, and the body is the message itself, untouched.
pub fn prepare(cli: &Client, msg: Message) -> (r: Request)
    ensures
        r.url@ == url_view(cli.server@, cli.topic@, cli.uuid@),
        r.title@ == resolved(msg@.title),
        r.tags@ == resolved(msg@.tags),
        r.body@ == msg@.message,
{
    let mut url = cli.server.clone();
    url.append("/");
    url.append(cli.topic.as_str());
    url.append("_");
    url.append(cli.uuid.as_str());
    let Message { title, message, tags } = msg;
    let title = match title {
        Some(t) => t,
        None => String::new(),
    };
    let tags = match tags {
        Some(t) => t,
        None => String::new(),
    };
    Request { url, title, tags, body: message }
}

/// The one failure kind a dispatch can report: the underlying HTTP transport
/// failed to complete the exchange (DNS resolution, connection, TLS, or
/// stream errors). It wraps the transport's own error value unmodified.
#[derive(Debug)]
pub enum DispatchError<E> {
    /// The exchange never completed; the collaborator's error is inside.
    Transport(E),
}

/// Folds the transport collaborator's outcome into the dispatch result.
/// A completed HTTP exchange is handed back untouched whatever its status —
/// a non-2xx response is not an error from this library's point of view —
/// and a transport failure is reported as `Transport`, the only error kind.
pub fn finish_dispatch<R, E>(outcome: Result<R, E>) -> (r: Result<R, DispatchError<E>>)
    ensures
        (match outcome {
            Ok(resp) => r == Ok::<R, DispatchError<E>>(resp),
            Err(e) => r == Err::<R, DispatchError<E>>(DispatchError::Transport(e)),
        }),
{
    match outcome {
        Ok(resp) => Ok(resp),
        Err(e) => Err(DispatchError::Transport(e)),
    }
}

} // verus!
