//! What passes between the library and whoever carries its requests: the
//! request to send, the event that came back, and the step that follows.

use reqwest::header::HeaderMap;
use vstd::prelude::*;

use crate::error::{ClientError, Endpoint};
use crate::headers::{auth_entries, header_entries, Entries};
use crate::records::{unmonitored, EpisodeInfo, EpisodeInfoView, SeriesInfo, Tag};

verus! {

/// The HTTP methods the client uses.
#[derive(Clone, Copy, Debug, PartialEq, Eq, Structural)]
pub enum Method {
    Get,
    Put,
    Delete,
}

/// One HTTP request, complete: nothing is added to it on the way out but the
/// encoding of its parts.
pub struct Request {
    pub method: Method,
    /// The resource, without query.
    pub url: String,
    /// Query parameters, to be encoded by the transport.
    pub query: Vec<(String, String)>,
    pub headers: HeaderMap,
    /// The record to send as the JSON body, if any.
    pub body: Option<EpisodeInfo>,
}

/// A request as plain values.
pub struct RequestView {
    pub method: Method,
    pub url: Seq<char>,
    pub query: QueryText,
    pub headers: Entries,
    pub body: Option<EpisodeInfoView>,
}

/// Query parameters as text: keys and values in the order given.
pub type QueryText = Seq<(Seq<char>, Seq<char>)>;

/// The text of a list of query parameters.
pub open spec fn query_text(query: Seq<(String, String)>) -> QueryText {
    Seq::new(query.len(), |i: int| (query[i].0@, query[i].1@))
}

/// No query parameters at all.
pub open spec fn no_parameters() -> QueryText {
    Seq::empty()
}

/// The view of an optional episode.
pub open spec fn body_view(body: Option<EpisodeInfo>) -> Option<EpisodeInfoView> {
    match body {
        Some(episode) => Some(episode@),
        None => None,
    }
}

impl View for Request {
    type V = RequestView;

    open spec fn view(&self) -> RequestView {
        RequestView {
            method: self.method,
            url: self.url@,
            query: query_text(self.query@),
            headers: header_entries(self.headers),
            body: body_view(self.body),
        }
    }
}

/// A decoded reply body.
pub enum Payload {
    Series(Vec<SeriesInfo>),
    Tags(Vec<Tag>),
    Episodes(Vec<EpisodeInfo>),
    Episode(EpisodeInfo),
}

/// What the service answered: the status, the body as text, and the body
/// decoded as what the pending step expects, where it decodes as that.
pub struct Reply {
    pub status: u16,
    pub body: String,
    pub payload: Option<Payload>,
}

/// What became of a request.
pub enum Event {
    Reply(Reply),
    /// No reply: the connection failed or timed out.
    TransportFailed,
}

/// What a finished operation hands back.
pub enum Outcome {
    Series(Vec<SeriesInfo>),
    Tags(Vec<Tag>),
    Episodes(Vec<EpisodeInfo>),
    /// The operation has no result beyond having succeeded.
    Done,
}

/// The request in flight.
pub enum Pending {
    Series,
    Tags,
    Episodes,
    Delete,
    /// The read of an episode that is to be written back to `url`.
    EpisodeRead { url: String },
    EpisodeWrite,
}

/// The request in flight, as plain values.
pub enum PendingView {
    Series,
    Tags,
    Episodes,
    Delete,
    EpisodeRead { url: Seq<char> },
    EpisodeWrite,
}

impl View for Pending {
    type V = PendingView;

    open spec fn view(&self) -> PendingView {
        match self {
            Pending::Series => PendingView::Series,
            Pending::Tags => PendingView::Tags,
            Pending::Episodes => PendingView::Episodes,
            Pending::Delete => PendingView::Delete,
            Pending::EpisodeRead { url } => PendingView::EpisodeRead { url: url@ },
            Pending::EpisodeWrite => PendingView::EpisodeWrite,
        }
    }
}

/// What to do next: send a request and come back with what became of it, or
/// stop with the operation's result.
pub enum Step {
    Send { request: Request, then: Pending },
    Done(Result<Outcome, ClientError>),
}

/// A step as plain values.
pub enum StepView {
    Send { request: RequestView, then: PendingView },
    Done(Result<Outcome, ClientError>),
}

impl View for Step {
    type V = StepView;

    open spec fn view(&self) -> StepView {
        match self {
            Step::Send { request, then } => StepView::Send { request: request@, then: then@ },
            Step::Done(result) => StepView::Done(*result),
        }
    }
}

/// The statuses that count as success.
pub open spec fn is_success(status: u16) -> bool {
    200 <= status <= 299
}

/// The failure that a reply outside the 2xx range stands for: its status,
/// and its body unless that is empty.
pub open spec fn status_error(reply: Reply) -> ClientError {
    ClientError::HttpStatus {
        status: reply.status,
        body: if reply.body@.len() == 0 {
            None
        } else {
            Some(reply.body)
        },
    }
}

/// The first step of an operation: the request to `target` with the client's
/// credential, or failure where the target could not be resolved.
pub open spec fn opening(
    credential: Seq<u8>,
    target: Option<Seq<char>>,
    method: Method,
    query: QueryText,
    body: Option<EpisodeInfoView>,
    then: PendingView,
) -> StepView {
    match target {
        Some(url) => StepView::Send {
            request: RequestView { method, url, query, headers: auth_entries(credential), body },
            then,
        },
        None => StepView::Done(Err(ClientError::InvalidUrl)),
    }
}

/// The first step of reading one episode: a `GET` of its address, which is
/// remembered as the place to write back to.
pub open spec fn episode_read(credential: Seq<u8>, target: Option<Seq<char>>) -> StepView {
    match target {
        Some(url) => opening(
            credential,
            target,
            Method::Get,
            no_parameters(),
            None,
            PendingView::EpisodeRead { url },
        ),
        None => StepView::Done(Err(ClientError::InvalidUrl)),
    }
}

/// What a successful reply means for the request in flight.
pub open spec fn accepted(credential: Seq<u8>, pending: PendingView, payload: Option<Payload>) -> StepView {
    match pending {
        PendingView::Series => match payload {
            Some(Payload::Series(list)) => StepView::Done(Ok(Outcome::Series(list))),
            _ => StepView::Done(Err(ClientError::Decode { endpoint: Endpoint::Series })),
        },
        PendingView::Tags => match payload {
            Some(Payload::Tags(list)) => StepView::Done(Ok(Outcome::Tags(list))),
            _ => StepView::Done(Err(ClientError::Decode { endpoint: Endpoint::Tag })),
        },
        PendingView::Episodes => match payload {
            Some(Payload::Episodes(list)) => StepView::Done(Ok(Outcome::Episodes(list))),
            _ => StepView::Done(Err(ClientError::Decode { endpoint: Endpoint::Episode })),
        },
        PendingView::Delete => StepView::Done(Ok(Outcome::Done)),
        PendingView::EpisodeRead { url } => match payload {
            Some(Payload::Episode(episode)) => opening(
                credential,
                Some(url),
                Method::Put,
                no_parameters(),
                Some(unmonitored(episode@)),
                PendingView::EpisodeWrite,
            ),
            _ => StepView::Done(Err(ClientError::Decode { endpoint: Endpoint::Episode })),
        },
        PendingView::EpisodeWrite => StepView::Done(Ok(Outcome::Done)),
    }
}

/// The step that follows an event. A request that got no reply, or a reply
/// outside the 2xx range, ends the operation whatever was in flight.
pub open spec fn next_step(credential: Seq<u8>, pending: PendingView, event: Event) -> StepView {
    match event {
        Event::TransportFailed => StepView::Done(Err(ClientError::Transport)),
        Event::Reply(reply) => if is_success(reply.status) {
            accepted(credential, pending, reply.payload)
        } else {
            StepView::Done(Err(status_error(reply)))
        },
    }
}

} // verus!
