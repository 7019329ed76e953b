//! What holds of every exchange, whatever the service answers.

use vstd::prelude::*;

use crate::error::ClientError;
use crate::exchange::{
    episode_read, is_success, next_step, no_parameters, opening, status_error, Event, Method,
    Outcome, Payload, PendingView, QueryText, Reply, StepView,
};
use crate::headers::{Entries, API_KEY_HEADER};
use crate::records::{unmonitored, EpisodeInfo, EpisodeInfoView, SeriesInfo};

verus! {

/// A header set that holds the given key once under [`API_KEY_HEADER`],
/// marked sensitive, and nothing besides.
pub open spec fn sole_credential(headers: Entries, key: Seq<u8>) -> bool {
    &&& headers.dom() =~= set![API_KEY_HEADER@]
    &&& headers[API_KEY_HEADER@] == seq![(key, true)]
}

/// An event that lets an operation go on: a reply in the 2xx range.
pub open spec fn succeeded(event: Event) -> bool {
    event matches Event::Reply(reply) && is_success(reply.status)
}

/// The one event after which an unmonitor writes: a 2xx reply to the read
/// that holds an episode.
pub open spec fn read_succeeded(event: Event) -> bool {
    &&& event matches Event::Reply(reply)
    &&& is_success(reply.status)
    &&& reply.payload matches Some(Payload::Episode(_))
}

/// Every request that opens an operation carries the credential, once, under
/// the fixed name, marked sensitive; and so does the read that opens an
/// unmonitor.
pub proof fn lemma_opening_is_authenticated(
    credential: Seq<u8>,
    target: Option<Seq<char>>,
    method: Method,
    query: QueryText,
    body: Option<EpisodeInfoView>,
    then: PendingView,
)
    ensures
        opening(credential, target, method, query, body, then) matches StepView::Send {
            request,
            ..
        } ==> sole_credential(request.headers, credential),
        episode_read(credential, target) matches StepView::Send { request, .. }
            ==> sole_credential(request.headers, credential),
{
}

/// Every request that follows a reply carries the credential in the same way.
pub proof fn lemma_follow_up_is_authenticated(
    credential: Seq<u8>,
    pending: PendingView,
    event: Event,
)
    ensures
        next_step(credential, pending, event) matches StepView::Send { request, .. }
            ==> sole_credential(request.headers, credential),
{
}

/// What an operation ends in never depends on the credential: no result and
/// no error can hold it.
pub proof fn lemma_result_is_independent_of_credential(
    credential: Seq<u8>,
    other: Seq<u8>,
    pending: PendingView,
    event: Event,
)
    ensures
        next_step(credential, pending, event) matches StepView::Done(result) ==> next_step(
            other,
            pending,
            event,
        ) == StepView::Done(result),
{
}

/// A listing is handed back as it was decoded: the same entries in the same
/// order.
pub proof fn lemma_listing_is_handed_back(credential: Seq<u8>, reply: Reply, list: Vec<SeriesInfo>)
    requires
        is_success(reply.status),
        reply.payload == Some(Payload::Series(list)),
    ensures
        next_step(credential, PendingView::Series, Event::Reply(reply)) == StepView::Done(
            Ok(Outcome::Series(list)),
        ),
{
}

/// After a successful read, the episode is written back to the address it
/// was read from, and the record written differs from the record read in
/// `monitored` alone, which is now `false`.
pub proof fn lemma_write_back_changes_only_monitored(
    credential: Seq<u8>,
    url: Seq<char>,
    reply: Reply,
    episode: EpisodeInfo,
)
    requires
        is_success(reply.status),
        reply.payload == Some(Payload::Episode(episode)),
    ensures
        next_step(credential, PendingView::EpisodeRead { url }, Event::Reply(reply)) == opening(
            credential,
            Some(url),
            Method::Put,
            no_parameters(),
            Some(unmonitored(episode@)),
            PendingView::EpisodeWrite,
        ),
        unmonitored(episode@).monitored == false,
        unmonitored(episode@).id == episode.id,
        unmonitored(episode@).series_id == episode.series_id,
        unmonitored(episode@).episode_file_id == episode.episode_file_id,
        unmonitored(episode@).title == episode.title@,
        unmonitored(episode@).season_number == episode.season_number,
        unmonitored(episode@).episode_number == episode.episode_number,
{
}

/// An unmonitor writes to the address it read from: the read remembers its
/// own address, and the write that follows a successful read goes there.
pub proof fn lemma_write_goes_where_the_read_went(
    credential: Seq<u8>,
    url: Seq<char>,
    event: Event,
)
    ensures
        episode_read(credential, Some(url)) matches StepView::Send { request, then }
            && request.method == Method::Get && request.url == url && (next_step(
            credential,
            then,
            event,
        ) matches StepView::Send { request: write, .. } ==> write.method == Method::Put
            && write.url == url),
{
}

/// A write follows the read exactly when the read succeeded and held an
/// episode. In every other case the operation ends there, in failure, and
/// nothing is written.
pub proof fn lemma_failed_read_sends_nothing(credential: Seq<u8>, url: Seq<char>, event: Event)
    ensures
        next_step(credential, PendingView::EpisodeRead { url }, event) is Send <==> read_succeeded(
            event,
        ),
        !read_succeeded(event) ==> next_step(
            credential,
            PendingView::EpisodeRead { url },
            event,
        ) matches StepView::Done(Err(_)),
{
}

/// A write that did not succeed is reported as a failure, never passed over.
pub proof fn lemma_failed_write_is_reported(credential: Seq<u8>, event: Event)
    requires
        !succeeded(event),
    ensures
        next_step(credential, PendingView::EpisodeWrite, event) == StepView::Done(
            Err(
                match event {
                    Event::Reply(reply) => status_error(reply),
                    Event::TransportFailed => ClientError::Transport,
                },
            ),
        ),
{
}

/// A delete or a write succeeds on any 2xx reply, whatever its body: none is
/// expected and none is looked at.
pub proof fn lemma_empty_reply_is_success(credential: Seq<u8>, reply: Reply)
    requires
        is_success(reply.status),
    ensures
        next_step(credential, PendingView::Delete, Event::Reply(reply)) == StepView::Done(
            Ok(Outcome::Done),
        ),
        next_step(credential, PendingView::EpisodeWrite, Event::Reply(reply)) == StepView::Done(
            Ok(Outcome::Done),
        ),
{
}

/// No operation takes more than two round trips: only the read of an
/// unmonitor is ever followed by another request, and that one, the write,
/// is the last.
pub proof fn lemma_at_most_two_requests(credential: Seq<u8>, pending: PendingView, event: Event)
    ensures
        !(pending is EpisodeRead) ==> next_step(credential, pending, event) is Done,
        next_step(credential, pending, event) matches StepView::Send { then, .. } ==> then
            == PendingView::EpisodeWrite,
{
}

/// A successful operation hands back what was asked for: a listing of the
/// kind requested, or nothing where nothing was.
pub proof fn lemma_outcome_is_of_the_kind_requested(
    credential: Seq<u8>,
    pending: PendingView,
    event: Event,
)
    ensures
        next_step(credential, pending, event) matches StepView::Done(Ok(outcome)) ==> match pending {
            PendingView::Series => outcome is Series,
            PendingView::Tags => outcome is Tags,
            PendingView::Episodes => outcome is Episodes,
            PendingView::Delete => outcome is Done,
            PendingView::EpisodeRead { .. } => false,
            PendingView::EpisodeWrite => outcome is Done,
        },
{
}

} // verus!
