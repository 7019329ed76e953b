//! The client handle and the operations it offers.

use reqwest::header::HeaderMap;
use vstd::prelude::*;
use vstd::string::*;

use crate::decimal::{decimal, decimal_text};
use crate::error::{ClientError, Endpoint};
use crate::exchange::{
    body_view, episode_read, next_step, no_parameters, opening, query_text, Event, Method,
    Outcome, Payload, Pending, PendingView, Reply, Request, Step,
};
use crate::headers::{
    auth_entries, auth_headers, copy_headers, header_entries, key_ok, API_KEY_HEADER,
};
use crate::records::EpisodeInfo;
use crate::url::{
    item_url, join_item, join_url, rooted_url, text_of, url_accepted, url_join, url_with_path,
    API_ROOT, MAX_URL_LEN,
};

verus! {

/// A handle on one Sonarr instance: where it lives and how to authenticate.
/// It never changes after construction.
pub struct SonarrClient {
    base_url: String,
    headers: HeaderMap,
}

/// A request without query parameters.
fn no_query() -> (query: Vec<(String, String)>)
    ensures
        query_text(query@) == no_parameters(),
{
    let query: Vec<(String, String)> = Vec::new();
    assert(query_text(query@) =~= no_parameters());
    query
}

impl SonarrClient {
    /// The URL that every resource is resolved against.
    pub closed spec fn base(&self) -> Seq<char> {
        self.base_url@
    }

    /// The bytes of the API key.
    pub closed spec fn credential(&self) -> Seq<u8> {
        header_entries(self.headers)[API_KEY_HEADER@][0].0
    }

    #[verifier::type_invariant]
    spec fn credential_in_place(&self) -> bool {
        header_entries(self.headers) == auth_entries(self.credential())
    }

    /// Builds a client for the instance at `base_url`.
    ///
    /// Whatever path the URL came with is replaced by [`API_ROOT`]. Fails
    /// with `InvalidUrl` on a URL that is malformed or longer than
    /// [`MAX_URL_LEN`], else with `InvalidCredential` on a key that holds a
    /// forbidden control character. Sends nothing.
    pub fn new(base_url: &str, api_key: &str) -> (r: Result<SonarrClient, ClientError>)
        ensures
            r is Ok <==> url_accepted(base_url) && key_ok(api_key@),
            r matches Ok(client) ==> client.base() == url_with_path(base_url@, API_ROOT@)
                && client.credential() == api_key.spec_bytes(),
            r matches Err(e) ==> e == if url_accepted(base_url) {
                ClientError::InvalidCredential
            } else {
                ClientError::InvalidUrl
            },
    {
        let root = if base_url.as_bytes().len() <= MAX_URL_LEN {
            proof {
                reveal_strlit("/api/v3/");
            }
            rooted_url(base_url, API_ROOT)
        } else {
            None
        };
        SonarrClient::from_root(root, api_key)
    }

    /// Builds a client from a base URL that is already resolved, or fails
    /// with `InvalidUrl` where there is none.
    pub fn from_root(root: Option<String>, api_key: &str) -> (r: Result<SonarrClient, ClientError>)
        ensures
            r is Ok <==> root is Some && key_ok(api_key@),
            r matches Ok(client) ==> Some(client.base()) == text_of(root) && client.credential()
                == api_key.spec_bytes(),
            r matches Err(e) ==> e == if root is Some {
                ClientError::InvalidCredential
            } else {
                ClientError::InvalidUrl
            },
    {
        match root {
            Some(base_url) => match auth_headers(api_key) {
                Ok(headers) => {
                    assert(auth_entries(api_key.spec_bytes())[API_KEY_HEADER@][0].0
                        == api_key.spec_bytes());
                    Ok(SonarrClient { base_url, headers })
                },
                Err(e) => Err(e),
            },
            None => Err(ClientError::InvalidUrl),
        }
    }

    /// The URL that every resource is resolved against.
    pub fn base_url(&self) -> (url: &str)
        ensures
            url@ == self.base(),
    {
        self.base_url.as_str()
    }

    /// The headers that go with every request: the API key and nothing else.
    pub fn headers(&self) -> (headers: &HeaderMap)
        ensures
            header_entries(*headers) == auth_entries(self.credential()),
    {
        proof {
            use_type_invariant(self);
        }
        &self.headers
    }

    /// Starts an operation on a resolved target: the request carries the
    /// client's credential. Without a target the operation ends at once with
    /// `InvalidUrl`.
    pub fn launch(
        &self,
        target: Option<String>,
        method: Method,
        query: Vec<(String, String)>,
        body: Option<EpisodeInfo>,
        then: Pending,
    ) -> (step: Step)
        ensures
            step@ == opening(
                self.credential(),
                text_of(target),
                method,
                query_text(query@),
                body_view(body),
                then@,
            ),
    {
        match target {
            Some(url) => {
                proof {
                    use_type_invariant(self);
                }
                let headers = copy_headers(&self.headers);
                Step::Send { request: Request { method, url, query, headers, body }, then }
            },
            None => Step::Done(Err(ClientError::InvalidUrl)),
        }
    }

    /// Starts reading one episode from a resolved target, to be written back
    /// to the same place.
    pub fn launch_episode_read(&self, target: Option<String>) -> (step: Step)
        ensures
            step@ == episode_read(self.credential(), text_of(target)),
    {
        match target {
            Some(url) => {
                let again = url.clone();
                self.launch(
                    Some(url),
                    Method::Get,
                    no_query(),
                    None,
                    Pending::EpisodeRead { url: again },
                )
            },
            None => Step::Done(Err(ClientError::InvalidUrl)),
        }
    }

    /// Looks up the series known under a TVDB identifier: a `GET` of the
    /// series collection with the identifier as the `tvdbId` parameter.
    pub fn series_by_tvdb_id(&self, provider_id: &str) -> (step: Step)
        ensures
            step@ == opening(
                self.credential(),
                url_join(self.base(), "series"@),
                Method::Get,
                seq![("tvdbId"@, provider_id@)],
                None,
                PendingView::Series,
            ),
    {
        let target = join_url(self.base_url.as_str(), "series");
        let mut query: Vec<(String, String)> = Vec::new();
        query.push((String::from_str("tvdbId"), String::from_str(provider_id)));
        assert(query_text(query@) =~= seq![("tvdbId"@, provider_id@)]);
        self.launch(target, Method::Get, query, None, Pending::Series)
    }

    /// Lists all tags: a `GET` of the tag collection.
    pub fn tags(&self) -> (step: Step)
        ensures
            step@ == opening(
                self.credential(),
                url_join(self.base(), "tag"@),
                Method::Get,
                no_parameters(),
                None,
                PendingView::Tags,
            ),
    {
        let target = join_url(self.base_url.as_str(), "tag");
        self.launch(target, Method::Get, no_query(), None, Pending::Tags)
    }

    /// Lists the episodes of a series: a `GET` of the episode collection with
    /// the series identifier, in decimal, as the `seriesId` parameter.
    pub fn episodes_by_series(&self, series_id: u64) -> (step: Step)
        ensures
            step@ == opening(
                self.credential(),
                url_join(self.base(), "episode"@),
                Method::Get,
                seq![("seriesId"@, decimal(series_id as nat))],
                None,
                PendingView::Episodes,
            ),
    {
        let target = join_url(self.base_url.as_str(), "episode");
        let mut query: Vec<(String, String)> = Vec::new();
        query.push((String::from_str("seriesId"), decimal_text(series_id)));
        assert(query_text(query@) =~= seq![("seriesId"@, decimal(series_id as nat))]);
        self.launch(target, Method::Get, query, None, Pending::Episodes)
    }

    /// Deletes an episode file: a `DELETE` of the file's own address.
    pub fn delete_episode_file(&self, episode_file_id: u64) -> (step: Step)
        ensures
            step@ == opening(
                self.credential(),
                item_url(self.base(), "episodefile/"@, episode_file_id),
                Method::Delete,
                no_parameters(),
                None,
                PendingView::Delete,
            ),
    {
        let target = join_item(self.base_url.as_str(), "episodefile/", episode_file_id);
        self.launch(target, Method::Delete, no_query(), None, Pending::Delete)
    }

    /// Stops the service from acquiring an episode on its own. The service
    /// replaces episodes whole, so this starts by reading the episode; the
    /// write follows in [`SonarrClient::resume`] once the read has succeeded.
    pub fn unmonitor_episode(&self, episode_id: u64) -> (step: Step)
        ensures
            step@ == episode_read(
                self.credential(),
                item_url(self.base(), "episode/"@, episode_id),
            ),
    {
        let target = join_item(self.base_url.as_str(), "episode/", episode_id);
        self.launch_episode_read(target)
    }

    /// Continues an operation with what became of its request.
    ///
    /// A request without reply ends the operation with `Transport`, a reply
    /// outside the 2xx range with `HttpStatus`. A 2xx reply that does not
    /// hold what the request asked for ends it with `Decode`. Otherwise a
    /// listing is handed back as it was decoded, a delete or a write is done,
    /// and the read of an episode is followed by a `PUT` of the same episode,
    /// unmonitored, to the address it was read from.
    pub fn resume(&self, pending: Pending, event: Event) -> (step: Step)
        ensures
            step@ == next_step(self.credential(), pending@, event),
    {
        match event {
            Event::TransportFailed => Step::Done(Err(ClientError::Transport)),
            Event::Reply(reply) => {
                let Reply { status, body, payload } = reply;
                if status < 200 || status > 299 {
                    let body = if body.as_str().is_empty() {
                        None
                    } else {
                        Some(body)
                    };
                    return Step::Done(Err(ClientError::HttpStatus { status, body }));
                }
                match pending {
                    Pending::Series => match payload {
                        Some(Payload::Series(list)) => Step::Done(Ok(Outcome::Series(list))),
                        _ => Step::Done(Err(ClientError::Decode { endpoint: Endpoint::Series })),
                    },
                    Pending::Tags => match payload {
                        Some(Payload::Tags(list)) => Step::Done(Ok(Outcome::Tags(list))),
                        _ => Step::Done(Err(ClientError::Decode { endpoint: Endpoint::Tag })),
                    },
                    Pending::Episodes => match payload {
                        Some(Payload::Episodes(list)) => Step::Done(Ok(Outcome::Episodes(list))),
                        _ => Step::Done(Err(ClientError::Decode { endpoint: Endpoint::Episode })),
                    },
                    Pending::Delete => Step::Done(Ok(Outcome::Done)),
                    Pending::EpisodeRead { url } => match payload {
                        Some(Payload::Episode(episode)) => self.launch(
                            Some(url),
                            Method::Put,
                            no_query(),
                            Some(episode.unmonitor()),
                            Pending::EpisodeWrite,
                        ),
                        _ => Step::Done(Err(ClientError::Decode { endpoint: Endpoint::Episode })),
                    },
                    Pending::EpisodeWrite => Step::Done(Ok(Outcome::Done)),
                }
            },
        }
    }
}

} // verus!
