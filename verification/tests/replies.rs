use sonarr_client::{
    ClientError, Endpoint, EpisodeInfo, Event, Method, Outcome, Payload, Pending, Reply, SeriesInfo,
    SonarrClient, Step, Tag,
};

fn client() -> SonarrClient {
    match SonarrClient::new("http://localhost:8989", "abc-key") {
        Ok(client) => client,
        Err(e) => panic!("{:?}", e),
    }
}

fn reply(status: u16, body: &str, payload: Option<Payload>) -> Event {
    Event::Reply(Reply { status, body: String::from(body), payload })
}

fn failure(step: Step) -> ClientError {
    match step {
        Step::Done(Err(e)) => e,
        Step::Done(Ok(_)) => panic!("the operation succeeded"),
        Step::Send { .. } => panic!("the operation goes on"),
    }
}

fn episode() -> EpisodeInfo {
    EpisodeInfo {
        id: 12,
        series_id: 42,
        episode_file_id: Some(555),
        title: String::from("Pilot"),
        season_number: 1,
        episode_number: 1,
        monitored: true,
    }
}

fn every_pending() -> Vec<Pending> {
    vec![
        Pending::Series,
        Pending::Tags,
        Pending::Episodes,
        Pending::Delete,
        Pending::EpisodeRead { url: String::from("http://localhost:8989/api/v3/episode/12") },
        Pending::EpisodeWrite,
    ]
}

#[test]
fn no_reply_is_a_transport_error() {
    for pending in every_pending() {
        assert_eq!(failure(client().resume(pending, Event::TransportFailed)), ClientError::Transport);
    }
}

#[test]
fn a_status_outside_2xx_is_an_http_error() {
    for status in [0, 100, 199, 300, 301, 400, 401, 404, 500, 503, 999, u16::MAX] {
        for pending in every_pending() {
            let got = failure(client().resume(pending, reply(status, "{\"message\":\"no\"}", None)));
            let body = Some(String::from("{\"message\":\"no\"}"));
            assert_eq!(got, ClientError::HttpStatus { status, body });
        }
    }
}

#[test]
fn an_http_error_without_body_carries_none() {
    let got = failure(client().resume(Pending::Delete, reply(404, "", None)));
    assert_eq!(got, ClientError::HttpStatus { status: 404, body: None });
}

#[test]
fn an_http_error_wins_over_a_decodable_body() {
    let payload = Some(Payload::Series(Vec::new()));
    let got = failure(client().resume(Pending::Series, reply(500, "[]", payload)));
    assert_eq!(got, ClientError::HttpStatus { status: 500, body: Some(String::from("[]")) });
}

#[test]
fn every_2xx_status_is_a_success() {
    for status in [200, 201, 204, 250, 299] {
        assert!(matches!(
            client().resume(Pending::Delete, reply(status, "", None)),
            Step::Done(Ok(Outcome::Done))
        ));
    }
}

#[test]
fn a_body_that_does_not_decode_is_a_decode_error() {
    let cases = [
        (Pending::Series, Endpoint::Series),
        (Pending::Tags, Endpoint::Tag),
        (Pending::Episodes, Endpoint::Episode),
        (Pending::EpisodeRead { url: String::from("http://localhost:8989/api/v3/episode/12") }, Endpoint::Episode),
    ];
    for (pending, endpoint) in cases {
        let got = failure(client().resume(pending, reply(200, "<html>", None)));
        assert_eq!(got, ClientError::Decode { endpoint });
    }
}

#[test]
fn a_body_of_another_shape_is_a_decode_error() {
    let got = failure(client().resume(Pending::Series, reply(200, "[]", Some(Payload::Tags(Vec::new())))));
    assert_eq!(got, ClientError::Decode { endpoint: Endpoint::Series });
    let got = failure(client().resume(Pending::Tags, reply(200, "[]", Some(Payload::Episodes(Vec::new())))));
    assert_eq!(got, ClientError::Decode { endpoint: Endpoint::Tag });
    let got = failure(client().resume(Pending::Episodes, reply(200, "{}", Some(Payload::Episode(episode())))));
    assert_eq!(got, ClientError::Decode { endpoint: Endpoint::Episode });
    let url = String::from("http://localhost:8989/api/v3/episode/12");
    let payload = Some(Payload::Episodes(vec![episode()]));
    let got = failure(client().resume(Pending::EpisodeRead { url }, reply(200, "[]", payload)));
    assert_eq!(got, ClientError::Decode { endpoint: Endpoint::Episode });
}

#[test]
fn a_series_listing_is_handed_back_in_order() {
    let list = vec![
        SeriesInfo { title: String::from("C"), id: 3, tags: None },
        SeriesInfo { title: String::from("A"), id: 1, tags: Some(vec![]) },
        SeriesInfo { title: String::from("B"), id: 2, tags: Some(vec![9, 8]) },
        SeriesInfo { title: String::from("A"), id: 1, tags: Some(vec![]) },
    ];
    let step = client().resume(Pending::Series, reply(200, "", Some(Payload::Series(list.clone()))));
    match step {
        Step::Done(Ok(Outcome::Series(got))) => assert!(got == list),
        _ => panic!("no series came back"),
    }
}

#[test]
fn a_tag_listing_is_handed_back_in_order() {
    let list = vec![
        Tag { label: String::from("kids"), id: 2 },
        Tag { label: String::from("anime"), id: 1 },
    ];
    let step = client().resume(Pending::Tags, reply(200, "", Some(Payload::Tags(list.clone()))));
    match step {
        Step::Done(Ok(Outcome::Tags(got))) => assert_eq!(got, list),
        _ => panic!("no tags came back"),
    }
}

#[test]
fn an_episode_listing_is_handed_back_in_order() {
    let mut second = episode();
    second.id = 13;
    second.episode_number = 2;
    second.episode_file_id = None;
    second.monitored = false;
    let list = vec![second, episode()];
    let step = client().resume(Pending::Episodes, reply(200, "", Some(Payload::Episodes(list.clone()))));
    match step {
        Step::Done(Ok(Outcome::Episodes(got))) => assert_eq!(got, list),
        _ => panic!("no episodes came back"),
    }
}

#[test]
fn an_empty_listing_is_no_error() {
    assert!(matches!(
        client().resume(Pending::Series, reply(200, "[]", Some(Payload::Series(Vec::new())))),
        Step::Done(Ok(Outcome::Series(list))) if list.is_empty()
    ));
    assert!(matches!(
        client().resume(Pending::Tags, reply(200, "[]", Some(Payload::Tags(Vec::new())))),
        Step::Done(Ok(Outcome::Tags(list))) if list.is_empty()
    ));
    assert!(matches!(
        client().resume(Pending::Episodes, reply(200, "[]", Some(Payload::Episodes(Vec::new())))),
        Step::Done(Ok(Outcome::Episodes(list))) if list.is_empty()
    ));
}

#[test]
fn a_delete_looks_at_no_body() {
    assert!(matches!(
        client().resume(Pending::Delete, reply(204, "", None)),
        Step::Done(Ok(Outcome::Done))
    ));
    assert!(matches!(
        client().resume(Pending::Delete, reply(200, "<html>", None)),
        Step::Done(Ok(Outcome::Done))
    ));
    assert!(matches!(
        client().resume(Pending::Delete, reply(200, "[]", Some(Payload::Tags(Vec::new())))),
        Step::Done(Ok(Outcome::Done))
    ));
}

#[test]
fn a_read_is_followed_by_a_write_of_the_same_episode_unmonitored() {
    let url = String::from("http://localhost:8989/api/v3/episode/12");
    let step = client().resume(Pending::EpisodeRead { url }, reply(200, "", Some(Payload::Episode(episode()))));
    match step {
        Step::Send { request, then } => {
            assert_eq!(request.method, Method::Put);
            assert_eq!(request.url, "http://localhost:8989/api/v3/episode/12");
            assert!(request.query.is_empty());
            assert_eq!(request.headers.len(), 1);
            assert_eq!(request.headers.get("x-api-key").unwrap(), "abc-key");
            assert!(request.headers.get("x-api-key").unwrap().is_sensitive());
            let mut expected = episode();
            expected.monitored = false;
            assert_eq!(request.body, Some(expected));
            assert!(matches!(then, Pending::EpisodeWrite));
        },
        Step::Done(_) => panic!("nothing is written"),
    }
}

#[test]
fn an_unmonitored_episode_is_written_back_unchanged() {
    let mut read = episode();
    read.monitored = false;
    read.episode_file_id = None;
    read.title = String::from("");
    read.season_number = u32::MAX;
    read.episode_number = 0;
    read.id = u64::MAX;
    let url = String::from("http://localhost:8989/api/v3/episode/18446744073709551615");
    let step = client().resume(Pending::EpisodeRead { url }, reply(200, "", Some(Payload::Episode(read.clone()))));
    match step {
        Step::Send { request, .. } => assert_eq!(request.body, Some(read)),
        Step::Done(_) => panic!("nothing is written"),
    }
}

#[test]
fn unmonitor_touches_one_field() {
    let episode = episode().unmonitor();
    assert_eq!(
        episode,
        EpisodeInfo {
            id: 12,
            series_id: 42,
            episode_file_id: Some(555),
            title: String::from("Pilot"),
            season_number: 1,
            episode_number: 1,
            monitored: false,
        }
    );
    assert_eq!(episode.clone().unmonitor(), episode);
}

#[test]
fn a_write_is_done_on_success() {
    assert!(matches!(
        client().resume(Pending::EpisodeWrite, reply(202, "{}", None)),
        Step::Done(Ok(Outcome::Done))
    ));
}

#[test]
fn errors_do_not_hold_the_key() {
    let client = match SonarrClient::new("http://localhost:8989", "s3cr3t-key") {
        Ok(client) => client,
        Err(e) => panic!("{:?}", e),
    };
    for pending in every_pending() {
        let e = failure(client.resume(pending, reply(401, "Unauthorized", None)));
        assert!(!format!("{:?}", e).contains("s3cr3t-key"));
    }
    for pending in every_pending() {
        let e = failure(client.resume(pending, Event::TransportFailed));
        assert!(!format!("{:?}", e).contains("s3cr3t-key"));
    }
    let e = failure(client.resume(Pending::Series, reply(200, "", None)));
    assert!(!format!("{:?}", e).contains("s3cr3t-key"));
    let e = SonarrClient::new("http://localhost:8989", "s3cr3t\nkey").err().unwrap();
    assert!(!format!("{:?}", e).contains("s3cr3t"));
    let e = SonarrClient::new("s3cr3t-key", "s3cr3t\nkey").err().unwrap();
    assert!(!format!("{:?}", e).contains("s3cr3t"));
}

#[test]
fn endpoint_names() {
    assert_eq!(Endpoint::Series.name(), "series");
    assert_eq!(Endpoint::Tag.name(), "tag");
    assert_eq!(Endpoint::Episode.name(), "episode");
}
