use fdown::feedly::{FeedlyInternal, HttpMockableClient, TransportError};
use fdown::model::{
    EntryDetail, EntryDetailOrigin, EntryDetailVisual, SubscriptionDetail,
    SubscriptionDetailCategory,
};
use fdown::namer::filepath_for_url;
use fdown::pipeline::{
    filter_for_category, get_entries, image_to_fetch, keep_matching, list_subs, start,
    subscription_line, subscription_lines, CategoryFilter, EntryPipeline, Options, Started,
};
use fdown::result::FdownError;
use std::cell::RefCell;

struct Sent {
    url: String,
    auth: Option<String>,
    body: Option<String>,
}

struct ScriptedClient {
    ids: Option<&'static str>,
    details: Option<&'static str>,
    subscriptions: Option<&'static str>,
    markers: Option<&'static str>,
    sent: RefCell<Vec<Sent>>,
}

impl ScriptedClient {
    fn answer(&self, url: &str) -> Result<Vec<u8>, TransportError> {
        let scripted = if url.contains("/v3/streams/ids") {
            self.ids
        } else if url.ends_with("/v3/entries/.mget") {
            self.details
        } else if url.ends_with("/v3/subscriptions") {
            self.subscriptions
        } else if url.ends_with("/v3/markers") {
            self.markers
        } else {
            None
        };
        match scripted {
            Some(text) => Ok(text.as_bytes().to_vec()),
            None => Err(TransportError { message: "no more scripted responses".to_string() }),
        }
    }
}

impl HttpMockableClient for ScriptedClient {
    fn get(&self, url: &str, auth_header: Option<String>) -> Result<Vec<u8>, TransportError> {
        self.sent.borrow_mut().push(Sent { url: url.to_string(), auth: auth_header, body: None });
        self.answer(url)
    }

    fn post(
        &self,
        url: &str,
        auth_header: Option<String>,
        body: &[u8],
    ) -> Result<Vec<u8>, TransportError> {
        self.sent.borrow_mut().push(Sent {
            url: url.to_string(),
            auth: auth_header,
            body: Some(String::from_utf8_lossy(body).into_owned()),
        });
        self.answer(url)
    }
}

fn feedly(
    ids: Option<&'static str>,
    details: Option<&'static str>,
    subscriptions: Option<&'static str>,
    markers: Option<&'static str>,
) -> FeedlyInternal<ScriptedClient> {
    FeedlyInternal::new_with_client(
        "u",
        "t",
        ScriptedClient { ids, details, subscriptions, markers, sent: RefCell::new(Vec::new()) },
    )
}

fn entry(id: &str, stream: Option<&str>, url: Option<&str>) -> EntryDetail {
    EntryDetail {
        id: id.to_string(),
        fingerprint: None,
        visual: url.map(|u| EntryDetailVisual { url: Some(u.to_string()), content_type: None }),
        origin: stream.map(|s| EntryDetailOrigin { stream_id: s.to_string(), title: None }),
    }
}

fn subscription(id: &str, title: Option<&str>, labels: &[Option<&str>]) -> SubscriptionDetail {
    SubscriptionDetail {
        id: id.to_string(),
        website: None,
        title: title.map(|t| t.to_string()),
        categories: labels
            .iter()
            .enumerate()
            .map(|(i, l)| SubscriptionDetailCategory {
                id: format!("cat{}", i),
                label: l.map(|s| s.to_string()),
            })
            .collect(),
    }
}

fn options(category: Option<&str>, unsave: bool) -> Options {
    Options {
        list_subs: false,
        filter_category: category.map(|c| c.to_string()),
        should_unsave: unsave,
        number_of_entries: 5,
    }
}

const SUBS: &str = "[{\"id\":\"s1\",\"categories\":[{\"id\":\"c1\",\"label\":\"Art\"}]},
                     {\"id\":\"s2\",\"categories\":[{\"id\":\"c2\",\"label\":\"News\"}]}]";

#[test]
fn category_filter_keeps_only_the_matching_stream() {
    let subs = vec![
        subscription("s1", None, &[Some("Art")]),
        subscription("s2", None, &[Some("News")]),
    ];
    let filter = CategoryFilter::for_category(&subs, "Art");
    assert_eq!(CategoryFilter::Streams(vec!["s1".to_string()]), filter);
    let entries = vec![entry("e1", Some("s1"), None), entry("e2", Some("s2"), None)];
    let kept = keep_matching(entries, &filter);
    assert_eq!(vec![entry("e1", Some("s1"), None)], kept);
}

#[test]
fn category_match_is_exact_and_case_sensitive() {
    let subs = vec![
        subscription("a", None, &[Some("art")]),
        subscription("b", None, &[Some("Art "), None]),
        subscription("c", None, &[None, Some("News"), Some("Art")]),
        subscription("d", None, &[]),
        subscription("e", None, &[Some("Art")]),
    ];
    assert_eq!(
        CategoryFilter::Streams(vec!["c".to_string(), "e".to_string()]),
        CategoryFilter::for_category(&subs, "Art")
    );
    assert_eq!(CategoryFilter::Streams(vec![]), CategoryFilter::for_category(&subs, "Music"));
}

#[test]
fn entry_without_origin_passes_only_the_trivial_filter() {
    let orphan = entry("e", None, None);
    assert!(CategoryFilter::Everything.accepts(&orphan));
    assert!(!CategoryFilter::Streams(vec!["s1".to_string()]).accepts(&orphan));
    assert!(!CategoryFilter::Streams(vec![]).accepts(&entry("e", Some("s1"), None)));
    assert!(CategoryFilter::Streams(vec!["s0".into(), "s1".into()])
        .accepts(&entry("e", Some("s1"), None)));
}

#[test]
fn keep_matching_preserves_order() {
    let filter = CategoryFilter::Streams(vec!["s2".to_string(), "s1".to_string()]);
    let entries = vec![
        entry("e1", Some("s1"), None),
        entry("e2", Some("s3"), None),
        entry("e3", Some("s2"), None),
        entry("e4", None, None),
        entry("e5", Some("s1"), None),
    ];
    let kept: Vec<String> = keep_matching(entries, &filter).into_iter().map(|e| e.id).collect();
    assert_eq!(vec!["e1", "e3", "e5"], kept);
}

#[test]
fn filter_for_category_without_category_sends_nothing() {
    let feedly = feedly(None, None, None, None);
    assert_eq!(Ok(CategoryFilter::Everything), filter_for_category(None, &feedly));
    assert_eq!(0, feedly.client.sent.borrow().len());
}

#[test]
fn filter_for_category_asks_for_the_subscriptions() {
    let feedly = feedly(None, None, Some(SUBS), None);
    assert_eq!(
        Ok(CategoryFilter::Streams(vec!["s2".to_string()])),
        filter_for_category(Some("News"), &feedly)
    );
    let sent = feedly.client.sent.borrow();
    assert_eq!(1, sent.len());
    assert_eq!("http://cloud.feedly.com/v3/subscriptions", sent[0].url);
    assert_eq!(Some("OAuth t".to_string()), sent[0].auth);
}

#[test]
fn get_entries_filters_the_details() {
    let feedly = feedly(
        Some("{\"ids\":[\"e1\",\"e2\"],\"continuation\":\"c\"}"),
        Some(
            "[{\"id\":\"e1\",\"origin\":{\"streamId\":\"s1\"}},
              {\"id\":\"e2\",\"origin\":{\"streamId\":\"s2\"}}]",
        ),
        None,
        None,
    );
    let filter = CategoryFilter::Streams(vec!["s1".to_string()]);
    let entries = get_entries(&filter, 5, &feedly).unwrap();
    assert_eq!(vec![entry("e1", Some("s1"), None)], entries);
    let sent = feedly.client.sent.borrow();
    assert_eq!(2, sent.len());
    assert_eq!(
        "http://cloud.feedly.com/v3/streams/ids?streamId=user/u/tag/global.saved&count=5",
        sent[0].url
    );
    assert_eq!(Some("[\"e1\",\"e2\"]".to_string()), sent[1].body);
    assert_eq!(None, sent[1].auth);
}

#[test]
fn subscription_lines_name_category_or_title() {
    assert_eq!("Art", subscription_line(&subscription("s1", Some("Blog"), &[Some("Art")])));
    assert_eq!("cat0", subscription_line(&subscription("s1", None, &[None, Some("X")])));
    assert_eq!("Blog", subscription_line(&subscription("s1", Some("Blog"), &[])));
    assert_eq!("s1", subscription_line(&subscription("s1", None, &[])));
    let lines = subscription_lines(&vec![
        subscription("s1", Some("One"), &[Some("Art"), Some("News")]),
        subscription("s2", None, &[]),
    ]);
    assert_eq!(vec!["Art", "s2"], lines);
}

#[test]
fn list_subs_lists_what_the_service_answers() {
    let feedly = feedly(None, None, Some(SUBS), None);
    assert_eq!(Ok(vec!["Art".to_string(), "News".to_string()]), list_subs(&feedly));
    let mut opts = options(Some("Art"), true);
    opts.list_subs = true;
    match start(&opts, &feedly).unwrap() {
        Started::Listing(lines) => assert_eq!(vec!["Art", "News"], lines),
        Started::Processing(_) => panic!("a listing was asked for"),
    }
    assert_eq!(2, feedly.client.sent.borrow().len());
}

#[test]
fn image_to_fetch_normalizes_or_reports_the_entry() {
    assert_eq!(
        Ok("http://h/t_1280.jpg".to_string()),
        image_to_fetch(&entry("e1", None, Some("http://h/t_500.jpg")))
    );
    assert_eq!(
        Ok("http://h/plain.jpg".to_string()),
        image_to_fetch(&entry("e1", None, Some("http://h/plain.jpg")))
    );
    assert_eq!(Err(FdownError::MissingUrl("e7".to_string())), image_to_fetch(&entry("e7", None, None)));
    let mut no_url = entry("e8", None, None);
    no_url.visual = Some(EntryDetailVisual { url: None, content_type: None });
    assert_eq!(Err(FdownError::MissingUrl("e8".to_string())), image_to_fetch(&no_url));
}

#[test]
fn run_stops_at_the_first_entry_without_image() {
    let feedly = feedly(
        Some("{\"ids\":[\"id1\",\"id2\"],\"continuation\":\"c\"}"),
        Some(
            "[{\"id\":\"id1\",\"visual\":{\"url\":\"http://h/img/a_500.jpg\"}},
              {\"id\":\"id2\"}]",
        ),
        Some(SUBS),
        Some(""),
    );
    let mut run = match start(&options(None, true), &feedly).unwrap() {
        Started::Processing(run) => run,
        Started::Listing(_) => panic!("no listing was asked for"),
    };
    assert_eq!(2, run.entries.len());
    assert_eq!(0, run.stored);

    let mut stored_paths: Vec<String> = Vec::new();
    let first = run.next_image().unwrap().unwrap();
    assert_eq!("http://h/img/a_1280.jpg", first);
    stored_paths.push(filepath_for_url(&first, "/target", &vec![]).unwrap());
    run.record_stored();
    assert_eq!(1, run.stored);
    assert!(!run.is_done());

    assert_eq!(Err(FdownError::MissingUrl("id2".to_string())), run.next_image());
    assert_eq!(vec!["/target/a_1280.jpg"], stored_paths);
    assert_eq!(1, run.stored_entries().len());
    assert!(run.is_done());
    assert_eq!(Some(FdownError::MissingUrl("id2".to_string())), run.failed);
    assert_eq!(Err(FdownError::MissingUrl("id2".to_string())), run.finish(&feedly));
    let sent = feedly.client.sent.borrow();
    assert_eq!(2, sent.len());
    assert!(sent.iter().all(|s| !s.url.ends_with("/v3/markers")));
}

#[test]
fn failed_run_hands_out_no_image_and_unsaves_nothing() {
    let feedly = feedly(None, None, None, Some(""));
    let entries = vec![
        entry("e1", None, Some("http://h/a.jpg")),
        entry("e2", None, Some("http://h/b.jpg")),
        entry("e3", None, Some("http://h/c.jpg")),
    ];
    let mut run = EntryPipeline::new(entries, true);
    assert_eq!(Ok(Some("http://h/a.jpg".to_string())), run.next_image());
    run.record_stored();
    assert_eq!(Ok(Some("http://h/b.jpg".to_string())), run.next_image());
    run.record_failed(FdownError::Hyper("connection lost".to_string()));
    assert!(run.is_done());
    assert_eq!(Err(FdownError::Hyper("connection lost".to_string())), run.next_image());
    run.record_stored();
    assert_eq!(1, run.stored);
    run.record_failed(FdownError::Io("disk full".to_string()));
    assert_eq!(Some(FdownError::Hyper("connection lost".to_string())), run.failed);
    assert_eq!(Err(FdownError::Hyper("connection lost".to_string())), run.finish(&feedly));
    assert_eq!(0, feedly.client.sent.borrow().len());
}

#[test]
fn run_unsaves_the_stored_entries_once() {
    let feedly = feedly(
        Some("{\"ids\":[\"id1\",\"id2\",\"id3\"]}"),
        Some(
            "[{\"id\":\"id1\",\"origin\":{\"streamId\":\"s1\"},\"visual\":{\"url\":\"http://h/a.jpg\"}},
              {\"id\":\"id2\",\"origin\":{\"streamId\":\"s2\"},\"visual\":{\"url\":\"http://h/b.jpg\"}},
              {\"id\":\"id3\",\"origin\":{\"streamId\":\"s1\"},\"visual\":{\"url\":\"http://h/c_9.jpg\"}}]",
        ),
        Some(SUBS),
        Some(""),
    );
    let mut run = match start(&options(Some("Art"), true), &feedly).unwrap() {
        Started::Processing(run) => run,
        Started::Listing(_) => panic!("no listing was asked for"),
    };
    let mut fetched: Vec<String> = Vec::new();
    while let Some(url) = run.next_image().unwrap() {
        fetched.push(url);
        run.record_stored();
    }
    assert_eq!(vec!["http://h/a.jpg", "http://h/c_1280.jpg"], fetched);
    assert!(run.is_done());
    run.record_stored();
    assert_eq!(2, run.stored);
    assert_eq!(Ok(()), run.finish(&feedly));
    let sent = feedly.client.sent.borrow();
    assert_eq!(4, sent.len());
    assert_eq!("http://cloud.feedly.com/v3/subscriptions", sent[0].url);
    assert_eq!("http://cloud.feedly.com/v3/markers", sent[3].url);
    assert_eq!(Some("OAuth t".to_string()), sent[3].auth);
    assert_eq!(
        Some(
            "{\"action\":\"markAsUnsaved\",\"type\":\"entries\",\"entryIds\":[\"id1\",\"id3\"]}"
                .to_string()
        ),
        sent[3].body
    );
}

#[test]
fn run_without_unsave_sends_no_marker() {
    let feedly = feedly(None, None, None, None);
    let mut run = EntryPipeline::new(vec![entry("e1", None, Some("http://h/a.jpg"))], false);
    assert_eq!(Ok(Some("http://h/a.jpg".to_string())), run.next_image());
    run.record_stored();
    assert_eq!(Ok(None), run.next_image());
    assert_eq!(Ok(()), run.finish(&feedly));
    assert_eq!(0, feedly.client.sent.borrow().len());
}

#[test]
fn start_fails_with_the_first_failure() {
    let no_subs = feedly(Some("{\"ids\":[]}"), Some("[]"), None, None);
    assert!(matches!(start(&options(Some("Art"), false), &no_subs), Err(FdownError::Hyper(_))));
    assert_eq!(1, no_subs.client.sent.borrow().len());
    let bad_ids = feedly(Some("[]"), Some("[]"), Some(SUBS), None);
    assert!(matches!(start(&options(None, false), &bad_ids), Err(FdownError::SerdeJson(_))));
    assert_eq!(1, bad_ids.client.sent.borrow().len());
    let no_details = feedly(Some("{\"ids\":[]}"), None, Some(SUBS), None);
    assert!(matches!(start(&options(None, false), &no_details), Err(FdownError::Hyper(_))));
}

#[test]
fn default_number_of_entries_is_twenty() {
    assert_eq!(20, Options::default_number_of_entries());
}
