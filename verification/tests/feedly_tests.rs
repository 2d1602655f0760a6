use fdown::feedly::{
    entries_from_response, ids_from_response, id_list_body, subscriptions_from_response,
    unsave_outcome, FeedlyInternal, HttpMockableClient, TransportError,
};
use fdown::model::{EntryDetail, EntryDetailVisual, MarkerRequestBody};
use fdown::result::FdownError;
use std::cell::{Cell, RefCell};

const TEST_USERID: &str = "test_userid";
const TEST_TOKEN: &str = "test_token";

struct NullClient {
    responses: Vec<&'static str>,
    url: RefCell<Option<String>>,
    has_auth: Cell<bool>,
    auth: RefCell<Option<String>>,
    body: RefCell<Option<Vec<u8>>>,
}

impl NullClient {
    fn check_url(&self, url: &str) {
        assert_eq!(url, self.url.borrow().as_ref().unwrap());
    }

    fn check_has_auth(&self, val: bool) {
        assert_eq!(val, self.has_auth.get());
    }

    fn check_has_no_body(&self) {
        assert_eq!(true, self.body.borrow().as_ref().is_none());
    }

    fn check_body(&self, body_str: &str) {
        let b = self.body.borrow();
        let vec_bytes = b.as_ref().unwrap().as_slice();
        let sent_body = String::from_utf8_lossy(vec_bytes);
        assert_eq!(body_str, sent_body);
    }
}

impl HttpMockableClient for NullClient {
    fn get(&self, url: &str, auth_header: Option<String>) -> Result<Vec<u8>, TransportError> {
        if self.responses.len() < 1 {
            return Err(TransportError { message: "no more scripted responses".to_string() });
        }
        *self.url.borrow_mut() = Some(url.to_string());
        self.has_auth.set(auth_header.is_some());
        *self.auth.borrow_mut() = auth_header;
        Ok(Vec::from(self.responses[0].as_bytes()))
    }

    fn post(
        &self,
        url: &str,
        auth_header: Option<String>,
        body: &[u8],
    ) -> Result<Vec<u8>, TransportError> {
        if self.responses.len() < 1 {
            return Err(TransportError { message: "no more scripted responses".to_string() });
        }
        *self.url.borrow_mut() = Some(url.to_string());
        self.has_auth.set(auth_header.is_some());
        *self.auth.borrow_mut() = auth_header;
        *self.body.borrow_mut() = Some(Vec::from(body));
        Ok(Vec::from(self.responses[0].as_bytes()))
    }
}

fn null_client(responses: Vec<&'static str>) -> FeedlyInternal<NullClient> {
    FeedlyInternal::new_with_client(
        TEST_USERID,
        TEST_TOKEN,
        NullClient {
            responses,
            url: RefCell::new(None),
            has_auth: Cell::new(false),
            auth: RefCell::new(None),
            body: RefCell::new(None),
        },
    )
}

fn plain_entry(id: &str) -> EntryDetail {
    EntryDetail { id: id.to_string(), fingerprint: None, origin: None, visual: None }
}

#[test]
fn saved_feed() {
    assert_eq!(null_client(vec![]).saved_feed(), "user/test_userid/tag/global.saved");
}

#[test]
fn auth_header() {
    let s = null_client(vec![]).auth_header();
    assert_eq!("OAuth test_token", s);
}

#[test]
fn saved_entry_ids() {
    let resp = "{ \"ids\": [ \"id1\", \"id2\", \"id3\" ],
                  \"continuation\": \"continuation\" }";
    let feedly = null_client(vec![resp]);
    let ids = feedly.saved_entry_ids(5).unwrap();
    feedly.client.check_has_auth(true);
    feedly.client.check_url(
        "http://cloud.feedly.com/v3/streams/ids?streamId=user/test_userid/tag/global.\
         saved&count=5",
    );
    feedly.client.check_has_no_body();
    assert_eq!(vec!["id1", "id2", "id3"], ids);
}

#[test]
fn saved_entry_ids_bad_http() {
    let feedly = null_client(vec![]);
    feedly.saved_entry_ids(5).unwrap_err();
}

#[test]
fn saved_entry_ids_bad_json() {
    let resp = "{ ids: [ \"id1\", \"id2\", \"id3\" ], \"continuation\": \"continuation\" }";
    let feedly = null_client(vec![resp]);
    feedly.saved_entry_ids(5).unwrap_err();
}

#[test]
fn entry_detail_empty() {
    let feedly = null_client(vec!["[]"]);
    let entries = feedly.detail_for_entries(vec![]).unwrap();
    feedly.client.check_has_auth(false);
    feedly.client.check_url("http://cloud.feedly.com/v3/entries/.mget");
    feedly.client.check_body("[]");
    assert_eq!(0, entries.len());
}

#[test]
fn entry_detail() {
    let feedly =
        null_client(vec!["[{ \"id\": \"id1\" }, { \"id\": \"id2\" }, { \"id\": \"id3\" }]"]);
    let entries = feedly
        .detail_for_entries(vec!["id1".to_string(), "id2".to_string(), "id3".to_string()])
        .unwrap();
    feedly.client.check_url("http://cloud.feedly.com/v3/entries/.mget");
    feedly.client.check_has_auth(false);
    feedly.client.check_body("[\"id1\",\"id2\",\"id3\"]");

    assert_eq!(3, entries.len());
    let foo: Vec<EntryDetail> = vec![plain_entry("id1"), plain_entry("id2"), plain_entry("id3")];
    assert_eq!(foo, entries);
}

#[test]
fn entry_detail_bad_http() {
    let feedly = null_client(vec![]);
    feedly.detail_for_entries(vec!["id1".to_string()]).unwrap_err();
}

#[test]
fn entry_detail_bad_json() {
    let resp = "this is a bad json string";
    let feedly = null_client(vec![resp]);
    feedly.detail_for_entries(vec!["id1".to_string()]).unwrap_err();
}

#[test]
fn transport_and_decoding_failures_are_told_apart() {
    let feedly = null_client(vec![]);
    assert!(matches!(feedly.saved_entry_ids(5), Err(FdownError::Hyper(_))));
    assert!(matches!(feedly.subscriptions(), Err(FdownError::Hyper(_))));
    assert!(matches!(feedly.detail_for_entries(vec![]), Err(FdownError::Hyper(_))));
    assert!(matches!(feedly.unsave_entries(&vec![]), Err(FdownError::Hyper(_))));

    let feedly = null_client(vec!["not json"]);
    assert!(matches!(feedly.saved_entry_ids(5), Err(FdownError::SerdeJson(_))));
    assert!(matches!(feedly.subscriptions(), Err(FdownError::SerdeJson(_))));
    assert!(matches!(feedly.detail_for_entries(vec![]), Err(FdownError::SerdeJson(_))));
}

#[test]
fn transport_failure_keeps_the_message() {
    let r = ids_from_response(Err(TransportError { message: "refused".to_string() }), 3);
    assert_eq!(Err(FdownError::Hyper("refused".to_string())), r);
    let r = entries_from_response(Err(TransportError { message: "refused".to_string() }));
    assert_eq!(Err(FdownError::Hyper("refused".to_string())), r);
    let r = subscriptions_from_response(Err(TransportError { message: "refused".to_string() }));
    assert!(matches!(r, Err(FdownError::Hyper(m)) if m == "refused"));
    let r = unsave_outcome(Err(TransportError { message: "refused".to_string() }));
    assert_eq!(Err(FdownError::Hyper("refused".to_string())), r);
    assert_eq!(Ok(()), unsave_outcome(Ok(Vec::new())));
}

#[test]
fn wrong_shape_is_a_decoding_failure() {
    let r = ids_from_response(Ok(b"[1, 2]".to_vec()), 3);
    assert_eq!(
        Err(FdownError::SerdeJson("expected an object with an array of ids".to_string())),
        r
    );
    let r = ids_from_response(Ok(b"{\"ids\": [1]}".to_vec()), 3);
    assert!(matches!(r, Err(FdownError::SerdeJson(_))));
    let r = ids_from_response(Ok(b"{\"continuation\": \"c\"}".to_vec()), 3);
    assert!(matches!(r, Err(FdownError::SerdeJson(_))));
    let r = entries_from_response(Ok(b"{\"id\": \"a\"}".to_vec()));
    assert_eq!(Err(FdownError::SerdeJson("expected an array of entries".to_string())), r);
    let r = entries_from_response(Ok(b"[{\"fingerprint\": \"f\"}]".to_vec()));
    assert!(matches!(r, Err(FdownError::SerdeJson(_))));
    let r = subscriptions_from_response(Ok(b"[{\"id\": \"s\"}]".to_vec()));
    assert_eq!(
        Err(FdownError::SerdeJson("expected an array of subscriptions".to_string())),
        r.map(|_| ())
    );
}

#[test]
fn ids_without_continuation_are_read() {
    let r = ids_from_response(Ok(b"{\"ids\": [\"a\", \"b\"]}".to_vec()), 5);
    assert_eq!(Ok(vec!["a".to_string(), "b".to_string()]), r);
}

#[test]
fn ids_are_cut_to_the_count() {
    let body = b"{\"ids\": [\"a\", \"b\", \"c\"], \"continuation\": \"x\"}".to_vec();
    assert_eq!(Ok(vec!["a".to_string(), "b".to_string()]), ids_from_response(Ok(body.clone()), 2));
    assert_eq!(Ok(Vec::<String>::new()), ids_from_response(Ok(body.clone()), 0));
    assert_eq!(
        Ok(vec!["a".to_string(), "b".to_string(), "c".to_string()]),
        ids_from_response(Ok(body), 3)
    );
}

#[test]
fn id_list_body_quotes_each_id() {
    assert_eq!("[]", id_list_body(&vec![]));
    assert_eq!("[\"a\"]", id_list_body(&vec!["a".to_string()]));
    assert_eq!("[\"a\",\"b=c\"]", id_list_body(&vec!["a".to_string(), "b=c".to_string()]));
}

#[test]
fn subscriptions_request_and_answer() {
    let resp = "[{\"id\": \"feed/1\", \"title\": \"One\", \"website\": \"http://one\",
                  \"categories\": [{\"id\": \"c1\", \"label\": \"Art\"}, {\"id\": \"c2\"}]},
                 {\"id\": \"feed/2\", \"categories\": []}]";
    let feedly = null_client(vec![resp]);
    let subs = feedly.subscriptions().unwrap();
    feedly.client.check_url("http://cloud.feedly.com/v3/subscriptions");
    feedly.client.check_has_auth(true);
    feedly.client.check_has_no_body();
    assert_eq!("OAuth test_token", feedly.client.auth.borrow().as_ref().unwrap());
    assert_eq!(2, subs.len());
    assert_eq!("feed/1", subs[0].id);
    assert_eq!(Some("One".to_string()), subs[0].title);
    assert_eq!(Some("http://one".to_string()), subs[0].website);
    assert_eq!(2, subs[0].categories.len());
    assert_eq!(Some("Art".to_string()), subs[0].categories[0].label);
    assert_eq!("c2", subs[0].categories[1].id);
    assert_eq!(None, subs[0].categories[1].label);
    assert_eq!(None, subs[1].title);
    assert_eq!(0, subs[1].categories.len());
}

#[test]
fn unsave_entries_posts_the_marker_body() {
    let feedly = null_client(vec![""]);
    let a = plain_entry("id1");
    let b = plain_entry("id\"2");
    feedly.unsave_entries(&vec![&a, &b]).unwrap();
    feedly.client.check_url("http://cloud.feedly.com/v3/markers");
    feedly.client.check_has_auth(true);
    feedly.client.check_body(
        "{\"action\":\"markAsUnsaved\",\"type\":\"entries\",\"entryIds\":[\"id1\",\"id\\\"2\"]}",
    );
}

#[test]
fn marker_body_lists_the_ids_in_order() {
    let a = plain_entry("x");
    let b = plain_entry("y");
    let body = MarkerRequestBody::unsave(&vec![&b, &a]);
    assert_eq!("markAsUnsaved", body.action);
    assert_eq!("entries", body.type_field);
    assert_eq!(vec!["y".to_string(), "x".to_string()], body.entry_ids);
}

#[test]
fn extract_image_url_needs_visual_and_url() {
    let mut entry = plain_entry("e");
    assert_eq!(None, FeedlyInternal::<NullClient>::extract_image_url(&entry));
    entry.visual = Some(EntryDetailVisual { url: None, content_type: Some("image/png".into()) });
    assert_eq!(None, FeedlyInternal::<NullClient>::extract_image_url(&entry));
    entry.visual = Some(EntryDetailVisual { url: Some("http://h/a.png".into()), content_type: None });
    assert_eq!(
        Some(&"http://h/a.png".to_string()),
        FeedlyInternal::<NullClient>::extract_image_url(&entry)
    );
}

#[test]
fn entry_detail_reads_optional_members() {
    let resp = "[{\"id\": \"e1\", \"fingerprint\": \"fp\", \"unknown\": 3.5,
                  \"visual\": {\"url\": \"http://h/i_500.jpg\", \"contentType\": \"image/jpeg\"},
                  \"origin\": {\"streamId\": \"feed/1\", \"title\": null}},
                 {\"id\": \"e2\", \"visual\": null, \"origin\": {\"streamId\": \"feed/2\"}}]";
    let entries = entries_from_response(Ok(resp.as_bytes().to_vec())).unwrap();
    assert_eq!(2, entries.len());
    assert_eq!(Some("fp".to_string()), entries[0].fingerprint);
    let visual = entries[0].visual.as_ref().unwrap();
    assert_eq!(Some("http://h/i_500.jpg".to_string()), visual.url);
    assert_eq!(Some("image/jpeg".to_string()), visual.content_type);
    let origin = entries[0].origin.as_ref().unwrap();
    assert_eq!("feed/1", origin.stream_id);
    assert_eq!(None, origin.title);
    assert_eq!(None, entries[1].visual);
    assert_eq!("feed/2", entries[1].origin.as_ref().unwrap().stream_id);
}
