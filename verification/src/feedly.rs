//! The client of the feed service: for each operation the request that is
//! sent, and what is made of the answer. The transport itself is a trait, so
//! that a scripted one can stand in for the network.

use crate::decode::{entries_of, ids_of, subscriptions_of};
use crate::image_url::{filtered, largest_variant};
use crate::json::{
    json_decoded, json_encoded, lemma_array_view, lemma_object_view, Json, JsonView, Member,
    MemberView,
};
use crate::model::{
    EntryDetail, EntryDetailView, MarkerRequestBody, MarkerRequestBodyView, StreamsIdsResponse,
    SubscriptionDetail, SubscriptionDetailView,
};
use crate::result::FdownError;
use crate::text::{decimal, decimal_string, push_text, string_of};
use vstd::prelude::*;
use vstd::utf8::encode_utf8;

verus! {

/// What a transport reports when a request got no usable answer.
#[derive(Debug, Clone, PartialEq, Eq)]
pub struct TransportError {
    pub message: String,
}

/// What a transport gave back, as plain values: the bytes of the answer, or
/// the message of the failure.
pub open spec fn answer_of(response: Result<Vec<u8>, TransportError>) -> Result<
    Seq<u8>,
    Seq<char>,
> {
    match response {
        Ok(bytes) => Ok(bytes@),
        Err(error) => Err(error.message@),
    }
}

/// A transport for HTTP requests. Each call issues one request and returns
/// the bytes of the answer; `auth_header`, where given, is the value of the
/// request's authorization header.
///
/// `answers` is the transport's own account of itself: whether it may give
/// `answer` to `request`. A scripted transport can say so exactly; one that
/// says nothing may give any answer to any request. What the client proves
/// of a transport, it proves over this relation.
pub trait HttpMockableClient {
    open spec fn answers(&self, request: RequestView, answer: Result<Seq<u8>, Seq<char>>) -> bool {
        true
    }

    fn get(&self, url: &str, auth_header: Option<String>) -> (response: Result<
        Vec<u8>,
        TransportError,
    >)
        ensures
            self.answers(
                RequestView { url: url@, auth_header: auth_header.deep_view(), body: None },
                answer_of(response),
            ),
    ;

    fn post(&self, url: &str, auth_header: Option<String>, body: &[u8]) -> (response: Result<
        Vec<u8>,
        TransportError,
    >)
        ensures
            self.answers(
                RequestView {
                    url: url@,
                    auth_header: auth_header.deep_view(),
                    body: Some(body@),
                },
                answer_of(response),
            ),
    ;
}

/// One request to the service. Without a body it is sent with GET, with
/// one with POST.
#[derive(Debug, Clone, PartialEq, Eq)]
pub struct Request {
    pub url: String,
    pub auth_header: Option<String>,
    pub body: Option<Vec<u8>>,
}

pub struct RequestView {
    pub url: Seq<char>,
    pub auth_header: Option<Seq<char>>,
    pub body: Option<Seq<u8>>,
}

impl DeepView for Request {
    type V = RequestView;

    open spec fn deep_view(&self) -> RequestView {
        RequestView {
            url: self.url@,
            auth_header: self.auth_header.deep_view(),
            body: match self.body {
                Some(bytes) => Some(bytes@),
                None => None,
            },
        }
    }
}

/// The name of the stream of a user's saved entries.
pub open spec fn saved_feed_of(userid: Seq<char>) -> Seq<char> {
    "user/"@ + userid + "/tag/global.saved"@
}

/// The value of the authorization header for `token`.
pub open spec fn auth_header_of(token: Seq<char>) -> Seq<char> {
    "OAuth "@ + token
}

/// The URL that lists `count` ids of a user's saved entries.
pub open spec fn ids_url(userid: Seq<char>, count: nat) -> Seq<char> {
    "http://cloud.feedly.com/v3/streams/ids?streamId="@ + saved_feed_of(userid) + "&count="@
        + decimal(count)
}

/// The request for `count` ids of a user's saved entries: a GET with the
/// user's authorization.
pub open spec fn ids_request(userid: Seq<char>, token: Seq<char>, count: nat) -> RequestView {
    RequestView {
        url: ids_url(userid, count),
        auth_header: Some(auth_header_of(token)),
        body: None,
    }
}

/// The request for the details of `ids`: a POST of their list, without
/// authorization.
pub open spec fn details_request(ids: Seq<Seq<char>>) -> RequestView {
    RequestView {
        url: "http://cloud.feedly.com/v3/entries/.mget"@,
        auth_header: None,
        body: Some(encode_utf8(id_list_text(ids))),
    }
}

/// The request for a user's subscriptions: a GET with the user's
/// authorization.
pub open spec fn subscriptions_request_of(token: Seq<char>) -> RequestView {
    RequestView {
        url: "http://cloud.feedly.com/v3/subscriptions"@,
        auth_header: Some(auth_header_of(token)),
        body: None,
    }
}

/// The marker request with the body `body`: a POST with the user's
/// authorization.
pub open spec fn marker_request(token: Seq<char>, body: Seq<u8>) -> RequestView {
    RequestView {
        url: "http://cloud.feedly.com/v3/markers"@,
        auth_header: Some(auth_header_of(token)),
        body: Some(body),
    }
}

/// The bytes of the body that takes the saved mark off `entries`, where it
/// can be written.
pub open spec fn unsave_bytes(entries: Seq<EntryDetailView>) -> Option<Seq<u8>> {
    json_encoded(marker_json(unsave_body(ids_of_entries(entries))))
}

/// `id` between double quotes, as it stands.
pub open spec fn quoted(id: Seq<char>) -> Seq<char> {
    seq!['"'] + id + seq!['"']
}

/// The ids, each quoted, with commas between them.
pub open spec fn quoted_list(ids: Seq<Seq<char>>) -> Seq<char>
    decreases ids.len(),
{
    if ids.len() == 0 {
        Seq::empty()
    } else if ids.len() == 1 {
        quoted(ids[0])
    } else {
        quoted_list(ids.drop_last()) + seq![','] + quoted(ids.last())
    }
}

/// The body that asks for the details of `ids`: their quoted list in
/// square brackets.
pub open spec fn id_list_text(ids: Seq<Seq<char>>) -> Seq<char> {
    seq!['['] + quoted_list(ids) + seq![']']
}

/// The ids of `entries`, in their order.
pub open spec fn ids_of_entries(entries: Seq<EntryDetailView>) -> Seq<Seq<char>> {
    Seq::new(entries.len(), |i: int| entries[i].id)
}

/// The body that takes the saved mark off `entry_ids`.
pub open spec fn unsave_body(entry_ids: Seq<Seq<char>>) -> MarkerRequestBodyView {
    MarkerRequestBodyView { action: "markAsUnsaved"@, type_field: "entries"@, entry_ids }
}

/// The JSON object that a marker body is sent as.
pub open spec fn marker_json(body: MarkerRequestBodyView) -> JsonView {
    JsonView::Object(
        seq![
            MemberView { name: "action"@, value: JsonView::Str(body.action) },
            MemberView { name: "type"@, value: JsonView::Str(body.type_field) },
            MemberView {
                name: "entryIds"@,
                value: JsonView::Array(
                    Seq::new(body.entry_ids.len(), |i: int| JsonView::Str(body.entry_ids[i])),
                ),
            },
        ],
    )
}

impl MarkerRequestBody {
    /// The body that takes the saved mark off `entries`.
    pub fn unsave(entries: &Vec<&EntryDetail>) -> (body: MarkerRequestBody)
        ensures
            body.deep_view() == unsave_body(ids_of_entries(entries.deep_view())),
    {
        let mut entry_ids: Vec<String> = Vec::new();
        let mut i: usize = 0;
        while i < entries.len()
            invariant
                i <= entries.len(),
                entry_ids.len() == i,
                forall|k: int| 0 <= k < i ==> entry_ids@[k]@ == entries@[k].id@,
            decreases entries.len() - i,
        {
            entry_ids.push(entries[i].id.clone());
            i += 1;
        }
        let body = MarkerRequestBody {
            action: "markAsUnsaved".to_owned(),
            type_field: "entries".to_owned(),
            entry_ids,
        };
        assert(body.entry_ids.deep_view() =~= ids_of_entries(entries.deep_view()));
        body
    }

    /// The body as a JSON document.
    pub fn to_json(&self) -> (doc: Json)
        ensures
            doc@ == marker_json(self.deep_view()),
    {
        let mut ids: Vec<Json> = Vec::new();
        let mut i: usize = 0;
        while i < self.entry_ids.len()
            invariant
                i <= self.entry_ids.len(),
                ids.len() == i,
                forall|k: int| 0 <= k < i ==> ids@[k]@ == JsonView::Str(self.entry_ids@[k]@),
            decreases self.entry_ids.len() - i,
        {
            ids.push(Json::Str(self.entry_ids[i].clone()));
            i += 1;
        }
        let mut members: Vec<Member> = Vec::new();
        members.push(Member { name: "action".to_owned(), value: Json::Str(self.action.clone()) });
        members.push(
            Member { name: "type".to_owned(), value: Json::Str(self.type_field.clone()) },
        );
        proof {
            lemma_array_view(ids);
            assert(Json::Array(ids)@->Array_0 =~= marker_json(
                self.deep_view(),
            )->Object_0[2].value->Array_0);
        }
        members.push(Member { name: "entryIds".to_owned(), value: Json::Array(ids) });
        proof {
            lemma_object_view(members);
            assert(Json::Object(members)@->Object_0 =~= marker_json(self.deep_view())->Object_0);
        }
        Json::Object(members)
    }
}

/// The ids that the bytes of an answer hold, at most `count` of them.
pub open spec fn ids_in(bytes: Seq<u8>, count: nat) -> Option<Seq<Seq<char>>> {
    match json_decoded(bytes) {
        Some(doc) => match ids_of(doc) {
            Some(page) => Some(
                if page.ids.len() <= count {
                    page.ids
                } else {
                    page.ids.take(count as int)
                },
            ),
            None => None,
        },
        None => None,
    }
}

/// The entries that the bytes of an answer hold.
pub open spec fn entries_in(bytes: Seq<u8>) -> Option<Seq<EntryDetailView>> {
    match json_decoded(bytes) {
        Some(doc) => entries_of(doc),
        None => None,
    }
}

/// The subscriptions that the bytes of an answer hold.
pub open spec fn subscriptions_in(bytes: Seq<u8>) -> Option<Seq<SubscriptionDetailView>> {
    match json_decoded(bytes) {
        Some(doc) => subscriptions_of(doc),
        None => None,
    }
}

/// Whether `r` is the failure that stands for a failure of the transport
/// with `message`.
pub open spec fn is_transport_failure<T>(r: Result<T, FdownError>, message: Seq<char>) -> bool {
    r matches Err(FdownError::Hyper(text)) && text@ == message
}

/// Whether `r` is the failure to read an answer's bytes: one written by
/// the JSON reader where the bytes are no JSON text, and `shape` where they
/// are one of another shape than expected.
pub open spec fn is_read_failure<T>(r: Result<T, FdownError>, bytes: Seq<u8>, shape: Seq<char>)
    -> bool {
    r matches Err(FdownError::SerdeJson(text)) && (json_decoded(bytes) is Some ==> text@ == shape)
}

/// Whether `r` is what is made of `answer` to a request for ids: the ids
/// that its bytes hold, cut to `count`; else the failure to read them, or
/// the transport's.
pub open spec fn ids_outcome(
    answer: Result<Seq<u8>, Seq<char>>,
    count: nat,
    r: Result<Vec<String>, FdownError>,
) -> bool {
    match answer {
        Ok(bytes) => match ids_in(bytes, count) {
            Some(ids) => r matches Ok(found) && found.deep_view() == ids,
            None => is_read_failure(r, bytes, "expected an object with an array of ids"@),
        },
        Err(message) => is_transport_failure(r, message),
    }
}

/// Whether `r` is what is made of `answer` to a request for details: the
/// entries that its bytes hold; else the failure to read them, or the
/// transport's.
pub open spec fn entries_outcome(
    answer: Result<Seq<u8>, Seq<char>>,
    r: Result<Vec<EntryDetail>, FdownError>,
) -> bool {
    match answer {
        Ok(bytes) => match entries_in(bytes) {
            Some(entries) => r matches Ok(found) && found.deep_view() == entries,
            None => is_read_failure(r, bytes, "expected an array of entries"@),
        },
        Err(message) => is_transport_failure(r, message),
    }
}

/// Whether `r` is what is made of `answer` to a request for subscriptions:
/// the subscriptions that its bytes hold; else the failure to read them, or
/// the transport's.
pub open spec fn subscriptions_outcome(
    answer: Result<Seq<u8>, Seq<char>>,
    r: Result<Vec<SubscriptionDetail>, FdownError>,
) -> bool {
    match answer {
        Ok(bytes) => match subscriptions_in(bytes) {
            Some(subscriptions) => r matches Ok(found) && found.deep_view() == subscriptions,
            None => is_read_failure(r, bytes, "expected an array of subscriptions"@),
        },
        Err(message) => is_transport_failure(r, message),
    }
}

/// Whether `r` is what is made of `answer` to a marker request: success
/// whatever its bytes hold, else the transport's failure.
pub open spec fn marker_outcome(answer: Result<Seq<u8>, Seq<char>>, r: Result<(), FdownError>)
    -> bool {
    match answer {
        Ok(_) => r is Ok,
        Err(message) => is_transport_failure(r, message),
    }
}

/// What `saved_entry_ids` returns for the transport's answer: the ids that
/// it holds, cut to `count`.
pub fn ids_from_response(response: Result<Vec<u8>, TransportError>, count: usize) -> (r: Result<
    Vec<String>,
    FdownError,
>)
    ensures
        ids_outcome(answer_of(response), count as nat, r),
{
    match response {
        Err(error) => Err(FdownError::Hyper(error.message)),
        Ok(bytes) => match Json::parse(bytes.as_slice()) {
            Err(e) => Err(e),
            Ok(doc) => match StreamsIdsResponse::from_json(&doc) {
                None => Err(
                    FdownError::SerdeJson("expected an object with an array of ids".to_owned()),
                ),
                Some(page) => {
                    let mut ids = page.ids;
                    let ghost all = ids.deep_view();
                    if count < ids.len() {
                        ids.truncate(count);
                        assert(ids.deep_view() =~= all.take(count as int));
                    }
                    Ok(ids)
                },
            },
        },
    }
}

/// What `detail_for_entries` returns for the transport's answer: the
/// entries that it holds.
pub fn entries_from_response(response: Result<Vec<u8>, TransportError>) -> (r: Result<
    Vec<EntryDetail>,
    FdownError,
>)
    ensures
        entries_outcome(answer_of(response), r),
{
    match response {
        Err(error) => Err(FdownError::Hyper(error.message)),
        Ok(bytes) => match Json::parse(bytes.as_slice()) {
            Err(e) => Err(e),
            Ok(doc) => match EntryDetail::list_from_json(&doc) {
                None => Err(FdownError::SerdeJson("expected an array of entries".to_owned())),
                Some(entries) => Ok(entries),
            },
        },
    }
}

/// What `subscriptions` returns for the transport's answer: the
/// subscriptions that it holds.
pub fn subscriptions_from_response(response: Result<Vec<u8>, TransportError>) -> (r: Result<
    Vec<SubscriptionDetail>,
    FdownError,
>)
    ensures
        subscriptions_outcome(answer_of(response), r),
{
    match response {
        Err(error) => Err(FdownError::Hyper(error.message)),
        Ok(bytes) => match Json::parse(bytes.as_slice()) {
            Err(e) => Err(e),
            Ok(doc) => match SubscriptionDetail::list_from_json(&doc) {
                None => Err(
                    FdownError::SerdeJson("expected an array of subscriptions".to_owned()),
                ),
                Some(subscriptions) => Ok(subscriptions),
            },
        },
    }
}

/// What `unsave_entries` returns for the transport's answer: success
/// whatever the answer holds.
pub fn unsave_outcome(response: Result<Vec<u8>, TransportError>) -> (r: Result<(), FdownError>)
    ensures
        marker_outcome(answer_of(response), r),
{
    match response {
        Err(error) => Err(FdownError::Hyper(error.message)),
        Ok(_) => Ok(()),
    }
}

/// The body that asks for the details of `ids`.
pub fn id_list_body(ids: &Vec<String>) -> (body: String)
    ensures
        body@ == id_list_text(ids.deep_view()),
{
    let mut out: Vec<char> = Vec::new();
    out.push('[');
    let mut i: usize = 0;
    while i < ids.len()
        invariant
            i <= ids.len(),
            out@ == seq!['['] + quoted_list(ids.deep_view().take(i as int)),
        decreases ids.len() - i,
    {
        let ghost before = ids.deep_view().take(i as int);
        let ghost after = ids.deep_view().take(i + 1);
        assert(after.drop_last() == before);
        assert(after.last() == ids@[i as int]@);
        if i > 0 {
            out.push(',');
        }
        out.push('"');
        push_text(&mut out, ids[i].as_str());
        out.push('"');
        assert(out@ =~= seq!['['] + quoted_list(after));
        i += 1;
    }
    assert(ids.deep_view().take(ids.len() as int) == ids.deep_view());
    out.push(']');
    string_of(&out)
}

/// A client of the feed service for one user, over the transport `T`.
pub struct FeedlyInternal<T> where T: HttpMockableClient {
    pub userid: String,
    pub token: String,
    pub client: T,
}

impl<T> FeedlyInternal<T> where T: HttpMockableClient {
    /// A client for `userid`, who is known to the service by `token`.
    pub fn new_with_client(userid: &str, token: &str, client: T) -> (feedly: FeedlyInternal<T>)
        ensures
            feedly.userid@ == userid@,
            feedly.token@ == token@,
            feedly.client == client,
    {
        FeedlyInternal { userid: userid.to_owned(), token: token.to_owned(), client }
    }

    /// The name of the stream of the user's saved entries.
    pub fn saved_feed(&self) -> (name: String)
        ensures
            name@ == saved_feed_of(self.userid@),
    {
        let mut name = "user/".to_owned();
        name.append(self.userid.as_str());
        name.append("/tag/global.saved");
        name
    }

    /// The value of the authorization header of the user's requests.
    pub fn auth_header(&self) -> (value: String)
        ensures
            value@ == auth_header_of(self.token@),
    {
        let mut value = "OAuth ".to_owned();
        value.append(self.token.as_str());
        value
    }

    /// The request for `count` ids of saved entries: a GET with the user's
    /// authorization.
    pub fn saved_entry_ids_request(&self, count: usize) -> (request: Request)
        ensures
            request.deep_view() == ids_request(self.userid@, self.token@, count as nat),
    {
        let mut url = "http://cloud.feedly.com/v3/streams/ids?streamId=".to_owned();
        url.append(self.saved_feed().as_str());
        url.append("&count=");
        url.append(decimal_string(count).as_str());
        Request { url, auth_header: Some(self.auth_header()), body: None }
    }

    /// The request for the details of `ids`: a POST of their list, without
    /// authorization.
    pub fn detail_request(&self, ids: &Vec<String>) -> (request: Request)
        ensures
            request.deep_view() == details_request(ids.deep_view()),
    {
        let text = id_list_body(ids);
        Request {
            url: "http://cloud.feedly.com/v3/entries/.mget".to_owned(),
            auth_header: None,
            body: Some(text.as_str().as_bytes_vec()),
        }
    }

    /// The request for the user's subscriptions: a GET with the user's
    /// authorization.
    pub fn subscriptions_request(&self) -> (request: Request)
        ensures
            request.deep_view() == subscriptions_request_of(self.token@),
    {
        Request {
            url: "http://cloud.feedly.com/v3/subscriptions".to_owned(),
            auth_header: Some(self.auth_header()),
            body: None,
        }
    }

    /// The request that takes the saved mark off `entries`: a POST of the
    /// marker body with the user's authorization. It fails with `SerdeJson`
    /// exactly where the body cannot be written as JSON.
    pub fn unsave_request(&self, entries: &Vec<&EntryDetail>) -> (r: Result<Request, FdownError>)
        ensures
            match unsave_bytes(entries.deep_view()) {
                Some(bytes) => r matches Ok(request) && request.deep_view() == marker_request(
                    self.token@,
                    bytes,
                ),
                None => r matches Err(e) && e is SerdeJson,
            },
    {
        let body = MarkerRequestBody::unsave(entries);
        match body.to_json().to_bytes() {
            Err(e) => Err(e),
            Ok(bytes) => Ok(
                Request {
                    url: "http://cloud.feedly.com/v3/markers".to_owned(),
                    auth_header: Some(self.auth_header()),
                    body: Some(bytes),
                },
            ),
        }
    }

    /// Hands `request` to the transport: to `post` where it has a body, to
    /// `get` where it has none. What comes back is an answer of the
    /// transport to this very request.
    fn send(&self, request: &Request) -> (response: Result<Vec<u8>, TransportError>)
        ensures
            self.client.answers(request.deep_view(), answer_of(response)),
    {
        let auth_header = match &request.auth_header {
            Some(value) => Some(value.clone()),
            None => None,
        };
        match &request.body {
            Some(body) => self.client.post(request.url.as_str(), auth_header, body.as_slice()),
            None => self.client.get(request.url.as_str(), auth_header),
        }
    }

    /// At most `count` ids of the user's saved entries, from the first page
    /// that the service gives: what is made of the transport's answer to
    /// the request for them.
    pub fn saved_entry_ids(&self, count: usize) -> (r: Result<Vec<String>, FdownError>)
        ensures
            exists|answer: Result<Seq<u8>, Seq<char>>|
                #[trigger] self.client.answers(
                    ids_request(self.userid@, self.token@, count as nat),
                    answer,
                ) && ids_outcome(answer, count as nat, r),
            r matches Ok(ids) ==> ids.len() <= count,
    {
        let request = self.saved_entry_ids_request(count);
        let response = self.send(&request);
        let r = ids_from_response(response, count);
        proof {
            if r is Ok {
                assert(r->Ok_0.deep_view().len() == r->Ok_0.len());
            }
        }
        r
    }

    /// Takes the saved mark off `entries`, in one request: where the body
    /// can be written, what is made of the transport's answer to the marker
    /// request with it; where it cannot, `SerdeJson`, and nothing is sent.
    pub fn unsave_entries(&self, entries: &Vec<&EntryDetail>) -> (r: Result<(), FdownError>)
        ensures
            match unsave_bytes(entries.deep_view()) {
                Some(bytes) => exists|answer: Result<Seq<u8>, Seq<char>>|
                    #[trigger] self.client.answers(marker_request(self.token@, bytes), answer)
                        && marker_outcome(answer, r),
                None => r matches Err(e) && e is SerdeJson,
            },
    {
        match self.unsave_request(entries) {
            Err(e) => Err(e),
            Ok(request) => {
                let response = self.send(&request);
                unsave_outcome(response)
            },
        }
    }

    /// The user's subscriptions: what is made of the transport's answer to
    /// the request for them.
    pub fn subscriptions(&self) -> (r: Result<Vec<SubscriptionDetail>, FdownError>)
        ensures
            exists|answer: Result<Seq<u8>, Seq<char>>|
                #[trigger] self.client.answers(subscriptions_request_of(self.token@), answer)
                    && subscriptions_outcome(answer, r),
    {
        let request = self.subscriptions_request();
        let response = self.send(&request);
        subscriptions_from_response(response)
    }

    /// The details of the entries `ids`, as the service lists them: what
    /// is made of the transport's answer to the request for them.
    pub fn detail_for_entries(&self, ids: Vec<String>) -> (r: Result<Vec<EntryDetail>, FdownError>)
        ensures
            exists|answer: Result<Seq<u8>, Seq<char>>|
                #[trigger] self.client.answers(details_request(ids.deep_view()), answer)
                    && entries_outcome(answer, r),
    {
        let request = self.detail_request(&ids);
        let response = self.send(&request);
        entries_from_response(response)
    }

    /// The URL of the image of `detail`: that of its `visual`, where it has
    /// one and that has one.
    pub fn extract_image_url<'a>(detail: &'a EntryDetail) -> (r: Option<&'a String>)
        ensures
            r.deep_view() == image_url_of(detail.deep_view()),
    {
        match &detail.visual {
            Some(visual) => match &visual.url {
                Some(url) => Some(url),
                None => None,
            },
            None => None,
        }
    }

    /// The URL to fetch for `url`: a size suffix is replaced by the largest
    /// size, and any other URL is returned as it is.
    pub fn tumblr_filter(url: &str) -> (out: String)
        ensures
            out@ == filtered(url@),
    {
        largest_variant(url)
    }
}

/// The URL of an entry's image: that of its `visual`, where it has one and
/// that has one.
pub open spec fn image_url_of(detail: EntryDetailView) -> Option<Seq<char>> {
    match detail.visual {
        Some(visual) => visual.url,
        None => None,
    }
}

} // verus!
