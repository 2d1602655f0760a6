//! Reading the service's answers out of JSON documents. A member that is
//! not asked for is skipped; one that is asked for and has another type than
//! expected makes the whole document unreadable.

use crate::json::{
    find_member, items_view, lemma_array_view, lemma_object_view, member, members_view, Json,
    JsonView, Member, MemberView,
};
use crate::model::{
    EntryDetail, EntryDetailOrigin, EntryDetailOriginView, EntryDetailView, EntryDetailVisual,
    EntryDetailVisualView, StreamsIdsResponse, StreamsIdsResponseView, SubscriptionDetail,
    SubscriptionDetailCategory, SubscriptionDetailCategoryView, SubscriptionDetailView,
};
use vstd::prelude::*;

verus! {

/// The text of a document that is a string.
pub open spec fn text_of(doc: JsonView) -> Option<Seq<char>> {
    match doc {
        JsonView::Str(s) => Some(s),
        _ => None,
    }
}

/// The text of the member `key`, which must be there and be a string.
pub open spec fn required_text(members: Seq<MemberView>, key: Seq<char>) -> Option<Seq<char>> {
    match member(members, key) {
        Some(value) => text_of(value),
        None => None,
    }
}

/// The member `key` read by `read`, where a missing member and `null` both
/// stand for "not given". The outer `None` says that the member is there
/// and `read` refuses it.
pub open spec fn optional_member<T>(
    members: Seq<MemberView>,
    key: Seq<char>,
    read: spec_fn(JsonView) -> Option<T>,
) -> Option<Option<T>> {
    match member(members, key) {
        None => Some(None),
        Some(JsonView::Null) => Some(None),
        Some(value) => match read(value) {
            Some(t) => Some(Some(t)),
            None => None,
        },
    }
}

/// The text of the member `key`, which may be missing or `null` and must
/// otherwise be a string.
pub open spec fn optional_text(members: Seq<MemberView>, key: Seq<char>) -> Option<
    Option<Seq<char>>,
> {
    optional_member(members, key, |value: JsonView| text_of(value))
}

/// Every item read by `read`, in order; nothing where `read` refuses one.
pub open spec fn all_read<T>(items: Seq<JsonView>, read: spec_fn(JsonView) -> Option<T>) -> Option<
    Seq<T>,
> {
    if forall|i: int| 0 <= i < items.len() ==> (#[trigger] read(items[i])) is Some {
        Some(Seq::new(items.len(), |i: int| read(items[i]).unwrap()))
    } else {
        None
    }
}

/// An array read item by item.
pub open spec fn array_of<T>(doc: JsonView, read: spec_fn(JsonView) -> Option<T>) -> Option<
    Seq<T>,
> {
    match doc {
        JsonView::Array(items) => all_read(items, read),
        _ => None,
    }
}

/// An image: an object whose `url` and `contentType` are optional strings.
pub open spec fn visual_of(doc: JsonView) -> Option<EntryDetailVisualView> {
    match doc {
        JsonView::Object(members) => match (
            optional_text(members, "url"@),
            optional_text(members, "contentType"@),
        ) {
            (Some(url), Some(content_type)) => Some(EntryDetailVisualView { url, content_type }),
            _ => None,
        },
        _ => None,
    }
}

/// An origin: an object with a string `streamId` and an optional string
/// `title`.
pub open spec fn origin_of(doc: JsonView) -> Option<EntryDetailOriginView> {
    match doc {
        JsonView::Object(members) => match (
            required_text(members, "streamId"@),
            optional_text(members, "title"@),
        ) {
            (Some(stream_id), Some(title)) => Some(EntryDetailOriginView { stream_id, title }),
            _ => None,
        },
        _ => None,
    }
}

/// An entry: an object with a string `id`, an optional string
/// `fingerprint`, an optional image `visual` and an optional `origin`.
pub open spec fn entry_of(doc: JsonView) -> Option<EntryDetailView> {
    match doc {
        JsonView::Object(members) => match (
            required_text(members, "id"@),
            optional_text(members, "fingerprint"@),
            optional_member(members, "visual"@, |value: JsonView| visual_of(value)),
            optional_member(members, "origin"@, |value: JsonView| origin_of(value)),
        ) {
            (Some(id), Some(fingerprint), Some(visual), Some(origin)) => Some(
                EntryDetailView { id, fingerprint, visual, origin },
            ),
            _ => None,
        },
        _ => None,
    }
}

/// A category: an object with a string `id` and an optional string `label`.
pub open spec fn category_of(doc: JsonView) -> Option<SubscriptionDetailCategoryView> {
    match doc {
        JsonView::Object(members) => match (
            required_text(members, "id"@),
            optional_text(members, "label"@),
        ) {
            (Some(id), Some(label)) => Some(SubscriptionDetailCategoryView { id, label }),
            _ => None,
        },
        _ => None,
    }
}

/// A subscription: an object with a string `id`, optional strings `website`
/// and `title`, and an array `categories` of categories.
pub open spec fn subscription_of(doc: JsonView) -> Option<SubscriptionDetailView> {
    match doc {
        JsonView::Object(members) => match (
            required_text(members, "id"@),
            optional_text(members, "website"@),
            optional_text(members, "title"@),
            match member(members, "categories"@) {
                Some(value) => array_of(value, |item: JsonView| category_of(item)),
                None => None,
            },
        ) {
            (Some(id), Some(website), Some(title), Some(categories)) => Some(
                SubscriptionDetailView { id, website, title, categories },
            ),
            _ => None,
        },
        _ => None,
    }
}

/// A page of ids: an object with an array `ids` of strings and an optional
/// string `continuation`.
pub open spec fn ids_of(doc: JsonView) -> Option<StreamsIdsResponseView> {
    match doc {
        JsonView::Object(members) => match (
            optional_text(members, "continuation"@),
            match member(members, "ids"@) {
                Some(value) => array_of(value, |item: JsonView| text_of(item)),
                None => None,
            },
        ) {
            (Some(continuation), Some(ids)) => Some(StreamsIdsResponseView { continuation, ids }),
            _ => None,
        },
        _ => None,
    }
}

/// A list of entries: an array of entries.
pub open spec fn entries_of(doc: JsonView) -> Option<Seq<EntryDetailView>> {
    array_of(doc, |item: JsonView| entry_of(item))
}

/// A list of subscriptions: an array of subscriptions.
pub open spec fn subscriptions_of(doc: JsonView) -> Option<Seq<SubscriptionDetailView>> {
    array_of(doc, |item: JsonView| subscription_of(item))
}

fn read_text(doc: &Json) -> (r: Option<String>)
    ensures
        r.deep_view() == text_of(doc@),
{
    match doc {
        Json::Str(s) => Some(s.clone()),
        _ => None,
    }
}

fn read_required_text(members: &Vec<Member>, key: &str) -> (r: Option<String>)
    ensures
        r.deep_view() == required_text(members_view(members@), key@),
{
    match find_member(members, key) {
        Some(value) => read_text(value),
        None => None,
    }
}

fn read_optional_text(members: &Vec<Member>, key: &str) -> (r: Option<Option<String>>)
    ensures
        r.deep_view() == optional_text(members_view(members@), key@),
{
    match find_member(members, key) {
        None => Some(None),
        Some(value) => match value {
            Json::Null => Some(None),
            Json::Str(s) => Some(Some(s.clone())),
            _ => None,
        },
    }
}

impl EntryDetailVisual {
    /// Reads an image out of `doc`.
    pub fn from_json(doc: &Json) -> (r: Option<EntryDetailVisual>)
        ensures
            r.deep_view() == visual_of(doc@),
    {
        match doc {
            Json::Object(members) => {
                proof {
                    lemma_object_view(*members);
                }
                let url = read_optional_text(members, "url");
                let content_type = read_optional_text(members, "contentType");
                match (url, content_type) {
                    (Some(url), Some(content_type)) => Some(
                        EntryDetailVisual { url, content_type },
                    ),
                    _ => None,
                }
            },
            _ => None,
        }
    }
}

impl EntryDetailOrigin {
    /// Reads an origin out of `doc`.
    pub fn from_json(doc: &Json) -> (r: Option<EntryDetailOrigin>)
        ensures
            r.deep_view() == origin_of(doc@),
    {
        match doc {
            Json::Object(members) => {
                proof {
                    lemma_object_view(*members);
                }
                let stream_id = read_required_text(members, "streamId");
                let title = read_optional_text(members, "title");
                match (stream_id, title) {
                    (Some(stream_id), Some(title)) => Some(EntryDetailOrigin { stream_id, title }),
                    _ => None,
                }
            },
            _ => None,
        }
    }
}

fn read_optional_visual(members: &Vec<Member>, key: &str) -> (r: Option<Option<EntryDetailVisual>>)
    ensures
        r.deep_view() == optional_member(
            members_view(members@),
            key@,
            |value: JsonView| visual_of(value),
        ),
{
    match find_member(members, key) {
        None => Some(None),
        Some(value) => match value {
            Json::Null => Some(None),
            _ => match EntryDetailVisual::from_json(value) {
                Some(visual) => Some(Some(visual)),
                None => None,
            },
        },
    }
}

fn read_optional_origin(members: &Vec<Member>, key: &str) -> (r: Option<Option<EntryDetailOrigin>>)
    ensures
        r.deep_view() == optional_member(
            members_view(members@),
            key@,
            |value: JsonView| origin_of(value),
        ),
{
    match find_member(members, key) {
        None => Some(None),
        Some(value) => match value {
            Json::Null => Some(None),
            _ => match EntryDetailOrigin::from_json(value) {
                Some(origin) => Some(Some(origin)),
                None => None,
            },
        },
    }
}

impl EntryDetail {
    /// Reads an entry out of `doc`.
    pub fn from_json(doc: &Json) -> (r: Option<EntryDetail>)
        ensures
            r.deep_view() == entry_of(doc@),
    {
        match doc {
            Json::Object(members) => {
                proof {
                    lemma_object_view(*members);
                }
                let id = read_required_text(members, "id");
                let fingerprint = read_optional_text(members, "fingerprint");
                let visual = read_optional_visual(members, "visual");
                let origin = read_optional_origin(members, "origin");
                match (id, fingerprint, visual, origin) {
                    (Some(id), Some(fingerprint), Some(visual), Some(origin)) => Some(
                        EntryDetail { id, fingerprint, visual, origin },
                    ),
                    _ => None,
                }
            },
            _ => None,
        }
    }

    /// Reads a list of entries out of `doc`.
    pub fn list_from_json(doc: &Json) -> (r: Option<Vec<EntryDetail>>)
        ensures
            r.deep_view() == entries_of(doc@),
    {
        match doc {
            Json::Array(items) => {
                proof {
                    lemma_array_view(*items);
                }
                let ghost read = |item: JsonView| entry_of(item);
                let mut out: Vec<EntryDetail> = Vec::new();
                let mut i: usize = 0;
                while i < items.len()
                    invariant
                        i <= items.len(),
                        out.len() == i,
                        read == |item: JsonView| entry_of(item),
                        doc@ == JsonView::Array(items_view(items@)),
                        forall|k: int|
                            0 <= k < i ==> (#[trigger] read(items_view(items@)[k])) == Some(
                                out@[k].deep_view(),
                            ),
                    decreases items.len() - i,
                {
                    match EntryDetail::from_json(&items[i]) {
                        Some(entry) => {
                            out.push(entry);
                        },
                        None => {
                            assert(read(items_view(items@)[i as int]) is None);
                            return None;
                        },
                    }
                    i += 1;
                }
                assert(out.deep_view() =~= all_read(items_view(items@), read).unwrap());
                Some(out)
            },
            _ => None,
        }
    }
}

fn read_texts(doc: &Json) -> (r: Option<Vec<String>>)
    ensures
        r.deep_view() == array_of(doc@, |item: JsonView| text_of(item)),
{
    match doc {
        Json::Array(items) => {
            proof {
                lemma_array_view(*items);
            }
            let ghost read = |item: JsonView| text_of(item);
            let mut out: Vec<String> = Vec::new();
            let mut i: usize = 0;
            while i < items.len()
                invariant
                    i <= items.len(),
                    out.len() == i,
                    read == |item: JsonView| text_of(item),
                    doc@ == JsonView::Array(items_view(items@)),
                    forall|k: int|
                        0 <= k < i ==> (#[trigger] read(items_view(items@)[k])) == Some(
                            out@[k].deep_view(),
                        ),
                decreases items.len() - i,
            {
                match read_text(&items[i]) {
                    Some(text) => {
                        out.push(text);
                    },
                    None => {
                        assert(read(items_view(items@)[i as int]) is None);
                        return None;
                    },
                }
                i += 1;
            }
            assert(out.deep_view() =~= all_read(items_view(items@), read).unwrap());
            Some(out)
        },
        _ => None,
    }
}

impl StreamsIdsResponse {
    /// Reads a page of ids out of `doc`.
    pub fn from_json(doc: &Json) -> (r: Option<StreamsIdsResponse>)
        ensures
            r.deep_view() == ids_of(doc@),
    {
        match doc {
            Json::Object(members) => {
                proof {
                    lemma_object_view(*members);
                }
                let continuation = read_optional_text(members, "continuation");
                let ids = match find_member(members, "ids") {
                    Some(value) => read_texts(value),
                    None => None,
                };
                match (continuation, ids) {
                    (Some(continuation), Some(ids)) => Some(
                        StreamsIdsResponse { continuation, ids },
                    ),
                    _ => None,
                }
            },
            _ => None,
        }
    }
}

impl SubscriptionDetailCategory {
    /// Reads a category out of `doc`.
    pub fn from_json(doc: &Json) -> (r: Option<SubscriptionDetailCategory>)
        ensures
            r.deep_view() == category_of(doc@),
    {
        match doc {
            Json::Object(members) => {
                proof {
                    lemma_object_view(*members);
                }
                let id = read_required_text(members, "id");
                let label = read_optional_text(members, "label");
                match (id, label) {
                    (Some(id), Some(label)) => Some(SubscriptionDetailCategory { id, label }),
                    _ => None,
                }
            },
            _ => None,
        }
    }

    /// Reads a list of categories out of `doc`.
    pub fn list_from_json(doc: &Json) -> (r: Option<Vec<SubscriptionDetailCategory>>)
        ensures
            r.deep_view() == array_of(doc@, |item: JsonView| category_of(item)),
    {
        match doc {
            Json::Array(items) => {
                proof {
                    lemma_array_view(*items);
                }
                let ghost read = |item: JsonView| category_of(item);
                let mut out: Vec<SubscriptionDetailCategory> = Vec::new();
                let mut i: usize = 0;
                while i < items.len()
                    invariant
                        i <= items.len(),
                        out.len() == i,
                        read == |item: JsonView| category_of(item),
                        doc@ == JsonView::Array(items_view(items@)),
                        forall|k: int|
                            0 <= k < i ==> (#[trigger] read(items_view(items@)[k])) == Some(
                                out@[k].deep_view(),
                            ),
                    decreases items.len() - i,
                {
                    match SubscriptionDetailCategory::from_json(&items[i]) {
                        Some(category) => {
                            out.push(category);
                        },
                        None => {
                            assert(read(items_view(items@)[i as int]) is None);
                            return None;
                        },
                    }
                    i += 1;
                }
                assert(out.deep_view() =~= all_read(items_view(items@), read).unwrap());
                Some(out)
            },
            _ => None,
        }
    }
}

impl SubscriptionDetail {
    /// Reads a subscription out of `doc`.
    pub fn from_json(doc: &Json) -> (r: Option<SubscriptionDetail>)
        ensures
            r.deep_view() == subscription_of(doc@),
    {
        match doc {
            Json::Object(members) => {
                proof {
                    lemma_object_view(*members);
                }
                let id = read_required_text(members, "id");
                let website = read_optional_text(members, "website");
                let title = read_optional_text(members, "title");
                let categories = match find_member(members, "categories") {
                    Some(value) => SubscriptionDetailCategory::list_from_json(value),
                    None => None,
                };
                match (id, website, title, categories) {
                    (Some(id), Some(website), Some(title), Some(categories)) => Some(
                        SubscriptionDetail { id, website, title, categories },
                    ),
                    _ => None,
                }
            },
            _ => None,
        }
    }

    /// Reads a list of subscriptions out of `doc`.
    pub fn list_from_json(doc: &Json) -> (r: Option<Vec<SubscriptionDetail>>)
        ensures
            r.deep_view() == subscriptions_of(doc@),
    {
        match doc {
            Json::Array(items) => {
                proof {
                    lemma_array_view(*items);
                }
                let ghost read = |item: JsonView| subscription_of(item);
                let mut out: Vec<SubscriptionDetail> = Vec::new();
                let mut i: usize = 0;
                while i < items.len()
                    invariant
                        i <= items.len(),
                        out.len() == i,
                        read == |item: JsonView| subscription_of(item),
                        doc@ == JsonView::Array(items_view(items@)),
                        forall|k: int|
                            0 <= k < i ==> (#[trigger] read(items_view(items@)[k])) == Some(
                                out@[k].deep_view(),
                            ),
                    decreases items.len() - i,
                {
                    match SubscriptionDetail::from_json(&items[i]) {
                        Some(subscription) => {
                            out.push(subscription);
                        },
                        None => {
                            assert(read(items_view(items@)[i as int]) is None);
                            return None;
                        },
                    }
                    i += 1;
                }
                assert(out.deep_view() =~= all_read(items_view(items@), read).unwrap());
                Some(out)
            },
            _ => None,
        }
    }
}

} // verus!
