//! What the feed service sends and takes: entries, subscriptions, entry ids
//! and the body of a marker request, each with its mathematical value.

use vstd::prelude::*;

verus! {

/// The answer to a request for the ids of a stream.
#[derive(Debug, Clone, PartialEq)]
pub struct StreamsIdsResponse {
    pub continuation: Option<String>,
    pub ids: Vec<String>,
}

/// The image that the service found for an entry.
#[derive(Debug, Clone, PartialEq)]
pub struct EntryDetailVisual {
    pub url: Option<String>,
    pub content_type: Option<String>,
}

/// The stream that an entry came from.
#[derive(Debug, Clone, PartialEq)]
pub struct EntryDetailOrigin {
    pub stream_id: String,
    pub title: Option<String>,
}

/// One entry. Only `id` is sure to be there.
#[derive(Debug, Clone, PartialEq)]
pub struct EntryDetail {
    pub id: String,
    pub fingerprint: Option<String>,
    pub visual: Option<EntryDetailVisual>,
    pub origin: Option<EntryDetailOrigin>,
}

/// A category that a subscription is filed under.
#[derive(Debug, Clone, PartialEq)]
pub struct SubscriptionDetailCategory {
    pub id: String,
    pub label: Option<String>,
}

/// A followed source, filed under any number of categories.
#[derive(Debug, Clone, PartialEq)]
pub struct SubscriptionDetail {
    pub id: String,
    pub website: Option<String>,
    pub title: Option<String>,
    pub categories: Vec<SubscriptionDetailCategory>,
}

/// The body of a request that marks entries.
#[derive(Debug, Clone, PartialEq)]
pub struct MarkerRequestBody {
    pub action: String,
    pub type_field: String,
    pub entry_ids: Vec<String>,
}

pub struct StreamsIdsResponseView {
    pub continuation: Option<Seq<char>>,
    pub ids: Seq<Seq<char>>,
}

pub struct EntryDetailVisualView {
    pub url: Option<Seq<char>>,
    pub content_type: Option<Seq<char>>,
}

pub struct EntryDetailOriginView {
    pub stream_id: Seq<char>,
    pub title: Option<Seq<char>>,
}

pub struct EntryDetailView {
    pub id: Seq<char>,
    pub fingerprint: Option<Seq<char>>,
    pub visual: Option<EntryDetailVisualView>,
    pub origin: Option<EntryDetailOriginView>,
}

pub struct SubscriptionDetailCategoryView {
    pub id: Seq<char>,
    pub label: Option<Seq<char>>,
}

pub struct SubscriptionDetailView {
    pub id: Seq<char>,
    pub website: Option<Seq<char>>,
    pub title: Option<Seq<char>>,
    pub categories: Seq<SubscriptionDetailCategoryView>,
}

pub struct MarkerRequestBodyView {
    pub action: Seq<char>,
    pub type_field: Seq<char>,
    pub entry_ids: Seq<Seq<char>>,
}

impl DeepView for StreamsIdsResponse {
    type V = StreamsIdsResponseView;

    open spec fn deep_view(&self) -> StreamsIdsResponseView {
        StreamsIdsResponseView {
            continuation: self.continuation.deep_view(),
            ids: self.ids.deep_view(),
        }
    }
}

impl DeepView for EntryDetailVisual {
    type V = EntryDetailVisualView;

    open spec fn deep_view(&self) -> EntryDetailVisualView {
        EntryDetailVisualView {
            url: self.url.deep_view(),
            content_type: self.content_type.deep_view(),
        }
    }
}

impl DeepView for EntryDetailOrigin {
    type V = EntryDetailOriginView;

    open spec fn deep_view(&self) -> EntryDetailOriginView {
        EntryDetailOriginView {
            stream_id: self.stream_id.deep_view(),
            title: self.title.deep_view(),
        }
    }
}

impl DeepView for EntryDetail {
    type V = EntryDetailView;

    open spec fn deep_view(&self) -> EntryDetailView {
        EntryDetailView {
            id: self.id.deep_view(),
            fingerprint: self.fingerprint.deep_view(),
            visual: self.visual.deep_view(),
            origin: self.origin.deep_view(),
        }
    }
}

impl DeepView for SubscriptionDetailCategory {
    type V = SubscriptionDetailCategoryView;

    open spec fn deep_view(&self) -> SubscriptionDetailCategoryView {
        SubscriptionDetailCategoryView {
            id: self.id.deep_view(),
            label: self.label.deep_view(),
        }
    }
}

impl DeepView for SubscriptionDetail {
    type V = SubscriptionDetailView;

    open spec fn deep_view(&self) -> SubscriptionDetailView {
        SubscriptionDetailView {
            id: self.id.deep_view(),
            website: self.website.deep_view(),
            title: self.title.deep_view(),
            categories: self.categories.deep_view(),
        }
    }
}

impl DeepView for MarkerRequestBody {
    type V = MarkerRequestBodyView;

    open spec fn deep_view(&self) -> MarkerRequestBodyView {
        MarkerRequestBodyView {
            action: self.action.deep_view(),
            type_field: self.type_field.deep_view(),
            entry_ids: self.entry_ids.deep_view(),
        }
    }
}

} // verus!
