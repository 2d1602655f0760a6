//! One run over the saved entries: which entries are kept, which image is
//! fetched for each, and when the run ends. The caller fetches and stores
//! the images; every decision is taken here.

use crate::feedly::{
    details_request, entries_in, ids_in, ids_request, image_url_of, is_read_failure,
    is_transport_failure, marker_outcome, marker_request, subscriptions_in,
    subscriptions_request_of, unsave_bytes, FeedlyInternal, HttpMockableClient,
};
use crate::image_url::{filtered, largest_variant};
use crate::model::{
    EntryDetail, EntryDetailView, SubscriptionDetail, SubscriptionDetailCategoryView,
    SubscriptionDetailView,
};
use crate::result::FdownError;
use crate::text::holds_text;
use vstd::prelude::*;

verus! {

/// Whether `subscription` is filed under a category labelled `category`,
/// letter for letter.
pub open spec fn has_label(subscription: SubscriptionDetailView, category: Seq<char>) -> bool {
    exists|i: int|
        0 <= i < subscription.categories.len() && (#[trigger] subscription.categories[i]).label
            == Some(category)
}

/// The ids of the subscriptions filed under `category`, in their order.
pub open spec fn streams_of_category(
    subscriptions: Seq<SubscriptionDetailView>,
    category: Seq<char>,
) -> Seq<Seq<char>> {
    subscriptions.filter(|s: SubscriptionDetailView| has_label(s, category)).map_values(
        |s: SubscriptionDetailView| s.id,
    )
}

/// Which entries a run keeps.
#[derive(Debug, Clone, PartialEq, Eq)]
pub enum CategoryFilter {
    /// Every entry.
    Everything,
    /// The entries that come from one of these streams.
    Streams(Vec<String>),
}

pub enum CategoryFilterView {
    Everything,
    Streams(Seq<Seq<char>>),
}

impl DeepView for CategoryFilter {
    type V = CategoryFilterView;

    open spec fn deep_view(&self) -> CategoryFilterView {
        match self {
            CategoryFilter::Everything => CategoryFilterView::Everything,
            CategoryFilter::Streams(ids) => CategoryFilterView::Streams(ids.deep_view()),
        }
    }
}

impl CategoryFilterView {
    /// Whether the filter keeps `entry`: an entry without an origin is kept
    /// only by the filter that keeps everything.
    pub open spec fn keeps(self, entry: EntryDetailView) -> bool {
        match self {
            CategoryFilterView::Everything => true,
            CategoryFilterView::Streams(ids) => match entry.origin {
                Some(origin) => ids.contains(origin.stream_id),
                None => false,
            },
        }
    }

    /// The entries of `entries` that the filter keeps, in their order.
    pub open spec fn kept(self, entries: Seq<EntryDetailView>) -> Seq<EntryDetailView> {
        entries.filter(|e: EntryDetailView| self.keeps(e))
    }
}

/// The filter for an optional category and the user's subscriptions.
pub open spec fn filter_of(
    category: Option<Seq<char>>,
    subscriptions: Seq<SubscriptionDetailView>,
) -> CategoryFilterView {
    match category {
        Some(label) => CategoryFilterView::Streams(streams_of_category(subscriptions, label)),
        None => CategoryFilterView::Everything,
    }
}

fn labelled(subscription: &SubscriptionDetail, category: &String) -> (r: bool)
    ensures
        r == has_label(subscription.deep_view(), category@),
{
    let mut i: usize = 0;
    while i < subscription.categories.len()
        invariant
            i <= subscription.categories.len(),
            forall|k: int|
                0 <= k < i ==> (#[trigger] subscription.deep_view().categories[k]).label != Some(
                    category@,
                ),
        decreases subscription.categories.len() - i,
    {
        let found = match &subscription.categories[i].label {
            Some(label) => *label == *category,
            None => false,
        };
        if found {
            assert(subscription.deep_view().categories[i as int].label == Some(category@));
            return true;
        }
        i += 1;
    }
    false
}

impl CategoryFilter {
    /// The filter that keeps the entries of the subscriptions filed under
    /// `category`.
    pub fn for_category(subscriptions: &Vec<SubscriptionDetail>, category: &str) -> (filter:
        CategoryFilter)
        ensures
            filter.deep_view() == filter_of(Some(category@), subscriptions.deep_view()),
    {
        let wanted = category.to_owned();
        let ghost all = subscriptions.deep_view();
        let ghost keep = |s: SubscriptionDetailView| has_label(s, category@);
        let ghost id = |s: SubscriptionDetailView| s.id;
        let mut ids: Vec<String> = Vec::new();
        let mut i: usize = 0;
        proof {
            reveal(Seq::filter);
            assert(all.take(0).filter(keep).map_values(id) =~= ids.deep_view());
        }
        while i < subscriptions.len()
            invariant
                i <= subscriptions.len(),
                wanted@ == category@,
                all == subscriptions.deep_view(),
                keep == |s: SubscriptionDetailView| has_label(s, category@),
                id == |s: SubscriptionDetailView| s.id,
                ids.deep_view() == all.take(i as int).filter(keep).map_values(id),
            decreases subscriptions.len() - i,
        {
            proof {
                reveal(Seq::filter);
                assert(all.take(i + 1).drop_last() == all.take(i as int));
                assert(all.take(i + 1).last() == subscriptions@[i as int].deep_view());
            }
            let ghost before = ids.deep_view();
            if labelled(&subscriptions[i], &wanted) {
                ids.push(subscriptions[i].id.clone());
                assert(ids.deep_view() =~= before.push(subscriptions@[i as int].id@));
                assert(ids.deep_view() =~= all.take(i + 1).filter(keep).map_values(id));
            }
            i += 1;
        }
        assert(all.take(subscriptions.len() as int) == all);
        CategoryFilter::Streams(ids)
    }

    /// Whether the filter keeps `entry`.
    pub fn accepts(&self, entry: &EntryDetail) -> (r: bool)
        ensures
            r == self.deep_view().keeps(entry.deep_view()),
    {
        match self {
            CategoryFilter::Everything => true,
            CategoryFilter::Streams(ids) => match &entry.origin {
                Some(origin) => holds_text(ids, &origin.stream_id),
                None => false,
            },
        }
    }
}

/// The entries of `entries` that `filter` keeps, in their order.
pub fn keep_matching(entries: Vec<EntryDetail>, filter: &CategoryFilter) -> (kept: Vec<EntryDetail>)
    ensures
        kept.deep_view() == filter.deep_view().kept(entries.deep_view()),
{
    let ghost all = entries.deep_view();
    let ghost keep = |e: EntryDetailView| filter.deep_view().keeps(e);
    let mut kept: Vec<EntryDetail> = Vec::new();
    proof {
        reveal(Seq::filter);
        assert(all.take(0).filter(keep) =~= kept.deep_view());
    }
    for entry in it: entries
        invariant
            all == it.seq().map_values(|e: EntryDetail| e.deep_view()),
            keep == |e: EntryDetailView| filter.deep_view().keeps(e),
            kept.deep_view() == all.take(it.index() as int).filter(keep),
    {
        let ghost i = it.index() as int;
        proof {
            reveal(Seq::filter);
            assert(all.take(i + 1).drop_last() == all.take(i));
            assert(all.take(i + 1).last() == entry.deep_view());
        }
        let ghost before = kept.deep_view();
        if filter.accepts(&entry) {
            kept.push(entry);
            assert(kept.deep_view() =~= before.push(entry.deep_view()));
        }
    }
    assert(all.take(all.len() as int) == all);
    kept
}

/// The title that a subscription is listed under: its own, or its id where
/// it has none.
pub open spec fn listed_title(subscription: SubscriptionDetailView) -> Seq<char> {
    match subscription.title {
        Some(title) => title,
        None => subscription.id,
    }
}

/// The name that a category is listed under: its label, or its id where it
/// has none.
pub open spec fn listed_category(category: SubscriptionDetailCategoryView) -> Seq<char> {
    match category.label {
        Some(label) => label,
        None => category.id,
    }
}

/// The line that lists a subscription: its first category, or its title
/// where it has no category.
pub open spec fn line_of(subscription: SubscriptionDetailView) -> Seq<char> {
    if subscription.categories.len() > 0 {
        listed_category(subscription.categories[0])
    } else {
        listed_title(subscription)
    }
}

/// The lines that list `subscriptions`, one for each, in their order.
pub open spec fn lines_of(subscriptions: Seq<SubscriptionDetailView>) -> Seq<Seq<char>> {
    subscriptions.map_values(|s: SubscriptionDetailView| line_of(s))
}

/// The line that lists `subscription`.
pub fn subscription_line(subscription: &SubscriptionDetail) -> (line: String)
    ensures
        line@ == line_of(subscription.deep_view()),
{
    if subscription.categories.len() > 0 {
        let first = &subscription.categories[0];
        assert(subscription.deep_view().categories[0] == first.deep_view());
        match &first.label {
            Some(label) => label.clone(),
            None => first.id.clone(),
        }
    } else {
        match &subscription.title {
            Some(title) => title.clone(),
            None => subscription.id.clone(),
        }
    }
}

/// The lines that list `subscriptions`.
pub fn subscription_lines(subscriptions: &Vec<SubscriptionDetail>) -> (lines: Vec<String>)
    ensures
        lines.deep_view() == lines_of(subscriptions.deep_view()),
{
    let mut lines: Vec<String> = Vec::new();
    let mut i: usize = 0;
    while i < subscriptions.len()
        invariant
            i <= subscriptions.len(),
            lines.len() == i,
            forall|k: int| 0 <= k < i ==> lines@[k]@ == line_of(subscriptions@[k].deep_view()),
        decreases subscriptions.len() - i,
    {
        lines.push(subscription_line(&subscriptions[i]));
        i += 1;
    }
    assert(lines.deep_view() =~= lines_of(subscriptions.deep_view()));
    lines
}

/// Whether `r` is what is made of `answer` to the request for
/// subscriptions when their lines are asked for: the lines of the
/// subscriptions that its bytes hold; else the failure to read them, or the
/// transport's.
pub open spec fn listing_outcome(
    answer: Result<Seq<u8>, Seq<char>>,
    r: Result<Vec<String>, FdownError>,
) -> bool {
    match answer {
        Ok(bytes) => match subscriptions_in(bytes) {
            Some(found) => r matches Ok(lines) && lines.deep_view() == lines_of(found),
            None => is_read_failure(r, bytes, "expected an array of subscriptions"@),
        },
        Err(message) => is_transport_failure(r, message),
    }
}

/// Whether `r` is a listing that `feedly` may give: what is made of an
/// answer of its transport to the request for subscriptions.
pub open spec fn lists<T: HttpMockableClient>(
    feedly: FeedlyInternal<T>,
    r: Result<Vec<String>, FdownError>,
) -> bool {
    exists|answer: Result<Seq<u8>, Seq<char>>|
        #[trigger] feedly.client.answers(subscriptions_request_of(feedly.token@), answer)
            && listing_outcome(answer, r)
}

/// The lines that list the user's subscriptions: what is made of the
/// transport's answer to the request for them.
pub fn list_subs<T: HttpMockableClient>(feedly: &FeedlyInternal<T>) -> (r: Result<
    Vec<String>,
    FdownError,
>)
    ensures
        lists(*feedly, r),
{
    match feedly.subscriptions() {
        Err(e) => Err(e),
        Ok(subscriptions) => Ok(subscription_lines(&subscriptions)),
    }
}

/// Whether `r` is what is made of `answer` to the request for
/// subscriptions when the filter for `label` is asked for: the filter of
/// the subscriptions that its bytes hold; else the failure to read them, or
/// the transport's.
pub open spec fn filter_outcome(
    answer: Result<Seq<u8>, Seq<char>>,
    label: Seq<char>,
    r: Result<CategoryFilter, FdownError>,
) -> bool {
    match answer {
        Ok(bytes) => match subscriptions_in(bytes) {
            Some(found) => r matches Ok(filter) && filter.deep_view() == filter_of(
                Some(label),
                found,
            ),
            None => is_read_failure(r, bytes, "expected an array of subscriptions"@),
        },
        Err(message) => is_transport_failure(r, message),
    }
}

/// Whether `r` is a filter for `category` that `feedly` may give: without
/// a category the filter that keeps everything; with one, what is made of
/// an answer of its transport to the request for subscriptions.
pub open spec fn filters<T: HttpMockableClient>(
    feedly: FeedlyInternal<T>,
    category: Option<Seq<char>>,
    r: Result<CategoryFilter, FdownError>,
) -> bool {
    match category {
        None => r matches Ok(filter) && filter.deep_view() == CategoryFilterView::Everything,
        Some(label) => exists|answer: Result<Seq<u8>, Seq<char>>|
            #[trigger] feedly.client.answers(subscriptions_request_of(feedly.token@), answer)
                && filter_outcome(answer, label, r),
    }
}

/// The filter for `category`: without one, the filter that keeps
/// everything, and no request is made. With one, what is made of the
/// transport's answer to the request for subscriptions.
pub fn filter_for_category<T: HttpMockableClient>(
    category: Option<&str>,
    feedly: &FeedlyInternal<T>,
) -> (r: Result<CategoryFilter, FdownError>)
    ensures
        filters(*feedly, category.deep_view(), r),
{
    match category {
        None => Ok(CategoryFilter::Everything),
        Some(label) => match feedly.subscriptions() {
            Err(e) => Err(e),
            Ok(subscriptions) => Ok(CategoryFilter::for_category(&subscriptions, label)),
        },
    }
}

/// Whether `r` is what is made of `answer` to a request for details when
/// `filter` is applied: the ones that it keeps of the entries that its
/// bytes hold; else the failure to read them, or the transport's.
pub open spec fn kept_outcome(
    filter: CategoryFilterView,
    answer: Result<Seq<u8>, Seq<char>>,
    r: Result<Vec<EntryDetail>, FdownError>,
) -> bool {
    match answer {
        Ok(bytes) => match entries_in(bytes) {
            Some(found) => r matches Ok(kept) && kept.deep_view() == filter.kept(found),
            None => is_read_failure(r, bytes, "expected an array of entries"@),
        },
        Err(message) => is_transport_failure(r, message),
    }
}

/// Whether `r` is what is made of `answer` to the request for `count` ids
/// when the entries that `filter` keeps are asked for: where its bytes hold
/// ids, what is made of an answer of the transport to the request for their
/// details; else the failure to read them, or the transport's.
pub open spec fn fetch_outcome<T: HttpMockableClient>(
    feedly: FeedlyInternal<T>,
    filter: CategoryFilterView,
    count: nat,
    answer: Result<Seq<u8>, Seq<char>>,
    r: Result<Vec<EntryDetail>, FdownError>,
) -> bool {
    match answer {
        Ok(bytes) => match ids_in(bytes, count) {
            Some(ids) => exists|second: Result<Seq<u8>, Seq<char>>|
                #[trigger] feedly.client.answers(details_request(ids), second) && kept_outcome(
                    filter,
                    second,
                    r,
                ),
            None => is_read_failure(r, bytes, "expected an object with an array of ids"@),
        },
        Err(message) => is_transport_failure(r, message),
    }
}

/// Whether `r` is a list of kept entries that `feedly` may give: what is
/// made of the answers of its transport, first to the request for `count`
/// ids, then to the request for the details of the ids that came.
pub open spec fn fetches<T: HttpMockableClient>(
    feedly: FeedlyInternal<T>,
    filter: CategoryFilterView,
    count: nat,
    r: Result<Vec<EntryDetail>, FdownError>,
) -> bool {
    exists|first: Result<Seq<u8>, Seq<char>>|
        #[trigger] feedly.client.answers(
            ids_request(feedly.userid@, feedly.token@, count),
            first,
        ) && fetch_outcome(feedly, filter, count, first, r)
}

/// The saved entries that `filter_func` keeps, of at most `count` that are
/// asked for, in the order in which the service lists their details: what
/// is made of the transport's answers to the request for the ids and to
/// the request for their details.
pub fn get_entries<T: HttpMockableClient>(
    filter_func: &CategoryFilter,
    count: usize,
    feedly: &FeedlyInternal<T>,
) -> (r: Result<Vec<EntryDetail>, FdownError>)
    ensures
        fetches(*feedly, filter_func.deep_view(), count as nat, r),
{
    let ids = match feedly.saved_entry_ids(count) {
        Ok(ids) => ids,
        Err(e) => {
            return Err(e);
        },
    };
    match feedly.detail_for_entries(ids) {
        Err(e) => Err(e),
        Ok(entries) => Ok(keep_matching(entries, filter_func)),
    }
}

/// What a run is asked to do.
#[derive(Debug, Clone, PartialEq, Eq)]
pub struct Options {
    /// List the subscriptions and do nothing else.
    pub list_subs: bool,
    /// Keep only the entries of subscriptions filed under this category.
    pub filter_category: Option<String>,
    /// Take the saved mark off the entries whose image was stored.
    pub should_unsave: bool,
    /// How many saved entries to ask for.
    pub number_of_entries: usize,
}

impl Options {
    /// How many saved entries a run asks for when it is not told.
    pub fn default_number_of_entries() -> (count: usize)
        ensures
            count == 20,
    {
        20
    }
}

/// The image to fetch for `entry`: the largest variant of its image URL.
/// An entry without an image URL fails with `MissingUrl` and its id.
pub fn image_to_fetch(entry: &EntryDetail) -> (r: Result<String, FdownError>)
    ensures
        match image_url_of(entry.deep_view()) {
            Some(url) => r matches Ok(fetch) && fetch@ == filtered(url),
            None => r matches Err(FdownError::MissingUrl(id)) && id@ == entry.id@,
        },
{
    match &entry.visual {
        Some(visual) => match &visual.url {
            Some(url) => Ok(largest_variant(url.as_str())),
            None => Err(FdownError::MissingUrl(entry.id.clone())),
        },
        None => Err(FdownError::MissingUrl(entry.id.clone())),
    }
}

/// A run over the kept entries, in their order. The first `stored` of them
/// have their image stored. The run ends when all are stored, or with the
/// first failure, which `failed` keeps: after it no image is handed out and
/// no saved mark is taken off.
#[derive(Debug)]
pub struct EntryPipeline {
    pub entries: Vec<EntryDetail>,
    pub stored: usize,
    pub should_unsave: bool,
    pub failed: Option<FdownError>,
}

impl EntryPipeline {
    /// How many entries have their image stored: never more than there
    /// are.
    pub open spec fn stored_count(&self) -> int {
        if self.stored <= self.entries.len() {
            self.stored as int
        } else {
            self.entries.len() as int
        }
    }

    /// The entries whose image is stored, in their order.
    pub open spec fn successes(&self) -> Seq<EntryDetailView> {
        self.entries.deep_view().take(self.stored_count())
    }

    /// Whether the run has ended: it failed, or every entry has its image
    /// stored.
    pub open spec fn ended(&self) -> bool {
        self.failed is Some || self.stored_count() == self.entries.len()
    }

    /// Whether `other` is this run but for its failure.
    pub open spec fn same_progress(&self, other: &EntryPipeline) -> bool {
        &&& self.entries == other.entries
        &&& self.stored == other.stored
        &&& self.should_unsave == other.should_unsave
    }

    /// A run over `entries` of which none is stored yet.
    pub fn new(entries: Vec<EntryDetail>, should_unsave: bool) -> (run: EntryPipeline)
        ensures
            run.entries == entries,
            run.stored == 0,
            run.should_unsave == should_unsave,
            run.failed is None,
    {
        EntryPipeline { entries, stored: 0, should_unsave, failed: None }
    }

    /// Whether the run has ended.
    pub fn is_done(&self) -> (done: bool)
        ensures
            done == self.ended(),
    {
        self.failed.is_some() || self.stored >= self.entries.len()
    }

    /// The image to fetch next: that of the first entry that is not stored
    /// yet, or nothing where all are. Where that entry has no image URL the
    /// run fails with `MissingUrl` and the entry's id, though others after
    /// it have one. A run that has failed gives its failure again, and no
    /// image.
    pub fn next_image(&mut self) -> (r: Result<Option<String>, FdownError>)
        ensures
            final(self).same_progress(old(self)),
            match old(self).failed {
                Some(e) => r == Err::<Option<String>, FdownError>(e) && final(self).failed == Some(
                    e,
                ),
                None => if old(self).stored_count() == old(self).entries.len() {
                    r matches Ok(None) && final(self).failed is None
                } else {
                    match image_url_of(old(self).entries.deep_view()[old(self).stored_count()]) {
                        Some(url) => r matches Ok(Some(fetch)) && fetch@ == filtered(url)
                            && final(self).failed is None,
                        None => {
                            &&& r matches Err(FdownError::MissingUrl(id))
                            &&& id@ == old(self).entries.deep_view()[old(self).stored_count()].id
                            &&& final(self).failed == Some(r->Err_0)
                        },
                    }
                },
            },
    {
        match &self.failed {
            Some(e) => {
                return Err(e.duplicate());
            },
            None => {},
        }
        if self.stored >= self.entries.len() {
            Ok(None)
        } else {
            match image_to_fetch(&self.entries[self.stored]) {
                Ok(fetch) => Ok(Some(fetch)),
                Err(e) => {
                    self.failed = Some(e.duplicate());
                    Err(e)
                },
            }
        }
    }

    /// Records that the image of the next entry is stored. Nothing changes
    /// where the run has ended.
    pub fn record_stored(&mut self)
        ensures
            final(self).entries == old(self).entries,
            final(self).should_unsave == old(self).should_unsave,
            final(self).failed == old(self).failed,
            final(self).stored_count() == if old(self).ended() {
                old(self).stored_count()
            } else {
                old(self).stored_count() + 1
            },
    {
        if self.failed.is_none() && self.stored < self.entries.len() {
            self.stored = self.stored + 1;
        }
    }

    /// Records that the next entry failed with `error`: the run has failed
    /// with it, unless it has failed before; then the first failure stays.
    pub fn record_failed(&mut self, error: FdownError)
        ensures
            final(self).same_progress(old(self)),
            final(self).failed == match old(self).failed {
                Some(first) => Some(first),
                None => Some(error),
            },
    {
        if self.failed.is_none() {
            self.failed = Some(error);
        }
    }

    /// The entries whose image is stored.
    pub fn stored_entries(&self) -> (batch: Vec<&EntryDetail>)
        ensures
            batch.deep_view() == self.successes(),
    {
        let end = if self.stored <= self.entries.len() {
            self.stored
        } else {
            self.entries.len()
        };
        let mut batch: Vec<&EntryDetail> = Vec::new();
        let mut i: usize = 0;
        while i < end
            invariant
                i <= end == self.stored_count(),
                end <= self.entries.len(),
                batch.len() == i,
                forall|k: int| 0 <= k < i ==> *batch@[k] == self.entries@[k],
            decreases end - i,
        {
            batch.push(&self.entries[i]);
            i += 1;
        }
        assert(batch.deep_view() =~= self.successes());
        batch
    }

    /// Ends the run. A run that has failed returns its failure, and nothing
    /// is sent. Otherwise, where it was asked for, the saved mark is taken
    /// off the entries whose image is stored, all in one request; where it
    /// was not, nothing is sent and the run succeeds.
    pub fn finish<T: HttpMockableClient>(&self, feedly: &FeedlyInternal<T>) -> (r: Result<
        (),
        FdownError,
    >)
        ensures
            self.failed matches Some(e) ==> r == Err::<(), FdownError>(e),
            self.failed is None && !self.should_unsave ==> r is Ok,
            self.failed is None && self.should_unsave ==> match unsave_bytes(self.successes()) {
                Some(bytes) => exists|answer: Result<Seq<u8>, Seq<char>>|
                    #[trigger] feedly.client.answers(marker_request(feedly.token@, bytes), answer)
                        && marker_outcome(answer, r),
                None => r matches Err(e) && e is SerdeJson,
            },
    {
        match &self.failed {
            Some(e) => {
                return Err(e.duplicate());
            },
            None => {},
        }
        if self.should_unsave {
            let batch = self.stored_entries();
            feedly.unsave_entries(&batch)
        } else {
            Ok(())
        }
    }
}

/// How a run begins.
#[derive(Debug)]
pub enum Started {
    /// The lines that list the subscriptions; there is nothing more to do.
    Listing(Vec<String>),
    /// The entries to go through.
    Processing(EntryPipeline),
}

/// Whether `r` is how a run over `feedly` may begin. Asked to list the
/// subscriptions: a listing that `feedly` may give, or its failure.
/// Otherwise: a filter that it may give for the category, then the entries
/// that it may give under that filter, as a run of which nothing is stored
/// yet; or the first failure on the way.
pub open spec fn begins<T: HttpMockableClient>(
    feedly: FeedlyInternal<T>,
    options: Options,
    r: Result<Started, FdownError>,
) -> bool {
    if options.list_subs {
        exists|lines: Result<Vec<String>, FdownError>|
            #[trigger] lists(feedly, lines) && match lines {
                Ok(found) => r matches Ok(Started::Listing(given)) && given == found,
                Err(e) => r matches Err(given) && given == e,
            }
    } else {
        exists|filter: Result<CategoryFilter, FdownError>|
            #[trigger] filters(feedly, options.filter_category.deep_view(), filter)
                && match filter {
                Ok(chosen) => begins_with(feedly, chosen.deep_view(), options, r),
                Err(e) => r matches Err(given) && given == e,
            }
    }
}

/// Whether `r` is how a run over `feedly` may begin once its filter is
/// `filter`: the entries that `feedly` may give under it, as a run of which
/// nothing is stored yet; or the failure to get them.
pub open spec fn begins_with<T: HttpMockableClient>(
    feedly: FeedlyInternal<T>,
    filter: CategoryFilterView,
    options: Options,
    r: Result<Started, FdownError>,
) -> bool {
    exists|entries: Result<Vec<EntryDetail>, FdownError>|
        #[trigger] fetches(feedly, filter, options.number_of_entries as nat, entries)
            && match entries {
            Ok(kept) => {
                &&& r matches Ok(Started::Processing(run))
                &&& run.entries == kept
                &&& run.stored == 0
                &&& run.should_unsave == options.should_unsave
                &&& run.failed is None
            },
            Err(e) => r matches Err(given) && given == e,
        }
}

/// Begins a run. Asked to list the subscriptions, it returns their lines.
/// Otherwise it builds the filter, asks for the saved entries and returns
/// the run over those that the filter keeps, none of them stored yet. It
/// fails with the first failure on the way.
pub fn start<T: HttpMockableClient>(options: &Options, feedly: &FeedlyInternal<T>) -> (r: Result<
    Started,
    FdownError,
>)
    ensures
        begins(*feedly, *options, r),
{
    if options.list_subs {
        let lines = list_subs(feedly);
        let ghost given = lines;
        let r = match lines {
            Ok(found) => Ok(Started::Listing(found)),
            Err(e) => Err(e),
        };
        assert(lists(*feedly, given));
        return r;
    }
    let category = match &options.filter_category {
        Some(label) => Some(label.as_str()),
        None => None,
    };
    assert(category.deep_view() == options.filter_category.deep_view());
    let filter = filter_for_category(category, feedly);
    let ghost filter_given = filter;
    assert(filters(*feedly, options.filter_category.deep_view(), filter_given));
    let chosen = match filter {
        Ok(chosen) => chosen,
        Err(e) => {
            return Err(e);
        },
    };
    let entries = get_entries(&chosen, options.number_of_entries, feedly);
    let ghost entries_given = entries;
    let r = match entries {
        Ok(kept) => Ok(Started::Processing(EntryPipeline::new(kept, options.should_unsave))),
        Err(e) => Err(e),
    };
    assert(fetches(*feedly, chosen.deep_view(), options.number_of_entries as nat, entries_given));
    assert(begins_with(*feedly, chosen.deep_view(), *options, r));
    r
}

} // verus!
