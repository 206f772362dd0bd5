//! Walking the pages of one answer of the alerting service.
//!
//! A [`Paginator`] says which page to ask for next and looks at each page as
//! it arrives. It never talks to the service itself: the caller sends
//! [`Paginator::request`], shows the answer to [`Paginator::accept`], and
//! waits where [`Progress::NextPage`] asks for it. The records of the pages
//! are the caller's to collect.

use crate::alert::{AlertRecord, RecordView};
use vstd::prelude::*;
use vstd::string::StringExecFns;

verus! {

/// Seconds to let pass between two page requests, so that the service's rate
/// limit is kept.
pub const RATE_LIMIT_DELAY_SECS: u64 = 1;

/// The field by which every page request asks the service to sort.
pub open spec fn sort_field() -> Seq<char> {
    "created_at"@
}

/// The direction in which every page request asks the service to sort.
pub open spec fn sort_order() -> Seq<char> {
    "asc"@
}

/// One list request to the alerting service.
#[derive(Clone, Debug, PartialEq, Eq)]
pub struct PageRequest {
    /// The search query, in the service's query language.
    pub query: String,
    /// How many records of the answer to skip.
    pub offset: i32,
    /// How many records to return at most.
    pub limit: i32,
    /// The field to sort by.
    pub sort: String,
    /// The direction to sort in.
    pub order: String,
}

/// What a [`PageRequest`] holds.
pub struct PageRequestView {
    pub query: Seq<char>,
    pub offset: int,
    pub limit: int,
    pub sort: Seq<char>,
    pub order: Seq<char>,
}

impl View for PageRequest {
    type V = PageRequestView;

    open spec fn view(&self) -> PageRequestView {
        PageRequestView {
            query: self.query@,
            offset: self.offset as int,
            limit: self.limit as int,
            sort: self.sort@,
            order: self.order@,
        }
    }
}

/// One page of the service's answer. An answer that could not be read as a
/// list of alerts is a page without data and without a successor.
#[derive(Clone, Debug, PartialEq, Eq)]
pub struct Page {
    /// The records of this page, if the answer held any list at all.
    pub data: Option<Vec<AlertRecord>>,
    /// Whether the answer names a page that follows this one.
    pub has_next: bool,
}

/// What a [`Page`] holds.
pub struct PageView {
    pub data: Option<Seq<RecordView>>,
    pub has_next: bool,
}

impl View for Page {
    type V = PageView;

    open spec fn view(&self) -> PageView {
        PageView { data: self.data.deep_view(), has_next: self.has_next }
    }
}

impl PageView {
    /// The records that the page contributes: its data, or nothing.
    pub open spec fn records(self) -> Seq<RecordView> {
        match self.data {
            Some(records) => records,
            None => Seq::empty(),
        }
    }

    /// Whether another page is to be asked for after this one: the page names
    /// a successor and has itself yielded at least one record.
    pub open spec fn continues(self) -> bool {
        self.has_next && self.records().len() > 0
    }
}

impl Page {
    /// The page that stands for an answer which could not be read as a list of
    /// alerts: no data, no successor. It ends a retrieval like any last page.
    pub fn unreadable() -> (page: Page)
        ensures
            page@ == (PageView { data: None, has_next: false }),
            !page@.continues(),
    {
        Page { data: None, has_next: false }
    }

    /// The records that the page contributes: its data, or nothing.
    pub fn into_records(self) -> (records: Vec<AlertRecord>)
        ensures
            records.deep_view() == self@.records(),
    {
        match self.data {
            Some(records) => records,
            None => {
                let records: Vec<AlertRecord> = Vec::new();
                assert(records.deep_view() =~= Seq::<RecordView>::empty());
                records
            },
        }
    }
}

/// What is to happen after a page has been looked at.
#[derive(Clone, Copy, Debug, PartialEq, Eq, Structural)]
pub enum Progress {
    /// Wait [`RATE_LIMIT_DELAY_SECS`], then send the paginator's next request.
    NextPage,
    /// The answer is complete.
    Finished,
    /// A further page follows, but its offset no longer fits the request's
    /// 32-bit field. The retrieval cannot go on.
    OffsetOutOfRange,
}

/// The state of one retrieval: the query, the page size, and the offset of
/// the page that is due.
pub struct Paginator {
    query: String,
    limit: u8,
    offset: i32,
}

/// What a [`Paginator`] holds.
pub struct PaginatorView {
    pub query: Seq<char>,
    pub limit: int,
    pub offset: int,
}

impl PaginatorView {
    /// The state in which a retrieval begins.
    pub open spec fn start(query: Seq<char>, limit: int) -> PaginatorView {
        PaginatorView { query, limit, offset: 0 }
    }

    /// The request for the page that is due.
    pub open spec fn request(self) -> PageRequestView {
        PageRequestView {
            query: self.query,
            offset: self.offset,
            limit: self.limit,
            sort: sort_field(),
            order: sort_order(),
        }
    }

    /// What is to happen after `page`.
    pub open spec fn progress(self, page: PageView) -> Progress {
        if !page.continues() {
            Progress::Finished
        } else if self.offset + self.limit <= i32::MAX {
            Progress::NextPage
        } else {
            Progress::OffsetOutOfRange
        }
    }

    /// The state after `page`: the offset moves on by one page size exactly
    /// when another page is to be asked for.
    pub open spec fn accept(self, page: PageView) -> PaginatorView {
        PaginatorView {
            query: self.query,
            limit: self.limit,
            offset: if self.progress(page) == Progress::NextPage {
                self.offset + self.limit
            } else {
                self.offset
            },
        }
    }
}

impl PaginatorView {
    /// The state after the pages `pages`, looked at in their order.
    pub open spec fn accept_all(self, pages: Seq<PageView>) -> PaginatorView
        decreases pages.len(),
    {
        if pages.len() == 0 {
            self
        } else {
            self.accept_all(pages.drop_last()).accept(pages.last())
        }
    }
}

/// As long as every page asks for another, the requests walk the answer in
/// steps of one page size: after `n` pages the request that is due has the
/// query and the page size of the first one and lies `n` page sizes further
/// on. A retrieval of `n + 1` pages so makes `n + 1` requests, at the offsets
/// `0`, `limit`, and so on, with `n` delays between them.
pub proof fn lemma_offsets_advance_by_page_size(first: PaginatorView, pages: Seq<PageView>)
    requires
        0 <= first.limit,
        first.offset + pages.len() * first.limit <= i32::MAX,
        forall|i: int| 0 <= i < pages.len() ==> (#[trigger] pages[i]).continues(),
    ensures
        first.accept_all(pages) == (PaginatorView {
            offset: first.offset + pages.len() * first.limit,
            ..first
        }),
        forall|i: int|
            0 <= i < pages.len() ==> first.accept_all(pages.take(i)).progress(#[trigger] pages[i])
                == Progress::NextPage,
    decreases pages.len(),
{
    if pages.len() > 0 {
        let n = pages.len() as int;
        let earlier = pages.drop_last();
        assert((n - 1) * first.limit + first.limit == n * first.limit) by (nonlinear_arith);
        assert(0 <= (n - 1) * first.limit) by (nonlinear_arith)
            requires
                0 <= first.limit,
                n >= 1,
        ;
        lemma_offsets_advance_by_page_size(first, earlier);
        assert forall|i: int| 0 <= i < pages.len() implies first.accept_all(
            pages.take(i),
        ).progress(#[trigger] pages[i]) == Progress::NextPage by {
            if i < n - 1 {
                assert(pages.take(i) =~= earlier.take(i));
                assert(earlier[i] == pages[i]);
            } else {
                assert(pages.take(i) =~= earlier);
            }
        }
    }
}

/// A page that names no successor, or holds no record, ends the retrieval
/// wherever it stands, and leaves the offset where it was.
pub proof fn lemma_last_page_finishes(at: PaginatorView, page: PageView)
    requires
        !page.has_next || page.records().len() == 0,
    ensures
        at.progress(page) == Progress::Finished,
        at.accept(page) == at,
{
}

impl View for Paginator {
    type V = PaginatorView;

    closed spec fn view(&self) -> PaginatorView {
        PaginatorView {
            query: self.query@,
            limit: self.limit as int,
            offset: self.offset as int,
        }
    }
}

impl Paginator {
    #[verifier::type_invariant]
    spec fn offset_not_negative(&self) -> bool {
        self.offset >= 0
    }

    /// Begins a retrieval with the given query and page size, at offset 0.
    pub fn new(query: String, limit: u8) -> (p: Paginator)
        ensures
            p@ == PaginatorView::start(query@, limit as int),
    {
        Paginator { query, limit, offset: 0 }
    }

    /// The request for the page that is due: the retrieval's query and page
    /// size at the current offset, sorted by creation time in ascending order.
    pub fn request(&self) -> (r: PageRequest)
        ensures
            r@ == self@.request(),
            r@.offset >= 0,
    {
        proof {
            use_type_invariant(self);
        }
        PageRequest {
            query: self.query.clone(),
            offset: self.offset,
            limit: self.limit as i32,
            sort: String::from_str("created_at"),
            order: String::from_str("asc"),
        }
    }

    /// Looks at the page that answers the request last handed out.
    ///
    /// Another page is due exactly if this one names a successor and holds at
    /// least one record; the offset then advances by the page size.
    pub fn accept(&mut self, page: &Page) -> (progress: Progress)
        ensures
            final(self)@ == old(self)@.accept(page@),
            progress == old(self)@.progress(page@),
    {
        proof {
            use_type_invariant(&*self);
        }
        let yielded = match &page.data {
            Some(records) => {
                assert(page@.records().len() == records.len());
                records.len() > 0
            },
            None => false,
        };
        if page.has_next && yielded {
            match self.offset.checked_add(self.limit as i32) {
                Some(next) => {
                    self.offset = next;
                    Progress::NextPage
                },
                None => Progress::OffsetOutOfRange,
            }
        } else {
            Progress::Finished
        }
    }
}

} // verus!
