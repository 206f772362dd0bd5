//! The alert record that the engine keeps for each remote alert.

use crate::time::Timestamp;
use vstd::prelude::*;

verus! {

/// One remote alert as last retrieved. Every field may be missing in what the
/// service sends.
#[derive(Clone, Debug, PartialEq, Eq, Hash)]
pub struct Alert {
    /// Short identifier, for display only.
    pub tiny_id: Option<String>,
    /// Client-chosen alias, for display only.
    pub alias: Option<String>,
    /// The alert's text, which becomes the notification's summary.
    pub message: Option<String>,
    /// `"open"` or `"closed"`, as far as the service is known to answer.
    pub status: Option<String>,
    pub acknowledged: Option<bool>,
    /// Tags in the order received; neither order nor repetition means anything.
    pub tags: Option<Vec<String>>,
    pub created_at: Option<Timestamp>,
    pub updated_at: Option<Timestamp>,
    /// `"P1"` to `"P5"`; anything else is tolerated.
    pub priority: Option<String>,
}

/// What an [`Alert`] holds, with every text as its sequence of characters.
pub struct AlertView {
    pub tiny_id: Option<Seq<char>>,
    pub alias: Option<Seq<char>>,
    pub message: Option<Seq<char>>,
    pub status: Option<Seq<char>>,
    pub acknowledged: Option<bool>,
    pub tags: Option<Seq<Seq<char>>>,
    pub created_at: Option<Timestamp>,
    pub updated_at: Option<Timestamp>,
    pub priority: Option<Seq<char>>,
}

impl View for Alert {
    type V = AlertView;

    open spec fn view(&self) -> AlertView {
        AlertView {
            tiny_id: self.tiny_id.deep_view(),
            alias: self.alias.deep_view(),
            message: self.message.deep_view(),
            status: self.status.deep_view(),
            acknowledged: self.acknowledged,
            tags: self.tags.deep_view(),
            created_at: self.created_at,
            updated_at: self.updated_at,
            priority: self.priority.deep_view(),
        }
    }
}

impl DeepView for Alert {
    type V = AlertView;

    open spec fn deep_view(&self) -> AlertView {
        self.view()
    }
}

/// An alert together with the identity under which the service lists it.
#[derive(Clone, Debug, PartialEq, Eq, Hash)]
pub struct AlertRecord {
    /// The remote identity: unique, and stable from one retrieval to the next.
    pub id: String,
    pub alert: Alert,
}

/// What an [`AlertRecord`] holds.
pub struct RecordView {
    pub id: Seq<char>,
    pub alert: AlertView,
}

impl View for AlertRecord {
    type V = RecordView;

    open spec fn view(&self) -> RecordView {
        RecordView { id: self.id@, alert: self.alert@ }
    }
}

impl DeepView for AlertRecord {
    type V = RecordView;

    open spec fn deep_view(&self) -> RecordView {
        self.view()
    }
}

/// The identities of a batch of records, in the batch's order.
pub open spec fn ids_of(batch: Seq<RecordView>) -> Seq<Seq<char>> {
    batch.map_values(|r: RecordView| r.id)
}

} // verus!
