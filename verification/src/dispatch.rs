//! Which newly observed alerts are worth a notification, and how urgent each
//! one is.

use crate::alert::{Alert, AlertView};
use crate::store::AlertStore;
use vstd::prelude::*;
use vstd::string::StringExecFns;

verus! {

/// How pressing a notification is.
#[derive(Clone, Copy, Debug, PartialEq, Eq, Hash, Structural)]
pub enum Urgency {
    Low,
    Normal,
    Critical,
}

/// The urgency that belongs to a priority: `P1` and `P2` are critical, `P3`
/// and `P4` normal, and everything else, a missing priority included, is low.
pub open spec fn urgency_of(priority: Option<Seq<char>>) -> Urgency {
    match priority {
        Some(p) => {
            if p =~= seq!['P', '1'] || p =~= seq!['P', '2'] {
                Urgency::Critical
            } else if p =~= seq!['P', '3'] || p =~= seq!['P', '4'] {
                Urgency::Normal
            } else {
                Urgency::Low
            }
        },
        None => Urgency::Low,
    }
}

/// Whether an alert passes the filter for notifications: it is known not to
/// be acknowledged, and its status is `open`.
pub open spec fn qualifies(alert: AlertView) -> bool {
    alert.acknowledged == Some(false) && alert.status == Some(seq!['o', 'p', 'e', 'n'])
}

/// What is to be done about one newly observed alert.
#[derive(Clone, Debug, PartialEq, Eq)]
pub enum Decision {
    /// Nothing, and nothing is to be said about it: the alert does not pass
    /// the filter, or the identity is not in the store.
    Skip,
    /// Nothing, but it deserves a warning: the alert passes the filter and has
    /// no message to show.
    Malformed,
    /// Show `summary` with `urgency`.
    Notify { summary: String, urgency: Urgency },
}

/// What a [`Decision`] holds.
pub enum DecisionView {
    Skip,
    Malformed,
    Notify { summary: Seq<char>, urgency: Urgency },
}

impl View for Decision {
    type V = DecisionView;

    open spec fn view(&self) -> DecisionView {
        match self {
            Decision::Skip => DecisionView::Skip,
            Decision::Malformed => DecisionView::Malformed,
            Decision::Notify { summary, urgency } => DecisionView::Notify {
                summary: summary@,
                urgency: *urgency,
            },
        }
    }
}

/// The decision about an alert: skip it unless it qualifies; if it does, show
/// its message with the urgency of its priority, or report it as malformed
/// where it has no message.
pub open spec fn decision_for(alert: AlertView) -> DecisionView {
    if !qualifies(alert) {
        DecisionView::Skip
    } else {
        match alert.message {
            Some(summary) => DecisionView::Notify { summary, urgency: urgency_of(alert.priority) },
            None => DecisionView::Malformed,
        }
    }
}

/// The decision about an identity, given the alert that the store holds for
/// it, if any.
pub open spec fn decision_about(known: Option<AlertView>) -> DecisionView {
    match known {
        Some(alert) => decision_for(alert),
        None => DecisionView::Skip,
    }
}

/// The decision about one newly observed identity.
#[derive(Clone, Debug, PartialEq, Eq)]
pub struct Dispatch {
    pub id: String,
    pub decision: Decision,
}

/// What a [`Dispatch`] holds.
pub struct DispatchView {
    pub id: Seq<char>,
    pub decision: DecisionView,
}

impl View for Dispatch {
    type V = DispatchView;

    open spec fn view(&self) -> DispatchView {
        DispatchView { id: self.id@, decision: self.decision@ }
    }
}

impl DeepView for Dispatch {
    type V = DispatchView;

    open spec fn deep_view(&self) -> DispatchView {
        self.view()
    }
}

/// The decision about the identity `id`, given what the store holds.
pub open spec fn dispatch_for(known: Map<Seq<char>, AlertView>, id: Seq<char>) -> DispatchView {
    DispatchView {
        id,
        decision: decision_about(
            if known.contains_key(id) {
                Some(known[id])
            } else {
                None
            },
        ),
    }
}

/// The decisions about the identities `ids`, one for each and in their order.
pub open spec fn dispatches_for(known: Map<Seq<char>, AlertView>, ids: Seq<Seq<char>>) -> Seq<
    DispatchView,
> {
    ids.map_values(|id: Seq<char>| dispatch_for(known, id))
}

/// An acknowledged alert is never notified of, nor one whose status is
/// anything but `open`, `closed` among them; nor one of which either is not
/// known. Priority and message do not matter.
pub proof fn lemma_filtered_alerts_are_skipped(alert: AlertView)
    requires
        alert.acknowledged != Some(false) || alert.status != Some(seq!['o', 'p', 'e', 'n']),
    ensures
        decision_for(alert) == DecisionView::Skip,
{
}

/// A notification is decided on exactly for an unacknowledged open alert that
/// has a message; it then carries that message and the urgency of the alert's
/// priority.
pub proof fn lemma_notified_alerts(alert: AlertView)
    ensures
        decision_for(alert) is Notify <==> (alert.acknowledged == Some(false) && alert.status
            == Some(seq!['o', 'p', 'e', 'n']) && alert.message is Some),
        decision_for(alert) is Notify ==> decision_for(alert) == (DecisionView::Notify {
            summary: alert.message->0,
            urgency: urgency_of(alert.priority),
        }),
{
}

/// The urgency is critical for `P1` and `P2` only, and normal for `P3` and
/// `P4` only.
pub proof fn lemma_urgency_classes(priority: Option<Seq<char>>)
    ensures
        urgency_of(priority) == Urgency::Critical <==> (priority == Some(seq!['P', '1'])
            || priority == Some(seq!['P', '2'])),
        urgency_of(priority) == Urgency::Normal <==> (priority == Some(seq!['P', '3']) || priority
            == Some(seq!['P', '4'])),
        urgency_of(priority) == Urgency::Low <==> !(priority == Some(seq!['P', '1']) || priority
            == Some(seq!['P', '2']) || priority == Some(seq!['P', '3']) || priority == Some(
            seq!['P', '4'],
        )),
{
    assert(seq!['P', '1'] != seq!['P', '3']) by {
        assert(seq!['P', '1'][1] != seq!['P', '3'][1]);
    }
    assert(seq!['P', '1'] != seq!['P', '4']) by {
        assert(seq!['P', '1'][1] != seq!['P', '4'][1]);
    }
    assert(seq!['P', '2'] != seq!['P', '3']) by {
        assert(seq!['P', '2'][1] != seq!['P', '3'][1]);
    }
    assert(seq!['P', '2'] != seq!['P', '4']) by {
        assert(seq!['P', '2'][1] != seq!['P', '4'][1]);
    }
}

fn text_is(text: &String, literal: &str) -> (same: bool)
    ensures
        same == (text@ == literal@),
{
    let other = String::from_str(literal);
    *text == other
}

/// The urgency that belongs to `priority`.
pub fn urgency_for(priority: &Option<String>) -> (urgency: Urgency)
    ensures
        urgency == urgency_of(priority.deep_view()),
{
    proof {
        reveal_strlit("P1");
        reveal_strlit("P2");
        reveal_strlit("P3");
        reveal_strlit("P4");
        assert("P1"@ =~= seq!['P', '1']);
        assert("P2"@ =~= seq!['P', '2']);
        assert("P3"@ =~= seq!['P', '3']);
        assert("P4"@ =~= seq!['P', '4']);
    }
    match priority {
        Some(p) => {
            if text_is(p, "P1") || text_is(p, "P2") {
                Urgency::Critical
            } else if text_is(p, "P3") || text_is(p, "P4") {
                Urgency::Normal
            } else {
                Urgency::Low
            }
        },
        None => Urgency::Low,
    }
}

impl Alert {
    /// Whether the alert passes the filter for notifications.
    pub fn qualifies(&self) -> (passes: bool)
        ensures
            passes == qualifies(self@),
    {
        proof {
            reveal_strlit("open");
            assert("open"@ =~= seq!['o', 'p', 'e', 'n']);
        }
        let unacknowledged = match self.acknowledged {
            Some(acknowledged) => !acknowledged,
            None => false,
        };
        let open = match &self.status {
            Some(status) => text_is(status, "open"),
            None => false,
        };
        unacknowledged && open
    }

    /// The decision about this alert as a newly observed one.
    pub fn decision(&self) -> (decision: Decision)
        ensures
            decision@ == decision_for(self@),
    {
        if !self.qualifies() {
            Decision::Skip
        } else {
            match &self.message {
                Some(message) => Decision::Notify {
                    summary: message.clone(),
                    urgency: urgency_for(&self.priority),
                },
                None => Decision::Malformed,
            }
        }
    }
}

/// Decides about each of the newly observed identities `ids`, by the alert
/// that `store` holds for it now. A failure to deliver one notification is the
/// caller's to log; it never changes what is decided about the others.
pub fn decide_all(store: &AlertStore, ids: Vec<String>) -> (dispatches: Vec<Dispatch>)
    ensures
        dispatches.deep_view() == dispatches_for(store@, ids.deep_view()),
{
    let ghost items = ids@;
    let ghost names = ids.deep_view();
    let mut dispatches: Vec<Dispatch> = Vec::new();
    assert(dispatches.deep_view() =~= dispatches_for(store@, names.take(0)));
    for id in iter: ids
        invariant
            iter.seq() == items,
            names.len() == items.len(),
            forall|i: int| 0 <= i < items.len() ==> names[i] == (#[trigger] items[i])@,
            dispatches.deep_view() == dispatches_for(store@, names.take(iter.index())),
    {
        let ghost done = iter.index();
        let ghost decided = dispatches.deep_view();
        assert(id == items[done]);
        let decision = match store.get(&id) {
            Some(alert) => alert.decision(),
            None => Decision::Skip,
        };
        dispatches.push(Dispatch { id, decision });
        assert(dispatches.deep_view() =~= decided.push(dispatch_for(store@, names[done])));
        assert(dispatches.deep_view() =~= dispatches_for(store@, names.take(done + 1)));
    }
    assert(names.take(names.len() as int) =~= names);
    dispatches
}

} // verus!
