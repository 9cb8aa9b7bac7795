//! Fan-out of import notifications. Each subscriber owns a cursor into the
//! store's commit-ordered notification log and is handed notifications
//! strictly in that order: per-subscriber FIFO delivery matching the order
//! commits succeeded, independent of every other subscriber.

use crate::outcome::{ImportNotification, NotificationView};
use crate::store::ChainStore;
use vstd::prelude::*;

verus! {

/// A subscriber to the import-notification stream: the log index where its
/// subscription began, the cursor of the next undelivered notification, and
/// the ghost record of everything delivered so far.
pub struct NotificationSubscriber {
    pub start: usize,
    pub cursor: usize,
    pub delivered: Ghost<Seq<NotificationView>>,
}

impl NotificationSubscriber {
    /// The subscriber is consistent with a store: its cursor lies within the
    /// log, and what was delivered is exactly the log between subscription
    /// point and cursor.
    pub open spec fn wf(self, s: ChainStore) -> bool {
        &&& self.start <= self.cursor <= s.notes().len()
        &&& self.delivered@ == s.notes().subrange(self.start as int, self.cursor as int)
    }

    /// Subscribes to the stream: delivery starts with the next commit.
    pub fn subscribe(store: &ChainStore) -> (r: NotificationSubscriber)
        ensures
            r.wf(*store),
            r.start == store.notes().len(),
            r.cursor == r.start,
            r.delivered@ == Seq::<NotificationView>::empty(),
    {
        let at = store.notifications.len();
        let r = NotificationSubscriber { start: at, cursor: at, delivered: Ghost(Seq::empty()) };
        proof {
            assert(store.notes().subrange(at as int, at as int) =~= Seq::<
                NotificationView,
            >::empty());
        }
        r
    }

    /// Hands out the next undelivered notification, in commit order, or
    /// nothing when the subscriber has caught up.
    pub fn poll(&mut self, store: &ChainStore) -> (r: Option<ImportNotification>)
        requires
            old(self).wf(*store),
        ensures
            final(self).wf(*store),
            final(self).start == old(self).start,
            match r {
                Some(n) => {
                    &&& old(self).cursor < store.notes().len()
                    &&& n@ == store.notes()[old(self).cursor as int]
                    &&& final(self).cursor == old(self).cursor + 1
                    &&& final(self).delivered@ == old(self).delivered@.push(n@)
                },
                None => {
                    &&& old(self).cursor == store.notes().len()
                    &&& *final(self) == *old(self)
                },
            },
    {
        if self.cursor < store.notifications.len() {
            let n = store.notifications[self.cursor].clone();
            proof {
                self.delivered@ = self.delivered@.push(n@);
                assert(store.notes().subrange(self.start as int, self.cursor + 1)
                    =~= store.notes().subrange(self.start as int, self.cursor as int).push(
                    store.notes()[self.cursor as int],
                ));
            }
            self.cursor = self.cursor + 1;
            Some(n)
        } else {
            None
        }
    }

    /// A subscriber stays consistent while the log only grows: commits
    /// append, so nothing already delivered changes.
    pub proof fn lemma_wf_preserved_by_append(self, s0: ChainStore, s1: ChainStore)
        requires
            self.wf(s0),
            s0.notes().len() <= s1.notes().len(),
            s1.notes().subrange(0, s0.notes().len() as int) == s0.notes(),
        ensures
            self.wf(s1),
    {
        assert(s1.notes().subrange(self.start as int, self.cursor as int) =~= s0.notes().subrange(
            self.start as int,
            self.cursor as int,
        )) by {
            assert forall|k: int|
                0 <= k < self.cursor - self.start implies s1.notes().subrange(
                self.start as int,
                self.cursor as int,
            )[k] == s0.notes().subrange(self.start as int, self.cursor as int)[k] by {
                assert(s0.notes()[self.start + k] == s0.notes().subrange(
                    0,
                    s0.notes().len() as int,
                )[self.start + k]);
                assert(s1.notes().subrange(0, s0.notes().len() as int)[self.start + k]
                    == s1.notes()[self.start + k]);
            }
        }
    }
}

/// Per-subscriber FIFO: everything a subscriber has been handed is exactly
/// the commit-ordered notification log from its subscription point up to its
/// cursor — the order of delivery to any single subscriber equals the order
/// in which commits succeeded.
pub proof fn lemma_delivery_order_matches_commit_order(
    sub: NotificationSubscriber,
    s: ChainStore,
)
    requires
        sub.wf(s),
    ensures
        sub.delivered@ == s.notes().subrange(sub.start as int, sub.cursor as int),
        forall|k: int|
            0 <= k < sub.delivered@.len() ==> sub.delivered@[k] == s.notes()[sub.start + k],
{
}

} // verus!
