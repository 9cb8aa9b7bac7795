//! Coordination surface of the finality gadget: the versioned authority set
//! it owns, the append-only voter state, and the justification log. The
//! voting and signature logic itself is an external collaborator; what is
//! modelled here is how its state is owned, snapshotted and fed.

use crate::outcome::ImportNotification;
use crate::store::ChainStore;
use vstd::prelude::*;

verus! {

/// The versioned, ordered set of validator identities. Owned by the finality
/// gadget; everyone else reads copy-on-read snapshots.
#[derive(Debug)]
pub struct AuthoritySet {
    pub version: u64,
    pub authorities: Vec<u64>,
}

impl AuthoritySet {
    /// Whether the given identity is a current authority.
    pub open spec fn spec_contains(self, who: u64) -> bool {
        self.authorities@.contains(who)
    }

    /// Builds the initial authority set, at version zero.
    pub fn genesis(authorities: Vec<u64>) -> (r: AuthoritySet)
        ensures
            r.version == 0,
            r.authorities@ == authorities@,
    {
        AuthoritySet { version: 0, authorities }
    }

    /// Membership test against the current set.
    pub fn is_authority(&self, who: u64) -> (r: bool)
        ensures
            r == self.spec_contains(who),
    {
        let mut i: usize = 0;
        while i < self.authorities.len()
            invariant
                i <= self.authorities.len(),
                forall|j: int| 0 <= j < i ==> self.authorities@[j] != who,
            decreases self.authorities.len() - i,
        {
            if self.authorities[i] == who {
                return true;
            }
            i = i + 1;
        }
        proof {
            assert(forall|j: int| 0 <= j < self.authorities@.len() ==> self.authorities@[j] != who);
        }
        false
    }

    /// A copy-on-read snapshot: an equal set; the owned set stays untouched.
    pub fn snapshot(&self) -> (r: AuthoritySet)
        ensures
            r.version == self.version,
            r.authorities@ == self.authorities@,
    {
        let mut authorities: Vec<u64> = Vec::new();
        let mut i: usize = 0;
        while i < self.authorities.len()
            invariant
                i <= self.authorities.len(),
                authorities@ =~= self.authorities@.subrange(0, i as int),
            decreases self.authorities.len() - i,
        {
            authorities.push(self.authorities[i]);
            i = i + 1;
        }
        proof {
            assert(authorities@ =~= self.authorities@);
        }
        AuthoritySet { version: self.version, authorities }
    }
}

/// One entry of the voter state: in which round which block was voted for.
#[derive(Clone, Copy, Debug, PartialEq, Eq, Structural)]
pub struct Vote {
    pub round: u64,
    pub target: u64,
}

/// One entry of the justification stream: the round that finalized a block.
#[derive(Clone, Copy, Debug, PartialEq, Eq, Structural)]
pub struct Justification {
    pub round: u64,
    pub target: u64,
}

/// The finality gadget's coordination state: the authority set it owns, the
/// append-only voter log, the justification stream, the local identity (a
/// node outside the authority set runs in observer mode and issues no
/// votes), and the current round.
#[derive(Debug)]
pub struct FinalityGadget {
    pub authority_set: AuthoritySet,
    pub voter_log: Vec<Vote>,
    pub justifications: Vec<Justification>,
    pub local_identity: Option<u64>,
    pub round: u64,
}

impl FinalityGadget {
    /// Whether this node takes part in voting: it has an identity and that
    /// identity is in the authority set. Otherwise it only observes.
    pub open spec fn spec_is_participant(self) -> bool {
        match self.local_identity {
            Some(who) => self.authority_set.spec_contains(who),
            None => false,
        }
    }

    /// Starts the gadget at round zero with empty logs.
    pub fn new(authority_set: AuthoritySet, local_identity: Option<u64>) -> (r: FinalityGadget)
        ensures
            r.authority_set == authority_set,
            r.local_identity == local_identity,
            r.voter_log@ == Seq::<Vote>::empty(),
            r.justifications@ == Seq::<Justification>::empty(),
            r.round == 0,
    {
        FinalityGadget {
            authority_set,
            voter_log: Vec::new(),
            justifications: Vec::new(),
            local_identity,
            round: 0,
        }
    }

    /// Whether this node takes part in voting.
    pub fn is_participant(&self) -> (r: bool)
        ensures
            r == self.spec_is_participant(),
    {
        match self.local_identity {
            Some(who) => self.authority_set.is_authority(who),
            None => false,
        }
    }

    /// Feeds the gadget one import notification, so it only ever votes on
    /// blocks the pipeline admitted. A participant appends a vote for the
    /// notified block and advances the round; an observer appends nothing.
    /// Either way the voter log is append-only.
    pub fn on_notification(&mut self, note: &ImportNotification)
        requires
            old(self).round < u64::MAX,
        ensures
            final(self).authority_set == old(self).authority_set,
            final(self).local_identity == old(self).local_identity,
            final(self).justifications@ == old(self).justifications@,
            old(self).spec_is_participant() ==> {
                &&& final(self).voter_log@ == old(self).voter_log@.push(
                    (Vote { round: old(self).round, target: note.hash }),
                )
                &&& final(self).round == old(self).round + 1
            },
            !old(self).spec_is_participant() ==> {
                &&& final(self).voter_log@ == old(self).voter_log@
                &&& final(self).round == old(self).round
            },
    {
        if self.is_participant() {
            let vote = Vote { round: self.round, target: note.hash };
            self.voter_log.push(vote);
            self.round = self.round + 1;
        }
    }

    /// The read-only voter-state snapshot exposed to RPC: a copy of the
    /// voter log, leaving the gadget's state alone.
    pub fn voter_state_snapshot(&self) -> (r: Vec<Vote>)
        ensures
            r@ == self.voter_log@,
    {
        let mut out: Vec<Vote> = Vec::new();
        let mut i: usize = 0;
        while i < self.voter_log.len()
            invariant
                i <= self.voter_log.len(),
                out@ =~= self.voter_log@.subrange(0, i as int),
            decreases self.voter_log.len() - i,
        {
            out.push(self.voter_log[i]);
            i = i + 1;
        }
        proof {
            assert(out@ =~= self.voter_log@);
        }
        out
    }

    /// Applies a justification: moves the store's finalized head to a
    /// committed descendant of the current finalized head, and records the
    /// justification on the stream. Only the gadget moves that pointer.
    pub fn apply_justification(&mut self, store: &mut ChainStore, target: u64)
        requires
            old(store).wf(),
            old(store).contains_hash(target),
            old(store).spec_number_of(target) >= old(store).spec_number_of(old(store).finalized),
            old(store).spec_walk(
                target,
                (old(store).spec_number_of(target) - old(store).spec_number_of(
                    old(store).finalized,
                )) as nat,
            ) == old(store).finalized,
            old(self).round < u64::MAX,
        ensures
            final(store).wf(),
            final(store).finalized == target,
            final(store).entries() == old(store).entries(),
            final(store).notes() == old(store).notes(),
            final(store).best == old(store).best,
            final(self).justifications@ == old(self).justifications@.push(
                (Justification { round: old(self).round, target }),
            ),
            final(self).voter_log@ == old(self).voter_log@,
            final(self).authority_set == old(self).authority_set,
            final(self).local_identity == old(self).local_identity,
            final(self).round == old(self).round,
    {
        store.finalize(target);
        self.justifications.push(Justification { round: self.round, target });
    }
}

} // verus!
