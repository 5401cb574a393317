//! One run over the entries that a traversal yields.
//!
//! A [`Run`] owns the settings and the set of seen objects from the first
//! entry to the last. The caller walks the given paths as
//! [`Run::traversal`] says, hands in one [`Event`] for each step of the walk,
//! and does what the returned decision asks for before it takes the next
//! step. No event ends a run: after a failure the next event is handled like
//! any other.

use crate::identity::{ObjectIdentity, SeenSet};
use crate::shifter::{
    decide, lemma_dry_run_withholds_mutation, shift_owner, withheld, without_dry_run, Decision,
    Failure, ObjectMeta, ShiftOptions,
};
use vstd::prelude::*;

verus! {

/// Which entries are handled for one given path.
#[derive(Clone, Copy, Debug, PartialEq, Eq, Structural)]
pub enum Traversal {
    /// The path itself and nothing below it. The path is not resolved: where
    /// it names a symbolic link, the link is the entry.
    RootOnly,
    /// The path itself, then everything below it, each directory before its
    /// contents. Symbolic links are entries and are not descended into.
    Descend,
}

/// The traversal that the settings ask for.
pub open spec fn traversal_for(options: ShiftOptions) -> Traversal {
    if options.recurse {
        Traversal::Descend
    } else {
        Traversal::RootOnly
    }
}

/// One step of a traversal, as the caller found it.
#[derive(Clone, Copy, Debug, PartialEq, Eq, Structural)]
pub enum Event {
    /// The walk could not take the step. It goes on with what remains.
    TraversalFailed,
    /// The walk yielded an entry. With it comes the entry's own metadata, or
    /// `None` where that could not be read.
    Entry(Option<ObjectMeta>),
}

/// The identity that an event makes known, if any.
pub open spec fn identity_in(event: Event) -> Option<ObjectIdentity> {
    match event {
        Event::Entry(Some(meta)) => Some(meta.identity()),
        _ => None,
    }
}

/// The identities that a run has seen once it has handled `events`.
pub open spec fn seen_after(events: Seq<Event>) -> Set<ObjectIdentity> {
    Set::new(
        |id: ObjectIdentity|
            exists|i: int| 0 <= i < events.len() && identity_in(#[trigger] events[i]) == Some(id),
    )
}

/// The decision for `event` when the identities in `seen` have been handled
/// before.
pub open spec fn decision_for(event: Event, seen: Set<ObjectIdentity>, options: ShiftOptions) -> Decision {
    match event {
        Event::TraversalFailed => Decision::Reject(Failure::TraversalStep),
        Event::Entry(metadata) => decide(metadata, seen, options),
    }
}

/// The decision that a run with these settings takes for the event at
/// `index` of `events`.
pub open spec fn decision_at(events: Seq<Event>, index: int, options: ShiftOptions) -> Decision {
    decision_for(events[index], seen_after(events.take(index)), options)
}

/// A run: its settings, and what it has seen so far.
pub struct Run {
    options: ShiftOptions,
    seen: SeenSet,
    handled: Ghost<Seq<Event>>,
}

impl Run {
    #[verifier::type_invariant]
    spec fn seen_matches_events(self) -> bool {
        self.seen@ == seen_after(self.handled@)
    }

    /// The settings that the run was started with.
    pub closed spec fn spec_options(&self) -> ShiftOptions {
        self.options
    }

    /// The events that the run has handled, oldest first.
    pub closed spec fn events(&self) -> Seq<Event> {
        self.handled@
    }

    /// Starts a run that has seen nothing.
    pub fn new(options: ShiftOptions) -> (run: Run)
        ensures
            run.options() == options,
            run.events() == Seq::<Event>::empty(),
    {
        let seen = SeenSet::new();
        assert(seen@ =~= seen_after(Seq::<Event>::empty()));
        Run { options, seen, handled: Ghost(Seq::empty()) }
    }

    /// The settings that the run was started with.
    #[verifier::when_used_as_spec(spec_options)]
    pub fn options(&self) -> (options: ShiftOptions)
        ensures
            options == self.options(),
    {
        self.options
    }

    /// How each given path is to be walked: only the path itself unless the
    /// settings ask for recursion, and for every path alike.
    pub fn traversal(&self) -> (traversal: Traversal)
        ensures
            traversal == traversal_for(self.options()),
    {
        if self.options.recurse {
            Traversal::Descend
        } else {
            Traversal::RootOnly
        }
    }

    /// Whether an object with this identity has been met in this run.
    pub fn has_seen(&self, id: ObjectIdentity) -> (seen: bool)
        ensures
            seen == seen_after(self.events()).contains(id),
    {
        proof {
            use_type_invariant(self);
        }
        self.seen.contains(id)
    }

    /// Takes the next event of the run and decides what is to be done for it.
    ///
    /// An entry whose object was met in an earlier event of this run, under
    /// whatever path, is skipped; every other entry is decided as
    /// [`shift_owner`] decides it.
    pub fn handle(&mut self, event: Event) -> (decision: Decision)
        ensures
            final(self).options() == old(self).options(),
            final(self).events() == old(self).events().push(event),
            decision == decision_for(event, seen_after(old(self).events()), old(self).options()),
            decision == decision_at(
                final(self).events(),
                old(self).events().len() as int,
                old(self).options(),
            ),
    {
        proof {
            use_type_invariant(&*self);
        }
        // The run is taken out whole and put back whole, so that it is never
        // left with its set ahead of its events.
        let mut current = Run::new(self.options);
        core::mem::swap(self, &mut current);
        let Run { options, mut seen, handled } = current;
        let decision = match event {
            Event::TraversalFailed => Decision::Reject(Failure::TraversalStep),
            Event::Entry(metadata) => shift_owner(metadata, &mut seen, &options),
        };
        proof {
            lemma_seen_after_push(handled@, event);
            assert(handled@.push(event).take(handled@.len() as int) =~= handled@);
        }
        *self = Run { options, seen, handled: Ghost(handled@.push(event)) };
        decision
    }
}

/// Handling one more event adds the identity it makes known, and nothing else.
pub proof fn lemma_seen_after_push(events: Seq<Event>, event: Event)
    ensures
        identity_in(event) matches Some(id) ==> seen_after(events.push(event)) == seen_after(
            events,
        ).insert(id),
        identity_in(event) is None ==> seen_after(events.push(event)) == seen_after(events),
{
    let longer = events.push(event);
    let expected = match identity_in(event) {
        Some(id) => seen_after(events).insert(id),
        None => seen_after(events),
    };
    assert forall|id: ObjectIdentity| seen_after(longer).contains(id) implies expected.contains(
        id,
    ) by {
        let i = choose|i: int|
            0 <= i < longer.len() && identity_in(#[trigger] longer[i]) == Some(id);
        if i < events.len() {
            assert(identity_in(events[i]) == Some(id));
        }
    }
    assert forall|id: ObjectIdentity| expected.contains(id) implies seen_after(longer).contains(
        id,
    ) by {
        if seen_after(events).contains(id) {
            let i = choose|i: int|
                0 <= i < events.len() && identity_in(#[trigger] events[i]) == Some(id);
            assert(identity_in(longer[i]) == Some(id));
        } else {
            assert(identity_in(longer[events.len() as int]) == Some(id));
        }
    }
    assert(seen_after(longer) =~= expected);
}

/// Whether the run attempts a shift of the object `id` at `index`: the event
/// there is an entry of that object, and the run does not skip it.
pub open spec fn attempts_shift(
    events: Seq<Event>,
    index: int,
    options: ShiftOptions,
    id: ObjectIdentity,
) -> bool {
    &&& 0 <= index < events.len()
    &&& identity_in(events[index]) == Some(id)
    &&& !(decision_at(events, index, options) is Skip)
}

/// The places in `events` at which the run attempts a shift of the object
/// `id`.
pub open spec fn attempts_on(events: Seq<Event>, options: ShiftOptions, id: ObjectIdentity) -> Set<
    int,
> {
    Set::new(|index: int| attempts_shift(events, index, options, id))
}

/// The first place in `events` that makes the object `id` known.
pub proof fn lemma_first_entry_of(events: Seq<Event>, id: ObjectIdentity) -> (first: int)
    requires
        seen_after(events).contains(id),
    ensures
        0 <= first < events.len(),
        identity_in(events[first]) == Some(id),
        !seen_after(events.take(first)).contains(id),
    decreases events.len(),
{
    let found = choose|i: int|
        0 <= i < events.len() && identity_in(#[trigger] events[i]) == Some(id);
    let before = events.take(found);
    if seen_after(before).contains(id) {
        let first = lemma_first_entry_of(before, id);
        assert(before.take(first) =~= events.take(first));
        first
    } else {
        found
    }
}

/// However many of the given paths lead to an object, and however often the
/// walk comes by it, a run attempts to shift it exactly once: at the first
/// entry that makes it known. An object that no entry makes known is never
/// attempted.
pub proof fn lemma_one_attempt_per_object(
    events: Seq<Event>,
    options: ShiftOptions,
    id: ObjectIdentity,
)
    ensures
        attempts_on(events, options, id).finite(),
        seen_after(events).contains(id) ==> attempts_on(events, options, id).len() == 1,
        !seen_after(events).contains(id) ==> attempts_on(events, options, id).len() == 0,
{
    let attempts = attempts_on(events, options, id);
    if seen_after(events).contains(id) {
        let first = lemma_first_entry_of(events, id);
        assert forall|index: int| attempts.contains(index) == (index == first) by {
            if 0 <= index < events.len() && identity_in(events[index]) == Some(id) {
                if index < first {
                    assert(events.take(first)[index] == events[index]);
                } else if index > first {
                    assert(events.take(index)[first] == events[first]);
                }
            }
        }
        assert(attempts =~= set![first]);
    } else {
        assert(attempts =~= Set::<int>::empty());
    }
}

/// An entry is skipped exactly when an earlier event of the same run made its
/// object known.
pub proof fn lemma_skipped_iff_seen_earlier(events: Seq<Event>, index: int, options: ShiftOptions)
    requires
        0 <= index < events.len(),
    ensures
        decision_at(events, index, options) is Skip <==> exists|earlier: int|
            0 <= earlier < index && identity_in(events[index]) is Some && identity_in(
                #[trigger] events[earlier],
            ) == identity_in(events[index]),
{
    let before = events.take(index);
    if decision_at(events, index, options) is Skip {
        let id = identity_in(events[index]).unwrap();
        let earlier = choose|i: int|
            0 <= i < before.len() && identity_in(#[trigger] before[i]) == Some(id);
        assert(identity_in(events[earlier]) == identity_in(events[index]));
    } else if identity_in(events[index]) is Some {
        assert forall|earlier: int| 0 <= earlier < index implies identity_in(
            #[trigger] events[earlier],
        ) != identity_in(events[index]) by {
            assert(before[earlier] == events[earlier]);
        }
    }
}

/// A run asks at most once for a change on disk to any one object: two
/// entries of the same object are never both to be applied.
pub proof fn lemma_at_most_one_mutation_per_object(
    events: Seq<Event>,
    options: ShiftOptions,
    one: int,
    other: int,
)
    requires
        0 <= one < events.len(),
        0 <= other < events.len(),
        identity_in(events[one]) is Some,
        identity_in(events[one]) == identity_in(events[other]),
        decision_at(events, one, options).mutates(),
        decision_at(events, other, options).mutates(),
    ensures
        one == other,
{
    if one < other {
        lemma_skipped_iff_seen_earlier(events, other, options);
    } else if other < one {
        lemma_skipped_iff_seen_earlier(events, one, options);
    }
}

/// A dry run goes the way of the run proper: it takes the same decision for
/// every event, but for the change on disk, which it never asks for. What it
/// has seen after any number of events does not depend on the settings at
/// all.
pub proof fn lemma_dry_run_follows_run_proper(events: Seq<Event>, index: int, options: ShiftOptions)
    requires
        options.dry_run,
        0 <= index < events.len(),
    ensures
        !decision_at(events, index, options).mutates(),
        decision_at(events, index, options) == withheld(
            decision_at(events, index, without_dry_run(options)),
        ),
{
    let seen = seen_after(events.take(index));
    match events[index] {
        Event::TraversalFailed => {},
        Event::Entry(metadata) => {
            lemma_dry_run_withholds_mutation(metadata, seen, options);
        },
    }
}

} // verus!
