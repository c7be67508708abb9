//! The observable value holder and its subscribers.

use vstd::prelude::*;

use crate::raw::{poll_raw, send_latest, RawEvent};
use std::collections::hash_map::DefaultHasher;
use std::hash::Hasher;
use vstd::std_specs::cmp::PartialEqSpec;
use tokio::sync::broadcast::{Receiver, Sender};

verus! {

/// How many consecutive lag notices one pull absorbs before giving the
/// scheduler a chance to run; a lag notice already skips the cursor to the
/// newest retained value, so a second one in a row takes another publish in
/// between.
const LAG_RETRY_BOUND: u64 = 64;

/// A value whose changes are broadcast to subscribers.
///
/// The observable owns the value and the single producer handle of the
/// notification channel; every mutation goes through a method that publishes,
/// so the held value and what subscribers were told can never diverge. To
/// keep the method namespace free for the inner type, all operations are
/// associated functions (`Observable::set(&mut obs, ..)`).
#[verifier::reject_recursive_types(T)]
pub struct Observable<T> {
    value: T,
    sender: Sender<T>,
    history: Ghost<Seq<T>>,
}

/// A subscriber for updates of an [`Observable`].
///
/// It owns one consumer handle: an independent cursor into the channel that
/// sees only values published after the subscription was made. Dropping it
/// releases the cursor and affects neither the observable nor other
/// subscribers.
#[verifier::reject_recursive_types(T)]
pub struct Subscriber<T> {
    receiver: Receiver<T>,
    joined: Ghost<nat>,
}

/// What one pull attempt on a [`Subscriber`] resolves to, after lag notices
/// have been absorbed.
#[derive(Clone, Debug, PartialEq, Eq)]
pub enum Pull<T> {
    /// The next published value still retained by the channel.
    Ready(T),
    /// The observable was dropped and no further value remains: the sequence
    /// has ended and will never resume.
    Done,
    /// No new value is available yet; pull again later.
    Pending,
}

/// The decision taken on a single raw channel event while pulling.
#[derive(Clone, Debug, PartialEq, Eq)]
pub enum Step<T> {
    /// Hand this value to the caller.
    Yield(T),
    /// Report the end of the sequence.
    End,
    /// Report that nothing is available yet.
    Wait,
    /// A lag notice: absorb it and read the channel again.
    Retry,
}

/// The pull policy on raw channel events: values are yielded, channel closure
/// ends the sequence, an empty buffer means wait, and a lag notice is never
/// surfaced — it is absorbed and the read is retried, so the caller simply
/// receives the next value still retained.
pub fn resolve_event<T>(event: RawEvent<T>) -> (step: Step<T>)
    ensures
        step == match event {
            RawEvent::Item(v) => Step::Yield(v),
            RawEvent::Lagged(_) => Step::<T>::Retry,
            RawEvent::Closed => Step::<T>::End,
            RawEvent::Empty => Step::<T>::Wait,
        },
{
    match event {
        RawEvent::Item(v) => Step::Yield(v),
        RawEvent::Lagged(_) => Step::Retry,
        RawEvent::Closed => Step::End,
        RawEvent::Empty => Step::Wait,
    }
}

impl<T> Observable<T> {
    /// The value the observable currently holds.
    pub closed spec fn current(&self) -> T {
        self.value
    }

    /// Every value published so far, in publish order. A publish is recorded
    /// here whether or not any subscriber was live to receive it: skipping
    /// the channel send when no consumer is attached is a cost saving with no
    /// semantic difference.
    pub closed spec fn published(&self) -> Seq<T> {
        self.history@
    }
}

impl<T: Clone + Send + 'static> Observable<T> {
    /// Create a new observable with the given initial value and a fresh
    /// channel with no subscribers. The initial value is not published: a
    /// subscriber's sequence starts empty and carries future updates only.
    pub fn new(value: T) -> (this: Observable<T>)
        ensures
            this.current() == value,
            this.published() == Seq::<T>::empty(),
    {
        Observable { value, sender: Sender::new(1), history: Ghost(Seq::empty()) }
    }

    /// Obtain a new subscriber. Its cursor starts at the current end of the
    /// publish history, so it sees every later publish and none before. Any
    /// number of subscribers may be live at once.
    pub fn subscribe(this: &Observable<T>) -> (subscriber: Subscriber<T>)
        ensures
            subscriber.joined_at() == this.published().len(),
    {
        Subscriber { receiver: this.sender.subscribe(), joined: Ghost(this.published().len()) }
    }

    /// Get a reference to the inner value. Reading has no side effect.
    pub fn get(this: &Observable<T>) -> (value: &T)
        ensures
            *value == this.current(),
    {
        &this.value
    }

    /// Set the inner value to the given one and notify subscribers. The
    /// previous value is discarded.
    pub fn set(this: &mut Observable<T>, value: T)
        ensures
            final(this).current() == value,
            final(this).published() == old(this).published().push(value),
    {
        let _previous = Self::replace(this, value);
    }

    /// Set the inner value to the given one, notify subscribers, and return
    /// the previous value. It publishes unconditionally, even when the new
    /// value equals the old one.
    pub fn replace(this: &mut Observable<T>, value: T) -> (previous: T)
        ensures
            previous == old(this).current(),
            final(this).current() == value,
            final(this).published() == old(this).published().push(value),
    {
        let mut previous = value;
        core::mem::swap(&mut this.value, &mut previous);
        Self::broadcast_update(this);
        previous
    }

    /// Replace the inner value with what `f` makes of it and notify
    /// subscribers. It publishes unconditionally: even when `f` hands back an
    /// unchanged value, the caller has asserted a change and every subscriber
    /// is woken. Use [`Observable::update_eq`] or [`Observable::update_hash`]
    /// to suppress publishes for unchanged values.
    pub fn update<F: FnOnce(&T) -> T>(this: &mut Observable<T>, f: F)
        requires
            call_requires(f, (&old(this).current(),)),
        ensures
            call_ensures(f, (&old(this).current(),), final(this).current()),
            final(this).published() == old(this).published().push(final(this).current()),
    {
        this.value = f(&this.value);
        Self::broadcast_update(this);
    }

    /// Replace the inner value with what `f` makes of it and notify
    /// subscribers only when the new value does not equal the previous one,
    /// so that no subscriber is woken for a change that is none. The new
    /// value is kept either way.
    pub fn update_eq<F: FnOnce(&T) -> T>(this: &mut Observable<T>, f: F) where T: PartialEq
        requires
            call_requires(f, (&old(this).current(),)),
        ensures
            call_ensures(f, (&old(this).current(),), final(this).current()),
            T::obeys_eq_spec() ==> final(this).published() == (if final(this).current().eq_spec(
                &old(this).current(),
            ) {
                old(this).published()
            } else {
                old(this).published().push(final(this).current())
            }),
            final(this).published() == old(this).published() || final(this).published() == old(
                this,
            ).published().push(final(this).current()),
    {
        let new_value = f(&this.value);
        let changed = new_value != this.value;
        this.value = new_value;
        if changed {
            Self::broadcast_update(this);
        }
    }

    /// Replace the inner value with what `f` makes of it and notify
    /// subscribers only when the content hash of the value changed. This
    /// serves types whose equality check is dearer than hashing, or absent;
    /// it knowingly accepts that a hash collision can mask a real change, so
    /// all that is promised is that the new value is kept and that the
    /// publish history either gained exactly that value or stayed as it was.
    pub fn update_hash<F: FnOnce(&T) -> T>(this: &mut Observable<T>, f: F) where
        T: core::hash::Hash,

        requires
            call_requires(f, (&old(this).current(),)),
        ensures
            call_ensures(f, (&old(this).current(),), final(this).current()),
            final(this).published() == old(this).published() || final(this).published() == old(
                this,
            ).published().push(final(this).current()),
    {
        let mut previous_hasher = DefaultHasher::new();
        feed_hash(&this.value, &mut previous_hasher);
        let previous_hash = previous_hasher.finish();

        this.value = f(&this.value);

        let mut new_hasher = DefaultHasher::new();
        feed_hash(&this.value, &mut new_hasher);
        let new_hash = new_hasher.finish();

        Self::broadcast_if_hash_changed(this, previous_hash, new_hash);
    }

    /// The publish decision of [`Observable::update_hash`], on the two
    /// content hashes it computed: the current value is published exactly
    /// when they differ, and nothing happens when they agree.
    fn broadcast_if_hash_changed(this: &mut Observable<T>, previous_hash: u64, new_hash: u64)
        ensures
            final(this).current() == old(this).current(),
            final(this).published() == (if previous_hash == new_hash {
                old(this).published()
            } else {
                old(this).published().push(old(this).current())
            }),
    {
        if previous_hash != new_hash {
            Self::broadcast_update(this);
        }
    }

    /// Record one publish of the current value. When no subscriber is live
    /// the channel send is skipped outright; a send that reaches no consumer
    /// because one was dropped concurrently is no error either. Both are the
    /// same publish as far as the history is concerned.
    fn broadcast_update(this: &mut Observable<T>)
        ensures
            final(this).current() == old(this).current(),
            final(this).published() == old(this).published().push(old(this).current()),
    {
        if this.sender.receiver_count() != 0 {
            let _delivered = send_latest(&this.sender, &this.value);
        }
        this.history = Ghost(this.history@.push(this.value));
    }
}

impl<T> Subscriber<T> {
    /// How many values had been published when this subscriber was created:
    /// its cursor's starting point. Values before it are never seen.
    pub closed spec fn joined_at(&self) -> nat {
        self.joined@
    }
}

impl<T: Clone + Send + 'static> Subscriber<T> {
    /// Pull once, without suspending. A lag notice is absorbed and the read
    /// retried, per [`resolve_event`]; the channel shows at most one lag
    /// notice per publish that happened in between, and after
    /// [`LAG_RETRY_BOUND`] of them in a row the pull yields to the caller
    /// with [`Pull::Pending`] rather than spin on.
    pub fn try_next(&mut self) -> (pull: Pull<T>)
        ensures
            final(self).joined_at() == old(self).joined_at(),
    {
        let mut attempts: u64 = LAG_RETRY_BOUND;
        loop
            invariant
                self.joined_at() == old(self).joined_at(),
            decreases attempts,
        {
            let event = poll_raw(&mut self.receiver);
            match resolve_event(event) {
                Step::Yield(value) => {
                    return Pull::Ready(value);
                },
                Step::End => {
                    return Pull::Done;
                },
                Step::Wait => {
                    return Pull::Pending;
                },
                Step::Retry => {
                    if attempts == 0 {
                        return Pull::Pending;
                    }
                    attempts = attempts - 1;
                },
            }
        }
    }

    /// Hand out the raw consumer handle, for callers that integrate the
    /// subscriber with an asynchronous scheduler of their own.
    pub fn into_raw(self) -> Receiver<T> {
        self.receiver
    }
}

/// Relies on `core::hash::Hash::hash`: feeds the value's content to the
/// hasher. The trait does not mandate that an implementation be
/// deterministic, so nothing is promised of the state it leaves behind.
#[verifier::external_body]
fn feed_hash<T: core::hash::Hash>(value: &T, state: &mut DefaultHasher) {
    value.hash(state)
}

} // verus!

