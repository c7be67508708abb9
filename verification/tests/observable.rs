use eyeball::{resolve_event, Observable, Pull, RawEvent, Step};

#[test]
fn get_tracks_every_mutation() {
    let mut obs = Observable::new(0u64);
    assert_eq!(*Observable::get(&obs), 0);
    Observable::set(&mut obs, 1);
    assert_eq!(*Observable::get(&obs), 1);
    let previous = Observable::replace(&mut obs, 2);
    assert_eq!(previous, 1);
    assert_eq!(*Observable::get(&obs), 2);
    Observable::update(&mut obs, |x: &u64| *x + 5);
    assert_eq!(*Observable::get(&obs), 7);
    Observable::update_eq(&mut obs, |x: &u64| *x * 2);
    assert_eq!(*Observable::get(&obs), 14);
    Observable::update_hash(&mut obs, |x: &u64| *x + 1);
    assert_eq!(*Observable::get(&obs), 15);
}

#[test]
fn replace_returns_previous_value() {
    let mut obs = Observable::new(String::from("first"));
    let previous = Observable::replace(&mut obs, String::from("second"));
    assert_eq!(previous, "first");
    let previous = Observable::replace(&mut obs, String::from("second"));
    assert_eq!(previous, "second");
    assert_eq!(*Observable::get(&obs), "second");
}

#[test]
fn subscriber_sequence_begins_empty() {
    let obs = Observable::new(3u64);
    let mut sub = Observable::subscribe(&obs);
    // The current value is not replayed: only future updates are seen.
    assert_eq!(sub.try_next(), Pull::Pending);
}

#[test]
fn prompt_subscriber_receives_all_in_order_then_end() {
    let mut obs = Observable::new(0u64);
    let mut s1 = Observable::subscribe(&obs);
    Observable::set(&mut obs, 1);
    assert_eq!(s1.try_next(), Pull::Ready(1));
    let mut s2 = Observable::subscribe(&obs);
    Observable::set(&mut obs, 2);
    assert_eq!(s1.try_next(), Pull::Ready(2));
    // s2 joined after the first publish: it sees the second one only.
    assert_eq!(s2.try_next(), Pull::Ready(2));
    drop(obs);
    assert_eq!(s1.try_next(), Pull::Done);
    assert_eq!(s2.try_next(), Pull::Done);
}

#[test]
fn late_subscriber_never_sees_prior_publishes() {
    let mut obs = Observable::new(0u64);
    let mut s1 = Observable::subscribe(&obs);
    Observable::set(&mut obs, 10);
    let mut s2 = Observable::subscribe(&obs);
    assert_eq!(s1.try_next(), Pull::Ready(10));
    // Nothing was published since s2 joined.
    assert_eq!(s2.try_next(), Pull::Pending);
    Observable::set(&mut obs, 20);
    assert_eq!(s1.try_next(), Pull::Ready(20));
    assert_eq!(s2.try_next(), Pull::Ready(20));
}

#[test]
fn done_is_terminal_and_never_resumes() {
    let obs = Observable::new(1u64);
    let mut sub = Observable::subscribe(&obs);
    drop(obs);
    assert_eq!(sub.try_next(), Pull::Done);
    assert_eq!(sub.try_next(), Pull::Done);
    assert_eq!(sub.try_next(), Pull::Done);
}

#[test]
fn update_always_publishes_even_when_unchanged() {
    let mut obs = Observable::new(5u64);
    let mut sub = Observable::subscribe(&obs);
    Observable::update(&mut obs, |x: &u64| *x);
    assert_eq!(sub.try_next(), Pull::Ready(5));
}

#[test]
fn update_eq_suppresses_unchanged_values() {
    let mut obs = Observable::new(5u64);
    let mut s1 = Observable::subscribe(&obs);
    let mut s2 = Observable::subscribe(&obs);
    Observable::update_eq(&mut obs, |x: &u64| *x);
    // A mutation that changed nothing delivers nothing, to any subscriber.
    assert_eq!(s1.try_next(), Pull::Pending);
    assert_eq!(s2.try_next(), Pull::Pending);
    Observable::update_eq(&mut obs, |x: &u64| *x + 1);
    // A real change delivers exactly one value per live subscriber.
    assert_eq!(s1.try_next(), Pull::Ready(6));
    assert_eq!(s1.try_next(), Pull::Pending);
    assert_eq!(s2.try_next(), Pull::Ready(6));
    assert_eq!(s2.try_next(), Pull::Pending);
}

#[test]
fn update_hash_matches_update_eq_for_hash_faithful_values() {
    // For u64, equality and content-hash equality coincide, so the two
    // gated updates must make the same decisions on the same mutations.
    let mut by_eq = Observable::new(5u64);
    let mut by_hash = Observable::new(5u64);
    let mut sub_eq = Observable::subscribe(&by_eq);
    let mut sub_hash = Observable::subscribe(&by_hash);

    Observable::update_eq(&mut by_eq, |x: &u64| *x);
    Observable::update_hash(&mut by_hash, |x: &u64| *x);
    assert_eq!(sub_eq.try_next(), Pull::Pending);
    assert_eq!(sub_hash.try_next(), Pull::Pending);

    Observable::update_eq(&mut by_eq, |x: &u64| *x + 2);
    Observable::update_hash(&mut by_hash, |x: &u64| *x + 2);
    assert_eq!(sub_eq.try_next(), Pull::Ready(7));
    assert_eq!(sub_hash.try_next(), Pull::Ready(7));
    assert_eq!(*Observable::get(&by_eq), 7);
    assert_eq!(*Observable::get(&by_hash), 7);
}

#[test]
fn update_hash_delivers_when_hash_differs() {
    let mut obs = Observable::new(String::from("alpha"));
    let mut sub = Observable::subscribe(&obs);
    Observable::update_hash(&mut obs, |_: &String| String::from("beta"));
    assert_eq!(sub.try_next(), Pull::Ready(String::from("beta")));
}

#[test]
fn paused_subscriber_skips_to_latest_without_error() {
    let mut obs = Observable::new(0u64);
    let mut sub = Observable::subscribe(&obs);
    // The subscriber consumes nothing while far more values are published
    // than the channel retains.
    for i in 1..=10u64 {
        Observable::set(&mut obs, i);
    }
    // Resuming yields the newest retained value; the gap is absorbed, not
    // surfaced as an error.
    assert_eq!(sub.try_next(), Pull::Ready(10));
    assert_eq!(sub.try_next(), Pull::Pending);
}

#[test]
fn publish_with_zero_subscribers_is_a_noop_path() {
    let mut obs = Observable::new(0u64);
    Observable::set(&mut obs, 1);
    Observable::update(&mut obs, |x: &u64| *x + 1);
    assert_eq!(*Observable::get(&obs), 2);
    // A subscriber created afterwards starts empty as usual.
    let mut sub = Observable::subscribe(&obs);
    assert_eq!(sub.try_next(), Pull::Pending);
}

#[test]
fn dropping_one_subscriber_leaves_others_untouched() {
    let mut obs = Observable::new(0u64);
    let s1 = Observable::subscribe(&obs);
    let mut s2 = Observable::subscribe(&obs);
    drop(s1);
    Observable::set(&mut obs, 9);
    assert_eq!(s2.try_next(), Pull::Ready(9));
}

#[test]
fn resolve_event_policy() {
    assert_eq!(resolve_event(RawEvent::Item(4u64)), Step::Yield(4));
    assert_eq!(resolve_event(RawEvent::<u64>::Lagged(3)), Step::Retry);
    assert_eq!(resolve_event(RawEvent::<u64>::Closed), Step::End);
    assert_eq!(resolve_event(RawEvent::<u64>::Empty), Step::Wait);
}

#[test]
fn string_values_are_delivered_by_copy() {
    let mut obs = Observable::new(String::from("a"));
    let mut sub = Observable::subscribe(&obs);
    Observable::set(&mut obs, String::from("b"));
    assert_eq!(sub.try_next(), Pull::Ready(String::from("b")));
    // The observable still owns its value; the subscriber got its own copy.
    assert_eq!(*Observable::get(&obs), "b");
}

#[test]
fn raw_handle_still_receives_buffered_value() {
    let mut obs = Observable::new(0u64);
    let sub = Observable::subscribe(&obs);
    Observable::set(&mut obs, 5);
    let mut receiver = sub.into_raw();
    assert_eq!(receiver.try_recv(), Ok(5));
}

#[test]
fn deliveries_stay_in_publish_order_across_lag() {
    let mut obs = Observable::new(0u64);
    let mut sub = Observable::subscribe(&obs);
    // The subscriber lags behind three publishes, then catches up.
    Observable::set(&mut obs, 1);
    Observable::set(&mut obs, 2);
    Observable::set(&mut obs, 3);
    assert_eq!(sub.try_next(), Pull::Ready(3));
    Observable::set(&mut obs, 4);
    assert_eq!(sub.try_next(), Pull::Ready(4));
    // In publish order, nothing duplicated, nothing from before the gap.
    assert_eq!(sub.try_next(), Pull::Pending);
}
