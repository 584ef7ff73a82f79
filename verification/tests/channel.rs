use rust_faust::enum_set::EnumSet;
use rust_faust::params::{UIActive, UIActiveValue};
use rust_faust::sparse_update::{read_decision, ui_active_sparse_update_tripple_buffer, Slot};

fn freq(hz: f32) -> UIActiveValue {
    UIActiveValue::Freq(hz.to_bits())
}

fn gain(db: f32) -> UIActiveValue {
    UIActiveValue::Gain(db.to_bits())
}

fn pan(p: f32) -> UIActiveValue {
    UIActiveValue::Pan(p.to_bits())
}

#[test]
fn fresh_channel_has_no_data() {
    let (_input, mut output) = ui_active_sparse_update_tripple_buffer();
    assert!(output.try_read().is_none());
}

#[test]
fn one_update_is_delivered_once() {
    let (input, mut output) = ui_active_sparse_update_tripple_buffer();

    let mut guard = input.input_buffer_publisher();
    guard.insert(freq(440.0));
    let _input = guard.publish();

    let set = output.try_read().expect("a published batch must be readable");
    assert_eq!(set.iter(), vec![freq(440.0)]);

    assert!(output.try_read().is_none(), "a batch is delivered at most once");
}

#[test]
fn same_tag_coalesces_to_last_insert() {
    let (input, mut output) = ui_active_sparse_update_tripple_buffer();

    let mut guard = input.input_buffer_publisher();
    guard.insert(freq(440.0));
    let replaced = guard.insert(freq(880.0));
    assert!(replaced, "the second insert of a tag replaces the first");
    let _input = guard.publish();

    let set = output.try_read().expect("a published batch must be readable");
    assert_eq!(set.iter(), vec![freq(880.0)]);
}

#[test]
fn empty_batch_still_signals_data() {
    let (input, mut output) = ui_active_sparse_update_tripple_buffer();

    let guard = input.input_buffer_publisher();
    let _input = guard.publish();

    let set = output.try_read().expect("even an empty batch signals data");
    assert_eq!(set.iter(), vec![]);
    assert!(output.try_read().is_none());
}

#[test]
fn later_batch_fully_supersedes_earlier_one() {
    let (input, mut output) = ui_active_sparse_update_tripple_buffer();

    let mut guard = input.input_buffer_publisher();
    guard.insert(freq(440.0));
    let input = guard.publish();

    let mut guard = input.input_buffer_publisher();
    guard.insert(gain(-6.0));
    let _input = guard.publish();

    let set = output.try_read().expect("the second batch must be readable");
    let entries = set.iter();
    assert_eq!(entries, vec![gain(-6.0)]);
    assert!(
        !entries.iter().any(|u| u.discriminant() == UIActive::Freq),
        "an unread batch is superseded whole, never merged"
    );
}

#[test]
fn stalled_producer_never_blocks_consumer() {
    let (_input, mut output) = ui_active_sparse_update_tripple_buffer();
    for _ in 0..1000 {
        assert!(output.try_read().is_none());
    }
}

#[test]
fn polling_goes_on_after_reads() {
    let (mut input, mut output) = ui_active_sparse_update_tripple_buffer();
    for round in 0..100 {
        let mut guard = input.input_buffer_publisher();
        guard.insert(freq(round as f32));
        input = guard.publish();

        let set = output.try_read().expect("each publish must be readable");
        assert_eq!(set.iter(), vec![freq(round as f32)]);
        for _ in 0..10 {
            assert!(output.try_read().is_none());
        }
    }
}

#[test]
fn distinct_tags_all_appear_in_tag_order() {
    let (input, mut output) = ui_active_sparse_update_tripple_buffer();

    let mut guard = input.input_buffer_publisher();
    guard.insert(pan(0.5));
    guard.insert(freq(220.0));
    guard.insert(gain(-3.0));
    guard.insert(pan(-0.5));
    let _input = guard.publish();

    let set = output.try_read().expect("a published batch must be readable");
    assert_eq!(set.iter(), vec![freq(220.0), gain(-3.0), pan(-0.5)]);
}

#[test]
fn reopened_batch_starts_empty() {
    let (input, mut output) = ui_active_sparse_update_tripple_buffer();

    let mut guard = input.input_buffer_publisher();
    guard.insert(freq(440.0));
    let input = guard.publish();
    let _ = output.try_read();

    let guard = input.input_buffer_publisher();
    let _input = guard.publish();

    let set = output.try_read().expect("a published batch must be readable");
    assert_eq!(set.iter(), vec![], "opening a transaction clears the slot");
}

#[test]
fn enum_set_insert_reports_replacement() {
    let mut set = EnumSet::new();
    assert!(!set.insert(freq(1.0)));
    assert!(!set.insert(gain(2.0)));
    assert!(set.insert(freq(3.0)));
    assert_eq!(set.iter(), vec![freq(3.0), gain(2.0)]);
}

#[test]
fn enum_set_clear_empties_in_place() {
    let mut set = EnumSet::new();
    set.insert(freq(1.0));
    set.insert(pan(0.0));
    set.clear();
    assert_eq!(set.iter(), vec![]);
    assert!(!set.insert(freq(4.0)), "a cleared set holds nothing to replace");
}

#[test]
fn enum_set_iteration_is_stable() {
    let mut set = EnumSet::new();
    set.insert(gain(-1.0));
    set.insert(freq(100.0));
    assert_eq!(set.iter(), set.iter());
}

#[test]
fn tags_are_extracted_from_updates() {
    assert_eq!(freq(1.0).discriminant(), UIActive::Freq);
    assert_eq!(gain(1.0).discriminant(), UIActive::Gain);
    assert_eq!(pan(1.0).discriminant(), UIActive::Pan);
}

#[test]
fn read_decision_needs_fetch_and_flag() {
    let mut batch = EnumSet::new();
    batch.insert(freq(5.0));
    let slot = Slot { fresh: true, batch };
    assert!(read_decision(false, &slot).is_none());
    let got = read_decision(true, &slot).expect("a fetched flagged slot carries data");
    assert_eq!(got.iter(), vec![freq(5.0)]);

    let stale = Slot { fresh: false, batch: EnumSet::new() };
    assert!(read_decision(true, &stale).is_none());
}

#[test]
fn indexed_reads_match_iteration() {
    let (input, mut output) = ui_active_sparse_update_tripple_buffer();
    let mut guard = input.input_buffer_publisher();
    guard.insert(gain(-3.0));
    guard.insert(freq(100.0));
    let _input = guard.publish();

    let set = output.try_read().expect("a published batch must be readable");
    assert_eq!(set.len(), 2);
    assert_eq!(set.value_at(0), Some(freq(100.0)));
    assert_eq!(set.value_at(1), Some(gain(-3.0)));
    assert_eq!(set.value_at(2), None);
    assert_eq!(set.iter(), vec![freq(100.0), gain(-3.0)]);
}

#[test]
fn empty_batch_reads_empty_by_index() {
    let set = EnumSet::new();
    assert_eq!(set.len(), 0);
    assert_eq!(set.value_at(0), None);
}
