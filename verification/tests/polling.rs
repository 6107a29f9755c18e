//! Tests for the long-polling source: cursor tracking, backoff, stopping.

use tgbot::poll::{Backoff, PollCursor, PollSource, PollState};
use tgbot::update::AllowedUpdate;
use tgbot::types::{Chat, ChatType, Message, User};
use tgbot::update::RawUpdate;

fn empty_raw(update_id: i64) -> RawUpdate {
    RawUpdate {
        update_id,
        message: None,
        edited_message: None,
        channel_post: None,
        edited_channel_post: None,
        inline_query: None,
        chosen_inline_result: None,
        callback_query: None,
        shipping_query: None,
        pre_checkout_query: None,
    }
}

fn message_raw(update_id: i64) -> RawUpdate {
    let mut raw = empty_raw(update_id);
    raw.message = Some(Message {
        id: update_id,
        date: 0,
        from: Some(User {
            id: 1,
            is_bot: false,
            first_name: "test".to_string(),
            last_name: None,
            username: None,
            language_code: None,
        }),
        chat: Chat {
            id: 1,
            chat_type: ChatType::Private,
            title: None,
            username: None,
            first_name: Some("test".to_string()),
            last_name: None,
        },
        text: Some("test".to_string()),
    });
    raw
}

fn new_source(start: i64) -> PollSource {
    PollSource::new(start, 100, 30, None, 1, 8)
}

#[test]
fn cursor_advances_past_increasing_batch() {
    let mut src = new_source(0);
    let call = src.begin_cycle(false).unwrap();
    assert_eq!(call.offset, 0);
    let updates = src.on_fetch_success(vec![message_raw(3), message_raw(5), message_raw(9)]);
    assert_eq!(updates.len(), 3);
    let ids: Vec<i64> = updates.iter().map(|u| u.id).collect();
    assert_eq!(ids, vec![3, 5, 9]);
    // The cursor moves only once the batch is fully processed.
    assert_eq!(src.cursor.next_offset, 0);
    src.finish_processing();
    assert_eq!(src.cursor.next_offset, 10);
    // The following fetch is issued with exactly that offset.
    let call = src.begin_cycle(false).unwrap();
    assert_eq!(call.offset, 10);
}

#[test]
fn cursor_does_not_move_on_empty_batch() {
    let mut src = new_source(7);
    src.begin_cycle(false).unwrap();
    let updates = src.on_fetch_success(vec![]);
    assert!(updates.is_empty());
    src.finish_processing();
    assert_eq!(src.cursor.next_offset, 7);
}

#[test]
fn cursor_advances_past_malformed_items() {
    let mut src = new_source(0);
    src.begin_cycle(false).unwrap();
    // The middle envelope has no kind field: it is skipped, not delivered,
    // but the cursor still moves past its id.
    let updates = src.on_fetch_success(vec![message_raw(1), empty_raw(2), message_raw(3)]);
    assert_eq!(updates.len(), 2);
    src.finish_processing();
    assert_eq!(src.cursor.next_offset, 4);
}

#[test]
fn failures_retry_with_non_decreasing_capped_delays() {
    let mut src = new_source(0);
    let first = src.begin_cycle(false).unwrap();
    assert_eq!(first.offset, 0);
    let n = 4;
    let mut delays = Vec::new();
    let mut attempts = 1;
    for _ in 0..n {
        let delay = src.on_fetch_failure();
        assert_eq!(src.state, PollState::BackingOff);
        delays.push(delay);
        let retry = src.resume_after_backoff();
        attempts += 1;
        // The cursor never moves on failure: every retry repeats the fetch.
        assert_eq!(retry.offset, 0);
    }
    // N consecutive failures produce N + 1 fetch attempts.
    assert_eq!(attempts, n + 1);
    // Delays never decrease and never exceed the ceiling.
    assert_eq!(delays, vec![1, 2, 4, 8]);
    let more = src.on_fetch_failure();
    assert_eq!(more, 8);
    src.resume_after_backoff();
    // The next success resets the delay to the floor at once.
    src.on_fetch_success(vec![]);
    src.finish_processing();
    src.begin_cycle(false).unwrap();
    assert_eq!(src.on_fetch_failure(), 1);
}

#[test]
fn success_resets_backoff_to_floor() {
    let mut src = new_source(0);
    src.begin_cycle(false).unwrap();
    src.on_fetch_failure();
    src.resume_after_backoff();
    src.on_fetch_failure();
    src.resume_after_backoff();
    src.on_fetch_success(vec![message_raw(1)]);
    assert_eq!(src.backoff.delay, src.backoff.floor);
    src.finish_processing();
    assert_eq!(src.cursor.next_offset, 2);
}

#[test]
fn cursor_and_backoff_constructors() {
    assert_eq!(PollCursor::start().next_offset, 0);
    assert_eq!(PollCursor::start_at(5).next_offset, 5);
    let b = Backoff::new(2, 16);
    assert_eq!(b.floor, 2);
    assert_eq!(b.ceiling, 16);
    assert_eq!(b.delay, 2);
}

#[test]
fn stop_requested_between_cycles() {
    let mut src = new_source(0);
    let r = src.begin_cycle(true);
    assert!(r.is_none());
    assert_eq!(src.state, PollState::Stopped);
}

#[test]
fn fetch_call_carries_fixed_parameters() {
    let mut src = PollSource::new(2, 50, 25, Some(vec![AllowedUpdate::Message]), 1, 8);
    let call = src.begin_cycle(false).unwrap();
    assert_eq!(call.offset, 2);
    assert_eq!(call.limit, 50);
    assert_eq!(call.timeout, 25);
    assert_eq!(call.allowed_updates, Some(vec![AllowedUpdate::Message]));
}
