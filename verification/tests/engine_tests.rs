use collection_bot::auth::Token;
use collection_bot::compose::compose_post;
use collection_bot::iteration::{Iteration, IterationPhase};
use collection_bot::rotation::RotationState;
use collection_bot::schedule::{
    duration_until, get_duration_until_tweet, plan_first_wait, GRACE_SECS, MEDIA_UPLOAD_SECS,
};
use collection_bot::dates::Timestamp;

#[test]
fn rotation_wraps_at_the_end() {
    let mut st = RotationState::new(9, 1);
    let next = st.get_next_index(10);
    assert_eq!(next, 1);
    assert_eq!(st.get_year_index(), 2);
    assert_eq!(st.last_index, 9);
}

#[test]
fn rotation_advances_in_the_middle() {
    let mut st = RotationState::new(4, 6);
    let next = st.get_next_index(10);
    assert_eq!(next, 5);
    assert_eq!(st.get_year_index(), 6);
}

#[test]
fn rotation_state_accessors() {
    let seeded = RotationState::initial();
    assert_eq!(seeded.last_index, 1);
    assert_eq!(seeded.era, 1);
    let mut st = RotationState::new(3, 2);
    st.save_tweet_index(4);
    assert_eq!(st.last_index, 4);
    assert_eq!(st.era, 2);
    st.set_year_index(9);
    assert_eq!(st.get_year_index(), 9);
    assert_eq!(st.last_index, 4);
}

#[test]
fn waits_are_never_negative() {
    assert_eq!(duration_until(100, 40), 60);
    assert_eq!(duration_until(40, 100), 0);
    assert_eq!(duration_until(40, 40), 0);
    assert_eq!(duration_until(i64::MAX, i64::MIN), u64::MAX);
}

#[test]
fn overdue_item_takes_the_grace_path() {
    let plan = plan_first_wait(0, MEDIA_UPLOAD_SECS);
    assert!(plan.overdue);
    assert_eq!(plan.before_upload_secs, GRACE_SECS);
}

#[test]
fn scheduled_wait_subtracts_the_upload_lead() {
    let plan = plan_first_wait(3600, MEDIA_UPLOAD_SECS);
    assert!(!plan.overdue);
    assert_eq!(plan.before_upload_secs, 3540);
    let close = plan_first_wait(30, MEDIA_UPLOAD_SECS);
    assert!(!close.overdue);
    assert_eq!(close.before_upload_secs, 0);
}

#[test]
fn clock_based_wait_is_clamped() {
    let past = Timestamp { year: 1970, month: 1, day: 2, hour: 0, minute: 0, second: 0 };
    assert_eq!(get_duration_until_tweet(&past), 0);
    let future = Timestamp { year: 9999, month: 1, day: 1, hour: 0, minute: 0, second: 0 };
    assert!(get_duration_until_tweet(&future) > 0);
}

#[test]
fn post_of_280_characters_is_not_split() {
    let text = "a".repeat(150);
    let translated = "b".repeat(128);
    let post = compose_post(text.clone(), translated.clone(), vec![1, 2]);
    assert!(post.reply_body.is_none());
    assert_eq!(post.primary_body, format!("{}\n\n{}", text, translated));
    assert_eq!(post.primary_body.chars().count(), 280);
    assert_eq!(post.media_ids, vec![1, 2]);
}

#[test]
fn post_of_281_characters_is_split() {
    let text = "a".repeat(150);
    let translated = "b".repeat(129);
    let post = compose_post(text.clone(), translated.clone(), vec![5]);
    assert_eq!(post.primary_body, text);
    assert_eq!(post.reply_body.as_deref(), Some(translated.as_str()));
    assert_eq!(post.media_ids, vec![5]);
}

#[test]
fn empty_translation_still_joins() {
    let post = compose_post(String::from("solo"), String::new(), vec![]);
    assert!(post.reply_body.is_none());
    assert_eq!(post.primary_body, "solo\n\n");
}

#[test]
fn failed_iteration_discards_media_ids() {
    let mut it = Iteration::begin(4);
    assert_eq!(it.phase, IterationPhase::Fetching);
    assert!(it.media_ids.is_empty());
    it.item_fetched();
    it.upload_started();
    it.media_uploaded(vec![10, 11]);
    assert_eq!(it.media_ids, vec![10, 11]);
    assert_eq!(it.phase, IterationPhase::PostWait);
    it.failed();
    assert_eq!(it.phase, IterationPhase::Abandoned);
    assert!(it.media_ids.is_empty());
    let retry = Iteration::begin(4);
    assert_eq!(retry.index, 4);
    assert!(retry.media_ids.is_empty());
}

#[test]
fn successful_iteration_walks_every_phase() {
    let mut it = Iteration::begin(2);
    it.item_fetched();
    assert_eq!(it.phase, IterationPhase::PreWait);
    it.upload_started();
    assert_eq!(it.phase, IterationPhase::Uploading);
    it.media_uploaded(vec![9]);
    it.wait_finished();
    assert_eq!(it.phase, IterationPhase::Publishing);
    it.published();
    assert_eq!(it.phase, IterationPhase::Advancing);
    it.advanced();
    assert_eq!(it.phase, IterationPhase::Completed);
    assert_eq!(it.media_ids, vec![9]);
}

#[test]
fn token_keeps_both_credentials() {
    let t = Token::new(String::from("bearer"), String::from("session"));
    assert_eq!(t.token, "bearer");
    assert_eq!(t.auth_token, "session");
}
