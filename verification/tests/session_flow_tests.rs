use open_donate::analytics::{
    test_donation, TEST_AMOUNT_COUNT, TEST_DONOR_NAME_COUNT, TEST_MESSAGE_COUNT,
};
use open_donate::db::{selected_payment_methods, PaymentMethod, TransactionStatus};
use open_donate::media::{upload_outcome, UploadResponse};
use open_donate::overlay::{
    pause_button_label, sound_button_label, toggled, DisplayStep, LockOutcome, OverlayScreen,
    OverlayState,
};
use open_donate::pagination::{next_disabled, previous_disabled, total_pages, Pager};
use open_donate::payments::{auto_confirm_schedule, payment_poll_done};
use open_donate::profile::UsernameSearch;
use open_donate::text::is_blank;

#[test]
fn pager_clicks_stay_in_range() {
    let mut p = Pager::new(10);
    assert_eq!(p.page(), 1);
    p.previous();
    assert_eq!(p.page(), 1);
    p.next(25);
    p.next(25);
    assert_eq!(p.page(), 3);
    p.next(25);
    assert_eq!(p.page(), 3);
    p.previous();
    assert_eq!(p.page(), 2);
    p.next(40);
    p.next(40);
    assert_eq!(p.page(), 4);
    assert!(next_disabled(p.page(), total_pages(40, p.page_size())));
    assert!(!previous_disabled(p.page()));
}

#[test]
fn pager_per_page_resets_to_first_page() {
    let mut p = Pager::new(5);
    p.next(100);
    p.next(100);
    assert_eq!(p.page(), 3);
    p.set_page_size(20);
    assert_eq!(p.page(), 1);
    assert_eq!(p.page_size(), 20);
}

#[test]
fn pager_without_donations() {
    let mut p = Pager::new(10);
    p.next(0);
    assert_eq!(p.page(), 1);
    assert!(previous_disabled(p.page()));
    assert!(next_disabled(p.page(), total_pages(0, p.page_size())));
}

#[test]
fn overlay_revocation_is_final() {
    let mut s: OverlayState<u32> = OverlayState::new();
    s.apply_poll(vec![1, 2], true, None, "/default_donate.mp3".to_string());
    assert!(s.apply_poll_error("server error: SessionRevoked"));
    assert_eq!(s.screen(), OverlayScreen::Revoked);
    s.apply_poll(vec![3], true, None, "/default_donate.mp3".to_string());
    assert!(!s.apply_poll_error("timeout"));
    s.ready_for_next();
    assert!(!s.should_poll());
    assert_eq!(s.display_tick(), DisplayStep::Stop);
    assert_eq!(s.screen(), OverlayScreen::Revoked);
}

#[test]
fn overlay_failed_registration_revokes() {
    let mut s: OverlayState<u32> = OverlayState::new();
    s.session_init_failed();
    s.apply_poll(vec![3], true, None, "/default_donate.mp3".to_string());
    assert_eq!(s.display_tick(), DisplayStep::Stop);
    assert_eq!(s.screen(), OverlayScreen::Revoked);
}

#[test]
fn overlay_display_turns() {
    let mut s: OverlayState<u32> = OverlayState::new();
    s.apply_poll(vec![10, 11], false, None, "/default_donate.mp3".to_string());
    assert_eq!(s.display_tick(), DisplayStep::LockFront);
    assert_eq!(s.front(), Some(&10));
    assert_eq!(s.display_tick(), DisplayStep::Idle);
    assert_eq!(s.lock_resolved(10, false), LockOutcome::Skip);
    assert_eq!(s.current(), None);
    s.ready_for_next();
    assert_eq!(s.display_tick(), DisplayStep::LockFront);
    assert_eq!(s.front(), Some(&11));
    assert_eq!(s.lock_resolved(11, true), LockOutcome::Show { play_sound: false });
    assert_eq!(s.current(), Some(&11));
    assert_eq!(s.screen(), OverlayScreen::Showing);
    s.display_finished();
    s.ready_for_next();
    assert_eq!(s.current(), None);
    assert_eq!(s.display_tick(), DisplayStep::Idle);
    assert_eq!(s.screen(), OverlayScreen::Empty);
}

#[test]
fn overlay_switches() {
    assert!(toggled(false));
    assert!(!toggled(true));
    assert_eq!(pause_button_label(true), "Overlay Paused");
    assert_eq!(pause_button_label(false), "Pause Overlay");
    assert_eq!(sound_button_label(true), "Sound ON");
    assert_eq!(sound_button_label(false), "Sound OFF");
}

#[test]
fn auto_confirm_schedules() {
    assert_eq!(auto_confirm_schedule(PaymentMethod::MockManual, 500), None);
    assert_eq!(auto_confirm_schedule(PaymentMethod::MockAuto, 0), Some(2000));
    assert_eq!(auto_confirm_schedule(PaymentMethod::Crypto, 999), Some(2999));
    assert!(payment_poll_done(TransactionStatus::ReadyForDisplay));
    assert!(!payment_poll_done(TransactionStatus::Initialize));
    assert!(!payment_poll_done(TransactionStatus::Rejected));
}

#[test]
fn test_donations_by_position() {
    assert_eq!((TEST_DONOR_NAME_COUNT, TEST_AMOUNT_COUNT, TEST_MESSAGE_COUNT), (12, 7, 8));
    let d = test_donation(0, 6, 4);
    assert_eq!(d.donor_name, "DragonSlayer99");
    assert_eq!(d.amount_dollars, 100);
    assert_eq!(d.message, "Pog! That was insane!");
    assert_eq!(d.payment_method, "test_mock");
    let last = test_donation(11, 0, 7);
    assert_eq!(last.donor_name, "QuantumByte");
    assert_eq!(last.amount_dollars, 1);
    assert_eq!(last.message, "This stream made my day!");
}

#[test]
fn username_search_with_given_numbers() {
    let mut s = UsernameSearch::new("neon".to_string());
    assert!(s.record_check_with(true, 4242));
    assert_eq!(s.candidate(), "neon_4242");
    assert!(!s.record_check_with(false, 7));
    assert_eq!(s.candidate(), "neon_4242");
}

#[test]
fn upload_outcomes() {
    assert_eq!(upload_outcome(UploadResponse::Stored), (true, Ok(())));
    assert_eq!(
        upload_outcome(UploadResponse::Refused),
        (false, Err("Upload to S3 failed.".to_string()))
    );
    assert_eq!(
        upload_outcome(UploadResponse::NetworkError),
        (false, Err("Network error during upload".to_string()))
    );
}

#[test]
fn unicode_whitespace_is_blank() {
    assert!(is_blank("\u{3000}\u{2028}\u{85}\t "));
    assert!(!is_blank("\u{200B}"));
    assert!(!is_blank("\u{180E}"));
}

#[test]
fn overlay_needs_a_token() {
    assert!(OverlayState::<u32>::for_token("").is_none());
    let s = OverlayState::<u32>::for_token("abc").unwrap();
    assert!(s.should_poll());
    assert!(!s.is_busy());
    assert_eq!(s.screen(), OverlayScreen::Empty);
}

#[test]
fn payments_page_checkboxes() {
    assert_eq!(
        selected_payment_methods(true, true),
        vec![PaymentMethod::MockAuto, PaymentMethod::MockManual]
    );
    assert_eq!(selected_payment_methods(false, true), vec![PaymentMethod::MockManual]);
    assert_eq!(selected_payment_methods(true, false), vec![PaymentMethod::MockAuto]);
    assert_eq!(selected_payment_methods(false, false), Vec::<PaymentMethod>::new());
}

#[test]
fn whitespace_matches_std_everywhere() {
    for c in (0u32..=0x10FFFF).filter_map(char::from_u32) {
        let mut s = String::new();
        s.push(c);
        assert_eq!(is_blank(&s), c.is_whitespace(), "U+{:04X}", c as u32);
    }
}

