use samrs::probe::{
    classify_attempt, AttemptOutcome, EntryDetail, ProbeResponse, ProbeStatus, RetryReason,
    GATEWAY_RETRY_MILLIS, RATE_LIMIT_COOLDOWN_MILLIS, STATUS_BAD_GATEWAY,
    STATUS_TOO_MANY_REQUESTS,
};

fn detail(classification: &str, has_achievements: bool) -> EntryDetail {
    EntryDetail { classification: classification.to_string(), has_achievements }
}

#[test]
fn transport_failure_is_retried() {
    assert_eq!(
        classify_attempt(ProbeResponse::TransportFailure),
        AttemptOutcome::Retry(RetryReason::TransportFailure)
    );
}

#[test]
fn throttling_is_retried_whatever_the_body() {
    assert_eq!(
        classify_attempt(ProbeResponse::Reply { status: 429, detail: None }),
        AttemptOutcome::Retry(RetryReason::RateLimited)
    );
    assert_eq!(
        classify_attempt(ProbeResponse::Reply { status: 429, detail: Some(detail("game", true)) }),
        AttemptOutcome::Retry(RetryReason::RateLimited)
    );
}

#[test]
fn gateway_fault_is_retried_whatever_the_body() {
    assert_eq!(
        classify_attempt(ProbeResponse::Reply { status: 502, detail: None }),
        AttemptOutcome::Retry(RetryReason::GatewayFault)
    );
    assert_eq!(
        classify_attempt(ProbeResponse::Reply { status: 502, detail: Some(detail("game", true)) }),
        AttemptOutcome::Retry(RetryReason::GatewayFault)
    );
}

#[test]
fn empty_body_is_final() {
    assert_eq!(
        classify_attempt(ProbeResponse::Reply { status: 200, detail: None }),
        AttemptOutcome::Terminal(None)
    );
}

#[test]
fn decoded_body_is_final_and_carried_along() {
    assert_eq!(
        classify_attempt(ProbeResponse::Reply { status: 200, detail: Some(detail("dlc", false)) }),
        AttemptOutcome::Terminal(Some(detail("dlc", false)))
    );
}

#[test]
fn other_statuses_are_final() {
    for status in [0u16, 200, 204, 404, 428, 430, 500, 501, 503, 504, u16::MAX] {
        assert_eq!(
            classify_attempt(ProbeResponse::Reply { status, detail: None }),
            AttemptOutcome::Terminal(None)
        );
        assert_eq!(
            classify_attempt(ProbeResponse::Reply { status, detail: Some(detail("game", true)) }),
            AttemptOutcome::Terminal(Some(detail("game", true)))
        );
    }
}

#[test]
fn status_constants() {
    assert_eq!(STATUS_TOO_MANY_REQUESTS, 429);
    assert_eq!(STATUS_BAD_GATEWAY, 502);
}

#[test]
fn backoff_per_reason() {
    assert_eq!(RetryReason::TransportFailure.backoff_millis(), 0);
    assert_eq!(RetryReason::RateLimited.backoff_millis(), 120_000);
    assert_eq!(RetryReason::GatewayFault.backoff_millis(), 500);
    assert_eq!(RATE_LIMIT_COOLDOWN_MILLIS, 2 * 60 * 1000);
    assert_eq!(GATEWAY_RETRY_MILLIS, 500);
}

#[test]
fn status_labels() {
    assert_eq!(ProbeStatus::RateLimited.as_str(), "rate_limited");
    assert_eq!(ProbeStatus::GatewayError.as_str(), "gateway_error");
    assert_eq!(ProbeStatus::NoData.as_str(), "no_data");
    assert_eq!(ProbeStatus::Success.as_str(), "ok");
}

#[test]
fn status_recorded_per_reason() {
    assert_eq!(RetryReason::TransportFailure.recorded_status(), None);
    assert_eq!(RetryReason::RateLimited.recorded_status(), Some(ProbeStatus::RateLimited));
    assert_eq!(RetryReason::GatewayFault.recorded_status(), Some(ProbeStatus::GatewayError));
}

#[test]
fn status_recorded_per_outcome() {
    assert_eq!(AttemptOutcome::Retry(RetryReason::TransportFailure).recorded_status(), None);
    assert_eq!(
        AttemptOutcome::Retry(RetryReason::RateLimited).recorded_status(),
        Some(ProbeStatus::RateLimited)
    );
    assert_eq!(
        AttemptOutcome::Retry(RetryReason::GatewayFault).recorded_status(),
        Some(ProbeStatus::GatewayError)
    );
    assert_eq!(AttemptOutcome::Terminal(None).recorded_status(), Some(ProbeStatus::NoData));
    assert_eq!(
        AttemptOutcome::Terminal(Some(detail("dlc", false))).recorded_status(),
        Some(ProbeStatus::Success)
    );
}

#[test]
fn only_games_with_achievements_qualify() {
    assert!(detail("game", true).is_game_with_achievements());
    assert!(!detail("game", false).is_game_with_achievements());
    assert!(!detail("dlc", true).is_game_with_achievements());
    assert!(!detail("dlc", false).is_game_with_achievements());
    assert!(!detail("Game", true).is_game_with_achievements());
    assert!(!detail("games", true).is_game_with_achievements());
    assert!(!detail("", true).is_game_with_achievements());
}

#[test]
fn only_final_answers_for_games_with_achievements_keep_the_entry() {
    assert!(AttemptOutcome::Terminal(Some(detail("game", true))).keeps_entry());
    assert!(!AttemptOutcome::Terminal(Some(detail("game", false))).keeps_entry());
    assert!(!AttemptOutcome::Terminal(Some(detail("demo", true))).keeps_entry());
    assert!(!AttemptOutcome::Terminal(None).keeps_entry());
    assert!(!AttemptOutcome::Retry(RetryReason::RateLimited).keeps_entry());
    assert!(!AttemptOutcome::Retry(RetryReason::GatewayFault).keeps_entry());
    assert!(!AttemptOutcome::Retry(RetryReason::TransportFailure).keeps_entry());
}
