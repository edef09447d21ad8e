use sentinel_core::domain::AuthenticatedUserContext;
use sentinel_core::insights::{DailyNewUsers, DailySessionActivity, InsightsApplication, SECONDS_PER_DAY};

#[test]
fn growth_totals_run_from_the_baseline() {
    let rows = vec![
        DailyNewUsers { date: "2024-05-01".to_string(), count: 2 },
        DailyNewUsers { date: "2024-05-02".to_string(), count: 0 },
        DailyNewUsers { date: "2024-05-03".to_string(), count: 5 },
    ];
    let points = InsightsApplication::get_user_growth(10, rows);
    assert_eq!(points.len(), 3);
    assert_eq!((points[0].date.as_str(), points[0].new_users, points[0].total_users), ("2024-05-01", 2, 12));
    assert_eq!((points[1].date.as_str(), points[1].new_users, points[1].total_users), ("2024-05-02", 0, 12));
    assert_eq!((points[2].date.as_str(), points[2].new_users, points[2].total_users), ("2024-05-03", 5, 17));
    assert!(InsightsApplication::get_user_growth(3, vec![]).is_empty());
}

#[test]
fn the_baseline_is_users_before_the_window() {
    assert_eq!(InsightsApplication::baseline(120, 20), 100);
    assert_eq!(InsightsApplication::baseline(5, 5), 0);
}

#[test]
fn session_activity_is_passed_through_in_order() {
    let points = InsightsApplication::get_session_activity(vec![
        DailySessionActivity { date: "d1".to_string(), sessions_created: 9, unique_users: 4 },
        DailySessionActivity { date: "d2".to_string(), sessions_created: 1, unique_users: 1 },
    ]);
    assert_eq!(points.len(), 2);
    assert_eq!((points[0].date.as_str(), points[0].sessions_created, points[0].unique_users), ("d1", 9, 4));
    assert_eq!((points[1].date.as_str(), points[1].sessions_created, points[1].unique_users), ("d2", 1, 1));
}

#[test]
fn series_cover_one_to_365_days() {
    assert_eq!(InsightsApplication::series_days(-5), 1);
    assert_eq!(InsightsApplication::series_days(0), 1);
    assert_eq!(InsightsApplication::series_days(30), 30);
    assert_eq!(InsightsApplication::series_days(365), 365);
    assert_eq!(InsightsApplication::series_days(10_000), 365);
}

#[test]
fn windows_count_whole_days_back() {
    let now = 1_700_000_000;
    assert_eq!(InsightsApplication::summary_windows(now), (now - 7 * 86_400, now - 30 * 86_400));
    assert_eq!(InsightsApplication::window_start(now, 30), now - 30 * SECONDS_PER_DAY);
    assert_eq!(InsightsApplication::window_start(now, 1), now - 86_400);
}

#[test]
fn percentages_need_a_positive_total() {
    assert!(!InsightsApplication::percentage_defined(0));
    assert!(InsightsApplication::percentage_defined(3));
}

#[test]
fn insights_are_for_admins() {
    let ctx = AuthenticatedUserContext { user_id: 1, session_id: 1, roles: vec!["support".to_string()] };
    assert!(InsightsApplication::require_admin(&ctx).is_err());
    let ctx = AuthenticatedUserContext { user_id: 1, session_id: 1, roles: vec!["admin".to_string()] };
    assert!(InsightsApplication::require_admin(&ctx).is_ok());
}
