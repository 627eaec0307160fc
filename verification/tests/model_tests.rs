use survey_tool_cli::models::survey_config::LeaderboardSettings;
use survey_tool_cli::models::survey_config::ScoreSettings;
use survey_tool_cli::CheckResult;

#[test]
fn test_check_result_constructors() {
    let ok = CheckResult::all_ok();
    assert!(ok.all_ok);
    assert!(ok.success_list.is_empty());
    assert!(ok.error_list.is_empty());
    assert!(ok.output.is_none());

    let bad = CheckResult::not_ok();
    assert!(!bad.all_ok);
    assert!(bad.success_list.is_empty());
    assert!(bad.error_list.is_empty());
    assert!(bad.output.is_none());
}

#[test]
fn test_leaderboard_settings_defaults() {
    let s = LeaderboardSettings::default();
    assert!(s.show_scores);
    assert!(s.show_placeholder);
    assert_eq!(s.limit, 10);

    let c = LeaderboardSettings::new(false, true, 5);
    assert!(!c.show_scores);
    assert!(c.show_placeholder);
    assert_eq!(c.limit, 5);
}

#[test]
fn test_score_settings_defaults() {
    let s = ScoreSettings::default();
    assert!(!s.show_question_scores);
    assert!(s.show_leaderboard);
    assert_eq!(s.leaderboard.limit, 10);

    let c = ScoreSettings::new(true, false, LeaderboardSettings::new(true, false, 3));
    assert!(c.show_question_scores);
    assert!(!c.show_leaderboard);
    assert!(!c.leaderboard.show_placeholder);
    assert_eq!(c.leaderboard.limit, 3);
}
