//! Typed models of a survey configuration, used to work with survey
//! configuration values in memory.

use vstd::prelude::*;

verus! {

/// Kind of a survey.
pub enum SurveyType {
    Survey,
    Quiz,
}

/// Global scoring options for a survey/quiz.
pub struct ScoreSettings {
    pub show_question_scores: bool,
    pub show_leaderboard: bool,
    pub leaderboard: LeaderboardSettings,
}

impl ScoreSettings {
    /// Create settings with default values.
    pub fn default() -> (r: ScoreSettings)
        ensures
            r.show_question_scores == false,
            r.show_leaderboard == true,
            r.leaderboard.show_scores == true,
            r.leaderboard.show_placeholder == true,
            r.leaderboard.limit == 10,
    {
        ScoreSettings {
            show_question_scores: false,
            show_leaderboard: true,
            leaderboard: LeaderboardSettings::default(),
        }
    }

    /// Create settings from the given values.
    pub fn new(show_question_scores: bool, show_leaderboard: bool, leaderboard: LeaderboardSettings) -> (r: ScoreSettings)
        ensures
            r.show_question_scores == show_question_scores,
            r.show_leaderboard == show_leaderboard,
            r.leaderboard == leaderboard,
    {
        ScoreSettings { show_question_scores, show_leaderboard, leaderboard }
    }
}

/// Leaderboard configuration details.
pub struct LeaderboardSettings {
    pub show_scores: bool,
    pub show_placeholder: bool,
    pub limit: usize,
}

impl LeaderboardSettings {
    /// Create settings with default values.
    pub fn default() -> (r: LeaderboardSettings)
        ensures
            r.show_scores == true,
            r.show_placeholder == true,
            r.limit == 10,
    {
        LeaderboardSettings { show_scores: true, show_placeholder: true, limit: 10 }
    }

    /// Create settings from the given values.
    pub fn new(show_scores: bool, show_placeholder: bool, limit: usize) -> (r: LeaderboardSettings)
        ensures
            r.show_scores == show_scores,
            r.show_placeholder == show_placeholder,
            r.limit == limit,
    {
        LeaderboardSettings { show_scores, show_placeholder, limit }
    }
}

/// The part every page content item shares.
pub struct SurveyPageContentHeader {
    pub c_type: SurveyContentType,
    pub title: String,
    pub required: bool,
}

/// Kind of a page content item.
pub enum SurveyContentType {
    Text,
    Choice,
    Data,
    Rating,
    Likert,
    Information,
    DateTime,
    Slider,
}

/// One selectable choice of a choice question.
pub struct ChoiceItem {
    pub title: String,
    pub score: Option<usize>,
    pub correct: bool,
}

/// Kind of participant detail a data question captures.
pub enum DataQuestionType {
    Name,
    Email,
    Phone,
    Custom,
    Nickname,
    Age,
    Birthday,
}

/// Kind of input a date/time question asks for.
pub enum DateTimeType {
    Date,
    Time,
    DateTime,
}

/// Symbol shown by a rating question.
pub enum RatingSymbol {
    Star,
    Heart,
    Like,
    Smile,
    Number,
}

/// Color gradient of a rating question.
pub enum RatingColorGradient {
    NoGradient,
    Red2Green,
}

/// One statement of a Likert scale question.
pub struct LikertStatement {
    pub title: String,
    pub score: Option<usize>,
    pub correct_choice: Option<String>,
}

} // verus!
