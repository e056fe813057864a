//! Verified core of a competitive-programming submission tool: problem-id
//! guessing, judge configuration round trips, login and submission forms.

pub mod client;
pub mod ejudge;
pub mod errors;
pub mod login;
pub mod problem;
pub mod text;
pub mod urls;

pub use errors::Error;
pub use text::{decimal_string, is_whitespace, trim};
pub use urls::{query_pairs, ParsedUrl};
pub use problem::get_problem_id_from_filename;
pub use ejudge::{login_url, Client, ClientView, Config, ConfigView, EjudgeClient, UrlContestIDInfo};
pub use login::UserpassCredentials;
pub use client::{
    first_loadable, from_config, get_problem_id, AsClientConfig, ClientConfig, ClientConfigView,
    Submission,
};
