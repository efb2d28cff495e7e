//! Browse the matches of a line-oriented search tool: classify the tool's
//! exit, parse its JSON record stream, and drive the list/preview browser.

pub mod browser;
pub mod event;
pub mod json;
pub mod list;
pub mod search;
pub mod text;

pub use browser::{key_of_char, Action, App, Key, Mode};
pub use event::Event;
pub use list::StatefulList;
pub use search::{
    classify_exit, parse_line, parse_record, parse_results, run_rg, search_args, ExitClass, Match,
    Outcome, SearchError, JSON_FLAG, SEARCH_COMMAND,
};
