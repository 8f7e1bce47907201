//! User preferences.

use crate::utils::text::{clone_opt, opt_chars};
use vstd::prelude::*;
use vstd::string::*;

verus! {

/// User preferences and settings. The output directory is held as the text
/// of its path.
#[derive(Debug, PartialEq, Eq)]
pub struct UserPreferencesState {
    pub default_output_dir: Option<String>,
    pub default_format: String,
    pub use_gpu: bool,
    pub theme: String,
}

/// A `UserPreferencesState` with its strings read as characters.
pub struct UserPreferencesView {
    pub default_output_dir: Option<Seq<char>>,
    pub default_format: Seq<char>,
    pub use_gpu: bool,
    pub theme: Seq<char>,
}

impl View for UserPreferencesState {
    type V = UserPreferencesView;

    open spec fn view(&self) -> UserPreferencesView {
        UserPreferencesView {
            default_output_dir: opt_chars(self.default_output_dir),
            default_format: self.default_format@,
            use_gpu: self.use_gpu,
            theme: self.theme@,
        }
    }
}

impl Default for UserPreferencesState {
    /// Every value at its default: no directory, no text, no GPU.
    fn default() -> (prefs: UserPreferencesState)
        ensures
            prefs@ == (UserPreferencesView {
                default_output_dir: None,
                default_format: Seq::empty(),
                use_gpu: false,
                theme: Seq::empty(),
            }),
    {
        UserPreferencesState {
            default_output_dir: None,
            default_format: String::new(),
            use_gpu: false,
            theme: String::new(),
        }
    }
}

impl Clone for UserPreferencesState {
    fn clone(&self) -> (copy: UserPreferencesState)
        ensures
            copy@ == self@,
    {
        UserPreferencesState {
            default_output_dir: clone_opt(&self.default_output_dir),
            default_format: self.default_format.clone(),
            use_gpu: self.use_gpu,
            theme: self.theme.clone(),
        }
    }
}

impl UserPreferencesState {
    /// The preferences a new installation starts with: MP4, no GPU, the
    /// light theme.
    pub fn new() -> (prefs: UserPreferencesState)
        ensures
            prefs@ == (UserPreferencesView {
                default_output_dir: None,
                default_format: "mp4"@,
                use_gpu: false,
                theme: "light"@,
            }),
    {
        UserPreferencesState {
            default_output_dir: None,
            default_format: String::from_str("mp4"),
            use_gpu: false,
            theme: String::from_str("light"),
        }
    }
}

} // verus!
