//! The persisted settings of the application.

use vstd::prelude::*;

verus! {

/// The settings kept between sessions: the theme and the API key.
#[derive(Clone, Debug)]
pub struct HeadlinesConfig {
    pub dark_mode: bool,
    pub api_key: String,
}

impl Default for HeadlinesConfig {
    /// The settings used when nothing was persisted, or when what was
    /// persisted cannot be read: dark theme, no key.
    fn default() -> (config: HeadlinesConfig)
        ensures
            config.dark_mode,
            config.api_key@ == Seq::<char>::empty(),
    {
        HeadlinesConfig { dark_mode: true, api_key: String::new() }
    }
}

impl HeadlinesConfig {
    /// A copy of these settings, as handed to the store when they are saved.
    pub fn snapshot(&self) -> (copy: HeadlinesConfig)
        ensures
            copy.dark_mode == self.dark_mode,
            copy.api_key@ == self.api_key@,
    {
        HeadlinesConfig { dark_mode: self.dark_mode, api_key: self.api_key.clone() }
    }
}

} // verus!
