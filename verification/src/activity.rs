//! Watching that the game window stays in the foreground.
use vstd::prelude::*;

use crate::text::{trim_char, trim_char_matches};

verus! {

/// The title of the game window that the tools work on.
pub struct GameActivity {
    window_title: String,
}

impl View for GameActivity {
    type V = Seq<char>;

    /// The expected window title.
    closed spec fn view(&self) -> Seq<char> {
        self.window_title@
    }
}

impl GameActivity {
    /// Watches for the window titled `title`.
    pub fn new(title: &str) -> (activity: Self)
        ensures
            activity@ == title@,
    {
        GameActivity { window_title: title.to_owned() }
    }

    /// The expected window title.
    pub fn title(&self) -> (title: &str)
        ensures
            title@ == self@,
    {
        self.window_title.as_str()
    }

    /// Whether the text read from the foreground window (a fixed-size buffer,
    /// padded with NUL characters) is the expected title once the padding is
    /// stripped from both ends.
    pub fn is_active(&self, window_text: &str) -> (active: bool)
        ensures
            active == (trim_char(window_text@, '\0') == self@),
    {
        let title = trim_char_matches(window_text, '\0');
        title == self.window_title
    }
}

} // verus!
