//! The loading screen's state: a message and a spinner that advances one
//! frame per redraw. Drawing itself happens outside the library.

use vstd::prelude::*;

verus! {

/// A message shown with an animated spinner.
#[derive(Debug)]
pub struct LoadingScreen {
    pub message: String,
    pub spinner_frame: usize,
}

impl LoadingScreen {
    /// A fresh screen on its first spinner frame.
    pub fn new(message: String) -> (r: Self)
        ensures
            r.message@ == message@,
            r.spinner_frame == 0,
    {
        LoadingScreen { message, spinner_frame: 0 }
    }

    /// The spinner glyph for the current frame.
    pub fn get_spinner(&self) -> (s: &'static str)
        ensures
            s@ == match self.spinner_frame % 4 {
                0 => "\u{280b}"@,
                1 => "\u{2819}"@,
                2 => "\u{2839}"@,
                _ => "\u{2838}"@,
            },
    {
        match self.spinner_frame % 4 {
            0 => "\u{280b}",
            1 => "\u{2819}",
            2 => "\u{2839}",
            _ => "\u{2838}",
        }
    }

    /// Moves the spinner to its next frame.
    pub fn advance(&mut self)
        ensures
            final(self).spinner_frame == (old(self).spinner_frame % 4 + 1) % 4,
            final(self).message@ == old(self).message@,
    {
        let f = self.spinner_frame % 4 + 1;
        self.spinner_frame = f % 4;
    }
}

} // verus!
