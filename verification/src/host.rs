//! The host application's state: one color, shown somewhere in its view,
//! replaced wholesale whenever the widget reports a selection.

use vstd::prelude::*;
use crate::color::Rgb;
use crate::color::black;

verus! {

/// A message from the widget to the host: a color was selected.
#[derive(Clone, Copy, PartialEq, Eq, Debug)]
pub enum Message {
    ColorChange(Rgb),
}

/// The host application's whole state: the color it currently displays.
#[derive(Clone, Copy, PartialEq, Eq, Structural, Debug)]
pub struct App {
    pub color: Rgb,
}

impl App {
    /// Replace the stored color with the one the message carries,
    /// unconditionally.
    pub fn update(&mut self, message: Message)
        ensures
            (match message {
                Message::ColorChange(c) => final(self).color == c,
            }),
    {
        match message {
            Message::ColorChange(color) => {
                self.color = color;
            },
        }
    }
}

impl Default for App {
    /// Before any selection the displayed color is black.
    fn default() -> (a: App)
        ensures
            a.color == black(),
    {
        App { color: Rgb { red: 0u64, green: 0u64, blue: 0u64, den: 1u64 } }
    }
}

} // verus!
