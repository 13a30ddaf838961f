//! What the owner of a worker hands to it: settings, and the messages that
//! carry them.

use vstd::prelude::*;

verus! {

/// What a settings snapshot is.
pub struct SettingsView {
    pub address: Seq<char>,
    pub blank: bool,
}

/// A snapshot of the configuration. A worker replaces its snapshot as a
/// whole and never changes one in place.
#[derive(Debug)]
pub struct Settings {
    /// Where the oscilloscope is reached, as `host:port`. Empty: nowhere.
    pub address: String,
    /// Whether black frames are shown while no oscilloscope is connected.
    pub blank: bool,
}

impl View for Settings {
    type V = SettingsView;

    open spec fn view(&self) -> SettingsView {
        SettingsView { address: self.address@, blank: self.blank }
    }
}

impl SettingsView {
    /// No address, no black frames.
    pub open spec fn empty() -> SettingsView {
        SettingsView { address: Seq::empty(), blank: false }
    }
}

impl Default for Settings {
    /// No address, no black frames.
    fn default() -> (s: Settings)
        ensures
            s@ == SettingsView::empty(),
    {
        Settings { address: String::new(), blank: false }
    }
}

impl Clone for Settings {
    /// A second snapshot that says the same.
    fn clone(&self) -> (s: Settings)
        ensures
            s@ == self@,
    {
        Settings { address: self.address.clone(), blank: self.blank }
    }
}

impl Settings {
    /// A snapshot with the given address and choice.
    pub fn new(address: String, blank: bool) -> (s: Settings)
        ensures
            s@ == (SettingsView { address: address@, blank }),
    {
        Settings { address, blank }
    }

    /// Whether there is an address to connect to.
    pub fn has_address(&self) -> (b: bool)
        ensures
            b == (self@.address.len() > 0),
    {
        !self.address.as_str().is_empty()
    }
}

/// What a message is.
pub enum MessageView {
    End,
    Update(SettingsView),
}

/// An instruction from the owner to its worker.
#[derive(Debug)]
pub enum Message {
    /// Stop working.
    End,
    /// Work with these settings from now on.
    Update(Settings),
}

impl View for Message {
    type V = MessageView;

    open spec fn view(&self) -> MessageView {
        match self {
            Message::End => MessageView::End,
            Message::Update(s) => MessageView::Update(s@),
        }
    }
}

/// What one look at the queue gave.
pub enum PolledView {
    Empty,
    Abandoned,
    Message(MessageView),
}

/// What one look at the message queue gave, without waiting.
#[derive(Debug)]
pub enum Polled {
    /// Nothing is waiting.
    Empty,
    /// Nothing is waiting and the owner is gone.
    Abandoned,
    /// The oldest waiting message.
    Message(Message),
}

impl View for Polled {
    type V = PolledView;

    open spec fn view(&self) -> PolledView {
        match self {
            Polled::Empty => PolledView::Empty,
            Polled::Abandoned => PolledView::Abandoned,
            Polled::Message(m) => PolledView::Message(m@),
        }
    }
}

} // verus!
