//! The applet's decision core: one step per host message, with the
//! outside work (opening and closing the popup, running a fetch)
//! returned as an action for the front-end to perform.

use vstd::prelude::*;
use crate::PrayerTimes;
use crate::request::FetchError;

verus! {

/// A message delivered to the applet by its host: the panel icon was
/// pressed, the host closed a popup window, or the user asked for a
/// refresh.
#[derive(Debug, Clone, PartialEq, Eq, Structural)]
pub enum Message {
    TogglePopup,
    PopupClosed(u64),
    Refresh,
}

/// The outside work a step asks the front-end to perform.
#[derive(Debug, Clone, PartialEq, Eq, Structural)]
pub enum Action {
    OpenPopup(u64),
    ClosePopup(u64),
    StartFetch,
    Idle,
}

/// The applet's own state: the popup window, if one is open, and the
/// currently displayed prayer times.
#[derive(Debug)]
pub struct AppState {
    pub popup: Option<u64>,
    pub times: PrayerTimes,
}

impl AppState {
    /// A fresh state displaying `times`, with no popup open.
    pub fn new(times: PrayerTimes) -> (s: AppState)
        ensures
            s.popup is None,
            s.times@ == times@,
    {
        AppState { popup: None, times }
    }

    /// The message that a host's close notice for popup `id` becomes.
    pub fn on_close_requested(&self, id: u64) -> (m: Option<Message>)
        ensures
            m == Some(Message::PopupClosed(id)),
    {
        Some(Message::PopupClosed(id))
    }

    /// One step of the applet. A toggle closes the open popup or opens
    /// one under `fresh_id`; a close notice clears the popup only when
    /// the identifier matches; a refresh asks for a fetch. No step
    /// touches the displayed times.
    pub fn update(&mut self, msg: Message, fresh_id: u64) -> (a: Action)
        ensures
            final(self).times@ == old(self).times@,
            match msg {
                Message::TogglePopup => match old(self).popup {
                    Some(p) => final(self).popup is None && a == Action::ClosePopup(p),
                    None => final(self).popup == Some(fresh_id) && a == Action::OpenPopup(
                        fresh_id,
                    ),
                },
                Message::PopupClosed(id) => a == Action::Idle && final(self).popup == (
                if old(self).popup == Some(id) {
                    None::<u64>
                } else {
                    old(self).popup
                }),
                Message::Refresh => final(self).popup == old(self).popup && a
                    == Action::StartFetch,
            },
    {
        match msg {
            Message::TogglePopup => match self.popup {
                Some(p) => {
                    self.popup = None;
                    Action::ClosePopup(p)
                },
                None => {
                    self.popup = Some(fresh_id);
                    Action::OpenPopup(fresh_id)
                },
            },
            Message::PopupClosed(id) => {
                let matches_open = match self.popup {
                    Some(p) => p == id,
                    None => false,
                };
                if matches_open {
                    self.popup = None;
                }
                Action::Idle
            },
            Message::Refresh => Action::StartFetch,
        }
    }

    /// Installs the outcome of a fetch. A successful fetch replaces all
    /// six displayed fields together, wholesale; a failed fetch leaves
    /// every previously displayed value untouched. Returns whether the
    /// display changed.
    pub fn apply_fetch(&mut self, outcome: Result<PrayerTimes, FetchError>) -> (updated: bool)
        ensures
            final(self).popup == old(self).popup,
            match outcome {
                Ok(t) => updated && final(self).times@ == t@,
                Err(_) => !updated && final(self).times@ == old(self).times@,
            },
    {
        match outcome {
            Ok(t) => {
                self.times = t;
                true
            },
            Err(_) => false,
        }
    }
}

} // verus!
