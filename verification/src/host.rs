//! The host's side of the conversation: numbering requests and phrasing
//! them as control events for the engine's loop.

use crate::engine::Event;
use crate::engine::EventView;
use crate::protocol::Command;
use crate::protocol::CommandView;
use vstd::prelude::*;

verus! {

/// A timeout as the host gives it, in milliseconds, with negative values
/// taken as zero.
pub open spec fn clamped_timeout(timeout_ms: i64) -> u64 {
    if timeout_ms < 0 {
        0
    } else {
        timeout_ms as u64
    }
}

/// A timeout as the host gives it, in milliseconds, with negative values
/// taken as zero.
pub fn clamp_timeout(timeout_ms: i64) -> (clamped: u64)
    ensures
        clamped == clamped_timeout(timeout_ms),
{
    if timeout_ms < 0 {
        0
    } else {
        timeout_ms as u64
    }
}

/// The event that asks the engine to carry out `cmd` as request `id`.
pub open spec fn command_event(id: i64, cmd: CommandView, timeout_ms: i64) -> EventView {
    EventView::RunCommand { id, cmd, timeout_ms: clamped_timeout(timeout_ms) }
}

/// Hands out request identifiers, counting up from 1, and phrases each
/// request as the control event to send to the engine.
#[derive(Debug)]
pub struct RequestIssuer {
    next_request_id: i64,
}

impl RequestIssuer {
    /// The identifier handed out most recently; 0 before the first.
    pub closed spec fn last_id(&self) -> i64 {
        self.next_request_id
    }

    /// An issuer that has handed out no identifier yet.
    pub fn new() -> (issuer: Self)
        ensures
            issuer.last_id() == 0,
    {
        RequestIssuer { next_request_id: 0 }
    }

    /// The identifier handed out most recently; 0 before the first.
    pub fn last_issued(&self) -> (id: i64)
        ensures
            id == self.last_id(),
    {
        self.next_request_id
    }

    /// The next identifier: one more than the last, so never one that was
    /// handed out before.
    pub fn next_id(&mut self) -> (id: i64)
        requires
            old(self).last_id() < i64::MAX,
        ensures
            id == old(self).last_id() + 1,
            final(self).last_id() == id,
    {
        self.next_request_id += 1;
        self.next_request_id
    }

    /// A request to load `url`.
    pub fn goto(&mut self, url: String, timeout_ms: i64) -> (issued: (i64, Event))
        requires
            old(self).last_id() < i64::MAX,
        ensures
            issued.0 == old(self).last_id() + 1,
            final(self).last_id() == issued.0,
            issued.1@ == (EventView::Navigate {
                id: issued.0,
                url: url@,
                timeout_ms: clamped_timeout(timeout_ms),
            }),
    {
        let id = self.next_id();
        (id, Event::Navigate { id, url, timeout_ms: clamp_timeout(timeout_ms) })
    }

    /// A request to carry out `cmd` in the page.
    pub fn command(&mut self, cmd: Command, timeout_ms: i64) -> (issued: (i64, Event))
        requires
            old(self).last_id() < i64::MAX,
        ensures
            issued.0 == old(self).last_id() + 1,
            final(self).last_id() == issued.0,
            issued.1@ == command_event(issued.0, cmd@, timeout_ms),
    {
        let id = self.next_id();
        (id, Event::RunCommand { id, cmd, timeout_ms: clamp_timeout(timeout_ms) })
    }

    /// A request to evaluate the script `js`.
    pub fn eval(&mut self, js: String, timeout_ms: i64) -> (issued: (i64, Event))
        requires
            old(self).last_id() < i64::MAX,
        ensures
            issued.0 == old(self).last_id() + 1,
            final(self).last_id() == issued.0,
            issued.1@ == command_event(issued.0, CommandView::Eval { js: js@ }, timeout_ms),
    {
        self.command(Command::Eval { js }, timeout_ms)
    }

    /// A request to click the element that `selector` finds.
    pub fn click(&mut self, selector: String, timeout_ms: i64) -> (issued: (i64, Event))
        requires
            old(self).last_id() < i64::MAX,
        ensures
            issued.0 == old(self).last_id() + 1,
            final(self).last_id() == issued.0,
            issued.1@ == command_event(
                issued.0,
                CommandView::Click { selector: selector@ },
                timeout_ms,
            ),
    {
        self.command(Command::Click { selector }, timeout_ms)
    }

    /// A request to set the value of the element that `selector` finds to
    /// `text`.
    pub fn fill(&mut self, selector: String, text: String, timeout_ms: i64) -> (issued: (
        i64,
        Event,
    ))
        requires
            old(self).last_id() < i64::MAX,
        ensures
            issued.0 == old(self).last_id() + 1,
            final(self).last_id() == issued.0,
            issued.1@ == command_event(
                issued.0,
                CommandView::Fill { selector: selector@, text: text@ },
                timeout_ms,
            ),
    {
        self.command(Command::Fill { selector, text }, timeout_ms)
    }

    /// A request to wait until `selector` finds an element. The page gives
    /// up after the same time as the engine, so the page's own timeout and
    /// the engine's race. The engine reports whichever reaches it first:
    /// the page's envelope if it arrives before the tick that finds the
    /// deadline passed, the engine's timeout otherwise. The loser is not
    /// reported under the request's identifier.
    pub fn wait_for_selector(&mut self, selector: String, timeout_ms: i64) -> (issued: (
        i64,
        Event,
    ))
        requires
            old(self).last_id() < i64::MAX,
        ensures
            issued.0 == old(self).last_id() + 1,
            final(self).last_id() == issued.0,
            issued.1@ == command_event(
                issued.0,
                CommandView::WaitForSelector {
                    selector: selector@,
                    timeout_ms: clamped_timeout(timeout_ms),
                },
                timeout_ms,
            ),
    {
        self.command(
            Command::WaitForSelector { selector, timeout_ms: clamp_timeout(timeout_ms) },
            timeout_ms,
        )
    }
}

} // verus!
