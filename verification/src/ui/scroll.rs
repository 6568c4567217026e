//! Scrolling of the conversation view.

use vstd::prelude::*;

verus! {

/// How far the conversation is scrolled, and whether it follows new text.
#[derive(Clone, Copy, Debug, PartialEq, Eq, Structural)]
pub struct ScrollState {
    pub offset: u16,
    pub follow_tail: bool,
}

impl Default for ScrollState {
    fn default() -> (r: Self)
        ensures
            r == (ScrollState { offset: 0, follow_tail: true }),
    {
        ScrollState { offset: 0, follow_tail: true }
    }
}

/// The largest offset for content of `content_height` lines shown in
/// `viewport_height` lines, capped at `u16::MAX`.
pub open spec fn max_offset(content_height: nat, viewport_height: nat) -> u16 {
    let over: int = if content_height > viewport_height { content_height - viewport_height } else { 0 };
    if over > u16::MAX { u16::MAX } else { over as u16 }
}

/// The state after resolving the offset against the content: a view that
/// follows the tail jumps to the end, any other is clamped to it, and the
/// view follows the tail exactly when it shows the end.
pub open spec fn resolved(s: ScrollState, content_height: nat, viewport_height: nat) -> ScrollState {
    let max = max_offset(content_height, viewport_height);
    let offset = if s.follow_tail { max } else if s.offset < max { s.offset } else { max };
    ScrollState { offset, follow_tail: offset == max }
}

/// The state after scrolling up by `amount` lines, stopping at the top.
pub open spec fn scrolled_up(s: ScrollState, amount: u16) -> ScrollState {
    ScrollState { offset: if s.offset >= amount { (s.offset - amount) as u16 } else { 0 }, follow_tail: false }
}

/// The state after scrolling down by `amount` lines, saturating.
pub open spec fn scrolled_down(s: ScrollState, amount: u16) -> ScrollState {
    ScrollState {
        offset: if s.offset + amount > u16::MAX { u16::MAX } else { (s.offset + amount) as u16 },
        follow_tail: false,
    }
}

impl ScrollState {
    /// Scrolls up by `amount` lines and stops following the tail.
    pub fn up(&mut self, amount: u16)
        ensures
            *final(self) == scrolled_up(*old(self), amount),
    {
        self.offset = if self.offset >= amount { self.offset - amount } else { 0 };
        self.follow_tail = false;
    }

    /// Scrolls down by `amount` lines and stops following the tail.
    pub fn down(&mut self, amount: u16)
        ensures
            *final(self) == scrolled_down(*old(self), amount),
    {
        self.offset = if self.offset > u16::MAX - amount { u16::MAX } else { self.offset + amount };
        self.follow_tail = false;
    }

    /// Settles the offset for the given content and viewport heights and
    /// returns it.
    pub fn resolve(&mut self, content_height: usize, viewport_height: usize) -> (r: u16)
        ensures
            *final(self) == resolved(*old(self), content_height as nat, viewport_height as nat),
            r == final(self).offset,
    {
        let over: usize = if content_height > viewport_height { content_height - viewport_height } else { 0 };
        let max: u16 = if over > u16::MAX as usize { u16::MAX } else { over as u16 };
        self.offset = if self.follow_tail { max } else if self.offset < max { self.offset } else { max };
        self.follow_tail = self.offset == max;
        self.offset
    }
}

/// Resolving never scrolls past the end, and resolving again against the
/// same heights changes nothing.
pub proof fn lemma_resolve_settles(s: ScrollState, content_height: nat, viewport_height: nat)
    ensures
        resolved(s, content_height, viewport_height).offset <= max_offset(content_height, viewport_height),
        resolved(resolved(s, content_height, viewport_height), content_height, viewport_height)
            == resolved(s, content_height, viewport_height),
{
}

/// A view that follows new text shows the end of the content, however much
/// content there is, and keeps following it.
pub proof fn lemma_follow_shows_end(s: ScrollState, content_height: nat, viewport_height: nat)
    requires
        s.follow_tail,
    ensures
        resolved(s, content_height, viewport_height)
            == (ScrollState { offset: max_offset(content_height, viewport_height), follow_tail: true }),
{
}

/// Scrolling up and back down by the same amount from the end of the content
/// brings the view back to the end, following new text again.
pub proof fn lemma_scroll_back_to_end(s: ScrollState, amount: u16, content_height: nat, viewport_height: nat)
    requires
        s.offset == max_offset(content_height, viewport_height),
    ensures
        resolved(scrolled_down(scrolled_up(s, amount), amount), content_height, viewport_height)
            == (ScrollState { offset: max_offset(content_height, viewport_height), follow_tail: true }),
{
}

} // verus!
