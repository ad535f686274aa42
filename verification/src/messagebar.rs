//! The bar that shows a message for a while.

use vstd::prelude::*;
use crate::position::minus_or_zero;
use crate::size::Size;
use crate::uicomponent::UiComponent;
use crate::boundary::texts_of;

verus! {

/// How long a message is shown, in nanoseconds: five seconds.
pub const EXPIRE_TIME: u128 = 5_000_000_000;

/// A text and the time at which it was set, in nanoseconds of a clock that the
/// caller reads.
#[derive(Debug)]
pub struct Message {
    pub text: String,
    pub time: u128,
}

impl Message {
    /// An empty message set at the time `now`.
    pub fn new(now: u128) -> (message: Message)
        ensures
            message.text@ == Seq::<char>::empty(),
            message.time == now,
    {
        Message { text: String::new(), time: now }
    }

    /// More than `EXPIRE_TIME` has passed at the time `now` since the message was
    /// set.
    pub open spec fn expired(&self, now: u128) -> bool {
        minus_or_zero(now as int, self.time as int) > EXPIRE_TIME
    }

    /// Whether the message has expired at the time `now`.
    pub fn is_expired(&self, now: u128) -> (expired: bool)
        ensures
            expired == self.expired(now),
    {
        now.saturating_sub(self.time) > EXPIRE_TIME
    }
}

/// The bar that shows a message for a while.
#[derive(Debug)]
pub struct MessageBar {
    curr_message: Message,
    needs_redraw: bool,
    has_cleared_after_expiry: bool,
    /// The time as the bar was last told it.
    now: u128,
}

impl MessageBar {
    /// The text of the message.
    pub closed spec fn text(&self) -> Seq<char> {
        self.curr_message.text@
    }

    /// The time at which the message was set.
    pub closed spec fn since(&self) -> u128 {
        self.curr_message.time
    }

    /// The bar is marked as out of date.
    pub closed spec fn marked(&self) -> bool {
        self.needs_redraw
    }

    /// The bar was drawn after its message had expired.
    pub closed spec fn cleared(&self) -> bool {
        self.has_cleared_after_expiry
    }

    /// The time as the bar was last told it.
    pub closed spec fn now(&self) -> u128 {
        self.now
    }

    /// The message has expired.
    pub open spec fn expired(&self) -> bool {
        minus_or_zero(self.now() as int, self.since() as int) > EXPIRE_TIME
    }

    /// What the bar shows: its message, or nothing once the message has expired.
    pub open spec fn shown(&self) -> Seq<char> {
        if self.expired() {
            Seq::<char>::empty()
        } else {
            self.text()
        }
    }

    /// A bar with an empty message, at the time `now`.
    pub fn new(now: u128) -> (bar: MessageBar)
        ensures
            bar.text() == Seq::<char>::empty(),
            bar.since() == now,
            bar.now() == now,
            !bar.marked(),
            !bar.cleared(),
    {
        MessageBar {
            curr_message: Message::new(now),
            needs_redraw: false,
            has_cleared_after_expiry: false,
            now,
        }
    }

    /// Tells the bar the time.
    pub fn set_time(&mut self, now: u128)
        ensures
            final(self).now() == now,
            final(self).text() == old(self).text(),
            final(self).since() == old(self).since(),
            final(self).marked() == old(self).marked(),
            final(self).cleared() == old(self).cleared(),
    {
        self.now = now;
    }

    /// Shows `message` from now on, and marks the bar as out of date.
    pub fn update_message(&mut self, message: String)
        ensures
            final(self).text() == message@,
            final(self).since() == old(self).now(),
            final(self).now() == old(self).now(),
            final(self).marked(),
            !final(self).cleared(),
    {
        self.curr_message.time = self.now;
        self.curr_message.text = message;
        self.has_cleared_after_expiry = false;
        self.needs_redraw = true;
    }
}

impl UiComponent for MessageBar {
    open spec fn wf(&self) -> bool {
        true
    }

    open spec fn marked_as(&self, value: bool, after: &Self) -> bool {
        &&& after.marked() == value
        &&& after.text() == self.text()
        &&& after.since() == self.since()
        &&& after.cleared() == self.cleared()
        &&& after.now() == self.now()
    }

    open spec fn sized_as(&self, size: Size, after: &Self) -> bool {
        *after == *self
    }

    /// The bar is marked, or its message has expired and is still on screen.
    open spec fn out_of_date(&self) -> bool {
        self.marked() || (!self.cleared() && self.expired())
    }

    open spec fn draws(&self, origin_y: usize, rows: Seq<Seq<char>>, after: &Self) -> bool {
        &&& rows == seq![self.shown()]
        &&& after.cleared() == (self.cleared() || self.expired())
        &&& after.marked() == self.marked()
        &&& after.text() == self.text()
        &&& after.since() == self.since()
        &&& after.now() == self.now()
    }

    fn set_needs_redraw(&mut self, value: bool) {
        self.needs_redraw = value;
    }

    fn needs_redraw(&self) -> (needed: bool) {
        self.needs_redraw || (!self.has_cleared_after_expiry && self.curr_message.is_expired(
            self.now,
        ))
    }

    fn draw(&mut self, origin_y: usize) -> (rows: Vec<String>) {
        if self.curr_message.is_expired(self.now) {
            self.has_cleared_after_expiry = true;
        }
        let msg = if self.curr_message.is_expired(self.now) {
            String::new()
        } else {
            self.curr_message.text.clone()
        };
        let mut rows: Vec<String> = Vec::new();
        rows.push(msg);
        proof {
            assert(texts_of(rows@) =~= seq![old(self).shown()]);
        }
        rows
    }

    fn set_size(&mut self, size: Size) {
    }
}

} // verus!
