use vstd::prelude::*;

verus! {

/// What the slot holds after `value` is posted into a slot that held `slot`.
pub open spec fn after_post<T>(slot: Option<T>, value: T) -> Option<T> {
    Some(value)
}

/// What the slot holds after `items` are posted one at a time, in order,
/// into a slot that held `slot`.
pub open spec fn after_posts<T>(slot: Option<T>, items: Seq<T>) -> Option<T>
    decreases items.len(),
{
    if items.len() == 0 {
        slot
    } else {
        after_post(after_posts(slot, items.drop_last()), items.last())
    }
}

/// A single-slot mailbox: each post overwrites what was there, each take
/// empties it. A reader that comes late sees only the latest value, and no
/// backlog can build up.
pub struct Mailbox<T> {
    slot: Option<T>,
}

impl<T> View for Mailbox<T> {
    type V = Option<T>;

    closed spec fn view(&self) -> Option<T> {
        self.slot
    }
}

impl<T> Mailbox<T> {
    /// An empty mailbox.
    pub fn new() -> (r: Self)
        ensures
            r@ is None,
    {
        Mailbox { slot: None }
    }

    /// Leaves `value` in the slot, dropping what it held.
    pub fn post(&mut self, value: T)
        ensures
            final(self)@ == after_post(old(self)@, value),
    {
        self.slot = Some(value);
    }

    /// Empties the slot and returns what it held.
    pub fn take(&mut self) -> (r: Option<T>)
        ensures
            r == old(self)@,
            final(self)@ is None,
    {
        self.slot.take()
    }

    /// Whether a value waits in the slot.
    pub fn is_empty(&self) -> (r: bool)
        ensures
            r == (self@ is None),
    {
        self.slot.is_none()
    }
}

/// Posting values one after another and then taking yields the last value
/// posted, and leaves the mailbox empty: the earlier values are dropped, and
/// a value already waiting is replaced.
pub proof fn lemma_latest_wins<T>(slot: Option<T>, items: Seq<T>)
    requires
        items.len() > 0,
    ensures
        after_posts(slot, items) == Some(items.last()),
{
}

/// A request from the consumer to the analysis loop.
#[derive(Clone, Copy, Debug, PartialEq, Eq, Structural)]
pub enum TerminalMessage {
    Quit,
}

/// The outcome of a non-blocking look at the control channel.
#[derive(Clone, Copy, Debug, PartialEq, Eq, Structural)]
pub enum ControlPoll {
    Received(TerminalMessage),
    Empty,
    Disconnected,
}

/// Whether the analysis loop keeps running after a look at the control
/// channel: it stops on `Quit`, and when the consumer is gone.
pub fn keeps_running(poll: ControlPoll) -> (r: bool)
    ensures
        r == (poll is Empty),
{
    match poll {
        ControlPoll::Received(TerminalMessage::Quit) => false,
        ControlPoll::Empty => true,
        ControlPoll::Disconnected => false,
    }
}

} // verus!
