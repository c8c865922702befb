//! The event buffer: two independent FIFO queues with drain-and-clear
//! semantics, decoupling the provider's asynchronous callbacks (log lines,
//! push notifications) from consumers that poll periodically.

use vstd::prelude::*;
use vstd::string::*;

verus! {

/// The queue after appending one entry: the entry goes to the back.
pub open spec fn queue_after_append(q: Seq<String>, entry: String) -> Seq<String> {
    q.push(entry)
}

/// What a drain hands back: every buffered entry, in insertion order.
pub open spec fn drain_result(q: Seq<String>) -> Seq<String> {
    q
}

/// The queue a drain leaves behind: nothing, so a second immediate drain
/// hands back the empty sequence.
pub open spec fn queue_after_drain(q: Seq<String>) -> Seq<String> {
    Seq::<String>::empty()
}

/// Two independent FIFO queues (`logs`, `callback_events`). The provider's
/// callback context appends; diagnostic consumers drain. The two queues are
/// unrelated: an operation on one never touches the other.
pub struct EventBuffer {
    pub logs: Vec<String>,
    pub callback_events: Vec<String>,
}

impl EventBuffer {
    /// A fresh buffer holds nothing in either queue.
    pub fn new() -> (r: EventBuffer)
        ensures
            r.logs@ =~= Seq::<String>::empty(),
            r.callback_events@ =~= Seq::<String>::empty(),
    {
        EventBuffer { logs: Vec::new(), callback_events: Vec::new() }
    }

    /// Append one log entry; the callback-event queue is untouched.
    pub fn append_log(&mut self, entry: String)
        ensures
            final(self).logs@ == queue_after_append(old(self).logs@, entry),
            final(self).callback_events@ == old(self).callback_events@,
    {
        self.logs.push(entry);
    }

    /// Append one push-notification payload; the log queue is untouched.
    pub fn append_callback_event(&mut self, text: String)
        ensures
            final(self).callback_events@ == queue_after_append(old(self).callback_events@, text),
            final(self).logs@ == old(self).logs@,
    {
        self.callback_events.push(text);
    }

    /// Atomically snapshot-and-clear the log queue: every entry appended
    /// since the prior drain comes back, in insertion order, and the queue
    /// is left empty.
    pub fn get_logs(&mut self) -> (r: Vec<String>)
        ensures
            r@ == drain_result(old(self).logs@),
            final(self).logs@ == queue_after_drain(old(self).logs@),
            final(self).callback_events@ == old(self).callback_events@,
    {
        let mut drained: Vec<String> = Vec::new();
        core::mem::swap(&mut drained, &mut self.logs);
        drained
    }

    /// Atomically snapshot-and-clear the callback-event queue, in insertion
    /// order; the log queue is untouched.
    pub fn get_callback_data(&mut self) -> (r: Vec<String>)
        ensures
            r@ == drain_result(old(self).callback_events@),
            final(self).callback_events@ == queue_after_drain(old(self).callback_events@),
            final(self).logs@ == old(self).logs@,
    {
        let mut drained: Vec<String> = Vec::new();
        core::mem::swap(&mut drained, &mut self.callback_events);
        drained
    }
}

/// A provider log line as the relay records it: `[level] message`.
pub fn format_log_entry(level: &str, message: &str) -> (r: String)
    ensures
        r@ == "["@ + level@ + "] "@ + message@,
{
    let mut r = String::from_str("[");
    r.append(level);
    r.append("] ");
    r.append(message);
    r
}

/// Drain semantics: appending `e1`, `e2`, `e3` to an empty log queue and
/// draining yields exactly `[e1, e2, e3]`, in insertion order; an immediate
/// second drain yields the empty sequence.
pub proof fn lemma_drain_semantics(e1: String, e2: String, e3: String)
    ensures
        drain_result(
            queue_after_append(
                queue_after_append(queue_after_append(Seq::<String>::empty(), e1), e2),
                e3,
            ),
        ) =~= seq![e1, e2, e3],
        queue_after_drain(
            queue_after_append(
                queue_after_append(queue_after_append(Seq::<String>::empty(), e1), e2),
                e3,
            ),
        ) =~= Seq::<String>::empty(),
{
}

} // verus!
