//! Per-build log fan-out: one writer, any number of readers. Each reader
//! holds a cursor into the stream of published messages; a reader that
//! subscribes late starts at the current end of the stream and so never
//! sees earlier messages. Buffering is bounded: the oldest retained
//! message is discarded when the buffer is full, and a reader that fell
//! behind the retained window learns that it lagged instead of blocking
//! the writer.

use vstd::prelude::*;

use crate::logs::LogMessage;

verus! {

/// The bound on messages retained for slow readers.
pub const LOG_CHANNEL_CAPACITY: usize = 1000;

/// A bounded, multi-reader log channel for one build.
pub struct LogChannel {
    capacity: usize,
    dropped: u64,
    buffer: Vec<LogMessage>,
    closed: bool,
    history: Ghost<Seq<LogMessage>>,
}

/// What one poll of a reader's cursor yields.
pub enum RecvOutcome<'a> {
    /// The message at the cursor, and the cursor to poll next.
    Message(&'a LogMessage, u64),
    /// The reader fell behind the retained window; it resumes at the
    /// returned cursor and has missed everything before it.
    Lagged(u64),
    /// Nothing published past the cursor yet; the writer is still there.
    Pending,
    /// Nothing published past the cursor, and the writer is gone.
    Closed,
}

impl LogChannel {
    /// Everything ever published on this channel, in publish order.
    pub closed spec fn spec_history(self) -> Seq<LogMessage> {
        self.history@
    }

    /// The number of messages published so far.
    pub open spec fn spec_total(self) -> int {
        self.spec_history().len() as int
    }

    /// The first publish index still retained in the buffer.
    pub closed spec fn spec_oldest_retained(self) -> int {
        self.dropped as int
    }

    /// Whether the writer has closed the channel.
    pub closed spec fn spec_closed(self) -> bool {
        self.closed
    }

    /// Well-formedness: the buffer retains exactly the suffix of the
    /// history past the dropped prefix, and stays within the bound.
    pub closed spec fn wf(self) -> bool {
        &&& self.capacity >= 1
        &&& self.buffer@.len() <= self.capacity
        &&& self.dropped + self.buffer@.len() == self.history@.len()
        &&& self.history@.len() <= u64::MAX
        &&& forall|i: int|
            0 <= i < self.buffer@.len() ==> self.buffer@[i] == self.history@[self.dropped + i]
    }

    /// A fresh channel with the given retention bound.
    pub fn create(capacity: usize) -> (r: LogChannel)
        requires
            capacity >= 1,
        ensures
            r.wf(),
            r.spec_total() == 0,
            !r.spec_closed(),
    {
        LogChannel {
            capacity,
            dropped: 0,
            buffer: Vec::new(),
            closed: false,
            history: Ghost(Seq::empty()),
        }
    }

    /// Appends one message to the stream, discarding the oldest retained
    /// message when the buffer is full. The writer never waits.
    pub fn publish(&mut self, m: LogMessage)
        requires
            old(self).wf(),
            !old(self).spec_closed(),
            old(self).spec_total() < u64::MAX,
        ensures
            final(self).wf(),
            !final(self).spec_closed(),
            final(self).spec_history() == old(self).spec_history().push(m),
    {
        if self.buffer.len() == self.capacity {
            self.buffer.remove(0);
            self.dropped = self.dropped + 1;
        }
        self.buffer.push(m);
        proof {
            self.history@ = self.history@.push(m);
        }
    }

    /// Marks the writer side gone; readers that catch up observe
    /// end-of-stream instead of waiting.
    pub fn close(&mut self)
        requires
            old(self).wf(),
        ensures
            final(self).wf(),
            final(self).spec_closed(),
            final(self).spec_history() == old(self).spec_history(),
    {
        self.closed = true;
    }

    /// Whether the writer side is gone.
    pub fn is_closed(&self) -> (r: bool)
        ensures
            r == self.spec_closed(),
    {
        self.closed
    }

    /// Whether another message can still be counted.
    pub fn can_publish(&self) -> (r: bool)
        requires
            self.wf(),
        ensures
            r == (self.spec_total() < u64::MAX),
    {
        self.dropped < u64::MAX - (self.buffer.len() as u64)
    }

    /// A new reader's cursor: the current end of the stream. Everything
    /// published before this point is invisible to the reader.
    pub fn subscribe(&self) -> (c: u64)
        requires
            self.wf(),
        ensures
            c == self.spec_total(),
    {
        self.dropped + (self.buffer.len() as u64)
    }

    /// Polls the message at `cursor`.
    pub fn recv(&self, cursor: u64) -> (r: RecvOutcome<'_>)
        requires
            self.wf(),
        ensures
            match r {
                RecvOutcome::Message(m, next) => {
                    &&& self.spec_oldest_retained() <= cursor < self.spec_total()
                    &&& *m == self.spec_history()[cursor as int]
                    &&& next == cursor + 1
                },
                RecvOutcome::Lagged(next) => {
                    &&& cursor < self.spec_oldest_retained()
                    &&& next == self.spec_oldest_retained()
                },
                RecvOutcome::Pending => cursor >= self.spec_total() && !self.spec_closed(),
                RecvOutcome::Closed => cursor >= self.spec_total() && self.spec_closed(),
            },
    {
        if cursor < self.dropped {
            return RecvOutcome::Lagged(self.dropped);
        }
        let total: u64 = self.dropped + (self.buffer.len() as u64);
        if cursor < total {
            let idx: usize = (cursor - self.dropped) as usize;
            return RecvOutcome::Message(&self.buffer[idx], cursor + 1);
        }
        if self.closed {
            RecvOutcome::Closed
        } else {
            RecvOutcome::Pending
        }
    }
}

/// The retained window never runs past the stream: the oldest retained
/// index is at most the publish count. A reader whose cursor is at the
/// count — a fresh subscriber, or one that caught up — is therefore
/// never behind the window, and once the writer is gone it observes
/// end-of-stream, not a lag.
pub proof fn lemma_oldest_retained_bounded(ch: LogChannel)
    requires
        ch.wf(),
    ensures
        0 <= ch.spec_oldest_retained() <= ch.spec_total(),
{
}

/// `post` is a later state of the same channel as `pre`: everything
/// published by `pre` is still in `post`'s stream, in the same order and
/// at the same positions.
pub open spec fn channel_extends(pre: LogChannel, post: LogChannel) -> bool {
    &&& pre.spec_total() <= post.spec_total()
    &&& post.spec_history().subrange(0, pre.spec_total()) == pre.spec_history()
}

/// Publishing extends the stream.
pub proof fn lemma_publish_extends(pre: LogChannel, post: LogChannel, m: LogMessage)
    requires
        post.spec_history() == pre.spec_history().push(m),
    ensures
        channel_extends(pre, post),
{
    assert(post.spec_history().subrange(0, pre.spec_total()) =~= pre.spec_history());
}

/// Extension chains across any number of publishes.
pub proof fn lemma_extends_trans(a: LogChannel, b: LogChannel, c: LogChannel)
    requires
        channel_extends(a, b),
        channel_extends(b, c),
    ensures
        channel_extends(a, c),
{
    assert(c.spec_history().subrange(0, a.spec_total()) =~= b.spec_history().subrange(
        0,
        a.spec_total(),
    ));
    assert(b.spec_history().subrange(0, a.spec_total()) =~= a.spec_history().subrange(
        0,
        a.spec_total(),
    ));
    assert(a.spec_history().subrange(0, a.spec_total()) =~= a.spec_history());
}

/// The stream a reader with cursor `c` can still receive.
pub open spec fn stream_from(ch: LogChannel, c: int) -> Seq<LogMessage> {
    ch.spec_history().skip(c)
}

/// A reader that subscribes when the channel is in state `pre` receives,
/// in any later state `post`, exactly the messages published after its
/// subscription, in publish order — and none of the messages published
/// before it subscribed.
pub proof fn lemma_late_subscriber(pre: LogChannel, post: LogChannel)
    requires
        channel_extends(pre, post),
    ensures
        stream_from(post, pre.spec_total()).len() == post.spec_total() - pre.spec_total(),
        forall|k: int|
            0 <= k < post.spec_total() - pre.spec_total() ==> stream_from(
                post,
                pre.spec_total(),
            )[k] == post.spec_history()[pre.spec_total() + k],
        post.spec_history().subrange(0, pre.spec_total()) == pre.spec_history(),
{
}

} // verus!
