//! The snapshot buffer pair: a writer fills the buffer that readers do not
//! see, then publishes it with one index update.

use crate::formatter::shown_as;
use vstd::prelude::*;
use vstd::string::*;

verus! {

/// Number of snapshot buffers.
pub const BUFFER_COUNT: usize = 2;

/// What the two sides see of the buffers: readers the published snapshot,
/// the writer the text it has staged since it acquired its handle.
pub struct BufferModel {
    pub published: Seq<char>,
    pub staged: Option<Seq<char>>,
}

/// One step of a writer or of a reader, in any interleaving: `Acquire` is
/// `Buffers::acquire_buffer`, `Append` is `MetricsBuffer::append`,
/// `Publish` is `Buffers::publish` and `Read` is `Buffers::get_metrics`.
pub enum BufferOp {
    Acquire,
    Append(Seq<char>),
    Publish,
    Read,
}

/// The buffers before the first step: an empty snapshot, no writer.
pub open spec fn initial_buffers() -> BufferModel {
    BufferModel { published: Seq::empty(), staged: None }
}

/// The buffers after one step. Only `Publish` changes what readers see,
/// and it puts the whole staged text there.
pub open spec fn buffer_step(model: BufferModel, op: BufferOp) -> BufferModel {
    match op {
        BufferOp::Acquire => match model.staged {
            None => BufferModel { staged: Some(Seq::empty()), ..model },
            Some(_) => model,
        },
        BufferOp::Append(text) => match model.staged {
            Some(staged) => BufferModel { staged: Some(staged + text), ..model },
            None => model,
        },
        BufferOp::Publish => match model.staged {
            Some(staged) => BufferModel { published: staged, staged: None },
            None => model,
        },
        BufferOp::Read => model,
    }
}

/// The buffers after a sequence of steps.
pub open spec fn buffer_run(ops: Seq<BufferOp>) -> BufferModel
    decreases ops.len(),
{
    if ops.len() == 0 {
        initial_buffers()
    } else {
        buffer_step(buffer_run(ops.drop_last()), ops.last())
    }
}

/// The text that the writer has appended since it last acquired a handle,
/// where it holds one.
pub open spec fn appended(ops: Seq<BufferOp>) -> Option<Seq<char>>
    decreases ops.len(),
{
    if ops.len() == 0 {
        None
    } else {
        let before = appended(ops.drop_last());
        match (ops.last(), before) {
            (BufferOp::Acquire, None) => Some(Seq::empty()),
            (BufferOp::Append(text), Some(written)) => Some(written + text),
            (BufferOp::Publish, _) => None,
            _ => before,
        }
    }
}

/// The snapshots that a sequence of steps has completed, in the order of
/// their publication: each is all that was appended between an acquire
/// and the publish that followed it.
pub open spec fn snapshots(ops: Seq<BufferOp>) -> Seq<Seq<char>>
    decreases ops.len(),
{
    if ops.len() == 0 {
        Seq::empty()
    } else {
        let before = snapshots(ops.drop_last());
        match (ops.last(), appended(ops.drop_last())) {
            (BufferOp::Publish, Some(written)) => before.push(written),
            _ => before,
        }
    }
}

/// Every read returns a whole snapshot. After any interleaving of writer
/// and reader steps the published text is the latest completed snapshot,
/// or empty before the first is completed: never part of a snapshot, and
/// never anything of the one that is being written.
pub proof fn lemma_reads_see_whole_snapshots(ops: Seq<BufferOp>)
    ensures
        buffer_run(ops).staged == appended(ops),
        buffer_run(ops).published == if snapshots(ops).len() == 0 {
            Seq::<char>::empty()
        } else {
            snapshots(ops).last()
        },
    decreases ops.len(),
{
    if ops.len() > 0 {
        lemma_reads_see_whole_snapshots(ops.drop_last());
    }
}

/// A writer at work changes nothing that a reader sees: acquiring,
/// appending and reading leave the published snapshot as it is.
pub proof fn lemma_writer_leaves_readers_alone(model: BufferModel, op: BufferOp)
    requires
        !(op is Publish),
    ensures
        buffer_step(model, op).published == model.published,
{
}

/// The index of one of the buffers.
#[derive(Clone, Copy)]
struct BufferIndex {
    index: usize,
}

impl BufferIndex {
    #[verifier::type_invariant]
    spec fn inv(self) -> bool {
        self.index < BUFFER_COUNT
    }

    fn first() -> (first: Self)
        ensures
            first.index == 0,
    {
        BufferIndex { index: 0 }
    }

    fn get(self) -> (index: usize)
        ensures
            index == self.index,
            index < BUFFER_COUNT,
    {
        proof {
            use_type_invariant(self);
        }
        self.index
    }

    /// The index of the other buffer.
    fn next(self) -> (next: Self)
        ensures
            next.index == 1 - self.index,
    {
        proof {
            use_type_invariant(self);
        }
        BufferIndex { index: (self.index + 1) % BUFFER_COUNT }
    }
}

/// Two text buffers and the index of the one that readers see.
pub struct Buffers {
    data: [String; BUFFER_COUNT],
    current_buffer: BufferIndex,
    writing: bool,
}

/// The write handle: exclusive access to the buffer that is not published.
/// Publishing consumes the handle, so a write is published once. Until its
/// handle comes back through `Buffers::publish` no other writer is let in;
/// `Buffers::refresh` takes and returns the handle in one call.
pub struct MetricsBuffer {
    next_buffer: BufferIndex,
    buffer: String,
}

impl View for MetricsBuffer {
    type V = Seq<char>;

    closed spec fn view(&self) -> Seq<char> {
        self.buffer@
    }
}

impl MetricsBuffer {
    /// The index of the buffer that this handle fills.
    pub closed spec fn slot(&self) -> int {
        self.next_buffer.index as int
    }

    /// Appends `text` to the snapshot that is being written. The buffers
    /// are out of its reach.
    pub fn append(&mut self, text: &str)
        ensures
            final(self)@ == old(self)@ + text@,
            final(self).slot() == old(self).slot(),
            forall|buffers: Buffers|
                buffers.seen(Some(*final(self))) == #[trigger] buffer_step(
                    buffers.seen(Some(*old(self))),
                    BufferOp::Append(text@),
                ),
    {
        self.buffer.append(text);
    }

    /// Appends what `metrics` displays to the snapshot that is being written.
    pub fn write<T: std::fmt::Display + ?Sized>(&mut self, metrics: &T) -> (this: &mut Self)
        ensures
            exists|text: String| #[trigger]
                shown_as(metrics, text) && this@ == old(self)@ + text@,
            this.slot() == old(self).slot(),
            *final(self) == *final(this),
    {
        let text = metrics.to_string();
        assert(shown_as(metrics, text));
        self.append(text.as_str());
        self
    }
}

impl Buffers {
    /// The index of the published buffer.
    pub closed spec fn current(&self) -> int {
        self.current_buffer.index as int
    }

    /// The contents of buffer `index`.
    pub closed spec fn slot(&self, index: int) -> Seq<char> {
        self.data@[index]@
    }

    /// Whether a write handle is out.
    pub closed spec fn writing(&self) -> bool {
        self.writing
    }

    /// The snapshot that readers see.
    pub open spec fn published(&self) -> Seq<char> {
        self.slot(self.current())
    }

    /// What the two sides see while the writer holds `handle`, or no
    /// handle.
    pub open spec fn seen(&self, handle: Option<MetricsBuffer>) -> BufferModel {
        BufferModel {
            published: self.published(),
            staged: match handle {
                Some(h) => Some(h@),
                None => None,
            },
        }
    }

    /// Two empty buffers, the first of them published.
    pub fn new() -> (buffers: Self)
        ensures
            buffers.current() == 0,
            buffers.slot(0) == Seq::<char>::empty(),
            buffers.slot(1) == Seq::<char>::empty(),
            !buffers.writing(),
    {
        Buffers {
            data: [String::new(), String::new()],
            current_buffer: BufferIndex::first(),
            writing: false,
        }
    }

    /// Hands out the buffer that is not published, emptied, unless a write
    /// handle is out already.
    pub fn acquire_buffer(&mut self) -> (handle: Option<MetricsBuffer>)
        ensures
            final(self).current() == old(self).current(),
            final(self).published() == old(self).published(),
            final(self).writing(),
            old(self).writing() ==> handle is None && final(self).slot(1 - old(self).current())
                == old(self).slot(1 - old(self).current()),
            !old(self).writing() ==> handle is Some && handle->0@ == Seq::<char>::empty()
                && handle->0.slot() == 1 - old(self).current() && final(self).slot(
                1 - old(self).current(),
            ) == Seq::<char>::empty(),
            !old(self).writing() ==> final(self).seen(handle) == buffer_step(
                old(self).seen(None),
                BufferOp::Acquire,
            ),
    {
        if self.writing {
            return None;
        }
        let next_buffer = self.current_buffer.next();
        self.data[next_buffer.get()] = String::new();
        self.writing = true;
        Some(MetricsBuffer { next_buffer, buffer: String::new() })
    }

    /// Publishes what `handle` holds: its text goes into its buffer, and
    /// that buffer becomes the one that readers see.
    pub fn publish(&mut self, handle: MetricsBuffer)
        ensures
            final(self).current() == handle.slot(),
            final(self).published() == handle@,
            final(self).slot(1 - handle.slot()) == old(self).slot(1 - handle.slot()),
            !final(self).writing(),
            final(self).seen(None) == buffer_step(old(self).seen(Some(handle)), BufferOp::Publish),
    {
        let MetricsBuffer { next_buffer, buffer } = handle;
        self.data[next_buffer.get()] = buffer;
        self.current_buffer = next_buffer;
        self.writing = false;
    }

    /// One refresh: acquires the write handle, lets `write` fill it, and
    /// publishes what it wrote. Nothing happens while another write handle
    /// is out.
    pub fn refresh<F>(&mut self, write: F) -> (refreshed: bool) where F: FnOnce(&mut MetricsBuffer)
        requires
            forall|handle: &mut MetricsBuffer|
                handle@ == Seq::<char>::empty() ==> #[trigger] write.requires((handle,)),
        ensures
            refreshed == !old(self).writing(),
            !refreshed ==> final(self).published() == old(self).published(),
            !refreshed ==> final(self).current() == old(self).current(),
            final(self).writing() == old(self).writing(),
            refreshed ==> exists|handle: &mut MetricsBuffer|
                handle@ == Seq::<char>::empty() && #[trigger] write.ensures((handle,), ())
                    && final(self).published() == final(handle)@,
    {
        match self.acquire_buffer() {
            Some(mut handle) => {
                write(&mut handle);
                self.publish(handle);
                true
            },
            None => false,
        }
    }

    /// A copy of the published snapshot, whatever a writer has staged.
    pub fn get_metrics(&self) -> (snapshot: String)
        ensures
            snapshot@ == self.published(),
    {
        self.data[self.current_buffer.get()].clone()
    }
}

impl Default for Buffers {
    fn default() -> (buffers: Self)
        ensures
            buffers.current() == 0,
            buffers.slot(0) == Seq::<char>::empty(),
            buffers.slot(1) == Seq::<char>::empty(),
            !buffers.writing(),
    {
        Buffers::new()
    }
}

} // verus!
