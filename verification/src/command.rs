//! Command encoding: the pass that is open and what it has pending.
//!
//! The encoder decides; the caller records. Each function that ends in
//! native commands returns them, in the order in which they are recorded.

use vstd::prelude::*;
use arrayvec::ArrayVec;
use crate::bounded::{resolves_clear, resolves_get, resolves_len, resolves_new, resolves_of, resolves_push};
use crate::resource::BufferBinding;
use crate::{RawHandle, MAX_COLOR_TARGETS, MAX_VERTEX_BUFFERS};

verus! {

/// A multisample resolve that runs when its render pass ends.
#[derive(Clone, Copy, Debug, PartialEq, Eq)]
pub struct PassResolve {
    /// Source image and subresource.
    pub src: (RawHandle, u32),
    /// Destination image and subresource.
    pub dst: (RawHandle, u32),
    /// Native pixel format of both.
    pub format: u32,
}

/// What kind of pass an encoder records.
#[derive(Clone, Copy, Debug, PartialEq, Eq, Structural)]
pub enum PassKind {
    Render,
    Compute,
    Transfer,
}

/// A vertex buffer as the input assembler takes it.
#[derive(Clone, Copy, Debug, PartialEq, Eq, Structural)]
pub struct VertexBufferView {
    pub buffer_location: u64,
    pub size_in_bytes: u32,
    pub stride_in_bytes: u32,
}

/// A change of the state in which the GPU holds a resource.
#[derive(Clone, Copy, Debug, PartialEq, Eq, Structural)]
pub struct ResourceBarrier {
    pub resource: RawHandle,
    pub subresource: u32,
    pub state_before: u32,
    pub state_after: u32,
}

/// Where the resolved image of a colour target goes.
#[derive(Clone, Copy, Debug, PartialEq, Eq)]
pub struct ResolveTarget {
    /// Destination image and subresource.
    pub base: (RawHandle, u32),
    /// Native pixel format.
    pub format: u32,
}

/// A colour target of a render pass.
#[derive(Clone, Copy, Debug, PartialEq, Eq)]
pub struct ColorAttachment {
    /// Image and subresource that is rendered to.
    pub target: (RawHandle, u32),
    pub resolve_target: Option<ResolveTarget>,
    /// Whether the pass starts from what the target holds. Otherwise the
    /// target is cleared first.
    pub load: bool,
}

impl ColorAttachment {
    /// The resolve that the attachment asks for.
    pub open spec fn resolve(&self) -> Option<PassResolve> {
        match self.resolve_target {
            Some(to) => Some(PassResolve { src: self.target, dst: to.base, format: to.format }),
            None => None,
        }
    }
}

/// The resolves of a render pass: one for each attachment with a resolve
/// target, in the order of the attachments.
pub open spec fn resolves_for(attachments: Seq<ColorAttachment>) -> Seq<PassResolve>
    decreases attachments.len(),
{
    if attachments.len() == 0 {
        Seq::empty()
    } else {
        let head = resolves_for(attachments.drop_last());
        match attachments.last().resolve() {
            Some(resolve) => head.push(resolve),
            None => head,
        }
    }
}

/// The attachments that a render pass clears before it draws: those that
/// do not load, by position.
pub open spec fn clears_for(attachments: Seq<ColorAttachment>) -> Seq<usize>
    decreases attachments.len(),
{
    if attachments.len() == 0 {
        Seq::empty()
    } else {
        let head = clears_for(attachments.drop_last());
        if attachments.last().load {
            head
        } else {
            head.push((attachments.len() - 1) as usize)
        }
    }
}

/// Why the encoder refused a call.
#[derive(Clone, Copy, Debug, PartialEq, Eq, Structural)]
pub enum UsageError {
    /// A pass is open already.
    PassAlreadyOpen,
    /// The call belongs to a pass of another kind than the encoder is in.
    WrongPass,
    /// More colour targets than a render pass can have.
    TooManyColorTargets,
    /// No vertex buffer slot of that number.
    VertexBufferSlot,
    /// The bound range does not lie in the buffer or in the address space.
    BindingOutOfRange,
    /// A command list is being recorded already.
    AlreadyRecording,
    /// No command list is being recorded.
    NotRecording,
}

/// What the encoder is doing.
#[derive(Clone, Copy, Debug, PartialEq, Eq, Structural)]
pub enum EncoderState {
    Idle,
    Render,
    Compute,
    Transfer,
}

/// What a pass has pending.
#[derive(Debug)]
pub struct PassState {
    has_label: bool,
    resolves: ArrayVec<PassResolve, MAX_COLOR_TARGETS>,
    vertex_buffers: [VertexBufferView; MAX_VERTEX_BUFFERS],
    dirty_vertex_buffers: usize,
    kind: PassKind,
}

impl PassState {
    /// Whether the pass opened a debug group that its end has to close.
    pub closed spec fn spec_has_label(&self) -> bool {
        self.has_label
    }

    /// The resolves that wait for the end of the pass, oldest first.
    pub closed spec fn resolves(&self) -> Seq<PassResolve> {
        resolves_of(self.resolves)
    }

    /// The vertex buffer of each slot.
    pub closed spec fn vertex_buffers(&self) -> Seq<VertexBufferView> {
        self.vertex_buffers@
    }

    /// Number of leading slots whose vertex buffers the next draw binds anew.
    pub closed spec fn spec_dirty_vertex_buffers(&self) -> usize {
        self.dirty_vertex_buffers
    }

    /// The kind of pass.
    pub closed spec fn spec_kind(&self) -> PassKind {
        self.kind
    }

    /// Whether nothing is pending: the state between two passes.
    pub open spec fn is_initial(&self) -> bool {
        &&& !self.spec_has_label()
        &&& self.resolves() == Seq::<PassResolve>::empty()
        &&& self.spec_dirty_vertex_buffers() == 0
        &&& self.spec_kind() == PassKind::Transfer
    }

    /// The state's invariant.
    pub open spec fn wf(&self) -> bool {
        &&& self.vertex_buffers().len() == MAX_VERTEX_BUFFERS
        &&& self.resolves().len() <= MAX_COLOR_TARGETS
        &&& self.spec_dirty_vertex_buffers() <= MAX_VERTEX_BUFFERS
        &&& self.spec_kind() != PassKind::Render ==> self.resolves().len() == 0
            && self.spec_dirty_vertex_buffers() == 0
    }

    /// The state before the first pass: nothing pending, every vertex
    /// buffer slot zeroed.
    pub fn new() -> (state: PassState)
        ensures
            state.wf(),
            state.is_initial(),
            forall|slot: int|
                0 <= slot < MAX_VERTEX_BUFFERS ==> #[trigger] state.vertex_buffers()[slot]
                    == (VertexBufferView { buffer_location: 0, size_in_bytes: 0, stride_in_bytes: 0 }),
    {
        PassState {
            has_label: false,
            resolves: resolves_new(),
            vertex_buffers: [VertexBufferView {
                buffer_location: 0,
                size_in_bytes: 0,
                stride_in_bytes: 0,
            };MAX_VERTEX_BUFFERS],
            dirty_vertex_buffers: 0,
            kind: PassKind::Transfer,
        }
    }

    /// Forgets what is pending. The vertex buffer slots keep what they hold.
    pub fn clear(&mut self)
        ensures
            final(self).is_initial(),
            final(self).vertex_buffers() == old(self).vertex_buffers(),
            old(self).vertex_buffers().len() == MAX_VERTEX_BUFFERS ==> final(self).wf(),
    {
        self.has_label = false;
        resolves_clear(&mut self.resolves);
        self.dirty_vertex_buffers = 0;
        self.kind = PassKind::Transfer;
    }

    /// Whether the pass opened a debug group that its end has to close.
    #[verifier::when_used_as_spec(spec_has_label)]
    pub fn has_label(&self) -> (b: bool)
        ensures
            b == self.spec_has_label(),
    {
        self.has_label
    }

    /// The kind of pass.
    #[verifier::when_used_as_spec(spec_kind)]
    pub fn kind(&self) -> (kind: PassKind)
        ensures
            kind == self.spec_kind(),
    {
        self.kind
    }

    /// Number of leading slots whose vertex buffers the next draw binds anew.
    #[verifier::when_used_as_spec(spec_dirty_vertex_buffers)]
    pub fn dirty_vertex_buffers(&self) -> (n: usize)
        ensures
            n == self.spec_dirty_vertex_buffers(),
    {
        self.dirty_vertex_buffers
    }

    /// Number of resolves that wait for the end of the pass.
    pub fn resolve_count(&self) -> (n: usize)
        ensures
            n == self.resolves().len(),
    {
        resolves_len(&self.resolves)
    }

    /// The vertex buffer of a slot.
    pub fn vertex_buffer(&self, slot: usize) -> (view: Option<VertexBufferView>)
        ensures
            view == (if slot < self.vertex_buffers().len() {
                Some(self.vertex_buffers()[slot as int])
            } else {
                None
            }),
    {
        if slot < MAX_VERTEX_BUFFERS {
            Some(self.vertex_buffers[slot])
        } else {
            None
        }
    }
}

/// Scratch space of an encoder.
#[derive(Debug)]
pub struct Temp {
    barriers: Vec<ResourceBarrier>,
}

impl Temp {
    /// The barriers that wait to be recorded, oldest first.
    pub closed spec fn barriers(&self) -> Seq<ResourceBarrier> {
        self.barriers@
    }

    /// Empties the scratch space.
    pub fn clear(&mut self)
        ensures
            final(self).barriers() == Seq::<ResourceBarrier>::empty(),
    {
        self.barriers.clear();
    }
}

/// A closed command list, ready to be submitted.
#[derive(Debug)]
pub struct CommandBuffer {
    pub raw: RawHandle,
}

/// What the end of a pass leaves to record.
#[derive(Debug)]
pub struct PassEnd {
    /// The resolves to record, in this order.
    pub resolves: Vec<PassResolve>,
    /// Whether to close the debug group of the pass.
    pub close_label: bool,
}

/// What to record ahead of a draw.
#[derive(Debug)]
pub struct DrawPreparation {
    /// The barriers to record first, as one batch.
    pub barriers: Vec<ResourceBarrier>,
    /// The vertex buffers to bind in one call, from slot zero on.
    pub vertex_buffers: Vec<VertexBufferView>,
}

/// Records commands into one command list at a time, pass after pass.
#[derive(Debug)]
pub struct CommandEncoder {
    allocator: RawHandle,
    device: RawHandle,
    list: Option<RawHandle>,
    free_lists: Vec<RawHandle>,
    pass: PassState,
    in_pass: bool,
    temp: Temp,
}

impl CommandEncoder {
    /// Whether a pass is open.
    pub closed spec fn spec_in_pass(&self) -> bool {
        self.in_pass
    }

    /// What the encoder is doing.
    pub open spec fn state(&self) -> EncoderState {
        if !self.spec_in_pass() {
            EncoderState::Idle
        } else {
            match self.spec_pass().spec_kind() {
                PassKind::Render => EncoderState::Render,
                PassKind::Compute => EncoderState::Compute,
                PassKind::Transfer => EncoderState::Transfer,
            }
        }
    }

    /// What the open pass has pending.
    pub closed spec fn spec_pass(&self) -> PassState {
        self.pass
    }

    /// The barriers that wait to be recorded, oldest first.
    pub closed spec fn pending_barriers(&self) -> Seq<ResourceBarrier> {
        self.temp.barriers@
    }

    /// The command list that is being recorded.
    pub closed spec fn spec_list(&self) -> Option<RawHandle> {
        self.list
    }

    /// The closed command lists that can be recorded anew, oldest first.
    pub closed spec fn free_lists(&self) -> Seq<RawHandle> {
        self.free_lists@
    }

    /// The allocator behind the command lists.
    pub closed spec fn spec_allocator(&self) -> RawHandle {
        self.allocator
    }

    /// The device that makes the command lists.
    pub closed spec fn spec_device(&self) -> RawHandle {
        self.device
    }

    /// The encoder's invariant: between passes nothing is pending.
    pub open spec fn wf(&self) -> bool {
        &&& self.spec_pass().wf()
        &&& !self.spec_in_pass() ==> self.spec_pass().is_initial()
    }

    /// Whether two encoders differ at most in the pass and its scratch space.
    pub open spec fn same_lists(&self, other: &CommandEncoder) -> bool {
        &&& self.spec_allocator() == other.spec_allocator()
        &&& self.spec_device() == other.spec_device()
        &&& self.spec_list() == other.spec_list()
        &&& self.free_lists() == other.free_lists()
    }

    /// An idle encoder without command lists.
    pub fn new(allocator: RawHandle, device: RawHandle) -> (encoder: CommandEncoder)
        ensures
            encoder.wf(),
            encoder.state() == EncoderState::Idle,
            encoder.spec_pass().is_initial(),
            encoder.pending_barriers() == Seq::<ResourceBarrier>::empty(),
            encoder.spec_list() is None,
            encoder.free_lists() == Seq::<RawHandle>::empty(),
            encoder.spec_allocator() == allocator,
            encoder.spec_device() == device,
    {
        CommandEncoder {
            allocator,
            device,
            list: None,
            free_lists: Vec::new(),
            pass: PassState::new(),
            in_pass: false,
            temp: Temp { barriers: Vec::new() },
        }
    }

    /// What the open pass has pending.
    pub fn pass(&self) -> (pass: &PassState)
        ensures
            *pass == self.spec_pass(),
    {
        &self.pass
    }

    /// Whether a pass is open.
    pub fn is_in_pass(&self) -> (b: bool)
        ensures
            b == (self.state() != EncoderState::Idle),
    {
        self.in_pass
    }

    /// Opens a pass of the given kind on an idle encoder.
    fn begin_pass(&mut self, kind: PassKind, has_label: bool)
        requires
            old(self).wf(),
            old(self).state() == EncoderState::Idle,
        ensures
            final(self).wf(),
            final(self).state() == (match kind {
                PassKind::Render => EncoderState::Render,
                PassKind::Compute => EncoderState::Compute,
                PassKind::Transfer => EncoderState::Transfer,
            }),
            final(self).pass.kind == kind,
            final(self).pass.has_label == has_label,
            final(self).pass.resolves == old(self).pass.resolves,
            final(self).pass.vertex_buffers == old(self).pass.vertex_buffers,
            final(self).pass.dirty_vertex_buffers == 0,
            final(self).temp == old(self).temp,
            final(self).same_lists(old(self)),
    {
        self.in_pass = true;
        self.pass.kind = kind;
        self.pass.has_label = has_label;
    }

    /// Opens a render pass.
    ///
    /// The resolves that the colour targets ask for are kept for the end of
    /// the pass. The result lists the targets to clear before the first
    /// draw. An encoder with an open pass refuses, as it does more colour
    /// targets than `MAX_COLOR_TARGETS`; nothing changes then.
    pub fn begin_render_pass(&mut self, has_label: bool, attachments: &Vec<ColorAttachment>) -> (r:
        Result<Vec<usize>, UsageError>)
        requires
            old(self).wf(),
        ensures
            final(self).wf(),
            final(self).same_lists(old(self)),
            final(self).pending_barriers() == old(self).pending_barriers(),
            final(self).spec_pass().vertex_buffers() == old(self).spec_pass().vertex_buffers(),
            r is Err ==> final(self).state() == old(self).state() && final(self).spec_pass() == old(self).spec_pass(),
            old(self).state() != EncoderState::Idle ==> r == Err::<Vec<usize>, UsageError>(
                UsageError::PassAlreadyOpen,
            ),
            old(self).state() == EncoderState::Idle && attachments@.len() > MAX_COLOR_TARGETS ==> r
                == Err::<Vec<usize>, UsageError>(UsageError::TooManyColorTargets),
            old(self).state() == EncoderState::Idle && attachments@.len() <= MAX_COLOR_TARGETS ==> {
                &&& r matches Ok(clears)
                &&& clears@ == clears_for(attachments@)
                &&& final(self).state() == EncoderState::Render
                &&& final(self).spec_pass().spec_kind() == PassKind::Render
                &&& final(self).spec_pass().spec_has_label() == has_label
                &&& final(self).spec_pass().resolves() == resolves_for(attachments@)
                &&& final(self).spec_pass().spec_dirty_vertex_buffers() == 0
            },
    {
        if self.in_pass {
            return Err(UsageError::PassAlreadyOpen);
        }
        if attachments.len() > MAX_COLOR_TARGETS {
            return Err(UsageError::TooManyColorTargets);
        }
        self.begin_pass(PassKind::Render, has_label);
        let mut clears: Vec<usize> = Vec::new();
        let mut k: usize = 0;
        while k < attachments.len()
            invariant
                k <= attachments@.len() <= MAX_COLOR_TARGETS,
                self.wf(),
                self.in_pass,
                self.pass.kind == PassKind::Render,
                self.pass.has_label == has_label,
                self.pass.dirty_vertex_buffers == 0,
                self.pass.vertex_buffers == old(self).pass.vertex_buffers,
                self.temp == old(self).temp,
                self.same_lists(old(self)),
                resolves_of(self.pass.resolves) == resolves_for(attachments@.take(k as int)),
                resolves_of(self.pass.resolves).len() <= k,
                clears@ == clears_for(attachments@.take(k as int)),
            decreases attachments@.len() - k,
        {
            let attachment = attachments[k];
            proof {
                assert(attachments@.take(k + 1).drop_last() =~= attachments@.take(k as int));
            }
            if !attachment.load {
                clears.push(k);
            }
            match attachment.resolve_target {
                Some(to) => {
                    resolves_push(
                        &mut self.pass.resolves,
                        PassResolve { src: attachment.target, dst: to.base, format: to.format },
                    );
                },
                None => {},
            }
            k = k + 1;
        }
        proof {
            assert(attachments@.take(k as int) =~= attachments@);
        }
        Ok(clears)
    }

    /// Opens a compute pass. An encoder with an open pass refuses, and
    /// nothing changes.
    pub fn begin_compute_pass(&mut self, has_label: bool) -> (r: Result<(), UsageError>)
        requires
            old(self).wf(),
        ensures
            final(self).wf(),
            final(self).same_lists(old(self)),
            final(self).pending_barriers() == old(self).pending_barriers(),
            final(self).spec_pass().vertex_buffers() == old(self).spec_pass().vertex_buffers(),
            r is Err ==> final(self).state() == old(self).state() && final(self).spec_pass() == old(self).spec_pass(),
            r == (if old(self).state() != EncoderState::Idle {
                Err::<(), UsageError>(UsageError::PassAlreadyOpen)
            } else {
                Ok::<(), UsageError>(())
            }),
            r is Ok ==> {
                &&& final(self).state() == EncoderState::Compute
                &&& final(self).spec_pass().spec_kind() == PassKind::Compute
                &&& final(self).spec_pass().spec_has_label() == has_label
                &&& final(self).spec_pass().resolves() == Seq::<PassResolve>::empty()
                &&& final(self).spec_pass().spec_dirty_vertex_buffers() == 0
            },
    {
        if self.in_pass {
            return Err(UsageError::PassAlreadyOpen);
        }
        self.begin_pass(PassKind::Compute, has_label);
        Ok(())
    }

    /// Opens a run of transfer operations. An encoder with an open pass
    /// refuses, and nothing changes.
    pub fn begin_transfer(&mut self) -> (r: Result<(), UsageError>)
        requires
            old(self).wf(),
        ensures
            final(self).wf(),
            final(self).same_lists(old(self)),
            final(self).pending_barriers() == old(self).pending_barriers(),
            final(self).spec_pass().vertex_buffers() == old(self).spec_pass().vertex_buffers(),
            r is Err ==> final(self).state() == old(self).state() && final(self).spec_pass() == old(self).spec_pass(),
            r == (if old(self).state() != EncoderState::Idle {
                Err::<(), UsageError>(UsageError::PassAlreadyOpen)
            } else {
                Ok::<(), UsageError>(())
            }),
            r is Ok ==> {
                &&& final(self).state() == EncoderState::Transfer
                &&& final(self).spec_pass().spec_kind() == PassKind::Transfer
                &&& !final(self).spec_pass().spec_has_label()
                &&& final(self).spec_pass().resolves() == Seq::<PassResolve>::empty()
                &&& final(self).spec_pass().spec_dirty_vertex_buffers() == 0
            },
    {
        if self.in_pass {
            return Err(UsageError::PassAlreadyOpen);
        }
        self.begin_pass(PassKind::Transfer, false);
        Ok(())
    }

    /// Ends the open pass, if one is open.
    ///
    /// The result holds what is left to record: the resolves of a render
    /// pass and the end of the pass's debug group. Whatever the encoder was
    /// doing, it is idle afterwards and nothing is pending.
    pub fn end_pass(&mut self) -> (end: PassEnd)
        requires
            old(self).wf(),
        ensures
            final(self).wf(),
            final(self).state() == EncoderState::Idle,
            final(self).spec_pass().is_initial(),
            final(self).spec_pass().vertex_buffers() == old(self).spec_pass().vertex_buffers(),
            final(self).same_lists(old(self)),
            final(self).pending_barriers() == old(self).pending_barriers(),
            end.resolves@ == old(self).spec_pass().resolves(),
            end.close_label == old(self).spec_pass().spec_has_label(),
    {
        let mut resolves: Vec<PassResolve> = Vec::new();
        let count = resolves_len(&self.pass.resolves);
        let mut k: usize = 0;
        while k < count
            invariant
                k <= count,
                count == resolves_of(self.pass.resolves).len(),
                *self == *old(self),
                resolves@ == resolves_of(self.pass.resolves).take(k as int),
            decreases count - k,
        {
            resolves.push(resolves_get(&self.pass.resolves, k));
            k = k + 1;
        }
        let close_label = self.pass.has_label;
        self.pass.clear();
        self.in_pass = false;
        PassEnd { resolves, close_label }
    }

    /// Puts a range of a buffer into a vertex buffer slot.
    ///
    /// The slot and every slot before it are bound anew by the next draw.
    /// Refused outside a render pass, for a slot that does not exist, and
    /// for a range that does not lie in its buffer, whose size does not fit
    /// in 32 bits or whose address does not fit in 64; nothing changes then.
    pub fn set_vertex_buffer(&mut self, index: u32, binding: &BufferBinding) -> (r: Result<
        (),
        UsageError,
    >)
        requires
            old(self).wf(),
        ensures
            final(self).wf(),
            final(self).state() == old(self).state(),
            final(self).same_lists(old(self)),
            final(self).pending_barriers() == old(self).pending_barriers(),
            r is Err ==> final(self).spec_pass() == old(self).spec_pass(),
            r == (if old(self).state() != EncoderState::Render {
                Err::<(), UsageError>(UsageError::WrongPass)
            } else if index >= MAX_VERTEX_BUFFERS {
                Err::<(), UsageError>(UsageError::VertexBufferSlot)
            } else if !binding_fits(binding) {
                Err::<(), UsageError>(UsageError::BindingOutOfRange)
            } else {
                Ok::<(), UsageError>(())
            }),
            r is Ok ==> {
                &&& final(self).spec_pass().vertex_buffers() == old(self).spec_pass().vertex_buffers().update(
                    index as int,
                    VertexBufferView {
                        buffer_location: binding.spec_resolve_address() as u64,
                        size_in_bytes: binding.spec_resolve_size() as u32,
                        stride_in_bytes: old(self).spec_pass().vertex_buffers()[index as int].stride_in_bytes,
                    },
                )
                &&& final(self).spec_pass().spec_dirty_vertex_buffers() == (if index + 1 > old(self).spec_pass().spec_dirty_vertex_buffers() {
                    (index + 1) as usize
                } else {
                    old(self).spec_pass().spec_dirty_vertex_buffers()
                })
                &&& final(self).spec_pass().resolves() == old(self).spec_pass().resolves()
                &&& final(self).spec_pass().spec_has_label() == old(self).spec_pass().spec_has_label()
                &&& final(self).spec_pass().spec_kind() == PassKind::Render
            },
    {
        if !self.in_pass || self.pass.kind != PassKind::Render {
            return Err(UsageError::WrongPass);
        }
        if index as usize >= MAX_VERTEX_BUFFERS {
            return Err(UsageError::VertexBufferSlot);
        }
        if binding.size.is_none() && binding.offset > binding.buffer.size {
            return Err(UsageError::BindingOutOfRange);
        }
        if binding.offset > u64::MAX - binding.buffer.gpu_address {
            return Err(UsageError::BindingOutOfRange);
        }
        let size = binding.resolve_size();
        if size > u32::MAX as u64 {
            return Err(UsageError::BindingOutOfRange);
        }
        let slot = index as usize;
        let stride = self.pass.vertex_buffers[slot].stride_in_bytes;
        self.pass.vertex_buffers[slot] = VertexBufferView {
            buffer_location: binding.resolve_address(),
            size_in_bytes: size as u32,
            stride_in_bytes: stride,
        };
        if slot + 1 > self.pass.dirty_vertex_buffers {
            self.pass.dirty_vertex_buffers = slot + 1;
        }
        Ok(())
    }

    /// Queues a barrier. It is recorded, with the others that wait, ahead
    /// of the next command that is prepared or when the barriers are flushed.
    pub fn transition(&mut self, barrier: ResourceBarrier)
        requires
            old(self).wf(),
        ensures
            final(self).wf(),
            final(self).state() == old(self).state(),
            final(self).spec_pass() == old(self).spec_pass(),
            final(self).same_lists(old(self)),
            final(self).pending_barriers() == old(self).pending_barriers().push(barrier),
    {
        self.temp.barriers.push(barrier);
    }

    /// Hands out the barriers that wait, oldest first, to be recorded as one
    /// batch. None waits afterwards.
    pub fn flush_barriers(&mut self) -> (batch: Vec<ResourceBarrier>)
        requires
            old(self).wf(),
        ensures
            final(self).wf(),
            final(self).state() == old(self).state(),
            final(self).spec_pass() == old(self).spec_pass(),
            final(self).same_lists(old(self)),
            batch@ == old(self).pending_barriers(),
            final(self).pending_barriers() == Seq::<ResourceBarrier>::empty(),
    {
        let mut batch: Vec<ResourceBarrier> = Vec::new();
        std::mem::swap(&mut batch, &mut self.temp.barriers);
        batch
    }

    /// Gets a draw ready: allowed in a render pass only.
    ///
    /// The result holds what to record ahead of the draw: the barriers that
    /// wait, then the vertex buffers of the slots that are to be bound anew.
    /// Afterwards no barrier waits and no slot is to be bound anew.
    pub fn prepare_draw(&mut self) -> (r: Result<DrawPreparation, UsageError>)
        requires
            old(self).wf(),
        ensures
            final(self).wf(),
            final(self).state() == old(self).state(),
            final(self).same_lists(old(self)),
            final(self).spec_pass().vertex_buffers() == old(self).spec_pass().vertex_buffers(),
            final(self).spec_pass().resolves() == old(self).spec_pass().resolves(),
            final(self).spec_pass().spec_has_label() == old(self).spec_pass().spec_has_label(),
            final(self).spec_pass().spec_kind() == old(self).spec_pass().spec_kind(),
            r is Ok <==> old(self).state() == EncoderState::Render,
            r matches Err(e) ==> {
                &&& e == UsageError::WrongPass
                &&& final(self).pending_barriers() == old(self).pending_barriers()
                &&& final(self).spec_pass() == old(self).spec_pass()
            },
            r matches Ok(prep) ==> {
                &&& prep.barriers@ == old(self).pending_barriers()
                &&& prep.vertex_buffers@ == old(self).spec_pass().vertex_buffers().take(
                    old(self).spec_pass().spec_dirty_vertex_buffers() as int,
                )
                &&& final(self).pending_barriers() == Seq::<ResourceBarrier>::empty()
                &&& final(self).spec_pass().spec_dirty_vertex_buffers() == 0
            },
    {
        if !self.in_pass || self.pass.kind != PassKind::Render {
            return Err(UsageError::WrongPass);
        }
        let barriers = self.flush_barriers();
        let mut vertex_buffers: Vec<VertexBufferView> = Vec::new();
        let dirty = self.pass.dirty_vertex_buffers;
        let mut slot: usize = 0;
        while slot < dirty
            invariant
                slot <= dirty <= MAX_VERTEX_BUFFERS,
                self.pass.vertex_buffers@.len() == MAX_VERTEX_BUFFERS,
                self.pass.vertex_buffers == old(self).pass.vertex_buffers,
                vertex_buffers@ == self.pass.vertex_buffers@.take(slot as int),
            decreases dirty - slot,
        {
            vertex_buffers.push(self.pass.vertex_buffers[slot]);
            slot = slot + 1;
        }
        self.pass.dirty_vertex_buffers = 0;
        Ok(DrawPreparation { barriers, vertex_buffers })
    }

    /// Starts to record a command list.
    ///
    /// A closed list that waits to be recorded anew is taken up, the one
    /// that was closed last first, and comes back as the result: the caller
    /// resets it. Without one the result is `None`: the caller creates a
    /// list and attaches it. The scratch space is emptied. Refused while a
    /// list is being recorded; nothing changes then.
    pub fn begin_encoding(&mut self) -> (r: Result<Option<RawHandle>, UsageError>)
        requires
            old(self).wf(),
        ensures
            final(self).wf(),
            final(self).state() == old(self).state(),
            final(self).spec_pass() == old(self).spec_pass(),
            final(self).spec_allocator() == old(self).spec_allocator(),
            final(self).spec_device() == old(self).spec_device(),
            r == (if old(self).spec_list() is Some {
                Err::<Option<RawHandle>, UsageError>(UsageError::AlreadyRecording)
            } else if old(self).free_lists().len() > 0 {
                Ok::<Option<RawHandle>, UsageError>(Some(old(self).free_lists().last()))
            } else {
                Ok::<Option<RawHandle>, UsageError>(None)
            }),
            r is Err ==> final(self).same_lists(old(self)) && final(self).pending_barriers() == old(
                self,
            ).pending_barriers(),
            r matches Ok(reused) ==> {
                &&& final(self).spec_list() == reused
                &&& final(self).free_lists() == (if reused is Some {
                    old(self).free_lists().drop_last()
                } else {
                    old(self).free_lists()
                })
                &&& final(self).pending_barriers() == Seq::<ResourceBarrier>::empty()
            },
    {
        if self.list.is_some() {
            return Err(UsageError::AlreadyRecording);
        }
        let reused = self.free_lists.pop();
        self.list = reused;
        self.temp.clear();
        Ok(reused)
    }

    /// Takes a command list that the caller created as the one that is
    /// recorded. Refused while a list is being recorded.
    pub fn attach_list(&mut self, list: RawHandle) -> (r: Result<(), UsageError>)
        requires
            old(self).wf(),
        ensures
            final(self).wf(),
            final(self).state() == old(self).state(),
            final(self).spec_pass() == old(self).spec_pass(),
            final(self).pending_barriers() == old(self).pending_barriers(),
            final(self).spec_allocator() == old(self).spec_allocator(),
            final(self).spec_device() == old(self).spec_device(),
            final(self).free_lists() == old(self).free_lists(),
            r is Err <==> old(self).spec_list() is Some,
            r matches Err(e) ==> e == UsageError::AlreadyRecording && final(self).spec_list() == old(
                self,
            ).spec_list(),
            r is Ok ==> final(self).spec_list() == Some(list),
    {
        if self.list.is_some() {
            return Err(UsageError::AlreadyRecording);
        }
        self.list = Some(list);
        Ok(())
    }

    /// Gives up the list that is being recorded: the caller closes it, and
    /// it waits to be recorded anew. The result is that list, if there was
    /// one.
    pub fn discard_encoding(&mut self) -> (discarded: Option<RawHandle>)
        requires
            old(self).wf(),
        ensures
            final(self).wf(),
            final(self).state() == old(self).state(),
            final(self).spec_pass() == old(self).spec_pass(),
            final(self).pending_barriers() == old(self).pending_barriers(),
            final(self).spec_allocator() == old(self).spec_allocator(),
            final(self).spec_device() == old(self).spec_device(),
            discarded == old(self).spec_list(),
            final(self).spec_list() is None,
            final(self).free_lists() == (match old(self).spec_list() {
                Some(list) => old(self).free_lists().push(list),
                None => old(self).free_lists(),
            }),
    {
        let discarded = self.list.take();
        if let Some(list) = discarded {
            self.free_lists.push(list);
        }
        discarded
    }

    /// Ends the recording: the caller closes the list, which becomes a
    /// command buffer. Refused when no list is being recorded.
    pub fn end_encoding(&mut self) -> (r: Result<CommandBuffer, UsageError>)
        requires
            old(self).wf(),
        ensures
            final(self).wf(),
            final(self).state() == old(self).state(),
            final(self).spec_pass() == old(self).spec_pass(),
            final(self).pending_barriers() == old(self).pending_barriers(),
            final(self).spec_allocator() == old(self).spec_allocator(),
            final(self).spec_device() == old(self).spec_device(),
            final(self).free_lists() == old(self).free_lists(),
            final(self).spec_list() is None,
            r == (match old(self).spec_list() {
                Some(raw) => Ok::<CommandBuffer, UsageError>(CommandBuffer { raw }),
                None => Err::<CommandBuffer, UsageError>(UsageError::NotRecording),
            }),
    {
        match self.list.take() {
            Some(raw) => Ok(CommandBuffer { raw }),
            None => Err(UsageError::NotRecording),
        }
    }

    /// Takes command buffers back whose work the GPU has finished: their
    /// lists wait to be recorded anew, in the order given. The caller
    /// resets the allocator.
    pub fn reset_all(&mut self, command_buffers: Vec<CommandBuffer>)
        requires
            old(self).wf(),
        ensures
            final(self).wf(),
            final(self).state() == old(self).state(),
            final(self).spec_pass() == old(self).spec_pass(),
            final(self).pending_barriers() == old(self).pending_barriers(),
            final(self).spec_allocator() == old(self).spec_allocator(),
            final(self).spec_device() == old(self).spec_device(),
            final(self).spec_list() == old(self).spec_list(),
            final(self).free_lists() == old(self).free_lists() + command_buffers@.map_values(
                |c: CommandBuffer| c.raw,
            ),
    {
        let mut k: usize = 0;
        while k < command_buffers.len()
            invariant
                k <= command_buffers@.len(),
                self.wf(),
                self.state() == old(self).state(),
                self.spec_pass() == old(self).spec_pass(),
                self.pending_barriers() == old(self).pending_barriers(),
                self.spec_allocator() == old(self).spec_allocator(),
                self.spec_device() == old(self).spec_device(),
                self.spec_list() == old(self).spec_list(),
                self.free_lists() == old(self).free_lists() + command_buffers@.map_values(
                    |c: CommandBuffer| c.raw,
                ).take(k as int),
            decreases command_buffers@.len() - k,
        {
            self.free_lists.push(command_buffers[k].raw);
            k = k + 1;
            assert(self.free_lists() =~= old(self).free_lists() + command_buffers@.map_values(
                |c: CommandBuffer| c.raw,
            ).take(k as int));
        }
        assert(command_buffers@.map_values(|c: CommandBuffer| c.raw).take(k as int)
            =~= command_buffers@.map_values(|c: CommandBuffer| c.raw));
    }

    /// Gets a transfer operation ready: allowed among transfer operations
    /// only.
    ///
    /// The result holds the barriers to record ahead of the operation; none
    /// waits afterwards.
    pub fn prepare_transfer(&mut self) -> (r: Result<Vec<ResourceBarrier>, UsageError>)
        requires
            old(self).wf(),
        ensures
            final(self).wf(),
            final(self).state() == old(self).state(),
            final(self).spec_pass() == old(self).spec_pass(),
            final(self).same_lists(old(self)),
            r is Ok <==> old(self).state() == EncoderState::Transfer,
            r matches Err(e) ==> e == UsageError::WrongPass && final(self).pending_barriers() == old(self).pending_barriers(),
            r matches Ok(batch) ==> batch@ == old(self).pending_barriers() && final(self).pending_barriers() == Seq::<ResourceBarrier>::empty(),
    {
        if !self.in_pass || self.pass.kind != PassKind::Transfer {
            return Err(UsageError::WrongPass);
        }
        Ok(self.flush_barriers())
    }

    /// Gets a dispatch ready: allowed in a compute pass only.
    ///
    /// The result holds the barriers to record ahead of the dispatch; none
    /// waits afterwards.
    pub fn prepare_dispatch(&mut self) -> (r: Result<Vec<ResourceBarrier>, UsageError>)
        requires
            old(self).wf(),
        ensures
            final(self).wf(),
            final(self).state() == old(self).state(),
            final(self).spec_pass() == old(self).spec_pass(),
            final(self).same_lists(old(self)),
            r is Ok <==> old(self).state() == EncoderState::Compute,
            r matches Err(e) ==> e == UsageError::WrongPass && final(self).pending_barriers() == old(self).pending_barriers(),
            r matches Ok(batch) ==> batch@ == old(self).pending_barriers() && final(self).pending_barriers() == Seq::<ResourceBarrier>::empty(),
    {
        if !self.in_pass || self.pass.kind != PassKind::Compute {
            return Err(UsageError::WrongPass);
        }
        Ok(self.flush_barriers())
    }
}

/// Whether a binding names a range that lies in its buffer, with a size
/// that fits in 32 bits and an address that fits in 64.
pub open spec fn binding_fits(binding: &BufferBinding) -> bool {
    &&& binding.size is None ==> binding.offset <= binding.buffer.size
    &&& binding.spec_resolve_address() <= u64::MAX
    &&& binding.spec_resolve_size() <= u32::MAX
}

} // verus!
