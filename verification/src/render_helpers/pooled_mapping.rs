//! Looking at the bytes in the pooled buffer.
//!
//! The buffer has to be bound and mapped meanwhile. Both are undone on every way out.

use crate::render_helpers::pbo::{GlContext, Slot};
use vstd::prelude::*;

verus! {

/// Why the bytes cannot be had.
#[derive(Clone, Copy, Debug, PartialEq, Eq, Structural)]
pub enum MapError {
    RendererChanged,
    ContextChanged,
    CannotMap,
    ContentsInvalid,
}

/// What the driver is asked to do.
#[derive(Clone, Copy, Debug, PartialEq, Eq, Structural)]
pub enum MapRequest {
    /// Get the buffer that is bound for packing.
    QueryBinding,
    /// Bind the buffer for packing, and map its first bytes for reading.
    MapBuffer { buffer: u32, len: usize },
    /// Hand the mapped bytes out.
    Copy,
    Unmap,
    /// Bind a buffer for packing.
    Bind { previous: i32 },
}

/// What the driver answers.
#[derive(Clone, Copy, Debug, PartialEq, Eq, Structural)]
pub enum MapReply {
    Binding(i32),
    Mapped(bool),
    /// The bytes have been handed out; also if whoever got them did not return normally.
    Copied,
    Unmapped(bool),
    Bound,
}

/// What to do next. At the end, `Ok` means that what became of the bytes counts.
#[derive(Clone, Copy, Debug, PartialEq, Eq)]
pub enum MapStep {
    Ask(MapRequest),
    Finished(Result<(), MapError>),
}

/// Which reply is waited for.
#[derive(Clone, Copy, Debug, PartialEq, Eq)]
pub enum MapPhase {
    Querying,
    Mapping,
    Copying,
    Unmapping,
    Binding { outcome: Result<(), MapError> },
    Finished,
}

/// One look at the first bytes in the buffer.
#[derive(Clone, Copy, Debug, PartialEq, Eq)]
pub struct MappedRead {
    pub buffer: u32,
    pub len: usize,
    pub previous: i32,
    pub phase: MapPhase,
}

/// What is wrong with looking at a slot's bytes from a context.
pub open spec fn map_error(slot: Slot, context: GlContext) -> Option<MapError> {
    if slot.context.renderer != context.renderer {
        Some(MapError::RendererChanged)
    } else if slot.context.stream != context.stream {
        Some(MapError::ContextChanged)
    } else {
        None
    }
}

impl MappedRead {
    /// Whether a reply answers the last request.
    pub open spec fn awaits(self, reply: MapReply) -> bool {
        match self.phase {
            MapPhase::Querying => reply is Binding,
            MapPhase::Mapping => reply is Mapped,
            MapPhase::Copying => reply is Copied,
            MapPhase::Unmapping => reply is Unmapped,
            MapPhase::Binding { .. } => reply is Bound,
            MapPhase::Finished => false,
        }
    }

    pub open spec fn starting(buffer: u32, len: usize) -> MappedRead {
        MappedRead { buffer, len, previous: 0, phase: MapPhase::Querying }
    }

    /// Binds the buffer that was bound before, and ends.
    pub open spec fn unbinds(self, outcome: Result<(), MapError>) -> (MappedRead, MapStep) {
        (
            MappedRead { phase: MapPhase::Binding { outcome }, ..self },
            MapStep::Ask(MapRequest::Bind { previous: self.previous }),
        )
    }

    /// What a reply leads to.
    pub open spec fn next(self, reply: MapReply) -> (MappedRead, MapStep) {
        match self.phase {
            MapPhase::Querying => (
                MappedRead { previous: reply->Binding_0, phase: MapPhase::Mapping, ..self },
                MapStep::Ask(MapRequest::MapBuffer { buffer: self.buffer, len: self.len }),
            ),
            MapPhase::Mapping => if reply->Mapped_0 {
                (
                    MappedRead { phase: MapPhase::Copying, ..self },
                    MapStep::Ask(MapRequest::Copy),
                )
            } else {
                self.unbinds(Err(MapError::CannotMap))
            },
            MapPhase::Copying => (
                MappedRead { phase: MapPhase::Unmapping, ..self },
                MapStep::Ask(MapRequest::Unmap),
            ),
            MapPhase::Unmapping => self.unbinds(
                if reply->Unmapped_0 {
                    Ok(())
                } else {
                    Err(MapError::ContentsInvalid)
                },
            ),
            MapPhase::Binding { outcome } => (
                MappedRead { phase: MapPhase::Finished, ..self },
                MapStep::Finished(outcome),
            ),
            MapPhase::Finished => (self, MapStep::Finished(Ok(()))),
        }
    }

    /// Starts to look at the first bytes in a slot's buffer. The first request is to query the
    /// binding.
    pub fn new(slot: &Slot, context: GlContext, len: usize) -> (read: Result<MappedRead, MapError>)
        ensures
            read == match map_error(*slot, context) {
                Some(error) => Err(error),
                None => Ok(MappedRead::starting(slot.buffer, len)),
            },
    {
        if slot.context.renderer != context.renderer {
            return Err(MapError::RendererChanged);
        }
        if slot.context.stream != context.stream {
            return Err(MapError::ContextChanged);
        }
        Ok(MappedRead { buffer: slot.buffer, len, previous: 0, phase: MapPhase::Querying })
    }

    /// Takes the reply to the last request, and decides what to do next.
    pub fn step(&mut self, reply: MapReply) -> (step: MapStep)
        requires
            old(self).awaits(reply),
        ensures
            (*final(self), step) == old(self).next(reply),
    {
        match (self.phase, reply) {
            (MapPhase::Querying, MapReply::Binding(previous)) => {
                self.previous = previous;
                self.phase = MapPhase::Mapping;
                MapStep::Ask(MapRequest::MapBuffer { buffer: self.buffer, len: self.len })
            },
            (MapPhase::Mapping, MapReply::Mapped(true)) => {
                self.phase = MapPhase::Copying;
                MapStep::Ask(MapRequest::Copy)
            },
            (MapPhase::Mapping, _) => self.unbind(Err(MapError::CannotMap)),
            (MapPhase::Copying, _) => {
                self.phase = MapPhase::Unmapping;
                MapStep::Ask(MapRequest::Unmap)
            },
            (MapPhase::Unmapping, MapReply::Unmapped(true)) => self.unbind(Ok(())),
            (MapPhase::Unmapping, _) => self.unbind(Err(MapError::ContentsInvalid)),
            (MapPhase::Binding { outcome }, _) => {
                self.phase = MapPhase::Finished;
                MapStep::Finished(outcome)
            },
            _ => {
                assert(false);
                MapStep::Finished(Ok(()))
            },
        }
    }

    fn unbind(&mut self, outcome: Result<(), MapError>) -> (step: MapStep)
        ensures
            (*final(self), step) == old(self).unbinds(outcome),
    {
        self.phase = MapPhase::Binding { outcome };
        MapStep::Ask(MapRequest::Bind { previous: self.previous })
    }
}

/// A look at the bytes on its way, with the driver as the requests and replies left it.
pub struct MapRun {
    pub read: MappedRead,
    /// The buffer that is bound for packing.
    pub bound: i32,
    /// Whether the buffer is mapped.
    pub mapped: bool,
    pub result: Option<Result<(), MapError>>,
}

impl MapRun {
    /// One more reply, and what the driver does on the request that follows.
    pub open spec fn took(self, reply: MapReply) -> MapRun {
        let (read, step) = self.read.next(reply);
        MapRun {
            read,
            bound: match step {
                MapStep::Ask(MapRequest::MapBuffer { buffer, .. }) => buffer as i32,
                MapStep::Ask(MapRequest::Bind { previous }) => previous,
                _ => self.bound,
            },
            mapped: match reply {
                MapReply::Mapped(mapped) => mapped,
                MapReply::Unmapped(_) => false,
                _ => self.mapped,
            },
            result: match step {
                MapStep::Ask(_) => None,
                MapStep::Finished(outcome) => Some(outcome),
            },
        }
    }

    /// Whether a driver can give this reply now. When it is asked what is bound, it says so.
    pub open spec fn accepts(self, reply: MapReply) -> bool {
        &&& self.result is None
        &&& self.read.awaits(reply)
        &&& self.read.phase is Querying ==> reply->Binding_0 == self.bound
    }

    pub open spec fn after(self, replies: Seq<MapReply>) -> MapRun
        decreases replies.len(),
    {
        if replies.len() == 0 {
            self
        } else {
            self.after(replies.drop_last()).took(replies.last())
        }
    }

    pub open spec fn accepts_all(self, replies: Seq<MapReply>) -> bool
        decreases replies.len(),
    {
        replies.len() > 0 ==> {
            &&& self.accepts_all(replies.drop_last())
            &&& self.after(replies.drop_last()).accepts(replies.last())
        }
    }

    spec fn undoable(self, bound: i32) -> bool {
        &&& self.result is Some <==> self.read.phase is Finished
        &&& match self.read.phase {
            MapPhase::Querying => self.bound == bound && !self.mapped,
            MapPhase::Mapping => self.read.previous == bound && !self.mapped,
            MapPhase::Copying | MapPhase::Unmapping => self.read.previous == bound && self.mapped,
            MapPhase::Binding { .. } | MapPhase::Finished => self.bound == bound && !self.mapped,
        }
    }
}

proof fn stays_undoable(run: MapRun, replies: Seq<MapReply>, bound: i32)
    requires
        run.accepts_all(replies),
        run.undoable(bound),
    ensures
        run.after(replies).undoable(bound),
    decreases replies.len(),
{
    if replies.len() > 0 {
        stays_undoable(run, replies.drop_last(), bound);
    }
}

/// Whatever the driver answers, at the end the buffer that was bound before is bound again, and
/// nothing stays mapped.
pub proof fn mapping_is_undone(buffer: u32, len: usize, bound: i32, replies: Seq<MapReply>)
    requires
        ({
            let start = MapRun {
                read: MappedRead::starting(buffer, len),
                bound,
                mapped: false,
                result: None,
            };
            start.accepts_all(replies) && start.after(replies).result is Some
        }),
    ensures
        ({
            let start = MapRun {
                read: MappedRead::starting(buffer, len),
                bound,
                mapped: false,
                result: None,
            };
            start.after(replies).bound == bound && !start.after(replies).mapped
        }),
{
    let start = MapRun {
        read: MappedRead::starting(buffer, len),
        bound,
        mapped: false,
        result: None,
    };
    stays_undoable(start, replies, bound);
}

/// Bytes are looked at by the renderer and in the command stream that read them. Other renderers
/// are told so first.
pub proof fn bytes_stay_in_their_context(
    slot: &Slot,
    context: GlContext,
    len: usize,
    read: Result<MappedRead, MapError>,
)
    requires
        call_ensures(MappedRead::new, (slot, context, len), read),
    ensures
        read is Ok <==> slot.context.renderer == context.renderer && slot.context.stream
            == context.stream,
        read == Err::<MappedRead, _>(MapError::RendererChanged) <==> slot.context.renderer
            != context.renderer,
        read == Err::<MappedRead, _>(MapError::ContextChanged) <==> slot.context.renderer
            == context.renderer && slot.context.stream != context.stream,
        read matches Ok(read) ==> read.buffer == slot.buffer && read.len == len && read.phase
            is Querying && read.previous == 0,
{
}

/// A buffer that can be mapped is mapped, handed out and unmapped, the buffer that was bound before
/// is bound again, and the bytes count if unmapping says so.
pub proof fn mapped_bytes_are_handed_out(
    slot: &Slot,
    context: GlContext,
    len: usize,
    read: Result<MappedRead, MapError>,
    bound: i32,
    valid: bool,
)
    requires
        call_ensures(MappedRead::new, (slot, context, len), read),
        read is Ok,
    ensures
        ({
            let (querying, map) = read->Ok_0.next(MapReply::Binding(bound));
            let (copying, copy) = querying.next(MapReply::Mapped(true));
            let (unmapping, unmap) = copying.next(MapReply::Copied);
            let (binding, bind) = unmapping.next(MapReply::Unmapped(valid));
            let (finished, end) = binding.next(MapReply::Bound);
            &&& map == MapStep::Ask(MapRequest::MapBuffer { buffer: slot.buffer, len })
            &&& copy == MapStep::Ask(MapRequest::Copy)
            &&& unmap == MapStep::Ask(MapRequest::Unmap)
            &&& bind == MapStep::Ask(MapRequest::Bind { previous: bound })
            &&& end is Finished
            &&& valid ==> end == MapStep::Finished(Ok(()))
            &&& !valid ==> end == MapStep::Finished(Err(MapError::ContentsInvalid))
            &&& finished.phase is Finished
        }),
{
}

/// A buffer that cannot be mapped is neither handed out nor unmapped. The buffer that was bound
/// before is bound again.
pub proof fn unmapped_bytes_are_not_handed_out(
    slot: &Slot,
    context: GlContext,
    len: usize,
    read: Result<MappedRead, MapError>,
    bound: i32,
)
    requires
        call_ensures(MappedRead::new, (slot, context, len), read),
        read is Ok,
    ensures
        ({
            let (querying, _) = read->Ok_0.next(MapReply::Binding(bound));
            let (binding, bind) = querying.next(MapReply::Mapped(false));
            let (finished, end) = binding.next(MapReply::Bound);
            &&& bind == MapStep::Ask(MapRequest::Bind { previous: bound })
            &&& end == MapStep::Finished(Err(MapError::CannotMap))
            &&& finished.phase is Finished
        }),
{
}

/// Each reply is answered as the one look says, and every kind of reply is taken at its time.
pub proof fn replies_are_taken_in_turn(read: &mut MappedRead, reply: MapReply, step: MapStep)
    requires
        call_ensures(MappedRead::step, (read, reply), step),
        old(read).awaits(reply),
    ensures
        final(read).buffer == old(read).buffer,
        final(read).len == old(read).len,
        reply matches MapReply::Binding(bound) ==> {
            &&& final(read).previous == bound
            &&& final(read).phase is Mapping
            &&& step == MapStep::Ask(
                MapRequest::MapBuffer { buffer: old(read).buffer, len: old(read).len },
            )
        },
        !(reply is Binding) ==> final(read).previous == old(read).previous,
        reply == MapReply::Mapped(true) ==> {
            &&& step == MapStep::Ask(MapRequest::Copy)
            &&& final(read).phase is Copying
        },
        reply is Copied ==> step == MapStep::Ask(MapRequest::Unmap) && final(read).phase
            is Unmapping,
        reply == MapReply::Mapped(false) || reply is Unmapped ==> step == MapStep::Ask(
            MapRequest::Bind { previous: old(read).previous },
        ),
        reply == MapReply::Mapped(false) ==> final(read).phase == (MapPhase::Binding {
            outcome: Err(MapError::CannotMap),
        }),
        reply == MapReply::Unmapped(false) ==> final(read).phase == (MapPhase::Binding {
            outcome: Err(MapError::ContentsInvalid),
        }),
        reply == MapReply::Unmapped(true) ==> final(read).phase == (MapPhase::Binding {
            outcome: Ok(()),
        }),
        old(read).phase matches MapPhase::Binding { outcome } ==> step == MapStep::Finished(
            outcome,
        ),
        reply is Bound <==> step is Finished,
{
}

/// Whatever the driver answers to what it was asked is taken, and nothing else is.
pub proof fn every_answer_is_taken(read: MappedRead, reply: MapReply)
    ensures
        read.awaits(reply) <==> {
            ||| read.phase is Querying && reply is Binding
            ||| read.phase is Mapping && reply is Mapped
            ||| read.phase is Copying && reply is Copied
            ||| read.phase is Unmapping && reply is Unmapped
            ||| read.phase is Binding && reply is Bound
        },
{
}

} // verus!
