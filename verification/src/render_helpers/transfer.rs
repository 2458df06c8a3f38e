//! One transfer of pixels from a texture into the pooled buffer.
//!
//! A transfer decides which driver calls to make, one request at a time, from the replies to the
//! earlier ones. It changes driver state that belongs to the caller, and has it restored before it
//! finishes, whatever goes wrong.

use crate::geometry::Rect;
use crate::render_helpers::gl_strings::{has_bgra_extension, supports_es3};
use crate::render_helpers::pbo::Slot;
use crate::render_helpers::pixel_order::PixelOrder;
use vstd::prelude::*;

verus! {

pub const NO_ERROR: u32 = 0;

pub const CONTEXT_LOST: u32 = 0x0507;

pub const BGRA_EXT: i32 = 0x80E1;

pub const UNSIGNED_BYTE: i32 = 0x1401;

/// How many errors of earlier operations are discarded at most.
pub const MAX_PRIOR_ERRORS: u8 = 32;

/// The part of the driver's state that a transfer changes.
#[derive(Clone, Copy, Debug, PartialEq, Eq, Structural)]
pub struct PackState {
    /// The framebuffer that pixels are read from.
    pub framebuffer: i32,
    /// The buffer that pixels are packed into.
    pub buffer: i32,
    pub alignment: i32,
    pub row_length: i32,
    pub skip_rows: i32,
    pub skip_pixels: i32,
}

/// What the driver was doing when it reported an error.
#[derive(Clone, Copy, Debug, PartialEq, Eq, Structural)]
pub enum Operation {
    QueryingState,
    QueryingFormat,
    AllocatingStorage,
    ReadingPixels,
}

/// Why a transfer failed.
#[derive(Clone, Copy, Debug, PartialEq, Eq, Structural)]
pub enum TransferError {
    ContextLost,
    Driver { code: u32, operation: Operation },
    NoFramebuffer,
    IncompleteFramebuffer,
    NoBuffer,
}

/// The pixel format that the driver prefers, and the extensions it has.
pub struct ReadFormat {
    pub format: i32,
    pub kind: i32,
    pub extensions: Option<Vec<u8>>,
}

/// What the driver is asked to do.
#[derive(Clone, Copy, Debug, PartialEq, Eq, Structural)]
pub enum Request {
    /// Take the oldest error out of the error queue.
    TakeError,
    /// Get the version string.
    ReadVersion,
    /// See whether the functions for selecting a read buffer and for mapping exist.
    CheckFunctions,
    /// Get the state that the transfer is going to change.
    SaveState,
    /// Make a framebuffer.
    CreateFramebuffer,
    /// Bind the framebuffer for reading, attach the texture, and see whether it is complete.
    Attach { name: u32 },
    /// Get the preferred format, its type and the extensions.
    QueryFormat,
    /// Make a buffer.
    CreateBuffer,
    /// Bind the buffer for packing, and give it that much storage if it needs new storage.
    Bind { buffer: u32, allocate: Option<usize> },
    /// Pack rows without gaps, and read the region into the buffer.
    Read { region: Rect, order: PixelOrder },
    /// Put the state back, and delete the framebuffer if there is one.
    Restore { state: PackState, framebuffer: Option<u32> },
}

/// What the driver answers.
pub enum Reply {
    Error(u32),
    Version(Option<Vec<u8>>),
    Functions(bool),
    State(PackState),
    Name(u32),
    Complete(bool),
    Format(ReadFormat),
    Done,
}

/// What happened to the pixels: they were read in some order, the driver cannot do it at all, or
/// the transfer failed.
pub type Outcome = Result<Option<PixelOrder>, TransferError>;

/// What to do next.
#[derive(Clone, Copy, Debug, PartialEq, Eq)]
pub enum Step {
    Ask(Request),
    Finished(Result<Option<PixelOrder>, TransferError>),
}

/// Which reply a transfer is waiting for.
#[derive(Clone, Copy, Debug, PartialEq, Eq)]
pub enum Phase {
    Draining { taken: u8 },
    AskingVersion,
    AskingFunctions,
    Saving,
    CheckingState,
    CreatingFramebuffer,
    Attaching,
    AskingFormat,
    CheckingFormat,
    CreatingBuffer,
    Binding { allocating: bool },
    CheckingStorage,
    Reading,
    CheckingPixels,
    Restoring { outcome: Result<Option<PixelOrder>, TransferError> },
    Finished,
}

/// A transfer of one region into a buffer with room for one frame.
#[derive(Clone, Copy, Debug, PartialEq, Eq)]
pub struct Transfer {
    pub region: Rect,
    pub capacity: usize,
    pub phase: Phase,
    pub saved: PackState,
    pub framebuffer: u32,
    pub order: PixelOrder,
}

/// The order in which a driver can read pixels: BGRA if it says so, or else RGBA, which every
/// driver can read.
pub open spec fn order_for(answer: ReadFormat) -> PixelOrder {
    if (answer.extensions matches Some(extensions)
        && crate::render_helpers::gl_strings::has_word(
        extensions@,
        crate::render_helpers::gl_strings::bgra_extension(),
    )) || (answer.format == BGRA_EXT && answer.kind == UNSIGNED_BYTE) {
        PixelOrder::Bgra
    } else {
        PixelOrder::Rgba
    }
}

impl Transfer {
    /// Whether a reply answers the last request.
    pub open spec fn awaits(self, reply: Reply) -> bool {
        match self.phase {
            Phase::Draining { .. } => reply is Error,
            Phase::AskingVersion => reply is Version,
            Phase::AskingFunctions => reply is Functions,
            Phase::Saving => reply is State,
            Phase::CheckingState => reply is Error,
            Phase::CreatingFramebuffer => reply is Name,
            Phase::Attaching => reply is Complete,
            Phase::AskingFormat => reply is Format,
            Phase::CheckingFormat => reply is Error,
            Phase::CreatingBuffer => reply is Name,
            Phase::Binding { .. } => reply is Done,
            Phase::CheckingStorage => reply is Error,
            Phase::Reading => reply is Done,
            Phase::CheckingPixels => reply is Error,
            Phase::Restoring { .. } => reply is Done,
            Phase::Finished => false,
        }
    }

    /// Goes on with a request.
    pub open spec fn asks(self, phase: Phase, request: Request) -> (Transfer, Step) {
        (Transfer { phase, ..self }, Step::Ask(request))
    }

    /// Finishes at once. Nothing has been changed that would have to be restored.
    pub open spec fn finishes(self, outcome: Outcome) -> (Transfer, Step) {
        (Transfer { phase: Phase::Finished, ..self }, Step::Finished(outcome))
    }

    /// Finishes once the state is restored.
    pub open spec fn restores(self, outcome: Outcome) -> (Transfer, Step) {
        self.asks(
            Phase::Restoring { outcome },
            Request::Restore {
                state: self.saved,
                framebuffer: if self.framebuffer != 0 {
                    Some(self.framebuffer)
                } else {
                    None
                },
            },
        )
    }

    /// Goes on unless the driver reported an error.
    pub open spec fn checks(self, code: u32, operation: Operation, next: (Transfer, Step)) -> (
        Transfer,
        Step,
    ) {
        if code != NO_ERROR {
            self.restores(Err(TransferError::Driver { code, operation }))
        } else {
            next
        }
    }

    pub open spec fn binds(self, slot: Slot) -> (Transfer, Step) {
        self.asks(
            Phase::Binding { allocating: slot.capacity != self.capacity },
            Request::Bind {
                buffer: slot.buffer,
                allocate: if slot.capacity != self.capacity {
                    Some(self.capacity)
                } else {
                    None
                },
            },
        )
    }

    pub open spec fn reads(self) -> (Transfer, Step) {
        self.asks(Phase::Reading, Request::Read { region: self.region, order: self.order })
    }

    /// What a reply leads to.
    pub open spec fn next(self, slot: Slot, reply: Reply) -> (Transfer, Step) {
        match self.phase {
            Phase::Draining { taken } => if reply->Error_0 == CONTEXT_LOST {
                self.finishes(Err(TransferError::ContextLost))
            } else if reply->Error_0 == NO_ERROR || taken + 1 >= MAX_PRIOR_ERRORS {
                self.asks(Phase::AskingVersion, Request::ReadVersion)
            } else {
                self.asks(Phase::Draining { taken: (taken + 1) as u8 }, Request::TakeError)
            },
            Phase::AskingVersion => if reply->Version_0 is Some
                && crate::render_helpers::gl_strings::is_es3(reply->Version_0->0@) {
                self.asks(Phase::AskingFunctions, Request::CheckFunctions)
            } else {
                self.finishes(Ok(None))
            },
            Phase::AskingFunctions => if reply->Functions_0 {
                self.asks(Phase::Saving, Request::SaveState)
            } else {
                self.finishes(Ok(None))
            },
            Phase::Saving => (Transfer { saved: reply->State_0, ..self }).asks(
                Phase::CheckingState,
                Request::TakeError,
            ),
            Phase::CheckingState => self.checks(
                reply->Error_0,
                Operation::QueryingState,
                self.asks(Phase::CreatingFramebuffer, Request::CreateFramebuffer),
            ),
            Phase::CreatingFramebuffer => {
                let named = Transfer { framebuffer: reply->Name_0, ..self };
                if named.framebuffer == 0 {
                    named.restores(Err(TransferError::NoFramebuffer))
                } else {
                    named.asks(
                        Phase::Attaching,
                        Request::Attach { name: named.framebuffer },
                    )
                }
            },
            Phase::Attaching => if reply->Complete_0 {
                self.asks(Phase::AskingFormat, Request::QueryFormat)
            } else {
                self.restores(Err(TransferError::IncompleteFramebuffer))
            },
            Phase::AskingFormat => (Transfer { order: order_for(reply->Format_0), ..self }).asks(
                Phase::CheckingFormat,
                Request::TakeError,
            ),
            Phase::CheckingFormat => self.checks(
                reply->Error_0,
                Operation::QueryingFormat,
                if slot.buffer == 0 {
                    self.asks(Phase::CreatingBuffer, Request::CreateBuffer)
                } else {
                    self.binds(slot)
                },
            ),
            Phase::CreatingBuffer => if reply->Name_0 == 0 {
                self.restores(Err(TransferError::NoBuffer))
            } else {
                self.binds(Slot { buffer: reply->Name_0, ..slot })
            },
            Phase::Binding { allocating } => if allocating {
                self.asks(Phase::CheckingStorage, Request::TakeError)
            } else {
                self.reads()
            },
            Phase::CheckingStorage => self.checks(
                reply->Error_0,
                Operation::AllocatingStorage,
                self.reads(),
            ),
            Phase::Reading => self.asks(Phase::CheckingPixels, Request::TakeError),
            Phase::CheckingPixels => self.checks(
                reply->Error_0,
                Operation::ReadingPixels,
                self.restores(Ok(Some(self.order))),
            ),
            Phase::Restoring { outcome } => self.finishes(outcome),
            Phase::Finished => self.finishes(Ok(None)),
        }
    }

    /// What a reply does to the slot: a new buffer is kept, and a driver that cannot transfer at
    /// all is not asked again.
    pub open spec fn next_slot(self, slot: Slot, reply: Reply) -> Slot {
        match self.phase {
            Phase::AskingVersion | Phase::AskingFunctions => Slot {
                disabled: slot.disabled || self.next(slot, reply).1 is Finished,
                ..slot
            },
            Phase::CreatingBuffer => Slot { buffer: reply->Name_0, ..slot },
            _ => slot,
        }
    }

    /// A transfer that has not asked for anything yet but the first pending error.
    pub open spec fn starting(region: Rect, capacity: usize) -> Transfer {
        Transfer {
            region,
            capacity,
            phase: Phase::Draining { taken: 0 },
            saved: PackState {
                framebuffer: 0,
                buffer: 0,
                alignment: 0,
                row_length: 0,
                skip_rows: 0,
                skip_pixels: 0,
            },
            framebuffer: 0,
            order: PixelOrder::Rgba,
        }
    }

    /// Starts a transfer. The first request is to take an error.
    pub fn new(region: Rect, capacity: usize) -> (transfer: Transfer)
        ensures
            transfer == Transfer::starting(region, capacity),
    {
        Transfer {
            region,
            capacity,
            phase: Phase::Draining { taken: 0 },
            saved: PackState {
                framebuffer: 0,
                buffer: 0,
                alignment: 0,
                row_length: 0,
                skip_rows: 0,
                skip_pixels: 0,
            },
            framebuffer: 0,
            order: PixelOrder::Rgba,
        }
    }

    fn ask(&mut self, phase: Phase, request: Request) -> (step: Step)
        ensures
            (*final(self), step) == old(self).asks(phase, request),
    {
        self.phase = phase;
        Step::Ask(request)
    }

    fn finish(&mut self, outcome: Result<Option<PixelOrder>, TransferError>) -> (step: Step)
        ensures
            (*final(self), step) == old(self).finishes(outcome),
    {
        self.phase = Phase::Finished;
        Step::Finished(outcome)
    }

    fn restore(&mut self, outcome: Result<Option<PixelOrder>, TransferError>) -> (step: Step)
        ensures
            (*final(self), step) == old(self).restores(outcome),
    {
        let state = self.saved;
        let framebuffer: Option<u32> = if self.framebuffer != 0 {
            Some(self.framebuffer)
        } else {
            None
        };
        self.ask(Phase::Restoring { outcome }, Request::Restore { state, framebuffer })
    }

    fn bind(&mut self, slot: &Slot) -> (step: Step)
        ensures
            (*final(self), step) == old(self).binds(*slot),
    {
        let allocating = slot.capacity != self.capacity;
        let allocate: Option<usize> = if allocating {
            Some(self.capacity)
        } else {
            None
        };
        self.ask(Phase::Binding { allocating }, Request::Bind { buffer: slot.buffer, allocate })
    }

    fn read(&mut self) -> (step: Step)
        ensures
            (*final(self), step) == old(self).reads(),
    {
        let request = Request::Read { region: self.region, order: self.order };
        self.ask(Phase::Reading, request)
    }

    fn fail(&mut self, code: u32, operation: Operation) -> (step: Step)
        ensures
            (*final(self), step) == old(self).restores(
                Err(TransferError::Driver { code, operation }),
            ),
    {
        self.restore(Err(TransferError::Driver { code, operation }))
    }

    /// Takes the reply to the last request, and decides what to do next.
    pub fn step(&mut self, slot: &mut Slot, reply: Reply) -> (step: Step)
        requires
            old(self).awaits(reply),
        ensures
            (*final(self), step) == old(self).next(*old(slot), reply),
            *final(slot) == old(self).next_slot(*old(slot), reply),
    {
        match (self.phase, reply) {
            (Phase::Draining { taken }, Reply::Error(code)) => {
                if code == CONTEXT_LOST {
                    self.finish(Err(TransferError::ContextLost))
                } else if code == NO_ERROR || taken >= MAX_PRIOR_ERRORS - 1 {
                    self.ask(Phase::AskingVersion, Request::ReadVersion)
                } else {
                    self.ask(Phase::Draining { taken: taken + 1 }, Request::TakeError)
                }
            },
            (Phase::AskingVersion, Reply::Version(version)) => {
                let es3 = match version {
                    Some(version) => supports_es3(version.as_slice()),
                    None => false,
                };
                if es3 {
                    self.ask(Phase::AskingFunctions, Request::CheckFunctions)
                } else {
                    slot.disabled = true;
                    self.finish(Ok(None))
                }
            },
            (Phase::AskingFunctions, Reply::Functions(loaded)) => {
                if loaded {
                    self.ask(Phase::Saving, Request::SaveState)
                } else {
                    slot.disabled = true;
                    self.finish(Ok(None))
                }
            },
            (Phase::Saving, Reply::State(state)) => {
                self.saved = state;
                self.ask(Phase::CheckingState, Request::TakeError)
            },
            (Phase::CheckingState, Reply::Error(code)) => {
                if code != NO_ERROR {
                    self.fail(code, Operation::QueryingState)
                } else {
                    self.ask(Phase::CreatingFramebuffer, Request::CreateFramebuffer)
                }
            },
            (Phase::CreatingFramebuffer, Reply::Name(framebuffer)) => {
                self.framebuffer = framebuffer;
                if framebuffer == 0 {
                    self.restore(Err(TransferError::NoFramebuffer))
                } else {
                    self.ask(Phase::Attaching, Request::Attach { name: framebuffer })
                }
            },
            (Phase::Attaching, Reply::Complete(complete)) => {
                if complete {
                    self.ask(Phase::AskingFormat, Request::QueryFormat)
                } else {
                    self.restore(Err(TransferError::IncompleteFramebuffer))
                }
            },
            (Phase::AskingFormat, Reply::Format(answer)) => {
                let preferred = answer.format == BGRA_EXT && answer.kind == UNSIGNED_BYTE;
                let extended = match &answer.extensions {
                    Some(extensions) => has_bgra_extension(extensions.as_slice()),
                    None => false,
                };
                self.order = if extended || preferred {
                    PixelOrder::Bgra
                } else {
                    PixelOrder::Rgba
                };
                self.ask(Phase::CheckingFormat, Request::TakeError)
            },
            (Phase::CheckingFormat, Reply::Error(code)) => {
                if code != NO_ERROR {
                    self.fail(code, Operation::QueryingFormat)
                } else if slot.buffer == 0 {
                    self.ask(Phase::CreatingBuffer, Request::CreateBuffer)
                } else {
                    self.bind(slot)
                }
            },
            (Phase::CreatingBuffer, Reply::Name(buffer)) => {
                slot.buffer = buffer;
                if buffer == 0 {
                    self.restore(Err(TransferError::NoBuffer))
                } else {
                    self.bind(slot)
                }
            },
            (Phase::Binding { allocating }, _) => {
                if allocating {
                    self.ask(Phase::CheckingStorage, Request::TakeError)
                } else {
                    self.read()
                }
            },
            (Phase::CheckingStorage, Reply::Error(code)) => {
                if code != NO_ERROR {
                    self.fail(code, Operation::AllocatingStorage)
                } else {
                    self.read()
                }
            },
            (Phase::Reading, _) => self.ask(Phase::CheckingPixels, Request::TakeError),
            (Phase::CheckingPixels, Reply::Error(code)) => {
                if code != NO_ERROR {
                    self.fail(code, Operation::ReadingPixels)
                } else {
                    self.restore(Ok(Some(self.order)))
                }
            },
            (Phase::Restoring { outcome }, _) => self.finish(outcome),
            _ => {
                assert(false);
                self.finish(Ok(None))
            },
        }
    }
}

/// What a request does to the state.
pub open spec fn effect(request: Request, state: PackState) -> PackState {
    match request {
        Request::Attach { name } => PackState { framebuffer: name as i32, ..state },
        Request::Bind { buffer, .. } => PackState { buffer: buffer as i32, ..state },
        Request::Read { .. } => PackState {
            alignment: 4,
            row_length: 0,
            skip_rows: 0,
            skip_pixels: 0,
            ..state
        },
        Request::Restore { state: saved, .. } => saved,
        _ => state,
    }
}

/// What a request and its reply do to the number of framebuffers that exist.
pub open spec fn framebuffers_after(step: Step, reply: Reply, count: int) -> int {
    let made = if reply matches Reply::Name(name) && step matches Step::Ask(Request::Attach { .. })
        && name != 0 {
        1int
    } else {
        0int
    };
    let deleted = if step matches Step::Ask(Request::Restore { framebuffer: Some(_), .. }) {
        1int
    } else {
        0int
    };
    count + made - deleted
}

/// A transfer on its way, with the slot it uses and the driver as the requests left it.
pub struct Run {
    pub transfer: Transfer,
    pub slot: Slot,
    pub state: PackState,
    pub framebuffers: int,
    /// The size of each buffer's storage, as far as it is known.
    pub storage: Map<u32, int>,
    pub result: Option<Outcome>,
}

impl Run {
    pub open spec fn start(
        region: Rect,
        capacity: usize,
        slot: Slot,
        state: PackState,
        framebuffers: int,
        storage: Map<u32, int>,
    ) -> Run {
        Run {
            transfer: Transfer::starting(region, capacity),
            slot,
            state,
            framebuffers,
            storage,
            result: None,
        }
    }

    /// What a reply tells about storage, and a request does to it. New storage is there once no
    /// error was reported.
    pub open spec fn storage_after(self, reply: Reply, step: Step) -> Map<u32, int> {
        let known = if self.transfer.phase is CheckingStorage && reply == Reply::Error(NO_ERROR) {
            self.storage.insert(self.slot.buffer, self.transfer.capacity as int)
        } else {
            self.storage
        };
        match step {
            Step::Ask(Request::Bind { buffer, allocate: Some(_) }) => known.remove(buffer),
            _ => known,
        }
    }

    /// The transfer takes one more reply, and the driver carries out the request that follows.
    pub open spec fn took(self, reply: Reply) -> Run {
        let (transfer, step) = self.transfer.next(self.slot, reply);
        Run {
            transfer,
            slot: self.transfer.next_slot(self.slot, reply),
            state: match step {
                Step::Ask(request) => effect(request, self.state),
                Step::Finished(_) => self.state,
            },
            framebuffers: framebuffers_after(step, reply, self.framebuffers),
            storage: self.storage_after(reply, step),
            result: match step {
                Step::Ask(_) => None,
                Step::Finished(outcome) => Some(outcome),
            },
        }
    }

    /// Whether a driver can give this reply now. When it is asked for its state, it answers with
    /// the state it is in; otherwise it may answer anything that fits the request.
    pub open spec fn accepts(self, reply: Reply) -> bool {
        &&& self.result is None
        &&& self.transfer.awaits(reply)
        &&& self.transfer.phase is Saving ==> reply->State_0 == self.state
    }

    pub open spec fn after(self, replies: Seq<Reply>) -> Run
        decreases replies.len(),
    {
        if replies.len() == 0 {
            self
        } else {
            self.after(replies.drop_last()).took(replies.last())
        }
    }

    pub open spec fn accepts_all(self, replies: Seq<Reply>) -> bool
        decreases replies.len(),
    {
        replies.len() > 0 ==> {
            &&& self.accepts_all(replies.drop_last())
            &&& self.after(replies.drop_last()).accepts(replies.last())
        }
    }

    /// What holds between any two requests of a transfer that began in a given state.
    pub open spec fn restorable(self, state: PackState, framebuffers: int) -> bool {
        let extra = if self.transfer.framebuffer != 0 {
            1int
        } else {
            0int
        };
        match self.transfer.phase {
            Phase::Draining { .. }
            | Phase::AskingVersion
            | Phase::AskingFunctions
            | Phase::Saving => {
                &&& self.state == state
                &&& self.framebuffers == framebuffers
                &&& self.transfer.framebuffer == 0
            },
            Phase::Restoring { .. } | Phase::Finished => {
                &&& self.state == state
                &&& self.framebuffers == framebuffers
            },
            Phase::CheckingState | Phase::CreatingFramebuffer => {
                &&& self.transfer.saved == state
                &&& self.state == state
                &&& self.framebuffers == framebuffers
                &&& self.transfer.framebuffer == 0
            },
            _ => {
                &&& self.transfer.saved == state
                &&& self.framebuffers == framebuffers + extra
            },
        }
    }
}

proof fn stays_restorable(run: Run, replies: Seq<Reply>, state: PackState, framebuffers: int)
    requires
        run.accepts_all(replies),
        run.restorable(state, framebuffers),
    ensures
        run.after(replies).restorable(state, framebuffers),
    decreases replies.len(),
{
    if replies.len() > 0 {
        stays_restorable(run, replies.drop_last(), state, framebuffers);
    }
}

proof fn only_finishes_at_the_end(run: Run, replies: Seq<Reply>)
    requires
        run.accepts_all(replies),
        run.result is None,
        !(run.transfer.phase is Finished),
    ensures
        run.after(replies).result is Some <==> run.after(replies).transfer.phase is Finished,
    decreases replies.len(),
{
    if replies.len() > 0 {
        only_finishes_at_the_end(run, replies.drop_last());
    }
}

/// Whatever the driver answers, once a transfer has finished the driver is in the state in which
/// it began, and no framebuffer is left over.
pub proof fn transfer_restores_state(
    region: Rect,
    capacity: usize,
    slot: Slot,
    state: PackState,
    framebuffers: int,
    storage: Map<u32, int>,
    replies: Seq<Reply>,
)
    requires
        ({
            let start = Run::start(region, capacity, slot, state, framebuffers, storage);
            start.accepts_all(replies) && start.after(replies).result is Some
        }),
    ensures
        ({
            let start = Run::start(region, capacity, slot, state, framebuffers, storage);
            &&& start.after(replies).state == state
            &&& start.after(replies).framebuffers == framebuffers
        }),
{
    let start = Run::start(region, capacity, slot, state, framebuffers, storage);
    stays_restorable(start, replies, state, framebuffers);
    only_finishes_at_the_end(start, replies);
}

/// A transfer keeps the slot in use or not, as it was, and keeps the size of its storage. It
/// disables the slot only where the driver cannot transfer at all: errors, including those of
/// earlier operations, never do.
pub proof fn only_unsupported_drivers_disable_the_slot(run: Run, replies: Seq<Reply>)
    requires
        run.accepts_all(replies),
        run.result is None,
        !(run.transfer.phase is Finished),
    ensures
        run.after(replies).slot.busy == run.slot.busy,
        run.after(replies).slot.capacity == run.slot.capacity,
        run.after(replies).slot.context == run.slot.context,
        run.after(replies).slot.disabled != run.slot.disabled ==> run.after(replies).result == Some(
            Ok::<Option<PixelOrder>, TransferError>(None),
        ),
    decreases replies.len(),
{
    if replies.len() > 0 {
        only_unsupported_drivers_disable_the_slot(run, replies.drop_last());
        only_finishes_at_the_end(run, replies.drop_last());
    }
}

/// How many replies a transfer can still take.
pub open spec fn replies_left(phase: Phase) -> int {
    match phase {
        Phase::Draining { taken } => if taken < MAX_PRIOR_ERRORS {
            14 + MAX_PRIOR_ERRORS - taken
        } else {
            15int
        },
        Phase::AskingVersion => 14,
        Phase::AskingFunctions => 13,
        Phase::Saving => 12,
        Phase::CheckingState => 11,
        Phase::CreatingFramebuffer => 10,
        Phase::Attaching => 9,
        Phase::AskingFormat => 8,
        Phase::CheckingFormat => 7,
        Phase::CreatingBuffer => 6,
        Phase::Binding { .. } => 5,
        Phase::CheckingStorage => 4,
        Phase::Reading => 3,
        Phase::CheckingPixels => 2,
        Phase::Restoring { .. } => 1,
        Phase::Finished => 0,
    }
}

/// A transfer finishes after a bounded number of replies, whatever they are: each one takes it
/// closer to its end.
pub proof fn transfer_finishes(transfer: Transfer, slot: Slot, reply: Reply)
    requires
        transfer.awaits(reply),
    ensures
        0 <= replies_left(transfer.next(slot, reply).0.phase) < replies_left(transfer.phase),
        transfer.next(slot, reply).1 is Finished <==> replies_left(
            transfer.next(slot, reply).0.phase,
        ) == 0,
{
}

/// A transfer that succeeds has asked for exactly the region it was made for, in the order that it
/// reports.
pub proof fn success_means_the_region_was_read(transfer: Transfer, slot: Slot, reply: Reply)
    requires
        transfer.awaits(reply),
    ensures
        transfer.next(slot, reply).0.region == transfer.region,
        transfer.next(slot, reply).0.phase is Reading <==> transfer.next(slot, reply).1 == Step::Ask(
            Request::Read { region: transfer.region, order: transfer.order },
        ),
        transfer.next(slot, reply).0.phase matches Phase::Restoring { outcome: Ok(order) } ==> {
            &&& transfer.phase is CheckingPixels
            &&& order == Some(transfer.order)
        },
        transfer.next(slot, reply).1 matches Step::Finished(Ok(Some(order)))
            ==> transfer.phase matches Phase::Restoring { outcome } && outcome == Ok::<
            Option<PixelOrder>,
            TransferError,
        >(Some(order)),
{
}

/// Errors of earlier operations are discarded, not attributed to the transfer, unless the context
/// is lost.
pub proof fn earlier_errors_are_discarded(transfer: Transfer, slot: Slot, code: u32)
    requires
        transfer.phase is Draining,
        code != CONTEXT_LOST,
    ensures
        transfer.next(slot, Reply::Error(code)).1 == Step::Ask(Request::TakeError)
            || transfer.next(slot, Reply::Error(code)).1 == Step::Ask(Request::ReadVersion),
        transfer.next_slot(slot, Reply::Error(code)) == slot,
{
}

/// Whether a slot's buffer has the storage that the slot says, if it says any.
pub open spec fn has_storage(slot: Slot, storage: Map<u32, int>) -> bool {
    slot.capacity != 0 ==> {
        &&& slot.buffer != 0
        &&& storage.contains_key(slot.buffer)
        &&& storage[slot.buffer] == slot.capacity
    }
}

impl Run {
    /// Whether the buffer in use has room for a whole frame.
    pub open spec fn has_room(self) -> bool {
        &&& self.slot.buffer != 0
        &&& self.storage.contains_key(self.slot.buffer)
        &&& self.storage[self.slot.buffer] == self.transfer.capacity
    }

    /// What holds of storage between any two requests.
    pub open spec fn storage_is_known(self) -> bool {
        match self.transfer.phase {
            Phase::CheckingStorage => self.slot.buffer != 0,
            Phase::Binding { allocating } => if allocating {
                self.slot.buffer != 0
            } else {
                self.has_room()
            },
            Phase::Reading | Phase::CheckingPixels => self.has_room(),
            Phase::Restoring { outcome } => outcome matches Ok(Some(_)) ==> self.has_room(),
            Phase::Finished => self.result matches Some(Ok(Some(_))) ==> self.has_room(),
            Phase::CreatingBuffer => self.slot.buffer == 0 && self.slot.capacity == 0,
            _ => has_storage(self.slot, self.storage),
        }
    }
}

proof fn storage_stays_known(run: Run, replies: Seq<Reply>)
    requires
        run.transfer.capacity > 0,
        run.accepts_all(replies),
        run.storage_is_known(),
    ensures
        run.after(replies).storage_is_known(),
        run.after(replies).transfer.capacity == run.transfer.capacity,
    decreases replies.len(),
{
    if replies.len() > 0 {
        storage_stays_known(run, replies.drop_last());
    }
}

/// Pixels are only ever read into storage that holds a whole frame, and a slot's note of its
/// storage is right again after the transfer, whether it succeeded or not.
pub proof fn pixels_are_read_into_enough_storage(
    region: Rect,
    capacity: usize,
    slot: Slot,
    state: PackState,
    framebuffers: int,
    storage: Map<u32, int>,
    replies: Seq<Reply>,
)
    requires
        capacity > 0,
        has_storage(slot, storage),
        Run::start(region, capacity, slot, state, framebuffers, storage).accepts_all(replies),
    ensures
        ({
            let run = Run::start(region, capacity, slot, state, framebuffers, storage).after(
                replies,
            );
            &&& run.transfer.phase is Reading ==> run.has_room()
            &&& run.result matches Some(outcome) ==> has_storage(
                run.slot.finished(run.transfer, outcome matches Ok(Some(_))),
                run.storage,
            )
        }),
{
    let start = Run::start(region, capacity, slot, state, framebuffers, storage);
    storage_stays_known(start, replies);
    only_finishes_at_the_end(start, replies);
}

/// A transfer starts by taking an error, for the region and with the room that it is given, and
/// knows nothing yet.
pub proof fn transfers_start_by_taking_errors(region: Rect, capacity: usize, transfer: Transfer)
    requires
        call_ensures(Transfer::new, (region, capacity), transfer),
    ensures
        transfer.region == region,
        transfer.capacity == capacity,
        transfer.phase == (Phase::Draining { taken: 0 }),
        transfer.framebuffer == 0,
        transfer.order is Rgba,
        transfer.saved == (PackState {
            framebuffer: 0,
            buffer: 0,
            alignment: 0,
            row_length: 0,
            skip_rows: 0,
            skip_pixels: 0,
        }),
{
}

/// The codes are those of the driver.
pub proof fn codes_are_those_of_the_driver()
    ensures
        NO_ERROR == 0,
        CONTEXT_LOST == 0x0507,
        BGRA_EXT == 0x80E1,
        UNSIGNED_BYTE == 0x1401,
        MAX_PRIOR_ERRORS == 32,
{
}

/// Errors of earlier operations are taken until there is none, or until there were thirty-two. A
/// lost context ends the transfer.
pub proof fn earlier_errors_are_taken_first(
    transfer: &mut Transfer,
    slot: &mut Slot,
    code: u32,
    step: Step,
)
    requires
        call_ensures(Transfer::step, (transfer, slot, Reply::Error(code)), step),
        old(transfer).phase is Draining,
    ensures
        old(transfer).phase matches Phase::Draining { taken } ==> {
            let enough = code == 0 || taken >= 31;
            &&& code == 0x0507 ==> {
                &&& step == Step::Finished(Err(TransferError::ContextLost))
                &&& *final(transfer) == (Transfer { phase: Phase::Finished, ..*old(transfer) })
            }
            &&& code != 0x0507 && enough ==> {
                &&& step == Step::Ask(Request::ReadVersion)
                &&& *final(transfer) == (Transfer { phase: Phase::AskingVersion, ..*old(transfer) })
            }
            &&& code != 0x0507 && !enough ==> {
                &&& step == Step::Ask(Request::TakeError)
                &&& *final(transfer) == (Transfer {
                    phase: Phase::Draining { taken: (taken + 1) as u8 },
                    ..*old(transfer)
                })
            }
        },
        *final(slot) == *old(slot),
{
}

/// A driver without a version, or with one before OpenGL ES 3, disables the slot, and the transfer
/// ends without pixels. Otherwise it is asked for its functions.
pub proof fn old_drivers_are_not_asked_again(
    transfer: &mut Transfer,
    slot: &mut Slot,
    version: Option<Vec<u8>>,
    step: Step,
)
    requires
        call_ensures(Transfer::step, (transfer, slot, Reply::Version(version)), step),
        old(transfer).phase is AskingVersion,
    ensures
        ({
            let es3 = version matches Some(version) && crate::render_helpers::gl_strings::is_es3(
                version@,
            );
            &&& es3 ==> {
                &&& step == Step::Ask(Request::CheckFunctions)
                &&& final(transfer).phase is AskingFunctions
                &&& *final(slot) == *old(slot)
            }
            &&& !es3 ==> {
                &&& step == Step::Finished(Ok(None))
                &&& final(transfer).phase is Finished
                &&& *final(slot) == (Slot { disabled: true, ..*old(slot) })
            }
            &&& *final(transfer) == (Transfer { phase: final(transfer).phase, ..*old(transfer) })
        }),
{
}

/// A driver that lacks functions disables the slot, and the transfer ends without pixels. Otherwise
/// its state is saved.
pub proof fn drivers_without_functions_are_not_asked_again(
    transfer: &mut Transfer,
    slot: &mut Slot,
    loaded: bool,
    step: Step,
)
    requires
        call_ensures(Transfer::step, (transfer, slot, Reply::Functions(loaded)), step),
        old(transfer).phase is AskingFunctions,
    ensures
        loaded ==> {
            &&& step == Step::Ask(Request::SaveState)
            &&& final(transfer).phase is Saving
            &&& *final(slot) == *old(slot)
        },
        !loaded ==> {
            &&& step == Step::Finished(Ok(None))
            &&& final(transfer).phase is Finished
            &&& *final(slot) == (Slot { disabled: true, ..*old(slot) })
        },
        *final(transfer) == (Transfer { phase: final(transfer).phase, ..*old(transfer) }),
{
}

/// The state is kept for when it is put back.
pub proof fn state_is_kept_for_later(
    transfer: &mut Transfer,
    slot: &mut Slot,
    state: PackState,
    step: Step,
)
    requires
        call_ensures(Transfer::step, (transfer, slot, Reply::State(state)), step),
        old(transfer).phase is Saving,
    ensures
        step == Step::Ask(Request::TakeError),
        *final(transfer) == (Transfer {
            saved: state,
            phase: Phase::CheckingState,
            ..*old(transfer)
        }),
        *final(slot) == *old(slot),
{
}

/// An error that is reported while the transfer is under way ends it: the state is put back as it
/// was saved, the framebuffer goes if there is one, and the error is told with what was being done.
pub proof fn reported_errors_end_the_transfer(
    transfer: &mut Transfer,
    slot: &mut Slot,
    code: u32,
    step: Step,
)
    requires
        call_ensures(Transfer::step, (transfer, slot, Reply::Error(code)), step),
        old(transfer).phase is CheckingState || old(transfer).phase is CheckingFormat || old(
            transfer,
        ).phase is CheckingStorage || old(transfer).phase is CheckingPixels,
        code != 0,
    ensures
        step == Step::Ask(
            Request::Restore {
                state: old(transfer).saved,
                framebuffer: if old(transfer).framebuffer == 0 {
                    None
                } else {
                    Some(old(transfer).framebuffer)
                },
            },
        ),
        final(transfer).phase == (Phase::Restoring {
            outcome: Err(
                TransferError::Driver {
                    code,
                    operation: match old(transfer).phase {
                        Phase::CheckingState => Operation::QueryingState,
                        Phase::CheckingFormat => Operation::QueryingFormat,
                        Phase::CheckingStorage => Operation::AllocatingStorage,
                        _ => Operation::ReadingPixels,
                    },
                },
            ),
        }),
        *final(transfer) == (Transfer { phase: final(transfer).phase, ..*old(transfer) }),
        *final(slot) == *old(slot),
{
}

/// Without an error the transfer goes on: a framebuffer is made; a buffer is made, if the slot has
/// none, or bound; the pixels are read; and what was read ends the transfer once the state is put
/// back.
pub proof fn without_errors_the_transfer_goes_on(
    transfer: &mut Transfer,
    slot: &mut Slot,
    step: Step,
)
    requires
        call_ensures(Transfer::step, (transfer, slot, Reply::Error(0)), step),
        old(transfer).phase is CheckingState || old(transfer).phase is CheckingFormat || old(
            transfer,
        ).phase is CheckingStorage || old(transfer).phase is CheckingPixels,
    ensures
        old(transfer).phase is CheckingState ==> step == Step::Ask(Request::CreateFramebuffer)
            && final(transfer).phase is CreatingFramebuffer,
        old(transfer).phase is CheckingFormat && old(slot).buffer == 0 ==> step == Step::Ask(
            Request::CreateBuffer,
        ) && final(transfer).phase is CreatingBuffer,
        old(transfer).phase is CheckingFormat && old(slot).buffer != 0 ==> {
            let allocating = old(slot).capacity != old(transfer).capacity;
            &&& step == Step::Ask(
                Request::Bind {
                    buffer: old(slot).buffer,
                    allocate: if allocating {
                        Some(old(transfer).capacity)
                    } else {
                        None
                    },
                },
            )
            &&& final(transfer).phase == (Phase::Binding { allocating })
        },
        old(transfer).phase is CheckingStorage ==> step == Step::Ask(
            Request::Read { region: old(transfer).region, order: old(transfer).order },
        ) && final(transfer).phase is Reading,
        old(transfer).phase is CheckingPixels ==> {
            &&& step == Step::Ask(
                    Request::Restore {
                        state: old(transfer).saved,
                        framebuffer: if old(transfer).framebuffer == 0 {
                            None
                        } else {
                            Some(old(transfer).framebuffer)
                        },
                    },
                )
            &&& final(transfer).phase == (Phase::Restoring {
                outcome: Ok(Some(old(transfer).order)),
            })
        },
        *final(transfer) == (Transfer { phase: final(transfer).phase, ..*old(transfer) }),
        *final(slot) == *old(slot),
{
}

/// A framebuffer that was made is attached. If none could be made, the state is put back, and there
/// is none to delete.
pub proof fn framebuffers_are_attached(
    transfer: &mut Transfer,
    slot: &mut Slot,
    name: u32,
    step: Step,
)
    requires
        call_ensures(Transfer::step, (transfer, slot, Reply::Name(name)), step),
        old(transfer).phase is CreatingFramebuffer,
    ensures
        name != 0 ==> {
            &&& step == Step::Ask(Request::Attach { name })
            &&& final(transfer).phase is Attaching
        },
        name == 0 ==> {
            &&& step == Step::Ask(
                Request::Restore { state: old(transfer).saved, framebuffer: None },
            )
            &&& final(transfer).phase == (Phase::Restoring {
                outcome: Err(TransferError::NoFramebuffer),
            })
        },
        *final(transfer) == (Transfer {
            framebuffer: name,
            phase: final(transfer).phase,
            ..*old(transfer)
        }),
        *final(slot) == *old(slot),
{
}

/// A framebuffer that is complete is asked for its format. Any other one ends the transfer.
pub proof fn incomplete_framebuffers_are_not_read(
    transfer: &mut Transfer,
    slot: &mut Slot,
    complete: bool,
    step: Step,
)
    requires
        call_ensures(Transfer::step, (transfer, slot, Reply::Complete(complete)), step),
        old(transfer).phase is Attaching,
    ensures
        complete ==> step == Step::Ask(Request::QueryFormat) && final(transfer).phase
            is AskingFormat,
        !complete ==> {
            &&& step == Step::Ask(
                Request::Restore {
                    state: old(transfer).saved,
                    framebuffer: if old(transfer).framebuffer == 0 {
                        None
                    } else {
                        Some(old(transfer).framebuffer)
                    },
                },
            )
            &&& final(transfer).phase == (Phase::Restoring {
                outcome: Err(TransferError::IncompleteFramebuffer),
            })
        },
        *final(transfer) == (Transfer { phase: final(transfer).phase, ..*old(transfer) }),
        *final(slot) == *old(slot),
{
}

/// Pixels are read with blue first exactly if the extension says that they can be, or if the driver
/// prefers bytes in that order.
pub proof fn blue_comes_first_where_it_can(
    transfer: &mut Transfer,
    slot: &mut Slot,
    answer: ReadFormat,
    step: Step,
)
    requires
        call_ensures(Transfer::step, (transfer, slot, Reply::Format(answer)), step),
        old(transfer).phase is AskingFormat,
    ensures
        ({
            let extended = answer.extensions matches Some(extensions)
                && crate::render_helpers::gl_strings::has_word(
                extensions@,
                crate::render_helpers::gl_strings::bgra_extension(),
            );
            let preferred = answer.format == 0x80E1 && answer.kind == 0x1401;
            &&& final(transfer).order is Bgra <==> extended || preferred
            &&& step == Step::Ask(Request::TakeError)
            &&& *final(transfer) == (Transfer {
                order: final(transfer).order,
                phase: Phase::CheckingFormat,
                ..*old(transfer)
            })
        }),
        *final(slot) == *old(slot),
{
}

/// A buffer that was made is kept in the slot and bound, with new storage unless the slot has as
/// much. If none could be made, the transfer ends.
pub proof fn new_buffers_are_kept_and_bound(
    transfer: &mut Transfer,
    slot: &mut Slot,
    name: u32,
    step: Step,
)
    requires
        call_ensures(Transfer::step, (transfer, slot, Reply::Name(name)), step),
        old(transfer).phase is CreatingBuffer,
    ensures
        name != 0 ==> {
            let allocating = old(slot).capacity != old(transfer).capacity;
            &&& step == Step::Ask(
                Request::Bind {
                    buffer: name,
                    allocate: if allocating {
                        Some(old(transfer).capacity)
                    } else {
                        None
                    },
                },
            )
            &&& final(transfer).phase == (Phase::Binding { allocating })
        },
        name == 0 ==> {
            &&& step == Step::Ask(
                Request::Restore {
                    state: old(transfer).saved,
                    framebuffer: if old(transfer).framebuffer == 0 {
                        None
                    } else {
                        Some(old(transfer).framebuffer)
                    },
                },
            )
            &&& final(transfer).phase == (Phase::Restoring { outcome: Err(TransferError::NoBuffer) })
        },
        *final(transfer) == (Transfer { phase: final(transfer).phase, ..*old(transfer) }),
        *final(slot) == (Slot { buffer: name, ..*old(slot) }),
{
}

/// New storage is checked, and other storage is read into at once. Pixels that were read are
/// checked. Once the state is put back, the transfer ends as it was going to.
pub proof fn what_is_done_is_followed_up(
    transfer: &mut Transfer,
    slot: &mut Slot,
    step: Step,
)
    requires
        call_ensures(Transfer::step, (transfer, slot, Reply::Done), step),
        old(transfer).phase is Binding || old(transfer).phase is Reading || old(transfer).phase
            is Restoring,
    ensures
        old(transfer).phase matches Phase::Binding { allocating } ==> {
            &&& allocating ==> step == Step::Ask(Request::TakeError) && final(transfer).phase
                is CheckingStorage
            &&& !allocating ==> step == Step::Ask(
                Request::Read { region: old(transfer).region, order: old(transfer).order },
            ) && final(transfer).phase is Reading
        },
        old(transfer).phase is Reading ==> {
            &&& step == Step::Ask(Request::TakeError)
            &&& final(transfer).phase is CheckingPixels
        },
        old(transfer).phase matches Phase::Restoring { outcome } ==> step == Step::Finished(outcome)
            && final(transfer).phase is Finished,
        *final(transfer) == (Transfer { phase: final(transfer).phase, ..*old(transfer) }),
        *final(slot) == *old(slot),
{
}

/// Whatever the driver answers to what it was asked is taken, and nothing else is.
pub proof fn every_answer_is_taken(transfer: Transfer, reply: Reply)
    ensures
        transfer.phase is Draining || transfer.phase is CheckingState || transfer.phase
            is CheckingFormat || transfer.phase is CheckingStorage || transfer.phase
            is CheckingPixels ==> (transfer.awaits(reply) <==> reply is Error),
        transfer.phase is AskingVersion ==> (transfer.awaits(reply) <==> reply is Version),
        transfer.phase is AskingFunctions ==> (transfer.awaits(reply) <==> reply is Functions),
        transfer.phase is Saving ==> (transfer.awaits(reply) <==> reply is State),
        transfer.phase is CreatingFramebuffer || transfer.phase is CreatingBuffer ==> (
        transfer.awaits(reply) <==> reply is Name),
        transfer.phase is Attaching ==> (transfer.awaits(reply) <==> reply is Complete),
        transfer.phase is AskingFormat ==> (transfer.awaits(reply) <==> reply is Format),
        transfer.phase is Binding || transfer.phase is Reading || transfer.phase is Restoring ==> (
        transfer.awaits(reply) <==> reply is Done),
        transfer.phase is Finished ==> !transfer.awaits(reply),
{
}

} // verus!
