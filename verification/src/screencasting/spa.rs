//! Stream buffers as the media server shares them.

use crate::screencasting::shm_layout::ShmLayout;
use vstd::prelude::*;

verus! {

pub const CHUNK_FLAG_NONE: i32 = 0;

pub const CHUNK_FLAG_CORRUPTED: i32 = 1;

pub const HEADER_FLAG_CORRUPTED: u32 = 2;

/// Which part of a plane holds pixels, and how.
#[derive(Clone, Copy, Debug, PartialEq, Eq, Structural)]
pub struct Chunk {
    pub offset: u32,
    pub size: u32,
    pub stride: i32,
    pub flags: i32,
}

/// What kind of memory a plane is.
#[derive(Clone, Copy, Debug, PartialEq, Eq, Structural)]
pub enum DataKind {
    MemFd,
    DmaBuf,
    /// Any other kind, by its number.
    Other(u32),
}

/// One plane of a buffer.
#[derive(Clone, Copy, Debug, PartialEq, Eq, Structural)]
pub struct Plane {
    pub kind: DataKind,
    /// Whether both sides may read and write the memory.
    pub shared: bool,
    pub maxsize: u32,
    pub fd: i64,
    pub chunk: Chunk,
}

/// What a buffer says about the frame in it.
#[derive(Clone, Copy, Debug, PartialEq, Eq, Structural)]
pub struct Header {
    pub flags: u32,
    pub seq: u64,
}

/// The parts of a stream buffer that tell a consumer what it holds.
pub struct StreamBuffer {
    pub planes: Vec<Plane>,
    pub header: Option<Header>,
}

/// How the pixels of a frame are shared.
#[derive(Clone, Copy, Debug, PartialEq, Eq, Structural)]
pub enum SharingBuf {
    Dma,
    Shm(ShmLayout),
}

/// A stream buffer's planes and header.
pub struct BufferState {
    pub planes: Seq<Plane>,
    pub header: Option<Header>,
}

impl View for StreamBuffer {
    type V = BufferState;

    open spec fn view(&self) -> BufferState {
        BufferState { planes: self.planes@, header: self.header }
    }
}

impl Chunk {
    /// All of a frame in shared memory.
    pub open spec fn whole_frame(layout: ShmLayout) -> Chunk {
        Chunk { offset: 0, size: layout.size, stride: layout.stride, flags: CHUNK_FLAG_NONE }
    }

    /// Nothing that a consumer should show.
    pub open spec fn unused(self) -> Chunk {
        Chunk { size: 0, flags: CHUNK_FLAG_CORRUPTED, ..self }
    }
}

impl Plane {
    /// Everything from the offset on, in a DMA-BUF.
    pub open spec fn readable(self) -> Plane {
        Plane {
            chunk: Chunk {
                size: (self.maxsize - self.chunk.offset) as u32,
                flags: CHUNK_FLAG_NONE,
                ..self.chunk
            },
            ..self
        }
    }

    pub open spec fn unused(self) -> Plane {
        Plane { chunk: self.chunk.unused(), ..self }
    }
}

impl BufferState {
    /// Whether a rendered frame can be announced in the buffer.
    pub open spec fn can_hold(self, buf: SharingBuf) -> bool {
        match buf {
            SharingBuf::Dma => forall|i: int|
                0 <= i < self.planes.len() ==> (#[trigger] self.planes[i]).chunk.offset
                    <= self.planes[i].maxsize,
            SharingBuf::Shm(_) => self.planes.len() > 0,
        }
    }

    /// The buffer with a rendered frame, which has the given number.
    pub open spec fn rendered(self, buf: SharingBuf, sequence: u64) -> BufferState {
        BufferState {
            planes: match buf {
                SharingBuf::Dma => self.planes.map_values(|plane: Plane| plane.readable()),
                SharingBuf::Shm(layout) => self.planes.update(
                    0,
                    Plane { chunk: Chunk::whole_frame(layout), ..self.planes[0] },
                ),
            },
            header: match self.header {
                Some(_) => Some(Header { flags: 0, seq: sequence }),
                None => None,
            },
        }
    }

    /// The buffer without a frame.
    pub open spec fn unused(self) -> BufferState {
        BufferState {
            planes: self.planes.map_values(|plane: Plane| plane.unused()),
            header: match self.header {
                Some(header) => Some(Header { flags: HEADER_FLAG_CORRUPTED, ..header }),
                None => None,
            },
        }
    }
}

/// The number after `sequence`, which starts again at zero.
pub open spec fn next_sequence(sequence: u64) -> u64 {
    if sequence == u64::MAX {
        0
    } else {
        (sequence + 1) as u64
    }
}

/// Announces a whole frame in shared memory.
pub fn mark_shm_chunk_rendered(chunk: &mut Chunk, layout: ShmLayout)
    ensures
        *final(chunk) == Chunk::whole_frame(layout),
{
    chunk.offset = 0;
    chunk.size = layout.size;
    chunk.stride = layout.stride;
    chunk.flags = CHUNK_FLAG_NONE;
}

/// Announces a rendered frame, and counts it.
pub fn mark_buffer_after_render(buffer: &mut StreamBuffer, sequence: &mut u64, buf: SharingBuf)
    requires
        old(buffer)@.can_hold(buf),
    ensures
        *final(sequence) == next_sequence(*old(sequence)),
        final(buffer)@ == old(buffer)@.rendered(buf, *final(sequence)),
{
    let ghost before = buffer@.planes;
    match buf {
        SharingBuf::Dma => {
            // A consumer may need the full extent, also after the buffer was returned unused.
            let count: usize = buffer.planes.len();
            let mut i: usize = 0;
            while i < count
                invariant
                    i <= count == before.len(),
                    buffer.planes@.len() == count,
                    buffer.header == old(buffer).header,
                    before == old(buffer)@.planes,
                    old(buffer)@.can_hold(SharingBuf::Dma),
                    forall|j: int| 0 <= j < i ==> #[trigger] buffer.planes@[j] == before[j].readable(),
                    forall|j: int| i <= j < count ==> #[trigger] buffer.planes@[j] == before[j],
                decreases count - i,
            {
                let mut plane = buffer.planes[i];
                assert(before[i as int].chunk.offset <= before[i as int].maxsize);
                plane.chunk.size = plane.maxsize - plane.chunk.offset;
                // The stride and the offset are those of the allocation.
                plane.chunk.flags = CHUNK_FLAG_NONE;
                buffer.planes[i] = plane;
                i = i + 1;
            }
            assert(buffer.planes@ =~= before.map_values(|plane: Plane| plane.readable()));
        },
        SharingBuf::Shm(layout) => {
            let mut plane = buffer.planes[0];
            mark_shm_chunk_rendered(&mut plane.chunk, layout);
            buffer.planes[0] = plane;
        },
    }
    *sequence = sequence.wrapping_add(1);
    if let Some(_) = buffer.header {
        // This clears the flag of a buffer that was returned unused.
        buffer.header = Some(Header { flags: 0, seq: *sequence });
    }
}

/// Marks a buffer that goes back without a frame. Some consumers look at the size, others at the
/// flags.
pub fn mark_buffer_unused(buffer: &mut StreamBuffer)
    ensures
        final(buffer)@ == old(buffer)@.unused(),
{
    let ghost before = buffer@.planes;
    let count: usize = buffer.planes.len();
    let mut i: usize = 0;
    while i < count
        invariant
            i <= count == before.len(),
            buffer.planes@.len() == count,
            buffer.header == old(buffer).header,
            before == old(buffer)@.planes,
            forall|j: int| 0 <= j < i ==> #[trigger] buffer.planes@[j] == before[j].unused(),
            forall|j: int| i <= j < count ==> #[trigger] buffer.planes@[j] == before[j],
        decreases count - i,
    {
        let mut plane = buffer.planes[i];
        plane.chunk.size = 0;
        plane.chunk.flags = CHUNK_FLAG_CORRUPTED;
        buffer.planes[i] = plane;
        i = i + 1;
    }
    assert(buffer.planes@ =~= before.map_values(|plane: Plane| plane.unused()));
    if let Some(header) = buffer.header {
        buffer.header = Some(Header { flags: HEADER_FLAG_CORRUPTED, seq: header.seq });
    }
}

/// A frame in a DMA-BUF is announced in the same way whether or not the buffer went back unused
/// before: every plane gets its full extent, and keeps its stride and its offset.
pub proof fn rendering_undoes_returning(buffer: BufferState, sequence: u64)
    ensures
        buffer.unused().rendered(SharingBuf::Dma, sequence) == buffer.rendered(
            SharingBuf::Dma,
            sequence,
        ),
        forall|i: int|
            0 <= i < buffer.planes.len() ==> {
                let before = buffer.planes[i].chunk;
                let after = (#[trigger] buffer.rendered(
                    SharingBuf::Dma,
                    sequence,
                ).planes[i]).chunk;
                &&& after.stride == before.stride
                &&& after.offset == before.offset
                &&& after.size == (buffer.planes[i].maxsize - before.offset) as u32
                &&& after.flags == CHUNK_FLAG_NONE
            },
{
    assert(buffer.unused().rendered(SharingBuf::Dma, sequence).planes =~= buffer.rendered(
        SharingBuf::Dma,
        sequence,
    ).planes);
}

/// The view of a stream buffer tells all that it says.
pub proof fn buffer_view_tells_all(buffer: StreamBuffer)
    ensures
        buffer@.planes == buffer.planes@,
        buffer@.header == buffer.header,
{
}

/// A frame that was rendered is announced whole. In a DMA-BUF every plane holds pixels from where
/// it begins to the end of its storage, and keeps its stride. In shared memory the first plane
/// holds all rows from its start, and the other planes stay. The header, if there is one, has the
/// number after the last one and no flag. Nothing else changes.
pub proof fn rendered_frames_are_announced_whole(
    buffer: &mut StreamBuffer,
    sequence: &mut u64,
    buf: SharingBuf,
    i: int,
)
    requires
        call_ensures(mark_buffer_after_render, (buffer, sequence, buf), ()),
        old(buffer)@.can_hold(buf),
        0 <= i < old(buffer)@.planes.len(),
    ensures
        *old(sequence) < u64::MAX ==> *final(sequence) == *old(sequence) + 1,
        *old(sequence) == u64::MAX ==> *final(sequence) == 0,
        final(buffer)@.planes.len() == old(buffer)@.planes.len(),
        old(buffer)@.header is None ==> final(buffer)@.header is None,
        old(buffer)@.header is Some ==> final(buffer)@.header == Some(
            Header { flags: 0, seq: *final(sequence) },
        ),
        ({
            let (before, after) = (old(buffer)@.planes[i], final(buffer)@.planes[i]);
            &&& after.kind == before.kind
            &&& after.shared == before.shared
            &&& after.maxsize == before.maxsize
            &&& after.fd == before.fd
            &&& buf is Dma ==> {
                &&& after.chunk.offset == before.chunk.offset
                &&& after.chunk.offset + after.chunk.size == after.maxsize
                &&& after.chunk.stride == before.chunk.stride
                &&& after.chunk.flags == 0
            }
            &&& buf matches SharingBuf::Shm(layout) ==> {
                &&& i == 0 ==> after.chunk == (Chunk {
                    offset: 0,
                    size: layout.size,
                    stride: layout.stride,
                    flags: 0,
                })
                &&& i > 0 ==> after.chunk == before.chunk
            }
        }),
{
    if buf is Dma {
        assert(old(buffer)@.planes[i].chunk.offset <= old(buffer)@.planes[i].maxsize);
    }
}

/// A buffer that goes back without a frame says so for every plane, by its size and by its flags,
/// and in its header, if it has one, and leaves all else.
pub proof fn unused_buffers_say_so(buffer: &mut StreamBuffer, i: int)
    requires
        call_ensures(mark_buffer_unused, (buffer,), ()),
        0 <= i < old(buffer)@.planes.len(),
    ensures
        final(buffer)@.planes.len() == old(buffer)@.planes.len(),
        ({
            let (before, after) = (old(buffer)@.planes[i], final(buffer)@.planes[i]);
            &&& after.kind == before.kind
            &&& after.shared == before.shared
            &&& after.maxsize == before.maxsize
            &&& after.fd == before.fd
            &&& after.chunk == (Chunk {
                offset: before.chunk.offset,
                size: 0,
                stride: before.chunk.stride,
                flags: 1,
            })
        }),
        old(buffer)@.header is None ==> final(buffer)@.header is None,
        old(buffer)@.header matches Some(header) ==> final(buffer)@.header == Some(
            Header { flags: 2, seq: header.seq },
        ),
{
}

/// A frame in shared memory is announced with all its rows.
pub proof fn shm_chunk_is_the_whole_frame(chunk: &mut Chunk, layout: ShmLayout)
    requires
        call_ensures(mark_shm_chunk_rendered, (chunk, layout), ()),
    ensures
        *final(chunk) == (Chunk {
            offset: 0,
            size: layout.size,
            stride: layout.stride,
            flags: 0,
        }),
{
}

/// A rendered frame can be announced in a DMA-BUF if no plane begins after its end, and in shared
/// memory if there is a plane.
pub proof fn frames_need_room(buffer: BufferState, layout: ShmLayout)
    ensures
        buffer.can_hold(SharingBuf::Shm(layout)) <==> buffer.planes.len() >= 1,
        buffer.can_hold(SharingBuf::Dma) <==> forall|i: int|
            0 <= i < buffer.planes.len() ==> buffer.planes[i].chunk.offset
                <= (#[trigger] buffer.planes[i]).maxsize,
{
}

} // verus!
