use screencast::screencasting::shm_layout::ShmLayout;
use screencast::screencasting::spa::{
    mark_buffer_after_render, mark_buffer_unused, Chunk, DataKind, Header, Plane, SharingBuf,
    StreamBuffer, CHUNK_FLAG_CORRUPTED, CHUNK_FLAG_NONE, HEADER_FLAG_CORRUPTED,
};

fn plane(kind: DataKind, maxsize: u32, chunk: Chunk) -> Plane {
    Plane {
        kind,
        shared: true,
        maxsize,
        fd: 3,
        chunk,
    }
}

#[test]
fn rendered_dma_buffer_restores_every_plane_without_changing_layout() {
    let chunks = [
        Chunk {
            offset: 128,
            size: 0,
            stride: 1024,
            flags: CHUNK_FLAG_CORRUPTED,
        },
        Chunk {
            offset: 4096,
            size: 0,
            stride: 256,
            flags: CHUNK_FLAG_CORRUPTED,
        },
    ];
    let mut buffer = StreamBuffer {
        planes: chunks
            .iter()
            .map(|chunk| plane(DataKind::DmaBuf, 8192, *chunk))
            .collect(),
        header: None,
    };
    let mut sequence = 7;
    mark_buffer_after_render(&mut buffer, &mut sequence, SharingBuf::Dma);
    assert_eq!(sequence, 8);
    let chunks: Vec<Chunk> = buffer.planes.iter().map(|plane| plane.chunk).collect();
    for chunk in &chunks {
        assert_eq!(chunk.size, 8192 - chunk.offset);
        assert_eq!(chunk.flags, CHUNK_FLAG_NONE);
    }
    assert_eq!((chunks[0].stride, chunks[0].offset), (1024, 128));
    assert_eq!((chunks[1].stride, chunks[1].offset), (256, 4096));
}

#[test]
fn returned_buffers_are_marked_and_can_be_used_again() {
    let chunk = Chunk {
        offset: 16,
        size: 1000,
        stride: 64,
        flags: CHUNK_FLAG_NONE,
    };
    let mut buffer = StreamBuffer {
        planes: vec![plane(DataKind::DmaBuf, 4096, chunk); 2],
        header: Some(Header { flags: 0, seq: 41 }),
    };
    mark_buffer_unused(&mut buffer);
    for plane in &buffer.planes {
        assert_eq!(plane.chunk.size, 0);
        assert_eq!(plane.chunk.flags, CHUNK_FLAG_CORRUPTED);
        assert_eq!((plane.chunk.offset, plane.chunk.stride), (16, 64));
    }
    assert_eq!(
        buffer.header,
        Some(Header {
            flags: HEADER_FLAG_CORRUPTED,
            seq: 41
        })
    );
    let mut sequence = u64::MAX;
    mark_buffer_after_render(&mut buffer, &mut sequence, SharingBuf::Dma);
    assert_eq!(sequence, 0);
    assert_eq!(buffer.header, Some(Header { flags: 0, seq: 0 }));
    for plane in &buffer.planes {
        assert_eq!(plane.chunk.size, 4080);
        assert_eq!(plane.chunk.flags, CHUNK_FLAG_NONE);
    }
}

#[test]
fn shared_memory_frames_fill_the_first_plane() {
    let chunk = Chunk {
        offset: 9,
        size: 9,
        stride: 9,
        flags: CHUNK_FLAG_CORRUPTED,
    };
    let mut buffer = StreamBuffer {
        planes: vec![plane(DataKind::MemFd, 800, chunk)],
        header: None,
    };
    let mut sequence = 0;
    let layout = ShmLayout {
        stride: 40,
        size: 800,
    };
    mark_buffer_after_render(&mut buffer, &mut sequence, SharingBuf::Shm(layout));
    assert_eq!(sequence, 1);
    assert_eq!(
        buffer.planes[0].chunk,
        Chunk {
            offset: 0,
            size: 800,
            stride: 40,
            flags: CHUNK_FLAG_NONE
        }
    );
    assert_eq!(buffer.header, None);
}
