//! Readback and shared memory against a driver and a renderer that are simulated.

use screencast::drm::{FormatSet, Fourcc};
use screencast::geometry::{FrameSize, Rect, Size};
use screencast::render_helpers::pbo::{
    try_readback, try_readback_region, GlContext, PooledReadback, Readback, ReadbackError, Slot,
};
use screencast::render_helpers::pixel_order::PixelOrder;
use screencast::render_helpers::pooled_mapping::{
    MapError, MapReply, MapRequest, MapStep, MappedRead,
};
use screencast::render_helpers::staging::{
    ReadbackFrame, Staged, StagedRead, StagingError, StagingReadback, StagingReply,
    StagingRequest, StagingStep, StagingTexture, Transform,
};
use screencast::render_helpers::transfer::{
    Operation, PackState, ReadFormat, Reply, Request, Step, Transfer, TransferError, BGRA_EXT,
    CONTEXT_LOST, UNSIGNED_BYTE,
};
use screencast::screencasting::cast::{Cast, PipeWire};
use screencast::screencasting::cast_state::CastState;
use screencast::screencasting::cursor::CursorMode;
use screencast::screencasting::delivery::{AfterSync, Submitted};
use screencast::screencasting::shm_buffer::{
    allocate_shmbuf, clear_shmbuf, render_to_shmbuf, ShmError, ShmReadback, Shmbuf,
};
use screencast::screencasting::shm_mapping::MappingError;
use screencast::screencasting::shm_readback::ShmCompletion;
use screencast::screencasting::spa::{
    Chunk, DataKind, Header, Plane, StreamBuffer, CHUNK_FLAG_CORRUPTED, CHUNK_FLAG_NONE,
};
use std::collections::{HashMap, VecDeque};

const RGBA: i32 = 0x1908;
const OUT_OF_MEMORY: u32 = 0x0505;

/// Red, green, blue and alpha of each pixel.
#[derive(Clone, PartialEq)]
struct Picture {
    w: i32,
    h: i32,
    pixels: Vec<[u8; 4]>,
}

impl Picture {
    fn bytes(&self, region: Rect, order: PixelOrder) -> Vec<u8> {
        let mut bytes = Vec::new();
        for y in region.y..region.y + region.h {
            for x in region.x..region.x + region.w {
                let [r, g, b, a] = self.pixels[(y * self.w + x) as usize];
                match order {
                    PixelOrder::Bgra => bytes.extend([b, g, r, a]),
                    PixelOrder::Rgba => bytes.extend([r, g, b, a]),
                }
            }
        }
        bytes
    }
}

struct Gpu {
    context: GlContext,
    state: PackState,
    errors: VecDeque<u32>,
    next_name: u32,
    framebuffers: Vec<u32>,
    textures: HashMap<u32, Picture>,
    attached: u32,
    buffers: HashMap<u32, Vec<u8>>,
    mapped: bool,
    bgra: bool,
    version: &'static [u8],
    functions: bool,
    no_framebuffer: bool,
    incomplete: bool,
    no_buffer: bool,
    failed_allocation: bool,
    failed_query: bool,
    failed_read: bool,
    cannot_map: bool,
    lost_contents: bool,
    allocations: usize,
    native_fences: bool,
}

impl Gpu {
    fn new(renderer: u64, stream: u64) -> Gpu {
        Gpu {
            context: GlContext { renderer, stream },
            state: PackState {
                framebuffer: 3,
                buffer: 4,
                alignment: 8,
                row_length: 31,
                skip_rows: 2,
                skip_pixels: 3,
            },
            errors: VecDeque::new(),
            next_name: 100,
            framebuffers: Vec::new(),
            textures: HashMap::new(),
            attached: 0,
            buffers: HashMap::new(),
            mapped: false,
            bgra: true,
            version: b"OpenGL ES 3.2 Mesa",
            functions: true,
            no_framebuffer: false,
            incomplete: false,
            no_buffer: false,
            failed_allocation: false,
            failed_query: false,
            failed_read: false,
            cannot_map: false,
            lost_contents: false,
            allocations: 0,
            native_fences: true,
        }
    }

    fn name(&mut self) -> u32 {
        self.next_name += 1;
        self.next_name
    }

    fn solid_texture(&mut self, size: Size, color: [u8; 4]) -> u32 {
        let name = self.name();
        self.textures.insert(
            name,
            Picture {
                w: size.w,
                h: size.h,
                pixels: vec![color; (size.w * size.h) as usize],
            },
        );
        name
    }

    fn perform(&mut self, request: Request, texture: u32) -> Reply {
        match request {
            Request::TakeError => Reply::Error(self.errors.pop_front().unwrap_or(0)),
            Request::ReadVersion => Reply::Version(Some(self.version.to_vec())),
            Request::CheckFunctions => Reply::Functions(self.functions),
            Request::SaveState => {
                if self.failed_query {
                    self.errors.push_back(0x0500);
                }
                Reply::State(self.state)
            }
            Request::CreateFramebuffer => {
                if self.no_framebuffer {
                    return Reply::Name(0);
                }
                let name = self.name();
                self.framebuffers.push(name);
                Reply::Name(name)
            }
            Request::Attach { name } => {
                self.state.framebuffer = name as i32;
                self.attached = texture;
                Reply::Complete(!self.incomplete)
            }
            Request::QueryFormat => Reply::Format(ReadFormat {
                format: if self.bgra { BGRA_EXT } else { RGBA },
                kind: UNSIGNED_BYTE,
                extensions: Some(Vec::new()),
            }),
            Request::CreateBuffer => {
                if self.no_buffer {
                    return Reply::Name(0);
                }
                Reply::Name(self.name())
            }
            Request::Bind { buffer, allocate } => {
                self.state.buffer = buffer as i32;
                if let Some(len) = allocate {
                    self.allocations += 1;
                    if self.failed_allocation {
                        self.errors.push_back(OUT_OF_MEMORY);
                    } else {
                        self.buffers.insert(buffer, vec![0; len]);
                    }
                }
                Reply::Done
            }
            Request::Read { region, order } => {
                self.state.alignment = 4;
                self.state.row_length = 0;
                self.state.skip_rows = 0;
                self.state.skip_pixels = 0;
                if self.failed_read {
                    self.errors.push_back(0x0502);
                    return Reply::Done;
                }
                let bytes = self.textures[&self.attached].bytes(region, order);
                let buffer = self.buffers.get_mut(&(self.state.buffer as u32)).unwrap();
                buffer[..bytes.len()].copy_from_slice(&bytes);
                Reply::Done
            }
            Request::Restore { state, framebuffer } => {
                self.state = state;
                self.framebuffers.retain(|name| Some(*name) != framebuffer);
                Reply::Done
            }
        }
    }

    fn transfer(
        &mut self,
        slot: &mut Slot,
        texture: u32,
        mut transfer: Transfer,
    ) -> Result<Option<PixelOrder>, TransferError> {
        let mut request = Request::TakeError;
        loop {
            let reply = self.perform(request, texture);
            match transfer.step(slot, reply) {
                Step::Ask(next) => request = next,
                Step::Finished(outcome) => return outcome,
            }
        }
    }

    fn read_region(
        &mut self,
        slot: &mut Slot,
        texture: u32,
        size: Size,
        format: Fourcc,
        region: Rect,
    ) -> Result<Option<Readback>, ReadbackError> {
        let plan = try_readback_region(Some(&*slot), self.context, size, format, region)?;
        let Some(plan) = plan else { return Ok(None) };
        let outcome = self.transfer(slot, texture, plan.transfer);
        Ok(slot.finish(&plan.transfer, plan.len, outcome))
    }

    fn read(&mut self, slot: &mut Slot, texture: u32, size: Size) -> Option<Readback> {
        self.read_region(slot, texture, size, Fourcc::Argb8888, Rect::from_size(size))
            .unwrap()
    }

    /// Hands the pooled bytes out as the driver holds them.
    fn pooled_bytes(&mut self, slot: &Slot, len: usize) -> Result<Vec<u8>, MapError> {
        let mut read = MappedRead::new(slot, self.context, len)?;
        let mut request = MapRequest::QueryBinding;
        let mut bytes = Vec::new();
        loop {
            let reply = match request {
                MapRequest::QueryBinding => MapReply::Binding(self.state.buffer),
                MapRequest::MapBuffer { buffer, .. } => {
                    self.state.buffer = buffer as i32;
                    self.mapped = !self.cannot_map;
                    MapReply::Mapped(!self.cannot_map)
                }
                MapRequest::Copy => {
                    bytes = self.buffers[&slot.buffer][..len].to_vec();
                    MapReply::Copied
                }
                MapRequest::Unmap => {
                    self.mapped = false;
                    MapReply::Unmapped(!self.lost_contents)
                }
                MapRequest::Bind { previous } => {
                    self.state.buffer = previous;
                    MapReply::Bound
                }
            };
            match read.step(reply) {
                MapStep::Ask(next) => request = next,
                MapStep::Finished(outcome) => return outcome.map(|()| bytes),
            }
        }
    }

    fn frame_bytes(&mut self, slot: &Slot, readback: &Readback) -> Result<Vec<u8>, MapError> {
        let raw = match readback {
            Readback::Pooled(PooledReadback { len, .. }) => self.pooled_bytes(slot, *len)?,
            _ => Vec::new(),
        };
        Ok(readback.with_bytes(&raw, |bytes| bytes.to_vec()))
    }
}

/// A rectangle of one color.
#[derive(Clone, Copy)]
struct Solid {
    x: f64,
    y: f64,
    w: f64,
    h: f64,
    color: [u8; 4],
}

fn draw(elements: &[Solid], size: Size, scale: f64, transform: Transform) -> Picture {
    let mut pixels = Vec::new();
    for y in 0..size.h {
        for x in 0..size.w {
            let (right, bottom) = (size.w - 1 - x, size.h - 1 - y);
            let (sx, sy) = match transform {
                Transform::Normal => (x, y),
                Transform::_90 => (y, right),
                Transform::_180 => (right, bottom),
                Transform::_270 => (bottom, x),
                Transform::Flipped => (right, y),
                Transform::Flipped90 => (y, x),
                Transform::Flipped180 => (x, bottom),
                Transform::Flipped270 => (bottom, right),
            };
            let (px, py) = (f64::from(sx) / scale, f64::from(sy) / scale);
            let hit = elements
                .iter()
                .find(|e| px >= e.x && px < e.x + e.w && py >= e.y && py < e.y + e.h);
            pixels.push(hit.map_or([0; 4], |e| e.color));
        }
    }
    Picture {
        w: size.w,
        h: size.h,
        pixels,
    }
}

/// The bounding box of what differs.
fn difference(before: &Picture, after: &Picture) -> Vec<Rect> {
    let mut bounds: Option<Rect> = None;
    for y in 0..after.h {
        for x in 0..after.w {
            let at = (y * after.w + x) as usize;
            if before.pixels[at] != after.pixels[at] {
                let pixel = Rect { x, y, w: 1, h: 1 };
                bounds = Some(bounds.map_or(pixel, |b| b.merge(pixel)));
            }
        }
    }
    bounds.into_iter().collect()
}

struct Frame<'a> {
    size: Size,
    scale: f64,
    transform: Transform,
    fourcc: Fourcc,
    elements: &'a [Solid],
}

#[derive(Default)]
struct Stage {
    staging: StagingTexture,
    texture: Option<u32>,
    tracker: Option<(f64, Option<Picture>)>,
    last_damage: Option<Vec<Rect>>,
    downloaded: Vec<u8>,
    cannot_create: bool,
    cannot_bind: bool,
    cannot_render: bool,
    cannot_download: bool,
}

impl Stage {
    fn readback_frame(&self, gpu: &Gpu, frame: &Frame<'_>) -> ReadbackFrame {
        ReadbackFrame {
            size: frame.size,
            same_scale: self
                .tracker
                .as_ref()
                .is_some_and(|(scale, _)| *scale == frame.scale),
            transform: frame.transform,
            fourcc: frame.fourcc,
            context: gpu.context,
        }
    }

    fn perform(
        &mut self,
        gpu: &mut Gpu,
        slot: &mut Slot,
        frame: &Frame<'_>,
        request: StagingRequest,
    ) -> StagingReply {
        match request {
            StagingRequest::CreateTexture { size, .. } => {
                if !self.cannot_create {
                    self.texture = Some(gpu.solid_texture(size, [1, 2, 3, 4]));
                }
                StagingReply::Created(!self.cannot_create)
            }
            StagingRequest::Render { new_tracker, .. } => {
                if new_tracker {
                    self.tracker = Some((frame.scale, None));
                }
                if self.cannot_bind {
                    return StagingReply::NotBound;
                }
                if self.cannot_render {
                    self.tracker = None;
                    return StagingReply::NotRendered;
                }
                let picture = draw(frame.elements, frame.size, frame.scale, frame.transform);
                let tracker = self.tracker.as_mut().unwrap();
                let damage = match &tracker.1 {
                    Some(before) => difference(before, &picture),
                    None => vec![Rect::from_size(frame.size)],
                };
                tracker.1 = Some(picture.clone());
                gpu.textures.insert(self.texture.unwrap(), picture);
                self.last_damage = if damage.is_empty() {
                    None
                } else {
                    Some(damage.clone())
                };
                StagingReply::Rendered(damage)
            }
            StagingRequest::ReadRegion {
                size,
                fourcc,
                region,
            } => {
                let read = gpu.read_region(slot, self.texture.unwrap(), size, fourcc, region);
                StagingReply::ReadBack(read.map(|readback| match readback {
                    Some(Readback::Pooled(pooled)) => Some(pooled),
                    _ => None,
                }))
            }
            StagingRequest::Download { format } => {
                if self.cannot_download {
                    return StagingReply::Downloaded(false);
                }
                let order = if format == Fourcc::Abgr8888 {
                    PixelOrder::Rgba
                } else {
                    PixelOrder::Bgra
                };
                self.downloaded = gpu.textures[&self.texture.unwrap()]
                    .bytes(Rect::from_size(frame.size), order);
                StagingReply::Downloaded(true)
            }
        }
    }

    fn finish(
        &mut self,
        gpu: &mut Gpu,
        slot: &mut Slot,
        frame: &Frame<'_>,
        begun: (StagedRead, StagingRequest),
    ) -> Result<Staged, StagingError> {
        let (mut read, mut request) = begun;
        loop {
            let reply = self.perform(gpu, slot, frame, request);
            match read.step(&mut self.staging, reply) {
                StagingStep::Ask(next) => request = next,
                StagingStep::Finished(result) => return result,
            }
        }
    }

    fn download(&mut self, gpu: &mut Gpu, slot: &mut Slot, frame: &Frame<'_>) -> Vec<u8> {
        let begun = self
            .staging
            .render_and_download(self.readback_frame(gpu, frame));
        let staged = self.finish(gpu, slot, frame, begun);
        assert!(matches!(staged, Ok(Staged::Downloaded)));
        self.downloaded.clone()
    }

    fn readback(&mut self, gpu: &mut Gpu, slot: &mut Slot, frame: &Frame<'_>) -> Readback {
        let begun = self
            .staging
            .render_and_readback(self.readback_frame(gpu, frame));
        match self.finish(gpu, slot, frame, begun) {
            Ok(Staged::ReadBack(readback)) => readback,
            _ => panic!("frame was not read"),
        }
    }

    fn frame_bytes(
        &mut self,
        gpu: &mut Gpu,
        slot: &Slot,
        readback: &Readback,
    ) -> Result<Vec<u8>, MapError> {
        match readback {
            Readback::Pooled(_) => gpu.frame_bytes(slot, readback),
            _ => Ok(readback.with_bytes(&self.downloaded, |bytes| bytes.to_vec())),
        }
    }

    fn incremental(
        &mut self,
        gpu: &mut Gpu,
        slot: &mut Slot,
        frame: &Frame<'_>,
        buffer: &Shmbuf,
    ) -> Result<StagingReadback, StagingError> {
        let readback_frame = self.readback_frame(gpu, frame);
        let begun = render_to_shmbuf(&mut self.staging, buffer, readback_frame);
        match self.finish(gpu, slot, frame, begun.ok().unwrap())? {
            Staged::Incremental(readback) => Ok(readback),
            _ => panic!("frame was not read for a destination"),
        }
    }
}

/// A buffer in shared memory with its memory.
struct Shared {
    buffer: Shmbuf,
    memory: Vec<u8>,
}

impl Shared {
    fn new(w: u32, h: u32) -> Shared {
        let buffer = allocate_shmbuf(FrameSize { w, h }).ok().unwrap();
        let memory = vec![0; buffer.layout.size_usize()];
        Shared { buffer, memory }
    }

    /// Renders a frame for the buffer; the result waits for its fence or not.
    fn render(
        &self,
        gpu: &mut Gpu,
        slot: &mut Slot,
        stage: &mut Stage,
        frame: &Frame<'_>,
    ) -> (ShmReadback, bool) {
        let readback = stage
            .incremental(gpu, slot, frame, &self.buffer)
            .ok()
            .unwrap();
        ShmReadback::new(
            40,
            self.buffer.layout,
            gpu.context.renderer,
            gpu.native_fences,
            readback,
        )
    }

    fn complete(
        &mut self,
        gpu: &mut Gpu,
        slot: &mut Slot,
        stage: &Stage,
        pending: ShmReadback,
    ) -> Result<(), ShmError> {
        let raw = match pending.mapping {
            Readback::Pooled(pooled) => gpu.pooled_bytes(slot, pooled.len).unwrap(),
            _ => stage.downloaded.clone(),
        };
        let pooled = matches!(pending.mapping, Readback::Pooled(_));
        let mut copy = pending.start(gpu.context.renderer);
        if copy.wants_bytes() {
            copy.copy(&raw, &mut self.memory);
        }
        let result = copy.complete(true, &mut self.buffer);
        if pooled {
            slot.release();
        }
        result
    }
}

fn small() -> Size {
    Size { w: 7, h: 13 }
}

fn solid(w: f64, h: f64, color: [u8; 4]) -> Solid {
    Solid {
        x: 0.0,
        y: 0.0,
        w,
        h,
        color,
    }
}

fn frame(size: Size, elements: &[Solid]) -> Frame<'_> {
    Frame {
        size,
        scale: 1.0,
        transform: Transform::Normal,
        fourcc: Fourcc::Argb8888,
        elements,
    }
}

#[test]
fn egl_rgba_only_driver_path_preserves_bgra_pixels() {
    let mut gpu = Gpu::new(1, 1);
    gpu.bgra = false;
    let texture = gpu.solid_texture(small(), [255, 0, 0, 255]);
    let mut slot = Slot::new(gpu.context);
    let order = gpu
        .transfer(
            &mut slot,
            texture,
            Transfer::new(Rect::from_size(small()), 364),
        )
        .unwrap()
        .unwrap();
    assert!(matches!(order, PixelOrder::Rgba));
    let pending = Readback::Pooled(PooledReadback { len: 364, order });
    let bytes = gpu.frame_bytes(&slot, &pending).unwrap();
    assert_eq!(bytes.len(), 364);
    assert!(bytes.chunks_exact(4).all(|pixel| pixel == [0, 0, 255, 255]));
}

#[test]
fn egl_allocation_failures_restore_state_without_disabling_future_reads() {
    let mut gpu = Gpu::new(1, 1);
    let texture = gpu.solid_texture(small(), [0; 4]);
    let mut slot = Slot::new(gpu.context);
    for fault in [0, 1] {
        gpu.no_framebuffer = fault == 0;
        gpu.failed_allocation = fault == 1;
        let before = gpu.state;
        let transfer = Transfer::new(Rect::from_size(small()), 364);
        assert!(gpu.transfer(&mut slot, texture, transfer).is_err());
        assert!(!slot.disabled);
        assert_eq!(gpu.state, before);
        assert_eq!(gpu.state.alignment, 8);
        assert!(gpu.framebuffers.is_empty());
        gpu.no_framebuffer = false;
        gpu.failed_allocation = false;
        assert!(gpu
            .transfer(&mut slot, texture, transfer)
            .unwrap()
            .is_some());
    }
}

#[test]
fn egl_prior_error_does_not_permanently_disable_readback() {
    let mut gpu = Gpu::new(1, 1);
    let texture = gpu.solid_texture(small(), [0; 4]);
    let mut slot = Slot::new(gpu.context);
    gpu.errors.push_back(0x0500);
    assert!(gpu.read(&mut slot, texture, small()).is_some());
    slot.release();
    assert!(gpu.read(&mut slot, texture, small()).is_some());
}

#[test]
fn egl_pool_rejects_shared_command_stream_and_unmaps_after_panic() {
    let mut gpu = Gpu::new(1, 1);
    let mut shared = Gpu::new(1, 2);
    assert_eq!(gpu.context.renderer, shared.context.renderer);
    let size = small();
    let texture = gpu.solid_texture(size, [0; 4]);
    let mut slot = Slot::new(gpu.context);
    let pending = gpu.read(&mut slot, texture, size).unwrap();
    assert_eq!(
        shared.frame_bytes(&slot, &pending),
        Err(MapError::ContextChanged)
    );
    // Whoever got the bytes has not returned: the same steps undo the mapping.
    assert!(gpu.pooled_bytes(&slot, 7 * 13 * 4).is_ok());
    assert!(!gpu.mapped);
    let bytes = gpu.frame_bytes(&slot, &pending).unwrap();
    assert_eq!(bytes.len(), 7 * 13 * 4);
    slot.release();
    assert!(shared.read(&mut slot, texture, size).is_none());
    assert!(gpu.read(&mut slot, texture, size).is_some());
}

#[test]
fn egl_pool_restores_pixel_pack_state() {
    let mut gpu = Gpu::new(1, 1);
    let size = small();
    let texture = gpu.solid_texture(size, [0; 4]);
    let mut slot = Slot::new(gpu.context);
    let before = gpu.state;
    let pending = gpu.read(&mut slot, texture, size).unwrap();
    gpu.frame_bytes(&slot, &pending).unwrap();
    assert_eq!(gpu.state, before);
    assert_eq!(
        (
            gpu.state.alignment,
            gpu.state.row_length,
            gpu.state.skip_rows,
            gpu.state.skip_pixels
        ),
        (8, 31, 2, 3)
    );
    assert!(gpu.errors.is_empty());
}

#[test]
fn egl_pool_reuses_allocation_and_does_not_overwrite_in_flight_pixels() {
    let mut gpu = Gpu::new(1, 1);
    let mut slot = Slot::new(gpu.context);
    let mut stage = Stage::default();
    let mut submit = |gpu: &mut Gpu, slot: &mut Slot, color: [u8; 4], size: Size| {
        let element = solid(f64::from(size.w), f64::from(size.h), color);
        let readback = stage.readback(gpu, slot, &frame(size, &[element]));
        (readback, stage.downloaded.clone())
    };
    let wide = Size { w: 16, h: 8 };
    let (first, _) = submit(&mut gpu, &mut slot, [255, 0, 0, 255], wide);
    assert!(
        matches!(first, Readback::Pooled(_)),
        "PBO pool was not used"
    );
    let buffer_id = slot.buffer;
    let (second, downloaded) = submit(&mut gpu, &mut slot, [0, 255, 0, 255], wide);
    assert!(matches!(second, Readback::SmithayRgba));
    let bytes = gpu.frame_bytes(&slot, &first).unwrap();
    assert!(bytes.chunks_exact(4).all(|p| p == [0, 0, 255, 255]));
    let bytes = second.with_bytes(&downloaded, |bytes| bytes.to_vec());
    assert!(bytes.chunks_exact(4).all(|p| p == [0, 255, 0, 255]));
    slot.release();
    let (resized, _) = submit(&mut gpu, &mut slot, [0, 0, 255, 255], small());
    assert!(
        matches!(resized, Readback::Pooled(_)),
        "pool was not released"
    );
    assert_eq!(slot.buffer, buffer_id);
    let bytes = gpu.frame_bytes(&slot, &resized).unwrap();
    assert_eq!(bytes.len(), 7 * 13 * 4);
    assert!(bytes.chunks_exact(4).all(|p| p == [255, 0, 0, 255]));
    slot.release();
    let (_cancelled, _) = submit(&mut gpu, &mut slot, [255, 0, 0, 255], wide);
    slot.release();
    let (after_cancel, _) = submit(&mut gpu, &mut slot, [0, 255, 0, 255], wide);
    assert!(matches!(after_cancel, Readback::Pooled(_)));
    let bytes = gpu.frame_bytes(&slot, &after_cancel).unwrap();
    assert!(bytes.chunks_exact(4).all(|p| p == [0, 255, 0, 255]));
}

#[test]
fn storage_is_made_once_for_each_frame_size() {
    let mut gpu = Gpu::new(1, 1);
    let size = Size { w: 16, h: 8 };
    let texture = gpu.solid_texture(size, [9, 8, 7, 6]);
    let mut slot = Slot::new(gpu.context);
    for region in [
        Rect { x: 0, y: 0, w: 2, h: 2 },
        Rect::from_size(size),
        Rect { x: 3, y: 4, w: 5, h: 1 },
    ] {
        let readback = gpu
            .read_region(&mut slot, texture, size, Fourcc::Xrgb8888, region)
            .unwrap()
            .unwrap();
        let bytes = gpu.frame_bytes(&slot, &readback).unwrap();
        assert_eq!(bytes.len(), (region.w * region.h * 4) as usize);
        assert!(bytes.chunks_exact(4).all(|p| p == [7, 8, 9, 6]));
        slot.release();
    }
    assert_eq!(gpu.allocations, 1);
}

#[test]
fn each_transfer_error_has_its_cause_and_leaves_the_state_alone() {
    let size = small();
    let before = Gpu::new(1, 1).state;
    let expected = |operation, code| TransferError::Driver { code, operation };
    let mut run = |prepare: fn(&mut Gpu)| {
        let mut gpu = Gpu::new(1, 1);
        let texture = gpu.solid_texture(size, [0; 4]);
        let mut slot = Slot::new(gpu.context);
        prepare(&mut gpu);
        let outcome = gpu.transfer(
            &mut slot,
            texture,
            Transfer::new(Rect::from_size(size), 364),
        );
        assert_eq!(gpu.state, before);
        assert!(gpu.framebuffers.is_empty());
        (outcome, slot.disabled)
    };
    assert_eq!(
        run(|gpu| gpu.errors.extend([0x0500, CONTEXT_LOST])),
        (Err(TransferError::ContextLost), false)
    );
    assert_eq!(
        run(|gpu| gpu.failed_query = true),
        (Err(expected(Operation::QueryingState, 0x0500)), false)
    );
    assert_eq!(
        run(|gpu| gpu.no_framebuffer = true),
        (Err(TransferError::NoFramebuffer), false)
    );
    assert_eq!(
        run(|gpu| gpu.incomplete = true),
        (Err(TransferError::IncompleteFramebuffer), false)
    );
    assert_eq!(
        run(|gpu| gpu.no_buffer = true),
        (Err(TransferError::NoBuffer), false)
    );
    assert_eq!(
        run(|gpu| gpu.failed_allocation = true),
        (
            Err(expected(Operation::AllocatingStorage, OUT_OF_MEMORY)),
            false
        )
    );
    assert_eq!(
        run(|gpu| gpu.failed_read = true),
        (Err(expected(Operation::ReadingPixels, 0x0502)), false)
    );
    assert_eq!(run(|gpu| gpu.version = b"OpenGL ES 2.0"), (Ok(None), true));
    assert_eq!(run(|gpu| gpu.functions = false), (Ok(None), true));
    assert_eq!(
        run(|gpu| gpu.errors.extend([0x0500; 31])),
        (Ok(Some(PixelOrder::Bgra)), false)
    );
    // Errors beyond those that are discarded count for the transfer.
    assert_eq!(
        run(|gpu| gpu.errors.extend([0x0500; 33])),
        (Err(expected(Operation::QueryingState, 0x0500)), false)
    );
}

#[test]
fn format_queries_are_checked() {
    let mut transfer = Transfer::new(Rect::from_size(small()), 364);
    let mut slot = Slot::new(GlContext {
        renderer: 1,
        stream: 1,
    });
    let mut gpu = Gpu::new(1, 1);
    let mut request = Request::TakeError;
    let error = loop {
        let reply = gpu.perform(request, 0);
        if matches!(request, Request::QueryFormat) {
            gpu.errors.push_back(0x0500);
        }
        match transfer.step(&mut slot, reply) {
            Step::Ask(next) => request = next,
            Step::Finished(outcome) => break outcome,
        }
    };
    assert_eq!(
        error,
        Err(TransferError::Driver {
            code: 0x0500,
            operation: Operation::QueryingFormat
        })
    );
}

#[test]
fn failed_transfers_do_not_rely_on_the_storage() {
    let mut gpu = Gpu::new(1, 1);
    let size = small();
    let texture = gpu.solid_texture(size, [0; 4]);
    let mut slot = Slot::new(gpu.context);
    assert!(gpu.read(&mut slot, texture, size).is_some());
    assert_eq!(slot.capacity, 364);
    slot.release();
    gpu.failed_read = true;
    assert!(gpu.read(&mut slot, texture, size).is_none());
    assert_eq!(slot.capacity, 0);
    assert!(!slot.busy);
}

#[test]
fn each_readback_error_has_its_cause() {
    let context = GlContext {
        renderer: 1,
        stream: 1,
    };
    let slot = Slot::new(context);
    let size = small();
    let plan = |size, format, region| {
        try_readback_region(Some(&slot), context, size, format, region).map(|plan| plan.is_some())
    };
    let full = Rect::from_size(size);
    assert_eq!(plan(size, Fourcc::Argb8888, full), Ok(true));
    assert_eq!(plan(size, Fourcc::Abgr8888, full), Ok(false));
    assert_eq!(plan(size, Fourcc::Other(1), full), Ok(false));
    assert_eq!(
        plan(Size { w: 0, h: 4 }, Fourcc::Argb8888, full),
        Err(ReadbackError::EmptyReadback)
    );
    for region in [
        Rect { w: 0, ..full },
        Rect { x: 1, ..full },
        Rect { y: -1, ..full },
    ] {
        assert_eq!(
            plan(size, Fourcc::Argb8888, region),
            Err(ReadbackError::InvalidRegion)
        );
    }
    let huge = Size {
        w: i32::MAX,
        h: i32::MAX,
    };
    assert_eq!(
        plan(huge, Fourcc::Argb8888, Rect::from_size(huge)),
        Err(ReadbackError::SizeUnaddressable)
    );
    assert_eq!(
        plan(huge, Fourcc::Argb8888, full),
        Err(ReadbackError::CapacityUnaddressable)
    );
    assert_eq!(
        try_readback(None, context, size, Fourcc::Argb8888).map(|plan| plan.is_some()),
        Ok(false)
    );
}

#[test]
fn mapping_errors_have_their_cause_and_are_undone() {
    let mut gpu = Gpu::new(1, 1);
    let size = small();
    let texture = gpu.solid_texture(size, [0; 4]);
    let mut slot = Slot::new(gpu.context);
    let pending = gpu.read(&mut slot, texture, size).unwrap();
    let before = gpu.state;
    gpu.cannot_map = true;
    assert_eq!(gpu.frame_bytes(&slot, &pending), Err(MapError::CannotMap));
    gpu.cannot_map = false;
    gpu.lost_contents = true;
    assert_eq!(
        gpu.frame_bytes(&slot, &pending),
        Err(MapError::ContentsInvalid)
    );
    assert_eq!(gpu.state, before);
    assert!(!gpu.mapped);
    let mut other = Gpu::new(2, 1);
    assert_eq!(
        other.frame_bytes(&slot, &pending),
        Err(MapError::RendererChanged)
    );
}

#[test]
fn egl_staging_preserves_unchanged_pixels_and_invalidates_geometry() {
    let mut gpu = Gpu::new(1, 1);
    let mut slot = Slot::new(gpu.context);
    let size = Size { w: 16, h: 8 };
    let mut stage = Stage::default();
    let back = solid(16.0, 8.0, [255, 0, 0, 255]);
    let mut elements = vec![solid(4.0, 4.0, [0, 255, 0, 255]), back];
    for step in 0..5 {
        if step == 2 {
            elements[0].color = [0, 0, 255, 255];
        }
        if step == 4 {
            elements.remove(0);
        }
        let pixels = stage.download(&mut gpu, &mut slot, &frame(size, &elements));
        for y in 0..8 {
            for x in 0..16 {
                let expected = if step < 4 && x < 4 && y < 4 {
                    if step < 2 {
                        [0, 255, 0, 255]
                    } else {
                        [255, 0, 0, 255]
                    }
                } else {
                    [0, 0, 255, 255]
                };
                assert_eq!(
                    &pixels[(y * 16 + x) * 4..(y * 16 + x + 1) * 4],
                    expected,
                    "step={step} x={x} y={y}"
                );
            }
        }
        if step == 1 || step == 3 {
            assert!(
                stage.last_damage.is_none(),
                "identical scene must skip drawing"
            );
        }
        if step == 2 {
            let area: i32 = stage
                .last_damage
                .as_ref()
                .unwrap()
                .iter()
                .map(|r| r.w * r.h)
                .sum();
            assert!(
                area < size.w * size.h,
                "changing a small element should not redraw the full frame"
            );
        }
    }
    for (scale, transform) in [(0.5, Transform::Normal), (1.0, Transform::_180)] {
        let elements = [back];
        let changed = Frame {
            scale,
            transform,
            ..frame(size, &elements)
        };
        let pixels = stage.download(&mut gpu, &mut slot, &changed);
        let reference = draw(&[back], size, scale, transform)
            .bytes(Rect::from_size(size), PixelOrder::Bgra);
        assert_eq!(pixels, reference);
        assert!(
            stage.last_damage.is_some(),
            "geometry changes must invalidate damage history"
        );
    }
}

#[test]
fn egl_staging_reuses_texture_and_reads_fresh_pixels() {
    let mut gpu = Gpu::new(1, 1);
    let mut slot = Slot::new(gpu.context);
    let mut stage = Stage::default();
    let size = Size { w: 16, h: 8 };
    let mut ids = Vec::new();
    for (color, expected) in [
        ([255, 0, 0, 255], [0, 0, 255, 255]),
        ([0, 255, 0, 255], [0, 255, 0, 255]),
    ] {
        let element = solid(16.0, 8.0, color);
        let pixels = stage.download(&mut gpu, &mut slot, &frame(size, &[element]));
        assert_eq!(pixels.len(), 16 * 8 * 4);
        assert!(pixels.chunks_exact(4).all(|pixel| pixel == expected));
        ids.push(stage.texture.unwrap());
    }
    assert_eq!(ids[0], ids[1]);
    let staging = &mut stage.staging;
    assert_eq!(
        staging.get_or_create(gpu.context, size, Fourcc::Argb8888),
        None
    );
    let square = Size { w: 8, h: 8 };
    assert_eq!(
        staging.get_or_create(gpu.context, square, Fourcc::Argb8888),
        Some(Fourcc::Abgr8888)
    );
    staging.texture_created(gpu.context, square, Fourcc::Argb8888);
    assert_eq!(
        staging.get_or_create(gpu.context, square, Fourcc::Xrgb8888),
        Some(Fourcc::Abgr8888)
    );
    assert_eq!(
        staging.get_or_create(gpu.context, square, Fourcc::Other(5)),
        Some(Fourcc::Other(5))
    );
    let other = Gpu::new(2, 1);
    assert_ne!(gpu.context.renderer, other.context.renderer);
    assert!(staging
        .get_or_create(other.context, square, Fourcc::Argb8888)
        .is_some());
    staging.texture_created(other.context, size, Fourcc::Argb8888);
    assert_eq!(staging.key.unwrap().context, other.context);
}

#[test]
fn each_staging_error_has_its_cause() {
    let size = Size { w: 16, h: 8 };
    let elements = [solid(16.0, 8.0, [1, 2, 3, 4])];
    let shown = frame(size, &elements);
    let shared = Shared::new(16, 8);
    let run = |prepare: fn(&mut Stage, &mut Gpu, &mut Slot)| {
        let mut gpu = Gpu::new(1, 1);
        let mut slot = Slot::new(gpu.context);
        let mut stage = Stage::default();
        prepare(&mut stage, &mut gpu, &mut slot);
        let error = stage
            .incremental(&mut gpu, &mut slot, &shown, &shared.buffer)
            .err();
        (error, stage.staging.tracker.is_some())
    };
    assert_eq!(
        run(|stage, _, _| stage.cannot_create = true),
        (Some(StagingError::CreatingTexture), false)
    );
    assert_eq!(
        run(|stage, _, _| stage.cannot_bind = true),
        (Some(StagingError::BindingTexture), true)
    );
    assert_eq!(
        run(|stage, _, _| stage.cannot_render = true),
        (Some(StagingError::Rendering), false)
    );
    assert_eq!(
        run(|stage, _, slot| {
            stage.cannot_download = true;
            slot.disabled = true;
        }),
        (Some(StagingError::Downloading), true)
    );
    assert_eq!(run(|_, _, _| {}), (None, true));
    // A frame without pixels cannot be read.
    let mut gpu = Gpu::new(1, 1);
    let mut slot = Slot::new(gpu.context);
    let mut stage = Stage::default();
    let empty = frame(Size { w: 0, h: 0 }, &[]);
    let begun = stage
        .staging
        .render_and_readback(stage.readback_frame(&gpu, &empty));
    let result = stage.finish(&mut gpu, &mut slot, &empty, begun);
    assert_eq!(
        result.err(),
        Some(StagingError::Readback(ReadbackError::EmptyReadback))
    );
}

#[test]
fn failed_renders_are_not_reused() {
    let mut gpu = Gpu::new(1, 1);
    let mut slot = Slot::new(gpu.context);
    let mut stage = Stage::default();
    let mut shared = Shared::new(16, 8);
    let size = Size { w: 16, h: 8 };
    let elements = [solid(16.0, 8.0, [1, 2, 3, 4])];
    let shown = frame(size, &elements);
    let (pending, _) = shared.render(&mut gpu, &mut slot, &mut stage, &shown);
    shared
        .complete(&mut gpu, &mut slot, &stage, pending)
        .unwrap();
    stage.cannot_render = true;
    assert!(stage
        .incremental(&mut gpu, &mut slot, &shown, &shared.buffer)
        .is_err());
    stage.cannot_render = false;
    let (pending, _) = shared.render(&mut gpu, &mut slot, &mut stage, &shown);
    assert_eq!(pending.region, Some(Rect::from_size(size)));
}

#[test]
fn egl_partial_updates_match_full_frames_across_buffer_rotation() {
    let mut gpu = Gpu::new(1, 1);
    let mut slot = Slot::new(gpu.context);
    let size = Size { w: 96, h: 64 };
    let mut buffers: Vec<Shared> = (0..3).map(|_| Shared::new(96, 64)).collect();
    let mut stage = Stage::default();
    let mut reference = Stage::default();
    let background = solid(96.0, 64.0, [25, 51, 76, 153]);
    let mut foreground = solid(7.0, 5.0, [0, 204, 0, 204]);
    let mut partial = 0;
    for number in 0..40 {
        let shared = &mut buffers[number % 3];
        if number == 9 {
            clear_shmbuf(&mut shared.buffer, &mut shared.memory);
        }
        let transform = if (24..32).contains(&number) {
            [
                Transform::Normal,
                Transform::_90,
                Transform::_180,
                Transform::_270,
                Transform::Flipped,
                Transform::Flipped90,
                Transform::Flipped180,
                Transform::Flipped270,
            ][number - 24]
        } else if (12..15).contains(&number) {
            Transform::Flipped180
        } else {
            Transform::Normal
        };
        let scale = if number >= 18 { 1.25 } else { 1.0 };
        foreground.color = if number % 2 == 0 {
            [204, 0, 0, 204]
        } else {
            [0, 204, 0, 204]
        };
        foreground.x = 11.0 + (number % 4) as f64;
        foreground.y = 17.0;
        let elements = [foreground, background];
        let shown = Frame {
            scale,
            transform,
            ..frame(size, &elements)
        };
        let busy = if number == 6 {
            let busy = reference.readback(&mut gpu, &mut slot, &shown);
            assert!(matches!(busy, Readback::Pooled(_)));
            true
        } else {
            false
        };
        let (pending, waits) = shared.render(&mut gpu, &mut slot, &mut stage, &shown);
        assert_eq!(waits, pending.region.is_some());
        if number == 7 {
            // The destination must retain its old stamp if GPU readback is cancelled.
            drop(pending);
            slot.release();
            continue;
        }
        if pending
            .region
            .is_some_and(|rect| Size { w: rect.w, h: rect.h } != size)
        {
            partial += 1;
        }
        if number == 6 || number == 9 || (12..15).contains(&number) || (25..32).contains(&number) {
            assert_eq!(pending.region, Some(Rect::from_size(size)));
        }
        shared
            .complete(&mut gpu, &mut slot, &stage, pending)
            .unwrap();
        if busy {
            slot.release();
        }
        let expected = reference.download(&mut gpu, &mut slot, &shown);
        assert!(
            shared.memory == expected,
            "frame {number}, transform {transform:?}, first differing byte {:?}",
            shared
                .memory
                .iter()
                .zip(&expected)
                .position(|(a, b)| a != b)
        );
    }
    assert!(
        partial >= 6,
        "test must exercise partial readback, got {partial}"
    );
}

#[test]
fn egl_unchanged_destination_skips_readback_but_new_destination_is_initialized() {
    let mut gpu = Gpu::new(1, 1);
    let mut slot = Slot::new(gpu.context);
    let mut stage = Stage::default();
    let size = Size { w: 16, h: 8 };
    let mut shared = Shared::new(16, 8);
    for number in 0..3 {
        let (pending, waits) = shared.render(&mut gpu, &mut slot, &mut stage, &frame(size, &[]));
        assert_eq!(pending.region.is_none(), number != 0);
        assert_eq!(waits, number == 0);
        shared
            .complete(&mut gpu, &mut slot, &stage, pending)
            .unwrap();
    }
    let new = Shared::new(16, 8);
    let (pending, _) = new.render(&mut gpu, &mut slot, &mut stage, &frame(size, &[]));
    assert_eq!(pending.region, Some(Rect::from_size(size)));
}

#[test]
fn egl_deferred_readback_retains_destination_and_pixels() {
    let mut gpu = Gpu::new(1, 1);
    let mut slot = Slot::new(gpu.context);
    let mut stage = Stage::default();
    for (dimensions, color, expected) in [
        ((16, 8), [255, 0, 0, 255], [0, 0, 255, 255]),
        ((7, 13), [0, 255, 0, 255], [0, 255, 0, 255]),
    ] {
        let (w, h): (u32, u32) = dimensions;
        let mut shared = Shared::new(w, h);
        let size = Size {
            w: w as i32,
            h: h as i32,
        };
        let elements = [solid(f64::from(w), f64::from(h), color)];
        let (pending, waits) = shared.render(&mut gpu, &mut slot, &mut stage, &frame(size, &elements));
        assert!(waits);
        let mut cast: Cast<(), (), (), u32, ()> = PipeWire::new(true)
            .start_cast(1, 2, (), FormatSet::new(), size, 60_000, true, CursorMode::Hidden)
            .0;
        assert_eq!(
            cast.inner.submit_shm_readback(8, pending, waits),
            Submitted::Register
        );
        let pending = cast.inner.take_shm_readback(8).unwrap();
        assert!(cast.inner.take_shm_readback(8).is_none());
        shared
            .complete(&mut gpu, &mut slot, &stage, pending)
            .unwrap();
        assert_eq!(shared.memory.len(), (w * h * 4) as usize);
        assert!(shared
            .memory
            .chunks_exact(4)
            .all(|pixel| pixel == expected));
    }
}

#[test]
fn egl_cancelled_readback_releases_destination_and_rejects_other_context() {
    let mut gpu = Gpu::new(1, 1);
    let mut slot = Slot::new(gpu.context);
    let mut stage = Stage::default();
    let size = Size { w: 4, h: 4 };
    for cancel in [true, false] {
        let mut shared = Shared::new(4, 4);
        let (pending, _) = shared.render(&mut gpu, &mut slot, &mut stage, &frame(size, &[]));
        if cancel {
            drop(pending);
        } else {
            let other = Gpu::new(2, 2);
            let copy = pending.start(other.context.renderer);
            assert!(!copy.wants_bytes());
            assert_eq!(
                copy.complete(true, &mut shared.buffer),
                Err(ShmError::RendererChanged)
            );
        }
        assert!(shared.buffer.content.is_none());
        slot.release();
    }
}

#[test]
fn buffers_of_another_layout_and_bytes_of_another_length_are_refused() {
    let mut gpu = Gpu::new(1, 1);
    let mut slot = Slot::new(gpu.context);
    let mut stage = Stage::default();
    let size = Size { w: 4, h: 4 };
    let mut shared = Shared::new(4, 4);
    let (pending, _) = shared.render(&mut gpu, &mut slot, &mut stage, &frame(size, &[]));
    let mut copy = pending.start(1);
    copy.copy(&[0; 63], &mut shared.memory);
    assert_eq!(
        copy.complete(true, &mut shared.buffer),
        Err(ShmError::Copying(MappingError::InvalidRegionLength))
    );
    assert!(shared.buffer.content.is_none());
    slot.release();
    let wrong = Shared::new(8, 2);
    let readback_frame = stage.readback_frame(&gpu, &frame(size, &[]));
    assert_eq!(
        render_to_shmbuf(&mut stage.staging, &wrong.buffer, readback_frame).err(),
        Some(ShmError::InvalidLayout)
    );
    // No buffer is one for frames of a negative size.
    for size in [Size { w: -4, h: 4 }, Size { w: 4, h: -4 }] {
        let negative = ReadbackFrame {
            size,
            ..readback_frame
        };
        assert_eq!(
            render_to_shmbuf(&mut stage.staging, &shared.buffer, negative).err(),
            Some(ShmError::InvalidLayout)
        );
    }
}

/// A cast that waits for a frame in buffer 8, whose memory has number 40.
fn waiting_cast(pending: ShmReadback, buffer: Shmbuf) -> Cast<u32, (), bool, u32, ()> {
    let mut cast: Cast<u32, (), bool, u32, ()> = PipeWire::new(true)
        .start_cast(
            1,
            2,
            (),
            FormatSet::new(),
            Size { w: 4, h: 4 },
            60_000,
            true,
            CursorMode::Hidden,
        )
        .0;
    cast.inner.state = CastState::Ready {
        size: FrameSize { w: 4, h: 4 },
        alpha: false,
        extra_negotiation_result: None,
        damage_tracker: Some(5),
        cursor_damage_tracker: None,
        last_cursor_location: None,
    };
    cast.inner.shmbufs.insert(40, buffer);
    cast.inner.submit_shm_readback(8, pending, true);
    cast
}

fn shm_stream_buffer() -> StreamBuffer {
    StreamBuffer {
        planes: vec![Plane {
            kind: DataKind::MemFd,
            shared: true,
            maxsize: 64,
            fd: 40,
            chunk: Chunk {
                offset: 1,
                size: 1,
                stride: 1,
                flags: CHUNK_FLAG_CORRUPTED,
            },
        }],
        header: Some(Header { flags: 0, seq: 0 }),
    }
}

fn pending_frame() -> (ShmReadback, Shared) {
    let mut gpu = Gpu::new(1, 1);
    let mut slot = Slot::new(gpu.context);
    let mut stage = Stage::default();
    let shared = Shared::new(4, 4);
    let elements = [solid(4.0, 4.0, [1, 2, 3, 4])];
    let (pending, _) = shared.render(
        &mut gpu,
        &mut slot,
        &mut stage,
        &frame(Size { w: 4, h: 4 }, &elements),
    );
    (pending, shared)
}

#[test]
fn completed_readbacks_are_announced_and_delivered() {
    let (pending, mut shared) = pending_frame();
    let mut cast = waiting_cast(pending, shared.buffer);
    let mut buffer = shm_stream_buffer();
    let raw = [3u8, 2, 1, 4].repeat(16);
    let mut copy = cast.begin_shm_completion(8, 1).unwrap();
    assert!(copy.wants_bytes());
    copy.copy(&raw, &mut shared.memory);
    // Until the bytes are known to be valid, nothing is stamped, counted or queued.
    assert!(cast.inner.shmbufs[&40].content.is_none());
    assert_eq!(cast.sequence_counter, 0);
    assert!(cast.inner.rendering_buffers.is_empty());
    let completion = cast.complete_shm_readback(8, copy, true, &mut buffer, true);
    assert!(matches!(
        completion,
        ShmCompletion::Completed(AfterSync::QueueCompleted)
    ));
    assert_eq!(shared.memory, raw);
    assert!(cast.inner.shmbufs[&40].content.is_some());
    assert_eq!(cast.inner.rendering_buffers, vec![(8, true)]);
    assert_eq!(cast.sequence_counter, 1);
    assert_eq!(buffer.header, Some(Header { flags: 0, seq: 1 }));
    assert_eq!(
        buffer.planes[0].chunk,
        Chunk {
            offset: 0,
            size: 64,
            stride: 16,
            flags: CHUNK_FLAG_NONE
        }
    );
    assert!(cast.begin_shm_completion(8, 1).is_none());
}

#[test]
fn failed_readbacks_are_forgotten_and_stop() {
    // Another renderer, bytes of another length, no bytes, and bytes that did not stay valid.
    for (renderer, len, readable, valid) in [
        (2, 64, true, true),
        (1, 63, true, true),
        (1, 64, false, false),
        (1, 64, true, false),
    ] {
        let (pending, mut shared) = pending_frame();
        let mut cast = waiting_cast(pending, shared.buffer);
        cast.redraw_scheduled(7);
        let mut buffer = shm_stream_buffer();
        let raw = vec![9u8; len];
        let mut copy = cast.begin_shm_completion(8, renderer).unwrap();
        assert_eq!(copy.wants_bytes(), renderer == 1);
        if copy.wants_bytes() && readable {
            copy.copy(&raw, &mut shared.memory);
        }
        let copied = renderer == 1 && len == 64 && readable;
        assert_eq!(shared.memory, vec![if copied { 9 } else { 0 }; 64]);
        let completion = cast.complete_shm_readback(8, copy, valid, &mut buffer, true);
        let ShmCompletion::Failed(Some(taken)) = completion else {
            panic!("the frame did not get into its buffer")
        };
        assert_eq!(taken.redraw, Some(7));
        assert_eq!(cast.scheduled_redraw, None);
        assert!(cast.inner.shmbufs[&40].content.is_none());
        assert!(cast.inner.rendering_buffers.is_empty());
        assert!(cast.inner.stopping);
        assert_eq!(cast.sequence_counter, 0);
        assert_eq!(buffer.planes[0].chunk.size, 0);
        assert_eq!(buffer.planes[0].chunk.flags, CHUNK_FLAG_CORRUPTED);
        assert!(matches!(
            cast.inner.state,
            CastState::Ready {
                damage_tracker: None,
                ..
            }
        ));
    }
}

#[test]
fn unchanged_readbacks_have_no_bytes() {
    let bytes = Readback::Unchanged.with_bytes(&[1, 2, 3, 4], |bytes| bytes.len());
    assert_eq!(bytes, 0);
    assert_eq!(&*Readback::Smithay.bytes(&[1, 2, 3, 4]), &[1, 2, 3, 4]);
    assert_eq!(&*Readback::SmithayRgba.bytes(&[1, 2, 3, 4]), &[3, 2, 1, 4]);
}

#[test]
fn mapping_that_fails_to_end_keeps_the_old_stamp() {
    let (pending, mut shared) = pending_frame();
    let mut copy = pending.start(1);
    copy.copy(&[9; 64], &mut shared.memory);
    assert_eq!(
        copy.complete(false, &mut shared.buffer),
        Err(ShmError::NotRead)
    );
    assert!(shared.buffer.content.is_none());
}

#[test]
fn without_native_fences_nothing_is_waited_for() {
    let mut gpu = Gpu::new(1, 1);
    gpu.native_fences = false;
    let mut slot = Slot::new(gpu.context);
    let mut stage = Stage::default();
    let mut shared = Shared::new(4, 4);
    let elements = [solid(4.0, 4.0, [255, 0, 0, 255])];
    let (pending, waits) = shared.render(
        &mut gpu,
        &mut slot,
        &mut stage,
        &frame(Size { w: 4, h: 4 }, &elements),
    );
    assert!(pending.region.is_some());
    assert!(!waits);
    shared
        .complete(&mut gpu, &mut slot, &stage, pending)
        .unwrap();
    assert_eq!(shared.memory, [0u8, 0, 255, 255].repeat(16));
}

#[test]
fn unreachable_driver_fails_the_readback() {
    let mut staging = StagingTexture::default();
    let frame = ReadbackFrame {
        size: Size { w: 4, h: 4 },
        same_scale: false,
        transform: Transform::Normal,
        fourcc: Fourcc::Argb8888,
        context: GlContext {
            renderer: 1,
            stream: 1,
        },
    };
    let (mut read, _) = staging.render_and_readback(frame);
    read.step(&mut staging, StagingReply::Created(true));
    read.step(&mut staging, StagingReply::Rendered(vec![]));
    let step = read.step(
        &mut staging,
        StagingReply::ReadBack(Err(ReadbackError::ContextUnavailable)),
    );
    assert!(matches!(
        step,
        StagingStep::Finished(Err(StagingError::Readback(
            ReadbackError::ContextUnavailable
        )))
    ));
}
