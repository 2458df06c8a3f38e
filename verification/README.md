# screencast

Screen capture for a compositor: frames are rendered on the GPU, read back where they have changed,
and shared with a media server in DMA-BUFs or in shared memory.

The library in `src/` decides what is done and when. It is written in Verus, and its functions are
proved to do what their contracts say. Two private ones are trusted instead, because they rest on
the identity of an `Rc`: `ContentStamp::after`, which makes a stamp of a frame, and
`ContentStamp::same`, which compares two.

- `geometry`, `drm`: rectangles, pixel formats and modifiers.
- `render_helpers::readback_damage`, `incremental`: which part of a frame a destination misses, and
  why copying just that part keeps it equal to the frame.
- `render_helpers::transfer`, `pbo`, `pooled_mapping`, `pixel_order`, `gl_strings`: reading pixels
  through a pooled buffer, and leaving the driver's state as it was.
- `render_helpers::staging`: the texture that frames are rendered into.
- `pipeline`: whatever is rendered, read, copied and cleared, a frame that is read whole is what
  rendering its scene from scratch gives, and so is what a buffer shows.
- `screencasting::formats`, `params`, `negotiation`, `cast_state`: agreeing on a format.
- `screencasting::shm_*`, `dmabuf_layout`, `spa`, `cursor`: what buffers hold, and what they say.
- `screencasting::cast_inner`, `fence_export`, `delivery`, `cast`, `passes`, `timing`: one stream of frames, from
  the first offer to the last buffer.

Work that only a driver, a renderer or the media server can do is asked for, one request at a time;
the answer decides on the next. `app/` carries the requests out. `tests/` runs the library against a
simulated GPU.
