//! Completing frames on their way into shared memory.

use crate::screencasting::cast::{Cast, Session};
use crate::screencasting::cast_inner::Inner;
use crate::screencasting::delivery::{AfterSync, Registrations};
use crate::screencasting::shm_buffer::{ShmCopy, ShmError, ShmReadback, Shmbuf};
use crate::screencasting::spa::{mark_buffer_unused, SharingBuf, StreamBuffer};
use vstd::prelude::*;

verus! {

broadcast use vstd::std_specs::hash::group_hash_axioms;

/// What becomes of a buffer whose frame was to be completed.
#[derive(Debug)]
pub enum ShmCompletion<K> {
    /// It holds the frame.
    Completed(AfterSync<K>),
    /// It is to be queued without a frame, and the cast is to be stopped. What was registered for
    /// it, if it was not stopping yet, is to be removed.
    Failed(Option<Registrations<K>>),
}

impl<T, D, Y, K, G> Session<T, D, Y, K, G> {
    /// The cast without the frame that was on its way into a buffer.
    pub open spec fn taken(self, buffer: u64) -> Session<T, D, Y, K, G> {
        Session {
            inner: Inner { pending_shm: self.inner.pending_shm.remove(buffer), ..self.inner },
            ..self
        }
    }

    /// The cast with a frame in one of its buffers.
    pub open spec fn stamped(self, pending: ShmReadback) -> Session<T, D, Y, K, G> {
        let shmbufs = self.inner.shmbufs;
        Session {
            inner: Inner {
                shmbufs: if shmbufs.contains_key(pending.fd) {
                    shmbufs.insert(
                        pending.fd,
                        Shmbuf { content: Some(pending.stamp), ..shmbufs[pending.fd] },
                    )
                } else {
                    shmbufs
                },
                ..self.inner
            },
            ..self
        }
    }

    /// The cast after a frame did not get into its buffer: it does not count as shown, and
    /// delivery has failed.
    pub open spec fn lost(self) -> Session<T, D, Y, K, G> {
        self.invalidated().stopped()
    }
}

impl<T, D, Y, K, G> Cast<T, D, Y, K, G> {
    /// Begins to complete the frame that is on its way into a buffer, if there is one. Its bytes
    /// are then to be had and copied.
    pub fn begin_shm_completion(&mut self, number: u64, renderer: u64) -> (copy: Option<ShmCopy>)
        ensures
            final(self)@ == old(self)@.taken(number),
            match copy {
                None => !old(self)@.inner.pending_shm.contains_key(number),
                Some(copy) => {
                    let pending = old(self)@.inner.pending_shm[number];
                    &&& old(self)@.inner.pending_shm.contains_key(number)
                    &&& copy.pending == pending
                    &&& copy.outcome == if pending.renderer == renderer {
                        None
                    } else {
                        Some(Err::<(), ShmError>(ShmError::RendererChanged))
                    }
                },
            },
    {
        match self.inner.take_shm_readback(number) {
            Some(pending) => Some(pending.start(renderer)),
            None => None,
        }
    }

    /// Completes the frame that was on its way into a buffer, if its bytes were copied and `valid`
    /// tells that they stayed valid until then, and announces it. `sync` is that of a complete
    /// frame.
    pub fn complete_shm_readback(
        &mut self,
        number: u64,
        copy: ShmCopy,
        valid: bool,
        buffer: &mut StreamBuffer,
        sync: Y,
    ) -> (completion: ShmCompletion<K>)
        requires
            old(buffer)@.planes.len() > 0,
        ensures
            if copy.ends(valid) is Ok {
                let stamped = old(self)@.stamped(copy.pending).counted();
                &&& final(buffer)@ == old(buffer)@.rendered(
                    SharingBuf::Shm(copy.pending.layout),
                    stamped.sequence_counter,
                )
                &&& if stamped.inner.stopping {
                    &&& completion == ShmCompletion::<K>::Completed(AfterSync::Stopping)
                    &&& final(self)@ == stamped
                } else {
                    &&& completion == ShmCompletion::<K>::Completed(AfterSync::QueueCompleted)
                    &&& final(self)@ == stamped.with_inner(stamped.inner.rendering(number, sync))
                }
            } else {
                &&& completion matches ShmCompletion::Failed(taken)
                &&& old(self)@.leaves(taken)
                &&& final(self)@ == old(self)@.lost()
                &&& final(buffer)@ == old(buffer)@.unused()
            },
    {
        let layout = copy.pending.layout;
        if self.stamp_buffer(copy, valid) {
            self.frame_rendered(buffer, SharingBuf::Shm(layout));
            ShmCompletion::Completed(self.queue_after_sync(number, sync, Ok(false)))
        } else {
            self.inner.state.invalidate_damage();
            mark_buffer_unused(buffer);
            ShmCompletion::Failed(self.stop_after_sync_failure())
        }
    }

    fn stamp_buffer(&mut self, copy: ShmCopy, valid: bool) -> (stamped: bool)
        ensures
            stamped == (copy.ends(valid) is Ok),
            final(self)@ == if stamped {
                old(self)@.stamped(copy.pending)
            } else {
                old(self)@
            },
    {
        let fd: i64 = copy.pending.fd;
        let ghost shmbufs = self.inner.shmbufs@;
        match self.inner.shmbufs.remove(&fd) {
            Some(mut shmbuf) => {
                let stamped = copy.complete(valid, &mut shmbuf).is_ok();
                self.inner.shmbufs.insert(fd, shmbuf);
                proof {
                    if stamped {
                        assert(self.inner.shmbufs@ =~= shmbufs.insert(fd, shmbuf));
                    } else {
                        assert(self.inner.shmbufs@ =~= shmbufs);
                    }
                }
                stamped
            },
            None => {
                // The buffer is retired, but its memory is not.
                assert(self.inner.shmbufs@ =~= shmbufs);
                let mut retired = Shmbuf { layout: copy.pending.layout, content: None };
                copy.complete(valid, &mut retired).is_ok()
            },
        }
    }
}

/// A frame that is to be completed is not on its way any more. Without one there is nothing to
/// copy, and nothing changes. Another renderer than the one that read it cannot copy it.
pub proof fn completion_takes_the_frame<T, D, Y, K, G>(
    cast: &mut Cast<T, D, Y, K, G>,
    number: u64,
    renderer: u64,
    copy: Option<ShmCopy>,
)
    requires
        call_ensures(Cast::<T, D, Y, K, G>::begin_shm_completion, (cast, number, renderer), copy),
    ensures
        copy is Some <==> old(cast)@.inner.pending_shm.contains_key(number),
        copy matches Some(copy) ==> {
            &&& copy.pending == old(cast)@.inner.pending_shm[number]
            &&& copy.outcome is None <==> copy.pending.renderer == renderer
            &&& copy.outcome is Some ==> copy.outcome == Some(
                Err::<(), _>(ShmError::RendererChanged),
            )
        },
        final(cast)@ == (Session {
            inner: Inner {
                pending_shm: old(cast)@.inner.pending_shm.remove(number),
                ..old(cast)@.inner
            },
            ..old(cast)@
        }),
{
}

/// A frame that got into its buffer is counted and announced, its buffer has its stamp if it is
/// still there, and it is queued behind the others, unless the stream is stopping.
pub proof fn completed_frames_are_counted_and_queued<T, D, Y, K, G>(
    cast: &mut Cast<T, D, Y, K, G>,
    number: u64,
    copy: ShmCopy,
    valid: bool,
    buffer: &mut StreamBuffer,
    sync: Y,
    completion: ShmCompletion<K>,
    fd: i64,
)
    requires
        call_ensures(
            Cast::<T, D, Y, K, G>::complete_shm_readback,
            (cast, number, copy, valid, buffer, sync),
            completion,
        ),
        valid,
        copy.outcome is Some && copy.outcome->0 is Ok,
    ensures
        ({
            let (before, after) = (old(cast)@, final(cast)@);
            let own = copy.pending.fd;
            &&& before.inner.stopping ==> completion == ShmCompletion::<K>::Completed(
                AfterSync::Stopping,
            )
            &&& !before.inner.stopping ==> completion == ShmCompletion::<K>::Completed(
                AfterSync::QueueCompleted,
            )
            &&& before.sequence_counter < u64::MAX ==> after.sequence_counter
                == before.sequence_counter + 1
            &&& before.sequence_counter == u64::MAX ==> after.sequence_counter == 0
            &&& after.inner.shmbufs.contains_key(fd) <==> before.inner.shmbufs.contains_key(fd)
            &&& before.inner.shmbufs.contains_key(fd) && fd != own ==> after.inner.shmbufs[fd]
                == before.inner.shmbufs[fd]
            &&& before.inner.shmbufs.contains_key(own) ==> {
                &&& after.inner.shmbufs[own].content == Some(copy.pending.stamp)
                &&& after.inner.shmbufs[own].layout == before.inner.shmbufs[own].layout
            }
            &&& after == (Session {
                sequence_counter: after.sequence_counter,
                inner: Inner {
                    shmbufs: after.inner.shmbufs,
                    rendering_buffers: if before.inner.stopping {
                        before.inner.rendering_buffers
                    } else {
                        before.inner.rendering_buffers.push((number, sync))
                    },
                    ..before.inner
                },
                ..before
            })
            &&& final(buffer)@ == old(buffer)@.rendered(
                SharingBuf::Shm(copy.pending.layout),
                after.sequence_counter,
            )
        }),
{
}

/// A frame that did not get into its buffer is neither counted nor shown: the buffer goes back
/// unused, no stamp changes, and the stream stops.
pub proof fn incomplete_frames_stop_the_stream<T, D, Y, K, G>(
    cast: &mut Cast<T, D, Y, K, G>,
    number: u64,
    copy: ShmCopy,
    valid: bool,
    buffer: &mut StreamBuffer,
    sync: Y,
    completion: ShmCompletion<K>,
)
    requires
        call_ensures(
            Cast::<T, D, Y, K, G>::complete_shm_readback,
            (cast, number, copy, valid, buffer, sync),
            completion,
        ),
        !valid || copy.outcome is None || copy.outcome->0 is Err,
    ensures
        ({
            let (before, after) = (old(cast)@, final(cast)@);
            &&& completion matches ShmCompletion::Failed(taken)
            &&& taken is None <==> before.inner.stopping
            &&& taken is Some ==> {
                &&& taken->0.sources@ == before.inner.fence_sources
                &&& taken->0.redraw == before.scheduled_redraw
                &&& after == (Session {
                    scheduled_redraw: None,
                    inner: Inner {
                        state: before.inner.state.invalidated(),
                        stopping: true,
                        is_active: false,
                        waiting_for_buffer: false,
                        fence_sources: Map::empty(),
                        pending_shm: Map::empty(),
                        ..before.inner
                    },
                    ..before
                })
            }
            &&& taken is None ==> after == (Session {
                inner: Inner { state: before.inner.state.invalidated(), ..before.inner },
                ..before
            })
        }),
        final(buffer)@ == old(buffer)@.unused(),
{
}

} // verus!
