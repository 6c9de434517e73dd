//! A fixed number of equally sized frame slots in one allocation, which the
//! camera writes frames into.
use vstd::prelude::*;
use vstd::slice::slice_subrange;
use vstd::slice::slice_to_vec;
use crate::bindings::DCAMCAP_TRANSFERINFO;
use crate::bindings::HDCAM;

verus! {

/// Why a frame buffer could not be laid out.
#[derive(Debug, Clone, Copy, PartialEq, Eq, Structural)]
pub enum AttachError {
    /// The frame size is zero or odd, there are no frames, there are more
    /// frames than the camera can count, or the whole does not fit in memory.
    InvalidSize,
}

/// Whether `num_frames` slots of `frame_size` bytes each can be laid out: a
/// slot holds whole 16-bit samples, there is at least one slot, the camera can
/// count the slots, and all the bytes fit in an address.
pub open spec fn valid_layout(frame_size: int, num_frames: int) -> bool {
    &&& frame_size > 0
    &&& frame_size % 2 == 0
    &&& 0 < num_frames <= i32::MAX
    &&& frame_size * num_frames <= usize::MAX
}

/// What a frame buffer is: its camera, its slot size in bytes, its number of
/// slots, and its samples, slot after slot.
pub struct FrameBufferView {
    pub camera_handle: HDCAM,
    pub frame_size: nat,
    pub num_frames: nat,
    pub samples: Seq<u16>,
}

impl FrameBufferView {
    /// Samples in one slot.
    pub open spec fn slot_len(self) -> nat {
        self.frame_size / 2
    }

    /// Index of the first sample of slot `i`.
    pub open spec fn slot_start(self, i: int) -> int {
        i * self.slot_len()
    }

    /// Index one past the last sample of slot `i`.
    pub open spec fn slot_end(self, i: int) -> int {
        (i + 1) * self.slot_len()
    }

    /// The samples of slot `i`.
    pub open spec fn slot(self, i: int) -> Seq<u16> {
        self.samples.subrange(self.slot_start(i), self.slot_end(i))
    }

    /// The layout is valid and the storage holds exactly the slots.
    pub open spec fn wf(self) -> bool {
        &&& valid_layout(self.frame_size as int, self.num_frames as int)
        &&& self.samples.len() == self.slot_len() * self.num_frames
    }
}

/// Storage for `num_frames` frames of `frame_size` bytes each, to be attached
/// to the camera `camera_handle`.
pub struct FrameBuffer {
    camera_handle: HDCAM,
    frame_size: usize,
    num_frames: usize,
    buffer: Vec<u16>,
}

impl View for FrameBuffer {
    type V = FrameBufferView;

    closed spec fn view(&self) -> FrameBufferView {
        FrameBufferView {
            camera_handle: self.camera_handle,
            frame_size: self.frame_size as nat,
            num_frames: self.num_frames as nat,
            samples: self.buffer@,
        }
    }
}

/// Slots `i` and `j` of a well-formed buffer lie inside its storage, and do not
/// overlap when `i` and `j` differ.
pub proof fn lemma_slots_disjoint(fb: FrameBufferView, i: int, j: int)
    requires
        fb.wf(),
        0 <= i < fb.num_frames,
        0 <= j < fb.num_frames,
    ensures
        0 <= fb.slot_start(i) <= fb.slot_end(i) <= fb.samples.len() <= usize::MAX,
        fb.slot_end(i) - fb.slot_start(i) == fb.slot_len(),
        fb.slot(i).len() == fb.frame_size / 2,
        i != j ==> fb.slot_end(i) <= fb.slot_start(j) || fb.slot_end(j) <= fb.slot_start(i),
{
    let l = fb.slot_len() as int;
    let n = fb.num_frames as int;
    let f = fb.frame_size as int;
    assert(l * n <= f * n) by (nonlinear_arith)
        requires
            0 <= l <= f,
            n >= 0,
    ;
    assert(0 <= i * l <= (i + 1) * l <= n * l) by (nonlinear_arith)
        requires
            0 <= i < n,
            l >= 0,
    ;
    assert((i + 1) * l - i * l == l) by (nonlinear_arith);
    if i < j {
        assert((i + 1) * l <= j * l) by (nonlinear_arith)
            requires
                i < j,
                l >= 0,
        ;
    } else if j < i {
        assert((j + 1) * l <= i * l) by (nonlinear_arith)
            requires
                j < i,
                l >= 0,
        ;
    }
}

impl FrameBuffer {
    /// Lays out `num_frames` slots of `frame_size` bytes, all samples zero.
    /// Registering the slots with the camera is the caller's next step.
    pub fn attach(camera_handle: HDCAM, frame_size: usize, num_frames: usize) -> (r: Result<
        FrameBuffer,
        AttachError,
    >)
        ensures
            r is Ok <==> valid_layout(frame_size as int, num_frames as int),
            r is Err ==> r == Err::<FrameBuffer, AttachError>(AttachError::InvalidSize),
            r matches Ok(fb) ==> {
                &&& fb@.wf()
                &&& fb@.camera_handle == camera_handle
                &&& fb@.frame_size == frame_size
                &&& fb@.num_frames == num_frames
                &&& forall|k: int| 0 <= k < fb@.samples.len() ==> #[trigger] fb@.samples[k] == 0
            },
    {
        if frame_size == 0 || frame_size % 2 != 0 || num_frames == 0 || num_frames > 2147483647 {
            return Err(AttachError::InvalidSize);
        }
        match frame_size.checked_mul(num_frames) {
            None => Err(AttachError::InvalidSize),
            Some(_) => {
                let slot_len = frame_size / 2;
                proof {
                    assert(slot_len * num_frames <= frame_size * num_frames) by (nonlinear_arith)
                        requires
                            slot_len <= frame_size,
                    ;
                }
                let buffer: Vec<u16> = vec![0u16; slot_len * num_frames];
                Ok(FrameBuffer { camera_handle, frame_size, num_frames, buffer })
            },
        }
    }

    /// The camera this buffer is attached to.
    pub fn camera_handle(&self) -> (r: HDCAM)
        ensures
            r == self@.camera_handle,
    {
        self.camera_handle
    }

    /// Bytes in one slot.
    pub fn frame_size(&self) -> (r: usize)
        ensures
            r == self@.frame_size,
    {
        self.frame_size
    }

    /// Number of slots.
    pub fn num_frames(&self) -> (r: usize)
        ensures
            r == self@.num_frames,
    {
        self.num_frames
    }

    /// Samples in one slot.
    pub fn slot_len(&self) -> (r: usize)
        ensures
            r == self@.slot_len(),
    {
        self.frame_size / 2
    }

    /// Index, in the storage, of the first sample of slot `index`; where the
    /// camera is to write that slot.
    pub fn slot_start(&self, index: usize) -> (r: usize)
        requires
            self@.wf(),
            index < self@.num_frames,
        ensures
            r == self@.slot_start(index as int),
    {
        proof {
            lemma_slots_disjoint(self@, index as int, index as int);
        }
        index * (self.frame_size / 2)
    }

    /// The samples of slot `index`.
    pub fn index(&self, index: usize) -> (r: &[u16])
        requires
            self@.wf(),
            index < self@.num_frames,
        ensures
            r@ == self@.slot(index as int),
    {
        proof {
            lemma_slots_disjoint(self@, index as int, index as int);
        }
        let len = self.frame_size / 2;
        slice_subrange(self.buffer.as_slice(), index * len, (index + 1) * len)
    }

    /// The whole storage, for the camera to write frames into.
    ///
    /// The caller takes slot addresses from it and registers them with the
    /// camera, which then writes frames there through those addresses, out of
    /// sight of these contracts. What the contracts here say of slot contents
    /// holds of this buffer's view, that is of what was written through Rust
    /// references; that the camera wrote a frame there is not proved.
    pub fn storage_mut(&mut self) -> (r: &mut [u16])
        ensures
            r@ == old(self)@.samples,
            final(self)@.samples == final(r)@,
            final(self)@.camera_handle == old(self)@.camera_handle,
            final(self)@.frame_size == old(self)@.frame_size,
            final(self)@.num_frames == old(self)@.num_frames,
    {
        self.buffer.as_mut_slice()
    }

    /// Overwrites slot `index` with `samples`, leaving every other slot as it was.
    pub fn write_slot(&mut self, index: usize, samples: &[u16])
        requires
            old(self)@.wf(),
            index < old(self)@.num_frames,
            samples@.len() == old(self)@.slot_len(),
        ensures
            final(self)@.wf(),
            final(self)@.camera_handle == old(self)@.camera_handle,
            final(self)@.frame_size == old(self)@.frame_size,
            final(self)@.num_frames == old(self)@.num_frames,
            final(self)@.slot(index as int) == samples@,
            forall|j: int|
                0 <= j < final(self)@.num_frames && j != index ==> #[trigger] final(self)@.slot(j)
                    == old(self)@.slot(j),
    {
        proof {
            lemma_slots_disjoint(self@, index as int, index as int);
        }
        let len = self.frame_size / 2;
        let start = index * len;
        let ghost before = self.buffer@;
        let mut k: usize = 0;
        while k < len
            invariant
                0 <= k <= len,
                len == self@.slot_len(),
                start == self@.slot_start(index as int),
                start + len <= self.buffer@.len() <= usize::MAX,
                samples@.len() == len,
                self.buffer@.len() == before.len(),
                self.camera_handle == old(self).camera_handle,
                self.frame_size == old(self).frame_size,
                self.num_frames == old(self).num_frames,
                forall|m: int|
                    0 <= m < before.len() && !(start <= m < start + k) ==> #[trigger] self.buffer@[m]
                        == before[m],
                forall|m: int| start <= m < start + k ==> #[trigger] self.buffer@[m] == samples@[m
                    - start],
            decreases len - k,
        {
            self.buffer.set(start + k, samples[k]);
            k = k + 1;
        }
        assert(self@.slot(index as int) =~= samples@);
        assert forall|j: int| 0 <= j < self@.num_frames && j != index implies #[trigger] self@.slot(
            j,
        ) == old(self)@.slot(j) by {
            lemma_slots_disjoint(self@, index as int, j);
            lemma_slots_disjoint(self@, j, index as int);
            assert(self@.slot(j) =~= old(self)@.slot(j));
        }
    }

    /// A copy of slot `index`, or `None` when there is no such slot.
    pub fn copy_frame(&self, index: usize) -> (r: Option<Vec<u16>>)
        requires
            self@.wf(),
        ensures
            r is None <==> index >= self@.num_frames,
            r matches Some(v) ==> v@ == self@.slot(index as int),
    {
        if index < self.num_frames {
            Some(slice_to_vec(self.index(index)))
        } else {
            None
        }
    }

    /// The slot that holds the newest frame, as the camera reported it in
    /// `info`; `None` when the report names no slot of this buffer.
    pub fn most_recent_frame_index(&self, info: &DCAMCAP_TRANSFERINFO) -> (r: Option<usize>)
        ensures
            r is Some <==> 0 <= info.nNewestFrameIndex < self@.num_frames,
            r matches Some(i) ==> i == info.nNewestFrameIndex,
    {
        if info.nNewestFrameIndex >= 0 && (info.nNewestFrameIndex as usize) < self.num_frames {
            Some(info.nNewestFrameIndex as usize)
        } else {
            None
        }
    }

    /// A copy of the newest frame, as the camera reported it in `info`; `None`
    /// when the report names no slot of this buffer.
    pub fn copy_most_recent_frame(&self, info: &DCAMCAP_TRANSFERINFO) -> (r: Option<Vec<u16>>)
        requires
            self@.wf(),
        ensures
            r is Some <==> 0 <= info.nNewestFrameIndex < self@.num_frames,
            r matches Some(v) ==> v@ == self@.slot(info.nNewestFrameIndex as int),
    {
        match self.most_recent_frame_index(info) {
            Some(i) => self.copy_frame(i),
            None => None,
        }
    }
}

} // verus!
