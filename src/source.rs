//! The settings of a session before it starts.
use vstd::prelude::*;
use crate::acquisition::Acquisition;
use crate::acquisition::AcquisitionView;
use crate::acquisition::Action;
use crate::acquisition::Stage;
use crate::camera::roi_side;

verus! {

/// The camera's own exposure, in nanoseconds, used until another is set.
pub const DEFAULT_EXPOSURE_NS: u64 = 9_997_710;

/// The region of interest asked for until another is set: the whole sensor.
pub const DEFAULT_RESOLUTION: usize = 2048;

/// A source of frames from a C11440-22CU camera: which camera, and the
/// settings that the next session will apply.
pub struct C11440_22CUSource {
    camid: i32,
    exposure_ns: u64,
    resolution: [usize; 2],
    bufsize: usize,
}

impl C11440_22CUSource {
    /// A source for the camera with API index `camid`, capturing into `bufsize`
    /// slots, with the default exposure and the whole sensor.
    pub fn new(camid: i32, bufsize: usize) -> (r: C11440_22CUSource)
        ensures
            r.camid() == camid,
            r.bufsize() == bufsize,
            r.get_exposure() == DEFAULT_EXPOSURE_NS,
            r.get_resolution() == [DEFAULT_RESOLUTION, DEFAULT_RESOLUTION],
    {
        C11440_22CUSource {
            camid,
            exposure_ns: DEFAULT_EXPOSURE_NS,
            resolution: [DEFAULT_RESOLUTION, DEFAULT_RESOLUTION],
            bufsize,
        }
    }

    pub closed spec fn camid_spec(&self) -> i32 {
        self.camid
    }

    pub closed spec fn bufsize_spec(&self) -> usize {
        self.bufsize
    }

    pub closed spec fn exposure_spec(&self) -> u64 {
        self.exposure_ns
    }

    pub closed spec fn resolution_spec(&self) -> [usize; 2] {
        self.resolution
    }

    /// The camera's API index.
    #[verifier::when_used_as_spec(camid_spec)]
    pub fn camid(&self) -> (r: i32)
        ensures
            r == self.camid_spec(),
    {
        self.camid
    }

    /// The number of slots a session captures into.
    #[verifier::when_used_as_spec(bufsize_spec)]
    pub fn bufsize(&self) -> (r: usize)
        ensures
            r == self.bufsize_spec(),
    {
        self.bufsize
    }

    /// The exposure asked for, in nanoseconds; the camera gets the nearest it accepts.
    #[verifier::when_used_as_spec(exposure_spec)]
    pub fn get_exposure(&self) -> (r: u64)
        ensures
            r == self.exposure_spec(),
    {
        self.exposure_ns
    }

    /// The region of interest asked for, `[width, height]`; the camera gets the
    /// nearest it accepts.
    #[verifier::when_used_as_spec(resolution_spec)]
    pub fn get_resolution(&self) -> (r: [usize; 2])
        ensures
            r == self.resolution_spec(),
    {
        self.resolution
    }

    /// Asks for `exposure_ns` nanoseconds of exposure in the next session.
    pub fn set_exposure(&mut self, exposure_ns: u64)
        ensures
            final(self).get_exposure() == exposure_ns,
            final(self).get_resolution() == old(self).get_resolution(),
            final(self).camid() == old(self).camid(),
            final(self).bufsize() == old(self).bufsize(),
    {
        self.exposure_ns = exposure_ns;
    }

    /// Asks for the region of interest `resolution` in the next session.
    pub fn set_resolution(&mut self, resolution: [usize; 2])
        ensures
            final(self).get_resolution() == resolution,
            final(self).get_exposure() == old(self).get_exposure(),
            final(self).camid() == old(self).camid(),
            final(self).bufsize() == old(self).bufsize(),
    {
        self.resolution = resolution;
    }

    /// A session with these settings that delivers to the consumer
    /// `destination`, and its first action.
    pub fn start(&self, destination: u64) -> (r: (Acquisition, Action))
        ensures
            r.0@.wf(),
            r.0@ == (AcquisitionView {
                stage: Stage::Opening,
                camera_id: self.camid(),
                exposure_ns: self.get_exposure(),
                width: roi_side(self.get_resolution()[0] as int) as usize,
                height: roi_side(self.get_resolution()[1] as int) as usize,
                depth: self.bufsize(),
                camera_handle: 0,
                buffer: None,
                camera_open: false,
                buffer_registered: false,
                capturing: false,
                destination,
                last_timestamp_ns: 0,
                fault: None,
            }),
            r.1 == Action::OpenCamera(self.camid()),
    {
        Acquisition::new(self.camid, self.exposure_ns, self.resolution, self.bufsize, destination)
    }
}

} // verus!
