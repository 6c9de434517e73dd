//! The DCAM API connection and the C11440-22CU camera: which camera may be
//! opened, and which exposure and region of interest the camera accepts.
use vstd::prelude::*;
use crate::bindings::dcam_result;
use crate::bindings::DCAMAPI_INIT;
use crate::bindings::DCAMDEV_OPEN;
use crate::bindings::DCAMERR_INVALIDCAMERA;
use crate::bindings::DCAMERR_SUCCESS;
use crate::bindings::HDCAM;

verus! {

/// Shortest exposure of the camera, in nanoseconds.
pub const EXPOSURE_MIN_NS: u64 = 1_003_669;

/// Longest exposure of the camera, in nanoseconds.
pub const EXPOSURE_MAX_NS: u64 = 10_000_000_000;

/// Exposures are set in steps of this many nanoseconds above the shortest.
pub const EXPOSURE_STEP_NS: u64 = 10;

/// Smallest side of the region of interest, in pixels.
pub const ROI_MIN: usize = 4;

/// Largest side of the region of interest, in pixels.
pub const ROI_MAX: usize = 2044;

/// Sides of the region of interest are multiples of this many pixels.
pub const ROI_ALIGN: usize = 4;

/// The exposure the camera is given for a request of `ns` nanoseconds: the
/// limits where the request lies beyond them, and otherwise the nearest
/// exposure on the camera's grid (ties go up). The longest exposure is not on
/// the grid, so a request of exactly the longest gets the grid point below it.
pub open spec fn exposure_setting(ns: int) -> int {
    if ns <= EXPOSURE_MIN_NS {
        EXPOSURE_MIN_NS as int
    } else if ns > EXPOSURE_MAX_NS {
        EXPOSURE_MAX_NS as int
    } else {
        EXPOSURE_MIN_NS + EXPOSURE_STEP_NS * ((ns - EXPOSURE_MIN_NS + EXPOSURE_STEP_NS / 2)
            / EXPOSURE_STEP_NS as int)
    }
}

/// The side of the region of interest the camera is given for a request of
/// `v` pixels: clamped to the limits, then rounded down to the alignment.
pub open spec fn roi_side(v: int) -> int {
    let c = if v < ROI_MIN {
        ROI_MIN as int
    } else if v > ROI_MAX {
        ROI_MAX as int
    } else {
        v
    };
    (c / ROI_ALIGN as int) * ROI_ALIGN
}

/// Requests below the shortest exposure get exactly the shortest, requests
/// above the longest get exactly the longest, and every other request gets an
/// exposure on the grid within half a step of it, never beyond the limits.
pub proof fn lemma_exposure_setting(ns: int)
    ensures
        ns <= EXPOSURE_MIN_NS ==> exposure_setting(ns) == EXPOSURE_MIN_NS,
        ns > EXPOSURE_MAX_NS ==> exposure_setting(ns) == EXPOSURE_MAX_NS,
        EXPOSURE_MIN_NS < ns <= EXPOSURE_MAX_NS ==> {
            &&& EXPOSURE_MIN_NS <= exposure_setting(ns) <= EXPOSURE_MAX_NS
            &&& (exposure_setting(ns) - EXPOSURE_MIN_NS) % (EXPOSURE_STEP_NS as int) == 0
            &&& ns - EXPOSURE_STEP_NS / 2 <= exposure_setting(ns) <= ns + EXPOSURE_STEP_NS / 2
        },
{
}

/// A side of the region of interest is the largest multiple of the alignment
/// within the limits that is not above the request (or the smallest side,
/// for a request below it).
pub proof fn lemma_roi_side(v: int)
    requires
        v >= 0,
    ensures
        ROI_MIN <= roi_side(v) <= ROI_MAX,
        roi_side(v) % (ROI_ALIGN as int) == 0,
        v >= ROI_MIN ==> roi_side(v) <= v,
        forall|m: int|
            ROI_MIN <= m <= ROI_MAX && #[trigger] (m % (ROI_ALIGN as int)) == 0 && m <= (if v < ROI_MIN {
                ROI_MIN as int
            } else {
                v
            }) ==> m <= roi_side(v),
{
}

/// A connection to the DCAM API.
pub struct DcamAPI {
    api_init: DCAMAPI_INIT,
}

impl DcamAPI {
    /// The connection that API initialisation gives when it answered `status`
    /// and filled in `api_init`; the status itself when it failed.
    pub fn connect(status: i32, api_init: DCAMAPI_INIT) -> (r: Result<DcamAPI, i32>)
        ensures
            r is Ok <==> status == DCAMERR_SUCCESS,
            r matches Ok(api) ==> api.ncam() == api_init.iDeviceCount,
            r matches Err(e) ==> e == status,
    {
        match dcam_result(status) {
            Ok(()) => Ok(DcamAPI { api_init }),
            Err(e) => Err(e),
        }
    }

    /// The number of cameras the API found.
    pub closed spec fn ncam_spec(&self) -> i32 {
        self.api_init.iDeviceCount
    }

    /// The number of connected cameras.
    #[verifier::when_used_as_spec(ncam_spec)]
    pub fn ncam(&self) -> (r: i32)
        ensures
            r == self.ncam_spec(),
    {
        self.api_init.iDeviceCount
    }

    /// The request that opens camera `cam_id`; `DCAMERR_INVALIDCAMERA` when no
    /// connected camera has that index.
    pub fn open_request(&self, cam_id: i32) -> (r: Result<DCAMDEV_OPEN, i32>)
        ensures
            r is Ok <==> 0 <= cam_id < self.ncam(),
            r matches Ok(req) ==> req.index == cam_id && req.hdcam == 0,
            r matches Err(e) ==> e == DCAMERR_INVALIDCAMERA,
    {
        if cam_id < 0 || cam_id >= self.ncam() {
            Err(DCAMERR_INVALIDCAMERA)
        } else {
            Ok(DCAMDEV_OPEN::new(cam_id))
        }
    }

    /// The camera that an open request gives when the API answered `status`
    /// and filled in `opened`: the status when it failed, and
    /// `DCAMERR_INVALIDCAMERA` when it answered success with no camera.
    pub fn open_cam(&self, status: i32, opened: &DCAMDEV_OPEN) -> (r: Result<C11440_22CU, i32>)
        ensures
            r is Ok <==> status == DCAMERR_SUCCESS && opened.hdcam != 0,
            r matches Ok(cam) ==> cam.handle() == opened.hdcam,
            r matches Err(e) ==> e == if status != DCAMERR_SUCCESS {
                status
            } else {
                DCAMERR_INVALIDCAMERA
            },
    {
        match dcam_result(status) {
            Err(e) => Err(e),
            Ok(()) => {
                if opened.hdcam == 0 {
                    Err(DCAMERR_INVALIDCAMERA)
                } else {
                    Ok(C11440_22CU::new(opened.hdcam))
                }
            },
        }
    }
}

/// An open C11440-22CU camera.
pub struct C11440_22CU {
    handle: HDCAM,
}

impl C11440_22CU {
    /// The camera opened as `handle`.
    pub fn new(handle: HDCAM) -> (r: C11440_22CU)
        ensures
            r.handle() == handle,
    {
        C11440_22CU { handle }
    }

    /// The handle of this camera.
    pub closed spec fn handle_spec(&self) -> HDCAM {
        self.handle
    }

    /// The handle of this camera.
    #[verifier::when_used_as_spec(handle_spec)]
    pub fn handle(&self) -> (r: HDCAM)
        ensures
            r == self.handle_spec(),
    {
        self.handle
    }

    /// The exposure, in nanoseconds, that the camera is given for a request of
    /// `exposure_ns` nanoseconds.
    pub fn clamp_exposure(exposure_ns: u64) -> (r: u64)
        ensures
            r == exposure_setting(exposure_ns as int),
            EXPOSURE_MIN_NS <= r <= EXPOSURE_MAX_NS,
            exposure_ns <= EXPOSURE_MIN_NS ==> r == EXPOSURE_MIN_NS,
            exposure_ns > EXPOSURE_MAX_NS ==> r == EXPOSURE_MAX_NS,
            EXPOSURE_MIN_NS < exposure_ns <= EXPOSURE_MAX_NS ==> {
                &&& (r - EXPOSURE_MIN_NS) % (EXPOSURE_STEP_NS as int) == 0
                &&& exposure_ns - EXPOSURE_STEP_NS / 2 <= r <= exposure_ns + EXPOSURE_STEP_NS / 2
            },
    {
        if exposure_ns <= EXPOSURE_MIN_NS {
            EXPOSURE_MIN_NS
        } else if exposure_ns > EXPOSURE_MAX_NS {
            EXPOSURE_MAX_NS
        } else {
            let steps = (exposure_ns - EXPOSURE_MIN_NS + EXPOSURE_STEP_NS / 2) / EXPOSURE_STEP_NS;
            EXPOSURE_MIN_NS + EXPOSURE_STEP_NS * steps
        }
    }

    /// The region of interest `[width, height]` that the camera is given for a
    /// request of `resolution`.
    pub fn clamp_resolution(resolution: [usize; 2]) -> (r: [usize; 2])
        ensures
            forall|i: int|
                0 <= i < 2 ==> {
                    &&& #[trigger] r[i] == roi_side(resolution[i] as int)
                    &&& ROI_MIN <= r[i] <= ROI_MAX
                    &&& r[i] % ROI_ALIGN == 0
                    &&& resolution[i] >= ROI_MIN ==> r[i] <= resolution[i]
                },
    {
        let w = clamp_side(resolution[0]);
        let h = clamp_side(resolution[1]);
        let r = [w, h];
        assert(forall|i: int| 0 <= i < 2 ==> #[trigger] r[i] == roi_side(resolution[i] as int));
        r
    }
}

fn clamp_side(v: usize) -> (r: usize)
    ensures
        r == roi_side(v as int),
        ROI_MIN <= r <= ROI_MAX,
        r % ROI_ALIGN == 0,
        v >= ROI_MIN ==> r <= v,
{
    let c = if v < ROI_MIN {
        ROI_MIN
    } else if v > ROI_MAX {
        ROI_MAX
    } else {
        v
    };
    (c / ROI_ALIGN) * ROI_ALIGN
}

} // verus!
