//! Records of the DCAM C interface, as plain values.
//!
//! Every pointer of the C interface is carried as an address (`usize`, zero for
//! null); the layer that performs the foreign calls turns these records into the
//! C structures and back.
use vstd::prelude::*;

verus! {

/// An open camera (`HDCAM` in the C interface), as an address; zero is no camera.
pub type HDCAM = usize;

/// A wait handle (`HDCAMWAIT` in the C interface), as an address; zero is none.
pub type HDCAMWAIT = usize;

/// Status code that every DCAM call returns on success.
pub const DCAMERR_SUCCESS: i32 = 1;

/// The camera index does not name a connected camera.
pub const DCAMERR_INVALIDCAMERA: i32 = -2147481594;

/// Attach kind: the buffer is an array of frame pointers.
pub const DCAM_ATTACHKIND_FRAME: i32 = 0;

/// Transfer kind: report frame indices.
pub const DCAMCAP_TRANSFERKIND_FRAME: i32 = 0;

/// Capture mode: capture frames continuously.
pub const DCAMCAP_START_SEQUENCE: i32 = -1;

/// Wait event: a frame has been written into the attached buffer.
pub const DCAMWAIT_CAPEVENT_FRAMEREADY: i32 = 2;

/// Wait timeout meaning "wait forever".
pub const DCAMWAIT_TIMEOUT_INFINITE: i32 = -2147483648;

/// Property: exposure time in seconds.
pub const DCAM_IDPROP_EXPOSURETIME: i32 = 0x001F0110;

/// Property: sub-array (region of interest) mode.
pub const DCAM_IDPROP_SUBARRAYMODE: i32 = 0x00402150;

/// Property: sub-array width.
pub const DCAM_IDPROP_SUBARRAYHSIZE: i32 = 0x00402120;

/// Property: sub-array height.
pub const DCAM_IDPROP_SUBARRAYVSIZE: i32 = 0x00402140;

/// Property: image width in pixels.
pub const DCAM_IDPROP_IMAGE_WIDTH: i32 = 0x00420210;

/// Property: image height in pixels.
pub const DCAM_IDPROP_IMAGE_HEIGHT: i32 = 0x00420220;

/// Property: bytes of one frame in the attached buffer.
pub const DCAM_IDPROP_BUFFER_FRAMEBYTES: i32 = 0x00420830;

/// Property value: mode on.
pub const DCAMPROP_MODE_ON: i32 = 2;

/// Identification string: camera serial number.
pub const DCAM_IDSTR_CAMERAID: i32 = 0x04000102;

/// Identification string: camera model.
pub const DCAM_IDSTR_MODEL: i32 = 0x04000104;

/// Identification string: API version the camera supports.
pub const DCAM_IDSTR_DCAMAPIVERSION: i32 = 0x04000108;

/// Length of the text buffer handed to a string query.
pub const DCAMDEV_STRING_TEXTBYTES: i32 = 256;

/// Maps a DCAM status code to a `Result`: success is `Ok`, any other code the error.
pub fn dcam_result(status: i32) -> (r: Result<(), i32>)
    ensures
        status == DCAMERR_SUCCESS ==> r == Ok::<(), i32>(()),
        status != DCAMERR_SUCCESS ==> r == Err::<(), i32>(status),
{
    if status == DCAMERR_SUCCESS {
        Ok(())
    } else {
        Err(status)
    }
}

/// Interface identifier handed to the API at initialisation.
#[derive(Debug, Clone, Copy, PartialEq, Eq)]
pub struct DCAM_GUID {
    pub Data1: u32,
    pub Data2: u16,
    pub Data3: u16,
    pub Data4: [u8; 8],
}

impl DCAM_GUID {
    /// A GUID of zeros.
    pub fn new() -> (r: DCAM_GUID)
        ensures
            r.Data1 == 0,
            r.Data2 == 0,
            r.Data3 == 0,
            forall|i: int| 0 <= i < 8 ==> #[trigger] r.Data4@[i] == 0,
    {
        DCAM_GUID { Data1: 0, Data2: 0, Data3: 0, Data4: [0u8; 8] }
    }
}

/// The size, in bytes, of the library's own record type `T`, which each
/// record's constructor writes into its leading `size` field. This is not the
/// size of the C structure: the layer that performs the foreign calls builds
/// the C structure and writes that structure's own size in its place.
pub open spec fn record_size<T>() -> i32 {
    vstd::layout::size_of::<T>() as i32
}

/// Parameters of API initialisation; `iDeviceCount` receives the number of cameras.
#[derive(Debug, Clone, Copy, PartialEq, Eq)]
pub struct DCAMAPI_INIT {
    pub size: i32,
    pub iDeviceCount: i32,
    pub reserved: i32,
    pub initoptionbytes: i32,
    /// Address of the option array; zero for none.
    pub initoption: usize,
    /// Address of the interface identifier; zero for none.
    pub guid: usize,
}

impl DCAMAPI_INIT {
    /// Initialisation parameters with no options and the identifier at `dcam_guid`.
    pub fn new(dcam_guid: usize) -> (r: DCAMAPI_INIT)
        ensures
            r.size == record_size::<DCAMAPI_INIT>(),
            r.iDeviceCount == 0,
            r.reserved == 0,
            r.initoptionbytes == 0,
            r.initoption == 0,
            r.guid == dcam_guid,
    {
        DCAMAPI_INIT {
            size: core::mem::size_of::<Self>() as i32,
            iDeviceCount: 0,
            reserved: 0,
            initoptionbytes: 0,
            initoption: 0,
            guid: dcam_guid,
        }
    }
}

/// Parameters of opening a camera; `hdcam` receives the camera handle.
#[derive(Debug, Clone, Copy, PartialEq, Eq)]
pub struct DCAMDEV_OPEN {
    pub size: i32,
    pub index: i32,
    pub hdcam: HDCAM,
}

impl DCAMDEV_OPEN {
    /// A request to open the camera with index `cam_id`.
    pub fn new(cam_id: i32) -> (r: DCAMDEV_OPEN)
        ensures
            r.size == record_size::<DCAMDEV_OPEN>(),
            r.index == cam_id,
            r.hdcam == 0,
    {
        DCAMDEV_OPEN { size: core::mem::size_of::<Self>() as i32, index: cam_id, hdcam: 0 }
    }
}

/// Parameters of a string query; the text is written at address `text`.
#[derive(Debug, Clone, Copy, PartialEq, Eq)]
pub struct DCAMDEV_STRING {
    pub size: i32,
    pub iString: i32,
    /// Address of the text buffer.
    pub text: usize,
    pub textbytes: i32,
}

impl DCAMDEV_STRING {
    /// A query of string `istring` into the buffer at `textbuf`, of
    /// `DCAMDEV_STRING_TEXTBYTES` bytes.
    pub fn new(istring: i32, textbuf: usize) -> (r: DCAMDEV_STRING)
        ensures
            r.size == record_size::<DCAMDEV_STRING>(),
            r.iString == istring,
            r.text == textbuf,
            r.textbytes == DCAMDEV_STRING_TEXTBYTES,
    {
        DCAMDEV_STRING {
            size: core::mem::size_of::<Self>() as i32,
            iString: istring,
            text: textbuf,
            textbytes: DCAMDEV_STRING_TEXTBYTES,
        }
    }
}

/// Parameters of attaching a frame buffer: the address of an array of
/// `buffercount` frame addresses.
#[derive(Debug, Clone, Copy, PartialEq, Eq)]
pub struct DCAMBUF_ATTACH {
    pub size: i32,
    pub iKind: i32,
    pub buffer: usize,
    pub buffercount: i32,
}

impl DCAMBUF_ATTACH {
    /// An attachment of the `nframes` frame addresses stored at `buffer`.
    pub fn new(buffer: usize, nframes: usize) -> (r: DCAMBUF_ATTACH)
        requires
            nframes <= i32::MAX,
        ensures
            r.size == record_size::<DCAMBUF_ATTACH>(),
            r.iKind == DCAM_ATTACHKIND_FRAME,
            r.buffer == buffer,
            r.buffercount == nframes,
    {
        DCAMBUF_ATTACH {
            size: core::mem::size_of::<Self>() as i32,
            iKind: DCAM_ATTACHKIND_FRAME,
            buffer,
            buffercount: nframes as i32,
        }
    }
}

/// Transfer state of a capture: the newest frame's index and the number of
/// frames captured; both -1 until the camera fills them in.
#[derive(Debug, Clone, Copy, PartialEq, Eq)]
pub struct DCAMCAP_TRANSFERINFO {
    pub size: i32,
    pub iKind: i32,
    pub nNewestFrameIndex: i32,
    pub nFrameCount: i32,
}

impl DCAMCAP_TRANSFERINFO {
    /// A transfer query by frame index, not yet answered.
    pub fn new() -> (r: DCAMCAP_TRANSFERINFO)
        ensures
            r.size == record_size::<DCAMCAP_TRANSFERINFO>(),
            r.iKind == DCAMCAP_TRANSFERKIND_FRAME,
            r.nNewestFrameIndex == -1,
            r.nFrameCount == -1,
    {
        DCAMCAP_TRANSFERINFO {
            size: core::mem::size_of::<Self>() as i32,
            iKind: DCAMCAP_TRANSFERKIND_FRAME,
            nNewestFrameIndex: -1,
            nFrameCount: -1,
        }
    }
}

/// Parameters of opening a wait handle on a camera; `hwait` receives it.
#[derive(Debug, Clone, Copy, PartialEq, Eq)]
pub struct DCAMWAIT_OPEN {
    pub size: i32,
    pub supportevent: i32,
    pub hwait: HDCAMWAIT,
    pub hdcam: HDCAM,
}

impl DCAMWAIT_OPEN {
    /// A request for a handle that waits for frames of `camera_handle`.
    pub fn new(camera_handle: HDCAM) -> (r: DCAMWAIT_OPEN)
        ensures
            r.size == record_size::<DCAMWAIT_OPEN>(),
            r.supportevent == DCAMWAIT_CAPEVENT_FRAMEREADY,
            r.hwait == 0,
            r.hdcam == camera_handle,
    {
        DCAMWAIT_OPEN {
            size: core::mem::size_of::<Self>() as i32,
            supportevent: DCAMWAIT_CAPEVENT_FRAMEREADY,
            hwait: 0,
            hdcam: camera_handle,
        }
    }
}

/// Parameters of one wait: the events waited for, the timeout in
/// milliseconds, and the event that happened.
#[derive(Debug, Clone, Copy, PartialEq, Eq)]
pub struct DCAMWAIT_START {
    pub size: i32,
    pub eventhappened: i32,
    pub eventmask: i32,
    pub timeout: i32,
}

impl DCAMWAIT_START {
    /// A wait for a ready frame, with no timeout.
    pub fn new() -> (r: DCAMWAIT_START)
        ensures
            r.size == record_size::<DCAMWAIT_START>(),
            r.eventhappened == 0,
            r.eventmask == DCAMWAIT_CAPEVENT_FRAMEREADY,
            r.timeout == DCAMWAIT_TIMEOUT_INFINITE,
    {
        DCAMWAIT_START {
            size: core::mem::size_of::<Self>() as i32,
            eventhappened: 0,
            eventmask: DCAMWAIT_CAPEVENT_FRAMEREADY,
            timeout: DCAMWAIT_TIMEOUT_INFINITE,
        }
    }

    /// A wait for a ready frame that gives up after `timeout_ms` milliseconds.
    pub fn with_timeout(timeout_ms: i32) -> (r: DCAMWAIT_START)
        requires
            timeout_ms >= 0,
        ensures
            r.size == record_size::<DCAMWAIT_START>(),
            r.eventhappened == 0,
            r.eventmask == DCAMWAIT_CAPEVENT_FRAMEREADY,
            r.timeout == timeout_ms,
    {
        DCAMWAIT_START {
            size: core::mem::size_of::<Self>() as i32,
            eventhappened: 0,
            eventmask: DCAMWAIT_CAPEVENT_FRAMEREADY,
            timeout: timeout_ms,
        }
    }
}

} // verus!
