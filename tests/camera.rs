use free_willy::bindings::DCAMAPI_INIT;
use free_willy::bindings::DCAMDEV_OPEN;
use free_willy::bindings::DCAMERR_INVALIDCAMERA;
use free_willy::camera::C11440_22CU;
use free_willy::camera::DcamAPI;
use free_willy::camera::EXPOSURE_MAX_NS;
use free_willy::camera::EXPOSURE_MIN_NS;
use free_willy::source::C11440_22CUSource;
use free_willy::source::DEFAULT_EXPOSURE_NS;

fn api_with(ncam: i32) -> DcamAPI {
    let mut init = DCAMAPI_INIT::new(0);
    init.iDeviceCount = ncam;
    DcamAPI::connect(1, init).ok().unwrap()
}

#[test]
fn connect_reports_camera_count() {
    assert_eq!(api_with(2).ncam(), 2);
}

#[test]
fn connect_failure_returns_status() {
    let init = DCAMAPI_INIT::new(0);
    assert_eq!(DcamAPI::connect(-5, init).err(), Some(-5));
}

#[test]
fn open_request_checks_index() {
    let api = api_with(2);
    assert_eq!(api.open_request(2).err(), Some(DCAMERR_INVALIDCAMERA));
    assert_eq!(api.open_request(-1).err(), Some(DCAMERR_INVALIDCAMERA));
    let req = api.open_request(1).unwrap();
    assert_eq!(req.index, 1);
    assert_eq!(req.hdcam, 0);
    assert_eq!(api_with(0).open_request(0).err(), Some(DCAMERR_INVALIDCAMERA));
}

#[test]
fn open_cam_takes_handle() {
    let api = api_with(1);
    let mut opened = DCAMDEV_OPEN::new(0);
    opened.hdcam = 0xbeef;
    assert_eq!(api.open_cam(1, &opened).ok().unwrap().handle(), 0xbeef);
    assert_eq!(api.open_cam(-3, &opened).err(), Some(-3));
    let null = DCAMDEV_OPEN::new(0);
    assert_eq!(api.open_cam(1, &null).err(), Some(DCAMERR_INVALIDCAMERA));
}

#[test]
fn exposure_below_minimum_is_minimum() {
    assert_eq!(C11440_22CU::clamp_exposure(0), EXPOSURE_MIN_NS);
    assert_eq!(C11440_22CU::clamp_exposure(1_000_000), 1_003_669);
    assert_eq!(C11440_22CU::clamp_exposure(EXPOSURE_MIN_NS), EXPOSURE_MIN_NS);
}

#[test]
fn exposure_above_maximum_is_maximum() {
    assert_eq!(C11440_22CU::clamp_exposure(u64::MAX), EXPOSURE_MAX_NS);
    assert_eq!(C11440_22CU::clamp_exposure(10_000_000_001), 10_000_000_000);
    // the longest exposure is off the grid: a request of exactly it is quantized
    assert_eq!(C11440_22CU::clamp_exposure(EXPOSURE_MAX_NS), 9_999_999_999);
}

#[test]
fn exposure_in_range_is_quantized() {
    // 5 ms lies 3_996_331 ns above the minimum; the nearest step is 3_996_330
    assert_eq!(C11440_22CU::clamp_exposure(5_000_000), 4_999_999);
    assert_eq!(C11440_22CU::clamp_exposure(5_000_000), C11440_22CU::clamp_exposure(5_000_000));
    // ties go up
    assert_eq!(C11440_22CU::clamp_exposure(1_003_674), 1_003_679);
    assert_eq!(C11440_22CU::clamp_exposure(1_003_673), 1_003_669);
    assert_eq!(C11440_22CU::clamp_exposure(9_999_999_999), 9_999_999_999);
    assert_eq!(C11440_22CU::clamp_exposure(DEFAULT_EXPOSURE_NS), 9_997_709);
}

#[test]
fn resolution_is_clamped_and_aligned() {
    assert_eq!(C11440_22CU::clamp_resolution([1, 1]), [4, 4]);
    assert_eq!(C11440_22CU::clamp_resolution([3000, 3000]), [2044, 2044]);
    assert_eq!(C11440_22CU::clamp_resolution([10, 10]), [8, 8]);
    assert_eq!(C11440_22CU::clamp_resolution([2048, 7]), [2044, 4]);
    assert_eq!(C11440_22CU::clamp_resolution([0, 2044]), [4, 2044]);
}

#[test]
fn source_defaults_and_setters() {
    let mut source = C11440_22CUSource::new(2, 500);
    assert_eq!(source.camid(), 2);
    assert_eq!(source.bufsize(), 500);
    assert_eq!(source.get_exposure(), 9_997_710);
    assert_eq!(source.get_resolution(), [2048, 2048]);
    source.set_exposure(2_000_000);
    source.set_resolution([640, 480]);
    assert_eq!(source.get_exposure(), 2_000_000);
    assert_eq!(source.get_resolution(), [640, 480]);
    assert_eq!(source.camid(), 2);
    assert_eq!(source.bufsize(), 500);
}
