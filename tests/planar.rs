use aic_bridge::error::{BridgeError, ErrorKind, InvalidArgument};
use aic_bridge::lifecycle::{EngineConfig, EngineState};
use aic_bridge::planar::{
    bind_planar, check_channel_capacity, overlaps, ChannelRegion, MAX_CHANNELS, SAMPLE_BYTES,
};

const SENTINEL: f32 = -7.25;

fn ready(num_channels: u16, num_frames: usize, allow_variable_frames: bool) -> EngineState {
    let mut state = EngineState::new();
    let cfg = EngineConfig { sample_rate: 48000, num_channels, num_frames, allow_variable_frames };
    state.complete_initialize(cfg, Ok(())).unwrap();
    state
}

fn region_of(buffer: &[f32]) -> ChannelRegion {
    ChannelRegion { start: buffer.as_ptr() as usize, frames: buffer.len() }
}

#[test]
fn more_than_sixteen_channels_exceed_capacity_and_leave_buffers_alone() {
    for n in [17usize, 18, 32] {
        let buffers: Vec<Vec<f32>> = (0..n).map(|_| vec![SENTINEL; 480]).collect();
        let regions: Vec<ChannelRegion> = buffers.iter().map(|b| region_of(b)).collect();
        assert_eq!(check_channel_capacity(n), Err(BridgeError::CapacityExceeded(n)));
        let state = ready(n as u16, 480, false);
        let r = bind_planar(&state, &regions);
        assert_eq!(r.as_ref().err(), Some(&BridgeError::CapacityExceeded(n)));
        assert_eq!(r.unwrap_err().kind(), ErrorKind::CapacityExceeded);
        let uninit = EngineState::new();
        assert_eq!(bind_planar(&uninit, &regions).err(), Some(BridgeError::CapacityExceeded(n)));
        assert!(buffers.iter().all(|b| b.iter().all(|s| *s == SENTINEL)));
    }
}

#[test]
fn capacity_allows_up_to_sixteen() {
    assert_eq!(MAX_CHANNELS, 16);
    assert_eq!(check_channel_capacity(0), Ok(()));
    assert_eq!(check_channel_capacity(16), Ok(()));
    let e = check_channel_capacity(17).unwrap_err();
    assert!(e.is_invalid_argument());
}

#[test]
fn sixteen_separate_channels_bind_in_order() {
    let buffers: Vec<Vec<f32>> = (0..16).map(|_| vec![0.0f32; 128]).collect();
    let regions: Vec<ChannelRegion> = buffers.iter().map(|b| region_of(b)).collect();
    let binding = bind_planar(&ready(16, 128, false), &regions).unwrap();
    assert_eq!(binding.len(), 16);
    for i in 0..16 {
        assert_eq!(binding.slot(i), regions[i]);
    }
}

#[test]
fn planar_before_initialize_is_out_of_order() {
    let left = vec![0.0f32; 480];
    let right = vec![0.0f32; 480];
    let regions = [region_of(&left), region_of(&right)];
    assert_eq!(bind_planar(&EngineState::new(), &regions).err(), Some(BridgeError::InvalidState));
}

#[test]
fn planar_channel_count_must_match() {
    let left = vec![0.0f32; 480];
    let regions = [region_of(&left)];
    assert_eq!(
        bind_planar(&ready(2, 480, false), &regions).err(),
        Some(BridgeError::InvalidArgument(InvalidArgument::ChannelCount(1)))
    );
}

#[test]
fn planar_channels_must_share_a_fitting_length() {
    let a = vec![0.0f32; 480];
    let b = vec![0.0f32; 479];
    let c = vec![0.0f32; 400];
    let regions = [region_of(&a), region_of(&b)];
    assert_eq!(
        bind_planar(&ready(2, 480, false), &regions).err(),
        Some(BridgeError::InvalidArgument(InvalidArgument::BufferLength(479)))
    );
    let regions = [region_of(&c), region_of(&c)];
    assert_eq!(
        bind_planar(&ready(2, 480, false), &regions).err(),
        Some(BridgeError::InvalidArgument(InvalidArgument::BufferLength(400)))
    );
    let d = vec![0.0f32; 400];
    let regions = [region_of(&c), region_of(&d)];
    assert_eq!(bind_planar(&ready(2, 480, true), &regions).unwrap().len(), 2);
    let regions = [region_of(&c), region_of(&a)];
    assert_eq!(
        bind_planar(&ready(2, 480, true), &regions).err(),
        Some(BridgeError::InvalidArgument(InvalidArgument::BufferLength(480)))
    );
}

#[test]
fn overlapping_channels_are_refused() {
    let whole = vec![0.0f32; 960];
    let first = region_of(&whole[..480]);
    let shifted = region_of(&whole[479..959]);
    let second = region_of(&whole[480..]);
    assert!(overlaps(first, shifted));
    assert!(!overlaps(first, second));
    let regions = [first, second, shifted];
    assert_eq!(
        bind_planar(&ready(3, 480, false), &regions).err(),
        Some(BridgeError::InvalidArgument(InvalidArgument::OverlappingChannels(0, 2)))
    );
    let regions = [first, first];
    assert_eq!(
        bind_planar(&ready(2, 480, false), &regions).err(),
        Some(BridgeError::InvalidArgument(InvalidArgument::OverlappingChannels(0, 1)))
    );
    let regions = [first, second];
    assert_eq!(bind_planar(&ready(2, 480, false), &regions).unwrap().len(), 2);
}

#[test]
fn overlap_is_measured_in_bytes() {
    assert_eq!(SAMPLE_BYTES, 4);
    let a = ChannelRegion { start: 1000, frames: 10 };
    assert!(overlaps(a, ChannelRegion { start: 1039, frames: 1 }));
    assert!(!overlaps(a, ChannelRegion { start: 1040, frames: 1 }));
    assert!(overlaps(ChannelRegion { start: 996, frames: 2 }, a));
    assert!(!overlaps(ChannelRegion { start: 996, frames: 1 }, a));
    assert!(!overlaps(a, ChannelRegion { start: 1000, frames: 0 }));
    let top = ChannelRegion { start: usize::MAX - 3, frames: usize::MAX };
    assert!(overlaps(ChannelRegion { start: 0, frames: usize::MAX }, top));
}
