use aic_bridge::error::{BridgeError, ErrorKind, InvalidArgument};
use aic_bridge::lifecycle::{EngineConfig, EngineState};

fn stereo_480() -> EngineConfig {
    EngineConfig { sample_rate: 48000, num_channels: 2, num_frames: 480, allow_variable_frames: false }
}

#[test]
fn processing_before_initialize_is_out_of_order() {
    let state = EngineState::new();
    assert!(!state.is_ready());
    for len in [0usize, 1, 960] {
        assert_eq!(state.admit_block(len), Err(BridgeError::InvalidState));
    }
    assert_eq!(state.ready_config(), Err(BridgeError::InvalidState));
    assert_eq!(state.admit_block(960).unwrap_err().kind(), ErrorKind::InvalidState);
}

#[test]
fn stereo_block_of_480_frames() {
    let mut state = EngineState::new();
    assert_eq!(state.complete_initialize(stereo_480(), Ok(())), Ok(()));
    assert!(state.is_ready());
    assert_eq!(state.admit_block(960), Ok(()));
    assert_eq!(
        state.admit_block(959),
        Err(BridgeError::InvalidArgument(InvalidArgument::BufferLength(959)))
    );
    assert!(state.admit_block(958).is_err());
    assert!(state.admit_block(962).is_err());
    assert!(state.admit_block(0).is_err());
}

#[test]
fn variable_frames_admit_shorter_blocks_only() {
    let mut state = EngineState::new();
    let cfg = EngineConfig { allow_variable_frames: true, ..stereo_480() };
    state.complete_initialize(cfg, Ok(())).unwrap();
    assert_eq!(state.admit_block(960), Ok(()));
    assert_eq!(state.admit_block(200), Ok(()));
    assert_eq!(state.admit_block(0), Ok(()));
    assert!(state.admit_block(962).is_err());
    assert!(state.admit_block(201).is_err());
}

#[test]
fn reinitialize_replaces_configuration() {
    let mut state = EngineState::new();
    state.complete_initialize(stereo_480(), Ok(())).unwrap();
    let mono = EngineConfig { num_channels: 1, num_frames: 160, ..stereo_480() };
    state.complete_initialize(mono, Ok(())).unwrap();
    assert_eq!(state.ready_config(), Ok(mono));
    assert_eq!(state, EngineState::Ready(mono));
    assert_eq!(state.admit_block(160), Ok(()));
    assert!(state.admit_block(960).is_err());
}

#[test]
fn failed_initialize_passes_the_engine_message_on() {
    let mut state = EngineState::new();
    state.complete_initialize(stereo_480(), Ok(())).unwrap();
    let r = state.complete_initialize(stereo_480(), Err("unsupported sample rate".to_string()));
    assert_eq!(r, Err(BridgeError::Engine("unsupported sample rate".to_string())));
    assert_eq!(r.unwrap_err().kind(), ErrorKind::Engine);
    assert!(!state.is_ready());
    assert_eq!(state.admit_block(960), Err(BridgeError::InvalidState));
}

#[test]
fn zero_channels_admit_nothing() {
    let mut state = EngineState::new();
    let cfg = EngineConfig { num_channels: 0, ..stereo_480() };
    state.complete_initialize(cfg, Ok(())).unwrap();
    assert!(state.admit_block(0).is_err());
    assert!(state.admit_block(480).is_err());
}

#[test]
fn frames_fit_the_configuration() {
    assert!(stereo_480().fits_frames(480));
    assert!(!stereo_480().fits_frames(479));
    let var = EngineConfig { allow_variable_frames: true, ..stereo_480() };
    assert!(var.fits_frames(479));
    assert!(!var.fits_frames(481));
}
