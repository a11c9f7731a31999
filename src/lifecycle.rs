//! The engine's lifecycle as the bridge sees it: which configuration the
//! engine was last initialized with, and therefore which calls and buffer
//! shapes may be handed to it.
use vstd::prelude::*;

use crate::error::{BridgeError, InvalidArgument};

verus! {

/// The stream layout that the engine is initialized for.
#[derive(Debug, Clone, Copy, PartialEq, Eq, Structural)]
pub struct EngineConfig {
    /// Sample rate in Hz.
    pub sample_rate: u32,
    /// Number of channels in every block.
    pub num_channels: u16,
    /// Frames per channel in a block; the largest allowed when
    /// `allow_variable_frames` is set.
    pub num_frames: usize,
    /// Whether blocks shorter than `num_frames` are accepted.
    pub allow_variable_frames: bool,
}

/// Whether a block of `frames` frames per channel fits the configuration.
pub open spec fn frames_fit(cfg: EngineConfig, frames: int) -> bool {
    if cfg.allow_variable_frames {
        0 <= frames <= cfg.num_frames
    } else {
        frames == cfg.num_frames
    }
}

/// Whether an interleaved or sequential buffer of `len` samples holds a
/// whole number of frames on every configured channel, and a block that fits.
pub open spec fn block_len_fits(cfg: EngineConfig, len: int) -> bool {
    &&& cfg.num_channels > 0
    &&& len % (cfg.num_channels as int) == 0
    &&& frames_fit(cfg, len / (cfg.num_channels as int))
}

/// Uninitialized until a successful `initialize`; then ready for the
/// configuration of the latest successful one.
#[derive(Debug, Clone, Copy, PartialEq, Eq, Structural)]
pub enum EngineState {
    Uninitialized,
    Ready(EngineConfig),
}

/// The state after an `initialize` call whose engine outcome is `outcome`.
/// A failed initialization leaves the engine's configuration unknown, so
/// nothing more is admitted until one succeeds.
pub open spec fn state_after_initialize(cfg: EngineConfig, outcome: Result<(), String>) -> EngineState {
    match outcome {
        Ok(_) => EngineState::Ready(cfg),
        Err(_) => EngineState::Uninitialized,
    }
}

/// The bridge's verdict on an interleaved or sequential buffer of `len`
/// samples.
pub open spec fn block_admission(s: EngineState, len: int) -> Result<(), BridgeError> {
    match s {
        EngineState::Uninitialized => Err(BridgeError::InvalidState),
        EngineState::Ready(cfg) => if block_len_fits(cfg, len) {
            Ok(())
        } else {
            Err(BridgeError::InvalidArgument(InvalidArgument::BufferLength(len as usize)))
        },
    }
}

/// The configuration of a ready engine; refused while uninitialized.
pub open spec fn ready_config_of(s: EngineState) -> Result<EngineConfig, BridgeError> {
    match s {
        EngineState::Uninitialized => Err(BridgeError::InvalidState),
        EngineState::Ready(cfg) => Ok(cfg),
    }
}

impl EngineConfig {
    /// Whether a block of `frames` frames per channel fits this configuration.
    pub fn fits_frames(&self, frames: usize) -> (r: bool)
        ensures
            r == frames_fit(*self, frames as int),
    {
        if self.allow_variable_frames {
            frames <= self.num_frames
        } else {
            frames == self.num_frames
        }
    }
}

impl EngineState {
    /// A fresh engine, not yet initialized.
    pub fn new() -> (r: EngineState)
        ensures
            r == EngineState::Uninitialized,
    {
        EngineState::Uninitialized
    }

    /// Whether the engine is ready for processing.
    pub fn is_ready(&self) -> (r: bool)
        ensures
            r == (*self is Ready),
    {
        match self {
            EngineState::Ready(_) => true,
            EngineState::Uninitialized => false,
        }
    }

    /// Records the outcome of the engine's `initialize` for `config`, from any
    /// state, and passes an engine failure on with its message.
    pub fn complete_initialize(&mut self, config: EngineConfig, outcome: Result<(), String>) -> (r:
        Result<(), BridgeError>)
        ensures
            *final(self) == state_after_initialize(config, outcome),
            match outcome {
                Ok(_) => r == Ok::<(), BridgeError>(()),
                Err(m) => r == Err::<(), BridgeError>(BridgeError::Engine(m)),
            },
    {
        match outcome {
            Ok(_) => {
                *self = EngineState::Ready(config);
                Ok(())
            },
            Err(m) => {
                *self = EngineState::Uninitialized;
                Err(BridgeError::Engine(m))
            },
        }
    }

    /// The configuration that calls needing a ready engine (reset, output
    /// delay, planar processing) work with; `InvalidState` before the first
    /// successful initialization.
    pub fn ready_config(&self) -> (r: Result<EngineConfig, BridgeError>)
        ensures
            r == ready_config_of(*self),
    {
        match self {
            EngineState::Uninitialized => Err(BridgeError::InvalidState),
            EngineState::Ready(cfg) => Ok(*cfg),
        }
    }

    /// Decides whether an interleaved or sequential buffer of `len` samples
    /// may be handed to the engine: only when ready, and only with whole
    /// frames on every channel and a block that fits the configuration.
    pub fn admit_block(&self, len: usize) -> (r: Result<(), BridgeError>)
        ensures
            r == block_admission(*self, len as int),
    {
        match self {
            EngineState::Uninitialized => Err(BridgeError::InvalidState),
            EngineState::Ready(cfg) => {
                let ch = cfg.num_channels as usize;
                if ch == 0 || len % ch != 0 {
                    return Err(BridgeError::InvalidArgument(InvalidArgument::BufferLength(len)));
                }
                if cfg.fits_frames(len / ch) {
                    Ok(())
                } else {
                    Err(BridgeError::InvalidArgument(InvalidArgument::BufferLength(len)))
                }
            },
        }
    }
}

/// Processing before any initialization is always refused as out of order;
/// after a successful initialization a buffer of exactly `num_frames` frames
/// on each of the configured channels is admitted, whatever came before.
pub proof fn lemma_process_requires_initialize(cfg: EngineConfig, len: int)
    ensures
        block_admission(EngineState::Uninitialized, len) == Err::<(), BridgeError>(
            BridgeError::InvalidState,
        ),
        cfg.num_channels > 0 && len == cfg.num_frames * cfg.num_channels ==> block_admission(
            state_after_initialize(cfg, Ok(())),
            len,
        ) == Ok::<(), BridgeError>(()),
{
    if cfg.num_channels > 0 && len == cfg.num_frames * cfg.num_channels {
        let c = cfg.num_channels as int;
        let f = cfg.num_frames as int;
        assert(len % c == 0 && len / c == f) by (nonlinear_arith)
            requires
                c > 0,
                f >= 0,
                len == f * c,
        ;
    }
}

} // verus!
