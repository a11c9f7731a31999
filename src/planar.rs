//! Binding the separately owned channel buffers of one planar call into a
//! fixed set of slots, after proving that no two of them share memory.
use vstd::prelude::*;

use crate::error::{BridgeError, InvalidArgument};
use crate::lifecycle::{frames_fit, EngineConfig, EngineState};

verus! {

/// The most channels that one planar call can carry.
pub const MAX_CHANNELS: usize = 16;

/// Bytes in one sample.
pub const SAMPLE_BYTES: usize = 4;

/// Where one host channel buffer lies: the address of its first sample and
/// how many samples it holds.
#[derive(Debug, Clone, Copy, PartialEq, Eq, Structural)]
pub struct ChannelRegion {
    pub start: usize,
    pub frames: usize,
}

/// One past the last byte of a region.
pub open spec fn region_end(r: ChannelRegion) -> int {
    r.start + r.frames * SAMPLE_BYTES
}

/// Whether two regions share at least one byte.
pub open spec fn regions_overlap(a: ChannelRegion, b: ChannelRegion) -> bool {
    &&& a.frames > 0
    &&& b.frames > 0
    &&& a.start < region_end(b)
    &&& b.start < region_end(a)
}

/// No two distinct slots share memory.
pub open spec fn pairwise_disjoint(s: Seq<ChannelRegion>) -> bool {
    forall|i: int, j: int| 0 <= i < j < s.len() ==> !regions_overlap(#[trigger] s[i], #[trigger] s[j])
}

/// Whether channel `k` fits the configured block and has as many frames as
/// channel 0, as the engine requires of every planar call.
pub open spec fn channel_fits(cfg: EngineConfig, s: Seq<ChannelRegion>, k: int) -> bool {
    frames_fit(cfg, s[k].frames as int) && s[k].frames == s[0].frames
}

/// Every channel fits.
pub open spec fn all_channels_fit(cfg: EngineConfig, s: Seq<ChannelRegion>) -> bool {
    forall|k: int| 0 <= k < s.len() ==> #[trigger] channel_fits(cfg, s, k)
}

/// Whether the pair `(i, j)` comes before `(i2, j2)` in the order in which
/// the binder visits pairs.
pub open spec fn pair_before(i: int, j: int, i2: int, j2: int) -> bool {
    i < i2 || (i == i2 && j < j2)
}

/// The slots of one planar call, in a fixed-capacity array, so binding never
/// allocates. Its slots are pairwise disjoint.
#[derive(Debug)]
pub struct PlanarBinding {
    slots: [ChannelRegion; 16],
    count: usize,
}

impl View for PlanarBinding {
    type V = Seq<ChannelRegion>;

    closed spec fn view(&self) -> Seq<ChannelRegion> {
        self.slots@.subrange(0, self.count as int)
    }
}

impl PlanarBinding {
    #[verifier::type_invariant]
    closed spec fn inv(&self) -> bool {
        &&& self.count <= MAX_CHANNELS
        &&& pairwise_disjoint(self@)
    }

    /// The number of bound channels; the slots never overlap.
    pub fn len(&self) -> (r: usize)
        ensures
            r == self@.len(),
            r <= MAX_CHANNELS,
            pairwise_disjoint(self@),
    {
        proof {
            use_type_invariant(self);
        }
        self.count
    }

    /// The region bound in slot `i`.
    pub fn slot(&self, i: usize) -> (r: ChannelRegion)
        requires
            i < self@.len(),
        ensures
            r == self@[i as int],
    {
        proof {
            use_type_invariant(self);
        }
        self.slots[i]
    }
}

/// The first step of every planar call, before any buffer is looked at:
/// more than `MAX_CHANNELS` channels are refused with their count.
pub fn check_channel_capacity(count: usize) -> (r: Result<(), BridgeError>)
    ensures
        count > MAX_CHANNELS ==> r == Err::<(), BridgeError>(BridgeError::CapacityExceeded(count)),
        count <= MAX_CHANNELS ==> r == Ok::<(), BridgeError>(()),
{
    if count > MAX_CHANNELS {
        Err(BridgeError::CapacityExceeded(count))
    } else {
        Ok(())
    }
}

proof fn lemma_below_bytes(d: int, f: int)
    requires
        d >= 0,
        f >= 0,
    ensures
        (d < f * 4) == (d / 4 < f),
{
    assert((d < f * 4) == (d / 4 < f)) by (nonlinear_arith)
        requires
            d >= 0,
            f >= 0,
    ;
}

/// Whether two regions share memory, computed without overflow.
pub fn overlaps(a: ChannelRegion, b: ChannelRegion) -> (r: bool)
    ensures
        r == regions_overlap(a, b),
{
    if a.frames == 0 || b.frames == 0 {
        false
    } else if a.start <= b.start {
        proof {
            lemma_below_bytes(b.start - a.start, a.frames as int);
        }
        (b.start - a.start) / SAMPLE_BYTES < a.frames
    } else {
        proof {
            lemma_below_bytes(a.start - b.start, b.frames as int);
        }
        (a.start - b.start) / SAMPLE_BYTES < b.frames
    }
}

/// Whether a planar call over these regions passes every check of the
/// binder: within capacity, a ready engine, the configured channel count,
/// every channel fitting the block, and no two channels sharing memory.
pub open spec fn planar_admissible(st: EngineState, s: Seq<ChannelRegion>) -> bool {
    &&& s.len() <= MAX_CHANNELS
    &&& st matches EngineState::Ready(cfg)
    &&& s.len() == cfg.num_channels
    &&& all_channels_fit(cfg, s)
    &&& pairwise_disjoint(s)
}

/// Checks, in this order, the capacity, the engine's state, the channel
/// count, each channel's length and the pairwise disjointness of the
/// regions, and on success binds them into slots `0..n`. The regions are
/// only read: a refused call leaves every buffer as it was. On a misfit or an
/// overlap the first one, in slot order, is reported.
pub fn bind_planar(state: &EngineState, regions: &[ChannelRegion]) -> (r: Result<
    PlanarBinding,
    BridgeError,
>)
    ensures
        r is Ok <==> planar_admissible(*state, regions@),
        r matches Ok(b) ==> b@ == regions@,
        regions@.len() > MAX_CHANNELS ==> r == Err::<PlanarBinding, BridgeError>(
            BridgeError::CapacityExceeded(regions@.len() as usize),
        ),
        regions@.len() <= MAX_CHANNELS && *state is Uninitialized ==> r matches Err(
            BridgeError::InvalidState,
        ),
        regions@.len() <= MAX_CHANNELS && (*state matches EngineState::Ready(cfg)
            && regions@.len() != cfg.num_channels) ==> r == Err::<PlanarBinding, BridgeError>(
            BridgeError::InvalidArgument(InvalidArgument::ChannelCount(regions@.len() as usize)),
        ),
        regions@.len() <= MAX_CHANNELS && (*state matches EngineState::Ready(cfg)
            && regions@.len() == cfg.num_channels && !all_channels_fit(cfg, regions@)) ==> r matches Err(
            BridgeError::InvalidArgument(InvalidArgument::BufferLength(_)),
        ),
        r matches Err(BridgeError::InvalidArgument(InvalidArgument::BufferLength(l))) ==> (
        *state matches EngineState::Ready(cfg) && exists|k: int|
            0 <= k < regions@.len() && !channel_fits(cfg, regions@, k) && l == regions@[k].frames
                && forall|k2: int| 0 <= k2 < k ==> #[trigger] channel_fits(cfg, regions@, k2)),
        regions@.len() <= MAX_CHANNELS && (*state matches EngineState::Ready(cfg)
            && regions@.len() == cfg.num_channels && all_channels_fit(cfg, regions@))
            && !pairwise_disjoint(regions@) ==> r matches Err(
            BridgeError::InvalidArgument(InvalidArgument::OverlappingChannels(_, _)),
        ),
        r matches Err(BridgeError::InvalidArgument(InvalidArgument::OverlappingChannels(i, j)))
            ==> i < j < regions@.len() && regions_overlap(regions@[i as int], regions@[j as int])
            && forall|i2: int, j2: int|
            0 <= i2 < j2 < regions@.len() && pair_before(i2, j2, i as int, j as int) ==> !regions_overlap(
                #[trigger] regions@[i2],
                #[trigger] regions@[j2],
            ),
{
    let n = regions.len();
    if n > MAX_CHANNELS {
        return Err(BridgeError::CapacityExceeded(n));
    }
    let cfg = match state.ready_config() {
        Ok(c) => c,
        Err(e) => return Err(e),
    };
    if n != cfg.num_channels as usize {
        return Err(BridgeError::InvalidArgument(InvalidArgument::ChannelCount(n)));
    }
    let mut k: usize = 0;
    while k < n
        invariant
            n == regions@.len(),
            n <= MAX_CHANNELS,
            n == cfg.num_channels,
            *state == EngineState::Ready(cfg),
            k <= n,
            forall|k2: int| 0 <= k2 < k ==> #[trigger] channel_fits(cfg, regions@, k2),
        decreases n - k,
    {
        let frames = regions[k].frames;
        if !(cfg.fits_frames(frames) && frames == regions[0].frames) {
            assert(!channel_fits(cfg, regions@, k as int));
            assert(!all_channels_fit(cfg, regions@));
            return Err(BridgeError::InvalidArgument(InvalidArgument::BufferLength(frames)));
        }
        k = k + 1;
    }
    let mut i: usize = 0;
    while i < n
        invariant
            n == regions@.len(),
            n <= MAX_CHANNELS,
            n == cfg.num_channels,
            *state == EngineState::Ready(cfg),
            all_channels_fit(cfg, regions@),
            i <= n,
            forall|i2: int, j2: int|
                0 <= i2 < i && i2 < j2 < n ==> !regions_overlap(
                    #[trigger] regions@[i2],
                    #[trigger] regions@[j2],
                ),
        decreases n - i,
    {
        let mut j: usize = i + 1;
        while j < n
            invariant
                n == regions@.len(),
                n <= MAX_CHANNELS,
                n == cfg.num_channels,
                *state == EngineState::Ready(cfg),
                all_channels_fit(cfg, regions@),
                i < n,
                i + 1 <= j <= n,
                forall|i2: int, j2: int|
                    0 <= i2 < i && i2 < j2 < n ==> !regions_overlap(
                        #[trigger] regions@[i2],
                        #[trigger] regions@[j2],
                    ),
                forall|j2: int| i < j2 < j ==> !regions_overlap(regions@[i as int], #[trigger] regions@[j2]),
            decreases n - j,
        {
            if overlaps(regions[i], regions[j]) {
                return Err(BridgeError::InvalidArgument(InvalidArgument::OverlappingChannels(i, j)));
            }
            j = j + 1;
        }
        i = i + 1;
    }
    let mut slots = [ChannelRegion { start: 0, frames: 0 }; 16];
    let mut m: usize = 0;
    while m < n
        invariant
            n == regions@.len(),
            n <= MAX_CHANNELS,
            pairwise_disjoint(regions@),
            m <= n,
            forall|m2: int| 0 <= m2 < m ==> #[trigger] slots@[m2] == regions@[m2],
        decreases n - m,
    {
        slots[m] = regions[m];
        m = m + 1;
    }
    assert(slots@.subrange(0, n as int) =~= regions@);
    Ok(PlanarBinding { slots, count: n })
}

} // verus!
