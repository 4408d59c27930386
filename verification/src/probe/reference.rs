//! How decoded audio is laid beside the audio that it should be.
use vstd::prelude::*;
use crate::probe::plan::SAMPLE_RATE;

verus! {

/// Why decoded audio cannot be compared with a reference.
#[derive(Debug, Clone, Copy, PartialEq, Eq, Structural)]
pub enum ReferenceError {
    /// The reference holds no whole frames of the channels.
    Incomplete,
    /// There is less than half a second of either.
    TooShort,
}

impl ReferenceError {
    /// The error in words.
    pub open spec fn words(self) -> Seq<char> {
        match self {
            ReferenceError::Incomplete => "PCM reference is not complete interleaved S16LE audio"@,
            ReferenceError::TooShort =>
                "consumer/reference comparison requires at least 500 ms of PCM"@,
        }
    }

    /// Puts the error in words.
    pub fn message(self) -> (r: String)
        ensures
            r@ == self.words(),
    {
        match self {
            ReferenceError::Incomplete =>
                "PCM reference is not complete interleaved S16LE audio".to_owned(),
            ReferenceError::TooShort =>
                "consumer/reference comparison requires at least 500 ms of PCM".to_owned(),
        }
    }
}

/// The sample in two bytes, the low one first.
pub open spec fn sample_of(low: u8, high: u8) -> i16 {
    let bits = low + 256 * high;
    if bits < 0x8000 {
        bits as i16
    } else {
        (bits - 0x1_0000) as i16
    }
}

/// The samples of a reference: silence, then what its bytes hold.
pub open spec fn reference_samples(bytes: Seq<u8>, silence: nat) -> Seq<i16> {
    Seq::new(
        silence + bytes.len() / 2,
        |i: int|
            if i < silence {
                0
            } else {
                sample_of(bytes[2 * (i - silence)], bytes[2 * (i - silence) + 1])
            },
    )
}

fn read_sample(low: u8, high: u8) -> (r: i16)
    ensures
        r == sample_of(low, high),
{
    let bits: i32 = (low as i32) + 256 * (high as i32);
    if bits < 0x8000 {
        bits as i16
    } else {
        (bits - 0x1_0000) as i16
    }
}

fn read_reference(bytes: &[u8], silence: usize) -> (r: Vec<i16>)
    requires
        silence + bytes@.len() / 2 <= usize::MAX,
    ensures
        r@ == reference_samples(bytes@, silence as nat),
{
    let mut samples: Vec<i16> = Vec::new();
    let len: usize = bytes.len();
    let total: usize = silence + len / 2;
    let mut i: usize = 0;
    while i < total
        invariant
            i <= total,
            len == bytes@.len(),
            total == silence + len / 2,
            samples@.len() == i,
            forall|k: int|
                0 <= k < i ==> #[trigger] samples@[k] == reference_samples(
                    bytes@,
                    silence as nat,
                )[k],
        decreases total - i,
    {
        if i < silence {
            samples.push(0);
        } else {
            assert(2 * (i - silence) + 1 < len);
            let at: usize = 2 * (i - silence);
            samples.push(read_sample(bytes[at], bytes[at + 1]));
        }
        i = i + 1;
    }
    assert(samples@ =~= reference_samples(bytes@, silence as nat));
    samples
}

/// A sum of the first terms of a series.
pub open spec fn sum(term: spec_fn(int) -> int, count: int) -> int
    decreases count,
{
    if count <= 0 {
        0
    } else {
        sum(term, count - 1) + term(count - 1)
    }
}

/// The first channel of a frame.
pub open spec fn first_of(samples: Seq<i16>, channels: nat, frame: int) -> int {
    samples[frame * channels] as int
}

/// How many steps fit in front of an end.
pub open spec fn steps(end: int, step: int) -> int {
    (end + step - 1) / step
}

/// The energy of a window: of the first channel of each eighth frame.
pub open spec fn energy(samples: Seq<i16>, channels: nat, start: int, window: int) -> int {
    sum(
        |k: int|
            first_of(samples, channels, start + 8 * k) * first_of(samples, channels, start + 8 * k),
        steps(window, 8),
    )
}

/// How far apart windows start.
pub const WINDOW_HOP: usize = 12_000;

/// Whether a window may start at a frame.
pub open spec fn may_start(start: int, frames: int, window: int) -> bool {
    start % WINDOW_HOP as int == 0 && 0 <= start <= frames - window
}

/// Whether a window has the most energy of all, and more than those in front of it.
pub open spec fn has_most_energy(samples: Seq<i16>, channels: nat, window: int, start: int) -> bool {
    let frames = samples.len() as int / channels as int;
    &&& may_start(start, frames, window)
    &&& forall|other: int| #[trigger]
        may_start(other, frames, window) ==> energy(samples, channels, other, window) <= energy(
            samples,
            channels,
            start,
            window,
        )
    &&& forall|other: int|
        other < start && #[trigger] may_start(other, frames, window) ==> energy(
            samples,
            channels,
            other,
            window,
        ) < energy(samples, channels, start, window)
}

/// A frame that lies in front of the end has its first channel among the samples.
proof fn frame_is_inside(len: int, channels: int, frame: int)
    requires
        channels > 0,
        len >= 0,
        0 <= frame < len / channels,
    ensures
        0 <= frame * channels < len,
{
    assert((len / channels) * channels <= len && len / channels >= 0) by (nonlinear_arith)
        requires
            channels > 0,
            len >= 0,
    ;
    assert(0 <= frame * channels && frame * channels + channels <= (len / channels) * channels)
        by (nonlinear_arith)
        requires
            channels > 0,
            0 <= frame,
            frame + 1 <= len / channels,
    ;
}

/// The first channel of a frame.
fn read_first(samples: &[i16], channels: usize, frame: usize) -> (r: i32)
    requires
        channels > 0,
        frame < samples@.len() as int / channels as int,
    ensures
        r == first_of(samples@, channels as nat, frame as int),
{
    let len: usize = samples.len();
    proof {
        frame_is_inside(len as int, channels as int, frame as int);
    }
    samples[frame * channels] as i32
}

/// The square of a sample.
fn squared(sample: i32) -> (r: u64)
    requires
        -0x8000 <= sample <= 0x7fff,
    ensures
        r == sample * sample,
        r <= 0x4000_0000,
{
    assert(0 <= sample * sample <= 0x4000_0000) by (nonlinear_arith)
        requires
            -0x8000 <= sample <= 0x7fff,
    ;
    (sample * sample) as u64
}

/// Each step that fits starts in front of the end.
proof fn steps_start_inside(end: int, step: int, k: int)
    requires
        step > 0,
        0 <= k < steps(end, step),
    ensures
        0 <= k * step < end,
{
    assert(steps(end, step) * step <= end + step - 1) by (nonlinear_arith)
        requires
            step > 0,
            steps(end, step) == (end + step - 1) / step,
    ;
    assert(0 <= k * step && (k + 1) * step <= steps(end, step) * step) by (nonlinear_arith)
        requires
            step > 0,
            0 <= k,
            k + 1 <= steps(end, step),
    ;
    assert((k + 1) * step == k * step + step) by (nonlinear_arith);
}

/// Counts the steps that fit in front of an end.
fn count_steps(end: usize, step: usize) -> (r: usize)
    requires
        step > 0,
    ensures
        r == steps(end as int, step as int),
{
    if end == 0 {
        assert((step - 1) / step as int == 0) by (nonlinear_arith)
            requires
                step > 0,
        ;
        return 0;
    }
    assert((end + step - 1) / step as int == (end - 1) / step as int + 1) by (nonlinear_arith)
        requires
            step > 0,
            end > 0,
    ;
    assert((end - 1) / step as int <= end - 1) by (nonlinear_arith)
        requires
            step > 0,
            end > 0,
    ;
    (end - 1) / step + 1
}

fn window_energy(samples: &[i16], channels: usize, start: usize, window: usize) -> (r: u128)
    requires
        channels > 0,
        start + window <= samples@.len() as int / channels as int,
    ensures
        r == energy(samples@, channels as nat, start as int, window as int),
{
    let frames: usize = samples.len() / channels;
    let ghost term = |k: int|
        first_of(samples@, channels as nat, start + 8 * k) * first_of(
            samples@,
            channels as nat,
            start + 8 * k,
        );
    let count: usize = count_steps(window, 8);
    let mut total: u128 = 0;
    let mut k: usize = 0;
    while k < count
        invariant
            channels > 0,
            frames == samples@.len() as int / channels as int,
            start + window <= frames,
            k <= count,
            count == steps(window as int, 8),
            total == sum(term, k as int),
            total <= k * 0x4000_0000,
            term == (|k: int|
                first_of(samples@, channels as nat, start + 8 * k) * first_of(
                    samples@,
                    channels as nat,
                    start + 8 * k,
                )),
        decreases count - k,
    {
        let value: u64 = squared(read_first(samples, channels, start + 8 * k));
        assert(value == term(k as int));
        total = total + value as u128;
        k = k + 1;
    }
    total
}

/// Finds the window with the most energy, the first of several.
pub fn highest_energy_window(reference: &[i16], channels: usize, window_frames: usize) -> (r: usize)
    requires
        channels > 0,
    ensures
        reference@.len() as int / channels as int <= window_frames ==> r == 0,
        reference@.len() as int / channels as int > window_frames ==> has_most_energy(
            reference@,
            channels as nat,
            window_frames as int,
            r as int,
        ),
{
    let frames: usize = reference.len() / channels;
    if frames <= window_frames {
        return 0;
    }
    let last: usize = frames - window_frames;
    let mut best_start: usize = 0;
    let mut best_energy: u128 = window_energy(reference, channels, 0, window_frames);
    let mut start: usize = 0;
    loop
        invariant
            channels > 0,
            frames == reference@.len() as int / channels as int,
            last == frames - window_frames,
            start % WINDOW_HOP == 0,
            start <= last,
            best_start <= start,
            may_start(best_start as int, frames as int, window_frames as int),
            best_energy == energy(
                reference@,
                channels as nat,
                best_start as int,
                window_frames as int,
            ),
            forall|other: int|
                other <= start && #[trigger] may_start(other, frames as int, window_frames as int)
                    ==> energy(reference@, channels as nat, other, window_frames as int)
                    <= best_energy,
            forall|other: int|
                other < best_start && #[trigger] may_start(
                    other,
                    frames as int,
                    window_frames as int,
                ) ==> energy(reference@, channels as nat, other, window_frames as int)
                    < best_energy,
        ensures
            last - start < WINDOW_HOP,
        decreases last - start,
    {
        if last - start < WINDOW_HOP {
            break;
        }
        start = start + WINDOW_HOP;
        let next: u128 = window_energy(reference, channels, start, window_frames);
        if next > best_energy {
            best_energy = next;
            best_start = start;
        }
    }
    best_start
}

/// What the comparison of decoded audio and its reference at one lag rests on.
#[derive(Debug, Clone, Copy, PartialEq, Eq, Structural)]
pub struct LagSums {
    pub lag: i64,
    /// How many frames lie beside each other.
    pub frames: usize,
    /// How many of them are looked at.
    pub count: u64,
    pub sum_x: i128,
    pub sum_y: i128,
    pub sum_x2: i128,
    pub sum_y2: i128,
    pub sum_xy: i128,
}

/// Decoded audio beside its reference, and how they are compared.
pub struct Beside {
    pub decoded: Seq<i16>,
    pub reference: Seq<i16>,
    pub channels: nat,
    pub reference_start: int,
    pub window_frames: int,
    pub sample_step: int,
}

impl Beside {
    /// Where the decoded audio starts at a lag.
    pub open spec fn decoded_start(self, lag: int) -> int {
        self.reference_start + lag
    }

    /// How many frames lie beside each other at a lag.
    pub open spec fn frames(self, lag: int) -> int {
        let of_reference = self.reference.len() as int / self.channels as int
            - self.reference_start;
        let of_decoded = self.decoded.len() as int / self.channels as int - self.decoded_start(lag);
        let shorter = if of_reference < of_decoded {
            of_reference
        } else {
            of_decoded
        };
        if self.window_frames < shorter {
            self.window_frames
        } else {
            shorter
        }
    }

    /// Whether a lag is compared: it starts inside, and a quarter of a second lies beside.
    pub open spec fn counts_lag(self, lag: int) -> bool {
        self.decoded_start(lag) >= 0 && self.frames(lag) >= SAMPLE_RATE as int / 4
    }

    /// A sample of the reference.
    pub open spec fn x(self, k: int) -> int {
        first_of(self.reference, self.channels, self.reference_start + k * self.sample_step)
    }

    /// The decoded sample beside it.
    pub open spec fn y(self, lag: int, k: int) -> int {
        first_of(self.decoded, self.channels, self.decoded_start(lag) + k * self.sample_step)
    }

    /// The sums over the first samples that are looked at.
    pub open spec fn sums_of(self, lag: int, frames: int, count: int) -> LagSums {
        LagSums {
            lag: lag as i64,
            frames: frames as usize,
            count: count as u64,
            sum_x: sum(|k: int| self.x(k), count) as i128,
            sum_y: sum(|k: int| self.y(lag, k), count) as i128,
            sum_x2: sum(|k: int| self.x(k) * self.x(k), count) as i128,
            sum_y2: sum(|k: int| self.y(lag, k) * self.y(lag, k), count) as i128,
            sum_xy: sum(|k: int| self.x(k) * self.y(lag, k), count) as i128,
        }
    }

    /// The sums at a lag.
    pub open spec fn sums(self, lag: int) -> LagSums {
        self.sums_of(lag, self.frames(lag), steps(self.frames(lag), self.sample_step))
    }

    /// The sums at the lags that are compared, from a lag on.
    pub open spec fn sums_from(self, lag: int, max_lag: int, lag_step: int) -> Seq<LagSums>
        decreases
                if lag > max_lag {
                    0
                } else {
                    max_lag - lag + 1
                },
    {
        if lag > max_lag || lag_step <= 0 {
            Seq::empty()
        } else {
            let rest = self.sums_from(lag + lag_step, max_lag, lag_step);
            if self.counts_lag(lag) {
                seq![self.sums(lag)] + rest
            } else {
                rest
            }
        }
    }
}

/// A product of two samples.
fn multiplied(a: i32, b: i32) -> (r: i32)
    requires
        -0x8000 <= a <= 0x7fff,
        -0x8000 <= b <= 0x7fff,
    ensures
        r == a * b,
        -0x4000_0000 <= r <= 0x4000_0000,
{
    assert(-0x4000_0000 <= a * b <= 0x4000_0000) by (nonlinear_arith)
        requires
            -0x8000 <= a <= 0x7fff,
            -0x8000 <= b <= 0x7fff,
    ;
    a * b
}

/// Adds a term to a sum of so many terms.
fn with_term(total: i128, term: i32, Ghost(count): Ghost<int>) -> (r: i128)
    requires
        0 <= count <= u64::MAX,
        -0x4000_0000 * count <= total <= 0x4000_0000 * count,
        -0x4000_0000 <= term <= 0x4000_0000,
    ensures
        r == total + term,
        -0x4000_0000 * (count + 1) <= r <= 0x4000_0000 * (count + 1),
{
    total + term as i128
}

/// The sums at a lag, of frames that lie beside each other.
#[allow(clippy::too_many_arguments)]
fn lag_sums(
    decoded: &[i16],
    reference: &[i16],
    channels: usize,
    reference_start: usize,
    decoded_start: usize,
    lag: i64,
    frames: usize,
    sample_step: usize,
    Ghost(window_frames): Ghost<int>,
) -> (r: LagSums)
    requires
        channels > 0,
        sample_step > 0,
        decoded_start == reference_start + lag,
        reference_start + frames <= reference@.len() as int / channels as int,
        decoded_start + frames <= decoded@.len() as int / channels as int,
    ensures
        r == (Beside {
            decoded: decoded@,
            reference: reference@,
            channels: channels as nat,
            reference_start: reference_start as int,
            window_frames,
            sample_step: sample_step as int,
        }).sums_of(lag as int, frames as int, steps(frames as int, sample_step as int)),
{
    let ghost beside = Beside {
        decoded: decoded@,
        reference: reference@,
        channels: channels as nat,
        reference_start: reference_start as int,
        window_frames,
        sample_step: sample_step as int,
    };
    let reference_frames: usize = reference.len() / channels;
    let decoded_frames: usize = decoded.len() / channels;
    let count: usize = count_steps(frames, sample_step);
    let mut sum_x: i128 = 0;
    let mut sum_y: i128 = 0;
    let mut sum_x2: i128 = 0;
    let mut sum_y2: i128 = 0;
    let mut sum_xy: i128 = 0;
    let mut k: usize = 0;
    let ghost bound: int = 0x4000_0000;
    while k < count
        invariant
            channels > 0,
            sample_step > 0,
            decoded_start == reference_start + lag,
            reference_frames == reference@.len() as int / channels as int,
            decoded_frames == decoded@.len() as int / channels as int,
            reference_start + frames <= reference_frames,
            decoded_start + frames <= decoded_frames,
            beside == (Beside {
                decoded: decoded@,
                reference: reference@,
                channels: channels as nat,
                reference_start: reference_start as int,
                window_frames,
                sample_step: sample_step as int,
            }),
            k <= count,
            count == steps(frames as int, sample_step as int),
            bound == 0x4000_0000,
            -bound * k <= sum_x <= bound * k,
            -bound * k <= sum_y <= bound * k,
            -bound * k <= sum_x2 <= bound * k,
            -bound * k <= sum_y2 <= bound * k,
            -bound * k <= sum_xy <= bound * k,
            sum_x == sum(|k: int| beside.x(k), k as int),
            sum_y == sum(|k: int| beside.y(lag as int, k), k as int),
            sum_x2 == sum(|k: int| beside.x(k) * beside.x(k), k as int),
            sum_y2 == sum(|k: int| beside.y(lag as int, k) * beside.y(lag as int, k), k as int),
            sum_xy == sum(|k: int| beside.x(k) * beside.y(lag as int, k), k as int),
        decreases count - k,
    {
        proof {
            steps_start_inside(frames as int, sample_step as int, k as int);
        }
        let offset: usize = k * sample_step;
        let x: i32 = read_first(reference, channels, reference_start + offset);
        let y: i32 = read_first(decoded, channels, decoded_start + offset);
        sum_x = with_term(sum_x, x, Ghost(k as int));
        sum_y = with_term(sum_y, y, Ghost(k as int));
        sum_x2 = with_term(sum_x2, multiplied(x, x), Ghost(k as int));
        sum_y2 = with_term(sum_y2, multiplied(y, y), Ghost(k as int));
        sum_xy = with_term(sum_xy, multiplied(x, y), Ghost(k as int));
        k = k + 1;
    }
    LagSums { lag, frames, count: count as u64, sum_x, sum_y, sum_x2, sum_y2, sum_xy }
}

/// The smaller of two numbers of frames.
fn fewer(a: usize, b: usize) -> (r: usize)
    ensures
        r == if a < b {
            a
        } else {
            b
        },
{
    if a < b {
        a
    } else {
        b
    }
}

/// Sums up decoded audio and its reference at each lag of a range at which enough of them lies
/// beside each other.
#[allow(clippy::too_many_arguments)]
pub fn sums_in_lag_range(
    decoded: &[i16],
    reference: &[i16],
    channels: usize,
    reference_start: usize,
    window_frames: usize,
    min_lag: i64,
    max_lag: i64,
    lag_step: usize,
    sample_step: usize,
) -> (r: Vec<LagSums>)
    requires
        channels > 0,
    ensures
        r@ == (Beside {
            decoded: decoded@,
            reference: reference@,
            channels: channels as nat,
            reference_start: reference_start as int,
            window_frames: window_frames as int,
            sample_step: if sample_step == 0 {
                1
            } else {
                sample_step as int
            },
        }).sums_from(
            min_lag as int,
            max_lag as int,
            if lag_step == 0 {
                1
            } else {
                lag_step as int
            },
        ),
{
    let sample_step: usize = if sample_step == 0 {
        1
    } else {
        sample_step
    };
    let lag_step: usize = if lag_step == 0 {
        1
    } else {
        lag_step
    };
    let ghost beside = Beside {
        decoded: decoded@,
        reference: reference@,
        channels: channels as nat,
        reference_start: reference_start as int,
        window_frames: window_frames as int,
        sample_step: sample_step as int,
    };
    let decoded_frames: usize = decoded.len() / channels;
    let reference_frames: usize = reference.len() / channels;
    let mut list: Vec<LagSums> = Vec::new();
    let mut lag: i128 = min_lag as i128;
    let ghost all = beside.sums_from(min_lag as int, max_lag as int, lag_step as int);
    assert(list@ + all =~= all);
    while lag <= max_lag as i128
        invariant
            channels > 0,
            sample_step > 0,
            lag_step > 0,
            min_lag <= lag,
            lag <= max_lag + lag_step || lag == min_lag,
            decoded_frames == decoded@.len() as int / channels as int,
            reference_frames == reference@.len() as int / channels as int,
            beside == (Beside {
                decoded: decoded@,
                reference: reference@,
                channels: channels as nat,
                reference_start: reference_start as int,
                window_frames: window_frames as int,
                sample_step: sample_step as int,
            }),
            all == list@ + beside.sums_from(lag as int, max_lag as int, lag_step as int),
        decreases
                if lag > max_lag {
                    0
                } else {
                    max_lag - lag + 1
                },
    {
        let ghost before = list@;
        let start: i128 = reference_start as i128 + lag;
        if 0 <= start && start <= decoded_frames as i128 && reference_start <= reference_frames {
            let decoded_start: usize = start as usize;
            let frames: usize = fewer(
                window_frames,
                fewer(reference_frames - reference_start, decoded_frames - decoded_start),
            );
            assert(frames == beside.frames(lag as int));
            if frames >= SAMPLE_RATE as usize / 4 {
                list.push(
                    lag_sums(
                        decoded,
                        reference,
                        channels,
                        reference_start,
                        decoded_start,
                        lag as i64,
                        frames,
                        sample_step,
                        Ghost(window_frames as int),
                    ),
                );
            }
        } else {
            assert(!beside.counts_lag(lag as int));
        }
        let ghost rest = beside.sums_from(lag + lag_step, max_lag as int, lag_step as int);
        assert(before + (seq![beside.sums(lag as int)] + rest) =~= before.push(
            beside.sums(lag as int),
        ) + rest);
        lag = lag + lag_step as i128;
    }
    assert(list@ =~= all);
    list
}

/// A reference that is laid beside decoded audio.
#[derive(Debug)]
pub struct PreparedReference {
    pub samples: Vec<i16>,
    /// How many frames are compared.
    pub window_frames: usize,
    /// The frame at which they start.
    pub start: usize,
}

/// How many frames are compared: at most two seconds.
pub open spec fn compared_frames(decoded_frames: int, reference_frames: int) -> int {
    let common = if decoded_frames < reference_frames {
        decoded_frames
    } else {
        reference_frames
    };
    if common < 2 * SAMPLE_RATE {
        common
    } else {
        2 * SAMPLE_RATE as int
    }
}

/// Lays a reference, behind so many frames of silence, beside so many decoded samples.
pub fn prepare_reference(
    decoded_samples: usize,
    reference_bytes: &[u8],
    channels: u8,
    leading_silence_frames: usize,
) -> (r: Result<PreparedReference, ReferenceError>)
    requires
        leading_silence_frames * channels + reference_bytes@.len() / 2 <= usize::MAX,
    ensures
        ({
            let width = channels as int;
            let samples = reference_samples(
                reference_bytes@,
                (leading_silence_frames * channels) as nat,
            );
            if channels == 0 || reference_bytes@.len() as int % (2 * width) != 0 {
                r == Err::<PreparedReference, ReferenceError>(ReferenceError::Incomplete)
            } else {
                let frames = compared_frames(
                    decoded_samples as int / width,
                    samples.len() as int / width,
                );
                if frames < SAMPLE_RATE as int / 2 {
                    r == Err::<PreparedReference, ReferenceError>(ReferenceError::TooShort)
                } else {
                    &&& r matches Ok(reference)
                    &&& reference.samples@ == samples
                    &&& reference.window_frames == frames
                    &&& samples.len() as int / width <= frames ==> reference.start == 0
                    &&& samples.len() as int / width > frames ==> has_most_energy(
                        samples,
                        channels as nat,
                        frames,
                        reference.start as int,
                    )
                }
            }
        }),
{
    let width: usize = channels as usize;
    if channels == 0 || reference_bytes.len() % (2 * width) != 0 {
        return Err(ReferenceError::Incomplete);
    }
    let samples = read_reference(reference_bytes, leading_silence_frames * width);
    let common: usize = fewer(decoded_samples / width, samples.len() / width);
    if common < SAMPLE_RATE as usize / 2 {
        return Err(ReferenceError::TooShort);
    }
    let window_frames: usize = fewer(common, SAMPLE_RATE as usize * 2);
    let start: usize = highest_energy_window(samples.as_slice(), width, window_frames);
    Ok(PreparedReference { samples, window_frames, start })
}

/// Audio that is laid beside itself is the same at no lag: there the sums of both agree.
pub proof fn audio_agrees_with_itself(samples: Seq<i16>, channels: nat, start: int, window: int, step: int)
    ensures
        ({
            let sums = (Beside {
                decoded: samples,
                reference: samples,
                channels,
                reference_start: start,
                window_frames: window,
                sample_step: step,
            }).sums(0);
            sums.sum_x == sums.sum_y && sums.sum_x2 == sums.sum_y2 && sums.sum_xy == sums.sum_x2
        }),
{
    let beside = Beside {
        decoded: samples,
        reference: samples,
        channels,
        reference_start: start,
        window_frames: window,
        sample_step: step,
    };
    let count = steps(beside.frames(0), step);
    same_terms(|k: int| beside.x(k), |k: int| beside.y(0, k), count);
    same_terms(|k: int| beside.x(k) * beside.x(k), |k: int| beside.y(0, k) * beside.y(0, k), count);
    same_terms(|k: int| beside.x(k) * beside.y(0, k), |k: int| beside.x(k) * beside.x(k), count);
}

/// Sums of the same terms agree.
proof fn same_terms(a: spec_fn(int) -> int, b: spec_fn(int) -> int, count: int)
    requires
        forall|k: int| #[trigger] a(k) == b(k),
    ensures
        sum(a, count) == sum(b, count),
    decreases count,
{
    if count > 0 {
        same_terms(a, b, count - 1);
        assert(a(count - 1) == b(count - 1));
    }
}

/// The two bytes of a sample, the low one first, are read as the sample.
pub proof fn samples_are_read_from_two_bytes(sample: i16, low: u8, high: u8)
    requires
        low + 256 * high == (if sample >= 0 {
            sample as int
        } else {
            sample + 65_536
        }),
    ensures
        sample_of(low, high) == sample,
{
}

/// A reference is read as it goes on: silence first, then its bytes, in whatever pieces of whole
/// samples they come.
pub proof fn references_go_on_behind_silence(front: Seq<u8>, back: Seq<u8>, silence: nat)
    requires
        front.len() % 2 == 0,
    ensures
        ({
            let both = reference_samples(front + back, silence);
            &&& both == reference_samples(front, silence) + reference_samples(back, 0)
            &&& both.len() == silence + (front.len() + back.len()) / 2
            &&& forall|i: int| 0 <= i < silence ==> #[trigger] both[i] == 0
        }),
{
    let both = reference_samples(front + back, silence);
    let joined = reference_samples(front, silence) + reference_samples(back, 0);
    assert(both.len() == joined.len());
    assert forall|i: int| 0 <= i < both.len() implies #[trigger] both[i] == joined[i] by {
        let half = front.len() / 2;
        if i >= silence {
            let at = 2 * (i - silence);
            if i < silence + half {
                assert((front + back)[at] == front[at] && (front + back)[at + 1] == front[at + 1]);
            } else {
                let own = i - silence - half;
                assert((front + back)[at] == back[2 * own] && (front + back)[at + 1] == back[2 * own
                    + 1]);
            }
        }
    }
    assert(both =~= joined);
}

/// As much is compared as both have, and no more than two seconds.
pub proof fn no_more_is_compared_than_both_have(decoded_frames: int, reference_frames: int, frames: int)
    ensures
        frames <= compared_frames(decoded_frames, reference_frames) <==> frames <= decoded_frames
            && frames <= reference_frames && frames <= 2 * 48_000,
{
}

/// Every lag of a range that leaves enough to compare is tried.
pub proof fn every_lag_is_tried(beside: Beside, lag: int, max_lag: int, lag_step: int, k: nat)
    requires
        lag_step > 0,
        lag + k * lag_step <= max_lag,
        beside.decoded_start(lag + k * lag_step) >= 0,
        beside.frames(lag + k * lag_step) >= 12_000,
    ensures
        beside.sums_from(lag, max_lag, lag_step).contains(beside.sums(lag + k * lag_step)),
    decreases k,
{
    assert(k * lag_step >= 0) by (nonlinear_arith)
        requires
            lag_step > 0,
            k >= 0,
    ;
    let rest = beside.sums_from(lag + lag_step, max_lag, lag_step);
    let found = beside.sums_from(lag, max_lag, lag_step);
    if k == 0 {
        assert(0 * lag_step == 0);
        assert(found[0] == beside.sums(lag));
    } else {
        let before = (k - 1) as nat;
        assert(lag + lag_step + before * lag_step == lag + k * lag_step) by (nonlinear_arith)
            requires
                before == k - 1,
        ;
        every_lag_is_tried(beside, lag + lag_step, max_lag, lag_step, before);
        let at = choose|j: int| 0 <= j < rest.len() && rest[j] == beside.sums(lag + k * lag_step);
        if beside.counts_lag(lag) {
            assert(found[at + 1] == rest[at]);
        } else {
            assert(found[at] == rest[at]);
        }
    }
}

} // verus!
