use vstd::prelude::*;

use crate::blink::PinLevel;
use crate::led::Led;

verus! {

// Timing table of the one-wire pulse-width protocol (WS2812B-class
// devices): a "1" bit is a long high pulse followed by a short low pulse,
// a "0" bit a short high pulse followed by a long low pulse, both filling
// the same fixed bit period; a frame is applied by holding the line low
// for at least the minimum latch duration.
/// High time of a "1" bit, in nanoseconds.
pub const T1H_NS: u64 = 800;

/// Low time of a "1" bit, in nanoseconds.
pub const T1L_NS: u64 = 450;

/// High time of a "0" bit, in nanoseconds.
pub const T0H_NS: u64 = 400;

/// Low time of a "0" bit, in nanoseconds.
pub const T0L_NS: u64 = 850;

/// Total duration of one encoded bit, in nanoseconds.
pub const BIT_PERIOD_NS: u64 = 1250;

/// Minimum quiet (line low) time that latches a frame, in nanoseconds.
pub const MIN_LATCH_NS: u64 = 50000;

/// Quiet time the driver actually holds for a latch, in nanoseconds.
pub const LATCH_NS: u64 = 80000;

/// One pin transition on the data line: the line is driven to `level` and
/// held there for `duration_ns` nanoseconds.
#[derive(Clone, Copy, Debug, PartialEq, Eq, Structural)]
pub struct Pulse {
    pub level: PinLevel,
    pub duration_ns: u64,
}

/// Why a strip operation was refused.
#[derive(Clone, Copy, Debug, PartialEq, Eq, Structural)]
pub enum StripError {
    /// The addressed position does not exist on the strip.
    IndexOutOfRange,
}

/// Where the driver stands between public calls. Transmission and
/// latching themselves run to completion inside `set_led` and `low`, so
/// the two resting phases are: idle (latched, a new frame may start) and
/// awaiting the latch that applies the frame just transmitted.
#[derive(Clone, Copy, Debug, PartialEq, Eq, Structural)]
pub enum StripPhase {
    Idle,
    AwaitingLatch,
}

/// Bit `i` of `byte`, most-significant bit first: bit 0 is the first bit
/// put on the wire.
pub open spec fn spec_bit_of(byte: u8, i: int) -> bool
    recommends
        0 <= i < 8,
{
    (byte >> ((7 - i) as u8)) & 1 == 1
}

/// The high pulse that opens the encoding of one bit.
pub open spec fn spec_high_pulse(bit: bool) -> Pulse {
    Pulse { level: PinLevel::High, duration_ns: if bit { T1H_NS } else { T0H_NS } }
}

/// The low pulse that closes the encoding of one bit.
pub open spec fn spec_low_pulse(bit: bool) -> Pulse {
    Pulse { level: PinLevel::Low, duration_ns: if bit { T1L_NS } else { T0L_NS } }
}

/// Half `0` of an encoded bit is its high pulse, half `1` its low pulse.
pub open spec fn spec_bit_pulse(bit: bool, half: int) -> Pulse {
    if half == 0 {
        spec_high_pulse(bit)
    } else {
        spec_low_pulse(bit)
    }
}

/// The 16 pulses that encode one byte: two pulses per bit, most
/// significant bit first.
pub open spec fn spec_pulses_of_byte(byte: u8) -> Seq<Pulse> {
    Seq::new(16, |k: int| spec_bit_pulse(spec_bit_of(byte, k / 2), k % 2))
}

/// Channel `c` of a color in wire order: red, then green, then blue.
pub open spec fn spec_channel(color: Led, c: int) -> u8
    recommends
        0 <= c < 3,
{
    if c == 0 {
        color.red
    } else if c == 1 {
        color.green
    } else {
        color.blue
    }
}

/// Pulse `m` of the 48 that encode one color: channel `m / 16`, bit
/// `(m % 16) / 2` of that channel, high or low half by `m % 2`.
pub open spec fn spec_color_pulse(color: Led, m: int) -> Pulse
    recommends
        0 <= m < 48,
{
    spec_bit_pulse(spec_bit_of(spec_channel(color, m / 16), (m % 16) / 2), m % 2)
}

/// The 48 pulses that encode one color.
pub open spec fn spec_pulses_of_color(color: Led) -> Seq<Pulse> {
    Seq::new(48, |m: int| spec_color_pulse(color, m))
}

/// The color pixel `j` carries in a frame that addresses pixel `index`
/// with `color`: every other position is sent dark.
pub open spec fn spec_pixel_color(index: int, color: Led, j: int) -> Led {
    if j == index {
        color
    } else {
        Led::spec_black()
    }
}

/// The whole pulse train of one frame: `size` pixels of 48 pulses each,
/// transmitted in pixel order, since transmission order is the sole
/// addressing mechanism of the protocol.
pub open spec fn spec_frame_pulses(size: nat, index: int, color: Led) -> Seq<Pulse> {
    Seq::new(48 * size, |k: int| spec_color_pulse(spec_pixel_color(index, color, k / 48), k % 48))
}

/// The protocol-conformant reading of one encoded bit: the bit is `1`
/// exactly when the high time exceeds the low time within the bit period.
pub open spec fn spec_decode_bit(hi: Pulse, lo: Pulse) -> bool {
    hi.duration_ns > lo.duration_ns
}

/// Bit `i` of the byte whose encoding starts at `base` in `pulses`.
pub open spec fn spec_decoded_bit(pulses: Seq<Pulse>, base: int, i: int) -> bool {
    spec_decode_bit(pulses[base + 2 * i], pulses[base + 2 * i + 1])
}

/// The byte with the given bits, most significant first.
pub open spec fn spec_byte_from_bits(
    b0: bool,
    b1: bool,
    b2: bool,
    b3: bool,
    b4: bool,
    b5: bool,
    b6: bool,
    b7: bool,
) -> u8 {
    ((if b0 { 128int } else { 0int }) + (if b1 { 64int } else { 0int }) + (if b2 { 32int } else { 0int })
        + (if b3 { 16int } else { 0int }) + (if b4 { 8int } else { 0int }) + (if b5 { 4int } else { 0int })
        + (if b6 { 2int } else { 0int }) + (if b7 { 1int } else { 0int })) as u8
}

/// The byte whose encoding starts at `base` in `pulses`.
pub open spec fn spec_decoded_byte(pulses: Seq<Pulse>, base: int) -> u8 {
    spec_byte_from_bits(
        spec_decoded_bit(pulses, base, 0),
        spec_decoded_bit(pulses, base, 1),
        spec_decoded_bit(pulses, base, 2),
        spec_decoded_bit(pulses, base, 3),
        spec_decoded_bit(pulses, base, 4),
        spec_decoded_bit(pulses, base, 5),
        spec_decoded_bit(pulses, base, 6),
        spec_decoded_bit(pulses, base, 7),
    )
}

/// The color whose encoding starts at `base` in `pulses`: red, green,
/// blue, 16 pulses each.
pub open spec fn spec_decoded_color(pulses: Seq<Pulse>, base: int) -> Led {
    Led {
        red: spec_decoded_byte(pulses, base),
        green: spec_decoded_byte(pulses, base + 16),
        blue: spec_decoded_byte(pulses, base + 32),
    }
}

/// The color pixel `j` receives from the pulse train `pulses`.
pub open spec fn spec_decoded_pixel(pulses: Seq<Pulse>, j: int) -> Led {
    spec_decoded_color(pulses, 48 * j)
}

/// Both bit values fill the same fixed bit period, and each is told from
/// the other by the ratio of high time to low time alone.
pub proof fn lemma_fixed_bit_period(bit: bool)
    ensures
        spec_high_pulse(bit).duration_ns + spec_low_pulse(bit).duration_ns == BIT_PERIOD_NS,
        spec_decode_bit(spec_high_pulse(bit), spec_low_pulse(bit)) == bit,
{
}

proof fn lemma_byte_recompose(byte: u8)
    ensures
        spec_byte_from_bits(
            spec_bit_of(byte, 0),
            spec_bit_of(byte, 1),
            spec_bit_of(byte, 2),
            spec_bit_of(byte, 3),
            spec_bit_of(byte, 4),
            spec_bit_of(byte, 5),
            spec_bit_of(byte, 6),
            spec_bit_of(byte, 7),
        ) == byte,
{
    assert(((byte >> 7) & 1) * 128 + ((byte >> 6) & 1) * 64 + ((byte >> 5) & 1) * 32 + ((byte >> 4)
        & 1) * 16 + ((byte >> 3) & 1) * 8 + ((byte >> 2) & 1) * 4 + ((byte >> 1) & 1) * 2 + ((byte
        >> 0) & 1) * 1 == byte) by (bit_vector);
    assert(((byte >> 7) & 1 == 0 || (byte >> 7) & 1 == 1) && ((byte >> 6) & 1 == 0 || (byte >> 6)
        & 1 == 1) && ((byte >> 5) & 1 == 0 || (byte >> 5) & 1 == 1) && ((byte >> 4) & 1 == 0 || (
    byte >> 4) & 1 == 1) && ((byte >> 3) & 1 == 0 || (byte >> 3) & 1 == 1) && ((byte >> 2) & 1 == 0
        || (byte >> 2) & 1 == 1) && ((byte >> 1) & 1 == 0 || (byte >> 1) & 1 == 1) && ((byte >> 0)
        & 1 == 0 || (byte >> 0) & 1 == 1)) by (bit_vector);
}

/// If the 16 pulses starting at `base` carry the bits of `byte`, the
/// decoder reads back exactly `byte`.
proof fn lemma_decoded_byte_from_bits(pulses: Seq<Pulse>, base: int, byte: u8)
    requires
        forall|i: int| 0 <= i < 8 ==> spec_decoded_bit(pulses, base, i) == spec_bit_of(byte, i),
    ensures
        spec_decoded_byte(pulses, base) == byte,
{
    lemma_byte_recompose(byte);
}

/// Round trip of one frame: a protocol-conformant decode of the pulse
/// train that `set_led` transmits yields, at every pixel position, the
/// exact color that position was sent — the addressed color at `index`
/// and dark everywhere else, in red-green-blue, most-significant-bit-first
/// order.
pub proof fn lemma_frame_round_trip(size: nat, index: int, color: Led, j: int)
    requires
        0 <= index < size,
        0 <= j < size,
    ensures
        spec_decoded_pixel(spec_frame_pulses(size, index, color), j) == spec_pixel_color(
            index,
            color,
            j,
        ),
{
    let pulses = spec_frame_pulses(size, index, color);
    let pix = spec_pixel_color(index, color, j);
    assert forall|c: int, i: int| 0 <= c < 3 && 0 <= i < 8 implies spec_decoded_bit(
        pulses,
        48 * j + 16 * c,
        i,
    ) == spec_bit_of(spec_channel(pix, c), i) by {
        let k: int = 48 * j + 16 * c + 2 * i;
        assert(0 <= k && k + 1 < 48 * size);
        assert(k / 48 == j && k % 48 == 16 * c + 2 * i);
        assert((k + 1) / 48 == j && (k + 1) % 48 == 16 * c + 2 * i + 1);
        assert((16 * c + 2 * i) / 16 == c && (16 * c + 2 * i) % 16 == 2 * i);
        assert((16 * c + 2 * i + 1) / 16 == c && (16 * c + 2 * i + 1) % 16 == 2 * i + 1);
        assert((2 * i) / 2 == i && (2 * i + 1) / 2 == i);
        assert(k % 2 == 0 && (k + 1) % 2 == 1);
        assert(pulses[k] == spec_high_pulse(spec_bit_of(spec_channel(pix, c), i)));
        assert(pulses[k + 1] == spec_low_pulse(spec_bit_of(spec_channel(pix, c), i)));
    }
    lemma_decoded_byte_from_bits(pulses, 48 * j, spec_channel(pix, 0));
    lemma_decoded_byte_from_bits(pulses, 48 * j + 16, spec_channel(pix, 1));
    lemma_decoded_byte_from_bits(pulses, 48 * j + 32, spec_channel(pix, 2));
}

/// Append the 16 pulses that encode `byte` to `out`.
fn push_byte_pulses(out: &mut Vec<Pulse>, byte: u8)
    ensures
        final(out)@ == old(out)@ + spec_pulses_of_byte(byte),
{
    let mut i: u8 = 0;
    while i < 8
        invariant
            i <= 8,
            out@ == old(out)@ + spec_pulses_of_byte(byte).take(2 * i as int),
        decreases 8 - i,
    {
        let bit = (byte >> (7 - i)) & 1 == 1;
        proof {
            assert(bit == spec_bit_of(byte, i as int));
        }
        let hi = if bit { T1H_NS } else { T0H_NS };
        let lo = if bit { T1L_NS } else { T0L_NS };
        out.push(Pulse { level: PinLevel::High, duration_ns: hi });
        out.push(Pulse { level: PinLevel::Low, duration_ns: lo });
        proof {
            let b = spec_pulses_of_byte(byte);
            assert((2 * i as int) / 2 == i as int && (2 * i as int) % 2 == 0);
            assert((2 * i as int + 1) / 2 == i as int && (2 * i as int + 1) % 2 == 1);
            assert(b[2 * i as int] == spec_high_pulse(spec_bit_of(byte, i as int)));
            assert(b[2 * i as int + 1] == spec_low_pulse(spec_bit_of(byte, i as int)));
            assert(out@ =~= old(out)@ + b.take(2 * (i + 1) as int));
        }
        i = i + 1;
    }
    proof {
        assert(spec_pulses_of_byte(byte).take(16) =~= spec_pulses_of_byte(byte));
    }
}

/// Append the 48 pulses that encode `color` to `out`: red, green, blue,
/// most significant bit of each channel first.
fn push_color_pulses(out: &mut Vec<Pulse>, color: Led)
    ensures
        final(out)@ == old(out)@ + spec_pulses_of_color(color),
{
    push_byte_pulses(out, color.red);
    push_byte_pulses(out, color.green);
    push_byte_pulses(out, color.blue);
    proof {
        let whole = spec_pulses_of_color(color);
        let parts = spec_pulses_of_byte(color.red) + spec_pulses_of_byte(color.green)
            + spec_pulses_of_byte(color.blue);
        assert forall|m: int| 0 <= m < 48 implies parts[m] == whole[m] by {
            if m < 16 {
                assert(m / 16 == 0 && m % 16 == m);
            } else if m < 32 {
                assert(m / 16 == 1 && m % 16 == m - 16);
                assert((m - 16) / 2 == (m % 16) / 2 && (m - 16) % 2 == m % 2);
            } else {
                assert(m / 16 == 2 && m % 16 == m - 32);
                assert((m - 32) / 2 == (m % 16) / 2 && (m - 32) % 2 == m % 2);
            }
        }
        assert(parts =~= whole);
        assert(out@ =~= old(out)@ + whole);
    }
}

/// Read back the byte whose 16 pulses start at `base`, by the high-to-low
/// ratio of each bit period.
fn decode_byte_at(pulses: &Vec<Pulse>, base: usize) -> (byte: u8)
    requires
        base + 16 <= pulses@.len(),
    ensures
        byte == spec_decoded_byte(pulses@, base as int),
{
    let n = pulses.len();
    proof {
        assert(base + 16 <= n);
    }
    let b0 = pulses[base].duration_ns > pulses[base + 1].duration_ns;
    let b1 = pulses[base + 2].duration_ns > pulses[base + 3].duration_ns;
    let b2 = pulses[base + 4].duration_ns > pulses[base + 5].duration_ns;
    let b3 = pulses[base + 6].duration_ns > pulses[base + 7].duration_ns;
    let b4 = pulses[base + 8].duration_ns > pulses[base + 9].duration_ns;
    let b5 = pulses[base + 10].duration_ns > pulses[base + 11].duration_ns;
    let b6 = pulses[base + 12].duration_ns > pulses[base + 13].duration_ns;
    let b7 = pulses[base + 14].duration_ns > pulses[base + 15].duration_ns;
    let byte = (if b0 { 128u8 } else { 0u8 }) + (if b1 { 64u8 } else { 0u8 }) + (if b2 {
        32u8
    } else {
        0u8
    }) + (if b3 { 16u8 } else { 0u8 }) + (if b4 { 8u8 } else { 0u8 }) + (if b5 { 4u8 } else { 0u8 })
        + (if b6 { 2u8 } else { 0u8 }) + (if b7 { 1u8 } else { 0u8 });
    byte
}

/// Read a whole frame back from its pulse train: the protocol-conformant
/// decode of `48 * size` pulses into the `size` colors they address, in
/// transmission order.
pub fn decode_frame(pulses: &Vec<Pulse>, size: usize) -> (colors: Vec<Led>)
    requires
        pulses@.len() == 48 * size as int,
    ensures
        colors@.len() == size as int,
        forall|j: int| 0 <= j < size ==> colors@[j] == spec_decoded_pixel(pulses@, j),
{
    let mut colors: Vec<Led> = Vec::new();
    let mut j: usize = 0;
    while j < size
        invariant
            j <= size,
            pulses@.len() == 48 * size as int,
            colors@.len() == j as int,
            forall|t: int| 0 <= t < j ==> colors@[t] == spec_decoded_pixel(pulses@, t),
        decreases size - j,
    {
        let n = pulses.len();
        proof {
            assert(48 * (j + 1) as int <= 48 * size as int);
            assert(48 * j as int + 48 <= n);
        }
        let base = 48 * j;
        let red = decode_byte_at(pulses, base);
        let green = decode_byte_at(pulses, base + 16);
        let blue = decode_byte_at(pulses, base + 32);
        colors.push(Led { red, green, blue });
        j = j + 1;
    }
    colors
}

/// The pulse that `low` holds the data line with: inactive level for the
/// driver's latch duration, which meets the protocol's minimum quiet time.
pub open spec fn spec_latch_pulse() -> Pulse {
    Pulse { level: PinLevel::Low, duration_ns: LATCH_NS }
}

/// Driver for a chain of individually addressable LEDs on one data line.
///
/// It owns the pixel count, fixed at construction, and composes the pulse
/// trains that address the chain; the platform bit-bangs each returned
/// train onto the output pin inside a single critical section, so that
/// interrupt preemption cannot stretch a pulse mid-frame.
pub struct LedStrip {
    size: usize,
    phase: StripPhase,
}

/// What `low` does to a driver: it always succeeds, returns the latch
/// pulse, and leaves the driver idle, whatever phase it was in.
pub closed spec fn spec_low(strip: LedStrip) -> (LedStrip, Pulse) {
    (LedStrip { phase: StripPhase::Idle, ..strip }, spec_latch_pulse())
}

/// Latching is idempotent: a second `low` with no `set_led` in between
/// returns the same quiet pulse, leaves the driver in the same idle
/// state with its size kept, and raises no error.
pub proof fn lemma_low_idempotent(strip: LedStrip)
    ensures
        spec_low(spec_low(strip).0).1 == spec_low(strip).1,
        spec_low(spec_low(strip).0).0 == spec_low(strip).0,
        spec_low(strip).1 == spec_latch_pulse(),
        spec_low(strip).0.phase() == StripPhase::Idle,
        spec_low(strip).0.size() == strip.size(),
{
}

/// The driver's quiet period is long enough to latch a frame.
pub proof fn lemma_latch_meets_minimum()
    ensures
        spec_latch_pulse().duration_ns >= MIN_LATCH_NS,
        spec_latch_pulse().level == PinLevel::Low,
{
}

impl LedStrip {
    /// The number of addressable LED positions on the strip.
    pub closed spec fn size(&self) -> usize {
        self.size
    }

    /// The driver's resting phase.
    pub closed spec fn phase(&self) -> StripPhase {
        self.phase
    }

    /// A driver for a strip of `size` pixels. Performs no hardware I/O.
    pub fn new(size: usize) -> (strip: Self)
        ensures
            strip.size() == size,
            strip.phase() == StripPhase::Idle,
    {
        Self { size, phase: StripPhase::Idle }
    }

    /// Compose the full frame that sets the LED at `index` to `color` and
    /// every other position dark: the positions are discriminated purely
    /// by transmission order, so every pixel is re-sent on every update.
    ///
    /// Refuses an index at or beyond the strip's size before composing
    /// anything: no partial transmission of a frame known to be invalid,
    /// and the driver is left exactly as it was. A new frame may only
    /// start once the previous one has been latched with `low`.
    pub fn set_led(&mut self, index: usize, color: Led) -> (result: Result<Vec<Pulse>, StripError>)
        requires
            old(self).phase() == StripPhase::Idle,
        ensures
            final(self).size() == old(self).size(),
            index < old(self).size() ==> {
                &&& result is Ok
                &&& result->Ok_0@ == spec_frame_pulses(old(self).size() as nat, index as int, color)
                &&& final(self).phase() == StripPhase::AwaitingLatch
            },
            index >= old(self).size() ==> {
                &&& result == Result::<Vec<Pulse>, StripError>::Err(StripError::IndexOutOfRange)
                &&& *final(self) == *old(self)
            },
    {
        if index >= self.size {
            return Err(StripError::IndexOutOfRange);
        }
        let size = self.size;
        let ghost frame = spec_frame_pulses(size as nat, index as int, color);
        let mut pulses: Vec<Pulse> = Vec::new();
        let mut j: usize = 0;
        while j < size
            invariant
                j <= size,
                index < size,
                frame == spec_frame_pulses(size as nat, index as int, color),
                pulses@ == frame.take(48 * j as int),
            decreases size - j,
        {
            let pixel = if j == index {
                color
            } else {
                Led::black()
            };
            proof {
                assert(pixel == spec_pixel_color(index as int, color, j as int));
            }
            push_color_pulses(&mut pulses, pixel);
            proof {
                let lhs = frame.take(48 * j as int) + spec_pulses_of_color(pixel);
                let rhs = frame.take(48 * (j + 1) as int);
                assert(48 * (j + 1) as int <= 48 * size as int);
                assert forall|m: int| 0 <= m < 48 * (j + 1) as int implies lhs[m] == rhs[m] by {
                    if m >= 48 * j as int {
                        let r: int = m - 48 * j as int;
                        assert(m / 48 == j as int && m % 48 == r);
                        assert(frame[m] == spec_color_pulse(
                            spec_pixel_color(index as int, color, j as int),
                            r,
                        ));
                    }
                }
                assert(lhs =~= rhs);
            }
            j = j + 1;
        }
        proof {
            assert(frame.take(48 * size as int) =~= frame);
        }
        self.phase = StripPhase::AwaitingLatch;
        Ok(pulses)
    }

    /// Latch the frame transmitted last: hold the data line at its
    /// inactive level for the driver's quiet period, signalling the chain
    /// to apply the frame, and return to the idle phase. Safe to repeat:
    /// a second call returns the same pulse and changes nothing.
    pub fn low(&mut self) -> (latch: Pulse)
        ensures
            (*final(self), latch) == spec_low(*old(self)),
            final(self).size() == old(self).size(),
            final(self).phase() == StripPhase::Idle,
            latch == spec_latch_pulse(),
    {
        self.phase = StripPhase::Idle;
        Pulse { level: PinLevel::Low, duration_ns: LATCH_NS }
    }
}

} // verus!

