use vstd::prelude::*;
use std::time::{Duration, SystemTime};

verus! {

/// Unsigned 16-bit reading of a signed sample (two's complement).
pub open spec fn as_unsigned(x: i16) -> int {
    if x < 0 { x + 65536 } else { x as int }
}

/// Low byte of the little-endian encoding of a sample.
pub open spec fn low_byte(x: i16) -> u8 {
    (as_unsigned(x) % 256) as u8
}

/// High byte of the little-endian encoding of a sample.
pub open spec fn high_byte(x: i16) -> u8 {
    (as_unsigned(x) / 256) as u8
}

/// Little-endian byte encoding of a sequence of samples.
pub open spec fn le_bytes(s: Seq<i16>) -> Seq<u8> {
    Seq::new(2 * s.len(), |j: int| if j % 2 == 0 { low_byte(s[j / 2]) } else { high_byte(s[j / 2]) })
}

/// The sample that two little-endian bytes encode.
pub open spec fn sample_of(lo: u8, hi: u8) -> i16 {
    let v = lo + 256 * hi;
    if v >= 32768 { (v - 65536) as i16 } else { v as i16 }
}

/// Decoding of a byte sequence into samples; a trailing odd byte is ignored.
pub open spec fn samples_of(b: Seq<u8>) -> Seq<i16> {
    Seq::new(b.len() / 2, |i: int| sample_of(b[2 * i], b[2 * i + 1]))
}

#[verifier::external_type_specification]
#[verifier::external_body]
pub struct ExSystemTime(SystemTime);

/// `SystemTime::now`: the clock decides, so nothing is stated of it.
#[verifier::external_body]
fn system_time_now() -> SystemTime {
    SystemTime::now()
}

/// `SystemTime::duration_since(UNIX_EPOCH)`: `None` for a time before the
/// epoch. What the time is depends on the clock, so nothing more is stated.
#[verifier::external_body]
fn since_unix_epoch(t: &SystemTime) -> Option<Duration> {
    match t.duration_since(std::time::UNIX_EPOCH) {
        Ok(d) => Some(d),
        Err(_) => None,
    }
}

/// The whole milliseconds of a `Duration`.
pub uninterp spec fn duration_total_millis(d: Duration) -> u128;

/// `Duration::as_millis`.
#[verifier::external_body]
fn duration_as_millis(d: &Duration) -> (ms: u128)
    ensures
        ms == duration_total_millis(*d),
{
    d.as_millis()
}

/// Milliseconds since the Unix epoch by the system clock, truncated to
/// `i64` like a cast; 0 for a clock set before the epoch.
fn millis_since_epoch() -> i64 {
    let now = system_time_now();
    match since_unix_epoch(&now) {
        Some(d) => duration_as_millis(&d) as i64,
        None => 0,
    }
}

/// Represents a chunk of audio data for processing
#[derive(Debug, Clone)]
pub struct AudioChunk {
    /// Raw PCM audio data (16-bit signed integers)
    pub data: Vec<i16>,
    /// Sample rate in Hz (e.g., 16000 for 16kHz)
    pub sample_rate: u32,
    /// Number of channels (1 for mono, 2 for stereo)
    pub channels: u16,
    /// Timestamp (milliseconds since the Unix epoch) when this chunk was captured
    pub timestamp: i64,
}

impl AudioChunk {
    pub fn new(data: Vec<i16>, sample_rate: u32, channels: u16) -> (c: Self)
        ensures
            c.data@ == data@,
            c.sample_rate == sample_rate,
            c.channels == channels,
    {
        let timestamp = millis_since_epoch();
        AudioChunk { data, sample_rate, channels, timestamp }
    }

    /// Returns the duration of this chunk in milliseconds
    pub fn duration_ms(&self) -> (d: u64)
        requires
            self.sample_rate > 0,
            self.channels > 0,
            self.data.len() * 1000 <= u64::MAX,
        ensures
            d == (self.data.len() * 1000) / (self.sample_rate * self.channels),
    {
        let n: u64 = self.data.len() as u64 * 1000;
        assert(0 < self.sample_rate * self.channels <= u32::MAX * u16::MAX) by (nonlinear_arith)
            requires 0 < self.sample_rate <= u32::MAX, 0 < self.channels <= u16::MAX;
        let per: u64 = self.sample_rate as u64 * self.channels as u64;
        n / per
    }

    /// Converts to bytes for transmission (little-endian)
    pub fn to_bytes(&self) -> (b: Vec<u8>)
        ensures
            b@ == le_bytes(self.data@),
    {
        let mut out: Vec<u8> = Vec::new();
        let n = self.data.len();
        for i in 0..n
            invariant
                n == self.data.len(),
                out@.len() == 2 * i,
                forall|j: int| 0 <= j < 2 * i ==> out@[j] == le_bytes(self.data@)[j],
        {
            let v: i32 = self.data[i] as i32;
            let u: i32 = if v < 0 { v + 65536 } else { v };
            out.push((u % 256) as u8);
            out.push((u / 256) as u8);
        }
        assert(out@ =~= le_bytes(self.data@));
        out
    }

    /// Creates from bytes (little-endian)
    pub fn from_bytes(bytes: &[u8], sample_rate: u32, channels: u16) -> (c: Self)
        ensures
            c.data@ == samples_of(bytes@),
            c.sample_rate == sample_rate,
            c.channels == channels,
    {
        let mut data: Vec<i16> = Vec::new();
        let total = bytes.len();
        let n = total / 2;
        for i in 0..n
            invariant
                total == bytes@.len(),
                n == bytes@.len() / 2,
                data@.len() == i,
                forall|j: int| 0 <= j < i ==> data@[j] == samples_of(bytes@)[j],
        {
            assert(2 * i + 1 < bytes@.len());
            let lo: u8 = bytes[2 * i];
            let hi: u8 = bytes[2 * i + 1];
            let v: i32 = lo as i32 + 256 * hi as i32;
            let s: i16 = if v >= 32768 { (v - 65536) as i16 } else { v as i16 };
            data.push(s);
        }
        assert(data@ =~= samples_of(bytes@));
        Self::new(data, sample_rate, channels)
    }
}

/// Appends the little-endian encoding of `samples` to `out`.
pub fn append_le_bytes(out: &mut Vec<u8>, samples: &[i16])
    requires
        old(out)@.len() + 2 * samples@.len() <= usize::MAX,
    ensures
        final(out)@ == old(out)@ + le_bytes(samples@),
{
    let n = samples.len();
    let ghost start = out@;
    for i in 0..n
        invariant
            n == samples@.len(),
            start == old(out)@,
            start.len() + 2 * n <= usize::MAX,
            out@.len() == start.len() + 2 * i,
            forall|j: int| 0 <= j < start.len() ==> out@[j] == start[j],
            forall|j: int| 0 <= j < 2 * i ==> out@[start.len() + j] == le_bytes(samples@)[j],
    {
        let v: i32 = samples[i] as i32;
        let u: i32 = if v < 0 { v + 65536 } else { v };
        out.push((u % 256) as u8);
        out.push((u / 256) as u8);
    }
    assert(out@ =~= start + le_bytes(samples@));
}

/// Decoding the little-endian encoding of a chunk gives back its samples.
pub proof fn lemma_bytes_round_trip(s: Seq<i16>)
    ensures
        samples_of(le_bytes(s)) == s,
{
    assert forall|i: int| 0 <= i < s.len() implies samples_of(le_bytes(s))[i] == s[i] by {
        assert((2 * i) / 2 == i);
        assert((2 * i + 1) / 2 == i);
        assert((2 * i) % 2 == 0);
        assert((2 * i + 1) % 2 == 1);
    }
    assert(samples_of(le_bytes(s)) =~= s);
}

/// Audio configuration parameters
#[derive(Debug, Clone, Copy)]
pub struct AudioConfig {
    /// Sample rate in Hz (typically 16000 for speech recognition)
    pub sample_rate: u32,
    /// Number of channels (1 for mono, 2 for stereo)
    pub channels: u16,
    /// Buffer size in frames
    pub buffer_size: u32,
}

impl Default for AudioConfig {
    fn default() -> (c: Self)
        ensures
            c.sample_rate == 16000,
            c.channels == 1,
            c.buffer_size == 4096,
    {
        AudioConfig { sample_rate: 16000, channels: 1, buffer_size: 4096 }
    }
}

} // verus!
