//! Telemetry readings as served to the host, and the ADC double buffer.
use vstd::prelude::*;

verus! {

/// A physical reading in hundredths of its unit (watts, volts or amperes).
#[derive(Clone, Copy, Debug, PartialEq, Eq, Structural)]
pub struct Reading {
    pub hundredths: i32,
}

pub const UNIT_WATT: u8 = 87;

pub const UNIT_VOLT: u8 = 86;

pub const UNIT_AMPERE: u8 = 65;

pub open spec fn is_unit(b: u8) -> bool {
    b == UNIT_WATT || b == UNIT_VOLT || b == UNIT_AMPERE
}

pub open spec fn is_digit(b: u8) -> bool {
    48 <= b <= 57
}

pub open spec fn all_digits(s: Seq<u8>) -> bool {
    forall|i: int| 0 <= i < s.len() ==> is_digit(#[trigger] s[i])
}

/// The ASCII decimal digits of `n`, most significant first, no leading zeros.
pub open spec fn decimal(n: nat) -> Seq<u8>
    decreases n,
{
    if n < 10 {
        seq![(48 + n) as u8]
    } else {
        decimal(n / 10) + seq![(48 + n % 10) as u8]
    }
}

pub open spec fn magnitude(x: int) -> nat {
    if x < 0 {
        (-x) as nat
    } else {
        x as nat
    }
}

/// `<value with two decimals><unit>` for a value of `h` hundredths.
pub open spec fn reading_text(h: int, unit: u8) -> Seq<u8> {
    let m = magnitude(h);
    (if h < 0 {
        seq![45u8]
    } else {
        Seq::empty()
    }) + decimal(m / 100) + seq![46u8, (48 + (m % 100) / 10) as u8, (48 + m % 10) as u8, unit]
}

/// The shape `-?[0-9]+\.[0-9]{2}[WVA]`.
pub open spec fn reading_shaped(s: Seq<u8>) -> bool {
    let n = s.len();
    let head = s.subrange(0, n - 4);
    &&& n >= 5
    &&& is_unit(s[n - 1])
    &&& is_digit(s[n - 2])
    &&& is_digit(s[n - 3])
    &&& s[n - 4] == 46u8
    &&& if head[0] == 45u8 {
        head.len() >= 2 && all_digits(head.subrange(1, head.len() as int))
    } else {
        all_digits(head)
    }
}

pub proof fn lemma_decimal_digits(n: nat)
    ensures
        decimal(n).len() >= 1,
        all_digits(decimal(n)),
    decreases n,
{
    if n >= 10 {
        lemma_decimal_digits(n / 10);
        let d = decimal(n / 10);
        let s = d + seq![(48 + n % 10) as u8];
        assert forall|i: int| 0 <= i < s.len() implies is_digit(#[trigger] s[i]) by {
            if i < d.len() {
                assert(s[i] == d[i]);
            }
        }
    }
}

/// Every reading, whatever its value, is written in the shape
/// `-?[0-9]+\.[0-9]{2}` followed by its unit letter.
pub proof fn lemma_reading_shaped(h: int, unit: u8)
    requires
        is_unit(unit),
    ensures
        reading_shaped(reading_text(h, unit)),
{
    let m = magnitude(h);
    let d = decimal(m / 100);
    lemma_decimal_digits(m / 100);
    let sign: Seq<u8> = if h < 0 {
        seq![45u8]
    } else {
        Seq::empty()
    };
    let tail = seq![46u8, (48 + (m % 100) / 10) as u8, (48 + m % 10) as u8, unit];
    let s = reading_text(h, unit);
    assert(s == sign + d + tail);
    let n = s.len();
    assert(n == sign.len() + d.len() + 4);
    let head = s.subrange(0, n - 4);
    assert(head =~= sign + d);
    if h < 0 {
        assert(head[0] == 45u8);
        assert(head.subrange(1, head.len() as int) =~= d);
    } else {
        assert(head =~= d);
        assert(is_digit(d[0]));
    }
}

fn push_decimal(out: &mut Vec<u8>, n: u64)
    ensures
        final(out)@ == old(out)@ + decimal(n as nat),
    decreases n,
{
    if n >= 10 {
        push_decimal(out, n / 10);
    }
    out.push((48 + n % 10) as u8);
    assert(final(out)@ =~= old(out)@ + decimal(n as nat));
}

/// Writes a reading as `<value with two decimals><unit>`.
pub fn format_reading(r: Reading, unit: u8) -> (s: Vec<u8>)
    ensures
        s@ == reading_text(r.hundredths as int, unit),
        is_unit(unit) ==> reading_shaped(s@),
        s@.len() <= 128,
{
    let h: i64 = r.hundredths as i64;
    let m: u64 = if h < 0 {
        (-h) as u64
    } else {
        h as u64
    };
    let mut s: Vec<u8> = Vec::new();
    if h < 0 {
        s.push(45u8);
    }
    push_decimal(&mut s, m / 100);
    s.push(46u8);
    s.push((48 + (m % 100) / 10) as u8);
    s.push((48 + m % 10) as u8);
    s.push(unit);
    proof {
        assert(s@ =~= reading_text(r.hundredths as int, unit));
        if is_unit(unit) {
            lemma_reading_shaped(r.hundredths as int, unit);
        }
        lemma_reading_text_len(r.hundredths as int, unit);
    }
    s
}

proof fn lemma_decimal_short(n: nat)
    requires
        n < 100_000_000,
    ensures
        decimal(n).len() <= 8,
{
    reveal_with_fuel(decimal, 9);
}

/// A reading of an `i32` number of hundredths takes at most 13 bytes.
pub proof fn lemma_reading_text_len(h: int, unit: u8)
    requires
        i32::MIN <= h <= i32::MAX,
    ensures
        reading_text(h, unit).len() <= 13,
{
    lemma_decimal_short(magnitude(h) / 100);
}

} // verus!

verus! {

/// Raw codes of one completed conversion.
#[derive(Clone, Copy, Debug, PartialEq, Eq, Structural)]
pub struct RawSamples {
    pub current_raw: u16,
    pub vout_raw: u16,
}

/// The two ADC sample buffers and who holds each. The capture engine always
/// holds one; the other is the consumer's spare, except between a completion
/// and the moment the consumer hands the filled buffer back.
pub struct SampleBuffers {
    slots: [[u16; 2]; 2],
    capture: usize,
    spare: Option<usize>,
    /// Buffers consumed so far, in order.
    consumed: Ghost<Seq<usize>>,
}

impl SampleBuffers {
    pub closed spec fn capture_slot(&self) -> usize {
        self.capture
    }

    pub closed spec fn spare_slot(&self) -> Option<usize> {
        self.spare
    }

    pub closed spec fn history(&self) -> Seq<usize> {
        self.consumed@
    }

    /// The slot that `b` holds.
    pub closed spec fn contents(&self, b: usize) -> [u16; 2] {
        self.slots[b as int]
    }

    /// Exactly two slots, never held by both parties, and every consumed
    /// buffer differs from the one consumed before it.
    pub closed spec fn wf(&self) -> bool {
        &&& self.capture < 2
        &&& self.spare matches Some(s) ==> s == 1 - self.capture
        &&& self.capture == self.consumed@.len() % 2
        &&& forall|i: int| 0 <= i < self.consumed@.len() ==> #[trigger] self.consumed@[i] == i % 2
    }

    /// Slot 0 with the capture engine, slot 1 spare, both zeroed.
    pub fn new() -> (r: SampleBuffers)
        ensures
            r.wf(),
            r.capture_slot() == 0,
            r.spare_slot() == Some(1usize),
            r.history() == Seq::<usize>::empty(),
    {
        SampleBuffers { slots: [[0u16; 2]; 2], capture: 0, spare: Some(1), consumed: Ghost(Seq::empty()) }
    }

    /// The capture engine writes a conversion into the buffer it holds.
    pub fn capture(&mut self, samples: [u16; 2])
        requires
            old(self).wf(),
        ensures
            final(self).wf(),
            final(self).capture_slot() == old(self).capture_slot(),
            final(self).spare_slot() == old(self).spare_slot(),
            final(self).history() == old(self).history(),
            final(self).contents(final(self).capture_slot()) == samples,
    {
        let c = self.capture;
        self.slots[c] = samples;
    }

    /// Completion: the capture engine takes the spare and hands over the
    /// filled buffer, whose number is returned.
    pub fn complete(&mut self) -> (filled: usize)
        requires
            old(self).wf(),
            old(self).spare_slot() is Some,
        ensures
            final(self).wf(),
            filled == old(self).capture_slot(),
            final(self).capture_slot() == old(self).spare_slot().unwrap(),
            final(self).spare_slot() is None,
            final(self).history() == old(self).history().push(filled),
            final(self).contents(filled) == old(self).contents(filled),
    {
        let filled = self.capture;
        self.capture = 1 - filled;
        self.spare = None;
        self.consumed = Ghost(self.consumed@.push(filled));
        filled
    }

    /// The consumer reads the buffer it was handed and gives it back as
    /// the spare.
    pub fn release(&mut self, filled: usize) -> (r: RawSamples)
        requires
            old(self).wf(),
            old(self).spare_slot() is None,
            filled == 1 - old(self).capture_slot(),
        ensures
            final(self).wf(),
            final(self).capture_slot() == old(self).capture_slot(),
            final(self).spare_slot() == Some(filled),
            final(self).history() == old(self).history(),
            r == (RawSamples {
                current_raw: old(self).contents(filled)[0],
                vout_raw: old(self).contents(filled)[1],
            }),
    {
        let s = self.slots[filled];
        self.spare = Some(filled);
        RawSamples { current_raw: s[0], vout_raw: s[1] }
    }

    /// One DMA completion as the consumer sees it: swap, read, hand back.
    pub fn next_transfer(&mut self) -> (r: RawSamples)
        requires
            old(self).wf(),
            old(self).spare_slot() is Some,
        ensures
            final(self).wf(),
            final(self).capture_slot() == old(self).spare_slot().unwrap(),
            final(self).spare_slot() == Some(old(self).capture_slot()),
            final(self).history() == old(self).history().push(old(self).capture_slot()),
            r == (RawSamples {
                current_raw: old(self).contents(old(self).capture_slot())[0],
                vout_raw: old(self).contents(old(self).capture_slot())[1],
            }),
    {
        let filled = self.complete();
        self.release(filled)
    }
}

/// Buffer ownership alternates: consecutive completions consume different
/// buffers, the one consumed is never the one the capture engine holds, and
/// each consumed buffer is back with the capture engine for the completion
/// after next.
pub proof fn lemma_buffers_alternate(b: SampleBuffers, i: int)
    requires
        b.wf(),
        0 <= i,
        i + 1 < b.history().len(),
    ensures
        b.history()[i] != b.history()[i + 1],
        b.history()[i] < 2,
        b.history()[b.history().len() - 1] != b.capture_slot(),
        i + 2 < b.history().len() ==> b.history()[i] == b.history()[i + 2],
{
    let h = b.history();
    assert(h[i] == i % 2);
    assert(h[i + 1] == (i + 1) % 2);
    assert(h[h.len() - 1] == (h.len() - 1) % 2);
    if i + 2 < h.len() {
        assert(h[i + 2] == (i + 2) % 2);
    }
}

} // verus!
