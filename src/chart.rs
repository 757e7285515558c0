use vstd::prelude::*;
use crate::pixel::{byte_of, MARKER};

verus! {

/// How a channel's pattern moves along the strip.
#[derive(Debug, Clone, Copy, PartialEq, Eq, Structural)]
pub enum DynamicMode {
    Stopped,
    Moving,
    InPlace,
}

/// Byte order in which each packed word is sent.
#[derive(Debug, Clone, Copy, PartialEq, Eq, Structural)]
pub enum Endian {
    Big,
    Little,
}

/// What a chart holds, as mathematical values.
pub struct ChartView {
    /// Per channel: whether its lanes take part in composition.
    pub enabled: Seq<bool>,
    /// Per channel: whether its time accumulator advances after each update.
    pub advancing: Seq<bool>,
    /// Per sample point: the packed pixel word.
    pub mapped: Seq<u32>,
}

/// Channel switches and the packed-pixel buffer of a chart with `WAVEFORMS`
/// channels over `POINTS` sample points.
///
/// Every channel contributes a code per point; `map` OR-accumulates the codes
/// of an enabled channel into the shared packed words, `finalize` stamps the
/// protocol marker and orders the bytes, and `bytes` exposes the result as it
/// goes on the wire.
pub struct Chart<const WAVEFORMS: usize, const POINTS: usize> {
    enabled: Vec<bool>,
    advancing: Vec<bool>,
    mapped: Vec<u32>,
}

/// Holds word `w` so that its bytes, least significant first, come out in
/// order `endian`.
fn hold_word(w: u32, endian: Endian) -> (r: u32)
    ensures
        r == held_word(w, endian),
{
    match endian {
        Endian::Big => ((w & 0xff) << 24) | ((w & 0xff00) << 8) | ((w >> 8) & 0xff00) | (w >> 24),
        Endian::Little => w,
    }
}

impl<const WAVEFORMS: usize, const POINTS: usize> View for Chart<WAVEFORMS, POINTS> {
    type V = ChartView;

    closed spec fn view(&self) -> ChartView {
        ChartView { enabled: self.enabled@, advancing: self.advancing@, mapped: self.mapped@ }
    }
}

/// A sequence of `n` copies of `x`.
pub open spec fn filled<T>(n: int, x: T) -> Seq<T> {
    Seq::new(n as nat, |i: int| x)
}

/// The packed words after OR-ing in one code per point; points past the end
/// of `codes` keep their word.
pub open spec fn or_codes(words: Seq<u32>, codes: Seq<u32>) -> Seq<u32> {
    Seq::new(words.len(), |i: int| if i < codes.len() { words[i] | codes[i] } else { words[i] })
}

/// A chart after mapping `codes` for channel `chart`: only an existing,
/// enabled channel changes anything.
pub open spec fn map_spec(v: ChartView, chart: int, codes: Seq<u32>) -> ChartView {
    if 0 <= chart < v.enabled.len() && v.enabled[chart] {
        ChartView { enabled: v.enabled, advancing: v.advancing, mapped: or_codes(v.mapped, codes) }
    } else {
        v
    }
}

/// A chart after its packed-pixel buffer is zeroed.
pub open spec fn clear_spec(v: ChartView) -> ChartView {
    ChartView {
        enabled: v.enabled,
        advancing: v.advancing,
        mapped: filled(v.mapped.len() as int, 0u32),
    }
}

/// A word with its bytes in reverse order.
pub open spec fn swapped(w: u32) -> u32 {
    ((w & 0xff) << 24u32) | ((w & 0xff00) << 8u32) | ((w >> 8u32) & 0xff00) | (w >> 24u32)
}

/// How a word is held in the buffer so that its bytes, laid out least
/// significant first as on a little-endian target, come out in order `e`.
pub open spec fn held_word(w: u32, e: Endian) -> u32 {
    match e {
        Endian::Big => swapped(w),
        Endian::Little => w,
    }
}

/// The bytes of a held word, least significant first.
pub open spec fn word_bytes(w: u32) -> Seq<u8> {
    seq![byte_of(w, 0), byte_of(w, 1), byte_of(w, 2), byte_of(w, 3)]
}

/// The four bytes that carry word `w` on the wire in order `e`.
pub open spec fn wire_bytes(w: u32, e: Endian) -> Seq<u8> {
    match e {
        Endian::Big => seq![byte_of(w, 3), byte_of(w, 2), byte_of(w, 1), byte_of(w, 0)],
        Endian::Little => word_bytes(w),
    }
}

/// The byte sequence of a buffer of held words: four bytes per word, each word
/// least significant byte first.
pub open spec fn frame_bytes(words: Seq<u32>) -> Seq<u8> {
    Seq::new(4 * words.len(), |n: int| byte_of(words[n / 4], n % 4))
}

/// The buffer after every word gets the marker bits and is held in order `e`.
pub open spec fn finalized(words: Seq<u32>, e: Endian) -> Seq<u32> {
    Seq::new(words.len(), |i: int| held_word(words[i] | MARKER, e))
}

/// Where a word's marker byte (its most significant) stands among its four
/// wire bytes in order `e`.
pub open spec fn marker_index(e: Endian) -> int {
    match e {
        Endian::Big => 0,
        Endian::Little => 3,
    }
}

/// The chart after a sequence of `map` calls, each a channel and its codes,
/// applied in order.
pub open spec fn apply_maps(v: ChartView, ops: Seq<(int, Seq<u32>)>) -> ChartView
    decreases ops.len(),
{
    if ops.len() == 0 {
        v
    } else {
        map_spec(apply_maps(v, ops.drop_last()), ops.last().0, ops.last().1)
    }
}

/// The word at point `i` composed from zero: the OR of the codes that the
/// enabled channels among `ops` give for that point.
pub open spec fn composed_word(enabled: Seq<bool>, ops: Seq<(int, Seq<u32>)>, i: int) -> u32
    decreases ops.len(),
{
    if ops.len() == 0 {
        0
    } else {
        let prev = composed_word(enabled, ops.drop_last(), i);
        let c = ops.last().0;
        let codes = ops.last().1;
        if 0 <= c < enabled.len() && enabled[c] && i < codes.len() {
            prev | codes[i]
        } else {
            prev
        }
    }
}

proof fn lemma_held_word_bytes(w: u32, e: Endian)
    ensures
        word_bytes(held_word(w, e)) == wire_bytes(w, e),
{
    let s = swapped(w);
    assert((s >> 0u32) & 0xff == (w >> 24u32) & 0xff && (s >> 8u32) & 0xff == (w >> 16u32) & 0xff
        && (s >> 16u32) & 0xff == (w >> 8u32) & 0xff && (s >> 24u32) & 0xff == (w >> 0u32) & 0xff)
        by (bit_vector)
        requires
            s == ((w & 0xff) << 24u32) | ((w & 0xff00) << 8u32) | ((w >> 8u32) & 0xff00) | (w
                >> 24u32),
    ;
    assert(word_bytes(held_word(w, e)) =~= wire_bytes(w, e));
}

/// `finalize` marks every word, whatever it held before: each word's four
/// bytes in the output are the word with its three most significant bits set,
/// in the requested byte order, so the marker byte (first on the wire in
/// big-endian order, last in little-endian order) always has its top three
/// bits set.
pub proof fn lemma_finalize_marks_every_word(words: Seq<u32>, e: Endian)
    ensures
        forall|i: int|
            0 <= i < words.len() ==> #[trigger] frame_bytes(finalized(words, e)).subrange(
                4 * i,
                4 * i + 4,
            ) == wire_bytes(words[i] | MARKER, e),
        forall|i: int|
            0 <= i < words.len() ==> #[trigger] frame_bytes(finalized(words, e))[4 * i
                + marker_index(e)] & 0xE0 == 0xE0,
{
    let f = finalized(words, e);
    let out = frame_bytes(f);
    assert forall|i: int| 0 <= i < words.len() implies #[trigger] out.subrange(4 * i, 4 * i + 4)
        == wire_bytes(words[i] | MARKER, e) && out[4 * i + marker_index(e)] & 0xE0 == 0xE0 by {
        let m = words[i] | MARKER;
        lemma_held_word_bytes(m, e);
        assert forall|k: int| 0 <= k < 4 implies out[4 * i + k] == word_bytes(f[i])[k] by {
            assert((4 * i + k) / 4 == i);
            assert((4 * i + k) % 4 == k);
        }
        assert(out.subrange(4 * i, 4 * i + 4) =~= word_bytes(f[i]));
        let x = words[i];
        assert((((x | 0xE000_0000u32) >> 24u32) & 0xff) as u8 & 0xE0u8 == 0xE0u8) by (bit_vector);
        assert(byte_of(m, 3) == (((x | 0xE000_0000u32) >> 24u32) & 0xff) as u8);
        assert(out[4 * i + marker_index(e)] == wire_bytes(m, e)[marker_index(e)]);
    }
    assert forall|i: int| 0 <= i < words.len() implies #[trigger] out[4 * i + marker_index(e)]
        & 0xE0 == 0xE0 by {
        assert(out.subrange(4 * i, 4 * i + 4) == wire_bytes(words[i] | MARKER, e));
    }
}

/// Mapping two channels commutes: channel `a` then channel `b` leaves the same
/// chart as `b` then `a`. Composition is a bitwise OR, so with codes in
/// disjoint lanes each channel's lane comes out the same in either order.
pub proof fn lemma_map_commutes(
    v: ChartView,
    a: int,
    codes_a: Seq<u32>,
    b: int,
    codes_b: Seq<u32>,
)
    ensures
        map_spec(map_spec(v, a, codes_a), b, codes_b) == map_spec(
            map_spec(v, b, codes_b),
            a,
            codes_a,
        ),
{
    let ab = map_spec(map_spec(v, a, codes_a), b, codes_b);
    let ba = map_spec(map_spec(v, b, codes_b), a, codes_a);
    assert forall|i: int| 0 <= i < v.mapped.len() implies ab.mapped[i] == ba.mapped[i] by {
        let w = v.mapped[i];
        if i < codes_a.len() && i < codes_b.len() {
            let x = codes_a[i];
            let y = codes_b[i];
            assert((w | x) | y == (w | y) | x) by (bit_vector);
        }
    }
    assert(ab.mapped =~= ba.mapped);
}

/// Clearing the buffer and then mapping any sequence of channels gives the
/// same chart as composing from an all-zero buffer: every word is the OR of the
/// codes that the enabled channels gave for its point, whatever the buffer held
/// before.
pub proof fn lemma_clear_then_maps(v: ChartView, ops: Seq<(int, Seq<u32>)>)
    ensures
        apply_maps(clear_spec(v), ops) == (ChartView {
            enabled: v.enabled,
            advancing: v.advancing,
            mapped: Seq::new(v.mapped.len(), |i: int| composed_word(v.enabled, ops, i)),
        }),
    decreases ops.len(),
{
    let target = Seq::new(v.mapped.len(), |i: int| composed_word(v.enabled, ops, i));
    if ops.len() == 0 {
        assert(clear_spec(v).mapped =~= target);
    } else {
        lemma_clear_then_maps(v, ops.drop_last());
        let r = apply_maps(clear_spec(v), ops);
        assert(r.mapped =~= target);
    }
}

impl<const WAVEFORMS: usize, const POINTS: usize> Chart<WAVEFORMS, POINTS> {
    /// Every array has its fixed size, and the buffer's bytes can be counted
    /// in a `usize`.
    pub open spec fn wf(&self) -> bool {
        &&& self@.enabled.len() == WAVEFORMS
        &&& self@.advancing.len() == WAVEFORMS
        &&& self@.mapped.len() == POINTS
        &&& 4 * POINTS <= usize::MAX
    }

    /// A chart with every channel enabled and advancing in time, and an empty
    /// packed-pixel buffer.
    pub fn new() -> (r: Self)
        requires
            4 * POINTS <= usize::MAX,
        ensures
            r.wf(),
            r@.enabled == filled(WAVEFORMS as int, true),
            r@.advancing == filled(WAVEFORMS as int, true),
            r@.mapped == filled(POINTS as int, 0u32),
    {
        let mut enabled: Vec<bool> = Vec::new();
        let mut advancing: Vec<bool> = Vec::new();
        let mut j: usize = 0;
        while j < WAVEFORMS
            invariant
                j <= WAVEFORMS,
                enabled@ == filled(j as int, true),
                advancing@ == filled(j as int, true),
            decreases WAVEFORMS - j,
        {
            enabled.push(true);
            advancing.push(true);
            j += 1;
            assert(enabled@ =~= filled(j as int, true));
            assert(advancing@ =~= filled(j as int, true));
        }
        let mut mapped: Vec<u32> = Vec::new();
        let mut i: usize = 0;
        while i < POINTS
            invariant
                i <= POINTS,
                mapped@ == filled(i as int, 0u32),
            decreases POINTS - i,
        {
            mapped.push(0);
            i += 1;
            assert(mapped@ =~= filled(i as int, 0u32));
        }
        Chart { enabled, advancing, mapped }
    }

    /// Enables or disables channel `chart` for composition; an index past the
    /// last channel changes nothing.
    pub fn set_enabled(&mut self, chart: usize, on: bool)
        requires
            old(self).wf(),
        ensures
            final(self).wf(),
            chart < WAVEFORMS ==> final(self)@ == (ChartView {
                enabled: old(self)@.enabled.update(chart as int, on),
                ..old(self)@
            }),
            chart >= WAVEFORMS ==> final(self)@ == old(self)@,
    {
        if chart < WAVEFORMS {
            self.enabled.set(chart, on);
        }
    }

    /// Whether channel `chart` exists and is enabled.
    pub fn is_enabled(&self, chart: usize) -> (r: bool)
        requires
            self.wf(),
        ensures
            r == (chart < WAVEFORMS && self@.enabled[chart as int]),
    {
        chart < WAVEFORMS && self.enabled[chart]
    }

    /// Sets whether channel `chart`'s time advances after each update; an
    /// index past the last channel changes nothing.
    pub fn set_time_advance(&mut self, chart: usize, on: bool)
        requires
            old(self).wf(),
        ensures
            final(self).wf(),
            chart < WAVEFORMS ==> final(self)@ == (ChartView {
                advancing: old(self)@.advancing.update(chart as int, on),
                ..old(self)@
            }),
            chart >= WAVEFORMS ==> final(self)@ == old(self)@,
    {
        if chart < WAVEFORMS {
            self.advancing.set(chart, on);
        }
    }

    /// Whether channel `chart` exists and its time advances after each update.
    pub fn advances_time(&self, chart: usize) -> (r: bool)
        requires
            self.wf(),
        ensures
            r == (chart < WAVEFORMS && self@.advancing[chart as int]),
    {
        chart < WAVEFORMS && self.advancing[chart]
    }

    /// Zeroes the packed-pixel buffer, to begin composing a fresh frame.
    pub fn clear_mapped(&mut self)
        requires
            old(self).wf(),
        ensures
            final(self).wf(),
            final(self)@ == clear_spec(old(self)@),
    {
        let ghost before = self.mapped@;
        let mut i: usize = 0;
        while i < POINTS
            invariant
                self.wf(),
                i <= POINTS,
                self.enabled@ == old(self).enabled@,
                self.advancing@ == old(self).advancing@,
                forall|k: int| 0 <= k < i ==> self.mapped@[k] == 0,
            decreases POINTS - i,
        {
            self.mapped.set(i, 0);
            i += 1;
        }
        assert(self.mapped@ =~= filled(POINTS as int, 0u32));
    }

    /// The packed-pixel buffer.
    pub fn mapped(&self) -> (r: &[u32])
        ensures
            r@ == self@.mapped,
    {
        self.mapped.as_slice()
    }

    /// Copies the packed-pixel buffer into the front of `m`.
    pub fn mapped_from(&self, m: &mut [u32])
        requires
            self.wf(),
            old(m)@.len() >= POINTS,
        ensures
            final(m)@ == self@.mapped + old(m)@.subrange(POINTS as int, old(m)@.len() as int),
    {
        let mut i: usize = 0;
        while i < POINTS
            invariant
                self.wf(),
                i <= POINTS,
                (*m)@.len() == old(m)@.len(),
                old(m)@.len() >= POINTS,
                forall|k: int| 0 <= k < i ==> (*m)@[k] == self@.mapped[k],
                forall|k: int| i <= k < (*m)@.len() ==> (*m)@[k] == old(m)@[k],
            decreases POINTS - i,
        {
            let v = self.mapped[i];
            m[i] = v;
            i += 1;
        }
        assert((*m)@ =~= self@.mapped + old(m)@.subrange(POINTS as int, old(m)@.len() as int));
    }

    /// OR-accumulates one code per point for channel `chart` into the packed
    /// words (`mapped[i] |= codes[i]`); points past the end of `codes` keep their
    /// word. A channel that does not exist or is disabled changes nothing.
    pub fn map(&mut self, chart: usize, codes: &[u32])
        requires
            old(self).wf(),
        ensures
            final(self).wf(),
            final(self)@ == map_spec(old(self)@, chart as int, codes@),
    {
        if chart >= WAVEFORMS || !self.enabled[chart] {
            return ;
        }
        let mut i: usize = 0;
        while i < POINTS
            invariant
                self.wf(),
                i <= POINTS,
                self.enabled@ == old(self).enabled@,
                self.advancing@ == old(self).advancing@,
                old(self).wf(),
                forall|k: int|
                    0 <= k < i ==> self.mapped@[k] == or_codes(old(self).mapped@, codes@)[k],
                forall|k: int| i <= k < POINTS ==> self.mapped@[k] == old(self).mapped@[k],
            decreases POINTS - i,
        {
            if i < codes.len() {
                let w = self.mapped[i] | codes[i];
                self.mapped.set(i, w);
            }
            i += 1;
        }
        assert(self.mapped@ =~= or_codes(old(self).mapped@, codes@));
    }

    /// Stamps the protocol marker (the three most significant bits) on every
    /// packed word and holds it so that its bytes go out in order `endian`.
    pub fn finalize(&mut self, endian: Endian)
        requires
            old(self).wf(),
        ensures
            final(self).wf(),
            final(self)@ == (ChartView {
                mapped: finalized(old(self)@.mapped, endian),
                ..old(self)@
            }),
            forall|i: int|
                0 <= i < POINTS ==> #[trigger] frame_bytes(final(self)@.mapped).subrange(
                    4 * i,
                    4 * i + 4,
                ) == wire_bytes(old(self)@.mapped[i] | MARKER, endian),
    {
        let mut i: usize = 0;
        while i < POINTS
            invariant
                self.wf(),
                i <= POINTS,
                self.enabled@ == old(self).enabled@,
                self.advancing@ == old(self).advancing@,
                old(self).wf(),
                forall|k: int|
                    0 <= k < i ==> self.mapped@[k] == finalized(old(self).mapped@, endian)[k],
                forall|k: int| i <= k < POINTS ==> self.mapped@[k] == old(self).mapped@[k],
            decreases POINTS - i,
        {
            let w = hold_word(self.mapped[i] | MARKER, endian);
            self.mapped.set(i, w);
            i += 1;
        }
        assert(self.mapped@ =~= finalized(old(self).mapped@, endian));
        proof {
            lemma_finalize_marks_every_word(old(self)@.mapped, endian);
        }
    }

    /// The packed-pixel buffer as bytes, `4 * POINTS` of them, each word least
    /// significant byte first (the layout of the words in memory on a
    /// little-endian target), so that after `finalize` every word reads in the
    /// byte order it was finalized with.
    pub fn bytes(&self) -> (r: Vec<u8>)
        requires
            self.wf(),
        ensures
            r@ == frame_bytes(self@.mapped),
    {
        let mut r: Vec<u8> = Vec::new();
        let mut i: usize = 0;
        while i < POINTS
            invariant
                self.wf(),
                i <= POINTS,
                r@.len() == 4 * i,
                forall|n: int| 0 <= n < 4 * i ==> r@[n] == byte_of(self@.mapped[n / 4], n % 4),
            decreases POINTS - i,
        {
            let w = self.mapped[i];
            r.push((w & 0xff) as u8);
            r.push(((w >> 8) & 0xff) as u8);
            r.push(((w >> 16) & 0xff) as u8);
            r.push(((w >> 24) & 0xff) as u8);
            let ghost b = 4 * i as int;
            assert(w >> 0u32 == w) by (bit_vector);
            assert(r@[b] == byte_of(w, 0));
            assert(r@[b + 1] == byte_of(w, 1));
            assert(r@[b + 2] == byte_of(w, 2));
            assert(r@[b + 3] == byte_of(w, 3));
            assert forall|n: int| 0 <= n < 4 * (i + 1) implies r@[n] == byte_of(
                self@.mapped[n / 4],
                n % 4,
            ) by {
                if n >= 4 * i {
                    assert(n / 4 == i as int);
                    assert(n % 4 == n - b);
                }
            }
            i += 1;
        }
        assert(r@ =~= frame_bytes(self@.mapped));
        r
    }
}

} // verus!
