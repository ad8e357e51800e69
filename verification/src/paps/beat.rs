//! The beat chase: a tempo, tapped or configured, and palettes to step through.

use vstd::prelude::*;

use crate::actions::{
    effects, no_actions, one, osc, push_osc, sends, values_in_range, zero, Action, Effect, OscValue,
};

verus! {

/// Taps older than this many nanoseconds (three seconds) are forgotten.
pub const TAP_WINDOW_NANOS: u64 = 3_000_000_000;

/// The tempo follows this many taps at most.
pub const TAPS_KEPT: usize = 4;

/// A beat page.
#[derive(Clone, Debug)]
pub struct BeatConfig {
    /// OSC addresses of the fixtures that the chase goes through.
    pub rgb_addresses: Vec<String>,
    /// Beats per minute before any tap, by the bits of the single precision number.
    pub default_bpm: u32,
    /// Each palette is a sequence of palette colours.
    pub palettes: Vec<Vec<u8>>,
}

/// The tempo.
#[derive(Clone, Debug)]
pub enum Tempo {
    /// Beats per minute from the configuration, by the bits of the single
    /// precision number.
    Configured { bits: u32 },
    /// A beat lasts as long as the mean of these intervals, given in nanoseconds.
    Tapped { intervals: Vec<u64> },
}

/// The model of a tempo.
#[verifier::ext_equal]
pub enum TempoModel {
    Configured { bits: u32 },
    Tapped { intervals: Seq<u64> },
}

impl View for Tempo {
    type V = TempoModel;

    open spec fn view(&self) -> TempoModel {
        match *self {
            Tempo::Configured { bits } => TempoModel::Configured { bits },
            Tempo::Tapped { intervals } => TempoModel::Tapped { intervals: intervals@ },
        }
    }
}

/// A running chase.
#[derive(Debug)]
pub struct BeatState {
    pub tempo: Tempo,
    /// Index into the active palette.
    pub step: usize,
    /// Which palette is active.
    pub palette_idx: usize,
    /// The fixture that is lit next.
    pub fixture: usize,
    /// The times of the last taps, in nanoseconds.
    pub taps: Vec<u64>,
    pub rgb_addresses: Vec<String>,
    pub palettes: Vec<Vec<u8>>,
}

/// The model of a chase.
#[verifier::ext_equal]
pub struct BeatModel {
    pub tempo: TempoModel,
    pub step: int,
    pub palette_idx: int,
    pub fixture: int,
    pub taps: Seq<u64>,
    pub addresses: Seq<Seq<char>>,
    pub palettes: Seq<Seq<u8>>,
}

/// The view of a list of addresses.
pub open spec fn addresses_view(addresses: Seq<String>) -> Seq<Seq<char>> {
    addresses.map_values(|address: String| address@)
}

/// The view of a list of palettes.
pub open spec fn palettes_view(palettes: Seq<Vec<u8>>) -> Seq<Seq<u8>> {
    palettes.map_values(|palette: Vec<u8>| palette@)
}

impl View for BeatState {
    type V = BeatModel;

    open spec fn view(&self) -> BeatModel {
        BeatModel {
            tempo: self.tempo@,
            step: self.step as int,
            palette_idx: self.palette_idx as int,
            fixture: self.fixture as int,
            taps: self.taps@,
            addresses: addresses_view(self.rgb_addresses@),
            palettes: palettes_view(self.palettes@),
        }
    }
}

/// A chase as it starts: the configured tempo, the start of the first palette, the
/// first fixture.
pub open spec fn beat_started(config: BeatConfig) -> BeatModel {
    BeatModel {
        tempo: TempoModel::Configured { bits: config.default_bpm },
        step: 0,
        palette_idx: 0,
        fixture: 0,
        taps: Seq::empty(),
        addresses: addresses_view(config.rgb_addresses@),
        palettes: palettes_view(config.palettes@),
    }
}

/// Whether a tap is less than three seconds old.
pub open spec fn is_recent(now: u64) -> spec_fn(u64) -> bool {
    |tap: u64| now < tap + TAP_WINDOW_NANOS
}

/// The last elements of a sequence, at most four.
pub open spec fn last_taps(taps: Seq<u64>) -> Seq<u64> {
    if taps.len() <= TAPS_KEPT {
        taps
    } else {
        taps.skip(taps.len() - TAPS_KEPT)
    }
}

/// The taps that count after a tap at time `now`.
pub open spec fn taps_after(taps: Seq<u64>, now: u64) -> Seq<u64> {
    last_taps(taps.filter(is_recent(now)).push(now))
}

/// The time from one moment to a later one; 0 where the other one is earlier.
pub open spec fn interval(from: u64, to: u64) -> u64 {
    if from <= to {
        (to - from) as u64
    } else {
        0
    }
}

/// The intervals between successive taps.
pub open spec fn intervals_of(taps: Seq<u64>) -> Seq<u64> {
    Seq::new((taps.len() - 1) as nat, |i: int| interval(taps[i], taps[i + 1]))
}

impl BeatModel {
    /// At most four taps are kept, and the palette and the fixture exist where there
    /// is one.
    pub open spec fn wf(self) -> bool {
        &&& self.taps.len() <= TAPS_KEPT
        &&& 0 <= self.step < usize::MAX
        &&& 0 <= self.palette_idx
        &&& self.palettes.len() <= usize::MAX
        &&& if self.palettes.len() == 0 {
            self.palette_idx == 0
        } else {
            self.palette_idx < self.palettes.len()
        }
        &&& 0 <= self.fixture
        &&& self.addresses.len() <= usize::MAX
        &&& if self.addresses.len() == 0 {
            self.fixture == 0
        } else {
            self.fixture < self.addresses.len()
        }
        &&& forall|i: int|
            0 <= i < self.palettes.len() ==> (#[trigger] self.palettes[i]).len() <= usize::MAX
    }

    /// The palette that is active; empty where there is none.
    pub open spec fn palette(self) -> Seq<u8> {
        if self.palettes.len() == 0 {
            Seq::empty()
        } else {
            self.palettes[self.palette_idx % self.palettes.len() as int]
        }
    }

    /// The colour of the next beat; 0 for an empty palette.
    pub open spec fn next_color(self) -> u8 {
        if self.palette().len() == 0 {
            0
        } else {
            self.palette()[self.step % self.palette().len() as int]
        }
    }

    /// One step on in the palette, round and round.
    pub open spec fn stepped(self) -> BeatModel {
        if self.palette().len() == 0 {
            self
        } else {
            BeatModel { step: (self.step + 1) % self.palette().len() as int, ..self }
        }
    }

    /// One beat on: the next colour of the palette, and the next fixture.
    pub open spec fn beaten(self) -> BeatModel {
        let next = self.stepped();
        if self.addresses.len() == 0 {
            next
        } else {
            BeatModel { fixture: (self.fixture + 1) % self.addresses.len() as int, ..next }
        }
    }

    /// A tap: with two taps that count, the tempo follows them.
    pub open spec fn tapped(self, now: u64) -> BeatModel {
        let taps = taps_after(self.taps, now);
        BeatModel {
            taps,
            tempo: if taps.len() >= 2 {
                TempoModel::Tapped { intervals: intervals_of(taps) }
            } else {
                self.tempo
            },
            ..self
        }
    }

    /// The next palette, round and round.
    pub open spec fn next_palette(self) -> BeatModel {
        if self.palettes.len() == 0 {
            self
        } else {
            BeatModel { palette_idx: (self.palette_idx + 1) % self.palettes.len() as int, ..self }
        }
    }

    /// The palette before, round and round.
    pub open spec fn previous_palette(self) -> BeatModel {
        if self.palettes.len() == 0 {
            self
        } else {
            BeatModel {
                palette_idx: if self.palette_idx == 0 {
                    self.palettes.len() - 1
                } else {
                    self.palette_idx - 1
                },
                ..self
            }
        }
    }

    /// The messages of a beat: the current fixture is fully on, and all others are off.
    /// Which colour that is, is up to the scenes of QLC+.
    pub open spec fn beat_messages(self) -> Seq<Effect> {
        Seq::new(
            self.addresses.len(),
            |i: int|
                osc(
                    self.addresses[i],
                    if i == self.fixture {
                        one()
                    } else {
                        zero()
                    },
                ),
        )
    }
}

/// A copy of a list of texts.
fn copy_texts(texts: &Vec<String>) -> (copy: Vec<String>)
    ensures
        addresses_view(copy@) == addresses_view(texts@),
{
    let mut copy: Vec<String> = Vec::new();
    let mut i: usize = 0;
    while i < texts.len()
        invariant
            i <= texts@.len(),
            copy@.len() == i,
            forall|j: int| 0 <= j < i ==> (#[trigger] copy@[j])@ == texts@[j]@,
        decreases texts@.len() - i,
    {
        copy.push(texts[i].clone());
        i = i + 1;
    }
    assert(addresses_view(copy@) =~= addresses_view(texts@));
    copy
}

/// A copy of a list of bytes.
fn copy_bytes(bytes: &Vec<u8>) -> (copy: Vec<u8>)
    ensures
        copy@ == bytes@,
{
    let mut copy: Vec<u8> = Vec::new();
    let mut i: usize = 0;
    while i < bytes.len()
        invariant
            i <= bytes@.len(),
            copy@ == bytes@.take(i as int),
        decreases bytes@.len() - i,
    {
        copy.push(bytes[i]);
        i = i + 1;
        assert(copy@ =~= bytes@.take(i as int));
    }
    assert(bytes@.take(i as int) =~= bytes@);
    copy
}

/// A copy of a list of palettes.
fn copy_palettes(palettes: &Vec<Vec<u8>>) -> (copy: Vec<Vec<u8>>)
    ensures
        palettes_view(copy@) == palettes_view(palettes@),
{
    let mut copy: Vec<Vec<u8>> = Vec::new();
    let mut i: usize = 0;
    while i < palettes.len()
        invariant
            i <= palettes@.len(),
            copy@.len() == i,
            forall|j: int| 0 <= j < i ==> (#[trigger] copy@[j])@ == palettes@[j]@,
        decreases palettes@.len() - i,
    {
        copy.push(copy_bytes(&palettes[i]));
        i = i + 1;
    }
    assert(palettes_view(copy@) =~= palettes_view(palettes@));
    copy
}

impl BeatState {
    /// A chase as it starts.
    pub fn new(config: &BeatConfig) -> (state: BeatState)
        ensures
            state@ == beat_started(*config),
            state@.wf(),
    {
        let state = BeatState {
            tempo: Tempo::Configured { bits: config.default_bpm },
            step: 0,
            palette_idx: 0,
            fixture: 0,
            taps: Vec::new(),
            rgb_addresses: copy_texts(&config.rgb_addresses),
            palettes: copy_palettes(&config.palettes),
        };
        assert(state@ =~= beat_started(*config));
        proof {
            law_start_is_valid(*config);
        }
        state
    }

    /// Registers a tap at time `now`, in nanoseconds, and follows the last four
    /// taps that are less than three seconds old.
    pub fn tap(&mut self, now: u64)
        requires
            old(self)@.wf(),
        ensures
            final(self)@ == old(self)@.tapped(now),
            final(self)@.wf(),
    {
        let ghost before = self.taps@;
        let mut recent: Vec<u64> = Vec::new();
        let mut i: usize = 0;
        proof {
            reveal(Seq::filter);
            assert(before.take(0).filter(is_recent(now)) =~= Seq::empty());
        }
        while i < self.taps.len()
            invariant
                i <= self.taps@.len(),
                self.taps@ == before,
                *self == *old(self),
                recent@ == before.take(i as int).filter(is_recent(now)),
            decreases self.taps@.len() - i,
        {
            let t: u64 = self.taps[i];
            proof {
                reveal(Seq::filter);
                assert(before.take(i + 1).drop_last() =~= before.take(i as int));
            }
            if now.saturating_sub(t) < TAP_WINDOW_NANOS {
                recent.push(t);
            }
            i = i + 1;
        }
        assert(before.take(i as int) =~= before);
        recent.push(now);
        let ghost pushed = before.filter(is_recent(now)).push(now);
        let skipped: usize = if recent.len() <= TAPS_KEPT {
            0
        } else {
            recent.len() - TAPS_KEPT
        };
        let mut taps: Vec<u64> = Vec::new();
        let mut k: usize = skipped;
        while k < recent.len()
            invariant
                skipped <= k <= recent@.len(),
                taps@ == recent@.subrange(skipped as int, k as int),
            decreases recent@.len() - k,
        {
            taps.push(recent[k]);
            k = k + 1;
            assert(taps@ =~= recent@.subrange(skipped as int, k as int));
        }
        assert(taps@ =~= last_taps(pushed));
        if taps.len() >= 2 {
            let mut intervals: Vec<u64> = Vec::new();
            let mut m: usize = 1;
            while m < taps.len()
                invariant
                    1 <= m <= taps@.len(),
                    intervals@ == intervals_of(taps@).take(m - 1),
                decreases taps@.len() - m,
            {
                intervals.push(taps[m].saturating_sub(taps[m - 1]));
                m = m + 1;
                assert(intervals@ =~= intervals_of(taps@).take(m - 1));
            }
            assert(intervals@ =~= intervals_of(taps@));
            self.tempo = Tempo::Tapped { intervals };
        }
        self.taps = taps;
    }

    /// The palette that is active; empty where there is none.
    pub fn active_palette(&self) -> (palette: &[u8])
        requires
            self@.wf(),
        ensures
            palette@ == self@.palette(),
    {
        if self.palettes.len() == 0 {
            let none: &[u8] = &[];
            assert(none@ =~= Seq::empty());
            return none;
        }
        let index: usize = self.palette_idx % self.palettes.len();
        assert(self@.palettes[index as int] == self.palettes@[index as int]@);
        self.palettes[index].as_slice()
    }

    /// The colour of the next beat, and one step on in the palette.
    pub fn next_step_color(&mut self) -> (color: u8)
        requires
            old(self)@.wf(),
        ensures
            color == old(self)@.next_color(),
            final(self)@ == old(self)@.stepped(),
            final(self)@.wf(),
            final(self).rgb_addresses == old(self).rgb_addresses,
    {
        let palette = self.active_palette();
        if palette.len() == 0 {
            return 0;
        }
        let color: u8 = palette[self.step % palette.len()];
        let next: usize = (self.step + 1) % palette.len();
        self.step = next;
        color
    }

    /// The next palette.
    pub fn next_palette(&mut self)
        requires
            old(self)@.wf(),
        ensures
            final(self)@ == old(self)@.next_palette(),
            final(self)@.wf(),
    {
        if self.palettes.len() != 0 {
            self.palette_idx = (self.palette_idx + 1) % self.palettes.len();
        }
    }

    /// The palette before.
    pub fn previous_palette(&mut self)
        requires
            old(self)@.wf(),
        ensures
            final(self)@ == old(self)@.previous_palette(),
            final(self)@.wf(),
    {
        if self.palettes.len() != 0 {
            self.palette_idx = if self.palette_idx == 0 {
                self.palettes.len() - 1
            } else {
                self.palette_idx - 1
            };
        }
    }

    /// One beat: what to send, and one beat on.
    pub fn tick(&mut self) -> (actions: Vec<Action>)
        requires
            old(self)@.wf(),
        ensures
            effects(actions@) == old(self)@.beat_messages(),
            final(self)@ == old(self)@.beaten(),
            final(self)@.wf(),
    {
        let ghost target = self@.beat_messages();
        let _ = self.next_step_color();
        let mut actions = no_actions();
        let mut i: usize = 0;
        assert(target.take(0) =~= Seq::empty());
        while i < self.rgb_addresses.len()
            invariant
                i <= self.rgb_addresses@.len(),
                self@ == old(self)@.stepped(),
                self@.wf(),
                self.rgb_addresses == old(self).rgb_addresses,
                target == old(self)@.beat_messages(),
                effects(actions@) == target.take(i as int),
            decreases self.rgb_addresses@.len() - i,
        {
            let value: OscValue = if i == self.fixture {
                OscValue::Ratio { num: 1, den: 1 }
            } else {
                OscValue::Ratio { num: 0, den: 1 }
            };
            push_osc(&mut actions, &self.rgb_addresses[i], value);
            i = i + 1;
            assert(effects(actions@) =~= target.take(i as int));
        }
        assert(target.take(i as int) =~= target);
        if self.rgb_addresses.len() != 0 {
            self.fixture = (self.fixture + 1) % self.rgb_addresses.len();
        }
        actions
    }
}

/// A chase as it starts is valid, whatever the configuration is.
pub proof fn law_start_is_valid(config: BeatConfig)
    ensures
        beat_started(config).wf(),
{
    broadcast use vstd::std_specs::vec::axiom_spec_len;

    let model = beat_started(config);
    assert(config.palettes.len() <= usize::MAX);
    assert(config.rgb_addresses.len() <= usize::MAX);
    assert forall|i: int| 0 <= i < model.palettes.len() implies (
    #[trigger] model.palettes[i]).len() <= usize::MAX by {
        assert(config.palettes@[i].len() <= usize::MAX);
    }
}

/// After a tap at most four taps count, the last of them is the new one, all of
/// them are less than three seconds old, and the tempo has one interval less.
pub proof fn law_taps(model: BeatModel, now: u64)
    requires
        model.wf(),
    ensures
        1 <= model.tapped(now).taps.len() <= TAPS_KEPT,
        model.tapped(now).taps.last() == now,
        forall|i: int|
            0 <= i < model.tapped(now).taps.len() ==> now < #[trigger] model.tapped(now).taps[i]
                + TAP_WINDOW_NANOS,
        model.tapped(now).taps.len() >= 2 ==> (model.tapped(now).tempo matches TempoModel::Tapped {
            intervals,
        } && intervals.len() == model.tapped(now).taps.len() - 1),
        model.tapped(now).taps.len() < 2 ==> model.tapped(now).tempo == model.tempo,
{
    let recent = model.taps.filter(is_recent(now));
    let pushed = recent.push(now);
    let taps = model.tapped(now).taps;
    assert forall|i: int| 0 <= i < taps.len() implies now < #[trigger] taps[i]
        + TAP_WINDOW_NANOS by {
        let k = i + pushed.len() - taps.len();
        assert(taps[i] == pushed[k]);
        if k < recent.len() {
            broadcast use vstd::seq_lib::group_filter_ensures;

            assert(is_recent(now)(recent[k]));
        }
    }
}

/// Going to the next palette and back, or back and on again, changes nothing.
pub proof fn law_palettes_go_round(model: BeatModel)
    requires
        model.wf(),
    ensures
        model.next_palette().previous_palette() == model,
        model.previous_palette().next_palette() == model,
        model.next_palette().wf(),
        model.previous_palette().wf(),
{
    if model.palettes.len() > 0 {
        let n = model.palettes.len() as int;
        if model.palette_idx == n - 1 {
            assert((model.palette_idx + 1) % n == 0) by {
                vstd::arithmetic::div_mod::lemma_mod_self_0(n);
            }
        } else {
            vstd::arithmetic::div_mod::lemma_small_mod((model.palette_idx + 1) as nat, n as nat);
        }
        let back = model.previous_palette();
        if model.palette_idx == 0 {
            vstd::arithmetic::div_mod::lemma_mod_self_0(n);
        } else {
            vstd::arithmetic::div_mod::lemma_small_mod(model.palette_idx as nat, n as nat);
        }
    }
}

/// The chase after `n` beats.
pub open spec fn after_beats(model: BeatModel, n: nat) -> BeatModel
    decreases n,
{
    if n == 0 {
        model
    } else {
        after_beats(model, (n - 1) as nat).beaten()
    }
}

/// Beat after beat the chase goes through the palette in order, round and round.
pub proof fn law_chase_goes_round(model: BeatModel, n: nat)
    requires
        model.wf(),
        model.palette().len() > 0,
    ensures
        after_beats(model, n).palette() == model.palette(),
        after_beats(model, n).next_color() == model.palette()[(model.step + n)
            % model.palette().len() as int],
        after_beats(model, n).wf(),
    decreases n,
{
    let len = model.palette().len() as int;
    if n > 0 {
        let before = after_beats(model, (n - 1) as nat);
        law_chase_goes_round(model, (n - 1) as nat);
        lemma_steps(model, n);
        vstd::arithmetic::div_mod::lemma_mod_twice(model.step + n, len);
        vstd::arithmetic::div_mod::lemma_mod_bound(model.step + n, len);
    }
}

/// The step after at least one beat.
proof fn lemma_steps(model: BeatModel, n: nat)
    requires
        model.wf(),
        model.palette().len() > 0,
        n > 0,
    ensures
        after_beats(model, n).step == (model.step + n) % model.palette().len() as int,
        after_beats(model, n).palette() == model.palette(),
    decreases n,
{
    let len = model.palette().len() as int;
    if n == 1 {
        assert(after_beats(model, 0) == model);
    } else {
        lemma_steps(model, (n - 1) as nat);
        vstd::arithmetic::div_mod::lemma_add_mod_noop(model.step + n - 1, 1, len);
        vstd::arithmetic::div_mod::lemma_add_mod_noop((model.step + n - 1) % len, 1, len);
        vstd::arithmetic::div_mod::lemma_mod_twice(model.step + n - 1, len);
    }
}

/// Beat after beat the fixtures are lit one at a time, in order, round and round.
pub proof fn law_fixtures_take_turns(model: BeatModel, n: nat)
    requires
        model.wf(),
        model.addresses.len() > 0,
    ensures
        after_beats(model, n).addresses == model.addresses,
        after_beats(model, n).fixture == (model.fixture + n) % model.addresses.len() as int,
        forall|i: int|
            0 <= i < model.addresses.len() && i != after_beats(model, n).fixture
                ==> #[trigger] after_beats(model, n).beat_messages()[i] == osc(
                model.addresses[i],
                zero(),
            ),
    decreases n,
{
    let len = model.addresses.len() as int;
    if n == 0 {
        vstd::arithmetic::div_mod::lemma_small_mod(model.fixture as nat, len as nat);
    } else {
        law_fixtures_take_turns(model, (n - 1) as nat);
        vstd::arithmetic::div_mod::lemma_add_mod_noop(model.fixture + n - 1, 1, len);
        vstd::arithmetic::div_mod::lemma_add_mod_noop((model.fixture + n - 1) % len, 1, len);
        vstd::arithmetic::div_mod::lemma_mod_twice(model.fixture + n - 1, len);
    }
}

/// A beat has one message for every fixture, 1 for the current one and 0 for all
/// others.
pub proof fn law_beat_values(model: BeatModel, i: int)
    requires
        model.wf(),
        0 <= i < model.addresses.len(),
    ensures
        model.beat_messages().len() == model.addresses.len(),
        model.beat_messages()[i] == osc(
            model.addresses[i],
            if i == model.fixture {
                one()
            } else {
                zero()
            },
        ),
        values_in_range(model.beat_messages()),
{
}

/// After a tap the taps of the last three seconds count, at most three of them and the
/// latest ones, and then the new one. Nothing but the tempo changes with them.
pub proof fn law_taps_that_count(model: BeatModel, now: u64)
    ensures
        ({
            let after = model.tapped(now);
            let recent = model.taps.filter(|tap: u64| now < tap + 3_000_000_000);
            &&& after == BeatModel { taps: after.taps, tempo: after.tempo, ..model }
            &&& after.taps == (if recent.len() > 3 {
                recent.skip(recent.len() - 3)
            } else {
                recent
            }).push(now)
        }),
{
    let recent = model.taps.filter(|tap: u64| now < tap + 3_000_000_000);
    assert(is_recent(now) =~= (|tap: u64| now < tap + 3_000_000_000));
    if recent.len() > 3 {
        assert(recent.push(now).skip(recent.len() - 3) =~= recent.skip(recent.len() - 3).push(now));
    }
}

/// Once two taps count, the tempo is tapped: each interval lasts from one tap to the next.
pub proof fn law_intervals(model: BeatModel, now: u64, i: int)
    requires
        0 <= i < model.tapped(now).taps.len() - 1,
    ensures
        ({
            let taps = model.tapped(now).taps;
            model.tapped(now).tempo matches TempoModel::Tapped { intervals } && {
                &&& intervals.len() == taps.len() - 1
                &&& taps[i] <= taps[i + 1] ==> taps[i] + intervals[i] == taps[i + 1]
                &&& taps[i] > taps[i + 1] ==> intervals[i] == 0
            }
        }),
{
}

/// The sum of a list of intervals.
pub open spec fn total(intervals: Seq<u64>) -> int
    decreases intervals.len(),
{
    if intervals.len() == 0 {
        0
    } else {
        total(intervals.drop_last()) + intervals.last()
    }
}

/// For taps in the order of time the intervals add up to the time from the first to the
/// last.
pub proof fn law_intervals_add_up(taps: Seq<u64>)
    requires
        taps.len() >= 1,
        forall|i: int, j: int| 0 <= i <= j < taps.len() ==> taps[i] <= taps[j],
    ensures
        taps[0] + total(intervals_of(taps)) == taps.last(),
    decreases taps.len(),
{
    let all = intervals_of(taps);
    if taps.len() > 1 {
        let shorter = taps.drop_last();
        law_intervals_add_up(shorter);
        assert(all.drop_last() =~= intervals_of(shorter));
    }
}

/// The next palette is the one behind, the first one after the last; the previous palette
/// is the one before, the last one before the first. Nothing else changes.
pub proof fn law_palette_order(model: BeatModel)
    requires
        model.wf(),
    ensures
        model.palettes.len() == 0 ==> model.next_palette() == model && model.previous_palette()
            == model,
        model.palettes.len() > 0 ==> {
            let last = model.palettes.len() - 1;
            &&& model.next_palette() == BeatModel {
                palette_idx: if model.palette_idx == last {
                    0
                } else {
                    model.palette_idx + 1
                },
                ..model
            }
            &&& model.previous_palette() == BeatModel {
                palette_idx: if model.palette_idx == 0 {
                    last
                } else {
                    model.palette_idx - 1
                },
                ..model
            }
            &&& model.palette() == model.palettes[model.palette_idx]
        },
        model.palettes.len() == 0 ==> model.palette().len() == 0,
{
    if model.palettes.len() > 0 {
        let n = model.palettes.len() as int;
        vstd::arithmetic::div_mod::lemma_small_mod(model.palette_idx as nat, n as nat);
        if model.palette_idx == n - 1 {
            vstd::arithmetic::div_mod::lemma_mod_self_0(n);
        } else {
            vstd::arithmetic::div_mod::lemma_small_mod((model.palette_idx + 1) as nat, n as nat);
        }
    }
}

/// A beat changes the step in the palette and the fixture, nothing else; a colour is taken
/// without changing the fixture.
pub proof fn law_beat_changes(model: BeatModel)
    requires
        model.wf(),
    ensures
        model.beaten() == (BeatModel {
            step: model.stepped().step,
            fixture: model.beaten().fixture,
            ..model
        }),
        model.stepped() == (BeatModel { step: model.stepped().step, ..model }),
        model.palette().len() == 0 ==> model.next_color() == 0 && model.stepped() == model,
        model.palette().len() > 0 && model.step < model.palette().len() ==> {
            &&& model.next_color() == model.palette()[model.step]
            &&& model.stepped().step == (if model.step + 1 == model.palette().len() {
                0
            } else {
                model.step + 1
            })
        },
        model.addresses.len() == 0 ==> model.beaten().fixture == model.fixture,
{
    if model.palette().len() > 0 && model.step < model.palette().len() {
        let n = model.palette().len() as int;
        vstd::arithmetic::div_mod::lemma_small_mod(model.step as nat, n as nat);
        if model.step == n - 1 {
            vstd::arithmetic::div_mod::lemma_mod_self_0(n);
        } else {
            vstd::arithmetic::div_mod::lemma_small_mod((model.step + 1) as nat, n as nat);
        }
    }
}

/// Every beat sends one message to every fixture in order: 1 to the current one and 0 to
/// all others.
pub proof fn law_beat_sends(model: BeatModel, i: int)
    requires
        0 <= i < model.addresses.len(),
    ensures
        model.beat_messages().len() == model.addresses.len(),
        sends(
            model.beat_messages()[i],
            model.addresses[i],
            if i == model.fixture {
                1
            } else {
                0
            },
            1,
        ),
{
}

/// The model of a chase holds its parts as they are.
pub proof fn law_model(state: BeatState, i: int)
    ensures
        match state.tempo {
            Tempo::Configured { bits } => state@.tempo == (TempoModel::Configured { bits }),
            Tempo::Tapped { intervals } => state@.tempo == (TempoModel::Tapped {
                intervals: intervals@,
            }),
        },
        state.tempo@ == state@.tempo,
        state@.step == state.step,
        state@.palette_idx == state.palette_idx,
        state@.fixture == state.fixture,
        state@.taps == state.taps@,
        state@.addresses.len() == state.rgb_addresses@.len(),
        0 <= i < state.rgb_addresses@.len() ==> state@.addresses[i] == state.rgb_addresses@[i]@,
        state@.palettes.len() == state.palettes@.len(),
        0 <= i < state.palettes@.len() ==> state@.palettes[i] == state.palettes@[i]@,
{
}

} // verus!
