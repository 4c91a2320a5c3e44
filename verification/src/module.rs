//! The module itself: header values, the order list and the collections of
//! instruments, samples and patterns, with lookups by handle and the two
//! queries that follow the order list.

use vstd::prelude::*;
use crate::channels::ActiveChannels;
use crate::flags::ModuleFlags;
use crate::ids::{InstrumentId, PatternId, SampleId};
use crate::name::Name;
use crate::ranged::RangedU8;

verus! {

/// A sound source that patterns play notes with.
#[derive(Debug, PartialEq, Eq)]
pub struct Instrument {
    /// Display name.
    pub name: Name,
}

/// A piece of recorded sound.
#[derive(Debug, PartialEq, Eq)]
pub struct Sample {
    /// Display name.
    pub name: Name,
}

/// A grid of note events.
#[derive(Debug, PartialEq, Eq)]
pub struct Pattern {
    /// The channels on which the pattern holds note data.
    pub active_channels: ActiveChannels,
}

impl Clone for Instrument {
    /// An equal value.
    fn clone(&self) -> (r: Self)
        ensures
            r == *self,
    {
        Instrument { name: self.name }
    }
}

impl Clone for Sample {
    /// An equal value.
    fn clone(&self) -> (r: Self)
        ensures
            r == *self,
    {
        Sample { name: self.name }
    }
}

impl Clone for Pattern {
    /// An equal value.
    fn clone(&self) -> (r: Self)
        ensures
            r == *self,
    {
        Pattern { active_channels: self.active_channels }
    }
}

/// One entry of the order list.
#[derive(Clone, Copy, Debug, PartialEq, Eq, Structural)]
pub enum Order {
    /// Play the pattern that the handle names.
    Index(PatternId),
    /// A marker without any effect on playback.
    Separator,
    /// Playback ends here.
    EndOfSong,
}

/// A song: what a decoder builds from a module file and what players,
/// editors and converters read.
#[derive(Debug)]
pub struct Module {
    /// Song name.
    pub name: Name,
    /// Song message, kept apart from the name.
    pub message: String,
    /// Rows per measure and rows per beat. A hint for display only.
    pub highlight: (u8, u8),
    /// Version tag of the tracker the module was made with.
    pub made_with_version: u16,
    /// Version tag of the oldest tracker that can load the module.
    pub compatible_with_version: u16,
    /// Capabilities, from the two flag words of the header.
    pub flags: ModuleFlags,
    /// Global volume.
    pub global_volume: RangedU8<0, 128>,
    /// Sample volume.
    pub sample_volume: RangedU8<0, 128>,
    /// Initial speed. Zero would stall playback and is no speed.
    pub speed: RangedU8<1, 255>,
    /// Initial tempo.
    pub tempo: RangedU8<31, 255>,
    /// Pan separation.
    pub pan_separation: RangedU8<0, 128>,
    /// Pitch wheel depth. It means something only with
    /// [`ModuleFlag::UseMidiPitch`](crate::flags::ModuleFlag::UseMidiPitch).
    pub pitch_wheel_depth: u8,
    /// Initial panning of each channel, by channel number.
    pub init_channel_panning: [u8; 64],
    /// Initial volume of each channel, by channel number.
    pub init_channel_volume: [u8; 64],
    /// The order list. Its sequence is the sequence of playback.
    pub orders: Vec<Order>,
    /// Instruments, named by [`InstrumentId`].
    pub instruments: Vec<Instrument>,
    /// Samples, named by [`SampleId`].
    pub samples: Vec<Sample>,
    /// Patterns, named by [`PatternId`].
    pub patterns: Vec<Pattern>,
}

/// The header of a module file as it lies on disk: the values of a
/// [`Module`], but with the place of each instrument, sample and pattern in
/// the file where the module has the decoded collections, and with the place
/// and length of the song message where the module has its text.
///
/// A decoder fills it from the header bytes, decodes what the offsets point
/// to, hands both to [`Module::from_header`] and keeps neither.
#[derive(Debug)]
pub struct ModuleHeader {
    /// Song name.
    pub name: Name,
    /// Rows per measure and rows per beat.
    pub highlight: (u8, u8),
    /// Version tag of the tracker the module was made with.
    pub made_with_version: u16,
    /// Version tag of the oldest tracker that can load the module.
    pub compatible_with_version: u16,
    /// Capabilities, from the two flag words of the header.
    pub flags: ModuleFlags,
    /// Global volume.
    pub global_volume: RangedU8<0, 128>,
    /// Sample volume.
    pub sample_volume: RangedU8<0, 128>,
    /// Initial speed.
    pub speed: RangedU8<1, 255>,
    /// Initial tempo.
    pub tempo: RangedU8<31, 255>,
    /// Pan separation.
    pub pan_separation: RangedU8<0, 128>,
    /// Pitch wheel depth.
    pub pitch_wheel_depth: u8,
    /// Length of the song message in bytes.
    pub message_length: u16,
    /// Where the song message begins in the file.
    pub message_offset: u32,
    /// Initial panning of each channel, by channel number.
    pub init_channel_panning: [u8; 64],
    /// Initial volume of each channel, by channel number.
    pub init_channel_volume: [u8; 64],
    /// The order list.
    pub orders: Vec<Order>,
    /// Where each instrument begins in the file.
    pub instrument_offsets: Vec<u32>,
    /// Where each sample begins in the file.
    pub sample_offsets: Vec<u32>,
    /// Where each pattern begins in the file.
    pub pattern_offsets: Vec<u32>,
}

impl Clone for Module {
    /// A module with the same values, text, order list and collections.
    fn clone(&self) -> (r: Self)
        ensures
            r.highlight == self.highlight,
            r.made_with_version == self.made_with_version,
            r.compatible_with_version == self.compatible_with_version,
            r.flags == self.flags,
            r.global_volume == self.global_volume,
            r.sample_volume == self.sample_volume,
            r.speed == self.speed,
            r.tempo == self.tempo,
            r.pan_separation == self.pan_separation,
            r.pitch_wheel_depth == self.pitch_wheel_depth,
            r.init_channel_panning == self.init_channel_panning,
            r.init_channel_volume == self.init_channel_volume,
            r.name == self.name,
            r.message@ == self.message@,
            r.orders@ == self.orders@,
            r.instruments@ == self.instruments@,
            r.samples@ == self.samples@,
            r.patterns@ == self.patterns@,
    {
        Module {
            name: self.name,
            message: self.message.clone(),
            highlight: (self.highlight.0, self.highlight.1),
            made_with_version: self.made_with_version,
            compatible_with_version: self.compatible_with_version,
            flags: self.flags,
            global_volume: self.global_volume,
            sample_volume: self.sample_volume,
            speed: self.speed,
            tempo: self.tempo,
            pan_separation: self.pan_separation,
            pitch_wheel_depth: self.pitch_wheel_depth,
            init_channel_panning: self.init_channel_panning,
            init_channel_volume: self.init_channel_volume,
            orders: self.orders.clone(),
            instruments: self.instruments.clone(),
            samples: self.samples.clone(),
            patterns: self.patterns.clone(),
        }
    }
}

/// Looking an element up by a handle of kind `I`.
pub trait Get<I> {
    /// What the handles of kind `I` name.
    type Output;

    /// What `index` names in `self`, if anything.
    spec fn lookup(&self, index: I) -> Option<Self::Output>;

    /// The element that `index` names, or `None` where it names none.
    fn get(&self, index: I) -> (r: Option<&Self::Output>)
        ensures
            r.is_some() == self.lookup(index).is_some(),
            r.is_some() ==> *r.unwrap() == self.lookup(index).unwrap(),
    ;
}

impl Get<SampleId> for Module {
    type Output = Sample;

    open spec fn lookup(&self, index: SampleId) -> Option<Sample> {
        if (index@ as int) < self.samples@.len() {
            Some(self.samples@[index@ as int])
        } else {
            None
        }
    }

    fn get(&self, index: SampleId) -> (r: Option<&Sample>)
        ensures
            r.is_some() <==> (index@ as int) < self.samples@.len(),
            r.is_some() ==> *r.unwrap() == self.samples@[index@ as int],
    {
        let i: usize = index.as_u8() as usize;
        let slice = self.samples.as_slice();
        proof {
            vstd::slice::axiom_slice_get_usize(slice, i);
        }
        slice.get(i)
    }
}

impl Get<InstrumentId> for Module {
    type Output = Instrument;

    open spec fn lookup(&self, index: InstrumentId) -> Option<Instrument> {
        if (index@ as int) < self.instruments@.len() {
            Some(self.instruments@[index@ as int])
        } else {
            None
        }
    }

    fn get(&self, index: InstrumentId) -> (r: Option<&Instrument>)
        ensures
            r.is_some() <==> (index@ as int) < self.instruments@.len(),
            r.is_some() ==> *r.unwrap() == self.instruments@[index@ as int],
    {
        let i: usize = index.as_u8() as usize;
        let slice = self.instruments.as_slice();
        proof {
            vstd::slice::axiom_slice_get_usize(slice, i);
        }
        slice.get(i)
    }
}

impl Get<PatternId> for Module {
    type Output = Pattern;

    open spec fn lookup(&self, index: PatternId) -> Option<Pattern> {
        if (index@ as int) < self.patterns@.len() {
            Some(self.patterns@[index@ as int])
        } else {
            None
        }
    }

    fn get(&self, index: PatternId) -> (r: Option<&Pattern>)
        ensures
            r.is_some() <==> (index@ as int) < self.patterns@.len(),
            r.is_some() ==> *r.unwrap() == self.patterns@[index@ as int],
    {
        let i: usize = index.as_u8() as usize;
        let slice = self.patterns.as_slice();
        proof {
            vstd::slice::axiom_slice_get_usize(slice, i);
        }
        slice.get(i)
    }
}

impl core::ops::Index<PatternId> for Module {
    type Output = Pattern;

    /// The pattern that `index` names. The handle has to name one: where that
    /// is not known beforehand, look it up with [`Get::get`].
    fn index(&self, index: PatternId) -> (r: &Pattern)
        ensures
            *r == self.patterns@[index@ as int],
    {
        &self.patterns[index.as_u8() as usize]
    }
}

impl vstd::std_specs::core::IndexSpecImpl<PatternId> for Module {
    open spec fn index_req(&self, index: &PatternId) -> bool {
        (index@ as int) < self.patterns@.len()
    }
}

impl core::ops::Index<InstrumentId> for Module {
    type Output = Instrument;

    /// The instrument that `index` names. The handle has to name one: where that
    /// is not known beforehand, look it up with [`Get::get`].
    fn index(&self, index: InstrumentId) -> (r: &Instrument)
        ensures
            *r == self.instruments@[index@ as int],
    {
        &self.instruments[index.as_u8() as usize]
    }
}

impl vstd::std_specs::core::IndexSpecImpl<InstrumentId> for Module {
    open spec fn index_req(&self, index: &InstrumentId) -> bool {
        (index@ as int) < self.instruments@.len()
    }
}

impl core::ops::Index<SampleId> for Module {
    type Output = Sample;

    /// The sample that `index` names. The handle has to name one: where that
    /// is not known beforehand, look it up with [`Get::get`].
    fn index(&self, index: SampleId) -> (r: &Sample)
        ensures
            *r == self.samples@[index@ as int],
    {
        &self.samples[index.as_u8() as usize]
    }
}

impl vstd::std_specs::core::IndexSpecImpl<SampleId> for Module {
    open spec fn index_req(&self, index: &SampleId) -> bool {
        (index@ as int) < self.samples@.len()
    }
}

/// The pattern that `order` plays when the patterns of the module are
/// `patterns`: the pattern that an `Index` entry names, if its handle names
/// one. A `Separator`, an `EndOfSong` and an `Index` entry whose handle names
/// no pattern play none.
pub open spec fn played(patterns: Seq<Pattern>, order: Order) -> Option<Pattern> {
    match order {
        Order::Index(id) => if (id@ as int) < patterns.len() {
            Some(patterns[id@ as int])
        } else {
            None
        },
        Order::Separator => None,
        Order::EndOfSong => None,
    }
}

/// [`played`] as a function of the order entry alone.
pub open spec fn played_from(patterns: Seq<Pattern>) -> spec_fn(Order) -> Option<Pattern> {
    |order: Order| played(patterns, order)
}

/// The patterns that the entries of `orders` play, in the sequence of
/// `orders`, one for each entry that plays a pattern.
pub open spec fn patterns_in_order(orders: Seq<Order>, patterns: Seq<Pattern>) -> Seq<Pattern> {
    orders.filter_map(played_from(patterns))
}

/// The step of [`channels_of`]: the channels seen so far together with
/// those of one more pattern.
pub open spec fn with_channels_of() -> spec_fn(ActiveChannels, Pattern) -> ActiveChannels {
    |seen: ActiveChannels, pattern: Pattern| seen.spec_union(pattern.active_channels)
}

/// The union of the active channels of `patterns`, starting from the empty
/// set.
pub open spec fn channels_of(patterns: Seq<Pattern>) -> ActiveChannels {
    patterns.fold_left(ActiveChannels::spec_empty(), with_channels_of())
}

/// Whether `order` plays a pattern on which `channel` is active.
pub open spec fn plays_on(patterns: Seq<Pattern>, order: Order, channel: u8) -> bool {
    match played(patterns, order) {
        Some(pattern) => pattern.active_channels.has(channel),
        None => false,
    }
}

/// Whether some entry of `orders` plays a pattern on which `channel` is
/// active.
pub open spec fn played_on(orders: Seq<Order>, patterns: Seq<Pattern>, channel: u8) -> bool {
    exists|i: int| 0 <= i < orders.len() && #[trigger] plays_on(patterns, orders[i], channel)
}

/// A channel is in the union of the active channels of some patterns
/// exactly if it is active on one of them.
pub proof fn lemma_channels_of_has(patterns: Seq<Pattern>, channel: u8)
    ensures
        channels_of(patterns).has(channel) <==> exists|k: int|
            0 <= k < patterns.len() && (#[trigger] patterns[k]).active_channels.has(channel),
    decreases patterns.len(),
{
    if patterns.len() == 0 {
        ActiveChannels::lemma_empty_has_none();
    } else {
        let rest = patterns.drop_last();
        let last = patterns.last();
        lemma_channels_of_has(rest, channel);
        ActiveChannels::lemma_union_has(channels_of(rest), last.active_channels);
        assert(channels_of(patterns) == channels_of(rest).spec_union(last.active_channels));
        if channels_of(patterns).has(channel) {
            if last.active_channels.has(channel) {
                assert(patterns[patterns.len() - 1].active_channels.has(channel));
            } else {
                let k = choose|k: int|
                    0 <= k < rest.len() && (#[trigger] rest[k]).active_channels.has(channel);
                assert(patterns[k].active_channels.has(channel));
            }
        }
        if exists|k: int|
            0 <= k < patterns.len() && (#[trigger] patterns[k]).active_channels.has(channel) {
            let k = choose|k: int|
                0 <= k < patterns.len() && (#[trigger] patterns[k]).active_channels.has(channel);
            if k < rest.len() {
                assert(rest[k].active_channels.has(channel));
            }
        }
    }
}

/// A pattern is among those that `orders` plays exactly if some entry of
/// `orders` plays it.
pub proof fn lemma_patterns_in_order_contains(
    orders: Seq<Order>,
    patterns: Seq<Pattern>,
    pattern: Pattern,
)
    ensures
        patterns_in_order(orders, patterns).contains(pattern) <==> exists|i: int|
            0 <= i < orders.len() && #[trigger] played(patterns, orders[i]) == Some(pattern),
    decreases orders.len(),
{
    let f = played_from(patterns);
    if orders.len() == 0 {
    } else {
        let rest = orders.drop_last();
        let last = orders.last();
        lemma_patterns_in_order_contains(rest, patterns, pattern);
        let before = patterns_in_order(rest, patterns);
        let whole = patterns_in_order(orders, patterns);
        assert(whole == match f(last) {
            Some(p) => before + seq![p],
            None => before,
        });
        if whole.contains(pattern) {
            let k = choose|k: int| 0 <= k < whole.len() && whole[k] == pattern;
            if k < before.len() {
                assert(before[k] == pattern);
                let i = choose|i: int|
                    0 <= i < rest.len() && #[trigger] played(patterns, rest[i]) == Some(pattern);
                assert(played(patterns, orders[i]) == Some(pattern));
            } else {
                assert(played(patterns, orders[orders.len() - 1]) == Some(pattern));
            }
        }
        if exists|i: int|
            0 <= i < orders.len() && #[trigger] played(patterns, orders[i]) == Some(pattern) {
            let i = choose|i: int|
                0 <= i < orders.len() && #[trigger] played(patterns, orders[i]) == Some(pattern);
            if i < rest.len() {
                assert(played(patterns, rest[i]) == Some(pattern));
                let k = choose|k: int| 0 <= k < before.len() && before[k] == pattern;
                assert(whole[k] == pattern);
            } else {
                assert(whole[whole.len() - 1] == pattern);
            }
        }
    }
}

/// A channel is in the union over the patterns that `orders` plays exactly
/// if some entry of `orders` plays a pattern on which it is active.
pub proof fn lemma_channels_of_played(orders: Seq<Order>, patterns: Seq<Pattern>, channel: u8)
    ensures
        channels_of(patterns_in_order(orders, patterns)).has(channel) <==> played_on(
            orders,
            patterns,
            channel,
        ),
{
    let seq = patterns_in_order(orders, patterns);
    lemma_channels_of_has(seq, channel);
    if channels_of(seq).has(channel) {
        let k = choose|k: int|
            0 <= k < seq.len() && (#[trigger] seq[k]).active_channels.has(channel);
        assert(seq.contains(seq[k]));
        lemma_patterns_in_order_contains(orders, patterns, seq[k]);
        let i = choose|i: int|
            0 <= i < orders.len() && #[trigger] played(patterns, orders[i]) == Some(seq[k]);
        assert(plays_on(patterns, orders[i], channel));
    }
    if played_on(orders, patterns, channel) {
        let i = choose|i: int|
            0 <= i < orders.len() && #[trigger] plays_on(patterns, orders[i], channel);
        let pattern = played(patterns, orders[i]).unwrap();
        lemma_patterns_in_order_contains(orders, patterns, pattern);
        let k = choose|k: int| 0 <= k < seq.len() && seq[k] == pattern;
        assert(seq[k].active_channels.has(channel));
    }
}

/// Whether `order` is an `Index` entry.
pub open spec fn is_index() -> spec_fn(Order) -> bool {
    |order: Order| order is Index
}

/// The `Index` entries of `orders`, in the sequence of `orders`.
pub open spec fn index_entries(orders: Seq<Order>) -> Seq<Order> {
    orders.filter(is_index())
}

/// The union of the active channels depends on which `Index` entries the
/// order list holds, not on where they stand nor on how often each occurs.
pub proof fn lemma_channels_by_entries(
    first: Seq<Order>,
    second: Seq<Order>,
    patterns: Seq<Pattern>,
)
    requires
        forall|order: Order|
            order is Index ==> (#[trigger] first.contains(order) <==> second.contains(order)),
    ensures
        channels_of(patterns_in_order(first, patterns)) == channels_of(
            patterns_in_order(second, patterns),
        ),
{
    let a = channels_of(patterns_in_order(first, patterns));
    let b = channels_of(patterns_in_order(second, patterns));
    assert forall|c: u8| a.has(c) == b.has(c) by {
        lemma_channels_of_played(first, patterns, c);
        lemma_channels_of_played(second, patterns, c);
        if played_on(first, patterns, c) {
            let i = choose|i: int|
                0 <= i < first.len() && #[trigger] plays_on(patterns, first[i], c);
            assert(first.contains(first[i]));
            assert(second.contains(first[i]));
            let j = choose|j: int| 0 <= j < second.len() && second[j] == first[i];
            assert(plays_on(patterns, second[j], c));
        }
        if played_on(second, patterns, c) {
            let i = choose|i: int|
                0 <= i < second.len() && #[trigger] plays_on(patterns, second[i], c);
            assert(second.contains(second[i]));
            assert(first.contains(second[i]));
            let j = choose|j: int| 0 <= j < first.len() && first[j] == second[i];
            assert(plays_on(patterns, first[j], c));
        }
    }
    ActiveChannels::lemma_equal_by_channels(a, b);
}

/// An `Index` entry is in an order list exactly if it is among the `Index`
/// entries of that list.
proof fn lemma_index_entries_contains(orders: Seq<Order>, order: Order)
    requires
        order is Index,
    ensures
        orders.contains(order) <==> index_entries(orders).contains(order),
{
    if orders.contains(order) {
        let i = choose|i: int| 0 <= i < orders.len() && orders[i] == order;
        orders.lemma_filter_contains(is_index(), i);
    }
    if index_entries(orders).contains(order) {
        orders.lemma_filter_contains_rev(is_index(), order);
    }
}

impl Module {
    /// The module that a decoded file stands for: the values of `header`,
    /// the text of the song message, and the instruments, samples and
    /// patterns that the decoder found at the offsets of `header`, one for
    /// each offset and in the sequence of the offsets.
    pub fn from_header(
        header: ModuleHeader,
        message: String,
        instruments: Vec<Instrument>,
        samples: Vec<Sample>,
        patterns: Vec<Pattern>,
    ) -> (r: Module)
        requires
            instruments@.len() == header.instrument_offsets@.len(),
            samples@.len() == header.sample_offsets@.len(),
            patterns@.len() == header.pattern_offsets@.len(),
        ensures
            r.name == header.name,
            r.message == message,
            r.highlight == header.highlight,
            r.made_with_version == header.made_with_version,
            r.compatible_with_version == header.compatible_with_version,
            r.flags == header.flags,
            r.global_volume == header.global_volume,
            r.sample_volume == header.sample_volume,
            r.speed == header.speed,
            r.tempo == header.tempo,
            r.pan_separation == header.pan_separation,
            r.pitch_wheel_depth == header.pitch_wheel_depth,
            r.init_channel_panning == header.init_channel_panning,
            r.init_channel_volume == header.init_channel_volume,
            r.orders == header.orders,
            r.instruments == instruments,
            r.samples == samples,
            r.patterns == patterns,
    {
        Module {
            name: header.name,
            message,
            highlight: header.highlight,
            made_with_version: header.made_with_version,
            compatible_with_version: header.compatible_with_version,
            flags: header.flags,
            global_volume: header.global_volume,
            sample_volume: header.sample_volume,
            speed: header.speed,
            tempo: header.tempo,
            pan_separation: header.pan_separation,
            pitch_wheel_depth: header.pitch_wheel_depth,
            init_channel_panning: header.init_channel_panning,
            init_channel_volume: header.init_channel_volume,
            orders: header.orders,
            instruments,
            samples,
            patterns,
        }
    }

    /// The patterns that the order list plays, in the sequence of playback.
    pub open spec fn spec_ordered_patterns(&self) -> Seq<Pattern> {
        patterns_in_order(self.orders@, self.patterns@)
    }

    /// The channels that are active on some pattern that the order list
    /// plays.
    pub open spec fn spec_active_channels(&self) -> ActiveChannels {
        channels_of(self.spec_ordered_patterns())
    }

    /// The pattern that `order` plays: the one that an `Index` entry names,
    /// if its handle names one, and none for any other entry.
    pub fn played_by(&self, order: Order) -> (r: Option<&Pattern>)
        ensures
            r.is_some() == played(self.patterns@, order).is_some(),
            r.is_some() ==> *r.unwrap() == played(self.patterns@, order).unwrap(),
    {
        match order {
            Order::Index(id) => self.get(id),
            Order::Separator => None,
            Order::EndOfSong => None,
        }
    }

    /// The patterns as the order list names them, in the sequence of the
    /// order list.
    ///
    /// A pattern comes once for each entry that names it, so some may come
    /// several times and others not at all. `Separator` and `EndOfSong`
    /// entries give nothing, and neither does an entry whose handle names
    /// no pattern; the walk does not stop at any of them.
    pub fn ordered_patterns(&self) -> (r: Vec<&Pattern>)
        ensures
            r@.len() == self.spec_ordered_patterns().len(),
            forall|k: int| 0 <= k < r@.len() ==> *r@[k] == self.spec_ordered_patterns()[k],
            r@.len() <= self.orders@.len(),
    {
        let ghost f = played_from(self.patterns@);
        let mut out: Vec<&Pattern> = Vec::new();
        let mut i: usize = 0;
        while i < self.orders.len()
            invariant
                i <= self.orders@.len(),
                f == played_from(self.patterns@),
                out@.len() == self.orders@.take(i as int).filter_map(f).len(),
                forall|k: int|
                    0 <= k < out@.len() ==> *out@[k] == self.orders@.take(i as int).filter_map(
                        f,
                    )[k],
                out@.len() <= i,
            decreases self.orders@.len() - i,
        {
            proof {
                self.orders@.lemma_filter_map_take_succ(f, i as int);
            }
            match self.played_by(self.orders[i]) {
                Some(pattern) => {
                    out.push(pattern);
                },
                None => {},
            }
            i += 1;
        }
        proof {
            assert(self.orders@.take(i as int) =~= self.orders@);
        }
        out
    }

    /// The channels that are active while the module plays: the union of the
    /// active channels of the patterns that the order list plays.
    ///
    /// A pattern that no entry of the order list names adds nothing, whatever
    /// channels are active on it.
    pub fn active_channels(&self) -> (r: ActiveChannels)
        ensures
            r == self.spec_active_channels(),
            forall|c: u8| r.has(c) <==> played_on(self.orders@, self.patterns@, c),
    {
        let played = self.ordered_patterns();
        let ghost seq = self.spec_ordered_patterns();
        let mut seen = ActiveChannels::empty();
        let mut i: usize = 0;
        while i < played.len()
            invariant
                i <= played@.len(),
                played@.len() == seq.len(),
                forall|k: int| 0 <= k < played@.len() ==> *played@[k] == seq[k],
                seen == channels_of(seq.take(i as int)),
            decreases played@.len() - i,
        {
            proof {
                assert(seq.take(i + 1).drop_last() =~= seq.take(i as int));
            }
            seen = seen | played[i].active_channels;
            i += 1;
        }
        proof {
            assert(seq.take(i as int) =~= seq);
            assert forall|c: u8| seen.has(c) <==> played_on(self.orders@, self.patterns@, c) by {
                lemma_channels_of_played(self.orders@, self.patterns@, c);
            }
        }
        seen
    }

    /// Two modules with the same patterns whose order lists hold the same
    /// `Index` entries, each as often in the one as in the other, have the
    /// same active channels, wherever those entries stand in the two lists
    /// and whatever `Separator` and `EndOfSong` entries stand between them.
    pub proof fn lemma_active_channels_order_independent(a: Module, b: Module)
        requires
            a.patterns@ == b.patterns@,
            index_entries(a.orders@).to_multiset() == index_entries(b.orders@).to_multiset(),
        ensures
            a.spec_active_channels() == b.spec_active_channels(),
    {
        assert forall|order: Order| order is Index implies (#[trigger] a.orders@.contains(order)
            <==> b.orders@.contains(order)) by {
            lemma_index_entries_contains(a.orders@, order);
            lemma_index_entries_contains(b.orders@, order);
            vstd::seq_lib::to_multiset_contains(index_entries(a.orders@), order);
            vstd::seq_lib::to_multiset_contains(index_entries(b.orders@), order);
        }
        lemma_channels_by_entries(a.orders@, b.orders@, a.patterns@);
    }

    /// Two modules with the same patterns, the order list of one a
    /// rearrangement of that of the other, have the same active channels.
    pub proof fn lemma_active_channels_of_permuted_orders(a: Module, b: Module)
        requires
            a.patterns@ == b.patterns@,
            a.orders@.to_multiset() == b.orders@.to_multiset(),
        ensures
            a.spec_active_channels() == b.spec_active_channels(),
    {
        assert forall|order: Order| order is Index implies (#[trigger] a.orders@.contains(order)
            <==> b.orders@.contains(order)) by {
            vstd::seq_lib::to_multiset_contains(a.orders@, order);
            vstd::seq_lib::to_multiset_contains(b.orders@, order);
        }
        lemma_channels_by_entries(a.orders@, b.orders@, a.patterns@);
    }

    /// A module in whose order list no entry plays a pattern has no active
    /// channel, whatever its pattern collection holds.
    pub proof fn lemma_nothing_played_nothing_active(m: Module)
        requires
            forall|i: int|
                0 <= i < m.orders@.len() ==> (#[trigger] played(m.patterns@, m.orders@[i]))
                    is None,
        ensures
            m.spec_ordered_patterns() == Seq::<Pattern>::empty(),
            m.spec_active_channels() == ActiveChannels::spec_empty(),
    {
        let seq = m.spec_ordered_patterns();
        if seq.len() > 0 {
            assert(seq.contains(seq[0]));
            lemma_patterns_in_order_contains(m.orders@, m.patterns@, seq[0]);
        }
        assert(seq =~= Seq::<Pattern>::empty());
    }
}

} // verus!
