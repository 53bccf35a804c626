//! Readings: what one polling cycle reports for each channel.

use vstd::prelude::*;
use vstd::string::*;
use vstd::arithmetic::div_mod::lemma_fundamental_div_mod;
use crate::config::Slave;
use crate::text::{matches_word, one_decimal, render_one_decimal, word_matches};

verus! {

/// The physical value of one channel.
#[derive(Clone, Debug, PartialEq, Eq)]
pub enum Reading {
    /// The value rendered with exactly one fractional digit.
    Text(String),
    /// The value `raw / divisor`, kept exact.
    Ratio { raw: u16, divisor: u16 },
}

/// What a `Reading` denotes.
pub enum ReadingValue {
    Text(Seq<char>),
    Ratio { raw: int, divisor: int },
}

impl View for Reading {
    type V = ReadingValue;

    open spec fn view(&self) -> ReadingValue {
        match *self {
            Reading::Text(s) => ReadingValue::Text(s@),
            Reading::Ratio { raw, divisor } => ReadingValue::Ratio {
                raw: raw as int,
                divisor: divisor as int,
            },
        }
    }
}

/// A channel id with its reading.
#[derive(Clone, Debug, PartialEq, Eq)]
pub struct Entry {
    pub channel_id: String,
    pub reading: Reading,
}

impl View for Entry {
    type V = (Seq<char>, ReadingValue);

    open spec fn view(&self) -> (Seq<char>, ReadingValue) {
        (self.channel_id@, self.reading@)
    }
}

/// The readings of one cycle, in the order in which they were taken.
#[derive(Clone, Debug, PartialEq, Eq)]
pub struct ReadingMap {
    pub entries: Vec<Entry>,
}

/// The mapping that a list of entries denotes: a later entry overrides an
/// earlier one with the same channel id.
pub open spec fn mapping_of(pairs: Seq<(Seq<char>, ReadingValue)>) -> Map<Seq<char>, ReadingValue>
    decreases pairs.len(),
{
    if pairs.len() == 0 {
        Map::empty()
    } else {
        mapping_of(pairs.drop_last()).insert(pairs.last().0, pairs.last().1)
    }
}

/// The channel ids of `pairs` are pairwise different.
pub open spec fn distinct_keys(pairs: Seq<(Seq<char>, ReadingValue)>) -> bool {
    forall|i: int, j: int| 0 <= i < j < pairs.len() ==> pairs[i].0 != pairs[j].0
}

/// A channel id is in the mapping exactly if some entry carries it.
pub proof fn lemma_mapping_keys(pairs: Seq<(Seq<char>, ReadingValue)>)
    ensures
        mapping_of(pairs).dom().finite(),
        forall|k: Seq<char>|
            mapping_of(pairs).dom().contains(k) <==> exists|i: int|
                0 <= i < pairs.len() && (#[trigger] pairs[i]).0 == k,
    decreases pairs.len(),
{
    if pairs.len() > 0 {
        let rest = pairs.drop_last();
        lemma_mapping_keys(rest);
        assert forall|k: Seq<char>|
            mapping_of(pairs).dom().contains(k) <==> exists|i: int|
                0 <= i < pairs.len() && (#[trigger] pairs[i]).0 == k by {
            if mapping_of(pairs).dom().contains(k) {
                if k == pairs.last().0 {
                    assert(pairs[pairs.len() - 1].0 == k);
                } else {
                    let i = choose|i: int| 0 <= i < rest.len() && (#[trigger] rest[i]).0 == k;
                    assert(pairs[i].0 == k);
                }
            }
            if exists|i: int| 0 <= i < pairs.len() && (#[trigger] pairs[i]).0 == k {
                let i = choose|i: int| 0 <= i < pairs.len() && (#[trigger] pairs[i]).0 == k;
                if i < pairs.len() - 1 {
                    assert(rest[i].0 == k);
                }
            }
        }
    }
}

/// With pairwise different channel ids the mapping has one key per entry, and
/// each entry's id leads to its own reading.
pub proof fn lemma_mapping_distinct(pairs: Seq<(Seq<char>, ReadingValue)>)
    requires
        distinct_keys(pairs),
    ensures
        mapping_of(pairs).dom().finite(),
        mapping_of(pairs).dom().len() == pairs.len(),
        forall|i: int|
            0 <= i < pairs.len() ==> mapping_of(pairs).dom().contains((#[trigger] pairs[i]).0)
                && mapping_of(pairs)[pairs[i].0] == pairs[i].1,
    decreases pairs.len(),
{
    if pairs.len() > 0 {
        let rest = pairs.drop_last();
        assert forall|i: int, j: int| 0 <= i < j < rest.len() implies rest[i].0 != rest[j].0 by {
            assert(pairs[i].0 != pairs[j].0);
        }
        lemma_mapping_distinct(rest);
        lemma_mapping_keys(rest);
        let last = pairs.last();
        if mapping_of(rest).dom().contains(last.0) {
            let i = choose|i: int| 0 <= i < rest.len() && (#[trigger] rest[i]).0 == last.0;
            assert(pairs[i].0 != pairs[pairs.len() - 1].0);
        }
        assert forall|i: int| 0 <= i < pairs.len() implies mapping_of(pairs).dom().contains(
            (#[trigger] pairs[i]).0,
        ) && mapping_of(pairs)[pairs[i].0] == pairs[i].1 by {
            if i < pairs.len() - 1 {
                assert(rest[i] == pairs[i]);
                assert(pairs[i].0 != pairs[pairs.len() - 1].0);
            }
        }
    }
}

impl ReadingMap {
    /// The entries as pairs of channel id and value, in order.
    pub open spec fn pairs(&self) -> Seq<(Seq<char>, ReadingValue)> {
        self.entries@.map_values(|e: Entry| e@)
    }

    /// A mapping without entries.
    pub fn new() -> (m: Self)
        ensures
            m.pairs() == Seq::<(Seq<char>, ReadingValue)>::empty(),
            m@ == Map::<Seq<char>, ReadingValue>::empty(),
    {
        let m = ReadingMap { entries: Vec::new() };
        assert(m.pairs() =~= Seq::<(Seq<char>, ReadingValue)>::empty());
        m
    }

    /// Records a reading for a channel, after those already recorded.
    pub fn insert(&mut self, channel_id: String, reading: Reading)
        ensures
            final(self).pairs() == old(self).pairs().push((channel_id@, reading@)),
            final(self)@ == old(self)@.insert(channel_id@, reading@),
    {
        self.entries.push(Entry { channel_id, reading });
        assert(self.pairs() =~= old(self).pairs().push((channel_id@, reading@)));
        assert(self.pairs().drop_last() =~= old(self).pairs());
    }

    /// The number of entries recorded.
    pub fn len(&self) -> (n: usize)
        ensures
            n == self.pairs().len(),
    {
        self.entries.len()
    }

    /// The reading of a channel, if the mapping has one.
    pub fn get(&self, channel_id: &String) -> (r: Option<&Reading>)
        ensures
            r is Some <==> self@.dom().contains(channel_id@),
            r is Some ==> r.unwrap()@ == self@[channel_id@],
    {
        let mut i: usize = self.entries.len();
        while i > 0
            invariant
                i <= self.entries.len(),
                forall|j: int| i <= j < self.entries.len() ==> self.pairs()[j].0 != channel_id@,
            decreases i,
        {
            i -= 1;
            if self.entries[i].channel_id == *channel_id {
                proof {
                    lemma_found_last(self.pairs(), i as int, channel_id@);
                }
                return Some(&self.entries[i].reading);
            }
        }
        proof {
            lemma_mapping_keys(self.pairs());
        }
        None
    }
}

impl View for ReadingMap {
    type V = Map<Seq<char>, ReadingValue>;

    open spec fn view(&self) -> Map<Seq<char>, ReadingValue> {
        mapping_of(self.pairs())
    }
}

/// The last entry with a given channel id decides what the mapping holds.
pub proof fn lemma_found_last(pairs: Seq<(Seq<char>, ReadingValue)>, at: int, key: Seq<char>)
    requires
        0 <= at < pairs.len(),
        pairs[at].0 == key,
        forall|j: int| at < j < pairs.len() ==> pairs[j].0 != key,
    ensures
        mapping_of(pairs).dom().contains(key),
        mapping_of(pairs)[key] == pairs[at].1,
    decreases pairs.len(),
{
    if at < pairs.len() - 1 {
        let rest = pairs.drop_last();
        assert(pairs[pairs.len() - 1].0 != key);
        assert(rest[at] == pairs[at]);
        lemma_found_last(rest, at, key);
    }
}

/// The register value in tenths of the physical unit, rounded to the nearest
/// tenth, a half rounding up.
pub open spec fn scaled_tenths(raw: int, divisor: int) -> int {
    (20 * raw + divisor) / (2 * divisor)
}

/// Scales a register value to tenths of the physical unit.
pub fn scale_tenths(raw: u16, divisor: u16) -> (t: u32)
    requires
        divisor > 0,
    ensures
        t == scaled_tenths(raw as int, divisor as int),
        t <= 10 * raw + 1,
{
    let numerator: u32 = 20 * (raw as u32) + (divisor as u32);
    let denominator: u32 = 2 * (divisor as u32);
    proof {
        lemma_tenths_nearest(raw as int, divisor as int);
        let t = scaled_tenths(raw as int, divisor as int);
        assert(t <= 10 * raw + 1) by (nonlinear_arith)
            requires
                2 * t * divisor - divisor <= 20 * raw,
                divisor >= 1,
                raw >= 0,
        ;
    }
    numerator / denominator
}

/// The scaled value is a nearest tenth: it differs from `10 * raw / divisor`
/// by at most one half, and rounds an exact half up.
pub proof fn lemma_tenths_nearest(raw: int, divisor: int)
    requires
        raw >= 0,
        divisor > 0,
    ensures
        2 * scaled_tenths(raw, divisor) * divisor - divisor <= 20 * raw,
        20 * raw < 2 * scaled_tenths(raw, divisor) * divisor + divisor,
        scaled_tenths(raw, divisor) >= 0,
{
    let x = 20 * raw + divisor;
    let d = 2 * divisor;
    lemma_fundamental_div_mod(x, d);
    let t = x / d;
    assert(x == d * t + x % d);
    assert(0 <= x % d < d);
    assert(d * t == 2 * t * divisor) by (nonlinear_arith)
        requires
            d == 2 * divisor,
    ;
    assert(t >= 0) by (nonlinear_arith)
        requires
            d * t + d > x,
            x >= 0,
            d > 0,
    ;
}

/// The decode type asks for a number rather than for display text.
pub open spec fn wants_number(decode_type: Seq<char>) -> bool {
    word_matches(decode_type, "float"@, "FLOAT"@)
}

/// The reading that a raw register value gives for a slave: the exact ratio
/// where the slave asks for a number, else the one-decimal text of the
/// nearest tenth.
pub open spec fn reading_of(raw: u16, slave: Slave) -> ReadingValue {
    if wants_number(slave.decode_type@) {
        ReadingValue::Ratio { raw: raw as int, divisor: slave.divisor as int }
    } else {
        ReadingValue::Text(one_decimal(scaled_tenths(raw as int, slave.divisor as int) as nat))
    }
}

/// Converts a raw register value to the reading of its slave.
pub fn decode_register(raw: u16, slave: &Slave) -> (r: Reading)
    requires
        slave.divisor > 0,
    ensures
        r@ == reading_of(raw, *slave),
{
    if matches_word(slave.decode_type.as_str(), "float", "FLOAT") {
        Reading::Ratio { raw, divisor: slave.divisor }
    } else {
        Reading::Text(render_one_decimal(scale_tenths(raw, slave.divisor)))
    }
}

/// What a slave's reading says of its register: a number is the exact ratio
/// of the raw value and the divisor; a text is the one-decimal numeral of the
/// tenth nearest to that ratio.
pub proof fn lemma_reading_value(raw: u16, slave: Slave)
    requires
        slave.divisor > 0,
    ensures
        match reading_of(raw, slave) {
            ReadingValue::Ratio { raw: r, divisor: d } => r == raw && d == slave.divisor,
            ReadingValue::Text(text) => exists|tenths: nat|
                {
                    &&& text == one_decimal(tenths)
                    &&& 2 * tenths * slave.divisor - slave.divisor <= 20 * raw
                    &&& 20 * raw < 2 * tenths * slave.divisor + slave.divisor
                },
        },
{
    lemma_tenths_nearest(raw as int, slave.divisor as int);
    let tenths = scaled_tenths(raw as int, slave.divisor as int) as nat;
    if !wants_number(slave.decode_type@) {
        assert(reading_of(raw, slave) == ReadingValue::Text(one_decimal(tenths)));
    }
}

} // verus!
