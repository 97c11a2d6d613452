//! The equalizer surface: accepted, stored, and deliberately never applied
//! to the signal path. Band gains are kept in thousandths of a decibel so
//! the stored configuration is exact.

use vstd::prelude::*;

verus! {

/// How many bands a preset can set: the ten standard octave bands.
pub const PRESET_BANDS: usize = 10;

/// The standard band frequencies, in Hz, by preset slot.
pub open spec fn default_band_freq(slot: int) -> u32 {
    if slot == 0 {
        32
    } else if slot == 1 {
        64
    } else if slot == 2 {
        125
    } else if slot == 3 {
        250
    } else if slot == 4 {
        500
    } else if slot == 5 {
        1000
    } else if slot == 6 {
        2000
    } else if slot == 7 {
        4000
    } else if slot == 8 {
        8000
    } else {
        16000
    }
}

/// The mapping a band list denotes: later entries win, though the list is
/// kept duplicate-free.
pub open spec fn map_of_bands(bands: Seq<(u32, i64)>) -> Map<u32, i64>
    decreases bands.len(),
{
    if bands.len() == 0 {
        Map::empty()
    } else {
        map_of_bands(bands.drop_last()).insert(bands.last().0, bands.last().1)
    }
}

/// The mapping after the first `count` preset slots are set to `gains`.
pub open spec fn preset_applied(
    bands: Map<u32, i64>,
    gains: Seq<i64>,
    count: int,
) -> Map<u32, i64>
    decreases count,
{
    if count <= 0 {
        bands
    } else {
        preset_applied(bands, gains, count - 1).insert(
            default_band_freq(count - 1),
            gains[count - 1],
        )
    }
}

/// Per-band gains (frequency in Hz, gain in thousandths of a dB) and the
/// enable flag. Stored faithfully; the signal path never reads it.
#[derive(Debug, Clone)]
pub struct EqualizerBands {
    bands: Vec<(u32, i64)>,
    enabled: bool,
}

/// A key occurs in the band list.
pub open spec fn seq_has_key(bands: Seq<(u32, i64)>, frequency: u32) -> bool {
    exists|i: int| 0 <= i < bands.len() && (#[trigger] bands[i]).0 == frequency
}

proof fn lemma_map_of_bands_key(bands: Seq<(u32, i64)>, frequency: u32)
    ensures
        map_of_bands(bands).contains_key(frequency) <==> seq_has_key(bands, frequency),
    decreases bands.len(),
{
    if bands.len() > 0 {
        lemma_map_of_bands_key(bands.drop_last(), frequency);
        if seq_has_key(bands.drop_last(), frequency) {
            let i = choose|i: int|
                0 <= i < bands.drop_last().len() && (#[trigger] bands.drop_last()[i]).0
                    == frequency;
            assert((bands[i]).0 == frequency);
        }
        if bands.last().0 == frequency {
            assert((bands[bands.len() - 1]).0 == frequency);
        }
        if seq_has_key(bands, frequency) && bands.last().0 != frequency {
            let i = choose|i: int| 0 <= i < bands.len() && (#[trigger] bands[i]).0 == frequency;
            assert((bands.drop_last()[i]).0 == frequency);
        }
    }
}

/// Updating the one entry that holds a key is an insert on the mapping.
proof fn lemma_map_of_bands_update(bands: Seq<(u32, i64)>, i: int, frequency: u32, gain: i64)
    requires
        0 <= i < bands.len(),
        bands[i].0 == frequency,
        forall|a: int, b: int|
            0 <= a < b < bands.len() ==> (#[trigger] bands[a]).0 != (#[trigger] bands[b]).0,
    ensures
        map_of_bands(bands.update(i, (frequency, gain))) == map_of_bands(bands).insert(
            frequency,
            gain,
        ),
    decreases bands.len(),
{
    let updated = bands.update(i, (frequency, gain));
    if i == bands.len() - 1 {
        assert(updated.drop_last() =~= bands.drop_last());
        assert(map_of_bands(updated) == map_of_bands(bands.drop_last()).insert(frequency, gain));
        assert(map_of_bands(bands.drop_last()).insert(bands.last().0, bands.last().1).insert(
            frequency,
            gain,
        ) =~= map_of_bands(bands.drop_last()).insert(frequency, gain));
    } else {
        assert(updated.drop_last() =~= bands.drop_last().update(i, (frequency, gain)));
        lemma_map_of_bands_update(bands.drop_last(), i, frequency, gain);
        assert(bands.last().0 != frequency);
        assert(map_of_bands(bands).insert(frequency, gain) =~= map_of_bands(
            bands.drop_last(),
        ).insert(frequency, gain).insert(bands.last().0, bands.last().1));
    }
}

impl EqualizerBands {
    /// The stored mapping from band frequency to gain.
    pub closed spec fn bands_map(self) -> Map<u32, i64> {
        map_of_bands(self.bands@)
    }

    /// Whether the (inert) equalizer is switched on.
    pub closed spec fn spec_enabled(self) -> bool {
        self.enabled
    }

    /// Internal consistency: each frequency occurs at most once.
    pub closed spec fn wf(self) -> bool {
        forall|a: int, b: int|
            0 <= a < b < self.bands@.len() ==> (#[trigger] self.bands@[a]).0 != (
            #[trigger] self.bands@[b]).0
    }

    /// Store or replace one band's gain.
    pub fn set_band(&mut self, frequency: u32, gain_mdb: i64)
        requires
            old(self).wf(),
        ensures
            final(self).wf(),
            final(self).bands_map() == old(self).bands_map().insert(frequency, gain_mdb),
            final(self).spec_enabled() == old(self).spec_enabled(),
    {
        let mut k: usize = 0;
        while k < self.bands.len()
            invariant
                old(self).wf(),
                self.bands@ == old(self).bands@,
                self.enabled == old(self).enabled,
                k <= self.bands@.len(),
                forall|j: int| 0 <= j < k ==> (#[trigger] self.bands@[j]).0 != frequency,
            decreases self.bands@.len() - k,
        {
            if self.bands[k].0 == frequency {
                self.bands.set(k, (frequency, gain_mdb));
                proof {
                    lemma_map_of_bands_update(
                        old(self).bands@,
                        k as int,
                        frequency,
                        gain_mdb,
                    );
                }
                return ;
            }
            k = k + 1;
        }
        self.bands.push((frequency, gain_mdb));
        proof {
            assert(self.bands@.drop_last() =~= old(self).bands@);
        }
    }

    /// Store a whole preset: the first `PRESET_BANDS` gains land on the
    /// standard band frequencies, slot by slot; extra gains are ignored.
    pub fn set_preset(&mut self, gains_mdb: &Vec<i64>)
        requires
            old(self).wf(),
        ensures
            final(self).wf(),
            final(self).bands_map() == preset_applied(
                old(self).bands_map(),
                gains_mdb@,
                if gains_mdb@.len() < PRESET_BANDS {
                    gains_mdb@.len() as int
                } else {
                    PRESET_BANDS as int
                },
            ),
            final(self).spec_enabled() == old(self).spec_enabled(),
    {
        let count = if gains_mdb.len() < PRESET_BANDS {
            gains_mdb.len()
        } else {
            PRESET_BANDS
        };
        let frequencies: Vec<u32> = vec![32, 64, 125, 250, 500, 1000, 2000, 4000, 8000, 16000];
        proof {
            assert(forall|j: int|
                0 <= j < 10 ==> frequencies@[j] == default_band_freq(j)) by {
                assert(frequencies@[0] == 32);
                assert(frequencies@[1] == 64);
                assert(frequencies@[2] == 125);
                assert(frequencies@[3] == 250);
                assert(frequencies@[4] == 500);
                assert(frequencies@[5] == 1000);
                assert(frequencies@[6] == 2000);
                assert(frequencies@[7] == 4000);
                assert(frequencies@[8] == 8000);
                assert(frequencies@[9] == 16000);
            }
        }
        let mut k: usize = 0;
        while k < count
            invariant
                k <= count,
                count <= PRESET_BANDS,
                count <= gains_mdb@.len(),
                frequencies@.len() == 10,
                forall|j: int| 0 <= j < 10 ==> frequencies@[j] == default_band_freq(j),
                self.wf(),
                self.bands_map() == preset_applied(old(self).bands_map(), gains_mdb@, k as int),
                self.spec_enabled() == old(self).spec_enabled(),
            decreases count - k,
        {
            self.set_band(frequencies[k], gains_mdb[k]);
            k = k + 1;
        }
    }

    /// Record whether the equalizer is on. Nothing in the signal path ever
    /// reads it: a documented gap, not a hidden one.
    pub fn set_enabled(&mut self, enabled: bool)
        requires
            old(self).wf(),
        ensures
            final(self).wf(),
            final(self).spec_enabled() == enabled,
            final(self).bands_map() == old(self).bands_map(),
    {
        self.enabled = enabled;
    }

    /// The stored gain of one band.
    pub fn band_gain(&self, frequency: u32) -> (gain: Option<i64>)
        requires
            self.wf(),
        ensures
            match gain {
                Some(g) => self.bands_map().contains_key(frequency) && self.bands_map()[frequency]
                    == g,
                None => !self.bands_map().contains_key(frequency),
            },
    {
        let mut k: usize = 0;
        while k < self.bands.len()
            invariant
                self.wf(),
                k <= self.bands@.len(),
                forall|j: int| 0 <= j < k ==> (#[trigger] self.bands@[j]).0 != frequency,
            decreases self.bands@.len() - k,
        {
            if self.bands[k].0 == frequency {
                proof {
                    lemma_band_gain_at(self.bands@, k as int, frequency);
                }
                return Some(self.bands[k].1);
            }
            k = k + 1;
        }
        proof {
            lemma_map_of_bands_key(self.bands@, frequency);
        }
        None
    }

    /// Whether the (inert) equalizer is switched on.
    pub fn is_enabled(&self) -> (enabled: bool)
        ensures
            enabled == self.spec_enabled(),
    {
        self.enabled
    }
}

/// The mapping reads a key off the one entry that holds it.
proof fn lemma_band_gain_at(bands: Seq<(u32, i64)>, i: int, frequency: u32)
    requires
        0 <= i < bands.len(),
        bands[i].0 == frequency,
        forall|a: int, b: int|
            0 <= a < b < bands.len() ==> (#[trigger] bands[a]).0 != (#[trigger] bands[b]).0,
    ensures
        map_of_bands(bands).contains_key(frequency),
        map_of_bands(bands)[frequency] == bands[i].1,
    decreases bands.len(),
{
    if i == bands.len() - 1 {
    } else {
        assert(bands.drop_last()[i] == bands[i]);
        lemma_band_gain_at(bands.drop_last(), i, frequency);
        assert(bands.last().0 != frequency);
    }
}

impl Default for EqualizerBands {
    /// The ten standard bands, all flat, equalizer off.
    fn default() -> (eq: EqualizerBands)
        ensures
            eq.wf(),
            !eq.spec_enabled(),
            eq.bands_map() == preset_applied(
                Map::<u32, i64>::empty(),
                Seq::new(PRESET_BANDS as nat, |i: int| 0i64),
                PRESET_BANDS as int,
            ),
    {
        let mut eq = EqualizerBands { bands: Vec::new(), enabled: false };
        let zeros: Vec<i64> = vec![0, 0, 0, 0, 0, 0, 0, 0, 0, 0];
        proof {
            assert(eq.bands_map() =~= Map::<u32, i64>::empty());
            assert(zeros@ =~= Seq::new(PRESET_BANDS as nat, |i: int| 0i64));
        }
        eq.set_preset(&zeros);
        eq
    }
}

} // verus!
