//! The glyph atlas cache: each registered symbol gets a stable atlas
//! slot, assigned in registration order.

use vstd::prelude::*;
use vstd::string::StringSliceAdditionalSpecFns;

verus! {

#[derive(Clone, Copy, Debug)]
pub struct GlyphEntry {
    pub symbol: &'static str,
    pub atlas_index: usize,
}

/// Whether some entry before `upto` carries the symbol.
pub open spec fn spec_symbol_before(entries: Seq<GlyphEntry>, symbol: Seq<char>, upto: int) -> bool
    decreases upto,
{
    if upto <= 0 || upto > entries.len() {
        false
    } else {
        entries[upto - 1].symbol@ == symbol || spec_symbol_before(entries, symbol, upto - 1)
    }
}

#[derive(Clone, Debug)]
pub struct GlyphCache {
    entries: Vec<GlyphEntry>,
}

impl Default for GlyphCache {
    fn default() -> (cache: Self)
        ensures
            cache.spec_entries().len() == 0,
    {
        GlyphCache { entries: Vec::new() }
    }
}

/// Checksum fold over the entries: atlas slot plus symbol byte
/// length per entry, saturating at the machine word.
pub open spec fn spec_atlas_checksum(entries: Seq<GlyphEntry>, word_max: int) -> int
    decreases entries.len(),
{
    if entries.len() == 0 {
        0
    } else {
        let rest = spec_atlas_checksum(entries.drop_last(), word_max);
        let term = entries.last().atlas_index + (entries.last().symbol.spec_bytes().len() as usize);
        if rest + term > word_max {
            word_max
        } else {
            rest + term
        }
    }
}

impl GlyphCache {
    /// The registered entries, in registration order.
    pub closed spec fn spec_entries(self) -> Seq<GlyphEntry> {
        self.entries@
    }

    /// Registers a symbol: a new symbol takes the next atlas slot, a
    /// known one is left alone.
    #[verifier::loop_isolation(false)]
    pub fn register(&mut self, symbol: &'static str)
        ensures
            spec_symbol_before(
                old(self).spec_entries(),
                symbol@,
                old(self).spec_entries().len() as int,
            ) ==> final(self).spec_entries() == old(self).spec_entries(),
            !spec_symbol_before(
                old(self).spec_entries(),
                symbol@,
                old(self).spec_entries().len() as int,
            ) ==> final(self).spec_entries() == old(self).spec_entries().push(
                GlyphEntry { symbol, atlas_index: old(self).spec_entries().len() as usize },
            ),
    {
        let count = self.entries.len();
        let mut i: usize = 0;
        while i < count
            invariant
                0 <= i <= count,
                !spec_symbol_before(self.entries@, symbol@, i as int),
            decreases count - i,
        {
            if crate::text::str_eq(self.entries[i].symbol, symbol) {
                proof {
                    assert(spec_symbol_before(self.entries@, symbol@, i + 1));
                    lemma_symbol_before_widens(self.entries@, symbol@, i + 1, count as int);
                }
                return ;
            }
            i = i + 1;
        }
        self.entries.push(GlyphEntry { symbol, atlas_index: count });
    }

    /// Preloads the musical symbols the renderer always needs.
    pub fn warmup_music_symbols(&mut self)
        ensures
            final(self).spec_entries().len() >= old(self).spec_entries().len(),
            final(self).spec_entries().len() <= old(self).spec_entries().len() + 9,
    {
        self.register("𝄞");
        self.register("𝄢");
        self.register("𝄡");
        self.register("♯");
        self.register("♭");
        self.register("●");
        self.register("○");
        self.register("𝅘𝅥𝅮");
        self.register("𝅘𝅥𝅯");
    }

    /// How many symbols are registered.
    pub fn entry_count(&self) -> (count: usize)
        ensures
            count == self.spec_entries().len(),
    {
        self.entries.len()
    }

    /// A cheap fingerprint of the atlas: the saturating sum of each
    /// entry's slot and symbol byte length.
    #[verifier::loop_isolation(false)]
    pub fn atlas_checksum(&self) -> (checksum: usize)
        ensures
            checksum == spec_atlas_checksum(self.spec_entries(), usize::MAX as int),
    {
        let count = self.entries.len();
        let mut checksum: usize = 0;
        proof {
            assert(self.entries@.subrange(0, 0) =~= Seq::<GlyphEntry>::empty());
        }
        let mut i: usize = 0;
        while i < count
            invariant
                0 <= i <= count,
                checksum == spec_atlas_checksum(
                    self.entries@.subrange(0, i as int),
                    usize::MAX as int,
                ),
            decreases count - i,
        {
            proof {
                assert(self.entries@.subrange(0, i + 1).drop_last() =~= self.entries@.subrange(
                    0,
                    i as int,
                ));
                assert(self.entries@.subrange(0, i + 1).last() == self.entries@[i as int]);
                lemma_checksum_bounds(self.entries@.subrange(0, i as int), usize::MAX as int);
            }
            let term_slot = self.entries[i].atlas_index;
            let term_len = self.entries[i].symbol.len();
            if term_slot <= usize::MAX - term_len && checksum <= usize::MAX - term_slot - term_len {
                checksum = checksum + term_slot + term_len;
            } else {
                checksum = usize::MAX;
            }
            i = i + 1;
        }
        proof {
            assert(self.entries@.subrange(0, count as int) =~= self.entries@);
        }
        checksum
    }
}

proof fn lemma_checksum_bounds(entries: Seq<GlyphEntry>, word_max: int)
    requires
        word_max >= 0,
    ensures
        0 <= spec_atlas_checksum(entries, word_max) <= word_max,
    decreases entries.len(),
{
    if entries.len() > 0 {
        lemma_checksum_bounds(entries.drop_last(), word_max);
    }
}

proof fn lemma_symbol_before_widens(entries: Seq<GlyphEntry>, symbol: Seq<char>, a: int, b: int)
    requires
        0 < a <= b <= entries.len(),
        spec_symbol_before(entries, symbol, a),
    ensures
        spec_symbol_before(entries, symbol, b),
    decreases b - a,
{
    if a < b {
        lemma_symbol_before_widens(entries, symbol, a + 1, b);
    }
}

} // verus!
