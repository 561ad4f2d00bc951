//! The local instrument repository and the even more forgiving flat
//! format it reads: pieces between braces, fields looked up by a
//! quoted key, digits collected wherever they start after the colon.

use vstd::prelude::*;

use crate::common::id::{spec_parse_hex_id, Id};
use crate::instruments::model::{Clef, Instrument, InstrumentFamily, Pitch};
use crate::text::{
    find_char_from, find_str, lemma_find_some, spec_find, spec_find_from, spec_is_dec_digit,
    spec_trim, str_eq, trim_str,
};

verus! {

#[derive(Debug)]
pub enum InstrumentRepositoryError {
    Parse(String),
}

/// The `"key"` marker that locates a field.
pub open spec fn spec_marker(key: Seq<char>) -> Seq<char> {
    "\""@ + key + "\""@
}

fn build_marker(key: &str) -> (marker: String)
    ensures
        marker@ == spec_marker(key@),
{
    let mut marker = "\"".to_owned();
    marker.append(key);
    marker.append("\"");
    marker
}

/// The string value of a field: the text between the first pair of
/// quotes after the `"key"` marker.
pub open spec fn spec_extract_string(obj: Seq<char>, key: Seq<char>) -> Option<Seq<char>> {
    match spec_find(obj, spec_marker(key)) {
        None => None,
        Some(start) => {
            let tail = obj.subrange(start + spec_marker(key).len(), obj.len() as int);
            match spec_find(tail, "\""@) {
                None => None,
                Some(q1) => {
                    let rest = tail.subrange(q1 + 1, tail.len() as int);
                    match spec_find(rest, "\""@) {
                        None => None,
                        Some(q2) => Some(rest.subrange(0, q2)),
                    }
                },
            }
        },
    }
}

/// Reads the string value of a field.
fn extract_string(obj: &str, key: &str) -> (found: Option<String>)
    ensures
        match found {
            Some(s) => spec_extract_string(obj@, key@) == Some(s@),
            None => spec_extract_string(obj@, key@) is None,
        },
{
    let marker = build_marker(key);
    let start = match find_str(obj, marker.as_str()) {
        Some(start) => start,
        None => {
            return None;
        },
    };
    proof {
        lemma_find_some(obj@, marker@, start as int);
    }
    let obj_len = obj.unicode_len();
    let tail = obj.substring_char(start + marker.unicode_len(), obj_len);
    let q1 = match find_str(tail, "\"") {
        Some(q1) => q1,
        None => {
            return None;
        },
    };
    proof {
        reveal_strlit("\"");
        lemma_find_some(tail@, "\""@, q1 as int);
    }
    let rest = tail.substring_char(q1 + 1, tail.unicode_len());
    let q2 = match find_str(rest, "\"") {
        Some(q2) => q2,
        None => {
            return None;
        },
    };
    proof {
        reveal_strlit("\"");
        lemma_find_some(rest@, "\""@, q2 as int);
    }
    Some(rest.substring_char(0, q2).to_owned())
}

/// Position of the first digit or minus sign at or after `i`.
pub open spec fn spec_digit_start(s: Seq<char>, i: int) -> int
    decreases s.len() - i,
{
    if i < 0 || i >= s.len() {
        s.len() as int
    } else if spec_is_dec_digit(s[i]) || s[i] == '-' {
        i
    } else {
        spec_digit_start(s, i + 1)
    }
}

/// Position of the first character after `i` that is neither a digit
/// nor a minus sign.
pub open spec fn spec_digit_end(s: Seq<char>, i: int) -> int
    decreases s.len() - i,
{
    if i < 0 || i >= s.len() {
        s.len() as int
    } else if spec_is_dec_digit(s[i]) || s[i] == '-' {
        spec_digit_end(s, i + 1)
    } else {
        i
    }
}

/// The digit run of a field: wherever digits first appear after the
/// colon that follows the `"key"` marker.
pub open spec fn spec_digit_run(obj: Seq<char>, key: Seq<char>) -> Option<Seq<char>> {
    match spec_find(obj, spec_marker(key)) {
        None => None,
        Some(start) => {
            let tail = obj.subrange(start + spec_marker(key).len(), obj.len() as int);
            match spec_find(tail, ":"@) {
                None => None,
                Some(colon) => {
                    let after = tail.subrange(colon + 1, tail.len() as int);
                    let run_start = spec_digit_start(after, 0);
                    let run_end = spec_digit_end(after, run_start);
                    Some(after.subrange(run_start, run_end))
                },
            }
        },
    }
}

/// The numeric value of a field, if its digit run parses as an `i32`.
pub open spec fn spec_extract_int(obj: Seq<char>, key: Seq<char>) -> Option<int> {
    match spec_digit_run(obj, key) {
        None => None,
        Some(run) => crate::instruments::registry::spec_parse_i32(run),
    }
}

/// Reads the numeric value of a field.
#[verifier::loop_isolation(false)]
fn extract_int(obj: &str, key: &str) -> (found: Option<i32>)
    ensures
        match found {
            Some(v) => spec_extract_int(obj@, key@) == Some(v as int),
            None => spec_extract_int(obj@, key@) is None,
        },
{
    let marker = build_marker(key);
    let start = match find_str(obj, marker.as_str()) {
        Some(start) => start,
        None => {
            return None;
        },
    };
    proof {
        lemma_find_some(obj@, marker@, start as int);
    }
    let obj_len = obj.unicode_len();
    let tail = obj.substring_char(start + marker.unicode_len(), obj_len);
    let colon = match find_str(tail, ":") {
        Some(colon) => colon,
        None => {
            return None;
        },
    };
    proof {
        reveal_strlit(":");
        lemma_find_some(tail@, ":"@, colon as int);
    }
    let after = tail.substring_char(colon + 1, tail.unicode_len());
    let after_len = after.unicode_len();
    let mut run_start: usize = 0;
    while run_start < after_len && !char_is_digit_or_minus(after.get_char(run_start))
        invariant
            0 <= run_start <= after_len,
            spec_digit_start(after@, 0) == spec_digit_start(after@, run_start as int),
        decreases after_len - run_start,
    {
        run_start = run_start + 1;
    }
    let mut run_end: usize = run_start;
    while run_end < after_len && char_is_digit_or_minus(after.get_char(run_end))
        invariant
            run_start <= run_end <= after_len,
            spec_digit_end(after@, run_start as int) == spec_digit_end(after@, run_end as int),
        decreases after_len - run_end,
    {
        run_end = run_end + 1;
    }
    let run = after.substring_char(run_start, run_end);
    crate::instruments::registry::parse_i32_text(run)
}

fn char_is_digit_or_minus(c: char) -> (b: bool)
    ensures
        b == (spec_is_dec_digit(c) || c == '-'),
{
    ('0' <= c && c <= '9') || c == '-'
}

/// The numeric value of a field when it fits a `u8`.
pub open spec fn spec_extract_u8(obj: Seq<char>, key: Seq<char>) -> Option<int> {
    match spec_extract_int(obj, key) {
        None => None,
        Some(v) => if 0 <= v <= 255 {
            Some(v)
        } else {
            None
        },
    }
}

fn extract_u8(obj: &str, key: &str) -> (found: Option<u8>)
    ensures
        match found {
            Some(v) => spec_extract_u8(obj@, key@) == Some(v as int),
            None => spec_extract_u8(obj@, key@) is None,
        },
{
    match extract_int(obj, key) {
        None => None,
        Some(v) => {
            if 0 <= v && v <= 255 {
                Some(v as u8)
            } else {
                None
            }
        },
    }
}

/// The numeric value of a field when it fits an `i8`.
pub open spec fn spec_extract_i8(obj: Seq<char>, key: Seq<char>) -> Option<int> {
    match spec_extract_int(obj, key) {
        None => None,
        Some(v) => if -128 <= v <= 127 {
            Some(v)
        } else {
            None
        },
    }
}

fn extract_i8(obj: &str, key: &str) -> (found: Option<i8>)
    ensures
        match found {
            Some(v) => spec_extract_i8(obj@, key@) == Some(v as int),
            None => spec_extract_i8(obj@, key@) is None,
        },
{
    match extract_int(obj, key) {
        None => None,
        Some(v) => {
            if -128 <= v && v <= 127 {
                Some(v as i8)
            } else {
                None
            }
        },
    }
}

/// The instrument family a repository entry may name.
pub open spec fn spec_repo_family(value: Seq<char>) -> Option<InstrumentFamily> {
    if value == "Orchestral"@ {
        Some(InstrumentFamily::Orchestral)
    } else if value == "Baroque"@ {
        Some(InstrumentFamily::Baroque)
    } else if value == "Medieval"@ {
        Some(InstrumentFamily::Medieval)
    } else if value == "Ethnic"@ {
        Some(InstrumentFamily::Ethnic)
    } else if value == "Electronic"@ {
        Some(InstrumentFamily::Electronic)
    } else if value == "VoiceSatb"@ {
        Some(InstrumentFamily::VoiceSatb)
    } else if value == "GlobalPercussion"@ {
        Some(InstrumentFamily::GlobalPercussion)
    } else {
        None
    }
}

fn parse_family(value: &str) -> (outcome: Result<InstrumentFamily, InstrumentRepositoryError>)
    ensures
        match spec_repo_family(value@) {
            Some(f) => outcome matches Ok(g) && g == f,
            None => outcome matches Err(e) && (e matches InstrumentRepositoryError::Parse(m) && m@
                == "invalid family"@),
        },
{
    if str_eq(value, "Orchestral") {
        Ok(InstrumentFamily::Orchestral)
    } else if str_eq(value, "Baroque") {
        Ok(InstrumentFamily::Baroque)
    } else if str_eq(value, "Medieval") {
        Ok(InstrumentFamily::Medieval)
    } else if str_eq(value, "Ethnic") {
        Ok(InstrumentFamily::Ethnic)
    } else if str_eq(value, "Electronic") {
        Ok(InstrumentFamily::Electronic)
    } else if str_eq(value, "VoiceSatb") {
        Ok(InstrumentFamily::VoiceSatb)
    } else if str_eq(value, "GlobalPercussion") {
        Ok(InstrumentFamily::GlobalPercussion)
    } else {
        Err(InstrumentRepositoryError::Parse("invalid family".to_owned()))
    }
}

/// The clef a repository entry may name.
pub open spec fn spec_repo_clef(value: Seq<char>) -> Option<Clef> {
    if value == "Treble"@ {
        Some(Clef::Treble)
    } else if value == "Bass"@ {
        Some(Clef::Bass)
    } else if value == "Alto"@ {
        Some(Clef::Alto)
    } else if value == "Tenor"@ {
        Some(Clef::Tenor)
    } else if value == "Percussion"@ {
        Some(Clef::Percussion)
    } else {
        None
    }
}

fn parse_clef(value: &str) -> (outcome: Result<Clef, InstrumentRepositoryError>)
    ensures
        match spec_repo_clef(value@) {
            Some(c) => outcome matches Ok(g) && g == c,
            None => outcome matches Err(e) && (e matches InstrumentRepositoryError::Parse(m) && m@
                == "invalid clef"@),
        },
{
    if str_eq(value, "Treble") {
        Ok(Clef::Treble)
    } else if str_eq(value, "Bass") {
        Ok(Clef::Bass)
    } else if str_eq(value, "Alto") {
        Ok(Clef::Alto)
    } else if str_eq(value, "Tenor") {
        Ok(Clef::Tenor)
    } else if str_eq(value, "Percussion") {
        Ok(Clef::Percussion)
    } else {
        Err(InstrumentRepositoryError::Parse("invalid clef".to_owned()))
    }
}

/// The flat pieces of the content: what stands between each opening
/// brace and the closing brace (or next piece) after it, with no
/// depth tracking at all.
pub open spec fn spec_flat_pieces(s: Seq<char>, i: int) -> Seq<Seq<char>>
    decreases s.len() - i,
{
    if i < 0 || i >= s.len() {
        Seq::empty()
    } else {
        match spec_find_from(s, seq!['{'], i) {
        None => Seq::empty(),
        Some(found) => {
            let brace = if found < i {
                i
            } else if found >= s.len() {
                i
            } else {
                found
            };
            let after_brace = match spec_find_from(s, seq!['{'], brace + 1) {
                Some(next_brace) => next_brace,
                None => s.len() as int,
            };
            let piece_end = if after_brace < brace + 1 {
                brace + 1
            } else if after_brace > s.len() {
                s.len() as int
            } else {
                after_brace
            };
            let piece = s.subrange(brace + 1, piece_end);
            let obj = match spec_find(piece, seq!['}']) {
                Some(close) => piece.subrange(0, close),
                None => piece,
            };
                seq![obj] + spec_flat_pieces(s, brace + 1)
            },
        }
    }
}

/// The repository holds every inserted instrument in insertion
/// order; a later insert shadows an earlier one with the same
/// identifier, as the lookups say.
#[derive(Debug)]
pub struct InstrumentRepository {
    entries: Vec<Instrument>,
}

/// Index of the last entry with identifier `id`, if any.
pub open spec fn spec_last_entry_with_id(entries: Seq<Instrument>, id: Id) -> Option<int>
    decreases entries.len(),
{
    if entries.len() == 0 {
        None
    } else if entries.last().id == id {
        Some(entries.len() - 1)
    } else {
        spec_last_entry_with_id(entries.drop_last(), id)
    }
}

/// Whether some entry before `upto` carries identifier `id`.
pub open spec fn spec_repo_id_before(entries: Seq<Instrument>, id: Id, upto: int) -> bool
    decreases upto,
{
    if upto <= 0 || upto > entries.len() {
        false
    } else {
        entries[upto - 1].id == id || spec_repo_id_before(entries, id, upto - 1)
    }
}

/// Whether position `i` is the first appearance of its identifier.
pub open spec fn spec_first_occurrence(entries: Seq<Instrument>, i: int) -> bool {
    !spec_repo_id_before(entries, entries[i].id, i)
}

/// How many first appearances of identifiers lie before `upto`.
pub open spec fn spec_count_firsts(entries: Seq<Instrument>, upto: int) -> int
    decreases upto,
{
    if upto <= 0 || upto > entries.len() {
        0
    } else {
        spec_count_firsts(entries, upto - 1) + if spec_first_occurrence(entries, upto - 1) {
            1int
        } else {
            0int
        }
    }
}

/// How many distinct identifiers the entries carry.
pub open spec fn spec_repo_distinct_ids(entries: Seq<Instrument>) -> int {
    spec_count_firsts(entries, entries.len() as int)
}

impl Default for InstrumentRepository {
    fn default() -> (repository: Self)
        ensures
            repository.spec_entries().len() == 0,
    {
        InstrumentRepository { entries: Vec::new() }
    }
}

impl InstrumentRepository {
    /// The inserted instruments, in insertion order.
    pub closed spec fn spec_entries(self) -> Seq<Instrument> {
        self.entries@
    }

    /// Stores an instrument under its identifier; a later insert with
    /// the same identifier shadows this one.
    pub fn insert(&mut self, instrument: Instrument)
        ensures
            final(self).spec_entries() == old(self).spec_entries().push(instrument),
    {
        self.entries.push(instrument);
    }

    /// The last instrument stored under `id`, if any.
    pub fn get(&self, id: &Id) -> (found: Option<&Instrument>)
        ensures
            match found {
                Some(inst) => spec_last_entry_with_id(self.spec_entries(), *id) matches Some(j)
                    && *inst == self.spec_entries()[j],
                None => spec_last_entry_with_id(self.spec_entries(), *id) is None,
            },
    {
        let count = self.entries.len();
        proof {
            assert(self.entries@.subrange(0, count as int) =~= self.entries@);
        }
        let mut j: usize = count;
        while j > 0
            invariant
                0 <= j <= count == self.entries@.len(),
                spec_last_entry_with_id(self.entries@, *id) == spec_last_entry_with_id(
                    self.entries@.subrange(0, j as int),
                    *id,
                ),
            decreases j,
        {
            proof {
                assert(self.entries@.subrange(0, j as int).last() == self.entries@[j - 1]);
                assert(self.entries@.subrange(0, j as int).drop_last() =~= self.entries@.subrange(
                    0,
                    j - 1,
                ));
            }
            if self.entries[j - 1].id == *id {
                return Some(&self.entries[j - 1]);
            }
            j = j - 1;
        }
        proof {
            assert(self.entries@.subrange(0, 0) =~= Seq::<Instrument>::empty());
        }
        None
    }

    /// Every stored instrument, one per identifier: for each distinct
    /// identifier, the last instrument stored under it, in order of
    /// each identifier's first appearance.
    #[verifier::loop_isolation(false)]
    pub fn all(&self) -> (instruments: Vec<Instrument>)
        ensures
            instruments@.len() == spec_repo_distinct_ids(self.spec_entries()),
            forall|k: int|
                0 <= k < instruments@.len() ==> exists|j: int|
                    {
                        &&& spec_last_entry_with_id(
                            self.spec_entries(),
                            (#[trigger] instruments@[k]).id,
                        ) == Some(j)
                        &&& instruments@[k].spec_matches(self.spec_entries()[j])
                    },
    {
        let total = self.entries.len();
        let mut instruments: Vec<Instrument> = Vec::new();
        for i in 0..total
            invariant
                total == self.entries@.len(),
                instruments@.len() == spec_count_firsts(self.entries@, i as int),
                forall|k: int|
                    0 <= k < instruments@.len() ==> exists|j: int|
                        {
                            &&& spec_last_entry_with_id(
                                self.entries@,
                                (#[trigger] instruments@[k]).id,
                            ) == Some(j)
                            &&& instruments@[k].spec_matches(self.entries@[j])
                        },
        {
            let mut seen = false;
            let mut j: usize = 0;
            while j < i
                invariant
                    0 <= j <= i,
                    seen == spec_repo_id_before(self.entries@, self.entries@[i as int].id, j as int),
                decreases i - j,
            {
                if self.entries[j].id == self.entries[i].id {
                    seen = true;
                }
                j = j + 1;
            }
            if !seen {
                let wanted = self.entries[i].id;
                let found = self.get(&wanted);
                match found {
                    Some(instrument) => {
                        proof {
                            lemma_last_entry_found(self.entries@, wanted);
                        }
                        instruments.push(instrument.clone());
                        proof {
                            let pk = instruments@.len() - 1;
                            let target = spec_last_entry_with_id(self.entries@, wanted);
                            let j = target->0;
                            assert(instruments@[pk].spec_matches(self.entries@[j]));
                            assert(instruments@[pk].id == wanted);
                        }
                    },
                    None => {
                        proof {
                            lemma_last_entry_stable(self.entries@, i + 1, wanted);
                            assert(false);
                        }
                    },
                }
            }
        }
        proof {
            assert(spec_count_firsts(self.entries@, total as int) == spec_repo_distinct_ids(
                self.entries@,
            ));
        }
        instruments
    }

    /// How many distinct instruments the repository holds.
    pub fn len(&self) -> (count: usize)
        ensures
            count == spec_repo_distinct_ids(self.spec_entries()),
    {
        let all_instruments = self.all();
        all_instruments.len()
    }

    /// Whether the repository holds nothing at all.
    pub fn is_empty(&self) -> (empty: bool)
        ensures
            empty == (self.spec_entries().len() == 0),
    {
        self.entries.is_empty()
    }
}

/// A found last position really carries the identifier.
proof fn lemma_last_entry_found(entries: Seq<Instrument>, id: Id)
    requires
        spec_last_entry_with_id(entries, id) is Some,
    ensures
        spec_last_entry_with_id(entries, id) matches Some(j) && 0 <= j < entries.len()
            && entries[j].id == id,
    decreases entries.len(),
{
    if entries.len() > 0 && entries.last().id != id {
        lemma_last_entry_found(entries.drop_last(), id);
    }
}

/// Once an identifier's last position lies at or beyond `upto`, no
/// longer prefix moves it back before `upto`.
proof fn lemma_last_entry_stable(entries: Seq<Instrument>, upto: int, id: Id)
    requires
        0 < upto <= entries.len(),
        entries[upto - 1].id == id,
    ensures
        spec_last_entry_with_id(entries, id) matches Some(j) && j >= upto - 1,
    decreases entries.len(),
{
    if entries.len() == upto {
    } else {
        if entries.last().id == id {
        } else {
            lemma_last_entry_stable(entries.drop_last(), upto, id);
        }
    }
}


/// Collects the flat pieces of the content.
#[verifier::loop_isolation(false)]
fn flat_pieces(content: &str) -> (pieces: Vec<String>)
    ensures
        pieces@.map_values(|p: String| p@) == spec_flat_pieces(content@, 0),
{
    let n = content.unicode_len();
    let ghost full = spec_flat_pieces(content@, 0);
    let mut pieces: Vec<String> = Vec::new();
    let mut pos: usize = 0;
    while pos < n
        invariant
            0 <= pos <= n == content@.len(),
            full == pieces@.map_values(|p: String| p@) + spec_flat_pieces(content@, pos as int),
        decreases n - pos,
    {
        let ghost views_before = pieces@.map_values(|p: String| p@);
        let brace = match find_char_from(content, '{', pos) {
            Some(brace) => brace,
            None => {
                proof {
                    assert(spec_flat_pieces(content@, pos as int) =~= Seq::<Seq<char>>::empty());
                    assert(full =~= pieces@.map_values(|p: String| p@));
                }
                return pieces;
            },
        };
        let piece_end = match find_char_from(content, '{', brace + 1) {
            Some(next_brace) => next_brace,
            None => n,
        };
        let piece = content.substring_char(brace + 1, piece_end);
        let obj = match find_char_from(piece, '}', 0) {
            Some(close) => piece.substring_char(0, close),
            None => piece,
        };
        pieces.push(obj.to_owned());
        proof {
            assert(pieces@.map_values(|p: String| p@) =~= views_before.push(pieces@.last()@));
        }
        pos = brace + 1;
    }
    proof {
        assert(spec_flat_pieces(content@, pos as int) =~= Seq::<Seq<char>>::empty());
        assert(full =~= pieces@.map_values(|p: String| p@));
    }
    pieces
}

/// A piece that holds nothing but whitespace is skipped.
pub open spec fn spec_piece_blank(piece: Seq<char>) -> bool {
    spec_trim(piece).len() == 0
}

/// The clef text of a piece, with the treble default.
pub open spec fn spec_piece_clef_text(piece: Seq<char>) -> Seq<char> {
    match spec_extract_string(piece, "clef"@) {
        Some(text) => text,
        None => "Treble"@,
    }
}

/// A non-blank piece loads when its name, family and program are
/// present and well formed and its clef text (given or default)
/// names a clef.
#[verifier::opaque]
pub open spec fn spec_piece_ok(piece: Seq<char>) -> bool {
    spec_piece_blank(piece) || {
        &&& spec_extract_string(piece, "name"@) is Some
        &&& (spec_extract_string(piece, "family"@) matches Some(f) && spec_repo_family(f) is Some)
        &&& spec_extract_u8(piece, "midi_program"@) is Some
        &&& spec_repo_clef(spec_piece_clef_text(piece)) is Some
    }
}

/// How an instrument relates to the piece it was read from: fields
/// with defaults fall back exactly as documented, and a parsable
/// trimmed identifier is adopted (a fresh one is drawn otherwise).
#[verifier::opaque]
pub open spec fn spec_piece_matches_instrument(piece: Seq<char>, inst: Instrument) -> bool {
    &&& spec_extract_string(piece, "name"@) == Some(inst.name@)
    &&& (spec_extract_string(piece, "family"@) matches Some(f) && spec_repo_family(f) == Some(
        inst.family,
    ))
    &&& spec_extract_u8(piece, "midi_program"@) == Some(inst.midi_program as int)
    &&& inst.range_low.midi_note as int == match spec_extract_u8(piece, "range_low"@) {
        Some(v) => v,
        None => 36,
    }
    &&& inst.range_high.midi_note as int == match spec_extract_u8(piece, "range_high"@) {
        Some(v) => v,
        None => 96,
    }
    &&& inst.transposition as int == match spec_extract_i8(piece, "transposition"@) {
        Some(v) => v,
        None => 0,
    }
    &&& spec_repo_clef(spec_piece_clef_text(piece)) == Some(inst.clef)
    &&& match spec_extract_string(piece, "id"@) {
        Some(raw) => match spec_parse_hex_id(spec_trim(raw)) {
            Some(id) => inst.id == id,
            None => true,
        },
        None => true,
    }
}

/// How many non-blank pieces lie before `upto`.
pub open spec fn spec_nonblank_count(pieces: Seq<Seq<char>>, upto: int) -> int
    decreases upto,
{
    if upto <= 0 || upto > pieces.len() {
        0
    } else {
        spec_nonblank_count(pieces, upto - 1) + if spec_piece_blank(pieces[upto - 1]) {
            0int
        } else {
            1int
        }
    }
}

proof fn lemma_nonblank_count_monotone(pieces: Seq<Seq<char>>, a: int, b: int)
    requires
        0 <= a <= b <= pieces.len(),
    ensures
        spec_nonblank_count(pieces, a) <= spec_nonblank_count(pieces, b),
    decreases b - a,
{
    if a < b {
        lemma_nonblank_count_monotone(pieces, a, b - 1);
    }
}

/// Loads one piece: nothing for a blank piece, an instrument for a
/// piece that reads back, an error otherwise.
fn load_piece(piece: &str) -> (outcome: Result<Option<Instrument>, InstrumentRepositoryError>)
    ensures
        outcome is Ok <==> spec_piece_ok(piece@),
        outcome matches Ok(read) ==> ((read is None) <==> spec_piece_blank(piece@)),
        outcome matches Ok(read) ==> (read matches Some(inst)
            ==> spec_piece_matches_instrument(piece@, inst)),
        outcome matches Err(e) ==> e is Parse,
{
    proof {
        reveal(spec_piece_ok);
        reveal(spec_piece_matches_instrument);
    }
    let trimmed = trim_str(piece);
    if trimmed.unicode_len() == 0 {
        return Ok(None);
    }
    let name = match extract_string(piece, "name") {
        Some(name) => name,
        None => {
            return Err(InstrumentRepositoryError::Parse("missing name".to_owned()));
        },
    };
    let family_text = match extract_string(piece, "family") {
        Some(family_text) => family_text,
        None => {
            return Err(InstrumentRepositoryError::Parse("missing family".to_owned()));
        },
    };
    let family = match parse_family(family_text.as_str()) {
        Ok(family) => family,
        Err(error) => {
            return Err(error);
        },
    };
    let midi_program = match extract_u8(piece, "midi_program") {
        Some(midi_program) => midi_program,
        None => {
            return Err(InstrumentRepositoryError::Parse("missing midi_program".to_owned()));
        },
    };
    let low = match extract_u8(piece, "range_low") {
        Some(low) => low,
        None => 36,
    };
    let high = match extract_u8(piece, "range_high") {
        Some(high) => high,
        None => 96,
    };
    let transposition = match extract_i8(piece, "transposition") {
        Some(transposition) => transposition,
        None => 0,
    };
    let clef_text = match extract_string(piece, "clef") {
        Some(clef_text) => clef_text,
        None => "Treble".to_owned(),
    };
    let clef = match parse_clef(clef_text.as_str()) {
        Ok(clef) => clef,
        Err(error) => {
            return Err(error);
        },
    };
    let id = match extract_string(piece, "id") {
        Some(raw) => {
            match Id::from_hex(trim_str(raw.as_str())) {
                Some(id) => id,
                None => Id::new(),
            }
        },
        None => Id::new(),
    };
    Ok(
        Some(
            Instrument {
                id,
                name,
                family,
                range_low: Pitch::new(low),
                range_high: Pitch::new(high),
                transposition,
                clef,
                midi_program,
            },
        ),
    )
}

impl InstrumentRepository {
    /// Loads instruments from the flat bank text, appending one
    /// entry per non-blank piece, in order, until the first piece
    /// that does not load; earlier pieces stay loaded.
    #[verifier::loop_isolation(false)]
    #[verifier::rlimit(100)]
    #[verifier::spinoff_prover]
    pub fn load_json_str(&mut self, content: &str) -> (outcome: Result<
        usize,
        InstrumentRepositoryError,
    >)
        ensures
            ({
                let pieces = spec_flat_pieces(content@, 0);
                &&& (outcome is Ok <==> forall|k: int|
                    0 <= k < pieces.len() ==> spec_piece_ok(#[trigger] pieces[k]))
                &&& forall|j: int|
                    0 <= j < old(self).spec_entries().len() ==> final(self).spec_entries()[j]
                        == old(self).spec_entries()[j]
                &&& match outcome {
                    Ok(loaded) => {
                        &&& loaded == spec_nonblank_count(pieces, pieces.len() as int)
                        &&& final(self).spec_entries().len() == old(self).spec_entries().len()
                            + spec_nonblank_count(pieces, pieces.len() as int)
                        &&& forall|k: int|
                            0 <= k < pieces.len() && !spec_piece_blank(#[trigger] pieces[k])
                                ==> spec_piece_matches_instrument(
                                pieces[k],
                                final(self).spec_entries()[old(self).spec_entries().len()
                                    + spec_nonblank_count(pieces, k)],
                            )
                    },
                    Err(e) => e is Parse,
                }
            }),
    {
        let pieces = flat_pieces(content);
        let ghost piece_views = spec_flat_pieces(content@, 0);
        proof {
            assert(forall|j: int|
                0 <= j < pieces@.len() ==> (#[trigger] pieces@[j])@ == pieces@.map_values(
                    |p: String| p@,
                )[j]);
        }
        let mut loaded: usize = 0;
        let piece_count = pieces.len();
        let ghost base = self.spec_entries().len();
        let mut k: usize = 0;
        while k < piece_count
            invariant
                0 <= k <= piece_count == pieces@.len() == piece_views.len(),
                forall|j: int| 0 <= j < pieces@.len() ==> (#[trigger] pieces@[j])@ == piece_views[j],
                loaded == spec_nonblank_count(piece_views, k as int),
                loaded <= k,
                base == old(self).spec_entries().len(),
                self.spec_entries().len() == base + loaded,
                forall|j: int|
                    0 <= j < base ==> self.spec_entries()[j] == old(self).spec_entries()[j],
                forall|j: int| 0 <= j < k ==> spec_piece_ok(#[trigger] piece_views[j]),
                forall|j: int|
                    0 <= j < k && !spec_piece_blank(#[trigger] piece_views[j])
                        ==> spec_piece_matches_instrument(
                        piece_views[j],
                        self.spec_entries()[base + spec_nonblank_count(piece_views, j)],
                    ),
            decreases piece_count - k,
        {
            let ghost pre_entries = self.spec_entries();
            proof {
                assert(spec_nonblank_count(piece_views, k + 1) == spec_nonblank_count(
                    piece_views,
                    k as int,
                ) + if spec_piece_blank(piece_views[k as int]) {
                    0int
                } else {
                    1int
                });
            }
            let read = match load_piece(pieces[k].as_str()) {
                Ok(read) => read,
                Err(error) => {
                    proof {
                        assert(!spec_piece_ok(piece_views[k as int]));
                    }
                    return Err(error);
                },
            };
            proof {
                assert(pieces@[k as int]@ == piece_views[k as int]);
            }
            match read {
                Some(instrument) => {
                    let ghost idx = base + spec_nonblank_count(piece_views, k as int);
                    let ghost added = instrument;
                    proof {
                        assert(self.spec_entries().len() == idx);
                        assert(spec_piece_matches_instrument(piece_views[k as int], added));
                    }
                    self.insert(instrument);
                    proof {
                        assert(self.spec_entries() == pre_entries.push(added));
                        assert(self.spec_entries()[idx] == added);
                    }
                    loaded = loaded + 1;
                    proof {
                        assert forall|j: int|
                            0 <= j < k + 1 && !spec_piece_blank(#[trigger] piece_views[j])
                                implies spec_piece_matches_instrument(
                                piece_views[j],
                                self.spec_entries()[base + spec_nonblank_count(piece_views, j)],
                            ) by {
                            if j < k {
                                assert(spec_nonblank_count(piece_views, j + 1)
                                    == spec_nonblank_count(piece_views, j) + 1);
                                lemma_nonblank_count_monotone(piece_views, j + 1, k as int);
                                lemma_nonblank_count_monotone(piece_views, 0, j);
                                let i = base + spec_nonblank_count(piece_views, j);
                                assert(spec_piece_matches_instrument(
                                    piece_views[j],
                                    pre_entries[i],
                                ));
                                assert(i < pre_entries.len());
                                assert(pre_entries.push(added)[i] == pre_entries[i]);
                                assert(self.spec_entries()[i] == pre_entries[i]);
                            }
                        };
                    }
                },
                None => {
                    proof {
                        assert forall|j: int|
                            0 <= j < k + 1 && !spec_piece_blank(#[trigger] piece_views[j])
                                implies spec_piece_matches_instrument(
                                piece_views[j],
                                self.spec_entries()[base + spec_nonblank_count(piece_views, j)],
                            ) by {
                            if j < k {
                                assert(spec_nonblank_count(piece_views, j + 1)
                                    == spec_nonblank_count(piece_views, j) + 1);
                                lemma_nonblank_count_monotone(piece_views, j + 1, k as int);
                                lemma_nonblank_count_monotone(piece_views, 0, j);
                                let i = base + spec_nonblank_count(piece_views, j);
                                assert(spec_piece_matches_instrument(
                                    piece_views[j],
                                    pre_entries[i],
                                ));
                                assert(i < pre_entries.len());
                                assert(self.spec_entries() == pre_entries);
                            }
                        };
                    }
                },
            }

            k = k + 1;
        }
        Ok(loaded)
    }

    /// A repository preloaded with the built-in instruments.
    pub fn with_builtin() -> (repository: InstrumentRepository)
        ensures
            repository.spec_entries().len() == 6,
            forall|k: int|
                0 <= k < 6 ==> spec_builtin_entry_matches(
                    k,
                    #[trigger] repository.spec_entries()[k],
                ),
    {
        let mut repository = InstrumentRepository::default();
        repository.add_builtin_instruments();
        repository
    }

    /// Appends the built-in instruments, each under a fresh
    /// identifier.
    fn add_builtin_instruments(&mut self)
        ensures
            final(self).spec_entries().len() == old(self).spec_entries().len() + 6,
            forall|j: int|
                0 <= j < old(self).spec_entries().len() ==> final(self).spec_entries()[j] == old(
                    self,
                ).spec_entries()[j],
            forall|k: int|
                0 <= k < 6 ==> spec_builtin_entry_matches(
                    k,
                    #[trigger] final(self).spec_entries()[old(self).spec_entries().len() + k],
                ),
            old(self).spec_entries().len() == 0 ==> forall|k: int|
                0 <= k < 6 ==> spec_builtin_entry_matches(
                    k,
                    #[trigger] final(self).spec_entries()[k],
                ),
    {
        self.insert(
            Instrument {
                id: Id::new(),
                name: "Violin".to_owned(),
                family: InstrumentFamily::Orchestral,
                range_low: Pitch::new(55),
                range_high: Pitch::new(103),
                transposition: 0,
                clef: Clef::Treble,
                midi_program: 40,
            },
        );
        self.insert(
            Instrument {
                id: Id::new(),
                name: "Soprano".to_owned(),
                family: InstrumentFamily::VoiceSatb,
                range_low: Pitch::new(60),
                range_high: Pitch::new(84),
                transposition: 0,
                clef: Clef::Treble,
                midi_program: 53,
            },
        );
        self.insert(
            Instrument {
                id: Id::new(),
                name: "Duduk".to_owned(),
                family: InstrumentFamily::Ethnic,
                range_low: Pitch::new(50),
                range_high: Pitch::new(79),
                transposition: -2,
                clef: Clef::Treble,
                midi_program: 71,
            },
        );
        self.insert(
            Instrument {
                id: Id::new(),
                name: "Lute".to_owned(),
                family: InstrumentFamily::Baroque,
                range_low: Pitch::new(40),
                range_high: Pitch::new(76),
                transposition: 0,
                clef: Clef::Treble,
                midi_program: 24,
            },
        );
        self.insert(
            Instrument {
                id: Id::new(),
                name: "Frame Drum".to_owned(),
                family: InstrumentFamily::GlobalPercussion,
                range_low: Pitch::new(35),
                range_high: Pitch::new(81),
                transposition: 0,
                clef: Clef::Percussion,
                midi_program: 118,
            },
        );
        self.insert(
            Instrument {
                id: Id::new(),
                name: "Synth Pad".to_owned(),
                family: InstrumentFamily::Electronic,
                range_low: Pitch::new(36),
                range_high: Pitch::new(96),
                transposition: 0,
                clef: Clef::Treble,
                midi_program: 88,
            },
        );
    }
}

/// The built-in instrument table, row by row (identifiers are drawn
/// fresh and are not part of the table).
pub open spec fn spec_builtin_entry_matches(k: int, inst: Instrument) -> bool {
    if k == 0 {
        inst.name@ == "Violin"@ && inst.family == InstrumentFamily::Orchestral
            && inst.range_low.midi_note == 55 && inst.range_high.midi_note == 103
            && inst.transposition == 0 && inst.clef == Clef::Treble && inst.midi_program == 40
    } else if k == 1 {
        inst.name@ == "Soprano"@ && inst.family == InstrumentFamily::VoiceSatb
            && inst.range_low.midi_note == 60 && inst.range_high.midi_note == 84
            && inst.transposition == 0 && inst.clef == Clef::Treble && inst.midi_program == 53
    } else if k == 2 {
        inst.name@ == "Duduk"@ && inst.family == InstrumentFamily::Ethnic
            && inst.range_low.midi_note == 50 && inst.range_high.midi_note == 79
            && inst.transposition == -2 && inst.clef == Clef::Treble && inst.midi_program == 71
    } else if k == 3 {
        inst.name@ == "Lute"@ && inst.family == InstrumentFamily::Baroque
            && inst.range_low.midi_note == 40 && inst.range_high.midi_note == 76
            && inst.transposition == 0 && inst.clef == Clef::Treble && inst.midi_program == 24
    } else if k == 4 {
        inst.name@ == "Frame Drum"@ && inst.family == InstrumentFamily::GlobalPercussion
            && inst.range_low.midi_note == 35 && inst.range_high.midi_note == 81
            && inst.transposition == 0 && inst.clef == Clef::Percussion && inst.midi_program
            == 118
    } else {
        inst.name@ == "Synth Pad"@ && inst.family == InstrumentFamily::Electronic
            && inst.range_low.midi_note == 36 && inst.range_high.midi_note == 96
            && inst.transposition == 0 && inst.clef == Clef::Treble && inst.midi_program == 88
    }
}

} // verus!
