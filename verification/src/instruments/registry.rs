//! The instrument registry and the relaxed JSON bank format it reads.
//!
//! The bank is an array of flat objects.  The reader is deliberately
//! forgiving: it looks fields up by the exact `"key":` pattern, takes
//! the next quoted run for a string and the next digit run for a
//! number, and tracks only brace depth when splitting the array into
//! objects.  That grammar, not full JSON, is specified here.

use vstd::prelude::*;

use crate::project::Uuid;
use crate::text::{
    char_is_dec_digit, char_is_trim_space, dec_value, find_str, lemma_find_some, spec_find,
    spec_is_dec_digit, spec_skip_spaces, spec_trim, str_eq, trim_str,
};

verus! {

/// What `str::to_lowercase` returns for the given characters; the
/// result depends on the characters alone.
pub uninterp spec fn lower_of(s: Seq<char>) -> Seq<char>;

/// Relies on str::to_lowercase for Unicode case folding.
#[verifier::external_body]
fn lowercase(s: &str) -> (lowered: String)
    ensures
        lowered@ == lower_of(s@),
{
    s.to_lowercase()
}

#[derive(Clone, Copy, Debug, PartialEq, Eq, Hash, Structural)]
pub enum InstrumentFamily {
    Orchestral,
    Baroque,
    Medieval,
    Ethnic,
    Electronic,
    Voice,
    Percussion,
}

#[derive(Clone, Copy, Debug, PartialEq, Eq, Structural)]
pub enum Clef {
    Treble,
    Bass,
    Alto,
    Tenor,
    Percussion,
}

#[derive(Clone, Copy, Debug, PartialEq, Eq, Structural)]
pub struct Pitch {
    pub midi: u8,
}

#[derive(Debug)]
pub struct Instrument {
    pub id: Uuid,
    pub name: String,
    pub family: InstrumentFamily,
    pub range_low: Pitch,
    pub range_high: Pitch,
    pub transposition: i8,
    pub clef: Clef,
    pub midi_program: u8,
}

impl Instrument {
    /// Field-for-field agreement, comparing text by content.
    pub open spec fn spec_matches(self, other: Instrument) -> bool {
        &&& self.id@ == other.id@
        &&& self.name@ == other.name@
        &&& self.family == other.family
        &&& self.range_low == other.range_low
        &&& self.range_high == other.range_high
        &&& self.transposition == other.transposition
        &&& self.clef == other.clef
        &&& self.midi_program == other.midi_program
    }
}

impl Clone for Instrument {
    fn clone(&self) -> (res: Self)
        ensures
            res.spec_matches(*self),
    {
        Instrument {
            id: self.id.clone(),
            name: self.name.clone(),
            family: self.family,
            range_low: self.range_low,
            range_high: self.range_high,
            transposition: self.transposition,
            clef: self.clef,
            midi_program: self.midi_program,
        }
    }
}

#[derive(Clone, Debug, PartialEq, Eq)]
pub enum InstrumentRegistryError {
    Parse(String),
    Validation(String),
}

/// The `"key":` pattern that locates a field.
pub open spec fn spec_key_pattern(key: Seq<char>) -> Seq<char> {
    "\""@ + key + "\":"@
}

fn build_key_pattern(key: &str) -> (pattern: String)
    ensures
        pattern@ == spec_key_pattern(key@),
{
    let mut pattern = "\"".to_owned();
    pattern.append(key);
    pattern.append("\":");
    pattern
}

/// The string value of a field: the text between the first pair of
/// quotes after the `"key":` pattern.
pub open spec fn spec_json_string(obj: Seq<char>, key: Seq<char>) -> Option<Seq<char>> {
    match spec_find(obj, spec_key_pattern(key)) {
        None => None,
        Some(start) => {
            let tail = obj.subrange(start + spec_key_pattern(key).len(), obj.len() as int);
            match spec_find(tail, "\""@) {
                None => None,
                Some(q1) => {
                    let rest = tail.subrange(q1 + 1, tail.len() as int);
                    match spec_find(rest, "\""@) {
                        None => None,
                        Some(q2) => Some(rest.subrange(0, q2)),
                    }
                },
            }
        },
    }
}

/// Whether the `"key":` pattern is absent altogether.
pub open spec fn spec_json_field_missing(obj: Seq<char>, key: Seq<char>) -> bool {
    spec_find(obj, spec_key_pattern(key)) is None
}

/// Reads the string value of a field.
fn json_string(obj: &str, key: &str) -> (outcome: Result<String, InstrumentRegistryError>)
    ensures
        match spec_json_string(obj@, key@) {
            Some(v) => outcome matches Ok(s) && s@ == v,
            None => outcome matches Err(e) && (e matches InstrumentRegistryError::Parse(m) && m@
                == if spec_json_field_missing(obj@, key@) {
                "campo ausente: "@ + key@
            } else {
                "valor string inválido: "@ + key@
            }),
        },
{
    let pattern = build_key_pattern(key);
    let start = match find_str(obj, pattern.as_str()) {
        Some(start) => start,
        None => {
            let mut message = "campo ausente: ".to_owned();
            message.append(key);
            return Err(InstrumentRegistryError::Parse(message));
        },
    };
    proof {
        lemma_find_some(obj@, pattern@, start as int);
    }
    let obj_len = obj.unicode_len();
    let tail = obj.substring_char(start + pattern.unicode_len(), obj_len);
    let q1 = match find_str(tail, "\"") {
        Some(q1) => q1,
        None => {
            let mut message = "valor string inválido: ".to_owned();
            message.append(key);
            return Err(InstrumentRegistryError::Parse(message));
        },
    };
    proof {
        reveal_strlit("\"");
        lemma_find_some(tail@, "\""@, q1 as int);
    }
    let rest = tail.substring_char(q1 + 1, tail.unicode_len());
    let q2 = match find_str(rest, "\"") {
        Some(q2) => q2,
        None => {
            let mut message = "valor string inválido: ".to_owned();
            message.append(key);
            return Err(InstrumentRegistryError::Parse(message));
        },
    };
    proof {
        reveal_strlit("\"");
        lemma_find_some(rest@, "\""@, q2 as int);
    }
    Ok(rest.substring_char(0, q2).to_owned())
}

/// Nothing but decimal digits.
pub open spec fn spec_all_dec_digits(s: Seq<char>) -> bool {
    forall|i: int| 0 <= i < s.len() ==> spec_is_dec_digit(#[trigger] s[i])
}

/// What `str::parse::<i32>` accepts: an optional sign followed by
/// decimal digits whose value fits an `i32`.
pub open spec fn spec_parse_i32(s: Seq<char>) -> Option<int> {
    if s.len() == 0 {
        None
    } else {
        let negative = s[0] == '-';
        let digits = if s[0] == '+' || s[0] == '-' {
            s.drop_first()
        } else {
            s
        };
        if digits.len() == 0 {
            None
        } else if !spec_all_dec_digits(digits) {
            None
        } else if negative {
            if dec_value(digits) > 0x8000_0000 {
                None
            } else {
                Some(-dec_value(digits))
            }
        } else {
            if dec_value(digits) > 0x7FFF_FFFF {
                None
            } else {
                Some(dec_value(digits))
            }
        }
    }
}

/// Length of the leading run of digits and minus signs.
pub open spec fn spec_number_run(s: Seq<char>, i: int) -> int
    decreases s.len() - i,
{
    if i < 0 || i >= s.len() {
        if i < 0 {
            0
        } else {
            s.len() as int
        }
    } else if spec_is_dec_digit(s[i]) || s[i] == '-' {
        spec_number_run(s, i + 1)
    } else {
        i
    }
}

/// The numeric value of a field: the leading digit run after the
/// `"key":` pattern and any whitespace, read as an `i32`.
pub open spec fn spec_json_number(obj: Seq<char>, key: Seq<char>) -> Option<int> {
    match spec_find(obj, spec_key_pattern(key)) {
        None => None,
        Some(start) => {
            let tail = obj.subrange(start + spec_key_pattern(key).len(), obj.len() as int);
            let content = tail.subrange(spec_skip_spaces(tail, 0), tail.len() as int);
            let run = content.subrange(0, spec_number_run(content, 0));
            spec_parse_i32(run)
        },
    }
}

/// A prefix of a digit string never exceeds the whole.
proof fn lemma_dec_value_prefix_bound(s: Seq<char>, k: int)
    requires
        0 <= k <= s.len(),
        spec_all_dec_digits(s),
    ensures
        0 <= dec_value(s.subrange(0, k)) <= dec_value(s),
    decreases s.len() - k,
{
    lemma_dec_value_nonneg(s.subrange(0, k));
    if k < s.len() {
        lemma_dec_value_prefix_bound(s, k + 1);
        assert(s.subrange(0, k + 1).drop_last() =~= s.subrange(0, k));
        assert(spec_is_dec_digit(s.subrange(0, k + 1).last()));
        lemma_dec_value_nonneg(s.subrange(0, k));
    } else {
        assert(s.subrange(0, k) =~= s);
    }
}

proof fn lemma_dec_value_nonneg(s: Seq<char>)
    requires
        spec_all_dec_digits(s),
    ensures
        dec_value(s) >= 0,
    decreases s.len(),
{
    if s.len() > 0 {
        assert(spec_all_dec_digits(s.drop_last()));
        lemma_dec_value_nonneg(s.drop_last());
    }
}

/// Reads a decimal run as `str::parse::<i32>` would.
#[verifier::loop_isolation(false)]
pub(crate) fn parse_i32_text(s: &str) -> (parsed: Option<i32>)
    ensures
        match parsed {
            Some(v) => spec_parse_i32(s@) == Some(v as int),
            None => spec_parse_i32(s@) is None,
        },
{
    let n = s.unicode_len();
    if n == 0 {
        return None;
    }
    let first = s.get_char(0);
    let negative = first == '-';
    let start: usize = if first == '+' || first == '-' {
        1
    } else {
        0
    };
    let ghost digits = if first == '+' || first == '-' {
        s@.drop_first()
    } else {
        s@
    };
    proof {
        assert(digits.len() == n - start);
        assert(forall|k: int| 0 <= k < digits.len() ==> digits[k] == s@[k + start]);
    }
    if n == start {
        return None;
    }
    let mut acc: u64 = 0;
    let mut i: usize = start;
    while i < n
        invariant
            start <= i <= n,
            forall|k: int| 0 <= k < i - start ==> spec_is_dec_digit(#[trigger] digits[k]),
            acc == dec_value(digits.subrange(0, i - start)),
            acc <= 0x8000_0000,
        decreases n - i,
    {
        let c = s.get_char(i);
        proof {
            assert(c == digits[i - start]);
        }
        if !char_is_dec_digit(c) {
            proof {
                assert(!spec_all_dec_digits(digits));
            }
            return None;
        }
        let d = (c as u8) - 48;
        proof {
            assert(d == crate::text::digit_value(c));
            assert(digits.subrange(0, i + 1 - start).drop_last() =~= digits.subrange(0, i - start));
            assert(digits.subrange(0, i + 1 - start).last() == digits[i - start]);
        }
        if acc > (0x8000_0000u64 - d as u64) / 10 {
            proof {
                let prefix = digits.subrange(0, i + 1 - start);
                assert(dec_value(prefix) == acc * 10 + d);
                assert(acc * 10 + d > 0x8000_0000) by (nonlinear_arith)
                    requires
                        acc > (0x8000_0000u64 - d as u64) / 10,
                        d < 10,
                ;
                if spec_all_dec_digits(digits) {
                    lemma_dec_value_prefix_bound(digits, i + 1 - start);
                }
            }
            return None;
        }
        acc = acc * 10 + d as u64;
        i = i + 1;
    }
    proof {
        assert(digits.subrange(0, digits.len() as int) =~= digits);
    }
    if negative {
        if acc == 0x8000_0000 {
            Some(i32::MIN)
        } else {
            Some(-(acc as i32))
        }
    } else {
        if acc > 0x7FFF_FFFF {
            None
        } else {
            Some(acc as i32)
        }
    }
}

fn char_is_number_run(c: char) -> (b: bool)
    ensures
        b == (spec_is_dec_digit(c) || c == '-'),
{
    ('0' <= c && c <= '9') || c == '-'
}

/// Reads the numeric value of a field.
#[verifier::loop_isolation(false)]
fn json_number(obj: &str, key: &str) -> (outcome: Result<i32, InstrumentRegistryError>)
    ensures
        match spec_json_number(obj@, key@) {
            Some(v) => outcome matches Ok(n) && n == v,
            None => outcome matches Err(e) && (e matches InstrumentRegistryError::Parse(m) && m@
                == if spec_json_field_missing(obj@, key@) {
                "campo ausente: "@ + key@
            } else {
                "número inválido: "@ + key@
            }),
        },
{
    let pattern = build_key_pattern(key);
    let start = match find_str(obj, pattern.as_str()) {
        Some(start) => start,
        None => {
            let mut message = "campo ausente: ".to_owned();
            message.append(key);
            return Err(InstrumentRegistryError::Parse(message));
        },
    };
    proof {
        lemma_find_some(obj@, pattern@, start as int);
    }
    let obj_len = obj.unicode_len();
    let tail = obj.substring_char(start + pattern.unicode_len(), obj_len);
    let tail_len = tail.unicode_len();
    let mut skip: usize = 0;
    while skip < tail_len && char_is_trim_space(tail.get_char(skip))
        invariant
            0 <= skip <= tail_len,
            spec_skip_spaces(tail@, 0) == spec_skip_spaces(tail@, skip as int),
        decreases tail_len - skip,
    {
        skip = skip + 1;
    }
    let content = tail.substring_char(skip, tail_len);
    let content_len = content.unicode_len();
    let mut run: usize = 0;
    while run < content_len && char_is_number_run(content.get_char(run))
        invariant
            0 <= run <= content_len,
            spec_number_run(content@, 0) == spec_number_run(content@, run as int),
        decreases content_len - run,
    {
        run = run + 1;
    }
    let digits = content.substring_char(0, run);
    match parse_i32_text(digits) {
        Some(v) => Ok(v),
        None => {
            let mut message = "número inválido: ".to_owned();
            message.append(key);
            Err(InstrumentRegistryError::Parse(message))
        },
    }
}

/// Where the balanced `{`..`}` block that starts at or after `open`
/// closes, tracking depth from the given start.
pub open spec fn spec_brace_end(s: Seq<char>, i: int, depth: int) -> Option<int>
    decreases s.len() - i,
{
    if i < 0 || i >= s.len() {
        None
    } else {
        let c = s[i];
        if c == '}' && depth - 1 == 0 {
            Some(i)
        } else if c == '{' {
            spec_brace_end(s, i + 1, depth + 1)
        } else if c == '}' {
            spec_brace_end(s, i + 1, depth - 1)
        } else {
            spec_brace_end(s, i + 1, depth)
        }
    }
}

/// The balanced object of a structured field: the `{`..`}` block
/// after the `"key":` pattern.
pub open spec fn spec_find_section(obj: Seq<char>, key: Seq<char>) -> Option<Seq<char>> {
    match spec_find(obj, spec_key_pattern(key)) {
        None => None,
        Some(start) => {
            let tail = obj.subrange(start + spec_key_pattern(key).len(), obj.len() as int);
            match spec_find(tail, "{"@) {
                None => None,
                Some(open) => {
                    match spec_brace_end(tail, open, 0) {
                        None => None,
                        Some(close) => Some(tail.subrange(open, close + 1)),
                    }
                },
            }
        },
    }
}

/// Extracts the balanced object of a structured field.
#[verifier::loop_isolation(false)]
fn find_section<'a>(obj: &'a str, key: &str) -> (outcome: Result<&'a str, InstrumentRegistryError>)
    ensures
        match spec_find_section(obj@, key@) {
            Some(v) => outcome matches Ok(s) && s@ == v,
            None => outcome matches Err(e) && e is Parse,
        },
{
    let pattern = build_key_pattern(key);
    let start = match find_str(obj, pattern.as_str()) {
        Some(start) => start,
        None => {
            let mut message = "campo ausente: ".to_owned();
            message.append(key);
            return Err(InstrumentRegistryError::Parse(message));
        },
    };
    proof {
        lemma_find_some(obj@, pattern@, start as int);
    }
    let obj_len = obj.unicode_len();
    let tail = obj.substring_char(start + pattern.unicode_len(), obj_len);
    let tail_len = tail.unicode_len();
    let open = match find_str(tail, "{") {
        Some(open) => open,
        None => {
            let mut message = "objeto inválido: ".to_owned();
            message.append(key);
            return Err(InstrumentRegistryError::Parse(message));
        },
    };
    proof {
        reveal_strlit("{");
        lemma_find_some(tail@, "{"@, open as int);
        assert(tail@.subrange(open as int, open + 1)[0] == tail@[open as int]);
        assert(tail@[open as int] == '{');
    }
    let mut depth: u64 = 0;
    let mut i: usize = open;
    while i < tail_len
        invariant
            open <= i <= tail_len,
            depth <= i,
            tail@[open as int] == '{',
            i == open ==> depth == 0,
            i > open ==> depth >= 1,
            spec_brace_end(tail@, open as int, 0) == spec_brace_end(tail@, i as int, depth as int),
        decreases tail_len - i,
    {
        let c = tail.get_char(i);
        if c == '}' && depth == 1 {
            return Ok(tail.substring_char(open, i + 1));
        } else if c == '{' {
            depth = depth + 1;
        } else if c == '}' {
            proof {
                assert(depth >= 1);
            }
            depth = depth - 1;
        }
        i = i + 1;
    }
    let mut message = "objeto não fechado: ".to_owned();
    message.append(key);
    Err(InstrumentRegistryError::Parse(message))
}

/// Reads the numeric value of a field and narrows it to an `i8`.
fn json_i8(obj: &str, key: &str) -> (outcome: Result<i8, InstrumentRegistryError>)
    ensures
        match spec_json_number(obj@, key@) {
            Some(v) => {
                if -128 <= v <= 127 {
                    outcome matches Ok(n) && n == v
                } else {
                    outcome matches Err(e) && e is Parse
                }
            },
            None => outcome matches Err(e) && e is Parse,
        },
{
    let value = match json_number(obj, key) {
        Ok(value) => value,
        Err(error) => {
            return Err(error);
        },
    };
    if value < -128 || value > 127 {
        let mut message = "i8 inválido: ".to_owned();
        message.append(key);
        return Err(InstrumentRegistryError::Parse(message));
    }
    Ok(value as i8)
}

/// The instrument family a bank entry may name.
pub open spec fn spec_parse_family(value: Seq<char>) -> Option<InstrumentFamily> {
    if value == "Orchestral"@ {
        Some(InstrumentFamily::Orchestral)
    } else if value == "Baroque"@ {
        Some(InstrumentFamily::Baroque)
    } else if value == "Medieval"@ {
        Some(InstrumentFamily::Medieval)
    } else if value == "Ethnic"@ {
        Some(InstrumentFamily::Ethnic)
    } else if value == "Electronic"@ {
        Some(InstrumentFamily::Electronic)
    } else if value == "Voice"@ {
        Some(InstrumentFamily::Voice)
    } else if value == "Percussion"@ {
        Some(InstrumentFamily::Percussion)
    } else {
        None
    }
}

fn parse_family(value: &str) -> (outcome: Result<InstrumentFamily, InstrumentRegistryError>)
    ensures
        match spec_parse_family(value@) {
            Some(f) => outcome matches Ok(g) && g == f,
            None => outcome matches Err(e) && (e matches InstrumentRegistryError::Parse(m) && m@
                == "família desconhecida: "@ + value@),
        },
{
    if str_eq(value, "Orchestral") {
        Ok(InstrumentFamily::Orchestral)
    } else if str_eq(value, "Baroque") {
        Ok(InstrumentFamily::Baroque)
    } else if str_eq(value, "Medieval") {
        Ok(InstrumentFamily::Medieval)
    } else if str_eq(value, "Ethnic") {
        Ok(InstrumentFamily::Ethnic)
    } else if str_eq(value, "Electronic") {
        Ok(InstrumentFamily::Electronic)
    } else if str_eq(value, "Voice") {
        Ok(InstrumentFamily::Voice)
    } else if str_eq(value, "Percussion") {
        Ok(InstrumentFamily::Percussion)
    } else {
        let mut message = "família desconhecida: ".to_owned();
        message.append(value);
        Err(InstrumentRegistryError::Parse(message))
    }
}

/// The clef a bank entry may name.
pub open spec fn spec_parse_clef(value: Seq<char>) -> Option<Clef> {
    if value == "Treble"@ {
        Some(Clef::Treble)
    } else if value == "Bass"@ {
        Some(Clef::Bass)
    } else if value == "Alto"@ {
        Some(Clef::Alto)
    } else if value == "Tenor"@ {
        Some(Clef::Tenor)
    } else if value == "Percussion"@ {
        Some(Clef::Percussion)
    } else {
        None
    }
}

fn parse_clef(value: &str) -> (outcome: Result<Clef, InstrumentRegistryError>)
    ensures
        match spec_parse_clef(value@) {
            Some(c) => outcome matches Ok(g) && g == c,
            None => outcome matches Err(e) && (e matches InstrumentRegistryError::Parse(m) && m@
                == "clave desconhecida: "@ + value@),
        },
{
    if str_eq(value, "Treble") {
        Ok(Clef::Treble)
    } else if str_eq(value, "Bass") {
        Ok(Clef::Bass)
    } else if str_eq(value, "Alto") {
        Ok(Clef::Alto)
    } else if str_eq(value, "Tenor") {
        Ok(Clef::Tenor)
    } else if str_eq(value, "Percussion") {
        Ok(Clef::Percussion)
    } else {
        let mut message = "clave desconhecida: ".to_owned();
        message.append(value);
        Err(InstrumentRegistryError::Parse(message))
    }
}

/// The array holds something and is wrapped in square brackets.
pub open spec fn spec_array_brackets_ok(t: Seq<char>) -> bool {
    t.len() >= 1 && t[0] == '[' && t[t.len() - 1] == ']'
}

/// The object pieces found by the brace automaton: each maximal
/// `{`..`}` block at depth zero, a closing brace below depth zero
/// counting as depth zero.
pub open spec fn spec_split_objects(s: Seq<char>, i: int, depth: int, begun: Option<int>) -> Seq<
    Seq<char>,
>
    decreases s.len() - i,
{
    if i < 0 || i >= s.len() {
        Seq::empty()
    } else {
        let c = s[i];
        if c == '{' {
            if depth == 0 {
                spec_split_objects(s, i + 1, 1, Some(i))
            } else {
                spec_split_objects(s, i + 1, depth + 1, begun)
            }
        } else if c == '}' {
            let lowered = if depth <= 0 {
                0
            } else {
                depth - 1
            };
            if lowered == 0 {
                match begun {
                    Some(st) => seq![s.subrange(st, i + 1)] + spec_split_objects(
                        s,
                        i + 1,
                        0,
                        None,
                    ),
                    None => spec_split_objects(s, i + 1, 0, None),
                }
            } else {
                spec_split_objects(s, i + 1, lowered, begun)
            }
        } else {
            spec_split_objects(s, i + 1, depth, begun)
        }
    }
}

/// The object pieces of a bank file: the brace automaton run over
/// the trimmed text.
pub open spec fn spec_object_list(json: Seq<char>) -> Seq<Seq<char>> {
    spec_split_objects(spec_trim(json), 0, 0, None)
}

/// Splits the bank array into its objects.
#[verifier::loop_isolation(false)]
fn split_json_objects(input: &str) -> (outcome: Result<Vec<String>, InstrumentRegistryError>)
    ensures
        outcome is Ok <==> spec_array_brackets_ok(spec_trim(input@)),
        outcome matches Ok(objs) ==> {
            &&& objs@.len() == spec_object_list(input@).len()
            &&& forall|k: int|
                0 <= k < objs@.len() ==> (#[trigger] objs@[k])@ == spec_object_list(input@)[k]
        },
        outcome matches Err(e) ==> e matches InstrumentRegistryError::Parse(m) && m@
            == "array JSON esperado"@,
{
    let trimmed = trim_str(input);
    let t_len = trimmed.unicode_len();
    let mut brackets_ok = false;
    if t_len >= 1 {
        if trimmed.get_char(0) == '[' && trimmed.get_char(t_len - 1) == ']' {
            brackets_ok = true;
        }
    }
    if !brackets_ok {
        return Err(InstrumentRegistryError::Parse("array JSON esperado".to_owned()));
    }
    let ghost full = spec_object_list(input@);
    let mut objs: Vec<String> = Vec::new();
    let mut depth: u64 = 0;
    let mut start_at: usize = 0;
    let mut has_start = false;
    let mut i: usize = 0;
    while i < t_len
        invariant
            0 <= i <= t_len == trimmed@.len(),
            depth <= i,
            has_start ==> start_at < i && 1 <= depth,
            full == objs@.map_values(|o: String| o@) + spec_split_objects(
                trimmed@,
                i as int,
                depth as int,
                if has_start {
                    Some(start_at as int)
                } else {
                    None
                },
            ),
        decreases t_len - i,
    {
        let c = trimmed.get_char(i);
        let ghost views_before = objs@.map_values(|o: String| o@);
        if c == '{' {
            if depth == 0 {
                start_at = i;
                has_start = true;
            }
            depth = depth + 1;
        } else if c == '}' {
            if depth > 0 {
                depth = depth - 1;
            }
            if depth == 0 {
                if has_start {
                    let piece = trimmed.substring_char(start_at, i + 1).to_owned();
                    objs.push(piece);
                    proof {
                        assert(objs@.map_values(|o: String| o@) =~= views_before.push(
                            objs@.last()@,
                        ));
                    }
                }
                has_start = false;
            }
        }
        i = i + 1;
    }
    proof {
        assert(full =~= objs@.map_values(|o: String| o@));
    }
    Ok(objs)
}

/// The value of a structured range field: the `midi` number inside
/// the field's balanced object.
pub open spec fn spec_range_field(obj: Seq<char>, key: Seq<char>) -> Option<int> {
    match spec_find_section(obj, key) {
        None => None,
        Some(section) => spec_json_number(section, "midi"@),
    }
}

fn range_field(obj: &str, key: &str) -> (outcome: Result<i32, InstrumentRegistryError>)
    ensures
        match spec_range_field(obj@, key@) {
            Some(v) => outcome matches Ok(n) && n == v,
            None => outcome matches Err(e) && e is Parse,
        },
{
    let section = match find_section(obj, key) {
        Ok(section) => section,
        Err(error) => {
            return Err(error);
        },
    };
    json_number(section, "midi")
}

/// A value reduced to a byte exactly as a hardware-style narrowing
/// keeps its low eight bits.
pub open spec fn spec_trunc_u8(v: int) -> int {
    ((v % 256) + 256) % 256
}

fn trunc_u8(v: i32) -> (r: u8)
    ensures
        r == spec_trunc_u8(v as int),
{
    (((v % 256) + 256) % 256) as u8
}

/// Every field of a bank object reads back, the names resolve and
/// the transposition fits its byte.
pub open spec fn spec_obj_parse_ok(obj: Seq<char>) -> bool {
    &&& spec_json_string(obj, "id"@) is Some
    &&& spec_json_string(obj, "name"@) is Some
    &&& spec_json_string(obj, "family"@) matches Some(f) && spec_parse_family(f) is Some
    &&& spec_range_field(obj, "range_low"@) is Some
    &&& spec_range_field(obj, "range_high"@) is Some
    &&& spec_json_number(obj, "transposition"@) matches Some(t) && -128 <= t <= 127
    &&& spec_json_string(obj, "clef"@) matches Some(c) && spec_parse_clef(c) is Some
    &&& spec_json_number(obj, "midi_program"@) is Some
}

/// How an instrument relates to the bank object it was read from.
pub open spec fn spec_obj_matches_instrument(obj: Seq<char>, inst: Instrument) -> bool {
    &&& spec_json_string(obj, "id"@) == Some(inst.id@)
    &&& spec_json_string(obj, "name"@) == Some(inst.name@)
    &&& (spec_json_string(obj, "family"@) matches Some(f) && spec_parse_family(f) == Some(
        inst.family,
    ))
    &&& (spec_range_field(obj, "range_low"@) matches Some(v) && inst.range_low.midi
        == spec_trunc_u8(v))
    &&& (spec_range_field(obj, "range_high"@) matches Some(v) && inst.range_high.midi
        == spec_trunc_u8(v))
    &&& spec_json_number(obj, "transposition"@) == Some(inst.transposition as int)
    &&& (spec_json_string(obj, "clef"@) matches Some(c) && spec_parse_clef(c) == Some(inst.clef))
    &&& (spec_json_number(obj, "midi_program"@) matches Some(v) && inst.midi_program
        == spec_trunc_u8(v))
}

/// Reads one bank object into an instrument.
fn parse_instrument(obj: &str) -> (outcome: Result<Instrument, InstrumentRegistryError>)
    ensures
        outcome is Ok <==> spec_obj_parse_ok(obj@),
        outcome matches Ok(inst) ==> spec_obj_matches_instrument(obj@, inst),
        outcome matches Err(e) ==> e is Parse,
{
    let id = match json_string(obj, "id") {
        Ok(id) => id,
        Err(error) => {
            return Err(error);
        },
    };
    let name = match json_string(obj, "name") {
        Ok(name) => name,
        Err(error) => {
            return Err(error);
        },
    };
    let family_name = match json_string(obj, "family") {
        Ok(family_name) => family_name,
        Err(error) => {
            return Err(error);
        },
    };
    let family = match parse_family(family_name.as_str()) {
        Ok(family) => family,
        Err(error) => {
            return Err(error);
        },
    };
    let low = match range_field(obj, "range_low") {
        Ok(low) => low,
        Err(error) => {
            return Err(error);
        },
    };
    let high = match range_field(obj, "range_high") {
        Ok(high) => high,
        Err(error) => {
            return Err(error);
        },
    };
    let transposition = match json_i8(obj, "transposition") {
        Ok(transposition) => transposition,
        Err(error) => {
            return Err(error);
        },
    };
    let clef_name = match json_string(obj, "clef") {
        Ok(clef_name) => clef_name,
        Err(error) => {
            return Err(error);
        },
    };
    let clef = match parse_clef(clef_name.as_str()) {
        Ok(clef) => clef,
        Err(error) => {
            return Err(error);
        },
    };
    let midi_program = match json_number(obj, "midi_program") {
        Ok(midi_program) => midi_program,
        Err(error) => {
            return Err(error);
        },
    };
    Ok(
        Instrument {
            id,
            name,
            family,
            range_low: Pitch { midi: trunc_u8(low) },
            range_high: Pitch { midi: trunc_u8(high) },
            transposition,
            clef,
            midi_program: trunc_u8(midi_program),
        },
    )
}

/// A bank object that parses and whose range is the right way up.
pub open spec fn spec_obj_ok(obj: Seq<char>) -> bool {
    &&& spec_obj_parse_ok(obj)
    &&& (spec_range_field(obj, "range_low"@) matches Some(low) && (spec_range_field(
        obj,
        "range_high"@,
    ) matches Some(high) && spec_trunc_u8(low) <= spec_trunc_u8(high)))
}

/// A whole bank that loads: brackets, then every object.
pub open spec fn spec_bank_ok(json: Seq<char>) -> bool {
    &&& spec_array_brackets_ok(spec_trim(json))
    &&& forall|k: int|
        0 <= k < spec_object_list(json).len() ==> spec_obj_ok(#[trigger] spec_object_list(json)[k])
}

/// The loaded instrument bank: every entry read from the bank file,
/// in file order.  A later entry shadows an earlier one that reuses
/// its identifier or its folded name, as the lookups say.
#[derive(Debug)]
pub struct InstrumentRegistry {
    entries: Vec<Instrument>,
}

/// Index of the last entry whose folded name is `folded`, if any.
pub open spec fn spec_last_name_index(entries: Seq<Instrument>, folded: Seq<char>) -> Option<int>
    decreases entries.len(),
{
    if entries.len() == 0 {
        None
    } else if lower_of(entries.last().name@) == folded {
        Some(entries.len() - 1)
    } else {
        spec_last_name_index(entries.drop_last(), folded)
    }
}

/// Index of the last entry with identifier `id`, if any.
pub open spec fn spec_last_id_index(entries: Seq<Instrument>, id: Seq<char>) -> Option<int>
    decreases entries.len(),
{
    if entries.len() == 0 {
        None
    } else if entries.last().id@ == id {
        Some(entries.len() - 1)
    } else {
        spec_last_id_index(entries.drop_last(), id)
    }
}

/// Whether some entry before `upto` carries identifier `id`.
pub open spec fn spec_id_before(entries: Seq<Instrument>, id: Seq<char>, upto: int) -> bool
    decreases upto,
{
    if upto <= 0 || upto > entries.len() {
        false
    } else {
        entries[upto - 1].id@ == id || spec_id_before(entries, id, upto - 1)
    }
}

/// How many distinct identifiers the entries carry.
pub open spec fn spec_distinct_ids(entries: Seq<Instrument>) -> int
    decreases entries.len(),
{
    if entries.len() == 0 {
        0
    } else {
        spec_distinct_ids(entries.drop_last()) + if spec_id_before(
            entries,
            entries.last().id@,
            entries.len() - 1,
        ) {
            0int
        } else {
            1int
        }
    }
}

/// What a name query resolves to: the identifier under the query's
/// folded name, then the last entry with that identifier.
pub open spec fn spec_lookup_by_name(entries: Seq<Instrument>, query: Seq<char>) -> Option<int> {
    match spec_last_name_index(entries, lower_of(query)) {
        None => None,
        Some(named) => spec_last_id_index(entries, entries[named].id@),
    }
}

proof fn lemma_last_name_in_range(entries: Seq<Instrument>, folded: Seq<char>)
    requires
        spec_last_name_index(entries, folded) is Some,
    ensures
        spec_last_name_index(entries, folded) matches Some(j) && 0 <= j < entries.len(),
    decreases entries.len(),
{
    if entries.len() > 0 && lower_of(entries.last().name@) != folded {
        lemma_last_name_in_range(entries.drop_last(), folded);
    }
}

proof fn lemma_last_id_in_range(entries: Seq<Instrument>, id: Seq<char>)
    requires
        spec_last_id_index(entries, id) is Some,
    ensures
        spec_last_id_index(entries, id) matches Some(j) && 0 <= j < entries.len(),
    decreases entries.len(),
{
    if entries.len() > 0 && entries.last().id@ != id {
        lemma_last_id_in_range(entries.drop_last(), id);
    }
}

/// A successful name lookup lands inside the registry.
pub proof fn lemma_lookup_in_range(entries: Seq<Instrument>, query: Seq<char>)
    ensures
        spec_lookup_by_name(entries, query) matches Some(j) ==> 0 <= j < entries.len(),
{
    if spec_last_name_index(entries, lower_of(query)) is Some {
        lemma_last_name_in_range(entries, lower_of(query));
        let named = spec_last_name_index(entries, lower_of(query))->0;
        if spec_last_id_index(entries, entries[named].id@) is Some {
            lemma_last_id_in_range(entries, entries[named].id@);
        }
    }
}

impl InstrumentRegistry {
    /// The bank entries, in file order.
    pub closed spec fn spec_entries(self) -> Seq<Instrument> {
        self.entries@
    }

    /// Loads a bank: the bracketed array is split into objects and
    /// every object must read back as an instrument with its range
    /// the right way up.  One bad object fails the whole load.
    pub fn load_from_json(json: &str) -> (outcome: Result<
        InstrumentRegistry,
        InstrumentRegistryError,
    >)
        ensures
            outcome is Ok <==> spec_bank_ok(json@),
            outcome matches Ok(registry) ==> {
                &&& registry.spec_entries().len() == spec_object_list(json@).len()
                &&& forall|k: int|
                    0 <= k < spec_object_list(json@).len() ==> spec_obj_matches_instrument(
                        spec_object_list(json@)[k],
                        #[trigger] registry.spec_entries()[k],
                    )
            },
    {
        let objects = match split_json_objects(json) {
            Ok(objects) => objects,
            Err(error) => {
                return Err(error);
            },
        };
        let mut entries: Vec<Instrument> = Vec::new();
        let object_count = objects.len();
        for k in 0..object_count
            invariant
                object_count == objects@.len() == spec_object_list(json@).len(),
                forall|j: int|
                    0 <= j < objects@.len() ==> (#[trigger] objects@[j])@ == spec_object_list(
                        json@,
                    )[j],
                entries@.len() == k,
                forall|j: int| 0 <= j < k ==> spec_obj_ok(#[trigger] spec_object_list(json@)[j]),
                forall|j: int|
                    0 <= j < k ==> spec_obj_matches_instrument(
                        spec_object_list(json@)[j],
                        #[trigger] entries@[j],
                    ),
        {
            let instrument = match parse_instrument(objects[k].as_str()) {
                Ok(instrument) => instrument,
                Err(error) => {
                    return Err(error);
                },
            };
            if instrument.range_low.midi > instrument.range_high.midi {
                let mut message = "range inválido para ".to_owned();
                message.append(instrument.name.as_str());
                return Err(InstrumentRegistryError::Validation(message));
            }
            entries.push(instrument);
        }
        Ok(InstrumentRegistry { entries })
    }

    /// Loads the bank that ships with the editor.
    pub fn load_embedded() -> (outcome: Result<InstrumentRegistry, InstrumentRegistryError>)
        ensures
            outcome matches Ok(registry) ==> registry.spec_entries().len() > 0,
    {
        let outcome = Self::load_from_json(default_instrument_bank());
        match outcome {
            Ok(registry) => {
                if registry.len() == 0 {
                    Err(InstrumentRegistryError::Validation("banco vazio".to_owned()))
                } else {
                    Ok(registry)
                }
            },
            Err(error) => Err(error),
        }
    }

    /// Finds an instrument by name, folding case as the bank loader
    /// does: the identifier filed under the folded name is resolved
    /// to the last entry carrying it.
    #[verifier::loop_isolation(false)]
    pub fn find_by_name(&self, name: &str) -> (found: Option<&Instrument>)
        ensures
            match found {
                Some(inst) => spec_lookup_by_name(self.spec_entries(), name@) matches Some(j)
                    && *inst == self.spec_entries()[j],
                None => spec_lookup_by_name(self.spec_entries(), name@) is None,
            },
    {
        let folded = lowercase(name);
        let count = self.entries.len();
        proof {
            assert(self.entries@.subrange(0, count as int) =~= self.entries@);
        }
        let mut at: usize = count;
        let mut found_name = false;
        while at > 0 && !found_name
            invariant
                0 <= at <= count == self.entries@.len(),
                !found_name ==> spec_last_name_index(self.entries@, lower_of(name@))
                    == spec_last_name_index(self.entries@.subrange(0, at as int), lower_of(name@)),
                found_name ==> at < count && spec_last_name_index(self.entries@, lower_of(name@))
                    == Some(at as int),
            decreases at,
        {
            let candidate = lowercase(self.entries[at - 1].name.as_str());
            proof {
                assert(candidate@ == lower_of(self.entries@[at - 1].name@));
                assert(self.entries@.subrange(0, at as int).last() == self.entries@[at - 1]);
                assert(self.entries@.subrange(0, at as int).drop_last() =~= self.entries@.subrange(
                    0,
                    at - 1,
                ));
            }
            if str_eq(candidate.as_str(), folded.as_str()) {
                proof {
                    assert(lower_of(self.entries@[at - 1].name@) == lower_of(name@));
                    assert(spec_last_name_index(
                        self.entries@.subrange(0, at as int),
                        lower_of(name@),
                    ) == Some(at - 1));
                }
                found_name = true;
                at = at - 1;
            } else {
                proof {
                    assert(lower_of(self.entries@[at - 1].name@) != lower_of(name@));
                    assert(spec_last_name_index(
                        self.entries@.subrange(0, at as int),
                        lower_of(name@),
                    ) == spec_last_name_index(
                        self.entries@.subrange(0, at - 1),
                        lower_of(name@),
                    ));
                }
                at = at - 1;
            }
        }
        if !found_name {
            proof {
                assert(self.entries@.subrange(0, 0) =~= Seq::<Instrument>::empty());
            }
            return None;
        }
        let wanted_index = at;
        proof {
            assert(self.entries@.subrange(0, count as int) =~= self.entries@);
        }
        let mut j: usize = count;
        while j > 0
            invariant
                0 <= j <= count == self.entries@.len(),
                wanted_index < count,
                spec_last_name_index(self.entries@, lower_of(name@)) == Some(wanted_index as int),
                spec_last_id_index(self.entries@, self.entries@[wanted_index as int].id@)
                    == spec_last_id_index(
                    self.entries@.subrange(0, j as int),
                    self.entries@[wanted_index as int].id@,
                ),
            decreases j,
        {
            proof {
                assert(self.entries@.subrange(0, j as int).last() == self.entries@[j - 1]);
                assert(self.entries@.subrange(0, j as int).drop_last() =~= self.entries@.subrange(
                    0,
                    j - 1,
                ));
            }
            if str_eq(self.entries[j - 1].id.as_str(), self.entries[wanted_index].id.as_str()) {
                return Some(&self.entries[j - 1]);
            }
            j = j - 1;
        }
        proof {
            assert(self.entries@.subrange(0, 0) =~= Seq::<Instrument>::empty());
            assert(spec_last_id_index(
                Seq::<Instrument>::empty(),
                self.entries@[wanted_index as int].id@,
            ) is None);
        }
        None
    }

    /// How many distinct instruments the registry holds.
    #[verifier::loop_isolation(false)]
    pub fn len(&self) -> (count: usize)
        ensures
            count == spec_distinct_ids(self.spec_entries()),
    {
        let total = self.entries.len();
        let mut count: usize = 0;
        for i in 0..total
            invariant
                total == self.entries@.len(),
                count == spec_distinct_ids(self.entries@.subrange(0, i as int)),
                count <= i,
        {
            let mut seen = false;
            let mut j: usize = 0;
            while j < i
                invariant
                    0 <= j <= i < total == self.entries@.len(),
                    seen == spec_id_before(
                        self.entries@.subrange(0, i + 1),
                        self.entries@[i as int].id@,
                        j as int,
                    ),
                decreases i - j,
            {
                proof {
                    assert(self.entries@.subrange(0, i + 1)[j as int] == self.entries@[j as int]);
                }
                if str_eq(self.entries[j].id.as_str(), self.entries[i].id.as_str()) {
                    seen = true;
                }
                j = j + 1;
            }
            proof {
                assert(self.entries@.subrange(0, i + 1).drop_last() =~= self.entries@.subrange(
                    0,
                    i as int,
                ));
                assert(self.entries@.subrange(0, i + 1).last() == self.entries@[i as int]);
            }
            if !seen {
                count = count + 1;
            }
        }
        proof {
            assert(self.entries@.subrange(0, total as int) =~= self.entries@);
        }
        count
    }

    /// Whether the registry holds nothing at all.
    pub fn is_empty(&self) -> (empty: bool)
        ensures
            empty == (self.spec_entries().len() == 0),
    {
        self.entries.is_empty()
    }
}

/// The instrument bank that ships with the editor.
fn default_instrument_bank() -> &'static str {
    "[\n  {\"id\":\"00000000000000000000000000000101\",\"name\":\"Violin I\",\"family\":\"Orchestral\",\"range_low\":{\"midi\":55},\"range_high\":{\"midi\":103},\"transposition\":0,\"clef\":\"Treble\",\"midi_program\":40},\n  {\"id\":\"00000000000000000000000000000102\",\"name\":\"Violin II\",\"family\":\"Orchestral\",\"range_low\":{\"midi\":55},\"range_high\":{\"midi\":100},\"transposition\":0,\"clef\":\"Treble\",\"midi_program\":40},\n  {\"id\":\"00000000000000000000000000000103\",\"name\":\"Viola\",\"family\":\"Orchestral\",\"range_low\":{\"midi\":48},\"range_high\":{\"midi\":91},\"transposition\":0,\"clef\":\"Alto\",\"midi_program\":41},\n  {\"id\":\"00000000000000000000000000000104\",\"name\":\"Cello\",\"family\":\"Orchestral\",\"range_low\":{\"midi\":36},\"range_high\":{\"midi\":76},\"transposition\":0,\"clef\":\"Bass\",\"midi_program\":42},\n  {\"id\":\"00000000000000000000000000000105\",\"name\":\"Flute\",\"family\":\"Orchestral\",\"range_low\":{\"midi\":60},\"range_high\":{\"midi\":96},\"transposition\":0,\"clef\":\"Treble\",\"midi_program\":73},\n  {\"id\":\"00000000000000000000000000000106\",\"name\":\"Clarinet\",\"family\":\"Orchestral\",\"range_low\":{\"midi\":50},\"range_high\":{\"midi\":94},\"transposition\":-2,\"clef\":\"Treble\",\"midi_program\":71},\n  {\"id\":\"00000000000000000000000000000107\",\"name\":\"Trumpet\",\"family\":\"Orchestral\",\"range_low\":{\"midi\":55},\"range_high\":{\"midi\":82},\"transposition\":-2,\"clef\":\"Treble\",\"midi_program\":56},\n  {\"id\":\"00000000000000000000000000000108\",\"name\":\"Horn\",\"family\":\"Orchestral\",\"range_low\":{\"midi\":41},\"range_high\":{\"midi\":77},\"transposition\":-7,\"clef\":\"Treble\",\"midi_program\":60},\n  {\"id\":\"00000000000000000000000000000109\",\"name\":\"Timpani\",\"family\":\"Percussion\",\"range_low\":{\"midi\":40},\"range_high\":{\"midi\":55},\"transposition\":0,\"clef\":\"Bass\",\"midi_program\":47},\n  {\"id\":\"0000000000000000000000000000010a\",\"name\":\"Piano\",\"family\":\"Orchestral\",\"range_low\":{\"midi\":21},\"range_high\":{\"midi\":108},\"transposition\":0,\"clef\":\"Treble\",\"midi_program\":0},\n  {\"id\":\"0000000000000000000000000000010b\",\"name\":\"Soprano Voice\",\"family\":\"Voice\",\"range_low\":{\"midi\":60},\"range_high\":{\"midi\":84},\"transposition\":0,\"clef\":\"Treble\",\"midi_program\":53},\n  {\"id\":\"0000000000000000000000000000010c\",\"name\":\"Taiko\",\"family\":\"Ethnic\",\"range_low\":{\"midi\":35},\"range_high\":{\"midi\":81},\"transposition\":0,\"clef\":\"Percussion\",\"midi_program\":116}\n]\n"
}

} // verus!
