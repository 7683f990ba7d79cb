//! Highscore bookkeeping: an in-memory table of name/score records,
//! sorted by score, plus the flat-text record format.
//!
//! The manager owns the authoritative in-memory list, kept sorted by
//! score (highest first) and capped at `MAX_SAVED_SCORES` entries.  A
//! storage backend loads records from and writes records to wherever it
//! keeps them, handing plain entries in and out through
//! [`HighscoreManager::update_cache`] and
//! [`HighscoreManager::load_highscores`]; one record is one text line,
//! `name, score`, parsed by [`parse_highscore_line`] (malformed lines
//! are skipped by the caller) and written by [`render_highscore_line`].

use vstd::prelude::*;

use vstd::multiset::Multiset;

verus! {

/// Most highscores the table keeps.
pub const MAX_SAVED_SCORES: usize = 50;

/// A single highscore entry: player name and score.
#[derive(Debug, Clone)]
pub struct HighscoreEntry {
    /// Player name (user-entered).
    pub name: String,
    /// Player score.
    pub score: u32,
}

impl HighscoreEntry {
    /// Create a new highscore entry.
    pub fn new(name: String, score: u32) -> (e: HighscoreEntry)
        ensures
            e.name == name,
            e.score == score,
    {
        HighscoreEntry { name, score }
    }
}

/// True when the entries are ordered by score, highest first.
pub open spec fn spec_sorted_desc(s: Seq<HighscoreEntry>) -> bool {
    forall|i: int, j: int| 0 <= i < j < s.len() ==> (#[trigger] s[i]).score >= (#[trigger] s[j]).score
}

/// The slot where an entry with this score is inserted: after every
/// entry scoring at least as much, before the first scoring less.
pub open spec fn spec_insert_pos(s: Seq<HighscoreEntry>, score: u32) -> int
    decreases s.len(),
{
    if s.len() == 0 || s[0].score < score {
        0
    } else {
        1 + spec_insert_pos(s.drop_first(), score)
    }
}

/// The table after a new entry is recorded: inserted in score order
/// (after equal scores), then capped at `MAX_SAVED_SCORES`.
pub open spec fn spec_saved(s: Seq<HighscoreEntry>, e: HighscoreEntry) -> Seq<HighscoreEntry> {
    let inserted = s.insert(spec_insert_pos(s, e.score), e);
    if inserted.len() > MAX_SAVED_SCORES {
        inserted.subrange(0, MAX_SAVED_SCORES as int)
    } else {
        inserted
    }
}

/// The in-memory highscore table.
///
/// `storage_key` names where a backend keeps the records (a file name or
/// a storage key); the manager itself never touches that storage.
pub struct HighscoreManager {
    /// Storage identifier for the backend that persists the table.
    pub storage_key: String,
    /// The table itself, present once anything was loaded or saved.
    pub cache: Option<Vec<HighscoreEntry>>,
}

impl HighscoreManager {
    /// The entries the manager currently holds, in order.
    pub open spec fn entries_view(self) -> Seq<HighscoreEntry> {
        match self.cache {
            Option::None => Seq::empty(),
            Option::Some(v) => v@,
        }
    }

    /// The entries are sorted by score, highest first.
    pub open spec fn wf(self) -> bool {
        spec_sorted_desc(self.entries_view())
    }

    /// Create a new highscore manager with the given storage key.
    pub fn new(key: &str) -> (m: HighscoreManager)
        ensures
            m.storage_key@ == key@,
            m.entries_view() == Seq::<HighscoreEntry>::empty(),
            m.wf(),
    {
        HighscoreManager { storage_key: String::from_str(key), cache: None }
    }

    /// Load the highscores: a copy of the table, sorted by score,
    /// highest first.
    pub fn load_highscores(&self) -> (r: Vec<HighscoreEntry>)
        ensures
            r@ == self.entries_view(),
    {
        match &self.cache {
            None => Vec::new(),
            Some(v) => clone_entries(v),
        }
    }

    /// Load the highscores for a saving operation.  The in-memory table
    /// holds only real records, so this is the table itself.
    pub fn load_highscores_for_saving(&self) -> (r: Vec<HighscoreEntry>)
        ensures
            r@ == self.entries_view(),
    {
        self.load_highscores()
    }

    /// Replace the table with entries a backend loaded, sorted by score,
    /// highest first; the given order does not matter.
    pub fn update_cache(&mut self, entries: &Vec<HighscoreEntry>)
        ensures
            final(self).entries_view().to_multiset() == entries@.to_multiset(),
            final(self).storage_key == old(self).storage_key,
            final(self).wf(),
    {
        self.cache = Some(sort_entries_desc(entries));
    }

    /// Record a new highscore: insert it in score order — after any
    /// existing entry with the same score — and drop the lowest entries
    /// beyond the table's cap.
    pub fn save_highscore(&mut self, name: &str, score: u32)
        requires
            old(self).wf(),
        ensures
            exists|e: HighscoreEntry|
                (#[trigger] e.name)@ == name@ && e.score == score && final(self).entries_view()
                    == spec_saved(old(self).entries_view(), e),
            final(self).storage_key == old(self).storage_key,
            final(self).wf(),
    {
        let entry = HighscoreEntry::new(String::from_str(name), score);
        let ghost e = entry;
        let mut entries = match self.cache.take() {
            None => Vec::new(),
            Some(v) => v,
        };
        let ghost s0 = entries@;
        let pos = insert_pos(&entries, score);
        entries.insert(pos, entry);
        if entries.len() > MAX_SAVED_SCORES {
            entries.truncate(MAX_SAVED_SCORES);
            proof {
                assert(entries@ =~= s0.insert(spec_insert_pos(s0, score), e).subrange(
                    0,
                    MAX_SAVED_SCORES as int,
                ));
            }
        }
        proof {
            lemma_insert_sorted(s0, e, spec_insert_pos(s0, score));
            assert(spec_sorted_desc(entries@));
        }
        self.cache = Some(entries);
    }

    /// Get the top `n` highscores, highest first.
    pub fn get_top_scores(&self, n: usize) -> (r: Vec<HighscoreEntry>)
        ensures
            r@.len() == vstd::math::min(n as int, self.entries_view().len() as int),
            forall|k: int| 0 <= k < r@.len() ==> r@[k] == self.entries_view()[k],
    {
        let mut scores = self.load_highscores();
        scores.truncate(n);
        scores
    }
}

/// A fresh copy of an entry list.
fn clone_entries(v: &Vec<HighscoreEntry>) -> (r: Vec<HighscoreEntry>)
    ensures
        r@ == v@,
{
    let mut r: Vec<HighscoreEntry> = Vec::new();
    let mut i: usize = 0;
    while i < v.len()
        invariant
            0 <= i <= v@.len(),
            r@ =~= v@.subrange(0, i as int),
        decreases v@.len() - i,
    {
        let name = v[i].name.clone();
        r.push(HighscoreEntry { name, score: v[i].score });
        proof {
            assert(r@ =~= v@.subrange(0, i as int + 1));
        }
        i = i + 1;
    }
    proof {
        assert(v@.subrange(0, v@.len() as int) =~= v@);
    }
    r
}

/// The first slot whose entry scores less than `score`.
fn insert_pos(v: &Vec<HighscoreEntry>, score: u32) -> (p: usize)
    ensures
        p == spec_insert_pos(v@, score),
        p <= v@.len(),
{
    proof {
        assert(v@.subrange(0, v@.len() as int) =~= v@);
    }
    let mut p: usize = 0;
    while p < v.len()
        invariant
            0 <= p <= v@.len(),
            spec_insert_pos(v@, score) == spec_insert_pos(v@.subrange(p as int, v@.len() as int), score) + p,
        decreases v@.len() - p,
    {
        if v[p].score < score {
            proof {
                let rest = v@.subrange(p as int, v@.len() as int);
                assert(rest[0] == v@[p as int]);
                assert(spec_insert_pos(rest, score) == 0);
            }
            return p;
        }
        proof {
            let rest = v@.subrange(p as int, v@.len() as int);
            let rest2 = v@.subrange(p as int + 1, v@.len() as int);
            assert(rest[0] == v@[p as int]);
            assert(rest.drop_first() =~= rest2);
        }
        p = p + 1;
    }
    proof {
        assert(v@.subrange(v@.len() as int, v@.len() as int) =~= Seq::<HighscoreEntry>::empty());
    }
    p
}

proof fn lemma_insert_pos_bounds(s: Seq<HighscoreEntry>, score: u32)
    ensures
        0 <= spec_insert_pos(s, score) <= s.len(),
    decreases s.len(),
{
    if s.len() > 0 && s[0].score >= score {
        lemma_insert_pos_bounds(s.drop_first(), score);
    }
}

/// Everything before the insert position scores at least the new score,
/// everything from it on scores less.
proof fn lemma_insert_pos_chars(s: Seq<HighscoreEntry>, score: u32)
    requires
        spec_sorted_desc(s),
    ensures
        forall|q: int| 0 <= q < spec_insert_pos(s, score) ==> (#[trigger] s[q]).score >= score,
        forall|q: int|
            spec_insert_pos(s, score) <= q < s.len() ==> (#[trigger] s[q]).score < score,
    decreases s.len(),
{
    let p = spec_insert_pos(s, score);
    lemma_insert_pos_bounds(s, score);
    if s.len() == 0 {
    } else if s[0].score < score {
        assert forall|q: int| p <= q < s.len() implies (#[trigger] s[q]).score < score by {
            if q > 0 {
                assert(s[0].score >= s[q].score);
            }
        }
    } else {
        let rest = s.drop_first();
        assert(spec_sorted_desc(rest)) by {
            assert forall|i: int, j: int| 0 <= i < j < rest.len() implies (#[trigger] rest[i]).score
                >= (#[trigger] rest[j]).score by {
                assert(rest[i] == s[i + 1] && rest[j] == s[j + 1]);
            }
        }
        lemma_insert_pos_chars(rest, score);
        assert forall|q: int| 0 <= q < p implies (#[trigger] s[q]).score >= score by {
            if q > 0 {
                assert(rest[q - 1] == s[q]);
            }
        }
        assert forall|q: int| p <= q < s.len() implies (#[trigger] s[q]).score < score by {
            assert(rest[q - 1] == s[q]);
        }
    }
}

/// Inserting at the insert position keeps a sorted table sorted.
proof fn lemma_insert_sorted(s: Seq<HighscoreEntry>, e: HighscoreEntry, p: int)
    requires
        spec_sorted_desc(s),
        p == spec_insert_pos(s, e.score),
    ensures
        spec_sorted_desc(s.insert(p, e)),
        forall|q: int| 0 <= q < p ==> (#[trigger] s[q]).score >= e.score,
        forall|q: int| p <= q < s.len() ==> (#[trigger] s[q]).score < e.score,
{
    lemma_insert_pos_bounds(s, e.score);
    lemma_insert_pos_chars(s, e.score);
    s.insert_ensures(p, e);
    let t = s.insert(p, e);
    assert forall|i: int, j: int| 0 <= i < j < t.len() implies (#[trigger] t[i]).score
        >= (#[trigger] t[j]).score by {
        if i < p {
            assert(t[i] == s[i]);
        } else if i == p {
            assert(t[i] == e);
        } else {
            assert(t[i] == s[i - 1]);
        }
        if j < p {
            assert(t[j] == s[j]);
        } else if j == p {
            assert(t[j] == e);
        } else {
            assert(t[j] == s[j - 1]);
        }
    }
}

/// A copy of the entries, sorted by score, highest first.
fn sort_entries_desc(v: &Vec<HighscoreEntry>) -> (r: Vec<HighscoreEntry>)
    ensures
        spec_sorted_desc(r@),
        r@.to_multiset() == v@.to_multiset(),
{
    let mut r: Vec<HighscoreEntry> = Vec::new();
    let mut i: usize = 0;
    proof {
        broadcast use vstd::seq_lib::group_to_multiset_ensures;

        assert(v@.subrange(0, 0int) =~= Seq::<HighscoreEntry>::empty());
        assert(Seq::<HighscoreEntry>::empty().to_multiset() =~= Multiset::<
            HighscoreEntry,
        >::empty());
    }
    while i < v.len()
        invariant
            0 <= i <= v@.len(),
            spec_sorted_desc(r@),
            r@.to_multiset() == v@.subrange(0, i as int).to_multiset(),
        decreases v@.len() - i,
    {
        let name = v[i].name.clone();
        let entry = HighscoreEntry { name, score: v[i].score };
        proof {
            assert(entry == v@[i as int]);
        }
        let ghost r0 = r@;
        let pos = insert_pos(&r, entry.score);
        proof {
            lemma_insert_sorted(r0, entry, pos as int);
        }
        r.insert(pos, entry);
        proof {
            broadcast use vstd::seq_lib::group_to_multiset_ensures;

            vstd::seq_lib::to_multiset_insert(r0, pos as int, entry);
            assert(v@.subrange(0, i as int + 1) =~= v@.subrange(0, i as int).push(v@[i as int]));
            vstd::seq_lib::to_multiset_build(v@.subrange(0, i as int), v@[i as int]);
        }
        i = i + 1;
    }
    proof {
        assert(v@.subrange(0, v@.len() as int) =~= v@);
    }
    r
}

/// True of the ASCII whitespace the record format strips.
pub open spec fn spec_is_ws(c: char) -> bool {
    c == ' ' || c == '\t' || c == '\r' || c == '\n'
}

/// True of a decimal digit.
pub open spec fn spec_is_digit(c: char) -> bool {
    '0' <= c && c <= '9'
}

/// The first index at or after `i` holding something other than
/// whitespace; the length if there is none.
pub open spec fn spec_skip_ws(s: Seq<char>, i: int) -> int
    decreases s.len() - i,
{
    if i < 0 || i >= s.len() {
        s.len() as int
    } else if spec_is_ws(s[i]) {
        spec_skip_ws(s, i + 1)
    } else {
        i
    }
}

/// The end of the text once trailing whitespace before `j` is stripped.
pub open spec fn spec_rskip_ws(s: Seq<char>, j: int) -> int
    decreases j,
{
    if j <= 0 || j > s.len() {
        0
    } else if spec_is_ws(s[j - 1]) {
        spec_rskip_ws(s, j - 1)
    } else {
        j
    }
}

/// The text with leading and trailing ASCII whitespace stripped.
pub open spec fn spec_trimmed(s: Seq<char>) -> Seq<char> {
    let a = spec_skip_ws(s, 0);
    let b = spec_rskip_ws(s, s.len() as int);
    if a <= b {
        s.subrange(a, b)
    } else {
        Seq::empty()
    }
}

/// The value of a digit string, most significant digit first.
pub open spec fn spec_digits_val(s: Seq<char>) -> int
    decreases s.len(),
{
    if s.len() == 0 {
        0
    } else {
        spec_digits_val(s.drop_last()) * 10 + (s.last() as int - '0' as int)
    }
}

/// What a digit string parses to: at least one decimal digit, nothing
/// else, the value fitting the score type.
pub open spec fn spec_digits_opt(t: Seq<char>) -> Option<u32> {
    if t.len() > 0 && (forall|i: int| 0 <= i < t.len() ==> spec_is_digit(#[trigger] t[i]))
        && spec_digits_val(t) <= u32::MAX {
        Some(spec_digits_val(t) as u32)
    } else {
        None
    }
}

/// What a score field parses to: an optional leading `+`, then at least
/// one decimal digit, the value fitting the score type.
pub open spec fn spec_parse_u32(s: Seq<char>) -> Option<u32> {
    if s.len() > 0 && s[0] == '+' {
        spec_digits_opt(s.subrange(1, s.len() as int))
    } else {
        spec_digits_opt(s)
    }
}

/// The first comma in the line, if any.
pub open spec fn spec_find_comma(s: Seq<char>, i: int) -> Option<int>
    decreases s.len() - i,
{
    if i < 0 || i >= s.len() {
        None
    } else if s[i] == ',' {
        Some(i)
    } else {
        spec_find_comma(s, i + 1)
    }
}

/// What one record line parses to: the part before the first comma is
/// the name, the part after it the score, both trimmed; a line without a
/// comma, or whose score field is not a valid number, is no record.
pub open spec fn spec_parse_line(s: Seq<char>) -> Option<(Seq<char>, u32)> {
    match spec_find_comma(s, 0) {
        None => None,
        Some(k) => match spec_parse_u32(spec_trimmed(s.subrange(k + 1, s.len() as int))) {
            None => None,
            Some(v) => Some((spec_trimmed(s.subrange(0, k)), v)),
        },
    }
}

fn is_ws_char(c: char) -> (r: bool)
    ensures
        r == spec_is_ws(c),
{
    c == ' ' || c == '\t' || c == '\r' || c == '\n'
}

/// The given text with leading and trailing ASCII whitespace removed.
fn trim_str(s: &str) -> (r: &str)
    ensures
        r@ == spec_trimmed(s@),
{
    let n = s.unicode_len();
    let mut a: usize = 0;
    while a < n && is_ws_char(s.get_char(a))
        invariant
            0 <= a <= n == s@.len(),
            spec_skip_ws(s@, 0) == spec_skip_ws(s@, a as int),
        decreases n - a,
    {
        a = a + 1;
    }
    proof {
        assert(spec_skip_ws(s@, a as int) == a as int);
    }
    let mut b: usize = n;
    while b > a && is_ws_char(s.get_char(b - 1))
        invariant
            a <= b <= n == s@.len(),
            a == spec_skip_ws(s@, 0),
            spec_rskip_ws(s@, n as int) == spec_rskip_ws(s@, b as int),
        decreases b,
    {
        b = b - 1;
    }
    if a >= b {
        proof {
            lemma_rskip_le(s@, b as int);
            let bb = spec_rskip_ws(s@, s@.len() as int);
            if a as int <= bb {
                assert(bb == a as int);
                assert(s@.subrange(a as int, a as int) =~= Seq::<char>::empty());
            }
            assert(spec_trimmed(s@) =~= Seq::<char>::empty());
            reveal_strlit("");
            assert(""@ =~= Seq::<char>::empty());
        }
        ""
    } else {
        proof {
            assert(!spec_is_ws(s@[b as int - 1]));
            assert(spec_rskip_ws(s@, b as int) == b as int);
        }
        s.substring_char(a, b)
    }
}

/// Parse the digits of a score field, after any sign.
fn parse_digits(s: &str, start: usize) -> (r: Option<u32>)
    requires
        start <= s@.len(),
    ensures
        r == spec_digits_opt(s@.subrange(start as int, s@.len() as int)),
{
    let ghost t = s@.subrange(start as int, s@.len() as int);
    let n = s.unicode_len();
    if start >= n {
        return None;
    }
    let mut acc: u64 = 0;
    let mut i: usize = start;
    while i < n
        invariant
            start <= i <= n == s@.len(),
            start < n,
            t == s@.subrange(start as int, s@.len() as int),
            forall|k: int| 0 <= k < i - start ==> spec_is_digit(#[trigger] t[k]),
            acc == spec_digits_val(t.subrange(0, i - start)),
            acc <= u32::MAX,
        decreases n - i,
    {
        let c = s.get_char(i);
        let u = c as u32;
        if u < 48 || u > 57 {
            proof {
                assert(t[i - start] == s@[i as int]);
                assert(!spec_is_digit(t[i - start]));
            }
            return None;
        }
        let d = (u - 48) as u64;
        proof {
            assert(t.subrange(0, i - start + 1).drop_last() =~= t.subrange(0, i - start));
            assert(t.subrange(0, i - start + 1).last() == s@[i as int]);
            vstd::arithmetic::div_mod::lemma_remainder(u32::MAX as int - d as int, 10);
        }
        if acc > (u32::MAX as u64 - d) / 10 {
            proof {
                assert(spec_digits_val(t.subrange(0, i - start + 1)) > u32::MAX);
                if forall|k: int| 0 <= k < t.len() ==> spec_is_digit(#[trigger] t[k]) {
                    lemma_digits_val_monotone(t, i - start + 1);
                }
            }
            return None;
        }
        acc = acc * 10 + d;
        i = i + 1;
    }
    proof {
        assert(t.subrange(0, t.len() as int) =~= t);
    }
    Some(acc as u32)
}

/// Stripping trailing whitespace never moves the end rightward.
proof fn lemma_rskip_le(s: Seq<char>, j: int)
    ensures
        spec_rskip_ws(s, j) <= j || j < 0,
        0 <= spec_rskip_ws(s, j),
    decreases j,
{
    if !(j <= 0 || j > s.len()) && spec_is_ws(s[j - 1]) {
        lemma_rskip_le(s, j - 1);
    }
}

/// A digit string's value only grows as digits are appended.
proof fn lemma_digits_val_monotone(t: Seq<char>, i: int)
    requires
        0 <= i <= t.len(),
        forall|k: int| 0 <= k < t.len() ==> spec_is_digit(#[trigger] t[k]),
    ensures
        spec_digits_val(t.subrange(0, i)) <= spec_digits_val(t),
    decreases t.len() - i,
{
    if i == t.len() {
        assert(t.subrange(0, i) =~= t);
    } else {
        assert(t.subrange(0, i + 1).drop_last() =~= t.subrange(0, i));
        assert(t.subrange(0, i + 1).last() == t[i]);
        lemma_digits_val_nonneg(t.subrange(0, i));
        assert(spec_digits_val(t.subrange(0, i + 1)) >= spec_digits_val(t.subrange(0, i)));
        lemma_digits_val_monotone(t, i + 1);
    }
}

/// A digit string's value is never negative.
proof fn lemma_digits_val_nonneg(s: Seq<char>)
    requires
        forall|k: int| 0 <= k < s.len() ==> spec_is_digit(#[trigger] s[k]),
    ensures
        spec_digits_val(s) >= 0,
    decreases s.len(),
{
    if s.len() > 0 {
        assert(forall|k: int| 0 <= k < s.drop_last().len() ==> s.drop_last()[k] == s[k]);
        lemma_digits_val_nonneg(s.drop_last());
    }
}

/// Parse a score field: optional `+`, then decimal digits.
fn parse_u32_field(s: &str) -> (r: Option<u32>)
    ensures
        r == spec_parse_u32(s@),
{
    let n = s.unicode_len();
    let start: usize = if n > 0 && s.get_char(0) == '+' {
        1
    } else {
        0
    };
    proof {
        if start == 1 {
            assert(s@.subrange(1, s@.len() as int) =~= s@.subrange(start as int, s@.len() as int));
        } else {
            assert(s@ =~= s@.subrange(0, s@.len() as int));
        }
    }
    parse_digits(s, start)
}

/// Parse one record line, `name, score`; the name and the score field
/// are trimmed of surrounding whitespace.  Lines without a comma and
/// lines whose score is not a valid number give no record, so a reader
/// can skip them.
pub fn parse_highscore_line(line: &str) -> (r: Option<HighscoreEntry>)
    ensures
        ({
            match r {
                Some(e) => spec_parse_line(line@) == Some((e.name@, e.score)),
                None => spec_parse_line(line@) is None,
            }
        }),
{
    let n = line.unicode_len();
    let mut k: usize = 0;
    let mut found = false;
    while k < n
        invariant_except_break
            0 <= k <= n == line@.len(),
            !found,
            spec_find_comma(line@, 0) == spec_find_comma(line@, k as int),
        ensures
            found ==> k < line@.len() && spec_find_comma(line@, 0) == Some(k as int),
            !found ==> spec_find_comma(line@, 0) is None,
            n == line@.len(),
        decreases n - k,
    {
        if line.get_char(k) == ',' {
            found = true;
            break ;
        }
        k = k + 1;
    }
    if !found {
        return None;
    }
    let name_part = line.substring_char(0, k);
    let score_part = line.substring_char(k + 1, n);
    let name_trimmed = trim_str(name_part);
    let score_trimmed = trim_str(score_part);
    match parse_u32_field(score_trimmed) {
        None => None,
        Some(v) => Some(HighscoreEntry { name: String::from_str(name_trimmed), score: v }),
    }
}

/// The decimal digits of a number, most significant first.
pub open spec fn spec_dec_digits(n: int) -> Seq<char>
    decreases n,
{
    if n < 10 {
        seq![spec_digit_char(n)]
    } else {
        spec_dec_digits(n / 10).push(spec_digit_char(n % 10))
    }
}

/// The character for one decimal digit.
pub open spec fn spec_digit_char(d: int) -> char {
    if d == 0 {
        '0'
    } else if d == 1 {
        '1'
    } else if d == 2 {
        '2'
    } else if d == 3 {
        '3'
    } else if d == 4 {
        '4'
    } else if d == 5 {
        '5'
    } else if d == 6 {
        '6'
    } else if d == 7 {
        '7'
    } else if d == 8 {
        '8'
    } else {
        '9'
    }
}

fn digit_str(d: u32) -> (r: &'static str)
    requires
        d < 10,
    ensures
        r@ =~= seq![spec_digit_char(d as int)],
{
    proof {
        reveal_strlit("0");
        reveal_strlit("1");
        reveal_strlit("2");
        reveal_strlit("3");
        reveal_strlit("4");
        reveal_strlit("5");
        reveal_strlit("6");
        reveal_strlit("7");
        reveal_strlit("8");
        reveal_strlit("9");
    }
    match d {
        0 => "0",
        1 => "1",
        2 => "2",
        3 => "3",
        4 => "4",
        5 => "5",
        6 => "6",
        7 => "7",
        8 => "8",
        _ => "9",
    }
}

/// The decimal text of a number.
pub fn u32_string(n: u32) -> (r: String)
    ensures
        r@ == spec_dec_digits(n as int),
    decreases n,
{
    if n < 10 {
        String::from_str(digit_str(n))
    } else {
        let prefix = u32_string(n / 10);
        prefix.concat(digit_str(n % 10))
    }
}

/// Write one record line, `name, score`.
pub fn render_highscore_line(e: &HighscoreEntry) -> (r: String)
    ensures
        r@ == e.name@ + ", "@ + spec_dec_digits(e.score as int),
{
    proof {
        reveal_strlit(", ");
    }
    let mut out = e.name.clone();
    out.append(", ");
    let digits = u32_string(e.score);
    out.append(digits.as_str());
    out
}

} // verus!
