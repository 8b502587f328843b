use vstd::prelude::*;
use std::time::Instant;
use sha::utils::{Digest, DigestExt};
use crate::text::{digits_of, push_digits, push_str, string_from_chars};

verus! {

#[verifier::external_type_specification]
#[verifier::external_body]
pub struct ExInstant(Instant);

/// The current moment.
///
/// Calls `std::time::Instant::now`; nothing is stated of the moment it
/// returns.
#[verifier::external_body]
fn instant_now() -> Instant {
    Instant::now()
}

/// What the score server reads of a submitted solution: who sent it, for
/// which puzzle, its score, the size of its circuit, and the circuit itself
/// in its serialized text form.
pub struct SolutionData {
    pub install_id: Option<u64>,
    pub puzzle: u32,
    pub score: u32,
    pub width: i32,
    pub height: i32,
    pub circuit: String,
}

/// Whether a solution lies outside the score graph of its puzzle, whose
/// bounds are `max_area` and `max_score`: too high a score, a size that is
/// not positive, or too large a size or area.
pub open spec fn out_of_bounds_spec(score: int, width: int, height: int, max_area: int, max_score: int) -> bool {
    ||| score > max_score
    ||| width <= 0
    ||| height <= 0
    ||| width > max_area
    ||| height > max_area
    ||| width * height > max_area
}

/// Checks a solution against its puzzle's graph bounds, taking care not to
/// overflow on extreme sizes.
pub fn solution_is_out_of_bounds(solution: &SolutionData, max_area: i32, max_score: u32) -> (b: bool)
    ensures
        b == out_of_bounds_spec(
            solution.score as int,
            solution.width as int,
            solution.height as int,
            max_area as int,
            max_score as int,
        ),
{
    let w = solution.width;
    let h = solution.height;
    if solution.score > max_score || w <= 0 || h <= 0 || w > max_area || h > max_area {
        return true;
    }
    assert((w as int) * (h as int) <= 0x7fff_ffff * 0x7fff_ffff) by (nonlinear_arith)
        requires
            0 < w <= 0x7fff_ffff,
            0 < h <= 0x7fff_ffff,
    ;
    assert((w as int) * (h as int) > 0) by (nonlinear_arith)
        requires
            0 < w,
            0 < h,
    ;
    let area = w as i64 * h as i64;
    area > max_area as i64
}

/// A solution lies on its puzzle's score graph exactly when its score is
/// at most the graph's highest score and its circuit has a positive width
/// and height whose area is at most the graph's largest area; any score
/// above the highest is out of bounds, whatever the circuit.
pub proof fn lemma_graph_bounds(score: int, width: int, height: int, max_area: int, max_score: int)
    ensures
        score > max_score ==> out_of_bounds_spec(score, width, height, max_area, max_score),
        !out_of_bounds_spec(score, width, height, max_area, max_score) <==> (score <= max_score && 0
            < width && 0 < height && width * height <= max_area),
{
    if 0 < width && 0 < height && width * height <= max_area {
        assert(width <= width * height && height <= width * height) by (nonlinear_arith)
            requires
                0 < width,
                0 < height,
        ;
    }
}

//---------------------------------------------------------------------------//
// Circuit hashes

/// The lowercase hexadecimal SHA-256 digest of `data`.
pub uninterp spec fn sha256_hex_spec(data: Seq<u8>) -> Seq<char>;

pub open spec fn is_lower_hex_digit(c: char) -> bool {
    ('0' <= c <= '9') || ('a' <= c <= 'f')
}

/// The SHA-256 digest of `data`, written as hexadecimal text.
///
/// Calls the `sha` crate's `Sha256` digest and its `to_hex`.  The contract
/// claims that the text depends on `data` alone and, as `to_hex` writes the
/// 32 digest bytes with two lowercase hexadecimal digits each, that it is 64
/// such digits long.
#[verifier::external_body]
fn sha256_hex(data: &[u8]) -> (hex: String)
    ensures
        hex@ == sha256_hex_spec(data@),
        hex@.len() == 64,
        forall|i: int| 0 <= i < hex@.len() ==> is_lower_hex_digit(#[trigger] hex@[i]),
{
    sha::sha256::Sha256::default().digest(data).to_hex()
}

/// The hash by which the server knows a circuit: the digest of its
/// serialized text.
pub open spec fn circuit_hash(serialized: Seq<char>) -> Seq<char> {
    sha256_hex_spec(vstd::utf8::encode_utf8(serialized))
}

/// Hashes a circuit given as its serialized text.
pub fn hash_circuit_data(serialized: &str) -> (hash: String)
    ensures
        hash@ == circuit_hash(serialized@),
        hash@.len() == 64,
{
    let bytes = serialized.as_bytes();
    sha256_hex(bytes)
}

//---------------------------------------------------------------------------//
// Association lists

/// The map that an association list describes (later entries win).
pub open spec fn list_map<K, V>(s: Seq<(K, V)>) -> Map<K, V>
    decreases s.len(),
{
    if s.len() == 0 {
        Map::empty()
    } else {
        list_map(s.drop_last()).insert(s.last().0, s.last().1)
    }
}

pub open spec fn keys_distinct<K, V>(s: Seq<(K, V)>) -> bool {
    forall|i: int, j: int| 0 <= i < s.len() && 0 <= j < s.len() && i != j ==> s[i].0 != s[j].0
}

/// An association list with distinct keys maps each of its keys to its
/// value, has no other keys, and has as many keys as entries.
pub proof fn lemma_list_map<K, V>(s: Seq<(K, V)>)
    requires
        keys_distinct(s),
    ensures
        forall|i: int|
            0 <= i < s.len() ==> #[trigger] list_map(s).contains_key(s[i].0) && list_map(s)[s[i].0]
                == s[i].1,
        forall|k: K| #[trigger]
            list_map(s).contains_key(k) ==> exists|i: int| 0 <= i < s.len() && s[i].0 == k,
        list_map(s).dom().finite(),
        list_map(s).dom().len() == s.len(),
    decreases s.len(),
{
    if s.len() > 0 {
        let t = s.drop_last();
        assert(keys_distinct(t));
        lemma_list_map(t);
        let last = s.last();
        assert(!list_map(t).contains_key(last.0)) by {
            if list_map(t).contains_key(last.0) {
                let i = choose|i: int| 0 <= i < t.len() && t[i].0 == last.0;
                assert(s[i] == t[i]);
            }
        }
        assert forall|k: K| #[trigger] list_map(s).contains_key(k) implies exists|i: int|
            0 <= i < s.len() && s[i].0 == k by {
            if k != last.0 {
                let i = choose|i: int| 0 <= i < t.len() && t[i].0 == k;
                assert(s[i] == t[i]);
            } else {
                assert(s[s.len() - 1].0 == k);
            }
        }
        assert forall|i: int| 0 <= i < s.len() implies #[trigger] list_map(s).contains_key(s[i].0)
            && list_map(s)[s[i].0] == s[i].1 by {
            if i < s.len() - 1 {
                assert(s[i] == t[i]);
                assert(list_map(t).contains_key(t[i].0));
            }
        }
        assert(list_map(s).dom() =~= list_map(t).dom().insert(last.0));
    } else {
        assert(list_map(s).dom() =~= Set::<K>::empty());
    }
}

//---------------------------------------------------------------------------//
// The score database

struct CircuitEntry {
    hash: String,
    circuit: String,
}

struct SubmissionEntry {
    install_id: u64,
    puzzle: u32,
    hash: String,
    time: Instant,
}

/// A verified solution: its puzzle, its circuit's hash, and the area and
/// score it reached.
pub struct VerifiedScore {
    pub puzzle: u32,
    pub hash: String,
    pub area: i32,
    pub score: u32,
}

/// The key of a solution that was verified or is to be: its puzzle and its
/// circuit's hash.
pub type SolutionKey = (u32, Seq<char>);

/// Whether no solution with this puzzle and circuit hash was verified.
pub open spec fn is_new_solution(verified: Map<SolutionKey, (i32, u32)>, puzzle: u32, hash: Seq<char>) -> bool {
    !verified.contains_key((puzzle, hash))
}

/// How recording a submitted solution changes the database: its circuit is
/// kept under its hash unless one is kept already, the first submission of
/// it by its installation (if known) is noted while earlier notes stay as
/// they were, and the verified solutions stay as they were.
pub open spec fn records_submission(before: InMemoryScoreDatabase, after: InMemoryScoreDatabase, solution: &SolutionData) -> bool {
    let h = circuit_hash(solution.circuit@);
    &&& after.circuits_view() == (if before.circuits_view().contains_key(h) {
        before.circuits_view()
    } else {
        before.circuits_view().insert(h, solution.circuit@)
    })
    &&& after.verified_view() == before.verified_view()
    &&& match solution.install_id {
        Some(id) => {
            &&& after.submissions_view().dom() == before.submissions_view().dom().insert(
                (id, solution.puzzle, h),
            )
            &&& forall|k: (u64, u32, Seq<char>)| #[trigger]
                before.submissions_view().contains_key(k) ==> after.submissions_view()[k]
                    == before.submissions_view()[k]
        },
        None => after.submissions_view() == before.submissions_view(),
    }
}

/// The verified scores as listed: puzzle, circuit hash, area and score.
pub open spec fn scores_view(scores: Seq<(u32, String, i32, u32)>) -> Seq<(u32, Seq<char>, i32, u32)> {
    scores.map_values(|e: (u32, String, i32, u32)| (e.0, e.1@, e.2, e.3))
}

/// A listing of verified scores shows exactly the verified solutions of
/// `verified`, each with its area and score.
pub open spec fn lists_scores(listed: Seq<(u32, Seq<char>, i32, u32)>, verified: Map<SolutionKey, (i32, u32)>) -> bool {
    &&& forall|i: int|
        0 <= i < listed.len() ==> #[trigger] verified.contains_key((listed[i].0, listed[i].1))
            && verified[(listed[i].0, listed[i].1)] == (listed[i].2, listed[i].3)
    &&& forall|k: SolutionKey| #[trigger]
        verified.contains_key(k) ==> exists|i: int| 0 <= i < listed.len() && (listed[i].0, listed[i].1) == k
}

/// The server's store of circuits, submissions and verified scores, kept
/// in memory.
pub struct InMemoryScoreDatabase {
    circuits: Vec<CircuitEntry>,
    submissions: Vec<SubmissionEntry>,
    verified: Vec<VerifiedScore>,
}

impl InMemoryScoreDatabase {
    closed spec fn circuit_list(&self) -> Seq<(Seq<char>, Seq<char>)> {
        self.circuits@.map_values(|e: CircuitEntry| (e.hash@, e.circuit@))
    }

    closed spec fn submission_list(&self) -> Seq<((u64, u32, Seq<char>), Instant)> {
        self.submissions@.map_values(|e: SubmissionEntry| ((e.install_id, e.puzzle, e.hash@), e.time))
    }

    closed spec fn verified_list(&self) -> Seq<(SolutionKey, (i32, u32))> {
        self.verified@.map_values(|e: VerifiedScore| ((e.puzzle, e.hash@), (e.area, e.score)))
    }

    /// The stored circuits, by hash.
    pub closed spec fn circuits_view(&self) -> Map<Seq<char>, Seq<char>> {
        list_map(self.circuit_list())
    }

    /// When each installation first submitted each circuit for each puzzle.
    pub closed spec fn submissions_view(&self) -> Map<(u64, u32, Seq<char>), Instant> {
        list_map(self.submission_list())
    }

    /// The verified solutions, with the area and score of each.
    pub closed spec fn verified_view(&self) -> Map<SolutionKey, (i32, u32)> {
        list_map(self.verified_list())
    }

    pub closed spec fn wf(&self) -> bool {
        &&& keys_distinct(self.circuit_list())
        &&& keys_distinct(self.submission_list())
        &&& keys_distinct(self.verified_list())
    }

    pub fn new() -> (db: InMemoryScoreDatabase)
        ensures
            db.wf(),
            db.circuits_view() == Map::<Seq<char>, Seq<char>>::empty(),
            db.submissions_view() == Map::<(u64, u32, Seq<char>), Instant>::empty(),
            db.verified_view() == Map::<SolutionKey, (i32, u32)>::empty(),
    {
        let db = InMemoryScoreDatabase { circuits: Vec::new(), submissions: Vec::new(), verified: Vec::new() };
        assert(db.circuit_list() =~= Seq::empty());
        assert(db.submission_list() =~= Seq::empty());
        assert(db.verified_list() =~= Seq::empty());
        db
    }

    /// The number of distinct verified solutions.
    pub fn load_num_verified_solutions(&self) -> (n: u64)
        requires
            self.wf(),
        ensures
            n == self.verified_view().dom().len(),
    {
        proof {
            lemma_list_map(self.verified_list());
        }
        self.verified.len() as u64
    }

    /// Every verified solution, once each: its puzzle, its circuit's hash,
    /// and its area and score.
    pub fn load_scores(&self) -> (scores: Vec<(u32, String, i32, u32)>)
        requires
            self.wf(),
        ensures
            scores@.len() == self.verified_view().dom().len(),
            lists_scores(scores_view(scores@), self.verified_view()),
            forall|i: int, j: int|
                #![trigger scores@[i], scores@[j]]
                0 <= i < scores@.len() && 0 <= j < scores@.len() && i != j ==> (scores@[i].0, scores@[i].1@)
                    != (scores@[j].0, scores@[j].1@),
    {
        proof {
            lemma_list_map(self.verified_list());
        }
        let ghost vl = self.verified_list();
        let mut scores: Vec<(u32, String, i32, u32)> = Vec::new();
        let mut i: usize = 0;
        while i < self.verified.len()
            invariant
                i <= self.verified@.len(),
                vl == self.verified_list(),
                vl.len() == self.verified@.len(),
                scores@.len() == i,
                forall|j: int|
                    0 <= j < i ==> (#[trigger] scores@[j]).0 == vl[j].0.0 && scores@[j].1@ == vl[j].0.1
                        && scores@[j].2 == vl[j].1.0 && scores@[j].3 == vl[j].1.1,
            decreases self.verified@.len() - i,
        {
            let e = &self.verified[i];
            scores.push((e.puzzle, e.hash.clone(), e.area, e.score));
            i = i + 1;
        }
        proof {
            lemma_list_map(self.verified_list());
            assert forall|a: int| 0 <= a < scores@.len() implies #[trigger] self.verified_view().contains_key(
                (scores@[a].0, scores@[a].1@),
            ) && self.verified_view()[(scores@[a].0, scores@[a].1@)] == (scores@[a].2, scores@[a].3) by {
                assert((scores@[a].0, scores@[a].1@) == vl[a].0);
                assert(self.verified_view().contains_key(vl[a].0));
            }
            assert forall|a: int, b: int|
                #![trigger scores@[a], scores@[b]]
                0 <= a < scores@.len() && 0 <= b < scores@.len() && a != b implies (scores@[a].0, scores@[a].1@)
                    != (scores@[b].0, scores@[b].1@) by {
                assert((scores@[a].0, scores@[a].1@) == vl[a].0);
                assert((scores@[b].0, scores@[b].1@) == vl[b].0);
            }
            let sv = scores_view(scores@);
            assert forall|a: int| 0 <= a < sv.len() implies #[trigger] self.verified_view().contains_key(
                (sv[a].0, sv[a].1),
            ) && self.verified_view()[(sv[a].0, sv[a].1)] == (sv[a].2, sv[a].3) by {
                assert(sv[a] == (scores@[a].0, scores@[a].1@, scores@[a].2, scores@[a].3));
                assert(self.verified_view().contains_key((scores@[a].0, scores@[a].1@)));
            }
            assert forall|k: SolutionKey| #[trigger] self.verified_view().contains_key(k) implies exists|a: int|
                0 <= a < sv.len() && (sv[a].0, sv[a].1) == k by {
                let j = choose|j: int| 0 <= j < vl.len() && vl[j].0 == k;
                assert(sv[j] == (scores@[j].0, scores@[j].1@, scores@[j].2, scores@[j].3));
                assert((sv[j].0, sv[j].1) == k);
            }
        }
        scores
    }

    fn is_verified(&self, puzzle: u32, hash: &String) -> (b: bool)
        requires
            self.wf(),
        ensures
            b == self.verified_view().contains_key((puzzle, hash@)),
    {
        proof {
            lemma_list_map(self.verified_list());
        }
        let ghost vl = self.verified_list();
        let mut i: usize = 0;
        while i < self.verified.len()
            invariant
                i <= self.verified@.len(),
                vl == self.verified_list(),
                vl.len() == self.verified@.len(),
                self.wf(),
                forall|j: int| 0 <= j < i ==> vl[j].0 != (puzzle, hash@),
            decreases self.verified@.len() - i,
        {
            let e = &self.verified[i];
            if e.puzzle == puzzle && e.hash == *hash {
                proof {
                    lemma_list_map(self.verified_list());
                }
                assert(vl[i as int].0 == (puzzle, hash@));
                return true;
            }
            i = i + 1;
        }
        false
    }

    fn has_circuit(&self, hash: &String) -> (b: bool)
        requires
            self.wf(),
        ensures
            b == self.circuits_view().contains_key(hash@),
    {
        proof {
            lemma_list_map(self.circuit_list());
        }
        let ghost cl = self.circuit_list();
        let mut i: usize = 0;
        while i < self.circuits.len()
            invariant
                i <= self.circuits@.len(),
                cl == self.circuit_list(),
                cl.len() == self.circuits@.len(),
                self.wf(),
                forall|j: int| 0 <= j < i ==> cl[j].0 != hash@,
            decreases self.circuits@.len() - i,
        {
            if self.circuits[i].hash == *hash {
                proof {
                    lemma_list_map(self.circuit_list());
                }
                assert(cl[i as int].0 == hash@);
                return true;
            }
            i = i + 1;
        }
        false
    }

    fn has_submission(&self, install_id: u64, puzzle: u32, hash: &String) -> (b: bool)
        requires
            self.wf(),
        ensures
            b == self.submissions_view().contains_key((install_id, puzzle, hash@)),
    {
        proof {
            lemma_list_map(self.submission_list());
        }
        let ghost sl = self.submission_list();
        let mut i: usize = 0;
        while i < self.submissions.len()
            invariant
                i <= self.submissions@.len(),
                sl == self.submission_list(),
                sl.len() == self.submissions@.len(),
                self.wf(),
                forall|j: int| 0 <= j < i ==> sl[j].0 != (install_id, puzzle, hash@),
            decreases self.submissions@.len() - i,
        {
            let e = &self.submissions[i];
            if e.install_id == install_id && e.puzzle == puzzle && e.hash == *hash {
                proof {
                    lemma_list_map(self.submission_list());
                }
                assert(sl[i as int].0 == (install_id, puzzle, hash@));
                return true;
            }
            i = i + 1;
        }
        false
    }

    /// Records a submitted solution: keeps its circuit (by hash) if it is
    /// new, notes when its installation first submitted it, and returns the
    /// key under which to record it once verified, or `None` when a
    /// solution with the same puzzle and circuit was verified before.
    pub fn store_new_solution(&mut self, solution: &SolutionData) -> (key: Option<(u32, String)>)
        requires
            old(self).wf(),
        ensures
            final(self).wf(),
            records_submission(*old(self), *final(self), solution),
            key is Some <==> is_new_solution(old(self).verified_view(), solution.puzzle, circuit_hash(solution.circuit@)),
            key matches Some(k) ==> k.0 == solution.puzzle && k.1@ == circuit_hash(solution.circuit@),
    {
        let hash = hash_circuit_data(solution.circuit.as_str());
        let ghost h = hash@;
        if !self.has_circuit(&hash) {
            let ghost before = self.circuit_list();
            self.circuits.push(CircuitEntry { hash: hash.clone(), circuit: solution.circuit.clone() });
            proof {
                assert(self.circuit_list() =~= before.push((h, solution.circuit@)));
                lemma_list_map(before);
                assert(keys_distinct(self.circuit_list())) by {
                    let c = self.circuit_list();
                    assert forall|a: int, b: int| 0 <= a < c.len() && 0 <= b < c.len() && a != b implies c[a].0
                        != c[b].0 by {
                        if a == c.len() - 1 {
                            assert(list_map(before).contains_key(before[b].0));
                        } else if b == c.len() - 1 {
                            assert(list_map(before).contains_key(before[a].0));
                        } else {
                            assert(c[a] == before[a] && c[b] == before[b]);
                        }
                    }
                }
                assert(self.circuit_list().drop_last() =~= before);
            }
        }
        match solution.install_id {
            Some(id) => {
                if !self.has_submission(id, solution.puzzle, &hash) {
                    let time = instant_now();
                    let ghost before = self.submission_list();
                    let ghost key = (id, solution.puzzle, h);
                    self.submissions.push(
                        SubmissionEntry { install_id: id, puzzle: solution.puzzle, hash: hash.clone(), time },
                    );
                    proof {
                        assert(self.submission_list() =~= before.push((key, time)));
                        lemma_list_map(before);
                        assert(keys_distinct(self.submission_list())) by {
                            let c = self.submission_list();
                            assert forall|a: int, b: int|
                                0 <= a < c.len() && 0 <= b < c.len() && a != b implies c[a].0 != c[b].0 by {
                                if a == c.len() - 1 {
                                    assert(list_map(before).contains_key(before[b].0));
                                } else if b == c.len() - 1 {
                                    assert(list_map(before).contains_key(before[a].0));
                                } else {
                                    assert(c[a] == before[a] && c[b] == before[b]);
                                }
                            }
                        }
                        assert(self.submission_list().drop_last() =~= before);
                        assert(self.submissions_view().dom() =~= list_map(before).dom().insert(key));
                    }
                } else {
                    assert(old(self).submissions_view().dom() =~= old(self).submissions_view().dom().insert(
                        (id, solution.puzzle, h),
                    ));
                }
            },
            None => {},
        }
        if self.is_verified(solution.puzzle, &hash) {
            None
        } else {
            Some((solution.puzzle, hash))
        }
    }

    /// Records that the solution with key `key` was verified, with the
    /// given area and score.
    pub fn store_verified_solution(&mut self, key: (u32, String), area: i32, score: u32)
        requires
            old(self).wf(),
        ensures
            final(self).wf(),
            final(self).verified_view() == old(self).verified_view().insert((key.0, key.1@), (area, score)),
            final(self).circuits_view() == old(self).circuits_view(),
            final(self).submissions_view() == old(self).submissions_view(),
    {
        proof {
            lemma_list_map(self.verified_list());
        }
        let ghost before = self.verified_list();
        let ghost k = (key.0, key.1@);
        let mut i: usize = 0;
        while i < self.verified.len()
            invariant
                i <= self.verified@.len(),
                before == self.verified_list(),
                before.len() == self.verified@.len(),
                self.wf(),
                self.circuits@ == old(self).circuits@,
                self.submissions@ == old(self).submissions@,
                self.verified@ == old(self).verified@,
                k == (key.0, key.1@),
                forall|j: int| 0 <= j < i ==> before[j].0 != k,
            decreases self.verified@.len() - i,
        {
            if self.verified[i].puzzle == key.0 && self.verified[i].hash == key.1 {
                assert(before[i as int].0 == k);
                let (puzzle, hash) = key;
                let ghost raw = self.verified@;
                let entry = VerifiedScore { puzzle, hash, area, score };
                let ghost entry_view = ((entry.puzzle, entry.hash@), (entry.area, entry.score));
                self.verified.set(i, entry);
                proof {
                    let after = self.verified_list();
                    assert(entry_view == (k, (area, score)));
                    assert(self.verified@ == raw.update(i as int, entry));
                    assert forall|j: int| 0 <= j < after.len() implies after[j] == before.update(
                        i as int,
                        (k, (area, score)),
                    )[j] by {
                        if j != i {
                            assert(self.verified@[j] == raw[j]);
                        }
                    }
                    assert(after =~= before.update(i as int, (k, (area, score))));
                    lemma_list_map(before);
                    assert(keys_distinct(after)) by {
                        assert forall|a: int, b: int|
                            0 <= a < after.len() && 0 <= b < after.len() && a != b implies after[a].0 != after[b].0 by {
                            assert(after[a].0 == before[a].0);
                            assert(after[b].0 == before[b].0);
                        }
                    }
                    lemma_list_map(after);
                    assert(list_map(after) =~= list_map(before).insert(k, (area, score))) by {
                        assert forall|kk: SolutionKey| #[trigger] list_map(after).contains_key(kk) implies list_map(
                            before,
                        ).insert(k, (area, score)).contains_key(kk) && list_map(after)[kk] == list_map(before).insert(
                            k,
                            (area, score),
                        )[kk] by {
                            let j = choose|j: int| 0 <= j < after.len() && after[j].0 == kk;
                            assert(list_map(after).contains_key(after[j].0));
                            if j != i {
                                assert(after[j] == before[j]);
                                assert(list_map(before).contains_key(before[j].0));
                                assert(before[j].0 != before[i as int].0);
                            } else {
                                assert(after[j] == (k, (area, score)));
                            }
                        }
                        assert forall|kk: SolutionKey| #[trigger] list_map(before).insert(k, (area, score)).contains_key(
                            kk,
                        ) implies list_map(after).contains_key(kk) by {
                            if kk != k {
                                let j = choose|j: int| 0 <= j < before.len() && before[j].0 == kk;
                                assert(after[j] == before[j]);
                                assert(list_map(after).contains_key(after[j].0));
                            } else {
                                assert(list_map(after).contains_key(after[i as int].0));
                            }
                        }
                    }
                }
                return;
            }
            i = i + 1;
        }
        let (puzzle, hash) = key;
        self.verified.push(VerifiedScore { puzzle, hash, area, score });
        proof {
            assert(self.verified_list() =~= before.push((k, (area, score))));
            assert(keys_distinct(self.verified_list()));
            assert(self.verified_list().drop_last() =~= before);
        }
    }
}


//---------------------------------------------------------------------------//
// Laws of the database

impl InMemoryScoreDatabase {
    /// The database holds finitely many verified solutions.
    pub proof fn lemma_verified_finite(&self)
        requires
            self.wf(),
        ensures
            self.verified_view().dom().finite(),
    {
        lemma_list_map(self.verified_list());
    }
}

/// Once a solution has been recorded as verified, a solution with the same
/// puzzle and circuit is no longer new, so it is not verified again.
pub proof fn lemma_verified_solution_is_not_new(
    verified: Map<SolutionKey, (i32, u32)>,
    key: SolutionKey,
    area: i32,
    score: u32,
)
    ensures
        !is_new_solution(verified.insert(key, (area, score)), key.0, key.1),
{
}

/// Recording a verified solution adds one to the count of verified
/// solutions when its key is new, and leaves the count as it was otherwise.
pub proof fn lemma_verified_count_after_store(
    verified: Map<SolutionKey, (i32, u32)>,
    key: SolutionKey,
    area: i32,
    score: u32,
)
    requires
        verified.dom().finite(),
    ensures
        verified.insert(key, (area, score)).dom().len() == verified.dom().len() + (if verified.contains_key(
            key,
        ) {
            0int
        } else {
            1int
        }),
{
    assert(verified.insert(key, (area, score)).dom() =~= verified.dom().insert(key));
}

/// What a read gives back of a write: once a verified solution is recorded
/// with its area and score, a listing of the verified scores shows it with
/// that area and score.
pub proof fn lemma_listing_shows_stored_score(
    verified: Map<SolutionKey, (i32, u32)>,
    key: SolutionKey,
    area: i32,
    score: u32,
    listed: Seq<(u32, Seq<char>, i32, u32)>,
)
    requires
        lists_scores(listed, verified.insert(key, (area, score))),
    ensures
        exists|i: int| 0 <= i < listed.len() && listed[i] == (key.0, key.1, area, score),
{
    let v = verified.insert(key, (area, score));
    assert(v.contains_key(key));
    let i = choose|i: int| 0 <= i < listed.len() && (listed[i].0, listed[i].1) == key;
    assert(v.contains_key((listed[i].0, listed[i].1)));
    assert(listed[i] == (key.0, key.1, area, score));
}

//---------------------------------------------------------------------------//
// Handling a submission

/// What the server does next with a submitted solution.
pub enum SubmissionStep {
    /// The solution lies outside its puzzle's graph; it is ignored.
    OutOfBounds,
    /// A solution with the same puzzle and circuit was verified before.
    AlreadyVerified,
    /// The solution is new: verify its circuit, then record it under this
    /// key.
    Verify(u32, String),
}

/// Takes in a submitted solution whose puzzle has the graph bounds
/// `max_area` and `max_score`: one outside them is ignored, any other is
/// recorded, and the step returned says whether it still needs verifying.
pub fn begin_submission(
    db: &mut InMemoryScoreDatabase,
    solution: &SolutionData,
    max_area: i32,
    max_score: u32,
) -> (step: SubmissionStep)
    requires
        old(db).wf(),
    ensures
        final(db).wf(),
        ({
            let h = circuit_hash(solution.circuit@);
            if out_of_bounds_spec(
                solution.score as int,
                solution.width as int,
                solution.height as int,
                max_area as int,
                max_score as int,
            ) {
                &&& step is OutOfBounds
                &&& final(db).circuits_view() == old(db).circuits_view()
                &&& final(db).submissions_view() == old(db).submissions_view()
                &&& final(db).verified_view() == old(db).verified_view()
            } else {
                &&& records_submission(*old(db), *final(db), solution)
                &&& (step is Verify <==> is_new_solution(old(db).verified_view(), solution.puzzle, h))
                &&& (step is AlreadyVerified <==> !is_new_solution(old(db).verified_view(), solution.puzzle, h))
                &&& (step matches SubmissionStep::Verify(p, k) ==> p == solution.puzzle && k@ == h)
            }
        }),
{
    if solution_is_out_of_bounds(solution, max_area, max_score) {
        return SubmissionStep::OutOfBounds;
    }
    match db.store_new_solution(solution) {
        Some((puzzle, hash)) => SubmissionStep::Verify(puzzle, hash),
        None => SubmissionStep::AlreadyVerified,
    }
}

/// The reply to a submission that needs no verification.
pub open spec fn early_reply_spec(step: SubmissionStep) -> Seq<char> {
    match step {
        SubmissionStep::OutOfBounds => "Solution is not within graph bounds."@,
        _ => "ok\n"@,
    }
}

/// The reply to a submission that was ignored or seen before.
pub fn early_reply(step: &SubmissionStep) -> (reply: String)
    ensures
        reply@ == early_reply_spec(*step),
{
    match step {
        SubmissionStep::OutOfBounds => "Solution is not within graph bounds.".to_owned(),
        _ => "ok\n".to_owned(),
    }
}

/// The report of a circuit's errors: a line for each.
pub open spec fn error_lines(errors: Seq<Seq<char>>) -> Seq<char>
    decreases errors.len(),
{
    if errors.len() == 0 {
        Seq::empty()
    } else {
        error_lines(errors.drop_last()) + "- "@ + errors.last() + "\n"@
    }
}

pub open spec fn error_report(errors: Seq<Seq<char>>) -> Seq<char> {
    "Circuit had errors:\n"@ + error_lines(errors)
}

/// Finishes a submission after its circuit was verified, with `errors` the
/// errors that verification found: without errors the solution is recorded
/// with its area and score and the reply is `ok`; otherwise nothing is
/// recorded and the reply lists the errors.
pub fn finish_submission(
    db: &mut InMemoryScoreDatabase,
    puzzle: u32,
    hash: String,
    solution: &SolutionData,
    errors: &Vec<String>,
) -> (reply: String)
    requires
        old(db).wf(),
        0 <= (solution.width as int) * (solution.height as int) <= i32::MAX,
    ensures
        final(db).wf(),
        final(db).circuits_view() == old(db).circuits_view(),
        final(db).submissions_view() == old(db).submissions_view(),
        errors@.len() == 0 ==> final(db).verified_view() == old(db).verified_view().insert(
            (puzzle, hash@),
            ((solution.width as int * solution.height as int) as i32, solution.score),
        ) && reply@ == "ok\n"@,
        errors@.len() > 0 ==> final(db).verified_view() == old(db).verified_view() && reply@
            == error_report(errors@.map_values(|e: String| e@)),
{
    if errors.len() == 0 {
        let area = solution.width * solution.height;
        db.store_verified_solution((puzzle, hash), area, solution.score);
        return "ok\n".to_owned();
    }
    let ghost es = errors@.map_values(|e: String| e@);
    let mut out: Vec<char> = Vec::new();
    push_str(&mut out, "Circuit had errors:\n");
    let mut i: usize = 0;
    while i < errors.len()
        invariant
            i <= errors@.len(),
            es == errors@.map_values(|e: String| e@),
            out@ == "Circuit had errors:\n"@ + error_lines(es.take(i as int)),
        decreases errors.len() - i,
    {
        push_str(&mut out, "- ");
        push_str(&mut out, errors[i].as_str());
        push_str(&mut out, "\n");
        assert(es.take(i + 1).drop_last() =~= es.take(i as int));
        assert(es.take(i + 1).last() == errors@[i as int]@);
        assert(out@ =~= "Circuit had errors:\n"@ + error_lines(es.take(i + 1)));
        i = i + 1;
    }
    assert(es.take(es.len() as int) =~= es);
    string_from_chars(&out)
}

/// The text of the server's landing page for `count` verified solutions.
pub open spec fn landing_page_spec(count: nat) -> Seq<char> {
    "There are "@ + digits_of(count) + " verified solutions.\n"@
}

/// Writes the landing page text.
pub fn landing_page_text(count: u64) -> (text: String)
    ensures
        text@ == landing_page_spec(count as nat),
{
    let mut out: Vec<char> = Vec::new();
    push_str(&mut out, "There are ");
    push_digits(count, &mut out);
    push_str(&mut out, " verified solutions.\n");
    string_from_chars(&out)
}

} // verus!
