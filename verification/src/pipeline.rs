use vstd::prelude::*;

use crate::db::CommandDb;
use crate::hashing::{hash_intent, intent_hash};
use crate::keywords::{keyword_command, keyword_fallback};
use crate::similarity::{any_similar, best_similar, is_best_similar, is_search_ranking, rank_hits};
use crate::text::{lower_text, to_ascii_lowercase};

verus! {

/// How the pipeline answered an intent.
pub enum GateMatch {
    /// Gate 1: the entry at this index has the same hash as the intent.
    ExactHash(usize),
    /// Gate 2: the entry at this index is the most similar one, above 0.75.
    Similar(usize),
    /// Gate 3: the keyword fallback gave this command.
    Keyword(String),
}

/// The abstract form of a `GateMatch`.
pub enum GateAnswer {
    ExactHash(usize),
    Similar(usize),
    Keyword(Seq<char>),
}

impl View for GateMatch {
    type V = GateAnswer;

    open spec fn view(&self) -> GateAnswer {
        match self {
            GateMatch::ExactHash(i) => GateAnswer::ExactHash(*i),
            GateMatch::Similar(i) => GateAnswer::Similar(*i),
            GateMatch::Keyword(c) => GateAnswer::Keyword(c@),
        }
    }
}

/// The result of the pipeline: the intent's hash and how it was answered.
pub struct PipelineResult {
    pub hash: String,
    pub answer: GateMatch,
}

/// Whether no entry has the same hash as the intent.
pub open spec fn no_hash_match(db: Seq<(Seq<char>, Seq<char>)>, intent: Seq<char>) -> bool {
    forall|j: int| 0 <= j < db.len() ==> intent_hash(#[trigger] db[j].0) != intent_hash(intent)
}

/// The answer of the three-gate pipeline for `intent` over the database `db`,
/// where `scores[i]` is the similarity (as `f64` bits) of the intent to entry
/// `i`: gate 1 answers with the first entry whose intent has the same hash;
/// failing that, gate 2 with the first most similar entry above 0.75;
/// failing that, gate 3 with the keyword fallback over the ASCII lower-cased
/// intent.
pub open spec fn gate_answer(
    db: Seq<(Seq<char>, Seq<char>)>,
    intent: Seq<char>,
    scores: Seq<u64>,
    answer: GateAnswer,
) -> bool {
    match answer {
        GateAnswer::ExactHash(i) => {
            &&& i < db.len()
            &&& intent_hash(db[i as int].0) == intent_hash(intent)
            &&& forall|j: int| 0 <= j < i ==> intent_hash(#[trigger] db[j].0) != intent_hash(intent)
        },
        GateAnswer::Similar(i) => {
            &&& no_hash_match(db, intent)
            &&& is_best_similar(scores, i as int)
        },
        GateAnswer::Keyword(command) => {
            &&& no_hash_match(db, intent)
            &&& !any_similar(scores)
            &&& command == keyword_command(lower_text(intent))
        },
    }
}

/// Runs the three-gate pipeline on an intent. `scores` holds, for each entry
/// of the database in order, the similarity of the intent's embedding to the
/// entry's embedding, as `f64` bits.
pub fn gate_pipeline(db: &CommandDb, intent: &str, scores: &Vec<u64>) -> (result: PipelineResult)
    requires
        scores@.len() == db@.len(),
    ensures
        result.hash@ == intent_hash(intent@),
        gate_answer(db@, intent@, scores@, result.answer@),
{
    let hash = hash_intent(intent);
    let entries = db.entries();
    let mut i: usize = 0;
    while i < entries.len()
        invariant
            hash@ == intent_hash(intent@),
            crate::db::entry_views(entries@) == db@,
            i <= entries@.len(),
            forall|j: int| 0 <= j < i ==> intent_hash(#[trigger] db@[j].0) != intent_hash(intent@),
        decreases entries@.len() - i,
    {
        let entry_hash = hash_intent(entries[i].intent.as_str());
        assert(db@[i as int] == entries@[i as int]@);
        if entry_hash == hash {
            return PipelineResult { hash, answer: GateMatch::ExactHash(i) };
        }
        i = i + 1;
    }
    match best_similar(scores) {
        Some(b) => PipelineResult { hash, answer: GateMatch::Similar(b) },
        None => {
            let lower = to_ascii_lowercase(intent);
            let command = keyword_fallback(lower.as_str());
            PipelineResult { hash, answer: GateMatch::Keyword(command) }
        },
    }
}

/// Searches the database for entries similar to a query: the indices of the
/// entries whose similarity exceeds 0.01, by rounded similarity from high to
/// low (equal ones in entry order), at most `top_k` of them. `raw` and
/// `rounded` hold, per entry, the similarity and the similarity rounded to
/// three decimals, as `f64` bits.
pub fn vector_search(db: &CommandDb, raw: &Vec<u64>, rounded: &Vec<u64>, top_k: usize) -> (ranked:
    Vec<usize>)
    requires
        raw@.len() == db@.len(),
        rounded@.len() == db@.len(),
    ensures
        is_search_ranking(raw@, rounded@, top_k as int, ranked@),
        forall|p: int| 0 <= p < ranked@.len() ==> #[trigger] ranked@[p] < db@.len(),
{
    rank_hits(raw, rounded, top_k)
}

/// The pipeline's answer is determined by the database, the intent and the
/// similarities: two answers that both meet `gate_answer` are equal.
pub proof fn lemma_gate_answer_unique(
    db: Seq<(Seq<char>, Seq<char>)>,
    intent: Seq<char>,
    scores: Seq<u64>,
    a: GateAnswer,
    b: GateAnswer,
)
    requires
        gate_answer(db, intent, scores, a),
        gate_answer(db, intent, scores, b),
    ensures
        a == b,
{
    match (a, b) {
        (GateAnswer::ExactHash(i), GateAnswer::ExactHash(j)) => {
            if i < j {
                assert(intent_hash(db[i as int].0) != intent_hash(intent));
            } else if j < i {
                assert(intent_hash(db[j as int].0) != intent_hash(intent));
            }
        },
        (GateAnswer::ExactHash(i), _) => {
            assert(intent_hash(db[i as int].0) != intent_hash(intent));
        },
        (_, GateAnswer::ExactHash(j)) => {
            assert(intent_hash(db[j as int].0) != intent_hash(intent));
        },
        (GateAnswer::Similar(i), GateAnswer::Similar(j)) => {
            if i < j {
                assert(crate::similarity::score_order(scores[i as int]) < crate::similarity::score_order(scores[j as int]));
            } else if j < i {
                assert(crate::similarity::score_order(scores[j as int]) < crate::similarity::score_order(scores[i as int]));
            }
        },
        (GateAnswer::Similar(i), _) => {
            assert(crate::similarity::exceeds(scores[i as int], crate::similarity::GATE_SIMILARITY_BITS));
        },
        (_, GateAnswer::Similar(j)) => {
            assert(crate::similarity::exceeds(scores[j as int], crate::similarity::GATE_SIMILARITY_BITS));
        },
        (GateAnswer::Keyword(_), GateAnswer::Keyword(_)) => {},
    }
}

/// A taught intent is answered at gate 1: after appending `(intent, command)`
/// to a database, the pipeline answers `intent` with an exact hash match, at
/// the new entry or at an earlier entry of the same hash; with no earlier
/// entry of that hash, it answers with the new entry, whose command is
/// `command`.
pub proof fn lemma_taught_intent_answered_exactly(
    db: Seq<(Seq<char>, Seq<char>)>,
    intent: Seq<char>,
    command: Seq<char>,
    scores: Seq<u64>,
    answer: GateAnswer,
)
    requires
        gate_answer(db.push((intent, command)), intent, scores, answer),
    ensures
        answer matches GateAnswer::ExactHash(i) && i <= db.len(),
        no_hash_match(db, intent) ==> answer == GateAnswer::ExactHash(db.len() as usize),
        no_hash_match(db, intent) ==> db.push((intent, command))[db.len() as int].1 == command,
{
    let taught = db.push((intent, command));
    assert(taught[db.len() as int].0 == intent);
    match answer {
        GateAnswer::ExactHash(i) => {
            if no_hash_match(db, intent) && i < db.len() {
                assert(taught[i as int] == db[i as int]);
            }
        },
        _ => {},
    }
}

/// With an empty database the pipeline answers every intent at gate 3, with
/// the keyword fallback over the lower-cased intent.
pub proof fn lemma_empty_db_answers_by_keyword(intent: Seq<char>, answer: GateAnswer)
    requires
        gate_answer(Seq::empty(), intent, Seq::empty(), answer),
    ensures
        answer == GateAnswer::Keyword(keyword_command(lower_text(intent))),
{
}

} // verus!
