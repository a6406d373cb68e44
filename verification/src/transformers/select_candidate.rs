//! Choosing among the candidates of a dictionary entry.
use vstd::prelude::*;
use super::{Transformer, TransformerTypes, Op, opt_tvs, single, pair, none, StoppedTransformer,
    UnknownWordTransformer, Word};
use super::steps::{TfView, step, ttype, ctx_of, with_ctx, buffer_of, display_of, select_candidate_new, sc_buffer};
use super::word::okuri_text;
use crate::context::Context;
use crate::dictionary::{Candidate, DictionaryEntry};
use crate::dictionary::candidate::CandidateView;
use crate::dictionary::dictionary_entry::{candidates_view, clone_candidates};
use crate::text::{concat, string_of_char};

verus! {

/// The candidate at a position, if there is one.
pub open spec fn cand_at(c: Seq<CandidateView>, i: int) -> Option<CandidateView> {
    if 0 <= i < c.len() {
        Some(c[i])
    } else {
        None
    }
}

pub open spec fn opt_cand(r: Option<Candidate>) -> Option<CandidateView> {
    match r {
        Some(c) => Some(c@),
        None => None,
    }
}

/// Moving to the next candidate: one position further, unless past the
/// last already.
pub open spec fn cands_next(c: (Seq<CandidateView>, nat)) -> (Seq<CandidateView>, nat) {
    if c.1 < c.0.len() {
        (c.0, c.1 + 1)
    } else {
        c
    }
}

/// Moving to the previous candidate: one position back, unless at the
/// first already.
pub open spec fn cands_prev(c: (Seq<CandidateView>, nat)) -> (Seq<CandidateView>, nat) {
    if c.1 > 0 {
        (c.0, (c.1 - 1) as nat)
    } else {
        c
    }
}

/// Moving forward and back again returns to the candidate selected before,
/// where there was a position to move to; so does moving back and forward.
pub proof fn law_prev_undoes_next(c: (Seq<CandidateView>, nat))
    ensures
        c.1 < c.0.len() ==> cands_prev(cands_next(c)) == c,
        0 < c.1 <= c.0.len() ==> cands_next(cands_prev(c)) == c,
{
}

/// Whether the position stands within the candidates or just past the last.
pub open spec fn cands_within(c: (Seq<CandidateView>, nat)) -> bool {
    c.1 <= c.0.len()
}

/// The position stays within the list: it starts at the first candidate,
/// moving forward or back keeps it within, and the candidate selected is
/// missing exactly when the position stands past the last.
pub proof fn law_position_within(c: (Seq<CandidateView>, nat), v: Seq<CandidateView>)
    requires
        cands_within(c),
    ensures
        cands_within((v, 0nat)),
        cands_within(cands_next(c)),
        cands_within(cands_prev(c)),
        (cand_at(c.0, c.1 as int) is None) == (c.1 == c.0.len()),
{
}

/// Candidates and the position of the one selected; the position may
/// stand one past the last.
#[derive(Debug)]
pub struct Candidates {
    candidates: Vec<Candidate>,
    pos: usize,
}

impl View for Candidates {
    type V = (Seq<CandidateView>, nat);

    closed spec fn view(&self) -> (Seq<CandidateView>, nat) {
        (candidates_view(self.candidates@), self.pos as nat)
    }
}

impl Clone for Candidates {
    fn clone(&self) -> (r: Self)
        ensures
            r@ == self@,
    {
        proof {
            use_type_invariant(self);
        }
        let candidates = clone_candidates(&self.candidates);
        assert(candidates@.len() == candidates_view(candidates@).len());
        Candidates { candidates, pos: self.pos }
    }
}

impl Candidates {
    #[verifier::type_invariant]
    spec fn position_within(&self) -> bool {
        self.pos <= self.candidates@.len()
    }

    /// The candidates, the first selected.
    pub fn new(candidates: &Vec<Candidate>) -> (r: Self)
        ensures
            r@ == (candidates_view(candidates@), 0nat),
    {
        Candidates { candidates: clone_candidates(candidates), pos: 0 }
    }

    fn get(&self, i: usize) -> (r: Option<Candidate>)
        ensures
            opt_cand(r) == cand_at(self@.0, i as int),
    {
        if i < self.candidates.len() {
            Some(self.candidates[i].clone())
        } else {
            None
        }
    }

    /// Moves to the next candidate, unless past the last already; the one
    /// now selected, if any.
    pub fn next(&mut self) -> (r: Option<Candidate>)
        ensures
            final(self)@ == cands_next(old(self)@),
            cands_within(final(self)@),
            old(self)@.1 >= old(self)@.0.len() ==> r is None && final(self)@ == old(self)@,
            old(self)@.1 < old(self)@.0.len() ==> final(self)@ == (old(self)@.0, old(self)@.1 + 1)
                && opt_cand(r) == cand_at(old(self)@.0, old(self)@.1 + 1int),
    {
        proof {
            use_type_invariant(&*self);
        }
        if self.pos >= self.candidates.len() {
            return None;
        }
        self.pos = self.pos + 1;
        self.get(self.pos)
    }

    /// Moves to the previous candidate, unless at the first already; the
    /// one now selected, if any.
    pub fn prev(&mut self) -> (r: Option<Candidate>)
        ensures
            final(self)@ == cands_prev(old(self)@),
            cands_within(final(self)@),
            old(self)@.1 == 0 ==> r is None && final(self)@ == old(self)@,
            old(self)@.1 > 0 ==> final(self)@ == (old(self)@.0, (old(self)@.1 - 1) as nat)
                && opt_cand(r) == cand_at(old(self)@.0, old(self)@.1 - 1),
    {
        proof {
            use_type_invariant(&*self);
        }
        if self.pos == 0 {
            return None;
        }
        self.pos = self.pos - 1;
        self.get(self.pos)
    }

    /// The candidate selected, if any.
    pub fn current(&self) -> (r: Option<Candidate>)
        ensures
            opt_cand(r) == cand_at(self@.0, self@.1 as int),
            cands_within(self@),
            (r is None) == (self@.1 == self@.0.len()),
    {
        proof {
            use_type_invariant(self);
        }
        self.get(self.pos)
    }
}

#[derive(Debug)]
pub struct SelectCandidateTransformer {
    context: Context,
    dictionary_entry: DictionaryEntry,
    candidates: Candidates,
    word: Word,
}

impl Clone for SelectCandidateTransformer {
    fn clone(&self) -> (r: Self)
        ensures
            r.tv() == self.tv(),
    {
        SelectCandidateTransformer {
            context: self.context.clone(),
            dictionary_entry: self.dictionary_entry.clone(),
            candidates: self.candidates.clone(),
            word: self.word.clone(),
        }
    }
}

impl SelectCandidateTransformer {
    pub closed spec fn tv(&self) -> TfView {
        TfView::SelectCandidate {
            ctx: self.context@,
            entry: self.dictionary_entry@,
            cands: self.candidates@.0,
            pos: self.candidates@.1,
            word: self.word@,
        }
    }

    pub proof fn lemma_variant(&self)
        ensures
            self.tv() is SelectCandidate,
    {
    }

    /// The candidates of an entry for a word, the first selected.
    pub fn new(context: Context, dictionary_entry: &DictionaryEntry, word: Word) -> (r: Self)
        ensures
            r.tv() == select_candidate_new(context@, dictionary_entry@, word@),
    {
        SelectCandidateTransformer {
            context,
            dictionary_entry: dictionary_entry.clone(),
            candidates: Candidates::new(&dictionary_entry.candidates),
            word,
        }
    }

    fn with_candidates(&self, candidates: Candidates) -> (r: Transformer)
        ensures
            r.tv() == (TfView::SelectCandidate {
                ctx: self.context@,
                entry: self.dictionary_entry@,
                cands: candidates@.0,
                pos: candidates@.1,
                word: self.word@,
            }),
    {
        Transformer::SelectCandidate(SelectCandidateTransformer {
            context: self.context.clone(),
            dictionary_entry: self.dictionary_entry.clone(),
            candidates,
            word: self.word.clone(),
        })
    }

    /// The selected candidate taken: finished, with its text.
    fn finish(&self) -> (r: Transformer)
        ensures
            r.tv() == (TfView::Stopped {
                ctx: crate::context::ctx_push(self.context@, buffer_of(self.tv())),
                reason: super::StoppedReason::Compleated,
            }),
    {
        let text = self.buffer_content();
        Transformer::Stopped(StoppedTransformer::completed(self.context.push_result_string(text.as_str())))
    }

    pub fn step(&self, op: Op) -> (r: Option<Vec<Transformer>>)
        ensures
            opt_tvs(r) == step(self.tv(), op),
    {
        match op {
            Op::Escape => Some(none()),
            Op::Enter => {
                if self.candidates.current().is_some() {
                    Some(single(self.finish()))
                } else {
                    None
                }
            },
            Op::Space => {
                let mut c = self.candidates.clone();
                match c.next() {
                    Some(_) => Some(single(self.with_candidates(c))),
                    None => {
                        let unknown = UnknownWordTransformer::new(self.context.clone(), self.word.clone());
                        Some(pair(Transformer::SelectCandidate(self.clone()), Transformer::UnknownWord(unknown)))
                    },
                }
            },
            Op::Backspace | Op::Delete => {
                let mut c = self.candidates.clone();
                match c.prev() {
                    Some(_) => Some(single(self.with_candidates(c))),
                    None => Some(none()),
                }
            },
            Op::Any(key) => {
                if key.is_printable() && self.candidates.current().is_some() {
                    Some(single(self.finish()))
                } else {
                    None
                }
            },
            _ => None,
        }
    }

    pub fn transformer_type(&self) -> (r: TransformerTypes)
        ensures
            r == ttype(self.tv()),
    {
        TransformerTypes::SelectCandidate
    }

    pub fn context(&self) -> (r: &Context)
        ensures
            r@ == ctx_of(self.tv()),
    {
        &self.context
    }

    pub fn set_context(&mut self, context: Context)
        ensures
            final(self).tv() == with_ctx(old(self).tv(), context@),
    {
        self.context = context;
    }

    /// The selected candidate with the okurigana after it.
    pub fn buffer_content(&self) -> (r: String)
        ensures
            r@ == buffer_of(self.tv()),
    {
        match self.candidates.current() {
            Some(c) => match self.word.okuri_string() {
                Some(o) => concat(&c.entry, o.as_str()),
                None => {
                    let r = c.entry;
                    assert(r@ =~= r@ + Seq::<char>::empty());
                    r
                },
            },
            None => String::new(),
        }
    }

    /// The selection after a `▼`.
    pub fn display_string(&self) -> (r: String)
        ensures
            r@ == display_of(self.tv()),
    {
        let mark = string_of_char('▼');
        concat(&mark, self.buffer_content().as_str())
    }
}

} // verus!
