//! The moderation engine: stateless orchestration of the suggestion
//! lifecycle.
//!
//! States: Pending, then via edit back to Pending (with new proposed
//! values), or terminally Accepted or Rejected. Each function takes the
//! store and repository handles per call and retains nothing across calls,
//! so concurrent requests are independently safe. A second accept or reject
//! of an already resolved id observes not-found and fails gracefully: the
//! repository's atomic merge-then-delete guarantees the store mutation
//! happens at most once, the loser simply finds the row already gone.

use vstd::prelude::*;
use crate::language::{NounClass, PartOfSpeech};
use crate::store::WordStore;
use crate::suggestion::{
    deletion_row, edited_row, fresh_row, has_id, idx_of, lemma_remove_preserves_refs,
    merged_store, refs_ok, valid_submission, ModerationError, Suggestion, SuggestionKind,
    SuggestionRepository, WordSubmission,
};

verus! {

/// The denormalized document handed to the search index for one entry; its
/// id equals the canonical entry id.
#[derive(Debug)]
pub struct WordDocument {
    /// The canonical entry id this document stands for.
    pub id: u64,
    /// Source text as merged.
    pub english: String,
    /// Target text as merged.
    pub xhosa: String,
    /// Part of speech as merged.
    pub part_of_speech: PartOfSpeech,
    /// Plurality flag as merged.
    pub is_plural: bool,
    /// Noun class as merged, if any.
    pub noun_class: Option<NounClass>,
}

/// The index update an accepted change calls for. The boundary performs it
/// against the external index after the store has committed; the index may
/// therefore lag the store, never the reverse.
#[derive(Debug)]
pub enum IndexAction {
    /// Index a brand-new entry.
    Add(WordDocument),
    /// Re-index an existing entry.
    Edit(WordDocument),
}

/// The document an index action carries.
pub open spec fn spec_doc(a: IndexAction) -> WordDocument {
    match a {
        IndexAction::Add(d) => d,
        IndexAction::Edit(d) => d,
    }
}

/// A document holding exactly a suggestion's proposed values under this id.
pub open spec fn doc_from_proposed(d: WordDocument, s: Suggestion, id: u64) -> bool {
    &&& d.id == id
    &&& d.english@ == s.english.proposed@
    &&& d.xhosa@ == s.xhosa.proposed@
    &&& d.part_of_speech == s.part_of_speech.proposed
    &&& d.is_plural == s.is_plural.proposed
    &&& d.noun_class == s.noun_class.proposed
}

/// What accepting a suggestion did.
#[derive(Debug)]
pub enum AcceptOutcome {
    /// The proposed values were merged into the canonical store; the carried
    /// action tells the boundary how to bring the search index up to date.
    Merged(IndexAction),
    /// The suggestion proposed a deletion. The row is resolved, but nothing
    /// was merged: deletions are acknowledged by the state machine and never
    /// applied to the canonical store here.
    DeletionAcknowledged,
}

/// Submits a proposal; it always lands Pending. Delegates to the
/// repository's submit, which validates the texts and the referenced id.
pub fn submit(words: &WordStore, repo: &mut SuggestionRepository, sub: WordSubmission) -> (r: Result<u64, ModerationError>)
    requires
        old(repo).wf(),
        words.wf(),
        old(repo).spec_next_id() < u64::MAX,
        refs_ok(old(repo)@, *words),
    ensures
        final(repo).wf(),
        refs_ok(final(repo)@, *words),
        match r {
            Ok(id) => {
                &&& valid_submission(sub, *words)
                &&& id == old(repo).spec_next_id()
                &&& final(repo)@.len() == old(repo)@.len() + 1
                &&& final(repo)@.subrange(0, old(repo)@.len() as int) =~= old(repo)@
                &&& fresh_row(final(repo)@[old(repo)@.len() as int], sub, *words, id)
                &&& has_id(final(repo)@, id)
            },
            Err(e) => {
                &&& e is InvalidReference
                &&& !valid_submission(sub, *words)
                &&& final(repo)@ == old(repo)@
            },
        },
{
    repo.submit(words, sub)
}

/// Submits a proposal to delete an existing entry; it lands Pending like any
/// other suggestion and is acknowledged — not applied — when accepted.
pub fn suggest_word_deletion(words: &WordStore, repo: &mut SuggestionRepository, word_id: u64, submitter: u64, timestamp: u64) -> (r: Result<u64, ModerationError>)
    requires
        old(repo).wf(),
        words.wf(),
        old(repo).spec_next_id() < u64::MAX,
        refs_ok(old(repo)@, *words),
    ensures
        final(repo).wf(),
        refs_ok(final(repo)@, *words),
        match r {
            Ok(id) => {
                &&& words.spec_contains_id(word_id)
                &&& id == old(repo).spec_next_id()
                &&& final(repo)@.len() == old(repo)@.len() + 1
                &&& final(repo)@.subrange(0, old(repo)@.len() as int) =~= old(repo)@
                &&& deletion_row(final(repo)@[old(repo)@.len() as int], *words, word_id, submitter, timestamp, id)
                &&& has_id(final(repo)@, id)
            },
            Err(e) => {
                &&& e is InvalidReference
                &&& !words.spec_contains_id(word_id)
                &&& final(repo)@ == old(repo)@
            },
        },
{
    repo.submit_deletion(words, word_id, submitter, timestamp)
}

/// Revises the pending suggestion with this id: the proposed side of every
/// field is replaced by the new submission, the original baselines stay
/// exactly as first recorded (a stable diffing baseline across edit rounds),
/// and the suggestion stays Pending. Fails with
/// [`ModerationError::NotFound`] when the suggestion no longer exists.
pub fn edit(repo: &mut SuggestionRepository, id: u64, sub: WordSubmission) -> (r: Result<(), ModerationError>)
    requires
        old(repo).wf(),
    ensures
        final(repo).wf(),
        final(repo).spec_next_id() == old(repo).spec_next_id(),
        match r {
            Ok(()) => {
                let k = idx_of(old(repo)@, id);
                &&& has_id(old(repo)@, id)
                &&& final(repo)@.len() == old(repo)@.len()
                &&& forall|j: int|
                    0 <= j < final(repo)@.len() && j != k ==> final(repo)@[j] == old(repo)@[j]
                &&& edited_row(final(repo)@[k], old(repo)@[k], sub)
                &&& has_id(final(repo)@, id)
            },
            Err(e) => {
                &&& e is NotFound
                &&& !has_id(old(repo)@, id)
                &&& final(repo)@ == old(repo)@
            },
        },
{
    if repo.edit_proposed(id, sub) {
        Ok(())
    } else {
        Err(ModerationError::NotFound)
    }
}

/// Accepts the pending suggestion with this id: merges its proposed values
/// into the canonical store and removes the row as one atomic unit, then
/// reports the index update the boundary must perform — an add for a
/// suggestion that referenced no entry, an edit of the referenced id
/// otherwise, with the document built from the merged values. A deletion
/// proposal is only acknowledged: its row is removed and the store is left
/// untouched. Fails with [`ModerationError::NotFound`], mutating nothing,
/// when the id is not pending — in particular for the loser of a race on one
/// id, after the winner's merge-then-delete already resolved the row.
pub fn accept(words: &mut WordStore, repo: &mut SuggestionRepository, id: u64) -> (r: Result<AcceptOutcome, ModerationError>)
    requires
        old(words).wf(),
        old(repo).wf(),
        refs_ok(old(repo)@, *old(words)),
        old(words)@.len() < usize::MAX,
    ensures
        final(words).wf(),
        final(repo).wf(),
        refs_ok(final(repo)@, *final(words)),
        final(repo).spec_next_id() == old(repo).spec_next_id(),
        match r {
            Ok(outcome) => {
                let s = old(repo)@[idx_of(old(repo)@, id)];
                &&& has_id(old(repo)@, id)
                &&& final(repo)@ =~= old(repo)@.remove(idx_of(old(repo)@, id))
                &&& !has_id(final(repo)@, id)
                &&& match outcome {
                    AcceptOutcome::Merged(action) => {
                        &&& s.kind is Change
                        &&& (action is Add <==> s.word_id is None)
                        &&& merged_store(final(words)@, old(words)@, s, spec_doc(action).id)
                        &&& doc_from_proposed(spec_doc(action), s, spec_doc(action).id)
                    },
                    AcceptOutcome::DeletionAcknowledged => {
                        &&& s.kind is Delete
                        &&& final(words)@ == old(words)@
                    },
                }
            },
            Err(e) => {
                &&& e is NotFound
                &&& !has_id(old(repo)@, id)
                &&& final(words)@ == old(words)@
                &&& final(repo)@ == old(repo)@
            },
        },
{
    let s: Suggestion = match repo.get(id) {
        Ok(row) => row.clone(),
        Err(e) => {
            return Err(e);
        },
    };
    match s.kind {
        SuggestionKind::Delete => {
            repo.delete(id);
            proof {
                lemma_remove_preserves_refs(old(repo)@, idx_of(old(repo)@, id), *words);
            }
            Ok(AcceptOutcome::DeletionAcknowledged)
        },
        SuggestionKind::Change => {
            let was_new = s.word_id.is_none();
            let doc_english = s.english.proposed.clone();
            let doc_xhosa = s.xhosa.proposed.clone();
            let doc_pos = s.part_of_speech.proposed;
            let doc_plural = s.is_plural.proposed;
            let doc_class = s.noun_class.proposed;
            proof {
                let k = idx_of(old(repo)@, id);
                assert(old(repo)@[k] == s);
                assert(match s.word_id {
                    Some(w) => old(words).spec_contains_id(w),
                    None => true,
                });
            }
            let entry_id = repo.accept_merge(words, s);
            proof {
                lemma_remove_preserves_refs(old(repo)@, idx_of(old(repo)@, id), *old(words));
                assert forall|i: int|
                    0 <= i < repo@.len() implies match (#[trigger] repo@[i]).word_id {
                        Some(w) => words.spec_contains_id(w),
                        None => true,
                    } by {
                    assert(match repo@[i].word_id {
                        Some(w) => old(words).spec_contains_id(w),
                        None => true,
                    });
                }
            }
            let document = WordDocument {
                id: entry_id,
                english: doc_english,
                xhosa: doc_xhosa,
                part_of_speech: doc_pos,
                is_plural: doc_plural,
                noun_class: doc_class,
            };
            let action = if was_new {
                IndexAction::Add(document)
            } else {
                IndexAction::Edit(document)
            };
            Ok(AcceptOutcome::Merged(action))
        },
    }
}

/// Rejects the pending suggestion with this id: the row is removed and the
/// canonical store is untouched. A second reject of the same id — or a
/// reject racing an accept that already resolved it — observes
/// [`ModerationError::NotFound`] and fails gracefully.
pub fn reject(repo: &mut SuggestionRepository, id: u64) -> (r: Result<(), ModerationError>)
    requires
        old(repo).wf(),
    ensures
        final(repo).wf(),
        final(repo).spec_next_id() == old(repo).spec_next_id(),
        !has_id(final(repo)@, id),
        match r {
            Ok(()) => {
                &&& has_id(old(repo)@, id)
                &&& final(repo)@ =~= old(repo)@.remove(idx_of(old(repo)@, id))
            },
            Err(e) => {
                &&& e is NotFound
                &&& !has_id(old(repo)@, id)
                &&& final(repo)@ == old(repo)@
            },
        },
{
    if repo.delete(id) {
        Ok(())
    } else {
        Err(ModerationError::NotFound)
    }
}

} // verus!
