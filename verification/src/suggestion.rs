//! Pending suggestions and their repository.
//!
//! A suggestion proposes a creation, edit, or deletion of a dictionary entry
//! and waits for a moderator's decision. Rows live here only while pending:
//! accept merges the proposed values into the canonical store and removes the
//! row as one atomic unit, reject removes the row with no store effect.

use vstd::prelude::*;
use crate::language::{NounClass, PartOfSpeech};
use crate::store::{Entry, WordStore};
use crate::versioned::VersionedField;

verus! {

/// Why a moderation operation failed. These are the failures the core itself
/// decides; storage and index-propagation failures belong to the boundary
/// that performs the actual I/O and are surfaced there.
#[derive(Copy, Clone, Debug, PartialEq, Eq, Structural)]
pub enum ModerationError {
    /// The suggestion, or a referenced entry, does not exist. Also what the
    /// losing side of a race on one suggestion id observes: the row was
    /// already resolved by the winner.
    NotFound,
    /// The proposal was rejected at submission time: it names a nonexistent
    /// entry id, or a text field is empty.
    InvalidReference,
}

/// What a suggestion proposes to do with the canonical store.
#[derive(Copy, Clone, Debug, PartialEq, Eq, Structural)]
pub enum SuggestionKind {
    /// Create a new entry, or edit the referenced one.
    Change,
    /// Delete the referenced entry. Representable and kept explicit in the
    /// state machine, but accepting it only acknowledges the proposal:
    /// deletions are never merged into the canonical store here.
    Delete,
}

/// A proposal as handed in at the boundary.
pub struct WordSubmission {
    /// The canonical entry this proposal edits; absent to propose a new one.
    pub word_id: Option<u64>,
    /// Proposed source text.
    pub english: String,
    /// Proposed target text.
    pub xhosa: String,
    /// Proposed part of speech.
    pub part_of_speech: PartOfSpeech,
    /// Proposed plurality flag.
    pub is_plural: bool,
    /// Proposed noun class, if any.
    pub noun_class: Option<NounClass>,
    /// Who submitted the proposal.
    pub submitter: u64,
    /// When the proposal was submitted.
    pub timestamp: u64,
}

/// A pending suggestion: for every editable attribute, the original baseline
/// recorded at first submission beside the currently proposed value.
#[derive(Debug)]
pub struct Suggestion {
    /// Generated key of this suggestion.
    pub suggestion_id: u64,
    /// The canonical entry this suggestion refers to; absent for a new entry.
    pub word_id: Option<u64>,
    /// Whether the suggestion changes or deletes.
    pub kind: SuggestionKind,
    /// Source text, original and proposed.
    pub english: VersionedField<String>,
    /// Target text, original and proposed.
    pub xhosa: VersionedField<String>,
    /// Part of speech, original and proposed.
    pub part_of_speech: VersionedField<PartOfSpeech>,
    /// Plurality flag, original and proposed.
    pub is_plural: VersionedField<bool>,
    /// Noun class, original and proposed.
    pub noun_class: VersionedField<Option<NounClass>>,
    /// Who submitted the suggestion.
    pub submitter: u64,
    /// When the suggestion was first submitted.
    pub timestamp: u64,
}

impl Clone for Suggestion {
    fn clone(&self) -> (r: Self)
        ensures
            r == *self,
    {
        Suggestion {
            suggestion_id: self.suggestion_id,
            word_id: self.word_id,
            kind: self.kind,
            english: VersionedField {
                original: self.english.original.clone(),
                proposed: self.english.proposed.clone(),
            },
            xhosa: VersionedField {
                original: self.xhosa.original.clone(),
                proposed: self.xhosa.proposed.clone(),
            },
            part_of_speech: VersionedField {
                original: self.part_of_speech.original,
                proposed: self.part_of_speech.proposed,
            },
            is_plural: VersionedField {
                original: self.is_plural.original,
                proposed: self.is_plural.proposed,
            },
            noun_class: VersionedField {
                original: self.noun_class.original,
                proposed: self.noun_class.proposed,
            },
            submitter: self.submitter,
            timestamp: self.timestamp,
        }
    }
}

/// Whether some row carries this suggestion id.
pub open spec fn has_id(rows: Seq<Suggestion>, id: u64) -> bool {
    exists|i: int| 0 <= i < rows.len() && (#[trigger] rows[i]).suggestion_id == id
}

/// The position of the row carrying this id (meaningful when one exists;
/// under [`ids_increasing`] it is unique).
pub open spec fn idx_of(rows: Seq<Suggestion>, id: u64) -> int {
    choose|i: int| 0 <= i < rows.len() && (#[trigger] rows[i]).suggestion_id == id
}

/// Rows are ordered by strictly increasing suggestion id, so ids are unique.
pub open spec fn ids_increasing(rows: Seq<Suggestion>) -> bool {
    forall|i: int, j: int|
        0 <= i < j < rows.len() ==> (#[trigger] rows[i]).suggestion_id < (#[trigger] rows[j]).suggestion_id
}

/// Every row's id is below the repository's next generated id.
pub open spec fn ids_below(rows: Seq<Suggestion>, bound: u64) -> bool {
    forall|i: int| 0 <= i < rows.len() ==> (#[trigger] rows[i]).suggestion_id < bound
}

/// A deletion proposal always references an existing-at-submission entry.
pub open spec fn row_wf(s: Suggestion) -> bool {
    s.kind is Delete ==> s.word_id is Some
}

/// All rows are well-formed.
pub open spec fn rows_wf(rows: Seq<Suggestion>) -> bool {
    forall|i: int| 0 <= i < rows.len() ==> row_wf(#[trigger] rows[i])
}

/// Every referenced entry id among these rows names an entry of the store.
/// Established at submission time and preserved because canonical entries are
/// never deleted.
pub open spec fn refs_ok(rows: Seq<Suggestion>, words: WordStore) -> bool {
    forall|i: int|
        0 <= i < rows.len() ==> match (#[trigger] rows[i]).word_id {
            Some(w) => words.spec_contains_id(w),
            None => true,
        }
}

/// A submission is valid: text fields non-empty, and the referenced entry
/// id, if given, exists.
pub open spec fn valid_submission(sub: WordSubmission, words: WordStore) -> bool {
    &&& sub.english@.len() > 0
    &&& sub.xhosa@.len() > 0
    &&& match sub.word_id {
        Some(w) => words.spec_contains_id(w),
        None => true,
    }
}

/// The row recorded for a fresh submission: every proposed value from the
/// submission; every original baseline joined from the referenced entry, or
/// the type's empty value when the suggestion creates a new entry.
pub open spec fn fresh_row(row: Suggestion, sub: WordSubmission, words: WordStore, id: u64) -> bool {
    &&& row.suggestion_id == id
    &&& row.word_id == sub.word_id
    &&& row.kind is Change
    &&& row.submitter == sub.submitter
    &&& row.timestamp == sub.timestamp
    &&& row.english.proposed@ == sub.english@
    &&& row.xhosa.proposed@ == sub.xhosa@
    &&& row.part_of_speech.proposed == sub.part_of_speech
    &&& row.is_plural.proposed == sub.is_plural
    &&& row.noun_class.proposed == sub.noun_class
    &&& match sub.word_id {
        Some(w) => {
            &&& row.english.original@ == words@[w - 1].english@
            &&& row.xhosa.original@ == words@[w - 1].xhosa@
            &&& row.part_of_speech.original == words@[w - 1].part_of_speech
            &&& row.is_plural.original == words@[w - 1].is_plural
            &&& row.noun_class.original == words@[w - 1].noun_class
        },
        None => {
            &&& row.english.original@ == Seq::<char>::empty()
            &&& row.xhosa.original@ == Seq::<char>::empty()
            &&& row.part_of_speech.original == PartOfSpeech::Other
            &&& row.is_plural.original == false
            &&& row.noun_class.original is None
        },
    }
}

/// The row recorded for a deletion proposal: it references the entry to be
/// deleted, and both sides of every field hold the entry's live values, so a
/// moderator sees what would be removed and no field reads as changed.
pub open spec fn deletion_row(row: Suggestion, words: WordStore, word_id: u64, submitter: u64, timestamp: u64, id: u64) -> bool {
    &&& row.suggestion_id == id
    &&& row.word_id == Some(word_id)
    &&& row.kind is Delete
    &&& row.submitter == submitter
    &&& row.timestamp == timestamp
    &&& row.english.original@ == words@[word_id - 1].english@
    &&& row.english.proposed@ == words@[word_id - 1].english@
    &&& row.xhosa.original@ == words@[word_id - 1].xhosa@
    &&& row.xhosa.proposed@ == words@[word_id - 1].xhosa@
    &&& row.part_of_speech.original == words@[word_id - 1].part_of_speech
    &&& row.part_of_speech.proposed == words@[word_id - 1].part_of_speech
    &&& row.is_plural.original == words@[word_id - 1].is_plural
    &&& row.is_plural.proposed == words@[word_id - 1].is_plural
    &&& row.noun_class.original == words@[word_id - 1].noun_class
    &&& row.noun_class.proposed == words@[word_id - 1].noun_class
}

/// The row after an edit round: the proposed side of every field replaced by
/// the new submission; identity, kind, reference, original baselines, and
/// metadata exactly as first recorded.
pub open spec fn edited_row(row: Suggestion, was: Suggestion, sub: WordSubmission) -> bool {
    &&& row.suggestion_id == was.suggestion_id
    &&& row.word_id == was.word_id
    &&& row.kind == was.kind
    &&& row.submitter == was.submitter
    &&& row.timestamp == was.timestamp
    &&& row.english.original == was.english.original
    &&& row.xhosa.original == was.xhosa.original
    &&& row.part_of_speech.original == was.part_of_speech.original
    &&& row.is_plural.original == was.is_plural.original
    &&& row.noun_class.original == was.noun_class.original
    &&& row.english.proposed@ == sub.english@
    &&& row.xhosa.proposed@ == sub.xhosa@
    &&& row.part_of_speech.proposed == sub.part_of_speech
    &&& row.is_plural.proposed == sub.is_plural
    &&& row.noun_class.proposed == sub.noun_class
}

/// An entry holding exactly a suggestion's proposed values under this id.
pub open spec fn entry_from_proposed(e: Entry, s: Suggestion, id: u64) -> bool {
    &&& e.id == id
    &&& e.english@ == s.english.proposed@
    &&& e.xhosa@ == s.xhosa.proposed@
    &&& e.part_of_speech == s.part_of_speech.proposed
    &&& e.is_plural == s.is_plural.proposed
    &&& e.noun_class == s.noun_class.proposed
}

/// The canonical store after merging a suggestion: a brand-new entry holding
/// the proposed values under the next generated id when no entry was
/// referenced, otherwise the referenced entry overwritten in place; in either
/// case every other entry untouched and no entry removed.
pub open spec fn merged_store(now: Seq<Entry>, was: Seq<Entry>, s: Suggestion, entry_id: u64) -> bool {
    match s.word_id {
        None => {
            &&& entry_id == was.len() + 1
            &&& now.len() == was.len() + 1
            &&& forall|i: int| 0 <= i < was.len() ==> now[i] == was[i]
            &&& entry_from_proposed(now[was.len() as int], s, entry_id)
        },
        Some(w) => {
            &&& entry_id == w
            &&& now.len() == was.len()
            &&& forall|i: int| 0 <= i < was.len() && i != w - 1 ==> now[i] == was[i]
            &&& entry_from_proposed(now[w - 1], s, w)
        },
    }
}

/// Under unique (strictly increasing) ids, a position holding an id is the
/// position [`idx_of`] names.
pub proof fn lemma_idx_unique(rows: Seq<Suggestion>, id: u64, i: int)
    requires
        ids_increasing(rows),
        0 <= i < rows.len(),
        rows[i].suggestion_id == id,
    ensures
        has_id(rows, id),
        idx_of(rows, id) == i,
{
    assert(has_id(rows, id));
    let j = idx_of(rows, id);
    if i < j {
        assert(rows[i].suggestion_id < rows[j].suggestion_id);
    } else if j < i {
        assert(rows[j].suggestion_id < rows[i].suggestion_id);
    }
}

/// Resolving a suggestion removes its id for good: once the row with an id
/// is removed, no row with that id remains, so a second delete of the same id
/// finds nothing and a get of it fails. This is what makes delete idempotent
/// and terminal transitions observable as not-found afterwards.
pub proof fn lemma_removed_id_absent(rows: Seq<Suggestion>, id: u64)
    requires
        ids_increasing(rows),
        has_id(rows, id),
    ensures
        !has_id(rows.remove(idx_of(rows, id)), id),
{
    let k = idx_of(rows, id);
    assert(0 <= k < rows.len() && rows[k].suggestion_id == id);
    let after = rows.remove(k);
    assert forall|i: int| 0 <= i < after.len() implies (#[trigger] after[i]).suggestion_id != id by {
        if i < k {
            assert(after[i] == rows[i]);
            lemma_idx_unique(rows, id, k);
            if rows[i].suggestion_id == id {
                lemma_idx_unique(rows, id, i);
            }
        } else {
            assert(after[i] == rows[i + 1]);
            if rows[i + 1].suggestion_id == id {
                lemma_idx_unique(rows, id, i + 1);
                lemma_idx_unique(rows, id, k);
            }
        }
    }
}

/// Removing a row keeps every remaining reference valid.
pub proof fn lemma_remove_preserves_refs(rows: Seq<Suggestion>, k: int, words: WordStore)
    requires
        0 <= k < rows.len(),
        refs_ok(rows, words),
    ensures
        refs_ok(rows.remove(k), words),
{
    let after = rows.remove(k);
    assert forall|i: int|
        0 <= i < after.len() implies match (#[trigger] after[i]).word_id {
            Some(w) => words.spec_contains_id(w),
            None => true,
        } by {
        if i < k {
            assert(after[i] == rows[i]);
        } else {
            assert(after[i] == rows[i + 1]);
        }
    }
}

/// Removing a row preserves the repository ordering invariants.
pub proof fn lemma_remove_preserves_wf(rows: Seq<Suggestion>, k: int, bound: u64)
    requires
        0 <= k < rows.len(),
        ids_increasing(rows),
        ids_below(rows, bound),
        rows_wf(rows),
    ensures
        ids_increasing(rows.remove(k)),
        ids_below(rows.remove(k), bound),
        rows_wf(rows.remove(k)),
{
    let after = rows.remove(k);
    assert forall|i: int, j: int|
        0 <= i < j < after.len() implies (#[trigger] after[i]).suggestion_id < (#[trigger] after[j]).suggestion_id by {
        if i < k {
            assert(after[i] == rows[i]);
        } else {
            assert(after[i] == rows[i + 1]);
        }
        if j < k {
            assert(after[j] == rows[j]);
        } else {
            assert(after[j] == rows[j + 1]);
        }
    }
    assert forall|i: int| 0 <= i < after.len() implies (#[trigger] after[i]).suggestion_id < bound by {
        if i < k {
            assert(after[i] == rows[i]);
        } else {
            assert(after[i] == rows[i + 1]);
        }
    }
    assert forall|i: int| 0 <= i < after.len() implies row_wf(#[trigger] after[i]) by {
        if i < k {
            assert(after[i] == rows[i]);
        } else {
            assert(after[i] == rows[i + 1]);
        }
    }
}

/// Persistence of pending suggestions: rows ordered by generated id, with an
/// atomic merge-then-delete for accept.
pub struct SuggestionRepository {
    rows: Vec<Suggestion>,
    next_id: u64,
}

impl View for SuggestionRepository {
    type V = Seq<Suggestion>;

    closed spec fn view(&self) -> Seq<Suggestion> {
        self.rows@
    }
}

impl SuggestionRepository {
    /// The id the next submitted suggestion will receive.
    pub closed spec fn spec_next_id(self) -> u64 {
        self.next_id
    }

    /// Rows are ordered by strictly increasing id, every id is below the
    /// next generated one, and every row is well-formed.
    pub open spec fn wf(self) -> bool {
        &&& ids_increasing(self@)
        &&& ids_below(self@, self.spec_next_id())
        &&& rows_wf(self@)
    }

    /// The id the next submitted suggestion will receive.
    pub fn next_id(&self) -> (r: u64)
        ensures
            r == self.spec_next_id(),
    {
        self.next_id
    }

    /// An empty repository; generated ids start at 1.
    pub fn new() -> (r: SuggestionRepository)
        ensures
            r.wf(),
            r@.len() == 0,
            r.spec_next_id() == 1,
    {
        SuggestionRepository { rows: Vec::new(), next_id: 1 }
    }

    /// The position of the row with this id, if one is pending.
    fn find_index(&self, id: u64) -> (r: Option<usize>)
        requires
            self.wf(),
        ensures
            match r {
                Some(i) => {
                    &&& i < self@.len()
                    &&& self@[i as int].suggestion_id == id
                    &&& has_id(self@, id)
                    &&& i as int == idx_of(self@, id)
                },
                None => !has_id(self@, id),
            },
    {
        let mut i: usize = 0;
        while i < self.rows.len()
            invariant
                self.wf(),
                i <= self@.len(),
                forall|j: int| 0 <= j < i ==> (#[trigger] self@[j]).suggestion_id != id,
            decreases self@.len() - i,
        {
            if self.rows[i].suggestion_id == id {
                proof {
                    lemma_idx_unique(self@, id, i as int);
                }
                return Some(i);
            }
            i = i + 1;
        }
        proof {
            assert(!has_id(self@, id));
        }
        None
    }

    /// Inserts a new pending row for a valid submission and returns its
    /// generated id. An invalid submission — an empty text field, or a
    /// referenced entry id that does not exist — is rejected with
    /// [`ModerationError::InvalidReference`] and changes nothing.
    pub fn submit(&mut self, words: &WordStore, sub: WordSubmission) -> (r: Result<u64, ModerationError>)
        requires
            old(self).wf(),
            words.wf(),
            old(self).spec_next_id() < u64::MAX,
        ensures
            final(self).wf(),
            match r {
                Ok(id) => {
                    &&& valid_submission(sub, *words)
                    &&& id == old(self).spec_next_id()
                    &&& final(self).spec_next_id() == old(self).spec_next_id() + 1
                    &&& final(self)@.len() == old(self)@.len() + 1
                    &&& final(self)@.subrange(0, old(self)@.len() as int) =~= old(self)@
                    &&& fresh_row(final(self)@[old(self)@.len() as int], sub, *words, id)
                    &&& has_id(final(self)@, id)
                },
                Err(e) => {
                    &&& e is InvalidReference
                    &&& !valid_submission(sub, *words)
                    &&& final(self)@ == old(self)@
                    &&& final(self).spec_next_id() == old(self).spec_next_id()
                },
            },
            refs_ok(old(self)@, *words) ==> refs_ok(final(self)@, *words),
    {
        if sub.english.as_str().is_empty() || sub.xhosa.as_str().is_empty() {
            return Err(ModerationError::InvalidReference);
        }
        let id: u64 = self.next_id;
        let row: Suggestion = match sub.word_id {
            None => Suggestion {
                suggestion_id: id,
                word_id: None,
                kind: SuggestionKind::Change,
                english: VersionedField { original: String::new(), proposed: sub.english },
                xhosa: VersionedField { original: String::new(), proposed: sub.xhosa },
                part_of_speech: VersionedField {
                    original: PartOfSpeech::Other,
                    proposed: sub.part_of_speech,
                },
                is_plural: VersionedField { original: false, proposed: sub.is_plural },
                noun_class: VersionedField { original: None, proposed: sub.noun_class },
                submitter: sub.submitter,
                timestamp: sub.timestamp,
            },
            Some(w) => {
                let e = match words.get(w) {
                    Some(e) => e,
                    None => {
                        return Err(ModerationError::InvalidReference);
                    },
                };
                Suggestion {
                    suggestion_id: id,
                    word_id: Some(w),
                    kind: SuggestionKind::Change,
                    english: VersionedField { original: e.english.clone(), proposed: sub.english },
                    xhosa: VersionedField { original: e.xhosa.clone(), proposed: sub.xhosa },
                    part_of_speech: VersionedField {
                        original: e.part_of_speech,
                        proposed: sub.part_of_speech,
                    },
                    is_plural: VersionedField { original: e.is_plural, proposed: sub.is_plural },
                    noun_class: VersionedField { original: e.noun_class, proposed: sub.noun_class },
                    submitter: sub.submitter,
                    timestamp: sub.timestamp,
                }
            },
        };
        self.rows.push(row);
        self.next_id = self.next_id + 1;
        proof {
            lemma_idx_unique(self@, id, self@.len() - 1);
            assert(self@.subrange(0, old(self)@.len() as int) =~= old(self)@);
        }
        Ok(id)
    }

    /// Inserts a pending deletion proposal for an existing entry and returns
    /// its generated id; a nonexistent entry id is rejected with
    /// [`ModerationError::InvalidReference`].
    pub fn submit_deletion(&mut self, words: &WordStore, word_id: u64, submitter: u64, timestamp: u64) -> (r: Result<u64, ModerationError>)
        requires
            old(self).wf(),
            words.wf(),
            old(self).spec_next_id() < u64::MAX,
        ensures
            final(self).wf(),
            match r {
                Ok(id) => {
                    &&& words.spec_contains_id(word_id)
                    &&& id == old(self).spec_next_id()
                    &&& final(self).spec_next_id() == old(self).spec_next_id() + 1
                    &&& final(self)@.len() == old(self)@.len() + 1
                    &&& final(self)@.subrange(0, old(self)@.len() as int) =~= old(self)@
                    &&& deletion_row(final(self)@[old(self)@.len() as int], *words, word_id, submitter, timestamp, id)
                    &&& has_id(final(self)@, id)
                },
                Err(e) => {
                    &&& e is InvalidReference
                    &&& !words.spec_contains_id(word_id)
                    &&& final(self)@ == old(self)@
                    &&& final(self).spec_next_id() == old(self).spec_next_id()
                },
            },
            refs_ok(old(self)@, *words) ==> refs_ok(final(self)@, *words),
    {
        let e = match words.get(word_id) {
            Some(e) => e,
            None => {
                return Err(ModerationError::InvalidReference);
            },
        };
        let id: u64 = self.next_id;
        let row = Suggestion {
            suggestion_id: id,
            word_id: Some(word_id),
            kind: SuggestionKind::Delete,
            english: VersionedField { original: e.english.clone(), proposed: e.english.clone() },
            xhosa: VersionedField { original: e.xhosa.clone(), proposed: e.xhosa.clone() },
            part_of_speech: VersionedField {
                original: e.part_of_speech,
                proposed: e.part_of_speech,
            },
            is_plural: VersionedField { original: e.is_plural, proposed: e.is_plural },
            noun_class: VersionedField { original: e.noun_class, proposed: e.noun_class },
            submitter,
            timestamp,
        };
        self.rows.push(row);
        self.next_id = self.next_id + 1;
        proof {
            lemma_idx_unique(self@, id, self@.len() - 1);
            assert(self@.subrange(0, old(self)@.len() as int) =~= old(self)@);
        }
        Ok(id)
    }

    /// All pending suggestions, ordered by ascending suggestion id. Each row
    /// already carries its original baselines, joined from the referenced
    /// entry when it was submitted, so listing never needs the referenced
    /// entry again: a row whose entry went away out of band still lists,
    /// with the baseline it recorded, rather than failing the whole listing.
    pub fn list_pending(&self) -> (r: &Vec<Suggestion>)
        ensures
            r@ == self@,
    {
        &self.rows
    }

    /// Reads the pending suggestion with this id; fails with
    /// [`ModerationError::NotFound`] when no pending row matches.
    pub fn get(&self, id: u64) -> (r: Result<&Suggestion, ModerationError>)
        requires
            self.wf(),
        ensures
            match r {
                Ok(s) => has_id(self@, id) && *s == self@[idx_of(self@, id)]
                    && s.suggestion_id == id,
                Err(e) => e is NotFound && !has_id(self@, id),
            },
    {
        match self.find_index(id) {
            Some(i) => Ok(&self.rows[i]),
            None => Err(ModerationError::NotFound),
        }
    }

    /// Removes the pending row with this id. Returns whether a row was
    /// removed; not-found is not an error, which is what makes delete
    /// idempotent: an immediate second call on the same id returns false and
    /// changes nothing.
    pub fn delete(&mut self, id: u64) -> (found: bool)
        requires
            old(self).wf(),
        ensures
            final(self).wf(),
            final(self).spec_next_id() == old(self).spec_next_id(),
            found == has_id(old(self)@, id),
            !has_id(final(self)@, id),
            found ==> final(self)@ =~= old(self)@.remove(idx_of(old(self)@, id)),
            !found ==> final(self)@ == old(self)@,
    {
        match self.find_index(id) {
            Some(i) => {
                proof {
                    lemma_remove_preserves_wf(self@, i as int, self.spec_next_id());
                    lemma_removed_id_absent(self@, id);
                }
                self.rows.remove(i);
                true
            },
            None => false,
        }
    }

    /// Replaces the proposed side of every field of the pending row with this
    /// id by the new submission, leaving the original baselines exactly as
    /// first recorded; the row stays pending. Returns whether a row matched.
    pub fn edit_proposed(&mut self, id: u64, sub: WordSubmission) -> (found: bool)
        requires
            old(self).wf(),
        ensures
            final(self).wf(),
            final(self).spec_next_id() == old(self).spec_next_id(),
            found == has_id(old(self)@, id),
            !found ==> final(self)@ == old(self)@,
            found ==> {
                let k = idx_of(old(self)@, id);
                &&& final(self)@.len() == old(self)@.len()
                &&& forall|j: int| 0 <= j < final(self)@.len() && j != k ==> final(self)@[j] == old(self)@[j]
                &&& edited_row(final(self)@[k], old(self)@[k], sub)
                &&& has_id(final(self)@, id)
            },
    {
        match self.find_index(id) {
            Some(i) => {
                let was = self.rows.remove(i);
                let row = Suggestion {
                    suggestion_id: was.suggestion_id,
                    word_id: was.word_id,
                    kind: was.kind,
                    english: VersionedField { original: was.english.original, proposed: sub.english },
                    xhosa: VersionedField { original: was.xhosa.original, proposed: sub.xhosa },
                    part_of_speech: VersionedField {
                        original: was.part_of_speech.original,
                        proposed: sub.part_of_speech,
                    },
                    is_plural: VersionedField {
                        original: was.is_plural.original,
                        proposed: sub.is_plural,
                    },
                    noun_class: VersionedField {
                        original: was.noun_class.original,
                        proposed: sub.noun_class,
                    },
                    submitter: was.submitter,
                    timestamp: was.timestamp,
                };
                self.rows.insert(i, row);
                proof {
                    let k = i as int;
                    assert forall|j: int| 0 <= j < self@.len() && j != k implies self@[j] == old(self)@[j] by {
                        if j < k {
                            assert(self@[j] == old(self)@.remove(k)[j]);
                        } else {
                            assert(self@[j] == old(self)@.remove(k)[j - 1]);
                        }
                    }
                    assert forall|a: int, b: int|
                        0 <= a < b < self@.len() implies (#[trigger] self@[a]).suggestion_id < (#[trigger] self@[b]).suggestion_id by {
                        assert(old(self)@[a].suggestion_id < old(self)@[b].suggestion_id);
                    }
                    assert forall|a: int| 0 <= a < self@.len() implies (#[trigger] self@[a]).suggestion_id < self.spec_next_id() by {
                        assert(old(self)@[a].suggestion_id < old(self).spec_next_id());
                    }
                    assert forall|a: int| 0 <= a < self@.len() implies row_wf(#[trigger] self@[a]) by {
                        assert(row_wf(old(self)@[a]));
                    }
                    lemma_idx_unique(self@, id, k);
                }
                true
            },
            None => false,
        }
    }

    /// Applies the current (proposed) value of every field of a pending
    /// suggestion to the canonical store — inserting a new entry when no
    /// entry is referenced, updating the referenced entry in place otherwise
    /// — and removes the suggestion row. Both effects happen in this one
    /// call, as a single atomic unit: no caller ever observes the suggestion
    /// both applied and still pending. Returns the id of the affected entry.
    pub fn accept_merge(&mut self, words: &mut WordStore, suggestion: Suggestion) -> (entry_id: u64)
        requires
            old(self).wf(),
            old(words).wf(),
            has_id(old(self)@, suggestion.suggestion_id),
            old(self)@[idx_of(old(self)@, suggestion.suggestion_id)] == suggestion,
            suggestion.kind is Change,
            match suggestion.word_id {
                Some(w) => old(words).spec_contains_id(w),
                None => true,
            },
            old(words)@.len() < usize::MAX,
        ensures
            final(self).wf(),
            final(words).wf(),
            final(self).spec_next_id() == old(self).spec_next_id(),
            final(self)@ =~= old(self)@.remove(idx_of(old(self)@, suggestion.suggestion_id)),
            !has_id(final(self)@, suggestion.suggestion_id),
            merged_store(final(words)@, old(words)@, suggestion, entry_id),
    {
        let id: u64 = suggestion.suggestion_id;
        let i: usize = match self.find_index(id) {
            Some(i) => i,
            None => {
                proof {
                    assert(false);
                }
                0
            },
        };
        let Suggestion { word_id, english, xhosa, part_of_speech, is_plural, noun_class, .. } =
            suggestion;
        let entry_id: u64 = match word_id {
            None => words.insert(
                english.proposed,
                xhosa.proposed,
                part_of_speech.proposed,
                is_plural.proposed,
                noun_class.proposed,
            ),
            Some(w) => {
                words.update(
                    w,
                    english.proposed,
                    xhosa.proposed,
                    part_of_speech.proposed,
                    is_plural.proposed,
                    noun_class.proposed,
                );
                w
            },
        };
        proof {
            lemma_remove_preserves_wf(self@, i as int, self.spec_next_id());
            lemma_removed_id_absent(self@, id);
        }
        self.rows.remove(i);
        entry_id
    }
}

} // verus!
