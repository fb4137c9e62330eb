//! The canonical word store: the authoritative table of accepted entries.
//!
//! Entries are keyed by a generated integer id, are mutated only through an
//! accepted suggestion, and are never deleted here. Ids are handed out
//! consecutively from 1, so the entry with id `i` sits at index `i - 1`.

use vstd::prelude::*;
use crate::language::{NounClass, PartOfSpeech};

verus! {

/// An authoritative dictionary entry.
#[derive(Debug)]
pub struct Entry {
    /// Generated key, unique and stable.
    pub id: u64,
    /// Source text.
    pub english: String,
    /// Target text.
    pub xhosa: String,
    /// Part of speech.
    pub part_of_speech: PartOfSpeech,
    /// Whether the entry is a plural form.
    pub is_plural: bool,
    /// Noun class, where one is assigned.
    pub noun_class: Option<NounClass>,
}

impl Clone for Entry {
    fn clone(&self) -> (r: Self)
        ensures
            r == *self,
    {
        Entry {
            id: self.id,
            english: self.english.clone(),
            xhosa: self.xhosa.clone(),
            part_of_speech: self.part_of_speech,
            is_plural: self.is_plural,
            noun_class: self.noun_class,
        }
    }
}

/// The canonical store, a growable table of entries keyed by id.
pub struct WordStore {
    entries: Vec<Entry>,
}

impl View for WordStore {
    type V = Seq<Entry>;

    closed spec fn view(&self) -> Seq<Entry> {
        self.entries@
    }
}

impl WordStore {
    /// Every entry's id is its position plus one: ids are consecutive from 1.
    pub open spec fn wf(self) -> bool {
        forall|i: int| 0 <= i < self@.len() ==> (#[trigger] self@[i]).id == i + 1
    }

    /// Whether an entry with this id exists.
    pub open spec fn spec_contains_id(self, id: u64) -> bool {
        1 <= id && id <= self@.len()
    }

    /// An empty store.
    pub fn new() -> (r: WordStore)
        ensures
            r.wf(),
            r@.len() == 0,
    {
        WordStore { entries: Vec::new() }
    }

    /// How many entries the store holds.
    pub fn len(&self) -> (r: usize)
        ensures
            r == self@.len(),
    {
        self.entries.len()
    }

    /// Reads the entry with this id, if one exists.
    pub fn get(&self, id: u64) -> (r: Option<&Entry>)
        requires
            self.wf(),
        ensures
            match r {
                Some(e) => self.spec_contains_id(id) && *e == self@[id - 1],
                None => !self.spec_contains_id(id),
            },
    {
        if 1 <= id && id <= self.entries.len() as u64 {
            let i: usize = (id - 1) as usize;
            Some(&self.entries[i])
        } else {
            None
        }
    }

    /// Inserts a new entry under the next generated id and returns that id.
    pub fn insert(
        &mut self,
        english: String,
        xhosa: String,
        part_of_speech: PartOfSpeech,
        is_plural: bool,
        noun_class: Option<NounClass>,
    ) -> (id: u64)
        requires
            old(self).wf(),
            old(self)@.len() < usize::MAX,
        ensures
            final(self).wf(),
            id == old(self)@.len() + 1,
            final(self)@ =~= old(self)@.push(Entry {
                id,
                english,
                xhosa,
                part_of_speech,
                is_plural,
                noun_class,
            }),
    {
        let id: u64 = self.entries.len() as u64 + 1;
        self.entries.push(Entry { id, english, xhosa, part_of_speech, is_plural, noun_class });
        id
    }

    /// Overwrites the attributes of the entry with this id, keeping its id.
    pub fn update(
        &mut self,
        id: u64,
        english: String,
        xhosa: String,
        part_of_speech: PartOfSpeech,
        is_plural: bool,
        noun_class: Option<NounClass>,
    )
        requires
            old(self).wf(),
            old(self).spec_contains_id(id),
        ensures
            final(self).wf(),
            final(self)@ =~= old(self)@.update(id - 1, Entry {
                id,
                english,
                xhosa,
                part_of_speech,
                is_plural,
                noun_class,
            }),
    {
        let len: usize = self.entries.len();
        proof {
            assert(id - 1 < len as int);
        }
        let i: usize = (id - 1) as usize;
        assert(i as int == id - 1);
        self.entries.remove(i);
        self.entries.insert(i, Entry { id, english, xhosa, part_of_speech, is_plural, noun_class });
        proof {
            assert(self@ =~= old(self)@.update(
                id - 1,
                Entry { id, english, xhosa, part_of_speech, is_plural, noun_class },
            ));
        }
    }
}

} // verus!
