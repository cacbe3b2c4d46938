//! The history of translated texts.

use vstd::prelude::*;
use crate::translation::{history_entry, TranslationOutcome};

verus! {

/// The key under which the history is kept in the store.
pub const HISTORY_STORE_KEY: &'static str = "translation_history";

/// The texts translated so far, oldest first.
#[derive(Clone, Debug)]
pub struct TranslationHistory {
    entries: Vec<String>,
}

pub open spec fn texts_of(v: Seq<String>) -> Seq<Seq<char>> {
    v.map_values(|s: String| s@)
}

impl View for TranslationHistory {
    type V = Seq<Seq<char>>;

    closed spec fn view(&self) -> Seq<Seq<char>> {
        texts_of(self.entries@)
    }
}

impl TranslationHistory {
    /// A history holding `entries`, oldest first.
    pub fn from_entries(entries: Vec<String>) -> (r: TranslationHistory)
        ensures
            r@ == texts_of(entries@),
    {
        TranslationHistory { entries }
    }

    /// The recorded texts, oldest first.
    pub fn entries(&self) -> (r: &Vec<String>)
        ensures
            texts_of(r@) == self@,
    {
        &self.entries
    }

    /// The number of recorded texts.
    pub fn len(&self) -> (r: usize)
        ensures
            r == self@.len(),
    {
        self.entries.len()
    }

    /// The key under which the history is stored.
    pub fn store_key() -> (r: &'static str)
        ensures
            r@ == HISTORY_STORE_KEY@,
    {
        HISTORY_STORE_KEY
    }

    /// Appends `entry` as the newest record.
    pub fn add_record(&mut self, entry: String)
        ensures
            final(self)@ == old(self)@.push(entry@),
    {
        let ghost before = self.entries@;
        self.entries.push(entry);
        assert(texts_of(self.entries@) =~= texts_of(before).push(entry@));
    }

    /// Records the outcome of a translation: a non-empty translation is
    /// appended as the newest record; a failure or an empty answer adds
    /// nothing. Says whether a record was added.
    pub fn record_outcome(&mut self, outcome: &TranslationOutcome) -> (added: bool)
        ensures
            added == history_entry(*outcome) is Some,
            match history_entry(*outcome) {
                Some(e) => final(self)@ == old(self)@.push(e),
                None => final(self)@ == old(self)@,
            },
    {
        match outcome.history_entry() {
            Some(e) => {
                self.add_record(e);
                true
            },
            None => false,
        }
    }

    /// Removes the record at `index` and says whether there was one; an index
    /// past the end leaves the history as it was.
    pub fn delete_record(&mut self, index: usize) -> (removed: bool)
        ensures
            removed == (index < old(self)@.len()),
            removed ==> final(self)@ == old(self)@.remove(index as int),
            !removed ==> final(self)@ == old(self)@,
    {
        if index < self.entries.len() {
            let ghost before = self.entries@;
            let _ = self.entries.remove(index);
            assert(texts_of(self.entries@) =~= texts_of(before).remove(index as int));
            true
        } else {
            false
        }
    }
}

/// Deleting the newest record right after adding it gives back the history
/// as it was.
pub proof fn lemma_add_then_delete_last(h: Seq<Seq<char>>, entry: Seq<char>)
    ensures
        h.push(entry).remove(h.len() as int) == h,
{
    assert(h.push(entry).remove(h.len() as int) =~= h);
}

impl Default for TranslationHistory {
    fn default() -> (r: TranslationHistory)
        ensures
            r@ == Seq::<Seq<char>>::empty(),
    {
        let r = TranslationHistory { entries: Vec::new() };
        assert(texts_of(r.entries@) =~= Seq::<Seq<char>>::empty());
        r
    }
}

} // verus!
