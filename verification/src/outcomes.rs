//! The recorded outcomes of a plan run: a write-once mapping from node id to
//! output.

use vstd::prelude::*;

verus! {

/// One recorded outcome.
#[derive(Debug, Clone)]
pub struct OutcomeEntry {
    pub id: String,
    pub output: String,
}

pub struct OutcomeEntryView {
    pub id: Seq<char>,
    pub output: Seq<char>,
}

impl DeepView for OutcomeEntry {
    type V = OutcomeEntryView;

    open spec fn deep_view(&self) -> OutcomeEntryView {
        OutcomeEntryView { id: self.id@, output: self.output@ }
    }
}

impl View for OutcomeEntry {
    type V = OutcomeEntryView;

    open spec fn view(&self) -> OutcomeEntryView {
        self.deep_view()
    }
}

/// The mapping that a list of entries stands for. An id is written once: of
/// two entries with the same id the earlier one stands.
pub open spec fn outcome_map(entries: Seq<OutcomeEntryView>) -> Map<Seq<char>, Seq<char>>
    decreases entries.len(),
{
    if entries.len() == 0 {
        Map::empty()
    } else {
        let earlier = outcome_map(entries.drop_last());
        if earlier.dom().contains(entries.last().id) {
            earlier
        } else {
            earlier.insert(entries.last().id, entries.last().output)
        }
    }
}

/// Entry `i` is the first of `entries` with the id `id`.
pub open spec fn first_entry(entries: Seq<OutcomeEntryView>, i: int, id: Seq<char>) -> bool {
    &&& 0 <= i < entries.len()
    &&& entries[i].id == id
    &&& forall|j: int| 0 <= j < i ==> entries[j].id != id
}

/// The mapping holds an id exactly when some entry has it, and maps it to
/// the output of the first such entry.
pub proof fn lemma_outcome_map(entries: Seq<OutcomeEntryView>, id: Seq<char>)
    ensures
        outcome_map(entries).dom().contains(id) <==> exists|i: int|
            0 <= i < entries.len() && #[trigger] entries[i].id == id,
        forall|i: int|
            first_entry(entries, i, id) ==> outcome_map(entries)[id] == #[trigger] entries[i].output,
    decreases entries.len(),
{
    if entries.len() > 0 {
        let earlier = entries.drop_last();
        lemma_outcome_map(earlier, id);
        if outcome_map(earlier).dom().contains(id) {
            let i = choose|i: int| 0 <= i < earlier.len() && #[trigger] earlier[i].id == id;
            assert(entries[i].id == id);
        }
        if exists|i: int| 0 <= i < entries.len() && #[trigger] entries[i].id == id {
            let i = choose|i: int| 0 <= i < entries.len() && #[trigger] entries[i].id == id;
            if i < earlier.len() {
                assert(earlier[i].id == id);
            }
        }
        assert forall|i: int| first_entry(entries, i, id) implies outcome_map(entries)[id]
            == #[trigger] entries[i].output by {
            if i < earlier.len() {
                assert(first_entry(earlier, i, id));
                assert(earlier[i].id == id);
            } else {
                assert forall|j: int| 0 <= j < earlier.len() implies #[trigger] earlier[j].id
                    != id by {
                    assert(entries[j].id != id);
                }
            }
        }
    }
}

/// The outcomes recorded so far, in the order in which they were recorded.
#[derive(Debug, Clone)]
pub struct Outcomes {
    pub entries: Vec<OutcomeEntry>,
}

impl View for Outcomes {
    type V = Map<Seq<char>, Seq<char>>;

    open spec fn view(&self) -> Map<Seq<char>, Seq<char>> {
        outcome_map(self.entries.deep_view())
    }
}

impl Outcomes {
    /// No outcome recorded.
    pub fn new() -> (outcomes: Outcomes)
        ensures
            outcomes@ == Map::<Seq<char>, Seq<char>>::empty(),
            outcomes.entries@.len() == 0,
    {
        let outcomes = Outcomes { entries: Vec::new() };
        assert(outcomes.entries.deep_view() =~= Seq::empty());
        outcomes
    }

    /// The index of the first entry with the id `id`.
    fn position(&self, id: &String) -> (found: Option<usize>)
        ensures
            found is Some <==> self@.dom().contains(id@),
            found is Some ==> first_entry(self.entries.deep_view(), found->0 as int, id@),
            found is Some ==> self.entries@[found->0 as int].output@ == self@[id@],
    {
        let mut i: usize = 0;
        while i < self.entries.len()
            invariant
                i <= self.entries.len(),
                forall|j: int| 0 <= j < i ==> self.entries.deep_view()[j].id != id@,
            decreases self.entries.len() - i,
        {
            if self.entries[i].id == *id {
                proof {
                    lemma_outcome_map(self.entries.deep_view(), id@);
                    assert(first_entry(self.entries.deep_view(), i as int, id@));
                    assert(self.entries.deep_view()[i as int].output == self.entries@[i as int].output@);
                }
                return Some(i);
            }
            i += 1;
        }
        proof {
            lemma_outcome_map(self.entries.deep_view(), id@);
        }
        None
    }

    /// The output recorded for `id`, if any.
    pub fn get(&self, id: &String) -> (output: Option<&String>)
        ensures
            output is Some <==> self@.dom().contains(id@),
            output is Some ==> output->0@ == self@[id@],
    {
        match self.position(id) {
            Some(i) => Some(&self.entries[i].output),
            None => None,
        }
    }

    /// Whether an output is recorded for `id`.
    pub fn contains_key(&self, id: &String) -> (present: bool)
        ensures
            present == self@.dom().contains(id@),
    {
        self.position(id).is_some()
    }

    /// Records `output` for `id` unless an output is recorded for it already:
    /// an outcome is written once and never overwritten. Returns whether it
    /// was recorded.
    pub fn record(&mut self, id: String, output: String) -> (recorded: bool)
        ensures
            recorded == !old(self)@.dom().contains(id@),
            recorded ==> final(self)@ == old(self)@.insert(id@, output@),
            !recorded ==> *final(self) == *old(self),
            recorded ==> final(self).entries@.len() == old(self).entries@.len() + 1,
    {
        if self.contains_key(&id) {
            return false;
        }
        let ghost before = self.entries.deep_view();
        let ghost entry = OutcomeEntryView { id: id@, output: output@ };
        self.entries.push(OutcomeEntry { id, output });
        proof {
            assert(self.entries.deep_view() =~= before.push(entry));
            assert(self.entries.deep_view().drop_last() =~= before);
        }
        true
    }

    /// The number of entries.
    pub fn len(&self) -> (n: usize)
        ensures
            n == self.entries@.len(),
    {
        self.entries.len()
    }
}

} // verus!
