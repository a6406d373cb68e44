//! The dictionary of readings and their candidate words.
pub mod candidate;
pub mod dictionary_entry;
pub mod transform_entry;

use vstd::prelude::*;
use crate::text::{chars_of, split_terminator_chars, split_terminator_spec, str_equal};

pub use candidate::Candidate;
pub use dictionary_entry::{DictionaryEntry, EntryView, parse_entry_spec};
pub use transform_entry::TransformEntry;

verus! {

/// The entries of a dictionary text: each line (lines end at `\n`; a
/// carriage return before it is white space that the entry trims) read as
/// an entry, skipping lines that denote none.
pub open spec fn parse_dictionary_spec(s: Seq<char>) -> Set<EntryView> {
    split_terminator_spec(s, '\n').filter_map(|l: Seq<char>| parse_entry_spec(l)).to_set()
}

proof fn lemma_to_set_push<A>(s: Seq<A>, x: A)
    ensures
        (s + seq![x]).to_set() == s.to_set().insert(x),
{
    assert(s + seq![x] =~= s.push(x));
    assert forall|y: A| #[trigger] (s + seq![x]).to_set().contains(y) == s.to_set().insert(x).contains(y) by {
        crate::keyboards::lemma_push_contains(s, x, y);
    }
    assert((s + seq![x]).to_set() =~= s.to_set().insert(x));
}

/// The first entry of a sequence with the given reading.
pub open spec fn first_with_read(s: Seq<EntryView>, read: Seq<char>) -> Option<EntryView>
    decreases s.len(),
{
    if s.len() == 0 {
        None
    } else if s[0].0 == read {
        Some(s[0])
    } else {
        first_with_read(s.drop_first(), read)
    }
}

proof fn lemma_first_with_read_skip(s: Seq<EntryView>, read: Seq<char>, i: int)
    requires
        0 <= i <= s.len(),
        forall|j: int| 0 <= j < i ==> (#[trigger] s[j]).0 != read,
    ensures
        first_with_read(s, read) == first_with_read(s.subrange(i, s.len() as int), read),
    decreases i,
{
    if i > 0 {
        assert(s.drop_first().subrange(i - 1, s.drop_first().len() as int) =~= s.subrange(i, s.len() as int));
        assert(s[0].0 != read);
        lemma_first_with_read_skip(s.drop_first(), read, i - 1);
    } else {
        assert(s.subrange(0, s.len() as int) =~= s);
    }
}

proof fn lemma_first_with_read_member(s: Seq<EntryView>, read: Seq<char>)
    ensures
        first_with_read(s, read) matches Some(e) ==> s.contains(e) && e.0 == read,
        first_with_read(s, read) is None ==> forall|j: int| 0 <= j < s.len() ==> (#[trigger] s[j]).0 != read,
    decreases s.len(),
{
    if s.len() > 0 {
        lemma_first_with_read_member(s.drop_first(), read);
        if s[0].0 != read {
            if let Some(e) = first_with_read(s.drop_first(), read) {
                let k = choose|k: int| 0 <= k < s.drop_first().len() && s.drop_first()[k] == e;
                assert(s[k + 1] == e);
            }
            assert forall|j: int| 0 <= j < s.len() && first_with_read(s, read) is None implies (#[trigger] s[j]).0 != read by {
                if j > 0 {
                    assert(s[j] == s.drop_first()[j - 1]);
                }
            }
        } else {
            assert(s[0] == s[0]);
        }
    }
}

#[derive(Eq, PartialEq, Debug)]
pub struct Dictionary {
    entries: Vec<DictionaryEntry>,
}

impl View for Dictionary {
    type V = Set<EntryView>;

    closed spec fn view(&self) -> Set<EntryView> {
        self.entries@.map_values(|e: DictionaryEntry| e@).to_set()
    }
}

impl Clone for Dictionary {
    fn clone(&self) -> (r: Self)
        ensures
            r@ == self@,
    {
        let mut out: Vec<DictionaryEntry> = Vec::new();
        let mut i: usize = 0;
        while i < self.entries.len()
            invariant
                i <= self.entries@.len(),
                out@.len() == i,
                forall|j: int| 0 <= j < i ==> (#[trigger] out@[j])@ == self.entries@[j]@,
            decreases self.entries@.len() - i,
        {
            out.push(self.entries[i].clone());
            i = i + 1;
        }
        let r = Dictionary { entries: out };
        assert(r.entries@.map_values(|e: DictionaryEntry| e@) =~= self.entries@.map_values(|e: DictionaryEntry| e@));
        r
    }
}

impl Dictionary {
    /// The entry that a lookup of a reading finds: the first, in the order
    /// the entries were added, with that reading.
    pub closed spec fn lookup(&self, read: Seq<char>) -> Option<EntryView> {
        first_with_read(self.entries@.map_values(|e: DictionaryEntry| e@), read)
    }

    /// What a lookup finds is an entry of the dictionary with that reading,
    /// and it finds nothing only when no entry has that reading.
    pub proof fn law_lookup(&self, read: Seq<char>)
        ensures
            self.lookup(read) matches Some(e) ==> self@.contains(e) && e.0 == read,
            self.lookup(read) is None ==> forall|e: EntryView| self@.contains(e) ==> e.0 != read,
    {
        let views = self.entries@.map_values(|e: DictionaryEntry| e@);
        lemma_first_with_read_member(views, read);
        if self.lookup(read) is None {
            assert forall|e: EntryView| self@.contains(e) implies e.0 != read by {
                let j = choose|j: int| 0 <= j < views.len() && #[trigger] views[j] == e;
            }
        }
    }

    /// A dictionary of the given entries (each kept once).
    pub fn new(set: Vec<DictionaryEntry>) -> (r: Self)
        ensures
            r@ == set@.map_values(|e: DictionaryEntry| e@).to_set(),
    {
        let mut r = Dictionary { entries: Vec::new() };
        assert(r@ =~= Set::<EntryView>::empty());
        let ghost all = set@.map_values(|e: DictionaryEntry| e@);
        let mut i: usize = 0;
        while i < set.len()
            invariant
                i <= set@.len(),
                all == set@.map_values(|e: DictionaryEntry| e@),
                r@ == all.subrange(0, i as int).to_set(),
            decreases set@.len() - i,
        {
            let e = set[i].clone();
            proof {
                assert(all.subrange(0, i + 1) =~= all.subrange(0, i as int) + seq![e@]);
                lemma_to_set_push(all.subrange(0, i as int), e@);
            }
            r.insert(e);
            i = i + 1;
        }
        assert(all.subrange(0, all.len() as int) =~= all);
        r
    }

    /// Adds an entry.
    pub fn insert(&mut self, entry: DictionaryEntry)
        ensures
            final(self)@ == old(self)@.insert(entry@),
    {
        let mut i: usize = 0;
        while i < self.entries.len()
            invariant
                i <= self.entries@.len(),
                forall|j: int| 0 <= j < i ==> (#[trigger] self.entries@[j])@ != entry@,
            decreases self.entries@.len() - i,
        {
            if self.entries[i].same(&entry) {
                assert(self.entries@.map_values(|e: DictionaryEntry| e@)[i as int] == entry@);
                assert(self@.contains(entry@));
                assert(self@.insert(entry@) =~= self@);
                return;
            }
            i = i + 1;
        }
        let ghost before = self.entries@.map_values(|e: DictionaryEntry| e@);
        self.entries.push(entry);
        proof {
            assert(self.entries@.map_values(|e: DictionaryEntry| e@) =~= before + seq![entry@]);
            lemma_to_set_push(before, entry@);
        }
    }

    /// An entry of the given reading, if there is one.
    pub fn transform(&self, word: &str) -> (r: Option<&DictionaryEntry>)
        ensures
            match r {
                Some(e) => self@.contains(e@) && e@.0 == word@ && self.lookup(word@) == Some(e@),
                None => forall|e: EntryView| self@.contains(e) ==> e.0 != word@,
            },
            r is None <==> self.lookup(word@) is None,
    {
        let ghost views = self.entries@.map_values(|e: DictionaryEntry| e@);
        let mut i: usize = 0;
        while i < self.entries.len()
            invariant
                i <= self.entries@.len(),
                forall|j: int| 0 <= j < i ==> (#[trigger] self.entries@[j])@.0 != word@,
                views == self.entries@.map_values(|e: DictionaryEntry| e@),
            decreases self.entries@.len() - i,
        {
            assert forall|j: int| 0 <= j < i implies (#[trigger] views[j]).0 != word@ by {
                assert(views[j] == self.entries@[j]@);
            }
            if str_equal(self.entries[i].read.as_str(), word) {
                assert(self.entries@.map_values(|e: DictionaryEntry| e@)[i as int] == self.entries@[i as int]@);
                proof {
                    lemma_first_with_read_skip(views, word@, i as int);
                    let rest = views.subrange(i as int, views.len() as int);
                    assert(rest[0] == views[i as int]);
                }
                return Some(&self.entries[i]);
            }
            i = i + 1;
        }
        proof {
            assert forall|j: int| 0 <= j < i implies (#[trigger] views[j]).0 != word@ by {
                assert(views[j] == self.entries@[j]@);
            }
            lemma_first_with_read_skip(views, word@, i as int);
            assert(views.subrange(i as int, views.len() as int).len() == 0);
        }
        assert forall|e: EntryView| self@.contains(e) implies e.0 != word@ by {
            let j = choose|j: int| 0 <= j < views.len() && #[trigger] views[j] == e;
            assert(self.entries@[j]@.0 != word@);
        }
        None
    }

    /// The dictionary that a dictionary text denotes.
    pub fn parse(string: &str) -> (r: Self)
        ensures
            r@ == parse_dictionary_spec(string@),
    {
        let mut ret = Dictionary { entries: Vec::new() };
        assert(ret@ =~= Set::<EntryView>::empty());
        let chars = chars_of(string);
        let lines = split_terminator_chars(chars.as_slice(), '\n');
        let ghost lines_v = split_terminator_spec(string@, '\n');
        let mut i: usize = 0;
        while i < lines.len()
            invariant
                i <= lines@.len(),
                lines@.len() == lines_v.len(),
                forall|j: int| 0 <= j < lines@.len() ==> (#[trigger] lines@[j])@ == lines_v[j],
                ret@ == lines_v.subrange(0, i as int).filter_map(|l: Seq<char>| parse_entry_spec(l)).to_set(),
            decreases lines@.len() - i,
        {
            let line = crate::text::string_of(lines[i].as_slice());
            assert(lines_v.subrange(0, i + 1).drop_last() =~= lines_v.subrange(0, i as int));
            assert(lines_v.subrange(0, i + 1).last() == lines_v[i as int]);
            match DictionaryEntry::parse(line.as_str()) {
                Some(item) => {
                    proof {
                        lemma_to_set_push(lines_v.subrange(0, i as int).filter_map(|l: Seq<char>| parse_entry_spec(l)), item@);
                    }
                    ret.insert(item);
                },
                None => {},
            }
            i = i + 1;
        }
        assert(lines_v.subrange(0, lines_v.len() as int) =~= lines_v);
        ret
    }
}

} // verus!
