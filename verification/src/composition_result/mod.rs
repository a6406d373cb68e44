//! What a composition produced: finished text and dictionary updates.
use vstd::prelude::*;
use crate::dictionary::{DictionaryEntry, EntryView};
use crate::text::{concat, pop_char};

verus! {

/// A result as a value: the dictionary updates, in order, and the finished
/// text, absent when nothing is finished.
pub type ResultView = (Seq<EntryView>, Option<Seq<char>>);

pub open spec fn entries_view(v: Seq<DictionaryEntry>) -> Seq<EntryView> {
    v.map_values(|e: DictionaryEntry| e@)
}

/// Appending finished text: empty text changes nothing.
pub open spec fn push_buffer_spec(r: ResultView, buffer: Seq<char>) -> ResultView {
    if buffer.len() == 0 {
        r
    } else {
        (r.0, Some(match r.1 {
            None => buffer,
            Some(b) => b + buffer,
        }))
    }
}

/// Removing the last finished character; no text is left as none.
pub open spec fn pop_stopped_buffer_spec(r: ResultView) -> ResultView {
    (r.0, match r.1 {
        None => None,
        Some(b) => if b.len() <= 1 {
            None
        } else {
            Some(b.drop_last())
        },
    })
}

/// Merging another result: its updates after ours, its text after ours.
pub open spec fn merge_spec(r: ResultView, other: ResultView) -> ResultView {
    push_buffer_spec(
        (r.0 + other.0, r.1),
        match other.1 {
            Some(b) => b,
            None => Seq::<char>::empty(),
        },
    )
}

#[derive(Eq, PartialEq, Debug)]
pub struct CompositionResult {
    dictionary_updates: Vec<DictionaryEntry>,
    stopped_buffer: Option<String>,
}

impl View for CompositionResult {
    type V = ResultView;

    closed spec fn view(&self) -> ResultView {
        (entries_view(self.dictionary_updates@), crate::dictionary::candidate::option_string_view(self.stopped_buffer))
    }
}

fn clone_entries(v: &Vec<DictionaryEntry>) -> (r: Vec<DictionaryEntry>)
    ensures
        entries_view(r@) == entries_view(v@),
{
    let mut out: Vec<DictionaryEntry> = Vec::new();
    let mut i: usize = 0;
    while i < v.len()
        invariant
            i <= v@.len(),
            out@.len() == i,
            forall|j: int| 0 <= j < i ==> (#[trigger] out@[j])@ == v@[j]@,
        decreases v@.len() - i,
    {
        out.push(v[i].clone());
        i = i + 1;
    }
    assert(entries_view(out@) =~= entries_view(v@));
    out
}

impl Clone for CompositionResult {
    fn clone(&self) -> (r: Self)
        ensures
            r@ == self@,
    {
        CompositionResult {
            dictionary_updates: clone_entries(&self.dictionary_updates),
            stopped_buffer: crate::dictionary::candidate::clone_option_string(&self.stopped_buffer),
        }
    }
}

impl CompositionResult {
    pub fn new() -> (r: Self)
        ensures
            r@ == (Seq::<EntryView>::empty(), None::<Seq<char>>),
    {
        let r = CompositionResult { dictionary_updates: Vec::new(), stopped_buffer: None };
        assert(r@.0 =~= Seq::<EntryView>::empty());
        r
    }

    pub fn new_from_stopped_buffer(buffer: &str) -> (r: Self)
        ensures
            r@ == (Seq::<EntryView>::empty(), Some(buffer@)),
    {
        let r = CompositionResult { dictionary_updates: Vec::new(), stopped_buffer: Some(buffer.to_owned()) };
        assert(r@.0 =~= Seq::<EntryView>::empty());
        r
    }

    /// This result with text appended to the finished text.
    pub fn push_buffer(&self, buffer: &str) -> (r: Self)
        ensures
            r@ == push_buffer_spec(self@, buffer@),
    {
        if buffer.unicode_len() == 0 {
            return self.clone();
        }
        CompositionResult {
            dictionary_updates: clone_entries(&self.dictionary_updates),
            stopped_buffer: Some(
                match &self.stopped_buffer {
                    None => buffer.to_owned(),
                    Some(buf) => concat(buf, buffer),
                },
            ),
        }
    }

    /// This result with the last finished character removed.
    pub fn pop_stopped_buffer(&self) -> (r: Self)
        ensures
            r@ == pop_stopped_buffer_spec(self@),
    {
        CompositionResult {
            dictionary_updates: clone_entries(&self.dictionary_updates),
            stopped_buffer: match &self.stopped_buffer {
                None => None,
                Some(buf) => {
                    let mut buf = buf.clone();
                    pop_char(&mut buf);
                    match buf.as_str().unicode_len() == 0 {
                        true => None,
                        false => Some(buf),
                    }
                },
            },
        }
    }

    pub fn stopped_buffer(&self) -> (r: Option<String>)
        ensures
            crate::dictionary::candidate::option_string_view(r) == self@.1,
    {
        crate::dictionary::candidate::clone_option_string(&self.stopped_buffer)
    }

    pub fn dictionary_updates(&self) -> (r: &Vec<DictionaryEntry>)
        ensures
            entries_view(r@) == self@.0,
    {
        &self.dictionary_updates
    }

    /// This result with updates appended.
    pub fn push_dictionary_updates(&self, updates: &Vec<DictionaryEntry>) -> (r: Self)
        ensures
            r@ == (self@.0 + entries_view(updates@), self@.1),
    {
        let mut acc = clone_entries(&self.dictionary_updates);
        let ghost start = entries_view(acc@);
        let mut i: usize = 0;
        while i < updates.len()
            invariant
                i <= updates@.len(),
                entries_view(acc@) == start + entries_view(updates@).subrange(0, i as int),
            decreases updates@.len() - i,
        {
            let ghost prev = entries_view(acc@);
            acc.push(updates[i].clone());
            assert(entries_view(acc@) =~= prev.push(updates@[i as int]@));
            assert(entries_view(updates@).subrange(0, i + 1) =~= entries_view(updates@).subrange(0, i as int).push(updates@[i as int]@));
            i = i + 1;
        }
        assert(entries_view(updates@).subrange(0, updates@.len() as int) =~= entries_view(updates@));
        CompositionResult {
            dictionary_updates: acc,
            stopped_buffer: crate::dictionary::candidate::clone_option_string(&self.stopped_buffer),
        }
    }

    /// This result with another merged in after it.
    pub fn merge_result(&self, result: &CompositionResult) -> (r: Self)
        ensures
            r@ == merge_spec(self@, result@),
    {
        let with_updates = self.push_dictionary_updates(result.dictionary_updates());
        match result.stopped_buffer() {
            Some(b) => with_updates.push_buffer(b.as_str()),
            None => {
                proof {
                    reveal_strlit("");
                }
                assert(""@ =~= Seq::<char>::empty());
                with_updates.push_buffer("")
            },
        }
    }

    pub fn clear_stopped_buffer(&self) -> (r: Self)
        ensures
            r@ == (self@.0, None::<Seq<char>>),
    {
        CompositionResult { dictionary_updates: clone_entries(&self.dictionary_updates), stopped_buffer: None }
    }
}

/// Appending text in two steps appends the two texts at once.
pub proof fn law_push_buffer_concatenates(r: ResultView, a: Seq<char>, b: Seq<char>)
    ensures
        push_buffer_spec(push_buffer_spec(r, a), b) == push_buffer_spec(r, a + b),
{
    if a.len() == 0 {
        assert(a + b =~= b);
    }
    if b.len() == 0 {
        assert(a + b =~= a);
    }
    match r.1 {
        Some(x) => {
            assert(x + a + b =~= x + (a + b));
        },
        None => {},
    }
}

/// Removing the last finished character undoes appending one character to
/// finished text.
pub proof fn law_pop_undoes_push(r: ResultView, c: char)
    requires
        r.1 is Some ==> r.1->0.len() > 0,
    ensures
        pop_stopped_buffer_spec(push_buffer_spec(r, seq![c])) == r,
{
    match r.1 {
        Some(x) => {
            assert((x + seq![c]).drop_last() =~= x);
        },
        None => {},
    }
}

/// Merging a result with no updates and no finished text changes nothing.
pub proof fn law_merge_empty_is_identity(r: ResultView)
    ensures
        merge_spec(r, (Seq::<EntryView>::empty(), None)) == r,
{
    assert(r.0 + Seq::<EntryView>::empty() =~= r.0);
}

/// Whether a result keeps finished text only when there is some: an empty
/// finished text is none.
pub open spec fn no_empty_text(r: ResultView) -> bool {
    r.1 matches Some(b) ==> b.len() > 0
}

/// Finished text is never empty: a fresh result has none, and appending
/// text, removing the last character, clearing, adding dictionary updates
/// and merging another such result each keep any finished text non-empty.
pub proof fn law_finished_text_never_empty(r: ResultView, other: ResultView, s: Seq<char>, u: Seq<EntryView>)
    requires
        no_empty_text(r),
        no_empty_text(other),
    ensures
        no_empty_text((Seq::<EntryView>::empty(), None)),
        no_empty_text(push_buffer_spec(r, s)),
        no_empty_text(pop_stopped_buffer_spec(r)),
        no_empty_text((r.0, None)),
        no_empty_text((r.0 + u, r.1)),
        no_empty_text(merge_spec(r, other)),
{
}

} // verus!
