//! The pronunciation dictionary: words and how they are read.
//!
//! Entries are kept in the order in which their words were first
//! registered. No word is registered twice and no word is empty.

use vstd::prelude::*;
use crate::text::{chars_eq, chars_of, string_of};

verus! {

/// The entries of a dictionary, oldest first: each a word and its reading.
pub type DictView = Seq<(Seq<char>, Seq<char>)>;

/// No word is empty and no word occurs twice.
pub open spec fn valid_entries(d: DictView) -> bool {
    &&& forall|i: int| 0 <= i < d.len() ==> (#[trigger] d[i]).0.len() > 0
    &&& forall|i: int, j: int| 0 <= i < j < d.len() ==> (#[trigger] d[i]).0 != (#[trigger] d[j]).0
}

/// `word` is registered at position `i`.
pub open spec fn registered_at(d: DictView, word: Seq<char>, i: int) -> bool {
    0 <= i < d.len() && d[i].0 == word
}

/// `word` is registered.
pub open spec fn is_registered(d: DictView, word: Seq<char>) -> bool {
    exists|i: int| registered_at(d, word, i)
}

/// The position at which `word` is registered, if it is.
pub open spec fn position_of(d: DictView, word: Seq<char>) -> Option<int> {
    if is_registered(d, word) {
        Some(choose|i: int| registered_at(d, word, i))
    } else {
        None
    }
}

/// The reading of `word`, if it is registered.
pub open spec fn reading_of(d: DictView, word: Seq<char>) -> Option<Seq<char>> {
    match position_of(d, word) {
        Some(i) => Some(d[i].1),
        None => None,
    }
}

/// The entries after `word` was registered with `reading`: a word that is
/// registered already keeps its place and gets the new reading, a new word
/// goes to the end.
pub open spec fn after_add(d: DictView, word: Seq<char>, reading: Seq<char>) -> DictView {
    match position_of(d, word) {
        Some(i) => d.update(i, (word, reading)),
        None => d.push((word, reading)),
    }
}

/// The entries after `word` was struck out.
pub open spec fn after_remove(d: DictView, word: Seq<char>) -> DictView {
    match position_of(d, word) {
        Some(i) => d.remove(i),
        None => d,
    }
}

/// Why a dictionary operation failed.
#[derive(Clone, Copy, Debug, PartialEq, Eq, Structural)]
pub enum DictError {
    /// The word to register is empty.
    EmptyWord,
    /// The stored text is no JSON object of strings.
    Malformed,
    /// The entries could not be written as JSON.
    Unwritable,
}

impl DictError {
    /// The text of the error.
    pub open spec fn spec_message(self) -> Seq<char> {
        match self {
            DictError::EmptyWord => "the word must not be empty"@,
            DictError::Malformed => "the dictionary could not be read"@,
            DictError::Unwritable => "the dictionary could not be written"@,
        }
    }

    /// The text of the error.
    pub fn message(&self) -> (r: String)
        ensures
            r@ == self.spec_message(),
    {
        match self {
            DictError::EmptyWord => "the word must not be empty".to_owned(),
            DictError::Malformed => "the dictionary could not be read".to_owned(),
            DictError::Unwritable => "the dictionary could not be written".to_owned(),
        }
    }
}

/// The dictionary that results from registering `entries` one after the
/// other, or the error of the first entry that cannot be registered.
pub open spec fn built_from(entries: DictView) -> Result<DictView, DictError>
    decreases entries.len(),
{
    if entries.len() == 0 {
        Ok(Seq::empty())
    } else {
        match built_from(entries.drop_last()) {
            Err(e) => Err(e),
            Ok(d) => if entries.last().0.len() == 0 {
                Err(DictError::EmptyWord)
            } else {
                Ok(after_add(d, entries.last().0, entries.last().1))
            },
        }
    }
}

/// A word is registered at one position only.
pub proof fn lemma_position_unique(d: DictView, word: Seq<char>, i: int)
    requires
        valid_entries(d),
        registered_at(d, word, i),
    ensures
        position_of(d, word) == Some(i),
{
    let k = choose|k: int| registered_at(d, word, k);
    if k < i {
        assert(d[k].0 != d[i].0);
    } else if i < k {
        assert(d[i].0 != d[k].0);
    }
}

/// Registering a word keeps the dictionary valid, and the word then reads
/// as it was registered.
pub proof fn lemma_add_valid(d: DictView, word: Seq<char>, reading: Seq<char>)
    requires
        valid_entries(d),
        word.len() > 0,
    ensures
        valid_entries(after_add(d, word, reading)),
        reading_of(after_add(d, word, reading), word) == Some(reading),
{
    let a = after_add(d, word, reading);
    match position_of(d, word) {
        Some(i) => {
            assert(registered_at(d, word, i));
            assert forall|x: int, y: int| 0 <= x < y < a.len() implies (#[trigger] a[x]).0 != (
            #[trigger] a[y]).0 by {
                assert(a[x].0 == d[x].0);
                assert(a[y].0 == d[y].0);
            }
            assert forall|x: int| 0 <= x < a.len() implies (#[trigger] a[x]).0.len() > 0 by {
                assert(a[x].0 == d[x].0);
            }
            assert(registered_at(a, word, i));
            lemma_position_unique(a, word, i);
        },
        None => {
            assert forall|x: int, y: int| 0 <= x < y < a.len() implies (#[trigger] a[x]).0 != (
            #[trigger] a[y]).0 by {
                if y == d.len() {
                    assert(a[x] == d[x]);
                    if d[x].0 == word {
                        assert(registered_at(d, word, x));
                    }
                } else {
                    assert(a[x] == d[x]);
                    assert(a[y] == d[y]);
                }
            }
            assert forall|x: int| 0 <= x < a.len() implies (#[trigger] a[x]).0.len() > 0 by {
                if x < d.len() {
                    assert(a[x] == d[x]);
                }
            }
            assert(registered_at(a, word, d.len() as int));
            lemma_position_unique(a, word, d.len() as int);
        },
    }
}

/// Striking a word out keeps the dictionary valid, and the word is then
/// not registered.
pub proof fn lemma_remove_valid(d: DictView, word: Seq<char>)
    requires
        valid_entries(d),
    ensures
        valid_entries(after_remove(d, word)),
        !is_registered(after_remove(d, word), word),
{
    let a = after_remove(d, word);
    match position_of(d, word) {
        Some(i) => {
            assert(registered_at(d, word, i));
            assert forall|x: int| 0 <= x < a.len() implies (#[trigger] a[x]).0.len() > 0 by {
                if x < i {
                    assert(a[x] == d[x]);
                } else {
                    assert(a[x] == d[x + 1]);
                }
            }
            assert forall|x: int, y: int| 0 <= x < y < a.len() implies (#[trigger] a[x]).0 != (
            #[trigger] a[y]).0 by {
                let dx = if x < i {
                    x
                } else {
                    x + 1
                };
                let dy = if y < i {
                    y
                } else {
                    y + 1
                };
                assert(a[x] == d[dx]);
                assert(a[y] == d[dy]);
                assert(d[dx].0 != d[dy].0);
            }
            assert forall|k: int| !registered_at(a, word, k) by {
                if 0 <= k < a.len() {
                    let dk = if k < i {
                        k
                    } else {
                        k + 1
                    };
                    assert(a[k] == d[dk]);
                    if dk < i {
                        assert(d[dk].0 != d[i].0);
                    } else {
                        assert(d[i].0 != d[dk].0);
                    }
                }
            }
        },
        None => {},
    }
}

/// Registering a word leaves the reading of every other word as it was.
pub proof fn lemma_add_keeps_other_words(
    d: DictView,
    word: Seq<char>,
    reading: Seq<char>,
    other: Seq<char>,
)
    requires
        valid_entries(d),
        word.len() > 0,
        other != word,
    ensures
        reading_of(after_add(d, word, reading), other) == reading_of(d, other),
{
    let a = after_add(d, word, reading);
    lemma_add_valid(d, word, reading);
    if is_registered(d, other) {
        let k = choose|k: int| registered_at(d, other, k);
        assert(registered_at(a, other, k));
        lemma_position_unique(a, other, k);
    } else {
        assert forall|k: int| !registered_at(a, other, k) by {
            if registered_at(a, other, k) {
                assert(k < d.len());
                assert(registered_at(d, other, k));
            }
        }
    }
}

/// Striking a word out leaves the reading of every other word as it was.
pub proof fn lemma_remove_keeps_other_words(d: DictView, word: Seq<char>, other: Seq<char>)
    requires
        valid_entries(d),
        other != word,
    ensures
        reading_of(after_remove(d, word), other) == reading_of(d, other),
{
    let a = after_remove(d, word);
    lemma_remove_valid(d, word);
    match position_of(d, word) {
        Some(i) => {
            assert(registered_at(d, word, i));
            if is_registered(d, other) {
                let k = choose|k: int| registered_at(d, other, k);
                let ak = if k < i {
                    k
                } else {
                    k - 1
                };
                assert(k != i);
                assert(a[ak] == d[k]);
                assert(registered_at(a, other, ak));
                lemma_position_unique(a, other, ak);
            } else {
                assert forall|k: int| !registered_at(a, other, k) by {
                    if registered_at(a, other, k) {
                        let dk = if k < i {
                            k
                        } else {
                            k + 1
                        };
                        assert(a[k] == d[dk]);
                        assert(registered_at(d, other, dk));
                    }
                }
            }
        },
        None => {},
    }
}

/// A dictionary built from a list of entries is valid.
pub proof fn lemma_built_valid(entries: DictView)
    ensures
        built_from(entries) is Ok ==> valid_entries(built_from(entries)->Ok_0),
    decreases entries.len(),
{
    if entries.len() > 0 {
        lemma_built_valid(entries.drop_last());
        match built_from(entries.drop_last()) {
            Ok(d) => {
                if entries.last().0.len() > 0 {
                    lemma_add_valid(d, entries.last().0, entries.last().1);
                }
            },
            Err(_) => {},
        }
    }
}

/// One entry as it is stored.
struct Stored {
    word: Vec<char>,
    reading: Vec<char>,
}

/// The pronunciation dictionary.
pub struct Dictionary {
    entries: Vec<Stored>,
}

impl View for Dictionary {
    type V = DictView;

    closed spec fn view(&self) -> DictView {
        self.entries@.map_values(|e: Stored| (e.word@, e.reading@))
    }
}

/// The contents of a list of word and reading pairs.
pub open spec fn pairs_view(pairs: Seq<(String, String)>) -> DictView {
    pairs.map_values(|p: (String, String)| (p.0@, p.1@))
}

impl Dictionary {
    /// No word is empty and no word is registered twice.
    pub open spec fn wf(&self) -> bool {
        valid_entries(self@)
    }

    /// A dictionary without entries.
    pub fn new() -> (r: Dictionary)
        ensures
            r@ == Seq::<(Seq<char>, Seq<char>)>::empty(),
            r.wf(),
    {
        let r = Dictionary { entries: Vec::new() };
        assert(r@ =~= Seq::<(Seq<char>, Seq<char>)>::empty());
        r
    }

    /// The number of entries.
    pub fn len(&self) -> (r: usize)
        ensures
            r == self@.len(),
    {
        self.entries.len()
    }

    /// The word of entry `i`.
    pub(crate) fn word_at(&self, i: usize) -> (r: &Vec<char>)
        requires
            i < self@.len(),
        ensures
            r@ == self@[i as int].0,
    {
        &self.entries[i].word
    }

    /// The reading of entry `i`.
    pub(crate) fn reading_at(&self, i: usize) -> (r: &Vec<char>)
        requires
            i < self@.len(),
        ensures
            r@ == self@[i as int].1,
    {
        &self.entries[i].reading
    }

    /// The position of `word`, if it is registered.
    fn find(&self, word: &Vec<char>) -> (r: Option<usize>)
        requires
            self.wf(),
        ensures
            match r {
                Some(i) => position_of(self@, word@) == Some(i as int) && i < self@.len(),
                None => position_of(self@, word@) is None,
            },
    {
        let mut i: usize = 0;
        while i < self.entries.len()
            invariant
                i <= self.entries.len(),
                self.wf(),
                forall|k: int| 0 <= k < i ==> !registered_at(self@, word@, k),
            decreases self.entries.len() - i,
        {
            if chars_eq(&self.entries[i].word, word) {
                proof {
                    assert(registered_at(self@, word@, i as int));
                    lemma_position_unique(self@, word@, i as int);
                }
                return Some(i);
            }
            i += 1;
        }
        None
    }

    /// The reading of `word`, if it is registered.
    pub fn get(&self, word: &str) -> (r: Option<String>)
        requires
            self.wf(),
        ensures
            match r {
                Some(reading) => reading_of(self@, word@) == Some(reading@),
                None => reading_of(self@, word@) is None,
            },
    {
        let w = chars_of(word);
        match self.find(&w) {
            Some(i) => Some(string_of(&self.entries[i].reading)),
            None => None,
        }
    }

    /// Registers `word` with `reading`. A word that is registered already
    /// keeps its place and gets the new reading; the result says whether
    /// that happened. An empty word is refused.
    pub fn add(&mut self, word: &str, reading: &str) -> (r: Result<bool, DictError>)
        requires
            old(self).wf(),
        ensures
            final(self).wf(),
            match r {
                Ok(replaced) => word@.len() > 0 && replaced == is_registered(old(self)@, word@)
                    && final(self)@ == after_add(old(self)@, word@, reading@),
                Err(e) => word@.len() == 0 && e == DictError::EmptyWord && final(self)@ == old(
                    self,
                )@,
            },
    {
        let w = chars_of(word);
        let rd = chars_of(reading);
        if w.len() == 0 {
            return Err(DictError::EmptyWord);
        }
        proof {
            lemma_add_valid(self@, word@, reading@);
        }
        match self.find(&w) {
            Some(i) => {
                self.entries.set(i, Stored { word: w, reading: rd });
                assert(self@ =~= after_add(old(self)@, word@, reading@));
                Ok(true)
            },
            None => {
                self.entries.push(Stored { word: w, reading: rd });
                assert(self@ =~= after_add(old(self)@, word@, reading@));
                Ok(false)
            },
        }
    }

    /// Strikes `word` out. The result says whether it was registered.
    pub fn remove(&mut self, word: &str) -> (r: bool)
        requires
            old(self).wf(),
        ensures
            final(self).wf(),
            r == is_registered(old(self)@, word@),
            final(self)@ == after_remove(old(self)@, word@),
    {
        let w = chars_of(word);
        proof {
            lemma_remove_valid(self@, word@);
        }
        match self.find(&w) {
            Some(i) => {
                self.entries.remove(i);
                assert(self@ =~= after_remove(old(self)@, word@));
                true
            },
            None => false,
        }
    }

    /// The entries as pairs of word and reading, oldest first.
    pub fn entries(&self) -> (r: Vec<(String, String)>)
        ensures
            pairs_view(r@) == self@,
    {
        let mut out: Vec<(String, String)> = Vec::new();
        let mut i: usize = 0;
        while i < self.entries.len()
            invariant
                i <= self.entries.len(),
                pairs_view(out@) == self@.take(i as int),
            decreases self.entries.len() - i,
        {
            let e = &self.entries[i];
            let ghost before = out@;
            out.push((string_of(&e.word), string_of(&e.reading)));
            assert(self@[i as int] == (e.word@, e.reading@));
            assert(pairs_view(out@) =~= pairs_view(before).push((e.word@, e.reading@)));
            assert(pairs_view(out@) =~= self@.take(i + 1));
            i += 1;
        }
        assert(self@.take(self.entries.len() as int) =~= self@);
        out
    }

    /// Builds a dictionary by registering the pairs one after the other. A
    /// word that occurs again replaces the earlier reading. The first empty
    /// word makes the whole list fail.
    pub fn from_entries(pairs: &Vec<(String, String)>) -> (r: Result<Dictionary, DictError>)
        ensures
            match r {
                Ok(d) => built_from(pairs_view(pairs@)) == Ok::<DictView, DictError>(d@) && d.wf(),
                Err(e) => built_from(pairs_view(pairs@)) == Err::<DictView, DictError>(e),
            },
    {
        let mut d = Dictionary::new();
        let mut i: usize = 0;
        let ghost all = pairs_view(pairs@);
        assert(all.take(0) =~= Seq::<(Seq<char>, Seq<char>)>::empty());
        while i < pairs.len()
            invariant
                i <= pairs.len(),
                all == pairs_view(pairs@),
                d.wf(),
                built_from(all.take(i as int)) == Ok::<DictView, DictError>(d@),
            decreases pairs.len() - i,
        {
            let ghost next = all.take(i + 1);
            assert(next.drop_last() =~= all.take(i as int));
            assert(next.last() == all[i as int]);
            match d.add(pairs[i].0.as_str(), pairs[i].1.as_str()) {
                Ok(_) => {},
                Err(e) => {
                    proof {
                        lemma_built_prefix_error(all, i + 1);
                    }
                    return Err(e);
                },
            }
            i += 1;
        }
        assert(all.take(pairs.len() as int) =~= all);
        Ok(d)
    }
}

/// A list of entries fails as soon as one of its prefixes fails, and with
/// the same error.
pub proof fn lemma_built_prefix_error(entries: DictView, n: int)
    requires
        0 <= n <= entries.len(),
        built_from(entries.take(n)) is Err,
    ensures
        built_from(entries) == built_from(entries.take(n)),
    decreases entries.len() - n,
{
    if n == entries.len() {
        assert(entries.take(n) =~= entries);
    } else {
        assert(entries.take(n + 1).drop_last() =~= entries.take(n));
        lemma_built_prefix_error(entries, n + 1);
    }
}

} // verus!
