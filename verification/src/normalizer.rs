//! Text normalization: what is spoken for a written text.
//!
//! A text is normalized in three passes. First the decorations that mean
//! nothing to a listener are taken out: mentions of users, roles and
//! channels, web addresses, and code fences. Then the words of the
//! pronunciation dictionary are replaced by their readings, scanning from
//! left to right and taking the longest word that matches at each position.
//! Last, a text that is too long is cut and ends in a marker.
//!
//! Normalization cannot fail: whatever the text, some text comes out.

use vstd::prelude::*;
use crate::dictionary::{DictView, Dictionary, valid_entries};
use crate::text::{chars_of, is_digit, occurs_at, occurs_at_exec, string_of};

verus! {

/// The number of digits that stand in `text` from `pos` on without a gap.
pub open spec fn digit_run(text: Seq<char>, pos: int) -> nat
    decreases text.len() - pos,
{
    if 0 <= pos < text.len() && is_digit(text[pos]) {
        1 + digit_run(text, pos + 1)
    } else {
        0
    }
}

/// `c` may stand in a web address: a visible ASCII character.
pub open spec fn is_url_char(c: char) -> bool {
    '!' <= c && c <= '~'
}

/// The number of address characters that stand in `text` from `pos` on
/// without a gap.
pub open spec fn url_run(text: Seq<char>, pos: int) -> nat
    decreases text.len() - pos,
{
    if 0 <= pos < text.len() && is_url_char(text[pos]) {
        1 + url_run(text, pos + 1)
    } else {
        0
    }
}

/// The length of the opening of a mention at `pos`: `<@`, `<@!`, `<@&` or
/// `<#`; 0 where there is none.
pub open spec fn mention_opening(text: Seq<char>, pos: int) -> nat {
    if 0 <= pos && pos + 1 < text.len() && text[pos] == '<' {
        if text[pos + 1] == '#' {
            2
        } else if text[pos + 1] == '@' {
            if pos + 2 < text.len() && (text[pos + 2] == '!' || text[pos + 2] == '&') {
                3
            } else {
                2
            }
        } else {
            0
        }
    } else {
        0
    }
}

/// The length of the mention that starts at `pos`: an opening, at least one
/// digit, and `>`; 0 where there is none.
pub open spec fn mention_len(text: Seq<char>, pos: int) -> nat {
    let opening = mention_opening(text, pos);
    let digits = digit_run(text, pos + opening);
    if opening > 0 && digits > 0 && pos + opening + digits < text.len() && text[pos + opening
        + digits] == '>' {
        opening + digits + 1
    } else {
        0
    }
}

/// The length of the web address that starts at `pos`: `http://` or
/// `https://` and the address characters behind it; 0 where there is none.
pub open spec fn url_len(text: Seq<char>, pos: int) -> nat {
    if occurs_at(text, pos, "https://"@) {
        8 + url_run(text, pos + 8)
    } else if occurs_at(text, pos, "http://"@) {
        7 + url_run(text, pos + 7)
    } else {
        0
    }
}

/// The length of the code fence at `pos`: three backticks; 0 where there is
/// none.
pub open spec fn fence_len(text: Seq<char>, pos: int) -> nat {
    if occurs_at(text, pos, "```"@) {
        3
    } else {
        0
    }
}

/// The length of the decoration that starts at `pos`, 0 where there is
/// none. A mention is looked for first, then an address, then a fence.
pub open spec fn decoration_len(text: Seq<char>, pos: int) -> nat {
    if mention_len(text, pos) > 0 {
        mention_len(text, pos)
    } else if url_len(text, pos) > 0 {
        url_len(text, pos)
    } else {
        fence_len(text, pos)
    }
}

/// What is left of `text` from `pos` on when the decorations are taken out.
/// (A decoration always ends within the text, see
/// [`lemma_decoration_fits`]; the test for it shows that the scan stays
/// within the text.)
pub open spec fn stripped_from(text: Seq<char>, pos: int) -> Seq<char>
    decreases text.len() - pos,
{
    let skip = decoration_len(text, pos);
    if !(0 <= pos < text.len()) {
        Seq::empty()
    } else if 0 < skip <= text.len() - pos {
        stripped_from(text, pos + skip)
    } else {
        seq![text[pos]] + stripped_from(text, pos + 1)
    }
}

/// What is left of `text` when the decorations are taken out.
pub open spec fn stripped(text: Seq<char>) -> Seq<char> {
    stripped_from(text, 0)
}

/// Entry `i` of the dictionary matches `text` at `pos`.
pub open spec fn is_match(text: Seq<char>, pos: int, d: DictView, i: int) -> bool {
    0 <= i < d.len() && d[i].0.len() > 0 && occurs_at(text, pos, d[i].0)
}

/// Entry `i` wins at `pos`: it matches, no matching word is longer, and of
/// the matching words of its length it was registered first.
pub open spec fn wins(text: Seq<char>, pos: int, d: DictView, i: int) -> bool {
    &&& is_match(text, pos, d, i)
    &&& forall|j: int| #[trigger]
        is_match(text, pos, d, j) ==> d[j].0.len() < d[i].0.len() || (d[j].0.len() == d[i].0.len()
            && i <= j)
}

/// The entry that wins at `pos` among the first `n` entries, if any of
/// them matches.
pub open spec fn best_among(text: Seq<char>, pos: int, d: DictView, n: nat) -> Option<int>
    decreases n,
{
    if n == 0 {
        None
    } else {
        let before = best_among(text, pos, d, (n - 1) as nat);
        let i = n - 1;
        if is_match(text, pos, d, i) && (before is None || d[before->0].0.len() < d[i].0.len()) {
            Some(i)
        } else {
            before
        }
    }
}

/// The entry that wins at `pos`, if any entry matches there.
pub open spec fn best_match(text: Seq<char>, pos: int, d: DictView) -> Option<int> {
    best_among(text, pos, d, d.len())
}

/// What `text` reads as from `pos` on: at each position the reading of the
/// winning entry, whose word is then skipped, or else the character itself.
/// (The winning entry always matches, see [`lemma_best_match_wins`]; the
/// test for it shows that the scan moves forward.)
pub open spec fn substituted_from(text: Seq<char>, pos: int, d: DictView) -> Seq<char>
    decreases text.len() - pos,
{
    if !(0 <= pos < text.len()) {
        Seq::empty()
    } else {
        match best_match(text, pos, d) {
            Some(i) => if is_match(text, pos, d, i) {
                d[i].1 + substituted_from(text, pos + d[i].0.len(), d)
            } else {
                Seq::empty()
            },
            None => seq![text[pos]] + substituted_from(text, pos + 1, d),
        }
    }
}

/// What `text` reads as with the dictionary `d`.
pub open spec fn substituted(text: Seq<char>, d: DictView) -> Seq<char> {
    substituted_from(text, 0, d)
}

/// `text` cut to at most `max_len` characters. A text that fits is left as
/// it is. A longer one keeps as much of its beginning as leaves room for the
/// marker and ends in the marker; where the marker alone does not fit, the
/// beginning of the marker is all that is left.
pub open spec fn shortened(text: Seq<char>, max_len: nat, marker: Seq<char>) -> Seq<char> {
    if text.len() <= max_len {
        text
    } else if marker.len() <= max_len {
        text.take(max_len - marker.len()) + marker
    } else {
        marker.take(max_len as int)
    }
}

/// What is spoken for `text`.
pub open spec fn normalized(text: Seq<char>, d: DictView, max_len: nat, marker: Seq<char>) -> Seq<
    char,
> {
    shortened(substituted(stripped(text), d), max_len, marker)
}

/// The entry found among the first `n` entries wins among them, and where
/// none is found none of them matches.
pub proof fn lemma_best_among(text: Seq<char>, pos: int, d: DictView, n: nat)
    requires
        n <= d.len(),
    ensures
        match best_among(text, pos, d, n) {
            Some(i) => {
                &&& 0 <= i < n
                &&& is_match(text, pos, d, i)
                &&& forall|j: int|
                    0 <= j < n && #[trigger] is_match(text, pos, d, j) ==> d[j].0.len()
                        < d[i].0.len() || (d[j].0.len() == d[i].0.len() && i <= j)
            },
            None => forall|j: int| 0 <= j < n ==> !#[trigger] is_match(text, pos, d, j),
        },
    decreases n,
{
    if n > 0 {
        lemma_best_among(text, pos, d, (n - 1) as nat);
    }
}

/// The longest match wins, and among equally long matches the one that was
/// registered first: the entry chosen at a position is exactly the entry
/// that wins there, and none is chosen exactly where no entry matches.
pub proof fn lemma_best_match_wins(text: Seq<char>, pos: int, d: DictView)
    ensures
        match best_match(text, pos, d) {
            Some(i) => wins(text, pos, d, i),
            None => forall|j: int| !#[trigger] is_match(text, pos, d, j),
        },
        forall|i: int| wins(text, pos, d, i) ==> best_match(text, pos, d) == Some(i),
{
    lemma_best_among(text, pos, d, d.len());
    assert forall|i: int| wins(text, pos, d, i) implies best_match(text, pos, d) == Some(i) by {
        match best_match(text, pos, d) {
            Some(b) => {
                assert(is_match(text, pos, d, b));
                assert(is_match(text, pos, d, i));
            },
            None => {
                assert(is_match(text, pos, d, i));
            },
        }
    }
}

/// A registered word, written alone, reads as its reading: whatever
/// shorter words of the dictionary it begins with, the longest match wins.
pub proof fn lemma_word_reads_as_its_reading(d: DictView, i: int)
    requires
        valid_entries(d),
        0 <= i < d.len(),
    ensures
        substituted(d[i].0, d) == d[i].1,
{
    let word = d[i].0;
    assert(word.subrange(0, word.len() as int) =~= word);
    assert(is_match(word, 0, d, i));
    assert forall|j: int| #[trigger] is_match(word, 0, d, j) implies d[j].0.len() < word.len() || (
    d[j].0.len() == word.len() && i <= j) by {
        if d[j].0.len() == word.len() {
            assert(word.subrange(0, d[j].0.len() as int) =~= word);
            if j < i {
                assert(d[j].0 != d[i].0);
            }
        }
    }
    assert(wins(word, 0, d, i));
    lemma_best_match_wins(word, 0, d);
    assert(substituted_from(word, word.len() as int, d) =~= Seq::<char>::empty());
    assert(substituted(word, d) =~= d[i].1);
}

/// Where no entry of the dictionary matches anywhere, the text reads as it
/// is written.
pub proof fn lemma_unmatched_text_is_kept(text: Seq<char>, d: DictView, pos: int)
    requires
        0 <= pos <= text.len(),
        forall|p: int, j: int| pos <= p < text.len() ==> !#[trigger] is_match(text, p, d, j),
    ensures
        substituted_from(text, pos, d) == text.subrange(pos, text.len() as int),
    decreases text.len() - pos,
{
    if pos < text.len() {
        lemma_best_match_wins(text, pos, d);
        match best_match(text, pos, d) {
            Some(i) => {
                assert(is_match(text, pos, d, i));
            },
            None => {},
        }
        lemma_unmatched_text_is_kept(text, d, pos + 1);
        assert(seq![text[pos]] + text.subrange(pos + 1, text.len() as int) =~= text.subrange(
            pos,
            text.len() as int,
        ));
    } else {
        assert(text.subrange(pos, text.len() as int) =~= Seq::<char>::empty());
    }
}

/// A text without decorations is left as it is when the decorations are
/// taken out.
pub proof fn lemma_plain_text_is_kept(text: Seq<char>, pos: int)
    requires
        0 <= pos <= text.len(),
        forall|p: int| pos <= p < text.len() ==> #[trigger] decoration_len(text, p) == 0,
    ensures
        stripped_from(text, pos) == text.subrange(pos, text.len() as int),
    decreases text.len() - pos,
{
    if pos < text.len() {
        assert(decoration_len(text, pos) == 0);
        lemma_plain_text_is_kept(text, pos + 1);
        assert(seq![text[pos]] + text.subrange(pos + 1, text.len() as int) =~= text.subrange(
            pos,
            text.len() as int,
        ));
    } else {
        assert(text.subrange(pos, text.len() as int) =~= Seq::<char>::empty());
    }
}

/// A shortened text is never longer than the maximum.
pub proof fn lemma_shortened_fits(text: Seq<char>, max_len: nat, marker: Seq<char>)
    ensures
        shortened(text, max_len, marker).len() <= max_len,
        text.len() <= max_len ==> shortened(text, max_len, marker) == text,
{
}

/// A registered word without decorations whose reading fits the maximum
/// length is normalized to its reading.
pub proof fn lemma_word_is_normalized_to_its_reading(
    d: DictView,
    i: int,
    max_len: nat,
    marker: Seq<char>,
)
    requires
        valid_entries(d),
        0 <= i < d.len(),
        forall|p: int| 0 <= p < d[i].0.len() ==> #[trigger] decoration_len(d[i].0, p) == 0,
        d[i].1.len() <= max_len,
    ensures
        normalized(d[i].0, d, max_len, marker) == d[i].1,
{
    lemma_plain_text_is_kept(d[i].0, 0);
    assert(d[i].0.subrange(0, d[i].0.len() as int) =~= d[i].0);
    lemma_word_reads_as_its_reading(d, i);
}

/// A text that holds no `<`, no `h` and no backtick holds no decoration.
pub proof fn lemma_no_opener_no_decoration(text: Seq<char>)
    requires
        forall|p: int|
            0 <= p < text.len() ==> #[trigger] text[p] != '<' && text[p] != 'h' && text[p] != '`',
    ensures
        forall|p: int| 0 <= p < text.len() ==> #[trigger] decoration_len(text, p) == 0,
{
    reveal_strlit("https://");
    reveal_strlit("http://");
    reveal_strlit("```");
    assert forall|p: int| 0 <= p < text.len() implies #[trigger] decoration_len(text, p) == 0 by {
        assert(text[p] != '<' && text[p] != 'h' && text[p] != '`');
        if occurs_at(text, p, "https://"@) {
            assert(text.subrange(p, p + 8)[0] == 'h');
        }
        if occurs_at(text, p, "http://"@) {
            assert(text.subrange(p, p + 7)[0] == 'h');
        }
        if occurs_at(text, p, "```"@) {
            assert(text.subrange(p, p + 3)[0] == '`');
        }
    }
}

/// Two dictionaries hold the same entries, in whatever order.
pub open spec fn same_entries(a: DictView, b: DictView) -> bool {
    &&& forall|i: int| 0 <= i < a.len() ==> b.contains(#[trigger] a[i])
    &&& forall|j: int| 0 <= j < b.len() ==> a.contains(#[trigger] b[j])
}

/// Where an entry wins in one dictionary, the same entry wins in every
/// dictionary that holds the same entries.
proof fn lemma_same_winner(text: Seq<char>, pos: int, a: DictView, b: DictView, i: int)
    requires
        valid_entries(b),
        same_entries(a, b),
        wins(text, pos, a, i),
    ensures
        best_match(text, pos, b) is Some,
        b[best_match(text, pos, b)->0] == a[i],
        is_match(text, pos, b, best_match(text, pos, b)->0),
{
    assert(b.contains(a[i]));
    let j = choose|j: int| 0 <= j < b.len() && b[j] == a[i];
    assert(is_match(text, pos, b, j));
    assert forall|k: int| #[trigger] is_match(text, pos, b, k) implies b[k].0.len() < b[j].0.len()
        || (b[k].0.len() == b[j].0.len() && j <= k) by {
        assert(a.contains(b[k]));
        let k2 = choose|k2: int| 0 <= k2 < a.len() && a[k2] == b[k];
        assert(is_match(text, pos, a, k2));
        if b[k].0.len() == b[j].0.len() {
            assert(b[k].0 =~= b[j].0);
            if k < j {
                assert(b[k].0 != b[j].0);
            }
        }
    }
    assert(wins(text, pos, b, j));
    lemma_best_match_wins(text, pos, b);
}

/// The order of the entries does not matter to what a text reads as: two
/// valid dictionaries that hold the same entries give the same reading. A
/// dictionary may therefore be stored and loaded in any order.
pub proof fn lemma_entry_order_is_immaterial(text: Seq<char>, pos: int, a: DictView, b: DictView)
    requires
        valid_entries(a),
        valid_entries(b),
        same_entries(a, b),
    ensures
        substituted_from(text, pos, a) == substituted_from(text, pos, b),
    decreases text.len() - pos,
{
    if 0 <= pos < text.len() {
        lemma_best_match_wins(text, pos, a);
        lemma_best_match_wins(text, pos, b);
        match best_match(text, pos, a) {
            Some(i) => {
                lemma_same_winner(text, pos, a, b, i);
                lemma_entry_order_is_immaterial(text, pos + a[i].0.len(), a, b);
            },
            None => {
                match best_match(text, pos, b) {
                    Some(j) => {
                        lemma_same_winner(text, pos, b, a, j);
                    },
                    None => {},
                }
                lemma_entry_order_is_immaterial(text, pos + 1, a, b);
            },
        }
    }
}

/// A run of address characters ends within the text.
pub proof fn lemma_url_run_fits(text: Seq<char>, pos: int)
    requires
        0 <= pos <= text.len(),
    ensures
        pos + url_run(text, pos) <= text.len(),
    decreases text.len() - pos,
{
    if pos < text.len() && is_url_char(text[pos]) {
        lemma_url_run_fits(text, pos + 1);
    }
}

/// A decoration ends within the text.
pub proof fn lemma_decoration_fits(text: Seq<char>, pos: int)
    requires
        0 <= pos <= text.len(),
    ensures
        pos + decoration_len(text, pos) <= text.len(),
{
    reveal_strlit("https://");
    reveal_strlit("http://");
    reveal_strlit("```");
    if occurs_at(text, pos, "https://"@) {
        lemma_url_run_fits(text, pos + 8);
    }
    if occurs_at(text, pos, "http://"@) {
        lemma_url_run_fits(text, pos + 7);
    }
}

/// How a text is shortened: the greatest length that is spoken, and the
/// marker that a cut text ends in.
#[derive(Debug, PartialEq, Eq)]
pub struct NormalizerConfig {
    pub max_len: usize,
    pub marker: String,
}

impl NormalizerConfig {
    /// A limit of `max_len` characters with the given marker.
    pub fn new(max_len: usize, marker: &str) -> (r: NormalizerConfig)
        ensures
            r.max_len == max_len,
            r.marker@ == marker@,
    {
        NormalizerConfig { max_len, marker: marker.to_owned() }
    }
}

/// Appends the characters of `more` to `out`.
fn append_chars(out: &mut Vec<char>, more: &Vec<char>, from: usize, to: usize)
    requires
        from <= to <= more.len(),
    ensures
        final(out)@ == old(out)@ + more@.subrange(from as int, to as int),
{
    let mut i: usize = from;
    while i < to
        invariant
            from <= i <= to,
            to <= more.len(),
            out@ == old(out)@ + more@.subrange(from as int, i as int),
        decreases to - i,
    {
        out.push(more[i]);
        assert(out@ =~= old(out)@ + more@.subrange(from as int, i + 1));
        i += 1;
    }
}

/// Counts the digits from `pos` on.
fn count_digits(text: &Vec<char>, pos: usize) -> (n: usize)
    requires
        pos <= text.len(),
    ensures
        n == digit_run(text@, pos as int),
        pos + n <= text.len(),
{
    let mut i: usize = pos;
    while i < text.len() && '0' <= text[i] && text[i] <= '9'
        invariant
            pos <= i <= text.len(),
            digit_run(text@, pos as int) == (i - pos) + digit_run(text@, i as int),
        decreases text.len() - i,
    {
        i += 1;
    }
    i - pos
}

/// Counts the address characters from `pos` on.
fn count_url_chars(text: &Vec<char>, pos: usize) -> (n: usize)
    requires
        pos <= text.len(),
    ensures
        n == url_run(text@, pos as int),
        pos + n <= text.len(),
{
    let mut i: usize = pos;
    while i < text.len() && '!' <= text[i] && text[i] <= '~'
        invariant
            pos <= i <= text.len(),
            url_run(text@, pos as int) == (i - pos) + url_run(text@, i as int),
        decreases text.len() - i,
    {
        i += 1;
    }
    i - pos
}

/// The length of the mention at `pos`.
fn mention_at(text: &Vec<char>, pos: usize) -> (n: usize)
    requires
        pos < text.len(),
    ensures
        n == mention_len(text@, pos as int),
        pos + n <= text.len(),
{
    let len = text.len();
    if len - pos < 2 || text[pos] != '<' {
        return 0;
    }
    let second = text[pos + 1];
    let opening: usize = if second == '#' {
        2
    } else if second == '@' {
        if len - pos > 2 && (text[pos + 2] == '!' || text[pos + 2] == '&') {
            3
        } else {
            2
        }
    } else {
        0
    };
    if opening == 0 {
        return 0;
    }
    let digits = count_digits(text, pos + opening);
    if digits > 0 && pos + opening + digits < len && text[pos + opening + digits] == '>' {
        opening + digits + 1
    } else {
        0
    }
}

/// The length of the web address at `pos`.
fn url_at(text: &Vec<char>, pos: usize) -> (n: usize)
    requires
        pos < text.len(),
    ensures
        n == url_len(text@, pos as int),
        pos + n <= text.len(),
{
    let secure = chars_of("https://");
    let plain = chars_of("http://");
    proof {
        reveal_strlit("https://");
        reveal_strlit("http://");
    }
    if occurs_at_exec(text, pos, &secure) {
        8 + count_url_chars(text, pos + 8)
    } else if occurs_at_exec(text, pos, &plain) {
        7 + count_url_chars(text, pos + 7)
    } else {
        0
    }
}

/// The length of the decoration at `pos`.
fn decoration_at(text: &Vec<char>, pos: usize) -> (n: usize)
    requires
        pos < text.len(),
    ensures
        n == decoration_len(text@, pos as int),
        pos + n <= text.len(),
{
    let m = mention_at(text, pos);
    if m > 0 {
        return m;
    }
    let u = url_at(text, pos);
    if u > 0 {
        return u;
    }
    let fence = chars_of("```");
    proof {
        reveal_strlit("```");
    }
    if occurs_at_exec(text, pos, &fence) {
        3
    } else {
        0
    }
}

/// Takes the decorations out of `text`.
pub fn strip_decorations(text: &Vec<char>) -> (r: Vec<char>)
    ensures
        r@ == stripped(text@),
{
    let mut out: Vec<char> = Vec::new();
    let mut pos: usize = 0;
    while pos < text.len()
        invariant
            pos <= text.len(),
            out@ + stripped_from(text@, pos as int) == stripped(text@),
        decreases text.len() - pos,
    {
        let skip = decoration_at(text, pos);
        if skip > 0 {
            pos += skip;
        } else {
            out.push(text[pos]);
            assert(out@ + stripped_from(text@, pos + 1) =~= stripped(text@));
            pos += 1;
        }
    }
    assert(out@ + Seq::<char>::empty() =~= out@);
    out
}

/// The entry that wins at `pos`, if any matches there.
fn best_match_at(text: &Vec<char>, pos: usize, dict: &Dictionary) -> (r: Option<usize>)
    ensures
        match r {
            Some(i) => best_match(text@, pos as int, dict@) == Some(i as int) && is_match(
                text@,
                pos as int,
                dict@,
                i as int,
            ),
            None => best_match(text@, pos as int, dict@) is None,
        },
{
    let mut best: Option<usize> = None;
    let mut i: usize = 0;
    while i < dict.len()
        invariant
            i <= dict@.len(),
            match best {
                Some(b) => best_among(text@, pos as int, dict@, i as nat) == Some(b as int) && b
                    < i,
                None => best_among(text@, pos as int, dict@, i as nat) is None,
            },
        decreases dict@.len() - i,
    {
        let word = dict.word_at(i);
        if word.len() > 0 && occurs_at_exec(text, pos, word) {
            let longer = match best {
                Some(b) => dict.word_at(b).len() < word.len(),
                None => true,
            };
            if longer {
                best = Some(i);
            }
        }
        i += 1;
    }
    proof {
        lemma_best_among(text@, pos as int, dict@, dict@.len());
    }
    best
}

/// Replaces the words of the dictionary in `text` by their readings.
pub fn substitute(text: &Vec<char>, dict: &Dictionary) -> (r: Vec<char>)
    ensures
        r@ == substituted(text@, dict@),
{
    let mut out: Vec<char> = Vec::new();
    let mut pos: usize = 0;
    while pos < text.len()
        invariant
            pos <= text.len(),
            out@ + substituted_from(text@, pos as int, dict@) == substituted(text@, dict@),
        decreases text.len() - pos,
    {
        match best_match_at(text, pos, dict) {
            Some(i) => {
                let reading = dict.reading_at(i);
                let ghost before = out@;
                append_chars(&mut out, reading, 0, reading.len());
                assert(reading@.subrange(0, reading.len() as int) =~= reading@);
                let step = dict.word_at(i).len();
                assert(out@ + substituted_from(text@, pos + step, dict@) =~= before + (
                reading@ + substituted_from(text@, pos + step, dict@)));
                pos += step;
            },
            None => {
                out.push(text[pos]);
                assert(out@ + substituted_from(text@, pos + 1, dict@) =~= substituted(
                    text@,
                    dict@,
                ));
                pos += 1;
            },
        }
    }
    assert(out@ + Seq::<char>::empty() =~= out@);
    out
}

/// Cuts `text` to at most `max_len` characters, ending a cut text in
/// `marker`.
pub fn shorten(text: Vec<char>, max_len: usize, marker: &Vec<char>) -> (r: Vec<char>)
    ensures
        r@ == shortened(text@, max_len as nat, marker@),
        r@.len() <= max_len,
{
    if text.len() <= max_len {
        return text;
    }
    let mut out: Vec<char> = Vec::new();
    if marker.len() <= max_len {
        append_chars(&mut out, &text, 0, max_len - marker.len());
        append_chars(&mut out, marker, 0, marker.len());
        assert(marker@.subrange(0, marker.len() as int) =~= marker@);
        assert(out@ =~= text@.take(max_len - marker.len()) + marker@);
    } else {
        append_chars(&mut out, marker, 0, max_len);
        assert(out@ =~= marker@.take(max_len as int));
    }
    out
}

/// What is spoken for `text`: the decorations are taken out, the words of
/// the dictionary are replaced by their readings, and the result is cut to
/// the greatest length that `config` allows. Every text is accepted.
pub fn normalize(text: &str, dict: &Dictionary, config: &NormalizerConfig) -> (r: String)
    ensures
        r@ == normalized(text@, dict@, config.max_len as nat, config.marker@),
        r@.len() <= config.max_len,
{
    let chars = chars_of(text);
    let plain = strip_decorations(&chars);
    let read = substitute(&plain, dict);
    let marker = chars_of(config.marker.as_str());
    let cut = shorten(read, config.max_len, &marker);
    string_of(&cut)
}

} // verus!
