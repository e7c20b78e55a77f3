//! Note detection and snapshot diffing for MML text.

use vstd::prelude::*;
use vstd::string::*;

verus! {

/// A character counts as an MML natural-note letter when, ignoring case, it
/// is one of the seven note names `a` through `g`.
pub open spec fn is_note_char(c: char) -> bool {
    ||| c == 'a' || c == 'b' || c == 'c' || c == 'd' || c == 'e' || c == 'f' || c == 'g'
    ||| c == 'A' || c == 'B' || c == 'C' || c == 'D' || c == 'E' || c == 'F' || c == 'G'
}

/// Text contains a playable note when at least one of its characters is a
/// note letter. This is a permissive token filter, not an MML validator.
pub open spec fn contains_notes(s: Seq<char>) -> bool {
    exists|i: int| 0 <= i < s.len() && is_note_char(s[i])
}

/// `p` is a prefix of `s`.
pub open spec fn is_prefix_of(p: Seq<char>, s: Seq<char>) -> bool {
    p.len() <= s.len() && s.subrange(0, p.len() as int) == p
}

/// The playable delta between two successive text snapshots:
/// - pure append (current strictly extends previous): the new suffix alone;
/// - pure deletion (previous strictly extends current): nothing new to play;
/// - anything else (edit in the middle, replacement, equal length): the whole
///   current text, so the net effect of the edit is heard.
pub open spec fn diff_spec(previous: Seq<char>, current: Seq<char>) -> Seq<char> {
    if current.len() > previous.len() && is_prefix_of(previous, current) {
        current.subrange(previous.len() as int, current.len() as int)
    } else if current.len() < previous.len() && is_prefix_of(current, previous) {
        Seq::empty()
    } else {
        current
    }
}

/// MML-related text analysis.
pub struct MmlProcessor;

impl MmlProcessor {
    /// Whether `content` contains at least one MML note letter (`a`-`g`,
    /// either case).
    pub fn contains_mml_notes(content: &str) -> (r: bool)
        ensures
            r == contains_notes(content@),
    {
        let n: usize = content.unicode_len();
        let mut i: usize = 0;
        while i < n
            invariant
                n == content@.len(),
                i <= n,
                forall|j: int| 0 <= j < i ==> !is_note_char(content@[j]),
            decreases n - i,
        {
            let c = content.get_char(i);
            if c == 'a' || c == 'b' || c == 'c' || c == 'd' || c == 'e' || c == 'f' || c == 'g'
                || c == 'A' || c == 'B' || c == 'C' || c == 'D' || c == 'E' || c == 'F'
                || c == 'G' {
                return true;
            }
            i += 1;
        }
        false
    }

    /// The newly playable characters after a content change, per `diff_spec`.
    pub fn calculate_diff(previous: &str, current: &str) -> (r: String)
        ensures
            r@ == diff_spec(previous@, current@),
    {
        let plen: usize = previous.unicode_len();
        let clen: usize = current.unicode_len();
        if clen > plen && char_prefix(previous, current) {
            let suffix = current.substring_char(plen, clen);
            suffix.to_owned()
        } else if clen < plen && char_prefix(current, previous) {
            String::new()
        } else {
            current.to_owned()
        }
    }
}

/// Whether `p` is a character-wise prefix of `s`.
fn char_prefix(p: &str, s: &str) -> (r: bool)
    requires
        p@.len() <= s@.len(),
    ensures
        r == is_prefix_of(p@, s@),
{
    let n: usize = p.unicode_len();
    let mut i: usize = 0;
    while i < n
        invariant
            n == p@.len(),
            n <= s@.len(),
            i <= n,
            forall|j: int| 0 <= j < i ==> p@[j] == s@[j],
        decreases n - i,
    {
        if p.get_char(i) != s.get_char(i) {
            proof {
                assert(s@.subrange(0, p@.len() as int)[i as int] != p@[i as int]);
            }
            return false;
        }
        i += 1;
    }
    proof {
        assert(s@.subrange(0, p@.len() as int) =~= p@);
    }
    true
}

/// Appending a non-empty suffix `s` to `p` diffs to exactly `s`: freshly
/// typed characters, and only they, are played.
pub proof fn lemma_diff_append(p: Seq<char>, s: Seq<char>)
    requires
        s.len() > 0,
    ensures
        diff_spec(p, p + s) == s,
{
    let c = p + s;
    assert(c.subrange(0, p.len() as int) =~= p);
    assert(c.subrange(p.len() as int, c.len() as int) =~= s);
}

/// Deleting a non-empty suffix diffs to the empty string: removed content is
/// never replayed.
pub proof fn lemma_diff_deletion(c: Seq<char>, s: Seq<char>)
    requires
        s.len() > 0,
    ensures
        diff_spec(c + s, c) == Seq::<char>::empty(),
{
    let p = c + s;
    assert(p.subrange(0, c.len() as int) =~= c);
}

/// When neither snapshot is a prefix of the other, the diff is the whole
/// current text: a complex edit replays the net result.
pub proof fn lemma_diff_unrelated(p: Seq<char>, c: Seq<char>)
    requires
        !is_prefix_of(p, c),
        !is_prefix_of(c, p),
    ensures
        diff_spec(p, c) == c,
{
}

/// The empty snapshot diffs against itself to the empty string.
pub proof fn lemma_diff_empty_self(x: Seq<char>)
    requires
        x.len() == 0,
    ensures
        diff_spec(x, x) == Seq::<char>::empty(),
{
    assert(diff_spec(x, x) =~= Seq::<char>::empty());
}

} // verus!
