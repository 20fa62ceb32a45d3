//! Slugs: the normalised text by which entities are recognised across runs.

use vstd::prelude::*;
use crate::text::{chars_of, text_of};

verus! {

/// What `str::to_lowercase` returns for a text.
pub uninterp spec fn lowercase_text(text: Seq<char>) -> Seq<char>;

/// Whether `char::is_alphanumeric` holds of a character.
pub uninterp spec fn alphanumeric(c: char) -> bool;

/// `str::to_lowercase` computes the lowercase form from the text alone; the
/// form itself is Unicode's and is not spelled out here.
pub assume_specification[ str::to_lowercase ](s: &str) -> (out: String)
    ensures
        out@ == lowercase_text(s@),
;

/// `char::is_alphanumeric` classifies a character by its value alone; the
/// classification is Unicode's and is not spelled out here.
pub assume_specification[ char::is_alphanumeric ](c: char) -> (b: bool)
    ensures
        b == alphanumeric(c),
;

/// Every character that is not alphanumeric becomes a hyphen.
pub open spec fn hyphenated(t: Seq<char>) -> Seq<char> {
    Seq::new(t.len(), |i: int| if alphanumeric(t[i]) { t[i] } else { '-' })
}

/// Every run of hyphens shrinks to its first hyphen.
pub open spec fn collapsed(t: Seq<char>) -> Seq<char>
    decreases t.len(),
{
    if t.len() == 0 {
        t
    } else if t.last() == '-' && t.len() >= 2 && t[t.len() - 2] == '-' {
        collapsed(t.drop_last())
    } else {
        collapsed(t.drop_last()).push(t.last())
    }
}

/// The text without its leading hyphens.
pub open spec fn trimmed_start(t: Seq<char>) -> Seq<char>
    decreases t.len(),
{
    if t.len() > 0 && t[0] == '-' {
        trimmed_start(t.drop_first())
    } else {
        t
    }
}

/// The text without its trailing hyphens.
pub open spec fn trimmed_end(t: Seq<char>) -> Seq<char>
    decreases t.len(),
{
    if t.len() > 0 && t.last() == '-' {
        trimmed_end(t.drop_last())
    } else {
        t
    }
}

/// The hyphen form of a text: separators become hyphens, runs of hyphens
/// collapse, and hyphens at either end go.
pub open spec fn normal_form(t: Seq<char>) -> Seq<char> {
    trimmed_end(trimmed_start(collapsed(hyphenated(t))))
}

/// The slug of a text: the hyphen form of its lowercase form.
pub open spec fn slug_text(t: Seq<char>) -> Seq<char> {
    normal_form(lowercase_text(t))
}

/// The text with a hyphen in the place of every character that is not
/// alphanumeric.
pub fn hyphenate(t: &Vec<char>) -> (out: Vec<char>)
    ensures
        out@ == hyphenated(t@),
{
    let mut out: Vec<char> = Vec::new();
    let mut i: usize = 0;
    while i < t.len()
        invariant
            i <= t.len(),
            out@ == hyphenated(t@).take(i as int),
        decreases t.len() - i,
    {
        let c = t[i];
        if c.is_alphanumeric() {
            out.push(c);
        } else {
            out.push('-');
        }
        i += 1;
    }
    out
}

/// The text with every run of hyphens shrunk to one hyphen.
pub fn collapse(t: &Vec<char>) -> (out: Vec<char>)
    ensures
        out@ == collapsed(t@),
{
    let mut out: Vec<char> = Vec::new();
    let mut i: usize = 0;
    while i < t.len()
        invariant
            i <= t.len(),
            out@ == collapsed(t@.take(i as int)),
        decreases t.len() - i,
    {
        proof {
            assert(t@.take(i + 1).drop_last() == t@.take(i as int));
        }
        let c = t[i];
        if !(c == '-' && i >= 1 && t[i - 1] == '-') {
            out.push(c);
        }
        i += 1;
    }
    proof {
        assert(t@.take(t.len() as int) == t@);
    }
    out
}

/// The text without the hyphens at its start and at its end.
pub fn trim(t: &Vec<char>) -> (out: Vec<char>)
    ensures
        out@ == trimmed_end(trimmed_start(t@)),
{
    let mut lo: usize = 0;
    proof {
        assert(t@.skip(0) == t@);
    }
    while lo < t.len() && t[lo] == '-'
        invariant
            lo <= t.len(),
            trimmed_start(t@) == trimmed_start(t@.skip(lo as int)),
        decreases t.len() - lo,
    {
        proof {
            assert(t@.skip(lo as int).drop_first() == t@.skip(lo + 1));
        }
        lo += 1;
    }
    let mut hi: usize = t.len();
    proof {
        assert(t@.subrange(lo as int, hi as int) == t@.skip(lo as int));
    }
    while hi > lo && t[hi - 1] == '-'
        invariant
            lo <= hi <= t.len(),
            trimmed_start(t@) == t@.skip(lo as int),
            trimmed_end(trimmed_start(t@)) == trimmed_end(t@.subrange(lo as int, hi as int)),
        decreases hi - lo,
    {
        proof {
            assert(t@.subrange(lo as int, hi as int).drop_last() == t@.subrange(
                lo as int,
                hi - 1,
            ));
        }
        hi -= 1;
    }
    let mut out: Vec<char> = Vec::new();
    let mut i: usize = lo;
    while i < hi
        invariant
            lo <= i <= hi <= t.len(),
            out@ == t@.subrange(lo as int, i as int),
        decreases hi - i,
    {
        out.push(t[i]);
        i += 1;
    }
    out
}

/// Every character is a hyphen or alphanumeric.
pub open spec fn slug_alphabet(t: Seq<char>) -> bool {
    forall|i: int| 0 <= i < t.len() ==> t[i] == '-' || alphanumeric(#[trigger] t[i])
}

/// No hyphen follows a hyphen.
pub open spec fn single_hyphens(t: Seq<char>) -> bool {
    forall|i: int| 0 <= i < t.len() - 1 ==> !(#[trigger] t[i] == '-' && t[i + 1] == '-')
}

/// No hyphen stands at either end.
pub open spec fn bare_ends(t: Seq<char>) -> bool {
    t.len() > 0 ==> t[0] != '-' && t.last() != '-'
}

/// A text in hyphen form: hyphens and alphanumerics only, hyphens single and
/// never at an end.
pub open spec fn is_normal(t: Seq<char>) -> bool {
    slug_alphabet(t) && single_hyphens(t) && bare_ends(t)
}

proof fn lemma_collapsed(t: Seq<char>)
    ensures
        single_hyphens(collapsed(t)),
        slug_alphabet(t) ==> slug_alphabet(collapsed(t)),
        t.len() > 0 ==> collapsed(t).len() > 0 && collapsed(t).last() == t.last(),
        t.len() == 0 ==> collapsed(t).len() == 0,
    decreases t.len(),
{
    if t.len() > 0 {
        let head = t.drop_last();
        lemma_collapsed(head);
        if slug_alphabet(t) {
            assert forall|i: int| 0 <= i < head.len() implies head[i] == '-' || alphanumeric(
                #[trigger] head[i],
            ) by {
                assert(head[i] == t[i]);
            }
        }
    }
}

proof fn lemma_trimmed_start(t: Seq<char>)
    ensures
        trimmed_start(t).len() > 0 ==> trimmed_start(t)[0] != '-',
        single_hyphens(t) ==> single_hyphens(trimmed_start(t)),
        slug_alphabet(t) ==> slug_alphabet(trimmed_start(t)),
    decreases t.len(),
{
    if t.len() > 0 && t[0] == '-' {
        let tail = t.drop_first();
        lemma_trimmed_start(tail);
        if single_hyphens(t) {
            assert forall|i: int| 0 <= i < tail.len() - 1 implies !(#[trigger] tail[i] == '-'
                && tail[i + 1] == '-') by {
                assert(tail[i] == t[i + 1]);
                assert(tail[i + 1] == t[i + 2]);
            }
        }
        if slug_alphabet(t) {
            assert forall|i: int| 0 <= i < tail.len() implies tail[i] == '-' || alphanumeric(
                #[trigger] tail[i],
            ) by {
                assert(tail[i] == t[i + 1]);
            }
        }
    }
}

proof fn lemma_trimmed_end(t: Seq<char>)
    ensures
        trimmed_end(t).len() > 0 ==> trimmed_end(t).last() != '-' && trimmed_end(t)[0] == t[0],
        single_hyphens(t) ==> single_hyphens(trimmed_end(t)),
        slug_alphabet(t) ==> slug_alphabet(trimmed_end(t)),
    decreases t.len(),
{
    if t.len() > 0 && t.last() == '-' {
        let head = t.drop_last();
        lemma_trimmed_end(head);
        if single_hyphens(t) {
            assert forall|i: int| 0 <= i < head.len() - 1 implies !(#[trigger] head[i] == '-'
                && head[i + 1] == '-') by {
                assert(head[i] == t[i]);
                assert(head[i + 1] == t[i + 1]);
            }
        }
        if slug_alphabet(t) {
            assert forall|i: int| 0 <= i < head.len() implies head[i] == '-' || alphanumeric(
                #[trigger] head[i],
            ) by {
                assert(head[i] == t[i]);
            }
        }
    }
}

proof fn lemma_collapsed_fixed(t: Seq<char>)
    requires
        single_hyphens(t),
    ensures
        collapsed(t) == t,
    decreases t.len(),
{
    if t.len() > 0 {
        let head = t.drop_last();
        assert forall|i: int| 0 <= i < head.len() - 1 implies !(#[trigger] head[i] == '-'
            && head[i + 1] == '-') by {
            assert(head[i] == t[i]);
            assert(head[i + 1] == t[i + 1]);
        }
        lemma_collapsed_fixed(head);
        if t.len() >= 2 {
            assert(!(t[t.len() - 2] == '-' && t[t.len() - 2 + 1] == '-'));
        }
        assert(head.push(t.last()) == t);
    }
}

/// The hyphen form of any text is in hyphen form.
pub proof fn lemma_normal_form_is_normal(t: Seq<char>)
    ensures
        is_normal(normal_form(t)),
{
    let h = hyphenated(t);
    assert(slug_alphabet(h));
    lemma_collapsed(h);
    let c = collapsed(h);
    lemma_trimmed_start(c);
    let s = trimmed_start(c);
    lemma_trimmed_end(s);
}

/// A text in hyphen form is its own hyphen form.
pub proof fn lemma_normal_is_fixed(t: Seq<char>)
    requires
        is_normal(t),
    ensures
        normal_form(t) == t,
{
    assert(hyphenated(t) == t);
    lemma_collapsed_fixed(t);
}

/// Taking the hyphen form twice gives what taking it once gives.
pub proof fn lemma_normal_form_idempotent(t: Seq<char>)
    ensures
        normal_form(normal_form(t)) == normal_form(t),
{
    lemma_normal_form_is_normal(t);
    lemma_normal_is_fixed(normal_form(t));
}

/// The slug of a slug is that slug, wherever lowercasing leaves the slug as
/// it is. A slug is already the hyphen form of lowercase text; what lowercasing
/// does to it is the standard library's to say.
pub proof fn lemma_slug_idempotent(t: Seq<char>)
    ensures
        is_normal(slug_text(t)),
        lowercase_text(slug_text(t)) == slug_text(t) ==> slug_text(slug_text(t)) == slug_text(t),
{
    lemma_normal_form_is_normal(lowercase_text(t));
    lemma_normal_is_fixed(slug_text(t));
}

/// The characters of a text that are alphanumeric and no hyphens, in order.
pub open spec fn letters(t: Seq<char>) -> Seq<char>
    decreases t.len(),
{
    if t.len() == 0 {
        t
    } else if alphanumeric(t.last()) && t.last() != '-' {
        letters(t.drop_last()).push(t.last())
    } else {
        letters(t.drop_last())
    }
}

proof fn lemma_letters_from_front(t: Seq<char>)
    requires
        t.len() > 0,
    ensures
        letters(t) == (if alphanumeric(t[0]) && t[0] != '-' {
            seq![t[0]]
        } else {
            Seq::<char>::empty()
        }) + letters(t.drop_first()),
    decreases t.len(),
{
    let first: Seq<char> = if alphanumeric(t[0]) && t[0] != '-' {
        seq![t[0]]
    } else {
        Seq::empty()
    };
    if t.len() == 1 {
        assert(t.drop_last().len() == 0);
        assert(t.drop_first().len() == 0);
        assert(letters(t.drop_last()) == Seq::<char>::empty());
        assert(letters(t) == first + Seq::<char>::empty());
    } else {
        let head = t.drop_last();
        lemma_letters_from_front(head);
        assert(head.drop_first() == t.drop_first().drop_last());
        assert(head[0] == t[0]);
        assert(t.drop_first().last() == t.last());
        if alphanumeric(t.last()) && t.last() != '-' {
            assert((first + letters(head.drop_first())).push(t.last()) == first + letters(
                head.drop_first(),
            ).push(t.last()));
        }
    }
}

proof fn lemma_letters_hyphenated(t: Seq<char>)
    ensures
        letters(hyphenated(t)) == letters(t),
    decreases t.len(),
{
    if t.len() > 0 {
        lemma_letters_hyphenated(t.drop_last());
        assert(hyphenated(t).drop_last() == hyphenated(t.drop_last()));
    } else {
        assert(hyphenated(t) == t);
    }
}

proof fn lemma_letters_collapsed(t: Seq<char>)
    ensures
        letters(collapsed(t)) == letters(t),
    decreases t.len(),
{
    if t.len() > 0 {
        let head = t.drop_last();
        lemma_letters_collapsed(head);
        assert(collapsed(head).push(t.last()).drop_last() == collapsed(head));
    }
}

proof fn lemma_letters_trimmed(t: Seq<char>)
    ensures
        letters(trimmed_start(t)) == letters(t),
        letters(trimmed_end(t)) == letters(t),
    decreases t.len(),
{
    if t.len() > 0 {
        if t[0] == '-' {
            lemma_letters_trimmed(t.drop_first());
            lemma_letters_from_front(t);
            assert(Seq::<char>::empty() + letters(t.drop_first()) == letters(t.drop_first()));
        }
        if t.last() == '-' {
            lemma_letters_trimmed(t.drop_last());
        }
    }
}

/// A slug keeps the alphanumeric characters of the lowercase text, all of
/// them and in their order: what it takes away or puts in is hyphens.
pub proof fn lemma_slug_keeps_letters(t: Seq<char>)
    ensures
        letters(normal_form(t)) == letters(t),
        letters(slug_text(t)) == letters(lowercase_text(t)),
{
    lemma_letters_hyphenated(t);
    lemma_letters_collapsed(hyphenated(t));
    lemma_letters_trimmed(collapsed(hyphenated(t)));
    lemma_letters_trimmed(trimmed_start(collapsed(hyphenated(t))));
    let l = lowercase_text(t);
    lemma_letters_hyphenated(l);
    lemma_letters_collapsed(hyphenated(l));
    lemma_letters_trimmed(collapsed(hyphenated(l)));
    lemma_letters_trimmed(trimmed_start(collapsed(hyphenated(l))));
}

/// Text that has a slug.
pub trait Slug {
    /// The text as a sequence of characters.
    spec fn text(&self) -> Seq<char>;

    /// The slug of the text.
    fn slug(&self) -> (out: String)
        ensures
            out@ == slug_text(self.text()),
    ;
}

impl Slug for String {
    open spec fn text(&self) -> Seq<char> {
        self@
    }

    fn slug(&self) -> (out: String) {
        let lowered = self.as_str().to_lowercase();
        let chars = chars_of(lowered.as_str());
        let hyphens = hyphenate(&chars);
        let single = collapse(&hyphens);
        let kept = trim(&single);
        text_of(&kept)
    }
}

} // verus!
