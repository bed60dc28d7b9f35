//! Slugs: lowercase, hyphen-separated forms of free text, fit for label values.

use vstd::prelude::*;
use crate::text::{spec_to_lowercase, string_from_chars, to_lowercase};

verus! {

/// A character that a slug keeps as it is: a lowercase ASCII letter or a digit.
pub open spec fn is_kept_char(c: char) -> bool {
    ('a' <= c && c <= 'z') || ('0' <= c && c <= '9')
}

/// A character that separates words: a space, an underscore or a hyphen.
pub open spec fn is_separator(c: char) -> bool {
    c == ' ' || c == '_' || c == '-'
}

/// The base letter of a lowercase accented vowel or of `ñ`.
pub open spec fn base_letter(c: char) -> Option<char> {
    if c == 'á' || c == 'à' || c == 'ã' || c == 'â' || c == 'ä' {
        Some('a')
    } else if c == 'é' || c == 'è' || c == 'ê' || c == 'ë' {
        Some('e')
    } else if c == 'í' || c == 'ì' || c == 'î' || c == 'ï' {
        Some('i')
    } else if c == 'ó' || c == 'ò' || c == 'õ' || c == 'ô' || c == 'ö' {
        Some('o')
    } else if c == 'ú' || c == 'ù' || c == 'û' || c == 'ü' {
        Some('u')
    } else if c == 'ñ' {
        Some('n')
    } else {
        None
    }
}

/// The letter or digit that a character contributes to a slug, if any.
pub open spec fn slug_letter(c: char) -> Option<char> {
    if is_kept_char(c) {
        Some(c)
    } else {
        base_letter(c)
    }
}

/// A character that may stand in a slug.
pub open spec fn is_slug_char(c: char) -> bool {
    is_kept_char(c) || c == '-'
}

/// Appends a hyphen unless the text is empty or already ends in one.
pub open spec fn push_hyphen(acc: Seq<char>) -> Seq<char> {
    if acc.len() > 0 && acc.last() != '-' {
        acc.push('-')
    } else {
        acc
    }
}

/// One character's effect on the slug built so far.
pub open spec fn scan_step(acc: Seq<char>, c: char) -> Seq<char> {
    match slug_letter(c) {
        Some(b) => acc.push(b),
        None => if is_separator(c) {
            push_hyphen(acc)
        } else {
            acc
        },
    }
}

/// The slug of a lowercase text before trailing hyphens are removed.
pub open spec fn scan(text: Seq<char>) -> Seq<char>
    decreases text.len(),
{
    if text.len() == 0 {
        Seq::empty()
    } else {
        scan_step(scan(text.drop_last()), text.last())
    }
}

/// A text without its trailing hyphens.
pub open spec fn trim_trailing_hyphens(s: Seq<char>) -> Seq<char>
    decreases s.len(),
{
    if s.len() > 0 && s.last() == '-' {
        trim_trailing_hyphens(s.drop_last())
    } else {
        s
    }
}

/// The slug of a text that is already lowercase.
pub open spec fn slug_of_lowercase_spec(lowered: Seq<char>) -> Seq<char> {
    trim_trailing_hyphens(scan(lowered))
}

/// The slug of any text: the slug of its lowercase form.
pub open spec fn slugify_spec(text: Seq<char>) -> Seq<char> {
    slug_of_lowercase_spec(spec_to_lowercase(text))
}


/// Every character is a lowercase ASCII letter, a digit or a hyphen.
pub open spec fn only_slug_chars(s: Seq<char>) -> bool {
    forall|i: int| 0 <= i < s.len() ==> is_slug_char(#[trigger] s[i])
}

/// No hyphen follows another.
pub open spec fn no_double_hyphen(s: Seq<char>) -> bool {
    forall|i: int| 0 <= i < s.len() - 1 ==> !(#[trigger] s[i] == '-' && s[i + 1] == '-')
}

/// The shape of a slug: only slug characters, no hyphen at either end, no two
/// hyphens in a row.
pub open spec fn is_slug(s: Seq<char>) -> bool {
    &&& only_slug_chars(s)
    &&& no_double_hyphen(s)
    &&& s.len() > 0 ==> s[0] != '-'
    &&& s.len() > 0 ==> s.last() != '-'
}

/// The letters and digits that a text contributes, in order.
pub open spec fn slug_letters(text: Seq<char>) -> Seq<char> {
    text.filter_map(|c: char| slug_letter(c))
}

/// A text with its hyphens removed.
pub open spec fn without_hyphens(s: Seq<char>) -> Seq<char> {
    s.filter(|c: char| c != '-')
}

proof fn lemma_scan_shape(text: Seq<char>)
    ensures
        only_slug_chars(scan(text)),
        no_double_hyphen(scan(text)),
        scan(text).len() > 0 ==> scan(text)[0] != '-',
    decreases text.len(),
{
    if text.len() > 0 {
        lemma_scan_shape(text.drop_last());
    }
}

proof fn lemma_trim_shape(s: Seq<char>)
    requires
        only_slug_chars(s),
        no_double_hyphen(s),
        s.len() > 0 ==> s[0] != '-',
    ensures
        is_slug(trim_trailing_hyphens(s)),
        without_hyphens(trim_trailing_hyphens(s)) == without_hyphens(s),
    decreases s.len(),
{
    if s.len() > 0 && s.last() == '-' {
        let d = s.drop_last();
        lemma_trim_shape(d);
        reveal(Seq::filter);
        assert(d.filter(|c: char| c != '-') == s.filter(|c: char| c != '-'));
    }
}

proof fn lemma_scan_letters(text: Seq<char>)
    ensures
        without_hyphens(scan(text)) == slug_letters(text),
    decreases text.len(),
{
    reveal(Seq::filter);
    if text.len() > 0 {
        let d = text.drop_last();
        lemma_scan_letters(d);
        let acc = scan(d);
        let c = text.last();
        match slug_letter(c) {
            Some(b) => {
                assert(acc.push(b).drop_last() == acc);
            },
            None => {
                if is_separator(c) && acc.len() > 0 && acc.last() != '-' {
                    assert(acc.push('-').drop_last() == acc);
                }
            },
        }
    }
}

proof fn lemma_scan_of_slug_prefix(w: Seq<char>, k: int)
    requires
        is_slug(w),
        0 <= k <= w.len(),
    ensures
        scan(w.take(k)) == w.take(k),
    decreases k,
{
    if k > 0 {
        lemma_scan_of_slug_prefix(w, k - 1);
        assert(w.take(k).drop_last() == w.take(k - 1));
        let c = w[k - 1];
        assert(is_slug_char(c));
        if c == '-' {
            assert(k - 1 > 0);
            assert(w[k - 2] != '-');
        }
        assert(w.take(k - 1).push(c) == w.take(k));
    }
}

/// A slug has only lowercase ASCII letters, digits and hyphens, never begins
/// or ends with a hyphen, and never has two hyphens in a row.
pub proof fn lemma_slug_shape(lowered: Seq<char>)
    ensures
        is_slug(slug_of_lowercase_spec(lowered)),
{
    lemma_scan_shape(lowered);
    lemma_trim_shape(scan(lowered));
}

/// Apart from hyphens, a slug is exactly the letters and digits of the text in
/// their order, accented vowels and `ñ` replaced by their base letter.
pub proof fn lemma_slug_keeps_letters(lowered: Seq<char>)
    ensures
        without_hyphens(slug_of_lowercase_spec(lowered)) == slug_letters(lowered),
{
    lemma_scan_shape(lowered);
    lemma_trim_shape(scan(lowered));
    lemma_scan_letters(lowered);
}

/// A text with no letter or digit has the empty slug.
pub proof fn lemma_slug_empty_without_letters(lowered: Seq<char>)
    requires
        slug_letters(lowered).len() == 0,
    ensures
        slug_of_lowercase_spec(lowered).len() == 0,
{
    let slug = slug_of_lowercase_spec(lowered);
    lemma_slug_shape(lowered);
    lemma_slug_keeps_letters(lowered);
    if slug.len() > 0 {
        assert(slug[0] != '-');
        assert(slug.filter(|c: char| c != '-').contains(slug[0])) by {
            slug.lemma_filter_contains(|c: char| c != '-', 0);
        }
    }
}

/// A slug is its own slug.
pub proof fn lemma_slug_of_slug(lowered: Seq<char>)
    ensures
        slug_of_lowercase_spec(slug_of_lowercase_spec(lowered)) == slug_of_lowercase_spec(lowered),
{
    let w = slug_of_lowercase_spec(lowered);
    lemma_slug_shape(lowered);
    lemma_scan_of_slug_prefix(w, w.len() as int);
    assert(w.take(w.len() as int) == w);
}


/// Two slugs joined by a hyphen; an empty slug adds nothing.
pub open spec fn join_slugs(x: Seq<char>, y: Seq<char>) -> Seq<char> {
    if x.len() == 0 {
        y
    } else if y.len() == 0 {
        x
    } else {
        x + seq!['-'] + y
    }
}

/// The slug built so far from `acc`, after the characters of `text`.
spec fn scan_from(acc: Seq<char>, text: Seq<char>) -> Seq<char>
    decreases text.len(),
{
    if text.len() == 0 {
        acc
    } else {
        scan_step(scan_from(acc, text.drop_last()), text.last())
    }
}

proof fn lemma_scan_is_scan_from_empty(text: Seq<char>)
    ensures
        scan(text) == scan_from(Seq::empty(), text),
    decreases text.len(),
{
    if text.len() > 0 {
        lemma_scan_is_scan_from_empty(text.drop_last());
    }
}

proof fn lemma_scan_from_concat(acc: Seq<char>, x: Seq<char>, y: Seq<char>)
    ensures
        scan_from(acc, x + y) == scan_from(scan_from(acc, x), y),
    decreases y.len(),
{
    if y.len() == 0 {
        assert(x + y == x);
    } else {
        lemma_scan_from_concat(acc, x, y.drop_last());
        assert((x + y).drop_last() == x + y.drop_last());
        assert((x + y).last() == y.last());
    }
}

proof fn lemma_scan_after_hyphen(acc: Seq<char>, text: Seq<char>)
    requires
        acc.len() > 0,
        acc.last() == '-',
    ensures
        scan_from(acc, text) == acc + scan(text),
    decreases text.len(),
{
    if text.len() == 0 {
        assert(acc + Seq::<char>::empty() == acc);
    } else {
        let u = scan(text.drop_last());
        lemma_scan_after_hyphen(acc, text.drop_last());
        let c = text.last();
        match slug_letter(c) {
            Some(b) => {
                assert((acc + u).push(b) == acc + u.push(b));
            },
            None => {
                if is_separator(c) && u.len() > 0 && u.last() != '-' {
                    assert((acc + u).last() == u.last());
                    assert((acc + u).push('-') == acc + u.push('-'));
                } else if is_separator(c) && u.len() > 0 {
                    assert((acc + u).last() == u.last());
                } else if is_separator(c) {
                    assert(acc + u == acc);
                }
            },
        }
    }
}

proof fn lemma_trim_concat(s: Seq<char>, t: Seq<char>)
    requires
        trim_trailing_hyphens(t).len() > 0,
    ensures
        trim_trailing_hyphens(s + t) == s + trim_trailing_hyphens(t),
    decreases t.len(),
{
    if t.len() > 0 && t.last() == '-' {
        lemma_trim_concat(s, t.drop_last());
        assert((s + t).drop_last() == s + t.drop_last());
    }
    assert(t.len() > 0);
    assert((s + t).last() == t.last());
}

proof fn lemma_trim_empty(t: Seq<char>)
    requires
        trim_trailing_hyphens(t).len() == 0,
        t.len() > 0 ==> t[0] != '-',
    ensures
        t.len() == 0,
    decreases t.len(),
{
    if t.len() > 0 {
        if t.len() > 1 {
            lemma_trim_empty(t.drop_last());
        }
    }
}

/// Joining two lowercase texts with a space, an underscore or a hyphen joins
/// their slugs with a hyphen; a text with an empty slug adds nothing.
pub proof fn lemma_slug_of_joined_texts(a: Seq<char>, sep: char, b: Seq<char>)
    requires
        is_separator(sep),
    ensures
        slug_of_lowercase_spec(a + seq![sep] + b) == join_slugs(
            slug_of_lowercase_spec(a),
            slug_of_lowercase_spec(b),
        ),
{
    let s = scan(a);
    let t = scan(b);
    lemma_scan_shape(a);
    lemma_scan_shape(b);
    lemma_scan_is_scan_from_empty(a + seq![sep] + b);
    lemma_scan_is_scan_from_empty(a + seq![sep]);
    lemma_scan_is_scan_from_empty(a);
    lemma_scan_is_scan_from_empty(b);
    lemma_scan_from_concat(Seq::empty(), a + seq![sep], b);
    assert((a + seq![sep]).drop_last() == a);
    let acc = push_hyphen(s);
    assert(scan(a + seq![sep]) == acc);
    assert(scan(a + seq![sep] + b) == scan_from(acc, b));
    if s.len() == 0 {
        assert(acc == Seq::<char>::empty());
        assert(trim_trailing_hyphens(s).len() == 0);
        assert(slug_of_lowercase_spec(a + seq![sep] + b) == slug_of_lowercase_spec(b));
    } else {
        let base = if s.last() == '-' { s.drop_last() } else { s };
        if s.last() == '-' {
            assert(s.len() > 1);
            assert(s[s.len() - 2] != '-');
            assert(s.drop_last().last() == s[s.len() - 2]);
            assert(trim_trailing_hyphens(s.drop_last()) == s.drop_last());
            assert(trim_trailing_hyphens(s) == base);
            assert(acc == s);
            assert(base.push('-') == s);
        } else {
            assert(trim_trailing_hyphens(s) == base);
            assert(acc == s.push('-'));
        }
        assert(base.len() > 0);
        lemma_scan_after_hyphen(acc, b);
        assert(scan_from(acc, b) == base + seq!['-'] + t);
        if trim_trailing_hyphens(t).len() > 0 {
            lemma_trim_concat(base + seq!['-'], t);
            assert(trim_trailing_hyphens(base + seq!['-'] + t) == base + seq!['-']
                + trim_trailing_hyphens(t));
        } else {
            lemma_trim_empty(t);
            assert(base + seq!['-'] + t == base.push('-'));
            assert(base.push('-').drop_last() == base);
            assert(trim_trailing_hyphens(base) == base);
            assert(trim_trailing_hyphens(base + seq!['-'] + t) == base);
        }
    }
}

/// The slug of a lowercase text: letters `a`-`z` and digits stay, accented
/// vowels and `ñ` become their base letter, each run of spaces, underscores and
/// hyphens becomes one hyphen (none at the start), every other character is
/// dropped, and trailing hyphens are removed.
pub fn slug_of_lowercase(lowered: &str) -> (slug: String)
    ensures
        slug@ == slug_of_lowercase_spec(lowered@),
        is_slug(slug@),
{
    proof {
        lemma_slug_shape(lowered@);
    }
    broadcast use vstd::string::axiom_spec_iter;
    let mut result: Vec<char> = Vec::new();
    for c in it: lowered.chars()
        invariant
            it.seq() == lowered@,
            result@ == scan(lowered@.take(it.index() as int)),
    {
        assert(lowered@.take(it.index() + 1).drop_last() == lowered@.take(it.index() as int));
        match c {
            'a'..='z' | '0'..='9' => result.push(c),
            ' ' | '_' | '-' => {
                if !result.is_empty() && result[result.len() - 1] != '-' {
                    result.push('-');
                }
            },
            'á' | 'à' | 'ã' | 'â' | 'ä' => result.push('a'),
            'é' | 'è' | 'ê' | 'ë' => result.push('e'),
            'í' | 'ì' | 'î' | 'ï' => result.push('i'),
            'ó' | 'ò' | 'õ' | 'ô' | 'ö' => result.push('o'),
            'ú' | 'ù' | 'û' | 'ü' => result.push('u'),
            'ñ' => result.push('n'),
            _ => {},
        }
    }
    assert(lowered@.take(lowered@.len() as int) == lowered@);
    while !result.is_empty() && result[result.len() - 1] == '-'
        invariant
            trim_trailing_hyphens(result@) == slug_of_lowercase_spec(lowered@),
        decreases result.len(),
    {
        result.pop();
    }
    string_from_chars(&result)
}

/// Text that can be turned into a slug.
pub trait Slug {
    /// The characters that this value stands for.
    spec fn slug_source(&self) -> Seq<char>;

    /// The slug of this value's text.
    fn to_slug(&self) -> (slug: String)
        ensures
            slug@ == slugify_spec(self.slug_source()),
            is_slug(slug@),
    ;

    /// The slug of `text`: the text is lowercased, then letters `a`-`z` and
    /// digits stay, accented vowels and `ñ` become their base letter, each run of
    /// spaces, underscores and hyphens becomes one hyphen (none at the start),
    /// every other character is dropped, and trailing hyphens are removed.
    fn slugify(text: &str) -> (slug: String)
        ensures
            slug@ == slugify_spec(text@),
            slug@ == slug_of_lowercase_spec(spec_to_lowercase(text@)),
            is_slug(slug@),
    {
        let lowered = to_lowercase(text);
        slug_of_lowercase(lowered.as_str())
    }
}

impl Slug for &str {
    open spec fn slug_source(&self) -> Seq<char> {
        (*self)@
    }

    fn to_slug(&self) -> (slug: String)
        ensures
            slug@ == slug_of_lowercase_spec(spec_to_lowercase((*self)@)),
    {
        Self::slugify(*self)
    }
}

impl Slug for String {
    open spec fn slug_source(&self) -> Seq<char> {
        self@
    }

    fn to_slug(&self) -> (slug: String)
        ensures
            slug@ == slug_of_lowercase_spec(spec_to_lowercase(self@)),
    {
        Self::slugify(self.as_str())
    }
}

/// The slug of a text is the slug of its lowercase form.
pub proof fn lemma_slugify_lowercases_whole_text(text: Seq<char>)
    ensures
        slugify_spec(text) == slug_of_lowercase_spec(spec_to_lowercase(text)),
{
}

/// A string slice and a `String` stand for exactly their own characters.
pub proof fn lemma_slug_source_is_text(s: &str, owned: String)
    ensures
        Slug::slug_source(&s) == s@,
        Slug::slug_source(&owned) == owned@,
{
}

/// Apart from hyphens, the slug of a lowercase text holds each of its letters
/// `a`-`z` and digits `0`-`9` in order, each accented vowel `á à ã â ä`, `é è ê
/// ë`, `í ì î ï`, `ó ò õ ô ö`, `ú ù û ü` as its base vowel and `ñ` as `n`, and
/// nothing else.
pub proof fn lemma_slug_letters_in_order(lowered: Seq<char>)
    ensures
        slug_of_lowercase_spec(lowered).filter(|c: char| c != '-') == lowered.filter_map(
            |c: char|
                if ('a' <= c && c <= 'z') || ('0' <= c && c <= '9') {
                    Some(c)
                } else if c == 'á' || c == 'à' || c == 'ã' || c == 'â' || c == 'ä' {
                    Some('a')
                } else if c == 'é' || c == 'è' || c == 'ê' || c == 'ë' {
                    Some('e')
                } else if c == 'í' || c == 'ì' || c == 'î' || c == 'ï' {
                    Some('i')
                } else if c == 'ó' || c == 'ò' || c == 'õ' || c == 'ô' || c == 'ö' {
                    Some('o')
                } else if c == 'ú' || c == 'ù' || c == 'û' || c == 'ü' {
                    Some('u')
                } else if c == 'ñ' {
                    Some('n')
                } else {
                    None
                },
        ),
{
    lemma_slug_keeps_letters(lowered);
    let f = |c: char| slug_letter(c);
    let g = |c: char|
        if ('a' <= c && c <= 'z') || ('0' <= c && c <= '9') {
            Some(c)
        } else if c == 'á' || c == 'à' || c == 'ã' || c == 'â' || c == 'ä' {
            Some('a')
        } else if c == 'é' || c == 'è' || c == 'ê' || c == 'ë' {
            Some('e')
        } else if c == 'í' || c == 'ì' || c == 'î' || c == 'ï' {
            Some('i')
        } else if c == 'ó' || c == 'ò' || c == 'õ' || c == 'ô' || c == 'ö' {
            Some('o')
        } else if c == 'ú' || c == 'ù' || c == 'û' || c == 'ü' {
            Some('u')
        } else if c == 'ñ' {
            Some('n')
        } else {
            None
        };
    assert(f =~= g);
}

/// Apart from hyphens, the slug of any text holds the letters and digits of its
/// lowercase form, in order, accented vowels and `ñ` folded to their base letter.
pub proof fn lemma_slugify_letters_in_order(text: Seq<char>)
    ensures
        slugify_spec(text).filter(|c: char| c != '-') == spec_to_lowercase(text).filter_map(
            |c: char|
                if ('a' <= c && c <= 'z') || ('0' <= c && c <= '9') {
                    Some(c)
                } else if c == 'á' || c == 'à' || c == 'ã' || c == 'â' || c == 'ä' {
                    Some('a')
                } else if c == 'é' || c == 'è' || c == 'ê' || c == 'ë' {
                    Some('e')
                } else if c == 'í' || c == 'ì' || c == 'î' || c == 'ï' {
                    Some('i')
                } else if c == 'ó' || c == 'ò' || c == 'õ' || c == 'ô' || c == 'ö' {
                    Some('o')
                } else if c == 'ú' || c == 'ù' || c == 'û' || c == 'ü' {
                    Some('u')
                } else if c == 'ñ' {
                    Some('n')
                } else {
                    None
                },
        ),
{
    lemma_slug_letters_in_order(spec_to_lowercase(text));
}

} // verus!
