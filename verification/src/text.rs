//! Text helpers: comparison, trimming, slugs and language selection.

use vstd::prelude::*;

verus! {

/// The characters that `char::is_whitespace` accepts: those with the
/// Unicode `White_Space` property.
pub open spec fn is_white_space(c: char) -> bool {
    ||| ('\u{9}' <= c && c <= '\u{d}')
    ||| c == ' '
    ||| c == '\u{85}'
    ||| c == '\u{a0}'
    ||| c == '\u{1680}'
    ||| ('\u{2000}' <= c && c <= '\u{200a}')
    ||| c == '\u{2028}'
    ||| c == '\u{2029}'
    ||| c == '\u{202f}'
    ||| c == '\u{205f}'
    ||| c == '\u{3000}'
}

/// Index of the first character at or after `i` that is not white space
/// (the length of `s` when there is none).
pub open spec fn first_kept(s: Seq<char>, i: int) -> int
    decreases s.len() - i,
{
    if i < 0 || i >= s.len() {
        s.len() as int
    } else if is_white_space(s[i]) {
        first_kept(s, i + 1)
    } else {
        i
    }
}

/// One past the last character before `j` that is not white space
/// (0 when there is none).
pub open spec fn end_kept(s: Seq<char>, j: int) -> int
    decreases j,
{
    if j <= 0 || j > s.len() {
        0
    } else if is_white_space(s[j - 1]) {
        end_kept(s, j - 1)
    } else {
        j
    }
}

/// `s` without its leading and trailing white space.
pub open spec fn trimmed(s: Seq<char>) -> Seq<char> {
    let a = first_kept(s, 0);
    let b = end_kept(s, s.len() as int);
    if a < b {
        s.subrange(a, b)
    } else {
        Seq::empty()
    }
}

/// The language a page is shown in: French when asked for, English otherwise.
pub open spec fn validated_lang(lang: Seq<char>) -> Seq<char> {
    if lang == "fr"@ {
        "fr"@
    } else {
        "en"@
    }
}

/// What `inflector::cases::snakecase::to_snake_case` returns for a text.
pub uninterp spec fn snake_case_of(s: Seq<char>) -> Seq<char>;

/// A creature's slug: its trimmed name in snake case.
pub open spec fn slug_of(name: Seq<char>) -> Seq<char> {
    snake_case_of(trimmed(name))
}

/// Whether two texts hold the same characters.
pub fn str_eq(a: &str, b: &str) -> (r: bool)
    ensures
        r == (a@ == b@),
{
    let n = a.unicode_len();
    let m = b.unicode_len();
    if n != m {
        return false;
    }
    let mut i: usize = 0;
    while i < n
        invariant
            n == a@.len(),
            m == b@.len(),
            n == m,
            i <= n,
            forall|k: int| 0 <= k < i ==> a@[k] == b@[k],
        decreases n - i,
    {
        if a.get_char(i) != b.get_char(i) {
            return false;
        }
        i = i + 1;
    }
    assert(a@ =~= b@);
    true
}

/// Whether `c` is white space, as `char::is_whitespace` decides.
pub fn is_white_space_char(c: char) -> (r: bool)
    ensures
        r == is_white_space(c),
{
    ('\u{9}' <= c && c <= '\u{d}') || c == ' ' || c == '\u{85}' || c == '\u{a0}'
        || c == '\u{1680}' || ('\u{2000}' <= c && c <= '\u{200a}') || c == '\u{2028}'
        || c == '\u{2029}' || c == '\u{202f}' || c == '\u{205f}' || c == '\u{3000}'
}

proof fn lemma_first_kept_bounds(s: Seq<char>, i: int)
    requires
        0 <= i <= s.len(),
    ensures
        i <= first_kept(s, i) <= s.len(),
        forall|k: int| i <= k < first_kept(s, i) ==> is_white_space(#[trigger] s[k]),
        first_kept(s, i) < s.len() ==> !is_white_space(s[first_kept(s, i)]),
    decreases s.len() - i,
{
    if i < s.len() && is_white_space(s[i]) {
        lemma_first_kept_bounds(s, i + 1);
    }
}

proof fn lemma_end_kept_bounds(s: Seq<char>, j: int)
    requires
        0 <= j <= s.len(),
    ensures
        0 <= end_kept(s, j) <= j,
        forall|k: int| end_kept(s, j) <= k < j ==> is_white_space(#[trigger] s[k]),
        end_kept(s, j) > 0 ==> !is_white_space(s[end_kept(s, j) - 1]),
    decreases j,
{
    if j > 0 && is_white_space(s[j - 1]) {
        lemma_end_kept_bounds(s, j - 1);
    }
}

/// The text `s` without leading and trailing white space, as `str::trim`
/// gives it.
pub fn trim(s: &str) -> (r: &str)
    ensures
        r@ == trimmed(s@),
{
    let n = s.unicode_len();
    let mut a: usize = 0;
    while a < n && is_white_space_char(s.get_char(a))
        invariant
            n == s@.len(),
            a <= n,
            first_kept(s@, a as int) == first_kept(s@, 0),
        decreases n - a,
    {
        a = a + 1;
    }
    let mut b: usize = n;
    while b > a && is_white_space_char(s.get_char(b - 1))
        invariant
            n == s@.len(),
            a <= b <= n,
            end_kept(s@, b as int) == end_kept(s@, n as int),
            a < n ==> !is_white_space(s@[a as int]),
            a == n ==> first_kept(s@, 0) == n,
            a < n ==> first_kept(s@, 0) == a,
        decreases b,
    {
        b = b - 1;
    }
    proof {
        lemma_end_kept_bounds(s@, b as int);
    }
    if a < b {
        s.substring_char(a, b)
    } else {
        assert(trimmed(s@) =~= Seq::<char>::empty());
        s.substring_char(0, 0)
    }
}

/// The language a page is shown in: "fr" when `lang` is "fr", "en" for
/// any other request.
pub fn validate_lang(lang: &str) -> (r: &'static str)
    ensures
        r@ == validated_lang(lang@),
{
    if str_eq(lang, "fr") {
        "fr"
    } else {
        "en"
    }
}

/// Calls `inflector::cases::snakecase::to_snake_case`: the contract only
/// names its result, which depends on the text alone.
#[verifier::external_body]
fn snake_case(s: &str) -> (r: String)
    ensures
        r@ == snake_case_of(s@),
{
    inflector::cases::snakecase::to_snake_case(s)
}

/// The slug of a name: the name trimmed, then put in snake case.
pub fn slugify(name: &str) -> (r: String)
    ensures
        r@ == slug_of(name@),
{
    snake_case(trim(name))
}

/// Whether the confirmation typed into a delete form names the record:
/// the typed text, trimmed, must equal the name exactly.
pub fn delete_confirmed(verify: &str, name: &str) -> (r: bool)
    ensures
        r == (trimmed(verify@) == name@),
{
    str_eq(trim(verify), name)
}

/// Trimming a trimmed text changes nothing.
pub proof fn law_trim_idempotent(s: Seq<char>)
    ensures
        trimmed(trimmed(s)) == trimmed(s),
{
    let a = first_kept(s, 0);
    let b = end_kept(s, s.len() as int);
    lemma_first_kept_bounds(s, 0);
    lemma_end_kept_bounds(s, s.len() as int);
    let t = trimmed(s);
    lemma_first_kept_bounds(t, 0);
    lemma_end_kept_bounds(t, t.len() as int);
    if a < b {
        assert(t.len() > 0);
        assert(t[0] == s[a]);
        assert(t[t.len() - 1] == s[b - 1]);
        assert(first_kept(t, 0) == 0);
        assert(end_kept(t, t.len() as int) == t.len());
        assert(trimmed(t) =~= t);
    } else {
        assert(t.len() == 0);
        assert(trimmed(t) =~= t);
    }
}

/// Names that differ only in leading or trailing white space get the same
/// slug.
pub proof fn law_slug_ignores_surrounding_space(name: Seq<char>)
    ensures
        slug_of(trimmed(name)) == slug_of(name),
{
    law_trim_idempotent(name);
}

/// A page is always shown in French or in English.
pub proof fn law_lang_is_fr_or_en(lang: Seq<char>)
    ensures
        validated_lang(lang) == "fr"@ || validated_lang(lang) == "en"@,
{
}

/// French is shown exactly when French is asked for.
pub proof fn law_lang_french_only_when_asked(lang: Seq<char>)
    ensures
        (validated_lang(lang) == "fr"@) <==> (lang == "fr"@),
{
    reveal_strlit("fr");
    reveal_strlit("en");
    assert("fr"@[0] != "en"@[0]);
}

/// Trimming keeps a stretch of the text and drops only white space before
/// and after it; the stretch kept neither starts nor ends with white space.
pub proof fn law_trim_removes_only_surrounding_space(s: Seq<char>)
    ensures
        exists|a: int, b: int|
            {
                &&& 0 <= a <= b <= s.len()
                &&& trimmed(s) == s.subrange(a, b)
                &&& forall|k: int| 0 <= k < a ==> is_white_space(#[trigger] s[k])
                &&& forall|k: int| b <= k < s.len() ==> is_white_space(#[trigger] s[k])
                &&& a < b ==> !is_white_space(s[a]) && !is_white_space(s[b - 1])
            },
{
    let a = first_kept(s, 0);
    let b = end_kept(s, s.len() as int);
    lemma_first_kept_bounds(s, 0);
    lemma_end_kept_bounds(s, s.len() as int);
    if a < b {
        assert(trimmed(s) == s.subrange(a, b));
    } else {
        assert(trimmed(s) =~= s.subrange(a, a));
        assert forall|k: int| a <= k < s.len() implies is_white_space(#[trigger] s[k]) by {
            assert(k >= b);
        }
    }
}

} // verus!
