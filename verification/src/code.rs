//! Random codes used to tell copies of a creature apart.

use vstd::prelude::*;
use rand::Rng;

verus! {

/// Longest code `generate_unique_code` hands out, dashes left aside.
pub const MAX_CODE_CHARACTERS: usize = 64;

/// Letters and digits of ASCII: the characters a random code is drawn from.
pub open spec fn is_ascii_alphanumeric(c: char) -> bool {
    ||| ('A' <= c && c <= 'Z')
    ||| ('a' <= c && c <= 'z')
    ||| ('0' <= c && c <= '9')
}

/// How many dashes `insert_dashes` puts into a code of `n` characters: one
/// before every position that is a multiple of four, from 4 up to, but not
/// including, `n + n / 4`.
pub open spec fn dash_count(n: int) -> int {
    let l = n + n / 4;
    if l <= 4 {
        0
    } else {
        (l - 1) / 4
    }
}

/// Character `j` of `code` once its dashes are in: a dash at positions 4, 8,
/// ... while dashes remain, the next character of the code elsewhere.
pub open spec fn dashed_char(code: Seq<char>, j: int) -> char {
    let k = dash_count(code.len() as int);
    if j % 4 == 0 && 1 <= j / 4 <= k {
        '-'
    } else if j / 4 <= k {
        code[j - j / 4]
    } else {
        code[j - k]
    }
}

/// `code` with its dashes in.
pub open spec fn dashed(code: Seq<char>) -> Seq<char> {
    Seq::new((code.len() + dash_count(code.len() as int)) as nat, |j: int| dashed_char(code, j))
}

/// The characters of `code` that are not dashes, in order.
pub open spec fn without_dashes(code: Seq<char>) -> Seq<char> {
    code.filter(|c: char| c != '-')
}

/// Number of characters of a code asked for with `characters`.
pub open spec fn code_length(characters: int) -> int {
    if characters > 64 {
        64
    } else {
        characters
    }
}

/// Whether `r` is a code that `generate_unique_code(characters, dashes)` can
/// hand out: random letters and digits, as many as asked for up to 64, with
/// dashes put in when asked.
pub open spec fn is_unique_code(r: Seq<char>, characters: int, dashes: bool) -> bool {
    exists|raw: Seq<char>|
        {
            &&& raw.len() == code_length(characters)
            &&& forall|i: int| 0 <= i < raw.len() ==> is_ascii_alphanumeric(#[trigger] raw[i])
            &&& r == (if dashes {
                dashed(raw)
            } else {
                raw
            })
        }
}

/// Dashes inserted so far when the loop of `insert_dashes` reaches `i`.
spec fn dashes_before(i: int) -> int {
    if i <= 4 {
        0
    } else {
        (i - 1) / 4
    }
}

proof fn lemma_insert_fits(n: int, i: int)
    requires
        n >= 0,
        i % 4 == 0,
        4 < i + 1,
        i < n + n / 4,
    ensures
        i <= n + dashes_before(i),
{
    assert(i <= n + dashes_before(i)) by (nonlinear_arith)
        requires
            n >= 0,
            i % 4 == 0,
            4 <= i,
            i < n + n / 4,
            dashes_before(i) == (i - 1) / 4,
    ;
}

/// The characters of `s`.
fn chars_of(s: &str) -> (v: Vec<char>)
    ensures
        v@ == s@,
{
    let n = s.unicode_len();
    let mut v: Vec<char> = Vec::new();
    let mut i: usize = 0;
    while i < n
        invariant
            n == s@.len(),
            i <= n,
            v@ == s@.subrange(0, i as int),
        decreases n - i,
    {
        v.push(s.get_char(i));
        i = i + 1;
    }
    v
}

/// Builds a `String` from its characters (`FromIterator<&char>` of std).
#[verifier::external_body]
fn string_from_chars(v: &[char]) -> (s: String)
    ensures
        s@ == v@,
{
    v.iter().collect()
}

/// Puts a dash into `code` at every position `i` below `n + n / 4` (where
/// `n` is the length of `code`) with `i > 2` and `i % 4 == 0`, one position
/// after the other, as `generate_unique_code` does.
pub fn insert_dashes(code: &str) -> (r: String)
    requires
        code@.len() + code@.len() / 4 <= usize::MAX,
    ensures
        r@ == dashed(code@),
{
    let mut v = chars_of(code);
    let n = v.len();
    let bound = n + n / 4;
    let ghost s = code@;
    let mut i: usize = 0;
    while i < bound
        invariant
            s == code@,
            n == s.len(),
            bound == n + n / 4,
            i <= bound,
            v@.len() == n + dashes_before(i as int),
            i <= v@.len(),
            forall|j: int|
                0 <= j < i ==> #[trigger] v@[j] == (if j % 4 == 0 && j >= 4 {
                    '-'
                } else {
                    s[j - j / 4]
                }),
            forall|j: int| i <= j < v@.len() ==> #[trigger] v@[j] == s[j - dashes_before(i as int)],
        decreases bound - i,
    {
        if i > 2 && i % 4 == 0 {
            proof {
                lemma_insert_fits(n as int, i as int);
            }
            v.insert(i, '-');
            assert(dashes_before(i + 1) == dashes_before(i as int) + 1);
        } else {
            assert(dashes_before(i + 1) == dashes_before(i as int));
        }
        i = i + 1;
    }
    proof {
        let k = dash_count(n as int);
        assert(k == dashes_before(bound as int));
        assert forall|j: int| 0 <= j < v@.len() implies v@[j] == dashed_char(s, j) by {
            if j < bound {
                assert(j / 4 <= k);
            } else {
                assert(j / 4 >= k);
            }
        }
        assert(v@ =~= dashed(s));
    }
    string_from_chars(v.as_slice())
}

/// Calls `rand::thread_rng().sample_iter(&Alphanumeric)` for `n` characters.
/// The source of `Alphanumeric` draws each byte from `A-Z`, `a-z` and `0-9`;
/// which characters come out is left to chance, so the contract states only
/// the length and the alphabet.
#[verifier::external_body]
fn random_alphanumeric(n: usize) -> (s: String)
    ensures
        s@.len() == n,
        forall|i: int| 0 <= i < s@.len() ==> is_ascii_alphanumeric(#[trigger] s@[i]),
{
    rand::thread_rng().sample_iter(&rand::distributions::Alphanumeric).take(n).map(char::from).collect()
}

/// Finishes a code from its random characters: dashes are put in when
/// `dashes` is set, the characters are handed back unchanged otherwise.
pub fn format_unique_code(raw: String, dashes: bool) -> (r: String)
    requires
        raw@.len() + raw@.len() / 4 <= usize::MAX,
    ensures
        r@ == (if dashes {
            dashed(raw@)
        } else {
            raw@
        }),
{
    if dashes {
        insert_dashes(raw.as_str())
    } else {
        raw
    }
}

/// A random code of `characters` letters and digits (at most 64), with a
/// dash before positions 4, 8, ... when `dashes` is set.
pub fn generate_unique_code(characters: usize, dashes: bool) -> (r: String)
    ensures
        is_unique_code(r@, characters as int, dashes),
        r@.len() == (if characters > 64 {
            64
        } else {
            characters as int
        }) + (if dashes {
            dash_count(if characters > 64 {
                64
            } else {
                characters as int
            })
        } else {
            0
        }),
{
    let length = if characters > MAX_CODE_CHARACTERS {
        MAX_CODE_CHARACTERS
    } else {
        characters
    };
    let raw = random_alphanumeric(length);
    let ghost raw_chars = raw@;
    let r = format_unique_code(raw, dashes);
    assert(raw_chars.len() == code_length(characters as int));
    assert(forall|i: int|
        0 <= i < raw_chars.len() ==> is_ascii_alphanumeric(#[trigger] raw_chars[i]));
    r
}

/// Dashes among the first `j` characters of a dashed code with `k` dashes.
spec fn dashes_in_prefix(j: int, k: int) -> int {
    if j <= 0 {
        0
    } else if (j - 1) / 4 < k {
        (j - 1) / 4
    } else {
        k
    }
}

proof fn lemma_dash_count_room(n: int)
    requires
        n >= 0,
    ensures
        dash_count(n) >= 0,
        dash_count(n) >= 1 ==> 3 * dash_count(n) + 1 <= n,
        4 * dash_count(n) <= n + n / 4 - 1 || dash_count(n) == 0,
{
    let k = dash_count(n);
    if n + n / 4 > 4 {
        assert(3 * k + 1 <= n && 4 * k <= n + n / 4 - 1) by (nonlinear_arith)
            requires
                n >= 0,
                n + n / 4 > 4,
                k == (n + n / 4 - 1) / 4,
        ;
    }
}

proof fn lemma_undashed_prefix(code: Seq<char>, j: int)
    requires
        forall|i: int| 0 <= i < code.len() ==> #[trigger] code[i] != '-',
        0 <= j <= code.len() + dash_count(code.len() as int),
    ensures
        0 <= j - dashes_in_prefix(j, dash_count(code.len() as int)) <= code.len(),
        without_dashes(dashed(code).take(j)) == code.take(j - dashes_in_prefix(j, dash_count(code.len() as int))),
    decreases j,
{
    let n = code.len() as int;
    let k = dash_count(n);
    let d = dashed(code);
    lemma_dash_count_room(n);
    if j == 0 {
        reveal_with_fuel(Seq::filter, 1);
        assert(d.take(0) =~= Seq::<char>::empty());
        assert(code.take(0) =~= Seq::<char>::empty());
    } else {
        lemma_undashed_prefix(code, j - 1);
        let c0 = dashes_in_prefix(j - 1, k);
        let c1 = dashes_in_prefix(j, k);
        assert(d.take(j).drop_last() =~= d.take(j - 1));
        assert(d.take(j).last() == d[j - 1]);
        reveal_with_fuel(Seq::filter, 1);
        assert(j - c1 <= n) by (nonlinear_arith)
            requires
                j <= n + k,
                k >= 0,
                k >= 1 ==> 3 * k + 1 <= n,
                c1 == (if (j - 1) / 4 < k { (j - 1) / 4 } else { k }),
                j >= 1,
        ;
        if (j - 1) % 4 == 0 && 1 <= (j - 1) / 4 <= k {
            assert(d[j - 1] == '-');
            assert(c1 == c0 + 1);
        } else {
            assert(c1 == c0);
            assert(j - 1 - c0 < n);
            assert(d[j - 1] == code[j - 1 - c0]);
            assert(code.take(j - c1) =~= code.take(j - 1 - c0).push(code[j - 1 - c0]));
        }
    }
}

/// Taking the dashes out of a dashed code gives the code back, for codes
/// that hold no dash themselves (such as the letters and digits that
/// `generate_unique_code` draws).
pub proof fn law_dashes_come_out(code: Seq<char>)
    requires
        forall|i: int| 0 <= i < code.len() ==> #[trigger] code[i] != '-',
    ensures
        without_dashes(dashed(code)) == code,
{
    let n = code.len() as int;
    let k = dash_count(n);
    lemma_dash_count_room(n);
    lemma_undashed_prefix(code, n + k);
    assert(dashed(code).take(n + k) =~= dashed(code));
    assert(dashes_in_prefix(n + k, k) == k) by (nonlinear_arith)
        requires
            n >= 0,
            k >= 0,
            k >= 1 ==> 3 * k + 1 <= n,
            dashes_in_prefix(n + k, k) == (if n + k <= 0 { 0 } else if (n + k - 1) / 4 < k { (n + k - 1) / 4 } else { k }),
    ;
    assert(code.take(n) =~= code);
}

/// In a dashed code, the character at every fourth position from 4 on is a
/// dash, up to the number of dashes put in; the code's length grows by
/// that number.
pub proof fn law_dash_positions(code: Seq<char>, m: int)
    requires
        1 <= m <= dash_count(code.len() as int),
    ensures
        dashed(code).len() == code.len() + dash_count(code.len() as int),
        4 * m < dashed(code).len(),
        dashed(code)[4 * m] == '-',
{
    let n = code.len() as int;
    lemma_dash_count_room(n);
    assert((4 * m) % 4 == 0 && (4 * m) / 4 == m);
}

/// A code holds as many characters as asked for, 64 at most, plus its
/// dashes when they were asked for; without dashes it is letters and digits
/// only.
pub proof fn law_unique_code_shape(r: Seq<char>, characters: int, dashes: bool)
    requires
        characters >= 0,
        is_unique_code(r, characters, dashes),
    ensures
        r.len() == code_length(characters) + (if dashes {
            dash_count(code_length(characters))
        } else {
            0
        }),
        !dashes ==> forall|i: int| 0 <= i < r.len() ==> is_ascii_alphanumeric(#[trigger] r[i]),
        0 <= code_length(characters) <= 64,
{
    let raw = choose|raw: Seq<char>|
        {
            &&& raw.len() == code_length(characters)
            &&& forall|i: int| 0 <= i < raw.len() ==> is_ascii_alphanumeric(#[trigger] raw[i])
            &&& r == (if dashes {
                dashed(raw)
            } else {
                raw
            })
        };
}

/// A code asked for with up to 64 characters has exactly that many; a
/// longer request gets 64.
pub proof fn law_code_length_exact(characters: int)
    ensures
        0 <= characters <= 64 ==> code_length(characters) == characters,
        characters > 64 ==> code_length(characters) == 64,
{
}

} // verus!
