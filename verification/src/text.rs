use vstd::prelude::*;
use core::cmp::Ordering;

verus! {

/// The number of a character, by which `char`s are ordered.
pub open spec fn code_of(c: char) -> u32 {
    c as u32
}

fn code_point(c: char) -> (res: u32)
    ensures
        res == code_of(c),
{
    c as u32
}

/// Whether text `a` comes before text `b`: character by character, by code
/// point, a proper prefix first. This is the byte order of their UTF-8
/// encodings, which is how `String` and `str` are ordered.
pub open spec fn text_less(a: Seq<char>, b: Seq<char>) -> bool
    decreases a.len(),
{
    if a.len() == 0 {
        b.len() > 0
    } else if b.len() == 0 {
        false
    } else if code_of(a[0]) < code_of(b[0]) {
        true
    } else if code_of(b[0]) < code_of(a[0]) {
        false
    } else {
        text_less(a.drop_first(), b.drop_first())
    }
}

/// The three-way order of two texts under `text_less`.
pub open spec fn text_order(a: Seq<char>, b: Seq<char>) -> Ordering {
    if a == b {
        Ordering::Equal
    } else if text_less(a, b) {
        Ordering::Less
    } else {
        Ordering::Greater
    }
}

/// Characters with the same number are the same character.
proof fn lemma_code_injective(x: char, y: char)
    requires
        code_of(x) == code_of(y),
    ensures
        x == y,
{
    assert((x as int) == (y as int));
}

/// No text comes before itself.
pub proof fn lemma_text_less_irreflexive(a: Seq<char>)
    ensures
        !text_less(a, a),
    decreases a.len(),
{
    if a.len() > 0 {
        lemma_text_less_irreflexive(a.drop_first());
    }
}

/// Of two different texts, exactly one comes first.
pub proof fn lemma_text_less_total(a: Seq<char>, b: Seq<char>)
    ensures
        a != b ==> (text_less(a, b) || text_less(b, a)),
        !(text_less(a, b) && text_less(b, a)),
    decreases a.len(),
{
    if a.len() > 0 && b.len() > 0 {
        lemma_text_less_total(a.drop_first(), b.drop_first());
        if code_of(a[0]) == code_of(b[0]) && a != b {
            lemma_code_injective(a[0], b[0]);
            if a.drop_first() == b.drop_first() {
                assert(a == seq![a[0]] + a.drop_first());
                assert(b == seq![b[0]] + b.drop_first());
            }
        }
    } else if a.len() == 0 && b.len() == 0 {
        assert(a == b);
    }
}

/// The order of texts is transitive.
pub proof fn lemma_text_less_transitive(a: Seq<char>, b: Seq<char>, c: Seq<char>)
    requires
        text_less(a, b),
        text_less(b, c),
    ensures
        text_less(a, c),
    decreases a.len(),
{
    if a.len() > 0 && b.len() > 0 && c.len() > 0 {
        if code_of(a[0]) == code_of(b[0]) && code_of(b[0]) == code_of(c[0]) {
            lemma_text_less_transitive(a.drop_first(), b.drop_first(), c.drop_first());
        }
    }
}

/// A character that comes before another has the smaller number.
proof fn lemma_code_monotone(x: char, y: char)
    requires
        x < y,
    ensures
        code_of(x) < code_of(y),
{
    assert((x as int) < (y as int));
}

/// Texts are ordered lexicographically by their characters, each character
/// by its code point, as `String::cmp` orders them: where two texts agree on
/// their first `k` characters, the one whose next character is smaller comes
/// first; a text that ends there comes before a longer one; and texts that
/// both end there are the same.
pub proof fn lemma_text_order_lexicographic(a: Seq<char>, b: Seq<char>, k: int)
    requires
        0 <= k <= a.len(),
        k <= b.len(),
        a.subrange(0, k) == b.subrange(0, k),
    ensures
        k < a.len() && k < b.len() && a[k] < b[k] ==> text_order(a, b) == Ordering::Less,
        k < a.len() && k < b.len() && b[k] < a[k] ==> text_order(a, b) == Ordering::Greater,
        k == a.len() && k < b.len() ==> text_order(a, b) == Ordering::Less,
        k < a.len() && k == b.len() ==> text_order(a, b) == Ordering::Greater,
        k == a.len() && k == b.len() ==> text_order(a, b) == Ordering::Equal,
{
    lemma_text_less_skip(a, b, k);
    lemma_text_less_skip(b, a, k);
    if k < a.len() && k < b.len() {
        assert(a.skip(k)[0] == a[k]);
        assert(b.skip(k)[0] == b[k]);
        if a[k] < b[k] {
            lemma_code_monotone(a[k], b[k]);
            assert(a[k] != b[k]);
        } else if b[k] < a[k] {
            lemma_code_monotone(b[k], a[k]);
            assert(a[k] != b[k]);
            lemma_text_less_total(a, b);
        }
    } else if k == a.len() && k < b.len() {
        assert(a.len() != b.len());
    } else if k < a.len() && k == b.len() {
        assert(a.len() != b.len());
        lemma_text_less_total(a, b);
    } else {
        assert(a == a.subrange(0, k));
        assert(b == b.subrange(0, k));
    }
}

/// Texts that agree on their first `i` characters compare as what follows.
proof fn lemma_text_less_skip(a: Seq<char>, b: Seq<char>, i: int)
    requires
        0 <= i <= a.len(),
        i <= b.len(),
        a.subrange(0, i) == b.subrange(0, i),
    ensures
        text_less(a, b) == text_less(a.skip(i), b.skip(i)),
    decreases i,
{
    if i > 0 {
        assert(a[0] == a.subrange(0, i)[0]);
        assert(b[0] == b.subrange(0, i)[0]);
        assert(a.drop_first().subrange(0, i - 1) == a.subrange(0, i).drop_first());
        assert(b.drop_first().subrange(0, i - 1) == b.subrange(0, i).drop_first());
        lemma_text_less_skip(a.drop_first(), b.drop_first(), i - 1);
        assert(a.drop_first().skip(i - 1) == a.skip(i));
        assert(b.drop_first().skip(i - 1) == b.skip(i));
    } else {
        assert(a.skip(0) == a);
        assert(b.skip(0) == b);
    }
}

/// Whether `a` comes before `b`, and whether they are the same text.
fn scan_texts(a: &str, b: &str) -> (res: (bool, bool))
    ensures
        res.0 == text_less(a@, b@),
        res.1 == (a@ == b@),
{
    let la = a.unicode_len();
    let lb = b.unicode_len();
    let mut i: usize = 0;
    while i < la && i < lb
        invariant
            la == a@.len(),
            lb == b@.len(),
            0 <= i <= la,
            i <= lb,
            a@.subrange(0, i as int) == b@.subrange(0, i as int),
        decreases la - i,
    {
        let ca = a.get_char(i);
        let cb = b.get_char(i);
        let na = code_point(ca);
        let nb = code_point(cb);
        if na != nb {
            proof {
                lemma_text_less_skip(a@, b@, i as int);
                assert(a@.skip(i as int)[0] == ca);
                assert(b@.skip(i as int)[0] == cb);
                assert(a@[i as int] != b@[i as int]);
            }
            return (na < nb, false);
        }
        proof {
            assert(a@.subrange(0, i + 1) == a@.subrange(0, i as int).push(ca));
            assert(b@.subrange(0, i + 1) == b@.subrange(0, i as int).push(cb));
        }
        i = i + 1;
    }
    proof {
        lemma_text_less_skip(a@, b@, i as int);
        if la == lb {
            assert(a@ == a@.subrange(0, i as int));
            assert(b@ == b@.subrange(0, i as int));
        }
    }
    (la < lb, la == lb)
}

/// Whether `s` can become a C string: it holds no NUL character.
pub open spec fn c_compatible(s: Seq<char>) -> bool {
    forall|i: int| 0 <= i < s.len() ==> s[i] != '\0'
}

/// A text can become a C string exactly when no character of it is NUL:
/// any other character, spaces among them, is accepted.
pub proof fn lemma_c_compatible_iff_no_nul(s: Seq<char>)
    ensures
        c_compatible(s) <==> !s.contains('\0'),
        c_compatible(s) ==> forall|t: Seq<char>| c_compatible(t) ==> #[trigger] c_compatible(s + t),
        c_compatible(seq![' ']),
{
    if c_compatible(s) {
        assert forall|t: Seq<char>| c_compatible(t) implies #[trigger] c_compatible(s + t) by {
            assert forall|i: int| 0 <= i < (s + t).len() implies (s + t)[i] != '\0' by {
                if i < s.len() {
                    assert((s + t)[i] == s[i]);
                } else {
                    assert((s + t)[i] == t[i - s.len()]);
                }
            }
        }
    } else {
        let i = choose|i: int| 0 <= i < s.len() && s[i] == '\0';
        assert(s.contains('\0'));
    }
}

/// Tests `c_compatible`: the test that `CString::new` makes before it
/// accepts a text.
pub fn is_c_compatible(s: &str) -> (res: bool)
    ensures
        res == c_compatible(s@),
        res <==> !s@.contains('\0'),
{
    let n = s.unicode_len();
    let mut i: usize = 0;
    while i < n
        invariant
            n == s@.len(),
            0 <= i <= n,
            forall|j: int| 0 <= j < i ==> s@[j] != '\0',
        decreases n - i,
    {
        if s.get_char(i) == '\0' {
            return false;
        }
        i = i + 1;
    }
    true
}

/// Orders two texts as `str::cmp` does.
pub fn compare_text(a: &str, b: &str) -> (res: Ordering)
    ensures
        res == text_order(a@, b@),
{
    let (less, same) = scan_texts(a, b);
    if same {
        Ordering::Equal
    } else if less {
        Ordering::Less
    } else {
        Ordering::Greater
    }
}

} // verus!
