//! Character-level helpers over `str` that the rest of the library states its
//! contracts with.
use vstd::prelude::*;
use vstd::string::*;

verus! {

/// Whether `a` orders strictly before `b`, comparing Unicode scalar values
/// left to right; a proper prefix orders first.
pub open spec fn chars_less(a: Seq<char>, b: Seq<char>) -> bool
    decreases a.len(),
{
    if b.len() == 0 {
        false
    } else if a.len() == 0 {
        true
    } else if a[0] != b[0] {
        (a[0] as u32) < (b[0] as u32)
    } else {
        chars_less(a.drop_first(), b.drop_first())
    }
}

/// No string orders before itself.
pub proof fn chars_less_irreflexive(a: Seq<char>)
    ensures
        !chars_less(a, a),
    decreases a.len(),
{
    if a.len() > 0 {
        chars_less_irreflexive(a.drop_first());
    }
}

/// Of two strings, at most one orders before the other.
pub proof fn chars_less_asymmetric(a: Seq<char>, b: Seq<char>)
    ensures
        chars_less(a, b) ==> !chars_less(b, a),
    decreases a.len(),
{
    if a.len() > 0 && b.len() > 0 && a[0] == b[0] {
        chars_less_asymmetric(a.drop_first(), b.drop_first());
    }
}

/// The order of strings is transitive.
pub proof fn chars_less_transitive(a: Seq<char>, b: Seq<char>, c: Seq<char>)
    ensures
        chars_less(a, b) && chars_less(b, c) ==> chars_less(a, c),
    decreases a.len(),
{
    if a.len() > 0 && b.len() > 0 && c.len() > 0 && a[0] == b[0] && b[0] == c[0] {
        chars_less_transitive(a.drop_first(), b.drop_first(), c.drop_first());
    }
}

/// Character-wise equality of two string slices.
pub fn str_eq(a: &str, b: &str) -> (r: bool)
    ensures
        r == (a@ == b@),
{
    let la = a.unicode_len();
    let lb = b.unicode_len();
    if la != lb {
        return false;
    }
    let mut i: usize = 0;
    while i < la
        invariant
            la == a@.len(),
            lb == b@.len(),
            la == lb,
            i <= la,
            forall|j: int| 0 <= j < i ==> a@[j] == b@[j],
        decreases la - i,
    {
        if a.get_char(i) != b.get_char(i) {
            return false;
        }
        i = i + 1;
    }
    assert(a@ =~= b@);
    true
}

/// Ordering of two string slices as `str`'s own `<` orders them: UTF-8 byte
/// order, which is the order of their Unicode scalar values.
pub fn str_less(a: &str, b: &str) -> (r: bool)
    ensures
        r == chars_less(a@, b@),
{
    let la = a.unicode_len();
    let lb = b.unicode_len();
    let mut i: usize = 0;
    assert(a@.skip(0) =~= a@);
    assert(b@.skip(0) =~= b@);
    while i < la && i < lb
        invariant
            la == a@.len(),
            lb == b@.len(),
            i <= la,
            i <= lb,
            forall|j: int| 0 <= j < i ==> a@[j] == b@[j],
            chars_less(a@, b@) == chars_less(a@.skip(i as int), b@.skip(i as int)),
        decreases la - i,
    {
        let ca = a.get_char(i);
        let cb = b.get_char(i);
        if ca != cb {
            assert(a@.skip(i as int)[0] == ca);
            assert(b@.skip(i as int)[0] == cb);
            return (ca as u32) < (cb as u32);
        }
        assert(a@.skip(i as int).drop_first() =~= a@.skip(i + 1));
        assert(b@.skip(i as int).drop_first() =~= b@.skip(i + 1));
        i = i + 1;
    }
    i < lb
}

/// Calls `String::push`, whose documentation promises that `c` is appended
/// to the end of `s`; the contract states exactly that.
#[verifier::external_body]
pub(crate) fn push_char(s: &mut String, c: char)
    ensures
        final(s)@ == old(s)@.push(c),
{
    s.push(c)
}

/// Whether `c` has the Unicode `White_Space` property, the whitespace that
/// `str::trim` removes: tab through carriage return, space, next line,
/// no-break space, ogham space mark, the spaces from en quad to hair space,
/// line and paragraph separators, narrow no-break space, medium mathematical
/// space and ideographic space.
pub open spec fn is_unicode_whitespace(c: char) -> bool {
    let n = c as u32;
    ||| 0x09 <= n <= 0x0d
    ||| n == 0x20
    ||| n == 0x85
    ||| n == 0xa0
    ||| n == 0x1680
    ||| 0x2000 <= n <= 0x200a
    ||| n == 0x2028
    ||| n == 0x2029
    ||| n == 0x202f
    ||| n == 0x205f
    ||| n == 0x3000
}

/// `s` without its leading whitespace.
pub open spec fn trim_start_spec(s: Seq<char>) -> Seq<char>
    decreases s.len(),
{
    if s.len() > 0 && is_unicode_whitespace(s[0]) {
        trim_start_spec(s.drop_first())
    } else {
        s
    }
}

/// `s` without its trailing whitespace.
pub open spec fn trim_end_spec(s: Seq<char>) -> Seq<char>
    decreases s.len(),
{
    if s.len() > 0 && is_unicode_whitespace(s.last()) {
        trim_end_spec(s.drop_last())
    } else {
        s
    }
}

/// The characters of `s` without its leading and trailing whitespace.
pub open spec fn trimmed(s: Seq<char>) -> Seq<char> {
    trim_end_spec(trim_start_spec(s))
}

/// Whether `c` is Unicode whitespace.
pub fn is_whitespace_char(c: char) -> (r: bool)
    ensures
        r == is_unicode_whitespace(c),
{
    let n = c as u32;
    (0x09 <= n && n <= 0x0d) || n == 0x20 || n == 0x85 || n == 0xa0 || n == 0x1680 || (0x2000 <= n && n
        <= 0x200a) || n == 0x2028 || n == 0x2029 || n == 0x202f || n == 0x205f || n == 0x3000
}

/// `s` without its leading and trailing Unicode whitespace, as an owned
/// string: what `str::trim` leaves of it.
pub fn trim_whitespace(s: &str) -> (r: String)
    ensures
        r@ == trimmed(s@),
{
    let n = s.unicode_len();
    let ghost t = s@;
    let mut i: usize = 0;
    assert(t.subrange(0, n as int) =~= t);
    while i < n && is_whitespace_char(s.get_char(i))
        invariant
            n == t.len(),
            t == s@,
            i <= n,
            trim_start_spec(t) == trim_start_spec(t.subrange(i as int, n as int)),
        decreases n - i,
    {
        assert(t.subrange(i as int, n as int).drop_first() =~= t.subrange(i + 1, n as int));
        i = i + 1;
    }
    assert(trim_start_spec(t) == t.subrange(i as int, n as int));
    let mut j: usize = n;
    while j > i && is_whitespace_char(s.get_char(j - 1))
        invariant
            n == t.len(),
            t == s@,
            i <= j <= n,
            trimmed(t) == trim_end_spec(t.subrange(i as int, j as int)),
        decreases j,
    {
        assert(t.subrange(i as int, j as int).drop_last() =~= t.subrange(i as int, j - 1));
        j = j - 1;
    }
    assert(trimmed(t) == t.subrange(i as int, j as int));
    let mut out = String::new();
    let mut k: usize = i;
    while k < j
        invariant
            n == t.len(),
            t == s@,
            i <= k <= j <= n,
            out@ == t.subrange(i as int, k as int),
        decreases j - k,
    {
        let c = s.get_char(k);
        push_char(&mut out, c);
        assert(t.subrange(i as int, k + 1) =~= t.subrange(i as int, k as int).push(c));
        k = k + 1;
    }
    out
}

/// Appends every character of `t` to `s`.
pub fn push_str(s: &mut String, t: &str)
    ensures
        final(s)@ == old(s)@ + t@,
{
    let n = t.unicode_len();
    let mut i: usize = 0;
    while i < n
        invariant
            n == t@.len(),
            i <= n,
            s@ == old(s)@ + t@.take(i as int),
        decreases n - i,
    {
        let c = t.get_char(i);
        push_char(s, c);
        assert(t@.take(i + 1) =~= t@.take(i as int).push(c));
        assert(s@ =~= old(s)@ + t@.take(i + 1));
        i = i + 1;
    }
    assert(t@.take(n as int) =~= t@);
}

/// The pieces of `s` between occurrences of `sep`, as `str::split` with a
/// character separator yields them: one more piece than separators, empty
/// pieces included.
pub open spec fn split_spec(s: Seq<char>, sep: char) -> Seq<Seq<char>>
    decreases s.len(),
{
    if s.len() == 0 {
        seq![Seq::empty()]
    } else {
        let rest = split_spec(s.drop_last(), sep);
        if s.last() == sep {
            rest.push(Seq::empty())
        } else {
            rest.update(rest.len() - 1, rest.last().push(s.last()))
        }
    }
}

/// Every split has at least one piece.
pub proof fn split_nonempty(s: Seq<char>, sep: char)
    ensures
        split_spec(s, sep).len() >= 1,
    decreases s.len(),
{
    if s.len() > 0 {
        split_nonempty(s.drop_last(), sep);
    }
}

/// The pieces of `s` between occurrences of `sep`.
pub fn split_on(s: &str, sep: char) -> (r: Vec<String>)
    ensures
        r@.map_values(|p: String| p@) == split_spec(s@, sep),
{
    let n = s.unicode_len();
    let mut pieces: Vec<String> = Vec::new();
    let mut current = String::new();
    let mut i: usize = 0;
    assert(s@.take(0) =~= Seq::<char>::empty());
    assert(pieces@.map_values(|p: String| p@).push(current@) =~= split_spec(s@.take(0), sep));
    while i < n
        invariant
            n == s@.len(),
            i <= n,
            pieces@.map_values(|p: String| p@).push(current@) == split_spec(s@.take(i as int), sep),
        decreases n - i,
    {
        let c = s.get_char(i);
        let ghost prefix = s@.take(i + 1);
        assert(prefix.drop_last() =~= s@.take(i as int));
        assert(prefix.last() == c);
        proof { split_nonempty(s@.take(i as int), sep); }
        if c == sep {
            let done = current;
            pieces.push(done);
            current = String::new();
            assert(pieces@.map_values(|p: String| p@).push(current@) =~= split_spec(prefix, sep));
        } else {
            let ghost before = pieces@.map_values(|p: String| p@).push(current@);
            push_char(&mut current, c);
            assert(pieces@.map_values(|p: String| p@).push(current@) =~= before.update(before.len() - 1,
                before.last().push(c)));
        }
        i = i + 1;
    }
    assert(s@.take(n as int) =~= s@);
    pieces.push(current);
    pieces
}

/// Byte-wise equality of two byte slices.
pub fn bytes_eq(a: &[u8], b: &[u8]) -> (r: bool)
    ensures
        r == (a@ == b@),
{
    if a.len() != b.len() {
        return false;
    }
    let mut i: usize = 0;
    while i < a.len()
        invariant
            a@.len() == b@.len(),
            i <= a@.len(),
            forall|j: int| 0 <= j < i ==> a@[j] == b@[j],
        decreases a@.len() - i,
    {
        if a[i] != b[i] {
            return false;
        }
        i = i + 1;
    }
    assert(a@ =~= b@);
    true
}

/// The characters of each name in `names`.
pub open spec fn names_view(names: Seq<&'static str>) -> Seq<Seq<char>> {
    names.map_values(|n: &'static str| n@)
}

/// The characters of each string in `s`.
pub open spec fn strings_view(s: Seq<String>) -> Seq<Seq<char>> {
    s.map_values(|x: String| x@)
}

/// Owned copies of `names`, in order.
pub fn owned_strings(names: &[&'static str]) -> (r: Vec<String>)
    ensures
        strings_view(r@) == names_view(names@),
{
    let mut out: Vec<String> = Vec::new();
    let mut i: usize = 0;
    while i < names.len()
        invariant
            i <= names@.len(),
            strings_view(out@) =~= names_view(names@.take(i as int)),
        decreases names@.len() - i,
    {
        let name: &str = names[i];
        let owned = name.to_owned();
        let ghost before = out@;
        out.push(owned);
        assert(names@.take(i + 1) =~= names@.take(i as int).push(names@[i as int]));
        assert(names_view(names@.take(i + 1)) =~= names_view(names@.take(i as int)).push(names@[i as int]@));
        assert(strings_view(out@) =~= strings_view(before).push(owned@));
        i = i + 1;
    }
    assert(names@.take(names@.len() as int) =~= names@);
    out
}

/// Whether `s` is one of `items`.
pub fn strings_contain(items: &Vec<String>, s: &str) -> (r: bool)
    ensures
        r == strings_view(items@).contains(s@),
{
    let mut i: usize = 0;
    while i < items.len()
        invariant
            i <= items@.len(),
            forall|j: int| 0 <= j < i ==> #[trigger] items@[j]@ != s@,
        decreases items@.len() - i,
    {
        if str_eq(items[i].as_str(), s) {
            assert(strings_view(items@)[i as int] == s@);
            return true;
        }
        i = i + 1;
    }
    assert forall|j: int| 0 <= j < strings_view(items@).len() implies strings_view(items@)[j] != s@ by {
        assert(strings_view(items@)[j] == items@[j]@);
    }
    false
}

/// Whether `s` is one of `names`.
pub fn names_contain(names: &[&'static str], s: &str) -> (r: bool)
    ensures
        r == names_view(names@).contains(s@),
{
    let mut i: usize = 0;
    while i < names.len()
        invariant
            i <= names@.len(),
            forall|j: int| 0 <= j < i ==> #[trigger] names@[j]@ != s@,
        decreases names@.len() - i,
    {
        let name: &str = names[i];
        if str_eq(name, s) {
            assert(names_view(names@)[i as int] == s@);
            return true;
        }
        i = i + 1;
    }
    assert forall|j: int| 0 <= j < names_view(names@).len() implies names_view(names@)[j] != s@ by {
        assert(names_view(names@)[j] == names@[j]@);
    }
    false
}


proof fn trim_start_drops_a_whitespace_prefix(s: Seq<char>)
    ensures
        exists|i: int| #![trigger s.subrange(i, s.len() as int)] 0 <= i <= s.len() && trim_start_spec(s) == s.subrange(i,
            s.len() as int) && (forall|k: int| 0 <= k < i ==> is_unicode_whitespace(#[trigger] s[k])) && (i < s.len()
            ==> !is_unicode_whitespace(s[i])),
    decreases s.len(),
{
    if s.len() > 0 && is_unicode_whitespace(s[0]) {
        let t = s.drop_first();
        trim_start_drops_a_whitespace_prefix(t);
        let i = choose|i: int| #![trigger t.subrange(i, t.len() as int)] 0 <= i <= t.len() && trim_start_spec(t)
            == t.subrange(i, t.len() as int) && (forall|k: int| 0 <= k < i ==> is_unicode_whitespace(#[trigger] t[k]))
            && (i < t.len() ==> !is_unicode_whitespace(t[i]));
        assert(t.subrange(i, t.len() as int) =~= s.subrange(i + 1, s.len() as int));
        assert forall|k: int| 0 <= k < i + 1 implies is_unicode_whitespace(#[trigger] s[k]) by {
            if k > 0 {
                assert(s[k] == t[k - 1]);
            }
        }
    } else {
        assert(s.subrange(0, s.len() as int) =~= s);
    }
}

proof fn trim_end_drops_a_whitespace_suffix(s: Seq<char>)
    ensures
        exists|j: int| #![trigger s.subrange(0, j)] 0 <= j <= s.len() && trim_end_spec(s) == s.subrange(0, j) && (
        forall|k: int| j <= k < s.len() ==> is_unicode_whitespace(#[trigger] s[k])) && (j > 0
            ==> !is_unicode_whitespace(s[j - 1])),
    decreases s.len(),
{
    if s.len() > 0 && is_unicode_whitespace(s.last()) {
        let t = s.drop_last();
        trim_end_drops_a_whitespace_suffix(t);
        let j = choose|j: int| #![trigger t.subrange(0, j)] 0 <= j <= t.len() && trim_end_spec(t) == t.subrange(0, j)
            && (forall|k: int| j <= k < t.len() ==> is_unicode_whitespace(#[trigger] t[k])) && (j > 0
            ==> !is_unicode_whitespace(t[j - 1]));
        assert(t.subrange(0, j) =~= s.subrange(0, j));
        assert forall|k: int| j <= k < s.len() implies is_unicode_whitespace(#[trigger] s[k]) by {
            if k < t.len() {
                assert(s[k] == t[k]);
            }
        }
    } else {
        assert(s.subrange(0, s.len() as int) =~= s);
    }
}

/// Trimming removes whitespace at both ends and nothing else: the result is
/// a contiguous part of the input, everything before and after it is
/// whitespace, and, unless it is empty, it neither starts nor ends with
/// whitespace. Trimming again changes nothing.
pub proof fn trimming_removes_only_surrounding_whitespace(s: Seq<char>)
    ensures
        exists|i: int, j: int| #![trigger s.subrange(i, j)] 0 <= i <= j <= s.len() && trimmed(s) == s.subrange(i, j)
            && (forall|k: int| 0 <= k < i ==> is_unicode_whitespace(#[trigger] s[k])) && (forall|k: int| j <= k
            < s.len() ==> is_unicode_whitespace(#[trigger] s[k])),
        trimmed(s).len() > 0 ==> !is_unicode_whitespace(trimmed(s)[0]) && !is_unicode_whitespace(trimmed(s).last()),
        trimmed(trimmed(s)) == trimmed(s),
{
    trim_start_drops_a_whitespace_prefix(s);
    let a = trim_start_spec(s);
    let i = choose|i: int| #![trigger s.subrange(i, s.len() as int)] 0 <= i <= s.len() && trim_start_spec(s)
        == s.subrange(i, s.len() as int) && (forall|k: int| 0 <= k < i ==> is_unicode_whitespace(#[trigger] s[k])) && (i
        < s.len() ==> !is_unicode_whitespace(s[i]));
    trim_end_drops_a_whitespace_suffix(a);
    let j = choose|j: int| #![trigger a.subrange(0, j)] 0 <= j <= a.len() && trim_end_spec(a) == a.subrange(0, j) && (
    forall|k: int| j <= k < a.len() ==> is_unicode_whitespace(#[trigger] a[k])) && (j > 0 ==> !is_unicode_whitespace(
        a[j - 1]));
    let t = trimmed(s);
    assert(t == a.subrange(0, j));
    assert(a.subrange(0, j) =~= s.subrange(i, i + j));
    assert forall|k: int| i + j <= k < s.len() implies is_unicode_whitespace(#[trigger] s[k]) by {
        assert(s[k] == a[k - i]);
    }
    if t.len() > 0 {
        assert(t[0] == s[i]);
        assert(t.last() == a[j - 1]);
    }
    trim_start_drops_a_whitespace_prefix(t);
    if t.len() > 0 {
        assert(trim_start_spec(t) == t) by {
            assert(!is_unicode_whitespace(t[0]));
        }
        assert(trim_end_spec(t) == t) by {
            assert(!is_unicode_whitespace(t.last()));
        }
    } else {
        assert(trim_start_spec(t) == t);
        assert(trim_end_spec(t) == t);
    }
}

} // verus!
