//! Small verified string toolkit: the rest of the crate states its contracts
//! over `Seq<char>` views, and these functions bridge executable `String` /
//! `&str` values to those views. The persisted-record format, the settings
//! lines and the console command line are all separator-delimited text, so
//! splitting and joining on a separator carry most of the weight here.

use vstd::prelude::*;
use vstd::string::StrSliceExecFns;
use vstd::string::StringExecFns;

verus! {

/// Character-wise equality of two string slices.
pub fn str_eq(a: &str, b: &str) -> (r: bool)
    ensures
        r == (a@ == b@),
{
    let alen = a.unicode_len();
    let blen = b.unicode_len();
    if alen != blen {
        return false;
    }
    let mut i: usize = 0;
    while i < alen
        invariant
            alen == a@.len(),
            alen == b@.len(),
            i <= alen,
            forall|j: int| 0 <= j < i ==> a@[j] == b@[j],
        decreases alen - i,
    {
        if a.get_char(i) != b.get_char(i) {
            return false;
        }
        i += 1;
    }
    proof {
        assert(a@ =~= b@);
    }
    true
}

/// The segments of `s` between occurrences of the separator `sep`.
/// There is always at least one segment; `n` separators yield `n + 1`
/// segments, and empty segments are kept.
pub open spec fn split_at_sep(s: Seq<char>, sep: char) -> Seq<Seq<char>>
    decreases s.len(),
{
    if s.len() == 0 {
        seq![Seq::<char>::empty()]
    } else if s.last() == sep {
        split_at_sep(s.drop_last(), sep).push(Seq::<char>::empty())
    } else {
        let r = split_at_sep(s.drop_last(), sep);
        r.update(r.len() - 1, r.last().push(s.last()))
    }
}

pub proof fn lemma_split_at_sep_len(s: Seq<char>, sep: char)
    ensures
        split_at_sep(s, sep).len() >= 1,
    decreases s.len(),
{
    if s.len() > 0 {
        lemma_split_at_sep_len(s.drop_last(), sep);
    }
}

/// A string free of the separator splits into exactly itself.
pub proof fn lemma_split_no_sep(s: Seq<char>, sep: char)
    requires
        forall|i: int| 0 <= i < s.len() ==> s[i] != sep,
    ensures
        split_at_sep(s, sep) == seq![s],
    decreases s.len(),
{
    if s.len() == 0 {
        assert(split_at_sep(s, sep) =~~= seq![s]);
    } else {
        assert(s.last() != sep);
        lemma_split_no_sep(s.drop_last(), sep);
        assert(s.drop_last().push(s.last()) =~= s);
        assert(split_at_sep(s, sep) =~~= seq![s]);
    }
}

/// Splitting distributes over a separator-joined concatenation.
pub proof fn lemma_split_append(a: Seq<char>, b: Seq<char>, sep: char)
    ensures
        split_at_sep(a + seq![sep] + b, sep) == split_at_sep(a, sep) + split_at_sep(b, sep),
    decreases b.len(),
{
    if b.len() == 0 {
        let s = a + seq![sep] + b;
        assert(s =~= a.push(sep));
        assert(s.len() > 0 && s.last() == sep);
        assert(s.drop_last() =~= a);
        assert(split_at_sep(s, sep) =~~= split_at_sep(a, sep) + split_at_sep(b, sep));
    } else {
        let t = b.drop_last();
        let c = b.last();
        let s = a + seq![sep] + b;
        lemma_split_append(a, t, sep);
        assert(s.len() > 0 && s.last() == c);
        assert(s.drop_last() =~= a + seq![sep] + t);
        if c == sep {
            assert(split_at_sep(s, sep) =~~= split_at_sep(a, sep) + split_at_sep(b, sep));
        } else {
            lemma_split_at_sep_len(t, sep);
            lemma_split_at_sep_len(a, sep);
            assert(split_at_sep(s, sep) =~~= split_at_sep(a, sep) + split_at_sep(b, sep));
        }
    }
}

/// Splits `s` at every occurrence of `sep`.
pub fn split_str(s: &str, sep: char) -> (r: Vec<String>)
    ensures
        r@.len() == split_at_sep(s@, sep).len(),
        forall|i: int| 0 <= i < r@.len() ==> r@[i]@ == split_at_sep(s@, sep)[i],
{
    let len = s.unicode_len();
    let mut done: Vec<String> = Vec::new();
    let mut cur: String = String::new();
    let mut i: usize = 0;
    while i < len
        invariant
            len == s@.len(),
            i <= len,
            done@.map_values(|x: String| x@).push(cur@) == split_at_sep(s@.take(i as int), sep),
        decreases len - i,
    {
        let ghost pre = s@.take(i as int);
        let c = s.get_char(i);
        proof {
            assert(s@.take(i + 1).drop_last() =~= pre);
            assert(s@.take(i + 1).last() == c);
        }
        if c == sep {
            done.push(cur);
            cur = String::new();
            proof {
                assert(done@.map_values(|x: String| x@).push(cur@) =~~= split_at_sep(
                    s@.take(i + 1),
                    sep,
                ));
            }
        } else {
            let piece = s.substring_char(i, i + 1);
            proof {
                assert(piece@ =~= seq![c]);
            }
            cur.append(piece);
            proof {
                let old_split = split_at_sep(pre, sep);
                assert(old_split.last() =~= cur@.drop_last());
                assert(done@.map_values(|x: String| x@).push(cur@) =~~= split_at_sep(
                    s@.take(i + 1),
                    sep,
                ));
            }
        }
        i += 1;
    }
    proof {
        assert(s@.take(len as int) =~= s@);
    }
    done.push(cur);
    proof {
        assert(done@.map_values(|x: String| x@) =~= split_at_sep(s@, sep));
    }
    done
}

/// Whether `n` occurs in `h` as a contiguous substring.
pub open spec fn has_substring(h: Seq<char>, n: Seq<char>) -> bool {
    exists|i: int| 0 <= i <= h.len() - n.len() && #[trigger] h.subrange(i, i + n.len()) == n
}

/// Substring search, the workhorse behind every `contains` decision made
/// on names, tokens and settings values.
pub fn contains_sub(hay: &str, needle: &str) -> (r: bool)
    ensures
        r == has_substring(hay@, needle@),
{
    let hlen = hay.unicode_len();
    let nlen = needle.unicode_len();
    if nlen > hlen {
        return false;
    }
    let mut i: usize = 0;
    while i <= hlen - nlen
        invariant
            hlen == hay@.len(),
            nlen == needle@.len(),
            nlen <= hlen,
            i <= hlen - nlen + 1,
            forall|k: int| 0 <= k < i ==> #[trigger] hay@.subrange(k, k + nlen as int)
                != needle@,
        decreases hlen - nlen + 1 - i,
    {
        let mut j: usize = 0;
        let mut matched = true;
        while j < nlen && matched
            invariant
                hlen == hay@.len(),
                nlen == needle@.len(),
                i + nlen <= hlen,
                j <= nlen,
                matched ==> forall|m: int| 0 <= m < j ==> hay@[i + m] == needle@[m],
                !matched ==> nlen > 0 && hay@.subrange(i as int, i + nlen as int) != needle@,
            decreases nlen + 1 - j - (if matched { 0int } else { 1int }),
        {
            if hay.get_char(i + j) != needle.get_char(j) {
                matched = false;
                proof {
                    assert(hay@.subrange(i as int, i + nlen as int)[j as int] != needle@[
                        j as int
                    ]);
                }
            } else {
                j += 1;
            }
        }
        if matched {
            proof {
                assert forall|m: int| 0 <= m < nlen implies hay@.subrange(
                    i as int,
                    i + nlen as int,
                )[m] == needle@[m] by {}
                assert(hay@.subrange(i as int, i + nlen as int) =~= needle@);
            }
            return true;
        }
        i += 1;
    }
    proof {
        assert forall|k: int| 0 <= k <= hay@.len() - needle@.len() implies #[trigger] hay@
            .subrange(k, k + needle@.len() as int) != needle@ by {
            assert(k < i);
        }
    }
    false
}

/// Whether the character `c` occurs in `s`.
pub fn contains_char(s: &str, c: char) -> (r: bool)
    ensures
        r == s@.contains(c),
{
    let len = s.unicode_len();
    let mut i: usize = 0;
    while i < len
        invariant
            len == s@.len(),
            i <= len,
            forall|j: int| 0 <= j < i ==> s@[j] != c,
        decreases len - i,
    {
        if s.get_char(i) == c {
            return true;
        }
        i += 1;
    }
    false
}

/// `n` copies of one character.
pub open spec fn char_fill(c: char, n: nat) -> Seq<char> {
    Seq::new(n, |i: int| c)
}

/// A run of `n` spaces.
pub fn spaces(n: usize) -> (r: String)
    ensures
        r@ == char_fill(' ', n as nat),
{
    let mut s = String::new();
    let mut i: usize = 0;
    while i < n
        invariant
            i <= n,
            s@ =~= char_fill(' ', i as nat),
        decreases n - i,
    {
        proof {
            reveal_strlit(" ");
        }
        s.append(" ");
        i += 1;
        proof {
            assert(s@ =~= char_fill(' ', i as nat));
        }
    }
    s
}

/// A run of `n` dashes.
pub fn dashes(n: usize) -> (r: String)
    ensures
        r@ == char_fill('-', n as nat),
{
    let mut s = String::new();
    let mut i: usize = 0;
    while i < n
        invariant
            i <= n,
            s@ =~= char_fill('-', i as nat),
        decreases n - i,
    {
        proof {
            reveal_strlit("-");
        }
        s.append("-");
        i += 1;
        proof {
            assert(s@ =~= char_fill('-', i as nat));
        }
    }
    s
}

/// The character for one decimal digit.
pub open spec fn dec_digit(d: nat) -> char {
    if d == 0 { '0' }
    else if d == 1 { '1' }
    else if d == 2 { '2' }
    else if d == 3 { '3' }
    else if d == 4 { '4' }
    else if d == 5 { '5' }
    else if d == 6 { '6' }
    else if d == 7 { '7' }
    else if d == 8 { '8' }
    else { '9' }
}

/// The usual decimal rendering of `n`, most significant digit first and
/// without leading zeros (except for `n == 0` itself).
pub open spec fn dec_rep(n: nat) -> Seq<char>
    decreases n,
{
    if n < 10 {
        seq![dec_digit(n)]
    } else {
        dec_rep(n / 10).push(dec_digit(n % 10))
    }
}

fn digit_str(d: usize) -> (r: &'static str)
    requires
        d < 10,
    ensures
        r@ == seq![dec_digit(d as nat)],
{
    proof {
        reveal_strlit("0");
        reveal_strlit("1");
        reveal_strlit("2");
        reveal_strlit("3");
        reveal_strlit("4");
        reveal_strlit("5");
        reveal_strlit("6");
        reveal_strlit("7");
        reveal_strlit("8");
        reveal_strlit("9");
    }
    let r = if d == 0 { "0" }
    else if d == 1 { "1" }
    else if d == 2 { "2" }
    else if d == 3 { "3" }
    else if d == 4 { "4" }
    else if d == 5 { "5" }
    else if d == 6 { "6" }
    else if d == 7 { "7" }
    else if d == 8 { "8" }
    else { "9" };
    proof {
        assert(r@ =~= seq![dec_digit(d as nat)]);
    }
    r
}

/// Renders `n` in decimal.
pub fn usize_to_string(n: usize) -> (r: String)
    ensures
        r@ == dec_rep(n as nat),
    decreases n,
{
    if n < 10 {
        digit_str(n).to_owned()
    } else {
        let mut s = usize_to_string(n / 10);
        s.append(digit_str(n % 10));
        proof {
            assert(s@ =~= dec_rep(n as nat));
        }
        s
    }
}

/// Whether `c` is a decimal digit.
pub open spec fn is_dec_digit(c: char) -> bool {
    c == '0' || c == '1' || c == '2' || c == '3' || c == '4' || c == '5' || c == '6' || c == '7'
        || c == '8' || c == '9'
}

/// The value of a decimal digit character; unspecified garbage on others.
pub open spec fn digit_val(c: char) -> nat {
    if c == '0' { 0 }
    else if c == '1' { 1 }
    else if c == '2' { 2 }
    else if c == '3' { 3 }
    else if c == '4' { 4 }
    else if c == '5' { 5 }
    else if c == '6' { 6 }
    else if c == '7' { 7 }
    else if c == '8' { 8 }
    else { 9 }
}

pub open spec fn all_dec_digits(s: Seq<char>) -> bool {
    forall|i: int| 0 <= i < s.len() ==> is_dec_digit(#[trigger] s[i])
}

/// The number a digit string denotes.
pub open spec fn dec_val(s: Seq<char>) -> nat
    decreases s.len(),
{
    if s.len() == 0 {
        0
    } else {
        dec_val(s.drop_last()) * 10 + digit_val(s.last())
    }
}

/// A longer digit prefix never denotes a smaller number.
proof fn lemma_dec_val_prefix(s: Seq<char>, i: int)
    requires
        0 <= i <= s.len(),
    ensures
        dec_val(s.take(i)) <= dec_val(s),
    decreases s.len() - i,
{
    if i < s.len() {
        lemma_dec_val_prefix(s, i + 1);
        assert(s.take(i + 1).drop_last() =~= s.take(i));
        assert(dec_val(s.take(i + 1)) == dec_val(s.take(i)) * 10 + digit_val(s[i]));
    } else {
        assert(s.take(i) =~= s);
    }
}

fn digit_of(c: char) -> (r: Option<usize>)
    ensures
        r is Some <==> is_dec_digit(c),
        r is Some ==> r->0 as nat == digit_val(c) && r->0 < 10,
{
    match c {
        '0' => Some(0),
        '1' => Some(1),
        '2' => Some(2),
        '3' => Some(3),
        '4' => Some(4),
        '5' => Some(5),
        '6' => Some(6),
        '7' => Some(7),
        '8' => Some(8),
        '9' => Some(9),
        _ => None,
    }
}

/// Reads a non-empty, all-digit string as a number; anything else, and any
/// value past `usize::MAX`, is rejected.
pub fn parse_usize(s: &str) -> (r: Option<usize>)
    ensures
        r is Some <==> s@.len() > 0 && all_dec_digits(s@) && dec_val(s@) <= usize::MAX as nat,
        r is Some ==> r->0 as nat == dec_val(s@),
{
    let len = s.unicode_len();
    if len == 0 {
        return None;
    }
    let mut acc: usize = 0;
    let mut i: usize = 0;
    while i < len
        invariant
            len == s@.len(),
            0 < len,
            i <= len,
            all_dec_digits(s@.take(i as int)),
            acc as nat == dec_val(s@.take(i as int)),
        decreases len - i,
    {
        let c = s.get_char(i);
        let d = match digit_of(c) {
            Some(d) => d,
            None => {
                proof {
                    assert(!is_dec_digit(s@[i as int]));
                }
                return None;
            },
        };
        if acc > usize::MAX / 10 || (acc == usize::MAX / 10 && d > usize::MAX % 10) {
            proof {
                assert(s@.take(i + 1).drop_last() =~= s@.take(i as int));
                assert(dec_val(s@.take(i + 1)) == acc as nat * 10 + d as nat);
                assert(dec_val(s@.take(i + 1)) > usize::MAX as nat) by {
                    assert(acc as nat * 10 + d as nat > usize::MAX as nat) by (nonlinear_arith)
                        requires
                            acc > usize::MAX / 10 || (acc == usize::MAX / 10 && d > usize::MAX
                                % 10),
                            d < 10,
                    ;
                }
                lemma_dec_val_prefix(s@, i + 1);
            }
            return None;
        }
        proof {
            assert(acc as nat * 10 + d as nat <= usize::MAX as nat) by (nonlinear_arith)
                requires
                    acc <= usize::MAX / 10,
                    acc == usize::MAX / 10 ==> d <= usize::MAX % 10,
                    d < 10,
            ;
            assert(s@.take(i + 1).drop_last() =~= s@.take(i as int));
        }
        acc = acc * 10 + d;
        i += 1;
    }
    proof {
        assert(s@.take(len as int) =~= s@);
    }
    Some(acc)
}

/// Joins two path components with a slash.
pub fn path_join(a: &str, b: &str) -> (r: String)
    ensures
        r@ == a@ + seq!['/'] + b@,
{
    proof {
        reveal_strlit("/");
    }
    let mut s = a.to_owned();
    s.append("/");
    s.append(b);
    proof {
        assert(s@ =~= a@ + seq!['/'] + b@);
    }
    s
}

/// The index of the last occurrence of `c` in `s`, or `-1` if it is absent.
pub open spec fn last_index_of(s: Seq<char>, c: char) -> int
    decreases s.len(),
{
    if s.len() == 0 {
        -1
    } else if s.last() == c {
        s.len() - 1
    } else {
        last_index_of(s.drop_last(), c)
    }
}

/// Everything before the last slash, or empty for a slash-free path.
pub open spec fn parent_dir_spec(p: Seq<char>) -> Seq<char> {
    if last_index_of(p, '/') >= 0 {
        p.take(last_index_of(p, '/'))
    } else {
        Seq::<char>::empty()
    }
}

/// Everything before the last slash: the directory that holds the named
/// file, the way the settings derive directories from a configuration
/// file path. A path without a slash has an empty parent.
pub fn parent_dir(p: &str) -> (r: String)
    ensures
        r@ == parent_dir_spec(p@),
{
    let len = p.unicode_len();
    let mut i: usize = len;
    proof {
        assert(p@.take(len as int) =~= p@);
    }
    while i > 0
        invariant
            len == p@.len(),
            i <= len,
            last_index_of(p@, '/') == last_index_of(p@.take(i as int), '/'),
        decreases i,
    {
        proof {
            assert(p@.take(i as int).drop_last() =~= p@.take(i - 1));
            assert(p@.take(i as int).last() == p@[i - 1]);
        }
        if p.get_char(i - 1) == '/' {
            let r = String::from_str(p.substring_char(0, i - 1));
            proof {
                assert(last_index_of(p@.take(i as int), '/') == i - 1);
            }
            return r;
        }
        i -= 1;
    }
    proof {
        assert(p@.take(0) =~= Seq::<char>::empty());
        assert(last_index_of(p@, '/') == -1);
    }
    String::new()
}

/// No segment of a split is longer than the string it came from.
pub proof fn lemma_split_seg_len(s: Seq<char>, sep: char)
    ensures
        forall|i: int| 0 <= i < split_at_sep(s, sep).len() ==> #[trigger] split_at_sep(s, sep)[i]
            .len() <= s.len(),
    decreases s.len(),
{
    if s.len() > 0 {
        lemma_split_seg_len(s.drop_last(), sep);
        let r0 = split_at_sep(s.drop_last(), sep);
        lemma_split_at_sep_len(s.drop_last(), sep);
        assert forall|i: int| 0 <= i < split_at_sep(s, sep).len() implies #[trigger] split_at_sep(
            s,
            sep,
        )[i].len() <= s.len() by {
            if s.last() == sep {
                if i < r0.len() {
                    assert(split_at_sep(s, sep)[i] == r0[i]);
                } else {
                    assert(split_at_sep(s, sep)[i] == Seq::<char>::empty());
                }
            } else {
                if i == r0.len() - 1 {
                    assert(split_at_sep(s, sep)[i] == r0.last().push(s.last()));
                } else {
                    assert(split_at_sep(s, sep)[i] == r0[i]);
                }
            }
        }
    }
}

/// The views of a vector of strings.
pub open spec fn views_of(v: Seq<String>) -> Seq<Seq<char>> {
    v.map_values(|s: String| s@)
}

/// A string holding the separator splits into at least two segments.
pub proof fn lemma_split_has_sep(s: Seq<char>, sep: char)
    requires
        s.contains(sep),
    ensures
        split_at_sep(s, sep).len() >= 2,
    decreases s.len(),
{
    let i = choose|i: int| 0 <= i < s.len() && s[i] == sep;
    if s.last() == sep {
        lemma_split_at_sep_len(s.drop_last(), sep);
    } else {
        assert(i < s.len() - 1);
        assert(s.drop_last()[i] == sep);
        assert(s.drop_last().contains(sep));
        lemma_split_has_sep(s.drop_last(), sep);
    }
}

/// Rendering a number and reading it back is the identity: the rendering
/// is non-empty, all digits, and denotes exactly `n`.
pub proof fn lemma_dec_round_trip(n: nat)
    ensures
        dec_rep(n).len() >= 1,
        all_dec_digits(dec_rep(n)),
        dec_val(dec_rep(n)) == n,
    decreases n,
{
    if n < 10 {
        let r = dec_rep(n);
        assert(r == seq![dec_digit(n)]);
        assert(r.drop_last() =~= Seq::<char>::empty());
        assert(dec_val(Seq::<char>::empty()) == 0);
        assert(dec_val(r) == digit_val(dec_digit(n)));
    } else {
        lemma_dec_round_trip(n / 10);
        let r = dec_rep(n);
        assert(r == dec_rep(n / 10).push(dec_digit(n % 10)));
        assert(r.drop_last() =~= dec_rep(n / 10));
        assert(dec_val(r) == dec_val(dec_rep(n / 10)) * 10 + digit_val(dec_digit(n % 10)));
        assert(all_dec_digits(r)) by {
            assert forall|i: int| 0 <= i < r.len() implies is_dec_digit(#[trigger] r[i]) by {
                if i < r.len() - 1 {
                    assert(r[i] == dec_rep(n / 10)[i]);
                }
            }
        }
    }
}

/// A concatenation is free of `c` when both sides are.
pub proof fn lemma_concat_free(a: Seq<char>, b: Seq<char>, c: char)
    requires
        !a.contains(c),
        !b.contains(c),
    ensures
        !(a + b).contains(c),
{
    if (a + b).contains(c) {
        let i = choose|i: int| 0 <= i < (a + b).len() && (a + b)[i] == c;
        if i < a.len() {
            assert(a[i] == c);
        } else {
            assert(b[i - a.len()] == c);
        }
    }
}

/// A prefix is free of `c` when the whole is.
pub proof fn lemma_take_free(s: Seq<char>, n: int, c: char)
    requires
        !s.contains(c),
        0 <= n <= s.len(),
    ensures
        !s.take(n).contains(c),
{
    if s.take(n).contains(c) {
        let i = choose|i: int| 0 <= i < s.take(n).len() && s.take(n)[i] == c;
        assert(s[i] == c);
    }
}

} // verus!
