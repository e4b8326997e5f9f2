//! Text helpers the engine and the screens share: membership and
//! deduplication over lists of string ids, lexicographic comparison of
//! message sort keys, and decimal conversion for the numeric form fields.

use vstd::prelude::*;

verus! {

/// Whether some string in `ss` has exactly the characters `x`.
pub open spec fn str_seq_contains(ss: Seq<String>, x: Seq<char>) -> bool {
    exists|i: int| 0 <= i < ss.len() && ss[i]@ == x
}

/// Decides `str_seq_contains(v@, x@)`.
pub fn contains_id(v: &Vec<String>, x: &String) -> (r: bool)
    ensures
        r == str_seq_contains(v@, x@),
{
    let mut i: usize = 0;
    while i < v.len()
        invariant
            i <= v.len(),
            forall|k: int| 0 <= k < i ==> v@[k]@ != x@,
        decreases v.len() - i,
    {
        let vi = &v[i];
        if *vi == *x {
            return true;
        }
        i += 1;
    }
    false
}

/// Pushing an element adds exactly its characters to the ids a sequence
/// holds.
pub proof fn lemma_push_contains(s: Seq<String>, e: String, x: Seq<char>)
    ensures
        str_seq_contains(s.push(e), x) <==> (str_seq_contains(s, x) || e@ == x),
{
    if str_seq_contains(s.push(e), x) {
        let w = choose|w: int| 0 <= w < s.push(e).len() && #[trigger] s.push(e)[w]@ == x;
        if w < s.len() {
            assert(s[w]@ == x);
        }
    }
    if str_seq_contains(s, x) {
        let w = choose|w: int| 0 <= w < s.len() && #[trigger] s[w]@ == x;
        assert(s.push(e)[w]@ == x);
    }
    if e@ == x {
        assert(s.push(e)[s.len() as int]@ == x);
    }
}

/// Concatenation holds an id exactly when one of the parts does.
pub proof fn lemma_concat_contains(s1: Seq<String>, s2: Seq<String>, x: Seq<char>)
    ensures
        str_seq_contains(s1 + s2, x) <==> (str_seq_contains(s1, x) || str_seq_contains(s2, x)),
{
    if str_seq_contains(s1 + s2, x) {
        let w = choose|w: int| 0 <= w < (s1 + s2).len() && #[trigger] (s1 + s2)[w]@ == x;
        if w < s1.len() {
            assert(s1[w]@ == x);
        } else {
            assert(s2[w - s1.len()]@ == x);
        }
    }
    if str_seq_contains(s1, x) {
        let w = choose|w: int| 0 <= w < s1.len() && #[trigger] s1[w]@ == x;
        assert((s1 + s2)[w]@ == x);
    }
    if str_seq_contains(s2, x) {
        let w = choose|w: int| 0 <= w < s2.len() && #[trigger] s2[w]@ == x;
        assert((s1 + s2)[s1.len() + w]@ == x);
    }
}

/// Appends a copy of every id in `src` to `dst`.
pub fn append_ids(dst: &mut Vec<String>, src: &Vec<String>)
    ensures
        final(dst)@ == old(dst)@ + src@,
{
    let ghost base = dst@;
    let mut i: usize = 0;
    proof {
        assert(base + src@.take(0) =~= base);
    }
    while i < src.len()
        invariant
            i <= src@.len(),
            dst@ == base + src@.take(i as int),
        decreases src@.len() - i,
    {
        dst.push(src[i].clone());
        proof {
            assert(base + src@.take(i + 1 as int) =~= (base + src@.take(i as int)).push(
                src@[i as int],
            ));
        }
        i += 1;
    }
    proof {
        assert(base + src@.take(src@.len() as int) =~= base + src@);
    }
}

/// A copy of every id, in order.
pub fn clone_ids(v: &Vec<String>) -> (r: Vec<String>)
    ensures
        r@ == v@,
{
    let mut out: Vec<String> = Vec::new();
    let mut i: usize = 0;
    while i < v.len()
        invariant
            i <= v@.len(),
            out@ == v@.take(i as int),
        decreases v@.len() - i,
    {
        out.push(v[i].clone());
        proof {
            assert(v@.take(i + 1 as int) =~= v@.take(i as int).push(v@[i as int]));
        }
        i += 1;
    }
    proof {
        assert(v@.take(v@.len() as int) =~= v@);
    }
    out
}

/// Keeps the first occurrence of each id, in order: the result holds
/// exactly the ids of `v`, each once.
pub fn dedup_ids(v: &Vec<String>) -> (r: Vec<String>)
    ensures
        forall|x: Seq<char>| str_seq_contains(r@, x) <==> str_seq_contains(v@, x),
        forall|i: int, j: int| 0 <= i < j < r@.len() ==> r@[i]@ != r@[j]@,
{
    let mut out: Vec<String> = Vec::new();
    let mut i: usize = 0;
    while i < v.len()
        invariant
            i <= v.len(),
            forall|x: Seq<char>|
                str_seq_contains(out@, x) <==> str_seq_contains(v@.take(i as int), x),
            forall|p: int, q: int| 0 <= p < q < out@.len() ==> out@[p]@ != out@[q]@,
        decreases v.len() - i,
    {
        let ghost prev = out@;
        let ghost t = v@.take(i + 1 as int);
        proof {
            assert(t =~= v@.take(i as int).push(v@[i as int]));
        }
        if !contains_id(&out, &v[i]) {
            out.push(v[i].clone());
            proof {
                assert forall|x: Seq<char>|
                    str_seq_contains(out@, x) <==> str_seq_contains(t, x) by {
                    lemma_push_contains(prev, v@[i as int], x);
                    lemma_push_contains(v@.take(i as int), v@[i as int], x);
                }
                assert forall|p: int, q: int|
                    0 <= p < q < out@.len() implies out@[p]@ != out@[q]@ by {
                    if q == prev.len() {
                        assert(out@[p]@ == prev[p]@);
                    }
                }
            }
        } else {
            proof {
                assert forall|x: Seq<char>|
                    str_seq_contains(out@, x) <==> str_seq_contains(t, x) by {
                    lemma_push_contains(v@.take(i as int), v@[i as int], x);
                }
            }
        }
        i += 1;
    }
    proof {
        assert(v@.take(v@.len() as int) =~= v@);
    }
    out
}

/// Strict lexicographic order on character sequences: the order message
/// sort keys are compared in.
pub open spec fn seq_lt(a: Seq<char>, b: Seq<char>) -> bool
    decreases a.len(),
{
    if b.len() == 0 {
        false
    } else if a.len() == 0 {
        true
    } else if a[0] != b[0] {
        (a[0] as u32) < (b[0] as u32)
    } else {
        seq_lt(a.skip(1), b.skip(1))
    }
}

/// Decides `seq_lt(a@, b@)`.
pub fn str_lt(a: &str, b: &str) -> (r: bool)
    ensures
        r == seq_lt(a@, b@),
{
    let alen = a.unicode_len();
    let blen = b.unicode_len();
    let mut i: usize = 0;
    proof {
        assert(a@.skip(0) =~= a@);
        assert(b@.skip(0) =~= b@);
    }
    loop
        invariant
            alen == a@.len(),
            blen == b@.len(),
            i <= alen,
            i <= blen,
            seq_lt(a@, b@) == seq_lt(a@.skip(i as int), b@.skip(i as int)),
        decreases alen - i,
    {
        if i >= blen {
            return false;
        }
        if i >= alen {
            return true;
        }
        let ca = a.get_char(i);
        let cb = b.get_char(i);
        if ca != cb {
            return (ca as u32) < (cb as u32);
        }
        proof {
            assert(a@.skip(i as int).skip(1) =~= a@.skip(i + 1 as int));
            assert(b@.skip(i as int).skip(1) =~= b@.skip(i + 1 as int));
        }
        i += 1;
    }
}

/// No sequence is lexicographically below itself.
pub proof fn lemma_seq_lt_irreflexive(a: Seq<char>)
    ensures
        !seq_lt(a, a),
    decreases a.len(),
{
    if a.len() > 0 {
        lemma_seq_lt_irreflexive(a.skip(1));
    }
}

/// Whether `c` is a decimal digit.
pub open spec fn is_digit(c: char) -> bool {
    48 <= c as u32 <= 57
}

/// The value of a digit character.
pub open spec fn digit_val(c: char) -> nat {
    (c as u32 - 48) as nat
}

/// The number a sequence of digit characters denotes.
pub open spec fn digits_val(s: Seq<char>) -> nat
    decreases s.len(),
{
    if s.len() == 0 {
        0
    } else {
        digits_val(s.drop_last()) * 10 + digit_val(s.last())
    }
}

/// Extending a digit string never shrinks its value.
proof fn lemma_digits_val_grows(s: Seq<char>, i: int, j: int)
    requires
        0 <= i <= j <= s.len(),
    ensures
        digits_val(s.take(i)) <= digits_val(s.take(j)),
    decreases j - i,
{
    if i < j {
        lemma_digits_val_grows(s, i, j - 1);
        assert(s.take(j).drop_last() =~= s.take(j - 1));
        assert(digits_val(s.take(j)) == digits_val(s.take(j - 1)) * 10 + digit_val(s.take(
            j,
        ).last()));
    }
}

/// What reading a decimal string yields: the value exactly when every
/// character is a digit, there is at least one, and the value fits in a
/// `u64`.
pub open spec fn spec_parse_u64(s: Seq<char>) -> Option<u64> {
    if s.len() > 0 && (forall|k: int| 0 <= k < s.len() ==> is_digit(s[k])) && digits_val(s)
        <= u64::MAX {
        Some(digits_val(s) as u64)
    } else {
        None
    }
}

/// Reads a non-empty string of decimal digits as a number.
pub fn parse_u64(s: &str) -> (r: Option<u64>)
    ensures
        r == spec_parse_u64(s@),
{
    let len = s.unicode_len();
    if len == 0 {
        return None;
    }
    let mut v: u64 = 0;
    let mut i: usize = 0;
    while i < len
        invariant
            len == s@.len(),
            i <= len,
            forall|k: int| 0 <= k < i ==> is_digit(s@[k]),
            v == digits_val(s@.take(i as int)),
        decreases len - i,
    {
        let c = s.get_char(i);
        let cu = c as u32;
        if cu < 48 || cu > 57 {
            return None;
        }
        let d: u64 = (cu - 48) as u64;
        proof {
            assert(s@.take(i + 1 as int).drop_last() =~= s@.take(i as int));
        }
        v = match v.checked_mul(10) {
            Some(m) => match m.checked_add(d) {
                Some(t) => t,
                None => {
                    proof {
                        lemma_digits_val_grows(s@, i + 1, s@.len() as int);
                        assert(s@.take(s@.len() as int) =~= s@);
                    }
                    return None;
                },
            },
            None => {
                proof {
                    lemma_digits_val_grows(s@, i + 1, s@.len() as int);
                    assert(s@.take(s@.len() as int) =~= s@);
                }
                return None;
            },
        };
        i += 1;
    }
    proof {
        assert(s@.take(len as int) =~= s@);
    }
    Some(v)
}

/// Relies on `String::push`: appends one character.
#[verifier::external_body]
pub fn push_char(s: &mut String, c: char)
    ensures
        final(s)@ == old(s)@.push(c),
{
    s.push(c)
}

/// Relies on `String::pop`: removes and returns the last character; an
/// empty string stays empty.
#[verifier::external_body]
pub fn pop_char(s: &mut String) -> (r: Option<char>)
    ensures
        old(s)@.len() == 0 ==> r is None && final(s)@ == old(s)@,
        old(s)@.len() > 0 ==> r == Some(old(s)@.last()) && final(s)@ == old(s)@.drop_last(),
{
    s.pop()
}

/// What lowercasing a string yields. Relied upon only through
/// `lowercase`; the mapping depends on the characters alone.
pub uninterp spec fn lower_of(s: Seq<char>) -> Seq<char>;

/// Relies on `str::to_lowercase`: the result is a function of the
/// characters alone, and an empty string stays empty.
#[verifier::external_body]
pub fn lowercase(s: &str) -> (r: String)
    ensures
        r@ == lower_of(s@),
        s@.len() == 0 ==> r@.len() == 0,
{
    s.to_lowercase()
}

/// `needle` occurs contiguously inside `hay`.
pub open spec fn contains_substr(hay: Seq<char>, needle: Seq<char>) -> bool {
    exists|i: int|
        0 <= i && i + needle.len() <= hay.len() && #[trigger] hay.subrange(i, i + needle.len())
            == needle
}

/// Relies on `str::contains`: whether the pattern matches a sub-slice.
#[verifier::external_body]
pub fn str_contains(hay: &str, needle: &str) -> (r: bool)
    ensures
        r == contains_substr(hay@, needle@),
{
    hay.contains(needle)
}

/// The last `max` lines, in order: what a bounded log keeps.
pub fn tail_lines(lines: Vec<String>, max: usize) -> (r: Vec<String>)
    ensures
        r@ == if lines@.len() <= max {
            lines@
        } else {
            lines@.skip(lines@.len() - max)
        },
{
    if lines.len() <= max {
        lines
    } else {
        let mut head = lines;
        let at = head.len() - max;
        head.split_off(at)
    }
}

/// The decimal digit string of `n`, most significant digit first.
pub open spec fn dec_digits(n: nat) -> Seq<char>
    decreases n,
{
    if n < 10 {
        seq![dec_digit_char(n)]
    } else {
        dec_digits(n / 10).push(dec_digit_char(n % 10))
    }
}

/// The digit character for a value below ten.
pub open spec fn dec_digit_char(d: nat) -> char {
    "0123456789"@[d as int]
}

/// Writes `n` in decimal.
pub fn u64_to_string(n: u64) -> (r: String)
    ensures
        r@ == dec_digits(n as nat),
    decreases n,
{
    proof {
        reveal_strlit("0123456789");
    }
    let digits = "0123456789";
    let d = (n % 10) as usize;
    let ds = digits.substring_ascii(d, d + 1);
    proof {
        assert(ds@ =~= seq![dec_digit_char((n % 10) as nat)]);
    }
    if n < 10 {
        ds.to_owned()
    } else {
        let mut head = u64_to_string(n / 10);
        head.append(ds);
        proof {
            assert(dec_digits((n / 10) as nat) + ds@ =~= dec_digits(n as nat));
        }
        head
    }
}

} // verus!
