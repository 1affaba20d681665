//! Parsing of tensor names of the form `identifier@dim1_dim2_..._dimN`.
//!
//! The string before the single `@` is an arbitrary identifier; the part
//! after it is a `_`-separated list of decimal numerals, each a positive
//! dimension that fits the `i32` the backend expects. [`valid_name`] is the
//! exact parse contract; [`parse_dims`] decides it and extracts the
//! dimension list.

use vstd::prelude::*;

use crate::graph::shape_ok;

verus! {

/// A decimal digit.
pub open spec fn is_digit(c: char) -> bool {
    ('0' as u32) <= (c as u32) && (c as u32) <= ('9' as u32)
}

/// The value of a decimal digit.
pub open spec fn digit_val(c: char) -> int {
    (c as u32) - ('0' as u32)
}

/// Every character of `s` is a decimal digit.
pub open spec fn all_digits(s: Seq<char>) -> bool {
    forall|i: int| 0 <= i < s.len() ==> is_digit(#[trigger] s[i])
}

/// The value of `s` read as a decimal numeral (most significant first).
pub open spec fn numeral_val(s: Seq<char>) -> int
    decreases s.len(),
{
    if s.len() == 0 {
        0
    } else {
        numeral_val(s.drop_last()) * 10 + digit_val(s.last())
    }
}

/// One dimension token: a non-empty digit string whose value is positive
/// and representable as an `i32`.
pub open spec fn valid_dim_token(s: Seq<char>) -> bool {
    &&& s.len() > 0
    &&& all_digits(s)
    &&& 1 <= numeral_val(s) <= i32::MAX
}

/// The segments of `s` between occurrences of `delim`: always one more
/// segment than there are delimiters, so never empty.
pub open spec fn split_on(s: Seq<char>, delim: char) -> Seq<Seq<char>>
    decreases s.len(),
{
    if s.len() == 0 {
        seq![Seq::<char>::empty()]
    } else {
        let rest = split_on(s.drop_first(), delim);
        if s.first() == delim {
            seq![Seq::<char>::empty()] + rest
        } else {
            seq![seq![s.first()] + rest.first()] + rest.drop_first()
        }
    }
}

/// Splitting yields at least one segment.
pub proof fn lemma_split_on_min_len(s: Seq<char>, delim: char)
    ensures
        split_on(s, delim).len() >= 1,
    decreases s.len(),
{
    if s.len() > 0 {
        lemma_split_on_min_len(s.drop_first(), delim);
    }
}

/// The two parts of a name around `@`; the parse contract demands there
/// be exactly two.
pub open spec fn name_parts(s: Seq<char>) -> Seq<Seq<char>> {
    split_on(s, '@')
}

/// The dimension tokens of a name: the part after `@` split on `_`.
pub open spec fn dim_tokens(s: Seq<char>) -> Seq<Seq<char>> {
    split_on(name_parts(s)[1], '_')
}

/// The parse contract for `Input`/`Weight` names: exactly one `@`, and
/// every token after it a positive `i32` numeral. Splitting never yields
/// zero tokens, so a valid name carries at least one dimension.
pub open spec fn valid_name(s: Seq<char>) -> bool {
    &&& name_parts(s).len() == 2
    &&& forall|i: int|
        0 <= i < dim_tokens(s).len() ==> valid_dim_token(#[trigger] dim_tokens(s)[i])
}

/// The dimension list encoded in a valid name.
pub open spec fn dims_of_name(s: Seq<char>) -> Seq<i32> {
    dim_tokens(s).map_values(|t: Seq<char>| numeral_val(t) as i32)
}

/// The numeral value of an all-digit string is never negative.
pub proof fn lemma_numeral_nonneg(s: Seq<char>)
    requires
        all_digits(s),
    ensures
        numeral_val(s) >= 0,
    decreases s.len(),
{
    if s.len() > 0 {
        assert(all_digits(s.drop_last()));
        lemma_numeral_nonneg(s.drop_last());
    }
}

/// Reading more digits never decreases a numeral's value.
pub proof fn lemma_numeral_grows(s: Seq<char>, i: int, j: int)
    requires
        all_digits(s),
        0 <= i <= j <= s.len(),
    ensures
        numeral_val(s.take(i)) <= numeral_val(s.take(j)),
    decreases j - i,
{
    if i < j {
        lemma_numeral_grows(s, i, j - 1);
        let t = s.take(j);
        assert(t.drop_last() =~= s.take(j - 1));
        assert(all_digits(s.take(j - 1)));
        lemma_numeral_nonneg(s.take(j - 1));
        assert(numeral_val(t) == numeral_val(s.take(j - 1)) * 10 + digit_val(t.last()));
    } else {
        assert(s.take(i) =~= s.take(j));
    }
}

/// The dimension list of a valid name is a legal tensor shape.
pub proof fn lemma_valid_name_shape_ok(s: Seq<char>)
    requires
        valid_name(s),
    ensures
        shape_ok(dims_of_name(s)),
        dims_of_name(s).len() >= 1,
{
    lemma_split_on_min_len(name_parts(s)[1], '_');
    assert forall|i: int| 0 <= i < dims_of_name(s).len() implies 1 <= #[trigger] dims_of_name(
        s,
    )[i] by {
        assert(valid_dim_token(dim_tokens(s)[i]));
    }
}

/// Collects the characters of `s` in order.
fn chars_of(s: &str) -> (v: Vec<char>)
    ensures
        v@ == s@,
{
    let n = s.unicode_len();
    let mut v: Vec<char> = Vec::new();
    let mut i: usize = 0;
    while i < n
        invariant
            n == s@.len(),
            0 <= i <= n,
            v@ == s@.take(i as int),
        decreases n - i,
    {
        let c = s.get_char(i);
        v.push(c);
        proof {
            assert(v@ =~= s@.take(i + 1));
        }
        i = i + 1;
    }
    proof {
        assert(v@ =~= s@);
    }
    v
}

/// Splits `v` on `delim`, mirroring [`split_on`].
fn split_chars(v: &Vec<char>, delim: char) -> (r: Vec<Vec<char>>)
    ensures
        r@.map_values(|x: Vec<char>| x@) == split_on(v@, delim),
{
    let ghost whole = split_on(v@, delim);
    let n = v.len();
    let mut segs: Vec<Vec<char>> = Vec::new();
    let mut cur: Vec<char> = Vec::new();
    let mut i: usize = 0;
    proof {
        lemma_split_on_min_len(v@, delim);
        assert(v@.skip(0) =~= v@);
        assert(segs@.map_values(|x: Vec<char>| x@) =~= Seq::<Seq<char>>::empty());
        assert(whole =~~= segs@.map_values(|x: Vec<char>| x@) + seq![
            cur@ + split_on(v@.skip(0), delim).first(),
        ] + split_on(v@.skip(0), delim).drop_first());
    }
    while i < n
        invariant
            n == v@.len(),
            0 <= i <= n,
            whole == split_on(v@, delim),
            whole == segs@.map_values(|x: Vec<char>| x@) + seq![
                cur@ + split_on(v@.skip(i as int), delim).first(),
            ] + split_on(v@.skip(i as int), delim).drop_first(),
        decreases n - i,
    {
        let ghost rem = v@.skip(i as int);
        let ghost rest = split_on(v@.skip(i + 1), delim);
        proof {
            lemma_split_on_min_len(v@.skip(i + 1), delim);
            assert(rem.len() > 0);
            assert(rem.first() == v@[i as int]);
            assert(rem.drop_first() =~= v@.skip(i + 1));
            assert(split_on(rem, delim) == if rem.first() == delim {
                seq![Seq::<char>::empty()] + rest
            } else {
                seq![seq![rem.first()] + rest.first()] + rest.drop_first()
            });
        }
        let c = v[i];
        if c == delim {
            let done = cur;
            cur = Vec::new();
            segs.push(done);
            proof {
                assert(split_on(rem, delim).first() =~= Seq::<char>::empty());
                assert(split_on(rem, delim).drop_first() =~= rest);
                assert(segs@.map_values(|x: Vec<char>| x@) =~= segs@.drop_last().map_values(
                    |x: Vec<char>| x@,
                ).push(done@));
                assert(rest =~= seq![rest.first()] + rest.drop_first());
                assert(whole =~~= segs@.map_values(|x: Vec<char>| x@) + seq![
                    cur@ + rest.first(),
                ] + rest.drop_first());
            }
        } else {
            let ghost cur0 = cur@;
            cur.push(c);
            proof {
                assert(split_on(rem, delim).first() =~= seq![rem.first()] + rest.first());
                assert(split_on(rem, delim).drop_first() =~= rest.drop_first());
                assert(cur@ + rest.first() =~= cur0 + split_on(rem, delim).first());
                assert(whole =~~= segs@.map_values(|x: Vec<char>| x@) + seq![
                    cur@ + rest.first(),
                ] + rest.drop_first());
            }
        }
        i = i + 1;
    }
    proof {
        assert(v@.skip(n as int) =~= Seq::<char>::empty());
        assert(split_on(v@.skip(n as int), delim) =~= seq![Seq::<char>::empty()]);
        assert(cur@ + split_on(v@.skip(n as int), delim).first() =~= cur@);
        assert(split_on(v@.skip(n as int), delim).drop_first() =~= Seq::<Seq<char>>::empty());
    }
    segs.push(cur);
    proof {
        assert(segs@.map_values(|x: Vec<char>| x@) =~~= whole);
    }
    segs
}

/// Parses one dimension token; `Some` exactly on [`valid_dim_token`].
fn parse_dim_token(t: &Vec<char>) -> (r: Option<i32>)
    ensures
        match r {
            Some(d) => valid_dim_token(t@) && d as int == numeral_val(t@) && 1 <= d,
            None => !valid_dim_token(t@),
        },
{
    if t.len() == 0 {
        return None;
    }
    let n = t.len();
    let mut val: i64 = 0;
    let mut i: usize = 0;
    while i < n
        invariant
            n == t@.len(),
            0 <= i <= n,
            all_digits(t@.take(i as int)),
            val == numeral_val(t@.take(i as int)),
            0 <= val <= i32::MAX,
        decreases n - i,
    {
        let c = t[i];
        let cu = c as u32;
        if cu < 48 || cu > 57 {
            proof {
                assert(!is_digit(t@[i as int]));
            }
            return None;
        }
        let d: u32 = cu - 48;
        let nv: i64 = val * 10 + (d as i64);
        proof {
            let pre = t@.take(i + 1);
            assert(pre.drop_last() =~= t@.take(i as int));
            assert(pre.last() == t@[i as int]);
            assert(nv == numeral_val(pre));
            assert(all_digits(pre));
        }
        if nv > (i32::MAX as i64) {
            proof {
                if all_digits(t@) {
                    lemma_numeral_grows(t@, i + 1, n as int);
                    assert(t@.take(n as int) =~= t@);
                    assert(numeral_val(t@) > i32::MAX);
                }
            }
            return None;
        }
        val = nv;
        i = i + 1;
    }
    proof {
        assert(t@.take(n as int) =~= t@);
    }
    if val == 0 {
        return None;
    }
    Some(val as i32)
}

/// Decides the name parse contract and extracts the dimension list:
/// `Some` exactly on [`valid_name`], carrying [`dims_of_name`].
pub fn parse_dims(s: &str) -> (r: Option<Vec<i32>>)
    ensures
        match r {
            Some(dims) => valid_name(s@) && dims@ == dims_of_name(s@),
            None => !valid_name(s@),
        },
{
    let v = chars_of(s);
    let parts = split_chars(&v, '@');
    if parts.len() != 2 {
        proof {
            assert(name_parts(s@).len() != 2);
        }
        return None;
    }
    let toks = split_chars(&parts[1], '_');
    proof {
        assert(parts@.map_values(|x: Vec<char>| x@)[1] == name_parts(s@)[1]);
        assert(toks@.map_values(|x: Vec<char>| x@) == dim_tokens(s@));
    }
    let m = toks.len();
    let mut dims: Vec<i32> = Vec::new();
    let mut k: usize = 0;
    while k < m
        invariant
            m == toks@.len(),
            0 <= k <= m,
            toks@.map_values(|x: Vec<char>| x@) == dim_tokens(s@),
            name_parts(s@).len() == 2,
            dims@.len() == k,
            forall|j: int|
                0 <= j < k ==> valid_dim_token(#[trigger] dim_tokens(s@)[j]) && dims@[j] as int
                    == numeral_val(dim_tokens(s@)[j]),
        decreases m - k,
    {
        proof {
            assert(toks@[k as int]@ == dim_tokens(s@)[k as int]);
        }
        match parse_dim_token(&toks[k]) {
            Some(d) => {
                dims.push(d);
            },
            None => {
                proof {
                    assert(!valid_dim_token(dim_tokens(s@)[k as int]));
                }
                return None;
            },
        }
        k = k + 1;
    }
    proof {
        assert(valid_name(s@));
        assert(dims@ =~= dims_of_name(s@));
    }
    Some(dims)
}

} // verus!
