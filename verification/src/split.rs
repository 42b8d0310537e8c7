//! Naming the files a split animation is written to.
//!
//! Splitting writes every decoded frame to its own file, named by its
//! zero-padded sequence index with the requested extension: `frame_`, the
//! index padded with leading zeros to the width of the last index, a dot,
//! and the extension. The names of one split are pairwise distinct, so a
//! split of `n` frames produces exactly `n` files. Writing the files and
//! creating the directory is the surrounding application's task.

use vstd::prelude::*;
use vstd::string::*;

verus! {

/// The character of one decimal digit.
pub open spec fn digit_char(d: int) -> char {
    if d == 0 {
        '0'
    } else if d == 1 {
        '1'
    } else if d == 2 {
        '2'
    } else if d == 3 {
        '3'
    } else if d == 4 {
        '4'
    } else if d == 5 {
        '5'
    } else if d == 6 {
        '6'
    } else if d == 7 {
        '7'
    } else if d == 8 {
        '8'
    } else {
        '9'
    }
}

/// The value one digit character stands for.
pub open spec fn digit_val(c: char) -> int {
    if c == '0' {
        0
    } else if c == '1' {
        1
    } else if c == '2' {
        2
    } else if c == '3' {
        3
    } else if c == '4' {
        4
    } else if c == '5' {
        5
    } else if c == '6' {
        6
    } else if c == '7' {
        7
    } else if c == '8' {
        8
    } else {
        9
    }
}

/// The decimal digits of `v`, most significant first, without leading
/// zeros.
pub open spec fn spec_digits(v: nat) -> Seq<char>
    decreases v,
{
    if v < 10 {
        seq![digit_char(v as int)]
    } else {
        spec_digits(v / 10).push(digit_char((v % 10) as int))
    }
}

/// `k` zero characters.
pub open spec fn spec_zeros(k: nat) -> Seq<char>
    decreases k,
{
    if k == 0 {
        Seq::<char>::empty()
    } else {
        spec_zeros((k - 1) as nat).push('0')
    }
}

/// The digits of `v` padded with leading zeros to width `w`; wider values
/// keep all their digits.
pub open spec fn spec_padded(v: nat, w: nat) -> Seq<char> {
    let ds = spec_digits(v);
    if w > ds.len() {
        spec_zeros((w - ds.len()) as nat) + ds
    } else {
        ds
    }
}

/// The value a run of digit characters stands for.
pub open spec fn spec_parse(s: Seq<char>) -> int
    decreases s.len(),
{
    if s.len() == 0 {
        0
    } else {
        spec_parse(s.drop_last()) * 10 + digit_val(s.last())
    }
}

/// Reading the digits of `v` back gives `v`: the decimal representation
/// loses nothing.
pub proof fn lemma_parse_digits(v: nat)
    ensures
        spec_parse(spec_digits(v)) == v,
    decreases v,
{
    if v < 10 {
        let s = spec_digits(v);
        assert(s.len() == 1);
        assert(s.drop_last() =~= Seq::<char>::empty());
        assert(spec_parse(s) == spec_parse(s.drop_last()) * 10 + digit_val(s.last()));
    } else {
        lemma_parse_digits(v / 10);
        let s = spec_digits(v);
        assert(s.drop_last() =~= spec_digits(v / 10));
        assert(spec_parse(s) == spec_parse(s.drop_last()) * 10 + digit_val(s.last()));
    }
}

/// A run of zeros alone stands for zero.
pub proof fn lemma_parse_zeros(k: nat)
    ensures
        spec_parse(spec_zeros(k)) == 0,
    decreases k,
{
    if k == 0 {
    } else {
        lemma_parse_zeros((k - 1) as nat);
        assert(spec_zeros(k).drop_last() =~= spec_zeros((k - 1) as nat));
    }
}

/// Leading zeros change nothing about the value a run of digits stands
/// for.
pub proof fn lemma_parse_zeros_prefix(k: nat, s: Seq<char>)
    ensures
        spec_parse(spec_zeros(k) + s) == spec_parse(s),
    decreases s.len(),
{
    if s.len() == 0 {
        assert(spec_zeros(k) + s =~= spec_zeros(k));
        lemma_parse_zeros(k);
    } else {
        lemma_parse_zeros_prefix(k, s.drop_last());
        assert((spec_zeros(k) + s).drop_last() =~= spec_zeros(k) + s.drop_last());
        assert((spec_zeros(k) + s).last() == s.last());
    }
}

/// Reading a zero-padded index back gives the index, whatever the width.
pub proof fn lemma_parse_padded(v: nat, w: nat)
    ensures
        spec_parse(spec_padded(v, w)) == v,
{
    let ds = spec_digits(v);
    lemma_parse_digits(v);
    if w > ds.len() {
        lemma_parse_zeros_prefix((w - ds.len()) as nat, ds);
    }
}

/// Two different indices never share a zero-padded representation of the
/// same width.
pub proof fn lemma_padded_injective(i: nat, j: nat, w: nat)
    requires
        i != j,
    ensures
        spec_padded(i, w) != spec_padded(j, w),
{
    if spec_padded(i, w) == spec_padded(j, w) {
        lemma_parse_padded(i, w);
        lemma_parse_padded(j, w);
    }
}

/// The name of one split frame's file: `frame_`, the zero-padded index,
/// a dot, and the requested extension.
pub open spec fn spec_frame_name(index: nat, w: nat, ext: Seq<char>) -> Seq<char> {
    "frame_"@ + spec_padded(index, w) + "."@ + ext
}

/// The padding width a split of `n` frames uses: the width of the last
/// frame's index.
pub open spec fn spec_name_width(n: nat) -> nat {
    if n == 0 {
        1
    } else {
        spec_digits((n - 1) as nat).len()
    }
}

/// Within one split, different frames get different file names: a split of
/// `n` frames writes exactly `n` files.
pub proof fn lemma_frame_names_distinct(i: nat, j: nat, w: nat, ext: Seq<char>)
    requires
        i != j,
    ensures
        spec_frame_name(i, w, ext) != spec_frame_name(j, w, ext),
{
    reveal_strlit("frame_");
    reveal_strlit(".");
    let ni = spec_frame_name(i, w, ext);
    let nj = spec_frame_name(j, w, ext);
    let pi = spec_padded(i, w);
    let pj = spec_padded(j, w);
    lemma_padded_injective(i, j, w);
    if ni == nj {
        assert(ni.len() == nj.len());
        assert(pi.len() == pj.len());
        assert forall|m: int| 0 <= m < pi.len() implies pi[m] == pj[m] by {
            assert(ni[6 + m] == pi[m]);
            assert(nj[6 + m] == pj[m]);
        }
        assert(pi =~= pj);
    }
}

/// Powers of ten.
pub open spec fn pow10(k: nat) -> int
    decreases k,
{
    if k == 0 {
        1
    } else {
        10 * pow10((k - 1) as nat)
    }
}

/// A value below `10^k` has at most `k` digits.
pub proof fn lemma_digits_len(v: nat, k: nat)
    requires
        k >= 1,
        v < pow10(k),
    ensures
        spec_digits(v).len() <= k,
    decreases v,
{
    if v < 10 {
    } else {
        assert(pow10(k) == 10 * pow10((k - 1) as nat));
        assert(v / 10 < pow10((k - 1) as nat));
        assert(pow10((k - 1) as nat) > 1);
        lemma_digits_len(v / 10, (k - 1) as nat);
    }
}

/// Append one digit character.
fn push_digit_char(s: &mut String, d: u64)
    requires
        d < 10,
    ensures
        final(s)@ == old(s)@.push(digit_char(d as int)),
{
    if d == 0 {
        proof {
            reveal_strlit("0");
        }
        s.append("0");
    } else if d == 1 {
        proof {
            reveal_strlit("1");
        }
        s.append("1");
    } else if d == 2 {
        proof {
            reveal_strlit("2");
        }
        s.append("2");
    } else if d == 3 {
        proof {
            reveal_strlit("3");
        }
        s.append("3");
    } else if d == 4 {
        proof {
            reveal_strlit("4");
        }
        s.append("4");
    } else if d == 5 {
        proof {
            reveal_strlit("5");
        }
        s.append("5");
    } else if d == 6 {
        proof {
            reveal_strlit("6");
        }
        s.append("6");
    } else if d == 7 {
        proof {
            reveal_strlit("7");
        }
        s.append("7");
    } else if d == 8 {
        proof {
            reveal_strlit("8");
        }
        s.append("8");
    } else {
        proof {
            reveal_strlit("9");
        }
        s.append("9");
    }
    assert(final(s)@ =~= old(s)@.push(digit_char(d as int)));
}

/// Append the decimal digits of `v`, most significant first.
fn push_decimal(s: &mut String, v: u64)
    ensures
        final(s)@ == old(s)@ + spec_digits(v as nat),
    decreases v,
{
    if v >= 10 {
        push_decimal(s, v / 10);
    }
    push_digit_char(s, v % 10);
    proof {
        if v < 10 {
            assert(old(s)@.push(digit_char((v % 10) as int)) =~= old(s)@ + spec_digits(v as nat));
        } else {
            assert((old(s)@ + spec_digits((v / 10) as nat)).push(digit_char((v % 10) as int)) =~= old(
                s,
            )@ + spec_digits(v as nat));
        }
    }
}

/// The width of `v`'s decimal representation.
pub fn decimal_width(v: u64) -> (r: usize)
    ensures
        r == spec_digits(v as nat).len(),
        1 <= r <= 20,
{
    proof {
        reveal_with_fuel(pow10, 21);
        assert(pow10(20) == 100_000_000_000_000_000_000int);
        lemma_digits_len(v as nat, 20);
    }
    let mut x: u64 = v;
    let mut w: usize = 1;
    while x >= 10
        invariant
            w + spec_digits(x as nat).len() == 1 + spec_digits(v as nat).len(),
            spec_digits(v as nat).len() <= 20,
        decreases x,
    {
        x = x / 10;
        w = w + 1;
    }
    w
}

/// The file name of one split frame: `frame_`, the index zero-padded to
/// `width`, a dot, and the extension.
pub fn frame_file_name(index: u64, width: usize, ext: &str) -> (r: String)
    ensures
        r@ == spec_frame_name(index as nat, width as nat, ext@),
{
    let mut s = String::from_str("frame_");
    let dw = decimal_width(index);
    let mut k: usize = dw;
    proof {
        assert(s@ + spec_zeros(0) =~= s@);
    }
    while k < width
        invariant
            dw <= k,
            k <= width || k == dw,
            dw == spec_digits(index as nat).len(),
            s@ == "frame_"@ + spec_zeros((k - dw) as nat),
        decreases width - k,
    {
        proof {
            reveal_strlit("0");
        }
        s.append("0");
        proof {
            assert(s@ =~= "frame_"@ + spec_zeros((k + 1 - dw) as nat));
        }
        k = k + 1;
    }
    push_decimal(&mut s, index);
    proof {
        assert(s@ =~= "frame_"@ + spec_padded(index as nat, width as nat));
    }
    s.append(".");
    s.append(ext);
    proof {
        assert(s@ =~= spec_frame_name(index as nat, width as nat, ext@));
    }
    s
}

/// The file names of a whole split: one per frame, indexed in order and
/// zero-padded to the width of the last index. By
/// [`lemma_frame_names_distinct`] they are pairwise distinct: `count`
/// frames become exactly `count` files.
pub fn split_names(count: usize, ext: &str) -> (r: Vec<String>)
    ensures
        r@.len() == count,
        forall|k: int|
            0 <= k < count ==> (#[trigger] r@[k])@ == spec_frame_name(
                k as nat,
                spec_name_width(count as nat),
                ext@,
            ),
{
    let mut names: Vec<String> = Vec::new();
    if count == 0 {
        return names;
    }
    let width = decimal_width((count - 1) as u64);
    let mut i: usize = 0;
    while i < count
        invariant
            i <= count,
            count >= 1,
            width == spec_name_width(count as nat),
            names@.len() == i,
            forall|k: int|
                0 <= k < i ==> (#[trigger] names@[k])@ == spec_frame_name(
                    k as nat,
                    spec_name_width(count as nat),
                    ext@,
                ),
        decreases count - i,
    {
        names.push(frame_file_name(i as u64, width, ext));
        i += 1;
    }
    names
}

} // verus!
