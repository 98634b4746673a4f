//! Names of chapters on disk: collision suffixes within a group, the order
//! prefix, and the directory names of published and in-progress chapters.

use vstd::prelude::*;
use vstd::string::StringExecFns;
use crate::config::{extension_of, DownloadFormat};
use crate::text::{chars_of, decimal, zero_padded, lemma_decimal_digits, lemma_decimal_injective, push_decimal, string_of};

verus! {

/// The number of entries of `s` equal to `t`.
pub open spec fn count_in(s: Seq<Seq<char>>, t: Seq<char>) -> nat
    decreases s.len(),
{
    if s.len() == 0 {
        0
    } else {
        count_in(s.drop_last(), t) + if s.last() == t { 1nat } else { 0nat }
    }
}

/// `t` followed by `-` and the decimal form of `k`.
pub open spec fn suffixed(t: Seq<char>, k: nat) -> Seq<char> {
    t + seq!['-'] + decimal(k)
}

/// The title of entry `i` once collisions are resolved: a title that occurs
/// `c > 1` times in the group gets `-c` at its first occurrence, counting down
/// to `-1` at its last; a title that occurs once stays as it is.
pub open spec fn disambiguated(titles: Seq<Seq<char>>, i: int) -> Seq<char> {
    let c = count_in(titles, titles[i]);
    if c > 1 {
        suffixed(titles[i], (c - count_in(titles.take(i), titles[i])) as nat)
    } else {
        titles[i]
    }
}

/// No title that occurs once in the group reads like a suffixed form of a
/// title that occurs several times.
pub open spec fn no_suffix_lookalike(titles: Seq<Seq<char>>) -> bool {
    forall|i: int, j: int, k: nat|
        0 <= i < titles.len() && 0 <= j < titles.len() && count_in(titles, titles[i]) == 1
            && count_in(titles, titles[j]) > 1 && 1 <= k <= count_in(titles, titles[j])
            ==> #[trigger] titles[i] != #[trigger] suffixed(titles[j], k)
}

pub open spec fn views_of(v: Seq<String>) -> Seq<Seq<char>> {
    v.map_values(|s: String| s@)
}

fn count_equal(titles: &Vec<String>, end: usize, t: &String) -> (r: usize)
    requires
        end <= titles.len(),
    ensures
        r == count_in(views_of(titles@).take(end as int), t@),
{
    let ghost vs = views_of(titles@);
    let mut n: usize = 0;
    let mut i: usize = 0;
    while i < end
        invariant
            vs == views_of(titles@),
            end <= titles.len(),
            i <= end,
            n == count_in(vs.take(i as int), t@),
            n <= i,
        decreases end - i,
    {
        assert(vs.take(i + 1).drop_last() == vs.take(i as int));
        if titles[i] == *t {
            n += 1;
        }
        i += 1;
    }
    n
}

/// Resolves title collisions within one group, keeping the order of the
/// entries (see `disambiguated`).
pub fn disambiguate_titles(titles: &Vec<String>) -> (r: Vec<String>)
    ensures
        r.len() == titles.len(),
        forall|i: int| 0 <= i < r.len() ==> #[trigger] r@[i]@ == disambiguated(views_of(titles@), i),
{
    let ghost vs = views_of(titles@);
    let mut out: Vec<String> = Vec::new();
    let mut i: usize = 0;
    while i < titles.len()
        invariant
            vs == views_of(titles@),
            i <= titles.len(),
            out.len() == i,
            forall|j: int| 0 <= j < i ==> #[trigger] out@[j]@ == disambiguated(vs, j),
        decreases titles.len() - i,
    {
        let t = &titles[i];
        let total = count_equal(titles, titles.len(), t);
        assert(vs.take(titles.len() as int) == vs);
        if total > 1 {
            let before = count_equal(titles, i, t);
            proof { lemma_count_prefix_lt(vs, i as int); }
            let mut cs = chars_of(t.as_str());
            cs.push('-');
            push_decimal((total - before) as u64, &mut cs);
            out.push(string_of(&cs));
        } else {
            out.push(t.clone());
        }
        i += 1;
    }
    out
}

proof fn lemma_count_take_le(s: Seq<Seq<char>>, n: int, t: Seq<char>)
    requires
        0 <= n <= s.len(),
    ensures
        count_in(s.take(n), t) <= count_in(s, t),
    decreases s.len() - n,
{
    if n < s.len() {
        lemma_count_take_le(s, n + 1, t);
        assert(s.take(n + 1).drop_last() == s.take(n));
    } else {
        assert(s.take(n) == s);
    }
}

/// Occurrences before position `i` are fewer than all occurrences.
proof fn lemma_count_prefix_lt(s: Seq<Seq<char>>, i: int)
    requires
        0 <= i < s.len(),
    ensures
        count_in(s.take(i), s[i]) < count_in(s, s[i]),
{
    assert(s.take(i + 1).drop_last() == s.take(i));
    lemma_count_take_le(s, i + 1, s[i]);
}

/// Between two occurrences of a title, the count of earlier occurrences grows.
proof fn lemma_count_prefix_grows(s: Seq<Seq<char>>, i: int, j: int)
    requires
        0 <= i < j < s.len(),
        s[i] == s[j],
    ensures
        count_in(s.take(i), s[i]) < count_in(s.take(j), s[i]),
    decreases j - i,
{
    assert(s.take(i + 1).drop_last() == s.take(i));
    if j == i + 1 {
    } else {
        lemma_count_mono(s, i + 1, j, s[i]);
    }
}

proof fn lemma_count_mono(s: Seq<Seq<char>>, a: int, b: int, t: Seq<char>)
    requires
        0 <= a <= b <= s.len(),
    ensures
        count_in(s.take(a), t) <= count_in(s.take(b), t),
    decreases b - a,
{
    if a < b {
        lemma_count_mono(s, a, b - 1, t);
        assert(s.take(b).drop_last() == s.take(b - 1));
    }
}

/// A title that occurs at position `i` occurs at least once.
proof fn lemma_count_pos(s: Seq<Seq<char>>, i: int)
    requires
        0 <= i < s.len(),
    ensures
        count_in(s, s[i]) >= 1,
{
    lemma_count_prefix_lt(s, i);
}

/// Two equal titles at different positions make the count at least two.
proof fn lemma_count_two(s: Seq<Seq<char>>, i: int, j: int)
    requires
        0 <= i < j < s.len(),
        s[i] == s[j],
    ensures
        count_in(s, s[i]) >= 2,
{
    lemma_count_prefix_grows(s, i, j);
    lemma_count_prefix_lt(s, j);
}

/// A suffixed form cannot equal one with a longer title: the longer title's
/// `-` would fall among the digits of the shorter one.
proof fn lemma_suffixed_shorter(a: Seq<char>, k: nat, b: Seq<char>, m: nat)
    requires
        a.len() < b.len(),
    ensures
        suffixed(a, k) != suffixed(b, m),
{
    lemma_decimal_digits(k);
    let x = a + seq!['-'];
    let y = b + seq!['-'];
    let sx = x + decimal(k);
    let sy = y + decimal(m);
    assert(sx == suffixed(a, k));
    assert(sy == suffixed(b, m));
    if sx == sy {
        let p = b.len() as int;
        assert(sy[p] == y[p]);
        assert(y[p] == '-');
        assert(p >= x.len());
        assert(sy.len() == y.len() + decimal(m).len());
        assert(sx.len() == x.len() + decimal(k).len());
        assert(p < sx.len());
        assert(sx[p] == decimal(k)[p - x.len()]);
    }
}

/// Suffixed forms determine both the title and the number.
proof fn lemma_suffixed_injective(a: Seq<char>, k: nat, b: Seq<char>, m: nat)
    requires
        suffixed(a, k) == suffixed(b, m),
    ensures
        a == b,
        k == m,
{
    if a.len() < b.len() {
        lemma_suffixed_shorter(a, k, b, m);
    } else if b.len() < a.len() {
        lemma_suffixed_shorter(b, m, a, k);
    } else {
        let x = suffixed(a, k);
        assert(a == x.take(a.len() as int));
        assert(b == x.take(b.len() as int));
        assert(decimal(k) == x.skip(a.len() as int + 1));
        assert(decimal(m) == x.skip(b.len() as int + 1));
        lemma_decimal_injective(k, m);
    }
}

/// After collisions are resolved, the titles of a group are pairwise distinct,
/// provided no title that occurs once already reads like a suffixed form of a
/// repeated one.
pub proof fn lemma_disambiguated_distinct(titles: Seq<Seq<char>>, i: int, j: int)
    requires
        0 <= i < titles.len(),
        0 <= j < titles.len(),
        i != j,
        no_suffix_lookalike(titles),
    ensures
        disambiguated(titles, i) != disambiguated(titles, j),
{
    let ci = count_in(titles, titles[i]);
    let cj = count_in(titles, titles[j]);
    lemma_count_prefix_lt(titles, i);
    lemma_count_prefix_lt(titles, j);
    if ci > 1 && cj > 1 {
        let ki = (ci - count_in(titles.take(i), titles[i])) as nat;
        let kj = (cj - count_in(titles.take(j), titles[j])) as nat;
        if suffixed(titles[i], ki) == suffixed(titles[j], kj) {
            lemma_suffixed_injective(titles[i], ki, titles[j], kj);
            if i < j {
                lemma_count_prefix_grows(titles, i, j);
            } else {
                lemma_count_prefix_grows(titles, j, i);
            }
        }
    } else if ci <= 1 && cj <= 1 {
        if titles[i] == titles[j] {
            if i < j {
                lemma_count_two(titles, i, j);
            } else {
                lemma_count_two(titles, j, i);
            }
        }
    } else if ci <= 1 {
        lemma_count_pos(titles, i);
        let kj = (cj - count_in(titles.take(j), titles[j])) as nat;
        assert(titles[i] != suffixed(titles[j], kj));
    } else {
        lemma_count_pos(titles, j);
        let ki = (ci - count_in(titles.take(i), titles[i])) as nat;
        assert(titles[j] != suffixed(titles[i], ki));
    }
}

/// Appends the characters of `s` to `out`.
pub fn push_str(out: &mut Vec<char>, s: &str)
    ensures
        final(out)@ == old(out)@ + s@,
{
    let cs = chars_of(s);
    let ghost start = out@;
    let mut i: usize = 0;
    while i < cs.len()
        invariant
            cs@ == s@,
            i <= cs.len(),
            out@ == start + cs@.take(i as int),
        decreases cs.len() - i,
    {
        out.push(cs[i]);
        assert(cs@.take(i + 1) == cs@.take(i as int).push(cs@[i as int]));
        i += 1;
    }
    assert(cs@.take(cs.len() as int) == cs@);
}

/// The chapter order for a remote `ordered` value of `t` tenths, `t >= 0`:
/// the integer part, and `.d` when the tenths digit `d` is not zero.
pub open spec fn tenths_label(t: nat) -> Seq<char> {
    if t % 10 == 0 {
        decimal(t / 10)
    } else {
        decimal(t / 10) + seq!['.'] + decimal(t % 10)
    }
}

/// The chapter order `ordered / 10` as it is written in directory names.
pub open spec fn order_label(ordered: int) -> Seq<char> {
    if ordered < 0 {
        seq!['-'] + tenths_label((-ordered) as nat)
    } else {
        tenths_label(ordered as nat)
    }
}

/// The directory name of a published chapter: its order, a space, its title.
pub open spec fn prefixed_title(ordered: int, title: Seq<char>) -> Seq<char> {
    order_label(ordered) + seq![' '] + title
}

/// The prefix that marks a chapter directory still being downloaded.
pub const TEMP_DIR_PREFIX: &'static str = ".downloading-";

/// The directory a chapter is downloaded into before it is published.
pub open spec fn temp_dir_name_of(prefixed: Seq<char>) -> Seq<char> {
    TEMP_DIR_PREFIX@ + prefixed
}

/// The file name of the page with 0-based index `index`: the 1-based number,
/// zero-padded to three digits, and the format's extension.
pub open spec fn page_file_name_of(index: nat, f: DownloadFormat) -> Seq<char> {
    zero_padded(decimal(index + 1), 3) + seq!['.'] + extension_of(f)
}

/// Writes `ordered / 10` as it appears in directory names.
pub fn order_label_string(ordered: i64) -> (r: String)
    ensures
        r@ == order_label(ordered as int),
{
    let mut out: Vec<char> = Vec::new();
    let t: u64 = if ordered < 0 {
        out.push('-');
        (-(ordered as i128)) as u64
    } else {
        ordered as u64
    };
    push_decimal(t / 10, &mut out);
    if t % 10 != 0 {
        out.push('.');
        push_decimal(t % 10, &mut out);
    }
    proof {
        if ordered < 0 {
            assert(out@ == seq!['-'] + tenths_label(t as nat));
        } else {
            assert(out@ == tenths_label(t as nat));
        }
    }
    string_of(&out)
}

/// The directory name of a published chapter.
pub fn prefixed_chapter_title(ordered: i64, title: &str) -> (r: String)
    ensures
        r@ == prefixed_title(ordered as int, title@),
{
    let label = order_label_string(ordered);
    let mut out = chars_of(label.as_str());
    out.push(' ');
    push_str(&mut out, title);
    string_of(&out)
}

/// The name of the directory a chapter is downloaded into before publishing.
pub fn temp_dir_name(prefixed: &str) -> (r: String)
    ensures
        r@ == temp_dir_name_of(prefixed@),
{
    let mut out: Vec<char> = Vec::new();
    push_str(&mut out, TEMP_DIR_PREFIX);
    push_str(&mut out, prefixed);
    string_of(&out)
}

/// The file name of the page with 0-based index `index`.
pub fn page_file_name(index: u64, format: DownloadFormat) -> (r: String)
    requires
        index < u64::MAX,
    ensures
        r@ == page_file_name_of(index as nat, format),
{
    let n = index + 1;
    let mut out: Vec<char> = Vec::new();
    if n < 10 {
        out.push('0');
        out.push('0');
    } else if n < 100 {
        out.push('0');
    }
    push_decimal(n, &mut out);
    proof {
        lemma_decimal_len_small(n as nat);
        assert(out@ == zero_padded(decimal(n as nat), 3));
    }
    out.push('.');
    push_str(&mut out, format.extension());
    string_of(&out)
}

proof fn lemma_decimal_len_small(n: nat)
    ensures
        n < 10 ==> decimal(n).len() == 1,
        10 <= n < 100 ==> decimal(n).len() == 2,
        n >= 100 ==> decimal(n).len() >= 3,
{
    lemma_decimal_digits(n);
    if n >= 100 {
        lemma_decimal_digits(n / 10);
    }
    if 10 <= n < 100 {
        assert(decimal(n / 10).len() == 1);
    }
}

/// Whether a file left in a temp directory by an earlier run is kept: only
/// pages in the current format are (others are stale).
pub fn keep_temp_file(extension: Option<&str>, format: DownloadFormat) -> (r: bool)
    ensures
        r == (extension matches Some(e) && e@ == extension_of(format)),
{
    match extension {
        Some(e) => String::from_str(e) == String::from_str(format.extension()),
        None => false,
    }
}

} // verus!
