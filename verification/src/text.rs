use vstd::prelude::*;

verus! {

/// The characters of a string, in order.
pub fn collect_chars(s: &str) -> (v: Vec<char>)
    ensures
        v@ == s@,
{
    let mut v: Vec<char> = Vec::new();
    for c in it: s.chars()
        invariant
            it.seq() == s@,
            v@ == it.seq().take(it.index()),
    {
        v.push(c);
    }
    v
}

} // verus!

verus! {

/// The characters with the Unicode `White_Space` property, which is what
/// `char::is_whitespace` and `str::trim` go by.
pub open spec fn is_white_space(c: char) -> bool {
    let u = c as u32;
    ||| 0x09 <= u <= 0x0D
    ||| u == 0x20
    ||| u == 0x85
    ||| u == 0xA0
    ||| u == 0x1680
    ||| 0x2000 <= u <= 0x200A
    ||| u == 0x2028
    ||| u == 0x2029
    ||| u == 0x202F
    ||| u == 0x205F
    ||| u == 0x3000
}

/// Whether a character is white space.
pub fn is_whitespace(c: char) -> (r: bool)
    ensures
        r == is_white_space(c),
{
    let u = c as u32;
    (0x09 <= u && u <= 0x0D) || u == 0x20 || u == 0x85 || u == 0xA0 || u == 0x1680 || (0x2000 <= u
        && u <= 0x200A) || u == 0x2028 || u == 0x2029 || u == 0x202F || u == 0x205F || u == 0x3000
}

/// Index of the first character at or after `i` that is not white space, or the length.
pub open spec fn first_non_ws(s: Seq<char>, i: int) -> int
    decreases s.len() - i,
{
    if i < 0 || i >= s.len() {
        s.len() as int
    } else if !is_white_space(s[i]) {
        i
    } else {
        first_non_ws(s, i + 1)
    }
}

/// The end of the content before `j`: one past the last character before `j`
/// that is not white space, or 0.
pub open spec fn content_end(s: Seq<char>, j: int) -> int
    decreases j,
{
    if j <= 0 || j > s.len() {
        0
    } else if !is_white_space(s[j - 1]) {
        j
    } else {
        content_end(s, j - 1)
    }
}

/// `s` without its leading white space.
pub open spec fn spec_trim_start(s: Seq<char>) -> Seq<char> {
    s.subrange(first_non_ws(s, 0), s.len() as int)
}

/// `s` without its leading and trailing white space.
pub open spec fn spec_trim(s: Seq<char>) -> Seq<char> {
    let a = first_non_ws(s, 0);
    let b = content_end(s, s.len() as int);
    if a < b {
        s.subrange(a, b)
    } else {
        Seq::empty()
    }
}

proof fn lemma_content_end_bound(s: Seq<char>, j: int)
    ensures
        0 <= content_end(s, j),
        j >= 0 ==> content_end(s, j) <= j,
    decreases j,
{
    if j > 0 && j <= s.len() && is_white_space(s[j - 1]) {
        lemma_content_end_bound(s, j - 1);
    }
}

/// The bounds of the trimmed part of `cs`.
fn trim_bounds(cs: &Vec<char>) -> (r: (usize, usize))
    ensures
        r.0 == first_non_ws(cs@, 0),
        r.0 <= r.1 <= cs@.len(),
        cs@.subrange(r.0 as int, r.1 as int) == spec_trim(cs@),
{
    let n = cs.len();
    let mut a: usize = 0;
    while a < n && is_whitespace(cs[a])
        invariant
            n == cs@.len(),
            a <= n,
            first_non_ws(cs@, 0) == first_non_ws(cs@, a as int),
        decreases n - a,
    {
        a = a + 1;
    }
    let mut b: usize = n;
    while b > a && is_whitespace(cs[b - 1])
        invariant
            n == cs@.len(),
            a <= b <= n,
            a < n ==> !is_white_space(cs@[a as int]),
            a < n ==> b > a,
            content_end(cs@, n as int) == content_end(cs@, b as int),
        decreases b,
    {
        b = b - 1;
    }
    proof {
        if a < n {
            assert(content_end(cs@, b as int) == b);
        } else {
            assert(first_non_ws(cs@, 0) == n);
            lemma_content_end_bound(cs@, n as int);
            assert(cs@.subrange(a as int, b as int) =~= Seq::<char>::empty());
        }
    }
    (a, b)
}

/// `s` without its leading and trailing white space.
pub fn trim(s: &str) -> (r: String)
    ensures
        r@ == spec_trim(s@),
{
    let cs = collect_chars(s);
    let (a, b) = trim_bounds(&cs);
    String::from_str(s.substring_char(a, b))
}

/// Index of the first `'\n'` at or after `i`, or the length.
pub open spec fn next_newline(s: Seq<char>, i: int) -> int
    decreases s.len() - i,
{
    if i < 0 || i >= s.len() {
        s.len() as int
    } else if s[i] == '\n' {
        i
    } else {
        next_newline(s, i + 1)
    }
}

/// A line that ended with `'\n'` loses a final `'\r'`.
pub open spec fn strip_cr(line: Seq<char>) -> Seq<char> {
    if line.len() > 0 && line.last() == '\r' {
        line.drop_last()
    } else {
        line
    }
}

/// The lines of `s` from index `i` on, as `str::lines` yields them: split at
/// `'\n'`, a `'\r'` before the `'\n'` dropped, no empty line after a final `'\n'`.
pub open spec fn lines_from(s: Seq<char>, i: int) -> Seq<Seq<char>>
    decreases s.len() - i,
{
    if i < 0 || i >= s.len() {
        Seq::empty()
    } else {
        let e = next_newline(s, i);
        proof {
            lemma_next_newline_bound(s, i);
        }
        if e < s.len() {
            seq![strip_cr(s.subrange(i, e))] + lines_from(s, e + 1)
        } else {
            seq![s.subrange(i, e)]
        }
    }
}

/// The lines of `s`.
pub open spec fn spec_lines(s: Seq<char>) -> Seq<Seq<char>> {
    lines_from(s, 0)
}

/// The views of a sequence of strings.
pub open spec fn views(v: Seq<String>) -> Seq<Seq<char>> {
    v.map_values(|x: String| x@)
}

/// The next newline at or after `i` lies between `i` and the length.
pub proof fn lemma_next_newline_bound(s: Seq<char>, i: int)
    requires
        0 <= i <= s.len(),
    ensures
        i <= next_newline(s, i) <= s.len(),
    decreases s.len() - i,
{
    if i < s.len() && s[i] != '\n' {
        lemma_next_newline_bound(s, i + 1);
    }
}

/// The lines of `s`.
pub fn lines(s: &str) -> (r: Vec<String>)
    ensures
        views(r@) == spec_lines(s@),
{
    let cs = collect_chars(s);
    let n = cs.len();
    let mut out: Vec<String> = Vec::new();
    let mut start: usize = 0;
    let mut i: usize = 0;
    while i < n
        invariant
            n == cs@.len(),
            cs@ == s@,
            start <= i <= n,
            next_newline(cs@, start as int) == next_newline(cs@, i as int),
            views(out@) + lines_from(cs@, start as int) == spec_lines(cs@),
        decreases n - i,
    {
        if cs[i] == '\n' {
            proof {
                lemma_next_newline_bound(cs@, start as int);
            }
            let mut end = i;
            if end > start && cs[end - 1] == '\r' {
                end = end - 1;
            }
            let line = String::from_str(s.substring_char(start, end));
            proof {
                let raw = cs@.subrange(start as int, i as int);
                assert(line@ == strip_cr(raw)) by {
                    if i > start && cs@[i - 1] == '\r' {
                        assert(raw.drop_last() =~= cs@.subrange(start as int, end as int));
                    } else {
                        assert(raw =~= cs@.subrange(start as int, end as int));
                    }
                }
                assert(lines_from(cs@, start as int) == seq![line@] + lines_from(cs@, i + 1));
                assert(views(out@.push(line)) =~= views(out@).push(line@));
                assert(views(out@).push(line@) + lines_from(cs@, i + 1) =~= views(out@) + (seq![line@] + lines_from(cs@, i + 1)));
            }
            out.push(line);
            start = i + 1;
        }
        i = i + 1;
    }
    if start < n {
        let line = String::from_str(s.substring_char(start, n));
        proof {
            assert(next_newline(cs@, n as int) == n);
            assert(lines_from(cs@, start as int) =~= seq![line@]);
            assert(views(out@.push(line)) =~= views(out@).push(line@));
            assert(views(out@) + seq![line@] =~= views(out@).push(line@));
        }
        out.push(line);
    } else {
        proof {
            assert(views(out@) + Seq::<Seq<char>>::empty() =~= views(out@));
        }
    }
    out
}

} // verus!

verus! {

/// Whether `pat` occurs in `s` at index `i`.
pub open spec fn occurs_at(s: Seq<char>, pat: Seq<char>, i: int) -> bool {
    0 <= i && i + pat.len() <= s.len() && s.subrange(i, i + pat.len()) == pat
}

/// Index of the first occurrence of `pat` in `s` at or after `i`, or -1.
pub open spec fn find_from(s: Seq<char>, pat: Seq<char>, i: int) -> int
    decreases s.len() + 1 - i,
{
    if i < 0 || i + pat.len() > s.len() {
        -1
    } else if occurs_at(s, pat, i) {
        i
    } else {
        find_from(s, pat, i + 1)
    }
}

/// A found index is an occurrence.
pub proof fn lemma_find_from_occurs(s: Seq<char>, pat: Seq<char>, i: int)
    requires
        0 <= i,
    ensures
        find_from(s, pat, i) >= 0 ==> i <= find_from(s, pat, i) && occurs_at(s, pat, find_from(s, pat, i)),
        find_from(s, pat, i) >= -1,
    decreases s.len() + 1 - i,
{
    if i + pat.len() <= s.len() && !occurs_at(s, pat, i) {
        lemma_find_from_occurs(s, pat, i + 1);
    }
}

fn occurs_at_exec(cs: &Vec<char>, pat: &Vec<char>, i: usize) -> (r: bool)
    requires
        i <= cs@.len(),
    ensures
        r == occurs_at(cs@, pat@, i as int),
{
    if pat.len() > cs.len() - i {
        return false;
    }
    let m = pat.len();
    for k in 0..m
        invariant
            m == pat@.len(),
            i + m <= cs.len(),
            forall|j: int| 0 <= j < k ==> cs@[i + j] == pat@[j],
    {
        if cs[i + k] != pat[k] {
            proof {
                assert(cs@.subrange(i as int, i + m)[k as int] != pat@[k as int]);
            }
            return false;
        }
    }
    proof {
        assert(cs@.subrange(i as int, i + m) =~= pat@);
    }
    true
}

/// The index of the first occurrence of `pat` in `s`.
pub fn find(s: &str, pat: &str) -> (r: Option<usize>)
    ensures
        r matches Some(i) ==> i == find_from(s@, pat@, 0),
        r is None ==> find_from(s@, pat@, 0) == -1,
{
    let cs = collect_chars(s);
    let ps = collect_chars(pat);
    let n = cs.len();
    if ps.len() == 0 {
        proof {
            assert(cs@.subrange(0, 0) =~= ps@);
        }
        return Some(0);
    }
    if ps.len() > n {
        return None;
    }
    let last = n - ps.len();
    let mut i: usize = 0;
    while i <= last
        invariant
            n == cs@.len(),
            cs@ == s@,
            ps@ == pat@,
            last + ps@.len() == n,
            ps@.len() > 0,
            i <= last + 1,
            find_from(cs@, ps@, 0) == find_from(cs@, ps@, i as int),
        decreases last + 1 - i,
    {
        if occurs_at_exec(&cs, &ps, i) {
            return Some(i);
        }
        i = i + 1;
    }
    None
}

/// The code of a character with ASCII upper-case letters mapped to lower case.
pub open spec fn ascii_lower_code(c: char) -> u32 {
    let u = c as u32;
    if 65 <= u <= 90 {
        (u + 32) as u32
    } else {
        u
    }
}

/// Whether `pat` occurs in `s` at `i` when ASCII letters of `s` are folded to lower case.
pub open spec fn occurs_folded_at(s: Seq<char>, pat: Seq<char>, i: int) -> bool {
    &&& 0 <= i
    &&& i + pat.len() <= s.len()
    &&& forall|k: int| 0 <= k < pat.len() ==> ascii_lower_code(#[trigger] s[i + k]) == pat[k] as u32
}

/// Whether `s` contains `pat` once the ASCII capitals of `s` are folded to lower case.
/// For a `pat` of digits and lower-case ASCII letters other than `i` and `k`
/// (such as `vga` and `3d`) this is whether the fully lower-cased `s` contains
/// `pat`: no other character lower-cases to those. It is not for `k` (the
/// Kelvin sign lower-cases to it) nor `i` (a dotted capital I lower-cases to an
/// `i` and a combining dot).
pub open spec fn contains_folded(s: Seq<char>, pat: Seq<char>) -> bool {
    exists|i: int| occurs_folded_at(s, pat, i)
}

fn occurs_folded_at_exec(cs: &Vec<char>, pat: &Vec<char>, i: usize) -> (r: bool)
    requires
        i <= cs@.len(),
    ensures
        r == occurs_folded_at(cs@, pat@, i as int),
{
    if pat.len() > cs.len() - i {
        return false;
    }
    let m = pat.len();
    for k in 0..m
        invariant
            m == pat@.len(),
            i + m <= cs.len(),
            forall|j: int| 0 <= j < k ==> ascii_lower_code(#[trigger] cs@[i + j]) == pat@[j] as u32,
    {
        let u = cs[i + k] as u32;
        let lower = if 65 <= u && u <= 90 { u + 32 } else { u };
        if lower != pat[k] as u32 {
            return false;
        }
    }
    true
}

/// Whether `s`, with its ASCII capitals folded to lower case, contains `pat`
/// (see `contains_folded` for the patterns on which this is full lower-casing).
pub fn contains_lowercased(s: &str, pat: &str) -> (r: bool)
    ensures
        r == contains_folded(s@, pat@),
{
    let cs = collect_chars(s);
    let ps = collect_chars(pat);
    let n = cs.len();
    if ps.len() == 0 {
        assert(occurs_folded_at(cs@, ps@, 0));
        return true;
    }
    if ps.len() > n {
        return false;
    }
    let last = n - ps.len();
    let mut i: usize = 0;
    while i <= last
        invariant
            n == cs@.len(),
            cs@ == s@,
            ps@ == pat@,
            last + ps@.len() == n,
            ps@.len() > 0,
            i <= last + 1,
            forall|j: int| 0 <= j < i ==> !occurs_folded_at(cs@, ps@, j),
        decreases last + 1 - i,
    {
        if occurs_folded_at_exec(&cs, &ps, i) {
            return true;
        }
        i = i + 1;
    }
    proof {
        assert forall|j: int| !occurs_folded_at(cs@, ps@, j) by {
            if j > last {
                assert(!(j + ps@.len() <= cs@.len()));
            }
        }
    }
    false
}

/// `s` from index `i` on with every occurrence of `pat` (non-empty) removed,
/// scanning left to right as `str::replace` does.
pub open spec fn remove_all_from(s: Seq<char>, pat: Seq<char>, i: int) -> Seq<char>
    decreases s.len() - i,
{
    if i < 0 || i >= s.len() {
        Seq::empty()
    } else if pat.len() > 0 && occurs_at(s, pat, i) {
        remove_all_from(s, pat, i + pat.len())
    } else {
        seq![s[i]] + remove_all_from(s, pat, i + 1)
    }
}

/// `s` with every occurrence of `pat` removed.
pub open spec fn spec_remove_all(s: Seq<char>, pat: Seq<char>) -> Seq<char> {
    remove_all_from(s, pat, 0)
}

/// `s` with every occurrence of the non-empty `pat` replaced by nothing.
pub fn remove_all(s: &str, pat: &str) -> (r: String)
    requires
        pat@.len() > 0,
    ensures
        r@ == spec_remove_all(s@, pat@),
{
    let cs = collect_chars(s);
    let ps = collect_chars(pat);
    let n = cs.len();
    let mut out = String::new();
    let mut i: usize = 0;
    while i < n
        invariant
            n == cs@.len(),
            cs@ == s@,
            ps@ == pat@,
            ps@.len() > 0,
            i <= n,
            out@ + remove_all_from(cs@, ps@, i as int) == spec_remove_all(cs@, ps@),
        decreases n - i,
    {
        if occurs_at_exec(&cs, &ps, i) {
            i = i + ps.len();
        } else {
            let c = s.substring_char(i, i + 1);
            proof {
                assert(c@ =~= seq![cs@[i as int]]);
                assert(out@ + c@ + remove_all_from(cs@, ps@, i + 1) =~= out@ + (seq![cs@[i as int]] + remove_all_from(cs@, ps@, i + 1)));
            }
            out.append(c);
            i = i + 1;
        }
    }
    proof {
        assert(out@ + Seq::<char>::empty() =~= out@);
    }
    out
}

/// Whether `s` starts with `pat`.
pub open spec fn starts_with(s: Seq<char>, pat: Seq<char>) -> bool {
    pat.len() <= s.len() && s.subrange(0, pat.len() as int) == pat
}

/// Whether `s`, without its leading white space, starts with `pat`.
pub fn trimmed_starts_with(s: &str, pat: &str) -> (r: bool)
    ensures
        r == starts_with(spec_trim_start(s@), pat@),
{
    let cs = collect_chars(s);
    let ps = collect_chars(pat);
    let n = cs.len();
    let mut a: usize = 0;
    while a < n && is_whitespace(cs[a])
        invariant
            n == cs@.len(),
            a <= n,
            first_non_ws(cs@, 0) == first_non_ws(cs@, a as int),
        decreases n - a,
    {
        a = a + 1;
    }
    proof {
        assert(first_non_ws(cs@, a as int) == a);
        let t = cs@.subrange(a as int, n as int);
        if ps@.len() <= t.len() {
            assert(t.subrange(0, ps@.len() as int) =~= cs@.subrange(a as int, a + ps@.len()));
        }
    }
    occurs_at_exec(&cs, &ps, a)
}

} // verus!

verus! {

proof fn lemma_first_non_ws_prop(s: Seq<char>, i: int)
    requires
        0 <= i <= s.len(),
    ensures
        i <= first_non_ws(s, i) <= s.len(),
        first_non_ws(s, i) < s.len() ==> !is_white_space(s[first_non_ws(s, i)]),
    decreases s.len() - i,
{
    if i < s.len() && is_white_space(s[i]) {
        lemma_first_non_ws_prop(s, i + 1);
    }
}

proof fn lemma_content_end_prop(s: Seq<char>, j: int)
    requires
        0 <= j <= s.len(),
    ensures
        0 <= content_end(s, j) <= j,
        content_end(s, j) > 0 ==> !is_white_space(s[content_end(s, j) - 1]),
    decreases j,
{
    if j > 0 && is_white_space(s[j - 1]) {
        lemma_content_end_prop(s, j - 1);
    }
}

/// Trimming twice trims no more than trimming once: the trimmed text neither
/// starts nor ends with white space.
pub proof fn lemma_trim_idempotent(s: Seq<char>)
    ensures
        spec_trim(spec_trim(s)) == spec_trim(s),
{
    let t = spec_trim(s);
    lemma_first_non_ws_prop(s, 0);
    lemma_content_end_prop(s, s.len() as int);
    if t.len() == 0 {
        assert(spec_trim(t) =~= t);
    } else {
        let a = first_non_ws(s, 0);
        let b = content_end(s, s.len() as int);
        assert(t[0] == s[a]);
        assert(t[t.len() - 1] == s[b - 1]);
        assert(first_non_ws(t, 0) == 0);
        assert(content_end(t, t.len() as int) == t.len());
        assert(spec_trim(t) =~= t);
    }
}

} // verus!

verus! {

/// The text that `String::from_utf8_lossy` makes of some bytes: the bytes
/// decoded as UTF-8, each invalid sequence replaced by U+FFFD.
pub uninterp spec fn utf8_lossy(bytes: Seq<u8>) -> Seq<char>;

/// Bytes decoded as UTF-8 by `String::from_utf8_lossy`. The contract names
/// the result `utf8_lossy` of the bytes, and states what std documents of
/// valid UTF-8: it is decoded as it stands.
#[verifier::external_body]
pub(crate) fn decode_utf8_lossy(bytes: &[u8]) -> (s: String)
    ensures
        s@ == utf8_lossy(bytes@),
        vstd::utf8::valid_utf8(bytes@) ==> s@ == vstd::utf8::decode_utf8(bytes@),
{
    String::from_utf8_lossy(bytes).into_owned()
}

} // verus!
