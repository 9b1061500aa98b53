use vstd::prelude::*;

verus! {

/// A character that may be whitespace to `str::trim`: every ASCII control
/// character and space, and every character outside ASCII.
pub open spec fn blank(c: char) -> bool {
    (c as u32) <= 32 || (c as u32) >= 127
}

pub open spec fn is_digit(c: char) -> bool {
    48 <= (c as u32) && (c as u32) <= 57
}

/// `p` occurs in `t` at `i`.
pub open spec fn has_at(t: Seq<char>, i: int, p: Seq<char>) -> bool {
    0 <= i && i + p.len() <= t.len() && t.subrange(i, i + p.len()) == p
}

/// The number of consecutive digits of `t` from `i` on.
pub open spec fn digit_run(t: Seq<char>, i: int) -> nat
    decreases t.len() - i,
{
    if 0 <= i < t.len() && is_digit(t[i]) {
        1 + digit_run(t, i + 1)
    } else {
        0
    }
}

/// A line of `t` ends at `j`.
pub open spec fn line_end_at(t: Seq<char>, j: int) -> bool {
    ||| j == t.len()
    ||| 0 <= j < t.len() && t[j] == '\n'
    ||| 0 <= j < t.len() && t[j] == '\r' && (j + 1 == t.len() || t[j + 1] == '\n')
}

/// Where a plain decimal (one to eighteen digits, then optionally a point
/// and digits) that starts at `i` ends; `-1` where none starts there.
pub open spec fn decimal_end(t: Seq<char>, i: int) -> int {
    let n = digit_run(t, i);
    if n == 0 || n > 18 {
        -1
    } else if i + n < t.len() && t[i + n] == '.' {
        i + n + 1 + digit_run(t, i + n + 1)
    } else {
        i + n
    }
}

/// A plain decimal starts at `i` and is followed by a comma or a line end.
pub open spec fn decimal_field_at(t: Seq<char>, i: int) -> bool {
    let e = decimal_end(t, i);
    e >= 0 && (line_end_at(t, e) || (e < t.len() && t[e] == ','))
}

/// One to `max` digits start at `i` and are followed by a line end.
pub open spec fn digits_line_at(t: Seq<char>, i: int, max: nat) -> bool {
    let n = digit_run(t, i);
    1 <= n <= max && line_end_at(t, i + n)
}

/// From `k` to the end of its line, `t` holds only blanks.
pub open spec fn blank_to_eol(t: Seq<char>, k: int) -> bool
    decreases t.len() - k,
{
    k >= t.len() || (0 <= k && (t[k] == '\n' || (blank(t[k]) && blank_to_eol(t, k + 1))))
}

/// Going back from `k` over blanks, `t` reaches a `=`.
pub open spec fn eq_before(t: Seq<char>, k: int) -> bool
    decreases k + 1,
{
    0 <= k < t.len() && (t[k] == '=' || (blank(t[k]) && eq_before(t, k - 1)))
}

/// A quote at `i` that is all an attribute value holds.
pub open spec fn lone_quote_at(t: Seq<char>, i: int) -> bool {
    0 <= i < t.len() && t[i] == '"' && eq_before(t, i - 1) && blank_to_eol(t, i + 1)
}

/// Going back from `k` over blanks, `t` reaches a `,`, a `:`, a line start
/// or its start: a word that begins at `k + 1` may be an attribute name.
pub open spec fn boundary_before(t: Seq<char>, k: int) -> bool
    decreases k + 1,
{
    k < 0 || (k < t.len() && (t[k] == ',' || t[k] == ':' || t[k] == '\n' || (blank(t[k])
        && boundary_before(t, k - 1))))
}

/// The most digits a number added to another `usize` may have: the sum of two
/// such numbers, or of one and an index of the text, fits in `usize`.
pub open spec fn max_digits() -> nat {
    if usize::MAX >= 2_000_000_000_000_000_000 {
        18
    } else {
        9
    }
}

/// A byte range `<length>[@<start>]`, optionally after a quote, starts at
/// `k`, and each of its numbers has one to [`max_digits`] digits.
pub open spec fn range_at(t: Seq<char>, k: int) -> bool {
    let s = if 0 <= k < t.len() && t[k] == '"' {
        k + 1
    } else {
        k
    };
    let n = digit_run(t, s);
    let a = s + n;
    &&& 1 <= n <= max_digits()
    &&& (a < t.len() && t[a] == '@') ==> 1 <= digit_run(t, a + 1) <= max_digits()
}

/// Where the attribute name `w` stands at `i`, its value is a byte range
/// (`range`) or a plain decimal; a blank between name and `=` is refused.
pub open spec fn attribute_ok(t: Seq<char>, i: int, w: Seq<char>, range: bool) -> bool {
    (has_at(t, i, w) && boundary_before(t, i - 1)) ==> {
        let j = i + w.len();
        if j < t.len() && t[j] == '=' {
            if range {
                range_at(t, j + 1)
            } else {
                decimal_field_at(t, j + 1)
            }
        } else {
            !(j < t.len() && blank(t[j]))
        }
    }
}

pub open spec fn extinf_tag() -> Seq<char> {
    seq!['#', 'E', 'X', 'T', 'I', 'N', 'F', ':']
}

pub open spec fn target_tag() -> Seq<char> {
    seq!['#', 'E', 'X', 'T', '-', 'X', '-', 'T', 'A', 'R', 'G', 'E', 'T', 'D', 'U', 'R', 'A', 'T', 'I', 'O', 'N', ':']
}

pub open spec fn sequence_tag() -> Seq<char> {
    seq!['#', 'E', 'X', 'T', '-', 'X', '-', 'M', 'E', 'D', 'I', 'A', '-', 'S', 'E', 'Q', 'U', 'E', 'N', 'C', 'E', ':']
}

pub open spec fn byterange_tag() -> Seq<char> {
    seq!['#', 'E', 'X', 'T', '-', 'X', '-', 'B', 'Y', 'T', 'E', 'R', 'A', 'N', 'G', 'E', ':']
}

pub open spec fn duration_word() -> Seq<char> {
    seq!['D', 'U', 'R', 'A', 'T', 'I', 'O', 'N']
}

pub open spec fn planned_word() -> Seq<char> {
    seq!['P', 'L', 'A', 'N', 'N', 'E', 'D', '-', 'D', 'U', 'R', 'A', 'T', 'I', 'O', 'N']
}

pub open spec fn byterange_word() -> Seq<char> {
    seq!['B', 'Y', 'T', 'E', 'R', 'A', 'N', 'G', 'E']
}

/// Nothing that starts at `i` leads the playlist parser into a panic.
pub open spec fn safe_at(t: Seq<char>, i: int) -> bool {
    &&& has_at(t, i, extinf_tag()) ==> decimal_field_at(t, i + 8)
    &&& has_at(t, i, target_tag()) ==> digits_line_at(t, i + 22, 18)
    &&& has_at(t, i, sequence_tag()) ==> digits_line_at(t, i + 22, max_digits())
    &&& has_at(t, i, byterange_tag()) ==> range_at(t, i + 17)
    &&& attribute_ok(t, i, duration_word(), false)
    &&& attribute_ok(t, i, planned_word(), false)
    &&& attribute_ok(t, i, byterange_word(), true)
    &&& !lone_quote_at(t, i)
}

/// A playlist text whose segment durations, date-range durations, target
/// duration, media sequence and byte ranges are plain numbers small enough
/// for the arithmetic the parser does on them, and that holds no attribute
/// value that is a lone quote. On such a text the `hls_m3u8` parser returns.
pub open spec fn playlist_text_safe(t: Seq<char>) -> bool {
    forall|i: int| 0 <= i < t.len() ==> safe_at(t, i)
}

/// Relies on `str::chars`, collected: the characters of `s` in order.
#[verifier::external_body]
fn chars_of(s: &str) -> (r: Vec<char>)
    ensures
        r@ == s@,
{
    s.chars().collect()
}

fn has_at_exec(t: &Vec<char>, i: usize, p: &Vec<char>) -> (r: bool)
    ensures
        r == has_at(t@, i as int, p@),
{
    if i > t.len() || p.len() > t.len() - i {
        return false;
    }
    let mut k: usize = 0;
    while k < p.len()
        invariant
            i + p.len() <= t.len(),
            k <= p.len(),
            forall|m: int| 0 <= m < k ==> t@[i + m] == p@[m],
        decreases p.len() - k,
    {
        if t[i + k] != p[k] {
            proof {
                assert(t@.subrange(i as int, i + p.len())[k as int] != p@[k as int]);
            }
            return false;
        }
        k = k + 1;
    }
    proof {
        assert(t@.subrange(i as int, i + p.len()) =~= p@);
    }
    true
}

fn digit_exec(c: char) -> (r: bool)
    ensures
        r == is_digit(c),
{
    '0' <= c && c <= '9'
}

fn blank_exec(c: char) -> (r: bool)
    ensures
        r == blank(c),
{
    (c as u32) <= 32 || (c as u32) >= 127
}

proof fn lemma_digit_run_step(t: Seq<char>, i: int, k: int)
    requires
        0 <= i <= k <= t.len(),
        forall|m: int| i <= m < k ==> is_digit(t[m]),
    ensures
        digit_run(t, i) == (k - i) + digit_run(t, k),
    decreases k - i,
{
    if i < k {
        lemma_digit_run_step(t, i + 1, k);
    }
}

fn digit_run_exec(t: &Vec<char>, i: usize) -> (r: usize)
    ensures
        r as int == digit_run(t@, i as int),
        i <= t.len() ==> i + r <= t.len(),
{
    if i >= t.len() {
        return 0;
    }
    let mut k: usize = i;
    while k < t.len() && digit_exec(t[k])
        invariant
            i <= k <= t.len(),
            forall|m: int| i <= m < k ==> is_digit(t@[m]),
        decreases t.len() - k,
    {
        k = k + 1;
    }
    proof {
        lemma_digit_run_step(t@, i as int, k as int);
    }
    k - i
}

fn line_end_exec(t: &Vec<char>, j: usize) -> (r: bool)
    ensures
        r == line_end_at(t@, j as int),
{
    j == t.len() || (j < t.len() && (t[j] == '\n' || (t[j] == '\r' && (j + 1 == t.len()
        || t[j + 1] == '\n'))))
}

fn decimal_field_exec(t: &Vec<char>, i: usize) -> (r: bool)
    requires
        i <= t.len(),
    ensures
        r == decimal_field_at(t@, i as int),
{
    let n = digit_run_exec(t, i);
    if n == 0 || n > 18 {
        return false;
    }
    let e = if i + n < t.len() && t[i + n] == '.' {
        let f = digit_run_exec(t, i + n + 1);
        i + n + 1 + f
    } else {
        i + n
    };
    line_end_exec(t, e) || (e < t.len() && t[e] == ',')
}

fn digits_line_exec(t: &Vec<char>, i: usize, max: usize) -> (r: bool)
    requires
        i <= t.len(),
    ensures
        r == digits_line_at(t@, i as int, max as nat),
{
    let n = digit_run_exec(t, i);
    1 <= n && n <= max && line_end_exec(t, i + n)
}

fn blank_to_eol_exec(t: &Vec<char>, k: usize) -> (r: bool)
    ensures
        r == blank_to_eol(t@, k as int),
{
    let mut j: usize = k;
    while j < t.len() && t[j] != '\n' && blank_exec(t[j])
        invariant
            k <= j,
            blank_to_eol(t@, k as int) == blank_to_eol(t@, j as int),
        decreases t.len() - j,
    {
        j = j + 1;
    }
    j >= t.len() || t[j] == '\n'
}

fn eq_before_exec(t: &Vec<char>, i: usize) -> (r: bool)
    requires
        i <= t.len(),
    ensures
        r == eq_before(t@, i - 1),
{
    let mut j: usize = i;
    while j > 0 && t[j - 1] != '=' && blank_exec(t[j - 1])
        invariant
            j <= i <= t.len(),
            eq_before(t@, i - 1) == eq_before(t@, j - 1),
        decreases j,
    {
        j = j - 1;
    }
    j > 0 && t[j - 1] == '='
}

fn boundary_before_exec(t: &Vec<char>, i: usize) -> (r: bool)
    requires
        i <= t.len(),
    ensures
        r == boundary_before(t@, i - 1),
{
    let mut j: usize = i;
    while j > 0 && t[j - 1] != ',' && t[j - 1] != ':' && t[j - 1] != '\n' && blank_exec(t[j - 1])
        invariant
            j <= i <= t.len(),
            boundary_before(t@, i - 1) == boundary_before(t@, j - 1),
        decreases j,
    {
        j = j - 1;
    }
    j == 0 || t[j - 1] == ',' || t[j - 1] == ':' || t[j - 1] == '\n'
}

fn max_digits_exec() -> (r: usize)
    ensures
        r as nat == max_digits(),
{
    if (usize::MAX as u64) >= 2_000_000_000_000_000_000u64 {
        18
    } else {
        9
    }
}

fn range_exec(t: &Vec<char>, k: usize) -> (r: bool)
    requires
        k <= t.len(),
    ensures
        r == range_at(t@, k as int),
{
    let s = if k < t.len() && t[k] == '"' {
        k + 1
    } else {
        k
    };
    let n = digit_run_exec(t, s);
    let max = max_digits_exec();
    if n < 1 || n > max {
        return false;
    }
    let a = s + n;
    if a < t.len() && t[a] == '@' {
        let m = digit_run_exec(t, a + 1);
        1 <= m && m <= max
    } else {
        true
    }
}

fn attribute_exec(t: &Vec<char>, i: usize, w: &Vec<char>, range: bool) -> (r: bool)
    requires
        i < t.len(),
    ensures
        r == attribute_ok(t@, i as int, w@, range),
{
    if !(has_at_exec(t, i, w) && boundary_before_exec(t, i)) {
        return true;
    }
    let j = i + w.len();
    if j < t.len() && t[j] == '=' {
        if range {
            range_exec(t, j + 1)
        } else {
            decimal_field_exec(t, j + 1)
        }
    } else {
        !(j < t.len() && blank_exec(t[j]))
    }
}

fn safe_at_exec(t: &Vec<char>, i: usize, w: &Words) -> (r: bool)
    requires
        i < t.len(),
        w.wf(),
    ensures
        r == safe_at(t@, i as int),
{
    if has_at_exec(t, i, &w.extinf) && !decimal_field_exec(t, i + 8) {
        return false;
    }
    if has_at_exec(t, i, &w.target) && !digits_line_exec(t, i + 22, 18) {
        return false;
    }
    if has_at_exec(t, i, &w.sequence) && !digits_line_exec(t, i + 22, max_digits_exec()) {
        return false;
    }
    if has_at_exec(t, i, &w.byterange_tag) && !range_exec(t, i + 17) {
        return false;
    }
    if !attribute_exec(t, i, &w.duration, false) || !attribute_exec(t, i, &w.planned, false)
        || !attribute_exec(t, i, &w.byterange, true) {
        return false;
    }
    !(t[i] == '"' && eq_before_exec(t, i) && blank_to_eol_exec(t, i + 1))
}

struct Words {
    extinf: Vec<char>,
    target: Vec<char>,
    sequence: Vec<char>,
    byterange_tag: Vec<char>,
    duration: Vec<char>,
    planned: Vec<char>,
    byterange: Vec<char>,
}

impl Words {
    spec fn wf(&self) -> bool {
        &&& self.extinf@ == extinf_tag()
        &&& self.target@ == target_tag()
        &&& self.sequence@ == sequence_tag()
        &&& self.byterange_tag@ == byterange_tag()
        &&& self.duration@ == duration_word()
        &&& self.planned@ == planned_word()
        &&& self.byterange@ == byterange_word()
    }

    fn new() -> (r: Words)
        ensures
            r.wf(),
    {
        let r = Words {
            extinf: vec!['#', 'E', 'X', 'T', 'I', 'N', 'F', ':'],
            target: vec!['#', 'E', 'X', 'T', '-', 'X', '-', 'T', 'A', 'R', 'G', 'E', 'T', 'D', 'U', 'R', 'A', 'T', 'I', 'O', 'N', ':'],
            sequence: vec!['#', 'E', 'X', 'T', '-', 'X', '-', 'M', 'E', 'D', 'I', 'A', '-', 'S', 'E', 'Q', 'U', 'E', 'N', 'C', 'E', ':'],
            byterange_tag: vec!['#', 'E', 'X', 'T', '-', 'X', '-', 'B', 'Y', 'T', 'E', 'R', 'A', 'N', 'G', 'E', ':'],
            duration: vec!['D', 'U', 'R', 'A', 'T', 'I', 'O', 'N'],
            planned: vec!['P', 'L', 'A', 'N', 'N', 'E', 'D', '-', 'D', 'U', 'R', 'A', 'T', 'I', 'O', 'N'],
            byterange: vec!['B', 'Y', 'T', 'E', 'R', 'A', 'N', 'G', 'E'],
        };
        proof {
            assert(r.extinf@ =~= extinf_tag());
            assert(r.target@ =~= target_tag());
            assert(r.sequence@ =~= sequence_tag());
            assert(r.byterange_tag@ =~= byterange_tag());
            assert(r.duration@ =~= duration_word());
            assert(r.planned@ =~= planned_word());
            assert(r.byterange@ =~= byterange_word());
        }
        r
    }
}

/// Whether the playlist parser can be trusted to return on `text`.
pub fn is_playlist_text_safe(text: &str) -> (r: bool)
    ensures
        r == playlist_text_safe(text@),
{
    let t = chars_of(text);
    let w = Words::new();
    let mut i: usize = 0;
    while i < t.len()
        invariant
            t@ == text@,
            w.wf(),
            i <= t.len(),
            forall|j: int| 0 <= j < i ==> safe_at(t@, j),
        decreases t.len() - i,
    {
        if !safe_at_exec(&t, i, &w) {
            return false;
        }
        i = i + 1;
    }
    true
}

} // verus!
