//! Byte-level text scraping: the primitives the report and listing parsers
//! are built on.  Everything works on raw bytes, so the contracts speak of
//! byte sequences throughout.

use vstd::prelude::*;
use vstd::string::StringExecFns;

verus! {

/// ASCII lowercase of one byte: letters fold, everything else is itself.
pub open spec fn lower_byte(b: u8) -> u8 {
    if 65 <= b <= 90 {
        (b + 32) as u8
    } else {
        b
    }
}

/// ASCII lowercase of a byte sequence.
pub open spec fn lower_bytes(s: Seq<u8>) -> Seq<u8> {
    s.map_values(|b: u8| lower_byte(b))
}

/// ASCII-lowercase a byte slice.
pub fn to_lower_bytes(s: &[u8]) -> (r: Vec<u8>)
    ensures
        r@ == lower_bytes(s@),
{
    let mut r: Vec<u8> = Vec::new();
    let mut i: usize = 0;
    while i < s.len()
        invariant
            i <= s@.len(),
            r@ == lower_bytes(s@.subrange(0, i as int)),
        decreases s@.len() - i,
    {
        let b = s[i];
        let low: u8 = if b >= 65 && b <= 90 {
            b + 32
        } else {
            b
        };
        r.push(low);
        proof {
            assert(lower_bytes(s@.subrange(0, i + 1 as int)) =~= lower_bytes(
                s@.subrange(0, i as int),
            ).push(lower_byte(s@[i as int])));
        }
        i = i + 1;
    }
    proof {
        assert(s@.subrange(0, s@.len() as int) =~= s@);
    }
    r
}

/// The bytes of an ASCII string slice, one byte per character.
pub fn ascii_bytes(s: &str) -> (r: &[u8])
    requires
        s.is_ascii(),
    ensures
        r@ == s@.map_values(|c: char| c as u8),
{
    let r = s.as_bytes();
    proof {
        broadcast use vstd::string::is_ascii_spec_bytes;

        assert(r@ =~= s@.map_values(|c: char| c as u8));
    }
    r
}

/// Whether `n` occurs as a contiguous run inside `h`.
pub open spec fn bytes_contain(h: Seq<u8>, n: Seq<u8>) -> bool {
    exists|i: int|
        0 <= i && i + n.len() <= h.len() && #[trigger] h.subrange(i, i + n.len() as int) == n
}

/// Search `h` for the pattern `n`.
pub fn contains_bytes(h: &[u8], n: &[u8]) -> (r: bool)
    ensures
        r == bytes_contain(h@, n@),
{
    let hl = h.len();
    let nl = n.len();
    if nl > hl {
        return false;
    }
    let mut i: usize = 0;
    while i <= hl - nl
        invariant
            nl <= hl,
            hl == h@.len(),
            nl == n@.len(),
            i <= hl - nl + 1,
            forall|k: int| 0 <= k < i ==> #[trigger] h@.subrange(k, k + nl as int) != n@,
        decreases hl - nl + 1 - i,
    {
        let mut j: usize = 0;
        while j < nl && h[i + j] == n[j]
            invariant
                nl <= hl,
                hl == h@.len(),
                nl == n@.len(),
                i + nl <= hl,
                j <= nl,
                forall|t: int| 0 <= t < j ==> h@[i + t] == #[trigger] n@[t],
            decreases nl - j,
        {
            j = j + 1;
        }
        if j == nl {
            proof {
                assert(h@.subrange(i as int, i + nl as int) =~= n@);
            }
            return true;
        }
        proof {
            assert(h@.subrange(i as int, i + nl as int)[j as int] == h@[i + j]);
        }
        i = i + 1;
    }
    proof {
        assert forall|k: int| 0 <= k && k + n@.len() <= h@.len() implies #[trigger] h@.subrange(
            k,
            k + n@.len() as int,
        ) != n@ by {}
    }
    false
}

/// Whether a byte is ASCII whitespace (space, tab, carriage return or
/// newline).
pub open spec fn is_ws(b: u8) -> bool {
    b == 32 || b == 9 || b == 13 || b == 10
}

/// Position of the first occurrence of `b` in `s`, or the length of `s`
/// when it does not occur.
pub open spec fn first_byte(s: Seq<u8>, b: u8) -> nat
    decreases s.len(),
{
    if s.len() == 0 {
        0
    } else if s[0] == b {
        0
    } else {
        1 + first_byte(s.drop_first(), b)
    }
}

/// `first_byte` is exactly the position the scan characterizes: everything
/// before it differs from `b`, and it either hits `b` or runs off the end.
pub proof fn lemma_first_byte_at(s: Seq<u8>, b: u8, k: nat)
    requires
        k <= s.len(),
        forall|t: int| 0 <= t < k ==> s[t] != b,
        k < s.len() ==> s[k as int] == b,
        k == s.len() ==> forall|t: int| 0 <= t < s.len() ==> s[t] != b,
    ensures
        first_byte(s, b) == k,
    decreases s.len(),
{
    if s.len() > 0 && s[0] != b {
        lemma_first_byte_at(s.drop_first(), b, (k - 1) as nat);
    }
}

/// The lines of a byte text, split on newline bytes; the final fragment
/// counts as a line even without a trailing newline, and an empty text has
/// no lines.
pub open spec fn byte_lines(s: Seq<u8>) -> Seq<Seq<u8>>
    decreases s.len(),
{
    if s.len() == 0 {
        Seq::empty()
    } else {
        let i = first_byte(s, 10);
        if i < s.len() {
            seq![s.subrange(0, i as int)] + byte_lines(
                s.subrange(i + 1 as int, s.len() as int),
            )
        } else {
            seq![s]
        }
    }
}

/// Split a byte text into its lines.
pub fn split_lines(s: &[u8]) -> (r: Vec<Vec<u8>>)
    ensures
        r.deep_view() == byte_lines(s@),
{
    let mut r: Vec<Vec<u8>> = Vec::new();
    proof {
        assert(s@.subrange(0, s@.len() as int) =~= s@);
        assert(r.deep_view() + byte_lines(s@) =~= byte_lines(s@));
    }
    let mut pos: usize = 0;
    while pos < s.len()
        invariant
            pos <= s@.len(),
            byte_lines(s@) == r.deep_view() + byte_lines(s@.subrange(pos as int, s@.len() as int)),
        decreases s@.len() - pos,
    {
        let ghost rest = s@.subrange(pos as int, s@.len() as int);
        let mut e: usize = pos;
        while e < s.len() && s[e] != 10
            invariant
                pos <= e <= s@.len(),
                forall|k: int| pos <= k < e ==> s@[k] != 10,
            decreases s@.len() - e,
        {
            e = e + 1;
        }
        proof {
            assert forall|t: int| 0 <= t < e - pos implies rest[t] != 10 by {
                assert(rest[t] == s@[pos + t]);
            }
            if e < s@.len() {
                assert(rest[e - pos] == s@[e as int]);
            }
            lemma_first_byte_at(rest, 10, (e - pos) as nat);
        }
        let ghost this_line = s@.subrange(pos as int, e as int);
        let line = vstd::slice::slice_to_vec(vstd::slice::slice_subrange(s, pos, e));
        proof {
            assert(line.deep_view() =~= this_line);
        }
        let ghost prev = r.deep_view();
        r.push(line);
        proof {
            assert(r.deep_view() =~= prev.push(this_line));
        }
        if e < s.len() {
            proof {
                let tail = s@.subrange(e + 1 as int, s@.len() as int);
                assert(rest.subrange(0, e - pos) =~= this_line);
                assert(rest.subrange(e - pos + 1, rest.len() as int) =~= tail);
                assert(byte_lines(rest) == seq![rest.subrange(0, e - pos)] + byte_lines(
                    rest.subrange(e - pos + 1, rest.len() as int),
                ));
                assert(prev + (seq![this_line] + byte_lines(tail)) =~= prev.push(this_line)
                    + byte_lines(tail));
            }
            pos = e + 1;
        } else {
            proof {
                assert(rest =~= this_line);
                assert(byte_lines(rest) == seq![rest]);
                assert(byte_lines(s@.subrange(s@.len() as int, s@.len() as int)) == Seq::<
                    Seq<u8>,
                >::empty());
                assert(prev + seq![rest] =~= prev.push(this_line) + byte_lines(
                    s@.subrange(s@.len() as int, s@.len() as int),
                ));
            }
            pos = e;
        }
    }
    proof {
        assert(s@.subrange(pos as int, s@.len() as int).len() == 0);
        assert(r.deep_view() + byte_lines(s@.subrange(pos as int, s@.len() as int))
            =~= r.deep_view());
    }
    r
}

/// A byte sequence with its leading ASCII whitespace dropped.
pub open spec fn trim_start(s: Seq<u8>) -> Seq<u8>
    decreases s.len(),
{
    if s.len() > 0 && is_ws(s[0]) {
        trim_start(s.drop_first())
    } else {
        s
    }
}

/// A byte sequence with its trailing ASCII whitespace dropped.
pub open spec fn trim_end(s: Seq<u8>) -> Seq<u8>
    decreases s.len(),
{
    if s.len() > 0 && is_ws(s.last()) {
        trim_end(s.drop_last())
    } else {
        s
    }
}

/// A byte sequence with whitespace dropped from both ends.
pub open spec fn trim_bytes(s: Seq<u8>) -> Seq<u8> {
    trim_end(trim_start(s))
}

/// Drop ASCII whitespace from both ends of a byte slice.
pub fn trim(s: &[u8]) -> (r: Vec<u8>)
    ensures
        r@ == trim_bytes(s@),
{
    let mut a: usize = 0;
    proof {
        assert(s@.subrange(0, s@.len() as int) =~= s@);
    }
    while a < s.len() && (s[a] == 32 || s[a] == 9 || s[a] == 13 || s[a] == 10)
        invariant
            a <= s@.len(),
            trim_start(s@) == trim_start(s@.subrange(a as int, s@.len() as int)),
        decreases s@.len() - a,
    {
        proof {
            assert(s@.subrange(a as int, s@.len() as int).drop_first() =~= s@.subrange(
                a + 1 as int,
                s@.len() as int,
            ));
        }
        a = a + 1;
    }
    proof {
        assert(trim_start(s@) == s@.subrange(a as int, s@.len() as int));
    }
    let mut z: usize = s.len();
    while z > a && (s[z - 1] == 32 || s[z - 1] == 9 || s[z - 1] == 13 || s[z - 1] == 10)
        invariant
            a <= z <= s@.len(),
            trim_start(s@) == s@.subrange(a as int, s@.len() as int),
            trim_end(trim_start(s@)) == trim_end(s@.subrange(a as int, z as int)),
        decreases z,
    {
        proof {
            assert(s@.subrange(a as int, z as int).drop_last() =~= s@.subrange(
                a as int,
                z - 1 as int,
            ));
        }
        z = z - 1;
    }
    proof {
        assert(trim_end(s@.subrange(a as int, z as int)) == s@.subrange(a as int, z as int));
    }
    vstd::slice::slice_to_vec(vstd::slice::slice_subrange(s, a, z))
}

/// The text between the first and second colon of a line (to its end when
/// there is only one), trimmed; empty when the line has no colon.  This is
/// how a labelled value is read off a `label: value` report line.
pub open spec fn second_field(line: Seq<u8>) -> Seq<u8> {
    let i = first_byte(line, 58);
    if i < line.len() {
        let rest = line.subrange(i + 1 as int, line.len() as int);
        trim_bytes(rest.subrange(0, first_byte(rest, 58) as int))
    } else {
        Seq::empty()
    }
}

/// Read the `value` off a `label: value [: more]` line, trimmed; empty
/// when the line carries no colon.
pub fn read_second_field(line: &[u8]) -> (r: Vec<u8>)
    ensures
        r@ == second_field(line@),
{
    let mut i: usize = 0;
    while i < line.len() && line[i] != 58
        invariant
            i <= line@.len(),
            forall|k: int| 0 <= k < i ==> line@[k] != 58,
        decreases line@.len() - i,
    {
        i = i + 1;
    }
    proof {
        lemma_first_byte_at(line@, 58, i as nat);
    }
    if i == line.len() {
        proof {
            assert(trim_bytes(Seq::<u8>::empty()) == Seq::<u8>::empty());
        }
        Vec::new()
    } else {
        let ghost rest = line@.subrange(i + 1 as int, line@.len() as int);
        let mut j: usize = i + 1;
        while j < line.len() && line[j] != 58
            invariant
                i + 1 <= j <= line@.len(),
                forall|k: int| i + 1 <= k < j ==> line@[k] != 58,
            decreases line@.len() - j,
        {
            j = j + 1;
        }
        proof {
            assert forall|t: int| 0 <= t < j - i - 1 implies rest[t] != 58 by {
                assert(rest[t] == line@[i + 1 + t]);
            }
            if j < line@.len() {
                assert(rest[j - i - 1] == line@[j as int]);
            }
            lemma_first_byte_at(rest, 58, (j - i - 1) as nat);
            assert(rest.subrange(0, j - i - 1) =~= line@.subrange(i + 1 as int, j as int));
        }
        let seg = vstd::slice::slice_subrange(line, i + 1, j);
        trim(seg)
    }
}

/// The trailing non-whitespace run of a byte sequence once its trailing
/// whitespace is dropped: the last whitespace-separated token, or empty
/// when the sequence is all whitespace.
pub open spec fn nonws_suffix(t: Seq<u8>) -> Seq<u8>
    decreases t.len(),
{
    if t.len() == 0 || is_ws(t.last()) {
        Seq::empty()
    } else {
        nonws_suffix(t.drop_last()).push(t.last())
    }
}

/// The last whitespace-separated token of a line.
pub open spec fn last_token(line: Seq<u8>) -> Seq<u8> {
    nonws_suffix(trim_end(line))
}

/// Read the last whitespace-separated token of a line; empty when the
/// line is blank.
pub fn read_last_token(line: &[u8]) -> (r: Vec<u8>)
    ensures
        r@ == last_token(line@),
{
    proof {
        assert(line@.subrange(0, line@.len() as int) =~= line@);
    }
    let mut z: usize = line.len();
    while z > 0 && (line[z - 1] == 32 || line[z - 1] == 9 || line[z - 1] == 13 || line[z - 1]
        == 10)
        invariant
            z <= line@.len(),
            trim_end(line@) == trim_end(line@.subrange(0, z as int)),
        decreases z,
    {
        proof {
            assert(line@.subrange(0, z as int).drop_last() =~= line@.subrange(0, z - 1 as int));
        }
        z = z - 1;
    }
    proof {
        assert(trim_end(line@) == line@.subrange(0, z as int));
    }
    let mut a: usize = z;
    while a > 0 && !(line[a - 1] == 32 || line[a - 1] == 9 || line[a - 1] == 13 || line[a - 1]
        == 10)
        invariant
            a <= z <= line@.len(),
            nonws_suffix(line@.subrange(0, z as int)) =~= nonws_suffix(
                line@.subrange(0, a as int),
            ) + line@.subrange(a as int, z as int),
        decreases a,
    {
        proof {
            let cur = line@.subrange(0, a as int);
            assert(cur.drop_last() =~= line@.subrange(0, a - 1 as int));
            assert(cur.last() == line@[a - 1]);
            assert(nonws_suffix(cur) == nonws_suffix(line@.subrange(0, a - 1 as int)).push(
                line@[a - 1],
            ));
            assert(nonws_suffix(line@.subrange(0, a - 1 as int)) + line@.subrange(
                a - 1 as int,
                z as int,
            ) =~= nonws_suffix(line@.subrange(0, a as int)) + line@.subrange(a as int, z as int));
        }
        a = a - 1;
    }
    proof {
        assert(nonws_suffix(line@.subrange(0, a as int)) == Seq::<u8>::empty());
        assert(nonws_suffix(line@.subrange(0, z as int)) =~= line@.subrange(a as int, z as int));
    }
    vstd::slice::slice_to_vec(vstd::slice::slice_subrange(line, a, z))
}

/// The ` - ` separator between the fields of a drive-list entry.
pub open spec fn entry_sep() -> Seq<u8> {
    seq![32u8, 45u8, 32u8]
}

/// Position of the first occurrence of `pat` in `s`, or the length of `s`
/// when it does not occur.
pub open spec fn first_sub(s: Seq<u8>, pat: Seq<u8>) -> nat
    decreases s.len(),
{
    if pat.len() == 0 {
        0
    } else if s.len() < pat.len() {
        s.len()
    } else if s.subrange(0, pat.len() as int) == pat {
        0
    } else {
        1 + first_sub(s.drop_first(), pat)
    }
}

/// `first_sub` is exactly the position of a match that nothing earlier
/// matches before.
pub proof fn lemma_first_sub_at(s: Seq<u8>, pat: Seq<u8>, k: nat)
    requires
        pat.len() >= 1,
        k + pat.len() <= s.len(),
        forall|m: int| 0 <= m < k ==> #[trigger] s.subrange(m, m + pat.len() as int) != pat,
        s.subrange(k as int, k + pat.len() as int) == pat,
    ensures
        first_sub(s, pat) == k,
    decreases s.len(),
{
    if s.subrange(0, pat.len() as int) == pat {
        if k > 0 {
            assert(s.subrange(0, 0 + pat.len() as int) != pat);
        }
    } else {
        let s2 = s.drop_first();
        assert(k > 0) by {
            assert(s.subrange(0, pat.len() as int) != pat);
        }
        assert forall|m: int| 0 <= m < k - 1 implies #[trigger] s2.subrange(
            m,
            m + pat.len() as int,
        ) != pat by {
            assert(s2.subrange(m, m + pat.len() as int) =~= s.subrange(
                m + 1,
                m + 1 + pat.len() as int,
            ));
            assert(s.subrange(m + 1, m + 1 + pat.len() as int) != pat);
        }
        assert(s2.subrange(k - 1, k - 1 + pat.len() as int) =~= s.subrange(
            k as int,
            k + pat.len() as int,
        ));
        lemma_first_sub_at(s2, pat, (k - 1) as nat);
    }
}

/// When `pat` occurs nowhere in `s`, `first_sub` is the length of `s`.
pub proof fn lemma_first_sub_none(s: Seq<u8>, pat: Seq<u8>)
    requires
        pat.len() >= 1,
        forall|m: int|
            0 <= m && m + pat.len() <= s.len() ==> #[trigger] s.subrange(m, m + pat.len() as int)
                != pat,
    ensures
        first_sub(s, pat) == s.len(),
    decreases s.len(),
{
    if s.len() >= pat.len() {
        assert(s.subrange(0, 0 + pat.len() as int) != pat);
        let s2 = s.drop_first();
        assert forall|m: int| 0 <= m && m + pat.len() <= s2.len() implies #[trigger] s2.subrange(
            m,
            m + pat.len() as int,
        ) != pat by {
            assert(s2.subrange(m, m + pat.len() as int) =~= s.subrange(
                m + 1,
                m + 1 + pat.len() as int,
            ));
            assert(s.subrange(m + 1, m + 1 + pat.len() as int) != pat);
        }
        lemma_first_sub_none(s2, pat);
    }
}

/// The prefix of `s` before the first occurrence of `pat`, or all of `s`
/// when it does not occur.
pub fn prefix_before_sub(s: &[u8], pat: &[u8]) -> (r: Vec<u8>)
    requires
        pat@.len() >= 1,
    ensures
        r@ == s@.subrange(0, first_sub(s@, pat@) as int),
{
    let pl = pat.len();
    if pl > s.len() {
        proof {
            lemma_first_sub_none(s@, pat@);
            assert(s@.subrange(0, s@.len() as int) =~= s@);
        }
        return vstd::slice::slice_to_vec(s);
    }
    let mut i: usize = 0;
    while i <= s.len() - pl
        invariant
            1 <= pl == pat@.len() <= s@.len(),
            i <= s@.len() - pl + 1,
            forall|m: int| 0 <= m < i ==> #[trigger] s@.subrange(m, m + pat@.len() as int)
                != pat@,
        decreases s@.len() - pl + 1 - i,
    {
        let mut j: usize = 0;
        while j < pl && s[i + j] == pat[j]
            invariant
                1 <= pl == pat@.len(),
                i + pl <= s@.len(),
                s@.len() == s.len(),
                j <= pl,
                forall|t: int| 0 <= t < j ==> s@[i + t] == #[trigger] pat@[t],
            decreases pl - j,
        {
            j = j + 1;
        }
        if j == pl {
            proof {
                assert(s@.subrange(i as int, i + pl as int) =~= pat@);
                lemma_first_sub_at(s@, pat@, i as nat);
            }
            return vstd::slice::slice_to_vec(vstd::slice::slice_subrange(s, 0, i));
        }
        proof {
            assert(s@.subrange(i as int, i + pl as int)[j as int] == s@[i + j]);
        }
        i = i + 1;
    }
    proof {
        lemma_first_sub_none(s@, pat@);
        assert(s@.subrange(0, s@.len() as int) =~= s@);
    }
    vstd::slice::slice_to_vec(s)
}

/// The decimal digit characters.
pub open spec fn digit_char(d: nat) -> char {
    if d == 0 {
        '0'
    } else if d == 1 {
        '1'
    } else if d == 2 {
        '2'
    } else if d == 3 {
        '3'
    } else if d == 4 {
        '4'
    } else if d == 5 {
        '5'
    } else if d == 6 {
        '6'
    } else if d == 7 {
        '7'
    } else if d == 8 {
        '8'
    } else {
        '9'
    }
}

/// The decimal rendering of a number, most significant digit first.
pub open spec fn dec_digits(n: nat) -> Seq<char>
    decreases n,
{
    if n < 10 {
        seq![digit_char(n)]
    } else {
        dec_digits(n / 10).push(digit_char(n % 10))
    }
}

fn digit_str(d: u64) -> (r: &'static str)
    requires
        d < 10,
    ensures
        r@ == seq![digit_char(d as nat)],
{
    if d == 0 {
        proof {
            reveal_strlit("0");
            assert("0"@ =~= seq![digit_char(0)]);
        }
        "0"
    } else if d == 1 {
        proof {
            reveal_strlit("1");
            assert("1"@ =~= seq![digit_char(1)]);
        }
        "1"
    } else if d == 2 {
        proof {
            reveal_strlit("2");
            assert("2"@ =~= seq![digit_char(2)]);
        }
        "2"
    } else if d == 3 {
        proof {
            reveal_strlit("3");
            assert("3"@ =~= seq![digit_char(3)]);
        }
        "3"
    } else if d == 4 {
        proof {
            reveal_strlit("4");
            assert("4"@ =~= seq![digit_char(4)]);
        }
        "4"
    } else if d == 5 {
        proof {
            reveal_strlit("5");
            assert("5"@ =~= seq![digit_char(5)]);
        }
        "5"
    } else if d == 6 {
        proof {
            reveal_strlit("6");
            assert("6"@ =~= seq![digit_char(6)]);
        }
        "6"
    } else if d == 7 {
        proof {
            reveal_strlit("7");
            assert("7"@ =~= seq![digit_char(7)]);
        }
        "7"
    } else if d == 8 {
        proof {
            reveal_strlit("8");
            assert("8"@ =~= seq![digit_char(8)]);
        }
        "8"
    } else {
        proof {
            reveal_strlit("9");
            assert("9"@ =~= seq![digit_char(9)]);
        }
        "9"
    }
}

/// Render a number in decimal.
pub fn format_u64(n: u64) -> (r: String)
    ensures
        r@ == dec_digits(n as nat),
    decreases n,
{
    if n < 10 {
        digit_str(n).to_owned()
    } else {
        let mut s = format_u64(n / 10);
        s.append(digit_str(n % 10));
        proof {
            assert(dec_digits((n / 10) as nat) + seq![digit_char((n % 10) as nat)] =~= dec_digits(
                (n / 10) as nat,
            ).push(digit_char((n % 10) as nat)));
        }
        s
    }
}

} // verus!



