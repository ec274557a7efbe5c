//! Character-level string utilities with exact sequence contracts: splitting
//! a comma-separated value list, trimming, quoting, joining, decimal digit
//! rendering and ASCII case folding. All statement builders are specified in
//! terms of these spec functions.

use vstd::prelude::*;

verus! {

/// Relies on String::push: appends exactly the one character to the string.
#[verifier::external_body]
pub fn push_char(s: &mut String, c: char)
    ensures
        final(s)@ == old(s)@.push(c),
{
    s.push(c);
}

/// The characters of a string slice, in order.
pub fn str_chars(s: &str) -> (r: Vec<char>)
    ensures
        r@ == s@,
{
    let n = s.unicode_len();
    let mut r: Vec<char> = Vec::new();
    let mut i: usize = 0;
    while i < n
        invariant
            i <= n,
            n == s@.len(),
            r@ == s@.take(i as int),
        decreases n - i,
    {
        r.push(s.get_char(i));
        proof {
            assert(r@ =~= s@.take(i + 1 as int));
        }
        i = i + 1;
    }
    proof {
        assert(s@.take(n as int) =~= s@);
    }
    r
}

/// A string holding exactly the given characters.
pub fn chars_to_string(v: &Vec<char>) -> (r: String)
    ensures
        r@ == v@,
{
    let mut r = String::new();
    let n = v.len();
    let mut i: usize = 0;
    while i < n
        invariant
            i <= n,
            n == v@.len(),
            r@ == v@.take(i as int),
        decreases n - i,
    {
        push_char(&mut r, v[i]);
        proof {
            assert(r@ =~= v@.take(i + 1 as int));
        }
        i = i + 1;
    }
    proof {
        assert(v@.take(n as int) =~= v@);
    }
    r
}

/// Exact (case-sensitive) equality of two string slices.
pub fn str_eq(a: &str, b: &str) -> (r: bool)
    ensures
        r == (a@ == b@),
{
    let na = a.unicode_len();
    let nb = b.unicode_len();
    if na != nb {
        proof {
            assert(a@ != b@);
        }
        return false;
    }
    let mut i: usize = 0;
    while i < na
        invariant
            i <= na,
            na == a@.len(),
            na == b@.len(),
            forall|j: int| 0 <= j < i ==> a@[j] == b@[j],
        decreases na - i,
    {
        if a.get_char(i) != b.get_char(i) {
            return false;
        }
        i = i + 1;
    }
    proof {
        assert(a@ =~= b@);
    }
    true
}

/// Whitespace for the purposes of trimming list items.
pub open spec fn is_space(c: char) -> bool {
    c == ' ' || c == '\t' || c == '\n' || c == '\r'
}

/// Drops leading whitespace.
pub open spec fn trim_start(s: Seq<char>) -> Seq<char>
    decreases s.len(),
{
    if s.len() > 0 && is_space(s[0]) {
        trim_start(s.skip(1))
    } else {
        s
    }
}

/// Drops trailing whitespace.
pub open spec fn trim_end(s: Seq<char>) -> Seq<char>
    decreases s.len(),
{
    if s.len() > 0 && is_space(s.last()) {
        trim_end(s.drop_last())
    } else {
        s
    }
}

/// Drops leading and trailing whitespace.
pub open spec fn spec_trim(s: Seq<char>) -> Seq<char> {
    trim_end(trim_start(s))
}

proof fn lemma_trim_start_at(s: Seq<char>, a: int)
    requires
        0 <= a <= s.len(),
        forall|j: int| 0 <= j < a ==> is_space(s[j]),
        a == s.len() || !is_space(s[a]),
    ensures
        trim_start(s) == s.skip(a),
    decreases a,
{
    if a == 0 {
        assert(s.skip(0) =~= s);
    } else {
        assert(is_space(s[0]));
        let t = s.skip(1);
        assert forall|j: int| 0 <= j < a - 1 implies is_space(t[j]) by {
            assert(t[j] == s[j + 1]);
        }
        assert(a - 1 == t.len() || !is_space(t[a - 1]));
        lemma_trim_start_at(t, a - 1);
        assert(t.skip(a - 1) =~= s.skip(a));
    }
}

proof fn lemma_trim_end_at(s: Seq<char>, b: int)
    requires
        0 <= b <= s.len(),
        forall|j: int| b <= j < s.len() ==> is_space(s[j]),
        b == 0 || !is_space(s[b - 1]),
    ensures
        trim_end(s) == s.take(b),
    decreases s.len() - b,
{
    if b == s.len() {
        if s.len() > 0 && is_space(s.last()) {
            assert(!is_space(s[b - 1]));
            assert(false);
        }
        assert(s.take(b) =~= s);
    } else {
        assert(is_space(s.last()));
        let t = s.drop_last();
        lemma_trim_end_at(t, b);
        assert(t.take(b) =~= s.take(b));
    }
}

/// Trims whitespace from both ends of a character vector.
pub fn trim_chars(v: &Vec<char>) -> (r: Vec<char>)
    ensures
        r@ == spec_trim(v@),
{
    let n = v.len();
    let mut a: usize = 0;
    while a < n && is_space_char(v[a])
        invariant
            a <= n,
            n == v@.len(),
            forall|j: int| 0 <= j < a ==> is_space(v@[j]),
        decreases n - a,
    {
        a = a + 1;
    }
    proof {
        lemma_trim_start_at(v@, a as int);
    }
    let ghost t = v@.skip(a as int);
    let mut b: usize = n;
    while b > a && is_space_char(v[b - 1])
        invariant
            a <= b <= n,
            n == v@.len(),
            t == v@.skip(a as int),
            forall|j: int| b <= j < n ==> is_space(v@[j]),
        decreases b,
    {
        b = b - 1;
    }
    proof {
        assert forall|j: int| (b - a) <= j < t.len() implies is_space(t[j]) by {
            assert(t[j] == v@[j + a]);
        }
        if b > a {
            assert(t[b - a - 1] == v@[b - 1]);
        }
        lemma_trim_end_at(t, b - a);
    }
    let r = copy_range(v, a, b);
    proof {
        assert(r@ =~= t.take(b - a as int));
    }
    r
}

/// Executable test matching `is_space`.
pub fn is_space_char(c: char) -> (r: bool)
    ensures
        r == is_space(c),
{
    c == ' ' || c == '\t' || c == '\n' || c == '\r'
}

/// The characters of `v` from `from` (inclusive) to `to` (exclusive).
pub fn copy_range(v: &Vec<char>, from: usize, to: usize) -> (r: Vec<char>)
    requires
        from <= to <= v@.len(),
    ensures
        r@ == v@.subrange(from as int, to as int),
{
    let mut r: Vec<char> = Vec::new();
    let mut i: usize = from;
    while i < to
        invariant
            from <= i <= to <= v@.len(),
            r@ == v@.subrange(from as int, i as int),
        decreases to - i,
    {
        r.push(v[i]);
        proof {
            assert(r@ =~= v@.subrange(from as int, i + 1 as int));
        }
        i = i + 1;
    }
    r
}

/// The index of the first occurrence of `c`, if any.
pub open spec fn spec_find(s: Seq<char>, c: char) -> Option<int>
    decreases s.len(),
{
    if s.len() == 0 {
        None
    } else if s[0] == c {
        Some(0)
    } else {
        match spec_find(s.skip(1), c) {
            None => None,
            Some(i) => Some(i + 1),
        }
    }
}

/// What `spec_find` returns: the first index holding `c`, or nothing when
/// `c` does not occur.
pub proof fn lemma_find_props(s: Seq<char>, c: char)
    ensures
        match spec_find(s, c) {
            Some(i) => 0 <= i < s.len() && s[i] == c && forall|j: int| 0 <= j < i ==> s[j] != c,
            None => forall|j: int| 0 <= j < s.len() ==> s[j] != c,
        },
    decreases s.len(),
{
    if s.len() > 0 && s[0] != c {
        lemma_find_props(s.skip(1), c);
        let t = s.skip(1);
        match spec_find(t, c) {
            Some(i) => {
                assert(s[i + 1] == t[i]);
                assert forall|j: int| 0 <= j < i + 1 implies s[j] != c by {
                    if j > 0 {
                        assert(t[j - 1] == s[j]);
                    }
                }
            },
            None => {
                assert forall|j: int| 0 <= j < s.len() implies s[j] != c by {
                    if j > 0 {
                        assert(t[j - 1] == s[j]);
                    }
                }
            },
        }
    }
}

proof fn lemma_find_at(s: Seq<char>, c: char, i: int)
    requires
        0 <= i < s.len(),
        s[i] == c,
        forall|j: int| 0 <= j < i ==> s[j] != c,
    ensures
        spec_find(s, c) == Some(i),
    decreases i,
{
    if i == 0 {
    } else {
        let t = s.skip(1);
        assert(t[i - 1] == s[i]);
        assert forall|j: int| 0 <= j < i - 1 implies t[j] != c by {
            assert(t[j] == s[j + 1]);
        }
        lemma_find_at(t, c, i - 1);
    }
}

/// Finds the first occurrence of `c` in `v`.
pub fn find_char(v: &Vec<char>, c: char) -> (r: Option<usize>)
    ensures
        match r {
            Some(i) => spec_find(v@, c) == Some(i as int),
            None => spec_find(v@, c) is None,
        },
{
    let n = v.len();
    let mut i: usize = 0;
    while i < n
        invariant
            i <= n,
            n == v@.len(),
            forall|j: int| 0 <= j < i ==> v@[j] != c,
        decreases n - i,
    {
        if v[i] == c {
            proof {
                lemma_find_at(v@, c, i as int);
            }
            return Some(i);
        }
        i = i + 1;
    }
    proof {
        lemma_find_props(v@, c);
    }
    None
}

/// Splits `s` at every occurrence of `c`. A string without `c` is one
/// piece; each separator contributes a boundary, so n separators give n+1
/// pieces (possibly empty).
pub open spec fn spec_split(s: Seq<char>, c: char) -> Seq<Seq<char>>
    decreases s.len(),
{
    match spec_find(s, c) {
        None => seq![s],
        Some(i) => if 0 <= i < s.len() {
            seq![s.take(i)] + spec_split(s.skip(i + 1), c)
        } else {
            seq![s]
        },
    }
}

/// Splits the characters of `v` at every occurrence of `c`.
pub fn split_chars(v: &Vec<char>, c: char) -> (r: Vec<Vec<char>>)
    ensures
        r.deep_view() == spec_split(v@, c),
        r@.len() >= 1,
    decreases v@.len(),
{
    match find_char(v, c) {
        None => {
            let mut r: Vec<Vec<char>> = Vec::new();
            r.push(copy_range(v, 0, v.len()));
            proof {
                assert(v@.subrange(0, v@.len() as int) =~= v@);
                assert(r.deep_view() =~~= spec_split(v@, c));
            }
            r
        },
        Some(i) => {
            proof {
                lemma_find_props(v@, c);
            }
            let vn = v.len();
            let left = copy_range(v, 0, i);
            let rest = copy_range(v, i + 1, vn);
            let mut r = split_chars(&rest, c);
            proof {
                assert(rest@ =~= v@.skip(i + 1));
            }
            let ghost before = r.deep_view();
            r.insert(0, left);
            proof {
                assert(left.deep_view() =~~= v@.take(i as int));
                assert forall|j: int| 0 <= j < r@.len() implies r.deep_view()[j] == (seq![
                    v@.take(i as int),
                ] + before)[j] by {
                    if j > 0 {
                        assert(r@[j] == r@.subrange(1, r@.len() as int)[j - 1]);
                        assert(r.deep_view()[j] == before[j - 1]);
                    }
                }
                assert(r.deep_view() =~~= seq![v@.take(i as int)] + before);
                assert(r.deep_view() =~~= spec_split(v@, c));
            }
            r
        },
    }
}


/// The piece wrapped in single quotes.
pub open spec fn spec_quote(p: Seq<char>) -> Seq<char> {
    "'"@ + p + "'"@
}

/// Wraps a piece in single quotes.
pub fn quote_piece(p: &Vec<char>) -> (r: String)
    ensures
        r@ == spec_quote(p@),
{
    let mut r = String::from_str("'");
    let body = chars_to_string(p);
    r.append(body.as_str());
    r.append("'");
    r
}

/// The pieces joined with `sep` between consecutive pieces.
pub open spec fn spec_join(parts: Seq<Seq<char>>, sep: Seq<char>) -> Seq<char>
    decreases parts.len(),
{
    if parts.len() == 0 {
        Seq::empty()
    } else if parts.len() == 1 {
        parts[0]
    } else {
        parts[0] + sep + spec_join(parts.skip(1), sep)
    }
}

/// Appending one more piece extends a join by one separator and the piece.
pub proof fn lemma_join_push(parts: Seq<Seq<char>>, sep: Seq<char>, p: Seq<char>)
    ensures
        spec_join(parts.push(p), sep) == if parts.len() == 0 {
            p
        } else {
            spec_join(parts, sep) + sep + p
        },
    decreases parts.len(),
{
    let whole = parts.push(p);
    if parts.len() == 0 {
        assert(whole.len() == 1);
        assert(spec_join(whole, sep) == whole[0]);
    } else if parts.len() == 1 {
        assert(whole.skip(1) =~= seq![p]);
        assert(spec_join(whole, sep) == whole[0] + sep + spec_join(whole.skip(1), sep));
    } else {
        lemma_join_push(parts.skip(1), sep, p);
        assert(whole.skip(1) =~= parts.skip(1).push(p));
        assert(spec_join(parts, sep) == parts[0] + sep + spec_join(parts.skip(1), sep));
        assert(spec_join(whole, sep) == whole[0] + sep + spec_join(whole.skip(1), sep));
        assert(spec_join(whole, sep) =~= spec_join(parts, sep) + sep + p);
    }
}

/// Joins strings with a separator.
pub fn join_strings(parts: &Vec<String>, sep: &str) -> (r: String)
    ensures
        r@ == spec_join(parts.deep_view(), sep@),
{
    let mut r = String::new();
    let n = parts.len();
    let mut i: usize = 0;
    while i < n
        invariant
            i <= n,
            n == parts.deep_view().len(),
            parts@.len() == n,
            r@ == spec_join(parts.deep_view().take(i as int), sep@),
        decreases n - i,
    {
        if i > 0 {
            r.append(sep);
        }
        r.append(parts[i].as_str());
        proof {
            let pv = parts.deep_view();
            assert(pv.take(i + 1 as int) =~= pv.take(i as int).push(pv[i as int]));
            lemma_join_push(pv.take(i as int), sep@, pv[i as int]);
            if i == 0 {
                assert(spec_join(pv.take(0), sep@) =~= Seq::<char>::empty());
                assert(r@ =~= spec_join(pv.take(1), sep@));
            }
        }
        i = i + 1;
    }
    proof {
        assert(parts.deep_view().take(n as int) =~= parts.deep_view());
    }
    r
}

/// The rendering of a comma-separated file list: pieces are split on `,`
/// and trimmed; one piece is single-quoted, several become a bracketed,
/// comma-joined list of single-quoted pieces.
pub open spec fn spec_format_csv(s: Seq<char>) -> Seq<char> {
    let parts = spec_split(s, ',').map_values(|p: Seq<char>| spec_quote(spec_trim(p)));
    if parts.len() == 1 {
        parts[0]
    } else {
        "["@ + spec_join(parts, ", "@) + "]"@
    }
}

/// Renders a comma-separated value list: a single value `v` as `'v'`,
/// several as `['v1', 'v2', ...]`, each trimmed of surrounding whitespace.
pub fn format_csv(value: &str) -> (r: String)
    ensures
        r@ == spec_format_csv(value@),
{
    let cs = str_chars(value);
    let parts = split_chars(&cs, ',');
    let ghost raw = spec_split(value@, ',');
    let ghost quoted = raw.map_values(|p: Seq<char>| spec_quote(spec_trim(p)));
    let mut rendered: Vec<String> = Vec::new();
    let n = parts.len();
    let mut i: usize = 0;
    while i < n
        invariant
            i <= n,
            n == parts@.len(),
            parts.deep_view() == raw,
            quoted == raw.map_values(|p: Seq<char>| spec_quote(spec_trim(p))),
            rendered.deep_view() == quoted.take(i as int),
        decreases n - i,
    {
        let t = trim_chars(&parts[i]);
        proof {
            assert(parts[i as int]@ == parts.deep_view()[i as int]);
        }
        rendered.push(quote_piece(&t));
        proof {
            assert(quoted.take(i + 1 as int) =~~= quoted.take(i as int).push(quoted[i as int]));
            assert(rendered.deep_view() =~~= quoted.take(i + 1 as int));
        }
        i = i + 1;
    }
    proof {
        assert(quoted.take(n as int) =~~= quoted);
    }
    if n == 1 {
        let mut out = String::new();
        out.append(rendered[0].as_str());
        proof {
            assert(out@ =~= quoted[0]);
        }
        out
    } else {
        let mut out = String::from_str("[");
        let body = join_strings(&rendered, ", ");
        out.append(body.as_str());
        out.append("]");
        out
    }
}

/// The character for a single decimal digit.
pub open spec fn digit_char(d: nat) -> char {
    if d == 0 {
        '0'
    } else if d == 1 {
        '1'
    } else if d == 2 {
        '2'
    } else if d == 3 {
        '3'
    } else if d == 4 {
        '4'
    } else if d == 5 {
        '5'
    } else if d == 6 {
        '6'
    } else if d == 7 {
        '7'
    } else if d == 8 {
        '8'
    } else {
        '9'
    }
}

/// The decimal rendering of a natural number, most significant digit first,
/// without leading zeros (zero itself is `0`).
pub open spec fn spec_dec(n: nat) -> Seq<char>
    decreases n,
{
    if n < 10 {
        seq![digit_char(n)]
    } else {
        spec_dec(n / 10).push(digit_char(n % 10))
    }
}

fn digit_of(d: u8) -> (c: char)
    requires
        d < 10,
    ensures
        c == digit_char(d as nat),
{
    if d == 0 {
        '0'
    } else if d == 1 {
        '1'
    } else if d == 2 {
        '2'
    } else if d == 3 {
        '3'
    } else if d == 4 {
        '4'
    } else if d == 5 {
        '5'
    } else if d == 6 {
        '6'
    } else if d == 7 {
        '7'
    } else if d == 8 {
        '8'
    } else {
        '9'
    }
}

/// The decimal digits of `n`.
pub fn u128_dec_chars(n: u128) -> (r: Vec<char>)
    ensures
        r@ == spec_dec(n as nat),
    decreases n,
{
    if n < 10 {
        let mut r: Vec<char> = Vec::new();
        r.push(digit_of(n as u8));
        proof {
            assert(r@ =~= spec_dec(n as nat));
        }
        r
    } else {
        let mut r = u128_dec_chars(n / 10);
        r.push(digit_of((n % 10) as u8));
        proof {
            assert(r@ =~= spec_dec(n as nat));
        }
        r
    }
}

/// The decimal rendering of an unsigned 64-bit number.
pub fn u64_to_string(n: u64) -> (r: String)
    ensures
        r@ == spec_dec(n as nat),
{
    let cs = u128_dec_chars(n as u128);
    chars_to_string(&cs)
}

/// The decimal rendering of an unsigned 32-bit number.
pub fn u32_to_string(n: u32) -> (r: String)
    ensures
        r@ == spec_dec(n as nat),
{
    let cs = u128_dec_chars(n as u128);
    chars_to_string(&cs)
}

/// ASCII case folding on code points: upper-case letters map to their
/// lower-case forms, all other characters stay themselves.
pub open spec fn lower_u32(c: char) -> u32 {
    if 65 <= c as u32 && c as u32 <= 90 {
        (c as u32 + 32) as u32
    } else {
        c as u32
    }
}

/// Whether `s` equals `kw` up to ASCII case (`kw` given in lower case).
pub open spec fn eq_ignore_ascii_case_spec(s: Seq<char>, kw: Seq<char>) -> bool {
    s.len() == kw.len() && forall|i: int| 0 <= i < s.len() ==> lower_u32(s[i]) == kw[i] as u32
}

/// Whether `s` starts with `kw` up to ASCII case (`kw` given in lower
/// case).
pub open spec fn starts_with_ignore_ascii_case(s: Seq<char>, kw: Seq<char>) -> bool {
    s.len() >= kw.len() && forall|i: int| 0 <= i < kw.len() ==> lower_u32(s[i]) == kw[i] as u32
}

fn lower_code(c: char) -> (r: u32)
    ensures
        r == lower_u32(c),
{
    let u = c as u32;
    if 65 <= u && u <= 90 {
        u + 32
    } else {
        u
    }
}

/// Tests whether `s` starts with the lower-case keyword `kw`, ignoring
/// ASCII case in `s`.
pub fn starts_with_keyword(s: &str, kw: &str) -> (r: bool)
    ensures
        r == starts_with_ignore_ascii_case(s@, kw@),
{
    let n = s.unicode_len();
    let k = kw.unicode_len();
    if n < k {
        return false;
    }
    let mut i: usize = 0;
    while i < k
        invariant
            i <= k,
            k == kw@.len(),
            n == s@.len(),
            n >= k,
            forall|j: int| 0 <= j < i ==> lower_u32(s@[j]) == kw@[j] as u32,
        decreases k - i,
    {
        if lower_code(s.get_char(i)) != kw.get_char(i) as u32 {
            return false;
        }
        i = i + 1;
    }
    true
}

/// Tests whether `s` equals the lower-case keyword `kw`, ignoring ASCII
/// case in `s`.
pub fn eq_ignore_case(s: &str, kw: &str) -> (r: bool)
    ensures
        r == eq_ignore_ascii_case_spec(s@, kw@),
{
    if s.unicode_len() != kw.unicode_len() {
        return false;
    }
    starts_with_keyword(s, kw)
}

} // verus!
