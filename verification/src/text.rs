use vstd::prelude::*;

verus! {

/// `String::push` from std: appends one character to the end of the string.
#[verifier::external_body]
pub(crate) fn string_push(s: &mut String, c: char)
    ensures
        final(s)@ == old(s)@.push(c),
{
    s.push(c);
}

/// The upper-case hexadecimal digit of a value below sixteen.
pub open spec fn hex_digit(d: int) -> char {
    if d < 10 {
        (48 + d) as char
    } else {
        (55 + d) as char
    }
}

/// Pushes the upper-case hexadecimal digit of `d`.
pub(crate) fn push_hex_digit(s: &mut String, d: u32)
    requires
        d < 16,
    ensures
        final(s)@ == old(s)@.push(hex_digit(d as int)),
{
    let c: char = if d < 10 {
        ((48 + d) as u8) as char
    } else {
        ((55 + d) as u8) as char
    };
    string_push(s, c);
}

// ---------------------------------------------------------------------------
// Splitting
// ---------------------------------------------------------------------------

/// The pieces of `s` between occurrences of `sep`, as `str::split` yields them:
/// an empty string gives one empty piece, and each separator starts a new piece.
pub open spec fn split_on(s: Seq<char>, sep: char) -> Seq<Seq<char>>
    decreases s.len(),
{
    if s.len() == 0 {
        seq![Seq::<char>::empty()]
    } else {
        let init = split_on(s.drop_last(), sep);
        if s.last() == sep {
            init.push(Seq::<char>::empty())
        } else {
            init.update(init.len() - 1, init.last().push(s.last()))
        }
    }
}

/// Splitting always yields at least one piece.
pub proof fn lemma_split_nonempty(s: Seq<char>, sep: char)
    ensures
        split_on(s, sep).len() >= 1,
    decreases s.len(),
{
    if s.len() > 0 {
        lemma_split_nonempty(s.drop_last(), sep);
    }
}

/// The views of a list of strings.
pub open spec fn views(v: Seq<String>) -> Seq<Seq<char>> {
    v.map_values(|p: String| p@)
}

/// `str::split` on a single character, collected into owned strings.
pub fn split_on_char(s: &str, sep: char) -> (pieces: Vec<String>)
    ensures
        views(pieces@) == split_on(s@, sep),
{
    let n = s.unicode_len();
    let mut pieces: Vec<String> = Vec::new();
    let mut current = String::new();
    let mut i: usize = 0;
    assert(s@.take(0) =~= Seq::<char>::empty());
    while i < n
        invariant
            n == s@.len(),
            i <= n,
            views(pieces@).push(current@) == split_on(s@.take(i as int), sep),
        decreases n - i,
    {
        let c = s.get_char(i);
        let ghost before = s@.take(i as int);
        proof {
            assert(s@.take(i + 1).drop_last() =~= before);
            assert(s@.take(i + 1).last() == c);
            lemma_split_nonempty(before, sep);
        }
        if c == sep {
            let ghost old_pieces = pieces@;
            pieces.push(current);
            current = String::new();
            assert(views(pieces@) =~= views(old_pieces).push(views(pieces@).last()));
            assert(views(pieces@).push(current@) =~= split_on(s@.take(i + 1), sep));
        } else {
            string_push(&mut current, c);
            assert(views(pieces@).push(current@) =~= split_on(s@.take(i + 1), sep));
        }
        i = i + 1;
    }
    assert(s@.take(n as int) =~= s@);
    pieces.push(current);
    assert(views(pieces@) =~= split_on(s@, sep));
    pieces
}

/// Whether the two texts are the same.
pub fn same_text(a: &str, b: &str) -> (same: bool)
    ensures
        same == (a@ == b@),
{
    let n = a.unicode_len();
    if n != b.unicode_len() {
        return false;
    }
    let mut i: usize = 0;
    while i < n
        invariant
            n == a@.len(),
            n == b@.len(),
            i <= n,
            forall|j: int| 0 <= j < i ==> a@[j] == b@[j],
        decreases n - i,
    {
        if a.get_char(i) != b.get_char(i) {
            return false;
        }
        i = i + 1;
    }
    assert(a@ =~= b@);
    true
}

// ---------------------------------------------------------------------------
// Trimming
// ---------------------------------------------------------------------------

/// `s` without all leading occurrences of `c`.
pub open spec fn trim_start_char(s: Seq<char>, c: char) -> Seq<char>
    decreases s.len(),
{
    if s.len() > 0 && s[0] == c {
        trim_start_char(s.drop_first(), c)
    } else {
        s
    }
}

/// `s` without all trailing occurrences of `c`.
pub open spec fn trim_end_char(s: Seq<char>, c: char) -> Seq<char>
    decreases s.len(),
{
    if s.len() > 0 && s.last() == c {
        trim_end_char(s.drop_last(), c)
    } else {
        s
    }
}

/// `str::trim_matches` with a single character: strips it from both ends.
pub open spec fn trim_char(s: Seq<char>, c: char) -> Seq<char> {
    trim_end_char(trim_start_char(s, c), c)
}

/// `s` with every leading `"0x"` removed, as `trim_start_matches("0x")` does.
pub open spec fn strip_hex_prefix(s: Seq<char>) -> Seq<char>
    decreases s.len(),
{
    if s.len() >= 2 && s[0] == '0' && s[1] == 'x' {
        strip_hex_prefix(s.skip(2))
    } else {
        s
    }
}

/// Index of the first character of `s` from `from` on that is not `c`.
pub open spec fn first_other(s: Seq<char>, c: char, from: int) -> int
    decreases s.len() - from,
{
    if from < s.len() && s[from] == c {
        first_other(s, c, from + 1)
    } else {
        from
    }
}

proof fn lemma_trim_start_skip(s: Seq<char>, c: char, from: int)
    requires
        0 <= from <= s.len(),
    ensures
        trim_start_char(s.skip(from), c) == s.skip(first_other(s, c, from)),
        from <= first_other(s, c, from) <= s.len(),
    decreases s.len() - from,
{
    if from < s.len() && s[from] == c {
        assert(s.skip(from).drop_first() =~= s.skip(from + 1));
        lemma_trim_start_skip(s, c, from + 1);
    }
}

/// Index one past the last character of `s[..to]` that is not `c`.
pub open spec fn last_other(s: Seq<char>, c: char, to: int) -> int
    decreases to,
{
    if to > 0 && s[to - 1] == c {
        last_other(s, c, to - 1)
    } else {
        to
    }
}

proof fn lemma_trim_end_take(s: Seq<char>, c: char, to: int)
    requires
        0 <= to <= s.len(),
    ensures
        trim_end_char(s.take(to), c) == s.take(last_other(s, c, to)),
        0 <= last_other(s, c, to) <= to,
    decreases to,
{
    if to > 0 && s[to - 1] == c {
        assert(s.take(to).drop_last() =~= s.take(to - 1));
        lemma_trim_end_take(s, c, to - 1);
    }
}

/// `str::trim_matches(c)` for one character, as an owned string.
pub fn trim_char_matches(s: &str, c: char) -> (t: String)
    ensures
        t@ == trim_char(s@, c),
{
    let n = s.unicode_len();
    let mut start: usize = 0;
    while start < n && s.get_char(start) == c
        invariant
            n == s@.len(),
            start <= n,
            first_other(s@, c, 0) == first_other(s@, c, start as int),
        decreases n - start,
    {
        start = start + 1;
    }
    let ghost rest = s@.skip(start as int);
    proof {
        lemma_trim_start_skip(s@, c, 0);
        assert(s@.skip(0) =~= s@);
    }
    let mut end: usize = n;
    while end > start && s.get_char(end - 1) == c
        invariant
            n == s@.len(),
            start <= end <= n,
            rest == s@.skip(start as int),
            last_other(rest, c, (end - start) as int) == last_other(rest, c, rest.len() as int),
        decreases end,
    {
        assert(rest[(end - 1 - start) as int] == s@[(end - 1) as int]);
        end = end - 1;
    }
    proof {
        if end > start {
            assert(rest[(end - 1 - start) as int] == s@[(end - 1) as int]);
        }
        lemma_trim_end_take(rest, c, rest.len() as int);
        assert(rest.take(rest.len() as int) =~= rest);
    }
    let piece = s.substring_char(start, end);
    let t = piece.to_owned();
    assert(t@ =~= rest.take((end - start) as int));
    t
}

/// `str::trim_start_matches("0x")`, as an owned string.
pub fn strip_hex_prefix_str(s: &str) -> (t: String)
    ensures
        t@ == strip_hex_prefix(s@),
{
    let n = s.unicode_len();
    let mut start: usize = 0;
    proof {
        assert(s@.skip(0) =~= s@);
    }
    while n - start >= 2 && s.get_char(start) == '0' && s.get_char(start + 1) == 'x'
        invariant
            n == s@.len(),
            start <= n,
            strip_hex_prefix(s@) == strip_hex_prefix(s@.skip(start as int)),
        decreases n - start,
    {
        assert(s@.skip(start as int).skip(2) =~= s@.skip(start + 2));
        start = start + 2;
    }
    let piece = s.substring_char(start, n);
    let t = piece.to_owned();
    assert(t@ =~= s@.skip(start as int));
    t
}

// ---------------------------------------------------------------------------
// Numbers
// ---------------------------------------------------------------------------

/// The value of `c` as a digit in `radix` (10 or 16), if it is one.
pub open spec fn digit_value(c: char, radix: int) -> Option<int> {
    if '0' <= c && c <= '9' {
        if (c as int) - 48 < radix { Some((c as int) - 48) } else { None }
    } else if radix == 16 && 'a' <= c && c <= 'f' {
        Some((c as int) - 87)
    } else if radix == 16 && 'A' <= c && c <= 'F' {
        Some((c as int) - 55)
    } else {
        None
    }
}

/// The value of a string of digits in `radix`; `None` if some character is
/// not a digit. The empty string has the value zero.
pub open spec fn digits_value(s: Seq<char>, radix: int) -> Option<int>
    decreases s.len(),
{
    if s.len() == 0 {
        Some(0)
    } else {
        match (digits_value(s.drop_last(), radix), digit_value(s.last(), radix)) {
            (Some(a), Some(d)) => Some(a * radix + d),
            _ => None,
        }
    }
}

proof fn lemma_digits_nonneg(s: Seq<char>, radix: int)
    requires
        radix == 10 || radix == 16,
    ensures
        digits_value(s, radix) matches Some(v) ==> v >= 0,
    decreases s.len(),
{
    if s.len() > 0 {
        lemma_digits_nonneg(s.drop_last(), radix);
    }
}

/// A prefix of a digit string is a digit string with a value no larger.
proof fn lemma_digits_prefix(s: Seq<char>, k: int, radix: int)
    requires
        radix == 10 || radix == 16,
        0 <= k <= s.len(),
        digits_value(s, radix) is Some,
    ensures
        digits_value(s.take(k), radix) is Some,
        digits_value(s.take(k), radix)->0 <= digits_value(s, radix)->0,
    decreases s.len(),
{
    if k == s.len() {
        assert(s.take(k) =~= s);
    } else {
        lemma_digits_prefix(s.drop_last(), k, radix);
        assert(s.drop_last().take(k) =~= s.take(k));
        lemma_digits_nonneg(s.drop_last(), radix);
    }
}

/// Digits accepted by `from_str_radix` for an unsigned type: an optional
/// leading `+` before the digits.
pub open spec fn unsigned_digits(s: Seq<char>) -> Seq<char> {
    if s.len() > 0 && s[0] == '+' {
        s.drop_first()
    } else {
        s
    }
}

/// What `from_str_radix(s, radix)` returns for an unsigned type whose largest
/// value is `max`: the value when `s` is an optional `+` followed by at least
/// one digit and the value fits, else an error (`None`).
pub open spec fn parse_unsigned_spec(s: Seq<char>, radix: int, max: int) -> Option<int> {
    let d = unsigned_digits(s);
    match digits_value(d, radix) {
        Some(v) => if d.len() > 0 && v <= max { Some(v) } else { None },
        None => None,
    }
}

fn char_digit(c: char, radix: u64) -> (d: Option<u64>)
    requires
        radix == 10 || radix == 16,
    ensures
        d matches Some(v) ==> digit_value(c, radix as int) == Some(v as int) && v < radix,
        d is None ==> digit_value(c, radix as int) is None,
{
    if '0' <= c && c <= '9' {
        let v = (c as u32 - 48) as u64;
        if v < radix { Some(v) } else { None }
    } else if radix == 16 && 'a' <= c && c <= 'f' {
        Some((c as u32 - 87) as u64)
    } else if radix == 16 && 'A' <= c && c <= 'F' {
        Some((c as u32 - 55) as u64)
    } else {
        None
    }
}

/// The value of the characters `s[from..]` read as digits in `radix`, when
/// they are all digits and the value is at most `max`.
fn digits_from(s: &str, from: usize, radix: u64, max: u64) -> (r: Option<u64>)
    requires
        radix == 10 || radix == 16,
        max >= 16,
        from <= s@.len(),
    ensures
        match digits_value(s@.skip(from as int), radix as int) {
            Some(v) => if v <= max { r == Some(v as u64) } else { r is None },
            None => r is None,
        },
{
    let n = s.unicode_len();
    let ghost d = s@.skip(from as int);
    let mut acc: u64 = 0;
    let mut i: usize = from;
    assert(d.take(0) =~= Seq::<char>::empty());
    while i < n
        invariant
            radix == 10 || radix == 16,
            max >= 16,
            n == s@.len(),
            from <= i <= n,
            d == s@.skip(from as int),
            acc <= max,
            digits_value(d.take(i - from), radix as int) == Some(acc as int),
        decreases n - i,
    {
        let c = s.get_char(i);
        proof {
            assert(d.take(i - from + 1).drop_last() =~= d.take(i - from));
            assert(d.take(i - from + 1).last() == c);
        }
        match char_digit(c, radix) {
            None => {
                proof {
                    assert(digits_value(d.take(i - from + 1), radix as int) is None);
                    if digits_value(d, radix as int) is Some {
                        lemma_digits_prefix(d, i - from + 1, radix as int);
                    }
                }
                return None;
            },
            Some(v) => {
                let bound = (max - v) / radix;
                if acc > bound {
                    proof {
                        assert(acc * radix + v > max) by (nonlinear_arith)
                            requires acc > bound, bound as int == (max as int - v as int) / (radix as int), radix > 0, v <= max;
                        if digits_value(d, radix as int) is Some {
                            lemma_digits_prefix(d, i - from + 1, radix as int);
                        }
                    }
                    return None;
                }
                proof {
                    assert(acc * radix + v <= max) by (nonlinear_arith)
                        requires acc <= bound, bound as int == (max as int - v as int) / (radix as int), radix > 0, v <= max;
                }
                acc = acc * radix + v;
            },
        }
        i = i + 1;
    }
    assert(d.take(n - from) =~= d);
    Some(acc)
}

/// `from_str_radix` for an unsigned integer type with largest value `max`.
pub fn parse_unsigned(s: &str, radix: u64, max: u64) -> (r: Option<u64>)
    requires
        radix == 10 || radix == 16,
        max >= 16,
    ensures
        r is Some <==> parse_unsigned_spec(s@, radix as int, max as int) is Some,
        r matches Some(v) ==> parse_unsigned_spec(s@, radix as int, max as int) == Some(v as int),
{
    let n = s.unicode_len();
    let from: usize = if n > 0 && s.get_char(0) == '+' { 1 } else { 0 };
    proof {
        assert(unsigned_digits(s@) =~= s@.skip(from as int));
    }
    if from == n {
        return None;
    }
    let r = digits_from(s, from, radix, max);
    proof {
        lemma_digits_nonneg(s@.skip(from as int), radix as int);
    }
    r
}

/// What `str::parse::<i32>()` returns: an optional sign followed by at least
/// one decimal digit, with the value in the range of `i32`.
pub open spec fn parse_i32_spec(s: Seq<char>) -> Option<int> {
    if s.len() > 0 && s[0] == '-' {
        let d = s.drop_first();
        match digits_value(d, 10) {
            Some(v) => if d.len() > 0 && v <= 0x8000_0000 { Some(-v) } else { None },
            None => None,
        }
    } else {
        let d = unsigned_digits(s);
        match digits_value(d, 10) {
            Some(v) => if d.len() > 0 && v <= 0x7fff_ffff { Some(v) } else { None },
            None => None,
        }
    }
}

/// `str::parse::<i32>()`.
pub fn parse_i32(s: &str) -> (r: Option<i32>)
    ensures
        r is Some <==> parse_i32_spec(s@) is Some,
        r matches Some(v) ==> parse_i32_spec(s@) == Some(v as int),
{
    let n = s.unicode_len();
    if n > 0 && s.get_char(0) == '-' {
        assert(s@.drop_first() =~= s@.skip(1));
        if n == 1 {
            return None;
        }
        let r = digits_from(s, 1, 10, 0x8000_0000);
        match r {
            Some(v) => {
                proof {
                    let dv = digits_value(s@.skip(1), 10);
                    lemma_digits_nonneg(s@.skip(1), 10);
                    assert(dv is Some);
                    assert(dv->0 <= 0x8000_0000);
                    assert(v == dv->0);
                }
                if v == 0x8000_0000 {
                    Some(i32::MIN)
                } else {
                    let m = v as i32;
                    Some(-m)
                }
            },
            None => None,
        }
    } else {
        let r = parse_unsigned(s, 10, 0x7fff_ffff);
        match r {
            Some(v) => {
                proof {
                    let pv = parse_unsigned_spec(s@, 10, 0x7fff_ffff);
                    assert(pv is Some);
                }
                Some(v as i32)
            },
            None => None,
        }
    }
}

// ---------------------------------------------------------------------------
// UTF-16
// ---------------------------------------------------------------------------

/// The UTF-16 code units of one character.
pub open spec fn utf16_of(c: char) -> Seq<u16> {
    let code = c as int;
    if code < 0x10000 {
        seq![code as u16]
    } else {
        seq![(0xD800 + (code - 0x10000) / 1024) as u16, (0xDC00 + (code - 0x10000) % 1024) as u16]
    }
}

/// The UTF-16 encoding of a character sequence, as `str::encode_utf16` yields it.
pub open spec fn utf16_of_seq(s: Seq<char>) -> Seq<u16>
    decreases s.len(),
{
    if s.len() == 0 {
        Seq::empty()
    } else {
        utf16_of_seq(s.drop_last()) + utf16_of(s.last())
    }
}

/// `str::encode_utf16`, collected.
pub fn encode_utf16(s: &str) -> (units: Vec<u16>)
    ensures
        units@ == utf16_of_seq(s@),
{
    let n = s.unicode_len();
    let mut units: Vec<u16> = Vec::new();
    let mut i: usize = 0;
    assert(s@.take(0) =~= Seq::<char>::empty());
    while i < n
        invariant
            n == s@.len(),
            i <= n,
            units@ == utf16_of_seq(s@.take(i as int)),
        decreases n - i,
    {
        let c = s.get_char(i);
        proof {
            assert(s@.take(i + 1).drop_last() =~= s@.take(i as int));
        }
        let code = c as u32;
        assert(code <= 0x10FFFF);
        if code < 0x10000 {
            units.push(code as u16);
        } else {
            let rest = code - 0x10000;
            units.push((0xD800 + rest / 1024) as u16);
            units.push((0xDC00 + rest % 1024) as u16);
        }
        assert(units@ =~= utf16_of_seq(s@.take(i + 1)));
        i = i + 1;
    }
    assert(s@.take(n as int) =~= s@);
    units
}

} // verus!
