//! Text primitives: characters, decimal and hexadecimal rendering, integer
//! parsing, substring search and ASCII case folding.
use vstd::prelude::*;

verus! {

/// `String::push` appends the given character at the end of the string.
pub assume_specification[ String::push ](s: &mut String, ch: char)
    ensures
        final(s)@ == old(s)@.push(ch),
;

/// The characters of a string, in order.
pub fn chars_of(s: &str) -> (v: Vec<char>)
    ensures
        v@ == s@,
{
    let mut v: Vec<char> = Vec::new();
    for c in it: s.chars()
        invariant
            v@ == s@.subrange(0, it.index()),
            it.seq() == s@,
    {
        v.push(c);
    }
    assert(v@ == s@);
    v
}

/// The string made of the given characters.
pub fn string_of(v: &Vec<char>) -> (s: String)
    ensures
        s@ == v@,
{
    let mut s = String::new();
    for i in 0..v.len()
        invariant
            s@ == v@.subrange(0, i as int),
    {
        s.push(v[i]);
    }
    assert(v@.subrange(0, v@.len() as int) == v@);
    s
}

/// The characters of an optional string.
pub open spec fn opt_view(s: Option<String>) -> Option<Seq<char>> {
    match s {
        Some(t) => Some(t@),
        None => None,
    }
}

/// A copy of an optional string.
pub fn clone_opt(s: &Option<String>) -> (r: Option<String>)
    ensures
        r == *s,
{
    match s {
        Some(t) => Some(t.clone()),
        None => None,
    }
}

/// Whether two strings hold the same characters.
pub fn same_text(a: &str, b: &str) -> (r: bool)
    ensures
        r == (a@ == b@),
{
    a.to_owned() == b.to_owned()
}

/// The first string followed by the second.
pub fn join2(a: &str, b: &str) -> (r: String)
    ensures
        r@ == a@ + b@,
{
    let mut r = a.to_owned();
    r.append(b);
    r
}

/// The three strings, one after the other.
pub fn join3(a: &str, b: &str, c: &str) -> (r: String)
    ensures
        r@ == a@ + b@ + c@,
{
    let mut r = a.to_owned();
    r.append(b);
    r.append(c);
    r
}

/// The character of a decimal digit.
pub open spec fn digit_char(d: int) -> char {
    ('0' as int + d) as char
}

/// The decimal numeral of a natural number, without leading zeros.
pub open spec fn decimal(n: nat) -> Seq<char>
    decreases n,
{
    if n < 10 {
        seq![digit_char(n as int)]
    } else {
        decimal(n / 10).push(digit_char((n % 10) as int))
    }
}

/// The decimal numeral of an integer, with a minus sign when negative.
pub open spec fn signed_decimal(i: int) -> Seq<char> {
    if i < 0 {
        seq!['-'] + decimal((-i) as nat)
    } else {
        decimal(i as nat)
    }
}

/// Renders an unsigned integer in decimal.
pub fn u64_text(n: u64) -> (s: String)
    ensures
        s@ == decimal(n as nat),
    decreases n,
{
    let mut s = if n < 10 {
        String::new()
    } else {
        u64_text(n / 10)
    };
    let d: u8 = (n % 10) as u8;
    s.push((48 + d) as char);
    s
}

/// Renders a signed integer in decimal.
pub fn i64_text(i: i64) -> (s: String)
    ensures
        s@ == signed_decimal(i as int),
{
    if i >= 0 {
        u64_text(i as u64)
    } else {
        let mut s = String::new();
        s.push('-');
        let magnitude: u64 = (-(i + 1)) as u64 + 1;
        let digits = u64_text(magnitude);
        s.append(digits.as_str());
        assert(s@ == signed_decimal(i as int));
        s
    }
}

/// Whether every character is an ASCII decimal digit.
pub open spec fn all_digits(s: Seq<char>) -> bool {
    forall|i: int| 0 <= i < s.len() ==> '0' <= #[trigger] s[i] <= '9'
}

/// The number that a run of decimal digits denotes.
pub open spec fn digits_value(s: Seq<char>) -> nat
    decreases s.len(),
{
    if s.len() == 0 {
        0
    } else {
        digits_value(s.drop_last()) * 10 + (s.last() as int - '0' as int) as nat
    }
}

/// The integer that a text denotes: an optional sign followed by at least one digit.
pub open spec fn integer_value(s: Seq<char>) -> Option<int> {
    if s.len() > 0 && (s[0] == '-' || s[0] == '+') {
        let rest = s.subrange(1, s.len() as int);
        if rest.len() > 0 && all_digits(rest) {
            Some(
                if s[0] == '-' {
                    -(digits_value(rest) as int)
                } else {
                    digits_value(rest) as int
                },
            )
        } else {
            None
        }
    } else if s.len() > 0 && all_digits(s) {
        Some(digits_value(s) as int)
    } else {
        None
    }
}

/// The 64-bit signed integer that a text denotes, if it denotes one.
pub open spec fn i64_value(s: Seq<char>) -> Option<i64> {
    match integer_value(s) {
        Some(v) => if i64::MIN <= v <= i64::MAX {
            Some(v as i64)
        } else {
            None
        },
        None => None,
    }
}

/// The magnitude of a run of digits starting at `from`, capped at `2^63`.
fn digits_magnitude(v: &Vec<char>, from: usize) -> (r: Option<u64>)
    requires
        from <= v@.len(),
    ensures
        match r {
            Some(m) => all_digits(v@.subrange(from as int, v@.len() as int)) && m == digits_value(
                v@.subrange(from as int, v@.len() as int),
            ) && m <= 0x8000_0000_0000_0000,
            None => !all_digits(v@.subrange(from as int, v@.len() as int)) || digits_value(
                v@.subrange(from as int, v@.len() as int),
            ) > 0x8000_0000_0000_0000,
        },
{
    let ghost rest = v@.subrange(from as int, v@.len() as int);
    let mut value: u128 = 0;
    let mut over: bool = false;
    let mut i: usize = from;
    while i < v.len()
        invariant
            from <= i <= v@.len(),
            rest == v@.subrange(from as int, v@.len() as int),
            all_digits(rest.subrange(0, i - from)),
            !over ==> value == digits_value(rest.subrange(0, i - from)) && value
                <= 0x8000_0000_0000_0000,
            over ==> digits_value(rest.subrange(0, i - from)) > 0x8000_0000_0000_0000,
        decreases v@.len() - i,
    {
        let c = v[i];
        let ghost t = rest.subrange(0, i + 1 - from);
        assert(t.drop_last() == rest.subrange(0, i - from));
        assert(t.last() == c);
        if c < '0' || c > '9' {
            assert(rest[i - from] == c);
            return None;
        }
        let d: u128 = (c as u32 - '0' as u32) as u128;
        if !over {
            value = value * 10 + d;
            if value > 0x8000_0000_0000_0000 {
                over = true;
            }
        }
        i = i + 1;
    }
    assert(rest.subrange(0, i - from) == rest);
    if over {
        None
    } else {
        Some(value as u64)
    }
}

/// Parses a signed integer: an optional sign, then decimal digits, within range.
pub fn parse_i64(s: &str) -> (r: Option<i64>)
    ensures
        r == i64_value(s@),
{
    let v = chars_of(s);
    if v.len() == 0 {
        return None;
    }
    if v[0] == '-' || v[0] == '+' {
        if v.len() == 1 {
            return None;
        }
        match digits_magnitude(&v, 1) {
            None => None,
            Some(m) => {
                if v[0] == '-' {
                    if m == 0x8000_0000_0000_0000 {
                        Some(i64::MIN)
                    } else {
                        Some(-(m as i64))
                    }
                } else if m <= 0x7fff_ffff_ffff_ffff {
                    Some(m as i64)
                } else {
                    None
                }
            },
        }
    } else {
        assert(v@.subrange(0, v@.len() as int) == v@);
        match digits_magnitude(&v, 0) {
            None => None,
            Some(m) => if m <= 0x7fff_ffff_ffff_ffff {
                Some(m as i64)
            } else {
                None
            },
        }
    }
}

/// The numeral of a natural number consists of digits and denotes that number.
pub proof fn decimal_denotes(n: nat)
    ensures
        decimal(n).len() > 0,
        all_digits(decimal(n)),
        digits_value(decimal(n)) == n,
    decreases n,
{
    reveal_with_fuel(digits_value, 2);
    if n >= 10 {
        decimal_denotes(n / 10);
        assert(decimal(n).drop_last() == decimal(n / 10));
    } else {
        assert(decimal(n).drop_last() == Seq::<char>::empty());
    }
}

/// Parsing the numeral of a 64-bit integer gives that integer back.
pub proof fn signed_decimal_parses_back(i: i64)
    ensures
        i64_value(signed_decimal(i as int)) == Some(i),
{
    let s = signed_decimal(i as int);
    if i < 0 {
        let m = (-(i as int)) as nat;
        decimal_denotes(m);
        assert(s.subrange(1, s.len() as int) == decimal(m));
    } else {
        decimal_denotes(i as nat);
        assert('0' <= s[0] <= '9');
    }
}

/// The lower-case character of a hexadecimal digit.
pub open spec fn hex_char(d: int) -> char {
    if d < 10 {
        ('0' as int + d) as char
    } else {
        ('a' as int + (d - 10)) as char
    }
}

/// The low `width` hexadecimal digits of a number, most significant first.
pub open spec fn hex(n: nat, width: nat) -> Seq<char>
    decreases width,
{
    if width == 0 {
        Seq::empty()
    } else {
        hex(n / 16, (width - 1) as nat).push(hex_char((n % 16) as int))
    }
}

/// Renders the low `width` hexadecimal digits of a number, zero padded.
pub fn hex_text(n: u64, width: u8) -> (s: String)
    ensures
        s@ == hex(n as nat, width as nat),
    decreases width,
{
    if width == 0 {
        String::new()
    } else {
        let mut s = hex_text(n / 16, width - 1);
        let d: u8 = (n % 16) as u8;
        if d < 10 {
            s.push((48 + d) as char);
        } else {
            s.push((87 + d) as char);
        }
        s
    }
}

/// Whether `part` occurs in `whole` at position `at`.
pub open spec fn occurs_at(whole: Seq<char>, part: Seq<char>, at: int) -> bool {
    0 <= at && at + part.len() <= whole.len() && whole.subrange(at, at + part.len()) == part
}

/// Whether `whole` begins with `part`.
pub open spec fn has_prefix(whole: Seq<char>, part: Seq<char>) -> bool {
    occurs_at(whole, part, 0)
}

/// Whether `whole` ends with `part`.
pub open spec fn has_suffix(whole: Seq<char>, part: Seq<char>) -> bool {
    occurs_at(whole, part, whole.len() - part.len())
}

/// Whether `part` occurs somewhere in `whole`.
pub open spec fn has_part(whole: Seq<char>, part: Seq<char>) -> bool {
    exists|at: int| occurs_at(whole, part, at)
}

/// Tests for an occurrence of `part` at a position.
pub fn matches_at(whole: &Vec<char>, part: &Vec<char>, at: usize) -> (r: bool)
    ensures
        r == occurs_at(whole@, part@, at as int),
{
    if part.len() > whole.len() || at > whole.len() - part.len() {
        return false;
    }
    let whole_len: usize = whole.len();
    let mut i: usize = 0;
    while i < part.len()
        invariant
            i <= part@.len(),
            at + part@.len() <= whole@.len() == whole_len,
            forall|j: int| 0 <= j < i ==> whole@[at + j] == part@[j],
        decreases part@.len() - i,
    {
        if whole[at + i] != part[i] {
            assert(whole@.subrange(at as int, at + part@.len())[i as int] != part@[i as int]);
            return false;
        }
        i = i + 1;
    }
    assert(whole@.subrange(at as int, at + part@.len()) == part@);
    true
}

/// Tests whether a string begins with another.
pub fn starts_with(whole: &str, part: &str) -> (r: bool)
    ensures
        r == has_prefix(whole@, part@),
{
    matches_at(&chars_of(whole), &chars_of(part), 0)
}

/// Tests whether a string ends with another.
pub fn ends_with(whole: &str, part: &str) -> (r: bool)
    ensures
        r == has_suffix(whole@, part@),
{
    let w = chars_of(whole);
    let p = chars_of(part);
    if p.len() > w.len() {
        return false;
    }
    matches_at(&w, &p, w.len() - p.len())
}

/// Tests whether a string contains another.
pub fn contains_text(whole: &str, part: &str) -> (r: bool)
    ensures
        r == has_part(whole@, part@),
{
    let w = chars_of(whole);
    let p = chars_of(part);
    if p.len() > w.len() {
        return false;
    }
    let mut at: usize = 0;
    while at <= w.len() - p.len()
        invariant
            p@.len() <= w@.len(),
            at <= w@.len() - p@.len() + 1,
            w@ == whole@,
            p@ == part@,
            forall|j: int| 0 <= j < at ==> !#[trigger] occurs_at(w@, p@, j),
        decreases w@.len() - p@.len() + 1 - at,
    {
        if matches_at(&w, &p, at) {
            return true;
        }
        if at == w.len() - p.len() {
            return false;
        }
        at = at + 1;
    }
    false
}

/// A character with ASCII upper-case letters folded to lower case.
pub open spec fn lower_char(c: char) -> char {
    if 'A' <= c <= 'Z' {
        (c as int + 32) as char
    } else {
        c
    }
}

/// A text with ASCII upper-case letters folded to lower case.
pub open spec fn lower(s: Seq<char>) -> Seq<char> {
    s.map_values(|c: char| lower_char(c))
}

/// Folds ASCII upper-case letters to lower case.
pub fn to_lower(s: &str) -> (r: String)
    ensures
        r@ == lower(s@),
{
    let v = chars_of(s);
    let mut r = String::new();
    for i in 0..v.len()
        invariant
            v@ == s@,
            r@ == lower(s@).subrange(0, i as int),
    {
        let c = v[i];
        if 'A' <= c && c <= 'Z' {
            r.push((c as u8 + 32) as char);
        } else {
            r.push(c);
        }
    }
    assert(lower(s@).subrange(0, v@.len() as int) == lower(s@));
    r
}

/// Whether a character is white space in Unicode.
pub open spec fn space_char(c: char) -> bool {
    let n = c as int;
    9 <= n <= 13 || n == 32 || n == 0x85 || n == 0xa0 || n == 0x1680 || 0x2000 <= n <= 0x200a || n
        == 0x2028 || n == 0x2029 || n == 0x202f || n == 0x205f || n == 0x3000
}

/// Whether a text consists of white space.
pub open spec fn blank(s: Seq<char>) -> bool {
    forall|i: int| 0 <= i < s.len() ==> space_char(#[trigger] s[i])
}

/// A text without its leading white space.
pub open spec fn trim_start_of(s: Seq<char>) -> Seq<char>
    decreases s.len(),
{
    if s.len() > 0 && space_char(s[0]) {
        trim_start_of(s.subrange(1, s.len() as int))
    } else {
        s
    }
}

/// A text without its trailing white space.
pub open spec fn trim_end_of(s: Seq<char>) -> Seq<char>
    decreases s.len(),
{
    if s.len() > 0 && space_char(s.last()) {
        trim_end_of(s.drop_last())
    } else {
        s
    }
}

/// A text without the white space around it.
pub open spec fn trim_of(s: Seq<char>) -> Seq<char> {
    trim_end_of(trim_start_of(s))
}

/// The words of a text: its maximal runs of other characters than white space.
pub open spec fn words_of(s: Seq<char>) -> Seq<Seq<char>>
    decreases s.len(),
{
    if s.len() == 0 {
        Seq::empty()
    } else {
        let before = words_of(s.drop_last());
        if space_char(s.last()) {
            before
        } else if s.len() == 1 || space_char(s[s.len() - 2]) || before.len() == 0 {
            before.push(seq![s.last()])
        } else {
            before.drop_last().push(before.last().push(s.last()))
        }
    }
}

/// The characters of the strings of a list.
pub open spec fn list_view(v: Seq<String>) -> Seq<Seq<char>> {
    Seq::new(v.len(), |i: int| v[i]@)
}

fn is_space(c: char) -> (r: bool)
    ensures
        r == space_char(c),
{
    let n: u32 = c as u32;
    (9 <= n && n <= 13) || n == 32 || n == 0x85 || n == 0xa0 || n == 0x1680 || (0x2000 <= n && n
        <= 0x200a) || n == 0x2028 || n == 0x2029 || n == 0x202f || n == 0x205f || n == 0x3000
}

/// Tests whether a text consists of white space.
pub fn is_blank(s: &str) -> (r: bool)
    ensures
        r == blank(s@),
{
    let v = chars_of(s);
    let mut i: usize = 0;
    while i < v.len()
        invariant
            i <= v@.len(),
            v@ == s@,
            forall|j: int| 0 <= j < i ==> space_char(#[trigger] s@[j]),
        decreases v@.len() - i,
    {
        if !is_space(v[i]) {
            assert(!space_char(s@[i as int]));
            return false;
        }
        i = i + 1;
    }
    true
}

/// The characters of a slice as a string.
pub fn slice_text(v: &Vec<char>, from: usize, to: usize) -> (r: String)
    requires
        from <= to <= v@.len(),
    ensures
        r@ == v@.subrange(from as int, to as int),
{
    let mut r = String::new();
    let mut i: usize = from;
    while i < to
        invariant
            from <= i <= to <= v@.len(),
            r@ == v@.subrange(from as int, i as int),
        decreases to - i,
    {
        r.push(v[i]);
        i = i + 1;
    }
    r
}

/// Removes the white space around a text.
pub fn trim(s: &str) -> (r: String)
    ensures
        r@ == trim_of(s@),
{
    let v = chars_of(s);
    assert(v@.subrange(0, v@.len() as int) == s@);
    let mut from: usize = 0;
    while from < v.len() && is_space(v[from])
        invariant
            from <= v@.len(),
            v@ == s@,
            trim_start_of(s@) == trim_start_of(v@.subrange(from as int, v@.len() as int)),
        decreases v@.len() - from,
    {
        assert(v@.subrange(from as int, v@.len() as int).subrange(
            1,
            v@.len() - from,
        ) == v@.subrange(from + 1, v@.len() as int));
        from = from + 1;
    }
    let ghost kept = v@.subrange(from as int, v@.len() as int);
    assert(trim_start_of(s@) == kept);
    let mut to: usize = v.len();
    while to > from && is_space(v[to - 1])
        invariant
            from <= to <= v@.len(),
            kept == v@.subrange(from as int, v@.len() as int),
            trim_end_of(kept) == trim_end_of(v@.subrange(from as int, to as int)),
        decreases to,
    {
        assert(v@.subrange(from as int, to as int).drop_last() == v@.subrange(
            from as int,
            to - 1,
        ));
        to = to - 1;
    }
    slice_text(&v, from, to)
}

/// Splits a text into its words.
pub fn split_words(s: &str) -> (r: Vec<String>)
    ensures
        list_view(r@) == words_of(s@),
{
    let v = chars_of(s);
    let mut done: Vec<String> = Vec::new();
    let mut word = String::new();
    let mut i: usize = 0;
    while i < v.len()
        invariant
            i <= v@.len(),
            v@ == s@,
            word@.len() > 0 <==> i > 0 && !space_char(s@[i - 1]),
            words_of(s@.subrange(0, i as int)) == if word@.len() > 0 {
                list_view(done@).push(word@)
            } else {
                list_view(done@)
            },
        decreases v@.len() - i,
    {
        let c = v[i];
        let ghost t = s@.subrange(0, i + 1);
        let ghost before = words_of(s@.subrange(0, i as int));
        assert(t.drop_last() == s@.subrange(0, i as int));
        assert(t.last() == c);
        if is_space(c) {
            if !word.as_str().is_empty() {
                let ghost old_done = done@;
                done.push(word);
                assert(list_view(done@) == list_view(old_done).push(word@));
                word = String::new();
            }
        } else {
            let ghost old_word = word@;
            word.push(c);
            proof {
                if old_word.len() > 0 {
                    assert(before.drop_last() == list_view(done@));
                    assert(before.last() == old_word);
                } else {
                    assert(word@ == seq![c]);
                }
            }
        }
        i = i + 1;
    }
    assert(s@.subrange(0, i as int) == s@);
    if !word.as_str().is_empty() {
        let ghost old_done = done@;
        done.push(word);
        assert(list_view(done@) == list_view(old_done).push(word@));
    }
    done
}

/// The beginning of a text, up to the first occurrence of a character.
pub open spec fn before_char(s: Seq<char>, c: char) -> Seq<char>
    decreases s.len(),
{
    if s.len() == 0 || s[0] == c {
        Seq::empty()
    } else {
        seq![s[0]] + before_char(s.subrange(1, s.len() as int), c)
    }
}

/// Cuts a text off at the first occurrence of a character.
pub fn cut_at(s: &str, c: char) -> (r: String)
    ensures
        r@ == before_char(s@, c),
{
    let v = chars_of(s);
    let mut r = String::new();
    let mut i: usize = 0;
    assert(v@.subrange(0, v@.len() as int) == v@);
    while i < v.len() && v[i] != c
        invariant
            i <= v@.len(),
            v@ == s@,
            r@ + before_char(v@.subrange(i as int, v@.len() as int), c) == before_char(s@, c),
        decreases v@.len() - i,
    {
        let ghost rest = v@.subrange(i as int, v@.len() as int);
        assert(rest.subrange(1, rest.len() as int) == v@.subrange(i + 1, v@.len() as int));
        let ghost before = r@;
        r.push(v[i]);
        assert(r@ + before_char(v@.subrange(i + 1, v@.len() as int), c) == before + (seq![rest[0]]
            + before_char(rest.subrange(1, rest.len() as int), c)));
        i = i + 1;
    }
    assert(r@ + Seq::<char>::empty() == r@);
    r
}

/// Whether a character is an ASCII letter or digit.
pub open spec fn alphanumeric(c: char) -> bool {
    'a' <= c <= 'z' || 'A' <= c <= 'Z' || '0' <= c <= '9'
}

/// The ASCII letters and digits of a text.
pub open spec fn alphanumerics(s: Seq<char>) -> Seq<char>
    decreases s.len(),
{
    if s.len() == 0 {
        Seq::empty()
    } else if alphanumeric(s.last()) {
        alphanumerics(s.drop_last()).push(s.last())
    } else {
        alphanumerics(s.drop_last())
    }
}

/// Keeps the ASCII letters and digits of a text.
pub fn keep_alphanumerics(s: &str) -> (r: String)
    ensures
        r@ == alphanumerics(s@),
{
    let v = chars_of(s);
    let mut r = String::new();
    let mut i: usize = 0;
    while i < v.len()
        invariant
            i <= v@.len(),
            v@ == s@,
            r@ == alphanumerics(v@.subrange(0, i as int)),
        decreases v@.len() - i,
    {
        assert(v@.subrange(0, i + 1).drop_last() == v@.subrange(0, i as int));
        let c = v[i];
        if ('a' <= c && c <= 'z') || ('A' <= c && c <= 'Z') || ('0' <= c && c <= '9') {
            r.push(c);
        }
        i = i + 1;
    }
    assert(v@.subrange(0, i as int) == v@);
    r
}

/// A text with one character in place of another.
pub open spec fn with_char(s: Seq<char>, from: char, to: char) -> Seq<char> {
    s.map_values(
        |c: char|
            if c == from {
                to
            } else {
                c
            },
    )
}

/// Puts one character in place of another.
pub fn replace_char(s: &str, from: char, to: char) -> (r: String)
    ensures
        r@ == with_char(s@, from, to),
{
    let v = chars_of(s);
    let mut r = String::new();
    let mut i: usize = 0;
    while i < v.len()
        invariant
            i <= v@.len(),
            v@ == s@,
            r@ == with_char(s@, from, to).subrange(0, i as int),
        decreases v@.len() - i,
    {
        let c = if v[i] == from {
            to
        } else {
            v[i]
        };
        r.push(c);
        i = i + 1;
        assert(r@ == with_char(s@, from, to).subrange(0, i as int));
    }
    assert(r@ == with_char(s@, from, to));
    r
}

/// Whether a text occurs in a list of texts.
pub open spec fn listed(list: Seq<Seq<char>>, s: Seq<char>) -> bool {
    exists|i: int| 0 <= i < list.len() && #[trigger] list[i] == s
}

/// Tests whether a text occurs in a list of texts.
pub fn is_listed(list: &Vec<String>, s: &str) -> (r: bool)
    ensures
        r == listed(list_view(list@), s@),
{
    let mut i: usize = 0;
    while i < list.len()
        invariant
            i <= list@.len(),
            forall|j: int| 0 <= j < i ==> #[trigger] list_view(list@)[j] != s@,
        decreases list@.len() - i,
    {
        assert(list_view(list@)[i as int] == list@[i as int]@);
        if same_text(list[i].as_str(), s) {
            return true;
        }
        i = i + 1;
    }
    false
}

/// The rank of a character in an order in which one character comes first.
pub open spec fn rank(c: char, first: char) -> int {
    if c == first {
        0
    } else {
        c as int + 1
    }
}

proof fn lemma_rank(c: char, d: char, first: char)
    ensures
        (rank(c, first) == rank(d, first)) == (c == d),
        c == first && d != first ==> rank(c, first) < rank(d, first),
        d == first && c != first ==> rank(d, first) < rank(c, first),
        c != first && d != first ==> (rank(c, first) < rank(d, first)) == (c < d),
{
}

/// The lexicographic order of texts in which one character comes before all others.
pub open spec fn precedes(a: Seq<char>, b: Seq<char>, first: char) -> bool
    decreases a.len(),
{
    if b.len() == 0 {
        false
    } else if a.len() == 0 {
        true
    } else if rank(a[0], first) != rank(b[0], first) {
        rank(a[0], first) < rank(b[0], first)
    } else {
        precedes(a.subrange(1, a.len() as int), b.subrange(1, b.len() as int), first)
    }
}

/// Tests whether a text comes before another one.
pub fn is_before(a: &str, b: &str, first: char) -> (r: bool)
    ensures
        r == precedes(a@, b@, first),
{
    let x = chars_of(a);
    let y = chars_of(b);
    assert(x@.subrange(0, x@.len() as int) == x@);
    assert(y@.subrange(0, y@.len() as int) == y@);
    let mut i: usize = 0;
    while i < x.len() && i < y.len()
        invariant
            i <= x@.len(),
            i <= y@.len(),
            x@ == a@,
            y@ == b@,
            precedes(a@, b@, first) == precedes(
                x@.subrange(i as int, x@.len() as int),
                y@.subrange(i as int, y@.len() as int),
                first,
            ),
        decreases x@.len() - i,
    {
        let ghost u = x@.subrange(i as int, x@.len() as int);
        let ghost v = y@.subrange(i as int, y@.len() as int);
        assert(u.subrange(1, u.len() as int) == x@.subrange(i + 1, x@.len() as int));
        assert(v.subrange(1, v.len() as int) == y@.subrange(i + 1, y@.len() as int));
        let c = x[i];
        let d = y[i];
        proof {
            lemma_rank(c, d, first);
        }
        if c != d {
            if c == first {
                return true;
            }
            if d == first {
                return false;
            }
            return c < d;
        }
        i = i + 1;
    }
    i < y.len()
}

/// Of two different texts one comes before the other.
pub proof fn order_is_total(a: Seq<char>, b: Seq<char>, first: char)
    ensures
        a != b ==> precedes(a, b, first) || precedes(b, a, first),
        !(precedes(a, b, first) && precedes(b, a, first)),
    decreases a.len(),
{
    if a.len() > 0 && b.len() > 0 {
        let x = a.subrange(1, a.len() as int);
        let y = b.subrange(1, b.len() as int);
        order_is_total(x, y, first);
        lemma_rank(a[0], b[0], first);
        if x == y && a[0] == b[0] {
            assert(a =~= seq![a[0]] + x);
            assert(b =~= seq![b[0]] + y);
        }
    } else if a.len() == 0 && b.len() == 0 {
        assert(a =~= b);
    }
}

/// What comes before a text comes before all that the text comes before.
pub proof fn order_is_transitive(a: Seq<char>, b: Seq<char>, c: Seq<char>, first: char)
    requires
        precedes(a, b, first),
        precedes(b, c, first),
    ensures
        precedes(a, c, first),
    decreases a.len(),
{
    if a.len() > 0 && rank(a[0], first) == rank(b[0], first) && rank(b[0], first) == rank(
        c[0],
        first,
    ) {
        order_is_transitive(
            a.subrange(1, a.len() as int),
            b.subrange(1, b.len() as int),
            c.subrange(1, c.len() as int),
            first,
        );
    }
}

} // verus!
