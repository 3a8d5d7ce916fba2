//! The basics: texts, numbers, paths, values and names, and how the database is opened and written.
use vstd::prelude::*;

use crate::error::{format_error, inconsistent, Error};
use crate::hash::stable_hash;
use crate::json;
use crate::json::{Json, JsonView, NumberView};
use crate::laws::media;
use crate::paths;
use crate::paths::PathPart;
use crate::sqlite_write;
use crate::sqlite_write::{
    after_commit, begin_immediate, is_busy, vacuum_into, with_immediate_transaction, TransactionEnd,
};
use crate::storage::database;
use crate::storage::database::{
    backup_before_migration, create_db_pool_with_url, has_pending_migrations, needs_backup, PoolPlan,
};
use crate::storage::internal::entities::{MediaOwnerType, MediaStatus, MediaType, RefreshTier};
use crate::text;

verus! {

/// A number that is written is read back, with its sign.
pub proof fn written_numbers_are_read_back(i: i64, written: String, s: &str, r: Option<i64>)
    requires
        call_ensures(text::i64_text, (i,), written),
        s@ == written@,
        call_ensures(text::parse_i64, (s,), r),
    ensures
        r == Some(i),
        i < 0 <==> s@[0] == '-',
{
    text::signed_decimal_parses_back(i);
    if i >= 0 {
        text::decimal_denotes(i as nat);
        assert('0' <= s@[0] <= '9');
    }
}

/// One more digit makes ten times the number and that digit; numbers of either sign are written
/// with the same digits.
pub proof fn numbers_are_written_digit_by_digit(
    n: u64,
    d: u8,
    m: u64,
    a: String,
    b: String,
    signed: String,
)
    requires
        0 < n,
        d < 10,
        m == n * 10 + d,
        call_ensures(text::u64_text, (n,), a),
        call_ensures(text::u64_text, (m,), b),
        m <= i64::MAX ==> call_ensures(text::i64_text, (m as i64,), signed),
    ensures
        b@ == a@.push((48 + d) as char),
        m <= i64::MAX ==> signed@ == b@,
{
    assert(m / 10 == n && m % 10 == d);
}

/// What is no number is read as none: nothing, a sign alone, or a text with another character. A minus
/// sign before digits makes the number negative.
pub proof fn only_digits_are_read(s: &str, t: &str, r: Option<i64>, u: Option<i64>)
    requires
        call_ensures(text::parse_i64, (s,), r),
        t@ == seq!['-'] + s@,
        call_ensures(text::parse_i64, (t,), u),
    ensures
        s@.len() == 0 ==> r is None && u is None,
        (exists|i: int| 0 < i < s@.len() && !('0' <= #[trigger] s@[i] <= '9')) ==> r is None,
        s@.len() > 0 && !('0' <= s@[0] <= '9') && s@[0] != '-' && s@[0] != '+' ==> r is None,
        s@.len() > 0 && '0' <= s@[0] <= '9' ==> (r matches Some(n) ==> n >= 0 && u == Some(
            (-n) as i64,
        )),
{
    let rest = s@.subrange(1, s@.len() as int);
    assert(t@.subrange(1, t@.len() as int) == s@);
    if exists|i: int| 0 < i < s@.len() && !('0' <= #[trigger] s@[i] <= '9') {
        let i = choose|i: int| 0 < i < s@.len() && !('0' <= #[trigger] s@[i] <= '9');
        assert(rest[i - 1] == s@[i]);
        assert(!text::all_digits(rest));
        assert(!text::all_digits(s@));
    }
    if s@.len() > 0 && !('0' <= s@[0] <= '9') {
        assert(!text::all_digits(s@));
    }
}

/// One more hexadecimal digit makes sixteen times the number and that digit.
pub proof fn hexadecimals_are_written_digit_by_digit(
    n: u64,
    d: u8,
    m: u64,
    width: u8,
    a: String,
    b: String,
    none: String,
)
    requires
        d < 16,
        m == n * 16 + d,
        width < 255,
        call_ensures(text::hex_text, (n, width), a),
        call_ensures(text::hex_text, (m, (width + 1) as u8), b),
        call_ensures(text::hex_text, (n, 0), none),
    ensures
        d < 10 ==> b@ == a@.push((48 + d) as char),
        d >= 10 ==> b@ == a@.push((87 + d) as char),
        none@.len() == 0,
{
    assert(m / 16 == n && m % 16 == d);
}

/// A text that is made of others begins with the first, ends with the last and holds all of them, and
/// what a text begins or ends with is found in it.
pub proof fn joined_texts_hold_their_parts(
    a: &str,
    b: &str,
    c: &str,
    ab: String,
    abc: String,
    whole: &str,
    begins: bool,
    ends: bool,
    holds: bool,
    part: &str,
    p: bool,
    s: bool,
    h: bool,
)
    requires
        call_ensures(text::join2, (a, b), ab),
        call_ensures(text::join3, (a, b, c), abc),
        whole@ == abc@,
        call_ensures(text::starts_with, (whole, a), begins),
        call_ensures(text::ends_with, (whole, c), ends),
        call_ensures(text::contains_text, (whole, b), holds),
        call_ensures(text::starts_with, (whole, part), p),
        call_ensures(text::ends_with, (whole, part), s),
        call_ensures(text::contains_text, (whole, part), h),
    ensures
        ab@ == a@ + b@,
        abc@ == ab@ + c@,
        begins && ends && holds,
        p ==> h,
        s ==> h,
        p ==> part@.len() <= whole@.len() && (forall|i: int|
            0 <= i < part@.len() ==> #[trigger] part@[i] == whole@[i]),
        part@.len() > whole@.len() ==> !p && !s && !h,
{
    assert(whole@.subrange(0, a@.len() as int) == a@);
    assert(whole@.subrange(whole@.len() - c@.len(), whole@.len() as int) == c@);
    assert(text::occurs_at(whole@, b@, a@.len() as int)) by {
        assert(whole@.subrange(a@.len() as int, (a@.len() + b@.len()) as int) == b@);
    }
    if p {
        assert(text::occurs_at(whole@, part@, 0));
        assert forall|i: int| 0 <= i < part@.len() implies #[trigger] part@[i] == whole@[i] by {
            assert(whole@.subrange(0, part@.len() as int)[i] == whole@[i]);
        }
    }
    if s {
        assert(text::occurs_at(whole@, part@, whole@.len() - part@.len()));
    }
}

/// Letters of the alphabet become small, everything else stays, and small letters stay small.
pub proof fn letters_become_small(s: &str, r: String, t: &str, again: String)
    requires
        call_ensures(text::to_lower, (s,), r),
        t@ == r@,
        call_ensures(text::to_lower, (t,), again),
    ensures
        r@.len() == s@.len(),
        forall|i: int|
            0 <= i < s@.len() ==> ('A' <= s@[i] <= 'Z' ==> #[trigger] r@[i] as int == s@[i] as int
                + 32),
        forall|i: int| 0 <= i < s@.len() ==> (!('A' <= s@[i] <= 'Z') ==> #[trigger] r@[i] == s@[i]),
        again@ == r@,
{
    assert forall|i: int| 0 <= i < s@.len() implies #[trigger] again@[i] == r@[i] by {}
    assert(again@ =~= r@);
}

/// Which characters are white space.
pub proof fn white_space_is_as_in_unicode(s: &str, c: char, r: bool)
    requires
        s@ == seq![c],
        call_ensures(text::is_blank, (s,), r),
    ensures
        r <==> c == ' ' || ('\t' <= c <= '\r') || c == '\u{85}' || c == '\u{a0}' || c == '\u{1680}'
            || ('\u{2000}' <= c <= '\u{200a}') || c == '\u{2028}' || c == '\u{2029}' || c
            == '\u{202f}' || c == '\u{205f}' || c == '\u{3000}',
{
    assert(s@[0] == c);
}

proof fn lemma_trim_start(s: Seq<char>)
    ensures
        ({
            let t = text::trim_start_of(s);
            let k = s.len() - t.len();
            &&& 0 <= k
            &&& t == s.subrange(k, s.len() as int)
            &&& forall|i: int| 0 <= i < k ==> text::space_char(#[trigger] s[i])
            &&& t.len() > 0 ==> !text::space_char(t[0])
        }),
    decreases s.len(),
{
    if s.len() > 0 && text::space_char(s[0]) {
        let rest = s.subrange(1, s.len() as int);
        lemma_trim_start(rest);
        let t = text::trim_start_of(s);
        let k = s.len() - t.len();
        assert(t =~= s.subrange(k, s.len() as int));
        assert forall|i: int| 0 <= i < k implies text::space_char(#[trigger] s[i]) by {
            if i > 0 {
                assert(rest[i - 1] == s[i]);
            }
        }
    } else {
        assert(s.subrange(0, s.len() as int) == s);
    }
}

proof fn lemma_trim_end(s: Seq<char>)
    ensures
        ({
            let t = text::trim_end_of(s);
            &&& t.len() <= s.len()
            &&& t == s.subrange(0, t.len() as int)
            &&& forall|i: int| t.len() <= i < s.len() ==> text::space_char(#[trigger] s[i])
            &&& t.len() > 0 ==> !text::space_char(t.last())
        }),
    decreases s.len(),
{
    if s.len() > 0 && text::space_char(s.last()) {
        let rest = s.drop_last();
        lemma_trim_end(rest);
        let t = text::trim_end_of(s);
        assert(t =~= s.subrange(0, t.len() as int));
        assert forall|i: int| t.len() <= i < s.len() implies text::space_char(#[trigger] s[i]) by {
            if i < s.len() - 1 {
                assert(rest[i] == s[i]);
            }
        }
    } else {
        assert(s.subrange(0, s.len() as int) == s);
    }
}

/// A trimmed text is the part of a text between the white space around it: it neither begins nor
/// ends with white space, and nothing is left of a blank text.
pub proof fn trimmed_texts_have_no_space_around(
    s: &str,
    blank: bool,
    r: String,
)
    requires
        call_ensures(text::is_blank, (s,), blank),
        call_ensures(text::trim, (s,), r),
    ensures
        blank <==> r@.len() == 0,
        r@.len() > 0 ==> !text::space_char(r@[0]) && !text::space_char(r@.last()),
        exists|k: int|
            #![trigger s@.subrange(k, k + r@.len())]
            0 <= k <= s@.len() - r@.len() && s@.subrange(k, k + r@.len()) == r@ && (forall|i: int|
                0 <= i < k || k + r@.len() <= i < s@.len() ==> text::space_char(#[trigger] s@[i])),
{
    let t = text::trim_start_of(s@);
    lemma_trim_start(s@);
    lemma_trim_end(t);
    let k = s@.len() - t.len();
    assert(s@.subrange(k, k + r@.len()) =~= r@);
    assert forall|i: int| 0 <= i < k || k + r@.len() <= i < s@.len() implies text::space_char(
        #[trigger] s@[i],
    ) by {
        if i >= k {
            assert(t[i - k] == s@[i]);
        }
    }
    if r@.len() > 0 {
        assert(r@[0] == t[0]);
        assert(s@[k] == r@[0]);
    }
}

proof fn lemma_words(s: Seq<char>)
    ensures
        forall|i: int|
            0 <= i < text::words_of(s).len() ==> (#[trigger] text::words_of(s)[i]).len() > 0,
        forall|i: int, j: int|
            0 <= i < text::words_of(s).len() && 0 <= j < text::words_of(s)[i].len()
                ==> !text::space_char(#[trigger] text::words_of(s)[i][j]),
        s.len() > 0 && (forall|i: int| 0 <= i < s.len() ==> !text::space_char(#[trigger] s[i]))
            ==> text::words_of(s) == seq![s],
        (forall|i: int| 0 <= i < s.len() ==> text::space_char(#[trigger] s[i])) ==> text::words_of(
            s,
        ).len() == 0,
    decreases s.len(),
{
    if s.len() > 0 {
        let before = s.drop_last();
        lemma_words(before);
        let w = text::words_of(before);
        let whole = text::words_of(s);
        assert(s[s.len() - 1] == s.last());
        assert forall|i: int| 0 <= i < before.len() implies #[trigger] before[i] == s[i] by {}
        if !text::space_char(s.last()) && w.len() > 0 {
            assert(w.last() == w[w.len() - 1]);
            assert forall|j: int| 0 <= j < w.last().push(s.last()).len() implies !text::space_char(
                #[trigger] w.last().push(s.last())[j],
            ) by {
                if j < w.last().len() {
                    assert(!text::space_char(w[w.len() - 1][j]));
                }
            }
        }
        assert forall|i: int, j: int| 0 <= i < whole.len() && 0 <= j < whole[i].len() implies
            !text::space_char(#[trigger] whole[i][j]) by {
            if i < w.len() && whole[i] == w[i] {
                assert(!text::space_char(w[i][j]));
            }
        }
        if forall|i: int| 0 <= i < s.len() ==> !text::space_char(#[trigger] s[i]) {
            if before.len() == 0 {
                assert(s =~= seq![s.last()]);
                assert(whole =~= seq![s]);
            } else {
                assert(!text::space_char(s[s.len() - 2]));
                assert(w == seq![before]);
                assert(before.push(s.last()) =~= s);
                assert(whole =~= seq![s]);
            }
        }
        if forall|i: int| 0 <= i < s.len() ==> text::space_char(#[trigger] s[i]) {
            assert forall|i: int| 0 <= i < before.len() implies text::space_char(
                #[trigger] before[i],
            ) by {
                assert(text::space_char(s[i]));
            }
        }
    }
}

/// Words are not empty and hold no white space; a text without white space is its own only word, and
/// a blank one has none. What follows a word after white space begins another one.
pub proof fn words_hold_no_space(s: &str, r: Vec<String>, t: &str, c: char, d: char, more: Vec<String>)
    requires
        call_ensures(text::split_words, (s,), r),
        text::space_char(c),
        !text::space_char(d),
        t@ == s@.push(c).push(d),
        call_ensures(text::split_words, (t,), more),
    ensures
        forall|i: int| 0 <= i < r@.len() ==> (#[trigger] r@[i])@.len() > 0,
        s@.len() > 0 && (forall|i: int| 0 <= i < s@.len() ==> !text::space_char(#[trigger] s@[i]))
            ==> r@.len() == 1 && r@[0]@ == s@,
        (forall|i: int| 0 <= i < s@.len() ==> text::space_char(#[trigger] s@[i])) ==> r@.len() == 0,
        text::list_view(more@) == text::list_view(r@).push(seq![d]),
{
    lemma_words(s@);
    let w = text::words_of(s@);
    assert(w.len() == r@.len());
    assert forall|i: int| 0 <= i < r@.len() implies (#[trigger] r@[i])@.len() > 0 by {
        assert(w[i] == r@[i]@);
    }
    if w == seq![s@] {
        assert(w[0] == r@[0]@);
    }
    let one = s@.push(c);
    reveal_with_fuel(text::words_of, 3);
    assert(one.last() == c && t@.last() == d);
    assert(t@.drop_last() == one);
    assert(one.drop_last() == s@);
    assert(t@[t@.len() - 2] == c);
    assert(text::words_of(one) == w);
    assert(text::words_of(t@) =~= w.push(seq![d]));
}

proof fn lemma_before(s: Seq<char>, c: char)
    ensures
        ({
            let b = text::before_char(s, c);
            &&& b.len() <= s.len()
            &&& b == s.subrange(0, b.len() as int)
            &&& forall|i: int| 0 <= i < b.len() ==> #[trigger] b[i] != c
            &&& b.len() < s.len() ==> s[b.len() as int] == c
        }),
    decreases s.len(),
{
    if s.len() > 0 && s[0] != c {
        let rest = s.subrange(1, s.len() as int);
        lemma_before(rest, c);
        let b = text::before_char(s, c);
        let inner = text::before_char(rest, c);
        assert(b =~= s.subrange(0, b.len() as int));
        assert forall|i: int| 0 <= i < b.len() implies #[trigger] b[i] != c by {
            if i > 0 {
                assert(b[i] == inner[i - 1]);
            }
        }
        if b.len() < s.len() {
            assert(rest[inner.len() as int] == s[b.len() as int]);
        }
    } else {
        assert(s.subrange(0, 0) =~= Seq::<char>::empty());
    }
}

/// A text is cut off right before the first occurrence of a character, or not at all.
pub proof fn texts_are_cut_at_the_first_mark(s: &str, c: char, r: String)
    requires
        call_ensures(text::cut_at, (s, c), r),
    ensures
        r@.len() <= s@.len() && s@.subrange(0, r@.len() as int) == r@,
        forall|i: int| 0 <= i < r@.len() ==> #[trigger] s@[i] != c,
        r@.len() < s@.len() ==> s@[r@.len() as int] == c,
        !s@.contains(c) ==> r@ == s@,
{
    lemma_before(s@, c);
    assert forall|i: int| 0 <= i < r@.len() implies #[trigger] s@[i] != c by {
        assert(r@[i] == s@[i]);
    }
    if !s@.contains(c) {
        assert(s@.subrange(0, s@.len() as int) == s@);
    }
}

/// Letters and digits are kept, everything else is left out, and the order stays.
pub proof fn letters_and_digits_are_kept(
    s: &str,
    t: &str,
    c: char,
    a: String,
    b: String,
)
    requires
        t@ == s@.push(c),
        call_ensures(text::keep_alphanumerics, (s,), a),
        call_ensures(text::keep_alphanumerics, (t,), b),
    ensures
        s@.len() == 0 ==> a@.len() == 0,
        ('a' <= c <= 'z' || 'A' <= c <= 'Z' || '0' <= c <= '9') ==> b@ == a@.push(c),
        !('a' <= c <= 'z' || 'A' <= c <= 'Z' || '0' <= c <= '9') ==> b@ == a@,
{
    assert(t@.drop_last() == s@);
}

/// One character takes the place of another, and no other changes.
pub proof fn characters_are_replaced(s: &str, from: char, to: char, r: String)
    requires
        call_ensures(text::replace_char, (s, from, to), r),
    ensures
        r@.len() == s@.len(),
        forall|i: int| 0 <= i < s@.len() && s@[i] == from ==> #[trigger] r@[i] == to,
        forall|i: int| 0 <= i < s@.len() && s@[i] != from ==> #[trigger] r@[i] == s@[i],
{
}

/// A text is listed exactly if one of the list is the same.
pub proof fn listed_texts_are_found(list: Vec<String>, s: &str, r: bool)
    requires
        call_ensures(text::is_listed, (&list, s), r),
    ensures
        r <==> exists|i: int| 0 <= i < list@.len() && (#[trigger] list@[i])@ == s@,
{
    let views = text::list_view(list@);
    if r {
        let i = choose|i: int| 0 <= i < views.len() && #[trigger] views[i] == s@;
        assert(list@[i]@ == s@);
    }
    if exists|i: int| 0 <= i < list@.len() && (#[trigger] list@[i])@ == s@ {
        let i = choose|i: int| 0 <= i < list@.len() && (#[trigger] list@[i])@ == s@;
        assert(views[i] == s@);
    }
}

proof fn lemma_char(c: char)
    ensures
        c as int >= 0,
{
}

proof fn lemma_common_start(p: Seq<char>, a: Seq<char>, b: Seq<char>, first: char)
    ensures
        text::precedes(p + a, p + b, first) == text::precedes(a, b, first),
    decreases p.len(),
{
    if p.len() > 0 {
        let rest = p.subrange(1, p.len() as int);
        lemma_common_start(rest, a, b, first);
        let x = p + a;
        let y = p + b;
        assert(x.subrange(1, x.len() as int) =~= rest + a);
        assert(y.subrange(1, y.len() as int) =~= rest + b);
    } else {
        assert(p + a =~= a);
        assert(p + b =~= b);
    }
}

/// Texts are ordered by the first character in which they differ, with one character before all
/// others; a text comes before what continues it, and of two texts one comes first at most.
pub proof fn texts_are_ordered_by_their_first_difference(
    p: Seq<char>,
    x: Seq<char>,
    y: Seq<char>,
    a: &str,
    b: &str,
    first: char,
    r: bool,
    s: bool,
)
    requires
        a@ == p + x,
        b@ == p + y,
        call_ensures(text::is_before, (a, b, first), r),
        call_ensures(text::is_before, (b, a, first), s),
    ensures
        x.len() == 0 && y.len() > 0 ==> r && !s,
        x.len() > 0 && y.len() > 0 && x[0] != y[0] && x[0] != first && y[0] != first ==> (r
            <==> x[0] < y[0]) && s == !r,
        x.len() > 0 && y.len() > 0 && x[0] == first && y[0] != first ==> r && !s,
        a@ == b@ ==> !r && !s,
{
    lemma_common_start(p, x, y, first);
    lemma_common_start(p, y, x, first);
    text::order_is_total(a@, b@, first);
    if x.len() > 0 && y.len() > 0 && x[0] == first && y[0] != first {
        lemma_char(y[0]);
        assert(text::rank(x[0], first) == 0);
        assert(text::rank(y[0], first) > 0);
        assert(text::precedes(x, y, first));
    }
}

/// Parts of a text between separators hold none, and what follows one more separator is one more
/// part.
pub proof fn texts_are_split_at_their_separators(
    s: &str,
    t: &str,
    c: char,
    a: char,
    b: char,
    r: Vec<String>,
    q: Vec<String>,
)
    requires
        t@ == s@.push(c),
        call_ensures(paths::split_at, (s, a, b), r),
        call_ensures(paths::split_at, (t, a, b), q),
    ensures
        r@.len() > 0,
        s@.len() == 0 ==> r@.len() == 1 && r@[0]@.len() == 0,
        c == a || c == b ==> q@.len() == r@.len() + 1 && q@.last()@.len() == 0,
        c != a && c != b ==> q@.len() == r@.len() && q@.last()@ == r@.last()@.push(c),
        forall|i: int| 0 <= i < r@.len() - 1 ==> (#[trigger] q@[i])@ == r@[i]@,
        forall|i: int|
            0 <= i < r@.len() ==> !(#[trigger] r@[i])@.contains(a) && !r@[i]@.contains(b),
{
    assert(t@.drop_last() == s@);
    paths::pieces_hold_no_separator(s@, a, b);
    let x = text::list_view(r@);
    let y = text::list_view(q@);
    assert(x.len() == r@.len() && y.len() == q@.len());
    assert(y[y.len() - 1] == q@.last()@);
    assert(x[x.len() - 1] == r@.last()@);
    assert forall|i: int| 0 <= i < r@.len() - 1 implies (#[trigger] q@[i])@ == r@[i]@ by {
        assert(y[i] == q@[i]@);
        assert(x[i] == r@[i]@);
    }
    assert forall|i: int| 0 <= i < r@.len() implies !(#[trigger] r@[i])@.contains(a)
        && !r@[i]@.contains(b) by {
        assert(x[i] == r@[i]@);
    }
    if s@.len() == 0 {
        assert(x[0] == r@[0]@);
    }
}

/// A path that begins at the root replaces the base that it is joined to; any other one follows it,
/// after exactly one separator.
pub proof fn paths_are_joined_by_one_separator(
    base: &str,
    child: &str,
    rooted: bool,
    r: String,
)
    requires
        call_ensures(paths::is_absolute, (child,), rooted),
        call_ensures(paths::join, (base, child), r),
    ensures
        rooted <==> child@.len() > 0 && child@[0] == '/',
        rooted || base@.len() == 0 ==> r@ == child@,
        !rooted && base@.len() > 0 && base@.last() == '/' ==> r@ == base@ + child@,
        !rooted && base@.len() > 0 && base@.last() != '/' ==> r@ == base@ + "/"@ + child@,
{
    reveal_strlit("/");
    assert("/"@ =~= seq!['/']);
}

/// What is joined to a path is its last component: it is the name that the new path ends in, the old
/// path is what it lies in, and the new path leads into the old one.
pub proof fn joined_names_come_last(
    base: &str,
    name: &str,
    r: String,
    whole: &str,
    last: Option<String>,
    above: Option<String>,
    normal: String,
    inside: bool,
    before: Vec<PathPart>,
    after: Vec<PathPart>,
)
    requires
        paths::is_name(name@),
        base@.len() > 0,
        base@.last() != '/',
        call_ensures(paths::join, (base, name), r),
        whole@ == r@,
        call_ensures(paths::file_name, (whole,), last),
        call_ensures(paths::parent, (whole,), above),
        call_ensures(paths::normalize, (base,), normal),
        call_ensures(paths::starts_with, (whole, base), inside),
        call_ensures(paths::components, (base,), before),
        call_ensures(paths::components, (whole,), after),
    ensures
        last matches Some(n) && n@ == name@,
        above matches Some(p) && p@ == normal@,
        inside,
        after@.len() == before@.len() + 1,
        after@.last() matches PathPart::Normal(n) && n@ == name@,
{
    paths::joining_a_name_adds_a_part(base@, name@);
    let parts = paths::parts_of(whole@);
    let shorter = paths::parts_of(base@);
    assert(parts.drop_last() =~= shorter);
    assert(parts.subrange(0, shorter.len() as int) =~= shorter);
    assert(paths::parts_view(before@).len() == before@.len());
    assert(paths::parts_view(after@).len() == after@.len());
    assert(paths::parts_view(after@)[after@.len() - 1] == paths::part_view(after@.last()));
    assert(parts.last() == paths::PartView::Normal(name@));
}

/// A path leads into itself, and is the same as itself; two paths are the same exactly if each leads
/// into the other.
pub proof fn paths_lead_into_themselves(
    a: &str,
    b: &str,
    own: bool,
    same: bool,
    ab: bool,
    ba: bool,
    both: bool,
)
    requires
        call_ensures(paths::starts_with, (a, a), own),
        call_ensures(paths::same_path, (a, a), same),
        call_ensures(paths::starts_with, (a, b), ab),
        call_ensures(paths::starts_with, (b, a), ba),
        call_ensures(paths::same_path, (a, b), both),
    ensures
        own && same,
        both <==> ab && ba,
{
    let x = paths::parts_of(a@);
    let y = paths::parts_of(b@);
    assert(x.subrange(0, x.len() as int) =~= x);
    assert(y.subrange(0, y.len() as int) =~= y);
}

/// A path consists of names exactly if it is not empty and each of its components is a name; on
/// Windows a drive may not stand before them.
pub proof fn paths_of_names_stay_below(
    s: &str,
    parts: Vec<PathPart>,
    r: bool,
    slashed: String,
    read: &str,
    inner: bool,
    drive: bool,
    windows: bool,
    unix: bool,
)
    requires
        call_ensures(paths::components, (s,), parts),
        call_ensures(paths::is_plain_relative, (s,), r),
        call_ensures(paths::with_slashes, (s, true), slashed),
        read@ == slashed@,
        call_ensures(paths::is_plain_relative, (read,), inner),
        call_ensures(paths::has_drive, (s,), drive),
        call_ensures(paths::is_names_only, (s, true), windows),
        call_ensures(paths::is_names_only, (s, false), unix),
    ensures
        r <==> s@.len() > 0 && (forall|i: int|
            0 <= i < parts@.len() ==> #[trigger] parts@[i] is Normal),
        unix == r,
        windows <==> inner && !drive,
        drive <==> s@.len() >= 2 && s@[1] == ':' && ('a' <= s@[0] <= 'z' || 'A' <= s@[0] <= 'Z'),
        s@.len() > 0 && s@[0] == '/' ==> !r,
{
    let views = paths::parts_of(s@);
    assert(paths::parts_view(parts@).len() == parts@.len());
    assert forall|i: int| 0 <= i < parts@.len() implies (#[trigger] parts@[i] is Normal
        <==> views[i] is Normal) by {
        assert(views[i] == paths::part_view(parts@[i]));
    }
    if r {
        assert forall|i: int| 0 <= i < parts@.len() implies #[trigger] parts@[i] is Normal by {
            assert(views[i] is Normal);
        }
    }
    if s@.len() > 0 && forall|i: int| 0 <= i < parts@.len() ==> #[trigger] parts@[i] is Normal {
        assert forall|i: int| 0 <= i < views.len() implies #[trigger] views[i] is Normal by {
            assert(parts@[i] is Normal);
        }
    }
    if s@.len() > 0 && s@[0] == '/' {
        assert(views[0] is Root);
    }
}

/// A path is read with slashes on Windows, and as it is elsewhere.
pub proof fn separators_depend_on_the_platform(s: &str, w: String, u: String)
    requires
        call_ensures(paths::with_slashes, (s, true), w),
        call_ensures(paths::with_slashes, (s, false), u),
    ensures
        u@ == s@,
        w@.len() == s@.len(),
        forall|i: int| 0 <= i < s@.len() && s@[i] == '\\' ==> #[trigger] w@[i] == '/',
        forall|i: int| 0 <= i < s@.len() && s@[i] != '\\' ==> #[trigger] w@[i] == s@[i],
{
}

/// The extension of a file is what follows the last dot of its name, unless the name begins with it.
pub proof fn extensions_follow_the_last_dot(
    path: &str,
    stem: Seq<char>,
    ext: Seq<char>,
    r: Option<String>,
)
    requires
        paths::file_name_of(path@) == Some(stem + "."@ + ext),
        forall|i: int| 0 <= i < ext.len() ==> #[trigger] ext[i] != '.',
        call_ensures(paths::extension, (path,), r),
    ensures
        stem.len() > 0 ==> (r matches Some(e) && e@ == ext),
        stem.len() == 0 ==> r is None,
{
    reveal_strlit(".");
    let head = stem + "."@;
    media::last_dots_are_found(head, ext);
    let name = head + ext;
    assert(name.subrange(head.len() as int, name.len() as int) == ext);
}

/// A value that is put into an object is found under its key, and everything else stays where it is.
pub proof fn values_are_found_under_their_key(
    object: &mut Json,
    key: &str,
    other: &str,
    value: Json,
    before: Option<&Json>,
    r: Option<&Json>,
    after: Option<&Json>,
    empty: Json,
    none: Option<&Json>,
)
    requires
        old(object)@ is Object,
        key@ != other@,
        call_ensures(Json::get, (&*old(object), other), before),
        call_ensures(Json::insert, (object, key, value), ()),
        call_ensures(Json::get, (&*final(object), key), r),
        call_ensures(Json::get, (&*final(object), other), after),
        call_ensures(Json::empty_object, (), empty),
        call_ensures(Json::get, (&empty, key), none),
    ensures
        final(object)@ is Object,
        r matches Some(v) && v@ == value@,
        before is Some <==> after is Some,
        before matches Some(v) ==> (after matches Some(w) && w@ == v@),
        none is None,
{
}

/// Texts, truth values and numbers that are put into an object are read back as such, and as nothing
/// else.
pub proof fn fields_are_read_by_their_type(
    v: Json,
    key: &str,
    s: Seq<char>,
    b: bool,
    n: int,
    as_text: Option<&str>,
    as_bool: Option<bool>,
    as_number: Option<u64>,
)
    requires
        call_ensures(Json::str_field, (&v, key), as_text),
        call_ensures(Json::bool_field, (&v, key), as_bool),
        call_ensures(Json::u64_field, (&v, key), as_number),
    ensures
        json::field(v@, key@) == Some(JsonView::Text(s)) ==> (as_text matches Some(t) && t@ == s)
            && as_bool is None && as_number is None,
        json::field(v@, key@) == Some(JsonView::Bool(b)) ==> as_bool == Some(b) && as_text is None
            && as_number is None,
        json::field(v@, key@) == Some(JsonView::Number(NumberView::Integer(n))) ==> as_text is None
            && as_bool is None && (0 <= n <= u64::MAX ==> as_number == Some(n as u64)) && (n < 0
            ==> as_number is None),
        json::field(v@, key@) is None ==> as_text is None && as_bool is None && as_number is None,
        json::field(v@, key@) == Some(JsonView::Null) ==> as_text is None && as_bool is None
            && as_number is None,
{
}

/// An integer is read back as the same number; as an unsigned one only where it is not negative.
pub proof fn integers_are_read_back(
    i: i64,
    j: Json,
    signed: Option<i64>,
    unsigned: Option<u64>,
    t: Option<&str>,
    null: bool,
    object: bool,
)
    requires
        call_ensures(Json::integer, (i,), j),
        call_ensures(Json::as_i64, (&j,), signed),
        call_ensures(Json::as_u64, (&j,), unsigned),
        call_ensures(Json::as_str, (&j,), t),
        call_ensures(Json::is_null, (&j,), null),
        call_ensures(Json::is_object, (&j,), object),
    ensures
        signed == Some(i),
        i >= 0 ==> unsigned == Some(i as u64),
        i < 0 ==> unsigned is None,
        t is None && !null && !object,
{
}

/// A plain value that is written as text is read back as the same value, on one line or with the
/// line's end.
pub proof fn written_values_are_read_back(
    v: Json,
    t: String,
    s: &str,
    r: std::result::Result<Json, String>,
)
    requires
        json::plain(v@, 127),
        call_ensures(Json::to_text, (&v,), t),
        s@ == t@ || s@ == t@.push('\n'),
        call_ensures(Json::parse, (s,), r),
    ensures
        r matches Ok(j) && j@ == v@,
        !t@.contains('\n'),
{
}

/// The hash of a text of ASCII characters takes one character after the other, by combining it with
/// the hash so far and multiplying.
pub proof fn hashes_take_one_character_after_another(s: &str, t: &str, c: char, h: u64, k: u64)
    requires
        vstd::utf8::is_ascii_chars(t@),
        t@ == s@.push(c),
        call_ensures(stable_hash, (s,), h),
        call_ensures(stable_hash, (t,), k),
    ensures
        s@.len() == 0 ==> h == 0xcbf2_9ce4_8422_2325,
        k == (h ^ (c as u64)).wrapping_mul(0x100_0000_01b3),
{
    assert forall|i: int| 0 <= i < s@.len() implies '\0' <= #[trigger] s@[i] <= '\u{7f}' by {
        assert(t@[i] == s@[i]);
    }
    vstd::utf8::is_ascii_chars_encode_utf8(s@);
    vstd::utf8::is_ascii_chars_encode_utf8(t@);
    let x = vstd::utf8::encode_utf8(s@);
    let y = vstd::utf8::encode_utf8(t@);
    assert(t@[t@.len() - 1] == c);
    assert(y.drop_last() =~= x);
    assert(y.last() == c as u8);
    assert('\0' <= c <= '\u{7f}');
    assert((c as u8) as u64 == c as u64);
}

/// Tiers, owners, kinds and states have the names under which they are stored; the name of a tier is
/// read back as that tier.
pub proof fn stored_names_identify(
    tier: RefreshTier,
    name: &'static str,
    r: Option<RefreshTier>,
    hot: &'static str,
    warm: &'static str,
    cold: &'static str,
    post: &'static str,
    user: &'static str,
    comment: &'static str,
    picture: &'static str,
    video: &'static str,
    avatar: &'static str,
    emoji: &'static str,
    pending: &'static str,
    downloaded: &'static str,
    failed: &'static str,
)
    requires
        call_ensures(RefreshTier::as_str, (&tier,), name),
        call_ensures(RefreshTier::parse, (name,), r),
        call_ensures(RefreshTier::as_str, (&RefreshTier::Hot,), hot),
        call_ensures(RefreshTier::as_str, (&RefreshTier::Warm,), warm),
        call_ensures(RefreshTier::as_str, (&RefreshTier::Cold,), cold),
        call_ensures(MediaOwnerType::as_str, (&MediaOwnerType::Post,), post),
        call_ensures(MediaOwnerType::as_str, (&MediaOwnerType::User,), user),
        call_ensures(MediaOwnerType::as_str, (&MediaOwnerType::Comment,), comment),
        call_ensures(MediaType::as_str, (&MediaType::Picture,), picture),
        call_ensures(MediaType::as_str, (&MediaType::Video,), video),
        call_ensures(MediaType::as_str, (&MediaType::Avatar,), avatar),
        call_ensures(MediaType::as_str, (&MediaType::Emoji,), emoji),
        call_ensures(MediaStatus::as_str, (&MediaStatus::Pending,), pending),
        call_ensures(MediaStatus::as_str, (&MediaStatus::Downloaded,), downloaded),
        call_ensures(MediaStatus::as_str, (&MediaStatus::Failed,), failed),
    ensures
        r == Some(tier),
        hot@ == "hot"@ && warm@ == "warm"@ && cold@ == "cold"@,
        post@ == "post"@ && user@ == "user"@ && comment@ == "comment"@,
        picture@ == "picture"@ && video@ == "video"@ && avatar@ == "avatar"@ && emoji@ == "emoji"@,
        pending@ == "pending"@ && downloaded@ == "downloaded"@ && failed@ == "failed"@,
{
    reveal_strlit("hot");
    reveal_strlit("warm");
    reveal_strlit("cold");
    assert("hot"@.len() == 3 && "warm"@.len() == 4 && "cold"@.len() == 4);
    assert("warm"@[0] != "cold"@[0]);
}

/// An error carries the message that it was made with, whatever its kind.
pub proof fn errors_carry_their_message(
    words: &str,
    m: String,
    e: Error,
    f: Error,
    i: Error,
    shown: String,
)
    requires
        e == Error::FormatError(m) || e == Error::InconsistentTask(m) || e == Error::DbError(m) || e
            == Error::Io(m) || e == Error::Tokio(m) || e == Error::Json(m),
        call_ensures(Error::message, (&e,), shown),
        call_ensures(format_error, (words,), f),
        call_ensures(inconsistent, (words,), i),
    ensures
        shown@ == m@,
        f matches Error::FormatError(x) && x@ == words@,
        i matches Error::InconsistentTask(x) && x@ == words@,
{
}

/// A busy database is tried again, each time after five milliseconds more, and eight times at most;
/// any other failure is final.
pub proof fn busy_databases_are_tried_again(
    attempt: u64,
    first: Option<u64>,
    r: Option<u64>,
    s: Option<u64>,
    other: Option<u64>,
)
    requires
        attempt < u64::MAX,
        call_ensures(begin_immediate, (0, true), first),
        call_ensures(begin_immediate, (attempt, true), r),
        call_ensures(begin_immediate, ((attempt + 1) as u64, true), s),
        call_ensures(begin_immediate, (attempt, false), other),
    ensures
        first == Some(5u64),
        r is Some <==> attempt < 8,
        (r is Some && s is Some) ==> s->Some_0 == r->Some_0 + 5,
        other is None,
{
}

/// A database is busy if its code or its message says that it is locked.
pub proof fn locked_databases_are_busy(
    code: &str,
    message: &str,
    locked: bool,
    table_locked: bool,
    r: bool,
    by_message: bool,
)
    requires
        call_ensures(text::contains_text, (message, "database is locked"), locked),
        call_ensures(text::contains_text, (message, "database table is locked"), table_locked),
        call_ensures(is_busy, (Some(code), message), r),
        call_ensures(is_busy, (None, message), by_message),
    ensures
        by_message <==> locked || table_locked,
        r <==> code@ == "5"@ || code@ == "6"@ || by_message,
{
}

/// A successful operation is committed and a failed one rolled back; a failed commit is rolled back,
/// and only a connection whose transaction has ended is used again.
pub proof fn transactions_end_one_way_or_another(
    done: TransactionEnd,
    failed: TransactionEnd,
    committed: TransactionEnd,
    uncommitted: TransactionEnd,
    rolled_back: TransactionEnd,
    stuck: TransactionEnd,
)
    requires
        call_ensures(with_immediate_transaction, (true,), done),
        call_ensures(with_immediate_transaction, (false,), failed),
        call_ensures(after_commit, (true, None), committed),
        call_ensures(after_commit, (false, None), uncommitted),
        call_ensures(after_commit, (false, Some(true)), rolled_back),
        call_ensures(after_commit, (false, Some(false)), stuck),
    ensures
        done == TransactionEnd::Commit,
        failed == TransactionEnd::RollBack,
        committed == TransactionEnd::Release,
        uncommitted == TransactionEnd::RollBack,
        rolled_back == TransactionEnd::Release,
        stuck == TransactionEnd::Close,
{
}

/// The statement that copies the database quotes its target: every quote in it is doubled, and every
/// other character stands as it is.
pub proof fn copied_databases_are_quoted(
    target: &str,
    longer: &str,
    c: char,
    inner: Seq<char>,
    a: String,
    b: String,
)
    requires
        longer@ == target@.push(c),
        call_ensures(vacuum_into, (target,), a),
        call_ensures(vacuum_into, (longer,), b),
        a@ == "VACUUM INTO '"@ + inner + "'"@,
    ensures
        target@.len() == 0 ==> inner.len() == 0,
        c == '\'' ==> b@ == "VACUUM INTO '"@ + inner.push('\'').push('\'') + "'"@,
        c != '\'' ==> b@ == "VACUUM INTO '"@ + inner.push(c) + "'"@,
{
    reveal_strlit("VACUUM INTO '");
    reveal_strlit("'");
    assert(longer@.drop_last() == target@);
    let q = sqlite_write::quoted(target@);
    let n = "VACUUM INTO '"@.len() as int;
    assert(a@.subrange(n, a@.len() - 1) =~= q);
    assert(a@.subrange(n, a@.len() - 1) =~= inner);
}

/// A database on the disk that does not exist is created, with its directory where that is missing;
/// one in memory is not.
pub proof fn missing_databases_are_created(
    url: &str,
    exists: bool,
    parent_exists: bool,
    parent: Option<String>,
    r: PoolPlan,
    migrations: bool,
    copied: bool,
)
    requires
        call_ensures(paths::parent, (url,), parent),
        call_ensures(create_db_pool_with_url, (url, exists, parent_exists), r),
        call_ensures(needs_backup, (r, migrations), copied),
    ensures
        r.is_memory <==> url@ == ":memory:"@,
        r.create_database <==> url@ != ":memory:"@ && !exists,
        r.create_parent <==> url@ != ":memory:"@ && !exists && parent is Some && !parent_exists,
        copied <==> url@ != ":memory:"@ && exists && migrations,
{
}

/// Migrations are pending exactly if one of them has not been applied; without a record, if there are
/// any.
pub proof fn unapplied_migrations_are_pending(
    migrations: Vec<i64>,
    applied: Vec<i64>,
    r: bool,
    fresh: bool,
)
    requires
        call_ensures(has_pending_migrations, (&migrations, Some(&applied)), r),
        call_ensures(has_pending_migrations, (&migrations, None), fresh),
    ensures
        r <==> exists|i: int|
            0 <= i < migrations@.len() && !applied@.contains(#[trigger] migrations@[i]),
        fresh <==> migrations@.len() > 0,
{
}

/// The copy that is made before migrations lies beside the database, under its name, the time and,
/// where that is taken, a number.
pub proof fn copies_lie_beside_their_database(
    path: &str,
    timestamp: &str,
    taken: u64,
    stem: Seq<char>,
    ext: Seq<char>,
    above: Option<String>,
    number: String,
    r: String,
)
    requires
        stem.len() > 0,
        paths::file_name_of(path@) == Some(stem + "."@ + ext),
        forall|i: int| 0 <= i < ext.len() ==> #[trigger] ext[i] != '.',
        call_ensures(paths::parent, (path,), above),
        call_ensures(text::u64_text, (taken,), number),
        call_ensures(backup_before_migration, (path, timestamp, taken), r),
    ensures
        taken == 0 ==> (above matches Some(d) ==> r@ == paths::joined(
            d@,
            stem + "-migrate-backup-"@ + timestamp@ + ".db"@,
        )),
        taken > 0 ==> (above matches Some(d) ==> r@ == paths::joined(
            d@,
            stem + "-migrate-backup-"@ + timestamp@ + "-"@ + number@ + ".db"@,
        )),
{
    reveal_strlit(".");
    let head = stem + "."@;
    media::last_dots_are_found(head, ext);
    let name = head + ext;
    assert(name.subrange(0, head.len() - 1) == stem);
    assert(database::stem_of(path@) == Some(stem));
}

} // verus!
