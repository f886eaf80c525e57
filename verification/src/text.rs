//! Text: trimming, splitting, joining, and the decimal and hexadecimal forms of numbers.

use vstd::prelude::*;

verus! {

broadcast use vstd::string::group_string_axioms;

/// The small letter for an ASCII capital letter, and any other character itself.
pub open spec fn ascii_small(c: char) -> char {
    if 'A' <= c <= 'Z' {
        (c as int - 'A' as int + 'a' as int) as char
    } else {
        c
    }
}

/// A text with its ASCII capital letters made small.
pub open spec fn ascii_lowercase(s: Seq<char>) -> Seq<char> {
    Seq::new(s.len(), |i: int| ascii_small(s[i]))
}

/// The characters with the Unicode property `White_Space`.
pub open spec fn white_space(c: char) -> bool {
    ||| '\u{9}' <= c <= '\u{d}'
    ||| c == ' '
    ||| c == '\u{85}'
    ||| c == '\u{a0}'
    ||| c == '\u{1680}'
    ||| '\u{2000}' <= c <= '\u{200a}'
    ||| c == '\u{2028}'
    ||| c == '\u{2029}'
    ||| c == '\u{202f}'
    ||| c == '\u{205f}'
    ||| c == '\u{3000}'
}

/// `s` without its longest prefix of characters that satisfy `p`.
pub open spec fn strip_front(s: Seq<char>, p: spec_fn(char) -> bool) -> Seq<char>
    decreases s.len(),
{
    if s.len() > 0 && p(s[0]) {
        strip_front(s.skip(1), p)
    } else {
        s
    }
}

/// `s` without its longest suffix of characters that satisfy `p`.
pub open spec fn strip_back(s: Seq<char>, p: spec_fn(char) -> bool) -> Seq<char>
    decreases s.len(),
{
    if s.len() > 0 && p(s.last()) {
        strip_back(s.drop_last(), p)
    } else {
        s
    }
}

/// The predicate that holds of white space.
pub open spec fn white() -> spec_fn(char) -> bool {
    |c: char| white_space(c)
}

/// The predicate that holds of the slash.
pub open spec fn slash() -> spec_fn(char) -> bool {
    |c: char| c == '/'
}

/// `s` without white space at either end.
pub open spec fn trimmed(s: Seq<char>) -> Seq<char> {
    strip_back(strip_front(s, white()), white())
}

/// `s` without the slashes it ends with.
pub open spec fn without_trailing_slashes(s: Seq<char>) -> Seq<char> {
    strip_back(s, slash())
}

/// `s` without the slashes it starts with.
pub open spec fn without_leading_slashes(s: Seq<char>) -> Seq<char> {
    strip_front(s, slash())
}

/// `s` with every repetition of `suffix` taken off its end.
pub open spec fn without_suffixes(s: Seq<char>, suffix: Seq<char>) -> Seq<char>
    decreases s.len(),
{
    if suffix.len() > 0 && suffix.is_suffix_of(s) {
        without_suffixes(s.take(s.len() - suffix.len()), suffix)
    } else {
        s
    }
}

/// Whether `c` is white space.
pub fn is_white_space(c: char) -> (b: bool)
    ensures
        b == white_space(c),
{
    ('\u{9}' <= c && c <= '\u{d}') || c == ' ' || c == '\u{85}' || c == '\u{a0}' || c == '\u{1680}'
        || ('\u{2000}' <= c && c <= '\u{200a}') || c == '\u{2028}' || c == '\u{2029}' || c
        == '\u{202f}' || c == '\u{205f}' || c == '\u{3000}'
}

/// The characters of `s`.
pub fn chars_of(s: &str) -> (v: Vec<char>)
    ensures
        v@ == s@,
{
    let mut v: Vec<char> = Vec::new();
    for c in it: s.chars()
        invariant
            v@ =~= it.seq().take(it.index() as int),
            it.seq() == s@,
    {
        v.push(c);
    }
    v
}

/// `s` without white space at either end.
pub fn trim(s: &str) -> (r: &str)
    ensures
        r@ == trimmed(s@),
{
    let cs = chars_of(s);
    let mut from: usize = 0;
    let mut to: usize = cs.len();
    assert(cs@.skip(0) =~= cs@);
    while from < cs.len() && is_white_space(cs[from])
        invariant
            from <= cs@.len(),
            strip_front(cs@, white()) == strip_front(cs@.skip(from as int), white()),
        decreases cs@.len() - from,
    {
        assert(cs@.skip(from as int).skip(1) =~= cs@.skip(from + 1));
        from = from + 1;
    }
    let ghost rest = cs@.skip(from as int);
    assert(strip_front(cs@, white()) == rest);
    assert(rest =~= cs@.subrange(from as int, to as int));
    while to > from && is_white_space(cs[to - 1])
        invariant
            from <= to <= cs@.len(),
            strip_back(rest, white()) == strip_back(cs@.subrange(from as int, to as int), white()),
        decreases to,
    {
        assert(cs@.subrange(from as int, to as int).drop_last() =~= cs@.subrange(
            from as int,
            to - 1,
        ));
        to = to - 1;
    }
    s.substring_char(from, to)
}

/// `s` without the slashes it ends with.
pub fn trim_end_slashes(s: &str) -> (r: &str)
    ensures
        r@ == without_trailing_slashes(s@),
{
    let cs = chars_of(s);
    let mut to: usize = cs.len();
    assert(cs@.take(to as int) =~= cs@);
    while to > 0 && cs[to - 1] == '/'
        invariant
            to <= cs@.len(),
            strip_back(cs@, slash()) == strip_back(cs@.take(to as int), slash()),
        decreases to,
    {
        assert(cs@.take(to as int).drop_last() =~= cs@.take(to - 1));
        to = to - 1;
    }
    assert(cs@.take(to as int) =~= cs@.subrange(0, to as int));
    s.substring_char(0, to)
}

/// `s` without the slashes it starts with.
pub fn trim_start_slashes(s: &str) -> (r: &str)
    ensures
        r@ == without_leading_slashes(s@),
{
    let cs = chars_of(s);
    let mut from: usize = 0;
    assert(cs@.skip(0) =~= cs@);
    while from < cs.len() && cs[from] == '/'
        invariant
            from <= cs@.len(),
            strip_front(cs@, slash()) == strip_front(cs@.skip(from as int), slash()),
        decreases cs@.len() - from,
    {
        assert(cs@.skip(from as int).skip(1) =~= cs@.skip(from + 1));
        from = from + 1;
    }
    assert(cs@.skip(from as int) =~= cs@.subrange(from as int, cs@.len() as int));
    s.substring_char(from, cs.len())
}

/// Whether `a` and `b` hold the same characters.
pub fn same(a: &str, b: &str) -> (r: bool)
    ensures
        r == (a@ == b@),
{
    a.to_owned() == b.to_owned()
}

/// `s` with every repetition of `suffix` taken off its end.
pub fn trim_end_str<'a>(s: &'a str, suffix: &str) -> (r: &'a str)
    ensures
        r@ == without_suffixes(s@, suffix@),
{
    let n: usize = suffix.unicode_len();
    let mut to: usize = s.unicode_len();
    assert(s@.take(to as int) =~= s@);
    while n > 0 && to >= n && same(s.substring_char(to - n, to), suffix)
        invariant
            n == suffix@.len(),
            to <= s@.len(),
            without_suffixes(s@, suffix@) == without_suffixes(s@.take(to as int), suffix@),
        decreases to,
    {
        let ghost cur = s@.take(to as int);
        assert(cur.subrange(to - n, to as int) =~= s@.subrange(to - n, to as int));
        assert(suffix@.is_suffix_of(cur));
        assert(cur.take(cur.len() - n) =~= s@.take(to - n));
        to = to - n;
    }
    assert(s@.take(to as int) =~= s@.subrange(0, to as int));
    proof {
        if n > 0 && to >= n {
            let cur = s@.take(to as int);
            assert(cur.subrange(to - n, to as int) =~= s@.subrange(to - n, to as int));
        }
    }
    s.substring_char(0, to)
}

/// The digit that stands for `d`, in base sixteen or less.
pub open spec fn digit(d: int) -> char {
    "0123456789abcdef"@[d]
}

/// The decimal form of `n`.
pub open spec fn decimal(n: nat) -> Seq<char>
    decreases n,
{
    if n < 10 {
        seq![digit(n as int)]
    } else {
        decimal(n / 10).push(digit((n % 10) as int))
    }
}

/// The decimal form of `i`, with a minus sign in front where `i` is negative.
pub open spec fn decimal_int(i: int) -> Seq<char> {
    if i < 0 {
        "-"@ + decimal((-i) as nat)
    } else {
        decimal(i as nat)
    }
}

/// The bytes in lower-case hexadecimal, two digits each.
pub open spec fn lower_hex(bytes: Seq<u8>) -> Seq<char>
    decreases bytes.len(),
{
    if bytes.len() == 0 {
        seq![]
    } else {
        lower_hex(bytes.drop_last()) + seq![
            digit(bytes.last() as int / 16),
            digit(bytes.last() as int % 16),
        ]
    }
}

/// The digit that stands for `d`, as text.
fn digit_text(d: usize) -> (r: &'static str)
    requires
        d < 16,
    ensures
        r@ == seq![digit(d as int)],
{
    let digits: &'static str = "0123456789abcdef";
    proof {
        reveal_strlit("0123456789abcdef");
    }
    let r = digits.substring_char(d, d + 1);
    assert(r@ =~= seq![digit(d as int)]);
    r
}

/// The decimal form of `n`.
pub fn decimal_text(n: u64) -> (r: String)
    ensures
        r@ == decimal(n as nat),
    decreases n,
{
    if n < 10 {
        digit_text(n as usize).to_owned()
    } else {
        let mut r = decimal_text(n / 10);
        let ghost front = r@;
        r.append(digit_text((n % 10) as usize));
        assert(r@ =~= front.push(digit((n % 10) as int)));
        r
    }
}

/// The decimal form of `i`.
pub fn decimal_int_text(i: i32) -> (r: String)
    ensures
        r@ == decimal_int(i as int),
{
    if i < 0 {
        let mut r = "-".to_owned();
        let magnitude: u64 = (-(i as i64)) as u64;
        r.append(decimal_text(magnitude).as_str());
        r
    } else {
        decimal_text(i as u64)
    }
}

/// The bytes in lower-case hexadecimal, two digits each.
pub fn lower_hex_text(bytes: &[u8]) -> (r: String)
    ensures
        r@ == lower_hex(bytes@),
{
    let mut r = String::new();
    let mut i: usize = 0;
    while i < bytes.len()
        invariant
            i <= bytes@.len(),
            r@ == lower_hex(bytes@.take(i as int)),
        decreases bytes@.len() - i,
    {
        let b: u8 = bytes[i];
        let ghost front = r@;
        r.append(digit_text((b / 16) as usize));
        r.append(digit_text((b % 16) as usize));
        assert(bytes@.take(i + 1).drop_last() =~= bytes@.take(i as int));
        assert(r@ =~= front + seq![digit(b as int / 16), digit(b as int % 16)]);
        i = i + 1;
    }
    assert(bytes@.take(i as int) =~= bytes@);
    r
}

/// The parts with `separator` between each two.
pub open spec fn joined(parts: Seq<Seq<char>>, separator: Seq<char>) -> Seq<char>
    decreases parts.len(),
{
    if parts.len() == 0 {
        seq![]
    } else if parts.len() == 1 {
        parts[0]
    } else {
        joined(parts.drop_last(), separator) + separator + parts.last()
    }
}

/// The parts with `separator` between each two.
pub fn join(parts: &[String], separator: &str) -> (r: String)
    ensures
        r@ == joined(parts.deep_view(), separator@),
{
    let mut r = String::new();
    let mut i: usize = 0;
    while i < parts.len()
        invariant
            i <= parts@.len(),
            r@ == joined(parts.deep_view().take(i as int), separator@),
        decreases parts@.len() - i,
    {
        let ghost seen = parts.deep_view().take(i + 1);
        assert(seen.drop_last() =~= parts.deep_view().take(i as int));
        if i > 0 {
            r.append(separator);
        }
        r.append(parts[i].as_str());
        assert(seen.len() == 1 ==> r@ =~= seen[0]);
        i = i + 1;
    }
    assert(parts.deep_view().take(i as int) =~= parts.deep_view());
    r
}

/// `a` followed by `b`.
pub fn followed_by(a: &str, b: &str) -> (r: String)
    ensures
        r@ == a@ + b@,
{
    let mut r = a.to_owned();
    r.append(b);
    r
}

/// The characters that genres are separated by within one text.
pub open spec fn genre_separator(c: char) -> bool {
    c == ',' || c == ';' || c == '/'
}

/// Whether no character of a text is a separator.
pub open spec fn unseparated(s: Seq<char>) -> bool {
    forall|i: int| 0 <= i < s.len() ==> !genre_separator(#[trigger] s[i])
}

/// No piece of a text holds a separator, and the pieces of an ASCII text are ASCII.
pub proof fn lemma_pieces_are_unseparated(s: Seq<char>)
    ensures
        forall|j: int| 0 <= j < pieces(s).len() ==> unseparated(#[trigger] pieces(s)[j]),
        vstd::utf8::is_ascii_chars(s) ==> forall|j: int|
            0 <= j < pieces(s).len() ==> vstd::utf8::is_ascii_chars(#[trigger] pieces(s)[j]),
    decreases s.len(),
{
    if s.len() > 0 {
        let front = pieces(s.drop_last());
        lemma_pieces_are_unseparated(s.drop_last());
        lemma_pieces_nonempty(s.drop_last());
        assert forall|j: int| 0 <= j < pieces(s).len() implies unseparated(
            #[trigger] pieces(s)[j],
        ) && (vstd::utf8::is_ascii_chars(s) ==> vstd::utf8::is_ascii_chars(pieces(s)[j])) by {
            if j < front.len() - 1 {
                assert(pieces(s)[j] == front[j]);
            } else if !genre_separator(s.last()) {
                assert(pieces(s)[j] == front[j].push(s.last()));
            } else if j < front.len() {
                assert(pieces(s)[j] == front[j]);
            }
        }
    }
}

/// A text without a separator is its own only piece.
pub proof fn lemma_pieces_of_unseparated(s: Seq<char>)
    requires
        unseparated(s),
    ensures
        pieces(s) == seq![s],
    decreases s.len(),
{
    if s.len() == 0 {
        assert(s =~= seq![]);
        assert(pieces(s) =~= seq![s]);
    } else {
        lemma_pieces_of_unseparated(s.drop_last());
        assert(s.drop_last().push(s.last()) =~= s);
        assert(pieces(s) =~= seq![s]);
    }
}

/// Whether a text has no white space at either end.
pub open spec fn untrimmable(s: Seq<char>) -> bool {
    s.len() > 0 ==> !white_space(s[0]) && !white_space(s.last())
}

/// A trimmed text is a part of the text, with no white space at either end.
pub proof fn lemma_trimmed(s: Seq<char>)
    ensures
        untrimmable(trimmed(s)),
        unseparated(s) ==> unseparated(trimmed(s)),
        vstd::utf8::is_ascii_chars(s) ==> vstd::utf8::is_ascii_chars(trimmed(s)),
{
    let from = lemma_stripped_front(s, white());
    let rest = strip_front(s, white());
    let to = lemma_stripped_back(rest, white());
    assert forall|i: int| 0 <= i < to implies #[trigger] trimmed(s)[i] == s[from + i] by {}
}

/// Trimming leaves a text alone that has no white space at either end.
pub proof fn lemma_trimmed_stays(s: Seq<char>)
    requires
        untrimmable(s),
    ensures
        trimmed(s) == s,
{
}

/// The parts of `s` between separators. There is always one more part than there are separators.
pub open spec fn pieces(s: Seq<char>) -> Seq<Seq<char>>
    decreases s.len(),
{
    if s.len() == 0 {
        seq![seq![]]
    } else {
        let front = pieces(s.drop_last());
        if genre_separator(s.last()) {
            front.push(seq![])
        } else {
            front.drop_last().push(front.last().push(s.last()))
        }
    }
}

/// There is always at least one piece.
pub proof fn lemma_pieces_nonempty(s: Seq<char>)
    ensures
        pieces(s).len() > 0,
    decreases s.len(),
{
    if s.len() > 0 {
        lemma_pieces_nonempty(s.drop_last());
    }
}

/// A separator ends a piece and starts the next: the pieces of two texts with a separator between
/// them are the pieces of the one and then those of the other.
pub proof fn lemma_pieces_of_separated(a: Seq<char>, separator: char, b: Seq<char>)
    requires
        genre_separator(separator),
    ensures
        pieces(a.push(separator) + b) == pieces(a) + pieces(b),
    decreases b.len(),
{
    let s = a.push(separator) + b;
    if b.len() == 0 {
        assert(s =~= a.push(separator));
        assert(s.drop_last() =~= a);
        assert(pieces(s) =~= pieces(a) + pieces(b));
    } else {
        let c = b.last();
        lemma_pieces_of_separated(a, separator, b.drop_last());
        lemma_pieces_nonempty(b.drop_last());
        assert(s.drop_last() =~= a.push(separator) + b.drop_last());
        assert(s.last() == c);
        let front = pieces(b.drop_last());
        assert((pieces(a) + front).last() == front.last());
        assert(pieces(s) =~= pieces(a) + pieces(b));
    }
}

/// The parts of `s` between separators.
pub fn split_genres(s: &str) -> (r: Vec<&str>)
    ensures
        r.deep_view() == pieces(s@),
{
    let cs = chars_of(s);
    let mut done: Vec<&str> = Vec::new();
    let mut from: usize = 0;
    let mut i: usize = 0;
    assert(cs@.take(0) =~= seq![]);
    assert(cs@.subrange(0, 0) =~= seq![]);
    assert(pieces(cs@.take(0)) =~= done.deep_view().push(cs@.subrange(0, 0)));
    while i < cs.len()
        invariant
            cs@ == s@,
            from <= i <= cs@.len(),
            pieces(cs@.take(i as int)) == done.deep_view().push(
                cs@.subrange(from as int, i as int),
            ),
        decreases cs@.len() - i,
    {
        let c = cs[i];
        let ghost before = done.deep_view();
        let ghost current = cs@.subrange(from as int, i as int);
        assert(cs@.take(i + 1).drop_last() =~= cs@.take(i as int));
        if c == ',' || c == ';' || c == '/' {
            done.push(s.substring_char(from, i));
            assert(done.deep_view() =~= before.push(current));
            from = i + 1;
            assert(cs@.subrange(from as int, i + 1) =~= seq![]);
        } else {
            assert(before.push(current).drop_last() =~= before);
            assert(cs@.subrange(from as int, i + 1) =~= current.push(c));
        }
        i = i + 1;
    }
    let ghost before = done.deep_view();
    done.push(s.substring_char(from, cs.len()));
    assert(cs@.take(i as int) =~= cs@);
    assert(done.deep_view() =~= before.push(cs@.subrange(from as int, i as int)));
    done
}

/// The number that decimal digits stand for.
pub open spec fn decimal_value(s: Seq<char>) -> int
    decreases s.len(),
{
    if s.len() == 0 {
        0
    } else {
        10 * decimal_value(s.drop_last()) + (s.last() as int - '0' as int)
    }
}

/// The digits follow each other as the numbers do that they stand for.
proof fn lemma_digit(d: int)
    requires
        0 <= d < 16,
    ensures
        d < 10 ==> digit(d) as int == '0' as int + d,
        d >= 10 ==> digit(d) as int == 'a' as int + d - 10,
{
    reveal_strlit("0123456789abcdef");
}

/// A number is read back from its decimal form, which has digits alone and no zero in front of
/// others.
pub proof fn law_decimal_is_read_back(n: nat)
    ensures
        decimal_value(decimal(n)) == n,
        decimal(n).len() > 0,
        forall|i: int| 0 <= i < decimal(n).len() ==> '0' <= #[trigger] decimal(n)[i] <= '9',
        decimal(n)[0] == '0' ==> n == 0 && decimal(n).len() == 1,
    decreases n,
{
    lemma_digit((n % 10) as int);
    if n < 10 {
        lemma_digit(n as int);
        assert(decimal(n).drop_last() =~= seq![]);
        assert(decimal_value(seq![]) == 0);
    } else {
        law_decimal_is_read_back(n / 10);
        let front = decimal(n / 10);
        assert(decimal(n).drop_last() =~= front);
        assert forall|i: int| 0 <= i < decimal(n).len() implies '0' <= #[trigger] decimal(n)[i]
            <= '9' by {
            if i < front.len() {
                assert(decimal(n)[i] == front[i]);
            }
        }
        assert(decimal(n)[0] == front[0]);
    }
}

/// A negative number is written as a minus sign and its absolute value, and any other number as
/// itself.
pub proof fn law_signed_decimal(i: int)
    ensures
        i >= 0 ==> decimal_int(i) == decimal(i as nat),
        i < 0 ==> decimal_int(i).len() > 0 && decimal_int(i)[0] == '-' && decimal_int(i).skip(1)
            == decimal((-i) as nat),
{
    reveal_strlit("-");
    if i < 0 {
        assert(decimal_int(i).skip(1) =~= decimal((-i) as nat));
    }
}

/// What a number is written as is its decimal form.
pub proof fn law_numbers_are_written(n: u64, i: i32, written: String, signed: String)
    requires
        call_ensures(decimal_text, (n,), written),
        call_ensures(decimal_int_text, (i,), signed),
    ensures
        decimal_value(written@) == n,
        i >= 0 ==> decimal_value(signed@) == i,
        i < 0 ==> signed@[0] == '-' && decimal_value(signed@.skip(1)) == -i,
{
    law_decimal_is_read_back(n as nat);
    law_signed_decimal(i as int);
    if i >= 0 {
        law_decimal_is_read_back(i as nat);
    } else {
        law_decimal_is_read_back((-i) as nat);
    }
}

/// The number that a hexadecimal digit stands for.
pub open spec fn hex_value(c: char) -> int {
    if '0' <= c <= '9' {
        c as int - '0' as int
    } else {
        c as int - 'a' as int + 10
    }
}

/// Every byte is read back from the two digits that stand for it.
pub proof fn law_hexadecimal_is_read_back(bytes: Seq<u8>)
    ensures
        lower_hex(bytes).len() == 2 * bytes.len(),
        forall|i: int|
            0 <= i < bytes.len() ==> #[trigger] bytes[i] == 16 * hex_value(lower_hex(bytes)[2 * i])
                + hex_value(lower_hex(bytes)[2 * i + 1]),
        forall|i: int|
            0 <= i < lower_hex(bytes).len() ==> ('0' <= #[trigger] lower_hex(bytes)[i] <= '9' || 'a'
                <= lower_hex(bytes)[i] <= 'f'),
    decreases bytes.len(),
{
    if bytes.len() > 0 {
        let front = bytes.drop_last();
        let n = front.len() as int;
        let high = bytes.last() as int / 16;
        let low = bytes.last() as int % 16;
        law_hexadecimal_is_read_back(front);
        lemma_digit(high);
        lemma_digit(low);
        assert(lower_hex(bytes)[2 * n] == digit(high));
        assert(lower_hex(bytes)[2 * n + 1] == digit(low));
        assert forall|i: int| 0 <= i < bytes.len() implies #[trigger] bytes[i] == 16 * hex_value(
            lower_hex(bytes)[2 * i],
        ) + hex_value(lower_hex(bytes)[2 * i + 1]) by {
            if i < n {
                assert(front[i] == bytes[i]);
                assert(lower_hex(bytes)[2 * i] == lower_hex(front)[2 * i]);
                assert(lower_hex(bytes)[2 * i + 1] == lower_hex(front)[2 * i + 1]);
            }
        }
        assert forall|i: int| 0 <= i < lower_hex(bytes).len() implies ('0'
            <= #[trigger] lower_hex(bytes)[i] <= '9' || 'a' <= lower_hex(bytes)[i] <= 'f') by {
            if i < 2 * n {
                assert(lower_hex(bytes)[i] == lower_hex(front)[i]);
            }
        }
    }
}

/// Joining puts the separator between any two texts, and nowhere else.
pub proof fn law_joining(parts: Seq<Seq<char>>, part: Seq<char>, separator: Seq<char>)
    ensures
        joined(seq![], separator) == Seq::<char>::empty(),
        joined(seq![part], separator) == part,
        parts.len() > 0 ==> joined(parts.push(part), separator) == joined(parts, separator)
            + separator + part,
{
    assert(parts.push(part).drop_last() =~= parts);
    assert(seq![part].drop_last() =~= seq![]);
}

/// What trimming takes off a text is white space, and what is left has none at either end.
pub proof fn law_trimming(s: Seq<char>)
    ensures
        untrimmable(trimmed(s)),
        exists|from: int, to: int|
            #![trigger s.subrange(from, to)]
            0 <= from <= to <= s.len() && trimmed(s) == s.subrange(from, to) && (forall|i: int|
                0 <= i < from || to <= i < s.len() ==> white_space(#[trigger] s[i])),
{
    lemma_trimmed(s);
    let from = lemma_stripped_front(s, white());
    let rest = strip_front(s, white());
    let n = lemma_stripped_back(rest, white());
    let to = from + n;
    assert(s.skip(from).take(n) =~= s.subrange(from, to));
    assert forall|i: int| 0 <= i < from || to <= i < s.len() implies white_space(
        #[trigger] s[i],
    ) by {
        if i >= to {
            assert(rest[i - from] == s[i]);
        }
    }
}

/// What is stripped from the front of a text satisfies the predicate.
proof fn lemma_stripped_front(s: Seq<char>, p: spec_fn(char) -> bool) -> (n: int)
    ensures
        0 <= n <= s.len(),
        strip_front(s, p) == s.skip(n),
        forall|i: int| 0 <= i < n ==> p(#[trigger] s[i]),
        n < s.len() ==> !p(s[n]),
    decreases s.len(),
{
    if s.len() > 0 && p(s[0]) {
        let n = lemma_stripped_front(s.skip(1), p);
        assert(s.skip(1).skip(n) =~= s.skip(n + 1));
        assert forall|i: int| 0 <= i < n + 1 implies p(#[trigger] s[i]) by {
            if i > 0 {
                assert(s.skip(1)[i - 1] == s[i]);
            }
        }
        n + 1
    } else {
        assert(s.skip(0) =~= s);
        0
    }
}

/// What is stripped from the back of a text satisfies the predicate.
proof fn lemma_stripped_back(s: Seq<char>, p: spec_fn(char) -> bool) -> (n: int)
    ensures
        0 <= n <= s.len(),
        strip_back(s, p) == s.take(n),
        forall|i: int| n <= i < s.len() ==> p(#[trigger] s[i]),
        n > 0 ==> !p(s[n - 1]),
    decreases s.len(),
{
    if s.len() > 0 && p(s.last()) {
        let n = lemma_stripped_back(s.drop_last(), p);
        assert(s.drop_last().take(n) =~= s.take(n));
        assert forall|i: int| n <= i < s.len() implies p(#[trigger] s[i]) by {
            if i < s.len() - 1 {
                assert(s.drop_last()[i] == s[i]);
            }
        }
        n
    } else {
        assert(s.take(s.len() as int) =~= s);
        s.len() as int
    }
}

/// What is taken off the end of a text is slashes, and it is all of them; and so it is at its
/// start.
pub proof fn law_slashes_are_taken_off(s: Seq<char>)
    ensures
        without_trailing_slashes(s).len() <= s.len(),
        without_trailing_slashes(s) == s.take(without_trailing_slashes(s).len() as int),
        forall|i: int|
            without_trailing_slashes(s).len() <= i < s.len() ==> #[trigger] s[i] == '/',
        without_trailing_slashes(s).len() > 0 ==> without_trailing_slashes(s).last() != '/',
        without_leading_slashes(s).len() <= s.len(),
        without_leading_slashes(s) == s.skip(s.len() - without_leading_slashes(s).len()),
        forall|i: int|
            0 <= i < s.len() - without_leading_slashes(s).len() ==> #[trigger] s[i] == '/',
        without_leading_slashes(s).len() > 0 ==> without_leading_slashes(s)[0] != '/',
{
    let back = lemma_stripped_back(s, slash());
    let front = lemma_stripped_front(s, slash());
}

/// Nothing but repetitions of a suffix is taken off a text, and it is all of them.
pub proof fn law_suffixes_are_taken_off(s: Seq<char>, suffix: Seq<char>)
    requires
        suffix.len() > 0,
    ensures
        !suffix.is_suffix_of(without_suffixes(s, suffix)),
        !suffix.is_suffix_of(s) ==> without_suffixes(s, suffix) == s,
        without_suffixes(s + suffix, suffix) == without_suffixes(s, suffix),
    decreases s.len(),
{
    if suffix.is_suffix_of(s) {
        law_suffixes_are_taken_off(s.take(s.len() - suffix.len()), suffix);
    }
    let longer = s + suffix;
    assert(longer.subrange(longer.len() - suffix.len(), longer.len() as int) =~= suffix);
    assert(suffix.is_suffix_of(longer));
    assert(longer.take(longer.len() - suffix.len()) =~= s);
}

/// ASCII capital letters become the small ones, and every other character stays.
pub proof fn law_ascii_letters_become_small(s: Seq<char>)
    ensures
        ascii_lowercase(s).len() == s.len(),
        forall|i: int|
            0 <= i < s.len() ==> if 'A' <= s[i] <= 'Z' {
                #[trigger] ascii_lowercase(s)[i] as int == s[i] as int + 32
            } else {
                ascii_lowercase(s)[i] == s[i]
            },
{
}

} // verus!
