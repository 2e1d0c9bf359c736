//! Text helpers: strings as character sequences.
//!
//! Contracts in this crate speak of a string by its view, a `Seq<char>`. The
//! executable code reads a string into a `Vec<char>`, works on the characters
//! and builds a `String` again at the end.

use vstd::prelude::*;

verus! {

broadcast use vstd::string::group_string_axioms;

/// What `str::to_lowercase` returns for a string with these characters.
pub uninterp spec fn lowercase(s: Seq<char>) -> Seq<char>;

/// Whether a character is whitespace: one of the code points that have
/// the Unicode property `White_Space`. These are the controls U+0009 to
/// U+000D and U+0085, the space, the no-break space, the Ogham space mark,
/// the spaces U+2000 to U+200A, the line and paragraph separators, the
/// narrow no-break space, the medium mathematical space and the
/// ideographic space.
pub open spec fn is_whitespace(c: char) -> bool {
    let code = c as u32;
    ||| 0x09 <= code <= 0x0d
    ||| code == 0x20
    ||| code == 0x85
    ||| code == 0xa0
    ||| code == 0x1680
    ||| 0x2000 <= code <= 0x200a
    ||| code == 0x2028
    ||| code == 0x2029
    ||| code == 0x202f
    ||| code == 0x205f
    ||| code == 0x3000
}

/// The characters of `s`, in order.
pub fn to_chars(s: &str) -> (chars: Vec<char>)
    ensures
        chars@ == s@,
{
    let mut chars: Vec<char> = Vec::new();
    for c in it: s.chars()
        invariant
            it.seq() == s@,
            chars@ == it.seq().take(it.index() as int),
    {
        chars.push(c);
    }
    chars
}

/// Trusted: `String::from_iter` over the characters of a slice builds the
/// string that holds exactly those characters, in order.
#[verifier::external_body]
pub(crate) fn from_chars(chars: &Vec<char>) -> (s: String)
    ensures
        s@ == chars@,
{
    String::from_iter(chars.iter())
}

/// Trusted: calls `str::to_lowercase`; the result is named, not described.
#[verifier::external_body]
pub(crate) fn to_lowercase(s: &str) -> (lower: String)
    ensures
        lower@ == lowercase(s@),
{
    s.to_lowercase()
}

/// Whether `c` is whitespace.
pub fn char_is_whitespace(c: char) -> (whitespace: bool)
    ensures
        whitespace == is_whitespace(c),
{
    let code: u32 = c as u32;
    (0x09 <= code && code <= 0x0d) || code == 0x20 || code == 0x85 || code == 0xa0 || code == 0x1680
        || (0x2000 <= code && code <= 0x200a) || code == 0x2028 || code == 0x2029 || code == 0x202f
        || code == 0x205f || code == 0x3000
}

/// A copy of an optional string.
pub fn clone_optional(value: &Option<String>) -> (copy: Option<String>)
    ensures
        copy == *value,
{
    match value {
        Some(s) => Some(s.clone()),
        None => None,
    }
}

/// The view of an optional string.
pub open spec fn optional_view(value: Option<String>) -> Option<Seq<char>> {
    match value {
        Some(s) => Some(s@),
        None => None,
    }
}

/// Whether two optional strings hold the same characters.
pub fn same_optional(a: &Option<String>, b: &Option<String>) -> (same: bool)
    ensures
        same == (optional_view(*a) == optional_view(*b)),
{
    match (a, b) {
        (Some(x), Some(y)) => *x == *y,
        (None, None) => true,
        _ => false,
    }
}

/// Whether `chars` begins with `prefix`.
pub fn starts_with(chars: &Vec<char>, prefix: &Vec<char>) -> (found: bool)
    ensures
        found == prefix@.is_prefix_of(chars@),
{
    if prefix.len() > chars.len() {
        return false;
    }
    let mut i: usize = 0;
    while i < prefix.len()
        invariant
            i <= prefix.len() <= chars.len(),
            forall|k: int| 0 <= k < i ==> chars@[k] == prefix@[k],
        decreases prefix.len() - i,
    {
        if chars[i] != prefix[i] {
            return false;
        }
        i += 1;
    }
    assert(prefix@ =~= chars@.subrange(0, prefix@.len() as int));
    true
}

/// Whether `chars` ends with `suffix`.
pub fn ends_with(chars: &Vec<char>, suffix: &Vec<char>) -> (found: bool)
    ensures
        found == suffix@.is_suffix_of(chars@),
{
    if suffix.len() > chars.len() {
        return false;
    }
    let offset: usize = chars.len() - suffix.len();
    let mut i: usize = 0;
    while i < suffix.len()
        invariant
            i <= suffix.len() <= chars.len(),
            offset == chars.len() - suffix.len(),
            forall|k: int| 0 <= k < i ==> chars@[offset + k] == suffix@[k],
        decreases suffix.len() - i,
    {
        if chars[offset + i] != suffix[i] {
            assert(chars@.subrange(offset as int, chars@.len() as int)[i as int] != suffix@[i as int]);
            return false;
        }
        i += 1;
    }
    assert(suffix@ =~= chars@.subrange(offset as int, chars@.len() as int));
    true
}

/// The characters of `chars` from `from` up to `to`.
pub fn slice(chars: &Vec<char>, from: usize, to: usize) -> (part: Vec<char>)
    requires
        from <= to <= chars.len(),
    ensures
        part@ == chars@.subrange(from as int, to as int),
{
    let mut part: Vec<char> = Vec::new();
    let mut i: usize = from;
    while i < to
        invariant
            from <= i <= to <= chars.len(),
            part@ == chars@.subrange(from as int, i as int),
        decreases to - i,
    {
        part.push(chars[i]);
        i += 1;
        assert(part@ =~= chars@.subrange(from as int, i as int));
    }
    part
}

/// Appends every character of `tail` to `out`.
pub fn append(out: &mut Vec<char>, tail: &Vec<char>)
    ensures
        final(out)@ == old(out)@ + tail@,
{
    let mut i: usize = 0;
    while i < tail.len()
        invariant
            i <= tail.len(),
            out@ == old(out)@ + tail@.subrange(0, i as int),
        decreases tail.len() - i,
    {
        out.push(tail[i]);
        i += 1;
        assert(out@ =~= old(out)@ + tail@.subrange(0, i as int));
    }
    assert(tail@.subrange(0, tail@.len() as int) =~= tail@);
}

/// The decimal digit for a value below ten.
pub open spec fn digit_char(d: int) -> char {
    if d == 0 {
        '0'
    } else if d == 1 {
        '1'
    } else if d == 2 {
        '2'
    } else if d == 3 {
        '3'
    } else if d == 4 {
        '4'
    } else if d == 5 {
        '5'
    } else if d == 6 {
        '6'
    } else if d == 7 {
        '7'
    } else if d == 8 {
        '8'
    } else {
        '9'
    }
}

/// The decimal numeral of `n`, without leading zeros.
pub open spec fn decimal(n: nat) -> Seq<char>
    decreases n,
{
    if n < 10 {
        seq![digit_char(n as int)]
    } else {
        decimal(n / 10).push(digit_char((n % 10) as int))
    }
}

fn digit(d: u64) -> (c: char)
    requires
        d < 10,
    ensures
        c == digit_char(d as int),
{
    if d == 0 {
        '0'
    } else if d == 1 {
        '1'
    } else if d == 2 {
        '2'
    } else if d == 3 {
        '3'
    } else if d == 4 {
        '4'
    } else if d == 5 {
        '5'
    } else if d == 6 {
        '6'
    } else if d == 7 {
        '7'
    } else if d == 8 {
        '8'
    } else {
        '9'
    }
}

/// The decimal numeral of `n` as characters.
pub fn decimal_chars(n: u64) -> (digits: Vec<char>)
    ensures
        digits@ == decimal(n as nat),
    decreases n,
{
    if n < 10 {
        let mut digits: Vec<char> = Vec::new();
        digits.push(digit(n));
        digits
    } else {
        let mut digits = decimal_chars(n / 10);
        digits.push(digit(n % 10));
        digits
    }
}

/// Where reading `text` for whitespace-separated pieces stands at its
/// end: the pieces that are complete, and the piece that is still open.
pub open spec fn split_state(text: Seq<char>) -> (Seq<Seq<char>>, Seq<char>)
    decreases text.len(),
{
    if text.len() == 0 {
        (Seq::empty(), Seq::empty())
    } else {
        let (done, open) = split_state(text.drop_last());
        if !is_whitespace(text.last()) {
            (done, open.push(text.last()))
        } else if open.len() > 0 {
            (done.push(open), Seq::empty())
        } else {
            (done, open)
        }
    }
}

/// The pieces of `text` between whitespace: its longest stretches without
/// a whitespace character, in order. Whitespace of any length separates
/// two pieces, and none of the pieces is empty.
pub open spec fn whitespace_split(text: Seq<char>) -> Seq<Seq<char>> {
    let (done, open) = split_state(text);
    if open.len() > 0 {
        done.push(open)
    } else {
        done
    }
}

/// Whether a piece is not empty and holds no whitespace.
pub open spec fn is_word(piece: Seq<char>) -> bool {
    &&& piece.len() > 0
    &&& forall|k: int| 0 <= k < piece.len() ==> !is_whitespace(#[trigger] piece[k])
}

/// Whether every piece is a word.
pub open spec fn are_words(pieces: Seq<Seq<char>>) -> bool {
    forall|k: int| 0 <= k < pieces.len() ==> is_word(#[trigger] pieces[k])
}

/// Whether no character of the piece is whitespace.
pub open spec fn has_no_whitespace(piece: Seq<char>) -> bool {
    forall|k: int| 0 <= k < piece.len() ==> !is_whitespace(#[trigger] piece[k])
}

/// Every piece of a split is a word: it is not empty and holds no
/// whitespace.
pub proof fn lemma_split_gives_words(text: Seq<char>)
    ensures
        are_words(whitespace_split(text)),
        are_words(split_state(text).0),
        has_no_whitespace(split_state(text).1),
    decreases text.len(),
{
    if text.len() > 0 {
        lemma_split_gives_words(text.drop_last());
        let (done, open) = split_state(text.drop_last());
        let (next_done, next_open) = split_state(text);
        if !is_whitespace(text.last()) {
            assert(next_open == open.push(text.last()));
            assert forall|k: int| 0 <= k < next_open.len() implies !is_whitespace(
                #[trigger] next_open[k],
            ) by {
                if k < open.len() {
                    assert(next_open[k] == open[k]);
                }
            }
        } else if open.len() > 0 {
            assert(next_done == done.push(open));
            assert forall|k: int| 0 <= k < next_done.len() implies is_word(
                #[trigger] next_done[k],
            ) by {
                if k < done.len() {
                    assert(next_done[k] == done[k]);
                }
            }
        }
    }
    let (done, open) = split_state(text);
    let pieces = whitespace_split(text);
    assert forall|k: int| 0 <= k < pieces.len() implies is_word(#[trigger] pieces[k]) by {
        if k < done.len() {
            assert(pieces[k] == done[k]);
        }
    }
}

/// `text` without the whitespace at its start.
pub open spec fn without_leading_whitespace(text: Seq<char>) -> Seq<char>
    decreases text.len(),
{
    if text.len() > 0 && is_whitespace(text[0]) {
        without_leading_whitespace(text.skip(1))
    } else {
        text
    }
}

/// `text` without the whitespace at its end.
pub open spec fn without_trailing_whitespace(text: Seq<char>) -> Seq<char>
    decreases text.len(),
{
    if text.len() > 0 && is_whitespace(text.last()) {
        without_trailing_whitespace(text.drop_last())
    } else {
        text
    }
}

/// `text` without the whitespace at its start and at its end.
pub open spec fn trimmed(text: Seq<char>) -> Seq<char> {
    without_trailing_whitespace(without_leading_whitespace(text))
}

/// The pieces of `s` between whitespace.
pub fn split_whitespace(s: &str) -> (pieces: Vec<String>)
    ensures
        pieces.deep_view() == whitespace_split(s@),
{
    let text = to_chars(s);
    let mut pieces: Vec<String> = Vec::new();
    let mut open: Vec<char> = Vec::new();
    let mut i: usize = 0;
    assert(text@.take(0) =~= Seq::<char>::empty());
    assert(pieces.deep_view() =~= Seq::<Seq<char>>::empty());
    while i < text.len()
        invariant
            i <= text.len(),
            (pieces.deep_view(), open@) == split_state(text@.take(i as int)),
        decreases text.len() - i,
    {
        let ghost done = pieces.deep_view();
        assert(text@.take(i + 1).drop_last() =~= text@.take(i as int));
        if !char_is_whitespace(text[i]) {
            open.push(text[i]);
        } else if open.len() > 0 {
            pieces.push(from_chars(&open));
            assert(pieces.deep_view() =~= done.push(open@));
            open = Vec::new();
        }
        i += 1;
    }
    assert(text@.take(text.len() as int) =~= text@);
    if open.len() > 0 {
        let ghost done = pieces.deep_view();
        pieces.push(from_chars(&open));
        assert(pieces.deep_view() =~= done.push(open@));
    }
    pieces
}

/// `s` without the whitespace at its start and at its end.
pub fn trim(s: &str) -> (inner: String)
    ensures
        inner@ == trimmed(s@),
{
    let text = to_chars(s);
    let mut from: usize = 0;
    assert(text@.skip(0) =~= text@);
    while from < text.len() && char_is_whitespace(text[from])
        invariant
            from <= text.len(),
            without_leading_whitespace(text@) == without_leading_whitespace(
                text@.skip(from as int),
            ),
        decreases text.len() - from,
    {
        assert(text@.skip(from as int).skip(1) =~= text@.skip(from + 1));
        from += 1;
    }
    let ghost rest = text@.skip(from as int);
    assert(without_leading_whitespace(text@) == rest);
    let mut to: usize = text.len();
    assert(rest.take(rest.len() as int) =~= rest);
    while to > from && char_is_whitespace(text[to - 1])
        invariant
            from <= to <= text.len(),
            rest == text@.skip(from as int),
            without_trailing_whitespace(rest) == without_trailing_whitespace(
                rest.take(to - from),
            ),
        decreases to,
    {
        assert(rest.take(to - from).last() == text@[to - 1]);
        assert(rest.take(to - from).drop_last() =~= rest.take(to - from - 1));
        to -= 1;
    }
    proof {
        let kept = rest.take(to - from);
        if to > from {
            assert(kept.last() == text@[to - 1]);
        }
        assert(without_trailing_whitespace(kept) == kept);
        assert(kept =~= text@.subrange(from as int, to as int));
    }
    from_chars(&slice(&text, from, to))
}

/// The pieces of `text` between the occurrences of `separator`; one more
/// than there are separators.
pub open spec fn split_on(text: Seq<char>, separator: char) -> Seq<Seq<char>>
    decreases text.len(),
{
    if text.len() == 0 {
        seq![Seq::empty()]
    } else {
        let before = split_on(text.drop_last(), separator);
        if text.last() == separator {
            before.push(Seq::empty())
        } else {
            before.drop_last().push(before.last().push(text.last()))
        }
    }
}

/// The pieces of `s` between the occurrences of `separator`.
pub fn split(s: &str, separator: char) -> (pieces: Vec<String>)
    ensures
        pieces.deep_view() == split_on(s@, separator),
{
    let text = to_chars(s);
    let mut pieces: Vec<String> = Vec::new();
    let mut current: Vec<char> = Vec::new();
    let mut i: usize = 0;
    assert(text@.take(0) =~= Seq::<char>::empty());
    assert(pieces.deep_view().push(current@) =~= seq![Seq::<char>::empty()]);
    while i < text.len()
        invariant
            i <= text.len(),
            pieces.deep_view().push(current@) == split_on(text@.take(i as int), separator),
        decreases text.len() - i,
    {
        let ghost done = pieces.deep_view();
        let ghost open = current@;
        assert(text@.take(i + 1).drop_last() =~= text@.take(i as int));
        assert(done.push(open).drop_last() =~= done);
        if text[i] == separator {
            pieces.push(from_chars(&current));
            current = Vec::new();
            assert(pieces.deep_view() =~= done.push(open));
        } else {
            current.push(text[i]);
        }
        i += 1;
    }
    assert(text@.take(text.len() as int) =~= text@);
    let ghost done = pieces.deep_view();
    pieces.push(from_chars(&current));
    assert(pieces.deep_view() =~= done.push(current@));
    pieces
}

/// The value of a digit in a radix up to 36: `0` to `9`, then the letters
/// in either case; `None` for any other character and for a digit that the
/// radix does not have.
pub open spec fn digit_value(c: char, radix: u32) -> Option<int> {
    let value = if '0' <= c <= '9' {
        c as int - '0' as int
    } else if 'a' <= c <= 'z' {
        c as int - 'a' as int + 10
    } else if 'A' <= c <= 'Z' {
        c as int - 'A' as int + 10
    } else {
        36
    };
    if value < radix {
        Some(value)
    } else {
        None
    }
}

/// The number that the digits write in the radix; `None` if one of them is
/// no digit.
pub open spec fn digits_value(digits: Seq<char>, radix: u32) -> Option<int>
    decreases digits.len(),
{
    if digits.len() == 0 {
        Some(0)
    } else {
        match (digits_value(digits.drop_last(), radix), digit_value(digits.last(), radix)) {
            (Some(front), Some(last)) => Some(front * radix + last),
            _ => None,
        }
    }
}

/// The number that `text` writes in the radix, if it is at most `limit`:
/// one or more digits, which a single `+` may precede. Anything else, and
/// a larger number, gives `None`.
pub open spec fn unsigned_value(text: Seq<char>, radix: u32, limit: u64) -> Option<u64> {
    let digits = if text.len() > 0 && text[0] == '+' {
        text.skip(1)
    } else {
        text
    };
    if digits.len() == 0 {
        None
    } else {
        match digits_value(digits, radix) {
            Some(value) => if value <= limit {
                Some(value as u64)
            } else {
                None
            },
            None => None,
        }
    }
}

fn digit_of(c: char, radix: u32) -> (value: Option<u32>)
    requires
        radix <= 36,
    ensures
        match value {
            Some(v) => digit_value(c, radix) == Some(v as int),
            None => digit_value(c, radix) is None,
        },
{
    let value: u32 = if '0' <= c && c <= '9' {
        c as u32 - '0' as u32
    } else if 'a' <= c && c <= 'z' {
        c as u32 - 'a' as u32 + 10
    } else if 'A' <= c && c <= 'Z' {
        c as u32 - 'A' as u32 + 10
    } else {
        36
    };
    if value < radix {
        Some(value)
    } else {
        None
    }
}

/// A number only grows, or stops being one, as digits follow.
proof fn lemma_digits_grow(digits: Seq<char>, radix: u32, count: int)
    requires
        0 <= count <= digits.len(),
        1 <= radix,
    ensures
        digits_value(digits, radix) is Some ==> digits_value(digits.take(count), radix) is Some
            && 0 <= digits_value(digits.take(count), radix)->0 <= digits_value(digits, radix)->0,
    decreases digits.len(),
{
    if count == digits.len() {
        assert(digits.take(count) =~= digits);
        lemma_digits_not_negative(digits, radix);
    } else if digits_value(digits, radix) is Some {
        let front = digits.drop_last();
        assert(front.take(count) =~= digits.take(count));
        lemma_digits_grow(front, radix, count);
        let value = digits_value(front, radix)->0;
        assert(value * radix >= value) by (nonlinear_arith)
            requires
                value >= 0,
                radix >= 1,
        ;
    }
}

proof fn lemma_digits_not_negative(digits: Seq<char>, radix: u32)
    ensures
        digits_value(digits, radix) is Some ==> digits_value(digits, radix)->0 >= 0,
    decreases digits.len(),
{
    if digits.len() > 0 && digits_value(digits, radix) is Some {
        lemma_digits_not_negative(digits.drop_last(), radix);
        let value = digits_value(digits.drop_last(), radix)->0;
        assert(value * radix >= 0) by (nonlinear_arith)
            requires
                value >= 0,
                radix >= 0,
        ;
    }
}

/// Reads `text` as a number in the radix that is at most `limit`.
pub fn parse_unsigned(text: &str, radix: u32, limit: u64) -> (value: Option<u64>)
    requires
        2 <= radix <= 36,
        limit <= 0xffff_ffff,
    ensures
        value == unsigned_value(text@, radix, limit),
{
    let chars = to_chars(text);
    let start: usize = if chars.len() > 0 && chars[0] == '+' {
        1
    } else {
        0
    };
    if start == chars.len() {
        assert(chars@.skip(start as int).len() == 0);
        return None;
    }
    let ghost digits = chars@.skip(start as int);
    assert(chars@.skip(0) =~= chars@);
    let mut value: u64 = 0;
    let mut i: usize = start;
    assert(digits.take(0) =~= Seq::<char>::empty());
    while i < chars.len()
        invariant
            start <= i <= chars.len(),
            digits == chars@.skip(start as int),
            digits == if text@.len() > 0 && text@[0] == '+' {
                text@.skip(1)
            } else {
                text@
            },
            digits.len() > 0,
            2 <= radix <= 36,
            limit <= 0xffff_ffff,
            value <= limit,
            digits_value(digits.take(i - start), radix) == Some(value as int),
        decreases chars.len() - i,
    {
        let ghost seen = digits.take(i - start);
        let ghost next = digits.take(i - start + 1);
        assert(next.drop_last() =~= seen);
        assert(next.last() == chars@[i as int]);
        assert(digits_value(next, radix) == match digit_value(chars@[i as int], radix) {
            Some(last) => Some(value * radix + last),
            None => None,
        });
        match digit_of(chars[i], radix) {
            Some(digit) => {
                assert(value * radix + digit <= 0xffff_ffff * 36 + 36) by (nonlinear_arith)
                    requires
                        value <= 0xffff_ffff,
                        radix <= 36,
                        digit < 36,
                ;
                let grown: u64 = value * (radix as u64) + digit as u64;
                if grown > limit {
                    proof {
                        lemma_digits_grow(digits, radix, i - start + 1);
                    }
                    return None;
                }
                value = grown;
            },
            None => {
                proof {
                    lemma_digits_grow(digits, radix, i - start + 1);
                }
                return None;
            },
        }
        i += 1;
    }
    assert(digits.take(digits.len() as int) =~= digits);
    Some(value)
}

} // verus!
