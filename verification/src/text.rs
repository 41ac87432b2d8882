//! Texts as sequences of characters: case, white space, words, numbers and
//! tables of names.

use vstd::prelude::*;
use vstd::slice::{slice_subrange, slice_to_vec};

verus! {

/// The characters of a string.
pub fn to_chars(s: &str) -> (chars: Vec<char>)
    ensures
        chars@ == s@,
{
    let mut chars: Vec<char> = Vec::new();
    for c in it: s.chars()
        invariant
            it.seq() == s@,
            chars@ == it.seq().take(it.index()),
    {
        chars.push(c);
    }
    chars
}

/// The lower-case form of an ASCII capital, and every other character
/// itself.
pub open spec fn spec_lower_char(c: char) -> char {
    if 'A' <= c && c <= 'Z' {
        ((c as u8) + 32) as char
    } else {
        c
    }
}

/// The lower-case form of a character, as far as ASCII goes.
pub fn lower_char(c: char) -> (lower: char)
    ensures
        lower == spec_lower_char(c),
{
    if 'A' <= c && c <= 'Z' {
        ((c as u8) + 32) as char
    } else {
        c
    }
}

/// A text with its ASCII capitals in lower case.
pub open spec fn spec_lower(s: Seq<char>) -> Seq<char> {
    s.map_values(|c: char| spec_lower_char(c))
}

/// A text with its ASCII capitals in lower case.
pub fn lower(s: &[char]) -> (lowered: Vec<char>)
    ensures
        lowered@ == spec_lower(s@),
{
    let mut lowered: Vec<char> = Vec::new();
    let mut i: usize = 0;
    while i < s.len()
        invariant
            i <= s.len(),
            lowered@ == spec_lower(s@.take(i as int)),
        decreases s.len() - i,
    {
        lowered.push(lower_char(s[i]));
        assert(lowered@ =~= spec_lower(s@.take(i + 1)));
        i += 1;
    }
    proof {
        assert(s@.take(s.len() as int) == s@);
    }
    lowered
}

/// Two texts are the same.
pub fn same_text(a: &[char], b: &[char]) -> (same: bool)
    ensures
        same == (a@ == b@),
{
    if a.len() != b.len() {
        return false;
    }
    let mut i: usize = 0;
    while i < a.len()
        invariant
            i <= a.len(),
            a.len() == b.len(),
            a@.take(i as int) == b@.take(i as int),
        decreases a.len() - i,
    {
        if a[i] != b[i] {
            assert(a@[i as int] != b@[i as int]);
            return false;
        }
        assert(a@.take(i + 1) =~= a@.take(i as int).push(a@[i as int]));
        assert(b@.take(i + 1) =~= b@.take(i as int).push(b@[i as int]));
        i += 1;
    }
    proof {
        assert(a@.take(a.len() as int) == a@);
        assert(b@.take(b.len() as int) == b@);
    }
    true
}

/// A text is the given word.
pub fn is_word(text: &[char], word: &str) -> (same: bool)
    ensures
        same == (text@ == word@),
{
    let chars = to_chars(word);
    same_text(text, chars.as_slice())
}

/// White space as Unicode has it: the characters with the property
/// `White_Space`.
pub open spec fn spec_is_whitespace(c: char) -> bool {
    let code = c as u32;
    ||| 0x09 <= code <= 0x0d
    ||| code == 0x20
    ||| code == 0x85
    ||| code == 0xa0
    ||| code == 0x1680
    ||| 0x2000 <= code <= 0x200a
    ||| code == 0x2028
    ||| code == 0x2029
    ||| code == 0x202f
    ||| code == 0x205f
    ||| code == 0x3000
}

/// Whether a character is white space.
pub fn is_whitespace(c: char) -> (white: bool)
    ensures
        white == spec_is_whitespace(c),
{
    let code = c as u32;
    (0x09 <= code && code <= 0x0d) || code == 0x20 || code == 0x85 || code == 0xa0 || code
        == 0x1680 || (0x2000 <= code && code <= 0x200a) || code == 0x2028 || code == 0x2029 || code
        == 0x202f || code == 0x205f || code == 0x3000
}

/// A text without the white space at its start.
pub open spec fn spec_trim_start(s: Seq<char>) -> Seq<char>
    decreases s.len(),
{
    if s.len() > 0 && spec_is_whitespace(s[0]) {
        spec_trim_start(s.drop_first())
    } else {
        s
    }
}

/// A text without the white space at its end.
pub open spec fn spec_trim_end(s: Seq<char>) -> Seq<char>
    decreases s.len(),
{
    if s.len() > 0 && spec_is_whitespace(s.last()) {
        spec_trim_end(s.drop_last())
    } else {
        s
    }
}

/// A text without the white space at its start and at its end.
pub open spec fn spec_trim(s: Seq<char>) -> Seq<char> {
    spec_trim_end(spec_trim_start(s))
}

/// Where the text begins and ends once the white space around it is left
/// out.
pub fn trim_bounds(s: &[char]) -> (bounds: (usize, usize))
    ensures
        bounds.0 <= bounds.1 <= s@.len(),
        s@.subrange(bounds.0 as int, bounds.1 as int) == spec_trim(s@),
{
    let mut start: usize = 0;
    proof {
        assert(s@.skip(0) == s@);
    }
    while start < s.len() && is_whitespace(s[start])
        invariant
            start <= s.len(),
            spec_trim_start(s@) == spec_trim_start(s@.skip(start as int)),
        decreases s.len() - start,
    {
        proof {
            assert(s@.skip(start as int)[0] == s@[start as int]);
            assert(s@.skip(start as int).drop_first() == s@.skip(start + 1));
        }
        start += 1;
    }
    let ghost body = s@.skip(start as int);
    assert(spec_trim_start(s@) == body) by {
        if start < s.len() {
            assert(body[0] == s@[start as int]);
        }
    }
    let mut end: usize = s.len();
    proof {
        assert(body.take(body.len() as int) == body);
    }
    while end > start && is_whitespace(s[end - 1])
        invariant
            start <= end <= s.len(),
            body == s@.skip(start as int),
            spec_trim_end(body) == spec_trim_end(body.take(end - start)),
        decreases end - start,
    {
        proof {
            let kept = body.take(end - start);
            assert(kept.last() == s@[end - 1]);
            assert(kept.drop_last() == body.take(end - 1 - start));
        }
        end -= 1;
    }
    proof {
        let kept = body.take(end - start);
        if end > start {
            assert(kept.last() == s@[end - 1]);
        }
        assert(kept =~= s@.subrange(start as int, end as int));
    }
    (start, end)
}

/// A text without the white space around it.
pub fn trim(s: &[char]) -> (trimmed: &[char])
    ensures
        trimmed@ == spec_trim(s@),
{
    let (start, end) = trim_bounds(s);
    slice_subrange(s, start, end)
}

/// A text without the characters `c` at its start.
pub open spec fn spec_strip_leading(s: Seq<char>, c: char) -> Seq<char>
    decreases s.len(),
{
    if s.len() > 0 && s[0] == c {
        spec_strip_leading(s.drop_first(), c)
    } else {
        s
    }
}

/// A text without the characters `c` at its start.
pub fn strip_leading(s: &[char], c: char) -> (stripped: &[char])
    ensures
        stripped@ == spec_strip_leading(s@, c),
{
    let mut start: usize = 0;
    proof {
        assert(s@.skip(0) == s@);
    }
    while start < s.len() && s[start] == c
        invariant
            start <= s.len(),
            spec_strip_leading(s@, c) == spec_strip_leading(s@.skip(start as int), c),
        decreases s.len() - start,
    {
        proof {
            assert(s@.skip(start as int)[0] == s@[start as int]);
            assert(s@.skip(start as int).drop_first() == s@.skip(start + 1));
        }
        start += 1;
    }
    proof {
        if start < s.len() {
            assert(s@.skip(start as int)[0] == s@[start as int]);
        }
        assert(s@.skip(start as int) =~= s@.subrange(start as int, s.len() as int));
    }
    slice_subrange(s, start, s.len())
}

/// The value of a digit in a radix of up to 36: `0` to `9`, then the
/// letters, in either case, from ten on. `None` for any other character and
/// for a digit that the radix does not have.
pub open spec fn spec_digit(c: char, radix: nat) -> Option<nat> {
    let value: nat = if '0' <= c && c <= '9' {
        (c as nat - '0' as nat) as nat
    } else if 'a' <= c && c <= 'z' {
        (c as nat - 'a' as nat + 10) as nat
    } else if 'A' <= c && c <= 'Z' {
        (c as nat - 'A' as nat + 10) as nat
    } else {
        radix
    };
    if value < radix {
        Some(value)
    } else {
        None
    }
}

/// The value of a digit in the given radix, from 2 to 36.
pub fn digit(c: char, radix: u32) -> (value: Option<u32>)
    requires
        2 <= radix <= 36,
    ensures
        match value {
            Some(v) => spec_digit(c, radix as nat) == Some(v as nat),
            None => spec_digit(c, radix as nat) is None,
        },
{
    let value: u32 = if '0' <= c && c <= '9' {
        c as u32 - '0' as u32
    } else if 'a' <= c && c <= 'z' {
        c as u32 - 'a' as u32 + 10
    } else if 'A' <= c && c <= 'Z' {
        c as u32 - 'A' as u32 + 10
    } else {
        radix
    };
    if value < radix {
        Some(value)
    } else {
        None
    }
}

/// The number that a run of digits writes, the first digit weighing most;
/// `None` where a character is no digit of the radix. The empty run writes
/// zero.
pub open spec fn spec_digits_value(s: Seq<char>, radix: nat) -> Option<nat>
    decreases s.len(),
{
    if s.len() == 0 {
        Some(0nat)
    } else {
        match (spec_digits_value(s.drop_last(), radix), spec_digit(s.last(), radix)) {
            (Some(front), Some(last)) => Some(front * radix + last),
            _ => None,
        }
    }
}

/// The number that a text writes: an optional `+`, then at least one digit
/// and nothing else. `None` for any other text and for a number above `max`.
pub open spec fn spec_parse_unsigned(s: Seq<char>, radix: nat, max: nat) -> Option<nat> {
    let digits = if s.len() > 0 && s[0] == '+' {
        s.drop_first()
    } else {
        s
    };
    if digits.len() == 0 {
        None
    } else {
        match spec_digits_value(digits, radix) {
            Some(value) if value <= max => Some(value),
            _ => None,
        }
    }
}

/// A run of digits writes no less than any of its beginnings.
pub proof fn lemma_digits_value_grows(s: Seq<char>, radix: nat, k: int)
    requires
        0 <= k <= s.len(),
        radix >= 1,
        spec_digits_value(s, radix) is Some,
    ensures
        spec_digits_value(s.take(k), radix) is Some,
        spec_digits_value(s.take(k), radix).unwrap() <= spec_digits_value(s, radix).unwrap(),
    decreases s.len(),
{
    if k == s.len() {
        assert(s.take(k) == s);
    } else {
        lemma_digits_value_grows(s.drop_last(), radix, k);
        assert(s.drop_last().take(k) == s.take(k));
        let front = spec_digits_value(s.drop_last(), radix).unwrap();
        assert(front <= front * radix) by (nonlinear_arith)
            requires
                radix >= 1,
                front >= 0,
        ;
    }
}

/// Parse a number up to `max` in the given radix, from 2 to 36.
pub fn parse_unsigned(s: &[char], radix: u32, max: u64) -> (value: Option<u64>)
    requires
        2 <= radix <= 36,
    ensures
        match value {
            Some(v) => spec_parse_unsigned(s@, radix as nat, max as nat) == Some(v as nat),
            None => spec_parse_unsigned(s@, radix as nat, max as nat) is None,
        },
{
    let start: usize = if s.len() > 0 && s[0] == '+' {
        1
    } else {
        0
    };
    if start == s.len() {
        return None;
    }
    let ghost digits = s@.skip(start as int);
    let ghost whole = spec_parse_unsigned(s@, radix as nat, max as nat);
    assert(digits == if s@.len() > 0 && s@[0] == '+' {
        s@.drop_first()
    } else {
        s@
    });
    let mut value: u64 = 0;
    let mut i: usize = start;
    while i < s.len()
        invariant
            start <= i <= s.len(),
            start < s.len(),
            2 <= radix <= 36,
            digits == s@.skip(start as int),
            whole == spec_parse_unsigned(s@, radix as nat, max as nat),
            whole == (match spec_digits_value(digits, radix as nat) {
                Some(value) if value <= max => Some(value),
                _ => None,
            }),
            spec_digits_value(digits.take(i - start), radix as nat) == Some(value as nat),
            value <= max,
        decreases s.len() - i,
    {
        let ghost front = digits.take(i - start);
        let ghost longer = digits.take(i + 1 - start);
        proof {
            assert(longer.drop_last() == front);
            assert(longer.last() == s@[i as int]);
        }
        let d = match digit(s[i], radix) {
            Some(d) => d,
            None => {
                proof {
                    assert(spec_digits_value(longer, radix as nat) is None);
                    if spec_digits_value(digits, radix as nat) is Some {
                        lemma_digits_value_grows(digits, radix as nat, i + 1 - start);
                    }
                }
                return None;
            },
        };
        assert((value as u128) * (radix as u128) <= 36 * 0xffff_ffff_ffff_ffff) by (nonlinear_arith)
            requires
                value <= 0xffff_ffff_ffff_ffff,
                radix <= 36,
        ;
        let next = (value as u128) * (radix as u128) + (d as u128);
        assert(spec_digits_value(longer, radix as nat) == Some(next as nat));
        if next > max as u128 {
            proof {
                if spec_digits_value(digits, radix as nat) is Some {
                    lemma_digits_value_grows(digits, radix as nat, i + 1 - start);
                }
            }
            return None;
        }
        value = next as u64;
        i += 1;
    }
    proof {
        assert(digits.take(s.len() - start) == digits);
    }
    Some(value)
}

/// The value under the first name of a table that is `name`.
pub open spec fn spec_lookup<V>(table: Seq<(Seq<char>, V)>, name: Seq<char>) -> Option<V>
    decreases table.len(),
{
    if table.len() == 0 {
        None
    } else if table[0].0 == name {
        Some(table[0].1)
    } else {
        spec_lookup(table.drop_first(), name)
    }
}

/// A name that stands in a table, and in no line before, is found with the
/// value of its line.
pub proof fn lemma_lookup_at<V>(table: Seq<(Seq<char>, V)>, index: int, name: Seq<char>)
    requires
        0 <= index < table.len(),
        table[index].0 == name,
        forall|j: int| 0 <= j < index ==> (#[trigger] table[j]).0 != name,
    ensures
        spec_lookup(table, name) == Some(table[index].1),
    decreases index,
{
    if index > 0 {
        let rest = table.drop_first();
        assert forall|j: int| 0 <= j < index - 1 implies (#[trigger] rest[j]).0 != name by {
            assert(rest[j] == table[j + 1]);
        }
        lemma_lookup_at(rest, index - 1, name);
    }
}

/// A table of names as mathematical values.
pub open spec fn table_view<V>(table: Seq<(&'static str, V)>) -> Seq<(Seq<char>, V)> {
    table.map_values(|entry: (&'static str, V)| (entry.0@, entry.1))
}

/// Looks a name up in a table.
pub fn lookup<V: Copy>(table: &[(&'static str, V)], name: &[char]) -> (value: Option<V>)
    ensures
        value == spec_lookup(table_view(table@), name@),
{
    let ghost lines = table_view(table@);
    let mut i: usize = 0;
    proof {
        assert(lines.skip(0) == lines);
    }
    while i < table.len()
        invariant
            i <= table.len(),
            lines == table_view(table@),
            spec_lookup(lines, name@) == spec_lookup(lines.skip(i as int), name@),
        decreases table.len() - i,
    {
        let entry = table[i];
        proof {
            assert(lines.skip(i as int)[0] == (entry.0@, entry.1));
            assert(lines.skip(i as int).drop_first() == lines.skip(i + 1));
        }
        if is_word(name, entry.0) {
            return Some(entry.1);
        }
        i += 1;
    }
    None
}

/// Where the first `c` of a text stands; its length where it has none.
pub open spec fn spec_first_index(s: Seq<char>, c: char) -> nat
    decreases s.len(),
{
    if s.len() == 0 || s[0] == c {
        0
    } else {
        1 + spec_first_index(s.drop_first(), c)
    }
}

/// Where the first `c` of a text stands; its length where it has none.
pub fn first_index(s: &[char], c: char) -> (index: usize)
    ensures
        index == spec_first_index(s@, c),
        index <= s@.len(),
{
    let mut i: usize = 0;
    proof {
        assert(s@.skip(0) == s@);
    }
    while i < s.len() && s[i] != c
        invariant
            i <= s.len(),
            spec_first_index(s@, c) == i + spec_first_index(s@.skip(i as int), c),
        decreases s.len() - i,
    {
        proof {
            assert(s@.skip(i as int)[0] == s@[i as int]);
            assert(s@.skip(i as int).drop_first() == s@.skip(i + 1));
        }
        i += 1;
    }
    proof {
        if i < s.len() {
            assert(s@.skip(i as int)[0] == s@[i as int]);
        }
    }
    i
}

/// The number of characters at the start of a text that are no white space.
pub open spec fn spec_word_len(s: Seq<char>) -> nat
    decreases s.len(),
{
    if s.len() == 0 || spec_is_whitespace(s[0]) {
        0
    } else {
        1 + spec_word_len(s.drop_first())
    }
}

/// A word is no longer than the text it starts.
pub proof fn lemma_word_len_bound(s: Seq<char>)
    ensures
        spec_word_len(s) <= s.len(),
        s.len() > 0 && !spec_is_whitespace(s[0]) ==> spec_word_len(s) >= 1,
    decreases s.len(),
{
    if s.len() > 0 && !spec_is_whitespace(s[0]) {
        lemma_word_len_bound(s.drop_first());
    }
}

/// What is left of a text without the white space at its start is an end of
/// the text, and begins with a character that is no white space.
pub proof fn lemma_trim_start_is_end(s: Seq<char>)
    ensures
        spec_trim_start(s).len() <= s.len(),
        spec_trim_start(s) == s.skip(s.len() - spec_trim_start(s).len()),
        spec_trim_start(s).len() > 0 ==> !spec_is_whitespace(spec_trim_start(s)[0]),
    decreases s.len(),
{
    if s.len() > 0 && spec_is_whitespace(s[0]) {
        lemma_trim_start_is_end(s.drop_first());
        let rest = spec_trim_start(s);
        assert(s.drop_first().skip(s.len() - 1 - rest.len()) =~= s.skip(s.len() - rest.len()));
    } else {
        assert(s.skip(0) =~= s);
    }
}

/// The words of a text: its runs of characters that are no white space, in
/// order.
pub open spec fn spec_tokens(s: Seq<char>) -> Seq<Seq<char>>
    decreases s.len(),
{
    let rest = spec_trim_start(s);
    if rest.len() == 0 {
        Seq::empty()
    } else {
        proof {
            lemma_trim_start_is_end(s);
            lemma_word_len_bound(rest);
        }
        let n = spec_word_len(rest);
        seq![rest.take(n as int)] + spec_tokens(rest.skip(n as int))
    }
}

/// The contents of a list of texts.
pub open spec fn texts_view(texts: Seq<Vec<char>>) -> Seq<Seq<char>> {
    texts.map_values(|text: Vec<char>| text@)
}

/// Where the white space that begins at `from` ends.
fn skip_whitespace(s: &[char], from: usize) -> (to: usize)
    requires
        from <= s@.len(),
    ensures
        from <= to <= s@.len(),
        s@.skip(to as int) == spec_trim_start(s@.skip(from as int)),
{
    let mut to: usize = from;
    while to < s.len() && is_whitespace(s[to])
        invariant
            from <= to <= s.len(),
            spec_trim_start(s@.skip(from as int)) == spec_trim_start(s@.skip(to as int)),
        decreases s.len() - to,
    {
        proof {
            assert(s@.skip(to as int)[0] == s@[to as int]);
            assert(s@.skip(to as int).drop_first() == s@.skip(to + 1));
        }
        to += 1;
    }
    proof {
        if to < s.len() {
            assert(s@.skip(to as int)[0] == s@[to as int]);
        }
    }
    to
}

/// Where the word that begins at `from` ends.
fn word_end(s: &[char], from: usize) -> (to: usize)
    requires
        from <= s@.len(),
    ensures
        from <= to <= s@.len(),
        to - from == spec_word_len(s@.skip(from as int)),
{
    let mut to: usize = from;
    while to < s.len() && !is_whitespace(s[to])
        invariant
            from <= to <= s.len(),
            spec_word_len(s@.skip(from as int)) == (to - from) + spec_word_len(s@.skip(to as int)),
        decreases s.len() - to,
    {
        proof {
            assert(s@.skip(to as int)[0] == s@[to as int]);
            assert(s@.skip(to as int).drop_first() == s@.skip(to + 1));
        }
        to += 1;
    }
    proof {
        if to < s.len() {
            assert(s@.skip(to as int)[0] == s@[to as int]);
        }
    }
    to
}

/// Splits a text into its words.
pub fn tokens(s: &[char]) -> (words: Vec<Vec<char>>)
    ensures
        texts_view(words@) == spec_tokens(s@),
{
    let mut words: Vec<Vec<char>> = Vec::new();
    let mut i: usize = 0;
    proof {
        assert(s@.skip(0) == s@);
        assert(texts_view(words@) =~= Seq::empty());
    }
    loop
        invariant
            i <= s.len(),
            spec_tokens(s@) == texts_view(words@) + spec_tokens(s@.skip(i as int)),
        ensures
            texts_view(words@) == spec_tokens(s@),
        decreases s.len() - i,
    {
        let start = skip_whitespace(s, i);
        if start == s.len() {
            proof {
                assert(spec_trim_start(s@.skip(i as int)).len() == 0);
                assert(spec_tokens(s@.skip(i as int)) =~= Seq::empty());
            }
            break;
        }
        let end = word_end(s, start);
        let word = slice_to_vec(slice_subrange(s, start, end));
        proof {
            let rest = s@.skip(start as int);
            lemma_trim_start_is_end(s@.skip(i as int));
            lemma_word_len_bound(rest);
            assert(rest.take(end - start) =~= word@);
            assert(rest.skip(end - start) =~= s@.skip(end as int));
            assert(texts_view(words@.push(word)) =~= texts_view(words@).push(word@));
        }
        words.push(word);
        i = end;
    }
    words
}

} // verus!
