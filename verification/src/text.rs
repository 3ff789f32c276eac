//! Character-level text operations.
//!
//! Every function speaks of a string through its sequence of characters, never
//! through byte offsets, so no result can split a multi-byte character.

use vstd::prelude::*;
use vstd::string::*;

verus! {

/// Appending one character to a string: `String::push` adds the character at the
/// end and changes nothing else.
pub assume_specification[ String::push ](s: &mut String, c: char)
    ensures
        final(s)@ == old(s)@.push(c),
;

/// The characters with the Unicode `White_Space` property.
pub open spec fn white(c: char) -> bool {
    ||| '\u{9}' <= c <= '\u{d}'
    ||| c == ' '
    ||| c == '\u{85}'
    ||| c == '\u{a0}'
    ||| c == '\u{1680}'
    ||| '\u{2000}' <= c <= '\u{200a}'
    ||| c == '\u{2028}'
    ||| c == '\u{2029}'
    ||| c == '\u{202f}'
    ||| c == '\u{205f}'
    ||| c == '\u{3000}'
}

/// Whether a character is white space.
pub fn is_white(c: char) -> (r: bool)
    ensures
        r == white(c),
{
    ('\u{9}' <= c && c <= '\u{d}') || c == ' ' || c == '\u{85}' || c == '\u{a0}' || c == '\u{1680}'
        || ('\u{2000}' <= c && c <= '\u{200a}') || c == '\u{2028}' || c == '\u{2029}' || c
        == '\u{202f}' || c == '\u{205f}' || c == '\u{3000}'
}

/// The string without its leading white space.
pub open spec fn trim_start(s: Seq<char>) -> Seq<char>
    decreases s.len(),
{
    if s.len() > 0 && white(s[0]) {
        trim_start(s.skip(1))
    } else {
        s
    }
}

/// The string without its trailing white space.
pub open spec fn trim_end(s: Seq<char>) -> Seq<char>
    decreases s.len(),
{
    if s.len() > 0 && white(s.last()) {
        trim_end(s.drop_last())
    } else {
        s
    }
}

/// The string without white space at either end.
pub open spec fn trimmed(s: Seq<char>) -> Seq<char> {
    trim_end(trim_start(s))
}

/// The characters of a string as a vector.
pub fn chars_of(s: &str) -> (r: Vec<char>)
    ensures
        r@ == s@,
{
    let mut out: Vec<char> = Vec::new();
    for c in it: s.chars()
        invariant
            it.seq() == s@,
            out@ == s@.take(it.index() as int),
    {
        proof {
            assert(s@.take(it.index() as int).push(c) =~= s@.take(it.index() as int + 1));
        }
        out.push(c);
    }
    assert(s@.take(s@.len() as int) =~= s@);
    out
}

/// The string without white space at either end.
pub fn trim(s: &str) -> (r: &str)
    ensures
        r@ == trimmed(s@),
{
    let cs = chars_of(s);
    let n: usize = cs.len();
    let mut i: usize = 0;
    assert(cs@.skip(0) =~= cs@);
    while i < n && is_white(cs[i])
        invariant
            n == cs@.len(),
            i <= n,
            trim_start(cs@) == trim_start(cs@.skip(i as int)),
        decreases n - i,
    {
        assert(cs@.skip(i as int).skip(1) =~= cs@.skip(i as int + 1));
        i = i + 1;
    }
    let ghost rest = cs@.skip(i as int);
    assert(trim_start(cs@) == rest);
    let mut j: usize = n;
    assert(rest.take(rest.len() as int) =~= rest);
    while j > i && is_white(cs[j - 1])
        invariant
            n == cs@.len(),
            i <= j <= n,
            rest == cs@.skip(i as int),
            trim_end(rest) == trim_end(rest.take(j - i)),
        decreases j,
    {
        assert(rest.take(j - i).drop_last() =~= rest.take(j - i - 1));
        j = j - 1;
    }
    assert(rest.take(j - i) =~= s@.subrange(i as int, j as int));
    s.substring_char(i, j)
}

/// Two texts one after the other.
pub fn cat(a: &str, b: &str) -> (r: String)
    ensures
        r@ == a@ + b@,
{
    let mut out = a.to_owned();
    out.append(b);
    out
}

/// Three texts one after the other.
pub fn cat3(a: &str, b: &str, c: &str) -> (r: String)
    ensures
        r@ == a@ + b@ + c@,
{
    let mut out = cat(a, b);
    out.append(c);
    out
}

/// Whether two texts are the same.
pub fn same(a: &str, b: &str) -> (r: bool)
    ensures
        r == (a@ == b@),
{
    a.to_owned() == b.to_owned()
}

/// Whether `list` holds a text.
pub open spec fn holds_text(list: Seq<String>, text: Seq<char>) -> bool {
    exists|i: int| 0 <= i < list.len() && (#[trigger] list[i])@ == text
}

/// Whether `list` holds a text.
pub fn contains_text(list: &Vec<String>, text: &str) -> (r: bool)
    ensures
        r == holds_text(list@, text@),
{
    let mut i: usize = 0;
    while i < list.len()
        invariant
            i <= list@.len(),
            forall|k: int| 0 <= k < i ==> (#[trigger] list@[k])@ != text@,
        decreases list@.len() - i,
    {
        if same(list[i].as_str(), text) {
            return true;
        }
        i = i + 1;
    }
    false
}

/// A copy of a list of strings.
pub fn copy_strings(list: &Vec<String>) -> (r: Vec<String>)
    ensures
        r@ == list@,
{
    let mut out: Vec<String> = Vec::new();
    let mut i: usize = 0;
    while i < list.len()
        invariant
            i <= list@.len(),
            out@ =~= list@.take(i as int),
        decreases list@.len() - i,
    {
        out.push(list[i].clone());
        i = i + 1;
    }
    out
}

/// A list that grows by a string holds that text besides what it held.
pub proof fn holds_text_push(list: Seq<String>, s: String)
    ensures
        forall|t: Seq<char>| #[trigger]
            holds_text(list.push(s), t) <==> holds_text(list, t) || t == s@,
{
    let grown = list.push(s);
    assert forall|t: Seq<char>| #[trigger]
        holds_text(grown, t) <==> holds_text(list, t) || t == s@ by {
        if holds_text(list, t) {
            let i = choose|i: int| 0 <= i < list.len() && (#[trigger] list[i])@ == t;
            assert(grown[i]@ == t);
        }
        if t == s@ {
            assert(grown[list.len() as int]@ == t);
        }
        if holds_text(grown, t) && t != s@ {
            let i = choose|i: int| 0 <= i < grown.len() && (#[trigger] grown[i])@ == t;
            assert(list[i]@ == t);
        }
    }
}

/// Whether a text begins with another.
pub open spec fn begins_with(s: Seq<char>, prefix: Seq<char>) -> bool {
    prefix.len() <= s.len() && s.take(prefix.len() as int) == prefix
}

/// Whether a text begins with another.
pub fn starts_with(s: &str, prefix: &str) -> (r: bool)
    ensures
        r == begins_with(s@, prefix@),
{
    let n: usize = prefix.unicode_len();
    if s.unicode_len() < n {
        false
    } else {
        let head = s.substring_char(0, n);
        assert(s@.subrange(0, n as int) =~= s@.take(n as int));
        same(head, prefix)
    }
}

/// The digit character of a number below ten.
pub open spec fn digit(d: nat) -> char {
    (48 + d) as char
}

/// A number in decimal notation, without leading zeros.
pub open spec fn decimal(n: nat) -> Seq<char>
    decreases n,
{
    if n < 10 {
        seq![digit(n)]
    } else {
        decimal(n / 10).push(digit(n % 10))
    }
}

/// The decimal form of a number is made of digits.
pub proof fn decimal_is_digits(n: nat)
    ensures
        decimal(n).len() > 0,
        forall|i: int| 0 <= i < decimal(n).len() ==> '0' <= #[trigger] decimal(n)[i] <= '9',
    decreases n,
{
    if n >= 10 {
        decimal_is_digits(n / 10);
    }
}

/// Different numbers have different decimal forms.
pub proof fn decimal_tells_numbers_apart(a: nat, b: nat)
    requires
        decimal(a) == decimal(b),
    ensures
        a == b,
    decreases a,
{
    if a >= 10 {
        decimal_is_digits(a / 10);
    }
    if b >= 10 {
        decimal_is_digits(b / 10);
    }
    assert(decimal(a).last() == digit(a % 10));
    assert(decimal(b).last() == digit(b % 10));
    assert(digit(a % 10) as u32 == 48 + a % 10);
    assert(digit(b % 10) as u32 == 48 + b % 10);
    assert(a < 10 ==> decimal(a).len() == 1);
    assert(b < 10 ==> decimal(b).len() == 1);
    if a >= 10 && b >= 10 {
        assert(decimal(a).drop_last() =~= decimal(a / 10));
        assert(decimal(b).drop_last() =~= decimal(b / 10));
        decimal_tells_numbers_apart(a / 10, b / 10);
    }
}

/// A number in decimal notation.
pub fn number_text(n: u128) -> (r: String)
    ensures
        r@ == decimal(n as nat),
    decreases n,
{
    let last: u8 = (n % 10) as u8;
    let c: char = (48u8 + last) as char;
    let mut out: String = if n < 10 {
        String::new()
    } else {
        number_text(n / 10)
    };
    out.push(c);
    proof {
        if n < 10 {
            assert(out@ =~= decimal(n as nat));
        }
    }
    out
}

/// The words of a text: its maximal runs of characters other than white space, in order.
pub open spec fn words(s: Seq<char>) -> Seq<Seq<char>>
    decreases s.len(),
{
    if s.len() == 0 {
        seq![]
    } else {
        let before = words(s.drop_last());
        if white(s.last()) {
            before
        } else if s.len() == 1 || white(s[s.len() - 2]) {
            before.push(seq![s.last()])
        } else {
            before.drop_last().push(before.last().push(s.last()))
        }
    }
}

/// Texts joined with a separator between each two.
pub open spec fn joined(parts: Seq<Seq<char>>, sep: Seq<char>) -> Seq<char>
    decreases parts.len(),
{
    if parts.len() == 0 {
        seq![]
    } else if parts.len() == 1 {
        parts[0]
    } else {
        joined(parts.drop_last(), sep) + sep + parts.last()
    }
}

/// The words of a text on one line, one space between each two.
pub open spec fn collapsed(s: Seq<char>) -> Seq<char> {
    joined(words(s), seq![' '])
}

/// The texts of a list of strings.
pub open spec fn texts(list: Seq<String>) -> Seq<Seq<char>> {
    list.map_values(|s: String| s@)
}

/// The strings of a list joined with a separator between each two.
pub fn join(parts: &Vec<String>, sep: &str) -> (r: String)
    ensures
        r@ == joined(texts(parts@), sep@),
{
    let ghost all = texts(parts@);
    let mut out = String::new();
    let mut i: usize = 0;
    assert(out@ =~= joined(all.take(0), sep@));
    while i < parts.len()
        invariant
            all == texts(parts@),
            i <= parts@.len(),
            out@ == joined(all.take(i as int), sep@),
        decreases parts@.len() - i,
    {
        let ghost next = all.take(i as int + 1);
        assert(next.drop_last() =~= all.take(i as int));
        if i > 0 {
            out.append(sep);
        }
        out.append(parts[i].as_str());
        assert(out@ =~= joined(next, sep@));
        i = i + 1;
    }
    assert(all.take(parts@.len() as int) =~= all);
    out
}

proof fn words_nonempty(s: Seq<char>)
    ensures
        s.len() > 0 && !white(s.last()) ==> words(s).len() > 0,
    decreases s.len(),
{
    if s.len() > 0 {
        words_nonempty(s.drop_last());
        if s.len() > 1 {
            assert(s.drop_last().last() == s[s.len() - 2]);
        }
    }
}

/// Growing the last word by a character grows the joined text by it.
proof fn joined_grows(parts: Seq<Seq<char>>, sep: Seq<char>, c: char)
    requires
        parts.len() > 0,
    ensures
        joined(parts.drop_last().push(parts.last().push(c)), sep) == joined(parts, sep).push(c),
{
    let grown = parts.drop_last().push(parts.last().push(c));
    assert(grown.drop_last() =~= parts.drop_last());
    if parts.len() == 1 {
    } else {
        assert(joined(grown, sep) =~= joined(parts, sep).push(c));
    }
}

/// The words of the first `n` characters on one line, one space between each two.
fn collapse_prefix(cs: &Vec<char>, n: usize) -> (r: String)
    requires
        n <= cs@.len(),
    ensures
        r@ == collapsed(cs@.take(n as int)),
{
    let mut out = String::new();
    let mut i: usize = 0;
    let mut in_word: bool = false;
    let mut any: bool = false;
    assert(words(cs@.take(0)).len() == 0);
    assert(out@ =~= collapsed(cs@.take(0)));
    while i < n
        invariant
            i <= n <= cs@.len(),
            out@ == collapsed(cs@.take(i as int)),
            any == (words(cs@.take(i as int)).len() > 0),
            in_word == (i > 0 && !white(cs@[i - 1])),
        decreases n - i,
    {
        let c: char = cs[i];
        let ghost head = cs@.take(i as int);
        let ghost next = cs@.take(i as int + 1);
        let ghost before = words(head);
        proof {
            assert(next.drop_last() =~= head);
            assert(next.last() == c);
            words_nonempty(head);
            if i > 0 {
                assert(next[next.len() - 2] == cs@[i - 1]);
                assert(head.last() == cs@[i - 1]);
            }
        }
        if is_white(c) {
            in_word = false;
        } else if in_word {
            out.push(c);
            proof {
                joined_grows(before, seq![' '], c);
            }
        } else {
            if any {
                out.push(' ');
            }
            out.push(c);
            proof {
                let after = before.push(seq![c]);
                assert(words(next) == after);
                assert(after.drop_last() =~= before);
                assert(out@ =~= joined(after, seq![' ']));
            }
            in_word = true;
            any = true;
        }
        i = i + 1;
    }
    out
}

/// A one-line preview: the first `max_chars + 50` characters collapsed to their words, cut
/// to `max_chars` characters and an ellipsis where that is longer.
pub open spec fn preview(output: Seq<char>, max_chars: nat) -> Seq<char> {
    let scanned = if output.len() > max_chars + 50 {
        output.take(max_chars as int + 50)
    } else {
        output
    };
    let line = collapsed(scanned);
    if line.len() > max_chars {
        line.take(max_chars as int) + "..."@
    } else {
        line
    }
}

/// Collapse a tool output string into a single-line preview for display.
pub fn truncate_for_preview(output: &str, max_chars: usize) -> (r: String)
    requires
        max_chars + 50 <= usize::MAX,
    ensures
        r@ == preview(output@, max_chars as nat),
{
    let cs = chars_of(output);
    let n: usize = if cs.len() > max_chars + 50 {
        max_chars + 50
    } else {
        cs.len()
    };
    assert(cs@.take(cs@.len() as int) =~= cs@);
    let line = collapse_prefix(&cs, n);
    if line.as_str().unicode_len() > max_chars {
        let head = line.as_str().substring_char(0, max_chars);
        assert(line@.subrange(0, max_chars as int) =~= line@.take(max_chars as int));
        cat(head, "...")
    } else {
        line
    }
}

/// Every character of a word is no white space.
proof fn words_are_dark(s: Seq<char>)
    ensures
        forall|i: int, k: int|
            0 <= i < words(s).len() && 0 <= k < words(s)[i].len() ==> !white(
                #[trigger] words(s)[i][k],
            ),
    decreases s.len(),
{
    if s.len() > 0 {
        words_are_dark(s.drop_last());
        words_nonempty(s.drop_last());
        if s.len() > 1 {
            assert(s.drop_last().last() == s[s.len() - 2]);
        }
        let before = words(s.drop_last());
        assert forall|i: int, k: int|
            0 <= i < words(s).len() && 0 <= k < words(s)[i].len() implies !white(
            #[trigger] words(s)[i][k],
        ) by {
            if i < before.len() && k < before[i].len() {
                assert(!white(before[i][k]));
            }
        }
    }
}

/// A character of the joined text stands in one of the parts or in a separator.
proof fn joined_chars(parts: Seq<Seq<char>>, sep: Seq<char>, k: int) -> (place: (int, int))
    requires
        0 <= k < joined(parts, sep).len(),
    ensures
        ({
            ||| 0 <= place.0 < parts.len() && 0 <= place.1 < parts[place.0].len()
                && parts[place.0][place.1] == joined(parts, sep)[k]
            ||| place.0 == -1 && 0 <= place.1 < sep.len() && sep[place.1] == joined(parts, sep)[k]
        }),
    decreases parts.len(),
{
    if parts.len() == 1 {
        (0, k)
    } else {
        let front = joined(parts.drop_last(), sep);
        if k < front.len() {
            joined_chars(parts.drop_last(), sep, k)
        } else if k < front.len() + sep.len() {
            (-1, k - front.len())
        } else {
            (parts.len() - 1, k - front.len() - sep.len())
        }
    }
}

/// A preview holds no white space but single spaces' own character: in particular no line
/// break, so it stays on one line.
pub proof fn preview_is_one_line(output: Seq<char>, max_chars: nat)
    ensures
        forall|k: int|
            #![trigger preview(output, max_chars)[k]]
            0 <= k < preview(output, max_chars).len() && white(preview(output, max_chars)[k])
                ==> preview(output, max_chars)[k] == ' ',
{
    reveal_strlit("...");
    let scanned = if output.len() > max_chars + 50 {
        output.take(max_chars as int + 50)
    } else {
        output
    };
    let line = collapsed(scanned);
    words_are_dark(scanned);
    assert forall|k: int| 0 <= k < line.len() && white(line[k]) implies line[k] == ' ' by {
        let place = joined_chars(words(scanned), seq![' '], k);
        if place.0 >= 0 {
            assert(!white(words(scanned)[place.0][place.1]));
        }
    }
    assert forall|k: int|
        0 <= k < preview(output, max_chars).len() && white(
            preview(output, max_chars)[k],
        ) implies preview(output, max_chars)[k] == ' ' by {
        if line.len() > max_chars && k >= max_chars {
            assert("..."@[k - max_chars] == '.');
        } else {
            assert(preview(output, max_chars)[k] == line[k]);
        }
    }
}

/// A preview is at most three characters longer than its limit, and longer than the limit
/// only where it was cut: it then ends in an ellipsis.
pub proof fn preview_is_bounded(output: Seq<char>, max_chars: nat)
    ensures
        preview(output, max_chars).len() <= max_chars + 3,
        preview(output, max_chars).len() > max_chars ==> preview(output, max_chars).skip(
            max_chars as int,
        ) == "..."@,
{
    reveal_strlit("...");
    let p = preview(output, max_chars);
    if p.len() > max_chars {
        assert(p.skip(max_chars as int) =~= "..."@);
    }
}

/// What stands before the first occurrence of a character; the whole text where there is
/// none.
pub open spec fn head_until(s: Seq<char>, c: char) -> Seq<char>
    decreases s.len(),
{
    if s.len() == 0 || s[0] == c {
        seq![]
    } else {
        seq![s[0]] + head_until(s.skip(1), c)
    }
}

/// The parts of a text between the occurrences of a character.
pub open spec fn segments(s: Seq<char>, c: char) -> Seq<Seq<char>>
    decreases s.len(),
{
    let head = head_until(s, c);
    if head.len() >= s.len() {
        seq![s]
    } else {
        seq![head] + segments(s.skip(head.len() as int + 1), c)
    }
}

/// The head of a text is what stands before the first occurrence of the character.
pub proof fn head_until_is_prefix(s: Seq<char>, c: char)
    ensures
        head_until(s, c).len() <= s.len(),
        head_until(s, c) == s.take(head_until(s, c).len() as int),
        head_until(s, c).len() < s.len() ==> s[head_until(s, c).len() as int] == c,
        forall|k: int| 0 <= k < head_until(s, c).len() ==> s[k] != c,
    decreases s.len(),
{
    if s.len() == 0 || s[0] == c {
        assert(s.take(0) =~= seq![]);
    } else {
        let rest = s.skip(1);
        head_until_is_prefix(rest, c);
        let n = head_until(rest, c).len() as int;
        assert(head_until(s, c) =~= s.take(n + 1));
        assert forall|k: int| 0 <= k < n + 1 implies s[k] != c by {
            if k > 0 {
                assert(rest[k - 1] == s[k]);
            }
        }
    }
}

/// A prefix without the character, up to the character or the end, is the head.
pub proof fn head_until_found(s: Seq<char>, c: char, n: int)
    requires
        0 <= n <= s.len(),
        forall|k: int| 0 <= k < n ==> s[k] != c,
        n < s.len() ==> s[n] == c,
    ensures
        head_until(s, c) == s.take(n),
{
    head_until_is_prefix(s, c);
    let m = head_until(s, c).len() as int;
    if m < n {
        assert(s[m] == c);
    }
    if n < m {
        assert(s[n] == c);
    }
}

/// How many characters stand before the first occurrence of a character.
pub fn head_length(s: &str, c: char) -> (r: usize)
    ensures
        r == head_until(s@, c).len(),
        r <= s@.len(),
        head_until(s@, c) == s@.take(r as int),
{
    let cs = chars_of(s);
    let mut i: usize = 0;
    while i < cs.len() && cs[i] != c
        invariant
            i <= cs@.len(),
            forall|k: int| 0 <= k < i ==> cs@[k] != c,
        decreases cs@.len() - i,
    {
        i = i + 1;
    }
    proof {
        head_until_found(cs@, c, i as int);
    }
    i
}

/// The text from character `from` on.
pub fn tail(s: &str, from: usize) -> (r: &str)
    requires
        from <= s@.len(),
    ensures
        r@ == s@.skip(from as int),
{
    let n: usize = s.unicode_len();
    assert(s@.subrange(from as int, n as int) =~= s@.skip(from as int));
    s.substring_char(from, n)
}

/// The first `to` characters of the text.
pub fn head(s: &str, to: usize) -> (r: &str)
    requires
        to <= s@.len(),
    ensures
        r@ == s@.take(to as int),
{
    assert(s@.subrange(0, to as int) =~= s@.take(to as int));
    s.substring_char(0, to)
}

/// An upper-case letter of ASCII as its lower-case letter, any other character as it is.
pub open spec fn ascii_lower(c: char) -> char {
    if 'A' <= c <= 'Z' {
        (c as u32 + 32) as char
    } else {
        c
    }
}

/// Two texts that differ at most in the case of ASCII letters.
pub open spec fn same_ignoring_case(a: Seq<char>, b: Seq<char>) -> bool {
    a.len() == b.len() && forall|i: int|
        0 <= i < a.len() ==> ascii_lower(#[trigger] a[i]) == ascii_lower(b[i])
}

fn to_ascii_lower(c: char) -> (r: char)
    ensures
        r == ascii_lower(c),
{
    if 'A' <= c && c <= 'Z' {
        let code: u8 = c as u8;
        (code + 32) as char
    } else {
        c
    }
}

/// Whether two texts differ at most in the case of ASCII letters.
pub fn eq_ignore_ascii_case(a: &str, b: &str) -> (r: bool)
    ensures
        r == same_ignoring_case(a@, b@),
{
    let x = chars_of(a);
    let y = chars_of(b);
    if x.len() != y.len() {
        return false;
    }
    let mut i: usize = 0;
    while i < x.len()
        invariant
            i <= x@.len(),
            x@.len() == y@.len(),
            x@ == a@,
            y@ == b@,
            forall|k: int| 0 <= k < i ==> ascii_lower(#[trigger] x@[k]) == ascii_lower(y@[k]),
        decreases x@.len() - i,
    {
        if to_ascii_lower(x[i]) != to_ascii_lower(y[i]) {
            assert(ascii_lower(a@[i as int]) != ascii_lower(b@[i as int]));
            return false;
        }
        i = i + 1;
    }
    true
}

/// Some part of the text between the separators is the word, in any case.
pub open spec fn has_segment(s: Seq<char>, sep: char, word: Seq<char>) -> bool {
    exists|i: int|
        0 <= i < segments(s, sep).len() && same_ignoring_case(#[trigger] segments(s, sep)[i], word)
}

/// Whether some part of the text between the separators is the word, in any case.
pub fn any_segment_is(s: &str, sep: char, word: &str) -> (r: bool)
    ensures
        r == has_segment(s@, sep, word@),
    decreases s@.len(),
{
    let n: usize = head_length(s, sep);
    let ghost all = segments(s@, sep);
    if n >= s.unicode_len() {
        assert(all =~= seq![s@]);
        let found = eq_ignore_ascii_case(s, word);
        proof {
            if found {
                assert(same_ignoring_case(all[0], word@));
            }
        }
        found
    } else {
        let ghost rest = segments(s@.skip(n as int + 1), sep);
        assert(all == seq![s@.take(n as int)] + rest);
        if eq_ignore_ascii_case(head(s, n), word) {
            assert(same_ignoring_case(all[0], word@));
            true
        } else {
            let found = any_segment_is(tail(s, n + 1), sep, word);
            proof {
                if found {
                    let i = choose|i: int|
                        0 <= i < rest.len() && same_ignoring_case(#[trigger] rest[i], word@);
                    assert(all[i + 1] == rest[i]);
                }
                if has_segment(s@, sep, word@) {
                    let i = choose|i: int|
                        0 <= i < all.len() && same_ignoring_case(#[trigger] all[i], word@);
                    assert(i > 0);
                    assert(rest[i - 1] == all[i]);
                }
            }
            found
        }
    }
}

/// Visible characters of ASCII are no white space; the space, tabs and line breaks are.
pub proof fn visible_characters_are_dark(c: char)
    ensures
        '!' <= c <= '~' ==> !white(c),
        c == ' ' || c == '\t' || c == '\n' || c == '\r' ==> white(c),
{
}

proof fn trim_start_splits(s: Seq<char>)
    ensures
        trim_start(s).len() <= s.len(),
        trim_start(s) == s.skip(s.len() - trim_start(s).len()),
        forall|i: int| 0 <= i < s.len() - trim_start(s).len() ==> white(#[trigger] s[i]),
        trim_start(s).len() > 0 ==> !white(trim_start(s)[0]),
    decreases s.len(),
{
    if s.len() > 0 && white(s[0]) {
        let rest = s.skip(1);
        trim_start_splits(rest);
        let n = trim_start(s).len();
        assert(rest.skip(rest.len() - n) =~= s.skip(s.len() - n));
        assert forall|i: int| 0 <= i < s.len() - n implies white(#[trigger] s[i]) by {
            if i > 0 {
                assert(rest[i - 1] == s[i]);
            }
        }
    } else {
        assert(s.skip(0) =~= s);
    }
}

proof fn trim_end_splits(s: Seq<char>)
    ensures
        trim_end(s).len() <= s.len(),
        trim_end(s) == s.take(trim_end(s).len() as int),
        forall|i: int| trim_end(s).len() <= i < s.len() ==> white(#[trigger] s[i]),
        trim_end(s).len() > 0 ==> !white(trim_end(s).last()),
    decreases s.len(),
{
    if s.len() > 0 && white(s.last()) {
        let front = s.drop_last();
        trim_end_splits(front);
        let n = trim_end(s).len() as int;
        assert(front.take(n) =~= s.take(n));
        assert forall|i: int| n <= i < s.len() implies white(#[trigger] s[i]) by {
            if i < front.len() {
                assert(front[i] == s[i]);
            }
        }
    } else {
        assert(s.take(s.len() as int) =~= s);
    }
}

/// Trimming takes white space off both ends, all of it and nothing else: what is left stands
/// in the text between white space, and neither begins nor ends with any.
pub proof fn trimming_takes_white_space_off(s: Seq<char>) -> (r: (int, int))
    ensures
        0 <= r.0 <= r.1 <= s.len(),
        trimmed(s) == s.subrange(r.0, r.1),
        forall|i: int| 0 <= i < r.0 || r.1 <= i < s.len() ==> white(#[trigger] s[i]),
        trimmed(s).len() > 0 ==> !white(trimmed(s)[0]) && !white(trimmed(s).last()),
{
    let t = trim_start(s);
    trim_start_splits(s);
    trim_end_splits(t);
    let a = s.len() - t.len();
    let b = a + trim_end(t).len();
    assert(trimmed(s) =~= s.subrange(a, b));
    assert forall|i: int| 0 <= i < a || b <= i < s.len() implies white(#[trigger] s[i]) by {
        if b <= i {
            assert(t[i - a] == s[i]);
        }
    }
    if trimmed(s).len() > 0 {
        assert(trimmed(s)[0] == t[0]);
    }
    (a, b)
}

/// A text without white space at its ends stays as it is when it is trimmed.
pub proof fn trimmed_text_stays(s: Seq<char>)
    requires
        s.len() > 0 ==> !white(s[0]) && !white(s.last()),
    ensures
        trimmed(s) == s,
{
}

/// A text begins with another exactly where it is that one with something after it.
pub proof fn beginnings_are_prefixes(s: Seq<char>, prefix: Seq<char>, rest: Seq<char>)
    ensures
        begins_with(prefix + rest, prefix),
        begins_with(s, prefix) ==> s == prefix + s.skip(prefix.len() as int),
{
    assert((prefix + rest).take(prefix.len() as int) =~= prefix);
    if begins_with(s, prefix) {
        assert(s =~= s.take(prefix.len() as int) + s.skip(prefix.len() as int));
    }
}

/// The number that a text of digits spells.
pub open spec fn spelled(s: Seq<char>) -> int
    decreases s.len(),
{
    if s.len() == 0 {
        0
    } else {
        10 * spelled(s.drop_last()) + (s.last() as int - '0' as int)
    }
}

/// The decimal form of a number spells that number, and has no leading zero.
pub proof fn decimal_reads_back(n: nat)
    ensures
        spelled(decimal(n)) == n,
        n > 0 ==> decimal(n)[0] != '0',
    decreases n,
{
    if n < 10 {
        let s = decimal(n);
        assert(s.drop_last() =~= Seq::<char>::empty());
        assert(spelled(s.drop_last()) == 0);
        assert(s.last() as int == 48 + n);
    } else {
        decimal_reads_back(n / 10);
        decimal_is_digits(n / 10);
        let s = decimal(n);
        assert(s.drop_last() =~= decimal(n / 10));
        assert(s.last() as int == 48 + n % 10);
        assert(s[0] == decimal(n / 10)[0]);
    }
}

/// Joining goes on at the end: a further part follows a separator, unless it is the first.
pub proof fn joining_goes_on(parts: Seq<Seq<char>>, next: Seq<char>, sep: Seq<char>)
    ensures
        parts.len() == 0 ==> joined(parts, sep).len() == 0 && joined(parts.push(next), sep) == next,
        parts.len() > 0 ==> joined(parts.push(next), sep) == joined(parts, sep) + sep + next,
{
    assert(parts.push(next).drop_last() =~= parts);
}

/// The characters of a text other than white space.
pub open spec fn dark(s: Seq<char>) -> Seq<char>
    decreases s.len(),
{
    if s.len() == 0 {
        seq![]
    } else if white(s.last()) {
        dark(s.drop_last())
    } else {
        dark(s.drop_last()).push(s.last())
    }
}

proof fn dark_push(s: Seq<char>, c: char)
    ensures
        dark(s.push(c)) == if white(c) {
            dark(s)
        } else {
            dark(s).push(c)
        },
{
    assert(s.push(c).drop_last() =~= s);
}

/// Putting a text on one line changes its white space only: every other character is kept, in
/// order.
pub proof fn one_line_keeps_the_characters(s: Seq<char>)
    ensures
        dark(collapsed(s)) == dark(s),
    decreases s.len(),
{
    if s.len() > 0 {
        let front = s.drop_last();
        let c = s.last();
        one_line_keeps_the_characters(front);
        words_nonempty(front);
        let before = words(front);
        let line = collapsed(front);
        if white(c) {
        } else if s.len() == 1 || white(s[s.len() - 2]) {
            let after = before.push(seq![c]);
            assert(after.drop_last() =~= before);
            if before.len() == 0 {
                assert(collapsed(s) =~= line.push(c));
                dark_push(line, c);
            } else {
                assert(collapsed(s) =~= line.push(' ').push(c));
                dark_push(line, ' ');
                dark_push(line.push(' '), c);
            }
        } else {
            assert(front.last() == s[s.len() - 2]);
            joined_grows(before, seq![' '], c);
            dark_push(line, c);
        }
    } else {
        assert(collapsed(s).len() == 0);
        assert(dark(collapsed(s)) =~= dark(s));
    }
}

/// A text that is on one line already: no white space at its beginning, and none in it but
/// single spaces.
pub open spec fn on_one_line(s: Seq<char>) -> bool {
    &&& s.len() > 0 ==> !white(s[0])
    &&& forall|i: int| 0 <= i < s.len() && white(#[trigger] s[i]) ==> s[i] == ' '
    &&& forall|i: int, j: int|
        0 <= i < s.len() && j == i + 1 && j < s.len() && white(#[trigger] s[i]) ==> !white(
            #[trigger] s[j],
        )
}

proof fn one_line_stays(s: Seq<char>)
    requires
        on_one_line(s),
    ensures
        s.len() > 0 && white(s.last()) ==> collapsed(s) == s.drop_last(),
        s.len() == 0 || !white(s.last()) ==> collapsed(s) == s,
    decreases s.len(),
{
    if s.len() == 0 {
        assert(collapsed(s) =~= s);
    } else {
        let front = s.drop_last();
        let c = s.last();
        assert forall|i: int| 0 <= i < front.len() implies #[trigger] front[i] == s[i] by {}
        assert(on_one_line(front)) by {
            assert forall|i: int, j: int|
                0 <= i < front.len() && j == i + 1 && j < front.len() && white(
                    #[trigger] front[i],
                ) implies !white(#[trigger] front[j]) by {
                assert(white(s[i]));
                assert(!white(s[j]));
            }
        }
        one_line_stays(front);
        words_nonempty(front);
        let before = words(front);
        if front.len() > 0 {
            assert(front.last() == s[s.len() - 2]);
        }
        if white(c) {
            assert(front.len() > 0);
            assert(!white(s[s.len() - 2])) by {
                if white(s[s.len() - 2]) {
                    assert(!white(s[s.len() - 1]));
                }
            }
        } else if s.len() == 1 || white(s[s.len() - 2]) {
            let after = before.push(seq![c]);
            assert(after.drop_last() =~= before);
            if front.len() == 0 {
                assert(before.len() == 0);
                assert(collapsed(s) =~= s);
            } else {
                let core = front.drop_last();
                assert(core.len() > 0);
                assert(!white(core.last())) by {
                    assert(core.last() == s[s.len() - 3]);
                    if white(s[s.len() - 3]) {
                        assert(!white(s[s.len() - 2]));
                    }
                }
                words_nonempty(core);
                assert(before == words(core));
                assert(s[s.len() - 2] == ' ');
                assert(collapsed(s) =~= s);
            }
        } else {
            joined_grows(before, seq![' '], c);
            assert(collapsed(s) =~= s);
        }
    }
}

/// A text that is on one line and short enough is its own preview; a longer one is cut to its
/// first characters, with an ellipsis after them.
pub proof fn previews_begin_like_the_text(s: Seq<char>, max_chars: nat)
    requires
        on_one_line(s),
        s.len() > 0 ==> !white(s.last()),
    ensures
        s.len() <= max_chars ==> preview(s, max_chars) == s,
        s.len() > max_chars ==> preview(s, max_chars) == s.take(max_chars as int) + "..."@,
{
    one_line_stays(s);
    if s.len() > max_chars + 50 {
        let scanned = s.take(max_chars as int + 50);
        assert forall|i: int| 0 <= i < scanned.len() implies #[trigger] scanned[i] == s[i] by {}
        assert(on_one_line(scanned)) by {
            assert forall|i: int, j: int|
                0 <= i < scanned.len() && j == i + 1 && j < scanned.len() && white(
                    #[trigger] scanned[i],
                ) implies !white(#[trigger] scanned[j]) by {
                assert(white(s[i]));
                assert(!white(s[j]));
            }
        }
        one_line_stays(scanned);
        let line = collapsed(scanned);
        assert(line.take(max_chars as int) =~= s.take(max_chars as int));
    }
}

/// The parts of a text between the separators, put together again, are the text, and no part
/// has a separator in it.
pub proof fn segments_make_up_the_text(s: Seq<char>, c: char)
    ensures
        segments(s, c).len() > 0,
        joined(segments(s, c), seq![c]) == s,
        forall|i: int, k: int|
            0 <= i < segments(s, c).len() && 0 <= k < segments(s, c)[i].len()
                ==> #[trigger] segments(s, c)[i][k] != c,
    decreases s.len(),
{
    head_until_is_prefix(s, c);
    let n = head_until(s, c).len() as int;
    let all = segments(s, c);
    if n >= s.len() {
        assert(all[0] == s);
    } else {
        let rest = s.skip(n + 1);
        segments_make_up_the_text(rest, c);
        let more = segments(rest, c);
        joined_cons(s.take(n), more, seq![c]);
        assert(all == seq![s.take(n)] + more);
        assert(joined(all, seq![c]) =~= s);
        assert forall|i: int, k: int|
            0 <= i < all.len() && 0 <= k < all[i].len() implies #[trigger] all[i][k] != c by {
            if i == 0 {
                assert(all[0][k] == s[k]);
            } else {
                assert(all[i] == more[i - 1]);
                assert(more[i - 1][k] != c);
            }
        }
    }
}

proof fn joined_cons(first: Seq<char>, rest: Seq<Seq<char>>, sep: Seq<char>)
    requires
        rest.len() > 0,
    ensures
        joined(seq![first] + rest, sep) == first + sep + joined(rest, sep),
    decreases rest.len(),
{
    let all = seq![first] + rest;
    assert(all.drop_last() =~= seq![first] + rest.drop_last());
    assert(all.last() == rest.last());
    if rest.len() == 1 {
        assert(all.drop_last() =~= seq![first]);
        assert(joined(all.drop_last(), sep) == first);
        assert(joined(all, sep) =~= first + sep + joined(rest, sep));
    } else {
        joined_cons(first, rest.drop_last(), sep);
        assert(joined(all, sep) =~= first + sep + joined(rest, sep));
    }
}

/// Case is ignored for the letters of ASCII and for nothing else: a letter is the same as
/// itself in the other case, and any other character as itself alone.
pub proof fn only_case_is_ignored(a: char, b: char)
    ensures
        same_ignoring_case(seq![a], seq![b]) <==> {
            ||| a == b
            ||| 'A' <= a <= 'Z' && b as int == a as int + 32
            ||| 'A' <= b <= 'Z' && a as int == b as int + 32
        },
        ('a' <= a <= 'z') ==> ascii_lower(a) == a,
{
    let x = seq![a];
    let y = seq![b];
    assert(x[0] == a && y[0] == b);
    if 'A' <= a <= 'Z' {
        assert(ascii_lower(a) as int == a as int + 32);
    }
    if 'A' <= b <= 'Z' {
        assert(ascii_lower(b) as int == b as int + 32);
    }
    if same_ignoring_case(x, y) {
        assert(ascii_lower(x[0]) == ascii_lower(y[0]));
    }
}

/// Whether two texts are the same in any case is a matter of their characters, one by one.
pub proof fn case_is_ignored_everywhere(a: Seq<char>, b: Seq<char>, x: char, y: char)
    ensures
        same_ignoring_case(a.push(x), b.push(y)) <==> same_ignoring_case(a, b)
            && same_ignoring_case(seq![x], seq![y]),
        same_ignoring_case(a, a),
        same_ignoring_case(a, b) ==> a.len() == b.len() && same_ignoring_case(b, a),
{
    let p = a.push(x);
    let q = b.push(y);
    assert(seq![x][0] == x && seq![y][0] == y);
    if same_ignoring_case(p, q) {
        assert(ascii_lower(p[a.len() as int]) == ascii_lower(q[a.len() as int]));
        assert forall|i: int| 0 <= i < a.len() implies ascii_lower(#[trigger] a[i]) == ascii_lower(
            b[i],
        ) by {
            assert(p[i] == a[i] && q[i] == b[i]);
        }
    }
    if same_ignoring_case(a, b) && same_ignoring_case(seq![x], seq![y]) {
        assert(ascii_lower(seq![x][0]) == ascii_lower(seq![y][0]));
        assert forall|i: int| 0 <= i < p.len() implies ascii_lower(#[trigger] p[i]) == ascii_lower(
            q[i],
        ) by {
            if i < a.len() {
                assert(p[i] == a[i] && q[i] == b[i]);
            }
        }
    }
    if same_ignoring_case(a, b) {
        assert forall|i: int| 0 <= i < b.len() implies ascii_lower(#[trigger] b[i]) == ascii_lower(
            a[i],
        ) by {
            assert(ascii_lower(a[i]) == ascii_lower(b[i]));
        }
    }
}

/// A word in any case is found between separators, wherever it stands: at the beginning, at
/// the end or alone.
pub proof fn words_are_found_between_separators(
    head: Seq<char>,
    word: Seq<char>,
    wanted: Seq<char>,
    sep: char,
)
    requires
        same_ignoring_case(word, wanted),
        forall|i: int| 0 <= i < word.len() ==> #[trigger] word[i] != sep,
        forall|i: int| 0 <= i < head.len() ==> #[trigger] head[i] != sep,
    ensures
        has_segment(word, sep, wanted),
        has_segment(head + seq![sep] + word, sep, wanted),
        has_segment(word + seq![sep] + head, sep, wanted),
{
    head_until_found(word, sep, word.len() as int);
    assert(word.take(word.len() as int) =~= word);
    assert(same_ignoring_case(segments(word, sep)[0], wanted));
    let a = head + seq![sep] + word;
    assert(a[head.len() as int] == sep);
    head_until_found(a, sep, head.len() as int);
    assert(a.skip(head.len() as int + 1) =~= word);
    assert(segments(a, sep)[1] == segments(word, sep)[0]);
    assert(same_ignoring_case(segments(a, sep)[1], wanted));
    let b = word + seq![sep] + head;
    assert(b[word.len() as int] == sep);
    head_until_found(b, sep, word.len() as int);
    assert(b.take(word.len() as int) =~= word);
    assert(segments(b, sep)[0] == word);
    assert(same_ignoring_case(segments(b, sep)[0], wanted));
}

/// White space around a text is dropped when it is trimmed, and nothing else.
pub proof fn white_space_around_is_dropped(before: Seq<char>, s: Seq<char>, after: Seq<char>)
    requires
        s.len() > 0,
        !white(s[0]),
        !white(s.last()),
        forall|i: int| 0 <= i < before.len() ==> white(#[trigger] before[i]),
        forall|i: int| 0 <= i < after.len() ==> white(#[trigger] after[i]),
    ensures
        trimmed(before + s + after) == s,
{
    let all = before + s + after;
    let a = before.len() as int;
    let b = a + s.len();
    let r = trimming_takes_white_space_off(all);
    assert(all[a] == s[0]);
    assert(all[b - 1] == s.last());
    assert(r.0 <= a);
    assert(r.1 >= b);
    let t = trimmed(all);
    assert(t[0] == all[r.0]);
    assert(t.last() == all[r.1 - 1]);
    if r.0 < a {
        assert(all[r.0] == before[r.0]);
    }
    if r.1 > b {
        assert(all[r.1 - 1] == after[r.1 - 1 - b]);
    }
    assert(all.subrange(a, b) =~= s);
}

/// White space at the ends of a text counts for nothing.
pub proof fn dark_ignores_white_space(s: Seq<char>, a: int, b: int)
    requires
        0 <= a <= b <= s.len(),
        forall|i: int| 0 <= i < a || b <= i < s.len() ==> white(#[trigger] s[i]),
    ensures
        dark(s) == dark(s.subrange(a, b)),
    decreases s.len(),
{
    if s.len() > b {
        let front = s.drop_last();
        assert(white(s[s.len() - 1]));
        assert forall|i: int| 0 <= i < a || b <= i < front.len() implies white(
            #[trigger] front[i],
        ) by {
            assert(front[i] == s[i]);
        }
        dark_ignores_white_space(front, a, b);
        assert(front.subrange(a, b) =~= s.subrange(a, b));
    } else if b > a {
        let front = s.drop_last();
        assert forall|i: int| 0 <= i < a || b - 1 <= i < front.len() implies white(
            #[trigger] front[i],
        ) by {
            assert(front[i] == s[i]);
        }
        dark_ignores_white_space(front, a, b - 1);
        assert(s.subrange(a, b).drop_last() =~= front.subrange(a, b - 1));
    } else if s.len() > 0 {
        let front = s.drop_last();
        assert(white(s[s.len() - 1]));
        assert forall|i: int| 0 <= i < a - 1 || a - 1 <= i < front.len() implies white(
            #[trigger] front[i],
        ) by {
            assert(front[i] == s[i]);
        }
        dark_ignores_white_space(front, a - 1, a - 1);
        assert(front.subrange(a - 1, a - 1) =~= s.subrange(a, b));
    } else {
        assert(s.subrange(a, b) =~= s);
    }
}

/// A text without white space is all that counts of it.
pub proof fn dark_of_dark(s: Seq<char>)
    requires
        forall|i: int| 0 <= i < s.len() ==> !white(#[trigger] s[i]),
    ensures
        dark(s) == s,
    decreases s.len(),
{
    if s.len() > 0 {
        let front = s.drop_last();
        assert forall|i: int| 0 <= i < front.len() implies !white(#[trigger] front[i]) by {
            assert(front[i] == s[i]);
        }
        dark_of_dark(front);
        assert(dark(s) =~= s);
    } else {
        assert(dark(s) =~= s);
    }
}

} // verus!
