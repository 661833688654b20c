//! Text building blocks: decimal numerals, searching, splitting and trimming.
//!
//! Every function is specified over the sequence of characters that a string
//! holds.

use vstd::prelude::*;
use vstd::string::*;

verus! {

/// The decimal digit `d`.
pub open spec fn digit(d: nat) -> char {
    (48 + d) as char
}

/// The decimal numeral of `n`, without leading zeros.
pub open spec fn decimal(n: nat) -> Seq<char>
    decreases n,
{
    if n < 10 {
        seq![digit(n)]
    } else {
        decimal(n / 10).push(digit(n % 10))
    }
}

/// The decimal numeral of `n`, filled up with one zero to two digits.
pub open spec fn padded(n: nat) -> Seq<char> {
    if n < 10 {
        seq!['0', digit(n)]
    } else {
        decimal(n)
    }
}

/// Appends the digit `d` to `out`.
fn push_digit(out: &mut String, d: u64)
    requires
        d < 10,
    ensures
        final(out)@ == old(out)@.push(digit(d as nat)),
{
    proof {
        reveal_strlit("0");
        reveal_strlit("1");
        reveal_strlit("2");
        reveal_strlit("3");
        reveal_strlit("4");
        reveal_strlit("5");
        reveal_strlit("6");
        reveal_strlit("7");
        reveal_strlit("8");
        reveal_strlit("9");
    }
    let ghost before = out@;
    let numeral: &str = if d == 0 {
        "0"
    } else if d == 1 {
        "1"
    } else if d == 2 {
        "2"
    } else if d == 3 {
        "3"
    } else if d == 4 {
        "4"
    } else if d == 5 {
        "5"
    } else if d == 6 {
        "6"
    } else if d == 7 {
        "7"
    } else if d == 8 {
        "8"
    } else {
        "9"
    };
    out.append(numeral);
    assert(out@ =~= before.push(digit(d as nat)));
}

/// Appends the decimal numeral of `n` to `out`.
pub fn push_decimal(out: &mut String, n: u64)
    ensures
        final(out)@ == old(out)@ + decimal(n as nat),
    decreases n,
{
    if n >= 10 {
        push_decimal(out, n / 10);
    }
    push_digit(out, n % 10);
    assert(out@ =~= old(out)@ + decimal(n as nat));
}

/// The decimal numeral of `n`.
pub fn decimal_string(n: u64) -> (text: String)
    ensures
        text@ == decimal(n as nat),
{
    let mut out = String::new();
    push_decimal(&mut out, n);
    assert(out@ =~= decimal(n as nat));
    out
}

/// The decimal numeral of `n` in two digits at least.
pub fn padded_string(n: u64) -> (text: String)
    ensures
        text@ == padded(n as nat),
{
    let mut out = String::new();
    if n < 10 {
        push_digit(&mut out, 0);
    }
    push_decimal(&mut out, n);
    assert(out@ =~= padded(n as nat));
    out
}

/// `s` without the run of `c` that it ends in.
pub open spec fn trim_end(s: Seq<char>, c: char) -> Seq<char>
    decreases s.len(),
{
    if s.len() > 0 && s.last() == c {
        trim_end(s.drop_last(), c)
    } else {
        s
    }
}

/// The characters of `s`.
pub fn characters(s: &str) -> (chars: Vec<char>)
    ensures
        chars@ == s@,
{
    let mut chars: Vec<char> = Vec::new();
    for c in iter: s.chars()
        invariant
            iter.seq() == s@,
            chars@ == s@.take(iter.index() as int),
    {
        chars.push(c);
        assert(s@.take(iter.index() + 1) =~= s@.take(iter.index() as int).push(c));
    }
    assert(s@.take(s@.len() as int) =~= s@);
    chars
}

/// The text of the characters of `s` from `from` up to `to`.
pub fn slice(s: &str, from: usize, to: usize) -> (text: String)
    requires
        from <= to <= s@.len(),
    ensures
        text@ == s@.subrange(from as int, to as int),
{
    s.substring_char(from, to).to_owned()
}

/// `s` without the run of `c` that it ends in.
pub fn trim_end_char(s: &str, c: char) -> (text: String)
    ensures
        text@ == trim_end(s@, c),
{
    let chars = characters(s);
    let mut end: usize = chars.len();
    assert(s@.take(s@.len() as int) =~= s@);
    while end > 0 && chars[end - 1] == c
        invariant
            end <= chars.len(),
            chars@ == s@,
            trim_end(s@, c) == trim_end(s@.take(end as int), c),
        decreases end,
    {
        assert(s@.take(end as int).drop_last() =~= s@.take(end - 1));
        end = end - 1;
    }
    assert(s@.take(end as int) =~= s@.subrange(0, end as int));
    slice(s, 0, end)
}

/// What `trim_end` drops, seen from the character in front of it.
pub proof fn trim_end_of_push(s: Seq<char>, x: char, c: char)
    ensures
        trim_end(s.push(x), c) == if x == c {
            trim_end(s, c)
        } else {
            s.push(x)
        },
{
    assert(s.push(x).drop_last() =~= s);
}

/// A numeral ends in a digit.
pub proof fn decimal_ends_in_digit(n: nat)
    ensures
        decimal(n).len() > 0,
        decimal(n).last() == digit(n % 10),
{
}

/// The position of the first `c` in `s` at `from` or after, or the length of
/// `s` where there is none.
pub open spec fn find(s: Seq<char>, c: char, from: int) -> int
    decreases s.len() - from,
{
    if from >= s.len() {
        s.len() as int
    } else if s[from] == c {
        from
    } else {
        find(s, c, from + 1)
    }
}

/// `s` up to its first `c`, or all of `s` where there is none.
pub open spec fn before(s: Seq<char>, c: char) -> Seq<char> {
    s.take(find(s, c, 0))
}

/// `s` up to its first `c`, or all of `s` where there is none.
pub fn text_before(s: &str, c: char) -> (text: String)
    ensures
        text@ == before(s@, c),
{
    let chars = characters(s);
    let mut end: usize = 0;
    while end < chars.len() && chars[end] != c
        invariant
            end <= chars.len(),
            chars@ == s@,
            find(s@, c, 0) == find(s@, c, end as int),
        decreases chars.len() - end,
    {
        end = end + 1;
    }
    assert(s@.take(end as int) =~= s@.subrange(0, end as int));
    slice(s, 0, end)
}

/// Whether a path has the mark of a URI at `i`.
pub open spec fn scheme_mark_at(s: Seq<char>, i: int) -> bool {
    0 <= i && i + 2 < s.len() && s[i] == ':' && s[i + 1] == '/' && s[i + 2] == '/'
}

/// Whether a path is a URI: whether "://" occurs in it.
pub open spec fn is_uri(s: Seq<char>) -> bool {
    exists|i: int| scheme_mark_at(s, i)
}

/// Whether a path is a URI rather than the name of a file.
pub fn is_uri_path(path: &str) -> (r: bool)
    ensures
        r == is_uri(path@),
{
    let chars = characters(path);
    let mut i: usize = 0;
    while i < chars.len()
        invariant
            i <= chars.len(),
            chars@ == path@,
            forall|j: int| j < i ==> !scheme_mark_at(path@, j),
        decreases chars.len() - i,
    {
        if chars.len() - i > 2 && chars[i] == ':' && chars[i + 1] == '/' && chars[i + 2] == '/' {
            assert(scheme_mark_at(path@, i as int));
            return true;
        }
        assert(!scheme_mark_at(path@, i as int));
        i = i + 1;
    }
    false
}

/// Whether `c` separates the components of a path.
pub open spec fn is_separator(c: char) -> bool {
    c == '/' || c == '\\'
}

/// The position behind the last separator in the first `end` characters of
/// `s`, or 0 where there is none.
pub open spec fn name_start(s: Seq<char>, end: int) -> int
    decreases end,
{
    if end <= 0 {
        0
    } else if is_separator(s[end - 1]) {
        end
    } else {
        name_start(s, end - 1)
    }
}

/// The last component of a path, without a query behind it; the whole path
/// where that is empty.
pub open spec fn file_name(path: Seq<char>) -> Seq<char> {
    let plain = before(path, '?');
    let name = plain.skip(name_start(plain, plain.len() as int));
    if name.len() == 0 {
        path
    } else {
        name
    }
}

/// The label of a path: its last component, without a query behind it.
pub fn basename(path: &str) -> (name: String)
    ensures
        name@ == file_name(path@),
{
    let plain = text_before(path, '?');
    let chars = characters(plain.as_str());
    let mut start: usize = chars.len();
    while start > 0 && chars[start - 1] != '/' && chars[start - 1] != '\\'
        invariant
            start <= chars.len(),
            chars@ == plain@,
            name_start(plain@, plain@.len() as int) == name_start(plain@, start as int),
        decreases start,
    {
        start = start - 1;
    }
    if start == chars.len() {
        path.to_owned()
    } else {
        assert(plain@.skip(start as int) =~= plain@.subrange(start as int, plain@.len() as int));
        slice(plain.as_str(), start, chars.len())
    }
}

/// Whether `c` has the Unicode property `White_Space`.
pub open spec fn is_space(c: char) -> bool {
    ||| '\u{9}' <= c <= '\u{d}'
    ||| c == ' '
    ||| c == '\u{85}'
    ||| c == '\u{a0}'
    ||| c == '\u{1680}'
    ||| '\u{2000}' <= c <= '\u{200a}'
    ||| c == '\u{2028}'
    ||| c == '\u{2029}'
    ||| c == '\u{202f}'
    ||| c == '\u{205f}'
    ||| c == '\u{3000}'
}

/// Whether `c` has the Unicode property `White_Space`.
pub fn is_space_char(c: char) -> (r: bool)
    ensures
        r == is_space(c),
{
    ('\u{9}' <= c && c <= '\u{d}') || c == ' ' || c == '\u{85}' || c == '\u{a0}' || c
        == '\u{1680}' || ('\u{2000}' <= c && c <= '\u{200a}') || c == '\u{2028}' || c
        == '\u{2029}' || c == '\u{202f}' || c == '\u{205f}' || c == '\u{3000}'
}

/// `s` without the white space that it begins with.
pub open spec fn skip_space(s: Seq<char>) -> Seq<char>
    decreases s.len(),
{
    if s.len() > 0 && is_space(s[0]) {
        skip_space(s.drop_first())
    } else {
        s
    }
}

/// `s` without the white space that it ends in.
pub open spec fn drop_space(s: Seq<char>) -> Seq<char>
    decreases s.len(),
{
    if s.len() > 0 && is_space(s.last()) {
        drop_space(s.drop_last())
    } else {
        s
    }
}

/// `s` without the white space around it.
pub fn trim_space(s: &str) -> (text: String)
    ensures
        text@ == drop_space(skip_space(s@)),
{
    let chars = characters(s);
    let mut start: usize = 0;
    assert(s@.skip(0) =~= s@);
    while start < chars.len() && is_space_char(chars[start])
        invariant
            start <= chars.len(),
            chars@ == s@,
            skip_space(s@) == skip_space(s@.skip(start as int)),
        decreases chars.len() - start,
    {
        assert(s@.skip(start as int).drop_first() =~= s@.skip(start + 1));
        start = start + 1;
    }
    let ghost rest = s@.skip(start as int);
    let mut end: usize = chars.len();
    assert(rest.take(rest.len() as int) =~= rest);
    while end > start && is_space_char(chars[end - 1])
        invariant
            start <= end <= chars.len(),
            chars@ == s@,
            rest == s@.skip(start as int),
            drop_space(rest) == drop_space(rest.take(end - start)),
        decreases end,
    {
        assert(rest.take(end - start).drop_last() =~= rest.take(end - 1 - start));
        end = end - 1;
    }
    assert(rest.take(end - start) =~= s@.subrange(start as int, end as int));
    slice(s, start, end)
}

/// Whether `s` begins with `prefix`.
pub open spec fn begins_with(s: Seq<char>, prefix: Seq<char>) -> bool {
    prefix.len() <= s.len() && s.take(prefix.len() as int) == prefix
}

/// Whether `s` begins with `prefix`.
pub fn starts_with(s: &str, prefix: &str) -> (r: bool)
    ensures
        r == begins_with(s@, prefix@),
{
    let whole = characters(s);
    let part = characters(prefix);
    if part.len() > whole.len() {
        return false;
    }
    let mut i: usize = 0;
    while i < part.len()
        invariant
            i <= part.len() <= whole.len(),
            whole@ == s@,
            part@ == prefix@,
            forall|j: int| 0 <= j < i ==> s@[j] == prefix@[j],
        decreases part.len() - i,
    {
        if whole[i] != part[i] {
            assert(s@.take(prefix@.len() as int)[i as int] != prefix@[i as int]);
            return false;
        }
        i = i + 1;
    }
    assert(s@.take(prefix@.len() as int) =~= prefix@);
    true
}

/// Nothing in front of the first `c` is a `c`.
proof fn find_is_first(s: Seq<char>, c: char, from: int)
    requires
        0 <= from <= s.len(),
    ensures
        from <= find(s, c, from) <= s.len(),
        forall|j: int| from <= j < find(s, c, from) ==> s[j] != c,
        find(s, c, from) < s.len() ==> s[find(s, c, from)] == c,
    decreases s.len() - from,
{
    if from < s.len() && s[from] != c {
        find_is_first(s, c, from + 1);
    }
}

/// What stands in front of the first `c` is a prefix without a `c`, and is
/// followed by a `c` where it is not everything.
pub proof fn before_stops_at_first(s: Seq<char>, c: char)
    ensures
        begins_with(s, before(s, c)),
        !before(s, c).contains(c),
        before(s, c).len() < s.len() ==> s[before(s, c).len() as int] == c,
{
    find_is_first(s, c, 0);
    assert(s.take(before(s, c).len() as int) =~= before(s, c));
}

/// The start of a name lies behind every separator.
proof fn name_start_is_last(s: Seq<char>, end: int)
    requires
        0 <= end <= s.len(),
    ensures
        0 <= name_start(s, end) <= end,
        forall|j: int| name_start(s, end) <= j < end ==> !is_separator(s[j]),
    decreases end,
{
    if end > 0 && !is_separator(s[end - 1]) {
        name_start_is_last(s, end - 1);
    }
}

/// A path has a label unless it is empty, and the label holds neither a
/// separator nor a query unless it is the path itself.
pub proof fn label_is_plain(path: Seq<char>)
    ensures
        path.len() > 0 ==> file_name(path).len() > 0,
        file_name(path) != path ==> !file_name(path).contains('?') && !file_name(path).contains(
            '/',
        ) && !file_name(path).contains('\\'),
{
    let plain = before(path, '?');
    let start = name_start(plain, plain.len() as int);
    before_stops_at_first(path, '?');
    name_start_is_last(plain, plain.len() as int);
    let name = plain.skip(start);
    if name.len() > 0 {
        assert forall|j: int| 0 <= j < name.len() implies name[j] != '?' && !is_separator(
            #[trigger] name[j],
        ) by {
            assert(name[j] == plain[start + j]);
        }
    }
}

/// Dropping white space at the front leaves a suffix that does not begin with
/// white space.
proof fn skip_space_is_suffix(s: Seq<char>)
    ensures
        skip_space(s).len() <= s.len(),
        skip_space(s) == s.skip(s.len() - skip_space(s).len()),
        skip_space(s).len() > 0 ==> !is_space(skip_space(s)[0]),
    decreases s.len(),
{
    if s.len() > 0 && is_space(s[0]) {
        let rest = s.drop_first();
        skip_space_is_suffix(rest);
        assert(skip_space(s) =~= s.skip(s.len() - skip_space(s).len()));
    } else {
        assert(s.skip(0) =~= s);
    }
}

/// Dropping white space at the end leaves a prefix that does not end in white
/// space.
proof fn drop_space_is_prefix(s: Seq<char>)
    ensures
        drop_space(s).len() <= s.len(),
        drop_space(s) == s.take(drop_space(s).len() as int),
        drop_space(s).len() > 0 ==> !is_space(drop_space(s).last()),
    decreases s.len(),
{
    if s.len() > 0 && is_space(s.last()) {
        let rest = s.drop_last();
        drop_space_is_prefix(rest);
        assert(drop_space(s) =~= s.take(drop_space(s).len() as int));
    } else {
        assert(s.take(s.len() as int) =~= s);
    }
}

/// A trimmed text is a part of the text, and has no white space around it.
pub proof fn trimming_leaves_no_space_around(s: Seq<char>)
    ensures
        ({
            let t = drop_space(skip_space(s));
            &&& t.len() > 0 ==> !is_space(t[0]) && !is_space(t.last())
            &&& forall|c: char| #[trigger] t.contains(c) ==> s.contains(c)
        }),
{
    let u = skip_space(s);
    let t = drop_space(u);
    skip_space_is_suffix(s);
    drop_space_is_prefix(u);
    if t.len() > 0 {
        assert(t[0] == u[0]);
    }
    assert forall|c: char| #[trigger] t.contains(c) implies s.contains(c) by {
        let j = choose|j: int| 0 <= j < t.len() && t[j] == c;
        assert(t[j] == u[j]);
        assert(u[j] == s[s.len() - u.len() + j]);
    }
}

/// The number that a row of decimal digits stands for.
pub open spec fn number_of(s: Seq<char>) -> int
    decreases s.len(),
{
    if s.len() == 0 {
        0
    } else {
        10 * number_of(s.drop_last()) + (s.last() as int - '0' as int)
    }
}

/// Whether `s` holds nothing but decimal digits.
pub open spec fn all_digits(s: Seq<char>) -> bool {
    forall|i: int| 0 <= i < s.len() ==> '0' <= #[trigger] s[i] <= '9'
}

/// A numeral is a row of digits that reads as the number, without a leading
/// zero but for 0 itself.
pub proof fn numerals_read_back(n: nat)
    ensures
        decimal(n).len() > 0,
        all_digits(decimal(n)),
        number_of(decimal(n)) == n,
        n > 0 ==> decimal(n)[0] != '0',
        n == 0 ==> decimal(n) == seq!['0'],
    decreases n,
{
    if n < 10 {
        let s = decimal(n);
        assert(s.drop_last() =~= Seq::<char>::empty());
        assert(number_of(s.drop_last()) == 0);
    } else {
        numerals_read_back(n / 10);
        let s = decimal(n);
        assert(s.drop_last() =~= decimal(n / 10));
        assert(s.last() == digit(n % 10));
        assert(s[0] == decimal(n / 10)[0]);
    }
}

/// Different numbers have different numerals.
pub proof fn numerals_tell_numbers_apart(a: nat, b: nat)
    ensures
        decimal(a) == decimal(b) ==> a == b,
{
    numerals_read_back(a);
    numerals_read_back(b);
}

/// A padded numeral reads as the number, and has two digits where the number
/// has no more.
pub proof fn padded_numerals_read_back(n: nat)
    ensures
        all_digits(padded(n)),
        number_of(padded(n)) == n,
        n < 100 ==> padded(n).len() == 2,
        n >= 10 ==> padded(n) == decimal(n),
{
    numerals_read_back(n);
    if n < 10 {
        let s = padded(n);
        assert(s.drop_last() =~= seq!['0']);
        assert(seq!['0'].drop_last() =~= Seq::<char>::empty());
        reveal_with_fuel(number_of, 3);
    } else if n < 100 {
        reveal_with_fuel(decimal, 2);
    }
}

/// A digit is the character for its value.
pub proof fn digits_stand_for_their_value(d: nat)
    requires
        d < 10,
    ensures
        '0' <= digit(d) <= '9',
        digit(d) as int - '0' as int == d,
{
}

/// Trimming at the end drops characters `c` alone, and all that it can.
pub proof fn trimming_drops_the_run(s: Seq<char>, c: char)
    ensures
        trim_end(s, c).len() <= s.len(),
        trim_end(s, c) == s.take(trim_end(s, c).len() as int),
        forall|i: int| trim_end(s, c).len() <= i < s.len() ==> #[trigger] s[i] == c,
        trim_end(s, c).len() > 0 ==> trim_end(s, c).last() != c,
    decreases s.len(),
{
    if s.len() > 0 && s.last() == c {
        let rest = s.drop_last();
        trimming_drops_the_run(rest, c);
        assert(trim_end(s, c) =~= s.take(trim_end(s, c).len() as int));
        assert forall|i: int| trim_end(s, c).len() <= i < s.len() implies #[trigger] s[i] == c by {
            if i < rest.len() {
                assert(rest[i] == c);
            }
        }
    } else {
        assert(s.take(s.len() as int) =~= s);
    }
}

/// A path is a URI exactly where "://" stands somewhere in it.
pub proof fn a_uri_holds_its_mark(s: Seq<char>, a: Seq<char>, b: Seq<char>)
    ensures
        is_uri(a + "://"@ + b),
        is_uri(s) ==> exists|i: int|
            0 <= i && i + 3 <= s.len() && #[trigger] s.subrange(i, i + 3) == "://"@,
        !is_uri(s) ==> forall|i: int|
            0 <= i && i + 3 <= s.len() ==> #[trigger] s.subrange(i, i + 3) != "://"@,
{
    reveal_strlit("://");
    let t = a + "://"@ + b;
    assert(scheme_mark_at(t, a.len() as int));
    if is_uri(s) {
        let i = choose|i: int| scheme_mark_at(s, i);
        assert(s.subrange(i, i + 3) =~= "://"@);
    } else {
        assert forall|i: int| 0 <= i && i + 3 <= s.len() implies #[trigger] s.subrange(i, i + 3)
            != "://"@ by {
            assert(!scheme_mark_at(s, i));
            let u = s.subrange(i, i + 3);
            assert(u[0] == s[i] && u[1] == s[i + 1] && u[2] == s[i + 2]);
        }
    }
}

/// The label of a path is what stands behind the last separator in front of the
/// query; the path itself where nothing stands there.
pub proof fn the_label_stands_behind_the_last_separator(path: Seq<char>)
    ensures
        ({
            let plain = before(path, '?');
            let name = file_name(path);
            let bare = plain.len() == 0 || plain.last() == '/' || plain.last() == '\\';
            &&& bare ==> name == path
            &&& !bare ==> {
                let start = plain.len() - name.len();
                &&& 0 <= start < plain.len()
                &&& name == plain.skip(start)
                &&& start > 0 ==> plain[start - 1] == '/' || plain[start - 1] == '\\'
                &&& forall|i: int|
                    0 <= i < name.len() ==> #[trigger] name[i] != '/' && name[i] != '\\'
            }
        }),
{
    let plain = before(path, '?');
    let start = name_start(plain, plain.len() as int);
    name_start_is_last(plain, plain.len() as int);
    name_start_follows_a_separator(plain, plain.len() as int);
    let name = plain.skip(start);
    if plain.len() > 0 {
        assert(name.len() == 0 <==> start == plain.len());
    }
    assert forall|i: int| 0 <= i < name.len() implies !is_separator(#[trigger] name[i]) by {
        assert(name[i] == plain[start + i]);
    }
}

/// A name that does not start the path starts behind a separator, and a path
/// that ends in a separator has none.
proof fn name_start_follows_a_separator(s: Seq<char>, end: int)
    requires
        0 <= end <= s.len(),
    ensures
        name_start(s, end) > 0 ==> is_separator(s[name_start(s, end) - 1]),
        end > 0 && is_separator(s[end - 1]) ==> name_start(s, end) == end,
        end > 0 && !is_separator(s[end - 1]) ==> name_start(s, end) < end,
    decreases end,
{
    if end > 0 && !is_separator(s[end - 1]) {
        name_start_is_last(s, end - 1);
        name_start_follows_a_separator(s, end - 1);
    }
}

/// Which characters are white space, by their code points.
pub proof fn white_space_by_code_point(c: char)
    ensures
        is_space(c) <==> {
            let p = c as int;
            ||| 9 <= p <= 13
            ||| p == 32
            ||| p == 133
            ||| p == 160
            ||| p == 5760
            ||| 8192 <= p <= 8202
            ||| p == 8232
            ||| p == 8233
            ||| p == 8239
            ||| p == 8287
            ||| p == 12288
        },
{
}

/// Trimming white space drops nothing but white space: the text is what is left
/// with white space around it.
pub proof fn trimming_drops_white_space_alone(s: Seq<char>)
    ensures
        ({
            let t = drop_space(skip_space(s));
            exists|i: int|
                {
                    &&& 0 <= i && i + t.len() <= s.len()
                    &&& #[trigger] s.subrange(i, i + t.len()) == t
                    &&& forall|j: int| 0 <= j < i ==> is_space(#[trigger] s[j])
                    &&& forall|j: int| i + t.len() <= j < s.len() ==> is_space(#[trigger] s[j])
                }
        }),
{
    let u = skip_space(s);
    let t = drop_space(u);
    skip_space_is_suffix(s);
    drop_space_is_prefix(u);
    skipped_is_space(s);
    dropped_is_space(u);
    let i = s.len() - u.len();
    assert(s.subrange(i, i + t.len()) =~= t);
    assert forall|j: int| i + t.len() <= j < s.len() implies is_space(#[trigger] s[j]) by {
        assert(u[j - i] == s[j]);
    }
}

/// What is skipped at the front is white space.
proof fn skipped_is_space(s: Seq<char>)
    ensures
        forall|j: int| 0 <= j < s.len() - skip_space(s).len() ==> is_space(#[trigger] s[j]),
    decreases s.len(),
{
    if s.len() > 0 && is_space(s[0]) {
        let rest = s.drop_first();
        skipped_is_space(rest);
        assert forall|j: int| 0 <= j < s.len() - skip_space(s).len() implies is_space(
            #[trigger] s[j],
        ) by {
            if j > 0 {
                assert(rest[j - 1] == s[j]);
            }
        }
    }
}

/// What is dropped at the end is white space.
proof fn dropped_is_space(s: Seq<char>)
    ensures
        forall|j: int| drop_space(s).len() <= j < s.len() ==> is_space(#[trigger] s[j]),
    decreases s.len(),
{
    if s.len() > 0 && is_space(s.last()) {
        let rest = s.drop_last();
        dropped_is_space(rest);
        assert forall|j: int| drop_space(s).len() <= j < s.len() implies is_space(
            #[trigger] s[j],
        ) by {
            if j < rest.len() {
                assert(rest[j] == s[j]);
            }
        }
    }
}

/// A text begins with a prefix exactly where it is the prefix and something
/// behind it.
pub proof fn a_prefix_stands_in_front(s: Seq<char>, prefix: Seq<char>, rest: Seq<char>)
    ensures
        begins_with(prefix + rest, prefix),
        begins_with(s, prefix) ==> s == prefix + s.skip(prefix.len() as int),
{
    assert((prefix + rest).take(prefix.len() as int) =~= prefix);
    if begins_with(s, prefix) {
        assert(s =~= s.take(prefix.len() as int) + s.skip(prefix.len() as int));
    }
}

} // verus!
