//! Text: the few operations on strings that the rest of the library needs.
use vstd::prelude::*;
use vstd::string::*;

verus! {

/// Whether a character has the Unicode property `White_Space`.
pub open spec fn white_space(c: char) -> bool {
    ||| '\u{9}' <= c <= '\u{d}'
    ||| c == ' '
    ||| c == '\u{85}'
    ||| c == '\u{a0}'
    ||| c == '\u{1680}'
    ||| '\u{2000}' <= c <= '\u{200a}'
    ||| c == '\u{2028}'
    ||| c == '\u{2029}'
    ||| c == '\u{202f}'
    ||| c == '\u{205f}'
    ||| c == '\u{3000}'
}

/// Whether a character is white space.
pub fn is_white_space(c: char) -> (res: bool)
    ensures
        res == white_space(c),
{
    ('\u{9}' <= c && c <= '\u{d}') || c == ' ' || c == '\u{85}' || c == '\u{a0}' || c == '\u{1680}'
        || ('\u{2000}' <= c && c <= '\u{200a}') || c == '\u{2028}' || c == '\u{2029}' || c
        == '\u{202f}' || c == '\u{205f}' || c == '\u{3000}'
}

/// Whether a text holds nothing but white space.
pub open spec fn blank(s: Seq<char>) -> bool {
    forall|i: int| 0 <= i < s.len() ==> white_space(#[trigger] s[i])
}

/// A text without the white space at its start.
pub open spec fn trim_start(s: Seq<char>) -> Seq<char>
    decreases s.len(),
{
    if s.len() > 0 && white_space(s.first()) {
        trim_start(s.drop_first())
    } else {
        s
    }
}

/// A text without the white space at its end.
pub open spec fn trim_end(s: Seq<char>) -> Seq<char>
    decreases s.len(),
{
    if s.len() > 0 && white_space(s.last()) {
        trim_end(s.drop_last())
    } else {
        s
    }
}

/// A text without the white space around it.
pub open spec fn trimmed(s: Seq<char>) -> Seq<char> {
    trim_end(trim_start(s))
}

/// What is left of a text from a place on, up to which all is white space.
proof fn lemma_trim_start(s: Seq<char>, at: int)
    requires
        0 <= at <= s.len(),
        forall|i: int| 0 <= i < at ==> white_space(#[trigger] s[i]),
        at < s.len() ==> !white_space(s[at]),
    ensures
        trim_start(s) == s.skip(at),
    decreases at,
{
    if at == 0 {
        assert(s.skip(0) =~= s);
    } else {
        let rest = s.drop_first();
        assert forall|i: int| 0 <= i < at - 1 implies white_space(#[trigger] rest[i]) by {
            assert(rest[i] == s[i + 1]);
        }
        lemma_trim_start(rest, at - 1);
        assert(rest.skip(at - 1) =~= s.skip(at));
    }
}

/// What is left of a text up to a place, from which on all is white space.
proof fn lemma_trim_end(s: Seq<char>, at: int)
    requires
        0 <= at <= s.len(),
        forall|i: int| at <= i < s.len() ==> white_space(#[trigger] s[i]),
        at > 0 ==> !white_space(s[at - 1]),
    ensures
        trim_end(s) == s.take(at),
    decreases s.len() - at,
{
    if at == s.len() {
        assert(s.take(at) =~= s);
    } else {
        let rest = s.drop_last();
        lemma_trim_end(rest, at);
        assert(rest.take(at) =~= s.take(at));
    }
}

/// A text is blank exactly if nothing is left of it once it is trimmed.
pub proof fn lemma_blank_is_trimmed_empty(s: Seq<char>)
    ensures
        blank(s) <==> trimmed(s).len() == 0,
    decreases s.len(),
{
    if s.len() > 0 && white_space(s.first()) {
        let rest = s.drop_first();
        lemma_blank_is_trimmed_empty(rest);
        if blank(rest) {
            assert forall|i: int| 0 <= i < s.len() implies white_space(#[trigger] s[i]) by {
                if i > 0 {
                    assert(rest[i - 1] == s[i]);
                }
            }
        }
        if blank(s) {
            assert forall|i: int| 0 <= i < rest.len() implies white_space(#[trigger] rest[i]) by {
                assert(rest[i] == s[i + 1]);
            }
        }
    } else if s.len() > 0 {
        lemma_trim_end_keeps_first(s);
    }
}

/// A text that does not start with white space keeps its first character.
proof fn lemma_trim_end_keeps_first(s: Seq<char>)
    requires
        s.len() > 0,
        !white_space(s.first()),
    ensures
        trim_end(s).len() > 0,
    decreases s.len(),
{
    if white_space(s.last()) {
        lemma_trim_end_keeps_first(s.drop_last());
    }
}

/// The characters of a text.
pub fn chars_of(s: &str) -> (res: Vec<char>)
    ensures
        res@ == s@,
{
    let mut res: Vec<char> = Vec::new();
    for c in it: s.chars()
        invariant
            it.seq() == s@,
            res@ == s@.take(it.index() as int),
    {
        res.push(c);
        assert(res@ =~= s@.take(it.index() as int + 1));
    }
    assert(res@ =~= s@);
    res
}

/// A text without the white space around it.
pub fn trim(s: &str) -> (res: &str)
    ensures
        res@ == trimmed(s@),
{
    let chars = chars_of(s);
    let n: usize = chars.len();
    let mut from: usize = 0;
    while from < n && is_white_space(chars[from])
        invariant
            from <= n,
            n == chars.len(),
            chars@ == s@,
            forall|i: int| 0 <= i < from ==> white_space(#[trigger] s@[i]),
        decreases n - from,
    {
        from += 1;
    }
    proof {
        lemma_trim_start(s@, from as int);
    }
    let ghost rest = s@.skip(from as int);
    let mut to: usize = n;
    while to > from && is_white_space(chars[to - 1])
        invariant
            from <= to <= n,
            n == chars.len(),
            chars@ == s@,
            rest == s@.skip(from as int),
            forall|i: int| to - from <= i < rest.len() ==> white_space(#[trigger] rest[i]),
        decreases to,
    {
        to -= 1;
    }
    proof {
        lemma_trim_end(rest, to - from);
        assert(rest.take(to - from) =~= s@.subrange(from as int, to as int));
    }
    s.substring_char(from, to)
}

/// Whether a text holds nothing but white space.
pub fn is_blank(s: &str) -> (res: bool)
    ensures
        res == blank(s@),
{
    proof {
        lemma_blank_is_trimmed_empty(s@);
    }
    trim(s).is_empty()
}

/// The place of the first occurrence of a character; the text's length where
/// there is none.
pub open spec fn find(s: Seq<char>, c: char) -> int
    decreases s.len(),
{
    if s.len() == 0 || s[0] == c {
        0
    } else {
        1 + find(s.drop_first(), c)
    }
}

/// A place before which the character does not occur, and where it occurs or
/// the text ends, is the first.
pub proof fn lemma_find(s: Seq<char>, c: char, at: int)
    requires
        0 <= at <= s.len(),
        forall|i: int| 0 <= i < at ==> #[trigger] s[i] != c,
        at < s.len() ==> s[at] == c,
    ensures
        find(s, c) == at,
    decreases s.len(),
{
    if at > 0 {
        let rest = s.drop_first();
        assert forall|i: int| 0 <= i < at - 1 implies #[trigger] rest[i] != c by {
            assert(rest[i] == s[i + 1]);
        }
        lemma_find(rest, c, at - 1);
    }
}

/// The first occurrence lies within the text or at its end, and nothing before
/// it is the character.
pub proof fn lemma_find_bounds(s: Seq<char>, c: char)
    ensures
        0 <= find(s, c) <= s.len(),
        find(s, c) < s.len() ==> s[find(s, c)] == c,
        forall|i: int| 0 <= i < find(s, c) ==> #[trigger] s[i] != c,
        find(s, c) == s.len() <==> !s.contains(c),
    decreases s.len(),
{
    if s.len() > 0 && s[0] != c {
        let rest = s.drop_first();
        lemma_find_bounds(rest, c);
        assert forall|i: int| 0 <= i < find(s, c) implies #[trigger] s[i] != c by {
            if i > 0 {
                assert(rest[i - 1] == s[i]);
            }
        }
        if rest.contains(c) {
            assert(s[find(s, c)] == c);
        }
        if s.contains(c) {
            let i = choose|i: int| 0 <= i < s.len() && s[i] == c;
            assert(rest[i - 1] == c);
        }
    } else if s.len() > 0 {
        assert(s.contains(s[0]));
    }
}

/// The place of the first occurrence of a character.
pub fn find_char(s: &str, c: char) -> (res: usize)
    ensures
        res == find(s@, c),
{
    let chars = chars_of(s);
    let mut at: usize = 0;
    while at < chars.len() && chars[at] != c
        invariant
            at <= chars.len(),
            chars@ == s@,
            forall|i: int| 0 <= i < at ==> #[trigger] s@[i] != c,
        decreases chars.len() - at,
    {
        at += 1;
    }
    proof {
        lemma_find(s@, c, at as int);
    }
    at
}

/// A text cut at the first occurrence of a character, which belongs to neither
/// part.
pub open spec fn split_at_first(s: Seq<char>, c: char) -> Option<(Seq<char>, Seq<char>)> {
    if find(s, c) < s.len() {
        Some((s.take(find(s, c)), s.skip(find(s, c) + 1)))
    } else {
        None
    }
}

/// Cuts a text at the first occurrence of a character.
pub fn split_once(s: &str, c: char) -> (res: Option<(&str, &str)>)
    ensures
        match res {
            Some((a, b)) => split_at_first(s@, c) == Some((a@, b@)),
            None => split_at_first(s@, c) is None,
        },
{
    let at: usize = find_char(s, c);
    let n: usize = s.unicode_len();
    proof {
        lemma_find_bounds(s@, c);
    }
    if at < n {
        let a = s.substring_char(0, at);
        let b = s.substring_char(at + 1, n);
        assert(a@ =~= s@.take(at as int));
        assert(b@ =~= s@.skip(at + 1));
        Some((a, b))
    } else {
        None
    }
}

/// What stands before the first occurrence of a character.
pub open spec fn before_first(s: Seq<char>, c: char) -> Seq<char> {
    s.take(find(s, c))
}

/// What stands before the first occurrence of a character.
pub fn head(s: &str, c: char) -> (res: &str)
    ensures
        res@ == before_first(s@, c),
{
    let at: usize = find_char(s, c);
    proof {
        lemma_find_bounds(s@, c);
    }
    let res = s.substring_char(0, at);
    assert(res@ =~= s@.take(at as int));
    res
}

/// What stands between the first occurrence of a character and the second, or the
/// end; `None` where there is no first.
pub open spec fn second_segment(s: Seq<char>, c: char) -> Option<Seq<char>> {
    match split_at_first(s, c) {
        Some((_, rest)) => Some(before_first(rest, c)),
        None => None,
    }
}

/// What stands between the first occurrence of a character and the second.
pub fn second(s: &str, c: char) -> (res: Option<&str>)
    ensures
        match res {
            Some(t) => second_segment(s@, c) == Some(t@),
            None => second_segment(s@, c) is None,
        },
{
    match split_once(s, c) {
        Some((_, rest)) => Some(head(rest, c)),
        None => None,
    }
}

/// The first line of a text: up to the first line feed, without a carriage
/// return right before it.
pub open spec fn first_line_of(s: Seq<char>) -> Seq<char> {
    let at = find(s, '\n');
    if at < s.len() && at > 0 && s[at - 1] == '\r' {
        s.take(at - 1)
    } else {
        s.take(at)
    }
}

/// The first line of a text.
pub fn first_line(s: &str) -> (res: &str)
    ensures
        res@ == first_line_of(s@),
{
    let at: usize = find_char(s, '\n');
    let n: usize = s.unicode_len();
    proof {
        lemma_find_bounds(s@, '\n');
    }
    let to: usize = if at < n && at > 0 && s.get_char(at - 1) == '\r' {
        at - 1
    } else {
        at
    };
    let res = s.substring_char(0, to);
    assert(res@ =~= s@.take(to as int));
    res
}

/// The first characters of a text, at most a given number of them.
pub open spec fn prefix(s: Seq<char>, n: int) -> Seq<char> {
    if s.len() <= n {
        s
    } else {
        s.take(n)
    }
}

/// The first characters of a text.
pub fn take_chars(s: &str, n: usize) -> (res: &str)
    ensures
        res@ == prefix(s@, n as int),
{
    if s.unicode_len() <= n {
        s
    } else {
        let res = s.substring_char(0, n);
        assert(res@ =~= s@.take(n as int));
        res
    }
}

/// Whether two texts are the same.
pub fn same(a: &str, b: &str) -> (res: bool)
    ensures
        res == (a@ == b@),
{
    a.to_owned() == b.to_owned()
}

/// Whether a text starts with another.
pub fn starts_with(s: &str, start: &str) -> (res: bool)
    ensures
        res == start@.is_prefix_of(s@),
{
    let k: usize = start.unicode_len();
    if s.unicode_len() < k {
        return false;
    }
    let head = s.substring_char(0, k);
    assert(start@.is_prefix_of(s@) <==> head@ =~= start@);
    same(head, start)
}

/// One text after another.
pub fn concat(a: &str, b: &str) -> (res: String)
    ensures
        res@ == a@ + b@,
{
    let mut res = a.to_owned();
    res.append(b);
    res
}

/// Three texts, one after another.
pub fn concat3(a: &str, b: &str, c: &str) -> (res: String)
    ensures
        res@ == a@ + b@ + c@,
{
    let mut res = concat(a, b);
    res.append(c);
    res
}

/// A digit.
pub open spec fn digit(d: nat) -> char {
    (('0' as nat) + d % 10) as char
}

/// A number in decimal notation.
pub open spec fn decimal(n: nat) -> Seq<char>
    decreases n,
{
    if n < 10 {
        seq![digit(n)]
    } else {
        decimal(n / 10).push(digit(n))
    }
}

/// The text of a single digit.
fn digit_text(d: u64) -> (res: &'static str)
    requires
        d < 10,
    ensures
        res@ == seq![digit(d as nat)],
{
    let res = match d {
        0 => "0",
        1 => "1",
        2 => "2",
        3 => "3",
        4 => "4",
        5 => "5",
        6 => "6",
        7 => "7",
        8 => "8",
        _ => "9",
    };
    proof {
        reveal_strlit("0");
        reveal_strlit("1");
        reveal_strlit("2");
        reveal_strlit("3");
        reveal_strlit("4");
        reveal_strlit("5");
        reveal_strlit("6");
        reveal_strlit("7");
        reveal_strlit("8");
        reveal_strlit("9");
        assert(res@ =~= seq![digit(d as nat)]);
    }
    res
}

/// Writes a number in decimal notation.
pub fn write_decimal(n: u64) -> (res: String)
    ensures
        res@ == decimal(n as nat),
    decreases n,
{
    if n < 10 {
        digit_text(n).to_owned()
    } else {
        let mut res = write_decimal(n / 10);
        res.append(digit_text(n % 10));
        assert(res@ =~= decimal(n as nat));
        res
    }
}

/// What [`str::to_lowercase`] makes of a text.
pub uninterp spec fn lowercase(s: Seq<char>) -> Seq<char>;

/// Calls [`str::to_lowercase`]. Claims that the result is a function of the
/// text alone, named [`lowercase`]; the Unicode tables behind it are not stated.
#[verifier::external_body]
pub(crate) fn to_lowercase(s: &str) -> (res: String)
    ensures
        res@ == lowercase(s@),
{
    s.to_lowercase()
}

/// A name in lower case, part by part between its slashes. A name without slashes
/// is one part. A slash has no case and does not bear on that of its neighbours.
pub open spec fn lower_name(s: Seq<char>) -> Seq<char>
    decreases s.len(),
    via lower_name_decreases
{
    if s.contains('/') {
        lowercase(s.take(find(s, '/'))) + seq!['/'] + lower_name(s.skip(find(s, '/') + 1))
    } else {
        lowercase(s)
    }
}

#[via_fn]
proof fn lower_name_decreases(s: Seq<char>) {
    lemma_find_bounds(s, '/');
}

/// Turns a name into lower case, part by part.
pub fn to_lower_name(s: &str) -> (res: String)
    ensures
        res@ == lower_name(s@),
    decreases s@.len(),
{
    proof {
        lemma_find_bounds(s@, '/');
    }
    match split_once(s, '/') {
        Some((first, rest)) => {
            let res = concat3(
                to_lowercase(first).as_str(),
                "/",
                to_lower_name(rest).as_str(),
            );
            assert("/"@ =~= seq!['/']) by {
                reveal_strlit("/");
            }
            res
        },
        None => to_lowercase(s),
    }
}

/// Names that are joined by a slash are turned into lower case each for itself.
pub proof fn lemma_lower_name_of_joined(a: Seq<char>, b: Seq<char>)
    ensures
        lower_name(a + seq!['/'] + b) == lower_name(a) + seq!['/'] + lower_name(b),
    decreases a.len(),
{
    let s = a + seq!['/'] + b;
    assert(s[a.len() as int] == '/');
    lemma_find_bounds(a, '/');
    let at = find(a, '/');
    assert forall|i: int| 0 <= i < at implies #[trigger] s[i] != '/' by {
        assert(s[i] == a[i]);
    }
    lemma_find(s, '/', at);
    assert(s.take(at) =~= a.take(at));
    if a.contains('/') {
        let rest = a.skip(at + 1);
        lemma_lower_name_of_joined(rest, b);
        assert(s.skip(at + 1) =~= rest + seq!['/'] + b);
        assert(lower_name(s) =~= lower_name(a) + seq!['/'] + lower_name(b));
    } else {
        assert(a.take(at) =~= a);
        assert(s.skip(at + 1) =~= b);
    }
}

/// How the `Debug` form of a `str` writes a text: in double quotes, with
/// escapes.
pub uninterp spec fn quoted(s: Seq<char>) -> Seq<char>;

/// Formats a text with `{:?}`. Claims that the result is a function of the text
/// alone, named [`quoted`]; which characters are escaped is not stated.
#[verifier::external_body]
pub(crate) fn quote(s: &str) -> (res: String)
    ensures
        res@ == quoted(s@),
{
    format!("{:?}", s)
}

/// The items of a list in quotes, with a comma and a space between them.
pub open spec fn quoted_items(items: Seq<Seq<char>>) -> Seq<char>
    decreases items.len(),
{
    if items.len() == 0 {
        Seq::empty()
    } else if items.len() == 1 {
        quoted(items[0])
    } else {
        quoted_items(items.drop_last()) + ", "@ + quoted(items.last())
    }
}

/// The `Debug` form of a list of texts.
pub open spec fn quoted_list(items: Seq<Seq<char>>) -> Seq<char> {
    "["@ + quoted_items(items) + "]"@
}

/// Writes the `Debug` form of a list of texts.
pub fn quote_list(items: &Vec<String>) -> (res: String)
    ensures
        res@ == quoted_list(items.deep_view()),
{
    let mut inner = String::new();
    let mut i: usize = 0;
    while i < items.len()
        invariant
            i <= items.len(),
            inner@ == quoted_items(items.deep_view().take(i as int)),
        decreases items.len() - i,
    {
        let item = quote(items[i].as_str());
        if i > 0 {
            inner.append(", ");
        }
        inner.append(item.as_str());
        i += 1;
        let ghost upto = items.deep_view().take(i as int);
        assert(upto.drop_last() =~= items.deep_view().take(i - 1));
        assert(upto.last() == items[i - 1]@);
        if i == 1 {
            assert(inner@ =~= quoted(upto[0]));
        }
    }
    assert(items.deep_view().take(i as int) =~= items.deep_view());
    concat3("[", inner.as_str(), "]")
}

/// The `Debug` form of an optional text.
pub open spec fn quoted_option(s: Option<Seq<char>>) -> Seq<char> {
    match s {
        Some(t) => "Some("@ + quoted(t) + ")"@,
        None => "None"@,
    }
}

/// Writes the `Debug` form of an optional text.
pub fn quote_option(s: &Option<String>) -> (res: String)
    ensures
        res@ == quoted_option(s.deep_view()),
{
    match s {
        Some(t) => concat3("Some(", quote(t.as_str()).as_str(), ")"),
        None => "None".to_owned(),
    }
}

// ---- what holds of parts of a text ----

proof fn lemma_trim_start_cuts(s: Seq<char>) -> (n: int)
    ensures
        0 <= n <= s.len(),
        trim_start(s) == s.skip(n),
        blank(s.take(n)),
        n < s.len() ==> !white_space(s[n]),
    decreases s.len(),
{
    if s.len() > 0 && white_space(s.first()) {
        let rest = s.drop_first();
        let m = lemma_trim_start_cuts(rest);
        assert(rest.skip(m) =~= s.skip(m + 1));
        assert forall|i: int| 0 <= i < m + 1 implies white_space(#[trigger] s.take(m + 1)[i]) by {
            if i > 0 {
                assert(rest.take(m)[i - 1] == s[i]);
            }
        }
        m + 1
    } else {
        assert(s.skip(0) =~= s);
        0
    }
}

proof fn lemma_trim_end_cuts(s: Seq<char>) -> (n: int)
    ensures
        0 <= n <= s.len(),
        trim_end(s) == s.take(n),
        blank(s.skip(n)),
        n > 0 ==> !white_space(s[n - 1]),
    decreases s.len(),
{
    if s.len() > 0 && white_space(s.last()) {
        let rest = s.drop_last();
        let m = lemma_trim_end_cuts(rest);
        assert(rest.take(m) =~= s.take(m));
        assert forall|i: int| 0 <= i < s.skip(m).len() implies white_space(
            #[trigger] s.skip(m)[i],
        ) by {
            if i < rest.skip(m).len() {
                assert(rest.skip(m)[i] == s.skip(m)[i]);
            }
        }
        m
    } else {
        assert(s.take(s.len() as int) =~= s);
        s.len() as int
    }
}

/// A trimmed text is the text but for white space around it, and neither begins nor ends
/// with white space.
pub proof fn law_trimming_takes_only_the_ends(s: Seq<char>)
    ensures
        exists|a: int, b: int|
            0 <= a <= b <= s.len() && trimmed(s) == #[trigger] s.subrange(a, b) && blank(s.take(a))
                && blank(s.skip(b)),
        trimmed(s).len() > 0 ==> !white_space(trimmed(s).first()) && !white_space(
            trimmed(s).last(),
        ),
{
    let a = lemma_trim_start_cuts(s);
    let t = trim_start(s);
    let n = lemma_trim_end_cuts(t);
    let b = a + n;
    assert(trimmed(s) =~= s.subrange(a, b));
    assert forall|i: int| 0 <= i < s.skip(b).len() implies white_space(
        #[trigger] s.skip(b)[i],
    ) by {
        assert(t.skip(n)[i] == s.skip(b)[i]);
    }
}

/// A text that is cut at a character is the part before it, the character, and the part
/// after it; and the character does not occur in the first part. It is cut exactly if
/// the character occurs.
pub proof fn law_cutting_a_text(s: Seq<char>, c: char)
    ensures
        split_at_first(s, c) is Some <==> s.contains(c),
        match split_at_first(s, c) {
            Some((a, b)) => s == a + seq![c] + b && !a.contains(c) && before_first(s, c) == a,
            None => before_first(s, c) == s,
        },
{
    lemma_find_bounds(s, c);
    let at = find(s, c);
    if at < s.len() {
        assert(s =~= s.take(at) + seq![c] + s.skip(at + 1));
        if s.take(at).contains(c) {
            let i = choose|i: int| 0 <= i < at && s.take(at)[i] == c;
            assert(s[i] == c);
        }
    } else {
        assert(s.take(at) =~= s);
    }
}

/// What stands between the first two occurrences of a character is found by cutting the
/// text twice.
pub proof fn law_the_second_part(a: Seq<char>, b: Seq<char>, rest: Seq<char>, c: char)
    requires
        !a.contains(c),
        !b.contains(c),
    ensures
        second_segment(a, c) is None,
        second_segment(a + seq![c] + b, c) == Some(b),
        second_segment(a + seq![c] + b + seq![c] + rest, c) == Some(b),
{
    lemma_find_bounds(a, c);
    lemma_find_bounds(b, c);
    assert forall|i: int| 0 <= i < a.len() implies #[trigger] a[i] != c by {
        assert(a.contains(a[i]));
    }
    assert forall|i: int| 0 <= i < b.len() implies #[trigger] b[i] != c by {
        assert(b.contains(b[i]));
    }
    let one = a + seq![c] + b;
    assert forall|i: int| 0 <= i < a.len() implies #[trigger] one[i] != c by {
        assert(one[i] == a[i]);
    }
    lemma_find(one, c, a.len() as int);
    assert(one.skip(a.len() as int + 1) =~= b);
    assert(b.take(b.len() as int) =~= b);
    let two = a + seq![c] + b + seq![c] + rest;
    assert forall|i: int| 0 <= i < a.len() implies #[trigger] two[i] != c by {
        assert(two[i] == a[i]);
    }
    lemma_find(two, c, a.len() as int);
    let tail = two.skip(a.len() as int + 1);
    assert(tail =~= b + seq![c] + rest);
    assert forall|i: int| 0 <= i < b.len() implies #[trigger] tail[i] != c by {
        assert(tail[i] == b[i]);
    }
    lemma_find(tail, c, b.len() as int);
    assert(tail.take(b.len() as int) =~= b);
}

/// The first line is the start of the text, up to the first line feed or the end, but
/// for a carriage return right before the line feed.
pub proof fn law_the_first_line(line: Seq<char>, rest: Seq<char>)
    requires
        !line.contains('\n'),
    ensures
        first_line_of(line) == line,
        line.len() == 0 || line.last() != '\r' ==> first_line_of(line + seq!['\n'] + rest) == line,
        first_line_of(line + seq!['\r', '\n'] + rest) == line,
{
    assert forall|i: int| 0 <= i < line.len() implies #[trigger] line[i] != '\n' by {
        assert(line.contains(line[i]));
    }
    lemma_find(line, '\n', line.len() as int);
    assert(line.take(line.len() as int) =~= line);
    let one = line + seq!['\n'] + rest;
    assert forall|i: int| 0 <= i < line.len() implies #[trigger] one[i] != '\n' by {
        assert(one[i] == line[i]);
    }
    lemma_find(one, '\n', line.len() as int);
    assert(one.take(line.len() as int) =~= line);
    let two = line + seq!['\r', '\n'] + rest;
    assert forall|i: int| 0 <= i < line.len() + 1 implies #[trigger] two[i] != '\n' by {
        if i < line.len() {
            assert(two[i] == line[i]);
        }
    }
    lemma_find(two, '\n', line.len() as int + 1);
    assert(two.take(line.len() as int) =~= line);
}

/// The first characters of a text are its start, as many as there may be.
pub proof fn law_the_first_characters(s: Seq<char>, n: int)
    requires
        0 <= n,
    ensures
        prefix(s, n).is_prefix_of(s),
        s.len() <= n ==> prefix(s, n).len() == s.len(),
        s.len() > n ==> prefix(s, n).len() == n,
{
}

/// The number that a row of digits stands for.
pub open spec fn number_in(s: Seq<char>) -> int
    decreases s.len(),
{
    if s.len() == 0 {
        0
    } else {
        number_in(s.drop_last()) * 10 + (s.last() as int - '0' as int)
    }
}

/// A number in decimal notation stands for that number, has only digits, and has no
/// zeros before it.
pub proof fn law_decimal_notation(n: nat)
    ensures
        number_in(decimal(n)) == n,
        decimal(n).len() > 0,
        forall|i: int| 0 <= i < decimal(n).len() ==> '0' <= #[trigger] decimal(n)[i] <= '9',
        decimal(n).len() > 1 ==> decimal(n)[0] != '0',
    decreases n,
{
    let d = n % 10;
    assert(digit(n) as int == '0' as int + d);
    if n < 10 {
        assert(decimal(n).drop_last() =~= Seq::empty());
        reveal_with_fuel(number_in, 2);
    } else {
        law_decimal_notation(n / 10);
        assert(decimal(n).drop_last() =~= decimal(n / 10));
        if n / 10 < 10 {
            assert(decimal(n / 10)[0] == digit(n / 10));
            assert(digit(n / 10) as int == '0' as int + n / 10);
        } else {
            law_decimal_notation(n / 10 / 10);
            assert(decimal(n / 10).len() > 1);
        }
        assert(decimal(n)[0] == decimal(n / 10)[0]);
    }
}

/// A list is written in brackets, its items quoted and in order, with a comma and a
/// space between them.
pub proof fn law_quoted_lists(items: Seq<Seq<char>>, item: Seq<char>)
    ensures
        quoted_list(items) == "["@ + quoted_items(items) + "]"@,
        quoted_items(Seq::<Seq<char>>::empty()).len() == 0,
        items.len() == 0 ==> quoted_items(items.push(item)) == quoted(item),
        items.len() > 0 ==> quoted_items(items.push(item)) == quoted_items(items) + ", "@ + quoted(
            item,
        ),
        quoted_option(Some(item)) == "Some("@ + quoted(item) + ")"@,
        quoted_option(None) == "None"@,
{
    assert(items.push(item).drop_last() =~= items);
}

/// A name without slashes is lowered as a whole, and names that are joined by a slash
/// each for itself.
pub proof fn law_names_are_lowered(a: Seq<char>, b: Seq<char>)
    ensures
        !a.contains('/') ==> lower_name(a) == lowercase(a),
        lower_name(a + seq!['/'] + b) == lower_name(a) + seq!['/'] + lower_name(b),
{
    lemma_lower_name_of_joined(a, b);
}

} // verus!
