//! Text as sequences of characters: the few string operations that the panels are made of.

use vstd::prelude::*;
use vstd::utf8::encode_utf8;

verus! {

/// The characters with Unicode's `White_Space` property.
pub open spec fn whitespace(c: char) -> bool {
    ||| '\u{9}' <= c <= '\u{d}'
    ||| c == '\u{20}'
    ||| c == '\u{85}'
    ||| c == '\u{a0}'
    ||| c == '\u{1680}'
    ||| '\u{2000}' <= c <= '\u{200a}'
    ||| c == '\u{2028}'
    ||| c == '\u{2029}'
    ||| c == '\u{202f}'
    ||| c == '\u{205f}'
    ||| c == '\u{3000}'
}

/// `s` without the whitespace at its two ends.
pub open spec fn trimmed(s: Seq<char>) -> Seq<char>
    decreases s.len(),
{
    if s.len() > 0 && whitespace(s.first()) {
        trimmed(s.drop_first())
    } else if s.len() > 0 && whitespace(s.last()) {
        trimmed(s.drop_last())
    } else {
        s
    }
}

/// Whether all the characters are ASCII.
pub open spec fn ascii(s: Seq<char>) -> bool {
    forall|i: int| 0 <= i < s.len() ==> (#[trigger] s[i] as u32) < 128
}

/// `s` with the letters from A to Z in lower case.
pub open spec fn ascii_lowercase(s: Seq<char>) -> Seq<char> {
    s.map_values(
        |c: char|
            if 'A' <= c <= 'Z' {
                ((c as u32) + 32) as char
            } else {
                c
            },
    )
}

/// What `str::to_lowercase` makes of a string.
pub uninterp spec fn lowercase(s: Seq<char>) -> Seq<char>;

/// `s` in lower case: of ASCII text only the letters change; other text follows Unicode's rules.
pub open spec fn lowered(s: Seq<char>) -> Seq<char> {
    if ascii(s) {
        ascii_lowercase(s)
    } else {
        lowercase(s)
    }
}

/// The digit of a number below ten.
pub open spec fn digit(n: nat) -> char {
    (('0' as nat) + n) as char
}

/// A number written in base ten, without leading zeros.
pub open spec fn decimal(n: nat) -> Seq<char>
    decreases n,
{
    if n < 10 {
        seq![digit(n)]
    } else {
        decimal(n / 10).push(digit(n % 10))
    }
}

/// The contents of a list of strings.
pub open spec fn texts(list: Seq<String>) -> Seq<Seq<char>> {
    list.map_values(|s: String| s@)
}

/// The contents of a string that may be missing.
pub open spec fn optional_text(s: Option<String>) -> Option<Seq<char>> {
    match s {
        Some(s) => Some(s@),
        None => None,
    }
}

/// Whether `c` has Unicode's `White_Space` property.
pub fn is_whitespace(c: char) -> (r: bool)
    ensures
        r == whitespace(c),
{
    ('\u{9}' <= c && c <= '\u{d}') || c == '\u{20}' || c == '\u{85}' || c == '\u{a0}' || c
        == '\u{1680}' || ('\u{2000}' <= c && c <= '\u{200a}') || c == '\u{2028}' || c == '\u{2029}'
        || c == '\u{202f}' || c == '\u{205f}' || c == '\u{3000}'
}

/// The characters of `s`, in order.
pub fn characters(s: &str) -> (r: Vec<char>)
    ensures
        r@ == s@,
{
    let mut r: Vec<char> = Vec::new();
    for c in it: s.chars()
        invariant
            it.seq() == s@,
            r@ == s@.take(it.index() as int),
    {
        r.push(c);
    }
    assert(s@.take(s@.len() as int) == s@);
    r
}

/// Whether `s` starts with `prefix`.
pub fn starts_with(s: &str, prefix: &str) -> (r: bool)
    ensures
        r == prefix@.is_prefix_of(s@),
{
    let all = characters(s);
    let head = characters(prefix);
    if head.len() > all.len() {
        return false;
    }
    let mut i: usize = 0;
    while i < head.len()
        invariant
            i <= head.len() <= all.len(),
            all@ == s@,
            head@ == prefix@,
            forall|j: int| 0 <= j < i ==> head@[j] == all@[j],
        decreases head.len() - i,
    {
        if head[i] != all[i] {
            assert(prefix@[i as int] != s@.subrange(0, prefix@.len() as int)[i as int]);
            return false;
        }
        i += 1;
    }
    assert(prefix@ =~= s@.subrange(0, prefix@.len() as int));
    true
}

/// Whether two strings hold the same text.
pub fn same_text(a: &str, b: &str) -> (r: bool)
    ensures
        r == (a@ == b@),
{
    let r = a.unicode_len() == b.unicode_len() && starts_with(a, b);
    assert(r ==> a@ =~= b@);
    assert(a@ == b@ ==> b@ =~= a@.subrange(0, b@.len() as int));
    r
}

/// A copy of `s` without the whitespace at its two ends.
pub fn trim(s: &str) -> (r: String)
    ensures
        r@ == trimmed(s@),
{
    let all = characters(s);
    let mut from: usize = 0;
    assert(s@.subrange(0, s@.len() as int) == s@);
    while from < all.len() && is_whitespace(all[from])
        invariant
            all@ == s@,
            from <= all.len(),
            trimmed(s@.subrange(from as int, s@.len() as int)) == trimmed(s@),
        decreases all.len() - from,
    {
        assert(s@.subrange(from as int, s@.len() as int).drop_first() == s@.subrange(
            from + 1,
            s@.len() as int,
        ));
        from += 1;
    }
    let mut to: usize = all.len();
    while from < to && is_whitespace(all[to - 1])
        invariant
            all@ == s@,
            from <= to <= all.len(),
            from < to ==> !whitespace(all@[from as int]),
            trimmed(s@.subrange(from as int, to as int)) == trimmed(s@),
        decreases to - from,
    {
        assert(s@.subrange(from as int, to as int).drop_last() == s@.subrange(
            from as int,
            to - 1,
        ));
        to -= 1;
    }
    s.substring_char(from, to).to_owned()
}

/// `str::to_lowercase`: the string in lower case, by Unicode's rules. They take pages and are left
/// unsaid, and so is whether the lower case of a beginning begins that of the whole; of ASCII text
/// they change the letters from A to Z and nothing else.
#[verifier::external_body]
pub(crate) fn to_lowercase(s: &str) -> (r: String)
    ensures
        r@ == lowercase(s@),
        ascii(s@) ==> r@ == ascii_lowercase(s@),
{
    s.to_lowercase()
}

/// A number in base ten.
pub fn decimal_string(n: usize) -> (r: String)
    ensures
        r@ == decimal(n as nat),
    decreases n,
{
    let mut r = if n < 10 {
        String::new()
    } else {
        decimal_string(n / 10)
    };
    r.append(digit_text(n % 10));
    assert(n < 10 ==> Seq::<char>::empty() + seq![digit(n as nat)] =~= decimal(n as nat));
    r
}

fn digit_text(n: usize) -> (r: &'static str)
    requires
        n < 10,
    ensures
        r@ == seq![digit(n as nat)],
{
    proof {
        reveal_strlit("0");
        reveal_strlit("1");
        reveal_strlit("2");
        reveal_strlit("3");
        reveal_strlit("4");
        reveal_strlit("5");
        reveal_strlit("6");
        reveal_strlit("7");
        reveal_strlit("8");
        reveal_strlit("9");
    }
    match n {
        0 => "0",
        1 => "1",
        2 => "2",
        3 => "3",
        4 => "4",
        5 => "5",
        6 => "6",
        7 => "7",
        8 => "8",
        _ => "9",
    }
}

/// All the pieces, one behind the other.
pub fn concat_all(pieces: &Vec<String>) -> (r: String)
    ensures
        r@ == texts(pieces@).flatten(),
{
    let mut r = String::new();
    let mut i: usize = 0;
    while i < pieces.len()
        invariant
            i <= pieces.len(),
            r@ == texts(pieces@).take(i as int).flatten_alt(),
        decreases pieces.len() - i,
    {
        assert(texts(pieces@).take(i + 1).drop_last() == texts(pieces@).take(i as int));
        r.append(pieces[i].as_str());
        i += 1;
    }
    proof {
        assert(texts(pieces@).take(i as int) == texts(pieces@));
        texts(pieces@).lemma_flatten_and_flatten_alt_are_equivalent();
    }
    r
}

/// A string takes one byte exactly when it is one ASCII character.
pub proof fn lemma_one_byte(s: Seq<char>)
    ensures
        encode_utf8(s).len() == 1 <==> s.len() == 1 && ascii(s),
{
    if s.len() > 1 {
        assert(encode_utf8(s.drop_first()).len() >= 1);
    } else if s.len() == 1 {
        assert(encode_utf8(s.drop_first()).len() == 0);
        assert(ascii(s) <==> (s[0] as u32) < 128);
    }
}

/// The beginnings of ASCII text are ASCII, and in lower case they are the beginnings of the whole in
/// lower case.
pub proof fn law_lowered_beginning(s: Seq<char>, whole: Seq<char>)
    requires
        ascii(whole),
        s.is_prefix_of(whole),
    ensures
        ascii(s),
        lowered(s).is_prefix_of(lowered(whole)),
{
    assert forall|i: int| 0 <= i < s.len() implies (#[trigger] s[i] as u32) < 128 by {
        assert(s[i] == whole.subrange(0, s.len() as int)[i]);
        assert(s[i] == whole[i]);
    }
    assert forall|i: int| 0 <= i < s.len() implies #[trigger] lowered(s)[i] == lowered(whole)[i] by {
        assert(s[i] == whole.subrange(0, s.len() as int)[i]);
    }
    assert(lowered(s) == lowered(whole).subrange(0, s.len() as int));
}

/// Trimmed text is a piece of the text, neither starts nor ends with whitespace, and is the same
/// when trimmed again.
pub proof fn law_trimmed(s: Seq<char>)
    ensures
        exists|from: int, to: int|
            0 <= from <= to <= s.len() && trimmed(s) == #[trigger] s.subrange(from, to),
        trimmed(s).len() > 0 ==> !whitespace(trimmed(s).first()) && !whitespace(trimmed(s).last()),
        trimmed(trimmed(s)) == trimmed(s),
{
    let (from, to) = lemma_trimmed_ends(s);
    assert(trimmed(s) == s.subrange(from, to));
}

/// Trimming leaves nothing exactly of text that is all whitespace.
pub proof fn law_trimmed_to_nothing(s: Seq<char>)
    ensures
        trimmed(s).len() == 0 <==> forall|i: int| 0 <= i < s.len() ==> whitespace(#[trigger] s[i]),
{
    let (from, to) = lemma_trimmed_ends(s);
    assert(trimmed(s).len() == to - from);
}

/// Trimming takes away whitespace only: every text is a run of whitespace, then its trimmed text,
/// then a run of whitespace; and the trimmed text neither starts nor ends with any.
pub proof fn law_trimming_takes_whitespace_only(s: Seq<char>)
    ensures
        exists|from: int, to: int|
            {
                &&& 0 <= from <= to <= s.len()
                &&& trimmed(s) == #[trigger] s.subrange(from, to)
                &&& forall|i: int| 0 <= i < from ==> whitespace(#[trigger] s[i])
                &&& forall|i: int| to <= i < s.len() ==> whitespace(#[trigger] s[i])
                &&& from < to ==> !whitespace(s[from]) && !whitespace(s[to - 1])
            },
{
    let (from, to) = lemma_trimmed_ends(s);
    assert(trimmed(s) == s.subrange(from, to));
}

/// Where the trimmed text starts and ends.
pub proof fn lemma_trimmed_ends(s: Seq<char>) -> (ends: (int, int))
    ensures
        0 <= ends.0 <= ends.1 <= s.len(),
        trimmed(s) == s.subrange(ends.0, ends.1),
        forall|i: int| 0 <= i < ends.0 ==> whitespace(#[trigger] s[i]),
        forall|i: int| ends.1 <= i < s.len() ==> whitespace(#[trigger] s[i]),
        ends.0 < ends.1 ==> !whitespace(s[ends.0]) && !whitespace(s[ends.1 - 1]),
    decreases s.len(),
{
    if s.len() > 0 && whitespace(s.first()) {
        let t = s.drop_first();
        let (from, to) = lemma_trimmed_ends(t);
        assert(t.subrange(from, to) == s.subrange(from + 1, to + 1));
        assert forall|i: int| 0 <= i < from + 1 implies whitespace(#[trigger] s[i]) by {
            if i > 0 {
                assert(s[i] == t[i - 1]);
            }
        }
        assert forall|i: int| to + 1 <= i < s.len() implies whitespace(#[trigger] s[i]) by {
            assert(s[i] == t[i - 1]);
        }
        (from + 1, to + 1)
    } else if s.len() > 0 && whitespace(s.last()) {
        let t = s.drop_last();
        let (from, to) = lemma_trimmed_ends(t);
        assert(t.subrange(from, to) == s.subrange(from, to));
        assert forall|i: int| 0 <= i < from implies whitespace(#[trigger] s[i]) by {
            assert(s[i] == t[i]);
        }
        assert forall|i: int| to <= i < s.len() implies whitespace(#[trigger] s[i]) by {
            if i < t.len() {
                assert(s[i] == t[i]);
            }
        }
        (from, to)
    } else {
        assert(s.subrange(0, s.len() as int) == s);
        (0, s.len() as int)
    }
}

/// Text that neither starts nor ends with whitespace comes out unchanged, however long it is and
/// whatever whitespace stands around it.
pub proof fn law_trimming_keeps_the_rest(before: Seq<char>, kept: Seq<char>, after: Seq<char>)
    requires
        forall|i: int| 0 <= i < before.len() ==> whitespace(#[trigger] before[i]),
        forall|i: int| 0 <= i < after.len() ==> whitespace(#[trigger] after[i]),
        kept.len() > 0 ==> !whitespace(kept.first()) && !whitespace(kept.last()),
    ensures
        trimmed(before + kept + after) == kept,
{
    let s = before + kept + after;
    let (from, to) = lemma_trimmed_ends(s);
    let start = before.len() as int;
    let end = start + kept.len();
    assert forall|i: int| 0 <= i < start implies whitespace(#[trigger] s[i]) by {
        assert(s[i] == before[i]);
    }
    assert forall|i: int| end <= i < s.len() implies whitespace(#[trigger] s[i]) by {
        assert(s[i] == after[i - end]);
    }
    if kept.len() > 0 {
        assert(s[start] == kept.first());
        assert(s[end - 1] == kept.last());
        assert(from == start && to == end);
    } else {
        assert(from == to);
    }
    assert(s.subrange(from, to) == kept);
}

/// In lower case, ASCII text keeps its length and each of its characters, but for the capitals,
/// which lie 32 places below the small letters.
pub proof fn law_lowered_ascii(s: Seq<char>)
    requires
        forall|i: int| 0 <= i < s.len() ==> (#[trigger] s[i] as u32) < 128,
    ensures
        lowered(s).len() == s.len(),
        forall|i: int|
            0 <= i < s.len() && 'A' <= #[trigger] s[i] <= 'Z' ==> lowered(s)[i] as int == s[i] as int
                + 32,
        forall|i: int|
            0 <= i < s.len() && !('A' <= #[trigger] s[i] <= 'Z') ==> lowered(s)[i] == s[i],
{
    assert forall|i: int| 0 <= i < s.len() && 'A' <= #[trigger] s[i] <= 'Z' implies lowered(
        s,
    )[i] as int == s[i] as int + 32 by {
        assert(lowered(s)[i] == ((s[i] as u32) + 32) as char);
    }
}

/// The number that decimal digits stand for.
pub open spec fn number_read(digits: Seq<char>) -> int
    decreases digits.len(),
{
    if digits.len() == 0 {
        0
    } else {
        10 * number_read(digits.drop_last()) + (digits.last() as int - '0' as int)
    }
}

/// A number in base ten is made of digits, reads back as the number, and has no zero in front but
/// for zero itself.
pub proof fn law_decimal_reads_back(n: nat)
    ensures
        number_read(decimal(n)) == n,
        decimal(n).len() > 0,
        forall|i: int| 0 <= i < decimal(n).len() ==> '0' <= #[trigger] decimal(n)[i] <= '9',
        n > 0 ==> decimal(n)[0] != '0',
        n == 0 ==> decimal(n).len() == 1,
    decreases n,
{
    reveal_with_fuel(number_read, 2);
    if n >= 10 {
        law_decimal_reads_back(n / 10);
        assert(decimal(n).drop_last() == decimal(n / 10));
        assert forall|i: int| 0 <= i < decimal(n).len() implies '0' <= #[trigger] decimal(n)[i]
            <= '9' by {
            if i < decimal(n / 10).len() {
                assert(decimal(n)[i] == decimal(n / 10)[i]);
            }
        }
        assert(decimal(n)[0] == decimal(n / 10)[0]);
    }
}

/// The contents of a list of strings are those of its strings, one for one.
pub proof fn law_texts(list: Seq<String>, s: Option<String>)
    ensures
        texts(list).len() == list.len(),
        forall|i: int| 0 <= i < list.len() ==> #[trigger] texts(list)[i] == list[i]@,
        s is Some ==> optional_text(s) == Some(s->0@),
        s is None ==> optional_text(s) is None,
{
}

/// Text that is not all ASCII is put in lower case by Unicode's rules.
pub proof fn law_lowered_other(s: Seq<char>, i: int)
    requires
        0 <= i < s.len(),
        s[i] as u32 >= 128,
    ensures
        lowered(s) == lowercase(s),
{
}

} // verus!
