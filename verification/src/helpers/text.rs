//! Text as sequences of characters: searching, splitting, joining, and
//! decimal numbers.

use vstd::prelude::*;

verus! {

/// `String::push` appends one character and leaves the rest as it was.
pub assume_specification[ String::push ](s: &mut String, c: char)
    ensures
        final(s)@ == old(s)@.push(c),
;

/// `pat` stands in `s` at index `i`.
pub open spec fn occurs_at(s: Seq<char>, pat: Seq<char>, i: int) -> bool {
    0 <= i && i + pat.len() <= s.len() && s.subrange(i, i + pat.len()) == pat
}

/// `i` is the least index at which `pat` stands in `s`.
pub open spec fn first_occurrence(s: Seq<char>, pat: Seq<char>, i: int) -> bool {
    occurs_at(s, pat, i) && forall|j: int| 0 <= j < i ==> !occurs_at(s, pat, j)
}

/// `pat` stands somewhere in `s`.
pub open spec fn occurs(s: Seq<char>, pat: Seq<char>) -> bool {
    exists|i: int| first_occurrence(s, pat, i)
}

/// The pieces of `s` between the occurrences of a non-empty `pat`, found
/// from left to right without overlap. There is always at least one piece.
pub open spec fn split(s: Seq<char>, pat: Seq<char>) -> Seq<Seq<char>>
    decreases s.len(),
{
    if pat.len() > 0 && occurs(s, pat) {
        let i = choose|i: int| first_occurrence(s, pat, i);
        seq![s.take(i)] + split(s.skip(i + pat.len()), pat)
    } else {
        seq![s]
    }
}

/// What stands before and after the first occurrence of `pat` in `s`.
pub open spec fn split_once(s: Seq<char>, pat: Seq<char>) -> Option<(Seq<char>, Seq<char>)> {
    if occurs(s, pat) {
        let i = choose|i: int| first_occurrence(s, pat, i);
        Some((s.take(i), s.skip(i + pat.len())))
    } else {
        None
    }
}

/// The items written one after another with `sep` between neighbours.
pub open spec fn join(items: Seq<Seq<char>>, sep: Seq<char>) -> Seq<char>
    decreases items.len(),
{
    if items.len() == 0 {
        Seq::empty()
    } else if items.len() == 1 {
        items[0]
    } else {
        items[0] + sep + join(items.skip(1), sep)
    }
}

/// The views of a vector of character vectors.
pub open spec fn views(v: Seq<Vec<char>>) -> Seq<Seq<char>> {
    Seq::new(v.len(), |i: int| v[i]@)
}

/// The views of a vector of strings.
pub open spec fn string_views(v: Seq<String>) -> Seq<Seq<char>> {
    Seq::new(v.len(), |i: int| v[i]@)
}

/// A decimal digit.
pub open spec fn is_digit(c: char) -> bool {
    '0' <= c && c <= '9'
}

/// The number that a decimal digit stands for.
pub open spec fn digit_value(c: char) -> nat {
    (c as int - '0' as int) as nat
}

/// The digit that stands for a number below ten.
pub open spec fn digit_char(d: nat) -> char {
    ('0' as int + d) as char
}

/// Every character is a decimal digit.
pub open spec fn all_digits(s: Seq<char>) -> bool {
    forall|i: int| 0 <= i < s.len() ==> is_digit(#[trigger] s[i])
}

/// The number that a run of decimal digits stands for.
pub open spec fn digits_value(s: Seq<char>) -> nat
    decreases s.len(),
{
    if s.len() == 0 {
        0
    } else {
        digits_value(s.drop_last()) * 10 + digit_value(s.last())
    }
}

/// The text without one leading plus sign.
pub open spec fn unsigned_digits(s: Seq<char>) -> Seq<char> {
    if s.len() > 0 && s[0] == '+' {
        s.skip(1)
    } else {
        s
    }
}

/// The number that `s` stands for as an unsigned decimal no greater than
/// `max`: an optional plus sign, then one or more digits and nothing else.
pub open spec fn parse_decimal(s: Seq<char>, max: nat) -> Option<nat> {
    let d = unsigned_digits(s);
    if d.len() > 0 && all_digits(d) && digits_value(d) <= max {
        Some(digits_value(d))
    } else {
        None
    }
}

/// The shortest decimal notation of `n`.
pub open spec fn decimal(n: nat) -> Seq<char>
    decreases n,
{
    if n < 10 {
        seq![digit_char(n)]
    } else {
        decimal(n / 10).push(digit_char(n % 10))
    }
}

/// `pat` stands nowhere in `s`.
pub open spec fn free_of(s: Seq<char>, pat: Seq<char>) -> bool {
    forall|j: int| !occurs_at(s, pat, j)
}

/// The character `c` stands nowhere in `s`.
pub open spec fn without(s: Seq<char>, c: char) -> bool {
    forall|i: int| 0 <= i < s.len() ==> s[i] != c
}

/// Putting `sep` behind `item` brings no occurrence of `sep` that begins
/// inside `item`.
pub open spec fn separable(item: Seq<char>, sep: Seq<char>) -> bool {
    forall|j: int| 0 <= j < item.len() ==> !occurs_at(item + sep, sep, j)
}

/// The characters of a string slice.
pub fn chars_of(s: &str) -> (v: Vec<char>)
    ensures
        v@ == s@,
{
    let mut v: Vec<char> = Vec::new();
    for c in it: s.chars()
        invariant
            v@ == it.seq().take(it.index()),
            it.seq() == s@,
    {
        v.push(c);
    }
    v
}

/// The string made of the characters of `v`.
pub fn text_of(v: &Vec<char>) -> (s: String)
    ensures
        s@ == v@,
{
    let mut s = String::new();
    let mut i: usize = 0;
    while i < v.len()
        invariant
            i <= v.len(),
            s@ == v@.take(i as int),
        decreases v.len() - i,
    {
        s.push(v[i]);
        i += 1;
    }
    s
}

/// Whether `pat` stands in `s` at index `i`.
pub fn stands_at(s: &Vec<char>, pat: &Vec<char>, i: usize) -> (r: bool)
    ensures
        r == occurs_at(s@, pat@, i as int),
{
    if i > s.len() || pat.len() > s.len() - i {
        return false;
    }
    let mut k: usize = 0;
    while k < pat.len()
        invariant
            k <= pat.len(),
            i + pat.len() <= s.len(),
            forall|m: int| 0 <= m < k ==> s@[i + m] == pat@[m],
        decreases pat.len() - k,
    {
        if s[i + k] != pat[k] {
            return false;
        }
        k += 1;
    }
    assert(s@.subrange(i as int, i + pat.len()) =~= pat@);
    true
}

/// The first index at or after `start` at which `pat` stands in `s`, if
/// it stands anywhere from there on.
pub fn find_from(s: &Vec<char>, pat: &Vec<char>, start: usize) -> (r: Option<usize>)
    ensures
        match r {
            Some(i) => start <= i && i + pat.len() <= s.len() && first_occurrence(
                s@.skip(start as int),
                pat@,
                i - start,
            ),
            None => start > s.len() || free_of(s@.skip(start as int), pat@),
        },
{
    if start > s.len() {
        return None;
    }
    let ghost rest = s@.skip(start as int);
    let mut i: usize = start;
    while i < s.len()
        invariant
            start <= i <= s.len(),
            rest == s@.skip(start as int),
            forall|j: int| 0 <= j < i - start ==> !occurs_at(rest, pat@, j),
        decreases s.len() - i,
    {
        proof {
            lemma_occurs_in_suffix(s@, pat@, start as int, i - start);
        }
        if stands_at(s, pat, i) {
            return Some(i);
        }
        i += 1;
    }
    proof {
        lemma_occurs_in_suffix(s@, pat@, start as int, i - start);
    }
    if stands_at(s, pat, i) {
        Some(i)
    } else {
        None
    }
}

/// The characters `v[from..to]`.
pub(crate) fn slice_of(v: &Vec<char>, from: usize, to: usize) -> (r: Vec<char>)
    requires
        from <= to <= v.len(),
    ensures
        r@ == v@.subrange(from as int, to as int),
{
    let mut r: Vec<char> = Vec::new();
    let mut i: usize = from;
    while i < to
        invariant
            from <= i <= to <= v.len(),
            r@ == v@.subrange(from as int, i as int),
        decreases to - i,
    {
        r.push(v[i]);
        i += 1;
    }
    r
}

/// Cuts `s` at every occurrence of `pat`. An empty pattern cuts nowhere.
pub fn split_text(s: &Vec<char>, pat: &Vec<char>) -> (pieces: Vec<Vec<char>>)
    ensures
        views(pieces@) == split(s@, pat@),
{
    let mut pieces: Vec<Vec<char>> = Vec::new();
    if pat.len() == 0 {
        pieces.push(slice_of(s, 0, s.len()));
        assert(s@.subrange(0, s@.len() as int) =~= s@);
        return pieces;
    }
    let mut start: usize = 0;
    assert(s@.skip(0) =~= s@);
    loop
        invariant
            start <= s.len(),
            pat.len() > 0,
            split(s@, pat@) == views(pieces@) + split(s@.skip(start as int), pat@),
        decreases s.len() - start,
    {
        let ghost rest = s@.skip(start as int);
        match find_from(s, pat, start) {
            Some(i) => {
                pieces.push(slice_of(s, start, i));
                proof {
                    lemma_split_at(rest, pat@, i - start);
                    assert(rest.take(i - start) =~= s@.subrange(start as int, i as int));
                    assert(rest.skip(i - start + pat.len()) =~= s@.skip(i + pat.len()));
                }
                start = i + pat.len();
            },
            None => {
                pieces.push(slice_of(s, start, s.len()));
                proof {
                    lemma_split_none(rest, pat@);
                }
                return pieces;
            },
        }
    }
}

/// Cuts `s` at the first occurrence of `pat`, if there is one.
pub fn split_once_text(s: &Vec<char>, pat: &Vec<char>) -> (r: Option<(Vec<char>, Vec<char>)>)
    ensures
        match r {
            Some((before, after)) => split_once(s@, pat@) == Some((before@, after@)),
            None => split_once(s@, pat@) is None,
        },
{
    assert(s@.skip(0) =~= s@);
    match find_from(s, pat, 0) {
        Some(i) => {
            proof {
                lemma_split_at(s@, pat@, i as int);
            }
            Some((slice_of(s, 0, i), slice_of(s, i + pat.len(), s.len())))
        },
        None => {
            proof {
                lemma_split_none(s@, pat@);
            }
            None
        },
    }
}

/// Whether two texts hold the same characters.
pub fn same_text(a: &Vec<char>, b: &Vec<char>) -> (r: bool)
    ensures
        r == (a@ == b@),
{
    if a.len() != b.len() {
        return false;
    }
    let mut i: usize = 0;
    while i < a.len()
        invariant
            i <= a.len(),
            a.len() == b.len(),
            forall|k: int| 0 <= k < i ==> a@[k] == b@[k],
        decreases a.len() - i,
    {
        if a[i] != b[i] {
            return false;
        }
        i += 1;
    }
    assert(a@ =~= b@);
    true
}

/// Appends the characters of `s` to `buf`.
pub fn push_str(buf: &mut Vec<char>, s: &str)
    ensures
        final(buf)@ == old(buf)@ + s@,
{
    let chars = chars_of(s);
    push_chars(buf, &chars);
}

/// Appends the characters of `s` to `buf`.
pub fn push_chars(buf: &mut Vec<char>, s: &Vec<char>)
    ensures
        final(buf)@ == old(buf)@ + s@,
{
    let ghost start = buf@;
    let mut i: usize = 0;
    while i < s.len()
        invariant
            i <= s.len(),
            buf@ == start + s@.take(i as int),
        decreases s.len() - i,
    {
        buf.push(s[i]);
        i += 1;
    }
}

/// Reads an unsigned decimal number no greater than `max`.
pub fn parse_number(s: &Vec<char>, max: u32) -> (r: Option<u32>)
    ensures
        match r {
            Some(n) => parse_decimal(s@, max as nat) == Some(n as nat),
            None => parse_decimal(s@, max as nat) is None,
        },
{
    let start: usize = if s.len() > 0 && s[0] == '+' {
        1
    } else {
        0
    };
    let ghost d = unsigned_digits(s@);
    if start == s.len() {
        return None;
    }
    let mut acc: u64 = 0;
    let mut i: usize = start;
    while i < s.len()
        invariant
            start <= i <= s.len(),
            d == unsigned_digits(s@),
            d == s@.subrange(start as int, s.len() as int),
            all_digits(d.take(i - start)),
            acc == digits_value(d.take(i - start)),
            acc <= max,
        decreases s.len() - i,
    {
        let c = s[i];
        if c < '0' || c > '9' {
            assert(!is_digit(d[i - start]));
            return None;
        }
        let digit: u64 = (c as u64) - 48;
        acc = acc * 10 + digit;
        proof {
            let next = d.take(i - start + 1);
            assert(next.drop_last() =~= d.take(i - start));
        }
        if acc > max as u64 {
            proof {
                lemma_digits_value_grows(d, i - start + 1);
            }
            return None;
        }
        i += 1;
    }
    assert(d.take(i - start) =~= d);
    Some(acc as u32)
}

/// Writes `n` in decimal.
pub fn format_number(n: u32) -> (r: Vec<char>)
    ensures
        r@ == decimal(n as nat),
    decreases n,
{
    if n < 10 {
        let mut r: Vec<char> = Vec::new();
        r.push((48u8 + n as u8) as char);
        r
    } else {
        let mut r = format_number(n / 10);
        r.push((48u8 + (n % 10) as u8) as char);
        r
    }
}

/// Writes the items one after another with `sep` between neighbours.
pub fn join_text(items: &Vec<Vec<char>>, sep: &Vec<char>) -> (r: Vec<char>)
    ensures
        r@ == join(views(items@), sep@),
{
    let mut r: Vec<char> = Vec::new();
    let mut i: usize = 0;
    let ghost all = views(items@);
    while i < items.len()
        invariant
            i <= items.len(),
            all == views(items@),
            r@ == join(all.take(i as int), sep@),
        decreases items.len() - i,
    {
        if i > 0 {
            push_chars(&mut r, sep);
        }
        push_chars(&mut r, &items[i]);
        proof {
            assert(all.take(i + 1) =~= all.take(i as int).push(all[i as int]));
            if i > 0 {
                lemma_join_push(all.take(i as int), sep@, all[i as int]);
            }
        }
        i += 1;
    }
    assert(all.take(i as int) =~= all);
    r
}

/// There is at most one first occurrence.
pub proof fn lemma_first_occurrence_unique(s: Seq<char>, pat: Seq<char>, i: int, j: int)
    requires
        first_occurrence(s, pat, i),
        first_occurrence(s, pat, j),
    ensures
        i == j,
{
}

/// Where `i` is the first occurrence, `split` and `split_once` cut there.
pub proof fn lemma_split_at(s: Seq<char>, pat: Seq<char>, i: int)
    requires
        first_occurrence(s, pat, i),
    ensures
        pat.len() > 0 ==> split(s, pat) == seq![s.take(i)] + split(s.skip(i + pat.len()), pat),
        split_once(s, pat) == Some((s.take(i), s.skip(i + pat.len()))),
{
    let k = choose|k: int| first_occurrence(s, pat, k);
    lemma_first_occurrence_unique(s, pat, i, k);
}

/// Where `pat` stands nowhere, `split` gives the text whole.
pub proof fn lemma_split_none(s: Seq<char>, pat: Seq<char>)
    requires
        free_of(s, pat),
    ensures
        split(s, pat) == seq![s],
        split_once(s, pat) is None,
{
}

/// An occurrence in a suffix is an occurrence in the whole, shifted.
pub proof fn lemma_occurs_in_suffix(s: Seq<char>, pat: Seq<char>, start: int, j: int)
    requires
        0 <= start <= s.len(),
        0 <= j,
    ensures
        occurs_at(s.skip(start), pat, j) == occurs_at(s, pat, start + j),
{
    if j + pat.len() <= s.len() - start {
        assert(s.skip(start).subrange(j, j + pat.len()) =~= s.subrange(
            start + j,
            start + j + pat.len(),
        ));
    }
}

/// A longer run of digits stands for no smaller number than its prefix.
pub proof fn lemma_digits_value_grows(s: Seq<char>, k: int)
    requires
        0 <= k <= s.len(),
    ensures
        digits_value(s.take(k)) <= digits_value(s),
    decreases s.len() - k,
{
    if k == s.len() {
        assert(s.take(k) =~= s);
    } else {
        lemma_digits_value_grows(s.drop_last(), k);
        assert(s.drop_last().take(k) =~= s.take(k));
    }
}

/// The decimal notation holds digits only, at least one, and stands for
/// the number it was made from.
pub proof fn lemma_decimal(n: nat)
    ensures
        decimal(n).len() > 0,
        all_digits(decimal(n)),
        digits_value(decimal(n)) == n,
    decreases n,
{
    if n < 10 {
        let s = decimal(n);
        assert(digits_value(s.drop_last()) == 0);
    } else {
        lemma_decimal(n / 10);
        let s = decimal(n);
        assert(s.drop_last() =~= decimal(n / 10));
    }
}

/// Reading back what `decimal` wrote gives the number.
pub proof fn lemma_decimal_parses(n: nat, max: nat)
    requires
        n <= max,
    ensures
        parse_decimal(decimal(n), max) == Some(n),
{
    lemma_decimal(n);
}

/// Appending an item to a non-empty list appends the separator and the item.
pub proof fn lemma_join_push(items: Seq<Seq<char>>, sep: Seq<char>, item: Seq<char>)
    requires
        items.len() > 0,
    ensures
        join(items.push(item), sep) == join(items, sep) + sep + item,
    decreases items.len(),
{
    let all = items.push(item);
    assert(all.skip(1) =~= items.skip(1).push(item));
    if items.len() == 1 {
        assert(join(all.skip(1), sep) == item);
    } else {
        lemma_join_push(items.skip(1), sep, item);
    }
}

/// Where `pat` stands in `s`, it stands somewhere first.
pub proof fn lemma_least_occurrence(s: Seq<char>, pat: Seq<char>, j: int)
    requires
        occurs_at(s, pat, j),
    ensures
        occurs(s, pat),
    decreases j,
{
    if forall|k: int| 0 <= k < j ==> !occurs_at(s, pat, k) {
        assert(first_occurrence(s, pat, j));
    } else {
        let k = choose|k: int| 0 <= k < j && occurs_at(s, pat, k);
        lemma_least_occurrence(s, pat, k);
    }
}

/// A text that `pat` does not occur in is free of it.
pub proof fn lemma_free_unless_occurs(s: Seq<char>, pat: Seq<char>)
    requires
        !occurs(s, pat),
    ensures
        free_of(s, pat),
{
    assert forall|j: int| !occurs_at(s, pat, j) by {
        if occurs_at(s, pat, j) {
            lemma_least_occurrence(s, pat, j);
        }
    }
}

/// A part of a text that is free of `pat` is free of it.
pub proof fn lemma_free_part(s: Seq<char>, pat: Seq<char>, from: int, to: int)
    requires
        free_of(s, pat),
        0 <= from <= to <= s.len(),
    ensures
        free_of(s.subrange(from, to), pat),
{
    let part = s.subrange(from, to);
    assert forall|j: int| !occurs_at(part, pat, j) by {
        if occurs_at(part, pat, j) {
            assert(part.subrange(j, j + pat.len()) =~= s.subrange(from + j, from + j + pat.len()));
            assert(occurs_at(s, pat, from + j));
        }
    }
}

/// A text without the first character of `pat` is free of `pat`.
pub proof fn lemma_free_without(s: Seq<char>, pat: Seq<char>)
    requires
        pat.len() > 0,
        without(s, pat[0]),
    ensures
        free_of(s, pat),
{
}

/// For a pattern of one character, to be free of it is to be without that
/// character.
pub proof fn lemma_free_of_char(s: Seq<char>, pat: Seq<char>)
    requires
        pat.len() == 1,
    ensures
        free_of(s, pat) == without(s, pat[0]),
{
    if without(s, pat[0]) {
        lemma_free_without(s, pat);
    }
    if free_of(s, pat) {
        assert forall|i: int| 0 <= i < s.len() implies s[i] != pat[0] by {
            if s[i] == pat[0] {
                assert(s.subrange(i, i + 1) =~= pat);
                assert(occurs_at(s, pat, i));
            }
        }
    }
}

/// Every piece of a split has at least the freedoms of the whole.
pub proof fn lemma_split_pieces_free(s: Seq<char>, pat: Seq<char>, q: Seq<char>)
    requires
        pat.len() > 0,
        free_of(s, q),
    ensures
        forall|k: int| 0 <= k < split(s, pat).len() ==> free_of(#[trigger] split(s, pat)[k], q),
    decreases s.len(),
{
    if occurs(s, pat) {
        let i = choose|i: int| first_occurrence(s, pat, i);
        let rest = s.skip(i + pat.len());
        lemma_free_part(s, q, 0, i);
        lemma_free_part(s, q, i + pat.len(), s.len() as int);
        lemma_split_pieces_free(rest, pat, q);
        assert forall|k: int| 0 <= k < split(s, pat).len() implies free_of(
            #[trigger] split(s, pat)[k],
            q,
        ) by {
            if k > 0 {
                assert(split(s, pat)[k] == split(rest, pat)[k - 1]);
            }
        }
    }
}

/// A split gives at least one piece, and the pattern stands in none.
pub proof fn lemma_split_pieces_clean(s: Seq<char>, pat: Seq<char>)
    requires
        pat.len() > 0,
    ensures
        split(s, pat).len() > 0,
        forall|k: int| 0 <= k < split(s, pat).len() ==> free_of(#[trigger] split(s, pat)[k], pat),
    decreases s.len(),
{
    if occurs(s, pat) {
        let i = choose|i: int| first_occurrence(s, pat, i);
        let rest = s.skip(i + pat.len());
        lemma_split_pieces_clean(rest, pat);
        let head = s.take(i);
        assert forall|j: int| !occurs_at(head, pat, j) by {
            if occurs_at(head, pat, j) {
                assert(head.subrange(j, j + pat.len()) =~= s.subrange(j, j + pat.len()));
                assert(occurs_at(s, pat, j));
            }
        }
    } else {
        lemma_free_unless_occurs(s, pat);
    }
}

/// An item that can be parted from a separator behind it is free of it.
pub proof fn lemma_separable_free(item: Seq<char>, sep: Seq<char>)
    requires
        sep.len() > 0,
        separable(item, sep),
    ensures
        free_of(item, sep),
{
    assert forall|j: int| !occurs_at(item, sep, j) by {
        if occurs_at(item, sep, j) {
            assert((item + sep).subrange(j, j + sep.len()) =~= item.subrange(j, j + sep.len()));
            assert(occurs_at(item + sep, sep, j));
        }
    }
}

/// An item without the first character of the separator can be parted
/// from it.
pub proof fn lemma_separable_without(item: Seq<char>, sep: Seq<char>)
    requires
        sep.len() > 0,
        without(item, sep[0]),
    ensures
        separable(item, sep),
{
}

/// An item free of a separator of two different characters can be parted
/// from it.
pub proof fn lemma_separable_pair(item: Seq<char>, sep: Seq<char>)
    requires
        sep.len() == 2,
        sep[0] != sep[1],
        free_of(item, sep),
    ensures
        separable(item, sep),
{
    assert forall|j: int| 0 <= j < item.len() implies !occurs_at(item + sep, sep, j) by {
        if occurs_at(item + sep, sep, j) {
            let found = (item + sep).subrange(j, j + 2);
            if j + 2 <= item.len() {
                assert(found =~= item.subrange(j, j + 2));
                assert(occurs_at(item, sep, j));
            }
        }
    }
}

/// Splitting what was joined gives the items back, where there is at
/// least one and each can be parted from the separator.
pub proof fn lemma_split_join(items: Seq<Seq<char>>, sep: Seq<char>)
    requires
        sep.len() > 0,
        items.len() > 0,
        forall|k: int| 0 <= k < items.len() ==> separable(#[trigger] items[k], sep),
    ensures
        split(join(items, sep), sep) == items,
    decreases items.len(),
{
    let first = items[0];
    let whole = join(items, sep);
    if items.len() == 1 {
        lemma_separable_free(first, sep);
        lemma_split_none(whole, sep);
    } else {
        let rest = items.skip(1);
        let at = first.len() as int;
        lemma_split_join(rest, sep);
        assert(whole.subrange(at, at + sep.len()) =~= sep);
        assert forall|j: int| 0 <= j < at implies !occurs_at(whole, sep, j) by {
            if occurs_at(whole, sep, j) {
                assert((first + sep).subrange(j, j + sep.len()) =~= whole.subrange(
                    j,
                    j + sep.len(),
                ));
                assert(occurs_at(first + sep, sep, j));
            }
        }
        lemma_split_at(whole, sep, at);
        assert(whole.take(at) =~= first);
        assert(whole.skip(at + sep.len()) =~= join(rest, sep));
    }
}

/// What was joined from items and a separator without `c` is without `c`.
pub proof fn lemma_join_without(items: Seq<Seq<char>>, sep: Seq<char>, c: char)
    requires
        without(sep, c),
        forall|k: int| 0 <= k < items.len() ==> without(#[trigger] items[k], c),
    ensures
        without(join(items, sep), c),
    decreases items.len(),
{
    if items.len() > 1 {
        let rest = items.skip(1);
        lemma_join_without(rest, sep, c);
    }
}

} // verus!
