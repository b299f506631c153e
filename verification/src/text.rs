//! Text building blocks: decimal rendering, padding, joining, chunking
//! and byte-bounded truncation, each with an exact specification over
//! the character sequence it produces.

use vstd::prelude::*;

verus! {

/// The character of a decimal digit.
pub open spec fn digit_char(d: nat) -> char {
    (d + 48) as char
}

/// Decimal rendering of a natural number, most significant digit first.
pub open spec fn dec_nat(n: nat) -> Seq<char>
    decreases n,
{
    if n < 10 {
        seq![digit_char(n)]
    } else {
        dec_nat(n / 10).push(digit_char(n % 10))
    }
}

/// Decimal rendering of an integer, as `Display` writes it.
pub open spec fn dec_int(i: int) -> Seq<char> {
    if i < 0 {
        seq!['-'] + dec_nat((-i) as nat)
    } else {
        dec_nat(i as nat)
    }
}

/// Appends one character to a string (`String::push`).
#[verifier::external_body]
pub(crate) fn push_char(s: &mut String, c: char)
    ensures
        final(s)@ == old(s)@.push(c),
{
    s.push(c);
}

/// Appends the decimal rendering of `n`.
pub fn append_nat(s: &mut String, n: u128)
    ensures
        final(s)@ == old(s)@ + dec_nat(n as nat),
    decreases n,
{
    if n >= 10 {
        append_nat(s, n / 10);
    }
    let d: u8 = (n % 10) as u8;
    let c: char = (d + 48u8) as char;
    push_char(s, c);
}

} // verus!

verus! {

/// The characters of a string slice, in order.
pub fn chars_of(s: &str) -> (v: Vec<char>)
    ensures
        v@ == s@,
{
    let mut v: Vec<char> = Vec::new();
    for c in it: s.chars()
        invariant
            v@ == it.seq().take(it.index() as int),
    {
        v.push(c);
    }
    v
}

} // verus!

verus! {

/// Rust's `{:02}` rendering of an integer: non-negative values below ten get
/// a leading zero, everything else is written as is.
pub open spec fn pad_zero2(i: int) -> Seq<char> {
    if 0 <= i < 10 {
        seq!['0'] + dec_nat(i as nat)
    } else {
        dec_int(i)
    }
}

/// `n` spaces.
pub open spec fn spaces(n: nat) -> Seq<char> {
    Seq::new(n, |k: int| ' ')
}

/// Right alignment in a field of `width` characters (Rust's `{:width}` for numbers).
pub open spec fn pad_left(s: Seq<char>, width: nat) -> Seq<char> {
    if s.len() < width {
        spaces((width - s.len()) as nat) + s
    } else {
        s
    }
}

/// Appends the decimal rendering of a signed integer.
pub fn append_int(s: &mut String, i: i64)
    ensures
        final(s)@ == old(s)@ + dec_int(i as int),
{
    if i < 0 {
        push_char(s, '-');
        let wide: i128 = i as i128;
        let magnitude: u128 = (0i128 - wide) as u128;
        append_nat(s, magnitude);
    } else {
        append_nat(s, i as u128);
    }
}

/// Appends an integer as `{:02}` writes it.
pub fn append_pad2(s: &mut String, i: i64)
    ensures
        final(s)@ == old(s)@ + pad_zero2(i as int),
{
    if 0 <= i && i < 10 {
        push_char(s, '0');
        append_nat(s, i as u128);
    } else {
        append_int(s, i);
    }
}

/// Appends `n` spaces.
pub fn append_spaces(s: &mut String, n: usize)
    ensures
        final(s)@ == old(s)@ + spaces(n as nat),
{
    let ghost start = s@;
    let mut k: usize = 0;
    while k < n
        invariant
            k <= n,
            s@ == start + spaces(k as nat),
        decreases n - k,
    {
        push_char(s, ' ');
        k = k + 1;
        assert(s@ =~= start + spaces(k as nat));
    }
}

/// Appends a non-negative number right-aligned in a field of `width` characters.
pub fn append_nat_right(s: &mut String, n: u128, width: usize)
    ensures
        final(s)@ == old(s)@ + pad_left(dec_nat(n as nat), width as nat),
{
    let mut digits = String::new();
    append_nat(&mut digits, n);
    let w = digits.as_str().unicode_len();
    if w < width {
        append_spaces(s, width - w);
    }
    s.append(digits.as_str());
}

/// A string with the given characters.
pub fn string_from_chars(cs: &Vec<char>) -> (r: String)
    ensures
        r@ == cs@,
{
    let mut r = String::new();
    let mut k: usize = 0;
    while k < cs.len()
        invariant
            k <= cs.len(),
            r@ == cs@.take(k as int),
        decreases cs.len() - k,
    {
        push_char(&mut r, cs[k]);
        k = k + 1;
        assert(r@ =~= cs@.take(k as int));
    }
    assert(cs@.take(cs.len() as int) =~= cs@);
    r
}

/// A line break replaced by a space, every other character kept.
pub open spec fn flatten_char(c: char) -> char {
    if c == '\n' { ' ' } else { c }
}

/// The text with every line break replaced by a space (`replace('\n', " ")`).
pub open spec fn one_line(s: Seq<char>) -> Seq<char> {
    s.map_values(|c: char| flatten_char(c))
}

/// Replaces every line break with a space.
pub fn replace_newlines(s: &str) -> (r: String)
    ensures
        r@ == one_line(s@),
{
    let cs = chars_of(s);
    let mut r = String::new();
    let mut k: usize = 0;
    while k < cs.len()
        invariant
            k <= cs.len(),
            cs@ == s@,
            r@ == one_line(s@.take(k as int)),
        decreases cs.len() - k,
    {
        let c = cs[k];
        if c == '\n' {
            push_char(&mut r, ' ');
        } else {
            push_char(&mut r, c);
        }
        k = k + 1;
        assert(r@ =~= one_line(s@.take(k as int)));
    }
    assert(s@.take(cs.len() as int) =~= s@);
    r
}

} // verus!

verus! {

/// The character sequences of a list of strings.
pub open spec fn views(v: Seq<String>) -> Seq<Seq<char>> {
    v.map_values(|x: String| x@)
}

/// The parts joined with `sep` between consecutive parts (`[..].join(sep)`).
pub open spec fn join(parts: Seq<Seq<char>>, sep: Seq<char>) -> Seq<char>
    decreases parts.len(),
{
    if parts.len() == 0 {
        seq![]
    } else if parts.len() == 1 {
        parts[0]
    } else {
        join(parts.drop_last(), sep) + sep + parts.last()
    }
}

/// Consecutive pieces of `s` of `n` items each, the last one possibly shorter
/// (`chunks(n)`); no piece when `s` is empty.
pub open spec fn chunks<A>(s: Seq<A>, n: nat) -> Seq<Seq<A>>
    decreases s.len(),
{
    if s.len() == 0 {
        seq![]
    } else if s.len() <= n || n == 0 {
        seq![s]
    } else {
        seq![s.take(n as int)] + chunks(s.skip(n as int), n)
    }
}

/// `prefix` followed by the strings `lines[start..end]` joined with `sep`.
pub fn join_range(prefix: &str, lines: &Vec<String>, start: usize, end: usize, sep: &str) -> (r:
    String)
    requires
        start <= end <= lines.len(),
    ensures
        r@ == prefix@ + join(views(lines@.subrange(start as int, end as int)), sep@),
{
    let mut r = String::new();
    r.append(prefix);
    let mut k: usize = start;
    while k < end
        invariant
            start <= k <= end <= lines.len(),
            r@ == prefix@ + join(views(lines@.subrange(start as int, k as int)), sep@),
        decreases end - k,
    {
        let ghost before = views(lines@.subrange(start as int, k as int));
        let ghost after = views(lines@.subrange(start as int, k + 1));
        assert(after.drop_last() =~= before);
        assert(after.last() == lines@[k as int]@);
        if k > start {
            r.append(sep);
        } else {
            assert(before.len() == 0);
            assert(after.len() == 1);
        }
        r.append(lines[k].as_str());
        k = k + 1;
    }
    r
}

/// All of `lines` joined with `sep`.
pub fn join_all(lines: &Vec<String>, sep: &str) -> (r: String)
    ensures
        r@ == join(views(lines@), sep@),
{
    let r = join_range("", lines, 0, lines.len(), sep);
    proof {
        reveal_strlit("");
        assert(lines@.subrange(0, lines@.len() as int) =~= lines@);
        assert(""@ + join(views(lines@), sep@) =~= join(views(lines@), sep@));
    }
    r
}

/// The replies that send `lines` in pieces of `size` lines: each reply is
/// `prefix` followed by the lines of one piece joined with line breaks.
pub open spec fn chunk_replies(prefix: Seq<char>, lines: Seq<Seq<char>>, size: nat) -> Seq<Seq<char>> {
    chunks(lines, size).map_values(|c: Seq<Seq<char>>| prefix + join(c, seq!['\n']))
}

fn chunk_replies_from(prefix: &str, lines: &Vec<String>, size: usize, start: usize) -> (r: Vec<String>)
    requires
        size > 0,
        start <= lines.len(),
    ensures
        views(r@) == chunk_replies(prefix@, views(lines@).skip(start as int), size as nat),
    decreases lines.len() - start,
{
    let ghost rest = views(lines@).skip(start as int);
    if start == lines.len() {
        assert(rest.len() == 0);
        assert(views(Seq::<String>::empty()) =~= chunk_replies(prefix@, rest, size as nat));
        return Vec::new();
    }
    let end: usize = if lines.len() - start <= size { lines.len() } else { start + size };
    let piece = join_range(prefix, lines, start, end, "\n");
    proof {
        reveal_strlit("\n");
        assert("\n"@ =~= seq!['\n']);
    }
    let mut tail = chunk_replies_from(prefix, lines, size, end);
    let ghost tail_view = views(tail@);
    tail.insert(0, piece);
    proof {
        let first = views(lines@.subrange(start as int, end as int));
        if lines.len() - start <= size {
            assert(first =~= rest);
            assert(views(lines@).skip(end as int).len() == 0);
            assert(chunks(rest, size as nat) =~= seq![rest]);
        } else {
            assert(first =~= rest.take(size as int));
            assert(rest.skip(size as int) =~= views(lines@).skip(end as int));
            assert(chunks(rest, size as nat) =~= seq![rest.take(size as int)] + chunks(
                rest.skip(size as int),
                size as nat,
            ));
        }
        let cr = chunk_replies(prefix@, rest, size as nat);
        let later = chunk_replies(prefix@, views(lines@).skip(end as int), size as nat);
        assert(tail_view == later);
        assert(piece@ == prefix@ + join(first, seq!['\n']));
        assert(cr.len() == later.len() + 1);
        assert(cr[0] == piece@);
        assert forall|i: int| 1 <= i < cr.len() implies cr[i] == later[i - 1] by {
            if lines.len() - start > size {
                assert(chunks(rest, size as nat)[i] == chunks(rest.skip(size as int), size as nat)[i
                    - 1]);
            }
        }
        assert(views(tail@) =~= cr);
    }
    tail
}

/// Sends `lines` in pieces of `size` lines, each reply starting with `prefix`.
pub fn joined_chunks(prefix: &str, lines: &Vec<String>, size: usize) -> (r: Vec<String>)
    requires
        size > 0,
    ensures
        views(r@) == chunk_replies(prefix@, views(lines@), size as nat),
{
    let r = chunk_replies_from(prefix, lines, size, 0);
    assert(views(lines@).skip(0) =~= views(lines@));
    r
}

} // verus!

verus! {

/// The UTF-8 length of a text, in bytes (what `str::len` returns).
pub open spec fn byte_len(s: Seq<char>) -> nat {
    vstd::utf8::encode_utf8(s).len()
}

/// Whether cutting the text after `max` bytes would split a character.
pub open spec fn cuts_inside_char(s: Seq<char>, max: nat) -> bool {
    byte_len(s) > max && !vstd::utf8::is_char_boundary(vstd::utf8::encode_utf8(s), max as int)
}

/// The characters whose encoding fills the first `max` bytes of the text.
pub open spec fn byte_prefix(s: Seq<char>, max: nat) -> Seq<char> {
    vstd::utf8::decode_utf8(vstd::utf8::encode_utf8(s).subrange(0, max as int))
}

/// The text itself when it is at most `max` bytes long; else its first `max`
/// bytes followed by `...`.
pub open spec fn truncated(s: Seq<char>, max: nat) -> Seq<char> {
    if byte_len(s) <= max {
        s
    } else {
        byte_prefix(s, max) + "..."@
    }
}

/// A cut at a character boundary keeps a prefix of the text, and that
/// prefix is exactly `max` bytes long.
pub proof fn lemma_byte_prefix_is_prefix(s: Seq<char>, max: nat)
    requires
        !cuts_inside_char(s, max),
        byte_len(s) > max,
    ensures
        s.take(byte_prefix(s, max).len() as int) == byte_prefix(s, max),
        byte_len(byte_prefix(s, max)) == max,
{
    let bytes = vstd::utf8::encode_utf8(s);
    vstd::utf8::encode_utf8_valid_utf8(s);
    vstd::utf8::encode_utf8_decode_utf8(s);
    vstd::utf8::decode_utf8_split(bytes, max as int);
    vstd::utf8::valid_utf8_split(bytes, max as int);
    vstd::utf8::decode_utf8_encode_utf8(bytes.subrange(0, max as int));
    let head = byte_prefix(s, max);
    assert(s =~= head + vstd::utf8::decode_utf8(bytes.subrange(max as int, bytes.len() as int)));
    assert(s.take(head.len() as int) =~= head);
}

/// Shortens a text to `max` bytes, marking the cut with `...`.
/// A cut inside a character is left out: slicing there panics.
pub fn truncate(s: &str, max: usize) -> (r: String)
    requires
        byte_len(s@) <= usize::MAX,
        !cuts_inside_char(s@, max as nat),
    ensures
        r@ == truncated(s@, max as nat),
{
    if s.len() <= max {
        s.to_owned()
    } else {
        let (head, _) = s.split_at(max);
        proof {
            vstd::utf8::encode_utf8_decode_utf8(head@);
        }
        let mut r = head.to_owned();
        r.append("...");
        r
    }
}

} // verus!

verus! {

/// Whether `needle` occurs in `hay` as a contiguous piece (`str::contains`).
pub open spec fn occurs_in(hay: Seq<char>, needle: Seq<char>) -> bool {
    exists|i: int| 0 <= i <= hay.len() - needle.len() && #[trigger] hay.subrange(i, i + needle.len()) == needle
}

fn matches_at(hay: &Vec<char>, needle: &Vec<char>, at: usize) -> (b: bool)
    requires
        at + needle.len() <= hay.len(),
    ensures
        b == (hay@.subrange(at as int, at + needle.len()) == needle@),
{
    let mut k: usize = 0;
    while k < needle.len()
        invariant
            k <= needle.len(),
            at + needle.len() <= hay.len(),
            forall|j: int| 0 <= j < k ==> hay@[at + j] == needle@[j],
        decreases needle.len() - k,
    {
        if hay[at + k] != needle[k] {
            assert(hay@.subrange(at as int, at + needle.len())[k as int] != needle@[k as int]);
            return false;
        }
        k = k + 1;
    }
    assert(hay@.subrange(at as int, at + needle.len()) =~= needle@);
    true
}

/// Whether `needle` occurs in `hay`.
pub fn contains_chars(hay: &Vec<char>, needle: &Vec<char>) -> (b: bool)
    ensures
        b == occurs_in(hay@, needle@),
{
    if needle.len() > hay.len() {
        return false;
    }
    if needle.len() == 0 {
        assert(hay@.subrange(0, 0 + needle@.len() as int) =~= needle@);
        return true;
    }
    let last: usize = hay.len() - needle.len();
    let mut at: usize = 0;
    while at <= last
        invariant
            last + needle.len() == hay.len(),
            needle.len() >= 1,
            at <= last + 1,
            forall|i: int| 0 <= i < at ==> #[trigger] hay@.subrange(i, i + needle.len()) != needle@,
        decreases last + 1 - at,
    {
        if matches_at(hay, needle, at) {
            return true;
        }
        at = at + 1;
    }
    false
}

} // verus!

verus! {

/// Whether a character is an ASCII decimal digit.
pub open spec fn is_digit(c: char) -> bool {
    '0' <= c && c <= '9'
}

/// The number that a run of decimal digits denotes.
pub open spec fn digits_value(ds: Seq<char>) -> int
    decreases ds.len(),
{
    if ds.len() == 0 {
        0
    } else {
        digits_value(ds.drop_last()) * 10 + (ds.last() as int - 48)
    }
}

/// Whether every character is a decimal digit.
pub open spec fn all_digits(ds: Seq<char>) -> bool {
    forall|i: int| 0 <= i < ds.len() ==> is_digit(#[trigger] ds[i])
}

/// What `str::parse::<i64>` accepts: an optional `+` or `-`, then one or
/// more decimal digits, denoting a value in the range of `i64`.
pub open spec fn parsed_i64(s: Seq<char>) -> Option<i64> {
    let negative = s.len() > 0 && s[0] == '-';
    let signed = s.len() > 0 && (s[0] == '-' || s[0] == '+');
    let body = if signed { s.drop_first() } else { s };
    let value = if negative { -digits_value(body) } else { digits_value(body) };
    if body.len() > 0 && all_digits(body) && i64::MIN <= value <= i64::MAX {
        Some(value as i64)
    } else {
        None
    }
}

/// Parses a decimal integer the way `str::parse::<i64>` does.
pub fn parse_i64(s: &str) -> (r: Option<i64>)
    ensures
        r == parsed_i64(s@),
{
    let cs = chars_of(s);
    let n = cs.len();
    let negative = n > 0 && cs[0] == '-';
    let signed = n > 0 && (cs[0] == '-' || cs[0] == '+');
    let first: usize = if signed { 1 } else { 0 };
    let ghost body = if signed { s@.drop_first() } else { s@ };
    if first == n {
        return None;
    }
    assert(body =~= s@.subrange(first as int, n as int));
    // Magnitudes above the cap are all out of range, whatever follows.
    let cap: u128 = 9223372036854775809;
    let mut acc: u128 = 0;
    let mut k: usize = first;
    while k < n
        invariant
            cs@ == s@,
            n == cs.len(),
            n == s@.len(),
            signed == (s@.len() > 0 && (s@[0] == '-' || s@[0] == '+')),
            negative == (s@.len() > 0 && s@[0] == '-'),
            first == (if signed { 1usize } else { 0usize }),
            body == (if signed { s@.drop_first() } else { s@ }),
            acc <= cap,
            cap == 9223372036854775809,
            first <= k <= n,
            body == s@.subrange(first as int, n as int),
            all_digits(s@.subrange(first as int, k as int)),
            acc as int == if digits_value(s@.subrange(first as int, k as int)) < cap {
                digits_value(s@.subrange(first as int, k as int))
            } else {
                cap as int
            },
            digits_value(s@.subrange(first as int, k as int)) >= 0,
        decreases n - k,
    {
        let c = cs[k];
        let ghost prev = s@.subrange(first as int, k as int);
        let ghost next = s@.subrange(first as int, k + 1);
        assert(next.drop_last() =~= prev);
        if !('0' <= c && c <= '9') {
            assert(!is_digit(body[k - first]));
            return None;
        }
        let d: u128 = (c as u32 - 48) as u128;
        let grown: u128 = acc * 10 + d;
        acc = if grown < cap { grown } else { cap };
        k = k + 1;
        assert(all_digits(next));
    }
    assert(s@.subrange(first as int, n as int) =~= body);
    if negative {
        if acc <= 9223372036854775808 {
            let magnitude: i128 = acc as i128;
            Some((0i128 - magnitude) as i64)
        } else {
            None
        }
    } else {
        if acc <= 9223372036854775807 {
            Some(acc as i64)
        } else {
            None
        }
    }
}

} // verus!

verus! {

/// The decimal rendering of a natural number is a non-empty run of digits
/// that denotes the number.
pub proof fn lemma_dec_nat_digits(n: nat)
    ensures
        dec_nat(n).len() > 0,
        all_digits(dec_nat(n)),
        digits_value(dec_nat(n)) == n,
    decreases n,
{
    if n >= 10 {
        lemma_dec_nat_digits(n / 10);
        let ds = dec_nat(n);
        assert(ds.drop_last() =~= dec_nat(n / 10));
        assert(ds.last() as int - 48 == n % 10);
        assert((n / 10) * 10 + n % 10 == n) by (nonlinear_arith);
        assert(digits_value(ds) == digits_value(ds.drop_last()) * 10 + (ds.last() as int - 48));
        assert forall|i: int| 0 <= i < ds.len() implies is_digit(#[trigger] ds[i]) by {
            if i < ds.len() - 1 {
                assert(ds[i] == dec_nat(n / 10)[i]);
            }
        }
    } else {
        let ds = dec_nat(n);
        assert(ds.drop_last() =~= Seq::<char>::empty());
        assert(digits_value(Seq::<char>::empty()) == 0);
        assert(digits_value(ds) == digits_value(ds.drop_last()) * 10 + (ds.last() as int - 48));
    }
}

/// Reading back what `Display` writes for an `i64` gives the same number.
pub proof fn lemma_parse_display_roundtrip(i: i64)
    ensures
        parsed_i64(dec_int(i as int)) == Some(i),
{
    if i < 0 {
        let m = (-i) as nat;
        lemma_dec_nat_digits(m);
        let s = dec_int(i as int);
        assert(s.drop_first() =~= dec_nat(m));
        assert(is_digit(dec_nat(m)[0]));
    } else {
        lemma_dec_nat_digits(i as nat);
        assert(is_digit(dec_nat(i as nat)[0]));
    }
}

} // verus!

verus! {

/// Cutting into pieces loses and reorders nothing: the pieces, put back
/// together, give the original; each piece holds between one and `n` items,
/// and every piece but the last holds exactly `n`.
pub proof fn lemma_chunks_partition<A>(s: Seq<A>, n: nat)
    requires
        n > 0,
    ensures
        chunks(s, n).flatten() == s,
        forall|i: int| 0 <= i < chunks(s, n).len() ==> 0 < #[trigger] chunks(s, n)[i].len() <= n,
        forall|i: int| 0 <= i < chunks(s, n).len() - 1 ==> #[trigger] chunks(s, n)[i].len() == n,
    decreases s.len(),
{
    let c = chunks(s, n);
    if s.len() == 0 {
    } else if s.len() <= n {
        assert(c.drop_first() =~= Seq::<Seq<A>>::empty());
        assert(Seq::<Seq<A>>::empty().flatten() == Seq::<A>::empty());
        assert(c.first() == s);
        assert(c.flatten() == c.first() + c.drop_first().flatten());
        assert(c.flatten() =~= s);
    } else {
        let rest = s.skip(n as int);
        lemma_chunks_partition(rest, n);
        assert(c.drop_first() =~= chunks(rest, n));
        assert(c.first() == s.take(n as int));
        assert(s =~= s.take(n as int) + rest);
        assert forall|i: int| 0 <= i < c.len() implies 0 < #[trigger] c[i].len() <= n by {
            if i > 0 {
                assert(c[i] == chunks(rest, n)[i - 1]);
            }
        }
        assert forall|i: int| 0 <= i < c.len() - 1 implies #[trigger] c[i].len() == n by {
            if i > 0 {
                assert(c[i] == chunks(rest, n)[i - 1]);
            }
        }
    }
}

} // verus!

verus! {

/// Whether two texts are equal.
pub fn same_text(a: &str, b: &str) -> (r: bool)
    ensures
        r == (a@ == b@),
{
    let x = chars_of(a);
    let y = chars_of(b);
    if x.len() != y.len() {
        return false;
    }
    let mut k: usize = 0;
    while k < x.len()
        invariant
            k <= x.len() == y.len(),
            x@ == a@,
            y@ == b@,
            forall|j: int| 0 <= j < k ==> x@[j] == y@[j],
        decreases x.len() - k,
    {
        if x[k] != y[k] {
            assert(a@[k as int] != b@[k as int]);
            return false;
        }
        k = k + 1;
    }
    assert(x@ =~= y@);
    true
}

} // verus!

verus! {

/// Where the `i`-th part starts when parts are written one after another
/// with a separator of `sep_len` characters after each.
pub open spec fn part_start(parts: Seq<Seq<char>>, sep_len: nat, i: int) -> int
    decreases i,
{
    if i <= 0 {
        0
    } else {
        part_start(parts, sep_len, i - 1) + parts[i - 1].len() + sep_len
    }
}

/// Whether `text` is the parts written in order with `sep` between
/// consecutive ones, and nothing else: each part stands at its place, each
/// separator stands between two parts, and the text ends with the last part.
pub open spec fn laid_out(text: Seq<char>, parts: Seq<Seq<char>>, sep: Seq<char>) -> bool {
    &&& parts.len() == 0 ==> text.len() == 0
    &&& parts.len() > 0 ==> text.len() == part_start(parts, sep.len(), parts.len() - 1) + parts.last().len()
    &&& forall|i: int|
        0 <= i < parts.len() ==> text.subrange(
            part_start(parts, sep.len(), i),
            part_start(parts, sep.len(), i) + parts[i].len(),
        ) == #[trigger] parts[i]
    &&& forall|i: int|
        0 < i < parts.len() ==> text.subrange(
            #[trigger] part_start(parts, sep.len(), i) - sep.len(),
            part_start(parts, sep.len(), i),
        ) == sep
}

/// Whether the replies `r` send `lines` in pieces of at most `size` lines,
/// in order: each reply is `prefix` followed by the lines of its piece,
/// one per line, and the pieces together are exactly the lines.
pub open spec fn sent_in_pieces(r: Seq<Seq<char>>, prefix: Seq<char>, lines: Seq<Seq<char>>, size: nat) -> bool {
    exists|pieces: Seq<Seq<Seq<char>>>|
        #[trigger] pieces.flatten() == lines && pieces.len() == r.len() && (forall|j: int|
            0 <= j < pieces.len() ==> 0 < #[trigger] pieces[j].len() <= size) && (forall|j: int|
            0 <= j < r.len() ==> #[trigger] r[j] == prefix + join(pieces[j], seq!['\n']))
}

proof fn lemma_part_start_grows(parts: Seq<Seq<char>>, sep_len: nat, i: int, j: int)
    requires
        0 <= i <= j,
    ensures
        part_start(parts, sep_len, i) <= part_start(parts, sep_len, j),
        i < j ==> part_start(parts, sep_len, i) + parts[i].len() + sep_len <= part_start(parts, sep_len, j),
    decreases j - i,
{
    if i < j {
        lemma_part_start_grows(parts, sep_len, i, j - 1);
    }
}

proof fn lemma_part_start_prefix(parts: Seq<Seq<char>>, sep_len: nat, i: int)
    requires
        0 <= i < parts.len(),
    ensures
        part_start(parts.drop_last(), sep_len, i) == part_start(parts, sep_len, i),
    decreases i,
{
    if i > 0 {
        lemma_part_start_prefix(parts, sep_len, i - 1);
    }
}

proof fn lemma_subrange_of_front(a: Seq<char>, b: Seq<char>, x: int, y: int)
    requires
        0 <= x <= y <= a.len(),
    ensures
        (a + b).subrange(x, y) == a.subrange(x, y),
{
    assert((a + b).subrange(x, y) =~= a.subrange(x, y));
}

proof fn lemma_join_step_facts(parts: Seq<Seq<char>>, sep: Seq<char>)
    requires
        parts.len() >= 2,
        laid_out(join(parts.drop_last(), sep), parts.drop_last(), sep),
    ensures
        join(parts, sep) == join(parts.drop_last(), sep) + sep + parts.last(),
        join(parts.drop_last(), sep).len() == part_start(parts, sep.len(), parts.len() - 2) + parts[parts.len() - 2].len(),
        part_start(parts, sep.len(), parts.len() - 1) == join(parts.drop_last(), sep).len() + sep.len(),
{
    let n = parts.len() as int;
    let init = parts.drop_last();
    lemma_part_start_prefix(parts, sep.len(), n - 2);
    lemma_part_start_prefix(parts, sep.len(), n - 1);
    assert(init[n - 2] == parts[n - 2]);
    assert(init.last() == parts[n - 2]);
}

proof fn lemma_join_part_placed(parts: Seq<Seq<char>>, sep: Seq<char>, i: int)
    requires
        parts.len() >= 2,
        0 <= i < parts.len(),
        laid_out(join(parts.drop_last(), sep), parts.drop_last(), sep),
    ensures
        join(parts, sep).subrange(part_start(parts, sep.len(), i), part_start(parts, sep.len(), i) + parts[i].len())
            == parts[i],
{
    let n = parts.len() as int;
    let k = sep.len();
    let init = parts.drop_last();
    let a = join(init, sep);
    let front = a + sep;
    let t = join(parts, sep);
    lemma_join_step_facts(parts, sep);
    assert(t == front + parts.last());
    let x = part_start(parts, k, i);
    lemma_part_start_grows(parts, k, 0, i);
    if i < n - 1 {
        lemma_part_start_prefix(parts, k, i);
        lemma_part_start_grows(parts, k, i, n - 2);
        assert(init[i] == parts[i]);
        assert(x + parts[i].len() <= a.len());
        assert(a.subrange(part_start(init, k, i), part_start(init, k, i) + init[i].len()) == init[i]);
        lemma_subrange_of_front(a, sep, x, x + parts[i].len());
        lemma_subrange_of_front(front, parts.last(), x, x + parts[i].len());
    } else {
        assert(t.subrange(x, x + parts[i].len()) =~= parts.last());
    }
}

proof fn lemma_join_sep_placed(parts: Seq<Seq<char>>, sep: Seq<char>, i: int)
    requires
        parts.len() >= 2,
        0 < i < parts.len(),
        laid_out(join(parts.drop_last(), sep), parts.drop_last(), sep),
    ensures
        join(parts, sep).subrange(part_start(parts, sep.len(), i) - sep.len(), part_start(parts, sep.len(), i)) == sep,
{
    let n = parts.len() as int;
    let k = sep.len();
    let init = parts.drop_last();
    let a = join(init, sep);
    let front = a + sep;
    let t = join(parts, sep);
    lemma_join_step_facts(parts, sep);
    assert(t == front + parts.last());
    let x = part_start(parts, k, i);
    lemma_part_start_grows(parts, k, 0, i);
    if i < n - 1 {
        lemma_part_start_prefix(parts, k, i);
        lemma_part_start_grows(parts, k, i, n - 2);
        lemma_part_start_grows(parts, k, i - 1, i);
        assert(x <= a.len());
        assert(a.subrange(part_start(init, k, i) - k, part_start(init, k, i)) == sep);
        lemma_subrange_of_front(a, sep, x - k, x);
        lemma_subrange_of_front(front, parts.last(), x - k, x);
    } else {
        assert(front.subrange(x - k, x) =~= sep);
        lemma_subrange_of_front(front, parts.last(), x - k, x);
    }
}

/// Joining writes the parts in order with the separator between consecutive
/// ones, and nothing else.
pub proof fn lemma_join_laid_out(parts: Seq<Seq<char>>, sep: Seq<char>)
    ensures
        laid_out(join(parts, sep), parts, sep),
    decreases parts.len(),
{
    let t = join(parts, sep);
    let n = parts.len() as int;
    let k = sep.len();
    if n == 0 {
    } else if n == 1 {
        assert(t == parts[0]);
        assert(t.subrange(0, parts[0].len() as int) =~= parts[0]);
    } else {
        lemma_join_laid_out(parts.drop_last(), sep);
        lemma_join_step_facts(parts, sep);
        assert forall|i: int| 0 <= i < n implies t.subrange(
            part_start(parts, k, i),
            part_start(parts, k, i) + parts[i].len(),
        ) == #[trigger] parts[i] by {
            lemma_join_part_placed(parts, sep, i);
        }
        assert forall|i: int| 0 < i < n implies t.subrange(
            #[trigger] part_start(parts, k, i) - k,
            part_start(parts, k, i),
        ) == sep by {
            lemma_join_sep_placed(parts, sep, i);
        }
    }
}

/// Replies made by [`chunk_replies`] send every line once, in order, at
/// most `size` to a reply, each reply under `prefix`; there is at least one
/// reply when there is a line.
pub proof fn lemma_chunk_replies_send_all(prefix: Seq<char>, lines: Seq<Seq<char>>, size: nat)
    requires
        size > 0,
    ensures
        sent_in_pieces(chunk_replies(prefix, lines, size), prefix, lines, size),
        lines.len() > 0 ==> chunk_replies(prefix, lines, size).len() > 0,
{
    let pieces = chunks(lines, size);
    let r = chunk_replies(prefix, lines, size);
    lemma_chunks_partition(lines, size);
    assert(r.len() == pieces.len());
    assert forall|j: int| 0 <= j < r.len() implies #[trigger] r[j] == prefix + join(pieces[j], seq!['\n']) by {}
    assert(pieces.flatten() == lines);
    if lines.len() > 0 {
        assert(pieces.len() > 0);
    }
}

/// `{:02}` writes a number that reads back as the same number, and a
/// number from zero to nine as a zero followed by its digit.
pub proof fn lemma_pad_zero2_denotes(i: i64)
    ensures
        parsed_i64(pad_zero2(i as int)) == Some(i),
        0 <= i < 10 ==> pad_zero2(i as int) == seq!['0', (i + 48) as char],
{
    if 0 <= i < 10 {
        let s = pad_zero2(i as int);
        assert(dec_nat(i as nat) == seq![digit_char(i as nat)]);
        assert(s =~= seq!['0', (i + 48) as char]);
        let z = seq!['0'];
        assert(s.drop_last() =~= z);
        assert(z.drop_last() =~= Seq::<char>::empty());
        assert(digits_value(z.drop_last()) == 0);
        assert(digits_value(z) == 0);
        assert(digits_value(s) == i);
        assert(all_digits(s));
    } else {
        lemma_parse_display_roundtrip(i);
    }
}

} // verus!

verus! {

/// Right alignment keeps the text at the end, puts only spaces before it,
/// and fills the field: the result is `width` long, or the text itself when
/// the text is already as wide.
pub proof fn lemma_pad_left_aligns_right(s: Seq<char>, width: nat)
    ensures
        pad_left(s, width).len() == if s.len() < width { width } else { s.len() },
        pad_left(s, width).skip(pad_left(s, width).len() - s.len()) == s,
        forall|k: int| 0 <= k < pad_left(s, width).len() - s.len() ==> #[trigger] pad_left(s, width)[k] == ' ',
{
    let p = pad_left(s, width);
    assert(p.skip(p.len() - s.len()) =~= s);
}

/// Flattening to one line keeps the length, keeps every character but the
/// line break, and leaves no line break.
pub proof fn lemma_one_line_flattens(s: Seq<char>)
    ensures
        one_line(s).len() == s.len(),
        forall|k: int| 0 <= k < s.len() ==> #[trigger] one_line(s)[k] != '\n',
        forall|k: int| 0 <= k < s.len() && s[k] != '\n' ==> #[trigger] one_line(s)[k] == s[k],
        forall|k: int| 0 <= k < s.len() && s[k] == '\n' ==> #[trigger] one_line(s)[k] == ' ',
{
}

} // verus!
