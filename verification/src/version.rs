//! The version a program reports about itself, read from the text it prints.
//!
//! The text is cut at every `.`; each piece is read as an unsigned decimal
//! number; pieces that are no number are left out. Exactly three numbers make
//! a version, anything else is the "no version" value.
use vstd::prelude::*;

verus! {

/// A three-part version, or the sentinel that stands for "no version".
#[derive(Clone, Copy, Debug, PartialEq, Eq, Structural)]
pub struct Version {
    pub major: u64,
    pub minor: u64,
    pub patch: u64,
    pub none: bool,
}

impl Version {
    /// The sentinel as a mathematical value: all parts zero, `none` set.
    pub open spec fn spec_none() -> Version {
        Version { major: 0, minor: 0, patch: 0, none: true }
    }

    /// A real version as a mathematical value.
    pub open spec fn spec_new(major: u64, minor: u64, patch: u64) -> Version {
        Version { major, minor, patch, none: false }
    }

    /// The version `major.minor.patch`.
    pub fn new(major: u64, minor: u64, patch: u64) -> (v: Version)
        ensures
            v == Version::spec_new(major, minor, patch),
    {
        Version { major, minor, patch, none: false }
    }

    /// The sentinel that stands for "no version".
    pub fn none() -> (v: Version)
        ensures
            v == Version::spec_none(),
    {
        Version { major: 0, minor: 0, patch: 0, none: true }
    }
}

/// `c` is one of `0` to `9`.
pub open spec fn is_digit(c: char) -> bool {
    '0' as u32 <= c as u32 <= '9' as u32
}

/// The value of a decimal digit.
pub open spec fn digit_value(c: char) -> nat
    recommends
        is_digit(c),
{
    (c as u32 - '0' as u32) as nat
}

/// Every character of `s` is a decimal digit.
pub open spec fn all_digits(s: Seq<char>) -> bool {
    forall|i: int| 0 <= i < s.len() ==> is_digit(#[trigger] s[i])
}

/// The number that a run of decimal digits denotes, most significant digit
/// first. The empty run denotes zero.
pub open spec fn digits_value(s: Seq<char>) -> nat
    decreases s.len(),
{
    if s.len() == 0 {
        0
    } else {
        digits_value(s.drop_last()) * 10 + digit_value(s.last())
    }
}

/// A piece without the single `+` that may lead it.
pub open spec fn unsigned_part(s: Seq<char>) -> Seq<char> {
    if s.len() > 0 && s[0] == '+' {
        s.drop_first()
    } else {
        s
    }
}

/// A piece read as an unsigned 64-bit decimal number: an optional `+`, then
/// at least one digit and nothing but digits, with a value that fits.
pub open spec fn parse_number(s: Seq<char>) -> Option<u64> {
    let digits = unsigned_part(s);
    if digits.len() > 0 && all_digits(digits) && digits_value(digits) <= u64::MAX {
        Some(digits_value(digits) as u64)
    } else {
        None
    }
}

/// The pieces between the dots of `s`, in order. A text without a dot is one
/// piece; `n` dots always give `n + 1` pieces, some of which may be empty.
pub open spec fn split_on_dot(s: Seq<char>) -> Seq<Seq<char>>
    decreases s.len(),
{
    if s.len() == 0 {
        seq![Seq::<char>::empty()]
    } else {
        let before = split_on_dot(s.drop_last());
        if s.last() == '.' {
            before.push(Seq::<char>::empty())
        } else {
            before.drop_last().push(before.last().push(s.last()))
        }
    }
}

/// The numbers among the pieces, in order; a piece that is no number is
/// passed over.
pub open spec fn parsed_numbers(pieces: Seq<Seq<char>>) -> Seq<u64>
    decreases pieces.len(),
{
    if pieces.len() == 0 {
        Seq::<u64>::empty()
    } else {
        let before = parsed_numbers(pieces.drop_last());
        match parse_number(pieces.last()) {
            Some(n) => before.push(n),
            None => before,
        }
    }
}

/// The version that a list of numbers stands for.
pub open spec fn version_from_numbers(numbers: Seq<u64>) -> Version {
    if numbers.len() == 3 {
        Version::spec_new(numbers[0], numbers[1], numbers[2])
    } else {
        Version::spec_none()
    }
}

/// The version that a program's output stands for.
pub open spec fn version_of(text: Seq<char>) -> Version {
    version_from_numbers(parsed_numbers(split_on_dot(text)))
}

/// The pieces joined again with a dot between neighbours.
pub open spec fn join_with_dot(pieces: Seq<Seq<char>>) -> Seq<char>
    decreases pieces.len(),
{
    if pieces.len() == 0 {
        Seq::<char>::empty()
    } else if pieces.len() == 1 {
        pieces[0]
    } else {
        join_with_dot(pieces.drop_last()) + seq!['.'] + pieces.last()
    }
}

/// Cutting loses nothing and leaves no dot behind: there is at least one
/// piece, no piece holds a dot, and the pieces joined with dots are the text.
pub proof fn lemma_split_on_dot(s: Seq<char>)
    ensures
        split_on_dot(s).len() >= 1,
        forall|i: int, j: int|
            0 <= i < split_on_dot(s).len() && 0 <= j < split_on_dot(s)[i].len()
                ==> #[trigger] split_on_dot(s)[i][j] != '.',
        join_with_dot(split_on_dot(s)) == s,
    decreases s.len(),
{
    if s.len() == 0 {
        assert(join_with_dot(split_on_dot(s)) =~= s);
    } else {
        let shorter = s.drop_last();
        lemma_split_on_dot(shorter);
        let before = split_on_dot(shorter);
        let now = split_on_dot(s);
        if s.last() == '.' {
            assert(now.drop_last() =~= before);
            assert(join_with_dot(now) =~= join_with_dot(before) + seq!['.'] + now.last());
            assert(join_with_dot(now) =~= s);
        } else {
            let grown = before.last().push(s.last());
            assert(now.last() == grown);
            if before.len() == 1 {
                assert(now.len() == 1);
                assert(join_with_dot(before) == before[0]);
                assert(shorter.push(s.last()) =~= s);
                assert(join_with_dot(now) =~= s);
            } else {
                assert(now.drop_last() =~= before.drop_last());
                assert(join_with_dot(now) =~= join_with_dot(before.drop_last()) + seq!['.']
                    + grown);
                assert(shorter.push(s.last()) =~= s);
                assert(join_with_dot(now) =~= s);
            }
        }
    }
}

/// No character of `piece` is a dot.
pub open spec fn dot_free(piece: Seq<char>) -> bool {
    forall|j: int| 0 <= j < piece.len() ==> #[trigger] piece[j] != '.'
}

/// Cutting a text that ends in a dot-free piece: the piece is the last one,
/// whole.
pub proof fn lemma_split_ends_in_piece(s: Seq<char>, piece: Seq<char>)
    requires
        dot_free(piece),
    ensures
        split_on_dot(s + seq!['.'] + piece) == split_on_dot(s).push(piece),
        split_on_dot(piece) == seq![piece],
    decreases piece.len(),
{
    let text = s + seq!['.'] + piece;
    if piece.len() == 0 {
        assert(piece =~= Seq::<char>::empty());
        assert(text.last() == '.');
        assert(text.drop_last() =~= s);
        assert(split_on_dot(text) =~= split_on_dot(s).push(piece));
        assert(split_on_dot(piece) =~= seq![piece]);
    } else {
        let shorter = piece.drop_last();
        assert(piece.last() == piece[piece.len() - 1]);
        lemma_split_ends_in_piece(s, shorter);
        assert(text.drop_last() =~= s + seq!['.'] + shorter);
        assert(text.last() == piece.last());
        assert(shorter.push(piece.last()) =~= piece);
        assert(split_on_dot(s).push(shorter).drop_last() =~= split_on_dot(s));
        assert(split_on_dot(text) =~= split_on_dot(s).push(piece));
        assert(seq![shorter].drop_last().push(shorter.push(piece.last())) =~= seq![piece]);
    }
}

/// Joining and cutting are inverse to each other: cutting the join of
/// dot-free pieces gives the pieces back, as joining the pieces of a text
/// gives the text back.
pub proof fn lemma_split_of_join(pieces: Seq<Seq<char>>)
    requires
        pieces.len() >= 1,
        forall|i: int| 0 <= i < pieces.len() ==> dot_free(#[trigger] pieces[i]),
    ensures
        split_on_dot(join_with_dot(pieces)) == pieces,
    decreases pieces.len(),
{
    if pieces.len() == 1 {
        lemma_split_ends_in_piece(Seq::empty(), pieces[0]);
        assert(seq![pieces[0]] =~= pieces);
    } else {
        lemma_split_of_join(pieces.drop_last());
        lemma_split_ends_in_piece(join_with_dot(pieces.drop_last()), pieces.last());
        assert(pieces.drop_last().push(pieces.last()) =~= pieces);
    }
}

/// A piece that is a number holds no dot.
pub proof fn lemma_number_is_dot_free(piece: Seq<char>)
    requires
        parse_number(piece) is Some,
    ensures
        dot_free(piece),
{
    let digits = unsigned_part(piece);
    assert forall|j: int| 0 <= j < piece.len() implies #[trigger] piece[j] != '.' by {
        if piece[0] == '+' {
            if j > 0 {
                assert(is_digit(digits[j - 1]));
            }
        } else {
            assert(is_digit(digits[j]));
        }
    }
}

/// There are never more numbers than pieces.
pub proof fn lemma_numbers_at_most_pieces(pieces: Seq<Seq<char>>)
    ensures
        parsed_numbers(pieces).len() <= pieces.len(),
    decreases pieces.len(),
{
    if pieces.len() > 0 {
        lemma_numbers_at_most_pieces(pieces.drop_last());
    }
}

/// Where every piece is a number, every piece gives one.
pub proof fn lemma_all_numbers(pieces: Seq<Seq<char>>)
    requires
        forall|i: int| 0 <= i < pieces.len() ==> parse_number(#[trigger] pieces[i]) is Some,
    ensures
        parsed_numbers(pieces).len() == pieces.len(),
        forall|i: int|
            0 <= i < pieces.len() ==> Some(#[trigger] parsed_numbers(pieces)[i]) == parse_number(
                pieces[i],
            ),
    decreases pieces.len(),
{
    if pieces.len() > 0 {
        lemma_all_numbers(pieces.drop_last());
    }
}

/// The version of pieces joined with dots is decided by the numbers among
/// the pieces alone: it is a real version exactly where three of them are
/// numbers, whatever else stands between the dots. Fewer than three pieces
/// never make a version.
pub proof fn law_version_of_joined_pieces(pieces: Seq<Seq<char>>)
    requires
        pieces.len() >= 1,
        forall|i: int| 0 <= i < pieces.len() ==> dot_free(#[trigger] pieces[i]),
    ensures
        version_of(join_with_dot(pieces)) == version_from_numbers(parsed_numbers(pieces)),
        version_of(join_with_dot(pieces)).none <==> parsed_numbers(pieces).len() != 3,
        pieces.len() < 3 ==> version_of(join_with_dot(pieces)) == Version::spec_none(),
{
    lemma_split_of_join(pieces);
    lemma_numbers_at_most_pieces(pieces);
}

/// Three numbers with dots between them are the version of these numbers.
pub proof fn law_version_of_three_numbers(a: Seq<char>, b: Seq<char>, c: Seq<char>)
    requires
        parse_number(a) is Some,
        parse_number(b) is Some,
        parse_number(c) is Some,
    ensures
        version_of(a + seq!['.'] + b + seq!['.'] + c) == Version::spec_new(
            parse_number(a)->Some_0,
            parse_number(b)->Some_0,
            parse_number(c)->Some_0,
        ),
{
    let pieces = seq![a, b, c];
    lemma_number_is_dot_free(a);
    lemma_number_is_dot_free(b);
    lemma_number_is_dot_free(c);
    lemma_split_of_join(pieces);
    lemma_all_numbers(pieces);
    reveal_with_fuel(join_with_dot, 3);
    assert(pieces.drop_last() =~= seq![a, b]);
    assert(pieces.drop_last().drop_last() =~= seq![a]);
    assert(join_with_dot(pieces) =~= a + seq!['.'] + b + seq!['.'] + c);
}

/// Three pieces of which one is no number are no version.
pub proof fn law_version_with_a_piece_that_is_no_number(a: Seq<char>, b: Seq<char>, c: Seq<char>)
    requires
        dot_free(a),
        dot_free(b),
        dot_free(c),
        parse_number(a) is None || parse_number(b) is None || parse_number(c) is None,
    ensures
        version_of(a + seq!['.'] + b + seq!['.'] + c) == Version::spec_none(),
{
    let pieces = seq![a, b, c];
    lemma_split_of_join(pieces);
    reveal_with_fuel(join_with_dot, 3);
    reveal_with_fuel(parsed_numbers, 4);
    assert(pieces.drop_last() =~= seq![a, b]);
    assert(pieces.drop_last().drop_last() =~= seq![a]);
    assert(pieces.drop_last().drop_last().drop_last() =~= Seq::<Seq<char>>::empty());
    assert(join_with_dot(pieces) =~= a + seq!['.'] + b + seq!['.'] + c);
    lemma_numbers_at_most_pieces(seq![a]);
    lemma_numbers_at_most_pieces(seq![a, b]);
}

/// A longer run of digits never denotes less than its beginning.
pub proof fn lemma_digits_value_grows(s: Seq<char>, k: int)
    requires
        0 <= k <= s.len(),
    ensures
        digits_value(s.subrange(0, k)) <= digits_value(s),
    decreases s.len(),
{
    if k == s.len() {
        assert(s.subrange(0, k) =~= s);
    } else {
        lemma_digits_value_grows(s.drop_last(), k);
        assert(s.drop_last().subrange(0, k) =~= s.subrange(0, k));
    }
}

/// Reads the characters `chars[from..to]` as an unsigned decimal number.
pub fn parse_u64(chars: &Vec<char>, from: usize, to: usize) -> (r: Option<u64>)
    requires
        from <= to <= chars.len(),
    ensures
        r == parse_number(chars@.subrange(from as int, to as int)),
{
    let ghost piece = chars@.subrange(from as int, to as int);
    let mut at: usize = from;
    if from < to && chars[from] == '+' {
        at = from + 1;
    }
    let ghost digits = unsigned_part(piece);
    assert(digits =~= chars@.subrange(at as int, to as int));
    if at == to {
        return None;
    }
    let begin: usize = at;
    let mut value: u64 = 0;
    while at < to
        invariant
            begin <= at <= to <= chars.len(),
            begin < to,
            digits == unsigned_part(chars@.subrange(from as int, to as int)),
            digits == chars@.subrange(begin as int, to as int),
            all_digits(digits.subrange(0, at - begin)),
            value == digits_value(digits.subrange(0, at - begin)),
        decreases to - at,
    {
        let c: char = chars[at];
        let code: u32 = c as u32;
        assert(c == digits[at - begin]);
        if code < '0' as u32 || code > '9' as u32 {
            assert(!is_digit(digits[at - begin]));
            return None;
        }
        let digit: u64 = (code - '0' as u32) as u64;
        let ghost longer = digits.subrange(0, at - begin + 1);
        assert(longer.drop_last() =~= digits.subrange(0, at - begin));
        assert(longer.last() == c);
        assert(digits_value(longer) == value * 10 + digit);
        let grown = match value.checked_mul(10) {
            Some(tens) => tens.checked_add(digit),
            None => None,
        };
        match grown {
            Some(v) => {
                value = v;
            },
            None => {
                proof {
                    lemma_digits_value_grows(digits, at - begin + 1);
                }
                return None;
            },
        }
        at = at + 1;
    }
    assert(digits.subrange(0, at - begin) =~= digits);
    Some(value)
}

/// The characters of `text`, one by one.
pub fn chars_of(text: &str) -> (chars: Vec<char>)
    ensures
        chars@ == text@,
{
    let mut chars: Vec<char> = Vec::new();
    for c in it: text.chars()
        invariant
            it.seq() == text@,
            chars@ == it.seq().subrange(0, it.index()),
    {
        chars.push(c);
        assert(chars@ =~= it.seq().subrange(0, it.index() + 1));
    }
    assert(chars@ =~= text@);
    chars
}

/// The numbers found between the dots of `chars`, in order.
pub fn numbers_between_dots(chars: &Vec<char>) -> (numbers: Vec<u64>)
    ensures
        numbers@ == parsed_numbers(split_on_dot(chars@)),
{
    let mut numbers: Vec<u64> = Vec::new();
    let mut start: usize = 0;
    let mut at: usize = 0;
    let ghost done: Seq<Seq<char>> = Seq::empty();
    assert(chars@.subrange(0, 0) =~= Seq::<char>::empty());
    assert(split_on_dot(chars@.subrange(0, 0)) =~= done.push(chars@.subrange(0, 0)));
    while at < chars.len()
        invariant
            start <= at <= chars.len(),
            split_on_dot(chars@.subrange(0, at as int)) == done.push(
                chars@.subrange(start as int, at as int),
            ),
            numbers@ == parsed_numbers(done),
        decreases chars.len() - at,
    {
        let ghost read = chars@.subrange(0, at as int);
        let ghost longer = chars@.subrange(0, at + 1);
        let ghost piece = chars@.subrange(start as int, at as int);
        assert(longer.drop_last() =~= read);
        assert(longer.last() == chars@[at as int]);
        if chars[at] == '.' {
            let found = parse_u64(chars, start, at);
            proof {
                let closed = done.push(piece);
                assert(closed.drop_last() =~= done);
                assert(closed.last() == piece);
                assert(chars@.subrange(at + 1, at + 1) =~= Seq::<char>::empty());
                done = closed;
            }
            match found {
                Some(n) => {
                    numbers.push(n);
                },
                None => {},
            }
            start = at + 1;
        } else {
            proof {
                let before = done.push(piece);
                assert(before.drop_last() =~= done);
                assert(piece.push(chars@[at as int]) =~= chars@.subrange(start as int, at + 1));
            }
        }
        at = at + 1;
    }
    assert(chars@.subrange(0, at as int) =~= chars@);
    let last = parse_u64(chars, start, at);
    proof {
        let piece = chars@.subrange(start as int, at as int);
        let all = done.push(piece);
        assert(all.drop_last() =~= done);
        assert(all.last() == piece);
    }
    match last {
        Some(n) => {
            numbers.push(n);
        },
        None => {},
    }
    numbers
}

/// Reads a version from what a program printed when asked for it.
///
/// Three numbers between dots give a version; any other count, also after
/// pieces that are no number were left out, gives the sentinel.
pub fn parse_version(text: &str) -> (v: Version)
    ensures
        v == version_of(text@),
{
    let chars = chars_of(text);
    let numbers = numbers_between_dots(&chars);
    if numbers.len() != 3 {
        return Version::none();
    }
    Version::new(numbers[0], numbers[1], numbers[2])
}

} // verus!
