//! Formations: outfield lines from defence to attack, and the names of the positions.
use crate::text::{characters, decimal, digit_text, is_white, trim, trimmed};
use vstd::prelude::*;
use vstd::string::*;

verus! {

/// The characters that part the lines of a formation.
pub open spec fn is_separator(c: char) -> bool {
    c == '-' || c == ',' || c == ' '
}

/// The pieces of a text between separators, the first one starting with `piece`.
pub open spec fn pieces(s: Seq<char>, piece: Seq<char>) -> Seq<Seq<char>>
    decreases s.len(),
{
    if s.len() == 0 {
        seq![piece]
    } else if is_separator(s[0]) {
        seq![piece] + pieces(s.drop_first(), Seq::empty())
    } else {
        pieces(s.drop_first(), piece.push(s[0]))
    }
}

/// The digit's value.
pub open spec fn digit_value(c: char) -> int {
    c as u32 - '0' as u32
}

/// All characters are decimal digits.
pub open spec fn all_digits(s: Seq<char>) -> bool {
    forall|i: int| 0 <= i < s.len() ==> 0 <= digit_value(#[trigger] s[i]) <= 9
}

/// The number that the digits write.
pub open spec fn digits_value(s: Seq<char>) -> int
    decreases s.len(),
{
    if s.len() == 0 {
        0
    } else {
        digits_value(s.drop_last()) * 10 + digit_value(s.last())
    }
}

/// The digits of a numeral: a leading plus is allowed.
pub open spec fn numeral_digits(s: Seq<char>) -> Seq<char> {
    if s.len() > 1 && s[0] == '+' {
        s.drop_first()
    } else {
        s
    }
}

/// The count that a numeral writes, nothing where it is no numeral or too large.
pub open spec fn count_value(s: Seq<char>) -> Option<usize> {
    let d = numeral_digits(s);
    if d.len() > 0 && all_digits(d) && digits_value(d) <= usize::MAX {
        Some(digits_value(d) as usize)
    } else {
        None
    }
}

proof fn digits_value_is_monotone(s: Seq<char>, n: int)
    requires
        all_digits(s),
        0 <= n <= s.len(),
    ensures
        0 <= digits_value(s.take(n)) <= digits_value(s),
    decreases s.len(),
{
    if s.len() == 0 {
        assert(s.take(n) =~= s);
    } else if n == s.len() {
        assert(s.take(n) =~= s);
        assert(all_digits(s.drop_last()));
        digits_value_is_monotone(s.drop_last(), s.len() - 1);
        assert(s.drop_last().take(s.len() - 1) =~= s.drop_last());
    } else {
        assert(all_digits(s.drop_last()));
        digits_value_is_monotone(s.drop_last(), n);
        assert(s.drop_last().take(n) =~= s.take(n));
    }
}

/// Reads a count.
pub fn parse_count(s: &Vec<char>) -> (r: Option<usize>)
    ensures
        r == count_value(s@),
{
    let start: usize = if s.len() > 1 && s[0] == '+' { 1 } else { 0 };
    let ghost d = numeral_digits(s@);
    assert(d =~= s@.subrange(start as int, s@.len() as int));
    if s.len() == 0 {
        return None;
    }
    let mut value: usize = 0;
    let mut i: usize = start;
    let mut fits: bool = true;
    while i < s.len()
        invariant
            start <= i <= s@.len(),
            d == s@.subrange(start as int, s@.len() as int),
            d == numeral_digits(s@),
            d.len() > 0,
            all_digits(d.take(i - start)),
            fits ==> value == digits_value(d.take(i - start)),
            !fits ==> digits_value(d.take(i - start)) > usize::MAX,
        decreases s@.len() - i,
    {
        let c: char = s[i];
        let n: u32 = c as u32;
        let ghost k = i - start;
        assert(d[k] == c);
        assert(d.take(k + 1).drop_last() =~= d.take(k));
        assert(d.take(k + 1).last() == c);
        if n < 48 || n > 57 {
            assert(!all_digits(d));
            return None;
        }
        assert(all_digits(d.take(k + 1))) by {
            assert forall|j: int| 0 <= j < k + 1 implies 0 <= digit_value(
                #[trigger] d.take(k + 1)[j],
            ) <= 9 by {
                if j < k {
                    assert(d.take(k)[j] == d[j]);
                }
            }
        }
        let digit: usize = (n - 48) as usize;
        if fits {
            if value > usize::MAX / 10 || value * 10 > usize::MAX - digit {
                fits = false;
            } else {
                value = value * 10 + digit;
            }
        }
        i += 1;
    }
    assert(d.take(d.len() as int) =~= d);
    if fits {
        Some(value)
    } else {
        None
    }
}

/// The lines that the first `n` pieces name: blank pieces are skipped, any other has to be a
/// count.
pub open spec fn lines_of(parts: Seq<Seq<char>>, n: int) -> Option<Seq<usize>>
    decreases n,
{
    if n <= 0 {
        Some(Seq::empty())
    } else {
        let before = lines_of(parts, n - 1);
        let piece = trimmed(parts[n - 1]);
        if before is None || piece.len() == 0 {
            before
        } else if count_value(piece) is None {
            None
        } else {
            Some(before->0.push(count_value(piece)->0))
        }
    }
}

/// The outfield lines that a text names, nothing where there is none, one is zero, or one is
/// no count.
pub open spec fn outfield_lines(s: Seq<char>) -> Option<Seq<usize>> {
    let parts = pieces(s, Seq::empty());
    let lines = lines_of(parts, parts.len() as int);
    if lines is Some && lines->0.len() > 0 && !lines->0.contains(0usize) {
        lines
    } else {
        None
    }
}

fn split_lines(s: &Vec<char>) -> (r: Vec<Vec<char>>)
    ensures
        r@.len() == pieces(s@, Seq::empty()).len(),
        forall|i: int| 0 <= i < r@.len() ==> (#[trigger] r@[i])@ == pieces(s@, Seq::empty())[i],
{
    let mut r: Vec<Vec<char>> = Vec::new();
    let mut piece: Vec<char> = Vec::new();
    let mut i: usize = 0;
    let ghost mut done: Seq<Seq<char>> = Seq::empty();
    assert(s@.subrange(0, s@.len() as int) =~= s@);
    assert(done + pieces(s@, Seq::empty()) =~= pieces(s@, Seq::empty()));
    assert(piece@ =~= Seq::<char>::empty());
    while i < s.len()
        invariant
            i <= s@.len(),
            r@.len() == done.len(),
            forall|k: int| 0 <= k < r@.len() ==> (#[trigger] r@[k])@ == done[k],
            done + pieces(s@.subrange(i as int, s@.len() as int), piece@) == pieces(
                s@,
                Seq::empty(),
            ),
        decreases s@.len() - i,
    {
        let c: char = s[i];
        let ghost rest = s@.subrange(i as int, s@.len() as int);
        assert(rest.drop_first() =~= s@.subrange(i + 1, s@.len() as int));
        assert(rest[0] == c);
        if c == '-' || c == ',' || c == ' ' {
            let ghost whole = piece@;
            r.push(piece);
            piece = Vec::new();
            proof {
                assert(piece@ =~= Seq::<char>::empty());
                assert(done + (seq![whole] + pieces(rest.drop_first(), Seq::empty()))
                    =~= done.push(whole) + pieces(rest.drop_first(), Seq::empty()));
                done = done.push(whole);
            }
        } else {
            piece.push(c);
        }
        i += 1;
    }
    let ghost whole = piece@;
    r.push(piece);
    assert(s@.subrange(s@.len() as int, s@.len() as int).len() == 0);
    assert(done + seq![whole] =~= done.push(whole));
    r
}

/// Reads an outfield formation such as `3-2-1`, without the goalkeeper.
pub fn parse_outfield_formation(s: &str) -> (r: Option<Vec<usize>>)
    ensures
        r is Some <==> outfield_lines(s@) is Some,
        r is Some ==> r->0@ == outfield_lines(s@)->0,
{
    let text: Vec<char> = characters(s);
    let parts: Vec<Vec<char>> = split_lines(&text);
    let ghost all = pieces(s@, Seq::empty());
    let mut rows: Vec<usize> = Vec::new();
    let mut has_zero: bool = false;
    let mut bad: bool = false;
    let mut i: usize = 0;
    while i < parts.len()
        invariant
            i <= parts@.len(),
            parts@.len() == all.len(),
            forall|k: int| 0 <= k < parts@.len() ==> (#[trigger] parts@[k])@ == all[k],
            bad <==> lines_of(all, i as int) is None,
            !bad ==> rows@ == lines_of(all, i as int)->0,
            !bad ==> has_zero == rows@.contains(0usize),
        decreases parts@.len() - i,
    {
        let piece: Vec<char> = trim(&parts[i]);
        let ghost before = rows@;
        if !bad && piece.len() > 0 {
            match parse_count(&piece) {
                Some(n) => {
                    rows.push(n);
                    proof {
                        assert(rows@[before.len() as int] == n);
                        assert(forall|z: usize| before.contains(z) ==> rows@.contains(z)) by {
                            assert forall|z: usize| before.contains(z) implies rows@.contains(z) by {
                                let k = choose|k: int| 0 <= k < before.len() && before[k] == z;
                                assert(rows@[k] == z);
                            }
                        }
                    }
                    if n == 0 {
                        has_zero = true;
                    }
                },
                None => {
                    bad = true;
                },
            }
        }
        i += 1;
    }
    if bad || rows.len() == 0 || has_zero {
        None
    } else {
        Some(rows)
    }
}

/// The first `n` lines as a text, a separator between two of them.
pub open spec fn written(lines: Seq<usize>, separator: char, n: int) -> Seq<char>
    decreases n,
{
    if n <= 0 {
        Seq::empty()
    } else if n == 1 {
        decimal(lines[0] as nat)
    } else {
        written(lines, separator, n - 1) + seq![separator] + decimal(lines[n - 1] as nat)
    }
}

proof fn digits_are_read(d: nat)
    requires
        d < 10,
    ensures
        digit_text(d).len() == 1,
        digit_value(digit_text(d)[0]) == d,
{
    reveal_strlit("0");
    reveal_strlit("1");
    reveal_strlit("2");
    reveal_strlit("3");
    reveal_strlit("4");
    reveal_strlit("5");
    reveal_strlit("6");
    reveal_strlit("7");
    reveal_strlit("8");
    reveal_strlit("9");
}

proof fn numerals_are_digits(n: nat)
    ensures
        decimal(n).len() > 0,
        all_digits(decimal(n)),
        digits_value(decimal(n)) == n,
    decreases n,
{
    reveal_with_fuel(digits_value, 2);
    let d = decimal(n);
    digits_are_read(n % 10);
    assert(d.drop_last() =~= if n < 10 {
        Seq::empty()
    } else {
        decimal(n / 10)
    });
    assert(d.last() == digit_text(n % 10)[0]);
    if n >= 10 {
        numerals_are_digits(n / 10);
    }
    assert forall|i: int| 0 <= i < d.len() implies 0 <= digit_value(#[trigger] d[i]) <= 9 by {
        if i < d.len() - 1 {
            assert(d[i] == d.drop_last()[i]);
        }
    }
}

/// A numeral is read as the number it writes.
pub proof fn numerals_are_read(n: usize)
    ensures
        trimmed(decimal(n as nat)) == decimal(n as nat),
        count_value(decimal(n as nat)) == Some(n),
{
    let d = decimal(n as nat);
    numerals_are_digits(n as nat);
    assert(0 <= digit_value(d[0]) <= 9);
    assert(0 <= digit_value(d.last()) <= 9);
    assert(d[0] != '+');
    assert(!is_white(d[0]) && !is_white(d.last()));
}

proof fn unparted_text_is_one_piece(s: Seq<char>, piece: Seq<char>)
    requires
        forall|i: int| 0 <= i < s.len() ==> !is_separator(#[trigger] s[i]),
    ensures
        pieces(s, piece) == seq![piece + s],
    decreases s.len(),
{
    if s.len() > 0 {
        unparted_text_is_one_piece(s.drop_first(), piece.push(s[0]));
        assert(piece.push(s[0]) + s.drop_first() =~= piece + s);
    } else {
        assert(piece + s =~= piece);
    }
}

proof fn separators_part(a: Seq<char>, separator: char, b: Seq<char>, piece: Seq<char>)
    requires
        is_separator(separator),
    ensures
        pieces(a + seq![separator] + b, piece) == pieces(a, piece) + pieces(b, Seq::empty()),
    decreases a.len(),
{
    let whole = a + seq![separator] + b;
    if a.len() == 0 {
        assert(whole.drop_first() =~= b);
    } else {
        assert(whole.drop_first() =~= a.drop_first() + seq![separator] + b);
        if is_separator(a[0]) {
            separators_part(a.drop_first(), separator, b, Seq::empty());
            assert(pieces(whole, piece) =~= pieces(a, piece) + pieces(b, Seq::empty()));
        } else {
            separators_part(a.drop_first(), separator, b, piece.push(a[0]));
        }
    }
}

proof fn written_lines_fall_apart(lines: Seq<usize>, separator: char, n: int)
    requires
        is_separator(separator),
        1 <= n <= lines.len(),
    ensures
        pieces(written(lines, separator, n), Seq::empty()) == Seq::new(
            n as nat,
            |i: int| decimal(lines[i] as nat),
        ),
    decreases n,
{
    let last = decimal(lines[n - 1] as nat);
    numerals_are_digits(lines[n - 1] as nat);
    assert forall|i: int| 0 <= i < last.len() implies !is_separator(#[trigger] last[i]) by {
        assert(0 <= digit_value(last[i]) <= 9);
    }
    unparted_text_is_one_piece(last, Seq::empty());
    assert(Seq::<char>::empty() + last =~= last);
    if n > 1 {
        written_lines_fall_apart(lines, separator, n - 1);
        separators_part(written(lines, separator, n - 1), separator, last, Seq::empty());
    }
    assert(pieces(written(lines, separator, n), Seq::empty()) =~= Seq::new(
        n as nat,
        |i: int| decimal(lines[i] as nat),
    ));
}

proof fn numerals_are_read_as_lines(lines: Seq<usize>, parts: Seq<Seq<char>>, n: int)
    requires
        0 <= n <= lines.len(),
        parts.len() == lines.len(),
        forall|i: int| 0 <= i < lines.len() ==> #[trigger] parts[i] == decimal(lines[i] as nat),
    ensures
        lines_of(parts, n) == Some(lines.take(n)),
    decreases n,
{
    if n > 0 {
        numerals_are_read_as_lines(lines, parts, n - 1);
        numerals_are_digits(lines[n - 1] as nat);
        numerals_are_read(lines[n - 1]);
        assert(parts[n - 1] == decimal(lines[n - 1] as nat));
        assert(lines.take(n - 1).push(lines[n - 1]) =~= lines.take(n));
    } else {
        assert(lines.take(0) =~= Seq::empty());
    }
}

/// Reading what was written gives it back: lines without a zero, parted by any of the separators,
/// are read as those lines.
pub proof fn written_lines_are_read(lines: Seq<usize>, separator: char)
    requires
        lines.len() > 0,
        !lines.contains(0usize),
        is_separator(separator),
    ensures
        outfield_lines(written(lines, separator, lines.len() as int)) == Some(lines),
{
    let n = lines.len() as int;
    let parts = pieces(written(lines, separator, n), Seq::empty());
    written_lines_fall_apart(lines, separator, n);
    numerals_are_read_as_lines(lines, parts, n);
    assert(lines.take(n) =~= lines);
}

/// A usual outfield formation for a number of positions, the goalkeeper's included.
pub open spec fn usual_lines(num_positions: int) -> Seq<usize> {
    if num_positions <= 1 {
        Seq::empty()
    } else if num_positions == 2 {
        seq![1usize]
    } else if num_positions == 3 {
        seq![1usize, 1]
    } else if num_positions == 4 {
        seq![2usize, 1]
    } else if num_positions == 5 {
        seq![2usize, 2]
    } else if num_positions == 6 {
        seq![2usize, 2, 1]
    } else if num_positions == 7 {
        seq![2usize, 3, 1]
    } else if num_positions == 8 {
        seq![3usize, 3, 1]
    } else if num_positions == 9 {
        seq![3usize, 4, 1]
    } else if num_positions == 10 {
        seq![4usize, 4, 1]
    } else if num_positions == 11 {
        seq![4usize, 4, 2]
    } else {
        let out = num_positions - 1;
        let d = (out + 1) / 3;
        let f = out / 3;
        seq![d as usize, (out - d - f) as usize, f as usize]
    }
}

pub fn default_outfield_formation(num_positions: usize) -> (r: Vec<usize>)
    ensures
        r@ == usual_lines(num_positions as int),
{
    let r: Vec<usize> = if num_positions <= 1 {
        Vec::new()
    } else if num_positions == 2 {
        vec![1]
    } else if num_positions == 3 {
        vec![1, 1]
    } else if num_positions == 4 {
        vec![2, 1]
    } else if num_positions == 5 {
        vec![2, 2]
    } else if num_positions == 6 {
        vec![2, 2, 1]
    } else if num_positions == 7 {
        vec![2, 3, 1]
    } else if num_positions == 8 {
        vec![3, 3, 1]
    } else if num_positions == 9 {
        vec![3, 4, 1]
    } else if num_positions == 10 {
        vec![4, 4, 1]
    } else if num_positions == 11 {
        vec![4, 4, 2]
    } else {
        let out: usize = num_positions - 1;
        let d: usize = (out + 1) / 3;
        let f: usize = out / 3;
        let m: usize = out - d - f;
        vec![d, m, f]
    };
    assert(r@ =~= usual_lines(num_positions as int));
    r
}

/// The formation with the goalkeeper's row in front.
pub fn formation_with_gk(outfield: &Vec<usize>) -> (rows: Vec<usize>)
    ensures
        rows@ == seq![1usize] + outfield@,
{
    let mut rows: Vec<usize> = Vec::new();
    rows.push(1);
    let mut i: usize = 0;
    while i < outfield.len()
        invariant
            i <= outfield@.len(),
            rows@ == seq![1usize] + outfield@.take(i as int),
        decreases outfield@.len() - i,
    {
        rows.push(outfield[i]);
        i += 1;
        assert(rows@ =~= seq![1usize] + outfield@.take(i as int));
    }
    assert(outfield@.take(outfield@.len() as int) =~= outfield@);
    rows
}

/// How many positions the rows have together.
pub open spec fn positions(rows: Seq<usize>) -> int
    decreases rows.len(),
{
    if rows.len() == 0 {
        0
    } else {
        positions(rows.drop_last()) + rows.last()
    }
}

/// The usual formation with the goalkeeper has as many positions as were asked for, and no
/// empty line.
pub proof fn usual_formation_fills_positions(num_positions: usize)
    requires
        num_positions >= 1,
    ensures
        positions(seq![1usize] + usual_lines(num_positions as int)) == num_positions,
        !usual_lines(num_positions as int).contains(0usize),
{
    let lines = usual_lines(num_positions as int);
    let rows = seq![1usize] + lines;
    reveal_with_fuel(positions, 5);
    assert(rows.drop_last() =~= (seq![1usize] + lines).take(lines.len() as int));
    if lines.len() == 0 {
        assert(rows =~= seq![1usize]);
        assert(rows.drop_last() =~= Seq::<usize>::empty());
    } else if lines.len() == 1 {
        assert(rows =~= seq![1usize, lines[0]]);
        assert(rows.drop_last() =~= seq![1usize]);
        assert(rows.drop_last().drop_last() =~= Seq::<usize>::empty());
    } else if lines.len() == 2 {
        assert(rows =~= seq![1usize, lines[0], lines[1]]);
        assert(rows.drop_last() =~= seq![1usize, lines[0]]);
        assert(rows.drop_last().drop_last() =~= seq![1usize]);
        assert(rows.drop_last().drop_last().drop_last() =~= Seq::<usize>::empty());
    } else {
        assert(rows =~= seq![1usize, lines[0], lines[1], lines[2]]);
        assert(rows.drop_last() =~= seq![1usize, lines[0], lines[1]]);
        assert(rows.drop_last().drop_last() =~= seq![1usize, lines[0]]);
        assert(rows.drop_last().drop_last().drop_last() =~= seq![1usize]);
        assert(rows.drop_last().drop_last().drop_last().drop_last() =~= Seq::<usize>::empty());
    }
}

/// The depth of a line.
#[derive(Clone, Copy, Debug, PartialEq, Eq, Structural)]
pub enum LineRole {
    Back,
    Midfield,
    Forward,
}

impl LineRole {
    /// The letter of the line.
    pub open spec fn letter(self) -> Seq<char> {
        match self {
            LineRole::Back => "B"@,
            LineRole::Midfield => "M"@,
            LineRole::Forward => "F"@,
        }
    }
}

/// The prefix of column `c` of a line of width `n`.
pub open spec fn side_of(c: int, n: int) -> Seq<char> {
    if n == 1 {
        "C"@
    } else if n == 2 {
        if c == 0 {
            "L"@
        } else {
            "R"@
        }
    } else if n == 3 {
        if c == 0 {
            "L"@
        } else if c == 1 {
            "C"@
        } else {
            "R"@
        }
    } else if n == 4 {
        if c == 0 {
            "L"@
        } else if c == 1 {
            "LC"@
        } else if c == 2 {
            "RC"@
        } else {
            "R"@
        }
    } else if c == 0 {
        "L"@
    } else if c + 1 == n {
        "R"@
    } else {
        "C"@
    }
}

pub fn side_prefix(c: usize, n: usize) -> (r: &'static str)
    ensures
        r@ == side_of(c as int, n as int),
{
    if n == 1 {
        "C"
    } else if n == 2 {
        if c == 0 {
            "L"
        } else {
            "R"
        }
    } else if n == 3 {
        if c == 0 {
            "L"
        } else if c == 1 {
            "C"
        } else {
            "R"
        }
    } else if n == 4 {
        if c == 0 {
            "L"
        } else if c == 1 {
            "LC"
        } else if c == 2 {
            "RC"
        } else {
            "R"
        }
    } else if c == 0 {
        "L"
    } else if n > 0 && c == n - 1 {
        "R"
    } else {
        "C"
    }
}

/// The name of a position: a lone forward is the striker, any other has side and line.
pub open spec fn label_of(side: Seq<char>, role: LineRole, n: int) -> Seq<char> {
    if role == LineRole::Forward && n == 1 {
        "ST"@
    } else {
        side + role.letter()
    }
}

pub fn position_label(side: &str, role: LineRole, n: usize) -> (r: String)
    ensures
        r@ == label_of(side@, role, n as int),
{
    if role == LineRole::Forward && n == 1 {
        return "ST".to_owned();
    }
    let mut s: String = side.to_owned();
    match role {
        LineRole::Back => {
            s.append("B");
        },
        LineRole::Midfield => {
            s.append("M");
        },
        LineRole::Forward => {
            s.append("F");
        },
    }
    s
}

/// The role of row `r` of a formation: the first outfield line defends, the last attacks; a
/// single outfield line is midfield.
pub open spec fn role_of(rows: int, r: int) -> LineRole {
    if rows == 2 {
        LineRole::Midfield
    } else if r == 1 {
        LineRole::Back
    } else if r == rows - 1 {
        LineRole::Forward
    } else {
        LineRole::Midfield
    }
}

/// The names of the first `c` positions of a line.
pub open spec fn line_names(n: int, role: LineRole, c: int) -> Seq<Seq<char>>
    decreases c,
{
    if c <= 0 {
        Seq::empty()
    } else {
        line_names(n, role, c - 1).push(label_of(side_of(c - 1, n), role, n))
    }
}

/// The names of the positions of the first `r` rows; the first row is the goalkeeper.
pub open spec fn row_names(formation: Seq<usize>, r: int) -> Seq<Seq<char>>
    decreases r,
{
    if r <= 0 {
        Seq::empty()
    } else if r == 1 {
        seq!["GK"@]
    } else {
        row_names(formation, r - 1) + line_names(
            formation[r - 1] as int,
            role_of(formation.len() as int, r - 1),
            formation[r - 1] as int,
        )
    }
}

/// The texts read as the names say.
pub open spec fn reads(texts: Seq<String>, names: Seq<Seq<char>>) -> bool {
    &&& texts.len() == names.len()
    &&& forall|i: int| 0 <= i < texts.len() ==> (#[trigger] texts[i])@ == names[i]
}

/// Names the positions of a formation, goalkeeper first and then each line from left to right.
pub fn formation_position_names(formation: &Vec<usize>) -> (names: Vec<String>)
    ensures
        reads(names@, row_names(formation@, formation@.len() as int)),
{
    let mut names: Vec<String> = Vec::new();
    let rows: usize = formation.len();
    let mut r: usize = 0;
    while r < rows
        invariant
            r <= rows,
            rows == formation@.len(),
            reads(names@, row_names(formation@, r as int)),
        decreases rows - r,
    {
        let n: usize = formation[r];
        if r == 0 {
            names.push("GK".to_owned());
        } else {
            let role: LineRole = if rows == 2 {
                LineRole::Midfield
            } else if r == 1 {
                LineRole::Back
            } else if r == rows - 1 {
                LineRole::Forward
            } else {
                LineRole::Midfield
            };
            let mut c: usize = 0;
            assert(row_names(formation@, r as int) + line_names(n as int, role, 0) =~= row_names(
                formation@,
                r as int,
            ));
            while c < n
                invariant
                    c <= n,
                    reads(
                        names@,
                        row_names(formation@, r as int) + line_names(n as int, role, c as int),
                    ),
                decreases n - c,
            {
                names.push(position_label(side_prefix(c, n), role, n));
                proof {
                    assert((row_names(formation@, r as int) + line_names(
                        n as int,
                        role,
                        c as int,
                    )).push(label_of(side_of(c as int, n as int), role, n as int)) =~= row_names(
                        formation@,
                        r as int,
                    ) + line_names(n as int, role, c + 1));
                }
                c += 1;
            }
        }
        r += 1;
    }
    names
}

proof fn line_names_count(n: int, role: LineRole, c: int)
    requires
        0 <= c,
    ensures
        line_names(n, role, c).len() == c,
    decreases c,
{
    if c > 0 {
        line_names_count(n, role, c - 1);
    }
}

/// A formation with a goalkeeper has as many names as positions.
pub proof fn every_position_has_a_name(formation: Seq<usize>)
    requires
        formation.len() > 0,
        formation[0] == 1,
    ensures
        row_names(formation, formation.len() as int).len() == positions(formation),
{
    names_count(formation, formation.len() as int);
    assert(formation.take(formation.len() as int) =~= formation);
}

proof fn names_count(formation: Seq<usize>, r: int)
    requires
        1 <= r <= formation.len(),
        formation[0] == 1,
    ensures
        row_names(formation, r).len() == positions(formation.take(r)),
    decreases r,
{
    reveal_with_fuel(positions, 2);
    assert(formation.take(r).drop_last() =~= formation.take(r - 1));
    if r > 1 {
        names_count(formation, r - 1);
        line_names_count(
            formation[r - 1] as int,
            role_of(formation.len() as int, r - 1),
            formation[r - 1] as int,
        );
    } else {
        assert(formation.take(0).len() == 0);
    }
}

} // verus!
