//! Text of the program-selection menu: the names laid out in rows, and the
//! typed answer with its line ending removed.
use vstd::prelude::*;
use vstd::string::*;

use crate::text::push_char;

verus! {

/// How many names stand in one row of the menu.
pub const MENU_ROWS: usize = 4;

/// The width, in characters, that each name is padded to.
pub const MENU_COL_LEN: usize = 10;

/// A name padded with spaces to `MENU_COL_LEN` characters; a longer name is
/// left as it is.
pub open spec fn padded(name: Seq<char>) -> Seq<char> {
    if name.len() < MENU_COL_LEN {
        name + Seq::new((MENU_COL_LEN - name.len()) as nat, |i: int| ' ')
    } else {
        name
    }
}

/// The padded names, one after another.
pub open spec fn joined(names: Seq<Seq<char>>) -> Seq<char>
    decreases names.len(),
{
    if names.len() == 0 {
        Seq::empty()
    } else {
        joined(names.drop_last()) + padded(names.last())
    }
}

/// Row `r` of the menu: names `MENU_ROWS * r` onward, at most `MENU_ROWS`
/// of them.
pub open spec fn menu_row(names: Seq<Seq<char>>, r: int) -> Seq<char> {
    let start = MENU_ROWS * r;
    let end = if start + MENU_ROWS <= names.len() { start + MENU_ROWS } else { names.len() as int };
    joined(names.subrange(start, end))
}

/// Whether `c` is a control character (general category Cc).
pub open spec fn is_control(c: char) -> bool {
    c <= '\u{1f}' || ('\u{7f}' <= c && c <= '\u{9f}')
}

/// `s` without its trailing control characters.
pub open spec fn trimmed(s: Seq<char>) -> Seq<char>
    decreases s.len(),
{
    if s.len() > 0 && is_control(s.last()) {
        trimmed(s.drop_last())
    } else {
        s
    }
}

fn control(c: char) -> (r: bool)
    ensures
        r == is_control(c),
{
    c <= '\u{1f}' || ('\u{7f}' <= c && c <= '\u{9f}')
}

/// Appends `name` padded to `MENU_COL_LEN` characters.
fn push_padded(line: &mut String, name: &String)
    ensures
        final(line)@ == old(line)@ + padded(name@),
{
    let text: &str = name.as_str();
    line.append(text);
    let mut width: usize = text.unicode_len();
    let ghost start = old(line)@;
    while width < MENU_COL_LEN
        invariant
            name@.len() <= width,
            width < MENU_COL_LEN ==> line@ == start + name@ + Seq::new((width - name@.len()) as nat, |i: int| ' '),
            width >= MENU_COL_LEN ==> line@ == start + padded(name@),
        decreases MENU_COL_LEN - width,
    {
        push_char(line, ' ');
        width = width + 1;
        proof {
            if width < MENU_COL_LEN {
                assert(line@ =~= start + name@ + Seq::new((width - name@.len()) as nat, |i: int| ' '));
            } else {
                assert(line@ =~= start + padded(name@));
            }
        }
    }
    proof {
        if name@.len() >= MENU_COL_LEN {
            assert(line@ =~= start + padded(name@));
        }
    }
}

/// The menu's rows: the names in order, `MENU_ROWS` to a row, each padded
/// to `MENU_COL_LEN` characters.
pub fn menu_lines(rom_names: &Vec<String>) -> (r: Vec<String>)
    ensures
        r@.len() == (rom_names@.len() + MENU_ROWS - 1) / MENU_ROWS as int,
        forall|k: int|
            0 <= k < r@.len() ==> #[trigger] r@[k]@ == menu_row(rom_names@.map_values(|s: String| s@), k),
{
    let ghost names = rom_names@.map_values(|s: String| s@);
    let n: usize = rom_names.len();
    let rows: usize = n / MENU_ROWS + if n % MENU_ROWS > 0 { 1 } else { 0 };
    assert(rows == (n + MENU_ROWS - 1) / MENU_ROWS as int) by (nonlinear_arith)
        requires
            rows == n / 4 + if n % 4 > 0 { 1int } else { 0int },
    ;
    let mut lines: Vec<String> = Vec::new();
    let mut r: usize = 0;
    while r < rows
        invariant
            names == rom_names@.map_values(|s: String| s@),
            n == rom_names@.len(),
            rows == (n + MENU_ROWS - 1) / MENU_ROWS as int,
            r <= rows,
            lines@.len() == r,
            forall|k: int| 0 <= k < lines@.len() ==> #[trigger] lines@[k]@ == menu_row(names, k),
        decreases rows - r,
    {
        assert(MENU_ROWS * r < n) by (nonlinear_arith)
            requires
                r < rows,
                rows == (n + 3) / 4,
        ;
        let start: usize = MENU_ROWS * r;
        let end: usize = if n - start > MENU_ROWS { start + MENU_ROWS } else { n };
        let mut line = String::new();
        let mut j: usize = start;
        while j < end
            invariant
                names == rom_names@.map_values(|s: String| s@),
                start <= j <= end,
                end <= rom_names@.len(),
                line@ == joined(names.subrange(start as int, j as int)),
            decreases end - j,
        {
            push_padded(&mut line, &rom_names[j]);
            assert(names.subrange(start as int, j + 1).drop_last() =~= names.subrange(start as int, j as int));
            j = j + 1;
        }
        assert(line@ == menu_row(names, r as int));
        lines.push(line);
        r = r + 1;
    }
    lines
}

/// The typed line without its trailing control characters (the line ending).
pub fn trim_line_end(input: &str) -> (r: String)
    ensures
        r@ == trimmed(input@),
{
    let mut k: usize = input.unicode_len();
    assert(input@.subrange(0, k as int) =~= input@);
    while k > 0 && control(input.get_char(k - 1))
        invariant
            k <= input@.len(),
            trimmed(input@.subrange(0, k as int)) == trimmed(input@),
        decreases k,
    {
        assert(input@.subrange(0, k as int).drop_last() =~= input@.subrange(0, k - 1));
        k = k - 1;
    }
    String::from_str(input.substring_char(0, k))
}

} // verus!
