//! Text building blocks of the report lines.

use vstd::prelude::*;

verus! {

/// The views of a sequence of strings, element by element.
pub open spec fn texts(items: Seq<String>) -> Seq<Seq<char>> {
    Seq::new(items.len(), |i: int| items[i]@)
}

/// `text` between two apostrophes.
pub open spec fn quoted(text: Seq<char>) -> Seq<char> {
    "'"@ + text + "'"@
}

/// Every item between apostrophes, the items separated by a comma and a space.
pub open spec fn quoted_list(items: Seq<Seq<char>>) -> Seq<char>
    decreases items.len(),
{
    if items.len() == 0 {
        Seq::empty()
    } else if items.len() == 1 {
        quoted(items[0])
    } else {
        quoted_list(items.drop_last()) + ", "@ + quoted(items.last())
    }
}

/// The character that writes the digit `d`.
pub open spec fn digit_char(d: nat) -> char
    recommends
        d < 10,
{
    if d == 0 {
        '0'
    } else if d == 1 {
        '1'
    } else if d == 2 {
        '2'
    } else if d == 3 {
        '3'
    } else if d == 4 {
        '4'
    } else if d == 5 {
        '5'
    } else if d == 6 {
        '6'
    } else if d == 7 {
        '7'
    } else if d == 8 {
        '8'
    } else {
        '9'
    }
}

/// The decimal numeral of `n`, without leading zeros.
pub open spec fn decimal(n: nat) -> Seq<char>
    decreases n,
{
    if n < 10 {
        seq![digit_char(n)]
    } else {
        decimal(n / 10).push(digit_char(n % 10))
    }
}

/// Appends `text` between apostrophes to `out`.
pub fn push_quoted(out: &mut String, text: &str)
    ensures
        final(out)@ == old(out)@ + quoted(text@),
{
    out.append("'");
    out.append(text);
    out.append("'");
    assert(final(out)@ =~= old(out)@ + quoted(text@));
}

/// Renders `items` as a list of quoted items.
pub fn render_quoted_list(items: &Vec<String>) -> (out: String)
    ensures
        out@ == quoted_list(texts(items@)),
{
    let mut out = String::new();
    let mut i: usize = 0;
    while i < items.len()
        invariant
            i <= items.len(),
            out@ == quoted_list(texts(items@).take(i as int)),
        decreases items.len() - i,
    {
        let ghost before = texts(items@).take(i as int);
        let ghost after = texts(items@).take(i + 1);
        if i > 0 {
            out.append(", ");
        }
        push_quoted(&mut out, items[i].as_str());
        proof {
            assert(after.drop_last() =~= before);
            assert(after.last() == items@[i as int]@);
            if i == 0 {
                assert(out@ =~= quoted(items@[0]@));
            }
        }
        i += 1;
    }
    assert(texts(items@).take(i as int) =~= texts(items@));
    out
}

/// The string that holds the one digit `d`.
fn digit_text(d: u64) -> (out: &'static str)
    requires
        d < 10,
    ensures
        out@ == seq![digit_char(d as nat)],
{
    proof {
        reveal_strlit("0");
        reveal_strlit("1");
        reveal_strlit("2");
        reveal_strlit("3");
        reveal_strlit("4");
        reveal_strlit("5");
        reveal_strlit("6");
        reveal_strlit("7");
        reveal_strlit("8");
        reveal_strlit("9");
    }
    let out = if d == 0 {
        "0"
    } else if d == 1 {
        "1"
    } else if d == 2 {
        "2"
    } else if d == 3 {
        "3"
    } else if d == 4 {
        "4"
    } else if d == 5 {
        "5"
    } else if d == 6 {
        "6"
    } else if d == 7 {
        "7"
    } else if d == 8 {
        "8"
    } else {
        "9"
    };
    assert(out@ =~= seq![digit_char(d as nat)]);
    out
}

/// Renders `n` as a decimal numeral.
pub fn render_decimal(n: u64) -> (out: String)
    ensures
        out@ == decimal(n as nat),
    decreases n,
{
    if n < 10 {
        String::from_str(digit_text(n))
    } else {
        let mut out = render_decimal(n / 10);
        out.append(digit_text(n % 10));
        assert(out@ =~= decimal(n as nat));
        out
    }
}

/// The line that announces a run: the source extensions and the target
/// extension.
pub open spec fn banner(sources: Seq<Seq<char>>, target: Seq<char>) -> Seq<char> {
    "Converting files from "@ + quoted_list(sources) + " to "@ + quoted(target)
}

/// The line that announces the conversion of the file shown as `shown`.
pub open spec fn start_line(shown: Seq<char>) -> Seq<char> {
    "Converting "@ + quoted(shown)
}

/// The line that reports the output file shown as `shown`.
pub open spec fn finish_line(shown: Seq<char>) -> Seq<char> {
    "Finished converting "@ + quoted(shown)
}

/// The line of a dry run that names the source file that a live run would
/// remove.
pub open spec fn removal_preview_line(shown: Seq<char>) -> Seq<char> {
    "Dry_run: Removing file "@ + quoted(shown)
}

/// The line that reports how many files were converted.
pub open spec fn converted_line(count: nat) -> Seq<char> {
    "Converted "@ + decimal(count) + " files."@
}

/// The line that reports how many errors occurred.
pub open spec fn errors_line(count: nat) -> Seq<char> {
    "Finished with "@ + decimal(count) + " errors."@
}

/// `prefix`, then `text` between apostrophes.
fn render_with_quoted(prefix: &str, text: &str) -> (out: String)
    ensures
        out@ == prefix@ + quoted(text@),
{
    let mut out = String::from_str(prefix);
    push_quoted(&mut out, text);
    out
}

/// Renders the line that announces a run.
pub fn render_banner(sources: &Vec<String>, target: &str) -> (out: String)
    ensures
        out@ == banner(texts(sources@), target@),
{
    let mut out = String::from_str("Converting files from ");
    let list = render_quoted_list(sources);
    out.append(list.as_str());
    out.append(" to ");
    push_quoted(&mut out, target);
    out
}

/// Renders the line that announces the conversion of a file.
pub fn render_start_line(shown: &str) -> (out: String)
    ensures
        out@ == start_line(shown@),
{
    render_with_quoted("Converting ", shown)
}

/// Renders the line that reports an output file.
pub fn render_finish_line(shown: &str) -> (out: String)
    ensures
        out@ == finish_line(shown@),
{
    render_with_quoted("Finished converting ", shown)
}

/// Renders the line of a dry run that names the source file that a live run
/// would remove.
pub fn render_removal_preview_line(shown: &str) -> (out: String)
    ensures
        out@ == removal_preview_line(shown@),
{
    render_with_quoted("Dry_run: Removing file ", shown)
}

/// `prefix`, the decimal numeral of `count`, then `suffix`.
fn render_count(prefix: &str, count: u64, suffix: &str) -> (out: String)
    ensures
        out@ == prefix@ + decimal(count as nat) + suffix@,
{
    let mut out = String::from_str(prefix);
    let numeral = render_decimal(count);
    out.append(numeral.as_str());
    out.append(suffix);
    out
}

/// Renders the line that reports how many files were converted.
pub fn render_converted_line(count: u64) -> (out: String)
    ensures
        out@ == converted_line(count as nat),
{
    render_count("Converted ", count, " files.")
}

/// Renders the line that reports how many errors occurred.
pub fn render_errors_line(count: u64) -> (out: String)
    ensures
        out@ == errors_line(count as nat),
{
    render_count("Finished with ", count, " errors.")
}

} // verus!
