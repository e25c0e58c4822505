use vstd::prelude::*;
use vstd::std_specs::iter::IteratorSpec;
use crate::error::{kind_debug_name, kind_name, VerboseErrorKind};

verus! {

broadcast use vstd::string::group_string_axioms;

/// The character that writes the decimal digit `d` (for `d < 10`).
pub open spec fn digit_char(d: nat) -> char {
    (48 + d) as char
}

/// The decimal representation of `n`, without leading zeros.
pub open spec fn decimal(n: nat) -> Seq<char>
    decreases n,
{
    if n < 10 {
        seq![digit_char(n)]
    } else {
        decimal(n / 10).push(digit_char(n % 10))
    }
}

/// Appends every character of `s` to `out`.
pub fn push_str(out: &mut Vec<char>, s: &str)
    ensures
        final(out)@ == old(out)@ + s@,
{
    let ghost start = out@;
    let mut it = s.chars();
    loop
        invariant
            out@ + IteratorSpec::remaining(&it) == start + s@,
            IteratorSpec::decrease(&it) is Some,
            it.obeys_prophetic_iter_laws(),
        ensures
            out@ == start + s@,
        decreases IteratorSpec::decrease(&it)->0,
    {
        let ghost before = it;
        match it.next() {
            Some(c) => {
                out.push(c);
                assert(out@ + IteratorSpec::remaining(&it) =~= start + s@);
            },
            None => {
                assert(out@ =~= start + s@);
                break;
            },
        }
    }
}

/// Appends the decimal representation of `n` to `out`.
pub fn push_decimal(out: &mut Vec<char>, n: usize)
    ensures
        final(out)@ == old(out)@ + decimal(n as nat),
    decreases n,
{
    if n >= 10 {
        push_decimal(out, n / 10);
    }
    let d: u8 = (n % 10) as u8;
    let c: char = (48u8 + d) as char;
    out.push(c);
    assert(out@ =~= old(out)@ + decimal(n as nat));
}


/// The number of bytes that UTF-8 takes for `c`.
pub open spec fn utf8_width(c: char) -> nat {
    if (c as u32) < 0x80 {
        1
    } else if (c as u32) < 0x800 {
        2
    } else if (c as u32) < 0x10000 {
        3
    } else {
        4
    }
}

/// The number of bytes that UTF-8 takes for the text `s`.
pub open spec fn byte_len(s: Seq<char>) -> nat
    decreases s.len(),
{
    if s.len() == 0 {
        0
    } else {
        byte_len(s.drop_last()) + utf8_width(s.last())
    }
}

/// A line without the carriage return that ended it, if one did.
pub open spec fn strip_cr(line: Seq<char>) -> Seq<char> {
    if line.len() > 0 && line.last() == '\r' {
        line.drop_last()
    } else {
        line
    }
}

/// Reading `s` from the start: the lines that a newline has ended, and the
/// text read since the last newline.
pub open spec fn scan_lines(s: Seq<char>) -> (Seq<Seq<char>>, Seq<char>)
    decreases s.len(),
{
    if s.len() == 0 {
        (seq![], seq![])
    } else {
        let (done, current) = scan_lines(s.drop_last());
        if s.last() == '\n' {
            (done.push(strip_cr(current)), seq![])
        } else {
            (done, current.push(s.last()))
        }
    }
}

/// The lines of `s`: it is cut at each `\n` (and a `\r` just before one is
/// dropped); the text after the last newline is a line if it is not empty.
pub open spec fn split_lines(s: Seq<char>) -> Seq<Seq<char>> {
    let (done, current) = scan_lines(s);
    if current.len() == 0 {
        done
    } else {
        done.push(current)
    }
}

/// Where the byte `offset` falls, counting from line `j` of `lines`: the line
/// and the column (in bytes), or `(0, 0)` when it lies past the last line.
/// Each line is followed by one byte of newline.
pub open spec fn locate_from(lines: Seq<Seq<char>>, j: int, offset: int) -> (int, int)
    decreases lines.len() - j,
{
    if j < 0 || j >= lines.len() {
        (0, 0)
    } else if offset <= byte_len(lines[j]) {
        (j, offset)
    } else {
        locate_from(lines, j + 1, offset - byte_len(lines[j]) - 1)
    }
}

/// An error of a trace, located in the input: its byte offset, the first
/// character found there, if any, and what went wrong.
#[derive(Clone, Debug, PartialEq)]
pub struct ErrorSite {
    /// Byte offset of the error in the input.
    pub offset: usize,
    /// The character found at that point, if the input had one.
    pub first_char: Option<char>,
    /// What went wrong.
    pub kind: VerboseErrorKind,
}

/// The first line of an error's paragraph: its number, its line number and,
/// but for an expected character, the context or kind that failed.
pub open spec fn block_header(index: nat, line: nat, kind: VerboseErrorKind) -> Seq<char> {
    let at = decimal(index) + ": at line "@ + decimal(line);
    match kind {
        VerboseErrorKind::Char(_) => at + ":\n"@,
        VerboseErrorKind::Context(s) => at + ", in "@ + s@ + ":\n"@,
        VerboseErrorKind::Nom(kind) => at + ", in "@ + kind_name(kind) + ":\n"@,
    }
}

/// The quoted line of an error's paragraph, with a caret under the column.
pub open spec fn block_marker(text: Seq<char>, column: nat) -> Seq<char> {
    text + "\n"@ + Seq::new(column, |k: int| ' ') + "^\n"@
}

/// The end of an error's paragraph: for an expected character, what was
/// expected and what was found.
pub open spec fn block_tail(site: ErrorSite) -> Seq<char> {
    match site.kind {
        VerboseErrorKind::Char(expected) => "expected '"@ + seq![expected] + "', found "@ + (
        match site.first_char {
            Some(found) => seq![found],
            None => seq![],
        }) + "\n\n"@,
        _ => "\n"@,
    }
}

/// The paragraph that a trace gives to its `index`-th error: a header with
/// the line number, the line itself, a caret under the column, and for an
/// expected character what was expected and what was found.
pub open spec fn render_block(lines: Seq<Seq<char>>, index: nat, site: ErrorSite) -> Seq<char> {
    let (line, column) = locate_from(lines, 0, site.offset as int);
    block_header(index, line as nat, site.kind) + block_marker(lines[line], column as nat)
        + block_tail(site)
}

/// The trace of `sites` over the lines `lines`: one paragraph per error, in
/// order.
pub open spec fn render_trace(lines: Seq<Seq<char>>, sites: Seq<ErrorSite>) -> Seq<char>
    decreases sites.len(),
{
    if sites.len() == 0 {
        seq![]
    } else {
        render_trace(lines, sites.drop_last()) + render_block(
            lines,
            (sites.len() - 1) as nat,
            sites.last(),
        )
    }
}

/// The views of a list of lines.
pub open spec fn views(lines: Seq<Vec<char>>) -> Seq<Seq<char>> {
    Seq::new(lines.len(), |j: int| lines[j]@)
}

/// The UTF-8 width of `c`.
fn char_width(c: char) -> (width: usize)
    ensures
        width == utf8_width(c),
{
    let u = c as u32;
    if u < 0x80 {
        1
    } else if u < 0x800 {
        2
    } else if u < 0x10000 {
        3
    } else {
        4
    }
}

proof fn lemma_byte_len_prefix(s: Seq<char>, i: int)
    requires
        0 <= i <= s.len(),
    ensures
        byte_len(s.take(i)) <= byte_len(s),
    decreases s.len() - i,
{
    if i < s.len() {
        lemma_byte_len_prefix(s, i + 1);
        assert(s.take(i + 1).drop_last() =~= s.take(i));
    } else {
        assert(s.take(i) =~= s);
    }
}

/// Cuts `chars` into lines, with the byte length of each.
fn split_into_lines(chars: &Vec<char>) -> (res: (Vec<Vec<char>>, Vec<usize>))
    requires
        byte_len(chars@) <= usize::MAX,
    ensures
        views(res.0@) == split_lines(chars@),
        res.1@.len() == res.0@.len(),
        forall|j: int| 0 <= j < res.1@.len() ==> res.1@[j] == byte_len(#[trigger] res.0@[j]@),
{
    let mut lines: Vec<Vec<char>> = Vec::new();
    let mut lens: Vec<usize> = Vec::new();
    let mut current: Vec<char> = Vec::new();
    let mut current_len: usize = 0;
    let mut i: usize = 0;
    while i < chars.len()
        invariant
            i <= chars@.len(),
            byte_len(chars@) <= usize::MAX,
            views(lines@) == scan_lines(chars@.take(i as int)).0,
            current@ == scan_lines(chars@.take(i as int)).1,
            lens@.len() == lines@.len(),
            forall|j: int| 0 <= j < lens@.len() ==> lens@[j] == byte_len(#[trigger] lines@[j]@),
            current_len == byte_len(current@),
            current_len <= byte_len(chars@.take(i as int)),
        decreases chars@.len() - i,
    {
        let c = chars[i];
        let ghost prefix = chars@.take(i as int);
        assert(chars@.take(i + 1).drop_last() =~= prefix);
        proof {
            lemma_byte_len_prefix(chars@, i + 1);
        }
        if c == '\n' {
            let mut line = current;
            let mut line_len = current_len;
            if line.len() > 0 && line[line.len() - 1] == '\r' {
                line.pop();
                assert(line@ =~= scan_lines(prefix).1.drop_last());
                line_len = line_len - 1;
            }
            assert(line@ == strip_cr(scan_lines(prefix).1));
            lines.push(line);
            lens.push(line_len);
            current = Vec::new();
            current_len = 0;
            assert(views(lines@) =~= scan_lines(chars@.take(i + 1)).0);
        } else {
            let ghost before = current@;
            current.push(c);
            assert(current@.drop_last() =~= before);
            current_len = current_len + char_width(c);
            assert(current@ =~= scan_lines(chars@.take(i + 1)).1);
        }
        i = i + 1;
    }
    assert(chars@.take(i as int) =~= chars@);
    if current.len() > 0 {
        lines.push(current);
        lens.push(current_len);
        assert(views(lines@) =~= split_lines(chars@));
    }
    (lines, lens)
}

proof fn lemma_locate_in_range(lines: Seq<Seq<char>>, j: int, offset: int)
    requires
        lines.len() > 0,
    ensures
        0 <= locate_from(lines, j, offset).0 < lines.len(),
    decreases lines.len() - j,
{
    if 0 <= j < lines.len() && offset > byte_len(lines[j]) {
        lemma_locate_in_range(lines, j + 1, offset - byte_len(lines[j]) - 1);
    }
}

/// The line and column of the byte `offset`, as `locate_from` gives them.
fn locate(lines: &Vec<Vec<char>>, lens: &Vec<usize>, offset: usize) -> (res: (usize, usize))
    requires
        lens@.len() == lines@.len(),
        forall|j: int| 0 <= j < lens@.len() ==> lens@[j] == byte_len(#[trigger] lines@[j]@),
    ensures
        res.0 as int == locate_from(views(lines@), 0, offset as int).0,
        res.1 as int == locate_from(views(lines@), 0, offset as int).1,
{
    let ghost all = views(lines@);
    let mut remaining = offset;
    let mut j: usize = 0;
    while j < lens.len()
        invariant
            j <= lens@.len(),
            lens@.len() == lines@.len(),
            all == views(lines@),
            forall|k: int| 0 <= k < lens@.len() ==> lens@[k] == byte_len(#[trigger] lines@[k]@),
            locate_from(all, j as int, remaining as int) == locate_from(all, 0, offset as int),
        decreases lens@.len() - j,
    {
        assert(all[j as int] == lines@[j as int]@);
        if remaining <= lens[j] {
            return (j, remaining);
        }
        remaining = remaining - lens[j] - 1;
        j = j + 1;
    }
    (0, 0)
}

/// Appends the characters of `chars` to `out`.
fn push_all(out: &mut Vec<char>, chars: &Vec<char>)
    ensures
        final(out)@ == old(out)@ + chars@,
{
    let mut i: usize = 0;
    while i < chars.len()
        invariant
            i <= chars@.len(),
            out@ == old(out)@ + chars@.take(i as int),
        decreases chars@.len() - i,
    {
        out.push(chars[i]);
        assert(chars@.take(i + 1) =~= chars@.take(i as int).push(chars@[i as int]));
        i = i + 1;
    }
    assert(chars@.take(i as int) =~= chars@);
}

/// Appends `count` spaces to `out`.
fn push_spaces(out: &mut Vec<char>, count: usize)
    ensures
        final(out)@ == old(out)@ + Seq::new(count as nat, |k: int| ' '),
{
    let mut i: usize = 0;
    while i < count
        invariant
            i <= count,
            out@ == old(out)@ + Seq::new(i as nat, |k: int| ' '),
        decreases count - i,
    {
        out.push(' ');
        i = i + 1;
        assert(out@ =~= old(out)@ + Seq::new(i as nat, |k: int| ' '));
    }
}

fn push_header(out: &mut Vec<char>, index: usize, line: usize, kind: &VerboseErrorKind)
    ensures
        final(out)@ == old(out)@ + block_header(index as nat, line as nat, *kind),
{
    let ghost start = out@;
    push_decimal(out, index);
    push_str(out, ": at line ");
    push_decimal(out, line);
    let ghost at = out@;
    match kind {
        VerboseErrorKind::Char(_) => {
            push_str(out, ":\n");
        },
        VerboseErrorKind::Context(s) => {
            push_str(out, ", in ");
            push_str(out, s);
            push_str(out, ":\n");
        },
        VerboseErrorKind::Nom(kind) => {
            push_str(out, ", in ");
            push_str(out, kind_debug_name(kind));
            push_str(out, ":\n");
        },
    }
    assert(out@ =~= start + block_header(index as nat, line as nat, *kind));
}

fn push_marker(out: &mut Vec<char>, text: &Vec<char>, column: usize)
    ensures
        final(out)@ == old(out)@ + block_marker(text@, column as nat),
{
    let ghost start = out@;
    push_all(out, text);
    push_str(out, "\n");
    push_spaces(out, column);
    push_str(out, "^\n");
    assert(out@ =~= start + block_marker(text@, column as nat));
}

fn push_tail(out: &mut Vec<char>, site: &ErrorSite)
    ensures
        final(out)@ == old(out)@ + block_tail(*site),
{
    let ghost start = out@;
    match &site.kind {
        VerboseErrorKind::Char(expected) => {
            push_str(out, "expected '");
            out.push(*expected);
            push_str(out, "', found ");
            match site.first_char {
                Some(found) => out.push(found),
                None => {},
            }
            push_str(out, "\n\n");
        },
        _ => {
            push_str(out, "\n");
        },
    }
    assert(out@ =~= start + block_tail(*site));
}

/// Appends the paragraph of the `index`-th error to `out`.
fn push_block(
    out: &mut Vec<char>,
    lines: &Vec<Vec<char>>,
    lens: &Vec<usize>,
    index: usize,
    site: &ErrorSite,
)
    requires
        lines@.len() > 0,
        lens@.len() == lines@.len(),
        forall|j: int| 0 <= j < lens@.len() ==> lens@[j] == byte_len(#[trigger] lines@[j]@),
    ensures
        final(out)@ == old(out)@ + render_block(views(lines@), index as nat, *site),
{
    let ghost start = out@;
    let (line, column) = locate(lines, lens, site.offset);
    proof {
        lemma_locate_in_range(views(lines@), 0, site.offset as int);
    }
    push_header(out, index, line, &site.kind);
    push_marker(out, &lines[line], column);
    push_tail(out, site);
    assert(views(lines@)[line as int] == lines@[line as int]@);
    assert(out@ =~= start + render_block(views(lines@), index as nat, *site));
}

/// Builds a `String` holding the characters of `chars`, in order.
#[verifier::external_body]
fn string_from_chars(chars: &Vec<char>) -> (text: String)
    ensures
        text@ == chars@,
{
    chars.iter().collect()
}

/// Writes the trace of the located errors `sites` over the text `input`:
/// one paragraph per error, in order, each naming the line of the error,
/// quoting it and marking the column with a caret.
pub fn render_error_trace(input: &str, sites: &Vec<ErrorSite>) -> (trace: String)
    requires
        sites@.len() > 0 ==> input@.len() > 0,
    ensures
        trace@ == render_trace(split_lines(input@), sites@),
{
    let bytes = input.as_bytes();
    let byte_count = bytes.len();
    proof {
        lemma_byte_len_is_utf8_length(input@);
        assert(byte_len(input@) == bytes@.len());
        assert(byte_count == bytes@.len());
    }
    let mut chars: Vec<char> = Vec::new();
    push_str(&mut chars, input);
    assert(chars@ =~= input@);
    let (lines, lens) = split_into_lines(&chars);
    proof {
        if sites@.len() > 0 {
            lemma_split_lines_nonempty(input@);
        }
    }
    let mut out: Vec<char> = Vec::new();
    let mut i: usize = 0;
    while i < sites.len()
        invariant
            i <= sites@.len(),
            views(lines@) == split_lines(input@),
            sites@.len() > 0 ==> lines@.len() > 0,
            lens@.len() == lines@.len(),
            forall|j: int| 0 <= j < lens@.len() ==> lens@[j] == byte_len(#[trigger] lines@[j]@),
            out@ == render_trace(split_lines(input@), sites@.take(i as int)),
        decreases sites@.len() - i,
    {
        assert(sites@.take(i + 1).drop_last() =~= sites@.take(i as int));
        push_block(&mut out, &lines, &lens, i, &sites[i]);
        i = i + 1;
    }
    assert(sites@.take(i as int) =~= sites@);
    string_from_chars(&out)
}

proof fn lemma_split_lines_nonempty(s: Seq<char>)
    requires
        s.len() > 0,
    ensures
        split_lines(s).len() > 0,
{
    let (done, current) = scan_lines(s.drop_last());
    if s.last() != '\n' {
        assert(scan_lines(s).1.len() > 0);
    }
}

/// The first character of `s`, if it has one.
pub fn first_char(s: &str) -> (c: Option<char>)
    ensures
        c == (if s@.len() > 0 {
            Some(s@[0])
        } else {
            None
        }),
{
    let mut it = s.chars();
    it.next()
}

/// Ten to the power `e`.
pub open spec fn pow10(e: nat) -> nat
    decreases e,
{
    if e == 0 {
        1
    } else {
        10 * pow10((e - 1) as nat)
    }
}

proof fn lemma_pow10_positive(e: nat)
    ensures
        pow10(e) > 0,
    decreases e,
{
    if e > 0 {
        lemma_pow10_positive((e - 1) as nat);
    }
}

/// `decimal(n)` is the base-10 writing of `n`: it has as many digits as `n`
/// needs (`10^(len-1) <= n < 10^len`, or the single digit of `n < 10`), and
/// its `k`-th character is the digit `(n / 10^(len-1-k)) % 10`, the most
/// significant first.
pub proof fn lemma_decimal_digits(n: nat)
    ensures
        decimal(n).len() >= 1,
        n < pow10(decimal(n).len()),
        decimal(n).len() > 1 ==> pow10((decimal(n).len() - 1) as nat) <= n,
        forall|k: int|
            0 <= k < decimal(n).len() ==> #[trigger] decimal(n)[k] == digit_char(
                (n / pow10((decimal(n).len() - 1 - k) as nat)) % 10,
            ),
    decreases n,
{
    assert(pow10(0) == 1);
    assert(pow10(1) == 10);
    if n < 10 {
        assert(n / 1 == n);
        assert(decimal(n)[0] == digit_char((n / pow10(0)) % 10));
    }
    if n >= 10 {
        let m = n / 10;
        lemma_decimal_digits(m);
        let len = decimal(n).len();
        assert(len == decimal(m).len() + 1);
        let lm = decimal(m).len();
        assert forall|k: int| 0 <= k < len implies #[trigger] decimal(n)[k] == digit_char(
            (n / pow10((len - 1 - k) as nat)) % 10,
        ) by {
            if k < len - 1 {
                let j = (lm - 1 - k) as nat;
                lemma_pow10_positive(j);
                vstd::arithmetic::div_mod::lemma_div_denominator(n as int, 10, pow10(j) as int);
                assert(pow10((len - 1 - k) as nat) == 10 * pow10(j));
                assert(decimal(n)[k] == decimal(m)[k]);
                assert(decimal(m)[k] == digit_char((m / pow10(j)) % 10));
            } else {
                assert(pow10(0) == 1);
                assert(n / 1 == n);
            }
        }
        lemma_pow10_positive((lm - 1) as nat);
        let p = pow10(lm);
        assert(pow10(len) == 10 * p);
        assert(m < p);
        assert(n < 10 * p) by (nonlinear_arith)
            requires
                m == n / 10,
                m < p,
        ;
        if lm > 1 {
            assert(10 * pow10((lm - 1) as nat) <= n) by (nonlinear_arith)
                requires
                    m == n / 10,
                    pow10((lm - 1) as nat) <= m,
            ;
        } else {
            assert(pow10(1) == 10);
        }
    }
}

/// The UTF-8 width of a character is the length of its UTF-8 encoding.
pub proof fn lemma_utf8_width(c: char)
    ensures
        utf8_width(c) == vstd::utf8::encode_utf8(seq![c]).len(),
{
    broadcast use vstd::utf8::char_is_scalar;
    let u = c as u32;
    assert(vstd::utf8::is_scalar(u));
    assert(seq![c].drop_first() =~= Seq::<char>::empty());
    assert(vstd::utf8::encode_utf8(Seq::<char>::empty()) =~= Seq::<u8>::empty());
    assert(vstd::utf8::encode_utf8(seq![c]) =~= vstd::utf8::encode_scalar(u));
}

proof fn lemma_encode_len_drop_last(s: Seq<char>)
    requires
        s.len() > 0,
    ensures
        vstd::utf8::encode_utf8(s).len() == vstd::utf8::encode_utf8(s.drop_last()).len()
            + utf8_width(s.last()),
    decreases s.len(),
{
    lemma_utf8_width(s[0]);
    assert(vstd::utf8::encode_utf8(seq![s[0]]).len() == vstd::utf8::encode_scalar(
        s[0] as u32,
    ).len()) by {
        assert(seq![s[0]].drop_first() =~= Seq::<char>::empty());
    }
    if s.len() == 1 {
        assert(s.drop_first() =~= Seq::<char>::empty());
        assert(s.drop_last() =~= Seq::<char>::empty());
    } else {
        let rest = s.drop_first();
        lemma_encode_len_drop_last(rest);
        assert(s.drop_last().drop_first() =~= rest.drop_last());
        assert(rest.last() == s.last());
    }
}

/// The byte length of a text is the length of its UTF-8 encoding, the bytes
/// that a `str` holding it is made of.
pub proof fn lemma_byte_len_is_utf8_length(s: Seq<char>)
    ensures
        byte_len(s) == vstd::utf8::encode_utf8(s).len(),
    decreases s.len(),
{
    if s.len() > 0 {
        lemma_byte_len_is_utf8_length(s.drop_last());
        lemma_encode_len_drop_last(s);
    }
}

proof fn lemma_scan_without_newline(a: Seq<char>)
    requires
        !a.contains('\n'),
    ensures
        scan_lines(a) == (Seq::<Seq<char>>::empty(), a),
    decreases a.len(),
{
    if a.len() > 0 {
        assert(!a.drop_last().contains('\n')) by {
            if a.drop_last().contains('\n') {
                let i = choose|i: int| 0 <= i < a.drop_last().len() && a.drop_last()[i] == '\n';
                assert(a[i] == '\n');
            }
        }
        lemma_scan_without_newline(a.drop_last());
        assert(a[a.len() - 1] != '\n');
        assert(a.drop_last().push(a.last()) =~= a);
    }
}

proof fn lemma_scan_after_newline(a: Seq<char>, b: Seq<char>)
    requires
        !a.contains('\n'),
    ensures
        scan_lines(a + seq!['\n'] + b) == (
            seq![strip_cr(a)] + scan_lines(b).0,
            scan_lines(b).1,
        ),
    decreases b.len(),
{
    let s = a + seq!['\n'] + b;
    if b.len() == 0 {
        assert(s.drop_last() =~= a);
        lemma_scan_without_newline(a);
        assert(seq![strip_cr(a)] + Seq::<Seq<char>>::empty() =~= seq![strip_cr(a)]);
        assert(Seq::<Seq<char>>::empty().push(strip_cr(a)) =~= seq![strip_cr(a)]);
    } else {
        assert(s.drop_last() =~= a + seq!['\n'] + b.drop_last());
        lemma_scan_after_newline(a, b.drop_last());
        assert(s.last() == b.last());
        let (done, current) = scan_lines(b.drop_last());
        assert((seq![strip_cr(a)] + done).push(strip_cr(current)) =~= seq![strip_cr(a)] + done.push(
            strip_cr(current),
        ));
    }
}

/// A text without a newline is one line, or none when it is empty.
pub proof fn lemma_split_lines_single(s: Seq<char>)
    requires
        !s.contains('\n'),
    ensures
        split_lines(s) == (if s.len() == 0 {
            Seq::<Seq<char>>::empty()
        } else {
            seq![s]
        }),
{
    lemma_scan_without_newline(s);
    assert(Seq::<Seq<char>>::empty().push(s) =~= seq![s]);
}

/// Before the first newline stands the first line, less a carriage return
/// that ends it; the lines of the rest follow, empty lines included.
pub proof fn lemma_split_lines_first(a: Seq<char>, b: Seq<char>)
    requires
        !a.contains('\n'),
    ensures
        split_lines(a + seq!['\n'] + b) == seq![strip_cr(a)] + split_lines(b),
{
    lemma_scan_after_newline(a, b);
    let (done, current) = scan_lines(b);
    assert((seq![strip_cr(a)] + done).push(current) =~= seq![strip_cr(a)] + done.push(current));
}

/// The bytes `needle` stand in `hay` from position `p` on.
pub open spec fn occurs_at(hay: Seq<u8>, needle: Seq<u8>, p: int) -> bool {
    0 <= p && p + needle.len() <= hay.len() && hay.subrange(p, p + needle.len()) == needle
}

/// Whether the bytes `needle` stand in `hay` from position `p` on.
pub fn occurs_at_exec(hay: &[u8], needle: &[u8], p: usize) -> (found: bool)
    ensures
        found == occurs_at(hay@, needle@, p as int),
{
    if p > hay.len() || needle.len() > hay.len() - p {
        return false;
    }
    let mut k: usize = 0;
    while k < needle.len()
        invariant
            p + needle@.len() <= hay@.len(),
            hay@.len() == hay.len(),
            k <= needle@.len(),
            forall|j: int| 0 <= j < k ==> hay@[p + j] == needle@[j],
        decreases needle@.len() - k,
    {
        if hay[p + k] != needle[k] {
            assert(hay@.subrange(p as int, p + needle@.len())[k as int] != needle@[k as int]);
            return false;
        }
        k = k + 1;
    }
    assert(hay@.subrange(p as int, p + needle@.len()) =~= needle@);
    true
}

/// The first position at which the bytes `needle` stand in `hay`, if any.
pub fn find_occurrence(hay: &[u8], needle: &[u8]) -> (found: Option<usize>)
    ensures
        found matches Some(p) ==> occurs_at(hay@, needle@, p as int),
        found is None ==> forall|p: int| !occurs_at(hay@, needle@, p),
{
    if needle.len() > hay.len() {
        return None;
    }
    let last = hay.len() - needle.len();
    let mut p: usize = 0;
    loop
        invariant
            last == hay@.len() - needle@.len(),
            p <= last,
            forall|q: int| 0 <= q < p ==> !occurs_at(hay@, needle@, q),
        decreases last - p,
    {
        if occurs_at_exec(hay, needle, p) {
            return Some(p);
        }
        if p == last {
            return None;
        }
        p = p + 1;
    }
}

} // verus!
