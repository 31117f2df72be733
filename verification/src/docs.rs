//! Reading the documentation of a function: what the function does, and what each
//! of its parameters is for.
//!
//! The documentation comes as the texts of the function's doc comments, in order.
//! A line of the form `* name - what it is for` documents the parameter `name`;
//! the other lines, put together, describe the function.

use crate::text::{chars_of, slice_of, str_eq, string_of};
use vstd::prelude::*;

verus! {

/// Whether `c` is white space as Unicode defines it.
pub open spec fn is_whitespace(c: char) -> bool {
    let n = c as u32;
    ||| 0x09 <= n <= 0x0D
    ||| n == 0x20
    ||| n == 0x85
    ||| n == 0xA0
    ||| n == 0x1680
    ||| 0x2000 <= n <= 0x200A
    ||| n == 0x2028
    ||| n == 0x2029
    ||| n == 0x202F
    ||| n == 0x205F
    ||| n == 0x3000
}

/// `text` without the white space at its start.
pub open spec fn trim_start(text: Seq<char>) -> Seq<char>
    decreases text.len(),
{
    if text.len() > 0 && is_whitespace(text[0]) {
        trim_start(text.drop_first())
    } else {
        text
    }
}

/// `text` without the white space at its end.
pub open spec fn trim_end(text: Seq<char>) -> Seq<char>
    decreases text.len(),
{
    if text.len() > 0 && is_whitespace(text.last()) {
        trim_end(text.drop_last())
    } else {
        text
    }
}

/// `text` without the white space at its start and at its end.
pub open spec fn trim(text: Seq<char>) -> Seq<char> {
    trim_end(trim_start(text))
}

/// The position of the first `c` in `text`; the length of `text` where it holds
/// no `c`.
pub open spec fn position(text: Seq<char>, c: char) -> int
    decreases text.len(),
{
    if text.len() == 0 || text[0] == c {
        0
    } else {
        1 + position(text.drop_first(), c)
    }
}

/// The lines of `text`: the pieces between its line feeds. A text without a line
/// feed is one line, and a line feed at the end is followed by an empty line.
pub open spec fn lines_of(text: Seq<char>) -> Seq<Seq<char>>
    decreases text.len(),
{
    if text.len() == 0 {
        seq![Seq::empty()]
    } else {
        let before = lines_of(text.drop_last());
        if text.last() == '\n' {
            before.push(Seq::empty())
        } else {
            before.update(before.len() - 1, before.last().push(text.last()))
        }
    }
}

/// The lines of all `docs` in order, each without the white space around it.
pub open spec fn trimmed_lines(docs: Seq<Seq<char>>) -> Seq<Seq<char>>
    decreases docs.len(),
{
    if docs.len() == 0 {
        Seq::empty()
    } else {
        trimmed_lines(docs.drop_last()) + lines_of(docs.last()).map_values(
            |line: Seq<char>| trim(line),
        )
    }
}

/// `lines` without the empty lines at their start.
pub open spec fn skip_blank(lines: Seq<Seq<char>>) -> Seq<Seq<char>>
    decreases lines.len(),
{
    if lines.len() > 0 && lines[0].len() == 0 {
        skip_blank(lines.drop_first())
    } else {
        lines
    }
}

/// Whether `line` documents a parameter: it starts with `*` and holds a `-`.
pub open spec fn is_parameter_line(line: Seq<char>) -> bool {
    line.len() > 0 && line[0] == '*' && position(line, '-') < line.len()
}

/// The parameter that `line` documents and what the line says of it: what stands
/// after the `*` is cut at its first `-`, and both parts lose the white space
/// around them.
pub open spec fn parameter_of(line: Seq<char>) -> (Seq<char>, Seq<char>) {
    let rest = trim(line.drop_first());
    let cut = position(rest, '-');
    (
        trim(rest.take(cut)),
        if cut < rest.len() {
            trim(rest.skip(cut + 1))
        } else {
            Seq::empty()
        },
    )
}

/// The lines among `lines` that describe the function, in order.
pub open spec fn description_lines(lines: Seq<Seq<char>>) -> Seq<Seq<char>>
    decreases lines.len(),
{
    if lines.len() == 0 {
        Seq::empty()
    } else if is_parameter_line(lines.last()) {
        description_lines(lines.drop_last())
    } else {
        description_lines(lines.drop_last()).push(lines.last())
    }
}

/// The parameters that `lines` document, in order.
pub open spec fn parameter_lines(lines: Seq<Seq<char>>) -> Seq<(Seq<char>, Seq<char>)>
    decreases lines.len(),
{
    if lines.len() == 0 {
        Seq::empty()
    } else if is_parameter_line(lines.last()) {
        parameter_lines(lines.drop_last()).push(parameter_of(lines.last()))
    } else {
        parameter_lines(lines.drop_last())
    }
}

/// `lines` without their last line where that is empty.
pub open spec fn drop_blank_end(lines: Seq<Seq<char>>) -> Seq<Seq<char>> {
    if lines.len() > 0 && lines.last().len() == 0 {
        lines.drop_last()
    } else {
        lines
    }
}

/// `lines` put together, with a line feed between each two.
pub open spec fn joined(lines: Seq<Seq<char>>) -> Seq<char>
    decreases lines.len(),
{
    if lines.len() == 0 {
        Seq::empty()
    } else if lines.len() == 1 {
        lines[0]
    } else {
        joined(lines.drop_last()).push('\n') + lines.last()
    }
}

/// The lines of `docs` that count: all lines, trimmed, without the empty ones at
/// the start.
pub open spec fn counted_lines(docs: Seq<Seq<char>>) -> Seq<Seq<char>> {
    skip_blank(trimmed_lines(docs))
}

/// What `docs` say the function does: the lines that document no parameter,
/// without an empty last line, put together.
pub open spec fn description_of(docs: Seq<Seq<char>>) -> Seq<char> {
    joined(drop_blank_end(description_lines(counted_lines(docs))))
}

/// The documentation of a function.
#[derive(Debug, Clone, PartialEq, Eq)]
pub struct FunctionDocs {
    /// What the function does.
    pub description: String,
    /// The documented parameters with what is said of each, in the order of the
    /// documentation.
    pub parameter_docs: Vec<(String, String)>,
}

/// What is said of the parameter `name` among `parameters`: where it is documented
/// more than once, what is said last.
pub open spec fn parameter_doc_of(parameters: Seq<(Seq<char>, Seq<char>)>, name: Seq<char>) -> Option<
    Seq<char>,
>
    decreases parameters.len(),
{
    if parameters.len() == 0 {
        None
    } else if parameters.last().0 == name {
        Some(parameters.last().1)
    } else {
        parameter_doc_of(parameters.drop_last(), name)
    }
}

/// A list of characters holds what it shows.
proof fn lemma_chars_view(text: Vec<char>)
    ensures
        text.deep_view() == text@,
{
    assert(text.deep_view() =~= text@);
}

fn whitespace(c: char) -> (r: bool)
    ensures
        r == is_whitespace(c),
{
    let n: u32 = c as u32;
    (0x09 <= n && n <= 0x0D) || n == 0x20 || n == 0x85 || n == 0xA0 || n == 0x1680 || (0x2000 <= n
        && n <= 0x200A) || n == 0x2028 || n == 0x2029 || n == 0x202F || n == 0x205F || n == 0x3000
}

/// `text` without the white space around it.
pub fn trimmed(text: &Vec<char>) -> (r: Vec<char>)
    ensures
        r@ == trim(text@),
{
    let mut from: usize = 0;
    proof {
        assert(text@.skip(0) =~= text@);
    }
    while from < text.len() && whitespace(text[from])
        invariant
            from <= text@.len(),
            trim_start(text@) == trim_start(text@.skip(from as int)),
        decreases text@.len() - from,
    {
        proof {
            assert(text@.skip(from as int).drop_first() =~= text@.skip(from + 1));
        }
        from = from + 1;
    }
    let ghost front = text@.skip(from as int);
    assert(trim_start(text@) == front) by {
        if from < text@.len() {
            assert(front[0] == text@[from as int]);
        }
    }
    let mut to: usize = text.len();
    proof {
        assert(text@.subrange(from as int, to as int) =~= front);
    }
    while to > from && whitespace(text[to - 1])
        invariant
            from <= to <= text@.len(),
            trim_end(front) == trim_end(text@.subrange(from as int, to as int)),
        decreases to,
    {
        proof {
            let part = text@.subrange(from as int, to as int);
            assert(part.last() == text@[to - 1]);
            assert(part.drop_last() =~= text@.subrange(from as int, to - 1));
        }
        to = to - 1;
    }
    assert(trim_end(front) == text@.subrange(from as int, to as int)) by {
        let part = text@.subrange(from as int, to as int);
        if to > from {
            assert(part.last() == text@[to - 1]);
        }
    }
    slice_of(text, from, to)
}

/// The position of the first `c` in `text`.
pub fn find(text: &Vec<char>, c: char) -> (r: usize)
    ensures
        r == position(text@, c),
        r <= text@.len(),
{
    let mut i: usize = 0;
    proof {
        assert(text@.skip(0) =~= text@);
    }
    while i < text.len() && text[i] != c
        invariant
            i <= text@.len(),
            position(text@, c) == i + position(text@.skip(i as int), c),
        decreases text@.len() - i,
    {
        proof {
            let rest = text@.skip(i as int);
            assert(rest[0] == text@[i as int]);
            assert(rest.drop_first() =~= text@.skip(i + 1));
        }
        i = i + 1;
    }
    proof {
        let rest = text@.skip(i as int);
        if i < text@.len() {
            assert(rest[0] == text@[i as int]);
        }
    }
    i
}

/// The lines of `text`.
pub fn split_lines(text: &Vec<char>) -> (r: Vec<Vec<char>>)
    ensures
        r.deep_view() == lines_of(text@),
{
    let mut lines: Vec<Vec<char>> = Vec::new();
    let mut current: Vec<char> = Vec::new();
    let mut i: usize = 0;
    proof {
        assert(text@.take(0).len() == 0);
        assert(lines.deep_view().push(current@) =~= lines_of(text@.take(0)));
    }
    while i < text.len()
        invariant
            i <= text@.len(),
            lines.deep_view().push(current@) == lines_of(text@.take(i as int)),
        decreases text@.len() - i,
    {
        let ghost before = lines_of(text@.take(i as int));
        let ghost done = lines.deep_view();
        let ghost line = current@;
        proof {
            let upto = text@.take(i + 1);
            assert(upto.drop_last() =~= text@.take(i as int));
            assert(upto.last() == text@[i as int]);
            assert(before.len() == done.len() + 1);
            assert(before.last() == line);
        }
        let c = text[i];
        if c == '\n' {
            proof {
                lemma_chars_view(current);
            }
            lines.push(current);
            current = Vec::new();
            proof {
                assert(lines.deep_view() =~= done.push(line));
                assert(lines.deep_view().push(current@) =~= before.push(Seq::empty()));
            }
        } else {
            current.push(c);
            proof {
                assert(lines.deep_view().push(current@) =~= before.update(
                    before.len() - 1,
                    before.last().push(c),
                ));
            }
        }
        i = i + 1;
    }
    let ghost done = lines.deep_view();
    proof {
        lemma_chars_view(current);
    }
    lines.push(current);
    proof {
        assert(text@.take(i as int) =~= text@);
        assert(lines.deep_view() =~= done.push(current@));
    }
    lines
}

/// `lines` put together, with a line feed between each two.
pub fn join_lines(lines: &Vec<Vec<char>>) -> (r: Vec<char>)
    ensures
        r@ == joined(lines.deep_view()),
{
    let mut out: Vec<char> = Vec::new();
    let mut i: usize = 0;
    let ghost all = lines.deep_view();
    proof {
        assert(all.take(0).len() == 0);
    }
    while i < lines.len()
        invariant
            i <= lines@.len(),
            all == lines.deep_view(),
            out@ == joined(all.take(i as int)),
        decreases lines@.len() - i,
    {
        let ghost before = out@;
        proof {
            let upto = all.take(i + 1);
            assert(upto.drop_last() =~= all.take(i as int));
            assert(upto.last() == lines@[i as int]@);
        }
        if i > 0 {
            out.push('\n');
        }
        let line = &lines[i];
        let mut k: usize = 0;
        let ghost start = out@;
        while k < line.len()
            invariant
                k <= line@.len(),
                out@ == start + line@.take(k as int),
            decreases line@.len() - k,
        {
            out.push(line[k]);
            proof {
                assert(out@ =~= start + line@.take(k + 1));
            }
            k = k + 1;
        }
        proof {
            assert(line@.take(k as int) =~= line@);
            if i == 0 {
                assert(start + line@ =~= line@);
            }
        }
        i = i + 1;
    }
    proof {
        assert(all.take(i as int) =~= all);
    }
    out
}

impl FunctionDocs {
    /// Reads the documentation of a function from the texts of its doc comments;
    /// `None` where they do not say what the function does.
    pub fn extract_docs(docs: &Vec<String>) -> (r: Option<FunctionDocs>)
        ensures
            description_of(docs.deep_view()).len() == 0 ==> r is None,
            description_of(docs.deep_view()).len() > 0 ==> (r matches Some(found)
                && found.description@ == description_of(docs.deep_view())
                && found.parameter_docs.deep_view() == parameter_lines(
                counted_lines(docs.deep_view()),
            )),
    {
        let ghost texts = docs.deep_view();
        let mut lines: Vec<Vec<char>> = Vec::new();
        let mut d: usize = 0;
        proof {
            assert(texts.take(0).len() == 0);
            assert(lines.deep_view() =~= trimmed_lines(texts.take(0)));
        }
        while d < docs.len()
            invariant
                d <= docs@.len(),
                texts == docs.deep_view(),
                lines.deep_view() == trimmed_lines(texts.take(d as int)),
            decreases docs@.len() - d,
        {
            let pieces = split_lines(&chars_of(docs[d].as_str()));
            let ghost before = lines.deep_view();
            let ghost raw = lines_of(docs@[d as int]@);
            proof {
                let upto = texts.take(d + 1);
                assert(upto.drop_last() =~= texts.take(d as int));
                assert(upto.last() == docs@[d as int]@);
            }
            let mut p: usize = 0;
            while p < pieces.len()
                invariant
                    p <= pieces@.len(),
                    pieces.deep_view() == raw,
                    lines.deep_view() == before + raw.map_values(|line: Seq<char>| trim(line)).take(
                        p as int,
                    ),
                decreases pieces@.len() - p,
            {
                let ghost sofar = lines.deep_view();
                let line = trimmed(&pieces[p]);
                proof {
                    lemma_chars_view(line);
                    lemma_chars_view(pieces@[p as int]);
                }
                lines.push(line);
                proof {
                    let mapped = raw.map_values(|line: Seq<char>| trim(line));
                    assert(pieces@[p as int]@ == raw[p as int]);
                    assert(mapped[p as int] == trim(raw[p as int]));
                    assert(lines.deep_view() =~= sofar.push(line@));
                    assert(lines.deep_view() =~= before + mapped.take(p + 1));
                }
                p = p + 1;
            }
            proof {
                let mapped = raw.map_values(|line: Seq<char>| trim(line));
                assert(mapped.take(p as int) =~= mapped);
            }
            d = d + 1;
        }
        proof {
            assert(texts.take(d as int) =~= texts);
        }
        let ghost all = lines.deep_view();
        let mut from: usize = 0;
        proof {
            assert(all.skip(0) =~= all);
        }
        while from < lines.len() && lines[from].len() == 0
            invariant
                from <= lines@.len(),
                all == lines.deep_view(),
                skip_blank(all) == skip_blank(all.skip(from as int)),
            decreases lines@.len() - from,
        {
            proof {
                let rest = all.skip(from as int);
                assert(rest[0] == lines@[from as int]@);
                assert(rest.drop_first() =~= all.skip(from + 1));
            }
            from = from + 1;
        }
        let ghost counted = all.skip(from as int);
        assert(skip_blank(all) == counted) by {
            if from < lines@.len() {
                assert(counted[0] == lines@[from as int]@);
            }
        }
        let mut description: Vec<Vec<char>> = Vec::new();
        let mut parameters: Vec<(String, String)> = Vec::new();
        let mut i: usize = from;
        proof {
            assert(counted.take(0).len() == 0);
            assert(description.deep_view() =~= description_lines(counted.take(0)));
            assert(parameters.deep_view() =~= parameter_lines(counted.take(0)));
        }
        while i < lines.len()
            invariant
                from <= i <= lines@.len(),
                all == lines.deep_view(),
                counted == all.skip(from as int),
                description.deep_view() == description_lines(counted.take(i - from)),
                parameters.deep_view() == parameter_lines(counted.take(i - from)),
            decreases lines@.len() - i,
        {
            let line = &lines[i];
            let ghost described = description.deep_view();
            let ghost documented = parameters.deep_view();
            proof {
                let upto = counted.take(i - from + 1);
                assert(upto.drop_last() =~= counted.take(i - from));
                assert(upto.last() == line@);
            }
            if line.len() > 0 && line[0] == '*' && find(line, '-') < line.len() {
                let rest = trimmed(&slice_of(line, 1, line.len()));
                proof {
                    assert(line@.subrange(1, line@.len() as int) =~= line@.drop_first());
                }
                let cut = find(&rest, '-');
                let name = trimmed(&slice_of(&rest, 0, cut));
                let said = if cut < rest.len() {
                    trimmed(&slice_of(&rest, cut + 1, rest.len()))
                } else {
                    Vec::new()
                };
                proof {
                    assert(rest@.subrange(0, cut as int) =~= rest@.take(cut as int));
                    if cut < rest@.len() {
                        assert(rest@.subrange(cut + 1, rest@.len() as int) =~= rest@.skip(cut + 1));
                    }
                }
                parameters.push((string_of(&name), string_of(&said)));
                proof {
                    assert(parameters.deep_view() =~= documented.push(parameter_of(line@)));
                }
            } else {
                description.push(slice_of(line, 0, line.len()));
                proof {
                    assert(line@.subrange(0, line@.len() as int) =~= line@);
                    assert(description.deep_view() =~= described.push(line@));
                }
            }
            i = i + 1;
        }
        proof {
            assert(counted.take(i - from) =~= counted);
        }
        let ghost described = description.deep_view();
        if description.len() > 0 && description[description.len() - 1].len() == 0 {
            description.pop();
        }
        proof {
            assert(description.deep_view() =~= drop_blank_end(described));
        }
        let text = join_lines(&description);
        if text.len() == 0 {
            return None;
        }
        Some(FunctionDocs { description: string_of(&text), parameter_docs: parameters })
    }

    /// What the documentation says of the parameter `name`.
    pub fn parameter_doc(&self, name: &str) -> (r: Option<&String>)
        ensures
            r.deep_view() == parameter_doc_of(self.parameter_docs.deep_view(), name@),
    {
        let mut i: usize = self.parameter_docs.len();
        let ghost all = self.parameter_docs.deep_view();
        proof {
            assert(all.take(i as int) =~= all);
        }
        while i > 0
            invariant
                i <= self.parameter_docs@.len(),
                all == self.parameter_docs.deep_view(),
                parameter_doc_of(all, name@) == parameter_doc_of(all.take(i as int), name@),
            decreases i,
        {
            proof {
                let part = all.take(i as int);
                assert(part.last() == all[i - 1]);
                assert(part.drop_last() =~= all.take(i - 1));
            }
            if str_eq(self.parameter_docs[i - 1].0.as_str(), name) {
                return Some(&self.parameter_docs[i - 1].1);
            }
            i = i - 1;
        }
        proof {
            assert(all.take(0).len() == 0);
        }
        None
    }
}

} // verus!
