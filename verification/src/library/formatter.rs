//! Formatting: spaces between Chinese, Japanese or Korean text and Latin
//! letters and digits, one paragraph per line, paragraphs indented and set
//! apart by blank lines.

use crate::article::Article;
use crate::config::formatter::FormatConfig;
use crate::text::{chars_of, first_newline, string_of, trim_bounds, trimmed};
use vstd::prelude::*;

verus! {

/// What `pangu::spacing` makes of `text`.
pub uninterp spec fn pangu_spacing(text: Seq<char>) -> Seq<char>;

/// `pangu::spacing`: the text with a space between each run of Chinese,
/// Japanese or Korean characters and the Latin letters, digits and symbols
/// beside it.
#[verifier::external_body]
fn spacing(text: &str) -> (spaced: String)
    ensures
        spaced@ == pangu_spacing(text@),
{
    pangu::spacing(text).into_owned()
}

/// The paragraphs of `text` from the index `from` on: its lines without the
/// whitespace around them, but for those of which nothing is left.
pub open spec fn paragraphs_from(text: Seq<char>, from: int) -> Seq<Seq<char>>
    decreases text.len() - from,
{
    if from < 0 || from >= text.len() {
        Seq::empty()
    } else {
        let end = first_newline(text, from);
        let line = trimmed(text.subrange(from, end));
        let rest = if from <= end < text.len() {
            paragraphs_from(text, end + 1)
        } else {
            Seq::empty()
        };
        if line.len() > 0 {
            seq![line] + rest
        } else {
            rest
        }
    }
}

/// `n` times the character `c`.
pub open spec fn repeated(c: char, n: nat) -> Seq<char> {
    Seq::new(n, |i: int| c)
}

/// The paragraphs in one text: each paragraph behind `indent` spaces, and
/// between two paragraphs a line break and `blank` blank lines.
pub open spec fn join_paragraphs(paragraphs: Seq<Seq<char>>, indent: nat, blank: nat) -> Seq<char>
    decreases paragraphs.len(),
{
    if paragraphs.len() == 0 {
        Seq::empty()
    } else if paragraphs.len() == 1 {
        repeated(' ', indent) + paragraphs[0]
    } else {
        join_paragraphs(paragraphs.drop_last(), indent, blank) + repeated('\n', blank + 1)
            + repeated(' ', indent) + paragraphs.last()
    }
}

/// The text of an article once it is formatted.
pub open spec fn formatted(text: Seq<char>, config: FormatConfig) -> Seq<char> {
    join_paragraphs(
        paragraphs_from(pangu_spacing(text), 0),
        config.indent_spaces as nat,
        config.blank_lines_between_paragraphs as nat,
    )
}

/// Appends `n` times the character `c`.
fn push_repeated(out: &mut Vec<char>, c: char, n: usize)
    ensures
        final(out)@ == old(out)@ + repeated(c, n as nat),
{
    let mut i: usize = 0;
    while i < n
        invariant
            i <= n,
            out@ == old(out)@ + repeated(c, i as nat),
        decreases n - i,
    {
        out.push(c);
        i += 1;
        assert(out@ =~= old(out)@ + repeated(c, i as nat));
    }
}

/// Lays out the paragraphs of `text`: each line that holds more than
/// whitespace, without the whitespace around it and behind the indentation,
/// with the blank lines between one paragraph and the next.
pub fn layout(text: &Vec<char>, config: &FormatConfig) -> (out: Vec<char>)
    ensures
        out@ == join_paragraphs(
            paragraphs_from(text@, 0),
            config.indent_spaces as nat,
            config.blank_lines_between_paragraphs as nat,
        ),
{
    let ghost indent = config.indent_spaces as nat;
    let ghost blank = config.blank_lines_between_paragraphs as nat;
    let ghost all = paragraphs_from(text@, 0);
    let n = text.len();
    let mut out: Vec<char> = Vec::new();
    let mut any = false;
    let ghost mut done: Seq<Seq<char>> = Seq::empty();
    let mut from: usize = 0;
    assert(done + paragraphs_from(text@, 0) == all);
    while from < n
        invariant
            n == text.len(),
            from <= n,
            indent == config.indent_spaces as nat,
            blank == config.blank_lines_between_paragraphs as nat,
            any == (done.len() > 0),
            out@ == join_paragraphs(done, indent, blank),
            done + paragraphs_from(text@, from as int) == all,
        decreases n - from,
    {
        let mut end: usize = from;
        while end < n && text[end] != '\n'
            invariant
                n == text.len(),
                from <= end <= n,
                first_newline(text@, end as int) == first_newline(text@, from as int),
            decreases n - end,
        {
            end += 1;
        }
        let mut line: Vec<char> = Vec::new();
        let mut i: usize = from;
        while i < end
            invariant
                from <= i <= end <= text.len(),
                line@ == text@.subrange(from as int, i as int),
            decreases end - i,
        {
            line.push(text[i]);
            i += 1;
            assert(text@.subrange(from as int, i as int) == text@.subrange(
                from as int,
                i as int - 1,
            ).push(text@[i as int - 1]));
        }
        let (a, b) = trim_bounds(&line);
        let ghost rest = if end < n {
            paragraphs_from(text@, end as int + 1)
        } else {
            Seq::<Seq<char>>::empty()
        };
        if a < b {
            let ghost paragraph = trimmed(line@);
            let ghost before = done;
            if any {
                push_repeated(&mut out, '\n', config.blank_lines_between_paragraphs);
                out.push('\n');
                assert(repeated('\n', blank).push('\n') =~= repeated('\n', blank + 1));
            }
            push_repeated(&mut out, ' ', config.indent_spaces);
            let mut k: usize = a;
            let ghost head = out@;
            while k < b
                invariant
                    a <= k <= b <= line.len(),
                    out@ == head + line@.subrange(a as int, k as int),
                decreases b - k,
            {
                out.push(line[k]);
                k += 1;
                assert(line@.subrange(a as int, k as int) == line@.subrange(
                    a as int,
                    k as int - 1,
                ).push(line@[k as int - 1]));
            }
            proof {
                done = before.push(paragraph);
                assert(done.drop_last() == before);
                assert(done.last() == paragraph);
                assert(paragraphs_from(text@, from as int) == seq![paragraph] + rest);
                assert(done + rest =~= before + (seq![paragraph] + rest));
                if before.len() == 0 {
                    assert(out@ =~= repeated(' ', indent) + paragraph);
                } else {
                    assert(out@ =~= join_paragraphs(before, indent, blank) + repeated(
                        '\n',
                        blank + 1,
                    ) + repeated(' ', indent) + paragraph);
                }
            }
            any = true;
        } else {
            assert(paragraphs_from(text@, from as int) == rest);
        }
        if end < n {
            from = end + 1;
        } else {
            from = n;
        }
    }
    proof {
        assert(paragraphs_from(text@, from as int) == Seq::<Seq<char>>::empty());
        assert(done + Seq::<Seq<char>>::empty() =~= done);
    }
    out
}

/// Formats an article: spaces are set where Chinese, Japanese or Korean
/// text meets Latin letters and digits; every line that holds more than
/// whitespace becomes a paragraph, without the whitespace around it and
/// behind the indentation; and the paragraphs are set apart by blank lines.
pub fn format_text(article: &Article, config: &FormatConfig) -> (a: Article)
    ensures
        a@ == formatted(article@, *config),
{
    let spaced = spacing(article.content_ref());
    let chars = chars_of(spaced.as_str());
    let out = layout(&chars, config);
    let n = out.len();
    let text = string_of(&out, 0, n);
    assert(out@.subrange(0, n as int) == out@);
    Article::new(text)
}

/// The text `content` formatted as `config` says.
pub fn formatter(config: &FormatConfig, content: &str) -> (s: String)
    ensures
        s@ == formatted(content@, *config),
{
    let article = Article::new(String::from_str(content));
    let result = format_text(&article, config);
    result.content()
}

} // verus!
