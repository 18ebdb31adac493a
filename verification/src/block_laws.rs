//! What the lines of a block become, and where a block ends, stated line by
//! line.

use vstd::prelude::*;

use crate::inline::expand;
use crate::model::{block_end, end_marker, indented, title_page, ConverterModel};
use crate::text::{starts_with, trim};

verus! {

/// What one line of an indented block becomes: the prefix, the line
/// expanded, and a newline.
pub open spec fn indented_line(prefix: Seq<char>) -> spec_fn(Seq<char>) -> Seq<char> {
    |l: Seq<char>| prefix + expand(l) + "\n"@
}

/// The lines of a block are written in order, each as the prefix, the line
/// expanded and a newline, and nothing else.
pub proof fn law_indented_lines(lines: Seq<Seq<char>>, from: int, to: int, prefix: Seq<char>)
    requires
        0 <= from <= to <= lines.len(),
    ensures
        indented(lines, from, to, prefix) == lines.subrange(from, to).map_values(
            indented_line(prefix),
        ).flatten(),
    decreases to - from,
{
    let f = indented_line(prefix);
    if to > from {
        law_indented_lines(lines, from, to - 1, prefix);
        let head = lines.subrange(from, to - 1).map_values(f);
        assert(lines.subrange(from, to).map_values(f) =~= head.push(f(lines[to - 1])));
        head.lemma_flatten_push(f(lines[to - 1]));
        assert(indented(lines, from, to, prefix) =~= head.flatten() + f(lines[to - 1]));
    } else {
        assert(lines.subrange(from, to).map_values(f) =~= Seq::<Seq<char>>::empty());
        assert(Seq::<Seq<char>>::empty().flatten() =~= Seq::<char>::empty());
    }
}

/// A block ends at the first line, at or after its start, that reads
/// `@end tag` once trimmed; where no line does, it runs past the last line.
pub proof fn law_block_end(lines: Seq<Seq<char>>, from: int, tag: Seq<char>)
    requires
        0 <= from <= lines.len(),
    ensures
        from <= block_end(lines, from, tag) <= lines.len(),
        block_end(lines, from, tag) < lines.len() ==> trim(lines[block_end(lines, from, tag)])
            == end_marker(tag),
        forall|k: int|
            from <= k < block_end(lines, from, tag) ==> trim(#[trigger] lines[k]) != end_marker(
                tag,
            ),
    decreases lines.len() - from,
{
    if from < lines.len() && trim(lines[from]) != end_marker(tag) {
        law_block_end(lines, from + 1, tag);
    }
}

/// A title page changes nothing but the title, the author and the subtitle.
pub proof fn law_title_page_keeps_the_rest(
    st: ConverterModel,
    lines: Seq<Seq<char>>,
    from: int,
    to: int,
)
    requires
        0 <= from <= to <= lines.len(),
    ensures
        ({
            let r = title_page(st, lines, from, to);
            r == ConverterModel { title: r.title, author: r.author, subtitle: r.subtitle, ..st }
        }),
    decreases to - from,
{
    if to > from {
        law_title_page_keeps_the_rest(st, lines, from, to - 1);
    }
}

/// The title is set by the last line of the title page that starts with
/// `@title` (line `k`), to what follows `@title` on it, trimmed; where no line
/// does (`k` is `from - 1`), the title stays as it was.
pub proof fn law_title_page_title(
    st: ConverterModel,
    lines: Seq<Seq<char>>,
    from: int,
    to: int,
    k: int,
)
    requires
        0 <= from <= to <= lines.len(),
        from - 1 <= k < to,
        k >= from ==> starts_with(lines[k], "@title"@),
        forall|m: int| k < m < to ==> !starts_with(#[trigger] lines[m], "@title"@),
    ensures
        title_page(st, lines, from, to).title == if k >= from {
            trim(lines[k].skip(6))
        } else {
            st.title
        },
    decreases to - from,
{
    if to > from && k < to - 1 {
        law_title_page_title(st, lines, from, to - 1, k);
    }
}

proof fn lemma_second_char(l: Seq<char>, p: Seq<char>)
    requires
        starts_with(l, p),
        p.len() >= 2,
    ensures
        l[1] == p[1],
{
    assert(l.take(p.len() as int)[1] == l[1]);
}

/// The author is set by the last line of the title page that starts with
/// `@author` (line `k`), to what follows `@author` on it, trimmed; where no
/// line does (`k` is `from - 1`), the author stays as it was.
pub proof fn law_title_page_author(
    st: ConverterModel,
    lines: Seq<Seq<char>>,
    from: int,
    to: int,
    k: int,
)
    requires
        0 <= from <= to <= lines.len(),
        from - 1 <= k < to,
        k >= from ==> starts_with(lines[k], "@author"@),
        forall|m: int| k < m < to ==> !starts_with(#[trigger] lines[m], "@author"@),
    ensures
        title_page(st, lines, from, to).author == if k >= from {
            trim(lines[k].skip(7))
        } else {
            st.author
        },
    decreases to - from,
{
    reveal_strlit("@title");
    reveal_strlit("@author");
    if to > from {
        if k < to - 1 {
            law_title_page_author(st, lines, from, to - 1, k);
        } else if starts_with(lines[k], "@title"@) {
            lemma_second_char(lines[k], "@title"@);
            lemma_second_char(lines[k], "@author"@);
        }
    }
}

/// The subtitle is set by the last line of the title page that starts with
/// `@subtitle` (line `k`), to what follows `@subtitle` on it, trimmed; where
/// no line does (`k` is `from - 1`), the subtitle stays as it was.
pub proof fn law_title_page_subtitle(
    st: ConverterModel,
    lines: Seq<Seq<char>>,
    from: int,
    to: int,
    k: int,
)
    requires
        0 <= from <= to <= lines.len(),
        from - 1 <= k < to,
        k >= from ==> starts_with(lines[k], "@subtitle"@),
        forall|m: int| k < m < to ==> !starts_with(#[trigger] lines[m], "@subtitle"@),
    ensures
        title_page(st, lines, from, to).subtitle == if k >= from {
            trim(lines[k].skip(9))
        } else {
            st.subtitle
        },
    decreases to - from,
{
    reveal_strlit("@title");
    reveal_strlit("@author");
    reveal_strlit("@subtitle");
    if to > from {
        if k < to - 1 {
            law_title_page_subtitle(st, lines, from, to - 1, k);
        } else {
            lemma_second_char(lines[k], "@subtitle"@);
            if starts_with(lines[k], "@title"@) {
                lemma_second_char(lines[k], "@title"@);
            }
            if starts_with(lines[k], "@author"@) {
                lemma_second_char(lines[k], "@author"@);
            }
        }
    }
}

} // verus!
