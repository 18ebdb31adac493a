//! Expansion of inline Texinfo markup (`@code{..}`, `@dots{}`, `@@`, ...)
//! into plain Info text.

use vstd::prelude::*;

use crate::outside::{str_to_uppercase, to_uppercase};
use crate::text::{
    copy_range, eq_str, lemma_span_bounds, push_all, push_str, span, span_from, split_n, split_n_exec,
    trim, trim_exec, views, CharClass,
};

verus! {

/// Punctuation commands that produce nothing: `@.`, `@:`, `@!`, `@?`,
/// `@*`, `@/` and `@-`.
pub open spec fn is_silent_punct(c: char) -> bool {
    c == '.' || c == ':' || c == '!' || c == '?' || c == '*' || c == '/' || c == '-'
}

/// The index of the `}` that closes a group, scanning from `i` at nesting
/// `depth`; the length of `s` where the group is never closed.
pub open spec fn group_close(s: Seq<char>, i: int, depth: int) -> int
    decreases s.len() - i,
{
    if i < 0 || i >= s.len() {
        s.len() as int
    } else if s[i] == '{' {
        group_close(s, i + 1, depth + 1)
    } else if s[i] == '}' {
        if depth <= 1 {
            i
        } else {
            group_close(s, i + 1, depth - 1)
        }
    } else {
        group_close(s, i + 1, depth)
    }
}

pub proof fn lemma_group_close_bounds(s: Seq<char>, i: int, depth: int)
    requires
        0 <= i <= s.len(),
    ensures
        i <= group_close(s, i, depth) <= s.len(),
        group_close(s, i, depth) < s.len() ==> s[group_close(s, i, depth)] == '}',
    decreases s.len() - i,
{
    if i < s.len() {
        if s[i] == '{' {
            lemma_group_close_bounds(s, i + 1, depth + 1);
        } else if s[i] == '}' {
            if depth > 1 {
                lemma_group_close_bounds(s, i + 1, depth - 1);
            }
        } else {
            lemma_group_close_bounds(s, i + 1, depth);
        }
    }
}

/// Commands whose argument is quoted as `` `arg' ``.
pub open spec fn is_quoting(n: Seq<char>) -> bool {
    n == "code"@ || n == "samp"@ || n == "kbd"@ || n == "env"@ || n == "command"@ || n
        == "option"@ || n == "file"@ || n == "dfn"@ || n == "cite"@ || n == "abbr"@ || n
        == "acronym"@
}

/// Commands whose argument is put between `<` and `>`.
pub open spec fn is_angled(n: Seq<char>) -> bool {
    n == "key"@ || n == "email"@
}

/// Cross-reference commands.
pub open spec fn is_xref(n: Seq<char>) -> bool {
    n == "xref"@ || n == "pxref"@ || n == "ref"@ || n == "inforef"@
}

/// The text of a braced command `@name{..}` whose argument expands to `ex`.
pub open spec fn braced(n: Seq<char>, ex: Seq<char>) -> Seq<char> {
    if is_quoting(n) {
        seq!['`'] + ex + seq!['\'']
    } else if n == "sc"@ {
        str_to_uppercase(ex)
    } else if is_angled(n) {
        seq!['<'] + ex + seq!['>']
    } else if is_xref(n) {
        "*Note "@ + trim(split_n(ex, ',', 2)[0]) + "::"@
    } else if n == "dots"@ || n == "enddots"@ {
        "..."@
    } else if n == "bullet"@ {
        "*"@
    } else if n == "copyright"@ {
        "(C)"@
    } else if n == "registeredsymbol"@ {
        "(R)"@
    } else if n == "result"@ {
        "=>"@
    } else if n == "expansion"@ {
        "==>"@
    } else if n == "print"@ {
        "-|"@
    } else if n == "error"@ {
        "error-->"@
    } else if n == "point"@ {
        "-!-"@
    } else if n == "equiv"@ {
        "=="@
    } else if n == "tie"@ {
        " "@
    } else {
        ex
    }
}

/// Commands without braces that produce nothing.
pub open spec fn is_layout_only(n: Seq<char>) -> bool {
    n == "noindent"@ || n == "indent"@ || n == "sp"@ || n == "page"@ || n == "need"@ || n
        == "vskip"@ || n == "group"@ || n == "finalout"@ || n == "exdent"@
}

/// The text of a command `@name` written without braces (other than a
/// comment).
pub open spec fn bare(n: Seq<char>) -> Seq<char> {
    if n == "dots"@ || n == "enddots"@ {
        "..."@
    } else if n == "bullet"@ {
        "*"@
    } else if n == "copyright"@ {
        "(C)"@
    } else if n == "minus"@ {
        "-"@
    } else if n == "comma"@ {
        ","@
    } else if n == "tab"@ {
        "\t"@
    } else if is_layout_only(n) {
        Seq::empty()
    } else {
        seq!['@'] + n
    }
}

/// The expansion of `s` from index `i` on.
///
/// A character other than `@` stands for itself. `@` at the very end ends
/// the text. `@{`, `@}`, `@@` and `@` before a newline give the second
/// character; the silent punctuation commands give nothing. Otherwise a
/// command name follows (ASCII letters, digits and `-`): with a braced
/// argument, the argument (up to the matching `}`, or to the end) is
/// expanded and rendered by `braced`; without one, `@c` and `@comment` drop
/// the rest of the text and other names are rendered by `bare`.
pub open spec fn expand_from(s: Seq<char>, i: int) -> Seq<char>
    decreases s.len(), s.len() - i,
{
    if i < 0 || i >= s.len() {
        Seq::empty()
    } else if s[i] != '@' {
        seq![s[i]] + expand_from(s, i + 1)
    } else if i + 1 >= s.len() {
        Seq::empty()
    } else {
        let c = s[i + 1];
        if c == '{' || c == '}' || c == '@' || c == '\n' {
            seq![c] + expand_from(s, i + 2)
        } else if is_silent_punct(c) {
            expand_from(s, i + 2)
        } else {
            let q = i + 1;
            let e = q + span(s.skip(q), CharClass::InlineCommand);
            let name = s.subrange(q, e);
            proof {
                lemma_span_bounds(s.skip(q), CharClass::InlineCommand);
            }
            if e < s.len() && s[e] == '{' {
                let close = group_close(s, e + 1, 1);
                proof {
                    lemma_group_close_bounds(s, e + 1, 1);
                }
                let content = s.subrange(e + 1, close);
                let next = if close < s.len() {
                    close + 1
                } else {
                    s.len() as int
                };
                braced(name, expand_from(content, 0)) + expand_from(s, next)
            } else if name == "c"@ || name == "comment"@ {
                Seq::empty()
            } else {
                bare(name) + expand_from(s, e)
            }
        }
    }
}

/// The expansion of inline markup in `s`.
pub open spec fn expand(s: Seq<char>) -> Seq<char> {
    expand_from(s, 0)
}

pub proof fn lemma_plain_from(s: Seq<char>, i: int)
    requires
        0 <= i <= s.len(),
        !s.contains('@'),
    ensures
        expand_from(s, i) == s.skip(i),
    decreases s.len() - i,
{
    if i < s.len() {
        assert(s[i] != '@');
        lemma_plain_from(s, i + 1);
        assert(s.skip(i) =~= seq![s[i]] + s.skip(i + 1));
    } else {
        assert(s.skip(i) =~= Seq::<char>::empty());
    }
}

/// Text without any `@` is left as it is by inline expansion.
pub proof fn law_plain_text_unchanged(s: Seq<char>)
    requires
        !s.contains('@'),
    ensures
        expand(s) == s,
{
    lemma_plain_from(s, 0);
    assert(s.skip(0) =~= s);
}

proof fn lemma_group_close_shift(p: Seq<char>, b: Seq<char>, j: int, depth: int)
    requires
        0 <= j <= b.len(),
    ensures
        group_close(p + b, p.len() + j, depth) == p.len() + group_close(b, j, depth),
    decreases b.len() - j,
{
    let s = p + b;
    if j < b.len() {
        assert(s[p.len() + j] == b[j]);
        if b[j] == '{' {
            lemma_group_close_shift(p, b, j + 1, depth + 1);
        } else if b[j] == '}' {
            if depth > 1 {
                lemma_group_close_shift(p, b, j + 1, depth - 1);
            }
        } else {
            lemma_group_close_shift(p, b, j + 1, depth);
        }
    }
}

/// Expanding `p + b` from inside `b` is expanding `b` alone.
pub proof fn lemma_expand_shift(p: Seq<char>, b: Seq<char>, i: int)
    requires
        0 <= i <= b.len(),
    ensures
        expand_from(p + b, p.len() + i) == expand_from(b, i),
    decreases b.len() - i,
{
    let s = p + b;
    let m = p.len() as int;
    if i < b.len() {
        assert(s[m + i] == b[i]);
        if b[i] != '@' {
            lemma_expand_shift(p, b, i + 1);
        } else if i + 1 < b.len() {
            let c = b[i + 1];
            assert(s[m + i + 1] == c);
            if c == '{' || c == '}' || c == '@' || c == '\n' || is_silent_punct(c) {
                lemma_expand_shift(p, b, i + 2);
            } else {
                let q = i + 1;
                assert(s.skip(m + q) =~= b.skip(q));
                lemma_span_bounds(b.skip(q), CharClass::InlineCommand);
                let e = q + span(b.skip(q), CharClass::InlineCommand);
                assert(s.subrange(m + q, m + e) =~= b.subrange(q, e));
                if e < b.len() && b[e] == '{' {
                    assert(s[m + e] == '{');
                    lemma_group_close_shift(p, b, e + 1, 1);
                    lemma_group_close_bounds(b, e + 1, 1);
                    let close = group_close(b, e + 1, 1);
                    assert(s.subrange(m + e + 1, m + close) =~= b.subrange(e + 1, close));
                    let next = if close < b.len() {
                        close + 1
                    } else {
                        b.len() as int
                    };
                    lemma_expand_shift(p, b, next);
                } else {
                    if e < b.len() {
                        assert(s[m + e] == b[e]);
                    }
                    if !(b.subrange(q, e) == "c"@ || b.subrange(q, e) == "comment"@) {
                        lemma_expand_shift(p, b, e);
                    }
                }
            }
        }
    }
}

proof fn lemma_plain_prefix_from(a: Seq<char>, b: Seq<char>, i: int)
    requires
        0 <= i <= a.len(),
        !a.contains('@'),
    ensures
        expand_from(a + b, i) == a.skip(i) + expand_from(a + b, a.len() as int),
    decreases a.len() - i,
{
    if i < a.len() {
        assert((a + b)[i] == a[i]);
        assert(a[i] != '@');
        lemma_plain_prefix_from(a, b, i + 1);
        assert(a.skip(i) =~= seq![a[i]] + a.skip(i + 1));
    } else {
        assert(a.skip(i) =~= Seq::<char>::empty());
    }
}

/// Text without `@` in front of any text comes out of inline expansion
/// unchanged, followed by the expansion of the rest.
pub proof fn law_plain_prefix_unchanged(a: Seq<char>, b: Seq<char>)
    requires
        !a.contains('@'),
    ensures
        expand(a + b) == a + expand(b),
{
    lemma_plain_prefix_from(a, b, 0);
    lemma_expand_shift(a, b, 0);
    assert(a.skip(0) =~= a);
}

/// `s` with `@` put before each `@`, `{` and `}`.
pub open spec fn escape(s: Seq<char>) -> Seq<char>
    decreases s.len(),
{
    if s.len() == 0 {
        s
    } else {
        let c = s[0];
        (if c == '@' || c == '{' || c == '}' {
            seq!['@', c]
        } else {
            seq![c]
        }) + escape(s.drop_first())
    }
}

proof fn lemma_escape_concat(a: Seq<char>, b: Seq<char>)
    ensures
        escape(a + b) == escape(a) + escape(b),
    decreases a.len(),
{
    if a.len() == 0 {
        assert(a + b =~= b);
        assert(escape(a) =~= Seq::<char>::empty());
        assert(escape(a) + escape(b) =~= escape(b));
    } else {
        lemma_escape_concat(a.drop_first(), b);
        assert((a + b).drop_first() =~= a.drop_first() + b);
        assert((a + b)[0] == a[0]);
        let c = a[0];
        let p = if c == '@' || c == '{' || c == '}' {
            seq!['@', c]
        } else {
            seq![c]
        };
        assert(escape(a + b) =~= p + (escape(a.drop_first()) + escape(b)));
        assert(escape(a) =~= p + escape(a.drop_first()));
    }
}

proof fn lemma_escape_from(s: Seq<char>, i: int)
    requires
        0 <= i <= s.len(),
    ensures
        expand_from(escape(s), escape(s.take(i)).len() as int) == s.skip(i),
    decreases s.len() - i,
{
    let e = escape(s);
    let p = escape(s.take(i)).len() as int;
    lemma_escape_concat(s.take(i), s.skip(i));
    assert(s.take(i) + s.skip(i) =~= s);
    if i < s.len() {
        let c = s[i];
        let t = s.skip(i);
        assert(t[0] == c);
        assert(e =~= escape(s.take(i)) + escape(t));
        lemma_escape_concat(s.take(i), seq![c]);
        assert(s.take(i + 1) =~= s.take(i) + seq![c]);
        assert(escape(seq![c]) =~= (if c == '@' || c == '{' || c == '}' {
            seq!['@', c]
        } else {
            seq![c]
        }) + escape(seq![c].drop_first()));
        assert(seq![c].drop_first() =~= Seq::<char>::empty());
        lemma_escape_from(s, i + 1);
        assert(escape(t) == (if c == '@' || c == '{' || c == '}' {
            seq!['@', c]
        } else {
            seq![c]
        }) + escape(t.drop_first()));
        assert(t.drop_first() =~= s.skip(i + 1));
        assert(s.skip(i) =~= seq![c] + s.skip(i + 1));
        if c == '@' || c == '{' || c == '}' {
            assert(e[p] == '@');
            assert(e[p + 1] == c);
        } else {
            assert(e[p] == c);
        }
    } else {
        assert(s.take(i) =~= s);
        assert(s.skip(i) =~= Seq::<char>::empty());
    }
}

/// Putting `@` before each `@`, `{` and `}` makes any text come out of
/// inline expansion as it was.
pub proof fn law_escaped_text_is_literal(s: Seq<char>)
    ensures
        expand(escape(s)) == s,
{
    lemma_escape_from(s, 0);
    assert(s.take(0) =~= Seq::<char>::empty());
    assert(escape(s.take(0)).len() == 0);
    assert(s.skip(0) =~= s);
}

fn group_close_exec(s: &[char], j: usize) -> (r: usize)
    requires
        1 <= j <= s@.len(),
    ensures
        r == group_close(s@, j as int, 1),
{
    let mut i = j;
    let mut depth: usize = 1;
    while i < s.len()
        invariant
            1 <= j <= i <= s@.len(),
            1 <= depth <= i - j + 1,
            group_close(s@, j as int, 1) == group_close(s@, i as int, depth as int),
        decreases s@.len() - i,
    {
        if s[i] == '{' {
            depth = depth + 1;
        } else if s[i] == '}' {
            if depth <= 1 {
                return i;
            }
            depth = depth - 1;
        }
        i = i + 1;
    }
    i
}

fn quoting_exec(n: &[char]) -> (r: bool)
    ensures
        r == is_quoting(n@),
{
    eq_str(n, "code") || eq_str(n, "samp") || eq_str(n, "kbd") || eq_str(n, "env") || eq_str(
        n,
        "command",
    ) || eq_str(n, "option") || eq_str(n, "file") || eq_str(n, "dfn") || eq_str(n, "cite")
        || eq_str(n, "abbr") || eq_str(n, "acronym")
}

fn layout_only_exec(n: &[char]) -> (r: bool)
    ensures
        r == is_layout_only(n@),
{
    eq_str(n, "noindent") || eq_str(n, "indent") || eq_str(n, "sp") || eq_str(n, "page")
        || eq_str(n, "need") || eq_str(n, "vskip") || eq_str(n, "group") || eq_str(n, "finalout")
        || eq_str(n, "exdent")
}

/// Appends `braced(n, ex)` to `out`.
fn push_braced(out: &mut Vec<char>, n: &[char], ex: &[char])
    ensures
        final(out)@ == old(out)@ + braced(n@, ex@),
{
    if quoting_exec(n) {
        out.push('`');
        push_all(out, ex);
        out.push('\'');
    } else if eq_str(n, "sc") {
        let up = to_uppercase(ex);
        push_all(out, up.as_slice());
    } else if eq_str(n, "key") || eq_str(n, "email") {
        out.push('<');
        push_all(out, ex);
        out.push('>');
    } else if eq_str(n, "xref") || eq_str(n, "pxref") || eq_str(n, "ref") || eq_str(n, "inforef") {
        let parts = split_n_exec(ex, ',', 2);
        proof {
            reveal_with_fuel(split_n, 2);
        }
        assert(split_n(ex@, ',', 2).len() >= 1);
        assert(views(parts@).len() == parts@.len());
        assert(views(parts@)[0] == parts@[0]@);
        let node = trim_exec(parts[0].as_slice());
        push_str(out, "*Note ");
        push_all(out, node.as_slice());
        push_str(out, "::");
    } else if eq_str(n, "dots") || eq_str(n, "enddots") {
        push_str(out, "...");
    } else if eq_str(n, "bullet") {
        push_str(out, "*");
    } else if eq_str(n, "copyright") {
        push_str(out, "(C)");
    } else if eq_str(n, "registeredsymbol") {
        push_str(out, "(R)");
    } else if eq_str(n, "result") {
        push_str(out, "=>");
    } else if eq_str(n, "expansion") {
        push_str(out, "==>");
    } else if eq_str(n, "print") {
        push_str(out, "-|");
    } else if eq_str(n, "error") {
        push_str(out, "error-->");
    } else if eq_str(n, "point") {
        push_str(out, "-!-");
    } else if eq_str(n, "equiv") {
        push_str(out, "==");
    } else if eq_str(n, "tie") {
        push_str(out, " ");
    } else {
        push_all(out, ex);
    }
    assert(out@ =~= old(out)@ + braced(n@, ex@));
}

/// Appends `bare(n)` to `out`.
fn push_bare(out: &mut Vec<char>, n: &[char])
    ensures
        final(out)@ == old(out)@ + bare(n@),
{
    if eq_str(n, "dots") || eq_str(n, "enddots") {
        push_str(out, "...");
    } else if eq_str(n, "bullet") {
        push_str(out, "*");
    } else if eq_str(n, "copyright") {
        push_str(out, "(C)");
    } else if eq_str(n, "minus") {
        push_str(out, "-");
    } else if eq_str(n, "comma") {
        push_str(out, ",");
    } else if eq_str(n, "tab") {
        push_str(out, "\t");
    } else if layout_only_exec(n) {
    } else {
        out.push('@');
        push_all(out, n);
    }
    assert(out@ =~= old(out)@ + bare(n@));
}

/// Expands the inline markup of one piece of text: `@code{x}` becomes
/// `` `x' ``, `@dots{}` becomes `...`, `@@` becomes `@`, `@c` drops the
/// rest of the text, and so on (see `expand_from`).
pub fn expand_inline(text: &[char]) -> (r: Vec<char>)
    ensures
        r@ == expand(text@),
    decreases text@.len(),
{
    let s = text;
    let mut result: Vec<char> = Vec::new();
    let mut i: usize = 0;
    while i < s.len()
        invariant
            i <= s@.len(),
            s@ == text@,
            expand(s@) == result@ + expand_from(s@, i as int),
        ensures
            expand(s@) == result@,
        decreases s@.len() - i,
    {
        if s[i] != '@' {
            result.push(s[i]);
            i = i + 1;
        } else if i + 1 >= s.len() {
            break ;
        } else {
            let c = s[i + 1];
            if c == '{' || c == '}' || c == '@' || c == '\n' {
                result.push(c);
                i = i + 2;
            } else if c == '.' || c == ':' || c == '!' || c == '?' || c == '*' || c == '/' || c
                == '-' {
                i = i + 2;
            } else {
                let q = i + 1;
                let e = span_from(s, q, CharClass::InlineCommand);
                let name = copy_range(s, q, e);
                if e < s.len() && s[e] == '{' {
                    let close = group_close_exec(s, e + 1);
                    proof {
                        lemma_group_close_bounds(s@, e + 1, 1);
                    }
                    let content = copy_range(s, e + 1, close);
                    let cs = content.as_slice();
                    assert(cs@.len() < text@.len());
                    let ex = expand_inline(cs);
                    push_braced(&mut result, name.as_slice(), ex.as_slice());
                    i = if close < s.len() {
                        close + 1
                    } else {
                        s.len()
                    };
                } else if eq_str(name.as_slice(), "c") || eq_str(name.as_slice(), "comment") {
                    assert(expand(s@) =~= result@);
                    return result;
                } else {
                    push_bare(&mut result, name.as_slice());
                    i = e;
                }
            }
        }
    }
    result
}

} // verus!
