//! What each inline command gives for an argument without braces, stated
//! directly over `expand`.

use vstd::prelude::*;

use crate::inline::{bare, braced, expand, expand_from, is_silent_punct, lemma_expand_shift};
use crate::outside::str_to_uppercase;
use crate::text::{in_class, is_ascii_alnum, lemma_span_exact, span, split_n, trim, CharClass};

verus! {

/// `@name{arg}`.
pub open spec fn braced_text(name: Seq<char>, arg: Seq<char>) -> Seq<char> {
    seq!['@'] + name + seq!['{'] + arg + seq!['}']
}

/// A command name: ASCII letters, digits and `-`, starting with a letter
/// or digit.
pub open spec fn is_command_name(n: Seq<char>) -> bool {
    &&& n.len() > 0
    &&& is_ascii_alnum(n[0])
    &&& forall|k: int| 0 <= k < n.len() ==> in_class(#[trigger] n[k], CharClass::InlineCommand)
}

/// Text without braces.
pub open spec fn no_braces(c: Seq<char>) -> bool {
    !c.contains('{') && !c.contains('}')
}

proof fn lemma_close_at_first_brace(s: Seq<char>, j: int, end: int)
    requires
        0 <= j <= end < s.len(),
        s[end] == '}',
        forall|k: int| j <= k < end ==> s[k] != '{' && s[k] != '}',
    ensures
        crate::inline::group_close(s, j, 1) == end,
    decreases end - j,
{
    if j < end {
        lemma_close_at_first_brace(s, j + 1, end);
    }
}

/// `@name{c}`, for an argument without braces, is `braced` of the name and
/// of the expansion of the argument.
pub proof fn lemma_expand_braced(n: Seq<char>, c: Seq<char>)
    requires
        is_command_name(n),
        no_braces(c),
    ensures
        expand(braced_text(n, c)) == braced(n, expand(c)),
{
    let s = braced_text(n, c);
    let m = n.len() as int;
    assert(s[0] == '@');
    assert(s[1] == n[0]);
    assert(!is_silent_punct(n[0]));
    let t = s.skip(1);
    assert forall|k: int| 0 <= k < m implies in_class(#[trigger] t[k], CharClass::InlineCommand) by {
        assert(t[k] == n[k]);
    }
    assert(t[m] == '{');
    lemma_span_exact(t, CharClass::InlineCommand, m);
    assert(s.subrange(1, 1 + m) =~= n);
    assert(s[1 + m] == '{');
    assert forall|k: int| 2 + m <= k < s.len() - 1 implies s[k] != '{' && s[k] != '}' by {
        assert(s[k] == c[k - 2 - m]);
    }
    lemma_close_at_first_brace(s, 2 + m, s.len() - 1);
    assert(s.subrange(2 + m, s.len() - 1) =~= c);
    assert(expand_from(s, s.len() as int) == Seq::<char>::empty());
    assert(expand_from(s, 0) =~= braced(n, expand_from(c, 0)) + Seq::<char>::empty());
}

/// Commands whose text is the expansion of their argument, unchanged:
/// `@var`, `@emph`, `@i`, `@slanted`, `@b`, `@strong`, `@t`, `@r`, `@w`,
/// `@math`, `@dmn`, `@url`, `@uref` and `@value` (any other name not
/// listed below behaves the same).
pub proof fn law_argument_commands(n: Seq<char>, c: Seq<char>)
    requires
        n == "var"@ || n == "emph"@ || n == "i"@ || n == "slanted"@ || n == "b"@ || n == "strong"@
            || n == "t"@ || n == "r"@ || n == "w"@ || n == "math"@ || n == "dmn"@ || n == "url"@
            || n == "uref"@ || n == "value"@,
        no_braces(c),
    ensures
        expand(braced_text(n, c)) == expand(c),
        !c.contains('@') ==> expand(braced_text(n, c)) == c,
{
    reveal_strlit("code");
    reveal_strlit("samp");
    reveal_strlit("kbd");
    reveal_strlit("env");
    reveal_strlit("command");
    reveal_strlit("option");
    reveal_strlit("file");
    reveal_strlit("dfn");
    reveal_strlit("cite");
    reveal_strlit("abbr");
    reveal_strlit("acronym");
    reveal_strlit("sc");
    reveal_strlit("key");
    reveal_strlit("email");
    reveal_strlit("xref");
    reveal_strlit("pxref");
    reveal_strlit("ref");
    reveal_strlit("inforef");
    reveal_strlit("dots");
    reveal_strlit("enddots");
    reveal_strlit("bullet");
    reveal_strlit("copyright");
    reveal_strlit("registeredsymbol");
    reveal_strlit("result");
    reveal_strlit("expansion");
    reveal_strlit("print");
    reveal_strlit("error");
    reveal_strlit("point");
    reveal_strlit("equiv");
    reveal_strlit("tie");
    reveal_strlit("var");
    reveal_strlit("emph");
    reveal_strlit("i");
    reveal_strlit("slanted");
    reveal_strlit("b");
    reveal_strlit("strong");
    reveal_strlit("t");
    reveal_strlit("r");
    reveal_strlit("w");
    reveal_strlit("math");
    reveal_strlit("dmn");
    reveal_strlit("url");
    reveal_strlit("uref");
    reveal_strlit("value");
    assert("var"@[0] != "kbd"@[0]);
    assert("var"@[0] != "env"@[0]);
    assert("var"@[0] != "dfn"@[0]);
    assert("var"@[0] != "key"@[0]);
    assert("var"@[0] != "ref"@[0]);
    assert("var"@[0] != "tie"@[0]);
    assert("var"@[0] != "dmn"@[0]);
    assert("var"@[0] != "url"@[0]);
    assert("emph"@[0] != "code"@[0]);
    assert("emph"@[0] != "samp"@[0]);
    assert("emph"@[0] != "file"@[0]);
    assert("emph"@[0] != "cite"@[0]);
    assert("emph"@[0] != "abbr"@[0]);
    assert("emph"@[0] != "xref"@[0]);
    assert("emph"@[0] != "dots"@[0]);
    assert("emph"@[0] != "math"@[0]);
    assert("emph"@[0] != "uref"@[0]);
    assert("i"@[0] != "b"@[0]);
    assert("i"@[0] != "t"@[0]);
    assert("i"@[0] != "r"@[0]);
    assert("i"@[0] != "w"@[0]);
    assert("slanted"@[0] != "command"@[0]);
    assert("slanted"@[0] != "acronym"@[0]);
    assert("slanted"@[0] != "inforef"@[0]);
    assert("slanted"@[0] != "enddots"@[0]);
    assert("b"@[0] != "i"@[0]);
    assert("b"@[0] != "t"@[0]);
    assert("b"@[0] != "r"@[0]);
    assert("b"@[0] != "w"@[0]);
    assert("strong"@[0] != "option"@[0]);
    assert("strong"@[0] != "bullet"@[0]);
    assert("strong"@[0] != "result"@[0]);
    assert("t"@[0] != "i"@[0]);
    assert("t"@[0] != "b"@[0]);
    assert("t"@[0] != "r"@[0]);
    assert("t"@[0] != "w"@[0]);
    assert("r"@[0] != "i"@[0]);
    assert("r"@[0] != "b"@[0]);
    assert("r"@[0] != "t"@[0]);
    assert("r"@[0] != "w"@[0]);
    assert("w"@[0] != "i"@[0]);
    assert("w"@[0] != "b"@[0]);
    assert("w"@[0] != "t"@[0]);
    assert("w"@[0] != "r"@[0]);
    assert("math"@[0] != "code"@[0]);
    assert("math"@[0] != "samp"@[0]);
    assert("math"@[0] != "file"@[0]);
    assert("math"@[0] != "cite"@[0]);
    assert("math"@[0] != "abbr"@[0]);
    assert("math"@[0] != "xref"@[0]);
    assert("math"@[0] != "dots"@[0]);
    assert("math"@[0] != "emph"@[0]);
    assert("math"@[0] != "uref"@[0]);
    assert("dmn"@[0] != "kbd"@[0]);
    assert("dmn"@[0] != "env"@[0]);
    assert("dmn"@[1] != "dfn"@[1]);
    assert("dmn"@[0] != "key"@[0]);
    assert("dmn"@[0] != "ref"@[0]);
    assert("dmn"@[0] != "tie"@[0]);
    assert("dmn"@[0] != "var"@[0]);
    assert("dmn"@[0] != "url"@[0]);
    assert("url"@[0] != "kbd"@[0]);
    assert("url"@[0] != "env"@[0]);
    assert("url"@[0] != "dfn"@[0]);
    assert("url"@[0] != "key"@[0]);
    assert("url"@[0] != "ref"@[0]);
    assert("url"@[0] != "tie"@[0]);
    assert("url"@[0] != "var"@[0]);
    assert("url"@[0] != "dmn"@[0]);
    assert("uref"@[0] != "code"@[0]);
    assert("uref"@[0] != "samp"@[0]);
    assert("uref"@[0] != "file"@[0]);
    assert("uref"@[0] != "cite"@[0]);
    assert("uref"@[0] != "abbr"@[0]);
    assert("uref"@[0] != "xref"@[0]);
    assert("uref"@[0] != "dots"@[0]);
    assert("uref"@[0] != "emph"@[0]);
    assert("uref"@[0] != "math"@[0]);
    assert("value"@[0] != "email"@[0]);
    assert("value"@[0] != "pxref"@[0]);
    assert("value"@[0] != "print"@[0]);
    assert("value"@[0] != "error"@[0]);
    assert("value"@[0] != "point"@[0]);
    assert("value"@[0] != "equiv"@[0]);
    lemma_expand_braced(n, c);
    if !c.contains('@') {
        crate::inline::law_plain_text_unchanged(c);
    }
}

/// Commands whose argument is quoted: `@code{x}` is `` `x' ``, and so are
/// `@samp`, `@kbd`, `@env`, `@command`, `@option`, `@file`, `@dfn`,
/// `@cite`, `@abbr` and `@acronym`.
pub proof fn law_quoting_commands(n: Seq<char>, c: Seq<char>)
    requires
        n == "code"@ || n == "samp"@ || n == "kbd"@ || n == "env"@ || n == "command"@ || n
            == "option"@ || n == "file"@ || n == "dfn"@ || n == "cite"@ || n == "abbr"@ || n
            == "acronym"@,
        no_braces(c),
    ensures
        expand(braced_text(n, c)) == seq!['`'] + expand(c) + seq!['\''],
{
    reveal_strlit("code");
    reveal_strlit("samp");
    reveal_strlit("kbd");
    reveal_strlit("env");
    reveal_strlit("command");
    reveal_strlit("option");
    reveal_strlit("file");
    reveal_strlit("dfn");
    reveal_strlit("cite");
    reveal_strlit("abbr");
    reveal_strlit("acronym");
    reveal_strlit("sc");
    reveal_strlit("key");
    reveal_strlit("email");
    reveal_strlit("xref");
    reveal_strlit("pxref");
    reveal_strlit("ref");
    reveal_strlit("inforef");
    reveal_strlit("dots");
    reveal_strlit("enddots");
    reveal_strlit("bullet");
    reveal_strlit("copyright");
    reveal_strlit("registeredsymbol");
    reveal_strlit("result");
    reveal_strlit("expansion");
    reveal_strlit("print");
    reveal_strlit("error");
    reveal_strlit("point");
    reveal_strlit("equiv");
    reveal_strlit("tie");
    reveal_strlit("var");
    reveal_strlit("emph");
    reveal_strlit("i");
    reveal_strlit("slanted");
    reveal_strlit("b");
    reveal_strlit("strong");
    reveal_strlit("t");
    reveal_strlit("r");
    reveal_strlit("w");
    reveal_strlit("math");
    reveal_strlit("dmn");
    reveal_strlit("url");
    reveal_strlit("uref");
    reveal_strlit("value");
    assert("code"@[0] != "samp"@[0]);
    assert("code"@[0] != "file"@[0]);
    assert("code"@[1] != "cite"@[1]);
    assert("code"@[0] != "abbr"@[0]);
    assert("code"@[0] != "xref"@[0]);
    assert("code"@[0] != "dots"@[0]);
    assert("code"@[0] != "emph"@[0]);
    assert("code"@[0] != "math"@[0]);
    assert("code"@[0] != "uref"@[0]);
    assert("samp"@[0] != "code"@[0]);
    assert("samp"@[0] != "file"@[0]);
    assert("samp"@[0] != "cite"@[0]);
    assert("samp"@[0] != "abbr"@[0]);
    assert("samp"@[0] != "xref"@[0]);
    assert("samp"@[0] != "dots"@[0]);
    assert("samp"@[0] != "emph"@[0]);
    assert("samp"@[0] != "math"@[0]);
    assert("samp"@[0] != "uref"@[0]);
    assert("kbd"@[0] != "env"@[0]);
    assert("kbd"@[0] != "dfn"@[0]);
    assert("kbd"@[1] != "key"@[1]);
    assert("kbd"@[0] != "ref"@[0]);
    assert("kbd"@[0] != "tie"@[0]);
    assert("kbd"@[0] != "var"@[0]);
    assert("kbd"@[0] != "dmn"@[0]);
    assert("kbd"@[0] != "url"@[0]);
    assert("env"@[0] != "kbd"@[0]);
    assert("env"@[0] != "dfn"@[0]);
    assert("env"@[0] != "key"@[0]);
    assert("env"@[0] != "ref"@[0]);
    assert("env"@[0] != "tie"@[0]);
    assert("env"@[0] != "var"@[0]);
    assert("env"@[0] != "dmn"@[0]);
    assert("env"@[0] != "url"@[0]);
    assert("command"@[0] != "acronym"@[0]);
    assert("command"@[0] != "inforef"@[0]);
    assert("command"@[0] != "enddots"@[0]);
    assert("command"@[0] != "slanted"@[0]);
    assert("option"@[0] != "bullet"@[0]);
    assert("option"@[0] != "result"@[0]);
    assert("option"@[0] != "strong"@[0]);
    assert("file"@[0] != "code"@[0]);
    assert("file"@[0] != "samp"@[0]);
    assert("file"@[0] != "cite"@[0]);
    assert("file"@[0] != "abbr"@[0]);
    assert("file"@[0] != "xref"@[0]);
    assert("file"@[0] != "dots"@[0]);
    assert("file"@[0] != "emph"@[0]);
    assert("file"@[0] != "math"@[0]);
    assert("file"@[0] != "uref"@[0]);
    assert("dfn"@[0] != "kbd"@[0]);
    assert("dfn"@[0] != "env"@[0]);
    assert("dfn"@[0] != "key"@[0]);
    assert("dfn"@[0] != "ref"@[0]);
    assert("dfn"@[0] != "tie"@[0]);
    assert("dfn"@[0] != "var"@[0]);
    assert("dfn"@[1] != "dmn"@[1]);
    assert("dfn"@[0] != "url"@[0]);
    assert("cite"@[1] != "code"@[1]);
    assert("cite"@[0] != "samp"@[0]);
    assert("cite"@[0] != "file"@[0]);
    assert("cite"@[0] != "abbr"@[0]);
    assert("cite"@[0] != "xref"@[0]);
    assert("cite"@[0] != "dots"@[0]);
    assert("cite"@[0] != "emph"@[0]);
    assert("cite"@[0] != "math"@[0]);
    assert("cite"@[0] != "uref"@[0]);
    assert("abbr"@[0] != "code"@[0]);
    assert("abbr"@[0] != "samp"@[0]);
    assert("abbr"@[0] != "file"@[0]);
    assert("abbr"@[0] != "cite"@[0]);
    assert("abbr"@[0] != "xref"@[0]);
    assert("abbr"@[0] != "dots"@[0]);
    assert("abbr"@[0] != "emph"@[0]);
    assert("abbr"@[0] != "math"@[0]);
    assert("abbr"@[0] != "uref"@[0]);
    assert("acronym"@[0] != "command"@[0]);
    assert("acronym"@[0] != "inforef"@[0]);
    assert("acronym"@[0] != "enddots"@[0]);
    assert("acronym"@[0] != "slanted"@[0]);
    lemma_expand_braced(n, c);
}

/// `@key{x}` and `@email{x}` are `<x>`.
pub proof fn law_angled_commands(n: Seq<char>, c: Seq<char>)
    requires
        n == "key"@ || n == "email"@,
        no_braces(c),
    ensures
        expand(braced_text(n, c)) == seq!['<'] + expand(c) + seq!['>'],
{
    reveal_strlit("code");
    reveal_strlit("samp");
    reveal_strlit("kbd");
    reveal_strlit("env");
    reveal_strlit("command");
    reveal_strlit("option");
    reveal_strlit("file");
    reveal_strlit("dfn");
    reveal_strlit("cite");
    reveal_strlit("abbr");
    reveal_strlit("acronym");
    reveal_strlit("sc");
    reveal_strlit("key");
    reveal_strlit("email");
    reveal_strlit("xref");
    reveal_strlit("pxref");
    reveal_strlit("ref");
    reveal_strlit("inforef");
    reveal_strlit("dots");
    reveal_strlit("enddots");
    reveal_strlit("bullet");
    reveal_strlit("copyright");
    reveal_strlit("registeredsymbol");
    reveal_strlit("result");
    reveal_strlit("expansion");
    reveal_strlit("print");
    reveal_strlit("error");
    reveal_strlit("point");
    reveal_strlit("equiv");
    reveal_strlit("tie");
    reveal_strlit("var");
    reveal_strlit("emph");
    reveal_strlit("i");
    reveal_strlit("slanted");
    reveal_strlit("b");
    reveal_strlit("strong");
    reveal_strlit("t");
    reveal_strlit("r");
    reveal_strlit("w");
    reveal_strlit("math");
    reveal_strlit("dmn");
    reveal_strlit("url");
    reveal_strlit("uref");
    reveal_strlit("value");
    assert("key"@[1] != "kbd"@[1]);
    assert("key"@[0] != "env"@[0]);
    assert("key"@[0] != "dfn"@[0]);
    assert("key"@[0] != "ref"@[0]);
    assert("key"@[0] != "tie"@[0]);
    assert("key"@[0] != "var"@[0]);
    assert("key"@[0] != "dmn"@[0]);
    assert("key"@[0] != "url"@[0]);
    assert("email"@[0] != "pxref"@[0]);
    assert("email"@[0] != "print"@[0]);
    assert("email"@[1] != "error"@[1]);
    assert("email"@[0] != "point"@[0]);
    assert("email"@[1] != "equiv"@[1]);
    assert("email"@[0] != "value"@[0]);
    lemma_expand_braced(n, c);
}

/// `@sc{x}` is `x` in upper case.
pub proof fn law_small_caps(c: Seq<char>)
    requires
        no_braces(c),
    ensures
        expand(braced_text("sc"@, c)) == str_to_uppercase(expand(c)),
{
    reveal_strlit("code");
    reveal_strlit("samp");
    reveal_strlit("kbd");
    reveal_strlit("env");
    reveal_strlit("command");
    reveal_strlit("option");
    reveal_strlit("file");
    reveal_strlit("dfn");
    reveal_strlit("cite");
    reveal_strlit("abbr");
    reveal_strlit("acronym");
    reveal_strlit("sc");
    reveal_strlit("key");
    reveal_strlit("email");
    reveal_strlit("xref");
    reveal_strlit("pxref");
    reveal_strlit("ref");
    reveal_strlit("inforef");
    reveal_strlit("dots");
    reveal_strlit("enddots");
    reveal_strlit("bullet");
    reveal_strlit("copyright");
    reveal_strlit("registeredsymbol");
    reveal_strlit("result");
    reveal_strlit("expansion");
    reveal_strlit("print");
    reveal_strlit("error");
    reveal_strlit("point");
    reveal_strlit("equiv");
    reveal_strlit("tie");
    reveal_strlit("var");
    reveal_strlit("emph");
    reveal_strlit("i");
    reveal_strlit("slanted");
    reveal_strlit("b");
    reveal_strlit("strong");
    reveal_strlit("t");
    reveal_strlit("r");
    reveal_strlit("w");
    reveal_strlit("math");
    reveal_strlit("dmn");
    reveal_strlit("url");
    reveal_strlit("uref");
    reveal_strlit("value");

    lemma_expand_braced("sc"@, c);
}

/// `@xref{node, ..}` (and `@pxref`, `@ref`, `@inforef`) is `*Note node::`,
/// the node being the text before the first comma, trimmed.
pub proof fn law_cross_references(n: Seq<char>, c: Seq<char>)
    requires
        n == "xref"@ || n == "pxref"@ || n == "ref"@ || n == "inforef"@,
        no_braces(c),
    ensures
        ({
            let e = expand(c);
            expand(braced_text(n, c)) == "*Note "@ + trim(e.take(span(e, CharClass::Not(',')) as int))
                + "::"@
        }),
{
    reveal_strlit("code");
    reveal_strlit("samp");
    reveal_strlit("kbd");
    reveal_strlit("env");
    reveal_strlit("command");
    reveal_strlit("option");
    reveal_strlit("file");
    reveal_strlit("dfn");
    reveal_strlit("cite");
    reveal_strlit("abbr");
    reveal_strlit("acronym");
    reveal_strlit("sc");
    reveal_strlit("key");
    reveal_strlit("email");
    reveal_strlit("xref");
    reveal_strlit("pxref");
    reveal_strlit("ref");
    reveal_strlit("inforef");
    reveal_strlit("dots");
    reveal_strlit("enddots");
    reveal_strlit("bullet");
    reveal_strlit("copyright");
    reveal_strlit("registeredsymbol");
    reveal_strlit("result");
    reveal_strlit("expansion");
    reveal_strlit("print");
    reveal_strlit("error");
    reveal_strlit("point");
    reveal_strlit("equiv");
    reveal_strlit("tie");
    reveal_strlit("var");
    reveal_strlit("emph");
    reveal_strlit("i");
    reveal_strlit("slanted");
    reveal_strlit("b");
    reveal_strlit("strong");
    reveal_strlit("t");
    reveal_strlit("r");
    reveal_strlit("w");
    reveal_strlit("math");
    reveal_strlit("dmn");
    reveal_strlit("url");
    reveal_strlit("uref");
    reveal_strlit("value");
    assert("xref"@[0] != "code"@[0]);
    assert("xref"@[0] != "samp"@[0]);
    assert("xref"@[0] != "file"@[0]);
    assert("xref"@[0] != "cite"@[0]);
    assert("xref"@[0] != "abbr"@[0]);
    assert("xref"@[0] != "dots"@[0]);
    assert("xref"@[0] != "emph"@[0]);
    assert("xref"@[0] != "math"@[0]);
    assert("xref"@[0] != "uref"@[0]);
    assert("pxref"@[0] != "email"@[0]);
    assert("pxref"@[1] != "print"@[1]);
    assert("pxref"@[0] != "error"@[0]);
    assert("pxref"@[1] != "point"@[1]);
    assert("pxref"@[0] != "equiv"@[0]);
    assert("pxref"@[0] != "value"@[0]);
    assert("ref"@[0] != "kbd"@[0]);
    assert("ref"@[0] != "env"@[0]);
    assert("ref"@[0] != "dfn"@[0]);
    assert("ref"@[0] != "key"@[0]);
    assert("ref"@[0] != "tie"@[0]);
    assert("ref"@[0] != "var"@[0]);
    assert("ref"@[0] != "dmn"@[0]);
    assert("ref"@[0] != "url"@[0]);
    assert("inforef"@[0] != "command"@[0]);
    assert("inforef"@[0] != "acronym"@[0]);
    assert("inforef"@[0] != "enddots"@[0]);
    assert("inforef"@[0] != "slanted"@[0]);
    lemma_expand_braced(n, c);
    let e = expand(c);
    reveal_with_fuel(split_n, 2);
    crate::text::lemma_span_bounds(e, CharClass::Not(','));
    let k = span(e, CharClass::Not(','));
    if k >= e.len() {
        assert(e.take(k as int) =~= e);
    }
    assert(split_n(e, ',', 2)[0] == e.take(k as int));
}

/// Symbol commands: `@dots{}` and `@enddots{}` are `...`, `@bullet{}` is
/// `*`, `@copyright{}` is `(C)`, `@registeredsymbol{}` is `(R)`,
/// `@result{}` is `=>`, `@expansion{}` is `==>`, `@print{}` is `-|`,
/// `@error{}` is `error-->`, `@point{}` is `-!-`, `@equiv{}` is `==` and
/// `@tie{}` is a space; whatever stands in the braces is dropped.
pub proof fn law_symbol_commands(c: Seq<char>)
    requires
        no_braces(c),
    ensures
        expand(braced_text("dots"@, c)) == "..."@,
        expand(braced_text("enddots"@, c)) == "..."@,
        expand(braced_text("bullet"@, c)) == "*"@,
        expand(braced_text("copyright"@, c)) == "(C)"@,
        expand(braced_text("registeredsymbol"@, c)) == "(R)"@,
        expand(braced_text("result"@, c)) == "=>"@,
        expand(braced_text("expansion"@, c)) == "==>"@,
        expand(braced_text("print"@, c)) == "-|"@,
        expand(braced_text("error"@, c)) == "error-->"@,
        expand(braced_text("point"@, c)) == "-!-"@,
        expand(braced_text("equiv"@, c)) == "=="@,
        expand(braced_text("tie"@, c)) == " "@,
{
    reveal_strlit("code");
    reveal_strlit("samp");
    reveal_strlit("kbd");
    reveal_strlit("env");
    reveal_strlit("command");
    reveal_strlit("option");
    reveal_strlit("file");
    reveal_strlit("dfn");
    reveal_strlit("cite");
    reveal_strlit("abbr");
    reveal_strlit("acronym");
    reveal_strlit("sc");
    reveal_strlit("key");
    reveal_strlit("email");
    reveal_strlit("xref");
    reveal_strlit("pxref");
    reveal_strlit("ref");
    reveal_strlit("inforef");
    reveal_strlit("dots");
    reveal_strlit("enddots");
    reveal_strlit("bullet");
    reveal_strlit("copyright");
    reveal_strlit("registeredsymbol");
    reveal_strlit("result");
    reveal_strlit("expansion");
    reveal_strlit("print");
    reveal_strlit("error");
    reveal_strlit("point");
    reveal_strlit("equiv");
    reveal_strlit("tie");
    reveal_strlit("var");
    reveal_strlit("emph");
    reveal_strlit("i");
    reveal_strlit("slanted");
    reveal_strlit("b");
    reveal_strlit("strong");
    reveal_strlit("t");
    reveal_strlit("r");
    reveal_strlit("w");
    reveal_strlit("math");
    reveal_strlit("dmn");
    reveal_strlit("url");
    reveal_strlit("uref");
    reveal_strlit("value");
    assert("dots"@[0] != "code"@[0]);
    assert("dots"@[0] != "samp"@[0]);
    assert("dots"@[0] != "file"@[0]);
    assert("dots"@[0] != "cite"@[0]);
    assert("dots"@[0] != "abbr"@[0]);
    assert("dots"@[0] != "xref"@[0]);
    assert("dots"@[0] != "emph"@[0]);
    assert("dots"@[0] != "math"@[0]);
    assert("dots"@[0] != "uref"@[0]);
    assert("enddots"@[0] != "command"@[0]);
    assert("enddots"@[0] != "acronym"@[0]);
    assert("enddots"@[0] != "inforef"@[0]);
    assert("enddots"@[0] != "slanted"@[0]);
    assert("bullet"@[0] != "option"@[0]);
    assert("bullet"@[0] != "result"@[0]);
    assert("bullet"@[0] != "strong"@[0]);
    assert("copyright"@[0] != "expansion"@[0]);
    assert("result"@[0] != "option"@[0]);
    assert("result"@[0] != "bullet"@[0]);
    assert("result"@[0] != "strong"@[0]);
    assert("expansion"@[0] != "copyright"@[0]);
    assert("print"@[0] != "email"@[0]);
    assert("print"@[1] != "pxref"@[1]);
    assert("print"@[0] != "error"@[0]);
    assert("print"@[1] != "point"@[1]);
    assert("print"@[0] != "equiv"@[0]);
    assert("print"@[0] != "value"@[0]);
    assert("error"@[1] != "email"@[1]);
    assert("error"@[0] != "pxref"@[0]);
    assert("error"@[0] != "print"@[0]);
    assert("error"@[0] != "point"@[0]);
    assert("error"@[1] != "equiv"@[1]);
    assert("error"@[0] != "value"@[0]);
    assert("point"@[0] != "email"@[0]);
    assert("point"@[1] != "pxref"@[1]);
    assert("point"@[1] != "print"@[1]);
    assert("point"@[0] != "error"@[0]);
    assert("point"@[0] != "equiv"@[0]);
    assert("point"@[0] != "value"@[0]);
    assert("equiv"@[1] != "email"@[1]);
    assert("equiv"@[0] != "pxref"@[0]);
    assert("equiv"@[0] != "print"@[0]);
    assert("equiv"@[1] != "error"@[1]);
    assert("equiv"@[0] != "point"@[0]);
    assert("equiv"@[0] != "value"@[0]);
    assert("tie"@[0] != "kbd"@[0]);
    assert("tie"@[0] != "env"@[0]);
    assert("tie"@[0] != "dfn"@[0]);
    assert("tie"@[0] != "key"@[0]);
    assert("tie"@[0] != "ref"@[0]);
    assert("tie"@[0] != "var"@[0]);
    assert("tie"@[0] != "dmn"@[0]);
    assert("tie"@[0] != "url"@[0]);
    lemma_expand_braced("dots"@, c);
    lemma_expand_braced("enddots"@, c);
    lemma_expand_braced("bullet"@, c);
    lemma_expand_braced("copyright"@, c);
    lemma_expand_braced("registeredsymbol"@, c);
    lemma_expand_braced("result"@, c);
    lemma_expand_braced("expansion"@, c);
    lemma_expand_braced("print"@, c);
    lemma_expand_braced("error"@, c);
    lemma_expand_braced("point"@, c);
    lemma_expand_braced("equiv"@, c);
    lemma_expand_braced("tie"@, c);
}

/// `b` cannot continue a command name or open a braced argument.
pub open spec fn ends_name(b: Seq<char>) -> bool {
    b.len() == 0 || (!in_class(b[0], CharClass::InlineCommand) && b[0] != '{')
}

/// `@name` without braces, followed by `b`.
pub proof fn lemma_expand_bare(n: Seq<char>, b: Seq<char>)
    requires
        is_command_name(n),
        ends_name(b),
    ensures
        expand(seq!['@'] + n + b) == if n == "c"@ || n == "comment"@ {
            Seq::<char>::empty()
        } else {
            bare(n) + expand(b)
        },
{
    let p = seq!['@'] + n;
    let s = p + b;
    let m = n.len() as int;
    assert(s =~= seq!['@'] + n + b);
    assert(s[0] == '@');
    assert(s[1] == n[0]);
    let t = s.skip(1);
    assert forall|k: int| 0 <= k < m implies in_class(#[trigger] t[k], CharClass::InlineCommand) by {
        assert(t[k] == n[k]);
    }
    if b.len() > 0 {
        assert(t[m] == b[0]);
    }
    lemma_span_exact(t, CharClass::InlineCommand, m);
    assert(s.subrange(1, 1 + m) =~= n);
    if b.len() > 0 {
        assert(s[1 + m] == b[0]);
    }
    lemma_expand_shift(p, b, 0);
}

/// Commands written without braces: `@dots` and `@enddots` are `...`,
/// `@bullet` is `*`, `@copyright` is `(C)`, `@minus` is `-`, `@comma` is
/// `,`, `@tab` is a tab; layout commands (`@noindent`, `@indent`, `@sp`,
/// `@page`, `@need`, `@vskip`, `@group`, `@finalout`, `@exdent`) give
/// nothing; `@c` and `@comment` drop the rest of the text. In each case the
/// text after the name is expanded on its own.
pub proof fn law_bare_commands(n: Seq<char>, b: Seq<char>)
    requires
        ends_name(b),
        n == "dots"@ || n == "enddots"@ || n == "bullet"@ || n == "copyright"@ || n == "minus"@
            || n == "comma"@ || n == "tab"@ || n == "noindent"@ || n == "indent"@ || n == "sp"@
            || n == "page"@ || n == "need"@ || n == "vskip"@ || n == "group"@ || n == "finalout"@
            || n == "exdent"@ || n == "c"@ || n == "comment"@,
    ensures
        (n == "dots"@ || n == "enddots"@) ==> expand(seq!['@'] + n + b) == "..."@ + expand(b),
        n == "bullet"@ ==> expand(seq!['@'] + n + b) == "*"@ + expand(b),
        n == "copyright"@ ==> expand(seq!['@'] + n + b) == "(C)"@ + expand(b),
        n == "minus"@ ==> expand(seq!['@'] + n + b) == "-"@ + expand(b),
        n == "comma"@ ==> expand(seq!['@'] + n + b) == ","@ + expand(b),
        n == "tab"@ ==> expand(seq!['@'] + n + b) == "\t"@ + expand(b),
        (n == "noindent"@ || n == "indent"@ || n == "sp"@ || n == "page"@ || n == "need"@ || n
            == "vskip"@ || n == "group"@ || n == "finalout"@ || n == "exdent"@) ==> expand(
            seq!['@'] + n + b,
        ) == expand(b),
        (n == "c"@ || n == "comment"@) ==> expand(seq!['@'] + n + b) == Seq::<char>::empty(),
{
    reveal_strlit("abbr");
    reveal_strlit("acronym");
    reveal_strlit("b");
    reveal_strlit("bullet");
    reveal_strlit("c");
    reveal_strlit("cite");
    reveal_strlit("code");
    reveal_strlit("comma");
    reveal_strlit("command");
    reveal_strlit("comment");
    reveal_strlit("copyright");
    reveal_strlit("dfn");
    reveal_strlit("dmn");
    reveal_strlit("dots");
    reveal_strlit("email");
    reveal_strlit("emph");
    reveal_strlit("enddots");
    reveal_strlit("env");
    reveal_strlit("equiv");
    reveal_strlit("error");
    reveal_strlit("exdent");
    reveal_strlit("expansion");
    reveal_strlit("file");
    reveal_strlit("finalout");
    reveal_strlit("group");
    reveal_strlit("i");
    reveal_strlit("indent");
    reveal_strlit("inforef");
    reveal_strlit("kbd");
    reveal_strlit("key");
    reveal_strlit("math");
    reveal_strlit("minus");
    reveal_strlit("need");
    reveal_strlit("noindent");
    reveal_strlit("option");
    reveal_strlit("page");
    reveal_strlit("point");
    reveal_strlit("print");
    reveal_strlit("pxref");
    reveal_strlit("r");
    reveal_strlit("ref");
    reveal_strlit("registeredsymbol");
    reveal_strlit("result");
    reveal_strlit("samp");
    reveal_strlit("sc");
    reveal_strlit("slanted");
    reveal_strlit("sp");
    reveal_strlit("strong");
    reveal_strlit("t");
    reveal_strlit("tab");
    reveal_strlit("tie");
    reveal_strlit("uref");
    reveal_strlit("url");
    reveal_strlit("value");
    reveal_strlit("var");
    reveal_strlit("vskip");
    reveal_strlit("w");
    reveal_strlit("xref");
    assert("dots"@[0] != "abbr"@[0]);
    assert("dots"@[0] != "cite"@[0]);
    assert("dots"@[0] != "code"@[0]);
    assert("dots"@[0] != "emph"@[0]);
    assert("dots"@[0] != "file"@[0]);
    assert("dots"@[0] != "math"@[0]);
    assert("dots"@[0] != "need"@[0]);
    assert("dots"@[0] != "page"@[0]);
    assert("dots"@[0] != "samp"@[0]);
    assert("dots"@[0] != "uref"@[0]);
    assert("dots"@[0] != "xref"@[0]);
    assert("enddots"@[0] != "acronym"@[0]);
    assert("enddots"@[0] != "command"@[0]);
    assert("enddots"@[0] != "comment"@[0]);
    assert("enddots"@[0] != "inforef"@[0]);
    assert("enddots"@[0] != "slanted"@[0]);
    assert("bullet"@[0] != "exdent"@[0]);
    assert("bullet"@[0] != "indent"@[0]);
    assert("bullet"@[0] != "option"@[0]);
    assert("bullet"@[0] != "result"@[0]);
    assert("bullet"@[0] != "strong"@[0]);
    assert("copyright"@[0] != "expansion"@[0]);
    assert("minus"@[0] != "comma"@[0]);
    assert("minus"@[0] != "email"@[0]);
    assert("minus"@[0] != "equiv"@[0]);
    assert("minus"@[0] != "error"@[0]);
    assert("minus"@[0] != "group"@[0]);
    assert("minus"@[0] != "point"@[0]);
    assert("minus"@[0] != "print"@[0]);
    assert("minus"@[0] != "pxref"@[0]);
    assert("minus"@[0] != "value"@[0]);
    assert("minus"@[0] != "vskip"@[0]);
    assert("comma"@[0] != "email"@[0]);
    assert("comma"@[0] != "equiv"@[0]);
    assert("comma"@[0] != "error"@[0]);
    assert("comma"@[0] != "group"@[0]);
    assert("comma"@[0] != "minus"@[0]);
    assert("comma"@[0] != "point"@[0]);
    assert("comma"@[0] != "print"@[0]);
    assert("comma"@[0] != "pxref"@[0]);
    assert("comma"@[0] != "value"@[0]);
    assert("comma"@[0] != "vskip"@[0]);
    assert("tab"@[0] != "dfn"@[0]);
    assert("tab"@[0] != "dmn"@[0]);
    assert("tab"@[0] != "env"@[0]);
    assert("tab"@[0] != "kbd"@[0]);
    assert("tab"@[0] != "key"@[0]);
    assert("tab"@[0] != "ref"@[0]);
    assert("tab"@[1] != "tie"@[1]);
    assert("tab"@[0] != "url"@[0]);
    assert("tab"@[0] != "var"@[0]);
    assert("noindent"@[0] != "finalout"@[0]);
    assert("indent"@[0] != "bullet"@[0]);
    assert("indent"@[0] != "exdent"@[0]);
    assert("indent"@[0] != "option"@[0]);
    assert("indent"@[0] != "result"@[0]);
    assert("indent"@[0] != "strong"@[0]);
    assert("sp"@[1] != "sc"@[1]);
    assert("page"@[0] != "abbr"@[0]);
    assert("page"@[0] != "cite"@[0]);
    assert("page"@[0] != "code"@[0]);
    assert("page"@[0] != "dots"@[0]);
    assert("page"@[0] != "emph"@[0]);
    assert("page"@[0] != "file"@[0]);
    assert("page"@[0] != "math"@[0]);
    assert("page"@[0] != "need"@[0]);
    assert("page"@[0] != "samp"@[0]);
    assert("page"@[0] != "uref"@[0]);
    assert("page"@[0] != "xref"@[0]);
    assert("need"@[0] != "abbr"@[0]);
    assert("need"@[0] != "cite"@[0]);
    assert("need"@[0] != "code"@[0]);
    assert("need"@[0] != "dots"@[0]);
    assert("need"@[0] != "emph"@[0]);
    assert("need"@[0] != "file"@[0]);
    assert("need"@[0] != "math"@[0]);
    assert("need"@[0] != "page"@[0]);
    assert("need"@[0] != "samp"@[0]);
    assert("need"@[0] != "uref"@[0]);
    assert("need"@[0] != "xref"@[0]);
    assert("vskip"@[0] != "comma"@[0]);
    assert("vskip"@[0] != "email"@[0]);
    assert("vskip"@[0] != "equiv"@[0]);
    assert("vskip"@[0] != "error"@[0]);
    assert("vskip"@[0] != "group"@[0]);
    assert("vskip"@[0] != "minus"@[0]);
    assert("vskip"@[0] != "point"@[0]);
    assert("vskip"@[0] != "print"@[0]);
    assert("vskip"@[0] != "pxref"@[0]);
    assert("vskip"@[1] != "value"@[1]);
    assert("group"@[0] != "comma"@[0]);
    assert("group"@[0] != "email"@[0]);
    assert("group"@[0] != "equiv"@[0]);
    assert("group"@[0] != "error"@[0]);
    assert("group"@[0] != "minus"@[0]);
    assert("group"@[0] != "point"@[0]);
    assert("group"@[0] != "print"@[0]);
    assert("group"@[0] != "pxref"@[0]);
    assert("group"@[0] != "value"@[0]);
    assert("group"@[0] != "vskip"@[0]);
    assert("finalout"@[0] != "noindent"@[0]);
    assert("exdent"@[0] != "bullet"@[0]);
    assert("exdent"@[0] != "indent"@[0]);
    assert("exdent"@[0] != "option"@[0]);
    assert("exdent"@[0] != "result"@[0]);
    assert("exdent"@[0] != "strong"@[0]);
    assert("c"@[0] != "b"@[0]);
    assert("c"@[0] != "i"@[0]);
    assert("c"@[0] != "r"@[0]);
    assert("c"@[0] != "t"@[0]);
    assert("c"@[0] != "w"@[0]);
    assert("comment"@[0] != "acronym"@[0]);
    assert("comment"@[4] != "command"@[4]);
    assert("comment"@[0] != "enddots"@[0]);
    assert("comment"@[0] != "inforef"@[0]);
    assert("comment"@[0] != "slanted"@[0]);
    lemma_expand_bare(n, b);
    if n == "noindent"@ || n == "indent"@ || n == "sp"@ || n == "page"@ || n == "need"@ || n
        == "vskip"@ || n == "group"@ || n == "finalout"@ || n == "exdent"@ {
        assert(Seq::<char>::empty() + expand(b) =~= expand(b));
    }
}

/// `@@`, `@{`, `@}` and `@` before a newline give the second character;
/// `@.`, `@:`, `@!`, `@?`, `@*`, `@/` and `@-` give nothing; the text after
/// them is expanded on its own.
pub proof fn law_two_character_commands(c: char, b: Seq<char>)
    ensures
        (c == '@' || c == '{' || c == '}' || c == '\n') ==> expand(seq!['@', c] + b) == seq![c]
            + expand(b),
        (c == '.' || c == ':' || c == '!' || c == '?' || c == '*' || c == '/' || c == '-')
            ==> expand(seq!['@', c] + b) == expand(b),
{
    let p = seq!['@', c];
    assert((p + b)[0] == '@');
    assert((p + b)[1] == c);
    lemma_expand_shift(p, b, 0);
}

} // verus!
