use lib::inline::expand_inline;

fn cs(s: &str) -> Vec<char> {
    s.chars().collect()
}

fn expand(s: &str) -> String {
    expand_inline(&cs(s)).into_iter().collect()
}

#[test]
fn plain_text_is_unchanged() {
    assert_eq!(expand("Hello, world {x} 42"), "Hello, world {x} 42");
    assert_eq!(expand(""), "");
}

#[test]
fn escapes_give_literal_characters() {
    assert_eq!(expand("a@@b"), "a@b");
    assert_eq!(expand("@{x@}"), "{x}");
    assert_eq!(expand("line@\nnext"), "line\nnext");
}

#[test]
fn escaped_text_comes_back_unchanged() {
    let plain = "mail@host {braces} @@ end";
    let mut escaped = String::new();
    for c in plain.chars() {
        if c == '@' || c == '{' || c == '}' {
            escaped.push('@');
        }
        escaped.push(c);
    }
    assert_eq!(expand(&escaped), plain);
}

#[test]
fn silent_punctuation_disappears() {
    assert_eq!(expand("end of sentence@. Next@: a@!b@?c@*d@/e@-f"), "end of sentence Next abcdef");
}

#[test]
fn at_sign_at_end_ends_the_text() {
    assert_eq!(expand("abc@"), "abc");
}

#[test]
fn quoting_commands() {
    assert_eq!(expand("@code{x = 1}"), "`x = 1'");
    assert_eq!(expand("@samp{a} @kbd{b} @file{c.txt} @option{-v}"), "`a' `b' `c.txt' `-v'");
    assert_eq!(expand("@env{HOME} @command{ls} @dfn{term} @cite{Book} @abbr{e.g.} @acronym{NASA}"), "`HOME' `ls' `term' `Book' `e.g.' `NASA'");
}

#[test]
fn emphasis_commands_keep_their_text() {
    assert_eq!(expand("@var{n} @emph{e} @i{i} @slanted{s} @b{b} @strong{st}"), "n e i s b st");
    assert_eq!(expand("@t{t} @r{r} @w{w} @math{x+1} @dmn{pt} @url{u} @uref{v} @value{k}"), "t r w x+1 pt u v k");
}

#[test]
fn small_caps_upper_case() {
    assert_eq!(expand("@sc{Texinfo straße}"), "TEXINFO STRASSE");
}

#[test]
fn angled_commands() {
    assert_eq!(expand("@key{RET} @email{a@@b.org}"), "<RET> <a@b.org>");
}

#[test]
fn cross_references() {
    assert_eq!(expand("see @xref{Overview, the overview}."), "see *Note Overview::.");
    assert_eq!(expand("@pxref{  Spaced  }"), "*Note Spaced::");
    assert_eq!(expand("@ref{A,B,C} @inforef{X, y, z}"), "*Note A:: *Note X::");
}

#[test]
fn symbol_commands_with_braces() {
    assert_eq!(expand("@dots{}@enddots{}@bullet{}@copyright{}@registeredsymbol{}"), "......*(C)(R)");
    assert_eq!(expand("@result{}|@expansion{}|@print{}|@error{}|@point{}|@equiv{}|@tie{}"), "=>|==>|-||error-->|-!-|==| ");
}

#[test]
fn unknown_braced_command_keeps_its_argument() {
    assert_eq!(expand("@whatever{inside}"), "inside");
}

#[test]
fn nested_groups() {
    assert_eq!(expand("@code{f{x}} @b{bold @emph{and} more}"), "`f{x}' bold and more");
    assert_eq!(expand("@code{@var{file}.c}"), "`file.c'");
}

#[test]
fn unclosed_group_runs_to_the_end() {
    assert_eq!(expand("@code{abc"), "`abc'");
}

#[test]
fn commands_without_braces() {
    assert_eq!(expand("@dots @enddots @bullet @copyright"), "... ... * (C)");
    assert_eq!(expand("a@minus b@comma c@tab d"), "a- b, c\t d");
    assert_eq!(expand("x@noindent@indent@sp@page@need@vskip@group@finalout@exdent y"), "x y");
}

#[test]
fn unknown_command_without_braces_is_kept() {
    assert_eq!(expand("@foo bar"), "@foo bar");
    assert_eq!(expand("@ x"), "@ x");
    assert_eq!(expand("@#"), "@#");
}

#[test]
fn comments_drop_the_rest() {
    assert_eq!(expand("text @c a comment"), "text ");
    assert_eq!(expand("text @comment another"), "text ");
    assert_eq!(expand("@code{x} @c"), "`x' ");
}

#[test]
fn plain_prefix_then_markup() {
    let a = "plain text, {braces} and all ";
    for b in ["@code{x}", "@@", "@c gone", "@", "tail"] {
        assert_eq!(expand(&format!("{}{}", a, b)), format!("{}{}", a, expand(b)));
    }
}
