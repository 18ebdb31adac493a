//! The mathematical model of a converter and what each command line does
//! to it.

use vstd::prelude::*;

use crate::inline::expand;
use crate::names::{
    is_chapter_like, is_directive, is_example_like, is_ignore_name, is_ignored_env,
    is_index_command, is_info_conditional, is_list_like, is_quotation_like, is_section_like,
    is_skipped_env, is_subsection_like, is_subsubsection_like, is_table_like,
};
use crate::text::{
    byte_len, decimal, eq_ignore_ascii_case, first_word, in_class, is_ws, lemma_span_exact,
    parse_usize, repeat, replace_all, rspan, span, split_n, starts_with, strip, trim, trim_char,
    CharClass,
};

verus! {

/// The output format that was asked for.
#[derive(Clone, Copy, Debug, PartialEq, Eq)]
pub enum OutputFormat {
    Info,
    Plaintext,
    Html,
}

/// A node as the model sees it.
#[verifier::ext_equal]
pub struct NodeModel {
    pub name: Seq<char>,
    pub next: Option<Seq<char>>,
    pub prev: Option<Seq<char>>,
    pub up: Option<Seq<char>>,
    pub content: Seq<char>,
    pub is_top: bool,
}

/// A converter as the model sees it.
#[verifier::ext_equal]
pub struct ConverterModel {
    pub input_dirs: Seq<Seq<char>>,
    pub nodes: Seq<NodeModel>,
    pub current_node: Option<Seq<char>>,
    pub text: Seq<char>,
    pub variables: Map<Seq<char>, Seq<char>>,
    pub title: Seq<char>,
    pub author: Seq<char>,
    pub subtitle: Seq<char>,
    pub in_menu: bool,
    pub in_ignore: nat,
    pub paragraph_indent: Seq<char>,
    pub fill_column: nat,
    pub split_size: nat,
    pub no_split: bool,
    pub no_headers: bool,
    pub output_format: OutputFormat,
}

/// What one command line does: the new state, the index of the next line
/// to read, and the file whose text is to be read in at this point.
pub struct Step {
    pub state: ConverterModel,
    pub next: int,
    pub read_file: Option<Seq<char>>,
}

/// The name of the command that reads in another file.
pub open spec fn file_command() -> Seq<char> {
    seq!['i', 'n', 'c', 'l', 'u', 'd', 'e']
}

// ---------------------------------------------------------------------------
// Pending text
// ---------------------------------------------------------------------------

/// `st` with `t` added to the pending text.
pub open spec fn with_text(st: ConverterModel, t: Seq<char>) -> ConverterModel {
    ConverterModel { text: st.text + t, ..st }
}

/// The index of the first node named `name`, or the number of nodes.
pub open spec fn node_position(nodes: Seq<NodeModel>, name: Seq<char>) -> nat
    decreases nodes.len(),
{
    if nodes.len() == 0 {
        0
    } else if nodes[0].name == name {
        0
    } else {
        1 + node_position(nodes.drop_first(), name)
    }
}

/// `st` after the pending text has been moved to the end of the content of
/// the first node named like the current node; where there is no current
/// node, or no node of that name, the pending text is dropped.
pub open spec fn flushed(st: ConverterModel) -> ConverterModel {
    if st.text.len() == 0 {
        st
    } else {
        let nodes = match st.current_node {
            Some(name) => {
                let j = node_position(st.nodes, name) as int;
                if j < st.nodes.len() {
                    st.nodes.update(
                        j,
                        NodeModel { content: st.nodes[j].content + st.text, ..st.nodes[j] },
                    )
                } else {
                    st.nodes
                }
            },
            None => st.nodes,
        };
        ConverterModel { nodes: nodes, text: Seq::empty(), ..st }
    }
}

// ---------------------------------------------------------------------------
// Command lines
// ---------------------------------------------------------------------------

/// The command name of a line that starts with `@`: the ASCII letters,
/// digits, `-` and `_` right after the `@`.
pub open spec fn command_name(line: Seq<char>) -> Seq<char> {
    let t = line.skip(1);
    t.take(span(t, CharClass::LineCommand) as int)
}

/// The argument of a command line: what follows the command name, trimmed.
pub open spec fn command_rest(line: Seq<char>) -> Seq<char> {
    trim(line.skip(1int + command_name(line).len()))
}

/// The number of characters that underline a heading: the length of its
/// title in UTF-8 bytes, at least one.
pub open spec fn underline_width(title: Seq<char>) -> nat {
    if byte_len(title) > 1 {
        byte_len(title)
    } else {
        1
    }
}

/// A heading: its title on a line, then a line of `mark` as long as the
/// title.
pub open spec fn underlined(title: Seq<char>, mark: char) -> Seq<char> {
    title + "\n"@ + repeat(mark, underline_width(title)) + "\n\n"@
}

/// The line `@end tag`.
pub open spec fn end_marker(tag: Seq<char>) -> Seq<char> {
    "@end "@ + tag
}

/// The index of the first line at or after `from` that, trimmed, is
/// `@end tag`; the number of lines where there is none, or `from` where it is
/// past the last line.
pub open spec fn block_end(lines: Seq<Seq<char>>, from: int, tag: Seq<char>) -> int
    decreases lines.len() - from,
{
    if from < 0 || from >= lines.len() {
        from
    } else if trim(lines[from]) == end_marker(tag) {
        from
    } else {
        block_end(lines, from + 1, tag)
    }
}

/// Lines `from..to`, each expanded, after `prefix` and before a newline.
pub open spec fn indented(lines: Seq<Seq<char>>, from: int, to: int, prefix: Seq<char>) -> Seq<
    char,
>
    decreases to - from,
{
    if to <= from {
        Seq::empty()
    } else {
        indented(lines, from, to - 1, prefix) + prefix + expand(lines[to - 1]) + "\n"@
    }
}

/// The number of lines among `from..to` that, trimmed, start with `@item`.
pub open spec fn item_count(lines: Seq<Seq<char>>, from: int, to: int) -> nat
    decreases to - from,
{
    if to <= from {
        0
    } else {
        item_count(lines, from, to - 1) + if starts_with(trim(lines[to - 1]), "@item"@) {
            1nat
        } else {
            0nat
        }
    }
}

/// The marker of the `n`th item of a list.
pub open spec fn item_marker(numbered: bool, n: nat) -> Seq<char> {
    if numbered {
        "  "@ + decimal(n) + ". "@
    } else {
        "   * "@
    }
}

/// One trimmed line `l` of a list whose items so far, this line counted,
/// number `n`.
pub open spec fn list_line(l: Seq<char>, numbered: bool, n: nat) -> Seq<char> {
    if starts_with(l, "@item"@) {
        let item = trim(l.skip(5));
        item_marker(numbered, n) + (if item.len() > 0 {
            expand(item)
        } else {
            Seq::empty()
        }) + "\n"@
    } else if l.len() > 0 {
        "     "@ + expand(l) + "\n"@
    } else {
        "\n"@
    }
}

/// Lines `from..to` of a list.
pub open spec fn list_body(lines: Seq<Seq<char>>, from: int, to: int, numbered: bool) -> Seq<
    char,
>
    decreases to - from,
{
    if to <= from {
        Seq::empty()
    } else {
        list_body(lines, from, to - 1, numbered) + list_line(
            trim(lines[to - 1]),
            numbered,
            item_count(lines, from, to),
        )
    }
}

/// One trimmed line `l` of a two-column table.
pub open spec fn table_line(l: Seq<char>) -> Seq<char> {
    if starts_with(l, "@item"@) || starts_with(l, "@itemx"@) {
        let item = if starts_with(l, "@itemx"@) {
            l.skip(6)
        } else {
            l.skip(5)
        };
        expand(trim(item)) + "\n"@
    } else if l.len() > 0 {
        "     "@ + expand(l) + "\n"@
    } else {
        "\n"@
    }
}

/// Lines `from..to` of a two-column table.
pub open spec fn table_body(lines: Seq<Seq<char>>, from: int, to: int) -> Seq<char>
    decreases to - from,
{
    if to <= from {
        Seq::empty()
    } else {
        table_body(lines, from, to - 1) + table_line(trim(lines[to - 1]))
    }
}

/// One trimmed line `l` of a multi-column table: rows and cells keep their
/// text, with each `@tab` turned into a tab character.
pub open spec fn multitable_line(l: Seq<char>) -> Seq<char> {
    if starts_with(l, "@item"@) || starts_with(l, "@tab"@) {
        expand(trim(replace_all(replace_all(l, "@item"@, Seq::empty()), "@tab"@, "\t"@)))
            + "\n"@
    } else {
        Seq::empty()
    }
}

/// Lines `from..to` of a multi-column table.
pub open spec fn multitable_body(lines: Seq<Seq<char>>, from: int, to: int) -> Seq<char>
    decreases to - from,
{
    if to <= from {
        Seq::empty()
    } else {
        multitable_body(lines, from, to - 1) + multitable_line(trim(lines[to - 1]))
    }
}

/// `st` after title page lines `from..to`: `@title`, `@author` and
/// `@subtitle` lines set the title, author and subtitle.
pub open spec fn title_page(st: ConverterModel, lines: Seq<Seq<char>>, from: int, to: int) -> ConverterModel
    decreases to - from,
{
    if to <= from {
        st
    } else {
        let s = title_page(st, lines, from, to - 1);
        let l = lines[to - 1];
        if starts_with(l, "@title"@) {
            ConverterModel { title: trim(l.skip(6)), ..s }
        } else if starts_with(l, "@author"@) {
            ConverterModel { author: trim(l.skip(7)), ..s }
        } else if starts_with(l, "@subtitle"@) {
            ConverterModel { subtitle: trim(l.skip(9)), ..s }
        } else {
            s
        }
    }
}

/// `Some(s)` for a non-empty `s`.
pub open spec fn non_empty(s: Seq<char>) -> Option<Seq<char>> {
    if s.len() > 0 {
        Some(s)
    } else {
        None
    }
}

/// The `i`th comma-separated field of a `@node` line, trimmed, if present
/// and not empty.
pub open spec fn node_field(parts: Seq<Seq<char>>, i: int) -> Option<Seq<char>> {
    if i < parts.len() {
        non_empty(trim(parts[i]))
    } else {
        None
    }
}

/// `@node name, next, prev, up`: the pending text goes to the current node,
/// and a new node with no content becomes the current one.
pub open spec fn node_state(st: ConverterModel, rest: Seq<char>) -> ConverterModel {
    let parts = split_n(rest, ',', 4);
    let name = trim(parts[0]);
    let f = flushed(st);
    ConverterModel {
        current_node: Some(name),
        nodes: f.nodes.push(
            NodeModel {
                name: name,
                next: node_field(parts, 1),
                prev: node_field(parts, 2),
                up: node_field(parts, 3),
                content: Seq::empty(),
                is_top: eq_ignore_ascii_case(name, "top"@),
            },
        ),
        ..f
    }
}

/// `@set name value`: the name runs up to the first whitespace; the value
/// is the rest, trimmed.
pub open spec fn set_state(st: ConverterModel, rest: Seq<char>) -> ConverterModel {
    let k = span(rest, CharClass::NonSpace);
    let key = rest.take(k as int);
    let value = if k < rest.len() {
        trim(rest.skip(k + 1int))
    } else {
        Seq::empty()
    };
    ConverterModel { variables: st.variables.insert(key, value), ..st }
}

/// The paragraph indentation that an argument of `@paragraphindent` asks
/// for: none for `none` and `0`, `n` spaces for a number `n`, and the
/// current one for anything else.
pub open spec fn indent_for(current: Seq<char>, arg: Seq<char>) -> Seq<char> {
    if arg == "none"@ || arg == "0"@ {
        Seq::empty()
    } else {
        match parse_usize(arg) {
            Some(n) => repeat(' ', n as nat),
            None => current,
        }
    }
}

/// The variable name in a `@value{name}` argument.
pub open spec fn value_key(rest: Seq<char>) -> Seq<char> {
    trim_char(trim_char(rest, '{'), '}')
}

/// A step that changes the state to `st` and goes on with the next line.
pub open spec fn simple(st: ConverterModel, idx: int) -> Step {
    Step { state: st, next: idx + 1, read_file: None }
}

/// A step that adds `t` to the pending text and goes on with line `next`.
pub open spec fn emit(st: ConverterModel, t: Seq<char>, next: int) -> Step {
    Step { state: with_text(st, t), next: next, read_file: None }
}

/// What a command line does inside an ignored region: only the nesting of
/// ignored environments is followed.
pub open spec fn ignored_step(st: ConverterModel, cmd: Seq<char>, rest: Seq<char>, idx: int) -> Step {
    let n: int = if cmd == "end"@ {
        if is_ignore_name(first_word(rest)) {
            st.in_ignore - 1
        } else {
            st.in_ignore as int
        }
    } else if is_ignore_name(cmd) {
        st.in_ignore + 1int
    } else {
        st.in_ignore as int
    };
    simple(ConverterModel { in_ignore: n as nat, ..st }, idx)
}

/// Headings, `@node` and reading in another file.
pub open spec fn structure_step(st: ConverterModel, cmd: Seq<char>, rest: Seq<char>, idx: int) -> Step
    recommends
        cmd == "node"@ || cmd == "top"@ || is_chapter_like(cmd) || is_section_like(cmd)
            || is_subsection_like(cmd) || is_subsubsection_like(cmd) || cmd == file_command(),
{
    if cmd == "node"@ {
        simple(node_state(st, rest), idx)
    } else if cmd == "top"@ {
        emit(flushed(st), underlined(rest, '='), idx + 1)
    } else if is_chapter_like(cmd) {
        emit(flushed(st), "\n"@ + underlined(rest, '*'), idx + 1)
    } else if is_section_like(cmd) {
        emit(flushed(st), "\n"@ + underlined(rest, '='), idx + 1)
    } else if is_subsection_like(cmd) {
        emit(flushed(st), "\n"@ + underlined(rest, '-'), idx + 1)
    } else if is_subsubsection_like(cmd) {
        emit(flushed(st), "\n"@ + rest + "\n\n"@, idx + 1)
    } else {
        Step { state: st, next: idx + 1, read_file: Some(trim(rest)) }
    }
}

/// Title, author, variables and paragraph indentation.
pub open spec fn meta_step(st: ConverterModel, cmd: Seq<char>, rest: Seq<char>, idx: int) -> Step {
    if cmd == "settitle"@ {
        simple(ConverterModel { title: rest, ..st }, idx)
    } else if cmd == "author"@ {
        simple(ConverterModel { author: rest, ..st }, idx)
    } else if cmd == "subtitle"@ {
        simple(ConverterModel { subtitle: rest, ..st }, idx)
    } else if cmd == "set"@ {
        simple(set_state(st, rest), idx)
    } else if cmd == "clear"@ {
        simple(ConverterModel { variables: st.variables.remove(first_word(rest)), ..st }, idx)
    } else if cmd == "value"@ {
        let key = value_key(rest);
        if st.variables.contains_key(key) {
            emit(st, st.variables[key], idx + 1)
        } else {
            simple(st, idx)
        }
    } else {
        simple(
            ConverterModel { paragraph_indent: indent_for(st.paragraph_indent, rest), ..st },
            idx,
        )
    }
}

/// Environments that span several lines, up to their `@end` line.
pub open spec fn block_step(
    st: ConverterModel,
    cmd: Seq<char>,
    lines: Seq<Seq<char>>,
    idx: int,
) -> Step {
    let end = block_end(lines, idx + 1, cmd);
    if is_example_like(cmd) {
        emit(st, "\n"@ + indented(lines, idx + 1, end, "     "@) + "\n"@, end + 1)
    } else if is_quotation_like(cmd) {
        emit(st, "\n"@ + indented(lines, idx + 1, end, "  "@) + "\n"@, end + 1)
    } else if is_list_like(cmd) {
        emit(st, "\n"@ + list_body(lines, idx + 1, end, cmd == "enumerate"@) + "\n"@, end + 1)
    } else if is_table_like(cmd) {
        emit(st, "\n"@ + table_body(lines, idx + 1, end) + "\n"@, end + 1)
    } else if cmd == "multitable"@ {
        emit(st, multitable_body(lines, idx + 1, end), end + 1)
    } else {
        Step { state: title_page(st, lines, idx + 1, end), next: end + 1, read_file: None }
    }
}

/// Menus, `@end`, conditionals, index entries and other directives.
pub open spec fn control_step(
    st: ConverterModel,
    cmd: Seq<char>,
    rest: Seq<char>,
    lines: Seq<Seq<char>>,
    idx: int,
) -> Step {
    if cmd == "menu"@ {
        emit(ConverterModel { in_menu: true, ..st }, "\n* Menu:\n\n"@, idx + 1)
    } else if cmd == "end"@ && starts_with(rest, "menu"@) {
        emit(ConverterModel { in_menu: false, ..st }, "\n"@, idx + 1)
    } else if cmd == "end"@ {
        simple(st, idx)
    } else if is_ignored_env(cmd) {
        simple(ConverterModel { in_ignore: st.in_ignore + 1, ..st }, idx)
    } else if is_info_conditional(cmd) {
        simple(st, idx)
    } else if cmd == "ifset"@ {
        if !st.variables.contains_key(first_word(rest)) {
            simple(ConverterModel { in_ignore: st.in_ignore + 1, ..st }, idx)
        } else {
            simple(st, idx)
        }
    } else if cmd == "ifclear"@ {
        if st.variables.contains_key(first_word(rest)) {
            simple(ConverterModel { in_ignore: st.in_ignore + 1, ..st }, idx)
        } else {
            simple(st, idx)
        }
    } else if is_index_command(cmd) {
        simple(st, idx)
    } else if is_skipped_env(cmd) {
        Step { state: st, next: block_end(lines, idx + 1, cmd) + 1, read_file: None }
    } else {
        simple(st, idx)
    }
}

/// Names handled by `structure_step`.
pub open spec fn is_structure(cmd: Seq<char>) -> bool {
    cmd == "node"@ || cmd == "top"@ || is_chapter_like(cmd) || is_section_like(cmd)
        || is_subsection_like(cmd) || is_subsubsection_like(cmd) || cmd == file_command()
}

/// Names handled by `meta_step`.
pub open spec fn is_meta(cmd: Seq<char>) -> bool {
    cmd == "settitle"@ || cmd == "author"@ || cmd == "subtitle"@ || cmd == "set"@ || cmd
        == "clear"@ || cmd == "value"@ || cmd == "paragraphindent"@
}

/// Names handled by `block_step`.
pub open spec fn is_block(cmd: Seq<char>) -> bool {
    is_example_like(cmd) || is_quotation_like(cmd) || is_list_like(cmd) || is_table_like(cmd)
        || cmd == "multitable"@ || cmd == "titlepage"@
}

/// Names handled by `control_step`.
pub open spec fn is_control(cmd: Seq<char>) -> bool {
    cmd == "menu"@ || cmd == "end"@ || is_ignored_env(cmd) || is_info_conditional(cmd) || cmd
        == "ifset"@ || cmd == "ifclear"@ || is_index_command(cmd) || is_directive(cmd)
}

/// What the command line `line` (line `idx` of `lines`) does.
///
/// Inside an ignored region only nesting is followed. Otherwise the command
/// name selects the step; an unknown command has its whole line expanded as
/// text.
pub open spec fn command_step(
    st: ConverterModel,
    line: Seq<char>,
    lines: Seq<Seq<char>>,
    idx: int,
) -> Step {
    let cmd = command_name(line);
    let rest = command_rest(line);
    if st.in_ignore > 0 {
        ignored_step(st, cmd, rest, idx)
    } else if is_structure(cmd) {
        structure_step(st, cmd, rest, idx)
    } else if is_meta(cmd) {
        meta_step(st, cmd, rest, idx)
    } else if is_block(cmd) {
        block_step(st, cmd, lines, idx)
    } else if is_control(cmd) {
        control_step(st, cmd, rest, lines, idx)
    } else {
        emit(st, expand(line) + "\n"@, idx + 1)
    }
}


/// Where reading a sequence of lines stopped: the state then, the file
/// whose text is to be read in (none where the lines ran out), and the
/// index of the line to go on with after it.
pub struct RunResult {
    pub state: ConverterModel,
    pub read_file: Option<Seq<char>>,
    pub resume: int,
}

/// Reads `lines` from index `i` on: a line that starts with `@` is a
/// command line; inside an ignored region other lines are skipped; any other
/// line, with a newline, is added to the pending text. Reading stops at a
/// command that asks for another file, or, after the pending text has been
/// moved to the current node, at the end of the lines.
pub open spec fn run_lines(st: ConverterModel, lines: Seq<Seq<char>>, i: int) -> RunResult
    decreases lines.len() + 1 - i,
{
    if i < 0 || i >= lines.len() {
        RunResult { state: flushed(st), read_file: None, resume: i }
    } else if starts_with(lines[i], seq!['@']) {
        let step = command_step(st, lines[i], lines, i);
        if step.read_file is Some {
            RunResult { state: step.state, read_file: step.read_file, resume: step.next }
        } else if i < step.next <= lines.len() + 1 {
            run_lines(step.state, lines, step.next)
        } else {
            RunResult { state: step.state, read_file: None, resume: step.next }
        }
    } else if st.in_ignore > 0 {
        run_lines(st, lines, i + 1)
    } else {
        run_lines(with_text(st, lines[i] + "\n"@), lines, i + 1)
    }
}

pub proof fn lemma_block_end_at_least(lines: Seq<Seq<char>>, from: int, tag: Seq<char>)
    requires
        0 <= from,
    ensures
        from <= block_end(lines, from, tag),
        block_end(lines, from, tag) <= lines.len() || block_end(lines, from, tag) == from,
    decreases lines.len() - from,
{
    if from < lines.len() && trim(lines[from]) != end_marker(tag) {
        lemma_block_end_at_least(lines, from + 1, tag);
    }
}

proof fn lemma_title_page_keeps(st: ConverterModel, lines: Seq<Seq<char>>, from: int, to: int)
    ensures
        title_page(st, lines, from, to).in_ignore == st.in_ignore,
        title_page(st, lines, from, to).nodes == st.nodes,
        title_page(st, lines, from, to).current_node == st.current_node,
    decreases to - from,
{
    if to > from {
        lemma_title_page_keeps(st, lines, from, to - 1);
    }
}

/// A command line moves reading forward, at most to just past the last
/// line, and opens at most one ignored region.
pub proof fn law_command_moves_forward(st: ConverterModel, line: Seq<char>, lines: Seq<Seq<char>>, idx: int)
    requires
        0 <= idx < lines.len(),
    ensures
        idx < command_step(st, line, lines, idx).next <= lines.len() + 1,
        command_step(st, line, lines, idx).state.in_ignore <= st.in_ignore + 1,
{
    let cmd = command_name(line);
    lemma_block_end_at_least(lines, idx + 1, cmd);
    lemma_title_page_keeps(st, lines, idx + 1, block_end(lines, idx + 1, cmd));
}


/// Inside an ignored region a command line changes nothing but the count
/// of enclosing ignored regions, by at most one either way, and reading
/// goes on with the next line.
pub proof fn law_ignored_region_is_silent(
    st: ConverterModel,
    line: Seq<char>,
    lines: Seq<Seq<char>>,
    idx: int,
)
    requires
        st.in_ignore > 0,
    ensures
        ({
            let step = command_step(st, line, lines, idx);
            &&& step.state == ConverterModel { in_ignore: step.state.in_ignore, ..st }
            &&& st.in_ignore - 1 <= step.state.in_ignore <= st.in_ignore + 1
            &&& step.next == idx + 1
            &&& step.read_file is None
        }),
{
}

/// `new` is `old` with possibly more text at the end of its content.
pub open spec fn node_extends(old: NodeModel, new: NodeModel) -> bool {
    &&& new.name == old.name
    &&& new.next == old.next
    &&& new.prev == old.prev
    &&& new.up == old.up
    &&& new.is_top == old.is_top
    &&& old.content.len() <= new.content.len()
    &&& new.content.take(old.content.len() as int) == old.content
}

/// The current node, if any, is the name of a node.
pub open spec fn current_node_exists(st: ConverterModel) -> bool {
    match st.current_node {
        None => true,
        Some(n) => exists|i: int| 0 <= i < st.nodes.len() && #[trigger] st.nodes[i].name == n,
    }
}

proof fn lemma_flushed_extends(st: ConverterModel)
    ensures
        flushed(st).nodes.len() == st.nodes.len(),
        flushed(st).current_node == st.current_node,
        forall|j: int| 0 <= j < st.nodes.len() ==> node_extends(st.nodes[j], #[trigger] flushed(st).nodes[j]),
{
    assert forall|j: int| 0 <= j < st.nodes.len() implies node_extends(st.nodes[j], #[trigger] flushed(st).nodes[j]) by {
        let n = flushed(st).nodes[j];
        if n.content != st.nodes[j].content {
            assert(n.content.take(st.nodes[j].content.len() as int) =~= st.nodes[j].content);
        } else {
            assert(n.content.take(st.nodes[j].content.len() as int) =~= st.nodes[j].content);
        }
    }
}

/// Command lines never remove a node or change anything of it but its
/// content, which only grows at the end; only `@node` adds a node, at the
/// end; and where the current node names a node, it still does after.
pub proof fn law_nodes_only_grow(st: ConverterModel, line: Seq<char>, lines: Seq<Seq<char>>, idx: int)
    ensures
        ({
            let after = command_step(st, line, lines, idx).state;
            &&& st.nodes.len() <= after.nodes.len() <= st.nodes.len() + 1
            &&& forall|j: int| 0 <= j < st.nodes.len() ==> node_extends(st.nodes[j], #[trigger] after.nodes[j])
            &&& current_node_exists(st) ==> current_node_exists(after)
        }),
{
    let cmd = command_name(line);
    let after = command_step(st, line, lines, idx).state;
    lemma_title_page_keeps(st, lines, idx + 1, block_end(lines, idx + 1, cmd));
    lemma_flushed_extends(st);
    assert forall|j: int| 0 <= j < st.nodes.len() implies node_extends(st.nodes[j], #[trigger] after.nodes[j]) by {
        if after.nodes[j] == st.nodes[j] {
            assert(st.nodes[j].content.take(st.nodes[j].content.len() as int) =~= st.nodes[j].content);
        }
        assert(flushed(st).nodes[j] == flushed(st).nodes[j]);
    }
    if current_node_exists(st) {
        if st.in_ignore == 0 && cmd == "node"@ {
            let name = trim(split_n(command_rest(line), ',', 4)[0]);
            assert(after == node_state(st, command_rest(line)));
            assert(after.nodes[st.nodes.len() as int].name == name);
            assert(after.current_node == Some(name));
        } else {
            assert(after.current_node == st.current_node);
            match st.current_node {
                None => {},
                Some(n) => {
                    let i = choose|i: int| 0 <= i < st.nodes.len() && #[trigger] st.nodes[i].name == n;
                    assert(node_extends(st.nodes[i], after.nodes[i]));
                    assert(after.nodes[i].name == n);
                },
            }
        }
    }
}

proof fn lemma_end_line(cmd: Seq<char>)
    requires
        cmd.len() > 0,
        forall|k: int| 0 <= k < cmd.len() ==> !is_ws(#[trigger] cmd[k]),
    ensures
        command_name("@end "@ + cmd) == "end"@,
        first_word(command_rest("@end "@ + cmd)) == cmd,
{
    reveal_strlit("@end ");
    reveal_strlit("end");
    let line = "@end "@ + cmd;
    let t = line.skip(1);
    assert(t[0] == 'e' && t[1] == 'n' && t[2] == 'd' && t[3] == ' ');
    lemma_span_exact(t, CharClass::LineCommand, 3);
    assert(command_name(line) =~= "end"@);
    let u = line.skip(4);
    assert(u =~= seq![' '] + cmd);
    assert(u[1] == cmd[0]);
    lemma_span_exact(u, CharClass::Space, 1);
    assert(u.skip(1) =~= cmd);
    assert(cmd.last() == cmd[cmd.len() - 1]);
    lemma_strip_none(cmd, CharClass::Space);
    lemma_span_exact(cmd, CharClass::Space, 0);
    assert(cmd.skip(0) =~= cmd);
    lemma_span_exact(cmd, CharClass::NonSpace, cmd.len() as int);
    assert(cmd.take(cmd.len() as int) =~= cmd);
}

/// Outside any ignored region, a command line that opens one has a name
/// that `is_ignore_block` accepts, and the line `@end` followed by that
/// name closes the region again.
pub proof fn law_ignored_region_closes(
    st: ConverterModel,
    line: Seq<char>,
    lines: Seq<Seq<char>>,
    i: int,
    j: int,
)
    requires
        st.in_ignore == 0,
        command_step(st, line, lines, i).state.in_ignore == 1,
    ensures
        is_ignore_name(command_name(line)),
        command_step(
            command_step(st, line, lines, i).state,
            "@end "@ + command_name(line),
            lines,
            j,
        ).state.in_ignore == 0,
{
    let cmd = command_name(line);
    lemma_title_page_keeps(st, lines, i + 1, block_end(lines, i + 1, cmd));
    assert(is_ignore_name(cmd));
    crate::text::lemma_span_bounds(line.skip(1), CharClass::LineCommand);
    assert forall|k: int| 0 <= k < cmd.len() implies !is_ws(#[trigger] cmd[k]) by {
        assert(cmd[k] == line.skip(1)[k]);
        assert(in_class(line.skip(1)[k], CharClass::LineCommand));
    }
    reveal_strlit("ignore");
    reveal_strlit("ifhtml");
    reveal_strlit("ifxml");
    reveal_strlit("ifdocbook");
    reveal_strlit("iflatex");
    reveal_strlit("iftex");
    reveal_strlit("ifplaintext");
    reveal_strlit("ifnotinfo");
    reveal_strlit("ifset");
    reveal_strlit("ifclear");
    assert(cmd.len() > 0);
    lemma_end_line(cmd);
}

/// A text that has been read to its end leaves no pending text behind.
pub proof fn law_finished_run_leaves_no_pending_text(
    st: ConverterModel,
    lines: Seq<Seq<char>>,
    i: int,
)
    ensures
        run_lines(st, lines, i).read_file is None ==> run_lines(st, lines, i).state.text.len()
            == 0,
    decreases lines.len() + 1 - i,
{
    if 0 <= i < lines.len() {
        if starts_with(lines[i], seq!['@']) {
            let step = command_step(st, lines[i], lines, i);
            if step.read_file is None && i < step.next <= lines.len() + 1 {
                law_finished_run_leaves_no_pending_text(step.state, lines, step.next);
            } else if step.read_file is None {
                law_command_moves_forward(st, lines[i], lines, i);
            }
        } else if st.in_ignore > 0 {
            law_finished_run_leaves_no_pending_text(st, lines, i + 1);
        } else {
            law_finished_run_leaves_no_pending_text(with_text(st, lines[i] + "\n"@), lines, i + 1);
        }
    }
}

/// Stripping characters of a class from a text that neither starts nor
/// ends with one leaves it as it is.
proof fn lemma_strip_none(t: Seq<char>, cls: CharClass)
    requires
        t.len() > 0,
        !in_class(t[0], cls),
        !in_class(t.last(), cls),
    ensures
        strip(t, cls) == t,
{
    lemma_span_exact(t, cls, 0);
    assert(t.skip(0) =~= t);
    assert(t.take(t.len() as int) =~= t);
}

proof fn lemma_names_differ()
    ensures
        "set"@ != "node"@,
        "set"@ != "top"@,
        "value"@ != "node"@,
        "value"@ != "top"@,
        !is_chapter_like("set"@),
        !is_chapter_like("value"@),
        !is_section_like("set"@),
        !is_section_like("value"@),
        !is_subsection_like("set"@),
        !is_subsection_like("value"@),
        !is_subsubsection_like("set"@),
        !is_subsubsection_like("value"@),
        "set"@ != file_command(),
        "value"@ != file_command(),
        "set"@ != "settitle"@,
        "set"@ != "author"@,
        "set"@ != "subtitle"@,
        "value"@ != "settitle"@,
        "value"@ != "author"@,
        "value"@ != "subtitle"@,
        "value"@ != "set"@,
        "value"@ != "clear"@,
        is_meta("set"@),
        is_meta("value"@),
        !is_structure("set"@),
        !is_structure("value"@),
{
    reveal_strlit("set");
    reveal_strlit("value");
    reveal_strlit("node");
    reveal_strlit("top");
    reveal_strlit("chapter");
    reveal_strlit("unnumbered");
    reveal_strlit("appendix");
    reveal_strlit("section");
    reveal_strlit("unnumberedsec");
    reveal_strlit("appendixsec");
    reveal_strlit("subsection");
    reveal_strlit("unnumberedsubsec");
    reveal_strlit("appendixsubsec");
    reveal_strlit("subsubsection");
    reveal_strlit("unnumberedsubsubsec");
    reveal_strlit("appendixsubsubsec");
    reveal_strlit("settitle");
    reveal_strlit("author");
    reveal_strlit("subtitle");
    reveal_strlit("clear");
    assert("top"@[0] != "set"@[0]);
    assert("top"@[0] != "value"@[0]);
    assert("set"@.len() != file_command().len());
    assert("value"@.len() != file_command().len());
}

proof fn lemma_set_line(key: Seq<char>, value: Seq<char>)
    requires
        key.len() > 0,
        forall|k: int| 0 <= k < key.len() ==> !is_ws(#[trigger] key[k]),
        value.len() > 0,
        !is_ws(value.last()),
    ensures
        command_name("@set "@ + key + " "@ + value) == "set"@,
        command_rest("@set "@ + key + " "@ + value) == key + " "@ + value,
{
    reveal_strlit("@set ");
    reveal_strlit(" ");
    reveal_strlit("set");
    let line1 = "@set "@ + key + " "@ + value;
    let t1 = line1.skip(1);
    assert(t1[0] == 's' && t1[1] == 'e' && t1[2] == 't' && t1[3] == ' ');
    lemma_span_exact(t1, CharClass::LineCommand, 3);
    assert(command_name(line1) =~= "set"@);
    let u1 = line1.skip(4);
    let w1 = key + " "@ + value;
    assert(u1 =~= seq![' '] + w1);
    assert(u1[1] == key[0]);
    lemma_span_exact(u1, CharClass::Space, 1);
    assert(u1.skip(1) =~= w1);
    assert(w1[0] == key[0]);
    assert(w1.last() == value.last());
    lemma_strip_none(w1, CharClass::Space);
}

proof fn lemma_set_parts(st: ConverterModel, key: Seq<char>, value: Seq<char>)
    requires
        forall|k: int| 0 <= k < key.len() ==> !is_ws(#[trigger] key[k]),
        value.len() > 0,
        !is_ws(value[0]),
        !is_ws(value.last()),
    ensures
        set_state(st, key + " "@ + value) == (ConverterModel {
            variables: st.variables.insert(key, value),
            ..st
        }),
{
    reveal_strlit(" ");
    let w1 = key + " "@ + value;
    assert(w1[key.len() as int] == ' ');
    assert forall|k: int| 0 <= k < key.len() implies in_class(#[trigger] w1[k], CharClass::NonSpace) by {
        assert(w1[k] == key[k]);
    }
    lemma_span_exact(w1, CharClass::NonSpace, key.len() as int);
    assert(w1.take(key.len() as int) =~= key);
    assert(w1.skip(key.len() + 1int) =~= value);
    lemma_strip_none(value, CharClass::Space);
}

proof fn lemma_value_line(key: Seq<char>)
    requires
        key.len() > 0,
        forall|k: int| 0 <= k < key.len() ==> #[trigger] key[k] != '{' && key[k] != '}',
    ensures
        command_name("@value{"@ + key + "}"@) == "value"@,
        value_key(command_rest("@value{"@ + key + "}"@)) == key,
{
    reveal_strlit("@value{");
    reveal_strlit("}");
    reveal_strlit("value");
    let line2 = "@value{"@ + key + "}"@;
    let t2 = line2.skip(1);
    assert(t2[0] == 'v' && t2[1] == 'a' && t2[2] == 'l' && t2[3] == 'u' && t2[4] == 'e' && t2[5]
        == '{');
    lemma_span_exact(t2, CharClass::LineCommand, 5);
    assert(command_name(line2) =~= "value"@);
    let w2 = line2.skip(6);
    assert(w2 =~= seq!['{'] + key + seq!['}']);
    lemma_strip_none(w2, CharClass::Space);
    assert(w2[1] == key[0]);
    lemma_span_exact(w2, CharClass::Is('{'), 1);
    let w3 = key + seq!['}'];
    assert(w2.skip(1) =~= w3);
    assert(w3.drop_last() =~= key);
    assert(w3.last() == '}');
    assert(key.last() == key[key.len() - 1]);
    assert(rspan(key, CharClass::Is('}')) == 0);
    assert(rspan(w3, CharClass::Is('}')) == 1);
    assert(w3.take(w3.len() - 1) =~= key);
    assert(trim_char(w2, '{') == w3);
    assert(w3[0] == key[0]);
    lemma_span_exact(w3, CharClass::Is('}'), 0);
    assert(w3.skip(0) =~= w3);
}

/// What `@set key value` stores, `@value{key}` gives back: after the
/// first line the variable has that value, and the second line adds exactly
/// that value to the pending text (outside ignored regions, for a name
/// without whitespace or braces and a value that does not begin or end with
/// whitespace).
pub proof fn law_set_then_value(
    st: ConverterModel,
    key: Seq<char>,
    value: Seq<char>,
    lines: Seq<Seq<char>>,
    i: int,
    j: int,
)
    requires
        st.in_ignore == 0,
        key.len() > 0,
        forall|k: int|
            0 <= k < key.len() ==> !is_ws(#[trigger] key[k]) && key[k] != '{' && key[k] != '}',
        value.len() > 0,
        !is_ws(value[0]),
        !is_ws(value.last()),
    ensures
        ({
            let s1 = command_step(st, "@set "@ + key + " "@ + value, lines, i).state;
            let s2 = command_step(s1, "@value{"@ + key + "}"@, lines, j).state;
            &&& s1 == ConverterModel { variables: st.variables.insert(key, value), ..st }
            &&& s2 == with_text(s1, value)
        }),
{
    lemma_names_differ();
    lemma_set_line(key, value);
    lemma_set_parts(st, key, value);
    lemma_value_line(key);
}

/// Moving the pending text to its node twice is the same as once, and
/// leaves no pending text.
pub proof fn law_flush_is_idempotent(st: ConverterModel)
    ensures
        flushed(st).text.len() == 0,
        flushed(flushed(st)) == flushed(st),
{
}

} // verus!
