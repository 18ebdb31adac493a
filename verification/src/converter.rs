//! The converter: its state, pending text, nodes and the command lines that
//! change them.

use vstd::prelude::*;

use crate::inline::expand_inline;
use crate::model::{
    block_end, block_step, command_name, command_step, control_step, end_marker, file_command,
    flushed, ignored_step, indent_for, indented, item_count, list_body, meta_step, multitable_body,
    node_field, node_position, node_state, structure_step, table_body, title_page,
    underline_width, underlined, with_text, ConverterModel, NodeModel, OutputFormat, Step,
};
use crate::names::{
    is_chapter_like_exec, is_directive_exec, is_example_like_exec, is_ignore_block,
    is_ignored_env_exec, is_index_command_exec, is_info_conditional_exec, is_list_like_exec,
    is_quotation_like_exec, is_section_like_exec, is_skipped_env_exec, is_subsection_like_exec,
    is_subsubsection_like_exec, is_table_like_exec,
};
use crate::text::{
    byte_len_exec, chars_of, copy_range, decimal_exec, eq_chars, eq_ignore_ascii_case_exec,
    eq_str, first_word_exec, parse_usize_exec, push_all, push_repeat, push_str,
    replace_all_exec, span_from, split_n, split_n_exec, starts_with_str, strip_exec, trim,
    trim_exec, views, CharClass,
};
use crate::vars::Variables;

verus! {

/// A node of the document: its name, its links, and the text collected
/// for it.
pub struct Node {
    pub name: Vec<char>,
    pub next: Option<Vec<char>>,
    pub prev: Option<Vec<char>>,
    pub up: Option<Vec<char>>,
    pub content: Vec<char>,
    pub is_top: bool,
}

/// The view of an optional character vector.
pub open spec fn opt_view(o: Option<Vec<char>>) -> Option<Seq<char>> {
    match o {
        Some(v) => Some(v@),
        None => None,
    }
}

impl View for Node {
    type V = NodeModel;

    open spec fn view(&self) -> NodeModel {
        NodeModel {
            name: self.name@,
            next: opt_view(self.next),
            prev: opt_view(self.prev),
            up: opt_view(self.up),
            content: self.content@,
            is_top: self.is_top,
        }
    }
}

/// The views of a sequence of nodes.
pub open spec fn node_views(v: Seq<Node>) -> Seq<NodeModel> {
    v.map_values(|n: Node| n@)
}

/// The converter's state while it reads Texinfo lines.
pub struct Converter {
    /// Directories searched for files that are read in.
    pub input_dirs: Vec<Vec<char>>,
    /// The nodes, in the order of their `@node` lines.
    pub nodes: Vec<Node>,
    /// The name of the node that text goes to.
    pub current_node: Option<Vec<char>>,
    /// Text not yet moved to a node.
    pub text: Vec<char>,
    /// Variables set with `@set`.
    pub variables: Variables,
    pub title: Vec<char>,
    pub author: Vec<char>,
    pub subtitle: Vec<char>,
    /// Whether a menu is open.
    pub in_menu: bool,
    /// How many ignored environments enclose the current line.
    pub in_ignore: usize,
    pub paragraph_indent: Vec<char>,
    pub fill_column: usize,
    pub split_size: usize,
    pub no_split: bool,
    pub no_headers: bool,
    pub output_format: OutputFormat,
}

impl View for Converter {
    type V = ConverterModel;

    open spec fn view(&self) -> ConverterModel {
        ConverterModel {
            input_dirs: views(self.input_dirs@),
            nodes: node_views(self.nodes@),
            current_node: opt_view(self.current_node),
            text: self.text@,
            variables: self.variables@,
            title: self.title@,
            author: self.author@,
            subtitle: self.subtitle@,
            in_menu: self.in_menu,
            in_ignore: self.in_ignore as nat,
            paragraph_indent: self.paragraph_indent@,
            fill_column: self.fill_column as nat,
            split_size: self.split_size as nat,
            no_split: self.no_split,
            no_headers: self.no_headers,
            output_format: self.output_format,
        }
    }
}

/// What a command line asks for: the index of the next line to read, and
/// the name of a file whose text is to be read in before it.
pub struct CommandOutcome {
    pub next: usize,
    pub read_file: Option<Vec<char>>,
}

/// The state of a fresh converter.
pub open spec fn initial_model() -> ConverterModel {
    ConverterModel {
        input_dirs: seq![seq!['.']],
        nodes: Seq::empty(),
        current_node: None,
        text: Seq::empty(),
        variables: Map::empty(),
        title: Seq::empty(),
        author: Seq::empty(),
        subtitle: Seq::empty(),
        in_menu: false,
        in_ignore: 0,
        paragraph_indent: "  "@,
        fill_column: 72,
        split_size: 300000,
        no_split: false,
        no_headers: false,
        output_format: OutputFormat::Info,
    }
}

/// The command name at the start of a line that begins with `@`: the ASCII
/// letters, digits, `-` and `_` that follow the `@`.
pub fn extract_command(line: &[char]) -> (r: Vec<char>)
    requires
        line@.len() >= 1,
        line@[0] <= '\x7f',
    ensures
        r@ == command_name(line@),
{
    let e = span_from(line, 1, CharClass::LineCommand);
    proof {
        crate::text::lemma_span_bounds(line@.skip(1), CharClass::LineCommand);
    }
    let r = copy_range(line, 1, e);
    assert(r@ =~= command_name(line@));
    r
}

/// The first index `>= from` whose line, trimmed, is `@end tag`.
fn find_block_end(lines: &[Vec<char>], from: usize, tag: &[char]) -> (r: usize)
    ensures
        r == block_end(views(lines@), from as int, tag@),
        from <= r,
        r <= lines@.len() || r == from,
{
    let mut marker: Vec<char> = Vec::new();
    push_str(&mut marker, "@end ");
    push_all(&mut marker, tag);
    let ghost ls = views(lines@);
    let mut j = from;
    while j < lines.len()
        invariant
            from <= j,
            j <= lines@.len() || j == from,
            ls == views(lines@),
            marker@ == end_marker(tag@),
            block_end(ls, from as int, tag@) == block_end(ls, j as int, tag@),
        decreases lines@.len() - j,
    {
        let t = trim_exec(lines[j].as_slice());
        assert(ls[j as int] == lines@[j as int]@);
        if eq_chars(t.as_slice(), marker.as_slice()) {
            return j;
        }
        j = j + 1;
    }
    j
}

/// Lines `from..to`, each after `prefix`, expanded, and ended by a newline.
fn indented_exec(lines: &[Vec<char>], from: usize, to: usize, prefix: &str) -> (r: Vec<char>)
    requires
        from <= to,
        to <= lines@.len() || to == from,
    ensures
        r@ == indented(views(lines@), from as int, to as int, prefix@),
{
    let mut out: Vec<char> = Vec::new();
    let mut j = from;
    while j < to
        invariant
            from <= j <= to,
            to <= lines@.len() || to == from,
            out@ == indented(views(lines@), from as int, j as int, prefix@),
        decreases to - j,
    {
        push_str(&mut out, prefix);
        let ex = expand_inline(lines[j].as_slice());
        push_all(&mut out, ex.as_slice());
        push_str(&mut out, "\n");
        assert(views(lines@)[j as int] == lines@[j as int]@);
        assert(out@ =~= indented(views(lines@), from as int, j + 1int, prefix@));
        j = j + 1;
    }
    out
}

/// The text of list lines `from..to`.
fn list_body_exec(lines: &[Vec<char>], from: usize, to: usize, numbered: bool) -> (r: Vec<char>)
    requires
        from <= to,
        to <= lines@.len() || to == from,
    ensures
        r@ == list_body(views(lines@), from as int, to as int, numbered),
{
    let ghost ls = views(lines@);
    let mut out: Vec<char> = Vec::new();
    let mut count: usize = 0;
    let mut j = from;
    while j < to
        invariant
            from <= j <= to,
            to <= lines@.len() || to == from,
            ls == views(lines@),
            out@ == list_body(ls, from as int, j as int, numbered),
            count == item_count(ls, from as int, j as int),
            count <= j - from,
        decreases to - j,
    {
        let l = trim_exec(lines[j].as_slice());
        assert(ls[j as int] == lines@[j as int]@);
        proof {
            reveal_strlit("@item");
        }
        if starts_with_str(l.as_slice(), "@item") {
            count = count + 1;
            if numbered {
                push_str(&mut out, "  ");
                let d = decimal_exec(count);
                push_all(&mut out, d.as_slice());
                push_str(&mut out, ". ");
            } else {
                push_str(&mut out, "   * ");
            }
            let rest = copy_range(l.as_slice(), 5, l.len());
            let item = trim_exec(rest.as_slice());
            if item.len() > 0 {
                let ex = expand_inline(item.as_slice());
                push_all(&mut out, ex.as_slice());
            }
            push_str(&mut out, "\n");
        } else if l.len() > 0 {
            push_str(&mut out, "     ");
            let ex = expand_inline(l.as_slice());
            push_all(&mut out, ex.as_slice());
            push_str(&mut out, "\n");
        } else {
            push_str(&mut out, "\n");
        }
        assert(out@ =~= list_body(ls, from as int, j + 1int, numbered));
        j = j + 1;
    }
    out
}

/// The text of two-column table lines `from..to`.
fn table_body_exec(lines: &[Vec<char>], from: usize, to: usize) -> (r: Vec<char>)
    requires
        from <= to,
        to <= lines@.len() || to == from,
    ensures
        r@ == table_body(views(lines@), from as int, to as int),
{
    let ghost ls = views(lines@);
    let mut out: Vec<char> = Vec::new();
    let mut j = from;
    while j < to
        invariant
            from <= j <= to,
            to <= lines@.len() || to == from,
            ls == views(lines@),
            out@ == table_body(ls, from as int, j as int),
        decreases to - j,
    {
        let l = trim_exec(lines[j].as_slice());
        assert(ls[j as int] == lines@[j as int]@);
        proof {
            reveal_strlit("@item");
            reveal_strlit("@itemx");
        }
        let is_itemx = starts_with_str(l.as_slice(), "@itemx");
        if starts_with_str(l.as_slice(), "@item") || is_itemx {
            let skip: usize = if is_itemx {
                6
            } else {
                5
            };
            let rest = copy_range(l.as_slice(), skip, l.len());
            let item = trim_exec(rest.as_slice());
            let ex = expand_inline(item.as_slice());
            push_all(&mut out, ex.as_slice());
            push_str(&mut out, "\n");
        } else if l.len() > 0 {
            push_str(&mut out, "     ");
            let ex = expand_inline(l.as_slice());
            push_all(&mut out, ex.as_slice());
            push_str(&mut out, "\n");
        } else {
            push_str(&mut out, "\n");
        }
        assert(out@ =~= table_body(ls, from as int, j + 1int));
        j = j + 1;
    }
    out
}

/// The text of multi-column table lines `from..to`.
fn multitable_body_exec(lines: &[Vec<char>], from: usize, to: usize) -> (r: Vec<char>)
    requires
        from <= to,
        to <= lines@.len() || to == from,
    ensures
        r@ == multitable_body(views(lines@), from as int, to as int),
{
    let ghost ls = views(lines@);
    let mut out: Vec<char> = Vec::new();
    let mut j = from;
    let item = chars_of("@item");
    let tab = chars_of("@tab");
    let tab_char = chars_of("\t");
    let nothing: Vec<char> = Vec::new();
    while j < to
        invariant
            from <= j <= to,
            to <= lines@.len() || to == from,
            ls == views(lines@),
            item@ == "@item"@,
            tab@ == "@tab"@,
            tab_char@ == "\t"@,
            nothing@ == Seq::<char>::empty(),
            out@ == multitable_body(ls, from as int, j as int),
        decreases to - j,
    {
        let l = trim_exec(lines[j].as_slice());
        assert(ls[j as int] == lines@[j as int]@);
        if starts_with_str(l.as_slice(), "@item") || starts_with_str(l.as_slice(), "@tab") {
            let a = replace_all_exec(l.as_slice(), item.as_slice(), nothing.as_slice());
            let b = replace_all_exec(a.as_slice(), tab.as_slice(), tab_char.as_slice());
            let c = trim_exec(b.as_slice());
            let ex = expand_inline(c.as_slice());
            push_all(&mut out, ex.as_slice());
            push_str(&mut out, "\n");
        }
        assert(out@ =~= multitable_body(ls, from as int, j + 1int));
        j = j + 1;
    }
    out
}

/// Tests that `n` names the command that reads in another file.
fn is_file_command(n: &[char]) -> (r: bool)
    ensures
        r == (n@ == file_command()),
{
    if n.len() != 7 {
        return false;
    }
    let r = n[0] == 'i' && n[1] == 'n' && n[2] == 'c' && n[3] == 'l' && n[4] == 'u' && n[5] == 'd'
        && n[6] == 'e';
    assert(r ==> n@ =~= file_command());
    r
}

impl Converter {
    /// A converter with no nodes, no pending text and default settings.
    pub fn new() -> (r: Converter)
        ensures
            r@ == initial_model(),
    {
        let mut dirs: Vec<Vec<char>> = Vec::new();
        let mut dot: Vec<char> = Vec::new();
        dot.push('.');
        dirs.push(dot);
        let r = Converter {
            input_dirs: dirs,
            nodes: Vec::new(),
            current_node: None,
            text: Vec::new(),
            variables: Variables::new(),
            title: Vec::new(),
            author: Vec::new(),
            subtitle: Vec::new(),
            in_menu: false,
            in_ignore: 0,
            paragraph_indent: chars_of("  "),
            fill_column: 72,
            split_size: 300000,
            no_split: false,
            no_headers: false,
            output_format: OutputFormat::Info,
        };
        assert(views(r.input_dirs@) =~= seq![seq!['.']]);
        assert(node_views(r.nodes@) =~= Seq::<NodeModel>::empty());
        r
    }

    /// Adds `s` to the pending text.
    pub fn append_text(&mut self, s: &[char])
        ensures
            final(self)@ == with_text(old(self)@, s@),
    {
        push_all(&mut self.text, s);
    }

    /// Adds the characters of a string slice to the pending text.
    fn append_str(&mut self, s: &str)
        ensures
            final(self)@ == with_text(old(self)@, s@),
    {
        push_str(&mut self.text, s);
    }

    /// The index of the first node named `name`, or the number of nodes.
    fn find_node(&self, name: &[char]) -> (r: usize)
        ensures
            r == node_position(self@.nodes, name@),
    {
        let ghost ns = self@.nodes;
        let mut i: usize = 0;
        assert(ns.skip(0) =~= ns);
        while i < self.nodes.len()
            invariant
                ns == node_views(self.nodes@),
                i <= ns.len(),
                node_position(ns, name@) == i + node_position(ns.skip(i as int), name@),
            decreases ns.len() - i,
        {
            assert(ns.skip(i as int)[0] == self.nodes@[i as int]@);
            if eq_chars(self.nodes[i].name.as_slice(), name) {
                return i;
            }
            assert(ns.skip(i as int).drop_first() =~= ns.skip(i + 1int));
            i = i + 1;
        }
        i
    }

    /// Moves the pending text to the end of the content of the current node
    /// (the first node of that name); where there is none, the text is
    /// dropped.
    pub fn flush_text(&mut self)
        ensures
            final(self)@ == flushed(old(self)@),
    {
        if self.text.len() == 0 {
            return ;
        }
        let mut t: Vec<char> = Vec::new();
        std::mem::swap(&mut t, &mut self.text);
        assert(self.text@ =~= Seq::<char>::empty());
        match &self.current_node {
            Some(name) => {
                let name = copy_range(name.as_slice(), 0, name.len());
                assert(old(self)@.current_node == Some(name@));
                let j = self.find_node(name.as_slice());
                if j < self.nodes.len() {
                    let ghost before = self.nodes@;
                    let mut node = self.nodes.remove(j);
                    push_all(&mut node.content, t.as_slice());
                    self.nodes.insert(j, node);
                    assert(node_views(self.nodes@) =~= node_views(before).update(
                        j as int,
                        NodeModel {
                            content: node_views(before)[j as int].content + t@,
                            ..node_views(before)[j as int]
                        },
                    ));
                    assert(self@ =~= flushed(old(self)@));
                } else {
                    assert(self@ =~= flushed(old(self)@));
                }
            },
            None => {
                assert(self@ =~= flushed(old(self)@));
            },
        }
    }
}


/// A command's outcome matches a step of the model.
pub open spec fn outcome_is(r: CommandOutcome, step: Step) -> bool {
    r.next == step.next && opt_view(r.read_file) == step.read_file
}

/// The `i`th piece, trimmed, if present and not empty.
fn node_field_exec(parts: &Vec<Vec<char>>, i: usize) -> (r: Option<Vec<char>>)
    ensures
        opt_view(r) == node_field(views(parts@), i as int),
{
    if i < parts.len() {
        let t = trim_exec(parts[i].as_slice());
        assert(views(parts@)[i as int] == parts@[i as int]@);
        if t.len() > 0 {
            Some(t)
        } else {
            None
        }
    } else {
        None
    }
}

impl Converter {
    /// `@node name, next, prev, up`.
    fn node_command(&mut self, rest: &[char])
        ensures
            final(self)@ == node_state(old(self)@, rest@),
    {
        self.flush_text();
        let parts = split_n_exec(rest, ',', 4);
        proof {
            reveal_with_fuel(split_n, 2);
        }
        assert(views(parts@).len() == parts@.len());
        assert(views(parts@)[0] == parts@[0]@);
        let name = trim_exec(parts[0].as_slice());
        let next = node_field_exec(&parts, 1);
        let prev = node_field_exec(&parts, 2);
        let up = node_field_exec(&parts, 3);
        let top = chars_of("top");
        let is_top = eq_ignore_ascii_case_exec(name.as_slice(), top.as_slice());
        self.current_node = Some(copy_range(name.as_slice(), 0, name.len()));
        let ghost before = self.nodes@;
        self.nodes.push(
            Node { name: name, next: next, prev: prev, up: up, content: Vec::new(), is_top: is_top },
        );
        assert(node_views(self.nodes@) =~= node_views(before).push(self.nodes@.last()@));
        assert(self@ =~= node_state(old(self)@, rest@));
    }

    /// Adds a heading to the pending text: an optional newline, the title,
    /// and a line of `mark` as long as the title.
    fn heading(&mut self, lead: bool, title: &[char], mark: char)
        requires
            4 * title@.len() <= usize::MAX,
        ensures
            final(self)@ == with_text(
                old(self)@,
                if lead {
                    "\n"@ + underlined(title@, mark)
                } else {
                    underlined(title@, mark)
                },
            ),
    {
        let mut t: Vec<char> = Vec::new();
        if lead {
            push_str(&mut t, "\n");
        }
        push_all(&mut t, title);
        push_str(&mut t, "\n");
        let b = byte_len_exec(title);
        let w = if b > 1 {
            b
        } else {
            1
        };
        push_repeat(&mut t, mark, w);
        push_str(&mut t, "\n\n");
        assert(w == underline_width(title@));
        if lead {
            assert(t@ =~= "\n"@ + underlined(title@, mark));
        } else {
            assert(t@ =~= underlined(title@, mark));
        }
        self.append_text(t.as_slice());
    }

    /// Headings, `@node` and reading in another file.
    fn structure_command(&mut self, cmd: &[char], rest: &[char], idx: usize) -> (r:
        CommandOutcome)
        requires
            idx < usize::MAX,
            4 * rest@.len() <= usize::MAX,
        ensures
            ({
                let step = structure_step(old(self)@, cmd@, rest@, idx as int);
                final(self)@ == step.state && outcome_is(r, step)
            }),
    {
        let none = CommandOutcome { next: idx + 1, read_file: None };
        if eq_str(cmd, "node") {
            self.node_command(rest);
            none
        } else if eq_str(cmd, "top") {
            self.flush_text();
            self.heading(false, rest, '=');
            none
        } else if is_chapter_like_exec(cmd) {
            self.flush_text();
            self.heading(true, rest, '*');
            none
        } else if is_section_like_exec(cmd) {
            self.flush_text();
            self.heading(true, rest, '=');
            none
        } else if is_subsection_like_exec(cmd) {
            self.flush_text();
            self.heading(true, rest, '-');
            none
        } else if is_subsubsection_like_exec(cmd) {
            self.flush_text();
            let mut t: Vec<char> = Vec::new();
            push_str(&mut t, "\n");
            push_all(&mut t, rest);
            push_str(&mut t, "\n\n");
            self.append_text(t.as_slice());
            none
        } else {
            let file = trim_exec(rest);
            CommandOutcome { next: idx + 1, read_file: Some(file) }
        }
    }

    /// Sets the paragraph indentation from an argument: `none` or `0` for
    /// none, a number of spaces, or no change for anything else.
    pub fn set_paragraph_indent(&mut self, arg: &[char])
        ensures
            final(self)@ == (ConverterModel {
                paragraph_indent: indent_for(old(self)@.paragraph_indent, arg@),
                ..old(self)@
            }),
    {
        if eq_str(arg, "none") || eq_str(arg, "0") {
            self.paragraph_indent = Vec::new();
        } else {
            match parse_usize_exec(arg) {
                Some(n) => {
                    let mut t: Vec<char> = Vec::new();
                    push_repeat(&mut t, ' ', n);
                    self.paragraph_indent = t;
                },
                None => {},
            }
        }
        assert(self@ =~= (ConverterModel {
            paragraph_indent: indent_for(old(self)@.paragraph_indent, arg@),
            ..old(self)@
        }));
    }

    /// Title, author, variables and paragraph indentation.
    fn meta_command(&mut self, cmd: &[char], rest: &[char], idx: usize) -> (r: CommandOutcome)
        requires
            idx < usize::MAX,
        ensures
            ({
                let step = meta_step(old(self)@, cmd@, rest@, idx as int);
                final(self)@ == step.state && outcome_is(r, step)
            }),
    {
        let none = CommandOutcome { next: idx + 1, read_file: None };
        if eq_str(cmd, "settitle") {
            self.title = copy_range(rest, 0, rest.len());
        } else if eq_str(cmd, "author") {
            self.author = copy_range(rest, 0, rest.len());
        } else if eq_str(cmd, "subtitle") {
            self.subtitle = copy_range(rest, 0, rest.len());
        } else if eq_str(cmd, "set") {
            let k = span_from(rest, 0, CharClass::NonSpace);
            assert(rest@.skip(0) =~= rest@);
            let key = copy_range(rest, 0, k);
            let value = if k < rest.len() {
                let tail = copy_range(rest, k + 1, rest.len());
                assert(tail@ =~= rest@.skip(k + 1int));
                trim_exec(tail.as_slice())
            } else {
                Vec::new()
            };
            assert(key@ =~= rest@.take(k as int));
            self.variables.insert(key, value);
        } else if eq_str(cmd, "clear") {
            let key = first_word_exec(rest);
            self.variables.remove(key.as_slice());
        } else if eq_str(cmd, "value") {
            let a = strip_exec(rest, CharClass::Is('{'));
            let key = strip_exec(a.as_slice(), CharClass::Is('}'));
            match self.variables.get(key.as_slice()) {
                Some(v) => {
                    self.append_text(v.as_slice());
                },
                None => {},
            }
        } else {
            self.set_paragraph_indent(rest);
        }
        assert(self@ =~= meta_step(old(self)@, cmd@, rest@, idx as int).state);
        none
    }

    /// Title page lines `from..to`.
    fn title_page_lines(&mut self, lines: &[Vec<char>], from: usize, to: usize)
        requires
            from <= to,
            to <= lines@.len() || to == from,
        ensures
            final(self)@ == title_page(old(self)@, views(lines@), from as int, to as int),
    {
        let ghost st0 = self@;
        let ghost ls = views(lines@);
        let mut j = from;
        while j < to
            invariant
                from <= j <= to,
                to <= lines@.len() || to == from,
                ls == views(lines@),
                self@ == title_page(st0, ls, from as int, j as int),
            decreases to - j,
        {
            let l = lines[j].as_slice();
            assert(ls[j as int] == l@);
            proof {
                reveal_strlit("@title");
                reveal_strlit("@author");
                reveal_strlit("@subtitle");
            }
            if starts_with_str(l, "@title") {
                let t = copy_range(l, 6, l.len());
                assert(t@ =~= l@.skip(6));
                self.title = trim_exec(t.as_slice());
            } else if starts_with_str(l, "@author") {
                let t = copy_range(l, 7, l.len());
                assert(t@ =~= l@.skip(7));
                self.author = trim_exec(t.as_slice());
            } else if starts_with_str(l, "@subtitle") {
                let t = copy_range(l, 9, l.len());
                assert(t@ =~= l@.skip(9));
                self.subtitle = trim_exec(t.as_slice());
            }
            assert(self@ =~= title_page(st0, ls, from as int, j + 1int));
            j = j + 1;
        }
    }

    /// Environments that span several lines, up to their `@end` line.
    fn block_command(&mut self, cmd: &[char], lines: &[Vec<char>], idx: usize) -> (r:
        CommandOutcome)
        requires
            idx + 1 < usize::MAX,
            lines@.len() < usize::MAX,
        ensures
            ({
                let step = block_step(old(self)@, cmd@, views(lines@), idx as int);
                final(self)@ == step.state && outcome_is(r, step)
            }),
    {
        let from = idx + 1;
        let end = find_block_end(lines, from, cmd);
        proof {
            crate::model::lemma_block_end_at_least(views(lines@), from as int, cmd@);
        }
        let next = end + 1;
        if is_example_like_exec(cmd) || is_quotation_like_exec(cmd) {
            let prefix = if is_example_like_exec(cmd) {
                "     "
            } else {
                "  "
            };
            let body = indented_exec(lines, from, end, prefix);
            let mut t: Vec<char> = Vec::new();
            push_str(&mut t, "\n");
            push_all(&mut t, body.as_slice());
            push_str(&mut t, "\n");
            self.append_text(t.as_slice());
        } else if is_list_like_exec(cmd) {
            let numbered = eq_str(cmd, "enumerate");
            let body = list_body_exec(lines, from, end, numbered);
            let mut t: Vec<char> = Vec::new();
            push_str(&mut t, "\n");
            push_all(&mut t, body.as_slice());
            push_str(&mut t, "\n");
            self.append_text(t.as_slice());
        } else if is_table_like_exec(cmd) {
            let body = table_body_exec(lines, from, end);
            let mut t: Vec<char> = Vec::new();
            push_str(&mut t, "\n");
            push_all(&mut t, body.as_slice());
            push_str(&mut t, "\n");
            self.append_text(t.as_slice());
        } else if eq_str(cmd, "multitable") {
            let body = multitable_body_exec(lines, from, end);
            self.append_text(body.as_slice());
        } else {
            self.title_page_lines(lines, from, end);
        }
        CommandOutcome { next: next, read_file: None }
    }

    /// Menus, `@end`, conditionals, index entries and other directives.
    fn control_command(&mut self, cmd: &[char], rest: &[char], lines: &[Vec<char>], idx: usize)
        -> (r: CommandOutcome)
        requires
            idx + 1 < usize::MAX,
            lines@.len() < usize::MAX,
            old(self)@.in_ignore < usize::MAX,
        ensures
            ({
                let step = control_step(old(self)@, cmd@, rest@, views(lines@), idx as int);
                final(self)@ == step.state && outcome_is(r, step)
            }),
    {
        let none = CommandOutcome { next: idx + 1, read_file: None };
        if eq_str(cmd, "menu") {
            self.in_menu = true;
            self.append_str("\n* Menu:\n\n");
            none
        } else if eq_str(cmd, "end") && starts_with_str(rest, "menu") {
            self.in_menu = false;
            self.append_str("\n");
            none
        } else if eq_str(cmd, "end") {
            none
        } else if is_ignored_env_exec(cmd) {
            self.in_ignore = self.in_ignore + 1;
            none
        } else if is_info_conditional_exec(cmd) {
            none
        } else if eq_str(cmd, "ifset") {
            let var = first_word_exec(rest);
            if !self.variables.contains_key(var.as_slice()) {
                self.in_ignore = self.in_ignore + 1;
            }
            none
        } else if eq_str(cmd, "ifclear") {
            let var = first_word_exec(rest);
            if self.variables.contains_key(var.as_slice()) {
                self.in_ignore = self.in_ignore + 1;
            }
            none
        } else if is_index_command_exec(cmd) {
            none
        } else if is_skipped_env_exec(cmd) {
            let end = find_block_end(lines, idx + 1, cmd);
            proof {
                crate::model::lemma_block_end_at_least(views(lines@), idx + 1, cmd@);
            }
            CommandOutcome { next: end + 1, read_file: None }
        } else {
            none
        }
    }

    /// Inside an ignored region: follows the nesting of ignored environments.
    fn ignored_command(&mut self, cmd: &[char], rest: &[char], idx: usize) -> (r: CommandOutcome)
        requires
            idx < usize::MAX,
            0 < old(self)@.in_ignore < usize::MAX,
        ensures
            ({
                let step = ignored_step(old(self)@, cmd@, rest@, idx as int);
                final(self)@ == step.state && outcome_is(r, step)
            }),
    {
        if eq_str(cmd, "end") {
            let end_what = first_word_exec(rest);
            if is_ignore_block(end_what.as_slice()) {
                self.in_ignore = self.in_ignore - 1;
            }
        } else if is_ignore_block(cmd) {
            self.in_ignore = self.in_ignore + 1;
        }
        CommandOutcome { next: idx + 1, read_file: None }
    }

    /// Carries out the command line `line` (line `idx` of `lines`): inside
    /// an ignored region it only follows nesting; otherwise the command's
    /// name decides, and an unknown command has its line expanded as text.
    pub fn process_command(&mut self, line: &[char], lines: &[Vec<char>], idx: usize) -> (r:
        CommandOutcome)
        requires
            line@.len() >= 1,
            line@[0] <= '\x7f',
            4 * line@.len() <= usize::MAX,
            idx + 1 < usize::MAX,
            lines@.len() < usize::MAX,
            old(self)@.in_ignore < usize::MAX,
        ensures
            ({
                let step = command_step(old(self)@, line@, views(lines@), idx as int);
                final(self)@ == step.state && outcome_is(r, step)
            }),
    {
        let cmd = extract_command(line);
        proof {
            crate::text::lemma_span_bounds(line@.skip(1), CharClass::LineCommand);
        }
        let tail = copy_range(line, 1 + cmd.len(), line.len());
        assert(tail@ =~= line@.skip(1int + cmd@.len()));
        let rest = trim_exec(tail.as_slice());
        proof {
            crate::text::lemma_strip_len(tail@, CharClass::Space);
        }
        let c = cmd.as_slice();
        let rs = rest.as_slice();
        if self.in_ignore > 0 {
            self.ignored_command(c, rs, idx)
        } else if eq_str(c, "node") || eq_str(c, "top") || is_chapter_like_exec(c)
            || is_section_like_exec(c) || is_subsection_like_exec(c)
            || is_subsubsection_like_exec(c) || is_file_command(c) {
            self.structure_command(c, rs, idx)
        } else if eq_str(c, "settitle") || eq_str(c, "author") || eq_str(c, "subtitle") || eq_str(
            c,
            "set",
        ) || eq_str(c, "clear") || eq_str(c, "value") || eq_str(c, "paragraphindent") {
            self.meta_command(c, rs, idx)
        } else if is_example_like_exec(c) || is_quotation_like_exec(c) || is_list_like_exec(c)
            || is_table_like_exec(c) || eq_str(c, "multitable") || eq_str(c, "titlepage") {
            self.block_command(c, lines, idx)
        } else if eq_str(c, "menu") || eq_str(c, "end") || is_ignored_env_exec(c)
            || is_info_conditional_exec(c) || eq_str(c, "ifset") || eq_str(c, "ifclear")
            || is_index_command_exec(c) || is_directive_exec(c) {
            self.control_command(c, rs, lines, idx)
        } else {
            let mut t = expand_inline(line);
            push_str(&mut t, "\n");
            self.append_text(t.as_slice());
            CommandOutcome { next: idx + 1, read_file: None }
        }
    }
}

} // verus!
