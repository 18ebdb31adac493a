use lib::converter::{extract_command, Converter};
use lib::model::OutputFormat;
use lib::names::is_ignore_block;

fn cs(s: &str) -> Vec<char> {
    s.chars().collect()
}

fn st(v: &[char]) -> String {
    v.iter().collect()
}

fn convert(input: &str) -> Converter {
    let mut c = Converter::new();
    let run = c.process_text(input);
    assert!(run.is_done());
    c
}

fn content(c: &Converter, i: usize) -> String {
    st(&c.nodes[i].content)
}

fn opt(v: &Option<Vec<char>>) -> Option<String> {
    v.as_ref().map(|x| st(x))
}

#[test]
fn new_converter_has_defaults() {
    let c = Converter::new();
    assert_eq!(c.input_dirs, vec![cs(".")]);
    assert!(c.nodes.is_empty());
    assert!(c.current_node.is_none());
    assert!(c.text.is_empty());
    assert_eq!(st(&c.paragraph_indent), "  ");
    assert_eq!(c.fill_column, 72);
    assert_eq!(c.split_size, 300000);
    assert!(!c.no_split);
    assert!(!c.no_headers);
    assert!(!c.in_menu);
    assert_eq!(c.in_ignore, 0);
    assert_eq!(c.output_format, OutputFormat::Info);
}

#[test]
fn nodes_and_headings() {
    let c = convert(
        "@node Top, Chapter One, (dir), (dir)\n@top My Manual\nWelcome.\n@node Chapter One,,Top,Top\n@chapter Über\nText here.\n",
    );
    assert_eq!(c.nodes.len(), 2);
    assert_eq!(st(&c.nodes[0].name), "Top");
    assert_eq!(opt(&c.nodes[0].next), Some("Chapter One".to_string()));
    assert_eq!(opt(&c.nodes[0].prev), Some("(dir)".to_string()));
    assert_eq!(opt(&c.nodes[0].up), Some("(dir)".to_string()));
    assert!(c.nodes[0].is_top);
    assert_eq!(content(&c, 0), "My Manual\n=========\n\nWelcome.\n");
    assert_eq!(st(&c.nodes[1].name), "Chapter One");
    assert_eq!(opt(&c.nodes[1].next), None);
    assert_eq!(opt(&c.nodes[1].prev), Some("Top".to_string()));
    assert_eq!(opt(&c.nodes[1].up), Some("Top".to_string()));
    assert!(!c.nodes[1].is_top);
    // The underline is as long as the title in UTF-8 bytes.
    assert_eq!(content(&c, 1), "\nÜber\n*****\n\nText here.\n");
    assert_eq!(opt(&c.current_node), Some("Chapter One".to_string()));
    assert!(c.text.is_empty());
}

#[test]
fn top_node_name_ignores_case() {
    let c = convert("@node TOP\n@node top,x\n@node Topic\n");
    assert!(c.nodes[0].is_top);
    assert!(c.nodes[1].is_top);
    assert!(!c.nodes[2].is_top);
    assert_eq!(opt(&c.nodes[1].next), Some("x".to_string()));
}

#[test]
fn node_fields_after_the_fourth_keep_commas() {
    let c = convert("@node  A , B ,C, D, E\n");
    assert_eq!(st(&c.nodes[0].name), "A");
    assert_eq!(opt(&c.nodes[0].next), Some("B".to_string()));
    assert_eq!(opt(&c.nodes[0].prev), Some("C".to_string()));
    assert_eq!(opt(&c.nodes[0].up), Some("D, E".to_string()));
}

#[test]
fn section_levels() {
    let c = convert("@node N\n@section Sec\n@subsection Sub\n@subsubsection Deep\n@unnumbered U\n@appendixsec\n");
    assert_eq!(
        content(&c, 0),
        "\nSec\n===\n\n\nSub\n---\n\n\nDeep\n\n\nU\n*\n\n\n\n=\n\n"
    );
}

#[test]
fn text_before_any_node_is_dropped() {
    let c = convert("Preamble text\n@node A\nBody\n");
    assert_eq!(content(&c, 0), "Body\n");
}

#[test]
fn text_of_a_repeated_node_name_goes_to_the_first() {
    let c = convert("@node A\none\n@node A\ntwo\n");
    assert_eq!(content(&c, 0), "one\ntwo\n");
    assert_eq!(content(&c, 1), "");
}

#[test]
fn variables_set_value_clear() {
    let c = convert("@node A\n@set version 1.2 beta \n@value{version}\n@clear version\n@value{version}\n@set empty\n@value{empty}|\n");
    assert_eq!(content(&c, 0), "1.2 beta");
}

#[test]
fn conditionals_on_variables() {
    let c = convert(
        "@node A\n@set flag\n@ifset flag\nshown\n@end ifset\n@ifclear flag\nhidden\n@end ifclear\n@ifset other\nhidden2\n@end ifset\n@ifclear other\nshown2\n@end ifclear\n",
    );
    assert_eq!(content(&c, 0), "shown\nshown2\n");
    assert_eq!(c.in_ignore, 0);
}

#[test]
fn ignored_regions_nest() {
    let c = convert("@node A\n@ignore\n@iftex\ninner\n@end iftex\nstill @code{x}\n@chapter Hidden\n@end ignore\nafter\n");
    assert_eq!(content(&c, 0), "after\n");
    assert_eq!(c.in_ignore, 0);
}

#[test]
fn info_conditionals_are_kept() {
    let c = convert("@node A\n@ifinfo\nfor info\n@end ifinfo\n@ifnottex\nnot tex\n@end ifnottex\n@ifhtml\nhtml only\n@end ifhtml\n");
    assert_eq!(content(&c, 0), "for info\nnot tex\n");
}

#[test]
fn example_lines_are_indented() {
    let c = convert("@node A\n@example\nint x = 1;\n@code{y}\n  @end example  \nafter\n");
    assert_eq!(content(&c, 0), "\n     int x = 1;\n     `y'\n\nafter\n");
}

#[test]
fn verbatim_and_lisp_like_example() {
    let c = convert("@node A\n@lisp\n(car x)\n@end lisp\n");
    assert_eq!(content(&c, 0), "\n     (car x)\n\n");
}

#[test]
fn unclosed_example_runs_to_the_end() {
    let c = convert("@node A\n@example\nline\n");
    assert_eq!(content(&c, 0), "\n     line\n\n");
}

#[test]
fn quotation_lines_are_indented_by_two() {
    let c = convert("@node A\n@quotation\nWise words.\n@end quotation\n");
    assert_eq!(content(&c, 0), "\n  Wise words.\n\n");
}

#[test]
fn itemize_lists() {
    let c = convert("@node A\n@itemize @bullet\n@item First\n\ncontinued\n@item\n@end itemize\n");
    assert_eq!(content(&c, 0), "\n   * First\n\n     continued\n   * \n\n");
}

#[test]
fn enumerate_lists_are_numbered() {
    let c = convert("@node A\n@enumerate\n@item one\nmore\n@item two @code{z}\n@end enumerate\n");
    assert_eq!(content(&c, 0), "\n  1. one\n     more\n  2. two `z'\n\n");
}

#[test]
fn tables() {
    let c = convert("@node A\n@table @code\n@item foo\nDescribes foo.\n@itemx bar\n\n@end table\n");
    assert_eq!(content(&c, 0), "\nfoo\n     Describes foo.\nbar\n\n\n");
}

#[test]
fn multitables() {
    let c = convert("@node A\n@multitable @columnfractions .5 .5\n@headitem H1 @tab H2\n@item a @tab b\nstray\n@tab c\n@end multitable\nafter\n");
    assert_eq!(content(&c, 0), "a \t b\nc\nafter\n");
}

#[test]
fn menus() {
    let c = convert("@node A\n@menu\n* Intro::\n@end menu\n");
    assert_eq!(content(&c, 0), "\n* Menu:\n\n* Intro::\n\n");
    assert!(!c.in_menu);
    let c = convert("@node A\n@menu\n* Intro::\n");
    assert!(c.in_menu);
}

#[test]
fn title_page_sets_metadata() {
    let c = convert("@node A\n@titlepage\n@title The Title\n@subtitle Sub\n@author Me\nignored text\n@end titlepage\nbody\n");
    assert_eq!(st(&c.title), "The Title");
    assert_eq!(st(&c.subtitle), "Sub");
    assert_eq!(st(&c.author), "Me");
    assert_eq!(content(&c, 0), "body\n");
}

#[test]
fn metadata_commands() {
    let c = convert("@settitle  A Manual \n@author Jane Doe\n@subtitle Second edition\n");
    assert_eq!(st(&c.title), "A Manual");
    assert_eq!(st(&c.author), "Jane Doe");
    assert_eq!(st(&c.subtitle), "Second edition");
}

#[test]
fn paragraph_indent() {
    let c = convert("@paragraphindent none\n");
    assert_eq!(st(&c.paragraph_indent), "");
    let c = convert("@paragraphindent 3\n");
    assert_eq!(st(&c.paragraph_indent), "   ");
    let c = convert("@paragraphindent +2\n");
    assert_eq!(st(&c.paragraph_indent), "  ");
    let c = convert("@paragraphindent 0\n");
    assert_eq!(st(&c.paragraph_indent), "");
    let c = convert("@paragraphindent asis\n");
    assert_eq!(st(&c.paragraph_indent), "  ");
}

#[test]
fn skipped_environments() {
    let c = convert(
        "@node A\n@copying\nsecret\n@end copying\n@direntry\n* x\n@end direntry\n@macro foo\nbody\n@end macro\n@tex\n$x$\n@end tex\nvisible\n",
    );
    assert_eq!(content(&c, 0), "visible\n");
}

#[test]
fn directives_and_index_entries_produce_nothing() {
    let c = convert("@node A\n@setfilename a.info\n@cindex topic\n@printindex cp\n@c comment line\n@comment another\n@noindent\n@contents\ntext\n");
    assert_eq!(content(&c, 0), "text\n");
}

#[test]
fn unknown_commands_are_expanded_as_text() {
    let c = convert("@node A\n@foo @code{bar}\n@emph{word} rest\n");
    assert_eq!(content(&c, 0), "@foo `bar'\nword rest\n");
}

#[test]
fn crlf_lines() {
    let c = convert("@node A\r\nline\r\n\r\n");
    assert_eq!(st(&c.nodes[0].name), "A");
    assert_eq!(content(&c, 0), "line\n\n");
}

#[test]
fn file_inclusion_pauses_and_resumes() {
    let mut c = Converter::new();
    let input = format!("@node A\nbefore\n@{}clude  other.texi \nafter\n", "in");
    let run = c.process_text(&input);
    assert!(!run.is_done());
    assert_eq!(opt(&run.read_file), Some("other.texi".to_string()));
    assert_eq!(run.resume, 3);
    let inner = c.process_text("inside\n");
    assert!(inner.is_done());
    let run = c.resume_text(run);
    assert!(run.is_done());
    assert_eq!(content(&c, 0), "before\ninside\nafter\n");
}

#[test]
fn file_inclusion_inside_ignored_region_is_skipped() {
    let input = format!("@node A\n@ignore\n@{}clude other.texi\n@end ignore\nx\n", "in");
    let c = convert(&input);
    assert_eq!(content(&c, 0), "x\n");
}

#[test]
fn unreadable_file_changes_nothing() {
    let mut c = Converter::new();
    assert!(c.process_file(None).is_none());
    assert!(c.nodes.is_empty());
    let run = c.process_file(Some("@node B\nx\n")).unwrap();
    assert!(run.is_done());
    assert_eq!(content(&c, 0), "x\n");
}

#[test]
fn resuming_a_finished_text_changes_nothing() {
    let mut c = Converter::new();
    let run = c.process_text("@node A\nx\n");
    let run = c.resume_text(run);
    assert!(run.is_done());
    assert_eq!(c.nodes.len(), 1);
    assert_eq!(content(&c, 0), "x\n");
}

#[test]
fn process_command_reports_the_next_line() {
    let mut c = Converter::new();
    let lines: Vec<Vec<char>> = vec![cs("@example"), cs("a"), cs("@end example"), cs("b")];
    let out = c.process_command(&lines[0], &lines, 0);
    assert_eq!(out.next, 3);
    assert!(out.read_file.is_none());
    assert_eq!(st(&c.text), "\n     a\n\n");
    let out = c.process_command(&cs("@chapter X"), &lines, 3);
    assert_eq!(out.next, 4);
    // Past the last line, an environment ends at once.
    let out = c.process_command(&cs("@example"), &lines, 3);
    assert_eq!(out.next, 5);
}

#[test]
fn commands_inside_ignored_regions_only_count_nesting() {
    let mut c = Converter::new();
    c.in_ignore = 2;
    let lines: Vec<Vec<char>> = vec![];
    let out = c.process_command(&cs("@end   iftex more"), &lines, 7);
    assert_eq!(out.next, 8);
    assert_eq!(c.in_ignore, 1);
    c.process_command(&cs("@ifset x"), &lines, 8);
    assert_eq!(c.in_ignore, 2);
    c.process_command(&cs("@chapter nothing"), &lines, 9);
    c.process_command(&cs("@end example"), &lines, 9);
    assert_eq!(c.in_ignore, 2);
    assert!(c.text.is_empty());
}

#[test]
fn append_and_flush() {
    let mut c = Converter::new();
    c.append_text(&cs("lost"));
    c.flush_text();
    assert!(c.text.is_empty());
    let mut c = convert("@node A\n");
    c.append_text(&cs("abc"));
    c.append_text(&cs("def"));
    assert_eq!(st(&c.text), "abcdef");
    c.flush_text();
    c.flush_text();
    assert_eq!(content(&c, 0), "abcdef");
    assert!(c.text.is_empty());
}

#[test]
fn command_names() {
    assert_eq!(st(&extract_command(&cs("@node Top"))), "node");
    assert_eq!(st(&extract_command(&cs("@end-of_x y"))), "end-of_x");
    assert_eq!(st(&extract_command(&cs("@code{x}"))), "code");
    assert_eq!(st(&extract_command(&cs("@"))), "");
    assert_eq!(st(&extract_command(&cs("@{"))), "");
    assert_eq!(st(&extract_command(&cs("@Ärger"))), "");
}

#[test]
fn ignore_block_names() {
    for n in ["ignore", "ifhtml", "ifxml", "ifdocbook", "iflatex", "iftex", "ifplaintext", "ifnotinfo", "ifset", "ifclear"] {
        assert!(is_ignore_block(&cs(n)), "{}", n);
    }
    for n in ["ifinfo", "ifnottex", "example", "", "Ignore"] {
        assert!(!is_ignore_block(&cs(n)), "{}", n);
    }
}

#[test]
fn set_paragraph_indent_directly() {
    let mut c = Converter::new();
    c.set_paragraph_indent(&cs("4"));
    assert_eq!(st(&c.paragraph_indent), "    ");
    c.set_paragraph_indent(&cs("99999999999999999999999"));
    assert_eq!(st(&c.paragraph_indent), "    ");
}

#[test]
fn opened_ignored_regions_close_at_their_end_line() {
    for name in ["ignore", "ifhtml", "iftex", "ifnotinfo"] {
        let mut c = Converter::new();
        let lines: Vec<Vec<char>> = vec![];
        let line = cs(&format!("@{} extra", name));
        c.process_command(&line, &lines, 0);
        assert_eq!(c.in_ignore, 1);
        let cmd = extract_command(&line);
        assert!(is_ignore_block(&cmd));
        let end = cs(&format!("@end {}", st(&cmd)));
        c.process_command(&end, &lines, 1);
        assert_eq!(c.in_ignore, 0);
    }
}

#[test]
fn node_contents_only_grow() {
    let mut c = convert("@node A\none\n@node B\n");
    let before: Vec<String> = c.nodes.iter().map(|n| st(&n.content)).collect();
    let lines: Vec<Vec<char>> = vec![];
    c.append_text(&cs("more"));
    c.process_command(&cs("@node C, A"), &lines, 0);
    assert_eq!(c.nodes.len(), 3);
    for (i, b) in before.iter().enumerate() {
        assert!(st(&c.nodes[i].content).starts_with(b.as_str()));
    }
    assert_eq!(content(&c, 1), "more");
    assert_eq!(opt(&c.current_node), Some("C".to_string()));
}
