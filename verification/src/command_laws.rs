//! What command lines do, stated name by name over `command_step`.

use vstd::prelude::*;

use crate::inline::expand;
use crate::model::{
    block_end, command_name, command_rest, command_step, file_command, flushed, indented,
    item_count, list_body, multitable_body, table_body, title_page, with_text, ConverterModel,
    NodeModel,
};
use crate::text::{
    byte_len, decimal, eq_ignore_ascii_case, first_word, parse_usize, repeat, split_n,
    starts_with, trim, trim_char,
};

verus! {

/// A row of `mark` as long as `t` in UTF-8 bytes, and at least one.
pub open spec fn rule(t: Seq<char>, mark: char) -> Seq<char> {
    repeat(mark, if byte_len(t) > 1 { byte_len(t) } else { 1nat })
}

/// `@top T`: the pending text goes to its node, then `T` is added, on a
/// line of its own, underlined with `=`.
pub proof fn law_top_heading(st: ConverterModel, line: Seq<char>, lines: Seq<Seq<char>>, idx: int)
    requires
        st.in_ignore == 0,
        ({
            let cmd = command_name(line);
            cmd == "top"@
        }),
    ensures
        ({
            let cmd = command_name(line);
            let t = command_rest(line);
            let step = command_step(st, line, lines, idx);
            &&& step.state == with_text(flushed(st), t + "\n"@ + rule(t, '=') + "\n\n"@)
            &&& step.next == idx + 1
            &&& step.read_file is None
        }),
{
    reveal_strlit("afivepaper");
    reveal_strlit("afourpaper");
    reveal_strlit("alias");
    reveal_strlit("allowcodebreakable");
    reveal_strlit("anchor");
    reveal_strlit("appendix");
    reveal_strlit("appendixsec");
    reveal_strlit("appendixsubsec");
    reveal_strlit("appendixsubsubsec");
    reveal_strlit("author");
    reveal_strlit("c");
    reveal_strlit("chapter");
    reveal_strlit("cindex");
    reveal_strlit("clear");
    reveal_strlit("columnfractions");
    reveal_strlit("comment");
    reveal_strlit("contents");
    reveal_strlit("copying");
    reveal_strlit("cropmarks");
    reveal_strlit("defcodeindex");
    reveal_strlit("deffn");
    reveal_strlit("defindex");
    reveal_strlit("definfoenclose");
    reveal_strlit("defmac");
    reveal_strlit("defopt");
    reveal_strlit("defspec");
    reveal_strlit("deftp");
    reveal_strlit("deftypefn");
    reveal_strlit("deftypefun");
    reveal_strlit("deftypevar");
    reveal_strlit("deftypevr");
    reveal_strlit("defun");
    reveal_strlit("defvar");
    reveal_strlit("defvr");
    reveal_strlit("detailmenu");
    reveal_strlit("dircategory");
    reveal_strlit("direntry");
    reveal_strlit("display");
    reveal_strlit("docbook");
    reveal_strlit("documentencoding");
    reveal_strlit("documentlanguage");
    reveal_strlit("end");
    reveal_strlit("enumerate");
    reveal_strlit("evenfoooting");
    reveal_strlit("evenheading");
    reveal_strlit("everyfoooting");
    reveal_strlit("everyheading");
    reveal_strlit("example");
    reveal_strlit("exampleindent");
    reveal_strlit("exdent");
    reveal_strlit("finalout");
    reveal_strlit("findex");
    reveal_strlit("firstparagraphindent");
    reveal_strlit("format");
    reveal_strlit("frenchspacing");
    reveal_strlit("ftable");
    reveal_strlit("group");
    reveal_strlit("headings");
    reveal_strlit("headitem");
    reveal_strlit("html");
    reveal_strlit("ifclear");
    reveal_strlit("ifdocbook");
    reveal_strlit("ifhtml");
    reveal_strlit("ifinfo");
    reveal_strlit("iflatex");
    reveal_strlit("ifnotdocbook");
    reveal_strlit("ifnothtml");
    reveal_strlit("ifnotinfo");
    reveal_strlit("ifnotlatex");
    reveal_strlit("ifnotplaintext");
    reveal_strlit("ifnottex");
    reveal_strlit("ifnotxml");
    reveal_strlit("ifplaintext");
    reveal_strlit("ifset");
    reveal_strlit("iftex");
    reveal_strlit("ifxml");
    reveal_strlit("ignore");
    reveal_strlit("indent");
    reveal_strlit("insertcopying");
    reveal_strlit("itemize");
    reveal_strlit("kbdinputstyle");
    reveal_strlit("kindex");
    reveal_strlit("lisp");
    reveal_strlit("macro");
    reveal_strlit("menu");
    reveal_strlit("multitable");
    reveal_strlit("need");
    reveal_strlit("node");
    reveal_strlit("noindent");
    reveal_strlit("oddfoooting");
    reveal_strlit("oddheading");
    reveal_strlit("page");
    reveal_strlit("pagesizes");
    reveal_strlit("paragraphindent");
    reveal_strlit("pindex");
    reveal_strlit("printindex");
    reveal_strlit("quotation");
    reveal_strlit("rmacro");
    reveal_strlit("section");
    reveal_strlit("set");
    reveal_strlit("setchapternewpage");
    reveal_strlit("setfilename");
    reveal_strlit("settitle");
    reveal_strlit("shortcontents");
    reveal_strlit("smallbook");
    reveal_strlit("smalldisplay");
    reveal_strlit("smallexample");
    reveal_strlit("smallformat");
    reveal_strlit("smalllisp");
    reveal_strlit("smallquotation");
    reveal_strlit("sp");
    reveal_strlit("subsection");
    reveal_strlit("subsubsection");
    reveal_strlit("subtitle");
    reveal_strlit("summarycontents");
    reveal_strlit("syncodeindex");
    reveal_strlit("synindex");
    reveal_strlit("table");
    reveal_strlit("tex");
    reveal_strlit("tindex");
    reveal_strlit("titlepage");
    reveal_strlit("top");
    reveal_strlit("unnumbered");
    reveal_strlit("unnumberedsec");
    reveal_strlit("unnumberedsubsec");
    reveal_strlit("unnumberedsubsubsec");
    reveal_strlit("validatemenus");
    reveal_strlit("value");
    reveal_strlit("verbatim");
    reveal_strlit("vindex");
    reveal_strlit("vskip");
    reveal_strlit("vtable");
    reveal_strlit("xml");
    assert("top"@[0] != "end"@[0]);
    assert("top"@[0] != "set"@[0]);
    assert("top"@[1] != "tex"@[1]);
    assert("top"@[0] != "xml"@[0]);

}

/// `@chapter T`, `@unnumbered T` and `@appendix T`: the pending text goes to its node,
/// then an empty line and `T` underlined with `*` are added.
pub proof fn law_chapter_headings(st: ConverterModel, line: Seq<char>, lines: Seq<Seq<char>>, idx: int)
    requires
        st.in_ignore == 0,
        ({
            let cmd = command_name(line);
            cmd == "chapter"@ || cmd == "unnumbered"@ || cmd == "appendix"@
        }),
    ensures
        ({
            let cmd = command_name(line);
            let t = command_rest(line);
            let step = command_step(st, line, lines, idx);
            &&& step.state == with_text(flushed(st), "\n"@ + t + "\n"@ + rule(t, '*') + "\n\n"@)
            &&& step.next == idx + 1
            &&& step.read_file is None
        }),
{
    reveal_strlit("afivepaper");
    reveal_strlit("afourpaper");
    reveal_strlit("alias");
    reveal_strlit("allowcodebreakable");
    reveal_strlit("anchor");
    reveal_strlit("appendix");
    reveal_strlit("appendixsec");
    reveal_strlit("appendixsubsec");
    reveal_strlit("appendixsubsubsec");
    reveal_strlit("author");
    reveal_strlit("c");
    reveal_strlit("chapter");
    reveal_strlit("cindex");
    reveal_strlit("clear");
    reveal_strlit("columnfractions");
    reveal_strlit("comment");
    reveal_strlit("contents");
    reveal_strlit("copying");
    reveal_strlit("cropmarks");
    reveal_strlit("defcodeindex");
    reveal_strlit("deffn");
    reveal_strlit("defindex");
    reveal_strlit("definfoenclose");
    reveal_strlit("defmac");
    reveal_strlit("defopt");
    reveal_strlit("defspec");
    reveal_strlit("deftp");
    reveal_strlit("deftypefn");
    reveal_strlit("deftypefun");
    reveal_strlit("deftypevar");
    reveal_strlit("deftypevr");
    reveal_strlit("defun");
    reveal_strlit("defvar");
    reveal_strlit("defvr");
    reveal_strlit("detailmenu");
    reveal_strlit("dircategory");
    reveal_strlit("direntry");
    reveal_strlit("display");
    reveal_strlit("docbook");
    reveal_strlit("documentencoding");
    reveal_strlit("documentlanguage");
    reveal_strlit("end");
    reveal_strlit("enumerate");
    reveal_strlit("evenfoooting");
    reveal_strlit("evenheading");
    reveal_strlit("everyfoooting");
    reveal_strlit("everyheading");
    reveal_strlit("example");
    reveal_strlit("exampleindent");
    reveal_strlit("exdent");
    reveal_strlit("finalout");
    reveal_strlit("findex");
    reveal_strlit("firstparagraphindent");
    reveal_strlit("format");
    reveal_strlit("frenchspacing");
    reveal_strlit("ftable");
    reveal_strlit("group");
    reveal_strlit("headings");
    reveal_strlit("headitem");
    reveal_strlit("html");
    reveal_strlit("ifclear");
    reveal_strlit("ifdocbook");
    reveal_strlit("ifhtml");
    reveal_strlit("ifinfo");
    reveal_strlit("iflatex");
    reveal_strlit("ifnotdocbook");
    reveal_strlit("ifnothtml");
    reveal_strlit("ifnotinfo");
    reveal_strlit("ifnotlatex");
    reveal_strlit("ifnotplaintext");
    reveal_strlit("ifnottex");
    reveal_strlit("ifnotxml");
    reveal_strlit("ifplaintext");
    reveal_strlit("ifset");
    reveal_strlit("iftex");
    reveal_strlit("ifxml");
    reveal_strlit("ignore");
    reveal_strlit("indent");
    reveal_strlit("insertcopying");
    reveal_strlit("itemize");
    reveal_strlit("kbdinputstyle");
    reveal_strlit("kindex");
    reveal_strlit("lisp");
    reveal_strlit("macro");
    reveal_strlit("menu");
    reveal_strlit("multitable");
    reveal_strlit("need");
    reveal_strlit("node");
    reveal_strlit("noindent");
    reveal_strlit("oddfoooting");
    reveal_strlit("oddheading");
    reveal_strlit("page");
    reveal_strlit("pagesizes");
    reveal_strlit("paragraphindent");
    reveal_strlit("pindex");
    reveal_strlit("printindex");
    reveal_strlit("quotation");
    reveal_strlit("rmacro");
    reveal_strlit("section");
    reveal_strlit("set");
    reveal_strlit("setchapternewpage");
    reveal_strlit("setfilename");
    reveal_strlit("settitle");
    reveal_strlit("shortcontents");
    reveal_strlit("smallbook");
    reveal_strlit("smalldisplay");
    reveal_strlit("smallexample");
    reveal_strlit("smallformat");
    reveal_strlit("smalllisp");
    reveal_strlit("smallquotation");
    reveal_strlit("sp");
    reveal_strlit("subsection");
    reveal_strlit("subsubsection");
    reveal_strlit("subtitle");
    reveal_strlit("summarycontents");
    reveal_strlit("syncodeindex");
    reveal_strlit("synindex");
    reveal_strlit("table");
    reveal_strlit("tex");
    reveal_strlit("tindex");
    reveal_strlit("titlepage");
    reveal_strlit("top");
    reveal_strlit("unnumbered");
    reveal_strlit("unnumberedsec");
    reveal_strlit("unnumberedsubsec");
    reveal_strlit("unnumberedsubsubsec");
    reveal_strlit("validatemenus");
    reveal_strlit("value");
    reveal_strlit("verbatim");
    reveal_strlit("vindex");
    reveal_strlit("vskip");
    reveal_strlit("vtable");
    reveal_strlit("xml");
    assert("chapter"@[1] != "comment"@[1]);
    assert("chapter"@[1] != "copying"@[1]);
    assert("chapter"@[0] != "defspec"@[0]);
    assert("chapter"@[0] != "display"@[0]);
    assert("chapter"@[0] != "docbook"@[0]);
    assert("chapter"@[0] != "example"@[0]);
    assert("chapter"@[0] != "ifclear"@[0]);
    assert("chapter"@[0] != "iflatex"@[0]);
    assert("chapter"@[0] != "itemize"@[0]);
    assert("chapter"@[0] != "section"@[0]);
    assert("chapter"@[0] != file_command()[0]);
    assert("unnumbered"@[0] != "afivepaper"@[0]);
    assert("unnumbered"@[0] != "afourpaper"@[0]);
    assert("unnumbered"@[0] != "deftypefun"@[0]);
    assert("unnumbered"@[0] != "deftypevar"@[0]);
    assert("unnumbered"@[0] != "detailmenu"@[0]);
    assert("unnumbered"@[0] != "ifnotlatex"@[0]);
    assert("unnumbered"@[0] != "multitable"@[0]);
    assert("unnumbered"@[0] != "oddheading"@[0]);
    assert("unnumbered"@[0] != "printindex"@[0]);
    assert("unnumbered"@[0] != "subsection"@[0]);
    assert("appendix"@[0] != "contents"@[0]);
    assert("appendix"@[0] != "defindex"@[0]);
    assert("appendix"@[0] != "direntry"@[0]);
    assert("appendix"@[0] != "finalout"@[0]);
    assert("appendix"@[0] != "headings"@[0]);
    assert("appendix"@[0] != "headitem"@[0]);
    assert("appendix"@[0] != "ifnottex"@[0]);
    assert("appendix"@[0] != "ifnotxml"@[0]);
    assert("appendix"@[0] != "noindent"@[0]);
    assert("appendix"@[0] != "settitle"@[0]);
    assert("appendix"@[0] != "subtitle"@[0]);
    assert("appendix"@[0] != "synindex"@[0]);
    assert("appendix"@[0] != "verbatim"@[0]);

}

/// `@section T`, `@unnumberedsec T` and `@appendixsec T`: the pending text goes to its node,
/// then an empty line and `T` underlined with `=` are added.
pub proof fn law_section_headings(st: ConverterModel, line: Seq<char>, lines: Seq<Seq<char>>, idx: int)
    requires
        st.in_ignore == 0,
        ({
            let cmd = command_name(line);
            cmd == "section"@ || cmd == "unnumberedsec"@ || cmd == "appendixsec"@
        }),
    ensures
        ({
            let cmd = command_name(line);
            let t = command_rest(line);
            let step = command_step(st, line, lines, idx);
            &&& step.state == with_text(flushed(st), "\n"@ + t + "\n"@ + rule(t, '=') + "\n\n"@)
            &&& step.next == idx + 1
            &&& step.read_file is None
        }),
{
    reveal_strlit("afivepaper");
    reveal_strlit("afourpaper");
    reveal_strlit("alias");
    reveal_strlit("allowcodebreakable");
    reveal_strlit("anchor");
    reveal_strlit("appendix");
    reveal_strlit("appendixsec");
    reveal_strlit("appendixsubsec");
    reveal_strlit("appendixsubsubsec");
    reveal_strlit("author");
    reveal_strlit("c");
    reveal_strlit("chapter");
    reveal_strlit("cindex");
    reveal_strlit("clear");
    reveal_strlit("columnfractions");
    reveal_strlit("comment");
    reveal_strlit("contents");
    reveal_strlit("copying");
    reveal_strlit("cropmarks");
    reveal_strlit("defcodeindex");
    reveal_strlit("deffn");
    reveal_strlit("defindex");
    reveal_strlit("definfoenclose");
    reveal_strlit("defmac");
    reveal_strlit("defopt");
    reveal_strlit("defspec");
    reveal_strlit("deftp");
    reveal_strlit("deftypefn");
    reveal_strlit("deftypefun");
    reveal_strlit("deftypevar");
    reveal_strlit("deftypevr");
    reveal_strlit("defun");
    reveal_strlit("defvar");
    reveal_strlit("defvr");
    reveal_strlit("detailmenu");
    reveal_strlit("dircategory");
    reveal_strlit("direntry");
    reveal_strlit("display");
    reveal_strlit("docbook");
    reveal_strlit("documentencoding");
    reveal_strlit("documentlanguage");
    reveal_strlit("end");
    reveal_strlit("enumerate");
    reveal_strlit("evenfoooting");
    reveal_strlit("evenheading");
    reveal_strlit("everyfoooting");
    reveal_strlit("everyheading");
    reveal_strlit("example");
    reveal_strlit("exampleindent");
    reveal_strlit("exdent");
    reveal_strlit("finalout");
    reveal_strlit("findex");
    reveal_strlit("firstparagraphindent");
    reveal_strlit("format");
    reveal_strlit("frenchspacing");
    reveal_strlit("ftable");
    reveal_strlit("group");
    reveal_strlit("headings");
    reveal_strlit("headitem");
    reveal_strlit("html");
    reveal_strlit("ifclear");
    reveal_strlit("ifdocbook");
    reveal_strlit("ifhtml");
    reveal_strlit("ifinfo");
    reveal_strlit("iflatex");
    reveal_strlit("ifnotdocbook");
    reveal_strlit("ifnothtml");
    reveal_strlit("ifnotinfo");
    reveal_strlit("ifnotlatex");
    reveal_strlit("ifnotplaintext");
    reveal_strlit("ifnottex");
    reveal_strlit("ifnotxml");
    reveal_strlit("ifplaintext");
    reveal_strlit("ifset");
    reveal_strlit("iftex");
    reveal_strlit("ifxml");
    reveal_strlit("ignore");
    reveal_strlit("indent");
    reveal_strlit("insertcopying");
    reveal_strlit("itemize");
    reveal_strlit("kbdinputstyle");
    reveal_strlit("kindex");
    reveal_strlit("lisp");
    reveal_strlit("macro");
    reveal_strlit("menu");
    reveal_strlit("multitable");
    reveal_strlit("need");
    reveal_strlit("node");
    reveal_strlit("noindent");
    reveal_strlit("oddfoooting");
    reveal_strlit("oddheading");
    reveal_strlit("page");
    reveal_strlit("pagesizes");
    reveal_strlit("paragraphindent");
    reveal_strlit("pindex");
    reveal_strlit("printindex");
    reveal_strlit("quotation");
    reveal_strlit("rmacro");
    reveal_strlit("section");
    reveal_strlit("set");
    reveal_strlit("setchapternewpage");
    reveal_strlit("setfilename");
    reveal_strlit("settitle");
    reveal_strlit("shortcontents");
    reveal_strlit("smallbook");
    reveal_strlit("smalldisplay");
    reveal_strlit("smallexample");
    reveal_strlit("smallformat");
    reveal_strlit("smalllisp");
    reveal_strlit("smallquotation");
    reveal_strlit("sp");
    reveal_strlit("subsection");
    reveal_strlit("subsubsection");
    reveal_strlit("subtitle");
    reveal_strlit("summarycontents");
    reveal_strlit("syncodeindex");
    reveal_strlit("synindex");
    reveal_strlit("table");
    reveal_strlit("tex");
    reveal_strlit("tindex");
    reveal_strlit("titlepage");
    reveal_strlit("top");
    reveal_strlit("unnumbered");
    reveal_strlit("unnumberedsec");
    reveal_strlit("unnumberedsubsec");
    reveal_strlit("unnumberedsubsubsec");
    reveal_strlit("validatemenus");
    reveal_strlit("value");
    reveal_strlit("verbatim");
    reveal_strlit("vindex");
    reveal_strlit("vskip");
    reveal_strlit("vtable");
    reveal_strlit("xml");
    assert("section"@[0] != "chapter"@[0]);
    assert("section"@[0] != "comment"@[0]);
    assert("section"@[0] != "copying"@[0]);
    assert("section"@[0] != "defspec"@[0]);
    assert("section"@[0] != "display"@[0]);
    assert("section"@[0] != "docbook"@[0]);
    assert("section"@[0] != "example"@[0]);
    assert("section"@[0] != "ifclear"@[0]);
    assert("section"@[0] != "iflatex"@[0]);
    assert("section"@[0] != "itemize"@[0]);
    assert("section"@[0] != file_command()[0]);
    assert("unnumberedsec"@[0] != "everyfoooting"@[0]);
    assert("unnumberedsec"@[0] != "exampleindent"@[0]);
    assert("unnumberedsec"@[0] != "frenchspacing"@[0]);
    assert("unnumberedsec"@[0] != "insertcopying"@[0]);
    assert("unnumberedsec"@[0] != "kbdinputstyle"@[0]);
    assert("unnumberedsec"@[0] != "shortcontents"@[0]);
    assert("unnumberedsec"@[0] != "subsubsection"@[0]);
    assert("unnumberedsec"@[0] != "validatemenus"@[0]);
    assert("appendixsec"@[0] != "dircategory"@[0]);
    assert("appendixsec"@[0] != "evenheading"@[0]);
    assert("appendixsec"@[0] != "ifplaintext"@[0]);
    assert("appendixsec"@[0] != "oddfoooting"@[0]);
    assert("appendixsec"@[0] != "setfilename"@[0]);
    assert("appendixsec"@[0] != "smallformat"@[0]);

}

/// `@subsection T`, `@unnumberedsubsec T` and `@appendixsubsec T`: the pending text goes to its node,
/// then an empty line and `T` underlined with `-` are added.
pub proof fn law_subsection_headings(st: ConverterModel, line: Seq<char>, lines: Seq<Seq<char>>, idx: int)
    requires
        st.in_ignore == 0,
        ({
            let cmd = command_name(line);
            cmd == "subsection"@ || cmd == "unnumberedsubsec"@ || cmd == "appendixsubsec"@
        }),
    ensures
        ({
            let cmd = command_name(line);
            let t = command_rest(line);
            let step = command_step(st, line, lines, idx);
            &&& step.state == with_text(flushed(st), "\n"@ + t + "\n"@ + rule(t, '-') + "\n\n"@)
            &&& step.next == idx + 1
            &&& step.read_file is None
        }),
{
    reveal_strlit("afivepaper");
    reveal_strlit("afourpaper");
    reveal_strlit("alias");
    reveal_strlit("allowcodebreakable");
    reveal_strlit("anchor");
    reveal_strlit("appendix");
    reveal_strlit("appendixsec");
    reveal_strlit("appendixsubsec");
    reveal_strlit("appendixsubsubsec");
    reveal_strlit("author");
    reveal_strlit("c");
    reveal_strlit("chapter");
    reveal_strlit("cindex");
    reveal_strlit("clear");
    reveal_strlit("columnfractions");
    reveal_strlit("comment");
    reveal_strlit("contents");
    reveal_strlit("copying");
    reveal_strlit("cropmarks");
    reveal_strlit("defcodeindex");
    reveal_strlit("deffn");
    reveal_strlit("defindex");
    reveal_strlit("definfoenclose");
    reveal_strlit("defmac");
    reveal_strlit("defopt");
    reveal_strlit("defspec");
    reveal_strlit("deftp");
    reveal_strlit("deftypefn");
    reveal_strlit("deftypefun");
    reveal_strlit("deftypevar");
    reveal_strlit("deftypevr");
    reveal_strlit("defun");
    reveal_strlit("defvar");
    reveal_strlit("defvr");
    reveal_strlit("detailmenu");
    reveal_strlit("dircategory");
    reveal_strlit("direntry");
    reveal_strlit("display");
    reveal_strlit("docbook");
    reveal_strlit("documentencoding");
    reveal_strlit("documentlanguage");
    reveal_strlit("end");
    reveal_strlit("enumerate");
    reveal_strlit("evenfoooting");
    reveal_strlit("evenheading");
    reveal_strlit("everyfoooting");
    reveal_strlit("everyheading");
    reveal_strlit("example");
    reveal_strlit("exampleindent");
    reveal_strlit("exdent");
    reveal_strlit("finalout");
    reveal_strlit("findex");
    reveal_strlit("firstparagraphindent");
    reveal_strlit("format");
    reveal_strlit("frenchspacing");
    reveal_strlit("ftable");
    reveal_strlit("group");
    reveal_strlit("headings");
    reveal_strlit("headitem");
    reveal_strlit("html");
    reveal_strlit("ifclear");
    reveal_strlit("ifdocbook");
    reveal_strlit("ifhtml");
    reveal_strlit("ifinfo");
    reveal_strlit("iflatex");
    reveal_strlit("ifnotdocbook");
    reveal_strlit("ifnothtml");
    reveal_strlit("ifnotinfo");
    reveal_strlit("ifnotlatex");
    reveal_strlit("ifnotplaintext");
    reveal_strlit("ifnottex");
    reveal_strlit("ifnotxml");
    reveal_strlit("ifplaintext");
    reveal_strlit("ifset");
    reveal_strlit("iftex");
    reveal_strlit("ifxml");
    reveal_strlit("ignore");
    reveal_strlit("indent");
    reveal_strlit("insertcopying");
    reveal_strlit("itemize");
    reveal_strlit("kbdinputstyle");
    reveal_strlit("kindex");
    reveal_strlit("lisp");
    reveal_strlit("macro");
    reveal_strlit("menu");
    reveal_strlit("multitable");
    reveal_strlit("need");
    reveal_strlit("node");
    reveal_strlit("noindent");
    reveal_strlit("oddfoooting");
    reveal_strlit("oddheading");
    reveal_strlit("page");
    reveal_strlit("pagesizes");
    reveal_strlit("paragraphindent");
    reveal_strlit("pindex");
    reveal_strlit("printindex");
    reveal_strlit("quotation");
    reveal_strlit("rmacro");
    reveal_strlit("section");
    reveal_strlit("set");
    reveal_strlit("setchapternewpage");
    reveal_strlit("setfilename");
    reveal_strlit("settitle");
    reveal_strlit("shortcontents");
    reveal_strlit("smallbook");
    reveal_strlit("smalldisplay");
    reveal_strlit("smallexample");
    reveal_strlit("smallformat");
    reveal_strlit("smalllisp");
    reveal_strlit("smallquotation");
    reveal_strlit("sp");
    reveal_strlit("subsection");
    reveal_strlit("subsubsection");
    reveal_strlit("subtitle");
    reveal_strlit("summarycontents");
    reveal_strlit("syncodeindex");
    reveal_strlit("synindex");
    reveal_strlit("table");
    reveal_strlit("tex");
    reveal_strlit("tindex");
    reveal_strlit("titlepage");
    reveal_strlit("top");
    reveal_strlit("unnumbered");
    reveal_strlit("unnumberedsec");
    reveal_strlit("unnumberedsubsec");
    reveal_strlit("unnumberedsubsubsec");
    reveal_strlit("validatemenus");
    reveal_strlit("value");
    reveal_strlit("verbatim");
    reveal_strlit("vindex");
    reveal_strlit("vskip");
    reveal_strlit("vtable");
    reveal_strlit("xml");
    assert("subsection"@[0] != "afivepaper"@[0]);
    assert("subsection"@[0] != "afourpaper"@[0]);
    assert("subsection"@[0] != "deftypefun"@[0]);
    assert("subsection"@[0] != "deftypevar"@[0]);
    assert("subsection"@[0] != "detailmenu"@[0]);
    assert("subsection"@[0] != "ifnotlatex"@[0]);
    assert("subsection"@[0] != "multitable"@[0]);
    assert("subsection"@[0] != "oddheading"@[0]);
    assert("subsection"@[0] != "printindex"@[0]);
    assert("subsection"@[0] != "unnumbered"@[0]);
    assert("unnumberedsubsec"@[0] != "documentencoding"@[0]);
    assert("unnumberedsubsec"@[0] != "documentlanguage"@[0]);
    assert("appendixsubsec"@[0] != "definfoenclose"@[0]);
    assert("appendixsubsec"@[0] != "ifnotplaintext"@[0]);
    assert("appendixsubsec"@[0] != "smallquotation"@[0]);

}

/// `@subsubsection T` and its unnumbered and appendix forms: the pending
/// text goes to its node, then `T` is added between empty lines, with no rule.
pub proof fn law_subsubsection_headings(st: ConverterModel, line: Seq<char>, lines: Seq<Seq<char>>, idx: int)
    requires
        st.in_ignore == 0,
        ({
            let cmd = command_name(line);
            cmd == "subsubsection"@ || cmd == "unnumberedsubsubsec"@ || cmd == "appendixsubsubsec"@
        }),
    ensures
        ({
            let cmd = command_name(line);
            let t = command_rest(line);
            let step = command_step(st, line, lines, idx);
            &&& step.state == with_text(flushed(st), "\n"@ + t + "\n\n"@)
            &&& step.next == idx + 1
            &&& step.read_file is None
        }),
{
    reveal_strlit("afivepaper");
    reveal_strlit("afourpaper");
    reveal_strlit("alias");
    reveal_strlit("allowcodebreakable");
    reveal_strlit("anchor");
    reveal_strlit("appendix");
    reveal_strlit("appendixsec");
    reveal_strlit("appendixsubsec");
    reveal_strlit("appendixsubsubsec");
    reveal_strlit("author");
    reveal_strlit("c");
    reveal_strlit("chapter");
    reveal_strlit("cindex");
    reveal_strlit("clear");
    reveal_strlit("columnfractions");
    reveal_strlit("comment");
    reveal_strlit("contents");
    reveal_strlit("copying");
    reveal_strlit("cropmarks");
    reveal_strlit("defcodeindex");
    reveal_strlit("deffn");
    reveal_strlit("defindex");
    reveal_strlit("definfoenclose");
    reveal_strlit("defmac");
    reveal_strlit("defopt");
    reveal_strlit("defspec");
    reveal_strlit("deftp");
    reveal_strlit("deftypefn");
    reveal_strlit("deftypefun");
    reveal_strlit("deftypevar");
    reveal_strlit("deftypevr");
    reveal_strlit("defun");
    reveal_strlit("defvar");
    reveal_strlit("defvr");
    reveal_strlit("detailmenu");
    reveal_strlit("dircategory");
    reveal_strlit("direntry");
    reveal_strlit("display");
    reveal_strlit("docbook");
    reveal_strlit("documentencoding");
    reveal_strlit("documentlanguage");
    reveal_strlit("end");
    reveal_strlit("enumerate");
    reveal_strlit("evenfoooting");
    reveal_strlit("evenheading");
    reveal_strlit("everyfoooting");
    reveal_strlit("everyheading");
    reveal_strlit("example");
    reveal_strlit("exampleindent");
    reveal_strlit("exdent");
    reveal_strlit("finalout");
    reveal_strlit("findex");
    reveal_strlit("firstparagraphindent");
    reveal_strlit("format");
    reveal_strlit("frenchspacing");
    reveal_strlit("ftable");
    reveal_strlit("group");
    reveal_strlit("headings");
    reveal_strlit("headitem");
    reveal_strlit("html");
    reveal_strlit("ifclear");
    reveal_strlit("ifdocbook");
    reveal_strlit("ifhtml");
    reveal_strlit("ifinfo");
    reveal_strlit("iflatex");
    reveal_strlit("ifnotdocbook");
    reveal_strlit("ifnothtml");
    reveal_strlit("ifnotinfo");
    reveal_strlit("ifnotlatex");
    reveal_strlit("ifnotplaintext");
    reveal_strlit("ifnottex");
    reveal_strlit("ifnotxml");
    reveal_strlit("ifplaintext");
    reveal_strlit("ifset");
    reveal_strlit("iftex");
    reveal_strlit("ifxml");
    reveal_strlit("ignore");
    reveal_strlit("indent");
    reveal_strlit("insertcopying");
    reveal_strlit("itemize");
    reveal_strlit("kbdinputstyle");
    reveal_strlit("kindex");
    reveal_strlit("lisp");
    reveal_strlit("macro");
    reveal_strlit("menu");
    reveal_strlit("multitable");
    reveal_strlit("need");
    reveal_strlit("node");
    reveal_strlit("noindent");
    reveal_strlit("oddfoooting");
    reveal_strlit("oddheading");
    reveal_strlit("page");
    reveal_strlit("pagesizes");
    reveal_strlit("paragraphindent");
    reveal_strlit("pindex");
    reveal_strlit("printindex");
    reveal_strlit("quotation");
    reveal_strlit("rmacro");
    reveal_strlit("section");
    reveal_strlit("set");
    reveal_strlit("setchapternewpage");
    reveal_strlit("setfilename");
    reveal_strlit("settitle");
    reveal_strlit("shortcontents");
    reveal_strlit("smallbook");
    reveal_strlit("smalldisplay");
    reveal_strlit("smallexample");
    reveal_strlit("smallformat");
    reveal_strlit("smalllisp");
    reveal_strlit("smallquotation");
    reveal_strlit("sp");
    reveal_strlit("subsection");
    reveal_strlit("subsubsection");
    reveal_strlit("subtitle");
    reveal_strlit("summarycontents");
    reveal_strlit("syncodeindex");
    reveal_strlit("synindex");
    reveal_strlit("table");
    reveal_strlit("tex");
    reveal_strlit("tindex");
    reveal_strlit("titlepage");
    reveal_strlit("top");
    reveal_strlit("unnumbered");
    reveal_strlit("unnumberedsec");
    reveal_strlit("unnumberedsubsec");
    reveal_strlit("unnumberedsubsubsec");
    reveal_strlit("validatemenus");
    reveal_strlit("value");
    reveal_strlit("verbatim");
    reveal_strlit("vindex");
    reveal_strlit("vskip");
    reveal_strlit("vtable");
    reveal_strlit("xml");
    assert("subsubsection"@[0] != "everyfoooting"@[0]);
    assert("subsubsection"@[0] != "exampleindent"@[0]);
    assert("subsubsection"@[0] != "frenchspacing"@[0]);
    assert("subsubsection"@[0] != "insertcopying"@[0]);
    assert("subsubsection"@[0] != "kbdinputstyle"@[0]);
    assert("subsubsection"@[1] != "shortcontents"@[1]);
    assert("subsubsection"@[0] != "unnumberedsec"@[0]);
    assert("subsubsection"@[0] != "validatemenus"@[0]);
    assert("appendixsubsubsec"@[0] != "setchapternewpage"@[0]);

}

/// `@example` and its kin (`@smallexample`, `@lisp`, `@smalllisp`,
/// `@display`, `@smalldisplay`, `@format`, `@smallformat`, `@verbatim`):
/// each line up to the matching `@end` line is expanded and added after five
/// spaces, between empty lines, and reading goes on after the `@end` line.
pub proof fn law_example_blocks(st: ConverterModel, line: Seq<char>, lines: Seq<Seq<char>>, idx: int)
    requires
        st.in_ignore == 0,
        ({
            let cmd = command_name(line);
            cmd == "example"@ || cmd == "smallexample"@ || cmd == "lisp"@ || cmd == "smalllisp"@ || cmd == "display"@ || cmd == "smalldisplay"@ || cmd == "format"@ || cmd == "smallformat"@ || cmd == "verbatim"@
        }),
    ensures
        ({
            let cmd = command_name(line);
            let t = command_rest(line);
            let step = command_step(st, line, lines, idx);
            &&& step.state == with_text(st, "\n"@ + indented(lines, idx + 1, block_end(lines, idx + 1, cmd), "     "@) + "\n"@)
            &&& step.next == block_end(lines, idx + 1, cmd) + 1
            &&& step.read_file is None
        }),
{
    reveal_strlit("afivepaper");
    reveal_strlit("afourpaper");
    reveal_strlit("alias");
    reveal_strlit("allowcodebreakable");
    reveal_strlit("anchor");
    reveal_strlit("appendix");
    reveal_strlit("appendixsec");
    reveal_strlit("appendixsubsec");
    reveal_strlit("appendixsubsubsec");
    reveal_strlit("author");
    reveal_strlit("c");
    reveal_strlit("chapter");
    reveal_strlit("cindex");
    reveal_strlit("clear");
    reveal_strlit("columnfractions");
    reveal_strlit("comment");
    reveal_strlit("contents");
    reveal_strlit("copying");
    reveal_strlit("cropmarks");
    reveal_strlit("defcodeindex");
    reveal_strlit("deffn");
    reveal_strlit("defindex");
    reveal_strlit("definfoenclose");
    reveal_strlit("defmac");
    reveal_strlit("defopt");
    reveal_strlit("defspec");
    reveal_strlit("deftp");
    reveal_strlit("deftypefn");
    reveal_strlit("deftypefun");
    reveal_strlit("deftypevar");
    reveal_strlit("deftypevr");
    reveal_strlit("defun");
    reveal_strlit("defvar");
    reveal_strlit("defvr");
    reveal_strlit("detailmenu");
    reveal_strlit("dircategory");
    reveal_strlit("direntry");
    reveal_strlit("display");
    reveal_strlit("docbook");
    reveal_strlit("documentencoding");
    reveal_strlit("documentlanguage");
    reveal_strlit("end");
    reveal_strlit("enumerate");
    reveal_strlit("evenfoooting");
    reveal_strlit("evenheading");
    reveal_strlit("everyfoooting");
    reveal_strlit("everyheading");
    reveal_strlit("example");
    reveal_strlit("exampleindent");
    reveal_strlit("exdent");
    reveal_strlit("finalout");
    reveal_strlit("findex");
    reveal_strlit("firstparagraphindent");
    reveal_strlit("format");
    reveal_strlit("frenchspacing");
    reveal_strlit("ftable");
    reveal_strlit("group");
    reveal_strlit("headings");
    reveal_strlit("headitem");
    reveal_strlit("html");
    reveal_strlit("ifclear");
    reveal_strlit("ifdocbook");
    reveal_strlit("ifhtml");
    reveal_strlit("ifinfo");
    reveal_strlit("iflatex");
    reveal_strlit("ifnotdocbook");
    reveal_strlit("ifnothtml");
    reveal_strlit("ifnotinfo");
    reveal_strlit("ifnotlatex");
    reveal_strlit("ifnotplaintext");
    reveal_strlit("ifnottex");
    reveal_strlit("ifnotxml");
    reveal_strlit("ifplaintext");
    reveal_strlit("ifset");
    reveal_strlit("iftex");
    reveal_strlit("ifxml");
    reveal_strlit("ignore");
    reveal_strlit("indent");
    reveal_strlit("insertcopying");
    reveal_strlit("itemize");
    reveal_strlit("kbdinputstyle");
    reveal_strlit("kindex");
    reveal_strlit("lisp");
    reveal_strlit("macro");
    reveal_strlit("menu");
    reveal_strlit("multitable");
    reveal_strlit("need");
    reveal_strlit("node");
    reveal_strlit("noindent");
    reveal_strlit("oddfoooting");
    reveal_strlit("oddheading");
    reveal_strlit("page");
    reveal_strlit("pagesizes");
    reveal_strlit("paragraphindent");
    reveal_strlit("pindex");
    reveal_strlit("printindex");
    reveal_strlit("quotation");
    reveal_strlit("rmacro");
    reveal_strlit("section");
    reveal_strlit("set");
    reveal_strlit("setchapternewpage");
    reveal_strlit("setfilename");
    reveal_strlit("settitle");
    reveal_strlit("shortcontents");
    reveal_strlit("smallbook");
    reveal_strlit("smalldisplay");
    reveal_strlit("smallexample");
    reveal_strlit("smallformat");
    reveal_strlit("smalllisp");
    reveal_strlit("smallquotation");
    reveal_strlit("sp");
    reveal_strlit("subsection");
    reveal_strlit("subsubsection");
    reveal_strlit("subtitle");
    reveal_strlit("summarycontents");
    reveal_strlit("syncodeindex");
    reveal_strlit("synindex");
    reveal_strlit("table");
    reveal_strlit("tex");
    reveal_strlit("tindex");
    reveal_strlit("titlepage");
    reveal_strlit("top");
    reveal_strlit("unnumbered");
    reveal_strlit("unnumberedsec");
    reveal_strlit("unnumberedsubsec");
    reveal_strlit("unnumberedsubsubsec");
    reveal_strlit("validatemenus");
    reveal_strlit("value");
    reveal_strlit("verbatim");
    reveal_strlit("vindex");
    reveal_strlit("vskip");
    reveal_strlit("vtable");
    reveal_strlit("xml");
    assert("example"@[0] != "chapter"@[0]);
    assert("example"@[0] != "comment"@[0]);
    assert("example"@[0] != "copying"@[0]);
    assert("example"@[0] != "defspec"@[0]);
    assert("example"@[0] != "display"@[0]);
    assert("example"@[0] != "docbook"@[0]);
    assert("example"@[0] != "ifclear"@[0]);
    assert("example"@[0] != "iflatex"@[0]);
    assert("example"@[0] != "itemize"@[0]);
    assert("example"@[0] != "section"@[0]);
    assert("example"@[0] != file_command()[0]);
    assert("smallexample"@[0] != "defcodeindex"@[0]);
    assert("smallexample"@[0] != "evenfoooting"@[0]);
    assert("smallexample"@[0] != "everyheading"@[0]);
    assert("smallexample"@[0] != "ifnotdocbook"@[0]);
    assert("smallexample"@[5] != "smalldisplay"@[5]);
    assert("smallexample"@[1] != "syncodeindex"@[1]);
    assert("lisp"@[0] != "html"@[0]);
    assert("lisp"@[0] != "menu"@[0]);
    assert("lisp"@[0] != "need"@[0]);
    assert("lisp"@[0] != "node"@[0]);
    assert("lisp"@[0] != "page"@[0]);
    assert("smalllisp"@[0] != "cropmarks"@[0]);
    assert("smalllisp"@[0] != "deftypefn"@[0]);
    assert("smalllisp"@[0] != "deftypevr"@[0]);
    assert("smalllisp"@[0] != "enumerate"@[0]);
    assert("smalllisp"@[0] != "ifdocbook"@[0]);
    assert("smalllisp"@[0] != "ifnothtml"@[0]);
    assert("smalllisp"@[0] != "ifnotinfo"@[0]);
    assert("smalllisp"@[0] != "pagesizes"@[0]);
    assert("smalllisp"@[0] != "quotation"@[0]);
    assert("smalllisp"@[5] != "smallbook"@[5]);
    assert("smalllisp"@[0] != "titlepage"@[0]);
    assert("display"@[0] != "chapter"@[0]);
    assert("display"@[0] != "comment"@[0]);
    assert("display"@[0] != "copying"@[0]);
    assert("display"@[1] != "defspec"@[1]);
    assert("display"@[1] != "docbook"@[1]);
    assert("display"@[0] != "example"@[0]);
    assert("display"@[0] != "ifclear"@[0]);
    assert("display"@[0] != "iflatex"@[0]);
    assert("display"@[0] != "itemize"@[0]);
    assert("display"@[0] != "section"@[0]);
    assert("display"@[0] != file_command()[0]);
    assert("smalldisplay"@[0] != "defcodeindex"@[0]);
    assert("smalldisplay"@[0] != "evenfoooting"@[0]);
    assert("smalldisplay"@[0] != "everyheading"@[0]);
    assert("smalldisplay"@[0] != "ifnotdocbook"@[0]);
    assert("smalldisplay"@[5] != "smallexample"@[5]);
    assert("smalldisplay"@[1] != "syncodeindex"@[1]);
    assert("format"@[0] != "anchor"@[0]);
    assert("format"@[0] != "author"@[0]);
    assert("format"@[0] != "cindex"@[0]);
    assert("format"@[0] != "defmac"@[0]);
    assert("format"@[0] != "defopt"@[0]);
    assert("format"@[0] != "defvar"@[0]);
    assert("format"@[0] != "exdent"@[0]);
    assert("format"@[1] != "findex"@[1]);
    assert("format"@[1] != "ftable"@[1]);
    assert("format"@[0] != "ifhtml"@[0]);
    assert("format"@[0] != "ifinfo"@[0]);
    assert("format"@[0] != "ignore"@[0]);
    assert("format"@[0] != "indent"@[0]);
    assert("format"@[0] != "kindex"@[0]);
    assert("format"@[0] != "pindex"@[0]);
    assert("format"@[0] != "rmacro"@[0]);
    assert("format"@[0] != "tindex"@[0]);
    assert("format"@[0] != "vindex"@[0]);
    assert("format"@[0] != "vtable"@[0]);
    assert("smallformat"@[0] != "appendixsec"@[0]);
    assert("smallformat"@[0] != "dircategory"@[0]);
    assert("smallformat"@[0] != "evenheading"@[0]);
    assert("smallformat"@[0] != "ifplaintext"@[0]);
    assert("smallformat"@[0] != "oddfoooting"@[0]);
    assert("smallformat"@[1] != "setfilename"@[1]);
    assert("verbatim"@[0] != "appendix"@[0]);
    assert("verbatim"@[0] != "contents"@[0]);
    assert("verbatim"@[0] != "defindex"@[0]);
    assert("verbatim"@[0] != "direntry"@[0]);
    assert("verbatim"@[0] != "finalout"@[0]);
    assert("verbatim"@[0] != "headings"@[0]);
    assert("verbatim"@[0] != "headitem"@[0]);
    assert("verbatim"@[0] != "ifnottex"@[0]);
    assert("verbatim"@[0] != "ifnotxml"@[0]);
    assert("verbatim"@[0] != "noindent"@[0]);
    assert("verbatim"@[0] != "settitle"@[0]);
    assert("verbatim"@[0] != "subtitle"@[0]);
    assert("verbatim"@[0] != "synindex"@[0]);

}

/// `@quotation` and `@smallquotation`: each line up to the matching `@end`
/// line is expanded and added after two spaces, between empty lines.
pub proof fn law_quotation_blocks(st: ConverterModel, line: Seq<char>, lines: Seq<Seq<char>>, idx: int)
    requires
        st.in_ignore == 0,
        ({
            let cmd = command_name(line);
            cmd == "quotation"@ || cmd == "smallquotation"@
        }),
    ensures
        ({
            let cmd = command_name(line);
            let t = command_rest(line);
            let step = command_step(st, line, lines, idx);
            &&& step.state == with_text(st, "\n"@ + indented(lines, idx + 1, block_end(lines, idx + 1, cmd), "  "@) + "\n"@)
            &&& step.next == block_end(lines, idx + 1, cmd) + 1
            &&& step.read_file is None
        }),
{
    reveal_strlit("afivepaper");
    reveal_strlit("afourpaper");
    reveal_strlit("alias");
    reveal_strlit("allowcodebreakable");
    reveal_strlit("anchor");
    reveal_strlit("appendix");
    reveal_strlit("appendixsec");
    reveal_strlit("appendixsubsec");
    reveal_strlit("appendixsubsubsec");
    reveal_strlit("author");
    reveal_strlit("c");
    reveal_strlit("chapter");
    reveal_strlit("cindex");
    reveal_strlit("clear");
    reveal_strlit("columnfractions");
    reveal_strlit("comment");
    reveal_strlit("contents");
    reveal_strlit("copying");
    reveal_strlit("cropmarks");
    reveal_strlit("defcodeindex");
    reveal_strlit("deffn");
    reveal_strlit("defindex");
    reveal_strlit("definfoenclose");
    reveal_strlit("defmac");
    reveal_strlit("defopt");
    reveal_strlit("defspec");
    reveal_strlit("deftp");
    reveal_strlit("deftypefn");
    reveal_strlit("deftypefun");
    reveal_strlit("deftypevar");
    reveal_strlit("deftypevr");
    reveal_strlit("defun");
    reveal_strlit("defvar");
    reveal_strlit("defvr");
    reveal_strlit("detailmenu");
    reveal_strlit("dircategory");
    reveal_strlit("direntry");
    reveal_strlit("display");
    reveal_strlit("docbook");
    reveal_strlit("documentencoding");
    reveal_strlit("documentlanguage");
    reveal_strlit("end");
    reveal_strlit("enumerate");
    reveal_strlit("evenfoooting");
    reveal_strlit("evenheading");
    reveal_strlit("everyfoooting");
    reveal_strlit("everyheading");
    reveal_strlit("example");
    reveal_strlit("exampleindent");
    reveal_strlit("exdent");
    reveal_strlit("finalout");
    reveal_strlit("findex");
    reveal_strlit("firstparagraphindent");
    reveal_strlit("format");
    reveal_strlit("frenchspacing");
    reveal_strlit("ftable");
    reveal_strlit("group");
    reveal_strlit("headings");
    reveal_strlit("headitem");
    reveal_strlit("html");
    reveal_strlit("ifclear");
    reveal_strlit("ifdocbook");
    reveal_strlit("ifhtml");
    reveal_strlit("ifinfo");
    reveal_strlit("iflatex");
    reveal_strlit("ifnotdocbook");
    reveal_strlit("ifnothtml");
    reveal_strlit("ifnotinfo");
    reveal_strlit("ifnotlatex");
    reveal_strlit("ifnotplaintext");
    reveal_strlit("ifnottex");
    reveal_strlit("ifnotxml");
    reveal_strlit("ifplaintext");
    reveal_strlit("ifset");
    reveal_strlit("iftex");
    reveal_strlit("ifxml");
    reveal_strlit("ignore");
    reveal_strlit("indent");
    reveal_strlit("insertcopying");
    reveal_strlit("itemize");
    reveal_strlit("kbdinputstyle");
    reveal_strlit("kindex");
    reveal_strlit("lisp");
    reveal_strlit("macro");
    reveal_strlit("menu");
    reveal_strlit("multitable");
    reveal_strlit("need");
    reveal_strlit("node");
    reveal_strlit("noindent");
    reveal_strlit("oddfoooting");
    reveal_strlit("oddheading");
    reveal_strlit("page");
    reveal_strlit("pagesizes");
    reveal_strlit("paragraphindent");
    reveal_strlit("pindex");
    reveal_strlit("printindex");
    reveal_strlit("quotation");
    reveal_strlit("rmacro");
    reveal_strlit("section");
    reveal_strlit("set");
    reveal_strlit("setchapternewpage");
    reveal_strlit("setfilename");
    reveal_strlit("settitle");
    reveal_strlit("shortcontents");
    reveal_strlit("smallbook");
    reveal_strlit("smalldisplay");
    reveal_strlit("smallexample");
    reveal_strlit("smallformat");
    reveal_strlit("smalllisp");
    reveal_strlit("smallquotation");
    reveal_strlit("sp");
    reveal_strlit("subsection");
    reveal_strlit("subsubsection");
    reveal_strlit("subtitle");
    reveal_strlit("summarycontents");
    reveal_strlit("syncodeindex");
    reveal_strlit("synindex");
    reveal_strlit("table");
    reveal_strlit("tex");
    reveal_strlit("tindex");
    reveal_strlit("titlepage");
    reveal_strlit("top");
    reveal_strlit("unnumbered");
    reveal_strlit("unnumberedsec");
    reveal_strlit("unnumberedsubsec");
    reveal_strlit("unnumberedsubsubsec");
    reveal_strlit("validatemenus");
    reveal_strlit("value");
    reveal_strlit("verbatim");
    reveal_strlit("vindex");
    reveal_strlit("vskip");
    reveal_strlit("vtable");
    reveal_strlit("xml");
    assert("quotation"@[0] != "cropmarks"@[0]);
    assert("quotation"@[0] != "deftypefn"@[0]);
    assert("quotation"@[0] != "deftypevr"@[0]);
    assert("quotation"@[0] != "enumerate"@[0]);
    assert("quotation"@[0] != "ifdocbook"@[0]);
    assert("quotation"@[0] != "ifnothtml"@[0]);
    assert("quotation"@[0] != "ifnotinfo"@[0]);
    assert("quotation"@[0] != "pagesizes"@[0]);
    assert("quotation"@[0] != "smallbook"@[0]);
    assert("quotation"@[0] != "smalllisp"@[0]);
    assert("quotation"@[0] != "titlepage"@[0]);
    assert("smallquotation"@[0] != "appendixsubsec"@[0]);
    assert("smallquotation"@[0] != "definfoenclose"@[0]);
    assert("smallquotation"@[0] != "ifnotplaintext"@[0]);

}

/// `@itemize`: the list's lines, with `*` markers, between empty lines.
pub proof fn law_itemize_blocks(st: ConverterModel, line: Seq<char>, lines: Seq<Seq<char>>, idx: int)
    requires
        st.in_ignore == 0,
        ({
            let cmd = command_name(line);
            cmd == "itemize"@
        }),
    ensures
        ({
            let cmd = command_name(line);
            let t = command_rest(line);
            let step = command_step(st, line, lines, idx);
            &&& step.state == with_text(st, "\n"@ + list_body(lines, idx + 1, block_end(lines, idx + 1, cmd), false) + "\n"@)
            &&& step.next == block_end(lines, idx + 1, cmd) + 1
        }),
{
    reveal_strlit("afivepaper");
    reveal_strlit("afourpaper");
    reveal_strlit("alias");
    reveal_strlit("allowcodebreakable");
    reveal_strlit("anchor");
    reveal_strlit("appendix");
    reveal_strlit("appendixsec");
    reveal_strlit("appendixsubsec");
    reveal_strlit("appendixsubsubsec");
    reveal_strlit("author");
    reveal_strlit("c");
    reveal_strlit("chapter");
    reveal_strlit("cindex");
    reveal_strlit("clear");
    reveal_strlit("columnfractions");
    reveal_strlit("comment");
    reveal_strlit("contents");
    reveal_strlit("copying");
    reveal_strlit("cropmarks");
    reveal_strlit("defcodeindex");
    reveal_strlit("deffn");
    reveal_strlit("defindex");
    reveal_strlit("definfoenclose");
    reveal_strlit("defmac");
    reveal_strlit("defopt");
    reveal_strlit("defspec");
    reveal_strlit("deftp");
    reveal_strlit("deftypefn");
    reveal_strlit("deftypefun");
    reveal_strlit("deftypevar");
    reveal_strlit("deftypevr");
    reveal_strlit("defun");
    reveal_strlit("defvar");
    reveal_strlit("defvr");
    reveal_strlit("detailmenu");
    reveal_strlit("dircategory");
    reveal_strlit("direntry");
    reveal_strlit("display");
    reveal_strlit("docbook");
    reveal_strlit("documentencoding");
    reveal_strlit("documentlanguage");
    reveal_strlit("end");
    reveal_strlit("enumerate");
    reveal_strlit("evenfoooting");
    reveal_strlit("evenheading");
    reveal_strlit("everyfoooting");
    reveal_strlit("everyheading");
    reveal_strlit("example");
    reveal_strlit("exampleindent");
    reveal_strlit("exdent");
    reveal_strlit("finalout");
    reveal_strlit("findex");
    reveal_strlit("firstparagraphindent");
    reveal_strlit("format");
    reveal_strlit("frenchspacing");
    reveal_strlit("ftable");
    reveal_strlit("group");
    reveal_strlit("headings");
    reveal_strlit("headitem");
    reveal_strlit("html");
    reveal_strlit("ifclear");
    reveal_strlit("ifdocbook");
    reveal_strlit("ifhtml");
    reveal_strlit("ifinfo");
    reveal_strlit("iflatex");
    reveal_strlit("ifnotdocbook");
    reveal_strlit("ifnothtml");
    reveal_strlit("ifnotinfo");
    reveal_strlit("ifnotlatex");
    reveal_strlit("ifnotplaintext");
    reveal_strlit("ifnottex");
    reveal_strlit("ifnotxml");
    reveal_strlit("ifplaintext");
    reveal_strlit("ifset");
    reveal_strlit("iftex");
    reveal_strlit("ifxml");
    reveal_strlit("ignore");
    reveal_strlit("indent");
    reveal_strlit("insertcopying");
    reveal_strlit("itemize");
    reveal_strlit("kbdinputstyle");
    reveal_strlit("kindex");
    reveal_strlit("lisp");
    reveal_strlit("macro");
    reveal_strlit("menu");
    reveal_strlit("multitable");
    reveal_strlit("need");
    reveal_strlit("node");
    reveal_strlit("noindent");
    reveal_strlit("oddfoooting");
    reveal_strlit("oddheading");
    reveal_strlit("page");
    reveal_strlit("pagesizes");
    reveal_strlit("paragraphindent");
    reveal_strlit("pindex");
    reveal_strlit("printindex");
    reveal_strlit("quotation");
    reveal_strlit("rmacro");
    reveal_strlit("section");
    reveal_strlit("set");
    reveal_strlit("setchapternewpage");
    reveal_strlit("setfilename");
    reveal_strlit("settitle");
    reveal_strlit("shortcontents");
    reveal_strlit("smallbook");
    reveal_strlit("smalldisplay");
    reveal_strlit("smallexample");
    reveal_strlit("smallformat");
    reveal_strlit("smalllisp");
    reveal_strlit("smallquotation");
    reveal_strlit("sp");
    reveal_strlit("subsection");
    reveal_strlit("subsubsection");
    reveal_strlit("subtitle");
    reveal_strlit("summarycontents");
    reveal_strlit("syncodeindex");
    reveal_strlit("synindex");
    reveal_strlit("table");
    reveal_strlit("tex");
    reveal_strlit("tindex");
    reveal_strlit("titlepage");
    reveal_strlit("top");
    reveal_strlit("unnumbered");
    reveal_strlit("unnumberedsec");
    reveal_strlit("unnumberedsubsec");
    reveal_strlit("unnumberedsubsubsec");
    reveal_strlit("validatemenus");
    reveal_strlit("value");
    reveal_strlit("verbatim");
    reveal_strlit("vindex");
    reveal_strlit("vskip");
    reveal_strlit("vtable");
    reveal_strlit("xml");
    assert("itemize"@[0] != "chapter"@[0]);
    assert("itemize"@[0] != "comment"@[0]);
    assert("itemize"@[0] != "copying"@[0]);
    assert("itemize"@[0] != "defspec"@[0]);
    assert("itemize"@[0] != "display"@[0]);
    assert("itemize"@[0] != "docbook"@[0]);
    assert("itemize"@[0] != "example"@[0]);
    assert("itemize"@[1] != "ifclear"@[1]);
    assert("itemize"@[1] != "iflatex"@[1]);
    assert("itemize"@[0] != "section"@[0]);
    assert("itemize"@[1] != file_command()[1]);

}

/// `@enumerate`: the list's lines, with numbered markers, between empty
/// lines.
pub proof fn law_enumerate_blocks(st: ConverterModel, line: Seq<char>, lines: Seq<Seq<char>>, idx: int)
    requires
        st.in_ignore == 0,
        ({
            let cmd = command_name(line);
            cmd == "enumerate"@
        }),
    ensures
        ({
            let cmd = command_name(line);
            let t = command_rest(line);
            let step = command_step(st, line, lines, idx);
            &&& step.state == with_text(st, "\n"@ + list_body(lines, idx + 1, block_end(lines, idx + 1, cmd), true) + "\n"@)
            &&& step.next == block_end(lines, idx + 1, cmd) + 1
        }),
{
    reveal_strlit("afivepaper");
    reveal_strlit("afourpaper");
    reveal_strlit("alias");
    reveal_strlit("allowcodebreakable");
    reveal_strlit("anchor");
    reveal_strlit("appendix");
    reveal_strlit("appendixsec");
    reveal_strlit("appendixsubsec");
    reveal_strlit("appendixsubsubsec");
    reveal_strlit("author");
    reveal_strlit("c");
    reveal_strlit("chapter");
    reveal_strlit("cindex");
    reveal_strlit("clear");
    reveal_strlit("columnfractions");
    reveal_strlit("comment");
    reveal_strlit("contents");
    reveal_strlit("copying");
    reveal_strlit("cropmarks");
    reveal_strlit("defcodeindex");
    reveal_strlit("deffn");
    reveal_strlit("defindex");
    reveal_strlit("definfoenclose");
    reveal_strlit("defmac");
    reveal_strlit("defopt");
    reveal_strlit("defspec");
    reveal_strlit("deftp");
    reveal_strlit("deftypefn");
    reveal_strlit("deftypefun");
    reveal_strlit("deftypevar");
    reveal_strlit("deftypevr");
    reveal_strlit("defun");
    reveal_strlit("defvar");
    reveal_strlit("defvr");
    reveal_strlit("detailmenu");
    reveal_strlit("dircategory");
    reveal_strlit("direntry");
    reveal_strlit("display");
    reveal_strlit("docbook");
    reveal_strlit("documentencoding");
    reveal_strlit("documentlanguage");
    reveal_strlit("end");
    reveal_strlit("enumerate");
    reveal_strlit("evenfoooting");
    reveal_strlit("evenheading");
    reveal_strlit("everyfoooting");
    reveal_strlit("everyheading");
    reveal_strlit("example");
    reveal_strlit("exampleindent");
    reveal_strlit("exdent");
    reveal_strlit("finalout");
    reveal_strlit("findex");
    reveal_strlit("firstparagraphindent");
    reveal_strlit("format");
    reveal_strlit("frenchspacing");
    reveal_strlit("ftable");
    reveal_strlit("group");
    reveal_strlit("headings");
    reveal_strlit("headitem");
    reveal_strlit("html");
    reveal_strlit("ifclear");
    reveal_strlit("ifdocbook");
    reveal_strlit("ifhtml");
    reveal_strlit("ifinfo");
    reveal_strlit("iflatex");
    reveal_strlit("ifnotdocbook");
    reveal_strlit("ifnothtml");
    reveal_strlit("ifnotinfo");
    reveal_strlit("ifnotlatex");
    reveal_strlit("ifnotplaintext");
    reveal_strlit("ifnottex");
    reveal_strlit("ifnotxml");
    reveal_strlit("ifplaintext");
    reveal_strlit("ifset");
    reveal_strlit("iftex");
    reveal_strlit("ifxml");
    reveal_strlit("ignore");
    reveal_strlit("indent");
    reveal_strlit("insertcopying");
    reveal_strlit("itemize");
    reveal_strlit("kbdinputstyle");
    reveal_strlit("kindex");
    reveal_strlit("lisp");
    reveal_strlit("macro");
    reveal_strlit("menu");
    reveal_strlit("multitable");
    reveal_strlit("need");
    reveal_strlit("node");
    reveal_strlit("noindent");
    reveal_strlit("oddfoooting");
    reveal_strlit("oddheading");
    reveal_strlit("page");
    reveal_strlit("pagesizes");
    reveal_strlit("paragraphindent");
    reveal_strlit("pindex");
    reveal_strlit("printindex");
    reveal_strlit("quotation");
    reveal_strlit("rmacro");
    reveal_strlit("section");
    reveal_strlit("set");
    reveal_strlit("setchapternewpage");
    reveal_strlit("setfilename");
    reveal_strlit("settitle");
    reveal_strlit("shortcontents");
    reveal_strlit("smallbook");
    reveal_strlit("smalldisplay");
    reveal_strlit("smallexample");
    reveal_strlit("smallformat");
    reveal_strlit("smalllisp");
    reveal_strlit("smallquotation");
    reveal_strlit("sp");
    reveal_strlit("subsection");
    reveal_strlit("subsubsection");
    reveal_strlit("subtitle");
    reveal_strlit("summarycontents");
    reveal_strlit("syncodeindex");
    reveal_strlit("synindex");
    reveal_strlit("table");
    reveal_strlit("tex");
    reveal_strlit("tindex");
    reveal_strlit("titlepage");
    reveal_strlit("top");
    reveal_strlit("unnumbered");
    reveal_strlit("unnumberedsec");
    reveal_strlit("unnumberedsubsec");
    reveal_strlit("unnumberedsubsubsec");
    reveal_strlit("validatemenus");
    reveal_strlit("value");
    reveal_strlit("verbatim");
    reveal_strlit("vindex");
    reveal_strlit("vskip");
    reveal_strlit("vtable");
    reveal_strlit("xml");
    assert("enumerate"@[0] != "cropmarks"@[0]);
    assert("enumerate"@[0] != "deftypefn"@[0]);
    assert("enumerate"@[0] != "deftypevr"@[0]);
    assert("enumerate"@[0] != "ifdocbook"@[0]);
    assert("enumerate"@[0] != "ifnothtml"@[0]);
    assert("enumerate"@[0] != "ifnotinfo"@[0]);
    assert("enumerate"@[0] != "pagesizes"@[0]);
    assert("enumerate"@[0] != "quotation"@[0]);
    assert("enumerate"@[0] != "smallbook"@[0]);
    assert("enumerate"@[0] != "smalllisp"@[0]);
    assert("enumerate"@[0] != "titlepage"@[0]);

}

/// `@table`, `@ftable` and `@vtable`: the table's lines between empty lines.
pub proof fn law_table_blocks(st: ConverterModel, line: Seq<char>, lines: Seq<Seq<char>>, idx: int)
    requires
        st.in_ignore == 0,
        ({
            let cmd = command_name(line);
            cmd == "table"@ || cmd == "ftable"@ || cmd == "vtable"@
        }),
    ensures
        ({
            let cmd = command_name(line);
            let t = command_rest(line);
            let step = command_step(st, line, lines, idx);
            &&& step.state == with_text(st, "\n"@ + table_body(lines, idx + 1, block_end(lines, idx + 1, cmd)) + "\n"@)
            &&& step.next == block_end(lines, idx + 1, cmd) + 1
        }),
{
    reveal_strlit("afivepaper");
    reveal_strlit("afourpaper");
    reveal_strlit("alias");
    reveal_strlit("allowcodebreakable");
    reveal_strlit("anchor");
    reveal_strlit("appendix");
    reveal_strlit("appendixsec");
    reveal_strlit("appendixsubsec");
    reveal_strlit("appendixsubsubsec");
    reveal_strlit("author");
    reveal_strlit("c");
    reveal_strlit("chapter");
    reveal_strlit("cindex");
    reveal_strlit("clear");
    reveal_strlit("columnfractions");
    reveal_strlit("comment");
    reveal_strlit("contents");
    reveal_strlit("copying");
    reveal_strlit("cropmarks");
    reveal_strlit("defcodeindex");
    reveal_strlit("deffn");
    reveal_strlit("defindex");
    reveal_strlit("definfoenclose");
    reveal_strlit("defmac");
    reveal_strlit("defopt");
    reveal_strlit("defspec");
    reveal_strlit("deftp");
    reveal_strlit("deftypefn");
    reveal_strlit("deftypefun");
    reveal_strlit("deftypevar");
    reveal_strlit("deftypevr");
    reveal_strlit("defun");
    reveal_strlit("defvar");
    reveal_strlit("defvr");
    reveal_strlit("detailmenu");
    reveal_strlit("dircategory");
    reveal_strlit("direntry");
    reveal_strlit("display");
    reveal_strlit("docbook");
    reveal_strlit("documentencoding");
    reveal_strlit("documentlanguage");
    reveal_strlit("end");
    reveal_strlit("enumerate");
    reveal_strlit("evenfoooting");
    reveal_strlit("evenheading");
    reveal_strlit("everyfoooting");
    reveal_strlit("everyheading");
    reveal_strlit("example");
    reveal_strlit("exampleindent");
    reveal_strlit("exdent");
    reveal_strlit("finalout");
    reveal_strlit("findex");
    reveal_strlit("firstparagraphindent");
    reveal_strlit("format");
    reveal_strlit("frenchspacing");
    reveal_strlit("ftable");
    reveal_strlit("group");
    reveal_strlit("headings");
    reveal_strlit("headitem");
    reveal_strlit("html");
    reveal_strlit("ifclear");
    reveal_strlit("ifdocbook");
    reveal_strlit("ifhtml");
    reveal_strlit("ifinfo");
    reveal_strlit("iflatex");
    reveal_strlit("ifnotdocbook");
    reveal_strlit("ifnothtml");
    reveal_strlit("ifnotinfo");
    reveal_strlit("ifnotlatex");
    reveal_strlit("ifnotplaintext");
    reveal_strlit("ifnottex");
    reveal_strlit("ifnotxml");
    reveal_strlit("ifplaintext");
    reveal_strlit("ifset");
    reveal_strlit("iftex");
    reveal_strlit("ifxml");
    reveal_strlit("ignore");
    reveal_strlit("indent");
    reveal_strlit("insertcopying");
    reveal_strlit("itemize");
    reveal_strlit("kbdinputstyle");
    reveal_strlit("kindex");
    reveal_strlit("lisp");
    reveal_strlit("macro");
    reveal_strlit("menu");
    reveal_strlit("multitable");
    reveal_strlit("need");
    reveal_strlit("node");
    reveal_strlit("noindent");
    reveal_strlit("oddfoooting");
    reveal_strlit("oddheading");
    reveal_strlit("page");
    reveal_strlit("pagesizes");
    reveal_strlit("paragraphindent");
    reveal_strlit("pindex");
    reveal_strlit("printindex");
    reveal_strlit("quotation");
    reveal_strlit("rmacro");
    reveal_strlit("section");
    reveal_strlit("set");
    reveal_strlit("setchapternewpage");
    reveal_strlit("setfilename");
    reveal_strlit("settitle");
    reveal_strlit("shortcontents");
    reveal_strlit("smallbook");
    reveal_strlit("smalldisplay");
    reveal_strlit("smallexample");
    reveal_strlit("smallformat");
    reveal_strlit("smalllisp");
    reveal_strlit("smallquotation");
    reveal_strlit("sp");
    reveal_strlit("subsection");
    reveal_strlit("subsubsection");
    reveal_strlit("subtitle");
    reveal_strlit("summarycontents");
    reveal_strlit("syncodeindex");
    reveal_strlit("synindex");
    reveal_strlit("table");
    reveal_strlit("tex");
    reveal_strlit("tindex");
    reveal_strlit("titlepage");
    reveal_strlit("top");
    reveal_strlit("unnumbered");
    reveal_strlit("unnumberedsec");
    reveal_strlit("unnumberedsubsec");
    reveal_strlit("unnumberedsubsubsec");
    reveal_strlit("validatemenus");
    reveal_strlit("value");
    reveal_strlit("verbatim");
    reveal_strlit("vindex");
    reveal_strlit("vskip");
    reveal_strlit("vtable");
    reveal_strlit("xml");
    assert("table"@[0] != "alias"@[0]);
    assert("table"@[0] != "clear"@[0]);
    assert("table"@[0] != "deffn"@[0]);
    assert("table"@[0] != "deftp"@[0]);
    assert("table"@[0] != "defun"@[0]);
    assert("table"@[0] != "defvr"@[0]);
    assert("table"@[0] != "group"@[0]);
    assert("table"@[0] != "ifset"@[0]);
    assert("table"@[0] != "iftex"@[0]);
    assert("table"@[0] != "ifxml"@[0]);
    assert("table"@[0] != "macro"@[0]);
    assert("table"@[0] != "value"@[0]);
    assert("table"@[0] != "vskip"@[0]);
    assert("ftable"@[0] != "anchor"@[0]);
    assert("ftable"@[0] != "author"@[0]);
    assert("ftable"@[0] != "cindex"@[0]);
    assert("ftable"@[0] != "defmac"@[0]);
    assert("ftable"@[0] != "defopt"@[0]);
    assert("ftable"@[0] != "defvar"@[0]);
    assert("ftable"@[0] != "exdent"@[0]);
    assert("ftable"@[1] != "findex"@[1]);
    assert("ftable"@[1] != "format"@[1]);
    assert("ftable"@[0] != "ifhtml"@[0]);
    assert("ftable"@[0] != "ifinfo"@[0]);
    assert("ftable"@[0] != "ignore"@[0]);
    assert("ftable"@[0] != "indent"@[0]);
    assert("ftable"@[0] != "kindex"@[0]);
    assert("ftable"@[0] != "pindex"@[0]);
    assert("ftable"@[0] != "rmacro"@[0]);
    assert("ftable"@[0] != "tindex"@[0]);
    assert("ftable"@[0] != "vindex"@[0]);
    assert("ftable"@[0] != "vtable"@[0]);
    assert("vtable"@[0] != "anchor"@[0]);
    assert("vtable"@[0] != "author"@[0]);
    assert("vtable"@[0] != "cindex"@[0]);
    assert("vtable"@[0] != "defmac"@[0]);
    assert("vtable"@[0] != "defopt"@[0]);
    assert("vtable"@[0] != "defvar"@[0]);
    assert("vtable"@[0] != "exdent"@[0]);
    assert("vtable"@[0] != "findex"@[0]);
    assert("vtable"@[0] != "format"@[0]);
    assert("vtable"@[0] != "ftable"@[0]);
    assert("vtable"@[0] != "ifhtml"@[0]);
    assert("vtable"@[0] != "ifinfo"@[0]);
    assert("vtable"@[0] != "ignore"@[0]);
    assert("vtable"@[0] != "indent"@[0]);
    assert("vtable"@[0] != "kindex"@[0]);
    assert("vtable"@[0] != "pindex"@[0]);
    assert("vtable"@[0] != "rmacro"@[0]);
    assert("vtable"@[0] != "tindex"@[0]);
    assert("vtable"@[1] != "vindex"@[1]);

}

/// `@ignore` and the conditionals for other output formats (`@ifhtml`,
/// `@ifxml`, `@ifdocbook`, `@iflatex`, `@iftex`, `@ifplaintext`,
/// `@ifnotinfo`) open an ignored region and add no text.
pub proof fn law_ignored_environments(st: ConverterModel, line: Seq<char>, lines: Seq<Seq<char>>, idx: int)
    requires
        st.in_ignore == 0,
        ({
            let cmd = command_name(line);
            cmd == "ignore"@ || cmd == "ifhtml"@ || cmd == "ifxml"@ || cmd == "ifdocbook"@ || cmd == "iflatex"@ || cmd == "iftex"@ || cmd == "ifplaintext"@ || cmd == "ifnotinfo"@
        }),
    ensures
        ({
            let cmd = command_name(line);
            let t = command_rest(line);
            let step = command_step(st, line, lines, idx);
            &&& step.state == (ConverterModel { in_ignore: 1, ..st })
            &&& step.next == idx + 1
            &&& step.read_file is None
        }),
{
    reveal_strlit("afivepaper");
    reveal_strlit("afourpaper");
    reveal_strlit("alias");
    reveal_strlit("allowcodebreakable");
    reveal_strlit("anchor");
    reveal_strlit("appendix");
    reveal_strlit("appendixsec");
    reveal_strlit("appendixsubsec");
    reveal_strlit("appendixsubsubsec");
    reveal_strlit("author");
    reveal_strlit("c");
    reveal_strlit("chapter");
    reveal_strlit("cindex");
    reveal_strlit("clear");
    reveal_strlit("columnfractions");
    reveal_strlit("comment");
    reveal_strlit("contents");
    reveal_strlit("copying");
    reveal_strlit("cropmarks");
    reveal_strlit("defcodeindex");
    reveal_strlit("deffn");
    reveal_strlit("defindex");
    reveal_strlit("definfoenclose");
    reveal_strlit("defmac");
    reveal_strlit("defopt");
    reveal_strlit("defspec");
    reveal_strlit("deftp");
    reveal_strlit("deftypefn");
    reveal_strlit("deftypefun");
    reveal_strlit("deftypevar");
    reveal_strlit("deftypevr");
    reveal_strlit("defun");
    reveal_strlit("defvar");
    reveal_strlit("defvr");
    reveal_strlit("detailmenu");
    reveal_strlit("dircategory");
    reveal_strlit("direntry");
    reveal_strlit("display");
    reveal_strlit("docbook");
    reveal_strlit("documentencoding");
    reveal_strlit("documentlanguage");
    reveal_strlit("end");
    reveal_strlit("enumerate");
    reveal_strlit("evenfoooting");
    reveal_strlit("evenheading");
    reveal_strlit("everyfoooting");
    reveal_strlit("everyheading");
    reveal_strlit("example");
    reveal_strlit("exampleindent");
    reveal_strlit("exdent");
    reveal_strlit("finalout");
    reveal_strlit("findex");
    reveal_strlit("firstparagraphindent");
    reveal_strlit("format");
    reveal_strlit("frenchspacing");
    reveal_strlit("ftable");
    reveal_strlit("group");
    reveal_strlit("headings");
    reveal_strlit("headitem");
    reveal_strlit("html");
    reveal_strlit("ifclear");
    reveal_strlit("ifdocbook");
    reveal_strlit("ifhtml");
    reveal_strlit("ifinfo");
    reveal_strlit("iflatex");
    reveal_strlit("ifnotdocbook");
    reveal_strlit("ifnothtml");
    reveal_strlit("ifnotinfo");
    reveal_strlit("ifnotlatex");
    reveal_strlit("ifnotplaintext");
    reveal_strlit("ifnottex");
    reveal_strlit("ifnotxml");
    reveal_strlit("ifplaintext");
    reveal_strlit("ifset");
    reveal_strlit("iftex");
    reveal_strlit("ifxml");
    reveal_strlit("ignore");
    reveal_strlit("indent");
    reveal_strlit("insertcopying");
    reveal_strlit("itemize");
    reveal_strlit("kbdinputstyle");
    reveal_strlit("kindex");
    reveal_strlit("lisp");
    reveal_strlit("macro");
    reveal_strlit("menu");
    reveal_strlit("multitable");
    reveal_strlit("need");
    reveal_strlit("node");
    reveal_strlit("noindent");
    reveal_strlit("oddfoooting");
    reveal_strlit("oddheading");
    reveal_strlit("page");
    reveal_strlit("pagesizes");
    reveal_strlit("paragraphindent");
    reveal_strlit("pindex");
    reveal_strlit("printindex");
    reveal_strlit("quotation");
    reveal_strlit("rmacro");
    reveal_strlit("section");
    reveal_strlit("set");
    reveal_strlit("setchapternewpage");
    reveal_strlit("setfilename");
    reveal_strlit("settitle");
    reveal_strlit("shortcontents");
    reveal_strlit("smallbook");
    reveal_strlit("smalldisplay");
    reveal_strlit("smallexample");
    reveal_strlit("smallformat");
    reveal_strlit("smalllisp");
    reveal_strlit("smallquotation");
    reveal_strlit("sp");
    reveal_strlit("subsection");
    reveal_strlit("subsubsection");
    reveal_strlit("subtitle");
    reveal_strlit("summarycontents");
    reveal_strlit("syncodeindex");
    reveal_strlit("synindex");
    reveal_strlit("table");
    reveal_strlit("tex");
    reveal_strlit("tindex");
    reveal_strlit("titlepage");
    reveal_strlit("top");
    reveal_strlit("unnumbered");
    reveal_strlit("unnumberedsec");
    reveal_strlit("unnumberedsubsec");
    reveal_strlit("unnumberedsubsubsec");
    reveal_strlit("validatemenus");
    reveal_strlit("value");
    reveal_strlit("verbatim");
    reveal_strlit("vindex");
    reveal_strlit("vskip");
    reveal_strlit("vtable");
    reveal_strlit("xml");
    assert("ignore"@[0] != "anchor"@[0]);
    assert("ignore"@[0] != "author"@[0]);
    assert("ignore"@[0] != "cindex"@[0]);
    assert("ignore"@[0] != "defmac"@[0]);
    assert("ignore"@[0] != "defopt"@[0]);
    assert("ignore"@[0] != "defvar"@[0]);
    assert("ignore"@[0] != "exdent"@[0]);
    assert("ignore"@[0] != "findex"@[0]);
    assert("ignore"@[0] != "format"@[0]);
    assert("ignore"@[0] != "ftable"@[0]);
    assert("ignore"@[1] != "ifhtml"@[1]);
    assert("ignore"@[1] != "ifinfo"@[1]);
    assert("ignore"@[1] != "indent"@[1]);
    assert("ignore"@[0] != "kindex"@[0]);
    assert("ignore"@[0] != "pindex"@[0]);
    assert("ignore"@[0] != "rmacro"@[0]);
    assert("ignore"@[0] != "tindex"@[0]);
    assert("ignore"@[0] != "vindex"@[0]);
    assert("ignore"@[0] != "vtable"@[0]);
    assert("ifhtml"@[0] != "anchor"@[0]);
    assert("ifhtml"@[0] != "author"@[0]);
    assert("ifhtml"@[0] != "cindex"@[0]);
    assert("ifhtml"@[0] != "defmac"@[0]);
    assert("ifhtml"@[0] != "defopt"@[0]);
    assert("ifhtml"@[0] != "defvar"@[0]);
    assert("ifhtml"@[0] != "exdent"@[0]);
    assert("ifhtml"@[0] != "findex"@[0]);
    assert("ifhtml"@[0] != "format"@[0]);
    assert("ifhtml"@[0] != "ftable"@[0]);
    assert("ifhtml"@[2] != "ifinfo"@[2]);
    assert("ifhtml"@[1] != "ignore"@[1]);
    assert("ifhtml"@[1] != "indent"@[1]);
    assert("ifhtml"@[0] != "kindex"@[0]);
    assert("ifhtml"@[0] != "pindex"@[0]);
    assert("ifhtml"@[0] != "rmacro"@[0]);
    assert("ifhtml"@[0] != "tindex"@[0]);
    assert("ifhtml"@[0] != "vindex"@[0]);
    assert("ifhtml"@[0] != "vtable"@[0]);
    assert("ifxml"@[0] != "alias"@[0]);
    assert("ifxml"@[0] != "clear"@[0]);
    assert("ifxml"@[0] != "deffn"@[0]);
    assert("ifxml"@[0] != "deftp"@[0]);
    assert("ifxml"@[0] != "defun"@[0]);
    assert("ifxml"@[0] != "defvr"@[0]);
    assert("ifxml"@[0] != "group"@[0]);
    assert("ifxml"@[2] != "ifset"@[2]);
    assert("ifxml"@[2] != "iftex"@[2]);
    assert("ifxml"@[0] != "macro"@[0]);
    assert("ifxml"@[0] != "table"@[0]);
    assert("ifxml"@[0] != "value"@[0]);
    assert("ifxml"@[0] != "vskip"@[0]);
    assert("ifdocbook"@[0] != "cropmarks"@[0]);
    assert("ifdocbook"@[0] != "deftypefn"@[0]);
    assert("ifdocbook"@[0] != "deftypevr"@[0]);
    assert("ifdocbook"@[0] != "enumerate"@[0]);
    assert("ifdocbook"@[2] != "ifnothtml"@[2]);
    assert("ifdocbook"@[2] != "ifnotinfo"@[2]);
    assert("ifdocbook"@[0] != "pagesizes"@[0]);
    assert("ifdocbook"@[0] != "quotation"@[0]);
    assert("ifdocbook"@[0] != "smallbook"@[0]);
    assert("ifdocbook"@[0] != "smalllisp"@[0]);
    assert("ifdocbook"@[0] != "titlepage"@[0]);
    assert("iflatex"@[0] != "chapter"@[0]);
    assert("iflatex"@[0] != "comment"@[0]);
    assert("iflatex"@[0] != "copying"@[0]);
    assert("iflatex"@[0] != "defspec"@[0]);
    assert("iflatex"@[0] != "display"@[0]);
    assert("iflatex"@[0] != "docbook"@[0]);
    assert("iflatex"@[0] != "example"@[0]);
    assert("iflatex"@[2] != "ifclear"@[2]);
    assert("iflatex"@[1] != "itemize"@[1]);
    assert("iflatex"@[0] != "section"@[0]);
    assert("iflatex"@[1] != file_command()[1]);
    assert("iftex"@[0] != "alias"@[0]);
    assert("iftex"@[0] != "clear"@[0]);
    assert("iftex"@[0] != "deffn"@[0]);
    assert("iftex"@[0] != "deftp"@[0]);
    assert("iftex"@[0] != "defun"@[0]);
    assert("iftex"@[0] != "defvr"@[0]);
    assert("iftex"@[0] != "group"@[0]);
    assert("iftex"@[2] != "ifset"@[2]);
    assert("iftex"@[2] != "ifxml"@[2]);
    assert("iftex"@[0] != "macro"@[0]);
    assert("iftex"@[0] != "table"@[0]);
    assert("iftex"@[0] != "value"@[0]);
    assert("iftex"@[0] != "vskip"@[0]);
    assert("ifplaintext"@[0] != "appendixsec"@[0]);
    assert("ifplaintext"@[0] != "dircategory"@[0]);
    assert("ifplaintext"@[0] != "evenheading"@[0]);
    assert("ifplaintext"@[0] != "oddfoooting"@[0]);
    assert("ifplaintext"@[0] != "setfilename"@[0]);
    assert("ifplaintext"@[0] != "smallformat"@[0]);
    assert("ifnotinfo"@[0] != "cropmarks"@[0]);
    assert("ifnotinfo"@[0] != "deftypefn"@[0]);
    assert("ifnotinfo"@[0] != "deftypevr"@[0]);
    assert("ifnotinfo"@[0] != "enumerate"@[0]);
    assert("ifnotinfo"@[2] != "ifdocbook"@[2]);
    assert("ifnotinfo"@[5] != "ifnothtml"@[5]);
    assert("ifnotinfo"@[0] != "pagesizes"@[0]);
    assert("ifnotinfo"@[0] != "quotation"@[0]);
    assert("ifnotinfo"@[0] != "smallbook"@[0]);
    assert("ifnotinfo"@[0] != "smalllisp"@[0]);
    assert("ifnotinfo"@[0] != "titlepage"@[0]);

}

/// The conditionals whose lines belong to Info output (`@ifinfo`,
/// `@ifnottex`, ...) change nothing.
pub proof fn law_info_conditionals(st: ConverterModel, line: Seq<char>, lines: Seq<Seq<char>>, idx: int)
    requires
        st.in_ignore == 0,
        ({
            let cmd = command_name(line);
            cmd == "ifinfo"@ || cmd == "ifnottex"@ || cmd == "ifnothtml"@ || cmd == "ifnotxml"@ || cmd == "ifnotdocbook"@ || cmd == "ifnotlatex"@ || cmd == "ifnotplaintext"@
        }),
    ensures
        ({
            let cmd = command_name(line);
            let t = command_rest(line);
            let step = command_step(st, line, lines, idx);
            &&& step.state == st
            &&& step.next == idx + 1
            &&& step.read_file is None
        }),
{
    reveal_strlit("afivepaper");
    reveal_strlit("afourpaper");
    reveal_strlit("alias");
    reveal_strlit("allowcodebreakable");
    reveal_strlit("anchor");
    reveal_strlit("appendix");
    reveal_strlit("appendixsec");
    reveal_strlit("appendixsubsec");
    reveal_strlit("appendixsubsubsec");
    reveal_strlit("author");
    reveal_strlit("c");
    reveal_strlit("chapter");
    reveal_strlit("cindex");
    reveal_strlit("clear");
    reveal_strlit("columnfractions");
    reveal_strlit("comment");
    reveal_strlit("contents");
    reveal_strlit("copying");
    reveal_strlit("cropmarks");
    reveal_strlit("defcodeindex");
    reveal_strlit("deffn");
    reveal_strlit("defindex");
    reveal_strlit("definfoenclose");
    reveal_strlit("defmac");
    reveal_strlit("defopt");
    reveal_strlit("defspec");
    reveal_strlit("deftp");
    reveal_strlit("deftypefn");
    reveal_strlit("deftypefun");
    reveal_strlit("deftypevar");
    reveal_strlit("deftypevr");
    reveal_strlit("defun");
    reveal_strlit("defvar");
    reveal_strlit("defvr");
    reveal_strlit("detailmenu");
    reveal_strlit("dircategory");
    reveal_strlit("direntry");
    reveal_strlit("display");
    reveal_strlit("docbook");
    reveal_strlit("documentencoding");
    reveal_strlit("documentlanguage");
    reveal_strlit("end");
    reveal_strlit("enumerate");
    reveal_strlit("evenfoooting");
    reveal_strlit("evenheading");
    reveal_strlit("everyfoooting");
    reveal_strlit("everyheading");
    reveal_strlit("example");
    reveal_strlit("exampleindent");
    reveal_strlit("exdent");
    reveal_strlit("finalout");
    reveal_strlit("findex");
    reveal_strlit("firstparagraphindent");
    reveal_strlit("format");
    reveal_strlit("frenchspacing");
    reveal_strlit("ftable");
    reveal_strlit("group");
    reveal_strlit("headings");
    reveal_strlit("headitem");
    reveal_strlit("html");
    reveal_strlit("ifclear");
    reveal_strlit("ifdocbook");
    reveal_strlit("ifhtml");
    reveal_strlit("ifinfo");
    reveal_strlit("iflatex");
    reveal_strlit("ifnotdocbook");
    reveal_strlit("ifnothtml");
    reveal_strlit("ifnotinfo");
    reveal_strlit("ifnotlatex");
    reveal_strlit("ifnotplaintext");
    reveal_strlit("ifnottex");
    reveal_strlit("ifnotxml");
    reveal_strlit("ifplaintext");
    reveal_strlit("ifset");
    reveal_strlit("iftex");
    reveal_strlit("ifxml");
    reveal_strlit("ignore");
    reveal_strlit("indent");
    reveal_strlit("insertcopying");
    reveal_strlit("itemize");
    reveal_strlit("kbdinputstyle");
    reveal_strlit("kindex");
    reveal_strlit("lisp");
    reveal_strlit("macro");
    reveal_strlit("menu");
    reveal_strlit("multitable");
    reveal_strlit("need");
    reveal_strlit("node");
    reveal_strlit("noindent");
    reveal_strlit("oddfoooting");
    reveal_strlit("oddheading");
    reveal_strlit("page");
    reveal_strlit("pagesizes");
    reveal_strlit("paragraphindent");
    reveal_strlit("pindex");
    reveal_strlit("printindex");
    reveal_strlit("quotation");
    reveal_strlit("rmacro");
    reveal_strlit("section");
    reveal_strlit("set");
    reveal_strlit("setchapternewpage");
    reveal_strlit("setfilename");
    reveal_strlit("settitle");
    reveal_strlit("shortcontents");
    reveal_strlit("smallbook");
    reveal_strlit("smalldisplay");
    reveal_strlit("smallexample");
    reveal_strlit("smallformat");
    reveal_strlit("smalllisp");
    reveal_strlit("smallquotation");
    reveal_strlit("sp");
    reveal_strlit("subsection");
    reveal_strlit("subsubsection");
    reveal_strlit("subtitle");
    reveal_strlit("summarycontents");
    reveal_strlit("syncodeindex");
    reveal_strlit("synindex");
    reveal_strlit("table");
    reveal_strlit("tex");
    reveal_strlit("tindex");
    reveal_strlit("titlepage");
    reveal_strlit("top");
    reveal_strlit("unnumbered");
    reveal_strlit("unnumberedsec");
    reveal_strlit("unnumberedsubsec");
    reveal_strlit("unnumberedsubsubsec");
    reveal_strlit("validatemenus");
    reveal_strlit("value");
    reveal_strlit("verbatim");
    reveal_strlit("vindex");
    reveal_strlit("vskip");
    reveal_strlit("vtable");
    reveal_strlit("xml");
    assert("ifinfo"@[0] != "anchor"@[0]);
    assert("ifinfo"@[0] != "author"@[0]);
    assert("ifinfo"@[0] != "cindex"@[0]);
    assert("ifinfo"@[0] != "defmac"@[0]);
    assert("ifinfo"@[0] != "defopt"@[0]);
    assert("ifinfo"@[0] != "defvar"@[0]);
    assert("ifinfo"@[0] != "exdent"@[0]);
    assert("ifinfo"@[0] != "findex"@[0]);
    assert("ifinfo"@[0] != "format"@[0]);
    assert("ifinfo"@[0] != "ftable"@[0]);
    assert("ifinfo"@[2] != "ifhtml"@[2]);
    assert("ifinfo"@[1] != "ignore"@[1]);
    assert("ifinfo"@[1] != "indent"@[1]);
    assert("ifinfo"@[0] != "kindex"@[0]);
    assert("ifinfo"@[0] != "pindex"@[0]);
    assert("ifinfo"@[0] != "rmacro"@[0]);
    assert("ifinfo"@[0] != "tindex"@[0]);
    assert("ifinfo"@[0] != "vindex"@[0]);
    assert("ifinfo"@[0] != "vtable"@[0]);
    assert("ifnottex"@[0] != "appendix"@[0]);
    assert("ifnottex"@[0] != "contents"@[0]);
    assert("ifnottex"@[0] != "defindex"@[0]);
    assert("ifnottex"@[0] != "direntry"@[0]);
    assert("ifnottex"@[0] != "finalout"@[0]);
    assert("ifnottex"@[0] != "headings"@[0]);
    assert("ifnottex"@[0] != "headitem"@[0]);
    assert("ifnottex"@[5] != "ifnotxml"@[5]);
    assert("ifnottex"@[0] != "noindent"@[0]);
    assert("ifnottex"@[0] != "settitle"@[0]);
    assert("ifnottex"@[0] != "subtitle"@[0]);
    assert("ifnottex"@[0] != "synindex"@[0]);
    assert("ifnottex"@[0] != "verbatim"@[0]);
    assert("ifnothtml"@[0] != "cropmarks"@[0]);
    assert("ifnothtml"@[0] != "deftypefn"@[0]);
    assert("ifnothtml"@[0] != "deftypevr"@[0]);
    assert("ifnothtml"@[0] != "enumerate"@[0]);
    assert("ifnothtml"@[2] != "ifdocbook"@[2]);
    assert("ifnothtml"@[5] != "ifnotinfo"@[5]);
    assert("ifnothtml"@[0] != "pagesizes"@[0]);
    assert("ifnothtml"@[0] != "quotation"@[0]);
    assert("ifnothtml"@[0] != "smallbook"@[0]);
    assert("ifnothtml"@[0] != "smalllisp"@[0]);
    assert("ifnothtml"@[0] != "titlepage"@[0]);
    assert("ifnotxml"@[0] != "appendix"@[0]);
    assert("ifnotxml"@[0] != "contents"@[0]);
    assert("ifnotxml"@[0] != "defindex"@[0]);
    assert("ifnotxml"@[0] != "direntry"@[0]);
    assert("ifnotxml"@[0] != "finalout"@[0]);
    assert("ifnotxml"@[0] != "headings"@[0]);
    assert("ifnotxml"@[0] != "headitem"@[0]);
    assert("ifnotxml"@[5] != "ifnottex"@[5]);
    assert("ifnotxml"@[0] != "noindent"@[0]);
    assert("ifnotxml"@[0] != "settitle"@[0]);
    assert("ifnotxml"@[0] != "subtitle"@[0]);
    assert("ifnotxml"@[0] != "synindex"@[0]);
    assert("ifnotxml"@[0] != "verbatim"@[0]);
    assert("ifnotdocbook"@[0] != "defcodeindex"@[0]);
    assert("ifnotdocbook"@[0] != "evenfoooting"@[0]);
    assert("ifnotdocbook"@[0] != "everyheading"@[0]);
    assert("ifnotdocbook"@[0] != "smalldisplay"@[0]);
    assert("ifnotdocbook"@[0] != "smallexample"@[0]);
    assert("ifnotdocbook"@[0] != "syncodeindex"@[0]);
    assert("ifnotlatex"@[0] != "afivepaper"@[0]);
    assert("ifnotlatex"@[0] != "afourpaper"@[0]);
    assert("ifnotlatex"@[0] != "deftypefun"@[0]);
    assert("ifnotlatex"@[0] != "deftypevar"@[0]);
    assert("ifnotlatex"@[0] != "detailmenu"@[0]);
    assert("ifnotlatex"@[0] != "multitable"@[0]);
    assert("ifnotlatex"@[0] != "oddheading"@[0]);
    assert("ifnotlatex"@[0] != "printindex"@[0]);
    assert("ifnotlatex"@[0] != "subsection"@[0]);
    assert("ifnotlatex"@[0] != "unnumbered"@[0]);
    assert("ifnotplaintext"@[0] != "appendixsubsec"@[0]);
    assert("ifnotplaintext"@[0] != "definfoenclose"@[0]);
    assert("ifnotplaintext"@[0] != "smallquotation"@[0]);

}

/// Index commands change nothing in Info output.
pub proof fn law_index_commands(st: ConverterModel, line: Seq<char>, lines: Seq<Seq<char>>, idx: int)
    requires
        st.in_ignore == 0,
        ({
            let cmd = command_name(line);
            cmd == "cindex"@ || cmd == "findex"@ || cmd == "vindex"@ || cmd == "pindex"@ || cmd == "tindex"@ || cmd == "kindex"@ || cmd == "defindex"@ || cmd == "defcodeindex"@ || cmd == "synindex"@ || cmd == "syncodeindex"@ || cmd == "printindex"@
        }),
    ensures
        ({
            let cmd = command_name(line);
            let t = command_rest(line);
            let step = command_step(st, line, lines, idx);
            &&& step.state == st
            &&& step.next == idx + 1
            &&& step.read_file is None
        }),
{
    reveal_strlit("afivepaper");
    reveal_strlit("afourpaper");
    reveal_strlit("alias");
    reveal_strlit("allowcodebreakable");
    reveal_strlit("anchor");
    reveal_strlit("appendix");
    reveal_strlit("appendixsec");
    reveal_strlit("appendixsubsec");
    reveal_strlit("appendixsubsubsec");
    reveal_strlit("author");
    reveal_strlit("c");
    reveal_strlit("chapter");
    reveal_strlit("cindex");
    reveal_strlit("clear");
    reveal_strlit("columnfractions");
    reveal_strlit("comment");
    reveal_strlit("contents");
    reveal_strlit("copying");
    reveal_strlit("cropmarks");
    reveal_strlit("defcodeindex");
    reveal_strlit("deffn");
    reveal_strlit("defindex");
    reveal_strlit("definfoenclose");
    reveal_strlit("defmac");
    reveal_strlit("defopt");
    reveal_strlit("defspec");
    reveal_strlit("deftp");
    reveal_strlit("deftypefn");
    reveal_strlit("deftypefun");
    reveal_strlit("deftypevar");
    reveal_strlit("deftypevr");
    reveal_strlit("defun");
    reveal_strlit("defvar");
    reveal_strlit("defvr");
    reveal_strlit("detailmenu");
    reveal_strlit("dircategory");
    reveal_strlit("direntry");
    reveal_strlit("display");
    reveal_strlit("docbook");
    reveal_strlit("documentencoding");
    reveal_strlit("documentlanguage");
    reveal_strlit("end");
    reveal_strlit("enumerate");
    reveal_strlit("evenfoooting");
    reveal_strlit("evenheading");
    reveal_strlit("everyfoooting");
    reveal_strlit("everyheading");
    reveal_strlit("example");
    reveal_strlit("exampleindent");
    reveal_strlit("exdent");
    reveal_strlit("finalout");
    reveal_strlit("findex");
    reveal_strlit("firstparagraphindent");
    reveal_strlit("format");
    reveal_strlit("frenchspacing");
    reveal_strlit("ftable");
    reveal_strlit("group");
    reveal_strlit("headings");
    reveal_strlit("headitem");
    reveal_strlit("html");
    reveal_strlit("ifclear");
    reveal_strlit("ifdocbook");
    reveal_strlit("ifhtml");
    reveal_strlit("ifinfo");
    reveal_strlit("iflatex");
    reveal_strlit("ifnotdocbook");
    reveal_strlit("ifnothtml");
    reveal_strlit("ifnotinfo");
    reveal_strlit("ifnotlatex");
    reveal_strlit("ifnotplaintext");
    reveal_strlit("ifnottex");
    reveal_strlit("ifnotxml");
    reveal_strlit("ifplaintext");
    reveal_strlit("ifset");
    reveal_strlit("iftex");
    reveal_strlit("ifxml");
    reveal_strlit("ignore");
    reveal_strlit("indent");
    reveal_strlit("insertcopying");
    reveal_strlit("itemize");
    reveal_strlit("kbdinputstyle");
    reveal_strlit("kindex");
    reveal_strlit("lisp");
    reveal_strlit("macro");
    reveal_strlit("menu");
    reveal_strlit("multitable");
    reveal_strlit("need");
    reveal_strlit("node");
    reveal_strlit("noindent");
    reveal_strlit("oddfoooting");
    reveal_strlit("oddheading");
    reveal_strlit("page");
    reveal_strlit("pagesizes");
    reveal_strlit("paragraphindent");
    reveal_strlit("pindex");
    reveal_strlit("printindex");
    reveal_strlit("quotation");
    reveal_strlit("rmacro");
    reveal_strlit("section");
    reveal_strlit("set");
    reveal_strlit("setchapternewpage");
    reveal_strlit("setfilename");
    reveal_strlit("settitle");
    reveal_strlit("shortcontents");
    reveal_strlit("smallbook");
    reveal_strlit("smalldisplay");
    reveal_strlit("smallexample");
    reveal_strlit("smallformat");
    reveal_strlit("smalllisp");
    reveal_strlit("smallquotation");
    reveal_strlit("sp");
    reveal_strlit("subsection");
    reveal_strlit("subsubsection");
    reveal_strlit("subtitle");
    reveal_strlit("summarycontents");
    reveal_strlit("syncodeindex");
    reveal_strlit("synindex");
    reveal_strlit("table");
    reveal_strlit("tex");
    reveal_strlit("tindex");
    reveal_strlit("titlepage");
    reveal_strlit("top");
    reveal_strlit("unnumbered");
    reveal_strlit("unnumberedsec");
    reveal_strlit("unnumberedsubsec");
    reveal_strlit("unnumberedsubsubsec");
    reveal_strlit("validatemenus");
    reveal_strlit("value");
    reveal_strlit("verbatim");
    reveal_strlit("vindex");
    reveal_strlit("vskip");
    reveal_strlit("vtable");
    reveal_strlit("xml");
    assert("cindex"@[0] != "anchor"@[0]);
    assert("cindex"@[0] != "author"@[0]);
    assert("cindex"@[0] != "defmac"@[0]);
    assert("cindex"@[0] != "defopt"@[0]);
    assert("cindex"@[0] != "defvar"@[0]);
    assert("cindex"@[0] != "exdent"@[0]);
    assert("cindex"@[0] != "findex"@[0]);
    assert("cindex"@[0] != "format"@[0]);
    assert("cindex"@[0] != "ftable"@[0]);
    assert("cindex"@[0] != "ifhtml"@[0]);
    assert("cindex"@[0] != "ifinfo"@[0]);
    assert("cindex"@[0] != "ignore"@[0]);
    assert("cindex"@[0] != "indent"@[0]);
    assert("cindex"@[0] != "kindex"@[0]);
    assert("cindex"@[0] != "pindex"@[0]);
    assert("cindex"@[0] != "rmacro"@[0]);
    assert("cindex"@[0] != "tindex"@[0]);
    assert("cindex"@[0] != "vindex"@[0]);
    assert("cindex"@[0] != "vtable"@[0]);
    assert("findex"@[0] != "anchor"@[0]);
    assert("findex"@[0] != "author"@[0]);
    assert("findex"@[0] != "cindex"@[0]);
    assert("findex"@[0] != "defmac"@[0]);
    assert("findex"@[0] != "defopt"@[0]);
    assert("findex"@[0] != "defvar"@[0]);
    assert("findex"@[0] != "exdent"@[0]);
    assert("findex"@[1] != "format"@[1]);
    assert("findex"@[1] != "ftable"@[1]);
    assert("findex"@[0] != "ifhtml"@[0]);
    assert("findex"@[0] != "ifinfo"@[0]);
    assert("findex"@[0] != "ignore"@[0]);
    assert("findex"@[0] != "indent"@[0]);
    assert("findex"@[0] != "kindex"@[0]);
    assert("findex"@[0] != "pindex"@[0]);
    assert("findex"@[0] != "rmacro"@[0]);
    assert("findex"@[0] != "tindex"@[0]);
    assert("findex"@[0] != "vindex"@[0]);
    assert("findex"@[0] != "vtable"@[0]);
    assert("vindex"@[0] != "anchor"@[0]);
    assert("vindex"@[0] != "author"@[0]);
    assert("vindex"@[0] != "cindex"@[0]);
    assert("vindex"@[0] != "defmac"@[0]);
    assert("vindex"@[0] != "defopt"@[0]);
    assert("vindex"@[0] != "defvar"@[0]);
    assert("vindex"@[0] != "exdent"@[0]);
    assert("vindex"@[0] != "findex"@[0]);
    assert("vindex"@[0] != "format"@[0]);
    assert("vindex"@[0] != "ftable"@[0]);
    assert("vindex"@[0] != "ifhtml"@[0]);
    assert("vindex"@[0] != "ifinfo"@[0]);
    assert("vindex"@[0] != "ignore"@[0]);
    assert("vindex"@[0] != "indent"@[0]);
    assert("vindex"@[0] != "kindex"@[0]);
    assert("vindex"@[0] != "pindex"@[0]);
    assert("vindex"@[0] != "rmacro"@[0]);
    assert("vindex"@[0] != "tindex"@[0]);
    assert("vindex"@[1] != "vtable"@[1]);
    assert("pindex"@[0] != "anchor"@[0]);
    assert("pindex"@[0] != "author"@[0]);
    assert("pindex"@[0] != "cindex"@[0]);
    assert("pindex"@[0] != "defmac"@[0]);
    assert("pindex"@[0] != "defopt"@[0]);
    assert("pindex"@[0] != "defvar"@[0]);
    assert("pindex"@[0] != "exdent"@[0]);
    assert("pindex"@[0] != "findex"@[0]);
    assert("pindex"@[0] != "format"@[0]);
    assert("pindex"@[0] != "ftable"@[0]);
    assert("pindex"@[0] != "ifhtml"@[0]);
    assert("pindex"@[0] != "ifinfo"@[0]);
    assert("pindex"@[0] != "ignore"@[0]);
    assert("pindex"@[0] != "indent"@[0]);
    assert("pindex"@[0] != "kindex"@[0]);
    assert("pindex"@[0] != "rmacro"@[0]);
    assert("pindex"@[0] != "tindex"@[0]);
    assert("pindex"@[0] != "vindex"@[0]);
    assert("pindex"@[0] != "vtable"@[0]);
    assert("tindex"@[0] != "anchor"@[0]);
    assert("tindex"@[0] != "author"@[0]);
    assert("tindex"@[0] != "cindex"@[0]);
    assert("tindex"@[0] != "defmac"@[0]);
    assert("tindex"@[0] != "defopt"@[0]);
    assert("tindex"@[0] != "defvar"@[0]);
    assert("tindex"@[0] != "exdent"@[0]);
    assert("tindex"@[0] != "findex"@[0]);
    assert("tindex"@[0] != "format"@[0]);
    assert("tindex"@[0] != "ftable"@[0]);
    assert("tindex"@[0] != "ifhtml"@[0]);
    assert("tindex"@[0] != "ifinfo"@[0]);
    assert("tindex"@[0] != "ignore"@[0]);
    assert("tindex"@[0] != "indent"@[0]);
    assert("tindex"@[0] != "kindex"@[0]);
    assert("tindex"@[0] != "pindex"@[0]);
    assert("tindex"@[0] != "rmacro"@[0]);
    assert("tindex"@[0] != "vindex"@[0]);
    assert("tindex"@[0] != "vtable"@[0]);
    assert("kindex"@[0] != "anchor"@[0]);
    assert("kindex"@[0] != "author"@[0]);
    assert("kindex"@[0] != "cindex"@[0]);
    assert("kindex"@[0] != "defmac"@[0]);
    assert("kindex"@[0] != "defopt"@[0]);
    assert("kindex"@[0] != "defvar"@[0]);
    assert("kindex"@[0] != "exdent"@[0]);
    assert("kindex"@[0] != "findex"@[0]);
    assert("kindex"@[0] != "format"@[0]);
    assert("kindex"@[0] != "ftable"@[0]);
    assert("kindex"@[0] != "ifhtml"@[0]);
    assert("kindex"@[0] != "ifinfo"@[0]);
    assert("kindex"@[0] != "ignore"@[0]);
    assert("kindex"@[0] != "indent"@[0]);
    assert("kindex"@[0] != "pindex"@[0]);
    assert("kindex"@[0] != "rmacro"@[0]);
    assert("kindex"@[0] != "tindex"@[0]);
    assert("kindex"@[0] != "vindex"@[0]);
    assert("kindex"@[0] != "vtable"@[0]);
    assert("defindex"@[0] != "appendix"@[0]);
    assert("defindex"@[0] != "contents"@[0]);
    assert("defindex"@[1] != "direntry"@[1]);
    assert("defindex"@[0] != "finalout"@[0]);
    assert("defindex"@[0] != "headings"@[0]);
    assert("defindex"@[0] != "headitem"@[0]);
    assert("defindex"@[0] != "ifnottex"@[0]);
    assert("defindex"@[0] != "ifnotxml"@[0]);
    assert("defindex"@[0] != "noindent"@[0]);
    assert("defindex"@[0] != "settitle"@[0]);
    assert("defindex"@[0] != "subtitle"@[0]);
    assert("defindex"@[0] != "synindex"@[0]);
    assert("defindex"@[0] != "verbatim"@[0]);
    assert("defcodeindex"@[0] != "evenfoooting"@[0]);
    assert("defcodeindex"@[0] != "everyheading"@[0]);
    assert("defcodeindex"@[0] != "ifnotdocbook"@[0]);
    assert("defcodeindex"@[0] != "smalldisplay"@[0]);
    assert("defcodeindex"@[0] != "smallexample"@[0]);
    assert("defcodeindex"@[0] != "syncodeindex"@[0]);
    assert("synindex"@[0] != "appendix"@[0]);
    assert("synindex"@[0] != "contents"@[0]);
    assert("synindex"@[0] != "defindex"@[0]);
    assert("synindex"@[0] != "direntry"@[0]);
    assert("synindex"@[0] != "finalout"@[0]);
    assert("synindex"@[0] != "headings"@[0]);
    assert("synindex"@[0] != "headitem"@[0]);
    assert("synindex"@[0] != "ifnottex"@[0]);
    assert("synindex"@[0] != "ifnotxml"@[0]);
    assert("synindex"@[0] != "noindent"@[0]);
    assert("synindex"@[1] != "settitle"@[1]);
    assert("synindex"@[1] != "subtitle"@[1]);
    assert("synindex"@[0] != "verbatim"@[0]);
    assert("syncodeindex"@[0] != "defcodeindex"@[0]);
    assert("syncodeindex"@[0] != "evenfoooting"@[0]);
    assert("syncodeindex"@[0] != "everyheading"@[0]);
    assert("syncodeindex"@[0] != "ifnotdocbook"@[0]);
    assert("syncodeindex"@[1] != "smalldisplay"@[1]);
    assert("syncodeindex"@[1] != "smallexample"@[1]);
    assert("printindex"@[0] != "afivepaper"@[0]);
    assert("printindex"@[0] != "afourpaper"@[0]);
    assert("printindex"@[0] != "deftypefun"@[0]);
    assert("printindex"@[0] != "deftypevar"@[0]);
    assert("printindex"@[0] != "detailmenu"@[0]);
    assert("printindex"@[0] != "ifnotlatex"@[0]);
    assert("printindex"@[0] != "multitable"@[0]);
    assert("printindex"@[0] != "oddheading"@[0]);
    assert("printindex"@[0] != "subsection"@[0]);
    assert("printindex"@[0] != "unnumbered"@[0]);

}

/// `@copying`, `@direntry`, `@macro` and the other skipped environments
/// change nothing, and reading goes on after their `@end` line.
pub proof fn law_skipped_environments(st: ConverterModel, line: Seq<char>, lines: Seq<Seq<char>>, idx: int)
    requires
        st.in_ignore == 0,
        ({
            let cmd = command_name(line);
            cmd == "direntry"@ || cmd == "copying"@ || cmd == "detailmenu"@ || cmd == "macro"@ || cmd == "rmacro"@ || cmd == "html"@ || cmd == "tex"@ || cmd == "docbook"@ || cmd == "xml"@ || cmd == "group"@
        }),
    ensures
        ({
            let cmd = command_name(line);
            let t = command_rest(line);
            let step = command_step(st, line, lines, idx);
            &&& step.state == st
            &&& step.next == block_end(lines, idx + 1, cmd) + 1
            &&& step.read_file is None
        }),
{
    reveal_strlit("afivepaper");
    reveal_strlit("afourpaper");
    reveal_strlit("alias");
    reveal_strlit("allowcodebreakable");
    reveal_strlit("anchor");
    reveal_strlit("appendix");
    reveal_strlit("appendixsec");
    reveal_strlit("appendixsubsec");
    reveal_strlit("appendixsubsubsec");
    reveal_strlit("author");
    reveal_strlit("c");
    reveal_strlit("chapter");
    reveal_strlit("cindex");
    reveal_strlit("clear");
    reveal_strlit("columnfractions");
    reveal_strlit("comment");
    reveal_strlit("contents");
    reveal_strlit("copying");
    reveal_strlit("cropmarks");
    reveal_strlit("defcodeindex");
    reveal_strlit("deffn");
    reveal_strlit("defindex");
    reveal_strlit("definfoenclose");
    reveal_strlit("defmac");
    reveal_strlit("defopt");
    reveal_strlit("defspec");
    reveal_strlit("deftp");
    reveal_strlit("deftypefn");
    reveal_strlit("deftypefun");
    reveal_strlit("deftypevar");
    reveal_strlit("deftypevr");
    reveal_strlit("defun");
    reveal_strlit("defvar");
    reveal_strlit("defvr");
    reveal_strlit("detailmenu");
    reveal_strlit("dircategory");
    reveal_strlit("direntry");
    reveal_strlit("display");
    reveal_strlit("docbook");
    reveal_strlit("documentencoding");
    reveal_strlit("documentlanguage");
    reveal_strlit("end");
    reveal_strlit("enumerate");
    reveal_strlit("evenfoooting");
    reveal_strlit("evenheading");
    reveal_strlit("everyfoooting");
    reveal_strlit("everyheading");
    reveal_strlit("example");
    reveal_strlit("exampleindent");
    reveal_strlit("exdent");
    reveal_strlit("finalout");
    reveal_strlit("findex");
    reveal_strlit("firstparagraphindent");
    reveal_strlit("format");
    reveal_strlit("frenchspacing");
    reveal_strlit("ftable");
    reveal_strlit("group");
    reveal_strlit("headings");
    reveal_strlit("headitem");
    reveal_strlit("html");
    reveal_strlit("ifclear");
    reveal_strlit("ifdocbook");
    reveal_strlit("ifhtml");
    reveal_strlit("ifinfo");
    reveal_strlit("iflatex");
    reveal_strlit("ifnotdocbook");
    reveal_strlit("ifnothtml");
    reveal_strlit("ifnotinfo");
    reveal_strlit("ifnotlatex");
    reveal_strlit("ifnotplaintext");
    reveal_strlit("ifnottex");
    reveal_strlit("ifnotxml");
    reveal_strlit("ifplaintext");
    reveal_strlit("ifset");
    reveal_strlit("iftex");
    reveal_strlit("ifxml");
    reveal_strlit("ignore");
    reveal_strlit("indent");
    reveal_strlit("insertcopying");
    reveal_strlit("itemize");
    reveal_strlit("kbdinputstyle");
    reveal_strlit("kindex");
    reveal_strlit("lisp");
    reveal_strlit("macro");
    reveal_strlit("menu");
    reveal_strlit("multitable");
    reveal_strlit("need");
    reveal_strlit("node");
    reveal_strlit("noindent");
    reveal_strlit("oddfoooting");
    reveal_strlit("oddheading");
    reveal_strlit("page");
    reveal_strlit("pagesizes");
    reveal_strlit("paragraphindent");
    reveal_strlit("pindex");
    reveal_strlit("printindex");
    reveal_strlit("quotation");
    reveal_strlit("rmacro");
    reveal_strlit("section");
    reveal_strlit("set");
    reveal_strlit("setchapternewpage");
    reveal_strlit("setfilename");
    reveal_strlit("settitle");
    reveal_strlit("shortcontents");
    reveal_strlit("smallbook");
    reveal_strlit("smalldisplay");
    reveal_strlit("smallexample");
    reveal_strlit("smallformat");
    reveal_strlit("smalllisp");
    reveal_strlit("smallquotation");
    reveal_strlit("sp");
    reveal_strlit("subsection");
    reveal_strlit("subsubsection");
    reveal_strlit("subtitle");
    reveal_strlit("summarycontents");
    reveal_strlit("syncodeindex");
    reveal_strlit("synindex");
    reveal_strlit("table");
    reveal_strlit("tex");
    reveal_strlit("tindex");
    reveal_strlit("titlepage");
    reveal_strlit("top");
    reveal_strlit("unnumbered");
    reveal_strlit("unnumberedsec");
    reveal_strlit("unnumberedsubsec");
    reveal_strlit("unnumberedsubsubsec");
    reveal_strlit("validatemenus");
    reveal_strlit("value");
    reveal_strlit("verbatim");
    reveal_strlit("vindex");
    reveal_strlit("vskip");
    reveal_strlit("vtable");
    reveal_strlit("xml");
    assert("direntry"@[0] != "appendix"@[0]);
    assert("direntry"@[0] != "contents"@[0]);
    assert("direntry"@[1] != "defindex"@[1]);
    assert("direntry"@[0] != "finalout"@[0]);
    assert("direntry"@[0] != "headings"@[0]);
    assert("direntry"@[0] != "headitem"@[0]);
    assert("direntry"@[0] != "ifnottex"@[0]);
    assert("direntry"@[0] != "ifnotxml"@[0]);
    assert("direntry"@[0] != "noindent"@[0]);
    assert("direntry"@[0] != "settitle"@[0]);
    assert("direntry"@[0] != "subtitle"@[0]);
    assert("direntry"@[0] != "synindex"@[0]);
    assert("direntry"@[0] != "verbatim"@[0]);
    assert("copying"@[1] != "chapter"@[1]);
    assert("copying"@[2] != "comment"@[2]);
    assert("copying"@[0] != "defspec"@[0]);
    assert("copying"@[0] != "display"@[0]);
    assert("copying"@[0] != "docbook"@[0]);
    assert("copying"@[0] != "example"@[0]);
    assert("copying"@[0] != "ifclear"@[0]);
    assert("copying"@[0] != "iflatex"@[0]);
    assert("copying"@[0] != "itemize"@[0]);
    assert("copying"@[0] != "section"@[0]);
    assert("copying"@[0] != file_command()[0]);
    assert("detailmenu"@[0] != "afivepaper"@[0]);
    assert("detailmenu"@[0] != "afourpaper"@[0]);
    assert("detailmenu"@[2] != "deftypefun"@[2]);
    assert("detailmenu"@[2] != "deftypevar"@[2]);
    assert("detailmenu"@[0] != "ifnotlatex"@[0]);
    assert("detailmenu"@[0] != "multitable"@[0]);
    assert("detailmenu"@[0] != "oddheading"@[0]);
    assert("detailmenu"@[0] != "printindex"@[0]);
    assert("detailmenu"@[0] != "subsection"@[0]);
    assert("detailmenu"@[0] != "unnumbered"@[0]);
    assert("macro"@[0] != "alias"@[0]);
    assert("macro"@[0] != "clear"@[0]);
    assert("macro"@[0] != "deffn"@[0]);
    assert("macro"@[0] != "deftp"@[0]);
    assert("macro"@[0] != "defun"@[0]);
    assert("macro"@[0] != "defvr"@[0]);
    assert("macro"@[0] != "group"@[0]);
    assert("macro"@[0] != "ifset"@[0]);
    assert("macro"@[0] != "iftex"@[0]);
    assert("macro"@[0] != "ifxml"@[0]);
    assert("macro"@[0] != "table"@[0]);
    assert("macro"@[0] != "value"@[0]);
    assert("macro"@[0] != "vskip"@[0]);
    assert("rmacro"@[0] != "anchor"@[0]);
    assert("rmacro"@[0] != "author"@[0]);
    assert("rmacro"@[0] != "cindex"@[0]);
    assert("rmacro"@[0] != "defmac"@[0]);
    assert("rmacro"@[0] != "defopt"@[0]);
    assert("rmacro"@[0] != "defvar"@[0]);
    assert("rmacro"@[0] != "exdent"@[0]);
    assert("rmacro"@[0] != "findex"@[0]);
    assert("rmacro"@[0] != "format"@[0]);
    assert("rmacro"@[0] != "ftable"@[0]);
    assert("rmacro"@[0] != "ifhtml"@[0]);
    assert("rmacro"@[0] != "ifinfo"@[0]);
    assert("rmacro"@[0] != "ignore"@[0]);
    assert("rmacro"@[0] != "indent"@[0]);
    assert("rmacro"@[0] != "kindex"@[0]);
    assert("rmacro"@[0] != "pindex"@[0]);
    assert("rmacro"@[0] != "tindex"@[0]);
    assert("rmacro"@[0] != "vindex"@[0]);
    assert("rmacro"@[0] != "vtable"@[0]);
    assert("html"@[0] != "lisp"@[0]);
    assert("html"@[0] != "menu"@[0]);
    assert("html"@[0] != "need"@[0]);
    assert("html"@[0] != "node"@[0]);
    assert("html"@[0] != "page"@[0]);
    assert("tex"@[0] != "end"@[0]);
    assert("tex"@[0] != "set"@[0]);
    assert("tex"@[1] != "top"@[1]);
    assert("tex"@[0] != "xml"@[0]);
    assert("docbook"@[0] != "chapter"@[0]);
    assert("docbook"@[0] != "comment"@[0]);
    assert("docbook"@[0] != "copying"@[0]);
    assert("docbook"@[1] != "defspec"@[1]);
    assert("docbook"@[1] != "display"@[1]);
    assert("docbook"@[0] != "example"@[0]);
    assert("docbook"@[0] != "ifclear"@[0]);
    assert("docbook"@[0] != "iflatex"@[0]);
    assert("docbook"@[0] != "itemize"@[0]);
    assert("docbook"@[0] != "section"@[0]);
    assert("docbook"@[0] != file_command()[0]);
    assert("xml"@[0] != "end"@[0]);
    assert("xml"@[0] != "set"@[0]);
    assert("xml"@[0] != "tex"@[0]);
    assert("xml"@[0] != "top"@[0]);
    assert("group"@[0] != "alias"@[0]);
    assert("group"@[0] != "clear"@[0]);
    assert("group"@[0] != "deffn"@[0]);
    assert("group"@[0] != "deftp"@[0]);
    assert("group"@[0] != "defun"@[0]);
    assert("group"@[0] != "defvr"@[0]);
    assert("group"@[0] != "ifset"@[0]);
    assert("group"@[0] != "iftex"@[0]);
    assert("group"@[0] != "ifxml"@[0]);
    assert("group"@[0] != "macro"@[0]);
    assert("group"@[0] != "table"@[0]);
    assert("group"@[0] != "value"@[0]);
    assert("group"@[0] != "vskip"@[0]);

}

/// These directives change nothing: `@dircategory`, `@insertcopying`, `@contents`, `@shortcontents`, `@summarycontents`, `@finalout`, `@setfilename`, `@documentencoding`, `@documentlanguage`, `@setchapternewpage`, `@headings`, `@everyheading`, `@everyfoooting`, `@oddheading`.
pub proof fn law_directives_1(st: ConverterModel, line: Seq<char>, lines: Seq<Seq<char>>, idx: int)
    requires
        st.in_ignore == 0,
        ({
            let cmd = command_name(line);
            cmd == "dircategory"@ || cmd == "insertcopying"@ || cmd == "contents"@ || cmd == "shortcontents"@ || cmd == "summarycontents"@ || cmd == "finalout"@ || cmd == "setfilename"@ || cmd == "documentencoding"@ || cmd == "documentlanguage"@ || cmd == "setchapternewpage"@ || cmd == "headings"@ || cmd == "everyheading"@ || cmd == "everyfoooting"@ || cmd == "oddheading"@
        }),
    ensures
        ({
            let cmd = command_name(line);
            let t = command_rest(line);
            let step = command_step(st, line, lines, idx);
            &&& step.state == st
            &&& step.next == idx + 1
            &&& step.read_file is None
        }),
{
    reveal_strlit("afivepaper");
    reveal_strlit("afourpaper");
    reveal_strlit("alias");
    reveal_strlit("allowcodebreakable");
    reveal_strlit("anchor");
    reveal_strlit("appendix");
    reveal_strlit("appendixsec");
    reveal_strlit("appendixsubsec");
    reveal_strlit("appendixsubsubsec");
    reveal_strlit("author");
    reveal_strlit("c");
    reveal_strlit("chapter");
    reveal_strlit("cindex");
    reveal_strlit("clear");
    reveal_strlit("columnfractions");
    reveal_strlit("comment");
    reveal_strlit("contents");
    reveal_strlit("copying");
    reveal_strlit("cropmarks");
    reveal_strlit("defcodeindex");
    reveal_strlit("deffn");
    reveal_strlit("defindex");
    reveal_strlit("definfoenclose");
    reveal_strlit("defmac");
    reveal_strlit("defopt");
    reveal_strlit("defspec");
    reveal_strlit("deftp");
    reveal_strlit("deftypefn");
    reveal_strlit("deftypefun");
    reveal_strlit("deftypevar");
    reveal_strlit("deftypevr");
    reveal_strlit("defun");
    reveal_strlit("defvar");
    reveal_strlit("defvr");
    reveal_strlit("detailmenu");
    reveal_strlit("dircategory");
    reveal_strlit("direntry");
    reveal_strlit("display");
    reveal_strlit("docbook");
    reveal_strlit("documentencoding");
    reveal_strlit("documentlanguage");
    reveal_strlit("end");
    reveal_strlit("enumerate");
    reveal_strlit("evenfoooting");
    reveal_strlit("evenheading");
    reveal_strlit("everyfoooting");
    reveal_strlit("everyheading");
    reveal_strlit("example");
    reveal_strlit("exampleindent");
    reveal_strlit("exdent");
    reveal_strlit("finalout");
    reveal_strlit("findex");
    reveal_strlit("firstparagraphindent");
    reveal_strlit("format");
    reveal_strlit("frenchspacing");
    reveal_strlit("ftable");
    reveal_strlit("group");
    reveal_strlit("headings");
    reveal_strlit("headitem");
    reveal_strlit("html");
    reveal_strlit("ifclear");
    reveal_strlit("ifdocbook");
    reveal_strlit("ifhtml");
    reveal_strlit("ifinfo");
    reveal_strlit("iflatex");
    reveal_strlit("ifnotdocbook");
    reveal_strlit("ifnothtml");
    reveal_strlit("ifnotinfo");
    reveal_strlit("ifnotlatex");
    reveal_strlit("ifnotplaintext");
    reveal_strlit("ifnottex");
    reveal_strlit("ifnotxml");
    reveal_strlit("ifplaintext");
    reveal_strlit("ifset");
    reveal_strlit("iftex");
    reveal_strlit("ifxml");
    reveal_strlit("ignore");
    reveal_strlit("indent");
    reveal_strlit("insertcopying");
    reveal_strlit("itemize");
    reveal_strlit("kbdinputstyle");
    reveal_strlit("kindex");
    reveal_strlit("lisp");
    reveal_strlit("macro");
    reveal_strlit("menu");
    reveal_strlit("multitable");
    reveal_strlit("need");
    reveal_strlit("node");
    reveal_strlit("noindent");
    reveal_strlit("oddfoooting");
    reveal_strlit("oddheading");
    reveal_strlit("page");
    reveal_strlit("pagesizes");
    reveal_strlit("paragraphindent");
    reveal_strlit("pindex");
    reveal_strlit("printindex");
    reveal_strlit("quotation");
    reveal_strlit("rmacro");
    reveal_strlit("section");
    reveal_strlit("set");
    reveal_strlit("setchapternewpage");
    reveal_strlit("setfilename");
    reveal_strlit("settitle");
    reveal_strlit("shortcontents");
    reveal_strlit("smallbook");
    reveal_strlit("smalldisplay");
    reveal_strlit("smallexample");
    reveal_strlit("smallformat");
    reveal_strlit("smalllisp");
    reveal_strlit("smallquotation");
    reveal_strlit("sp");
    reveal_strlit("subsection");
    reveal_strlit("subsubsection");
    reveal_strlit("subtitle");
    reveal_strlit("summarycontents");
    reveal_strlit("syncodeindex");
    reveal_strlit("synindex");
    reveal_strlit("table");
    reveal_strlit("tex");
    reveal_strlit("tindex");
    reveal_strlit("titlepage");
    reveal_strlit("top");
    reveal_strlit("unnumbered");
    reveal_strlit("unnumberedsec");
    reveal_strlit("unnumberedsubsec");
    reveal_strlit("unnumberedsubsubsec");
    reveal_strlit("validatemenus");
    reveal_strlit("value");
    reveal_strlit("verbatim");
    reveal_strlit("vindex");
    reveal_strlit("vskip");
    reveal_strlit("vtable");
    reveal_strlit("xml");
    assert("dircategory"@[0] != "appendixsec"@[0]);
    assert("dircategory"@[0] != "evenheading"@[0]);
    assert("dircategory"@[0] != "ifplaintext"@[0]);
    assert("dircategory"@[0] != "oddfoooting"@[0]);
    assert("dircategory"@[0] != "setfilename"@[0]);
    assert("dircategory"@[0] != "smallformat"@[0]);
    assert("insertcopying"@[0] != "everyfoooting"@[0]);
    assert("insertcopying"@[0] != "exampleindent"@[0]);
    assert("insertcopying"@[0] != "frenchspacing"@[0]);
    assert("insertcopying"@[0] != "kbdinputstyle"@[0]);
    assert("insertcopying"@[0] != "shortcontents"@[0]);
    assert("insertcopying"@[0] != "subsubsection"@[0]);
    assert("insertcopying"@[0] != "unnumberedsec"@[0]);
    assert("insertcopying"@[0] != "validatemenus"@[0]);
    assert("contents"@[0] != "appendix"@[0]);
    assert("contents"@[0] != "defindex"@[0]);
    assert("contents"@[0] != "direntry"@[0]);
    assert("contents"@[0] != "finalout"@[0]);
    assert("contents"@[0] != "headings"@[0]);
    assert("contents"@[0] != "headitem"@[0]);
    assert("contents"@[0] != "ifnottex"@[0]);
    assert("contents"@[0] != "ifnotxml"@[0]);
    assert("contents"@[0] != "noindent"@[0]);
    assert("contents"@[0] != "settitle"@[0]);
    assert("contents"@[0] != "subtitle"@[0]);
    assert("contents"@[0] != "synindex"@[0]);
    assert("contents"@[0] != "verbatim"@[0]);
    assert("shortcontents"@[0] != "everyfoooting"@[0]);
    assert("shortcontents"@[0] != "exampleindent"@[0]);
    assert("shortcontents"@[0] != "frenchspacing"@[0]);
    assert("shortcontents"@[0] != "insertcopying"@[0]);
    assert("shortcontents"@[0] != "kbdinputstyle"@[0]);
    assert("shortcontents"@[1] != "subsubsection"@[1]);
    assert("shortcontents"@[0] != "unnumberedsec"@[0]);
    assert("shortcontents"@[0] != "validatemenus"@[0]);
    assert("summarycontents"@[0] != "columnfractions"@[0]);
    assert("summarycontents"@[0] != "paragraphindent"@[0]);
    assert("finalout"@[0] != "appendix"@[0]);
    assert("finalout"@[0] != "contents"@[0]);
    assert("finalout"@[0] != "defindex"@[0]);
    assert("finalout"@[0] != "direntry"@[0]);
    assert("finalout"@[0] != "headings"@[0]);
    assert("finalout"@[0] != "headitem"@[0]);
    assert("finalout"@[0] != "ifnottex"@[0]);
    assert("finalout"@[0] != "ifnotxml"@[0]);
    assert("finalout"@[0] != "noindent"@[0]);
    assert("finalout"@[0] != "settitle"@[0]);
    assert("finalout"@[0] != "subtitle"@[0]);
    assert("finalout"@[0] != "synindex"@[0]);
    assert("finalout"@[0] != "verbatim"@[0]);
    assert("setfilename"@[0] != "appendixsec"@[0]);
    assert("setfilename"@[0] != "dircategory"@[0]);
    assert("setfilename"@[0] != "evenheading"@[0]);
    assert("setfilename"@[0] != "ifplaintext"@[0]);
    assert("setfilename"@[0] != "oddfoooting"@[0]);
    assert("setfilename"@[1] != "smallformat"@[1]);
    assert("documentencoding"@[8] != "documentlanguage"@[8]);
    assert("documentencoding"@[0] != "unnumberedsubsec"@[0]);
    assert("documentlanguage"@[8] != "documentencoding"@[8]);
    assert("documentlanguage"@[0] != "unnumberedsubsec"@[0]);
    assert("setchapternewpage"@[0] != "appendixsubsubsec"@[0]);
    assert("headings"@[0] != "appendix"@[0]);
    assert("headings"@[0] != "contents"@[0]);
    assert("headings"@[0] != "defindex"@[0]);
    assert("headings"@[0] != "direntry"@[0]);
    assert("headings"@[0] != "finalout"@[0]);
    assert("headings"@[5] != "headitem"@[5]);
    assert("headings"@[0] != "ifnottex"@[0]);
    assert("headings"@[0] != "ifnotxml"@[0]);
    assert("headings"@[0] != "noindent"@[0]);
    assert("headings"@[0] != "settitle"@[0]);
    assert("headings"@[0] != "subtitle"@[0]);
    assert("headings"@[0] != "synindex"@[0]);
    assert("headings"@[0] != "verbatim"@[0]);
    assert("everyheading"@[0] != "defcodeindex"@[0]);
    assert("everyheading"@[3] != "evenfoooting"@[3]);
    assert("everyheading"@[0] != "ifnotdocbook"@[0]);
    assert("everyheading"@[0] != "smalldisplay"@[0]);
    assert("everyheading"@[0] != "smallexample"@[0]);
    assert("everyheading"@[0] != "syncodeindex"@[0]);
    assert("everyfoooting"@[1] != "exampleindent"@[1]);
    assert("everyfoooting"@[0] != "frenchspacing"@[0]);
    assert("everyfoooting"@[0] != "insertcopying"@[0]);
    assert("everyfoooting"@[0] != "kbdinputstyle"@[0]);
    assert("everyfoooting"@[0] != "shortcontents"@[0]);
    assert("everyfoooting"@[0] != "subsubsection"@[0]);
    assert("everyfoooting"@[0] != "unnumberedsec"@[0]);
    assert("everyfoooting"@[0] != "validatemenus"@[0]);
    assert("oddheading"@[0] != "afivepaper"@[0]);
    assert("oddheading"@[0] != "afourpaper"@[0]);
    assert("oddheading"@[0] != "deftypefun"@[0]);
    assert("oddheading"@[0] != "deftypevar"@[0]);
    assert("oddheading"@[0] != "detailmenu"@[0]);
    assert("oddheading"@[0] != "ifnotlatex"@[0]);
    assert("oddheading"@[0] != "multitable"@[0]);
    assert("oddheading"@[0] != "printindex"@[0]);
    assert("oddheading"@[0] != "subsection"@[0]);
    assert("oddheading"@[0] != "unnumbered"@[0]);

}

/// These directives change nothing: `@evenheading`, `@oddfoooting`, `@evenfoooting`, `@allowcodebreakable`, `@exampleindent`, `@firstparagraphindent`, `@frenchspacing`, `@kbdinputstyle`, `@validatemenus`, `@defmac`, `@defun`, `@deffn`, `@deftp`, `@defvr`.
pub proof fn law_directives_2(st: ConverterModel, line: Seq<char>, lines: Seq<Seq<char>>, idx: int)
    requires
        st.in_ignore == 0,
        ({
            let cmd = command_name(line);
            cmd == "evenheading"@ || cmd == "oddfoooting"@ || cmd == "evenfoooting"@ || cmd == "allowcodebreakable"@ || cmd == "exampleindent"@ || cmd == "firstparagraphindent"@ || cmd == "frenchspacing"@ || cmd == "kbdinputstyle"@ || cmd == "validatemenus"@ || cmd == "defmac"@ || cmd == "defun"@ || cmd == "deffn"@ || cmd == "deftp"@ || cmd == "defvr"@
        }),
    ensures
        ({
            let cmd = command_name(line);
            let t = command_rest(line);
            let step = command_step(st, line, lines, idx);
            &&& step.state == st
            &&& step.next == idx + 1
            &&& step.read_file is None
        }),
{
    reveal_strlit("afivepaper");
    reveal_strlit("afourpaper");
    reveal_strlit("alias");
    reveal_strlit("allowcodebreakable");
    reveal_strlit("anchor");
    reveal_strlit("appendix");
    reveal_strlit("appendixsec");
    reveal_strlit("appendixsubsec");
    reveal_strlit("appendixsubsubsec");
    reveal_strlit("author");
    reveal_strlit("c");
    reveal_strlit("chapter");
    reveal_strlit("cindex");
    reveal_strlit("clear");
    reveal_strlit("columnfractions");
    reveal_strlit("comment");
    reveal_strlit("contents");
    reveal_strlit("copying");
    reveal_strlit("cropmarks");
    reveal_strlit("defcodeindex");
    reveal_strlit("deffn");
    reveal_strlit("defindex");
    reveal_strlit("definfoenclose");
    reveal_strlit("defmac");
    reveal_strlit("defopt");
    reveal_strlit("defspec");
    reveal_strlit("deftp");
    reveal_strlit("deftypefn");
    reveal_strlit("deftypefun");
    reveal_strlit("deftypevar");
    reveal_strlit("deftypevr");
    reveal_strlit("defun");
    reveal_strlit("defvar");
    reveal_strlit("defvr");
    reveal_strlit("detailmenu");
    reveal_strlit("dircategory");
    reveal_strlit("direntry");
    reveal_strlit("display");
    reveal_strlit("docbook");
    reveal_strlit("documentencoding");
    reveal_strlit("documentlanguage");
    reveal_strlit("end");
    reveal_strlit("enumerate");
    reveal_strlit("evenfoooting");
    reveal_strlit("evenheading");
    reveal_strlit("everyfoooting");
    reveal_strlit("everyheading");
    reveal_strlit("example");
    reveal_strlit("exampleindent");
    reveal_strlit("exdent");
    reveal_strlit("finalout");
    reveal_strlit("findex");
    reveal_strlit("firstparagraphindent");
    reveal_strlit("format");
    reveal_strlit("frenchspacing");
    reveal_strlit("ftable");
    reveal_strlit("group");
    reveal_strlit("headings");
    reveal_strlit("headitem");
    reveal_strlit("html");
    reveal_strlit("ifclear");
    reveal_strlit("ifdocbook");
    reveal_strlit("ifhtml");
    reveal_strlit("ifinfo");
    reveal_strlit("iflatex");
    reveal_strlit("ifnotdocbook");
    reveal_strlit("ifnothtml");
    reveal_strlit("ifnotinfo");
    reveal_strlit("ifnotlatex");
    reveal_strlit("ifnotplaintext");
    reveal_strlit("ifnottex");
    reveal_strlit("ifnotxml");
    reveal_strlit("ifplaintext");
    reveal_strlit("ifset");
    reveal_strlit("iftex");
    reveal_strlit("ifxml");
    reveal_strlit("ignore");
    reveal_strlit("indent");
    reveal_strlit("insertcopying");
    reveal_strlit("itemize");
    reveal_strlit("kbdinputstyle");
    reveal_strlit("kindex");
    reveal_strlit("lisp");
    reveal_strlit("macro");
    reveal_strlit("menu");
    reveal_strlit("multitable");
    reveal_strlit("need");
    reveal_strlit("node");
    reveal_strlit("noindent");
    reveal_strlit("oddfoooting");
    reveal_strlit("oddheading");
    reveal_strlit("page");
    reveal_strlit("pagesizes");
    reveal_strlit("paragraphindent");
    reveal_strlit("pindex");
    reveal_strlit("printindex");
    reveal_strlit("quotation");
    reveal_strlit("rmacro");
    reveal_strlit("section");
    reveal_strlit("set");
    reveal_strlit("setchapternewpage");
    reveal_strlit("setfilename");
    reveal_strlit("settitle");
    reveal_strlit("shortcontents");
    reveal_strlit("smallbook");
    reveal_strlit("smalldisplay");
    reveal_strlit("smallexample");
    reveal_strlit("smallformat");
    reveal_strlit("smalllisp");
    reveal_strlit("smallquotation");
    reveal_strlit("sp");
    reveal_strlit("subsection");
    reveal_strlit("subsubsection");
    reveal_strlit("subtitle");
    reveal_strlit("summarycontents");
    reveal_strlit("syncodeindex");
    reveal_strlit("synindex");
    reveal_strlit("table");
    reveal_strlit("tex");
    reveal_strlit("tindex");
    reveal_strlit("titlepage");
    reveal_strlit("top");
    reveal_strlit("unnumbered");
    reveal_strlit("unnumberedsec");
    reveal_strlit("unnumberedsubsec");
    reveal_strlit("unnumberedsubsubsec");
    reveal_strlit("validatemenus");
    reveal_strlit("value");
    reveal_strlit("verbatim");
    reveal_strlit("vindex");
    reveal_strlit("vskip");
    reveal_strlit("vtable");
    reveal_strlit("xml");
    assert("evenheading"@[0] != "appendixsec"@[0]);
    assert("evenheading"@[0] != "dircategory"@[0]);
    assert("evenheading"@[0] != "ifplaintext"@[0]);
    assert("evenheading"@[0] != "oddfoooting"@[0]);
    assert("evenheading"@[0] != "setfilename"@[0]);
    assert("evenheading"@[0] != "smallformat"@[0]);
    assert("oddfoooting"@[0] != "appendixsec"@[0]);
    assert("oddfoooting"@[0] != "dircategory"@[0]);
    assert("oddfoooting"@[0] != "evenheading"@[0]);
    assert("oddfoooting"@[0] != "ifplaintext"@[0]);
    assert("oddfoooting"@[0] != "setfilename"@[0]);
    assert("oddfoooting"@[0] != "smallformat"@[0]);
    assert("evenfoooting"@[0] != "defcodeindex"@[0]);
    assert("evenfoooting"@[3] != "everyheading"@[3]);
    assert("evenfoooting"@[0] != "ifnotdocbook"@[0]);
    assert("evenfoooting"@[0] != "smalldisplay"@[0]);
    assert("evenfoooting"@[0] != "smallexample"@[0]);
    assert("evenfoooting"@[0] != "syncodeindex"@[0]);
    assert("exampleindent"@[1] != "everyfoooting"@[1]);
    assert("exampleindent"@[0] != "frenchspacing"@[0]);
    assert("exampleindent"@[0] != "insertcopying"@[0]);
    assert("exampleindent"@[0] != "kbdinputstyle"@[0]);
    assert("exampleindent"@[0] != "shortcontents"@[0]);
    assert("exampleindent"@[0] != "subsubsection"@[0]);
    assert("exampleindent"@[0] != "unnumberedsec"@[0]);
    assert("exampleindent"@[0] != "validatemenus"@[0]);
    assert("frenchspacing"@[0] != "everyfoooting"@[0]);
    assert("frenchspacing"@[0] != "exampleindent"@[0]);
    assert("frenchspacing"@[0] != "insertcopying"@[0]);
    assert("frenchspacing"@[0] != "kbdinputstyle"@[0]);
    assert("frenchspacing"@[0] != "shortcontents"@[0]);
    assert("frenchspacing"@[0] != "subsubsection"@[0]);
    assert("frenchspacing"@[0] != "unnumberedsec"@[0]);
    assert("frenchspacing"@[0] != "validatemenus"@[0]);
    assert("kbdinputstyle"@[0] != "everyfoooting"@[0]);
    assert("kbdinputstyle"@[0] != "exampleindent"@[0]);
    assert("kbdinputstyle"@[0] != "frenchspacing"@[0]);
    assert("kbdinputstyle"@[0] != "insertcopying"@[0]);
    assert("kbdinputstyle"@[0] != "shortcontents"@[0]);
    assert("kbdinputstyle"@[0] != "subsubsection"@[0]);
    assert("kbdinputstyle"@[0] != "unnumberedsec"@[0]);
    assert("kbdinputstyle"@[0] != "validatemenus"@[0]);
    assert("validatemenus"@[0] != "everyfoooting"@[0]);
    assert("validatemenus"@[0] != "exampleindent"@[0]);
    assert("validatemenus"@[0] != "frenchspacing"@[0]);
    assert("validatemenus"@[0] != "insertcopying"@[0]);
    assert("validatemenus"@[0] != "kbdinputstyle"@[0]);
    assert("validatemenus"@[0] != "shortcontents"@[0]);
    assert("validatemenus"@[0] != "subsubsection"@[0]);
    assert("validatemenus"@[0] != "unnumberedsec"@[0]);
    assert("defmac"@[0] != "anchor"@[0]);
    assert("defmac"@[0] != "author"@[0]);
    assert("defmac"@[0] != "cindex"@[0]);
    assert("defmac"@[3] != "defopt"@[3]);
    assert("defmac"@[3] != "defvar"@[3]);
    assert("defmac"@[0] != "exdent"@[0]);
    assert("defmac"@[0] != "findex"@[0]);
    assert("defmac"@[0] != "format"@[0]);
    assert("defmac"@[0] != "ftable"@[0]);
    assert("defmac"@[0] != "ifhtml"@[0]);
    assert("defmac"@[0] != "ifinfo"@[0]);
    assert("defmac"@[0] != "ignore"@[0]);
    assert("defmac"@[0] != "indent"@[0]);
    assert("defmac"@[0] != "kindex"@[0]);
    assert("defmac"@[0] != "pindex"@[0]);
    assert("defmac"@[0] != "rmacro"@[0]);
    assert("defmac"@[0] != "tindex"@[0]);
    assert("defmac"@[0] != "vindex"@[0]);
    assert("defmac"@[0] != "vtable"@[0]);
    assert("defun"@[0] != "alias"@[0]);
    assert("defun"@[0] != "clear"@[0]);
    assert("defun"@[3] != "deffn"@[3]);
    assert("defun"@[3] != "deftp"@[3]);
    assert("defun"@[3] != "defvr"@[3]);
    assert("defun"@[0] != "group"@[0]);
    assert("defun"@[0] != "ifset"@[0]);
    assert("defun"@[0] != "iftex"@[0]);
    assert("defun"@[0] != "ifxml"@[0]);
    assert("defun"@[0] != "macro"@[0]);
    assert("defun"@[0] != "table"@[0]);
    assert("defun"@[0] != "value"@[0]);
    assert("defun"@[0] != "vskip"@[0]);
    assert("deffn"@[0] != "alias"@[0]);
    assert("deffn"@[0] != "clear"@[0]);
    assert("deffn"@[3] != "deftp"@[3]);
    assert("deffn"@[3] != "defun"@[3]);
    assert("deffn"@[3] != "defvr"@[3]);
    assert("deffn"@[0] != "group"@[0]);
    assert("deffn"@[0] != "ifset"@[0]);
    assert("deffn"@[0] != "iftex"@[0]);
    assert("deffn"@[0] != "ifxml"@[0]);
    assert("deffn"@[0] != "macro"@[0]);
    assert("deffn"@[0] != "table"@[0]);
    assert("deffn"@[0] != "value"@[0]);
    assert("deffn"@[0] != "vskip"@[0]);
    assert("deftp"@[0] != "alias"@[0]);
    assert("deftp"@[0] != "clear"@[0]);
    assert("deftp"@[3] != "deffn"@[3]);
    assert("deftp"@[3] != "defun"@[3]);
    assert("deftp"@[3] != "defvr"@[3]);
    assert("deftp"@[0] != "group"@[0]);
    assert("deftp"@[0] != "ifset"@[0]);
    assert("deftp"@[0] != "iftex"@[0]);
    assert("deftp"@[0] != "ifxml"@[0]);
    assert("deftp"@[0] != "macro"@[0]);
    assert("deftp"@[0] != "table"@[0]);
    assert("deftp"@[0] != "value"@[0]);
    assert("deftp"@[0] != "vskip"@[0]);
    assert("defvr"@[0] != "alias"@[0]);
    assert("defvr"@[0] != "clear"@[0]);
    assert("defvr"@[3] != "deffn"@[3]);
    assert("defvr"@[3] != "deftp"@[3]);
    assert("defvr"@[3] != "defun"@[3]);
    assert("defvr"@[0] != "group"@[0]);
    assert("defvr"@[0] != "ifset"@[0]);
    assert("defvr"@[0] != "iftex"@[0]);
    assert("defvr"@[0] != "ifxml"@[0]);
    assert("defvr"@[0] != "macro"@[0]);
    assert("defvr"@[0] != "table"@[0]);
    assert("defvr"@[0] != "value"@[0]);
    assert("defvr"@[0] != "vskip"@[0]);

}

/// These directives change nothing: `@defvar`, `@defopt`, `@defspec`, `@deftypefn`, `@deftypevar`, `@deftypevr`, `@deftypefun`, `@alias`, `@definfoenclose`, `@sp`, `@page`, `@vskip`, `@need`, `@noindent`.
pub proof fn law_directives_3(st: ConverterModel, line: Seq<char>, lines: Seq<Seq<char>>, idx: int)
    requires
        st.in_ignore == 0,
        ({
            let cmd = command_name(line);
            cmd == "defvar"@ || cmd == "defopt"@ || cmd == "defspec"@ || cmd == "deftypefn"@ || cmd == "deftypevar"@ || cmd == "deftypevr"@ || cmd == "deftypefun"@ || cmd == "alias"@ || cmd == "definfoenclose"@ || cmd == "sp"@ || cmd == "page"@ || cmd == "vskip"@ || cmd == "need"@ || cmd == "noindent"@
        }),
    ensures
        ({
            let cmd = command_name(line);
            let t = command_rest(line);
            let step = command_step(st, line, lines, idx);
            &&& step.state == st
            &&& step.next == idx + 1
            &&& step.read_file is None
        }),
{
    reveal_strlit("afivepaper");
    reveal_strlit("afourpaper");
    reveal_strlit("alias");
    reveal_strlit("allowcodebreakable");
    reveal_strlit("anchor");
    reveal_strlit("appendix");
    reveal_strlit("appendixsec");
    reveal_strlit("appendixsubsec");
    reveal_strlit("appendixsubsubsec");
    reveal_strlit("author");
    reveal_strlit("c");
    reveal_strlit("chapter");
    reveal_strlit("cindex");
    reveal_strlit("clear");
    reveal_strlit("columnfractions");
    reveal_strlit("comment");
    reveal_strlit("contents");
    reveal_strlit("copying");
    reveal_strlit("cropmarks");
    reveal_strlit("defcodeindex");
    reveal_strlit("deffn");
    reveal_strlit("defindex");
    reveal_strlit("definfoenclose");
    reveal_strlit("defmac");
    reveal_strlit("defopt");
    reveal_strlit("defspec");
    reveal_strlit("deftp");
    reveal_strlit("deftypefn");
    reveal_strlit("deftypefun");
    reveal_strlit("deftypevar");
    reveal_strlit("deftypevr");
    reveal_strlit("defun");
    reveal_strlit("defvar");
    reveal_strlit("defvr");
    reveal_strlit("detailmenu");
    reveal_strlit("dircategory");
    reveal_strlit("direntry");
    reveal_strlit("display");
    reveal_strlit("docbook");
    reveal_strlit("documentencoding");
    reveal_strlit("documentlanguage");
    reveal_strlit("end");
    reveal_strlit("enumerate");
    reveal_strlit("evenfoooting");
    reveal_strlit("evenheading");
    reveal_strlit("everyfoooting");
    reveal_strlit("everyheading");
    reveal_strlit("example");
    reveal_strlit("exampleindent");
    reveal_strlit("exdent");
    reveal_strlit("finalout");
    reveal_strlit("findex");
    reveal_strlit("firstparagraphindent");
    reveal_strlit("format");
    reveal_strlit("frenchspacing");
    reveal_strlit("ftable");
    reveal_strlit("group");
    reveal_strlit("headings");
    reveal_strlit("headitem");
    reveal_strlit("html");
    reveal_strlit("ifclear");
    reveal_strlit("ifdocbook");
    reveal_strlit("ifhtml");
    reveal_strlit("ifinfo");
    reveal_strlit("iflatex");
    reveal_strlit("ifnotdocbook");
    reveal_strlit("ifnothtml");
    reveal_strlit("ifnotinfo");
    reveal_strlit("ifnotlatex");
    reveal_strlit("ifnotplaintext");
    reveal_strlit("ifnottex");
    reveal_strlit("ifnotxml");
    reveal_strlit("ifplaintext");
    reveal_strlit("ifset");
    reveal_strlit("iftex");
    reveal_strlit("ifxml");
    reveal_strlit("ignore");
    reveal_strlit("indent");
    reveal_strlit("insertcopying");
    reveal_strlit("itemize");
    reveal_strlit("kbdinputstyle");
    reveal_strlit("kindex");
    reveal_strlit("lisp");
    reveal_strlit("macro");
    reveal_strlit("menu");
    reveal_strlit("multitable");
    reveal_strlit("need");
    reveal_strlit("node");
    reveal_strlit("noindent");
    reveal_strlit("oddfoooting");
    reveal_strlit("oddheading");
    reveal_strlit("page");
    reveal_strlit("pagesizes");
    reveal_strlit("paragraphindent");
    reveal_strlit("pindex");
    reveal_strlit("printindex");
    reveal_strlit("quotation");
    reveal_strlit("rmacro");
    reveal_strlit("section");
    reveal_strlit("set");
    reveal_strlit("setchapternewpage");
    reveal_strlit("setfilename");
    reveal_strlit("settitle");
    reveal_strlit("shortcontents");
    reveal_strlit("smallbook");
    reveal_strlit("smalldisplay");
    reveal_strlit("smallexample");
    reveal_strlit("smallformat");
    reveal_strlit("smalllisp");
    reveal_strlit("smallquotation");
    reveal_strlit("sp");
    reveal_strlit("subsection");
    reveal_strlit("subsubsection");
    reveal_strlit("subtitle");
    reveal_strlit("summarycontents");
    reveal_strlit("syncodeindex");
    reveal_strlit("synindex");
    reveal_strlit("table");
    reveal_strlit("tex");
    reveal_strlit("tindex");
    reveal_strlit("titlepage");
    reveal_strlit("top");
    reveal_strlit("unnumbered");
    reveal_strlit("unnumberedsec");
    reveal_strlit("unnumberedsubsec");
    reveal_strlit("unnumberedsubsubsec");
    reveal_strlit("validatemenus");
    reveal_strlit("value");
    reveal_strlit("verbatim");
    reveal_strlit("vindex");
    reveal_strlit("vskip");
    reveal_strlit("vtable");
    reveal_strlit("xml");
    assert("defvar"@[0] != "anchor"@[0]);
    assert("defvar"@[0] != "author"@[0]);
    assert("defvar"@[0] != "cindex"@[0]);
    assert("defvar"@[3] != "defmac"@[3]);
    assert("defvar"@[3] != "defopt"@[3]);
    assert("defvar"@[0] != "exdent"@[0]);
    assert("defvar"@[0] != "findex"@[0]);
    assert("defvar"@[0] != "format"@[0]);
    assert("defvar"@[0] != "ftable"@[0]);
    assert("defvar"@[0] != "ifhtml"@[0]);
    assert("defvar"@[0] != "ifinfo"@[0]);
    assert("defvar"@[0] != "ignore"@[0]);
    assert("defvar"@[0] != "indent"@[0]);
    assert("defvar"@[0] != "kindex"@[0]);
    assert("defvar"@[0] != "pindex"@[0]);
    assert("defvar"@[0] != "rmacro"@[0]);
    assert("defvar"@[0] != "tindex"@[0]);
    assert("defvar"@[0] != "vindex"@[0]);
    assert("defvar"@[0] != "vtable"@[0]);
    assert("defopt"@[0] != "anchor"@[0]);
    assert("defopt"@[0] != "author"@[0]);
    assert("defopt"@[0] != "cindex"@[0]);
    assert("defopt"@[3] != "defmac"@[3]);
    assert("defopt"@[3] != "defvar"@[3]);
    assert("defopt"@[0] != "exdent"@[0]);
    assert("defopt"@[0] != "findex"@[0]);
    assert("defopt"@[0] != "format"@[0]);
    assert("defopt"@[0] != "ftable"@[0]);
    assert("defopt"@[0] != "ifhtml"@[0]);
    assert("defopt"@[0] != "ifinfo"@[0]);
    assert("defopt"@[0] != "ignore"@[0]);
    assert("defopt"@[0] != "indent"@[0]);
    assert("defopt"@[0] != "kindex"@[0]);
    assert("defopt"@[0] != "pindex"@[0]);
    assert("defopt"@[0] != "rmacro"@[0]);
    assert("defopt"@[0] != "tindex"@[0]);
    assert("defopt"@[0] != "vindex"@[0]);
    assert("defopt"@[0] != "vtable"@[0]);
    assert("defspec"@[0] != "chapter"@[0]);
    assert("defspec"@[0] != "comment"@[0]);
    assert("defspec"@[0] != "copying"@[0]);
    assert("defspec"@[1] != "display"@[1]);
    assert("defspec"@[1] != "docbook"@[1]);
    assert("defspec"@[0] != "example"@[0]);
    assert("defspec"@[0] != "ifclear"@[0]);
    assert("defspec"@[0] != "iflatex"@[0]);
    assert("defspec"@[0] != "itemize"@[0]);
    assert("defspec"@[0] != "section"@[0]);
    assert("defspec"@[0] != file_command()[0]);
    assert("deftypefn"@[0] != "cropmarks"@[0]);
    assert("deftypefn"@[7] != "deftypevr"@[7]);
    assert("deftypefn"@[0] != "enumerate"@[0]);
    assert("deftypefn"@[0] != "ifdocbook"@[0]);
    assert("deftypefn"@[0] != "ifnothtml"@[0]);
    assert("deftypefn"@[0] != "ifnotinfo"@[0]);
    assert("deftypefn"@[0] != "pagesizes"@[0]);
    assert("deftypefn"@[0] != "quotation"@[0]);
    assert("deftypefn"@[0] != "smallbook"@[0]);
    assert("deftypefn"@[0] != "smalllisp"@[0]);
    assert("deftypefn"@[0] != "titlepage"@[0]);
    assert("deftypevar"@[0] != "afivepaper"@[0]);
    assert("deftypevar"@[0] != "afourpaper"@[0]);
    assert("deftypevar"@[7] != "deftypefun"@[7]);
    assert("deftypevar"@[2] != "detailmenu"@[2]);
    assert("deftypevar"@[0] != "ifnotlatex"@[0]);
    assert("deftypevar"@[0] != "multitable"@[0]);
    assert("deftypevar"@[0] != "oddheading"@[0]);
    assert("deftypevar"@[0] != "printindex"@[0]);
    assert("deftypevar"@[0] != "subsection"@[0]);
    assert("deftypevar"@[0] != "unnumbered"@[0]);
    assert("deftypevr"@[0] != "cropmarks"@[0]);
    assert("deftypevr"@[7] != "deftypefn"@[7]);
    assert("deftypevr"@[0] != "enumerate"@[0]);
    assert("deftypevr"@[0] != "ifdocbook"@[0]);
    assert("deftypevr"@[0] != "ifnothtml"@[0]);
    assert("deftypevr"@[0] != "ifnotinfo"@[0]);
    assert("deftypevr"@[0] != "pagesizes"@[0]);
    assert("deftypevr"@[0] != "quotation"@[0]);
    assert("deftypevr"@[0] != "smallbook"@[0]);
    assert("deftypevr"@[0] != "smalllisp"@[0]);
    assert("deftypevr"@[0] != "titlepage"@[0]);
    assert("deftypefun"@[0] != "afivepaper"@[0]);
    assert("deftypefun"@[0] != "afourpaper"@[0]);
    assert("deftypefun"@[7] != "deftypevar"@[7]);
    assert("deftypefun"@[2] != "detailmenu"@[2]);
    assert("deftypefun"@[0] != "ifnotlatex"@[0]);
    assert("deftypefun"@[0] != "multitable"@[0]);
    assert("deftypefun"@[0] != "oddheading"@[0]);
    assert("deftypefun"@[0] != "printindex"@[0]);
    assert("deftypefun"@[0] != "subsection"@[0]);
    assert("deftypefun"@[0] != "unnumbered"@[0]);
    assert("alias"@[0] != "clear"@[0]);
    assert("alias"@[0] != "deffn"@[0]);
    assert("alias"@[0] != "deftp"@[0]);
    assert("alias"@[0] != "defun"@[0]);
    assert("alias"@[0] != "defvr"@[0]);
    assert("alias"@[0] != "group"@[0]);
    assert("alias"@[0] != "ifset"@[0]);
    assert("alias"@[0] != "iftex"@[0]);
    assert("alias"@[0] != "ifxml"@[0]);
    assert("alias"@[0] != "macro"@[0]);
    assert("alias"@[0] != "table"@[0]);
    assert("alias"@[0] != "value"@[0]);
    assert("alias"@[0] != "vskip"@[0]);
    assert("definfoenclose"@[0] != "appendixsubsec"@[0]);
    assert("definfoenclose"@[0] != "ifnotplaintext"@[0]);
    assert("definfoenclose"@[0] != "smallquotation"@[0]);
    assert("page"@[0] != "html"@[0]);
    assert("page"@[0] != "lisp"@[0]);
    assert("page"@[0] != "menu"@[0]);
    assert("page"@[0] != "need"@[0]);
    assert("page"@[0] != "node"@[0]);
    assert("vskip"@[0] != "alias"@[0]);
    assert("vskip"@[0] != "clear"@[0]);
    assert("vskip"@[0] != "deffn"@[0]);
    assert("vskip"@[0] != "deftp"@[0]);
    assert("vskip"@[0] != "defun"@[0]);
    assert("vskip"@[0] != "defvr"@[0]);
    assert("vskip"@[0] != "group"@[0]);
    assert("vskip"@[0] != "ifset"@[0]);
    assert("vskip"@[0] != "iftex"@[0]);
    assert("vskip"@[0] != "ifxml"@[0]);
    assert("vskip"@[0] != "macro"@[0]);
    assert("vskip"@[0] != "table"@[0]);
    assert("vskip"@[1] != "value"@[1]);
    assert("need"@[0] != "html"@[0]);
    assert("need"@[0] != "lisp"@[0]);
    assert("need"@[0] != "menu"@[0]);
    assert("need"@[1] != "node"@[1]);
    assert("need"@[0] != "page"@[0]);
    assert("noindent"@[0] != "appendix"@[0]);
    assert("noindent"@[0] != "contents"@[0]);
    assert("noindent"@[0] != "defindex"@[0]);
    assert("noindent"@[0] != "direntry"@[0]);
    assert("noindent"@[0] != "finalout"@[0]);
    assert("noindent"@[0] != "headings"@[0]);
    assert("noindent"@[0] != "headitem"@[0]);
    assert("noindent"@[0] != "ifnottex"@[0]);
    assert("noindent"@[0] != "ifnotxml"@[0]);
    assert("noindent"@[0] != "settitle"@[0]);
    assert("noindent"@[0] != "subtitle"@[0]);
    assert("noindent"@[0] != "synindex"@[0]);
    assert("noindent"@[0] != "verbatim"@[0]);

}

/// These directives change nothing: `@indent`, `@exdent`, `@headitem`, `@columnfractions`, `@afourpaper`, `@afivepaper`, `@smallbook`, `@pagesizes`, `@cropmarks`, `@c`, `@comment`, `@anchor`.
pub proof fn law_directives_4(st: ConverterModel, line: Seq<char>, lines: Seq<Seq<char>>, idx: int)
    requires
        st.in_ignore == 0,
        ({
            let cmd = command_name(line);
            cmd == "indent"@ || cmd == "exdent"@ || cmd == "headitem"@ || cmd == "columnfractions"@ || cmd == "afourpaper"@ || cmd == "afivepaper"@ || cmd == "smallbook"@ || cmd == "pagesizes"@ || cmd == "cropmarks"@ || cmd == "c"@ || cmd == "comment"@ || cmd == "anchor"@
        }),
    ensures
        ({
            let cmd = command_name(line);
            let t = command_rest(line);
            let step = command_step(st, line, lines, idx);
            &&& step.state == st
            &&& step.next == idx + 1
            &&& step.read_file is None
        }),
{
    reveal_strlit("afivepaper");
    reveal_strlit("afourpaper");
    reveal_strlit("alias");
    reveal_strlit("allowcodebreakable");
    reveal_strlit("anchor");
    reveal_strlit("appendix");
    reveal_strlit("appendixsec");
    reveal_strlit("appendixsubsec");
    reveal_strlit("appendixsubsubsec");
    reveal_strlit("author");
    reveal_strlit("c");
    reveal_strlit("chapter");
    reveal_strlit("cindex");
    reveal_strlit("clear");
    reveal_strlit("columnfractions");
    reveal_strlit("comment");
    reveal_strlit("contents");
    reveal_strlit("copying");
    reveal_strlit("cropmarks");
    reveal_strlit("defcodeindex");
    reveal_strlit("deffn");
    reveal_strlit("defindex");
    reveal_strlit("definfoenclose");
    reveal_strlit("defmac");
    reveal_strlit("defopt");
    reveal_strlit("defspec");
    reveal_strlit("deftp");
    reveal_strlit("deftypefn");
    reveal_strlit("deftypefun");
    reveal_strlit("deftypevar");
    reveal_strlit("deftypevr");
    reveal_strlit("defun");
    reveal_strlit("defvar");
    reveal_strlit("defvr");
    reveal_strlit("detailmenu");
    reveal_strlit("dircategory");
    reveal_strlit("direntry");
    reveal_strlit("display");
    reveal_strlit("docbook");
    reveal_strlit("documentencoding");
    reveal_strlit("documentlanguage");
    reveal_strlit("end");
    reveal_strlit("enumerate");
    reveal_strlit("evenfoooting");
    reveal_strlit("evenheading");
    reveal_strlit("everyfoooting");
    reveal_strlit("everyheading");
    reveal_strlit("example");
    reveal_strlit("exampleindent");
    reveal_strlit("exdent");
    reveal_strlit("finalout");
    reveal_strlit("findex");
    reveal_strlit("firstparagraphindent");
    reveal_strlit("format");
    reveal_strlit("frenchspacing");
    reveal_strlit("ftable");
    reveal_strlit("group");
    reveal_strlit("headings");
    reveal_strlit("headitem");
    reveal_strlit("html");
    reveal_strlit("ifclear");
    reveal_strlit("ifdocbook");
    reveal_strlit("ifhtml");
    reveal_strlit("ifinfo");
    reveal_strlit("iflatex");
    reveal_strlit("ifnotdocbook");
    reveal_strlit("ifnothtml");
    reveal_strlit("ifnotinfo");
    reveal_strlit("ifnotlatex");
    reveal_strlit("ifnotplaintext");
    reveal_strlit("ifnottex");
    reveal_strlit("ifnotxml");
    reveal_strlit("ifplaintext");
    reveal_strlit("ifset");
    reveal_strlit("iftex");
    reveal_strlit("ifxml");
    reveal_strlit("ignore");
    reveal_strlit("indent");
    reveal_strlit("insertcopying");
    reveal_strlit("itemize");
    reveal_strlit("kbdinputstyle");
    reveal_strlit("kindex");
    reveal_strlit("lisp");
    reveal_strlit("macro");
    reveal_strlit("menu");
    reveal_strlit("multitable");
    reveal_strlit("need");
    reveal_strlit("node");
    reveal_strlit("noindent");
    reveal_strlit("oddfoooting");
    reveal_strlit("oddheading");
    reveal_strlit("page");
    reveal_strlit("pagesizes");
    reveal_strlit("paragraphindent");
    reveal_strlit("pindex");
    reveal_strlit("printindex");
    reveal_strlit("quotation");
    reveal_strlit("rmacro");
    reveal_strlit("section");
    reveal_strlit("set");
    reveal_strlit("setchapternewpage");
    reveal_strlit("setfilename");
    reveal_strlit("settitle");
    reveal_strlit("shortcontents");
    reveal_strlit("smallbook");
    reveal_strlit("smalldisplay");
    reveal_strlit("smallexample");
    reveal_strlit("smallformat");
    reveal_strlit("smalllisp");
    reveal_strlit("smallquotation");
    reveal_strlit("sp");
    reveal_strlit("subsection");
    reveal_strlit("subsubsection");
    reveal_strlit("subtitle");
    reveal_strlit("summarycontents");
    reveal_strlit("syncodeindex");
    reveal_strlit("synindex");
    reveal_strlit("table");
    reveal_strlit("tex");
    reveal_strlit("tindex");
    reveal_strlit("titlepage");
    reveal_strlit("top");
    reveal_strlit("unnumbered");
    reveal_strlit("unnumberedsec");
    reveal_strlit("unnumberedsubsec");
    reveal_strlit("unnumberedsubsubsec");
    reveal_strlit("validatemenus");
    reveal_strlit("value");
    reveal_strlit("verbatim");
    reveal_strlit("vindex");
    reveal_strlit("vskip");
    reveal_strlit("vtable");
    reveal_strlit("xml");
    assert("indent"@[0] != "anchor"@[0]);
    assert("indent"@[0] != "author"@[0]);
    assert("indent"@[0] != "cindex"@[0]);
    assert("indent"@[0] != "defmac"@[0]);
    assert("indent"@[0] != "defopt"@[0]);
    assert("indent"@[0] != "defvar"@[0]);
    assert("indent"@[0] != "exdent"@[0]);
    assert("indent"@[0] != "findex"@[0]);
    assert("indent"@[0] != "format"@[0]);
    assert("indent"@[0] != "ftable"@[0]);
    assert("indent"@[1] != "ifhtml"@[1]);
    assert("indent"@[1] != "ifinfo"@[1]);
    assert("indent"@[1] != "ignore"@[1]);
    assert("indent"@[0] != "kindex"@[0]);
    assert("indent"@[0] != "pindex"@[0]);
    assert("indent"@[0] != "rmacro"@[0]);
    assert("indent"@[0] != "tindex"@[0]);
    assert("indent"@[0] != "vindex"@[0]);
    assert("indent"@[0] != "vtable"@[0]);
    assert("exdent"@[0] != "anchor"@[0]);
    assert("exdent"@[0] != "author"@[0]);
    assert("exdent"@[0] != "cindex"@[0]);
    assert("exdent"@[0] != "defmac"@[0]);
    assert("exdent"@[0] != "defopt"@[0]);
    assert("exdent"@[0] != "defvar"@[0]);
    assert("exdent"@[0] != "findex"@[0]);
    assert("exdent"@[0] != "format"@[0]);
    assert("exdent"@[0] != "ftable"@[0]);
    assert("exdent"@[0] != "ifhtml"@[0]);
    assert("exdent"@[0] != "ifinfo"@[0]);
    assert("exdent"@[0] != "ignore"@[0]);
    assert("exdent"@[0] != "indent"@[0]);
    assert("exdent"@[0] != "kindex"@[0]);
    assert("exdent"@[0] != "pindex"@[0]);
    assert("exdent"@[0] != "rmacro"@[0]);
    assert("exdent"@[0] != "tindex"@[0]);
    assert("exdent"@[0] != "vindex"@[0]);
    assert("exdent"@[0] != "vtable"@[0]);
    assert("headitem"@[0] != "appendix"@[0]);
    assert("headitem"@[0] != "contents"@[0]);
    assert("headitem"@[0] != "defindex"@[0]);
    assert("headitem"@[0] != "direntry"@[0]);
    assert("headitem"@[0] != "finalout"@[0]);
    assert("headitem"@[5] != "headings"@[5]);
    assert("headitem"@[0] != "ifnottex"@[0]);
    assert("headitem"@[0] != "ifnotxml"@[0]);
    assert("headitem"@[0] != "noindent"@[0]);
    assert("headitem"@[0] != "settitle"@[0]);
    assert("headitem"@[0] != "subtitle"@[0]);
    assert("headitem"@[0] != "synindex"@[0]);
    assert("headitem"@[0] != "verbatim"@[0]);
    assert("columnfractions"@[0] != "paragraphindent"@[0]);
    assert("columnfractions"@[0] != "summarycontents"@[0]);
    assert("afourpaper"@[2] != "afivepaper"@[2]);
    assert("afourpaper"@[0] != "deftypefun"@[0]);
    assert("afourpaper"@[0] != "deftypevar"@[0]);
    assert("afourpaper"@[0] != "detailmenu"@[0]);
    assert("afourpaper"@[0] != "ifnotlatex"@[0]);
    assert("afourpaper"@[0] != "multitable"@[0]);
    assert("afourpaper"@[0] != "oddheading"@[0]);
    assert("afourpaper"@[0] != "printindex"@[0]);
    assert("afourpaper"@[0] != "subsection"@[0]);
    assert("afourpaper"@[0] != "unnumbered"@[0]);
    assert("afivepaper"@[2] != "afourpaper"@[2]);
    assert("afivepaper"@[0] != "deftypefun"@[0]);
    assert("afivepaper"@[0] != "deftypevar"@[0]);
    assert("afivepaper"@[0] != "detailmenu"@[0]);
    assert("afivepaper"@[0] != "ifnotlatex"@[0]);
    assert("afivepaper"@[0] != "multitable"@[0]);
    assert("afivepaper"@[0] != "oddheading"@[0]);
    assert("afivepaper"@[0] != "printindex"@[0]);
    assert("afivepaper"@[0] != "subsection"@[0]);
    assert("afivepaper"@[0] != "unnumbered"@[0]);
    assert("smallbook"@[0] != "cropmarks"@[0]);
    assert("smallbook"@[0] != "deftypefn"@[0]);
    assert("smallbook"@[0] != "deftypevr"@[0]);
    assert("smallbook"@[0] != "enumerate"@[0]);
    assert("smallbook"@[0] != "ifdocbook"@[0]);
    assert("smallbook"@[0] != "ifnothtml"@[0]);
    assert("smallbook"@[0] != "ifnotinfo"@[0]);
    assert("smallbook"@[0] != "pagesizes"@[0]);
    assert("smallbook"@[0] != "quotation"@[0]);
    assert("smallbook"@[5] != "smalllisp"@[5]);
    assert("smallbook"@[0] != "titlepage"@[0]);
    assert("pagesizes"@[0] != "cropmarks"@[0]);
    assert("pagesizes"@[0] != "deftypefn"@[0]);
    assert("pagesizes"@[0] != "deftypevr"@[0]);
    assert("pagesizes"@[0] != "enumerate"@[0]);
    assert("pagesizes"@[0] != "ifdocbook"@[0]);
    assert("pagesizes"@[0] != "ifnothtml"@[0]);
    assert("pagesizes"@[0] != "ifnotinfo"@[0]);
    assert("pagesizes"@[0] != "quotation"@[0]);
    assert("pagesizes"@[0] != "smallbook"@[0]);
    assert("pagesizes"@[0] != "smalllisp"@[0]);
    assert("pagesizes"@[0] != "titlepage"@[0]);
    assert("cropmarks"@[0] != "deftypefn"@[0]);
    assert("cropmarks"@[0] != "deftypevr"@[0]);
    assert("cropmarks"@[0] != "enumerate"@[0]);
    assert("cropmarks"@[0] != "ifdocbook"@[0]);
    assert("cropmarks"@[0] != "ifnothtml"@[0]);
    assert("cropmarks"@[0] != "ifnotinfo"@[0]);
    assert("cropmarks"@[0] != "pagesizes"@[0]);
    assert("cropmarks"@[0] != "quotation"@[0]);
    assert("cropmarks"@[0] != "smallbook"@[0]);
    assert("cropmarks"@[0] != "smalllisp"@[0]);
    assert("cropmarks"@[0] != "titlepage"@[0]);
    assert("comment"@[1] != "chapter"@[1]);
    assert("comment"@[2] != "copying"@[2]);
    assert("comment"@[0] != "defspec"@[0]);
    assert("comment"@[0] != "display"@[0]);
    assert("comment"@[0] != "docbook"@[0]);
    assert("comment"@[0] != "example"@[0]);
    assert("comment"@[0] != "ifclear"@[0]);
    assert("comment"@[0] != "iflatex"@[0]);
    assert("comment"@[0] != "itemize"@[0]);
    assert("comment"@[0] != "section"@[0]);
    assert("comment"@[0] != file_command()[0]);
    assert("anchor"@[1] != "author"@[1]);
    assert("anchor"@[0] != "cindex"@[0]);
    assert("anchor"@[0] != "defmac"@[0]);
    assert("anchor"@[0] != "defopt"@[0]);
    assert("anchor"@[0] != "defvar"@[0]);
    assert("anchor"@[0] != "exdent"@[0]);
    assert("anchor"@[0] != "findex"@[0]);
    assert("anchor"@[0] != "format"@[0]);
    assert("anchor"@[0] != "ftable"@[0]);
    assert("anchor"@[0] != "ifhtml"@[0]);
    assert("anchor"@[0] != "ifinfo"@[0]);
    assert("anchor"@[0] != "ignore"@[0]);
    assert("anchor"@[0] != "indent"@[0]);
    assert("anchor"@[0] != "kindex"@[0]);
    assert("anchor"@[0] != "pindex"@[0]);
    assert("anchor"@[0] != "rmacro"@[0]);
    assert("anchor"@[0] != "tindex"@[0]);
    assert("anchor"@[0] != "vindex"@[0]);
    assert("anchor"@[0] != "vtable"@[0]);

}

/// `@settitle T`, `@author T` and `@subtitle T` set the title, author and
/// subtitle to `T` and add no text.
pub proof fn law_title_commands(st: ConverterModel, line: Seq<char>, lines: Seq<Seq<char>>, idx: int)
    requires
        st.in_ignore == 0,
        ({
            let cmd = command_name(line);
            cmd == "settitle"@ || cmd == "author"@ || cmd == "subtitle"@
        }),
    ensures
        ({
            let cmd = command_name(line);
            let t = command_rest(line);
            let step = command_step(st, line, lines, idx);
            &&& cmd == "settitle"@ ==> step.state == (ConverterModel { title: t, ..st })
            &&& cmd == "author"@ ==> step.state == (ConverterModel { author: t, ..st })
            &&& cmd == "subtitle"@ ==> step.state == (ConverterModel { subtitle: t, ..st })
            &&& step.next == idx + 1
            &&& step.read_file is None
        }),
{
    reveal_strlit("afivepaper");
    reveal_strlit("afourpaper");
    reveal_strlit("alias");
    reveal_strlit("allowcodebreakable");
    reveal_strlit("anchor");
    reveal_strlit("appendix");
    reveal_strlit("appendixsec");
    reveal_strlit("appendixsubsec");
    reveal_strlit("appendixsubsubsec");
    reveal_strlit("author");
    reveal_strlit("c");
    reveal_strlit("chapter");
    reveal_strlit("cindex");
    reveal_strlit("clear");
    reveal_strlit("columnfractions");
    reveal_strlit("comment");
    reveal_strlit("contents");
    reveal_strlit("copying");
    reveal_strlit("cropmarks");
    reveal_strlit("defcodeindex");
    reveal_strlit("deffn");
    reveal_strlit("defindex");
    reveal_strlit("definfoenclose");
    reveal_strlit("defmac");
    reveal_strlit("defopt");
    reveal_strlit("defspec");
    reveal_strlit("deftp");
    reveal_strlit("deftypefn");
    reveal_strlit("deftypefun");
    reveal_strlit("deftypevar");
    reveal_strlit("deftypevr");
    reveal_strlit("defun");
    reveal_strlit("defvar");
    reveal_strlit("defvr");
    reveal_strlit("detailmenu");
    reveal_strlit("dircategory");
    reveal_strlit("direntry");
    reveal_strlit("display");
    reveal_strlit("docbook");
    reveal_strlit("documentencoding");
    reveal_strlit("documentlanguage");
    reveal_strlit("end");
    reveal_strlit("enumerate");
    reveal_strlit("evenfoooting");
    reveal_strlit("evenheading");
    reveal_strlit("everyfoooting");
    reveal_strlit("everyheading");
    reveal_strlit("example");
    reveal_strlit("exampleindent");
    reveal_strlit("exdent");
    reveal_strlit("finalout");
    reveal_strlit("findex");
    reveal_strlit("firstparagraphindent");
    reveal_strlit("format");
    reveal_strlit("frenchspacing");
    reveal_strlit("ftable");
    reveal_strlit("group");
    reveal_strlit("headings");
    reveal_strlit("headitem");
    reveal_strlit("html");
    reveal_strlit("ifclear");
    reveal_strlit("ifdocbook");
    reveal_strlit("ifhtml");
    reveal_strlit("ifinfo");
    reveal_strlit("iflatex");
    reveal_strlit("ifnotdocbook");
    reveal_strlit("ifnothtml");
    reveal_strlit("ifnotinfo");
    reveal_strlit("ifnotlatex");
    reveal_strlit("ifnotplaintext");
    reveal_strlit("ifnottex");
    reveal_strlit("ifnotxml");
    reveal_strlit("ifplaintext");
    reveal_strlit("ifset");
    reveal_strlit("iftex");
    reveal_strlit("ifxml");
    reveal_strlit("ignore");
    reveal_strlit("indent");
    reveal_strlit("insertcopying");
    reveal_strlit("itemize");
    reveal_strlit("kbdinputstyle");
    reveal_strlit("kindex");
    reveal_strlit("lisp");
    reveal_strlit("macro");
    reveal_strlit("menu");
    reveal_strlit("multitable");
    reveal_strlit("need");
    reveal_strlit("node");
    reveal_strlit("noindent");
    reveal_strlit("oddfoooting");
    reveal_strlit("oddheading");
    reveal_strlit("page");
    reveal_strlit("pagesizes");
    reveal_strlit("paragraphindent");
    reveal_strlit("pindex");
    reveal_strlit("printindex");
    reveal_strlit("quotation");
    reveal_strlit("rmacro");
    reveal_strlit("section");
    reveal_strlit("set");
    reveal_strlit("setchapternewpage");
    reveal_strlit("setfilename");
    reveal_strlit("settitle");
    reveal_strlit("shortcontents");
    reveal_strlit("smallbook");
    reveal_strlit("smalldisplay");
    reveal_strlit("smallexample");
    reveal_strlit("smallformat");
    reveal_strlit("smalllisp");
    reveal_strlit("smallquotation");
    reveal_strlit("sp");
    reveal_strlit("subsection");
    reveal_strlit("subsubsection");
    reveal_strlit("subtitle");
    reveal_strlit("summarycontents");
    reveal_strlit("syncodeindex");
    reveal_strlit("synindex");
    reveal_strlit("table");
    reveal_strlit("tex");
    reveal_strlit("tindex");
    reveal_strlit("titlepage");
    reveal_strlit("top");
    reveal_strlit("unnumbered");
    reveal_strlit("unnumberedsec");
    reveal_strlit("unnumberedsubsec");
    reveal_strlit("unnumberedsubsubsec");
    reveal_strlit("validatemenus");
    reveal_strlit("value");
    reveal_strlit("verbatim");
    reveal_strlit("vindex");
    reveal_strlit("vskip");
    reveal_strlit("vtable");
    reveal_strlit("xml");
    assert("settitle"@[0] != "appendix"@[0]);
    assert("settitle"@[0] != "contents"@[0]);
    assert("settitle"@[0] != "defindex"@[0]);
    assert("settitle"@[0] != "direntry"@[0]);
    assert("settitle"@[0] != "finalout"@[0]);
    assert("settitle"@[0] != "headings"@[0]);
    assert("settitle"@[0] != "headitem"@[0]);
    assert("settitle"@[0] != "ifnottex"@[0]);
    assert("settitle"@[0] != "ifnotxml"@[0]);
    assert("settitle"@[0] != "noindent"@[0]);
    assert("settitle"@[1] != "subtitle"@[1]);
    assert("settitle"@[1] != "synindex"@[1]);
    assert("settitle"@[0] != "verbatim"@[0]);
    assert("author"@[1] != "anchor"@[1]);
    assert("author"@[0] != "cindex"@[0]);
    assert("author"@[0] != "defmac"@[0]);
    assert("author"@[0] != "defopt"@[0]);
    assert("author"@[0] != "defvar"@[0]);
    assert("author"@[0] != "exdent"@[0]);
    assert("author"@[0] != "findex"@[0]);
    assert("author"@[0] != "format"@[0]);
    assert("author"@[0] != "ftable"@[0]);
    assert("author"@[0] != "ifhtml"@[0]);
    assert("author"@[0] != "ifinfo"@[0]);
    assert("author"@[0] != "ignore"@[0]);
    assert("author"@[0] != "indent"@[0]);
    assert("author"@[0] != "kindex"@[0]);
    assert("author"@[0] != "pindex"@[0]);
    assert("author"@[0] != "rmacro"@[0]);
    assert("author"@[0] != "tindex"@[0]);
    assert("author"@[0] != "vindex"@[0]);
    assert("author"@[0] != "vtable"@[0]);
    assert("subtitle"@[0] != "appendix"@[0]);
    assert("subtitle"@[0] != "contents"@[0]);
    assert("subtitle"@[0] != "defindex"@[0]);
    assert("subtitle"@[0] != "direntry"@[0]);
    assert("subtitle"@[0] != "finalout"@[0]);
    assert("subtitle"@[0] != "headings"@[0]);
    assert("subtitle"@[0] != "headitem"@[0]);
    assert("subtitle"@[0] != "ifnottex"@[0]);
    assert("subtitle"@[0] != "ifnotxml"@[0]);
    assert("subtitle"@[0] != "noindent"@[0]);
    assert("subtitle"@[1] != "settitle"@[1]);
    assert("subtitle"@[1] != "synindex"@[1]);
    assert("subtitle"@[0] != "verbatim"@[0]);

}

/// `@clear name` unsets the variable named by its first word.
pub proof fn law_clear_command(st: ConverterModel, line: Seq<char>, lines: Seq<Seq<char>>, idx: int)
    requires
        st.in_ignore == 0,
        ({
            let cmd = command_name(line);
            cmd == "clear"@
        }),
    ensures
        ({
            let cmd = command_name(line);
            let t = command_rest(line);
            let step = command_step(st, line, lines, idx);
            &&& step.state == (ConverterModel { variables: st.variables.remove(first_word(t)), ..st })
            &&& step.next == idx + 1
            &&& step.read_file is None
        }),
{
    reveal_strlit("afivepaper");
    reveal_strlit("afourpaper");
    reveal_strlit("alias");
    reveal_strlit("allowcodebreakable");
    reveal_strlit("anchor");
    reveal_strlit("appendix");
    reveal_strlit("appendixsec");
    reveal_strlit("appendixsubsec");
    reveal_strlit("appendixsubsubsec");
    reveal_strlit("author");
    reveal_strlit("c");
    reveal_strlit("chapter");
    reveal_strlit("cindex");
    reveal_strlit("clear");
    reveal_strlit("columnfractions");
    reveal_strlit("comment");
    reveal_strlit("contents");
    reveal_strlit("copying");
    reveal_strlit("cropmarks");
    reveal_strlit("defcodeindex");
    reveal_strlit("deffn");
    reveal_strlit("defindex");
    reveal_strlit("definfoenclose");
    reveal_strlit("defmac");
    reveal_strlit("defopt");
    reveal_strlit("defspec");
    reveal_strlit("deftp");
    reveal_strlit("deftypefn");
    reveal_strlit("deftypefun");
    reveal_strlit("deftypevar");
    reveal_strlit("deftypevr");
    reveal_strlit("defun");
    reveal_strlit("defvar");
    reveal_strlit("defvr");
    reveal_strlit("detailmenu");
    reveal_strlit("dircategory");
    reveal_strlit("direntry");
    reveal_strlit("display");
    reveal_strlit("docbook");
    reveal_strlit("documentencoding");
    reveal_strlit("documentlanguage");
    reveal_strlit("end");
    reveal_strlit("enumerate");
    reveal_strlit("evenfoooting");
    reveal_strlit("evenheading");
    reveal_strlit("everyfoooting");
    reveal_strlit("everyheading");
    reveal_strlit("example");
    reveal_strlit("exampleindent");
    reveal_strlit("exdent");
    reveal_strlit("finalout");
    reveal_strlit("findex");
    reveal_strlit("firstparagraphindent");
    reveal_strlit("format");
    reveal_strlit("frenchspacing");
    reveal_strlit("ftable");
    reveal_strlit("group");
    reveal_strlit("headings");
    reveal_strlit("headitem");
    reveal_strlit("html");
    reveal_strlit("ifclear");
    reveal_strlit("ifdocbook");
    reveal_strlit("ifhtml");
    reveal_strlit("ifinfo");
    reveal_strlit("iflatex");
    reveal_strlit("ifnotdocbook");
    reveal_strlit("ifnothtml");
    reveal_strlit("ifnotinfo");
    reveal_strlit("ifnotlatex");
    reveal_strlit("ifnotplaintext");
    reveal_strlit("ifnottex");
    reveal_strlit("ifnotxml");
    reveal_strlit("ifplaintext");
    reveal_strlit("ifset");
    reveal_strlit("iftex");
    reveal_strlit("ifxml");
    reveal_strlit("ignore");
    reveal_strlit("indent");
    reveal_strlit("insertcopying");
    reveal_strlit("itemize");
    reveal_strlit("kbdinputstyle");
    reveal_strlit("kindex");
    reveal_strlit("lisp");
    reveal_strlit("macro");
    reveal_strlit("menu");
    reveal_strlit("multitable");
    reveal_strlit("need");
    reveal_strlit("node");
    reveal_strlit("noindent");
    reveal_strlit("oddfoooting");
    reveal_strlit("oddheading");
    reveal_strlit("page");
    reveal_strlit("pagesizes");
    reveal_strlit("paragraphindent");
    reveal_strlit("pindex");
    reveal_strlit("printindex");
    reveal_strlit("quotation");
    reveal_strlit("rmacro");
    reveal_strlit("section");
    reveal_strlit("set");
    reveal_strlit("setchapternewpage");
    reveal_strlit("setfilename");
    reveal_strlit("settitle");
    reveal_strlit("shortcontents");
    reveal_strlit("smallbook");
    reveal_strlit("smalldisplay");
    reveal_strlit("smallexample");
    reveal_strlit("smallformat");
    reveal_strlit("smalllisp");
    reveal_strlit("smallquotation");
    reveal_strlit("sp");
    reveal_strlit("subsection");
    reveal_strlit("subsubsection");
    reveal_strlit("subtitle");
    reveal_strlit("summarycontents");
    reveal_strlit("syncodeindex");
    reveal_strlit("synindex");
    reveal_strlit("table");
    reveal_strlit("tex");
    reveal_strlit("tindex");
    reveal_strlit("titlepage");
    reveal_strlit("top");
    reveal_strlit("unnumbered");
    reveal_strlit("unnumberedsec");
    reveal_strlit("unnumberedsubsec");
    reveal_strlit("unnumberedsubsubsec");
    reveal_strlit("validatemenus");
    reveal_strlit("value");
    reveal_strlit("verbatim");
    reveal_strlit("vindex");
    reveal_strlit("vskip");
    reveal_strlit("vtable");
    reveal_strlit("xml");
    assert("clear"@[0] != "alias"@[0]);
    assert("clear"@[0] != "deffn"@[0]);
    assert("clear"@[0] != "deftp"@[0]);
    assert("clear"@[0] != "defun"@[0]);
    assert("clear"@[0] != "defvr"@[0]);
    assert("clear"@[0] != "group"@[0]);
    assert("clear"@[0] != "ifset"@[0]);
    assert("clear"@[0] != "iftex"@[0]);
    assert("clear"@[0] != "ifxml"@[0]);
    assert("clear"@[0] != "macro"@[0]);
    assert("clear"@[0] != "table"@[0]);
    assert("clear"@[0] != "value"@[0]);
    assert("clear"@[0] != "vskip"@[0]);

}

/// `@value{name}` adds the variable's value, where it is set, and nothing
/// else.
pub proof fn law_value_command(st: ConverterModel, line: Seq<char>, lines: Seq<Seq<char>>, idx: int)
    requires
        st.in_ignore == 0,
        ({
            let cmd = command_name(line);
            cmd == "value"@
        }),
    ensures
        ({
            let cmd = command_name(line);
            let t = command_rest(line);
            let step = command_step(st, line, lines, idx);
            &&& ({
                let key = trim_char(trim_char(t, '{'), '}');
                step.state == if st.variables.contains_key(key) {
                    with_text(st, st.variables[key])
                } else {
                    st
                }
            })
            &&& step.next == idx + 1
            &&& step.read_file is None
        }),
{
    reveal_strlit("afivepaper");
    reveal_strlit("afourpaper");
    reveal_strlit("alias");
    reveal_strlit("allowcodebreakable");
    reveal_strlit("anchor");
    reveal_strlit("appendix");
    reveal_strlit("appendixsec");
    reveal_strlit("appendixsubsec");
    reveal_strlit("appendixsubsubsec");
    reveal_strlit("author");
    reveal_strlit("c");
    reveal_strlit("chapter");
    reveal_strlit("cindex");
    reveal_strlit("clear");
    reveal_strlit("columnfractions");
    reveal_strlit("comment");
    reveal_strlit("contents");
    reveal_strlit("copying");
    reveal_strlit("cropmarks");
    reveal_strlit("defcodeindex");
    reveal_strlit("deffn");
    reveal_strlit("defindex");
    reveal_strlit("definfoenclose");
    reveal_strlit("defmac");
    reveal_strlit("defopt");
    reveal_strlit("defspec");
    reveal_strlit("deftp");
    reveal_strlit("deftypefn");
    reveal_strlit("deftypefun");
    reveal_strlit("deftypevar");
    reveal_strlit("deftypevr");
    reveal_strlit("defun");
    reveal_strlit("defvar");
    reveal_strlit("defvr");
    reveal_strlit("detailmenu");
    reveal_strlit("dircategory");
    reveal_strlit("direntry");
    reveal_strlit("display");
    reveal_strlit("docbook");
    reveal_strlit("documentencoding");
    reveal_strlit("documentlanguage");
    reveal_strlit("end");
    reveal_strlit("enumerate");
    reveal_strlit("evenfoooting");
    reveal_strlit("evenheading");
    reveal_strlit("everyfoooting");
    reveal_strlit("everyheading");
    reveal_strlit("example");
    reveal_strlit("exampleindent");
    reveal_strlit("exdent");
    reveal_strlit("finalout");
    reveal_strlit("findex");
    reveal_strlit("firstparagraphindent");
    reveal_strlit("format");
    reveal_strlit("frenchspacing");
    reveal_strlit("ftable");
    reveal_strlit("group");
    reveal_strlit("headings");
    reveal_strlit("headitem");
    reveal_strlit("html");
    reveal_strlit("ifclear");
    reveal_strlit("ifdocbook");
    reveal_strlit("ifhtml");
    reveal_strlit("ifinfo");
    reveal_strlit("iflatex");
    reveal_strlit("ifnotdocbook");
    reveal_strlit("ifnothtml");
    reveal_strlit("ifnotinfo");
    reveal_strlit("ifnotlatex");
    reveal_strlit("ifnotplaintext");
    reveal_strlit("ifnottex");
    reveal_strlit("ifnotxml");
    reveal_strlit("ifplaintext");
    reveal_strlit("ifset");
    reveal_strlit("iftex");
    reveal_strlit("ifxml");
    reveal_strlit("ignore");
    reveal_strlit("indent");
    reveal_strlit("insertcopying");
    reveal_strlit("itemize");
    reveal_strlit("kbdinputstyle");
    reveal_strlit("kindex");
    reveal_strlit("lisp");
    reveal_strlit("macro");
    reveal_strlit("menu");
    reveal_strlit("multitable");
    reveal_strlit("need");
    reveal_strlit("node");
    reveal_strlit("noindent");
    reveal_strlit("oddfoooting");
    reveal_strlit("oddheading");
    reveal_strlit("page");
    reveal_strlit("pagesizes");
    reveal_strlit("paragraphindent");
    reveal_strlit("pindex");
    reveal_strlit("printindex");
    reveal_strlit("quotation");
    reveal_strlit("rmacro");
    reveal_strlit("section");
    reveal_strlit("set");
    reveal_strlit("setchapternewpage");
    reveal_strlit("setfilename");
    reveal_strlit("settitle");
    reveal_strlit("shortcontents");
    reveal_strlit("smallbook");
    reveal_strlit("smalldisplay");
    reveal_strlit("smallexample");
    reveal_strlit("smallformat");
    reveal_strlit("smalllisp");
    reveal_strlit("smallquotation");
    reveal_strlit("sp");
    reveal_strlit("subsection");
    reveal_strlit("subsubsection");
    reveal_strlit("subtitle");
    reveal_strlit("summarycontents");
    reveal_strlit("syncodeindex");
    reveal_strlit("synindex");
    reveal_strlit("table");
    reveal_strlit("tex");
    reveal_strlit("tindex");
    reveal_strlit("titlepage");
    reveal_strlit("top");
    reveal_strlit("unnumbered");
    reveal_strlit("unnumberedsec");
    reveal_strlit("unnumberedsubsec");
    reveal_strlit("unnumberedsubsubsec");
    reveal_strlit("validatemenus");
    reveal_strlit("value");
    reveal_strlit("verbatim");
    reveal_strlit("vindex");
    reveal_strlit("vskip");
    reveal_strlit("vtable");
    reveal_strlit("xml");
    assert("value"@[0] != "alias"@[0]);
    assert("value"@[0] != "clear"@[0]);
    assert("value"@[0] != "deffn"@[0]);
    assert("value"@[0] != "deftp"@[0]);
    assert("value"@[0] != "defun"@[0]);
    assert("value"@[0] != "defvr"@[0]);
    assert("value"@[0] != "group"@[0]);
    assert("value"@[0] != "ifset"@[0]);
    assert("value"@[0] != "iftex"@[0]);
    assert("value"@[0] != "ifxml"@[0]);
    assert("value"@[0] != "macro"@[0]);
    assert("value"@[0] != "table"@[0]);
    assert("value"@[1] != "vskip"@[1]);

}

/// `@paragraphindent none` and `@paragraphindent 0` set no indentation,
/// `@paragraphindent n` sets `n` spaces, and anything else changes nothing.
pub proof fn law_paragraph_indent(st: ConverterModel, line: Seq<char>, lines: Seq<Seq<char>>, idx: int)
    requires
        st.in_ignore == 0,
        ({
            let cmd = command_name(line);
            cmd == "paragraphindent"@
        }),
    ensures
        ({
            let cmd = command_name(line);
            let t = command_rest(line);
            let step = command_step(st, line, lines, idx);
            &&& step.state == (ConverterModel {
                paragraph_indent: if t == "none"@ || t == "0"@ {
                    Seq::empty()
                } else if parse_usize(t) is Some {
                    repeat(' ', parse_usize(t)->0 as nat)
                } else {
                    st.paragraph_indent
                },
                ..st
            })
            &&& step.next == idx + 1
            &&& step.read_file is None
        }),
{
    reveal_strlit("afivepaper");
    reveal_strlit("afourpaper");
    reveal_strlit("alias");
    reveal_strlit("allowcodebreakable");
    reveal_strlit("anchor");
    reveal_strlit("appendix");
    reveal_strlit("appendixsec");
    reveal_strlit("appendixsubsec");
    reveal_strlit("appendixsubsubsec");
    reveal_strlit("author");
    reveal_strlit("c");
    reveal_strlit("chapter");
    reveal_strlit("cindex");
    reveal_strlit("clear");
    reveal_strlit("columnfractions");
    reveal_strlit("comment");
    reveal_strlit("contents");
    reveal_strlit("copying");
    reveal_strlit("cropmarks");
    reveal_strlit("defcodeindex");
    reveal_strlit("deffn");
    reveal_strlit("defindex");
    reveal_strlit("definfoenclose");
    reveal_strlit("defmac");
    reveal_strlit("defopt");
    reveal_strlit("defspec");
    reveal_strlit("deftp");
    reveal_strlit("deftypefn");
    reveal_strlit("deftypefun");
    reveal_strlit("deftypevar");
    reveal_strlit("deftypevr");
    reveal_strlit("defun");
    reveal_strlit("defvar");
    reveal_strlit("defvr");
    reveal_strlit("detailmenu");
    reveal_strlit("dircategory");
    reveal_strlit("direntry");
    reveal_strlit("display");
    reveal_strlit("docbook");
    reveal_strlit("documentencoding");
    reveal_strlit("documentlanguage");
    reveal_strlit("end");
    reveal_strlit("enumerate");
    reveal_strlit("evenfoooting");
    reveal_strlit("evenheading");
    reveal_strlit("everyfoooting");
    reveal_strlit("everyheading");
    reveal_strlit("example");
    reveal_strlit("exampleindent");
    reveal_strlit("exdent");
    reveal_strlit("finalout");
    reveal_strlit("findex");
    reveal_strlit("firstparagraphindent");
    reveal_strlit("format");
    reveal_strlit("frenchspacing");
    reveal_strlit("ftable");
    reveal_strlit("group");
    reveal_strlit("headings");
    reveal_strlit("headitem");
    reveal_strlit("html");
    reveal_strlit("ifclear");
    reveal_strlit("ifdocbook");
    reveal_strlit("ifhtml");
    reveal_strlit("ifinfo");
    reveal_strlit("iflatex");
    reveal_strlit("ifnotdocbook");
    reveal_strlit("ifnothtml");
    reveal_strlit("ifnotinfo");
    reveal_strlit("ifnotlatex");
    reveal_strlit("ifnotplaintext");
    reveal_strlit("ifnottex");
    reveal_strlit("ifnotxml");
    reveal_strlit("ifplaintext");
    reveal_strlit("ifset");
    reveal_strlit("iftex");
    reveal_strlit("ifxml");
    reveal_strlit("ignore");
    reveal_strlit("indent");
    reveal_strlit("insertcopying");
    reveal_strlit("itemize");
    reveal_strlit("kbdinputstyle");
    reveal_strlit("kindex");
    reveal_strlit("lisp");
    reveal_strlit("macro");
    reveal_strlit("menu");
    reveal_strlit("multitable");
    reveal_strlit("need");
    reveal_strlit("node");
    reveal_strlit("noindent");
    reveal_strlit("oddfoooting");
    reveal_strlit("oddheading");
    reveal_strlit("page");
    reveal_strlit("pagesizes");
    reveal_strlit("paragraphindent");
    reveal_strlit("pindex");
    reveal_strlit("printindex");
    reveal_strlit("quotation");
    reveal_strlit("rmacro");
    reveal_strlit("section");
    reveal_strlit("set");
    reveal_strlit("setchapternewpage");
    reveal_strlit("setfilename");
    reveal_strlit("settitle");
    reveal_strlit("shortcontents");
    reveal_strlit("smallbook");
    reveal_strlit("smalldisplay");
    reveal_strlit("smallexample");
    reveal_strlit("smallformat");
    reveal_strlit("smalllisp");
    reveal_strlit("smallquotation");
    reveal_strlit("sp");
    reveal_strlit("subsection");
    reveal_strlit("subsubsection");
    reveal_strlit("subtitle");
    reveal_strlit("summarycontents");
    reveal_strlit("syncodeindex");
    reveal_strlit("synindex");
    reveal_strlit("table");
    reveal_strlit("tex");
    reveal_strlit("tindex");
    reveal_strlit("titlepage");
    reveal_strlit("top");
    reveal_strlit("unnumbered");
    reveal_strlit("unnumberedsec");
    reveal_strlit("unnumberedsubsec");
    reveal_strlit("unnumberedsubsubsec");
    reveal_strlit("validatemenus");
    reveal_strlit("value");
    reveal_strlit("verbatim");
    reveal_strlit("vindex");
    reveal_strlit("vskip");
    reveal_strlit("vtable");
    reveal_strlit("xml");
    assert("paragraphindent"@[0] != "columnfractions"@[0]);
    assert("paragraphindent"@[0] != "summarycontents"@[0]);

}

/// `@menu` opens a menu and adds its heading; `@end menu` closes it and
/// adds a newline; any other `@end` line changes nothing.
pub proof fn law_menu_commands(st: ConverterModel, line: Seq<char>, lines: Seq<Seq<char>>, idx: int)
    requires
        st.in_ignore == 0,
        ({
            let cmd = command_name(line);
            cmd == "menu"@ || cmd == "end"@
        }),
    ensures
        ({
            let cmd = command_name(line);
            let t = command_rest(line);
            let step = command_step(st, line, lines, idx);
            &&& cmd == "menu"@ ==> step.state == with_text(ConverterModel { in_menu: true, ..st }, "\n* Menu:\n\n"@)
            &&& cmd == "end"@ && starts_with(t, "menu"@) ==> step.state == with_text(ConverterModel { in_menu: false, ..st }, "\n"@)
            &&& cmd == "end"@ && !starts_with(t, "menu"@) ==> step.state == st
            &&& step.next == idx + 1
            &&& step.read_file is None
        }),
{
    reveal_strlit("afivepaper");
    reveal_strlit("afourpaper");
    reveal_strlit("alias");
    reveal_strlit("allowcodebreakable");
    reveal_strlit("anchor");
    reveal_strlit("appendix");
    reveal_strlit("appendixsec");
    reveal_strlit("appendixsubsec");
    reveal_strlit("appendixsubsubsec");
    reveal_strlit("author");
    reveal_strlit("c");
    reveal_strlit("chapter");
    reveal_strlit("cindex");
    reveal_strlit("clear");
    reveal_strlit("columnfractions");
    reveal_strlit("comment");
    reveal_strlit("contents");
    reveal_strlit("copying");
    reveal_strlit("cropmarks");
    reveal_strlit("defcodeindex");
    reveal_strlit("deffn");
    reveal_strlit("defindex");
    reveal_strlit("definfoenclose");
    reveal_strlit("defmac");
    reveal_strlit("defopt");
    reveal_strlit("defspec");
    reveal_strlit("deftp");
    reveal_strlit("deftypefn");
    reveal_strlit("deftypefun");
    reveal_strlit("deftypevar");
    reveal_strlit("deftypevr");
    reveal_strlit("defun");
    reveal_strlit("defvar");
    reveal_strlit("defvr");
    reveal_strlit("detailmenu");
    reveal_strlit("dircategory");
    reveal_strlit("direntry");
    reveal_strlit("display");
    reveal_strlit("docbook");
    reveal_strlit("documentencoding");
    reveal_strlit("documentlanguage");
    reveal_strlit("end");
    reveal_strlit("enumerate");
    reveal_strlit("evenfoooting");
    reveal_strlit("evenheading");
    reveal_strlit("everyfoooting");
    reveal_strlit("everyheading");
    reveal_strlit("example");
    reveal_strlit("exampleindent");
    reveal_strlit("exdent");
    reveal_strlit("finalout");
    reveal_strlit("findex");
    reveal_strlit("firstparagraphindent");
    reveal_strlit("format");
    reveal_strlit("frenchspacing");
    reveal_strlit("ftable");
    reveal_strlit("group");
    reveal_strlit("headings");
    reveal_strlit("headitem");
    reveal_strlit("html");
    reveal_strlit("ifclear");
    reveal_strlit("ifdocbook");
    reveal_strlit("ifhtml");
    reveal_strlit("ifinfo");
    reveal_strlit("iflatex");
    reveal_strlit("ifnotdocbook");
    reveal_strlit("ifnothtml");
    reveal_strlit("ifnotinfo");
    reveal_strlit("ifnotlatex");
    reveal_strlit("ifnotplaintext");
    reveal_strlit("ifnottex");
    reveal_strlit("ifnotxml");
    reveal_strlit("ifplaintext");
    reveal_strlit("ifset");
    reveal_strlit("iftex");
    reveal_strlit("ifxml");
    reveal_strlit("ignore");
    reveal_strlit("indent");
    reveal_strlit("insertcopying");
    reveal_strlit("itemize");
    reveal_strlit("kbdinputstyle");
    reveal_strlit("kindex");
    reveal_strlit("lisp");
    reveal_strlit("macro");
    reveal_strlit("menu");
    reveal_strlit("multitable");
    reveal_strlit("need");
    reveal_strlit("node");
    reveal_strlit("noindent");
    reveal_strlit("oddfoooting");
    reveal_strlit("oddheading");
    reveal_strlit("page");
    reveal_strlit("pagesizes");
    reveal_strlit("paragraphindent");
    reveal_strlit("pindex");
    reveal_strlit("printindex");
    reveal_strlit("quotation");
    reveal_strlit("rmacro");
    reveal_strlit("section");
    reveal_strlit("set");
    reveal_strlit("setchapternewpage");
    reveal_strlit("setfilename");
    reveal_strlit("settitle");
    reveal_strlit("shortcontents");
    reveal_strlit("smallbook");
    reveal_strlit("smalldisplay");
    reveal_strlit("smallexample");
    reveal_strlit("smallformat");
    reveal_strlit("smalllisp");
    reveal_strlit("smallquotation");
    reveal_strlit("sp");
    reveal_strlit("subsection");
    reveal_strlit("subsubsection");
    reveal_strlit("subtitle");
    reveal_strlit("summarycontents");
    reveal_strlit("syncodeindex");
    reveal_strlit("synindex");
    reveal_strlit("table");
    reveal_strlit("tex");
    reveal_strlit("tindex");
    reveal_strlit("titlepage");
    reveal_strlit("top");
    reveal_strlit("unnumbered");
    reveal_strlit("unnumberedsec");
    reveal_strlit("unnumberedsubsec");
    reveal_strlit("unnumberedsubsubsec");
    reveal_strlit("validatemenus");
    reveal_strlit("value");
    reveal_strlit("verbatim");
    reveal_strlit("vindex");
    reveal_strlit("vskip");
    reveal_strlit("vtable");
    reveal_strlit("xml");
    assert("menu"@[0] != "html"@[0]);
    assert("menu"@[0] != "lisp"@[0]);
    assert("menu"@[0] != "need"@[0]);
    assert("menu"@[0] != "node"@[0]);
    assert("menu"@[0] != "page"@[0]);
    assert("end"@[0] != "set"@[0]);
    assert("end"@[0] != "tex"@[0]);
    assert("end"@[0] != "top"@[0]);
    assert("end"@[0] != "xml"@[0]);

}

/// `@ifset name` opens an ignored region where the variable is not set,
/// `@ifclear name` where it is; neither adds text.
pub proof fn law_variable_conditionals(st: ConverterModel, line: Seq<char>, lines: Seq<Seq<char>>, idx: int)
    requires
        st.in_ignore == 0,
        ({
            let cmd = command_name(line);
            cmd == "ifset"@ || cmd == "ifclear"@
        }),
    ensures
        ({
            let cmd = command_name(line);
            let t = command_rest(line);
            let step = command_step(st, line, lines, idx);
            &&& ({
                let set = st.variables.contains_key(first_word(t));
                step.state == (ConverterModel {
                    in_ignore: if (cmd == "ifset"@) != set { 1nat } else { 0nat },
                    ..st
                })
            })
            &&& step.next == idx + 1
            &&& step.read_file is None
        }),
{
    reveal_strlit("afivepaper");
    reveal_strlit("afourpaper");
    reveal_strlit("alias");
    reveal_strlit("allowcodebreakable");
    reveal_strlit("anchor");
    reveal_strlit("appendix");
    reveal_strlit("appendixsec");
    reveal_strlit("appendixsubsec");
    reveal_strlit("appendixsubsubsec");
    reveal_strlit("author");
    reveal_strlit("c");
    reveal_strlit("chapter");
    reveal_strlit("cindex");
    reveal_strlit("clear");
    reveal_strlit("columnfractions");
    reveal_strlit("comment");
    reveal_strlit("contents");
    reveal_strlit("copying");
    reveal_strlit("cropmarks");
    reveal_strlit("defcodeindex");
    reveal_strlit("deffn");
    reveal_strlit("defindex");
    reveal_strlit("definfoenclose");
    reveal_strlit("defmac");
    reveal_strlit("defopt");
    reveal_strlit("defspec");
    reveal_strlit("deftp");
    reveal_strlit("deftypefn");
    reveal_strlit("deftypefun");
    reveal_strlit("deftypevar");
    reveal_strlit("deftypevr");
    reveal_strlit("defun");
    reveal_strlit("defvar");
    reveal_strlit("defvr");
    reveal_strlit("detailmenu");
    reveal_strlit("dircategory");
    reveal_strlit("direntry");
    reveal_strlit("display");
    reveal_strlit("docbook");
    reveal_strlit("documentencoding");
    reveal_strlit("documentlanguage");
    reveal_strlit("end");
    reveal_strlit("enumerate");
    reveal_strlit("evenfoooting");
    reveal_strlit("evenheading");
    reveal_strlit("everyfoooting");
    reveal_strlit("everyheading");
    reveal_strlit("example");
    reveal_strlit("exampleindent");
    reveal_strlit("exdent");
    reveal_strlit("finalout");
    reveal_strlit("findex");
    reveal_strlit("firstparagraphindent");
    reveal_strlit("format");
    reveal_strlit("frenchspacing");
    reveal_strlit("ftable");
    reveal_strlit("group");
    reveal_strlit("headings");
    reveal_strlit("headitem");
    reveal_strlit("html");
    reveal_strlit("ifclear");
    reveal_strlit("ifdocbook");
    reveal_strlit("ifhtml");
    reveal_strlit("ifinfo");
    reveal_strlit("iflatex");
    reveal_strlit("ifnotdocbook");
    reveal_strlit("ifnothtml");
    reveal_strlit("ifnotinfo");
    reveal_strlit("ifnotlatex");
    reveal_strlit("ifnotplaintext");
    reveal_strlit("ifnottex");
    reveal_strlit("ifnotxml");
    reveal_strlit("ifplaintext");
    reveal_strlit("ifset");
    reveal_strlit("iftex");
    reveal_strlit("ifxml");
    reveal_strlit("ignore");
    reveal_strlit("indent");
    reveal_strlit("insertcopying");
    reveal_strlit("itemize");
    reveal_strlit("kbdinputstyle");
    reveal_strlit("kindex");
    reveal_strlit("lisp");
    reveal_strlit("macro");
    reveal_strlit("menu");
    reveal_strlit("multitable");
    reveal_strlit("need");
    reveal_strlit("node");
    reveal_strlit("noindent");
    reveal_strlit("oddfoooting");
    reveal_strlit("oddheading");
    reveal_strlit("page");
    reveal_strlit("pagesizes");
    reveal_strlit("paragraphindent");
    reveal_strlit("pindex");
    reveal_strlit("printindex");
    reveal_strlit("quotation");
    reveal_strlit("rmacro");
    reveal_strlit("section");
    reveal_strlit("set");
    reveal_strlit("setchapternewpage");
    reveal_strlit("setfilename");
    reveal_strlit("settitle");
    reveal_strlit("shortcontents");
    reveal_strlit("smallbook");
    reveal_strlit("smalldisplay");
    reveal_strlit("smallexample");
    reveal_strlit("smallformat");
    reveal_strlit("smalllisp");
    reveal_strlit("smallquotation");
    reveal_strlit("sp");
    reveal_strlit("subsection");
    reveal_strlit("subsubsection");
    reveal_strlit("subtitle");
    reveal_strlit("summarycontents");
    reveal_strlit("syncodeindex");
    reveal_strlit("synindex");
    reveal_strlit("table");
    reveal_strlit("tex");
    reveal_strlit("tindex");
    reveal_strlit("titlepage");
    reveal_strlit("top");
    reveal_strlit("unnumbered");
    reveal_strlit("unnumberedsec");
    reveal_strlit("unnumberedsubsec");
    reveal_strlit("unnumberedsubsubsec");
    reveal_strlit("validatemenus");
    reveal_strlit("value");
    reveal_strlit("verbatim");
    reveal_strlit("vindex");
    reveal_strlit("vskip");
    reveal_strlit("vtable");
    reveal_strlit("xml");
    assert("ifset"@[0] != "alias"@[0]);
    assert("ifset"@[0] != "clear"@[0]);
    assert("ifset"@[0] != "deffn"@[0]);
    assert("ifset"@[0] != "deftp"@[0]);
    assert("ifset"@[0] != "defun"@[0]);
    assert("ifset"@[0] != "defvr"@[0]);
    assert("ifset"@[0] != "group"@[0]);
    assert("ifset"@[2] != "iftex"@[2]);
    assert("ifset"@[2] != "ifxml"@[2]);
    assert("ifset"@[0] != "macro"@[0]);
    assert("ifset"@[0] != "table"@[0]);
    assert("ifset"@[0] != "value"@[0]);
    assert("ifset"@[0] != "vskip"@[0]);
    assert("ifclear"@[0] != "chapter"@[0]);
    assert("ifclear"@[0] != "comment"@[0]);
    assert("ifclear"@[0] != "copying"@[0]);
    assert("ifclear"@[0] != "defspec"@[0]);
    assert("ifclear"@[0] != "display"@[0]);
    assert("ifclear"@[0] != "docbook"@[0]);
    assert("ifclear"@[0] != "example"@[0]);
    assert("ifclear"@[2] != "iflatex"@[2]);
    assert("ifclear"@[1] != "itemize"@[1]);
    assert("ifclear"@[0] != "section"@[0]);
    assert("ifclear"@[1] != file_command()[1]);

}

/// `@multitable`: the table's row and cell lines up to the matching `@end`
/// line, and reading goes on after it.
pub proof fn law_multitable_blocks(st: ConverterModel, line: Seq<char>, lines: Seq<Seq<char>>, idx: int)
    requires
        st.in_ignore == 0,
        ({
            let cmd = command_name(line);
            cmd == "multitable"@
        }),
    ensures
        ({
            let cmd = command_name(line);
            let t = command_rest(line);
            let step = command_step(st, line, lines, idx);
            &&& step.state == with_text(st, multitable_body(lines, idx + 1, block_end(lines, idx + 1, cmd)))
            &&& step.next == block_end(lines, idx + 1, cmd) + 1
        }),
{
    reveal_strlit("afivepaper");
    reveal_strlit("afourpaper");
    reveal_strlit("alias");
    reveal_strlit("allowcodebreakable");
    reveal_strlit("anchor");
    reveal_strlit("appendix");
    reveal_strlit("appendixsec");
    reveal_strlit("appendixsubsec");
    reveal_strlit("appendixsubsubsec");
    reveal_strlit("author");
    reveal_strlit("c");
    reveal_strlit("chapter");
    reveal_strlit("cindex");
    reveal_strlit("clear");
    reveal_strlit("columnfractions");
    reveal_strlit("comment");
    reveal_strlit("contents");
    reveal_strlit("copying");
    reveal_strlit("cropmarks");
    reveal_strlit("defcodeindex");
    reveal_strlit("deffn");
    reveal_strlit("defindex");
    reveal_strlit("definfoenclose");
    reveal_strlit("defmac");
    reveal_strlit("defopt");
    reveal_strlit("defspec");
    reveal_strlit("deftp");
    reveal_strlit("deftypefn");
    reveal_strlit("deftypefun");
    reveal_strlit("deftypevar");
    reveal_strlit("deftypevr");
    reveal_strlit("defun");
    reveal_strlit("defvar");
    reveal_strlit("defvr");
    reveal_strlit("detailmenu");
    reveal_strlit("dircategory");
    reveal_strlit("direntry");
    reveal_strlit("display");
    reveal_strlit("docbook");
    reveal_strlit("documentencoding");
    reveal_strlit("documentlanguage");
    reveal_strlit("end");
    reveal_strlit("enumerate");
    reveal_strlit("evenfoooting");
    reveal_strlit("evenheading");
    reveal_strlit("everyfoooting");
    reveal_strlit("everyheading");
    reveal_strlit("example");
    reveal_strlit("exampleindent");
    reveal_strlit("exdent");
    reveal_strlit("finalout");
    reveal_strlit("findex");
    reveal_strlit("firstparagraphindent");
    reveal_strlit("format");
    reveal_strlit("frenchspacing");
    reveal_strlit("ftable");
    reveal_strlit("group");
    reveal_strlit("headings");
    reveal_strlit("headitem");
    reveal_strlit("html");
    reveal_strlit("ifclear");
    reveal_strlit("ifdocbook");
    reveal_strlit("ifhtml");
    reveal_strlit("ifinfo");
    reveal_strlit("iflatex");
    reveal_strlit("ifnotdocbook");
    reveal_strlit("ifnothtml");
    reveal_strlit("ifnotinfo");
    reveal_strlit("ifnotlatex");
    reveal_strlit("ifnotplaintext");
    reveal_strlit("ifnottex");
    reveal_strlit("ifnotxml");
    reveal_strlit("ifplaintext");
    reveal_strlit("ifset");
    reveal_strlit("iftex");
    reveal_strlit("ifxml");
    reveal_strlit("ignore");
    reveal_strlit("indent");
    reveal_strlit("insertcopying");
    reveal_strlit("itemize");
    reveal_strlit("kbdinputstyle");
    reveal_strlit("kindex");
    reveal_strlit("lisp");
    reveal_strlit("macro");
    reveal_strlit("menu");
    reveal_strlit("multitable");
    reveal_strlit("need");
    reveal_strlit("node");
    reveal_strlit("noindent");
    reveal_strlit("oddfoooting");
    reveal_strlit("oddheading");
    reveal_strlit("page");
    reveal_strlit("pagesizes");
    reveal_strlit("paragraphindent");
    reveal_strlit("pindex");
    reveal_strlit("printindex");
    reveal_strlit("quotation");
    reveal_strlit("rmacro");
    reveal_strlit("section");
    reveal_strlit("set");
    reveal_strlit("setchapternewpage");
    reveal_strlit("setfilename");
    reveal_strlit("settitle");
    reveal_strlit("shortcontents");
    reveal_strlit("smallbook");
    reveal_strlit("smalldisplay");
    reveal_strlit("smallexample");
    reveal_strlit("smallformat");
    reveal_strlit("smalllisp");
    reveal_strlit("smallquotation");
    reveal_strlit("sp");
    reveal_strlit("subsection");
    reveal_strlit("subsubsection");
    reveal_strlit("subtitle");
    reveal_strlit("summarycontents");
    reveal_strlit("syncodeindex");
    reveal_strlit("synindex");
    reveal_strlit("table");
    reveal_strlit("tex");
    reveal_strlit("tindex");
    reveal_strlit("titlepage");
    reveal_strlit("top");
    reveal_strlit("unnumbered");
    reveal_strlit("unnumberedsec");
    reveal_strlit("unnumberedsubsec");
    reveal_strlit("unnumberedsubsubsec");
    reveal_strlit("validatemenus");
    reveal_strlit("value");
    reveal_strlit("verbatim");
    reveal_strlit("vindex");
    reveal_strlit("vskip");
    reveal_strlit("vtable");
    reveal_strlit("xml");
    assert("multitable"@[0] != "afivepaper"@[0]);
    assert("multitable"@[0] != "afourpaper"@[0]);
    assert("multitable"@[0] != "deftypefun"@[0]);
    assert("multitable"@[0] != "deftypevar"@[0]);
    assert("multitable"@[0] != "detailmenu"@[0]);
    assert("multitable"@[0] != "ifnotlatex"@[0]);
    assert("multitable"@[0] != "oddheading"@[0]);
    assert("multitable"@[0] != "printindex"@[0]);
    assert("multitable"@[0] != "subsection"@[0]);
    assert("multitable"@[0] != "unnumbered"@[0]);

}

/// `@titlepage`: up to the matching `@end` line, lines add no text and may
/// set the title, author and subtitle.
pub proof fn law_title_page_blocks(st: ConverterModel, line: Seq<char>, lines: Seq<Seq<char>>, idx: int)
    requires
        st.in_ignore == 0,
        ({
            let cmd = command_name(line);
            cmd == "titlepage"@
        }),
    ensures
        ({
            let cmd = command_name(line);
            let t = command_rest(line);
            let step = command_step(st, line, lines, idx);
            &&& step.state == title_page(st, lines, idx + 1, block_end(lines, idx + 1, cmd))
            &&& step.next == block_end(lines, idx + 1, cmd) + 1
        }),
{
    reveal_strlit("afivepaper");
    reveal_strlit("afourpaper");
    reveal_strlit("alias");
    reveal_strlit("allowcodebreakable");
    reveal_strlit("anchor");
    reveal_strlit("appendix");
    reveal_strlit("appendixsec");
    reveal_strlit("appendixsubsec");
    reveal_strlit("appendixsubsubsec");
    reveal_strlit("author");
    reveal_strlit("c");
    reveal_strlit("chapter");
    reveal_strlit("cindex");
    reveal_strlit("clear");
    reveal_strlit("columnfractions");
    reveal_strlit("comment");
    reveal_strlit("contents");
    reveal_strlit("copying");
    reveal_strlit("cropmarks");
    reveal_strlit("defcodeindex");
    reveal_strlit("deffn");
    reveal_strlit("defindex");
    reveal_strlit("definfoenclose");
    reveal_strlit("defmac");
    reveal_strlit("defopt");
    reveal_strlit("defspec");
    reveal_strlit("deftp");
    reveal_strlit("deftypefn");
    reveal_strlit("deftypefun");
    reveal_strlit("deftypevar");
    reveal_strlit("deftypevr");
    reveal_strlit("defun");
    reveal_strlit("defvar");
    reveal_strlit("defvr");
    reveal_strlit("detailmenu");
    reveal_strlit("dircategory");
    reveal_strlit("direntry");
    reveal_strlit("display");
    reveal_strlit("docbook");
    reveal_strlit("documentencoding");
    reveal_strlit("documentlanguage");
    reveal_strlit("end");
    reveal_strlit("enumerate");
    reveal_strlit("evenfoooting");
    reveal_strlit("evenheading");
    reveal_strlit("everyfoooting");
    reveal_strlit("everyheading");
    reveal_strlit("example");
    reveal_strlit("exampleindent");
    reveal_strlit("exdent");
    reveal_strlit("finalout");
    reveal_strlit("findex");
    reveal_strlit("firstparagraphindent");
    reveal_strlit("format");
    reveal_strlit("frenchspacing");
    reveal_strlit("ftable");
    reveal_strlit("group");
    reveal_strlit("headings");
    reveal_strlit("headitem");
    reveal_strlit("html");
    reveal_strlit("ifclear");
    reveal_strlit("ifdocbook");
    reveal_strlit("ifhtml");
    reveal_strlit("ifinfo");
    reveal_strlit("iflatex");
    reveal_strlit("ifnotdocbook");
    reveal_strlit("ifnothtml");
    reveal_strlit("ifnotinfo");
    reveal_strlit("ifnotlatex");
    reveal_strlit("ifnotplaintext");
    reveal_strlit("ifnottex");
    reveal_strlit("ifnotxml");
    reveal_strlit("ifplaintext");
    reveal_strlit("ifset");
    reveal_strlit("iftex");
    reveal_strlit("ifxml");
    reveal_strlit("ignore");
    reveal_strlit("indent");
    reveal_strlit("insertcopying");
    reveal_strlit("itemize");
    reveal_strlit("kbdinputstyle");
    reveal_strlit("kindex");
    reveal_strlit("lisp");
    reveal_strlit("macro");
    reveal_strlit("menu");
    reveal_strlit("multitable");
    reveal_strlit("need");
    reveal_strlit("node");
    reveal_strlit("noindent");
    reveal_strlit("oddfoooting");
    reveal_strlit("oddheading");
    reveal_strlit("page");
    reveal_strlit("pagesizes");
    reveal_strlit("paragraphindent");
    reveal_strlit("pindex");
    reveal_strlit("printindex");
    reveal_strlit("quotation");
    reveal_strlit("rmacro");
    reveal_strlit("section");
    reveal_strlit("set");
    reveal_strlit("setchapternewpage");
    reveal_strlit("setfilename");
    reveal_strlit("settitle");
    reveal_strlit("shortcontents");
    reveal_strlit("smallbook");
    reveal_strlit("smalldisplay");
    reveal_strlit("smallexample");
    reveal_strlit("smallformat");
    reveal_strlit("smalllisp");
    reveal_strlit("smallquotation");
    reveal_strlit("sp");
    reveal_strlit("subsection");
    reveal_strlit("subsubsection");
    reveal_strlit("subtitle");
    reveal_strlit("summarycontents");
    reveal_strlit("syncodeindex");
    reveal_strlit("synindex");
    reveal_strlit("table");
    reveal_strlit("tex");
    reveal_strlit("tindex");
    reveal_strlit("titlepage");
    reveal_strlit("top");
    reveal_strlit("unnumbered");
    reveal_strlit("unnumberedsec");
    reveal_strlit("unnumberedsubsec");
    reveal_strlit("unnumberedsubsubsec");
    reveal_strlit("validatemenus");
    reveal_strlit("value");
    reveal_strlit("verbatim");
    reveal_strlit("vindex");
    reveal_strlit("vskip");
    reveal_strlit("vtable");
    reveal_strlit("xml");
    assert("titlepage"@[0] != "cropmarks"@[0]);
    assert("titlepage"@[0] != "deftypefn"@[0]);
    assert("titlepage"@[0] != "deftypevr"@[0]);
    assert("titlepage"@[0] != "enumerate"@[0]);
    assert("titlepage"@[0] != "ifdocbook"@[0]);
    assert("titlepage"@[0] != "ifnothtml"@[0]);
    assert("titlepage"@[0] != "ifnotinfo"@[0]);
    assert("titlepage"@[0] != "pagesizes"@[0]);
    assert("titlepage"@[0] != "quotation"@[0]);
    assert("titlepage"@[0] != "smallbook"@[0]);
    assert("titlepage"@[0] != "smalllisp"@[0]);

}

/// `@node name, next, prev, up`: the pending text goes to its node, and a
/// node with those links and no content is added at the end and made
/// current.
pub proof fn law_node_command(st: ConverterModel, line: Seq<char>, lines: Seq<Seq<char>>, idx: int)
    requires
        st.in_ignore == 0,
        ({
            let cmd = command_name(line);
            cmd == "node"@
        }),
    ensures
        ({
            let cmd = command_name(line);
            let t = command_rest(line);
            let step = command_step(st, line, lines, idx);
            &&& ({
                let parts = split_n(t, ',', 4);
                let name = trim(parts[0]);
                let f = flushed(st);
                step.state == (ConverterModel {
                    current_node: Some(name),
                    nodes: f.nodes.push(NodeModel {
                        name: name,
                        next: if parts.len() > 1 && trim(parts[1]).len() > 0 { Some(trim(parts[1])) } else { None },
                        prev: if parts.len() > 2 && trim(parts[2]).len() > 0 { Some(trim(parts[2])) } else { None },
                        up: if parts.len() > 3 && trim(parts[3]).len() > 0 { Some(trim(parts[3])) } else { None },
                        content: Seq::empty(),
                        is_top: eq_ignore_ascii_case(name, "top"@),
                    }),
                    ..f
                })
            })
            &&& step.next == idx + 1
            &&& step.read_file is None
        }),
{
    reveal_strlit("afivepaper");
    reveal_strlit("afourpaper");
    reveal_strlit("alias");
    reveal_strlit("allowcodebreakable");
    reveal_strlit("anchor");
    reveal_strlit("appendix");
    reveal_strlit("appendixsec");
    reveal_strlit("appendixsubsec");
    reveal_strlit("appendixsubsubsec");
    reveal_strlit("author");
    reveal_strlit("c");
    reveal_strlit("chapter");
    reveal_strlit("cindex");
    reveal_strlit("clear");
    reveal_strlit("columnfractions");
    reveal_strlit("comment");
    reveal_strlit("contents");
    reveal_strlit("copying");
    reveal_strlit("cropmarks");
    reveal_strlit("defcodeindex");
    reveal_strlit("deffn");
    reveal_strlit("defindex");
    reveal_strlit("definfoenclose");
    reveal_strlit("defmac");
    reveal_strlit("defopt");
    reveal_strlit("defspec");
    reveal_strlit("deftp");
    reveal_strlit("deftypefn");
    reveal_strlit("deftypefun");
    reveal_strlit("deftypevar");
    reveal_strlit("deftypevr");
    reveal_strlit("defun");
    reveal_strlit("defvar");
    reveal_strlit("defvr");
    reveal_strlit("detailmenu");
    reveal_strlit("dircategory");
    reveal_strlit("direntry");
    reveal_strlit("display");
    reveal_strlit("docbook");
    reveal_strlit("documentencoding");
    reveal_strlit("documentlanguage");
    reveal_strlit("end");
    reveal_strlit("enumerate");
    reveal_strlit("evenfoooting");
    reveal_strlit("evenheading");
    reveal_strlit("everyfoooting");
    reveal_strlit("everyheading");
    reveal_strlit("example");
    reveal_strlit("exampleindent");
    reveal_strlit("exdent");
    reveal_strlit("finalout");
    reveal_strlit("findex");
    reveal_strlit("firstparagraphindent");
    reveal_strlit("format");
    reveal_strlit("frenchspacing");
    reveal_strlit("ftable");
    reveal_strlit("group");
    reveal_strlit("headings");
    reveal_strlit("headitem");
    reveal_strlit("html");
    reveal_strlit("ifclear");
    reveal_strlit("ifdocbook");
    reveal_strlit("ifhtml");
    reveal_strlit("ifinfo");
    reveal_strlit("iflatex");
    reveal_strlit("ifnotdocbook");
    reveal_strlit("ifnothtml");
    reveal_strlit("ifnotinfo");
    reveal_strlit("ifnotlatex");
    reveal_strlit("ifnotplaintext");
    reveal_strlit("ifnottex");
    reveal_strlit("ifnotxml");
    reveal_strlit("ifplaintext");
    reveal_strlit("ifset");
    reveal_strlit("iftex");
    reveal_strlit("ifxml");
    reveal_strlit("ignore");
    reveal_strlit("indent");
    reveal_strlit("insertcopying");
    reveal_strlit("itemize");
    reveal_strlit("kbdinputstyle");
    reveal_strlit("kindex");
    reveal_strlit("lisp");
    reveal_strlit("macro");
    reveal_strlit("menu");
    reveal_strlit("multitable");
    reveal_strlit("need");
    reveal_strlit("node");
    reveal_strlit("noindent");
    reveal_strlit("oddfoooting");
    reveal_strlit("oddheading");
    reveal_strlit("page");
    reveal_strlit("pagesizes");
    reveal_strlit("paragraphindent");
    reveal_strlit("pindex");
    reveal_strlit("printindex");
    reveal_strlit("quotation");
    reveal_strlit("rmacro");
    reveal_strlit("section");
    reveal_strlit("set");
    reveal_strlit("setchapternewpage");
    reveal_strlit("setfilename");
    reveal_strlit("settitle");
    reveal_strlit("shortcontents");
    reveal_strlit("smallbook");
    reveal_strlit("smalldisplay");
    reveal_strlit("smallexample");
    reveal_strlit("smallformat");
    reveal_strlit("smalllisp");
    reveal_strlit("smallquotation");
    reveal_strlit("sp");
    reveal_strlit("subsection");
    reveal_strlit("subsubsection");
    reveal_strlit("subtitle");
    reveal_strlit("summarycontents");
    reveal_strlit("syncodeindex");
    reveal_strlit("synindex");
    reveal_strlit("table");
    reveal_strlit("tex");
    reveal_strlit("tindex");
    reveal_strlit("titlepage");
    reveal_strlit("top");
    reveal_strlit("unnumbered");
    reveal_strlit("unnumberedsec");
    reveal_strlit("unnumberedsubsec");
    reveal_strlit("unnumberedsubsubsec");
    reveal_strlit("validatemenus");
    reveal_strlit("value");
    reveal_strlit("verbatim");
    reveal_strlit("vindex");
    reveal_strlit("vskip");
    reveal_strlit("vtable");
    reveal_strlit("xml");
    assert("node"@[0] != "html"@[0]);
    assert("node"@[0] != "lisp"@[0]);
    assert("node"@[0] != "menu"@[0]);
    assert("node"@[1] != "need"@[1]);
    assert("node"@[0] != "page"@[0]);

}

/// A line of a list that starts, once trimmed, with `@item`.
pub open spec fn is_item_line(l: Seq<char>) -> bool {
    starts_with(trim(l), "@item"@)
}

/// The test for item lines, as a function.
pub open spec fn item_lines() -> spec_fn(Seq<char>) -> bool {
    |l: Seq<char>| is_item_line(l)
}

proof fn lemma_item_count_is_filtered_count(lines: Seq<Seq<char>>, from: int, to: int)
    requires
        0 <= from <= to <= lines.len(),
    ensures
        item_count(lines, from, to) == lines.subrange(from, to).filter(item_lines()).len(),
    decreases to - from,
{
    reveal(Seq::filter);
    let s = lines.subrange(from, to);
    if to > from {
        lemma_item_count_is_filtered_count(lines, from, to - 1);
        assert(s.drop_last() =~= lines.subrange(from, to - 1));
        assert(s.last() == lines[to - 1]);
    } else {
        assert(s.len() == 0);
    }
}

/// The text of an item line after its marker.
pub open spec fn item_rest(l: Seq<char>) -> Seq<char> {
    let t = trim(trim(l).skip(5));
    if t.len() > 0 {
        expand(t)
    } else {
        Seq::empty()
    }
}

/// In a numbered list the marker of an item line is its rank among the
/// item lines of the list, whatever lines stand between items; a bulleted
/// list marks every item with `*`. Other lines are expanded after five
/// spaces, and empty ones stay empty.
pub proof fn law_list_markers(lines: Seq<Seq<char>>, from: int, j: int)
    requires
        0 <= from <= j < lines.len(),
    ensures
        is_item_line(lines[j]) ==> list_body(lines, from, j + 1, true) == list_body(
            lines,
            from,
            j,
            true,
        ) + "  "@ + decimal(lines.subrange(from, j + 1).filter(item_lines()).len()) + ". "@
            + item_rest(lines[j]) + "\n"@,
        is_item_line(lines[j]) ==> list_body(lines, from, j + 1, false) == list_body(
            lines,
            from,
            j,
            false,
        ) + "   * "@ + item_rest(lines[j]) + "\n"@,
        !is_item_line(lines[j]) ==> list_body(lines, from, j + 1, true) == list_body(
            lines,
            from,
            j,
            true,
        ) + (if trim(lines[j]).len() > 0 {
            "     "@ + expand(trim(lines[j])) + "\n"@
        } else {
            "\n"@
        }),
{
    lemma_item_count_is_filtered_count(lines, from, j + 1);
}

/// Each line of a two-column table, once trimmed: an `@itemx` or `@item`
/// line gives its text, expanded, on a line of its own; another non-empty
/// line is expanded after five spaces; an empty line stays empty.
pub proof fn law_table_lines(lines: Seq<Seq<char>>, from: int, j: int)
    requires
        0 <= from <= j < lines.len(),
    ensures
        ({
            let l = trim(lines[j]);
            table_body(lines, from, j + 1) == table_body(lines, from, j) + if starts_with(
                l,
                "@itemx"@,
            ) {
                expand(trim(l.skip(6))) + "\n"@
            } else if starts_with(l, "@item"@) {
                expand(trim(l.skip(5))) + "\n"@
            } else if l.len() > 0 {
                "     "@ + expand(l) + "\n"@
            } else {
                "\n"@
            }
        }),
{
    reveal_strlit("@item");
    reveal_strlit("@itemx");
    let l = trim(lines[j]);
    if starts_with(l, "@itemx"@) {
        assert(l.take(5) =~= "@item"@);
    }
}

} // verus!
