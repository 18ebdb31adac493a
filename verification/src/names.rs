//! The groups of command names that the converter treats alike.

use vstd::prelude::*;

use crate::text::eq_str;

verus! {

/// Commands that start a chapter.
pub open spec fn is_chapter_like(n: Seq<char>) -> bool {
    n == "chapter"@ || n == "unnumbered"@ || n == "appendix"@
}

pub fn is_chapter_like_exec(n: &[char]) -> (r: bool)
    ensures
        r == is_chapter_like(n@),
{
    eq_str(n, "chapter") || eq_str(n, "unnumbered") || eq_str(n, "appendix")
}

/// Commands that start a section.
pub open spec fn is_section_like(n: Seq<char>) -> bool {
    n == "section"@ || n == "unnumberedsec"@ || n == "appendixsec"@
}

pub fn is_section_like_exec(n: &[char]) -> (r: bool)
    ensures
        r == is_section_like(n@),
{
    eq_str(n, "section") || eq_str(n, "unnumberedsec") || eq_str(n, "appendixsec")
}

/// Commands that start a subsection.
pub open spec fn is_subsection_like(n: Seq<char>) -> bool {
    n == "subsection"@ || n == "unnumberedsubsec"@ || n == "appendixsubsec"@
}

pub fn is_subsection_like_exec(n: &[char]) -> (r: bool)
    ensures
        r == is_subsection_like(n@),
{
    eq_str(n, "subsection") || eq_str(n, "unnumberedsubsec") || eq_str(n, "appendixsubsec")
}

/// Commands that start a subsubsection.
pub open spec fn is_subsubsection_like(n: Seq<char>) -> bool {
    n == "subsubsection"@ || n == "unnumberedsubsubsec"@ || n == "appendixsubsubsec"@
}

pub fn is_subsubsection_like_exec(n: &[char]) -> (r: bool)
    ensures
        r == is_subsubsection_like(n@),
{
    eq_str(n, "subsubsection") || eq_str(n, "unnumberedsubsubsec") || eq_str(n, "appendixsubsubsec")
}

/// Environments whose lines are indented by five spaces.
pub open spec fn is_example_like(n: Seq<char>) -> bool {
    n == "example"@ || n == "smallexample"@ || n == "lisp"@ || n == "smalllisp"@ || n == "display"@ || n == "smalldisplay"@ || n == "format"@ || n == "smallformat"@ || n == "verbatim"@
}

pub fn is_example_like_exec(n: &[char]) -> (r: bool)
    ensures
        r == is_example_like(n@),
{
    eq_str(n, "example") || eq_str(n, "smallexample") || eq_str(n, "lisp") || eq_str(n, "smalllisp") || eq_str(n, "display") || eq_str(n, "smalldisplay") || eq_str(n, "format") || eq_str(n, "smallformat") || eq_str(n, "verbatim")
}

/// Environments whose lines are indented by two spaces.
pub open spec fn is_quotation_like(n: Seq<char>) -> bool {
    n == "quotation"@ || n == "smallquotation"@
}

pub fn is_quotation_like_exec(n: &[char]) -> (r: bool)
    ensures
        r == is_quotation_like(n@),
{
    eq_str(n, "quotation") || eq_str(n, "smallquotation")
}

/// List environments.
pub open spec fn is_list_like(n: Seq<char>) -> bool {
    n == "itemize"@ || n == "enumerate"@
}

pub fn is_list_like_exec(n: &[char]) -> (r: bool)
    ensures
        r == is_list_like(n@),
{
    eq_str(n, "itemize") || eq_str(n, "enumerate")
}

/// Two-column table environments.
pub open spec fn is_table_like(n: Seq<char>) -> bool {
    n == "table"@ || n == "ftable"@ || n == "vtable"@
}

pub fn is_table_like_exec(n: &[char]) -> (r: bool)
    ensures
        r == is_table_like(n@),
{
    eq_str(n, "table") || eq_str(n, "ftable") || eq_str(n, "vtable")
}

/// Conditional environments that are never part of Info output.
pub open spec fn is_ignored_env(n: Seq<char>) -> bool {
    n == "ignore"@ || n == "ifhtml"@ || n == "ifxml"@ || n == "ifdocbook"@ || n == "iflatex"@ || n == "iftex"@ || n == "ifplaintext"@ || n == "ifnotinfo"@
}

pub fn is_ignored_env_exec(n: &[char]) -> (r: bool)
    ensures
        r == is_ignored_env(n@),
{
    eq_str(n, "ignore") || eq_str(n, "ifhtml") || eq_str(n, "ifxml") || eq_str(n, "ifdocbook") || eq_str(n, "iflatex") || eq_str(n, "iftex") || eq_str(n, "ifplaintext") || eq_str(n, "ifnotinfo")
}

/// Conditional environments whose lines are part of Info output.
pub open spec fn is_info_conditional(n: Seq<char>) -> bool {
    n == "ifinfo"@ || n == "ifnottex"@ || n == "ifnothtml"@ || n == "ifnotxml"@ || n == "ifnotdocbook"@ || n == "ifnotlatex"@ || n == "ifnotplaintext"@
}

pub fn is_info_conditional_exec(n: &[char]) -> (r: bool)
    ensures
        r == is_info_conditional(n@),
{
    eq_str(n, "ifinfo") || eq_str(n, "ifnottex") || eq_str(n, "ifnothtml") || eq_str(n, "ifnotxml") || eq_str(n, "ifnotdocbook") || eq_str(n, "ifnotlatex") || eq_str(n, "ifnotplaintext")
}

/// Index commands, which produce nothing in Info output.
pub open spec fn is_index_command(n: Seq<char>) -> bool {
    n == "cindex"@ || n == "findex"@ || n == "vindex"@ || n == "pindex"@ || n == "tindex"@ || n == "kindex"@ || n == "defindex"@ || n == "defcodeindex"@ || n == "synindex"@ || n == "syncodeindex"@ || n == "printindex"@
}

pub fn is_index_command_exec(n: &[char]) -> (r: bool)
    ensures
        r == is_index_command(n@),
{
    eq_str(n, "cindex") || eq_str(n, "findex") || eq_str(n, "vindex") || eq_str(n, "pindex") || eq_str(n, "tindex") || eq_str(n, "kindex") || eq_str(n, "defindex") || eq_str(n, "defcodeindex") || eq_str(n, "synindex") || eq_str(n, "syncodeindex") || eq_str(n, "printindex")
}

/// Directives that produce nothing (some of them skip a whole environment).
pub open spec fn is_directive(n: Seq<char>) -> bool {
    n == "dircategory"@ || n == "direntry"@ || n == "copying"@ || n == "insertcopying"@ || n == "contents"@ || n == "shortcontents"@ || n == "summarycontents"@ || n == "detailmenu"@ || n == "finalout"@ || n == "setfilename"@ || n == "documentencoding"@ || n == "documentlanguage"@ || n == "setchapternewpage"@ || n == "headings"@ || n == "everyheading"@ || n == "everyfoooting"@ || n == "oddheading"@ || n == "evenheading"@ || n == "oddfoooting"@ || n == "evenfoooting"@ || n == "allowcodebreakable"@ || n == "exampleindent"@ || n == "firstparagraphindent"@ || n == "frenchspacing"@ || n == "kbdinputstyle"@ || n == "validatemenus"@ || n == "macro"@ || n == "defmac"@ || n == "defun"@ || n == "deffn"@ || n == "deftp"@ || n == "defvr"@ || n == "defvar"@ || n == "defopt"@ || n == "defspec"@ || n == "deftypefn"@ || n == "deftypevar"@ || n == "deftypevr"@ || n == "deftypefun"@ || n == "rmacro"@ || n == "alias"@ || n == "definfoenclose"@ || n == "sp"@ || n == "page"@ || n == "vskip"@ || n == "need"@ || n == "group"@ || n == "noindent"@ || n == "indent"@ || n == "exdent"@ || n == "headitem"@ || n == "columnfractions"@ || n == "afourpaper"@ || n == "afivepaper"@ || n == "smallbook"@ || n == "pagesizes"@ || n == "cropmarks"@ || n == "c"@ || n == "comment"@ || n == "anchor"@ || n == "html"@ || n == "tex"@ || n == "docbook"@ || n == "xml"@
}

pub fn is_directive_exec(n: &[char]) -> (r: bool)
    ensures
        r == is_directive(n@),
{
    eq_str(n, "dircategory") || eq_str(n, "direntry") || eq_str(n, "copying") || eq_str(n, "insertcopying") || eq_str(n, "contents") || eq_str(n, "shortcontents") || eq_str(n, "summarycontents") || eq_str(n, "detailmenu") || eq_str(n, "finalout") || eq_str(n, "setfilename") || eq_str(n, "documentencoding") || eq_str(n, "documentlanguage") || eq_str(n, "setchapternewpage") || eq_str(n, "headings") || eq_str(n, "everyheading") || eq_str(n, "everyfoooting") || eq_str(n, "oddheading") || eq_str(n, "evenheading") || eq_str(n, "oddfoooting") || eq_str(n, "evenfoooting") || eq_str(n, "allowcodebreakable") || eq_str(n, "exampleindent") || eq_str(n, "firstparagraphindent") || eq_str(n, "frenchspacing") || eq_str(n, "kbdinputstyle") || eq_str(n, "validatemenus") || eq_str(n, "macro") || eq_str(n, "defmac") || eq_str(n, "defun") || eq_str(n, "deffn") || eq_str(n, "deftp") || eq_str(n, "defvr") || eq_str(n, "defvar") || eq_str(n, "defopt") || eq_str(n, "defspec") || eq_str(n, "deftypefn") || eq_str(n, "deftypevar") || eq_str(n, "deftypevr") || eq_str(n, "deftypefun") || eq_str(n, "rmacro") || eq_str(n, "alias") || eq_str(n, "definfoenclose") || eq_str(n, "sp") || eq_str(n, "page") || eq_str(n, "vskip") || eq_str(n, "need") || eq_str(n, "group") || eq_str(n, "noindent") || eq_str(n, "indent") || eq_str(n, "exdent") || eq_str(n, "headitem") || eq_str(n, "columnfractions") || eq_str(n, "afourpaper") || eq_str(n, "afivepaper") || eq_str(n, "smallbook") || eq_str(n, "pagesizes") || eq_str(n, "cropmarks") || eq_str(n, "c") || eq_str(n, "comment") || eq_str(n, "anchor") || eq_str(n, "html") || eq_str(n, "tex") || eq_str(n, "docbook") || eq_str(n, "xml")
}

/// Directives whose whole environment, up to its `@end`, is skipped.
pub open spec fn is_skipped_env(n: Seq<char>) -> bool {
    n == "direntry"@ || n == "copying"@ || n == "detailmenu"@ || n == "macro"@ || n == "rmacro"@ || n == "html"@ || n == "tex"@ || n == "docbook"@ || n == "xml"@ || n == "group"@
}

pub fn is_skipped_env_exec(n: &[char]) -> (r: bool)
    ensures
        r == is_skipped_env(n@),
{
    eq_str(n, "direntry") || eq_str(n, "copying") || eq_str(n, "detailmenu") || eq_str(n, "macro") || eq_str(n, "rmacro") || eq_str(n, "html") || eq_str(n, "tex") || eq_str(n, "docbook") || eq_str(n, "xml") || eq_str(n, "group")
}

/// Names of the environments that nest inside an ignored region.
pub open spec fn is_ignore_name(n: Seq<char>) -> bool {
    n == "ignore"@ || n == "ifhtml"@ || n == "ifxml"@ || n == "ifdocbook"@ || n == "iflatex"@ || n == "iftex"@ || n == "ifplaintext"@ || n == "ifnotinfo"@ || n == "ifset"@ || n == "ifclear"@
}

/// Whether `name` opens an environment that nests inside an ignored region
/// (`@ignore`, the `@if..` conditionals that Info output leaves out, `@ifset`
/// and `@ifclear`).
pub fn is_ignore_block(n: &[char]) -> (r: bool)
    ensures
        r == is_ignore_name(n@),
{
    eq_str(n, "ignore") || eq_str(n, "ifhtml") || eq_str(n, "ifxml") || eq_str(n, "ifdocbook") || eq_str(n, "iflatex") || eq_str(n, "iftex") || eq_str(n, "ifplaintext") || eq_str(n, "ifnotinfo") || eq_str(n, "ifset") || eq_str(n, "ifclear")
}

} // verus!
