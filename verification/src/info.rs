//! Writing the Info document: a header, one block per node, and a tag
//! table that gives the byte offset of each node's block.

use vstd::prelude::*;

use crate::converter::{Converter, Node};
use crate::model::NodeModel;
use crate::outside::{path_file_name, plain_slash_path, slash_file_name, string_from_chars};
use crate::text::{byte_len, byte_len_exec, decimal, decimal_exec, push_all, push_str};

verus! {

/// The version that the header names.
pub open spec fn version_text() -> Seq<char> {
    "0.1.0"@
}

/// The version that the header names (and that `--version` prints).
pub fn makeinfo_version() -> (r: &'static str)
    ensures
        r@ == version_text(),
{
    "0.1.0"
}

/// The name, or nothing where there is none.
pub open spec fn name_or_empty(n: Option<Seq<char>>) -> Seq<char> {
    match n {
        Some(s) => s,
        None => Seq::empty(),
    }
}

/// The first lines of an Info file made from `filename`, whose base name
/// is `base`.
pub open spec fn info_header(base: Seq<char>, filename: Seq<char>) -> Seq<char> {
    "This is "@ + base + ", produced by makeinfo version "@ + version_text() + " from "@
        + filename + ".\n\n"@
}

/// `label` and the link, where there is one.
pub open spec fn link_text(label: Seq<char>, link: Option<Seq<char>>) -> Seq<char> {
    match link {
        Some(l) => label + l,
        None => Seq::empty(),
    }
}

/// The block of one node: a separator line, the node's header line with
/// its links, an empty line, and its content, ended by a newline.
pub open spec fn node_block(base: Seq<char>, n: NodeModel) -> Seq<char> {
    "\x1f\n"@ + "File: "@ + base + ",  Node: "@ + n.name + link_text(",  Next: "@, n.next)
        + link_text(",  Prev: "@, n.prev) + link_text(",  Up: "@, n.up) + "\n\n"@ + n.content + (
    if n.content.len() > 0 && n.content.last() == '\n' {
        Seq::empty()
    } else {
        "\n"@
    })
}

/// The blocks of `nodes`, in order.
pub open spec fn nodes_text(base: Seq<char>, nodes: Seq<NodeModel>) -> Seq<char>
    decreases nodes.len(),
{
    if nodes.len() == 0 {
        Seq::empty()
    } else {
        nodes_text(base, nodes.drop_last()) + node_block(base, nodes.last())
    }
}

/// The byte offset of the block of node `i`.
pub open spec fn node_offset(base: Seq<char>, filename: Seq<char>, nodes: Seq<NodeModel>, i: int) -> nat {
    byte_len(info_header(base, filename) + nodes_text(base, nodes.take(i)))
}

/// The tag table entries of the first `k` nodes: each node's name and the
/// byte offset of its block.
pub open spec fn tag_entries(base: Seq<char>, filename: Seq<char>, nodes: Seq<NodeModel>, k: int) -> Seq<
    char,
>
    decreases k,
{
    if k <= 0 {
        Seq::empty()
    } else {
        tag_entries(base, filename, nodes, k - 1) + "Node: "@ + nodes[k - 1].name + "\x7f"@
            + decimal(node_offset(base, filename, nodes, k - 1)) + "\n"@
    }
}

/// The whole Info document.
pub open spec fn info_text(base: Seq<char>, filename: Seq<char>, nodes: Seq<NodeModel>) -> Seq<char> {
    info_header(base, filename) + nodes_text(base, nodes) + "\x1f\nTag Table:\n"@ + tag_entries(
        base,
        filename,
        nodes,
        nodes.len() as int,
    ) + "End Tag Table\n"@ + "\x1f\nLocal Variables:\ncoding: utf-8\nEnd:\n"@
}

/// The header and node blocks fit in memory, counted as four bytes a
/// character.
pub open spec fn body_fits(base: Seq<char>, filename: Seq<char>, nodes: Seq<NodeModel>) -> bool {
    4 * (info_header(base, filename) + nodes_text(base, nodes)).len() <= usize::MAX
}

/// The UTF-8 length of a concatenation is the sum of the lengths.
pub proof fn lemma_byte_len_concat(a: Seq<char>, b: Seq<char>)
    ensures
        byte_len(a + b) == byte_len(a) + byte_len(b),
    decreases a.len(),
{
    if a.len() == 0 {
        assert(a + b =~= b);
    } else {
        lemma_byte_len_concat(a.drop_first(), b);
        assert((a + b).drop_first() =~= a.drop_first() + b);
        assert((a + b)[0] == a[0]);
    }
}

/// The UTF-8 length of a text is at most four bytes a character.
pub proof fn lemma_byte_len_bound(a: Seq<char>)
    ensures
        byte_len(a) <= 4 * a.len(),
    decreases a.len(),
{
    if a.len() > 0 {
        lemma_byte_len_bound(a.drop_first());
        vstd::utf8::char_is_scalar(a[0]);
    }
}

proof fn lemma_nodes_text_len(b: Seq<char>, nodes: Seq<NodeModel>)
    ensures
        nodes_text(b, nodes).len() == nodes_text(Seq::empty(), nodes).len() + nodes.len() * b.len(),
    decreases nodes.len(),
{
    if nodes.len() > 0 {
        lemma_nodes_text_len(b, nodes.drop_last());
        assert(node_block(b, nodes.last()).len() == node_block(Seq::empty(), nodes.last()).len()
            + b.len());
        assert(nodes.len() * b.len() == (nodes.len() - 1) * b.len() + b.len()) by (nonlinear_arith);
    }
}

/// A shorter base name gives a shorter document body.
proof fn lemma_body_fits_shorter(b: Seq<char>, f: Seq<char>, filename: Seq<char>, nodes: Seq<NodeModel>)
    requires
        b.len() <= f.len(),
        body_fits(f, filename, nodes),
    ensures
        body_fits(b, filename, nodes),
{
    lemma_nodes_text_len(b, nodes);
    lemma_nodes_text_len(f, nodes);
    assert(nodes.len() * b.len() <= nodes.len() * f.len()) by (nonlinear_arith)
        requires
            b.len() <= f.len(),
    ;
}

proof fn lemma_nodes_text_prefix(base: Seq<char>, nodes: Seq<NodeModel>, i: int)
    requires
        0 <= i <= nodes.len(),
    ensures
        nodes_text(base, nodes.take(i)).len() <= nodes_text(base, nodes).len(),
    decreases nodes.len() - i,
{
    if i < nodes.len() {
        lemma_nodes_text_prefix(base, nodes, i + 1);
        assert(nodes.take(i + 1).drop_last() =~= nodes.take(i));
    } else {
        assert(nodes.take(i) =~= nodes);
    }
}

proof fn lemma_encode_concat(a: Seq<char>, b: Seq<char>)
    ensures
        vstd::utf8::encode_utf8(a + b) == vstd::utf8::encode_utf8(a) + vstd::utf8::encode_utf8(b),
    decreases a.len(),
{
    if a.len() == 0 {
        assert(a + b =~= b);
        assert(vstd::utf8::encode_utf8(a) =~= Seq::<u8>::empty());
        assert(vstd::utf8::encode_utf8(a) + vstd::utf8::encode_utf8(b) =~= vstd::utf8::encode_utf8(b));
    } else {
        lemma_encode_concat(a.drop_first(), b);
        assert((a + b).drop_first() =~= a.drop_first() + b);
        assert((a + b)[0] == a[0]);
        assert(vstd::utf8::encode_utf8(a + b) =~= vstd::utf8::encode_utf8(a) + vstd::utf8::encode_utf8(b));
    }
}

proof fn lemma_nodes_text_split(base: Seq<char>, nodes: Seq<NodeModel>, i: int)
    requires
        0 <= i < nodes.len(),
    ensures
        exists|t: Seq<char>|
            nodes_text(base, nodes) == nodes_text(base, nodes.take(i)) + node_block(base, nodes[i])
                + t,
    decreases nodes.len() - i,
{
    if i + 1 < nodes.len() {
        lemma_nodes_text_split(base, nodes.drop_last(), i);
        let t = choose|t: Seq<char>|
            nodes_text(base, nodes.drop_last()) == nodes_text(base, nodes.drop_last().take(i))
                + node_block(base, nodes.drop_last()[i]) + t;
        assert(nodes.drop_last().take(i) =~= nodes.take(i));
        assert(nodes_text(base, nodes) =~= nodes_text(base, nodes.take(i)) + node_block(
            base,
            nodes[i],
        ) + (t + node_block(base, nodes.last())));
    } else {
        assert(nodes.drop_last() =~= nodes.take(i));
        assert(nodes_text(base, nodes) =~= nodes_text(base, nodes.take(i)) + node_block(
            base,
            nodes[i],
        ) + Seq::<char>::empty());
    }
}

/// In the UTF-8 bytes of an Info document, each offset in the tag table
/// is the position of the separator byte (`0x1f`) that starts that node's
/// block.
#[verifier::rlimit(40)]
#[verifier::spinoff_prover]
pub proof fn law_tag_offsets_point_at_nodes(
    base: Seq<char>,
    filename: Seq<char>,
    nodes: Seq<NodeModel>,
    i: int,
)
    requires
        0 <= i < nodes.len(),
    ensures
        node_offset(base, filename, nodes, i) < vstd::utf8::encode_utf8(
            info_text(base, filename, nodes),
        ).len(),
        vstd::utf8::encode_utf8(info_text(base, filename, nodes))[node_offset(
            base,
            filename,
            nodes,
            i,
        ) as int] == 0x1fu8,
{
    lemma_nodes_text_split(base, nodes, i);
    let t = choose|t: Seq<char>|
        nodes_text(base, nodes) == nodes_text(base, nodes.take(i)) + node_block(base, nodes[i]) + t;
    let h = info_header(base, filename) + nodes_text(base, nodes.take(i));
    let b = node_block(base, nodes[i]);
    let rest = info_text(base, filename, nodes).skip(h.len() as int);
    assert(info_text(base, filename, nodes) =~= h + rest);
    assert(rest =~= b + (t + "\x1f\nTag Table:\n"@ + tag_entries(base, filename, nodes, nodes.len() as int)
        + "End Tag Table\n"@ + "\x1f\nLocal Variables:\ncoding: utf-8\nEnd:\n"@));
    reveal_strlit("\x1f\n");
    assert(b[0] == '\x1f');
    assert(rest[0] == '\x1f');
    lemma_encode_concat(h, rest);
    assert(vstd::utf8::encode_utf8(rest) == vstd::utf8::encode_scalar(rest[0] as u32)
        + vstd::utf8::encode_utf8(rest.drop_first()));
    assert(('\x1f' as u32) == 0x1f);
    assert(vstd::utf8::leading_byte_width_1(0x1fu32) == 0x1fu8) by (bit_vector);
    assert(vstd::utf8::encode_scalar(0x1fu32)[0] == 0x1fu8);
}

/// Appends `label` and the link, where there is one.
fn push_link(out: &mut Vec<char>, label: &str, link: &Option<Vec<char>>)
    ensures
        final(out)@ == old(out)@ + link_text(label@, crate::converter::opt_view(*link)),
{
    match link {
        Some(l) => {
            push_str(out, label);
            push_all(out, l.as_slice());
        },
        None => {},
    }
    assert(out@ =~= old(out)@ + link_text(label@, crate::converter::opt_view(*link)));
}

/// The block of one node.
fn node_block_exec(base: &[char], n: &Node) -> (r: Vec<char>)
    ensures
        r@ == node_block(base@, n@),
{
    let mut out: Vec<char> = Vec::new();
    push_str(&mut out, "\x1f\n");
    push_str(&mut out, "File: ");
    push_all(&mut out, base);
    push_str(&mut out, ",  Node: ");
    push_all(&mut out, n.name.as_slice());
    push_link(&mut out, ",  Next: ", &n.next);
    push_link(&mut out, ",  Prev: ", &n.prev);
    push_link(&mut out, ",  Up: ", &n.up);
    push_str(&mut out, "\n\n");
    push_all(&mut out, n.content.as_slice());
    let ends_nl = n.content.len() > 0 && n.content[n.content.len() - 1] == '\n';
    if !ends_nl {
        push_str(&mut out, "\n");
    }
    assert(out@ =~= node_block(base@, n@));
    out
}

/// The first lines of an Info file.
fn header_exec(base: &[char], filename: &[char]) -> (r: Vec<char>)
    ensures
        r@ == info_header(base@, filename@),
{
    let mut out: Vec<char> = Vec::new();
    push_str(&mut out, "This is ");
    push_all(&mut out, base);
    push_str(&mut out, ", produced by makeinfo version ");
    push_str(&mut out, makeinfo_version());
    push_str(&mut out, " from ");
    push_all(&mut out, filename);
    push_str(&mut out, ".\n\n");
    assert(out@ =~= info_header(base@, filename@));
    out
}

impl Converter {
    /// Whether the header and node blocks of the Info document made from
    /// `filename` fit in memory (see `body_fits`), which `generate_info`
    /// needs.
    pub fn info_fits(&self, filename: &[char]) -> (r: bool)
        ensures
            r == body_fits(filename@, filename@, self@.nodes),
    {
        let ghost ns = self@.nodes;
        let header = header_exec(filename, filename);
        let mut total: usize = header.len();
        let mut i: usize = 0;
        assert(ns.take(0) =~= Seq::<NodeModel>::empty());
        assert(header@ + nodes_text(filename@, ns.take(0)) =~= header@);
        while i < self.nodes.len()
            invariant
                ns == crate::converter::node_views(self.nodes@),
                i <= ns.len(),
                header@ == info_header(filename@, filename@),
                total == (header@ + nodes_text(filename@, ns.take(i as int))).len(),
            decreases ns.len() - i,
        {
            let block = node_block_exec(filename, &self.nodes[i]);
            assert(ns.take(i + 1int).drop_last() =~= ns.take(i as int));
            assert(ns[i as int] == self.nodes@[i as int]@);
            proof {
                lemma_nodes_text_prefix(filename@, ns, i + 1);
            }
            match total.checked_add(block.len()) {
                Some(t) => {
                    total = t;
                },
                None => {
                    proof {
                        lemma_nodes_text_prefix(filename@, ns, i + 1);
                    }
                    return false;
                },
            }
            i = i + 1;
        }
        assert(ns.take(ns.len() as int) =~= ns);
        total <= usize::MAX / 4
    }

    /// The Info document for the nodes, whose header names the input file
    /// `filename` and its base name `base`.
    pub fn render_info(&self, base: &[char], filename: &[char]) -> (r: Vec<char>)
        requires
            body_fits(base@, filename@, self@.nodes),
        ensures
            r@ == info_text(base@, filename@, self@.nodes),
    {
        let ghost ns = self@.nodes;
        let mut out = header_exec(base, filename);
        proof {
            lemma_nodes_text_prefix(base@, ns, 0);
            assert(ns.take(0) =~= Seq::<NodeModel>::empty());
            assert(out@ + nodes_text(base@, ns.take(0)) =~= out@);
        }
        let mut bytes = byte_len_exec(out.as_slice());
        let mut offsets: Vec<usize> = Vec::new();
        let mut i: usize = 0;
        while i < self.nodes.len()
            invariant
                ns == crate::converter::node_views(self.nodes@),
                body_fits(base@, filename@, ns),
                i <= ns.len(),
                out@ == info_header(base@, filename@) + nodes_text(base@, ns.take(i as int)),
                bytes == byte_len(out@),
                offsets@.len() == i,
                forall|k: int| 0 <= k < i ==> offsets@[k] == node_offset(base@, filename@, ns, k),
            decreases ns.len() - i,
        {
            offsets.push(bytes);
            let block = node_block_exec(base, &self.nodes[i]);
            proof {
                assert(ns.take(i + 1int).drop_last() =~= ns.take(i as int));
                assert(ns[i as int] == self.nodes@[i as int]@);
                lemma_nodes_text_prefix(base@, ns, i + 1);
                lemma_byte_len_concat(out@, block@);
                lemma_byte_len_bound(out@ + block@);
            }
            push_all(&mut out, block.as_slice());
            assert(out@ =~= info_header(base@, filename@) + nodes_text(base@, ns.take(i + 1int)));
            proof {
                lemma_byte_len_bound(block@);
            }
            let w = byte_len_exec(block.as_slice());
            bytes = bytes + w;
            i = i + 1;
        }
        assert(ns.take(ns.len() as int) =~= ns);
        push_str(&mut out, "\x1f\nTag Table:\n");
        let ghost before = out@;
        let mut k: usize = 0;
        while k < self.nodes.len()
            invariant
                ns == crate::converter::node_views(self.nodes@),
                k <= ns.len(),
                offsets@.len() == ns.len(),
                forall|j: int| 0 <= j < ns.len() ==> offsets@[j] == node_offset(base@, filename@, ns, j),
                out@ == before + tag_entries(base@, filename@, ns, k as int),
            decreases ns.len() - k,
        {
            push_str(&mut out, "Node: ");
            push_all(&mut out, self.nodes[k].name.as_slice());
            push_str(&mut out, "\x7f");
            let d = decimal_exec(offsets[k]);
            push_all(&mut out, d.as_slice());
            push_str(&mut out, "\n");
            assert(ns[k as int] == self.nodes@[k as int]@);
            assert(out@ =~= before + tag_entries(base@, filename@, ns, k + 1int));
            k = k + 1;
        }
        push_str(&mut out, "End Tag Table\n");
        push_str(&mut out, "\x1f\nLocal Variables:\ncoding: utf-8\nEnd:\n");
        assert(out@ =~= info_text(base@, filename@, ns));
        out
    }

    /// The Info document for the nodes, made from the input file
    /// `filename`; the header names the file's base name as the platform's
    /// paths give it (nothing where the path has none).
    pub fn generate_info(&self, filename: &[char]) -> (r: String)
        requires
            body_fits(filename@, filename@, self@.nodes),
        ensures
            exists|base: Seq<char>|
                base.len() <= filename@.len() && #[trigger] info_text(
                    base,
                    filename@,
                    self@.nodes,
                ) == r@,
            plain_slash_path(filename@) ==> r@ == info_text(
                name_or_empty(slash_file_name(filename@)),
                filename@,
                self@.nodes,
            ),
    {
        let base = match path_file_name(filename) {
            Some(n) => n,
            None => Vec::new(),
        };
        proof {
            lemma_body_fits_shorter(base@, filename@, filename@, self@.nodes);
        }
        let out = self.render_info(base.as_slice(), filename);
        string_from_chars(out.as_slice())
    }
}

} // verus!
