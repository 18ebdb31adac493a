use lib::converter::Converter;
use lib::info::makeinfo_version;

fn cs(s: &str) -> Vec<char> {
    s.chars().collect()
}

fn convert(input: &str) -> Converter {
    let mut c = Converter::new();
    let run = c.process_text(input);
    assert!(run.is_done());
    c
}

#[test]
fn version_is_named() {
    assert_eq!(makeinfo_version(), "0.1.0");
}

#[test]
fn info_document_for_one_node() {
    let c = convert("@node Top\n@top Sample\nHello.\n");
    let out = c.generate_info(&cs("doc.texi"));
    let expected = "This is doc.texi, produced by makeinfo version 0.1.0 from doc.texi.\n\n\
\u{1f}\nFile: doc.texi,  Node: Top\n\nSample\n======\n\nHello.\n\
\u{1f}\nTag Table:\nNode: Top\u{7f}69\nEnd Tag Table\n\
\u{1f}\nLocal Variables:\ncoding: utf-8\nEnd:\n";
    assert_eq!(out, expected);
}

#[test]
fn base_name_comes_from_the_path() {
    let c = convert("@node Top\nx\n");
    let out = c.generate_info(&cs("some/dir/manual.texi"));
    assert!(out.starts_with("This is manual.texi, produced by makeinfo version 0.1.0 from some/dir/manual.texi.\n\n"));
    assert!(out.contains("File: manual.texi,  Node: Top\n"));
}

#[test]
fn path_without_file_name_gives_empty_base() {
    let c = convert("@node Top\nx\n");
    let out = c.generate_info(&cs(".."));
    assert!(out.starts_with("This is , produced by makeinfo version 0.1.0 from ...\n\n"));
}

#[test]
fn links_and_missing_final_newline() {
    let mut c = convert("@node Top, Next One, (dir), (dir)\n@node Next One,,Top,Top\n");
    c.append_text(&cs("no newline"));
    c.flush_text();
    let out = c.render_info(&cs("b"), &cs("f"));
    let out: String = out.into_iter().collect();
    let header = "This is b, produced by makeinfo version 0.1.0 from f.\n\n";
    let n1 = "\u{1f}\nFile: b,  Node: Top,  Next: Next One,  Prev: (dir),  Up: (dir)\n\n\n";
    let n2 = "\u{1f}\nFile: b,  Node: Next One,  Prev: Top,  Up: Top\n\nno newline\n";
    let expected = format!(
        "{}{}{}\u{1f}\nTag Table:\nNode: Top\u{7f}{}\nNode: Next One\u{7f}{}\nEnd Tag Table\n\u{1f}\nLocal Variables:\ncoding: utf-8\nEnd:\n",
        header,
        n1,
        n2,
        header.len(),
        header.len() + n1.len()
    );
    assert_eq!(out, expected);
    assert_eq!(header.len(), 55);
}

#[test]
fn tag_table_offsets_point_at_node_separators() {
    let c = convert("@node Top\n@top Ünïcödé\nçà\n@node Zwei\n@chapter Größe\nText ✓\n@node Drei\n");
    let out = c.generate_info(&cs("doc.texi"));
    let bytes = out.as_bytes();
    let table = out.split("Tag Table:\n").nth(1).unwrap();
    let mut seen = 0;
    for line in table.lines() {
        if let Some(entry) = line.strip_prefix("Node: ") {
            let off: usize = entry.split('\u{7f}').nth(1).unwrap().parse().unwrap();
            assert_eq!(bytes[off], 0x1f);
            assert!(out[off + 1..].starts_with(&format!("\nFile: doc.texi,  Node: {}", entry.split('\u{7f}').next().unwrap())));
            seen += 1;
        }
    }
    assert_eq!(seen, 3);
}

#[test]
fn empty_document() {
    let c = Converter::new();
    let out = c.generate_info(&cs("x.texi"));
    assert_eq!(
        out,
        "This is x.texi, produced by makeinfo version 0.1.0 from x.texi.\n\n\u{1f}\nTag Table:\nEnd Tag Table\n\u{1f}\nLocal Variables:\ncoding: utf-8\nEnd:\n"
    );
}

fn base_in_header(filename: &str) -> String {
    let c = convert("@node Top\nx\n");
    let out = c.generate_info(&cs(filename));
    let rest = out.strip_prefix("This is ").unwrap();
    rest.split(", produced by").next().unwrap().to_string()
}

#[test]
fn base_name_follows_path_rules() {
    assert_eq!(base_in_header("tmp/foo.txt"), "foo.txt");
    assert_eq!(base_in_header("foo.txt/."), "foo.txt");
    assert_eq!(base_in_header("foo.txt/.//"), "foo.txt");
    assert_eq!(base_in_header("/usr/bin/"), "bin");
    assert_eq!(base_in_header("a//b"), "b");
    assert_eq!(base_in_header("foo.txt/.."), "");
    assert_eq!(base_in_header("/"), "");
    assert_eq!(base_in_header(""), "");
    assert_eq!(base_in_header("."), "");
    assert_eq!(base_in_header("./"), "");
    assert_eq!(base_in_header("./doc.texi"), "doc.texi");
}
