use egui_knobs::package_info::{is_no_reply, PackageInfo};

fn package(authors: &str) -> PackageInfo {
    PackageInfo {
        name: String::from("knobs"),
        version: String::from("0.1.0"),
        authors: String::from(authors),
        description: None,
        homepage: None,
        repository: None,
        license: None,
    }
}

fn named(authors: &str) -> Vec<(String, Option<String>)> {
    package(authors).authors()
}

fn pair(name: &str, address: Option<&str>) -> (String, Option<String>) {
    (String::from(name), address.map(String::from))
}

/// The same reading, by the string functions of the standard library.
fn by_std(authors: &str) -> Vec<(String, Option<String>)> {
    authors
        .split(':')
        .map(|line| {
            let parts = line.split(|c| ['<', '>'].contains(&c)).map(str::trim).collect::<Vec<_>>();
            (String::from(parts[0]), parts.get(1).map(|p| String::from(*p)))
        })
        .collect()
}

#[test]
fn authors_with_and_without_address() {
    assert_eq!(
        named("Alice Example <alice@example.com>:Bob"),
        vec![pair("Alice Example", Some("alice@example.com")), pair("Bob", None)]
    );
}

#[test]
fn single_author() {
    assert_eq!(named("Carol"), vec![pair("Carol", None)]);
    assert_eq!(named("Carol <c@d.e>"), vec![pair("Carol", Some("c@d.e"))]);
}

#[test]
fn empty_author_line_names_one_empty_author() {
    assert_eq!(named(""), vec![pair("", None)]);
}

#[test]
fn empty_pieces_are_kept() {
    assert_eq!(named(":"), vec![pair("", None), pair("", None)]);
    assert_eq!(named("a::b:"), vec![pair("a", None), pair("", None), pair("b", None), pair("", None)]);
}

#[test]
fn white_space_is_trimmed() {
    assert_eq!(
        named("  Dave \t< dave@example.com >  : \u{a0}Eve\u{3000}"),
        vec![pair("Dave", Some("dave@example.com")), pair("Eve", None)]
    );
    assert_eq!(named(" \n "), vec![pair("", None)]);
    assert_eq!(named("a b"), vec![pair("a b", None)]);
}

#[test]
fn brackets_split_wherever_they_stand() {
    assert_eq!(named("<x@y.z>"), vec![pair("", Some("x@y.z"))]);
    assert_eq!(named("Frank <"), vec![pair("Frank", Some(""))]);
    assert_eq!(named("Frank >late<"), vec![pair("Frank", Some("late"))]);
    assert_eq!(named("G <a> trailing <b>"), vec![pair("G", Some("a"))]);
    assert_eq!(named("H <a:b>"), vec![pair("H", Some("a")), pair("b", Some(""))]);
}

#[test]
fn characters_beyond_ascii() {
    assert_eq!(
        named("Zoë Ünal <zoë@ünal.example>:李 <li@例.example>"),
        vec![pair("Zoë Ünal", Some("zoë@ünal.example")), pair("李", Some("li@例.example"))]
    );
}

#[test]
fn authors_agree_with_the_standard_library() {
    let lines = [
        "",
        ":",
        "a",
        " a ",
        "a<b>",
        "a <b> : c <d>",
        "<>",
        "><",
        " < > ",
        "\u{2003}wide\u{2003}<\u{85}x\u{85}>",
        "\u{200b}zero width is no white space\u{200b}",
        "\u{1680}ogham\u{1680}:\u{2028}line\u{2029}:\u{202f}narrow\u{205f}",
        "tab\there <\ta@b\t>",
        "one:two:three <3>:four<4>x:five",
    ];
    for line in lines {
        assert_eq!(named(line), by_std(line), "for {line:?}");
    }
}

#[test]
fn addresses_that_take_no_mail() {
    assert!(is_no_reply("noreply@example.com"));
    assert!(is_no_reply("no-reply@example.com"));
    assert!(is_no_reply("1234+someone@users.noreply.github.com"));
    assert!(is_no_reply("team-noreply@example.com"));
    assert!(is_no_reply("x@users.noreply."));
    assert!(is_no_reply("noreply@"));
}

#[test]
fn addresses_that_take_mail() {
    assert!(!is_no_reply(""));
    assert!(!is_no_reply("alice@example.com"));
    assert!(!is_no_reply("noreply"));
    assert!(!is_no_reply("no-reply"));
    assert!(!is_no_reply("no_reply@example.com"));
    assert!(!is_no_reply("NoReply@example.com"));
    assert!(!is_no_reply("someone@users.noreply"));
    assert!(!is_no_reply("oreply@example.com"));
}

#[test]
fn no_reply_agrees_with_the_standard_library() {
    let addresses = [
        "",
        "@",
        "noreply@",
        "nnoreply@",
        "norepl@noreply@",
        "no-no-reply@x",
        "@users.noreply.@users",
        "@users.@users.noreply.",
        "é@users.noreply.é",
        "nöreply@example.com",
    ];
    for address in addresses {
        let expected = ["noreply@", "no-reply@", "@users.noreply."]
            .iter()
            .any(|no_reply| address.contains(no_reply));
        assert_eq!(is_no_reply(address), expected, "for {address:?}");
    }
}
