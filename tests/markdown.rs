use katas::markdown::add;
use katas::markdown::links::{Link, Links};
use katas::markdown::transformer::Transformer;
use katas::text::replace_text;

#[test]
fn it_works() {
    let result = add(2, 2);
    assert_eq!(result, 4);
}

#[test]
fn text_without_links_returns_same_text() {
    let transformer = Transformer::new("text without links");
    assert_eq!(transformer.transform(), String::from("text without links"));
}

#[test]
fn transforms_one_link() {
    let transformer =
        Transformer::new("[this book](https://codigosostenible.com) and some other text.");
    assert_eq!(transformer.transform(), String::from("this book [^anchor1] and some other text.\n[^anchor1]: https://codigosostenible.com"));
}

#[test]
fn transforms_many_links() {
    let transformer =
        Transformer::new("[this book](https://codigosostenible.com) and some [other book](https://example.com) are good choices.");
    assert_eq!(transformer.transform(), String::from("this book [^anchor1] and some other book [^anchor2] are good choices.\n[^anchor1]: https://codigosostenible.com\n[^anchor2]: https://example.com"));
}

#[test]
fn transforms_many_repeated_links() {
    let transformer =
        Transformer::new("[this book](https://codigosostenible.com) and some [other book](https://example.com) are good choices. The best one is [the first](https://codigosostenible.com).");
    assert_eq!(transformer.transform(), String::from("this book [^anchor1] and some other book [^anchor2] are good choices. The best one is the first [^anchor1].\n[^anchor1]: https://codigosostenible.com\n[^anchor2]: https://example.com"));
}

#[test]
fn footnotes_follow_the_order_of_the_urls() {
    let transformer = Transformer::new("[b](https://b.org) then [a](https://a.org)");
    assert_eq!(
        transformer.transform(),
        "b [^anchor2] then a [^anchor1]\n[^anchor1]: https://a.org\n[^anchor2]: https://b.org"
    );
}

#[test]
fn links_are_found_in_order_with_their_parts() {
    let links = Links::create(String::from(
        "see [one](u1) and [] and [two](u2) and [x]() and [three](u1)",
    ));
    assert_eq!(
        links.all_links(),
        vec![
            Link {
                link: "[one](u1)".to_string(),
                text: "one".to_string(),
                url: "u1".to_string()
            },
            Link {
                link: "[two](u2)".to_string(),
                text: "two".to_string(),
                url: "u2".to_string()
            },
            Link {
                link: "[three](u1)".to_string(),
                text: "three".to_string(),
                url: "u1".to_string()
            },
        ]
    );
    assert_eq!(links.index_of(&"u1".to_string()), Some(0));
    assert_eq!(links.index_of(&"u2".to_string()), Some(1));
    assert_eq!(links.index_of(&"u3".to_string()), None);
    assert_eq!(
        links.map_unique(|url, index| format!("{}={}", index, url)),
        vec!["1=u1".to_string(), "2=u2".to_string()]
    );
}

#[test]
fn link_text_may_hold_an_opening_bracket() {
    let links = Links::create(String::from("[a [b](c)"));
    assert_eq!(
        links.all_links(),
        vec![Link {
            link: "[a [b](c)".to_string(),
            text: "a [b".to_string(),
            url: "c".to_string()
        }]
    );
}

#[test]
fn replaces_every_occurrence_from_the_left() {
    let text = replace_text(&"aaa-aa".to_string(), &"aa".to_string(), &"b".to_string());
    assert_eq!(text, "ba-b");
    let same = replace_text(&"abc".to_string(), &"x".to_string(), &"y".to_string());
    assert_eq!(same, "abc");
}
