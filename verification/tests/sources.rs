use font_values::{EffectiveSources, Source};
use string_cache::DefaultAtom;
use url::Url;

fn url_source(text: &str) -> Source {
    Source::Url(Some(Url::parse(text).unwrap()))
}

fn local_source(name: &str) -> Source {
    Source::Local(DefaultAtom::from(name))
}

fn url_of(source: &Source) -> Option<String> {
    match source {
        Source::Url(Some(url)) => Some(url.as_str().to_string()),
        _ => None,
    }
}

fn name_of(source: &Source) -> Option<String> {
    match source {
        Source::Local(name) => Some(name.to_string()),
        _ => None,
    }
}

#[test]
fn sources_come_out_last_stored_first() {
    let a = url_source("https://example.org/a.woff2");
    let b = local_source("Arial");
    let c = Source::Url(None);
    let mut sources = EffectiveSources(vec![c, b, a]);
    assert_eq!(sources.size_hint(), (3, Some(3)));

    let first = sources.next().unwrap();
    assert_eq!(url_of(&first), Some("https://example.org/a.woff2".to_string()));
    assert_eq!(sources.size_hint(), (2, Some(2)));

    let second = sources.next().unwrap();
    assert_eq!(name_of(&second), Some("Arial".to_string()));
    assert_eq!(sources.size_hint(), (1, Some(1)));

    let third = sources.next().unwrap();
    assert!(matches!(third, Source::Url(None)));
    assert_eq!(sources.size_hint(), (0, Some(0)));

    assert!(sources.next().is_none());
    assert_eq!(sources.size_hint(), (0, Some(0)));
}

#[test]
fn sources_leave_the_rest_in_place() {
    let mut sources = EffectiveSources(vec![
        local_source("C"),
        local_source("B"),
        local_source("A"),
    ]);
    let first = sources.next().unwrap();
    assert_eq!(name_of(&first), Some("A".to_string()));
    assert_eq!(sources.0.len(), 2);
    assert_eq!(name_of(&sources.0[0]), Some("C".to_string()));
    assert_eq!(name_of(&sources.0[1]), Some("B".to_string()));
}

#[test]
fn empty_sources_stay_empty() {
    let mut sources = EffectiveSources(Vec::new());
    assert_eq!(sources.size_hint(), (0, Some(0)));
    assert!(sources.next().is_none());
    assert!(sources.next().is_none());
    assert_eq!(sources.size_hint(), (0, Some(0)));
    assert!(sources.0.is_empty());
}

#[test]
fn every_source_comes_out_once() {
    let names = ["one", "two", "three", "four", "five", "six", "seven"];
    let stored: Vec<Source> = names.iter().rev().map(|name| local_source(name)).collect();
    let mut sources = EffectiveSources(stored);
    for (taken, name) in names.iter().enumerate() {
        assert_eq!(sources.size_hint(), (names.len() - taken, Some(names.len() - taken)));
        let source = sources.next().unwrap();
        assert_eq!(name_of(&source), Some(name.to_string()));
    }
    assert!(sources.next().is_none());
}

#[test]
fn a_cloned_source_is_the_same_source() {
    let url = url_source("https://example.org/fonts/face.ttf?v=2#regular");
    let copy = url.clone();
    assert_eq!(url_of(&copy), Some("https://example.org/fonts/face.ttf?v=2#regular".to_string()));
    drop(url);
    assert_eq!(url_of(&copy), Some("https://example.org/fonts/face.ttf?v=2#regular".to_string()));

    let long_name = "A family name that is too long to be packed into the atom itself";
    let local = local_source(long_name);
    let copy = local.clone();
    drop(local);
    assert_eq!(name_of(&copy), Some(long_name.to_string()));
    match (&copy, &local_source(long_name)) {
        (Source::Local(left), Source::Local(right)) => assert_eq!(left, right),
        _ => panic!("a local source was expected"),
    }

    let absent = Source::Url(None);
    assert!(matches!(absent.clone(), Source::Url(None)));
}

#[test]
fn cloned_sources_drain_alike() {
    let mut sources = EffectiveSources(vec![
        Source::Url(None),
        local_source("Helvetica"),
        url_source("https://example.org/b.woff"),
    ]);
    let mut copy = sources.clone();
    assert_eq!(copy.size_hint(), (3, Some(3)));
    let first = sources.next().unwrap();
    assert_eq!(copy.size_hint(), (3, Some(3)));
    let first_of_copy = copy.next().unwrap();
    assert_eq!(url_of(&first), url_of(&first_of_copy));
    assert_eq!(name_of(&sources.next().unwrap()), name_of(&copy.next().unwrap()));
    assert!(matches!(copy.next(), Some(Source::Url(None))));
    assert!(copy.next().is_none());
    assert_eq!(sources.size_hint(), (1, Some(1)));
}

#[test]
fn sources_are_printable() {
    let sources = EffectiveSources(vec![Source::Url(None), local_source("Arial")]);
    let text = format!("{:?}", sources);
    assert!(text.contains("Url"));
    assert!(text.contains("Local"));
    assert!(text.contains("Arial"));
}
