use iota_metrics::slug::{slug_of_lowercase, Slug};

fn slugify(text: &str) -> String {
    <String as Slug>::slugify(text)
}

#[test]
fn slugify_lowercases_and_joins_words() {
    assert_eq!(slugify("Hello World"), "hello-world");
}

#[test]
fn slugify_lowercases_through_std() {
    assert_eq!(slugify("ABC"), "abc");
    assert_eq!(slug_of_lowercase("ABC"), "");
}

#[test]
fn slugify_cpu_brand() {
    assert_eq!(
        slugify("AMD Ryzen 9 5950X 16-Core Processor"),
        "amd-ryzen-9-5950x-16-core-processor"
    );
    assert_eq!(slugify("Intel(R) Core(TM) i7-9700K CPU @ 3.60GHz"), "intelr-coretm-i7-9700k-cpu-360ghz");
}

#[test]
fn slugify_collapses_separator_runs() {
    assert_eq!(slugify("a__b--c  d _-_ e"), "a-b-c-d-e");
}

#[test]
fn slugify_drops_leading_and_trailing_separators() {
    assert_eq!(slugify("  leading"), "leading");
    assert_eq!(slugify("trailing---"), "trailing");
    assert_eq!(slugify("_-both-_"), "both");
}

#[test]
fn slugify_empty_and_separator_only() {
    assert_eq!(slugify(""), "");
    assert_eq!(slugify("---"), "");
    assert_eq!(slugify(" _ - "), "");
    assert_eq!(slugify("!?*"), "");
}

#[test]
fn slugify_folds_accents() {
    assert_eq!(slugify("Crème Brûlée"), "creme-brulee");
    assert_eq!(slugify("Ñandú"), "nandu");
    assert_eq!(slugify("àáâãä èéêë ìíîï òóôõö ùúûü"), "aaaaa-eeee-iiii-ooooo-uuuu");
}

#[test]
fn slugify_drops_other_characters() {
    assert_eq!(slugify("a.b,c"), "abc");
    assert_eq!(slugify("日本 cpu"), "cpu");
    assert_eq!(slugify("ça"), "a");
}

#[test]
fn slugify_separator_after_dropped_characters() {
    assert_eq!(slugify("!! a"), "a");
    assert_eq!(slugify("a !! b"), "a-b");
}

#[test]
fn to_slug_on_str_and_string() {
    let text: &str = "Some Brand_Name";
    assert_eq!(text.to_slug(), "some-brand-name");
    let owned = String::from("Some Brand_Name");
    assert_eq!(owned.to_slug(), "some-brand-name");
    assert_eq!(<&str as Slug>::slugify("X Y"), "x-y");
}

#[test]
fn slug_of_a_slug_is_itself() {
    for text in ["Hello World", "a__b--c", "Crème Brûlée 2", "---", "x"] {
        let once = slug_of_lowercase(&text.to_lowercase());
        assert_eq!(slug_of_lowercase(&once), once);
    }
}

#[test]
fn slug_shape_and_letters() {
    for text in ["Hello  World!", "__x__y__", "Ñu-ü 9", "--a-", "é"] {
        let slug = slugify(text);
        assert!(slug.chars().all(|c| c.is_ascii_lowercase() || c.is_ascii_digit() || c == '-'));
        assert!(!slug.starts_with('-'));
        assert!(!slug.ends_with('-'));
        assert!(!slug.contains("--"));
    }
    let slug = slugify("Hello  World!");
    let letters: String = slug.chars().filter(|c| *c != '-').collect();
    assert_eq!(letters, "helloworld");
}

fn join(a: &str, b: &str) -> String {
    [slugify(a), slugify(b)].into_iter().filter(|s| !s.is_empty()).collect::<Vec<String>>().join("-")
}

#[test]
fn slug_of_texts_joined_by_a_separator() {
    let pairs = [("Hello", "World"), ("a--", "--b"), ("", "x"), ("x", ""), ("!!", "?"), ("Crème", "Brûlée 2")];
    for (a, b) in pairs {
        for sep in [" ", "_", "-"] {
            assert_eq!(slugify(&format!("{a}{sep}{b}")), join(a, b));
        }
    }
}
