use web_crawler::extract::{extract, extract_first, present_values, ExtractError};

const PAGE: &str = r#"<!DOCTYPE html>
<html><body>
  <ul class="list">
    <li><a class="item" href="/one">one</a></li>
    <li><a class="item">no target</a></li>
    <li><a class="item" href="/two">two</a></li>
    <li><a class="other" href="/three">three</a></li>
  </ul>
</body></html>"#;

#[test]
fn extract_returns_values_in_document_order() {
    let links = extract(PAGE, ".list a", "href");
    assert_eq!(links, vec!["/one".to_string(), "/two".to_string(), "/three".to_string()]);
}

#[test]
fn extract_passes_over_elements_without_the_attribute() {
    let links = extract(PAGE, ".list .item", "href");
    assert_eq!(links, vec!["/one".to_string(), "/two".to_string()]);
}

#[test]
fn extract_reads_the_attribute_that_is_asked_for() {
    let classes = extract(PAGE, "a", "class");
    assert_eq!(
        classes,
        vec!["item".to_string(), "item".to_string(), "item".to_string(), "other".to_string()]
    );
}

#[test]
fn extract_without_a_match_is_empty() {
    assert_eq!(extract(PAGE, ".missing", "href"), Vec::<String>::new());
}

#[test]
fn extract_on_an_empty_document_is_empty_for_any_selector() {
    for selector in ["a", "*", "html", "body", ".list a", "", "<<not a selector>>"] {
        assert_eq!(extract("", selector, "href"), Vec::<String>::new());
        assert_eq!(extract("", selector, "class"), Vec::<String>::new());
    }
}

#[test]
fn extract_first_on_an_empty_document_is_not_found() {
    for selector in ["a", "*", "html", "body", ".list a", "", "<<not a selector>>"] {
        assert_eq!(extract_first("", selector, "href"), Err(ExtractError::NotFound));
    }
}

#[test]
fn extract_with_text_that_is_no_selector_selects_nothing() {
    assert_eq!(extract(PAGE, "<<not a selector>>", "href"), Vec::<String>::new());
    assert_eq!(extract_first(PAGE, "<<not a selector>>", "href"), Err(ExtractError::NotFound));
}

#[test]
fn extract_first_gives_the_first_value() {
    assert_eq!(extract_first(PAGE, ".list a", "href"), Ok("/one".to_string()));
    assert_eq!(extract_first(PAGE, ".other", "href"), Ok("/three".to_string()));
}

#[test]
fn extract_first_passes_over_a_first_element_without_the_attribute() {
    let page = r#"<p><a id="x">bare</a><a href="/second">second</a></p>"#;
    assert_eq!(extract_first(page, "a", "href"), Ok("/second".to_string()));
}

#[test]
fn extract_first_without_a_match_is_not_found() {
    assert_eq!(extract_first(PAGE, ".missing", "href"), Err(ExtractError::NotFound));
    assert_eq!(extract_first(PAGE, "li", "href"), Err(ExtractError::NotFound));
}

#[test]
fn extract_does_not_hand_its_arguments_back() {
    let links = extract(r#"<a href="/target">text</a>"#, "a", "href");
    assert_eq!(links.len(), 1);
    assert_eq!(links[0], "/target");
    assert_ne!(links[0], "a");
    assert_ne!(links[0], "href");
}

#[test]
fn present_values_keeps_what_is_there_in_order() {
    let found = vec![None, Some("a".to_string()), None, Some("b".to_string()), Some("a".to_string())];
    assert_eq!(present_values(&found), vec!["a".to_string(), "b".to_string(), "a".to_string()]);
}

#[test]
fn present_values_of_nothing_is_empty() {
    assert_eq!(present_values(&Vec::new()), Vec::<String>::new());
    assert_eq!(present_values(&vec![None, None]), Vec::<String>::new());
}

#[test]
fn a_document_of_blanks_yields_nothing_either() {
    for selector in ["a", "*", "html", "head", "body"] {
        assert_eq!(extract(" ", selector, "href"), Vec::<String>::new());
        assert_eq!(extract("\n", selector, "class"), Vec::<String>::new());
        assert_eq!(extract_first(" ", selector, "href"), Err(ExtractError::NotFound));
    }
}

#[test]
fn extract_is_the_same_on_the_same_input() {
    assert_eq!(extract(PAGE, ".list a", "href"), extract(PAGE, ".list a", "href"));
    assert_eq!(extract_first(PAGE, ".list a", "href"), extract_first(PAGE, ".list a", "href"));
}
