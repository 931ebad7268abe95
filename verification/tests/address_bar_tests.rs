//! Address bar tests.
use browser_shell::address_bar::{AddressBar, UrlValidationResult};

#[test]
fn address_bar_new_creates_empty() {
    let bar = AddressBar::new();
    assert_eq!(bar.get_text(), "");
    assert!(!bar.is_loading());
    assert!(!bar.is_focused());
}

#[test]
fn address_bar_default_creates_empty() {
    let bar = AddressBar::default();
    assert_eq!(bar.get_text(), "");
}

#[test]
fn validate_url_handles_https() {
    let bar = AddressBar::new();
    let result = bar.validate_url("https://example.com");
    assert_eq!(result, UrlValidationResult::Valid("https://example.com".to_string()));
}

#[test]
fn validate_url_handles_http() {
    let bar = AddressBar::new();
    let result = bar.validate_url("http://example.com");
    assert_eq!(result, UrlValidationResult::Valid("http://example.com".to_string()));
}

#[test]
fn validate_url_handles_domain_only() {
    let bar = AddressBar::new();
    let result = bar.validate_url("example.com");
    assert_eq!(result, UrlValidationResult::Valid("https://example.com".to_string()));
}

#[test]
fn validate_url_handles_search_query() {
    let bar = AddressBar::new();
    let result = bar.validate_url("hello world");
    assert_eq!(result, UrlValidationResult::SearchQuery("hello world".to_string()));
}

#[test]
fn validate_url_rejects_empty() {
    let bar = AddressBar::new();
    let result = bar.validate_url("");
    assert!(matches!(result, UrlValidationResult::Invalid(_)));
}

#[test]
fn validate_url_rejects_invalid_domain() {
    let bar = AddressBar::new();
    let result = bar.validate_url("https://");
    assert!(matches!(result, UrlValidationResult::Invalid(_)));
}



#[test]
fn test_address_bar_creation() {
    let bar = AddressBar::new();
    assert_eq!(bar.get_text(), "");
    assert!(!bar.is_loading());
}

#[test]
fn test_address_bar_set_text() {
    let mut bar = AddressBar::new();
    bar.set_text("https://example.com".to_string());
    assert_eq!(bar.get_text(), "https://example.com");
}

#[test]
fn test_address_bar_validate_url_valid() {
    let bar = AddressBar::new();
    let result = bar.validate_url("https://example.com");
    assert!(matches!(result, UrlValidationResult::Valid(_)));
}

#[test]
fn test_address_bar_validate_url_invalid() {
    let bar = AddressBar::new();
    let result = bar.validate_url("ht://invalid");
    assert!(matches!(result, UrlValidationResult::Invalid(_)));
}

#[test]
fn test_address_bar_validate_url_search_query() {
    let bar = AddressBar::new();
    let result = bar.validate_url("hello world");
    assert!(matches!(result, UrlValidationResult::SearchQuery(_)));
}

#[test]
fn test_address_bar_loading_state() {
    let mut bar = AddressBar::new();
    assert!(!bar.is_loading());

    bar.set_loading(true);
    assert!(bar.is_loading());

    bar.set_loading(false);
    assert!(!bar.is_loading());
}

#[test]
fn test_address_bar_security_indicator() {
    let mut bar = AddressBar::new();
    bar.set_text("https://example.com".to_string());
    assert!(bar.is_secure());

    bar.set_text("http://example.com".to_string());
    assert!(!bar.is_secure());
}

#[test]
fn test_address_bar_test_address_bar_focus_state() {
    let mut bar = AddressBar::new();
    assert!(!bar.is_focused());

    bar.set_focused(true);
    assert!(bar.is_focused());

    bar.set_focused(false);
    assert!(!bar.is_focused());
}

#[test]
fn validate_url_ignores_surrounding_space() {
    let bar = AddressBar::new();
    for input in ["example.com", "https://example.com", "rust lang", "www.example", ""] {
        let padded = format!(" \t{}\n ", input);
        assert_eq!(bar.validate_url(&padded), bar.validate_url(input));
        assert_eq!(bar.validate_url(padded.trim()), bar.validate_url(&padded));
    }
}
