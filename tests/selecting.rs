use idsmith_web::catalog::sort_by_label;
use idsmith_web::domain::Domain;
use idsmith_web::selector::{contains_text, country_option, filter_options, DomainOption, Selector};

fn opt(code: &str, label: &str) -> DomainOption {
    DomainOption { code: code.to_string(), label: label.to_string(), description: None }
}

fn sample() -> Vec<DomainOption> {
    vec![opt("DE", "Germany"), opt("EE", "Estonia"), opt("FR", "France"), opt("GB", "United Kingdom")]
}

#[test]
fn empty_query_lists_everything_in_order() {
    assert_eq!(filter_options(&sample(), ""), sample());
}

#[test]
fn query_matches_code_or_label_ignoring_case() {
    let codes = |q: &str| filter_options(&sample(), q).into_iter().map(|o| o.code).collect::<Vec<_>>();
    assert_eq!(codes("de"), vec!["DE"]);
    assert_eq!(codes("AN"), vec!["DE", "FR"]);
    assert_eq!(codes("kingdom"), vec!["GB"]);
    assert_eq!(codes("zz"), Vec::<String>::new());
}

#[test]
fn filtering_twice_changes_nothing() {
    for q in ["", "an", "E", "xyz", "ton"] {
        let once = filter_options(&sample(), q);
        assert_eq!(filter_options(&once, q), once);
    }
}

#[test]
fn click_after_blur_still_selects() {
    let mut s = Selector::new(sample(), "DE".to_string());
    s.on_focus();
    s.on_input("fr".to_string());
    assert!(s.open);
    assert_eq!(s.visible(), vec![opt("FR", "France")]);
    s.on_blur();
    assert!(s.open);
    let told = s.select("FR".to_string());
    assert_eq!(told, "FR");
    s.on_close_timer();
    assert_eq!(s.selected, "FR");
    assert_eq!(s.query, "");
    assert!(!s.open);
}

#[test]
fn blur_closes_after_the_delay() {
    let mut s = Selector::new(sample(), "DE".to_string());
    s.on_focus();
    s.on_blur();
    assert!(s.open);
    s.on_close_timer();
    assert!(!s.open);
    assert_eq!(s.selected, "DE");
}

#[test]
fn display_name_of_selection() {
    let s = Selector::new(sample(), "EE".to_string());
    assert_eq!(s.display_name(), "EE \u{2014} Estonia");
    let none = Selector::new(sample(), "XX".to_string());
    assert_eq!(none.display_name(), "Select country...");
}

#[test]
fn substring_search() {
    assert!(contains_text("germany", "man"));
    assert!(contains_text("abc", ""));
    assert!(!contains_text("ab", "abc"));
    assert!(!contains_text("estonia", "tt"));
}

#[test]
fn country_names_come_from_the_registry() {
    assert_eq!(country_option("DE").label, "Germany");
    assert_eq!(country_option("QQ").label, "Unknown");
}

#[test]
fn sort_by_label_is_stable() {
    let v = vec![opt("B", "beta"), opt("A1", "alpha"), opt("C", "Zeta"), opt("A2", "alpha")];
    let sorted = sort_by_label(v);
    let codes: Vec<String> = sorted.into_iter().map(|o| o.code).collect();
    assert_eq!(codes, vec!["C", "A1", "A2", "B"]);
}

#[test]
fn iban_options_are_sorted_by_name() {
    let opts = Domain::Iban.options();
    assert!(opts.len() > 50);
    assert!(opts.windows(2).all(|w| w[0].label <= w[1].label));
    assert!(opts.iter().any(|o| o.code == "DE" && o.label == "Germany"));
    assert!(Domain::Lei.options().is_empty());
    assert!(Domain::CreditCard.options().iter().any(|o| o.code == "Visa"));
    assert!(Domain::PersonalId.options().iter().any(|o| o.code == "EE" && o.description.is_some()));
}

#[test]
fn descriptions_and_default_selections() {
    let mut opts = sample();
    opts[1].description = Some("Isikukood".to_string());
    assert_eq!(idsmith_web::selector::description_of(&opts, "EE"), "Isikukood");
    assert_eq!(idsmith_web::selector::description_of(&opts, "DE"), "");
    assert_eq!(idsmith_web::selector::description_of(&opts, "XX"), "");
    assert_eq!(Domain::Iban.default_selection(&opts), "DE");
    assert_eq!(Domain::BankAccount.default_selection(&opts), "US");
    assert_eq!(Domain::Lei.default_selection(&opts), "");
    assert_eq!(Domain::Passport.default_selection(&opts), "DE");
    assert_eq!(Domain::Passport.default_selection(&vec![]), "");
    assert_eq!(Domain::PersonalId.validation_country(), Some("DE"));
    assert_eq!(Domain::TaxId.validation_country(), Some("EE"));
    assert_eq!(Domain::Vat.validation_country(), None);
}
