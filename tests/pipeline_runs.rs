use idsmith_web::domain::Domain;
use idsmith_web::history::{HistoryLog, Persist};
use idsmith_web::pipeline::{clamp_count, generate_rows, history_entry, run_request, Request};
use idsmith_web::registry::{BankDraw, DocumentDraw, GenderChoice};

fn request(domain: Domain, selector: Option<&str>, count: u32) -> Request {
    Request {
        domain,
        selector: selector.map(|s| s.to_string()),
        count,
        gender: GenderChoice::Any,
        year: None,
        state: None,
        current_year: 26,
    }
}

#[test]
fn five_german_ibans_with_spacing() {
    let mut rng = rand::thread_rng();
    let rows = generate_rows(&request(Domain::Iban, Some("DE"), 5), &mut rng);
    assert_eq!(rows.len(), 5);
    for row in &rows {
        let raw = row.values[0].as_deref().unwrap();
        let formatted = row.values[1].as_deref().unwrap();
        assert!(row.valid);
        assert!(raw.starts_with("DE"));
        assert!(idsmith::iban::validate_iban(raw));
        let blocks: Vec<&str> = formatted.split(' ').collect();
        assert!(blocks.iter().all(|b| !b.is_empty() && b.len() <= 4));
        assert!(blocks[..blocks.len() - 1].iter().all(|b| b.len() == 4));
        assert_eq!(formatted.replace(' ', ""), raw);
        assert_ne!(formatted, raw);
    }
    let csv = idsmith_web::export::csv_text(&Domain::Iban.schema(true), &rows);
    assert_eq!(csv.lines().count(), 6);
}

#[test]
fn unsupported_country_gives_empty_snapshot_and_one_entry() {
    let mut rng = rand::thread_rng();
    let mut log = HistoryLog::new();
    let (rows, op) = run_request(&request(Domain::Iban, Some("XX"), 5), 1234, &mut log, &mut rng);
    assert!(rows.is_empty());
    assert_eq!(log.len(), 1);
    let e = &log.entries[0];
    assert_eq!(e.category, "IBAN");
    assert_eq!(e.country, "XX");
    assert_eq!(e.count, 5);
    assert!(e.results.is_empty());
    assert_eq!(e.timestamp, 1234);
    assert!(e.id.chars().all(|c| c.is_ascii_digit()));
    assert!(matches!(op, Persist::Write(t) if t == log.to_json()));
}

#[test]
fn row_count_never_exceeds_request() {
    let mut rng = rand::thread_rng();
    let cases = [
        (Domain::Iban, Some("FR")),
        (Domain::Iban, None),
        (Domain::PersonalId, Some("EE")),
        (Domain::PersonalId, Some("ZZ")),
        (Domain::BankAccount, Some("US")),
        (Domain::CreditCard, Some("visa")),
        (Domain::Swift, Some("DE")),
        (Domain::CompanyId, Some("EE")),
        (Domain::DriverLicense, Some("US")),
        (Domain::Passport, Some("DE")),
        (Domain::TaxId, Some("DE")),
        (Domain::Vat, Some("DE")),
        (Domain::Lei, None),
    ];
    for n in [1u32, 7, 100] {
        for (d, sel) in cases.iter() {
            let rows = generate_rows(&request(*d, *sel, n), &mut rng);
            assert!(rows.len() <= n as usize, "{:?}", d);
        }
    }
}

#[test]
fn registries_without_failure_fill_the_batch() {
    let mut rng = rand::thread_rng();
    assert_eq!(generate_rows(&request(Domain::Iban, None, 9), &mut rng).len(), 9);
    assert_eq!(generate_rows(&request(Domain::Swift, Some("GB"), 9), &mut rng).len(), 9);
    assert_eq!(generate_rows(&request(Domain::Lei, Some("US"), 9), &mut rng).len(), 9);
}

#[test]
fn stored_flag_matches_recomputed_validation() {
    let mut rng = rand::thread_rng();
    let ibans = generate_rows(&request(Domain::Iban, None, 20), &mut rng);
    for r in &ibans {
        assert_eq!(idsmith::iban::validate_iban(r.values[0].as_deref().unwrap()), r.valid);
    }
    let cards = generate_rows(&request(Domain::CreditCard, Some("Visa"), 20), &mut rng);
    assert_eq!(cards.len(), 20);
    assert!(cards.iter().all(|r| r.checked == r.values[0].clone().unwrap()));
    let card_registry = idsmith::credit_card::Registry::new();
    for r in &cards {
        assert_eq!(card_registry.validate(r.values[0].as_deref().unwrap()), r.valid);
    }
    let leis = generate_rows(&request(Domain::Lei, None, 20), &mut rng);
    let lei_registry = idsmith::lei::Registry::new();
    for r in &leis {
        assert_eq!(lei_registry.validate(r.values[0].as_deref().unwrap()), r.valid);
    }
    let banks = generate_rows(&request(Domain::BankAccount, Some("US"), 20), &mut rng);
    assert_eq!(banks.len(), 20);
    let bank_registry = idsmith::bank_account::Registry::new();
    for r in &banks {
        assert!(r.valid);
        assert_eq!(bank_registry.validate("US", &r.checked), Some(r.valid));
        let routing = r.values[1].as_deref().unwrap();
        let account = r.values[0].as_deref().unwrap();
        assert_eq!(r.checked, format!("{}{}", routing, account));
    }
    let docs = generate_rows(&request(Domain::TaxId, Some("DE"), 20), &mut rng);
    let tax_registry = idsmith::tax_id::Registry::new();
    for r in &docs {
        assert_eq!(tax_registry.validate("DE", r.values[0].as_deref().unwrap()), r.valid);
    }
    let ids = generate_rows(&request(Domain::PersonalId, Some("EE"), 20), &mut rng);
    let id_registry = idsmith::personal_id::Registry::new();
    assert_eq!(ids.len(), 20);
    for r in &ids {
        assert_eq!(id_registry.validate("EE", r.values[0].as_deref().unwrap()), Some(r.valid));
    }
    let vats = generate_rows(&request(Domain::Vat, Some("DE"), 20), &mut rng);
    let vat_registry = idsmith::vat::Registry::new();
    for r in &vats {
        assert_eq!(vat_registry.validate(r.values[0].as_deref().unwrap()), r.valid);
    }
}

#[test]
fn personal_ids_decode_gender_and_birth_date() {
    let mut rng = rand::thread_rng();
    let mut req = request(Domain::PersonalId, Some("EE"), 3);
    req.gender = GenderChoice::Female;
    req.year = Some(1985);
    let rows = generate_rows(&req, &mut rng);
    assert_eq!(rows.len(), 3);
    for r in &rows {
        assert_eq!(r.values.len(), 3);
        assert!(r.values[2].as_deref().unwrap().contains("1985"));
        assert!(r.values[1].as_deref().unwrap().to_lowercase().starts_with('f'));
    }
}

#[test]
fn nineteenth_century_birth_year_is_generated() {
    let mut rng = rand::thread_rng();
    let mut req = request(Domain::PersonalId, Some("EE"), 4);
    req.year = Some(1850);
    let rows = generate_rows(&req, &mut rng);
    assert_eq!(rows.len(), 4);
    assert!(rows.iter().all(|r| r.values[2].as_deref().unwrap().contains("1850")));
}

#[test]
fn lei_country_is_ascii_letters_and_digits() {
    let mut rng = rand::thread_rng();
    assert!(generate_rows(&request(Domain::Lei, Some("A\u{c9}"), 3), &mut rng).is_empty());
    assert!(generate_rows(&request(Domain::Lei, Some("-"), 3), &mut rng).is_empty());
    let deu = generate_rows(&request(Domain::Lei, Some("DEU"), 5), &mut rng);
    assert_eq!(deu.len(), 5);
    let lei_registry = idsmith::lei::Registry::new();
    for r in &deu {
        let code = r.values[0].as_deref().unwrap();
        assert_eq!(&code[4..7], "DEU");
        assert_eq!(lei_registry.validate(code), r.valid);
        assert!(!r.valid);
    }
    assert_eq!(generate_rows(&request(Domain::Lei, Some("d1"), 2), &mut rng).len(), 2);
    let rows = generate_rows(&request(Domain::Lei, Some("GB"), 3), &mut rng);
    assert_eq!(rows.len(), 3);
    assert!(rows.iter().all(|r| r.valid && r.values[2].as_deref() == Some("GB")));
}

#[test]
fn unsupported_selectors_give_no_rows() {
    let mut rng = rand::thread_rng();
    for d in [Domain::PersonalId, Domain::BankAccount, Domain::CompanyId, Domain::DriverLicense, Domain::Passport, Domain::TaxId, Domain::Vat] {
        assert!(generate_rows(&request(d, Some("XX"), 4), &mut rng).is_empty(), "{:?}", d);
    }
    assert!(generate_rows(&request(Domain::CreditCard, Some("nocard"), 4), &mut rng).is_empty());
    assert!(generate_rows(&request(Domain::BankAccount, None, 4), &mut rng).is_empty());
}

#[test]
fn row_builders_lay_out_fields() {
    let bank = idsmith_web::pipeline::bank_row(
        BankDraw { account: "123".to_string(), bank_code: None, raw: "0001123".to_string(), valid: true },
        false,
    );
    assert_eq!(bank.values, vec![Some("123".to_string()), Some(String::new())]);
    assert_eq!(bank.checked, "0001123");
    assert!(!bank.valid);
    let doc = idsmith_web::pipeline::document_row(
        DocumentDraw {
            code: "X1".to_string(),
            name: "Passport".to_string(),
            country_code: "DE".to_string(),
            country_name: "Germany".to_string(),
            detail: Some("BY".to_string()),
            valid: true
        },
        true,
        true,
    );
    assert_eq!(doc.values[2].as_deref(), Some("DE \u{2014} Germany"));
    assert_eq!(doc.values[3].as_deref(), Some("BY"));
    let iban = idsmith_web::pipeline::iban_row("DE89370400440532013000".to_string(), true);
    assert_eq!(iban.values[1].as_deref(), Some("DE89 3704 0044 0532 0130 00"));
}

#[test]
fn document_rows_join_country_code_and_name() {
    let mut rng = rand::thread_rng();
    let rows = generate_rows(&request(Domain::Passport, Some("DE"), 2), &mut rng);
    assert_eq!(rows.len(), 2);
    for r in &rows {
        assert_eq!(r.values.len(), 3);
        assert!(r.values[2].as_deref().unwrap().starts_with("DE \u{2014} "));
        assert!(r.valid);
    }
}

#[test]
fn history_entry_without_selector_is_random() {
    let rows = vec![idsmith_web::export::ResultRow {
        values: vec![Some("X1".to_string()), None, None],
        valid: true, checked: String::new()
    }];
    let e = history_entry(&request(Domain::Lei, None, 3), &rows, "7".to_string(), 99);
    assert_eq!(e.country, "Random");
    assert_eq!(e.category, "LEI");
    assert_eq!(e.count, 3);
    assert_eq!(e.results, vec!["X1".to_string()]);
    assert_eq!(e.id, "7");
}

#[test]
fn count_is_clamped_not_rejected() {
    assert_eq!(clamp_count(0), 1);
    assert_eq!(clamp_count(1), 1);
    assert_eq!(clamp_count(55), 55);
    assert_eq!(clamp_count(100), 100);
    assert_eq!(clamp_count(101), 100);
    assert_eq!(clamp_count(u32::MAX), 100);
}

#[test]
fn failed_attempts_are_skipped_in_order() {
    let row = |v: &str| idsmith_web::export::ResultRow { values: vec![Some(v.to_string())], valid: true, checked: String::new() };
    let attempts = vec![None, Some(row("a")), None, None, Some(row("b")), Some(row("c")), None];
    let kept = idsmith_web::pipeline::keep_produced(attempts);
    let values: Vec<String> = kept.into_iter().map(|r| r.values[0].clone().unwrap()).collect();
    assert_eq!(values, vec!["a", "b", "c"]);
    assert!(idsmith_web::pipeline::keep_produced(vec![None, None]).is_empty());
}

#[test]
fn new_batch_clears_copy_marker() {
    let row = |v: &str| idsmith_web::export::ResultRow { values: vec![Some(v.to_string()), None], valid: true, checked: String::new() };
    let mut tab = idsmith_web::pipeline::TabState::new();
    tab.show_batch(vec![row("a"), row("b")]);
    tab.mark_copied(1);
    assert_eq!(tab.copied, Some(1));
    tab.mark_copied(5);
    assert_eq!(tab.copied, Some(1));
    tab.show_batch(vec![row("c")]);
    assert_eq!(tab.copied, None);
    assert_eq!(tab.rows.len(), 1);
}
