use idsmith_web::domain::Domain;
use idsmith_web::install::{InstallPrompt, InstallState};
use idsmith_web::validator::{validate_input, verdict_of, Check};
use idsmith_web::registry::ParsedId;

fn verdict(tag: &str, country: &str, raw: &str) -> (bool, String) {
    let v = validate_input(tag, country, raw).expect("a verdict");
    (v.valid, v.message)
}

#[test]
fn empty_input_gives_no_verdict() {
    assert!(validate_input("iban", "", "").is_none());
    assert!(validate_input("iban", "", "   \t ").is_none());
}

#[test]
fn unknown_domain_gives_no_verdict() {
    assert!(validate_input("ssn", "US", "123").is_none());
}

#[test]
fn iban_verdicts() {
    assert_eq!(verdict("iban", "", "  GB29 NWBK 6016 1331 9268 19 "), (true, "Valid IBAN".to_string()));
    assert_eq!(
        verdict("iban", "", "GB29 NWBK 6016 1331 9268 18"),
        (false, "Invalid IBAN checksum or format".to_string())
    );
    assert_eq!(
        verdict("iban", "", "gb29 nwbk 6016 1331 9268 19"),
        (false, "Invalid IBAN checksum or format".to_string())
    );
    assert_eq!(verdict("iban", "", "DE\u{e9}9"), (false, "Invalid IBAN checksum or format".to_string()));
}

#[test]
fn card_swift_lei_vat_verdicts() {
    assert_eq!(verdict("card", "", "4111111111111111"), (true, "Valid Credit Card (Luhn check passed)".to_string()));
    assert_eq!(verdict("card", "", "4111111111111112"), (false, "Invalid Credit Card (Luhn check failed)".to_string()));
    assert_eq!(verdict("swift", "", "DEUTDEFF"), (true, "Valid SWIFT/BIC format".to_string()));
    assert_eq!(verdict("swift", "", "DEUT"), (false, "Invalid SWIFT/BIC format".to_string()));
    assert_eq!(verdict("lei", "", "ABC"), (false, "Invalid LEI code format".to_string()));
    assert_eq!(verdict("vat", "", "\u{e9}\u{e9}\u{e9}\u{e9}"), (false, "Invalid VAT number format".to_string()));
}

#[test]
fn generated_codes_validate_through_the_dispatcher() {
    let mut rng = rand::thread_rng();
    let lei = idsmith::lei::Registry::new().generate(&Default::default(), &mut rng);
    assert_eq!(verdict("lei", "", &lei.code), (true, "Valid LEI code".to_string()));
    let id = idsmith::personal_id::Registry::new().generate("EE", &Default::default(), &mut rng).unwrap();
    let (ok, msg) = verdict("id", "EE", &id);
    assert!(ok);
    assert!(msg.starts_with("Valid ID ("));
}

#[test]
fn unsupported_country_for_bank_account() {
    assert_eq!(
        verdict("bank", "XX", "12345678"),
        (false, "Bank Account validation not supported for this country".to_string())
    );
    assert_eq!(
        verdict("id", "XX", "12345678"),
        (false, "Personal ID validation not supported for this country".to_string())
    );
}

#[test]
fn verdicts_for_each_answer() {
    let v = verdict_of(Domain::TaxId, &Check::Flag(true));
    assert_eq!((v.valid, v.message.as_str()), (true, "Valid Tax ID for selected country"));
    let v = verdict_of(Domain::Passport, &Check::Flag(false));
    assert_eq!((v.valid, v.message.as_str()), (false, "Invalid Passport format"));
    let v = verdict_of(Domain::BankAccount, &Check::Scoped(Some(true)));
    assert_eq!((v.valid, v.message.as_str()), (true, "Valid Bank Account for selected country"));
    let v = verdict_of(Domain::BankAccount, &Check::Scoped(None));
    assert_eq!((v.valid, v.message.as_str()), (false, "Bank Account validation not supported for this country"));
    let parsed = ParsedId {
        code: "38001085718".to_string(),
        gender: Some("male".to_string()),
        dob: Some("1980-01-08".to_string()),
        valid: true,
    };
    let v = verdict_of(Domain::PersonalId, &Check::Parsed(parsed));
    assert_eq!((v.valid, v.message.as_str()), (true, "Valid ID (male / 1980-01-08)"));
    let v = verdict_of(Domain::PersonalId, &Check::Scoped(Some(false)));
    assert_eq!((v.valid, v.message.as_str()), (false, "Invalid ID for selected country"));
    let v = verdict_of(Domain::PersonalId, &Check::Scoped(None));
    assert_eq!((v.valid, v.message.as_str()), (false, "Personal ID validation not supported for this country"));
    let v = verdict_of(Domain::DriverLicense, &Check::Unreadable);
    assert_eq!((v.valid, v.message.as_str()), (false, "Invalid Driver's License format"));
}

#[test]
fn domain_tags_round_trip() {
    for tag in ["iban", "id", "bank", "card", "swift", "company", "driver_license", "passport", "tax_id", "vat", "lei"] {
        let d = Domain::from_tag(tag).unwrap();
        assert_eq!(d.tag(), tag);
    }
    assert!(Domain::from_tag("IBAN").is_none());
    assert!(Domain::PersonalId.is_country_scoped());
    assert!(!Domain::Vat.is_country_scoped());
}

#[test]
fn install_prompt_is_single_use() {
    let mut p = InstallPrompt::new();
    assert!(!p.can_install());
    assert!(!p.begin());
    p.on_offer();
    assert!(p.can_install());
    assert!(p.begin());
    assert_eq!(p.state, InstallState::Prompting);
    assert!(p.resolve(true));
    assert_eq!(p.state, InstallState::Accepted);
    assert!(!p.resolve(false));
    assert_eq!(p.state, InstallState::Accepted);
    assert!(!p.can_install());
}

#[test]
fn dismissed_prompt_keeps_the_button() {
    let mut p = InstallPrompt::new();
    p.on_offer();
    assert!(p.begin());
    assert!(p.resolve(false));
    assert_eq!(p.state, InstallState::Dismissed);
    assert!(p.can_install());
    assert!(!p.begin());
    assert_eq!(p.state, InstallState::Dismissed);
    p.on_offer();
    assert_eq!(p.state, InstallState::Available);
    assert!(p.begin());
}

#[test]
fn short_personal_id_is_invalid_not_a_panic() {
    assert_eq!(verdict("id", "EE", "12"), (false, "Invalid ID for selected country".to_string()));
    assert_eq!(verdict("id", "AT", "12345"), (false, "Invalid ID for selected country".to_string()));
    assert_eq!(verdict("id", "CN", "1234567890123456Z8"), (false, "Invalid ID for selected country".to_string()));
}

#[test]
fn iban_with_inner_whitespace() {
    assert_eq!(verdict("iban", "", "GB29\tNWBK 6016\t1331 9268 19"), (true, "Valid IBAN".to_string()));
}

#[test]
fn unknown_country_is_reported_for_every_scoped_domain() {
    let cases = [
        ("company", "Company ID"),
        ("driver_license", "Driver's License"),
        ("passport", "Passport"),
        ("tax_id", "Tax ID"),
        ("bank", "Bank Account"),
        ("id", "Personal ID"),
    ];
    for (tag, name) in cases {
        let want = format!("{} validation not supported for this country", name);
        assert_eq!(verdict(tag, "XX", "12345678"), (false, want.clone()));
        assert_eq!(verdict(tag, "XX", "12\u{e9}45678"), (false, want));
    }
}

#[test]
fn non_ascii_value_for_a_known_country_is_invalid() {
    assert_eq!(verdict("company", "EE", "1\u{e9}"), (false, "Invalid Company ID checksum or format".to_string()));
    assert_eq!(verdict("bank", "US", "\u{e9}"), (false, "Invalid Bank Account checksum or format".to_string()));
}
