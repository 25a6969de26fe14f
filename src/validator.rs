//! Routing a typed value to the registry of its domain, and the verdict shown.
use vstd::prelude::*;
use vstd::string::StringExecFns;
use crate::domain::{category_of, tag_of, Domain};
use crate::registry::{
    ascii_space, bank_country_known, company_country_known, draw_bank_account, draw_company_id,
    draw_driver_license, draw_passport, draw_personal_id, draw_tax_id, license_country_known,
    passport_country_known, personal_id_country_known, tax_country_known, GenderChoice,
    bank_account_checks, bank_account_valid, card_checks, card_valid, company_id_checks,
    company_id_valid, driver_license_checks, driver_license_valid, iban_checkable, iban_checks,
    iban_symbol, iban_valid, lei_checks, lei_valid, parse_personal_id, parsed_id_of, parsed_view,
    passport_checks, passport_valid, personal_id_checks, personal_id_valid, swift_format,
    swift_valid, tax_id_checks, tax_id_valid, vat_checks, vat_valid, ParsedId,
};

verus! {

/// The answer to a validation request.
#[derive(Clone, Debug, PartialEq, Eq)]
pub struct Verdict {
    pub valid: bool,
    pub message: String,
}

/// What a registry said of a value.
pub enum Check {
    /// A yes-or-no answer.
    Flag(bool),
    /// An answer of a country-scoped registry; `None` when it does not know
    /// the country.
    Scoped(Option<bool>),
    /// The decoded fields of a personal ID that its country's check accepted.
    Parsed(ParsedId),
    /// The value holds characters that the registry cannot read.
    Unreadable,
}

/// The whitespace-trimmed form of `s`, as std trims it.
pub uninterp spec fn trim_of(s: Seq<char>) -> Seq<char>;

/// Relies on str::trim: leading and trailing whitespace removed.
#[verifier::external_body]
fn trimmed(s: &str) -> (r: String)
    ensures
        r@ == trim_of(s@),
{
    s.trim().to_string()
}

pub open spec fn valid_message(d: Domain) -> Seq<char> {
    match d {
        Domain::Iban => "Valid IBAN"@,
        Domain::PersonalId => "Valid ID"@,
        Domain::BankAccount => "Valid Bank Account for selected country"@,
        Domain::CreditCard => "Valid Credit Card (Luhn check passed)"@,
        Domain::Swift => "Valid SWIFT/BIC format"@,
        Domain::CompanyId => "Valid Company ID for selected country"@,
        Domain::DriverLicense => "Valid Driver's License for selected country"@,
        Domain::Passport => "Valid Passport for selected country"@,
        Domain::TaxId => "Valid Tax ID for selected country"@,
        Domain::Vat => "Valid VAT number"@,
        Domain::Lei => "Valid LEI code"@,
    }
}

pub open spec fn invalid_message(d: Domain) -> Seq<char> {
    match d {
        Domain::Iban => "Invalid IBAN checksum or format"@,
        Domain::PersonalId => "Invalid ID for selected country"@,
        Domain::BankAccount => "Invalid Bank Account checksum or format"@,
        Domain::CreditCard => "Invalid Credit Card (Luhn check failed)"@,
        Domain::Swift => "Invalid SWIFT/BIC format"@,
        Domain::CompanyId => "Invalid Company ID checksum or format"@,
        Domain::DriverLicense => "Invalid Driver's License format"@,
        Domain::Passport => "Invalid Passport format"@,
        Domain::TaxId => "Invalid Tax ID format"@,
        Domain::Vat => "Invalid VAT number format"@,
        Domain::Lei => "Invalid LEI code format"@,
    }
}

pub open spec fn unsupported_message(d: Domain) -> Seq<char> {
    category_of(d) + " validation not supported for this country"@
}

pub open spec fn text_or_empty(s: Option<String>) -> Seq<char> {
    match s {
        Some(t) => t@,
        None => Seq::empty(),
    }
}

/// The verdict for a yes-or-no answer.
pub open spec fn flag_verdict(d: Domain, b: bool) -> (bool, Seq<char>) {
    (b, if b { valid_message(d) } else { invalid_message(d) })
}

/// The verdict that a registry's answer gives, as validity and message.
pub open spec fn verdict_spec(d: Domain, c: Check) -> (bool, Seq<char>) {
    match c {
        Check::Flag(b) => flag_verdict(d, b),
        Check::Scoped(Some(b)) => flag_verdict(d, b),
        Check::Scoped(None) => (false, unsupported_message(d)),
        Check::Parsed(p) => (true, "Valid ID ("@ + text_or_empty(p.gender) + " / "@ + text_or_empty(p.dob) + ")"@),
        Check::Unreadable => (false, invalid_message(d)),
    }
}

pub open spec fn verdict_is(v: Verdict, want: (bool, Seq<char>)) -> bool {
    v.valid == want.0 && v.message@ == want.1
}

fn message(d: Domain, valid: bool) -> (r: &'static str)
    ensures
        r@ == if valid { valid_message(d) } else { invalid_message(d) },
{
    match (d, valid) {
        (Domain::Iban, true) => "Valid IBAN",
        (Domain::Iban, false) => "Invalid IBAN checksum or format",
        (Domain::PersonalId, true) => "Valid ID",
        (Domain::PersonalId, false) => "Invalid ID for selected country",
        (Domain::BankAccount, true) => "Valid Bank Account for selected country",
        (Domain::BankAccount, false) => "Invalid Bank Account checksum or format",
        (Domain::CreditCard, true) => "Valid Credit Card (Luhn check passed)",
        (Domain::CreditCard, false) => "Invalid Credit Card (Luhn check failed)",
        (Domain::Swift, true) => "Valid SWIFT/BIC format",
        (Domain::Swift, false) => "Invalid SWIFT/BIC format",
        (Domain::CompanyId, true) => "Valid Company ID for selected country",
        (Domain::CompanyId, false) => "Invalid Company ID checksum or format",
        (Domain::DriverLicense, true) => "Valid Driver's License for selected country",
        (Domain::DriverLicense, false) => "Invalid Driver's License format",
        (Domain::Passport, true) => "Valid Passport for selected country",
        (Domain::Passport, false) => "Invalid Passport format",
        (Domain::TaxId, true) => "Valid Tax ID for selected country",
        (Domain::TaxId, false) => "Invalid Tax ID format",
        (Domain::Vat, true) => "Valid VAT number",
        (Domain::Vat, false) => "Invalid VAT number format",
        (Domain::Lei, true) => "Valid LEI code",
        (Domain::Lei, false) => "Invalid LEI code format",
    }
}

fn flag_verdict_of(d: Domain, b: bool) -> (v: Verdict)
    ensures
        verdict_is(v, flag_verdict(d, b)),
{
    Verdict { valid: b, message: message(d, b).to_owned() }
}

fn unsupported_verdict(d: Domain) -> (v: Verdict)
    ensures
        verdict_is(v, (false, unsupported_message(d))),
{
    let mut m = d.category().to_owned();
    m.append(" validation not supported for this country");
    Verdict { valid: false, message: m }
}

fn text_of(s: &Option<String>) -> (r: String)
    ensures
        r@ == text_or_empty(*s),
{
    match s {
        Some(t) => t.clone(),
        None => String::new(),
    }
}

/// The verdict that a registry's answer gives.
pub fn verdict_of(d: Domain, c: &Check) -> (v: Verdict)
    ensures
        verdict_is(v, verdict_spec(d, *c)),
{
    match c {
        Check::Flag(b) => flag_verdict_of(d, *b),
        Check::Scoped(Some(b)) => flag_verdict_of(d, *b),
        Check::Scoped(None) => unsupported_verdict(d),
        Check::Parsed(p) => {
            let mut m = "Valid ID (".to_owned();
            m.append(text_of(&p.gender).as_str());
            m.append(" / ");
            m.append(text_of(&p.dob).as_str());
            m.append(")");
            Verdict { valid: true, message: m }
        },
        Check::Unreadable => flag_verdict_of(d, false),
    }
}

/// Text that the country-scoped and VAT registries read: plain ASCII.
pub open spec fn ascii_text(s: Seq<char>) -> bool {
    vstd::utf8::is_ascii_chars(s)
}

/// Whether the registry of a country-scoped domain knows `country`.
pub open spec fn country_known(d: Domain, country: Seq<char>) -> bool {
    match d {
        Domain::PersonalId => personal_id_country_known(country),
        Domain::BankAccount => bank_country_known(country),
        Domain::CompanyId => company_country_known(country),
        Domain::DriverLicense => license_country_known(country),
        Domain::Passport => passport_country_known(country),
        Domain::TaxId => tax_country_known(country),
        _ => true,
    }
}

/// Asks the registry of `d` whether it knows `country`. The registries'
/// checks do not tell an unknown country from a rejected value, but their
/// generators fail exactly for an unknown country, so one value is drawn and
/// dropped.
fn knows_country(d: Domain, country: &str) -> (r: bool)
    ensures
        r == country_known(d, country@),
{
    let mut rng = rand::thread_rng();
    match d {
        Domain::PersonalId => draw_personal_id(country, GenderChoice::Any, None, &mut rng).is_some(),
        Domain::BankAccount => draw_bank_account(country, &mut rng).is_some(),
        Domain::CompanyId => draw_company_id(Some(country), &mut rng).is_some(),
        Domain::DriverLicense => draw_driver_license(Some(country), None, &mut rng).is_some(),
        Domain::Passport => draw_passport(Some(country), &mut rng).is_some(),
        Domain::TaxId => draw_tax_id(Some(country), &mut rng).is_some(),
        _ => true,
    }
}

/// Whether the registry of `d` accepts `value` (for `country`, where the
/// domain is country-scoped). A value that the registry cannot read is not
/// accepted.
pub open spec fn accepted_by(d: Domain, country: Seq<char>, value: Seq<char>) -> bool {
    match d {
        Domain::Iban => iban_checkable(value) && iban_checks(value),
        Domain::CreditCard => card_checks(value),
        Domain::Swift => swift_format(value),
        Domain::Lei => lei_checks(value),
        _ => country_known(d, country) && ascii_text(value) && match d {
            Domain::PersonalId => personal_id_checks(country, value) == Some(true),
            Domain::BankAccount => bank_account_checks(country, value) == Some(true),
            Domain::CompanyId => company_id_checks(country, value),
            Domain::DriverLicense => driver_license_checks(country, value),
            Domain::Passport => passport_checks(country, value),
            Domain::TaxId => tax_id_checks(country, value),
            _ => vat_checks(value),
        },
    }
}

/// What the registries answer for `value`, read as an identifier of domain
/// `d` (of `country`, where the domain is country-scoped).
pub open spec fn check_fits(d: Domain, country: Seq<char>, value: Seq<char>, c: Check) -> bool {
    match d {
        Domain::Iban => c == if iban_checkable(value) {
            Check::Flag(iban_checks(value))
        } else {
            Check::Unreadable
        },
        Domain::CreditCard => c == Check::Flag(card_checks(value)),
        Domain::Swift => c == Check::Flag(swift_format(value)),
        Domain::Lei => c == Check::Flag(lei_checks(value)),
        _ => if !country_known(d, country) {
            c == Check::Scoped(None)
        } else if !ascii_text(value) {
            c == Check::Unreadable
        } else {
            match d {
                Domain::PersonalId => match personal_id_checks(country, value) {
                    Some(true) => c matches Check::Parsed(p) && parsed_view(p) == parsed_id_of(
                        country,
                        value,
                    ),
                    other => c == Check::Scoped(other),
                },
                Domain::BankAccount => c == Check::Scoped(bank_account_checks(country, value)),
                Domain::CompanyId => c == Check::Flag(company_id_checks(country, value)),
                Domain::DriverLicense => c == Check::Flag(driver_license_checks(country, value)),
                Domain::Passport => c == Check::Flag(passport_checks(country, value)),
                Domain::TaxId => c == Check::Flag(tax_id_checks(country, value)),
                _ => c == Check::Flag(vat_checks(value)),
            }
        },
    }
}

fn iban_readable(s: &str) -> (r: bool)
    ensures
        r == iban_checkable(s@),
{
    let n = s.unicode_len();
    let mut i: usize = 0;
    while i < n
        invariant
            n == s@.len(),
            i <= n,
            forall|j: int| 0 <= j < i ==> iban_symbol(#[trigger] s@[j]) || ascii_space(s@[j]),
        decreases n - i,
    {
        let c = s.get_char(i);
        if !(('0' <= c && c <= '9') || ('A' <= c && c <= 'Z') || c == ' ' || c == '\t' || c == '\n'
            || c == '\x0B' || c == '\x0C' || c == '\r') {
            return false;
        }
        i = i + 1;
    }
    true
}

/// Asks the registry of `d` about `value`.
pub fn check_value(d: Domain, country: &str, value: &str) -> (c: Check)
    ensures
        check_fits(d, country@, value@, c),
{
    match d {
        Domain::Iban => {
            if iban_readable(value) {
                Check::Flag(iban_valid(value))
            } else {
                Check::Unreadable
            }
        },
        Domain::CreditCard => Check::Flag(card_valid(value)),
        Domain::Swift => Check::Flag(swift_valid(value)),
        Domain::Lei => Check::Flag(lei_valid(value)),
        _ => {
            if !knows_country(d, country) {
                return Check::Scoped(None);
            }
            if !value.is_ascii() {
                return Check::Unreadable;
            }
            match d {
                Domain::PersonalId => match personal_id_valid(country, value) {
                    Some(true) => match parse_personal_id(country, value) {
                        Some(p) => Check::Parsed(p),
                        None => Check::Scoped(None),
                    },
                    other => Check::Scoped(other),
                },
                Domain::BankAccount => Check::Scoped(bank_account_valid(country, value)),
                Domain::CompanyId => Check::Flag(company_id_valid(country, value)),
                Domain::DriverLicense => Check::Flag(driver_license_valid(country, value)),
                Domain::Passport => Check::Flag(passport_valid(country, value)),
                Domain::TaxId => Check::Flag(tax_id_valid(country, value)),
                _ => Check::Flag(vat_valid(value)),
            }
        },
    }
}

/// Whether the registry of `d` accepts `value`; the flag that a generated
/// row carries.
pub fn accepts_value(d: Domain, country: &str, value: &str) -> (r: bool)
    ensures
        r == accepted_by(d, country@, value@),
{
    let c = check_value(d, country, value);
    match c {
        Check::Flag(b) => b,
        Check::Scoped(Some(b)) => b,
        Check::Scoped(None) => false,
        Check::Parsed(_) => true,
        Check::Unreadable => false,
    }
}

/// Validates a typed value for the domain named by `tag`. The value is
/// trimmed first; an empty value, or a tag that names no domain, gives no
/// verdict. `country` matters only to the country-scoped domains.
pub fn validate_input(tag: &str, country: &str, raw: &str) -> (r: Option<Verdict>)
    ensures
        r is None <==> (trim_of(raw@).len() == 0 || forall|d: Domain| tag_of(d) != tag@),
        r matches Some(v) ==> exists|d: Domain| tag_of(d) == tag@ && v.valid == accepted_by(d, country@, trim_of(raw@)),
        r matches Some(v) ==> exists|d: Domain, c: Check|
            tag_of(d) == tag@ && check_fits(d, country@, trim_of(raw@), c) && verdict_is(
                v,
                verdict_spec(d, c),
            ),
{
    let value = trimmed(raw);
    if value.unicode_len() == 0 {
        return None;
    }
    let d = match Domain::from_tag(tag) {
        Some(d) => d,
        None => return None,
    };
    let c = check_value(d, country, value.as_str());
    let v = verdict_of(d, &c);
    Some(v)
}

} // verus!
