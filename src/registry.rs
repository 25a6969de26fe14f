//! The identifier registries of the `idsmith` crate, as this library uses them.
//!
//! Each function here makes one call into `idsmith` (or `rand`) and hands back
//! plain values; the contracts state what the crate's source shows of that call.
use vstd::prelude::*;
use crate::selector::DomainOption;
use idsmith::{
    bank_account, company_id, countries, credit_card, driver_license, iban, lei, passport,
    personal_id, swift, tax_id, vat,
};

verus! {

/// rand's thread-local generator, handed through to the registries.
#[verifier::external_type_specification]
#[verifier::external_body]
pub struct ExThreadRng(rand::rngs::ThreadRng);

/// Relies on rand::random: a fresh random value; nothing is known of it.
pub assume_specification<T>[ rand::random::<T> ]() -> (r: T)
    where
        rand::distributions::Standard: rand::distributions::Distribution<T>,
;

/// Relies on rand::thread_rng: a handle to the thread's generator.
pub assume_specification[ rand::thread_rng ]() -> rand::rngs::ThreadRng;

/// A character of a generated IBAN: an ASCII digit or capital letter.
pub open spec fn iban_symbol(c: char) -> bool {
    ('0' <= c && c <= '9') || ('A' <= c && c <= 'Z')
}

/// Whether the mod-97 IBAN check accepts `s`.
pub uninterp spec fn iban_checks(s: Seq<char>) -> bool;

/// `s` cut into blocks of four characters separated by single spaces.
pub open spec fn grouped4(s: Seq<char>) -> Seq<char>
    decreases s.len(),
{
    if s.len() <= 4 {
        s
    } else {
        s.take(4) + seq![' '] + grouped4(s.skip(4))
    }
}

/// Whether `generate_iban` knows the country `c` (compared in capitals).
pub uninterp spec fn iban_country_known(c: Seq<char>) -> bool;

/// Text made of ASCII capital letters only.
pub open spec fn capitals(s: Seq<char>) -> bool {
    forall|i: int| 0 <= i < s.len() ==> 'A' <= #[trigger] s[i] && s[i] <= 'Z'
}

/// Relies on iban::generate_iban: it fails exactly for a country it does not
/// know; the code it builds is the country in capitals, two check digits and
/// a BBAN of digits and capitals, and passes the mod-97 check (the crate
/// documents that every IBAN it generates validates).
#[verifier::external_body]
pub(crate) fn draw_iban(country: Option<&str>, rng: &mut rand::rngs::ThreadRng) -> (r: Option<String>)
    ensures
        r is Some <==> (country matches Some(c) ==> iban_country_known(c@)),
        r matches Some(code) ==> {
            &&& forall|i: int| 0 <= i < code@.len() ==> iban_symbol(#[trigger] code@[i])
            &&& iban_checks(code@)
            &&& match country {
                Some(c) => capitals(c@) ==> c@.len() <= code@.len() && code@.take(c@.len() as int)
                    == c@,
                None => true,
            }
        },
{
    iban::generate_iban(country, rng).ok()
}

/// ASCII whitespace, which the IBAN check skips.
pub open spec fn ascii_space(c: char) -> bool {
    c == ' ' || c == '\t' || c == '\n' || c == '\x0B' || c == '\x0C' || c == '\r'
}

/// Text that the IBAN check reads without failing: symbols and ASCII
/// whitespace.
pub open spec fn iban_checkable(s: Seq<char>) -> bool {
    forall|i: int| 0 <= i < s.len() ==> iban_symbol(#[trigger] s[i]) || ascii_space(s[i])
}

/// Relies on iban::validate_iban, the mod-97 check after dropping whitespace.
/// Some other characters (lower-case letters, punctuation) make it panic, so
/// only capitals, digits and whitespace are handed to it.
#[verifier::external_body]
pub(crate) fn iban_valid(code: &str) -> (r: bool)
    requires
        iban_checkable(code@),
    ensures
        r == iban_checks(code@),
{
    iban::validate_iban(code)
}

/// Relies on iban::format_iban: blocks of four characters joined by spaces.
#[verifier::external_body]
pub(crate) fn iban_grouped(code: &str) -> (r: String)
    ensures
        r@ == grouped4(code@),
{
    iban::format_iban(code)
}

/// The codes of a registry's country list, in its order.
pub uninterp spec fn registry_codes_of(registry: Seq<char>) -> Seq<Seq<char>>;

/// Relies on iban::supported_countries: the country codes with an IBAN format,
/// in the crate's table order.
#[verifier::external_body]
pub(crate) fn iban_country_codes() -> (r: Vec<String>)
    ensures
        crate::text::views(r@) == registry_codes_of("iban"@),
{
    iban::supported_countries().into_iter().map(|c| c.to_string()).collect()
}

/// The English name that idsmith knows for a country code.
pub uninterp spec fn country_name_of(code: Seq<char>) -> Option<Seq<char>>;

/// Relies on countries::get_country_name, a lookup by code.
#[verifier::external_body]
pub(crate) fn lookup_country_name(code: &str) -> (r: Option<String>)
    ensures
        r matches Some(n) ==> country_name_of(code@) == Some(n@),
        r is None ==> country_name_of(code@) is None,
{
    countries::get_country_name(code).map(|n| n.to_string())
}

/// A requested gender for a personal ID.
#[derive(Clone, Copy, PartialEq, Eq, Structural, Debug)]
pub enum GenderChoice {
    Any,
    Male,
    Female,
}

/// Whether the personal-ID registry knows `country`, directly or as a
/// territory of a country it knows.
pub uninterp spec fn personal_id_country_known(country: Seq<char>) -> bool;

/// Relies on personal_id::Registry::generate: `None` exactly for a country it
/// does not know.
#[verifier::external_body]
pub(crate) fn draw_personal_id(
    country: &str,
    gender: GenderChoice,
    year: Option<u16>,
    rng: &mut rand::rngs::ThreadRng,
) -> (r: Option<String>)
    ensures
        r is Some <==> personal_id_country_known(country@),
{
    let gender = match gender {
        GenderChoice::Any => None,
        GenderChoice::Male => Some(personal_id::date::Gender::Male),
        GenderChoice::Female => Some(personal_id::date::Gender::Female),
    };
    let opts = personal_id::GenOptions { gender, year };
    personal_id::Registry::new().generate(country, &opts, rng)
}

/// The personal-ID check of `country` on `code`: `None` for a country the
/// registry does not know.
pub uninterp spec fn personal_id_checks(country: Seq<char>, code: Seq<char>) -> Option<bool>;

/// Relies on personal_id::Registry::validate: `None` exactly for a country it
/// does not know. The national checks test length and characters first, but
/// read the text as bytes, so only ASCII is handed to them.
#[verifier::external_body]
pub(crate) fn personal_id_valid(country: &str, code: &str) -> (r: Option<bool>)
    requires
        code.is_ascii(),
    ensures
        r == personal_id_checks(country@, code@),
        r is Some <==> personal_id_country_known(country@),
{
    personal_id::Registry::new().validate(country, code)
}

/// The fields that a personal ID decodes to.
#[derive(Clone, Debug, PartialEq, Eq)]
pub struct ParsedId {
    pub code: String,
    pub gender: Option<String>,
    pub dob: Option<String>,
    pub valid: bool,
}

pub open spec fn opt_view(s: Option<String>) -> Option<Seq<char>> {
    match s {
        Some(t) => Some(t@),
        None => None,
    }
}

/// The decoded fields as plain values.
pub open spec fn parsed_view(p: ParsedId) -> (Seq<char>, Option<Seq<char>>, Option<Seq<char>>, bool) {
    (p.code@, opt_view(p.gender), opt_view(p.dob), p.valid)
}

/// What `Registry::parse` decodes from `code` for `country`.
pub uninterp spec fn parsed_id_of(country: Seq<char>, code: Seq<char>) -> (Seq<char>, Option<Seq<char>>, Option<Seq<char>>, bool);

/// Relies on personal_id::Registry::parse. The national parsers index the
/// code without checking its length, so only codes that the country's check
/// accepted are handed to it; for a known country it always decodes.
#[verifier::external_body]
pub(crate) fn parse_personal_id(country: &str, code: &str) -> (r: Option<ParsedId>)
    requires
        code.is_ascii(),
        personal_id_checks(country@, code@) == Some(true),
    ensures
        r is Some,
        r matches Some(p) ==> parsed_view(p) == parsed_id_of(country@, code@),
{
    personal_id::Registry::new().parse(country, code).map(
        |p| ParsedId { code: p.code, gender: p.gender, dob: p.dob, valid: p.valid },
    )
}

/// Whether the bank-account registry has a format for `country`.
pub uninterp spec fn bank_country_known(country: Seq<char>) -> bool;

/// A generated bank account.
pub struct BankDraw {
    pub account: String,
    pub bank_code: Option<String>,
    /// The whole account number as the registry's check reads it.
    pub raw: String,
    pub valid: bool,
}

/// Relies on bank_account::Registry::generate with default options: `None`
/// exactly for a country without a format.
#[verifier::external_body]
pub(crate) fn draw_bank_account(country: &str, rng: &mut rand::rngs::ThreadRng) -> (r: Option<BankDraw>)
    ensures
        r is Some <==> bank_country_known(country@),
{
    let opts = bank_account::GenOptions::default();
    bank_account::Registry::new().generate(country, &opts, rng).map(
        |a| BankDraw { account: a.account_number, bank_code: a.bank_code, raw: a.raw, valid: a.valid },
    )
}

/// The bank account check of `country` on `s`: `None` for a country
/// without a format.
pub uninterp spec fn bank_account_checks(country: Seq<char>, s: Seq<char>) -> Option<bool>;

/// Relies on bank_account::Registry::validate: `None` exactly for a country
/// without a format.
#[verifier::external_body]
pub(crate) fn bank_account_valid(country: &str, raw: &str) -> (r: Option<bool>)
    requires
        raw.is_ascii(),
    ensures
        r == bank_account_checks(country@, raw@),
        r is Some <==> bank_country_known(country@),
{
    bank_account::Registry::new().validate(country, raw)
}

/// Whether the card registry knows the brand `b`: its lower-case form is
/// one of the six brands the generator builds.
pub open spec fn card_brand_known(b: Seq<char>) -> bool {
    let l = crate::selector::lower_of(b);
    l == "visa"@ || l == "mastercard"@ || l == "amex"@ || l == "discover"@ || l == "jcb"@ || l
        == "diners"@
}

/// A generated card number.
pub struct CardDraw {
    pub number: String,
    pub brand: String,
    pub valid: bool,
}

/// Relies on credit_card::Registry::generate: with no brand it picks one and
/// succeeds; with a brand it fails exactly for one whose lower-case form is
/// not a brand it builds. The current year (last two digits) is handed in,
/// since the crate's own clock lookup is unavailable in the browser; the
/// expiry is drawn up to five years later as a `u16`.
#[verifier::external_body]
pub(crate) fn draw_card(brand: Option<&str>, year: u16, rng: &mut rand::rngs::ThreadRng) -> (r: Option<CardDraw>)
    requires
        year <= 65530,
    ensures
        r is Some <==> (brand matches Some(b) ==> card_brand_known(b@)),
{
    let opts = credit_card::GenOptions { brand: brand.map(|b| b.to_string()), current_year: Some(year) };
    credit_card::Registry::new().generate(&opts, rng).map(
        |c| CardDraw { number: c.number, brand: c.brand, valid: c.valid },
    )
}

/// Whether the Luhn card check accepts `s`.
pub uninterp spec fn card_checks(s: Seq<char>) -> bool;

/// Relies on credit_card::Registry::validate, the Luhn check on the digits.
#[verifier::external_body]
pub(crate) fn card_valid(number: &str) -> (r: bool)
    ensures
        r == card_checks(number@),
{
    credit_card::Registry::new().validate(number)
}

/// A generated SWIFT/BIC code.
pub struct SwiftDraw {
    pub code: String,
    pub bank: String,
    pub country: String,
    pub location: String,
    pub valid: bool,
}

/// Relies on swift::Registry::generate: it always yields a code.
#[verifier::external_body]
pub(crate) fn draw_swift(country: Option<&str>, rng: &mut rand::rngs::ThreadRng) -> (r: SwiftDraw) {
    let opts = swift::GenOptions { country: country.map(|c| c.to_string()) };
    let s = swift::Registry::new().generate(&opts, rng);
    SwiftDraw { code: s.code, bank: s.bank, country: s.country, location: s.location, valid: s.valid }
}

pub open spec fn ascii_alnum(c: char) -> bool {
    ('0' <= c && c <= '9') || ('A' <= c && c <= 'Z') || ('a' <= c && c <= 'z')
}

pub open spec fn ascii_letter(c: char) -> bool {
    ('A' <= c && c <= 'Z') || ('a' <= c && c <= 'z')
}

/// The SWIFT/BIC format check: 8 or 11 ASCII letters and digits, with
/// letters in the country positions 4 and 5.
pub open spec fn swift_format(s: Seq<char>) -> bool {
    &&& s.len() == 8 || s.len() == 11
    &&& forall|i: int| 0 <= i < s.len() ==> ascii_alnum(#[trigger] s[i])
    &&& ascii_letter(s[4]) && ascii_letter(s[5])
}

/// Relies on swift::Registry::validate: byte length 8 or 11, ASCII letters
/// and digits only, letters at positions 4 and 5.
#[verifier::external_body]
pub(crate) fn swift_valid(code: &str) -> (r: bool)
    ensures
        r == swift_format(code@),
{
    swift::Registry::new().validate(code)
}

/// Whether the company-ID registry knows `c` (compared in capitals).
pub uninterp spec fn company_country_known(c: Seq<char>) -> bool;

/// A generated company ID.
pub struct CompanyDraw {
    pub code: String,
    pub name: String,
    pub country_code: String,
    pub valid: bool,
}

/// Relies on company_id::Registry::generate: for a given country it fails
/// exactly when the country is unknown.
#[verifier::external_body]
pub(crate) fn draw_company_id(country: Option<&str>, rng: &mut rand::rngs::ThreadRng) -> (r: Option<CompanyDraw>)
    ensures
        country matches Some(c) ==> (r is Some <==> company_country_known(c@)),
{
    let opts = company_id::GenOptions { country: country.map(|c| c.to_string()) };
    company_id::Registry::new().generate(&opts, rng).map(
        |c| CompanyDraw { code: c.code, name: c.name, country_code: c.country_code, valid: c.valid },
    )
}

/// Whether the company ID check of `country` accepts `s`.
pub uninterp spec fn company_id_checks(country: Seq<char>, s: Seq<char>) -> bool;

/// Relies on company_id::Registry::validate for the given country.
#[verifier::external_body]
pub(crate) fn company_id_valid(country: &str, code: &str) -> (r: bool)
    requires
        code.is_ascii(),
    ensures
        r == company_id_checks(country@, code@),
{
    company_id::Registry::new().validate(country, code)
}

/// A generated driver's license, passport or tax ID.
pub struct DocumentDraw {
    pub code: String,
    pub name: String,
    pub country_code: String,
    pub country_name: String,
    /// The state of a driver's license, or the holder type of a tax ID.
    pub detail: Option<String>,
    pub valid: bool,
}

/// Whether the driver's-license registry knows `c` (compared in capitals).
pub uninterp spec fn license_country_known(c: Seq<char>) -> bool;

/// Relies on driver_license::Registry::generate: for a given country it
/// fails exactly when the country is unknown.
#[verifier::external_body]
pub(crate) fn draw_driver_license(
    country: Option<&str>,
    state: Option<&str>,
    rng: &mut rand::rngs::ThreadRng,
) -> (r: Option<DocumentDraw>)
    ensures
        country matches Some(c) ==> (r is Some <==> license_country_known(c@)),
{
    let opts = driver_license::GenOptions {
        country: country.map(|c| c.to_string()),
        state: state.map(|s| s.to_string()),
    };
    driver_license::Registry::new().generate(&opts, rng).map(
        |d| DocumentDraw {
            code: d.code,
            name: d.name,
            country_code: d.country_code,
            country_name: d.country_name,
            detail: d.state,
            valid: d.valid,
        },
    )
}

/// Whether the driver's license check of `country` accepts `s`.
pub uninterp spec fn driver_license_checks(country: Seq<char>, s: Seq<char>) -> bool;

/// Relies on driver_license::Registry::validate for the given country.
#[verifier::external_body]
pub(crate) fn driver_license_valid(country: &str, code: &str) -> (r: bool)
    requires
        code.is_ascii(),
    ensures
        r == driver_license_checks(country@, code@),
{
    driver_license::Registry::new().validate(country, code)
}

/// Whether the passport registry knows `c` (compared in capitals).
pub uninterp spec fn passport_country_known(c: Seq<char>) -> bool;

/// Relies on passport::Registry::generate: for a given country it fails
/// exactly when the country is unknown; a passport has no detail field.
#[verifier::external_body]
pub(crate) fn draw_passport(country: Option<&str>, rng: &mut rand::rngs::ThreadRng) -> (r: Option<DocumentDraw>)
    ensures
        country matches Some(c) ==> (r is Some <==> passport_country_known(c@)),
        r matches Some(d) ==> d.detail is None,
{
    let opts = passport::GenOptions { country: country.map(|c| c.to_string()) };
    passport::Registry::new().generate(&opts, rng).map(
        |p| DocumentDraw {
            code: p.code,
            name: p.name,
            country_code: p.country_code,
            country_name: p.country_name,
            detail: None,
            valid: p.valid,
        },
    )
}

/// Whether the passport check of `country` accepts `s`.
pub uninterp spec fn passport_checks(country: Seq<char>, s: Seq<char>) -> bool;

/// Relies on passport::Registry::validate for the given country.
#[verifier::external_body]
pub(crate) fn passport_valid(country: &str, code: &str) -> (r: bool)
    requires
        code.is_ascii(),
    ensures
        r == passport_checks(country@, code@),
{
    passport::Registry::new().validate(country, code)
}

/// Whether the tax-ID registry knows `c` (compared in capitals).
pub uninterp spec fn tax_country_known(c: Seq<char>) -> bool;

/// Relies on tax_id::Registry::generate: for a given country it fails
/// exactly when the country is unknown.
#[verifier::external_body]
pub(crate) fn draw_tax_id(country: Option<&str>, rng: &mut rand::rngs::ThreadRng) -> (r: Option<DocumentDraw>)
    ensures
        country matches Some(c) ==> (r is Some <==> tax_country_known(c@)),
{
    let opts = tax_id::GenOptions { country: country.map(|c| c.to_string()), holder_type: None };
    tax_id::Registry::new().generate(&opts, rng).map(
        |t| DocumentDraw {
            code: t.code,
            name: t.name,
            country_code: t.country_code,
            country_name: t.country_name,
            detail: t.holder_type,
            valid: t.valid,
        },
    )
}

/// Whether the tax ID check of `country` accepts `s`.
pub uninterp spec fn tax_id_checks(country: Seq<char>, s: Seq<char>) -> bool;

/// Relies on tax_id::Registry::validate for the given country.
#[verifier::external_body]
pub(crate) fn tax_id_valid(country: &str, code: &str) -> (r: bool)
    requires
        code.is_ascii(),
    ensures
        r == tax_id_checks(country@, code@),
{
    tax_id::Registry::new().validate(country, code)
}

/// Whether the VAT registry knows `c` (compared in capitals, `GR` as `EL`).
pub uninterp spec fn vat_country_known(c: Seq<char>) -> bool;

/// A generated VAT number.
pub struct VatDraw {
    pub code: String,
    pub country_code: String,
    pub country_name: String,
    pub valid: bool,
}

/// Relies on vat::Registry::generate: for a given country it fails exactly
/// when the country is unknown.
#[verifier::external_body]
pub(crate) fn draw_vat(country: Option<&str>, rng: &mut rand::rngs::ThreadRng) -> (r: Option<VatDraw>)
    ensures
        country matches Some(c) ==> (r is Some <==> vat_country_known(c@)),
{
    let opts = vat::GenOptions { country: country.map(|c| c.to_string()) };
    vat::Registry::new().generate(&opts, rng).map(
        |v| VatDraw { code: v.code, country_code: v.country_code, country_name: v.country_name, valid: v.valid },
    )
}

/// Whether the VAT check accepts `s`.
pub uninterp spec fn vat_checks(s: Seq<char>) -> bool;

/// Relies on vat::Registry::validate, which reads the country prefix itself.
#[verifier::external_body]
pub(crate) fn vat_valid(code: &str) -> (r: bool)
    requires
        code.is_ascii(),
    ensures
        r == vat_checks(code@),
{
    vat::Registry::new().validate(code)
}

/// A generated LEI code.
pub struct LeiDraw {
    pub code: String,
    pub lou: String,
    pub country_code: String,
    pub valid: bool,
}

/// A country the LEI generator can place in a code: ASCII letters and digits.
pub open spec fn lei_country(c: Seq<char>) -> bool {
    forall|i: int| 0 <= i < c.len() ==> ascii_alnum(#[trigger] c[i])
}

/// Relies on lei::Registry::generate: it always yields a code. The country is
/// copied into the code in capitals and the code is sliced by bytes, and any
/// other character than a digit is read as a letter by subtracting `A`, so
/// only ASCII letters and digits are handed to it.
#[verifier::external_body]
pub(crate) fn draw_lei(country: Option<&str>, rng: &mut rand::rngs::ThreadRng) -> (r: LeiDraw)
    requires
        country matches Some(c) ==> lei_country(c@),
{
    let opts = lei::GenOptions { country: country.map(|c| c.to_string()) };
    let l = lei::Registry::new().generate(&opts, rng);
    LeiDraw { code: l.code, lou: l.lou, country_code: l.country_code, valid: l.valid }
}

/// Whether the LEI check accepts `s`.
pub uninterp spec fn lei_checks(s: Seq<char>) -> bool;

/// Relies on lei::Registry::validate, the ISO 17442 mod-97 check.
#[verifier::external_body]
pub(crate) fn lei_valid(code: &str) -> (r: bool)
    ensures
        r == lei_checks(code@),
{
    lei::Registry::new().validate(code)
}

/// The options as plain values: code, label and description.
pub open spec fn option_views(v: Seq<DomainOption>) -> Seq<(Seq<char>, Seq<char>, Option<Seq<char>>)> {
    v.map_values(|o: DomainOption| (o.code@, o.label@, opt_view(o.description)))
}

/// The country list of the registry named `registry`, in its order.
pub uninterp spec fn registry_options_of(registry: Seq<char>) -> Seq<(Seq<char>, Seq<char>, Option<Seq<char>>)>;

/// Relies on personal_id::Registry::list_countries: code, country name and
/// the name of the national ID.
#[verifier::external_body]
pub(crate) fn personal_id_countries() -> (r: Vec<DomainOption>)
    ensures
        option_views(r@) == registry_options_of("id"@),
{
    personal_id::Registry::new().list_countries().into_iter().map(
        |(c, n, d)| DomainOption { code: c.to_string(), label: n.to_string(), description: Some(d.to_string()) },
    ).collect()
}

/// Relies on bank_account::Registry::list_countries: code, country name and
/// the name of the account format.
#[verifier::external_body]
pub(crate) fn bank_account_countries() -> (r: Vec<DomainOption>)
    ensures
        option_views(r@) == registry_options_of("bank"@),
{
    bank_account::Registry::new().list_countries().into_iter().map(
        |(c, n, d, _)| DomainOption { code: c.to_string(), label: n.to_string(), description: Some(d.to_string()) },
    ).collect()
}

/// The brands that the card registry lists, in its order.
pub open spec fn card_brand_names() -> Seq<Seq<char>> {
    seq!["Visa"@, "Mastercard"@, "Amex"@, "Discover"@, "JCB"@, "Diners"@]
}

/// Relies on credit_card::Registry::list_brands: a fixed list of six brands.
#[verifier::external_body]
pub(crate) fn card_brands() -> (r: Vec<String>)
    ensures
        crate::text::views(r@) == card_brand_names(),
{
    credit_card::Registry::new().list_brands().into_iter().map(|b| b.to_string()).collect()
}

/// Relies on company_id::Registry::list_countries: code, country name and
/// the name of the company register number.
#[verifier::external_body]
pub(crate) fn company_id_countries() -> (r: Vec<DomainOption>)
    ensures
        option_views(r@) == registry_options_of("company"@),
{
    company_id::Registry::new().list_countries().into_iter().map(
        |(c, n, d)| DomainOption { code: c.to_string(), label: n.to_string(), description: Some(d.to_string()) },
    ).collect()
}

/// Relies on driver_license::Registry::list_countries: code, country name and
/// the name of the license.
#[verifier::external_body]
pub(crate) fn driver_license_countries() -> (r: Vec<DomainOption>)
    ensures
        option_views(r@) == registry_options_of("driver_license"@),
{
    driver_license::Registry::new().list_countries().into_iter().map(
        |(c, n, d)| DomainOption { code: c.to_string(), label: n.to_string(), description: Some(d.to_string()) },
    ).collect()
}

/// Relies on passport::Registry::list_countries: code, country name and the
/// name of the passport.
#[verifier::external_body]
pub(crate) fn passport_countries() -> (r: Vec<DomainOption>)
    ensures
        option_views(r@) == registry_options_of("passport"@),
{
    passport::Registry::new().list_countries().into_iter().map(
        |(c, n, d)| DomainOption { code: c.to_string(), label: n.to_string(), description: Some(d.to_string()) },
    ).collect()
}

/// Relies on tax_id::Registry::list_countries: code, country name and the
/// name of the tax number.
#[verifier::external_body]
pub(crate) fn tax_id_countries() -> (r: Vec<DomainOption>)
    ensures
        option_views(r@) == registry_options_of("tax_id"@),
{
    tax_id::Registry::new().list_countries().into_iter().map(
        |(c, n, d)| DomainOption { code: c.to_string(), label: n.to_string(), description: Some(d.to_string()) },
    ).collect()
}

/// Relies on vat::Registry::list_countries: code and country name.
#[verifier::external_body]
pub(crate) fn vat_countries() -> (r: Vec<DomainOption>)
    ensures
        option_views(r@) == registry_options_of("vat"@),
{
    vat::Registry::new().list_countries().iter().map(
        |(c, n)| DomainOption { code: c.to_string(), label: n.to_string(), description: None },
    ).collect()
}

} // verus!
