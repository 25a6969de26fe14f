//! Turning a generation request into a row snapshot and a history entry.
use vstd::prelude::*;
use vstd::string::{StrSliceExecFns, StringExecFns};
use crate::domain::{category_of, keys_of, Domain};
use crate::export::ResultRow;
use crate::history::{log_json, prepended, HistoryEntry, HistoryLog, Persist, HISTORY_LIMIT};
use crate::registry::{
    bank_country_known, capitals, card_brand_known, company_country_known, draw_bank_account,
    draw_card, draw_company_id, draw_driver_license, draw_iban, draw_lei, draw_passport,
    draw_personal_id, draw_swift, draw_tax_id, draw_vat, grouped4, iban_checkable,
    ascii_alnum, iban_country_known, iban_grouped, iban_symbol, lei_country, license_country_known, opt_view,
    parse_personal_id, passport_country_known, personal_id_country_known, tax_country_known,
    vat_country_known, BankDraw, CardDraw, CompanyDraw, DocumentDraw, GenderChoice, LeiDraw,
    ParsedId, SwiftDraw, VatDraw,
};
use crate::validator::{accepted_by, accepts_value, text_or_empty};
use crate::text::{decimal, decimal_string, views};

verus! {

/// Fewest values a request asks for.
pub const MIN_COUNT: u32 = 1;

/// Most values a request asks for.
pub const MAX_COUNT: u32 = 100;

/// What the user asked to generate.
pub struct Request {
    pub domain: Domain,
    /// The chosen country code or card brand; `None` lets the registry pick.
    pub selector: Option<String>,
    /// How many values to attempt.
    pub count: u32,
    /// Personal IDs only: the gender to encode.
    pub gender: GenderChoice,
    /// Personal IDs only: the birth year to encode.
    pub year: Option<u16>,
    /// Driver's licenses only: the issuing state.
    pub state: Option<String>,
    /// Cards only: the current year, of which the last two digits start the
    /// range of expiry years.
    pub current_year: u16,
}

/// A count brought into the accepted range.
pub open spec fn clamped(v: u32) -> u32 {
    if v < MIN_COUNT {
        MIN_COUNT
    } else if v > MAX_COUNT {
        MAX_COUNT
    } else {
        v
    }
}

/// Brings a typed count into `MIN_COUNT..=MAX_COUNT`; no count is refused.
pub fn clamp_count(v: u32) -> (r: u32)
    ensures
        r == clamped(v),
        MIN_COUNT <= r <= MAX_COUNT,
{
    if v < MIN_COUNT {
        MIN_COUNT
    } else if v > MAX_COUNT {
        MAX_COUNT
    } else {
        v
    }
}

/// The primary value of a row: its first field.
pub open spec fn primary(row: ResultRow) -> Seq<char> {
    match row.values@[0] {
        Some(s) => s@,
        None => Seq::empty(),
    }
}

/// The primary values of `rows`, in order.
pub open spec fn primaries(rows: Seq<ResultRow>) -> Seq<Seq<char>> {
    rows.map_values(|r: ResultRow| primary(r))
}

/// The fields of a row as plain values.
pub open spec fn vals(row: ResultRow) -> Seq<Option<Seq<char>>> {
    row.values@.map_values(|v: Option<String>| opt_view(v))
}

/// What holds of an IBAN row: its second field is the code in blocks of
/// four, the code holds only digits and capitals, passes the check, and
/// starts with the requested country when that is given in capitals.
pub open spec fn iban_row_ok(req: Request, row: ResultRow) -> bool {
    &&& row.values@[1] matches Some(f) && f@ == grouped4(primary(row))
    &&& forall|i: int| 0 <= i < primary(row).len() ==> iban_symbol(#[trigger] primary(row)[i])
    &&& row.valid
    &&& match req.selector {
        Some(c) => capitals(c@) ==> c@.len() <= primary(row).len() && primary(row).take(
            c@.len() as int,
        ) == c@,
        None => true,
    }
}

/// What holds of every row that the pipeline produces for `req`: the
/// domain's fields, a primary value, and a flag that is the domain's check
/// recomputed on the text the row keeps as checked (for the requested
/// country, when one was given). That text is the primary value, or for a
/// bank account its full number, as the registry's check reads it.
pub open spec fn row_ok(req: Request, row: ResultRow) -> bool {
    &&& row.values@.len() == keys_of(req.domain).len()
    &&& row.values@[0] is Some
    &&& req.domain != Domain::BankAccount ==> row.checked@ == primary(row)
    &&& exists|cc: Seq<char>| {
        &&& req.selector matches Some(s) ==> cc == s@
        &&& row.valid == accepted_by(req.domain, cc, row.checked@)
    }
    &&& req.domain == Domain::Iban ==> iban_row_ok(req, row)
}

/// The flag of every IBAN row the pipeline produces is the IBAN check
/// recomputed on the row's primary value.
pub proof fn lemma_iban_flags_recomputed(req: Request, rows: Seq<ResultRow>)
    requires
        req.domain == Domain::Iban,
        forall|k: int| 0 <= k < rows.len() ==> row_ok(req, #[trigger] rows[k]),
    ensures
        forall|k: int| 0 <= k < rows.len() ==> (#[trigger] rows[k]).valid == accepted_by(
            Domain::Iban,
            Seq::empty(),
            primary(rows[k]),
        ),
{
    assert forall|k: int| 0 <= k < rows.len() implies (#[trigger] rows[k]).valid == accepted_by(
        Domain::Iban,
        Seq::empty(),
        primary(rows[k]),
    ) by {
        assert(row_ok(req, rows[k]));
    }
}

/// How every attempt of a request ends, where the registry's answer depends
/// on the request alone: `Some(true)` when each attempt yields a row,
/// `Some(false)` when none does, `None` when the registry picks a country at
/// random and the outcome is not known in advance.
pub open spec fn outcome(req: Request) -> Option<bool> {
    match (req.domain, req.selector) {
        (Domain::Iban, None) => Some(true),
        (Domain::Iban, Some(c)) => Some(iban_country_known(c@)),
        (Domain::PersonalId, None) => Some(false),
        (Domain::PersonalId, Some(c)) => Some(personal_id_country_known(c@)),
        (Domain::BankAccount, None) => Some(false),
        (Domain::BankAccount, Some(c)) => Some(bank_country_known(c@)),
        (Domain::CreditCard, None) => Some(true),
        (Domain::CreditCard, Some(b)) => Some(card_brand_known(b@)),
        (Domain::Swift, _) => Some(true),
        (Domain::CompanyId, Some(c)) => Some(company_country_known(c@)),
        (Domain::DriverLicense, Some(c)) => Some(license_country_known(c@)),
        (Domain::Passport, Some(c)) => Some(passport_country_known(c@)),
        (Domain::TaxId, Some(c)) => Some(tax_country_known(c@)),
        (Domain::Vat, Some(c)) => Some(vat_country_known(c@)),
        (Domain::Lei, None) => Some(true),
        (Domain::Lei, Some(c)) => Some(lei_country(c@)),
        (_, None) => None,
    }
}

/// The label under which a batch is logged: the selector, or `Random`.
pub open spec fn label_of(selector: Option<String>) -> Seq<char> {
    match selector {
        Some(s) => s@,
        None => "Random"@,
    }
}

fn as_text(s: &Option<String>) -> (r: Option<&str>)
    ensures
        r is None <==> s is None,
        r matches Some(t) ==> s matches Some(u) && t@ == u@,
{
    match s {
        Some(t) => Some(t.as_str()),
        None => None,
    }
}

fn or_empty(s: Option<String>) -> (r: String)
    ensures
        r@ == text_or_empty(s),
{
    match s {
        Some(t) => t,
        None => String::new(),
    }
}

/// `code — name`, as a document row shows its country.
fn country_text(code: &String, name: &String) -> (r: String)
    ensures
        r@ == code@ + " \u{2014} "@ + name@,
{
    let mut out = code.clone();
    out.append(" \u{2014} ");
    out.append(name.as_str());
    out
}

/// The row of an IBAN: the code and its spaced form.
pub fn iban_row(code: String, valid: bool) -> (r: ResultRow)
    ensures
        vals(r) == seq![Some(code@), Some(grouped4(code@))],
        r.valid == valid,
        r.checked@ == code@,
{
    let formatted = iban_grouped(code.as_str());
    let checked = code.clone();
    let r = ResultRow { values: vec![Some(code), Some(formatted)], valid, checked };
    assert(vals(r) =~= seq![Some(r.values@[0]->0@), Some(grouped4(r.values@[0]->0@))]);
    r
}

/// The row of a personal ID: the code, and the gender and birth date that
/// its decoding gave (empty when it was not decoded).
pub fn personal_row(code: String, parsed: Option<ParsedId>, valid: bool) -> (r: ResultRow)
    ensures
        vals(r) == match parsed {
            Some(p) => seq![Some(code@), Some(text_or_empty(p.gender)), Some(text_or_empty(p.dob))],
            None => seq![Some(code@), Some(Seq::<char>::empty()), Some(Seq::<char>::empty())],
        },
        r.valid == valid,
        r.checked@ == code@,
{
    let (gender, dob) = match parsed {
        Some(p) => (or_empty(p.gender), or_empty(p.dob)),
        None => (String::new(), String::new()),
    };
    let checked = code.clone();
    let r = ResultRow { values: vec![Some(code), Some(gender), Some(dob)], valid, checked };
    assert(vals(r) =~= seq![Some(r.values@[0]->0@), Some(r.values@[1]->0@), Some(r.values@[2]->0@)]);
    r
}

/// The row of a bank account: the account and its routing code (empty when
/// there is none).
pub fn bank_row(d: BankDraw, valid: bool) -> (r: ResultRow)
    ensures
        vals(r) == seq![Some(d.account@), Some(text_or_empty(d.bank_code))],
        r.valid == valid,
        r.checked@ == d.raw@,
{
    let ghost g = d;
    let r = ResultRow { values: vec![Some(d.account), Some(or_empty(d.bank_code))], valid, checked: d.raw };
    assert(vals(r) =~= seq![Some(g.account@), Some(text_or_empty(g.bank_code))]);
    r
}

/// The row of a card: its number and brand.
pub fn card_row(d: CardDraw, valid: bool) -> (r: ResultRow)
    ensures
        vals(r) == seq![Some(d.number@), Some(d.brand@)],
        r.valid == valid,
        r.checked@ == d.number@,
{
    let ghost g = d;
    let checked = d.number.clone();
    let r = ResultRow { values: vec![Some(d.number), Some(d.brand)], valid, checked };
    assert(vals(r) =~= seq![Some(g.number@), Some(g.brand@)]);
    r
}

/// The row of a SWIFT/BIC code: code, bank, country and location.
pub fn swift_row(d: SwiftDraw, valid: bool) -> (r: ResultRow)
    ensures
        vals(r) == seq![Some(d.code@), Some(d.bank@), Some(d.country@), Some(d.location@)],
        r.valid == valid,
        r.checked@ == d.code@,
{
    let ghost g = d;
    let checked = d.code.clone();
    let r = ResultRow {
        values: vec![Some(d.code), Some(d.bank), Some(d.country), Some(d.location)],
        valid,
        checked,
    };
    assert(vals(r) =~= seq![Some(g.code@), Some(g.bank@), Some(g.country@), Some(g.location@)]);
    r
}

/// The row of a company ID: its code and the register's name.
pub fn company_row(d: CompanyDraw, valid: bool) -> (r: ResultRow)
    ensures
        vals(r) == seq![Some(d.code@), Some(d.name@)],
        r.valid == valid,
        r.checked@ == d.code@,
{
    let ghost g = d;
    let checked = d.code.clone();
    let r = ResultRow { values: vec![Some(d.code), Some(d.name)], valid, checked };
    assert(vals(r) =~= seq![Some(g.code@), Some(g.name@)]);
    r
}

/// The row of a driver's license, passport or tax ID: code, document name,
/// `code — name` of the country, and the detail field when the domain has one.
pub fn document_row(d: DocumentDraw, with_detail: bool, valid: bool) -> (r: ResultRow)
    ensures
        vals(r) == if with_detail {
            seq![
                Some(d.code@),
                Some(d.name@),
                Some(d.country_code@ + " \u{2014} "@ + d.country_name@),
                opt_view(d.detail),
            ]
        } else {
            seq![Some(d.code@), Some(d.name@), Some(d.country_code@ + " \u{2014} "@ + d.country_name@)]
        },
        r.valid == valid,
        r.checked@ == d.code@,
{
    let ghost g = d;
    let country = country_text(&d.country_code, &d.country_name);
    let checked = d.code.clone();
    let mut values = vec![Some(d.code), Some(d.name), Some(country)];
    if with_detail {
        values.push(d.detail);
    }
    let r = ResultRow { values, valid, checked };
    if with_detail {
        assert(vals(r) =~= seq![
            Some(g.code@),
            Some(g.name@),
            Some(g.country_code@ + " \u{2014} "@ + g.country_name@),
            opt_view(g.detail),
        ]);
    } else {
        assert(vals(r) =~= seq![
            Some(g.code@),
            Some(g.name@),
            Some(g.country_code@ + " \u{2014} "@ + g.country_name@),
        ]);
    }
    r
}

/// The row of a VAT number: the number, country code and country name.
pub fn vat_row(d: VatDraw, valid: bool) -> (r: ResultRow)
    ensures
        vals(r) == seq![Some(d.code@), Some(d.country_code@), Some(d.country_name@)],
        r.valid == valid,
        r.checked@ == d.code@,
{
    let ghost g = d;
    let checked = d.code.clone();
    let r = ResultRow { values: vec![Some(d.code), Some(d.country_code), Some(d.country_name)], valid, checked };
    assert(vals(r) =~= seq![Some(g.code@), Some(g.country_code@), Some(g.country_name@)]);
    r
}

/// The row of an LEI code: the code, its issuing unit and country code.
pub fn lei_row(d: LeiDraw, valid: bool) -> (r: ResultRow)
    ensures
        vals(r) == seq![Some(d.code@), Some(d.lou@), Some(d.country_code@)],
        r.valid == valid,
        r.checked@ == d.code@,
{
    let ghost g = d;
    let checked = d.code.clone();
    let r = ResultRow { values: vec![Some(d.code), Some(d.lou), Some(d.country_code)], valid, checked };
    assert(vals(r) =~= seq![Some(g.code@), Some(g.lou@), Some(g.country_code@)]);
    r
}

/// Whether `s` holds only ASCII letters and digits.
fn is_lei_country(s: &str) -> (r: bool)
    ensures
        r == lei_country(s@),
{
    let n = s.unicode_len();
    let mut i: usize = 0;
    while i < n
        invariant
            n == s@.len(),
            i <= n,
            forall|j: int| 0 <= j < i ==> ascii_alnum(#[trigger] s@[j]),
        decreases n - i,
    {
        let c = s.get_char(i);
        if !(('0' <= c && c <= '9') || ('A' <= c && c <= 'Z') || ('a' <= c && c <= 'z')) {
            return false;
        }
        i = i + 1;
    }
    true
}

/// The country to check a generated value against: the requested one, or the
/// one the registry picked.
fn check_country<'a>(selector: Option<&'a str>, picked: &'a String) -> (r: &'a str)
    ensures
        selector matches Some(s) ==> r@ == s@,
{
    match selector {
        Some(s) => s,
        None => picked.as_str(),
    }
}

proof fn lemma_vals(row: ResultRow)
    ensures
        vals(row).len() == row.values@.len(),
        forall|i: int| 0 <= i < row.values@.len() ==> #[trigger] vals(row)[i] == opt_view(row.values@[i]),
        row.values@.len() > 0 ==> (vals(row)[0] matches Some(p) ==> primary(row) == p),
        row.values@.len() > 0 ==> (vals(row)[0] is Some <==> row.values@[0] is Some),
{
}

proof fn lemma_ok(req: Request, row: ResultRow, cc: Seq<char>)
    requires
        row.values@.len() == keys_of(req.domain).len(),
        row.values@[0] is Some,
        req.selector matches Some(s) ==> cc == s@,
        req.domain != Domain::BankAccount ==> row.checked@ == primary(row),
        row.valid == accepted_by(req.domain, cc, row.checked@),
        req.domain == Domain::Iban ==> iban_row_ok(req, row),
    ensures
        row_ok(req, row),
{
}

/// One attempt: asks the domain's registry for a value and lays it out as a
/// row, with the flag recomputed by the domain's check. `None` is an attempt
/// that the registry could not satisfy.
fn draw_row(req: &Request, rng: &mut rand::rngs::ThreadRng) -> (r: Option<ResultRow>)
    ensures
        r matches Some(row) ==> row_ok(*req, row),
        outcome(*req) == Some(true) ==> r is Some,
        outcome(*req) == Some(false) ==> r is None,
{
    let selector = as_text(&req.selector);
    let empty = String::new();
    match req.domain {
        Domain::Iban => match draw_iban(selector, rng) {
            Some(code) => {
                let ghost c = code@;
                let valid = accepts_value(Domain::Iban, "", code.as_str());
                let row = iban_row(code, valid);
                proof {
                    lemma_vals(row);
                    assert(vals(row)[0] == Some(c));
                    assert(primary(row) == c);
                    assert(vals(row)[1] == Some(grouped4(c)));
                    assert(iban_checkable(c));
                    let cc = label_of(req.selector);
                    lemma_ok(*req, row, cc);
                }
                Some(row)
            },
            None => None,
        },
        Domain::PersonalId => {
            let country = match selector {
                Some(c) => c,
                None => return None,
            };
            let code = match draw_personal_id(country, req.gender, req.year, rng) {
                Some(c) => c,
                None => return None,
            };
            let ghost c = code@;
            let valid = accepts_value(Domain::PersonalId, country, code.as_str());
            let parsed = if valid {
                parse_personal_id(country, code.as_str())
            } else {
                None
            };
            let row = personal_row(code, parsed, valid);
            proof {
                lemma_vals(row);
                assert(vals(row)[0] == Some(c));
                lemma_ok(*req, row, country@);
            }
            Some(row)
        },
        Domain::BankAccount => {
            let country = match selector {
                Some(c) => c,
                None => return None,
            };
            match draw_bank_account(country, rng) {
                Some(a) => {
                    let ghost raw = a.raw@;
                    let valid = accepts_value(Domain::BankAccount, country, a.raw.as_str());
                    let row = bank_row(a, valid);
                    proof {
                        lemma_vals(row);
                        assert(vals(row)[0] is Some);
                        lemma_ok(*req, row, country@);
                    }
                    Some(row)
                },
                None => None,
            }
        },
        Domain::CreditCard => match draw_card(selector, req.current_year % 100, rng) {
            Some(c) => {
                let ghost n = c.number@;
                let valid = accepts_value(Domain::CreditCard, "", c.number.as_str());
                let row = card_row(c, valid);
                proof {
                    lemma_vals(row);
                    assert(vals(row)[0] == Some(n));
                    let cc = label_of(req.selector);
                    lemma_ok(*req, row, cc);
                }
                Some(row)
            },
            None => None,
        },
        Domain::Swift => {
            let s = draw_swift(selector, rng);
            let ghost n = s.code@;
            let valid = accepts_value(Domain::Swift, "", s.code.as_str());
            let row = swift_row(s, valid);
            proof {
                lemma_vals(row);
                assert(vals(row)[0] == Some(n));
                let cc = label_of(req.selector);
                lemma_ok(*req, row, cc);
            }
            Some(row)
        },
        Domain::CompanyId => match draw_company_id(selector, rng) {
            Some(c) => {
                let ghost n = c.code@;
                let country = check_country(selector, &c.country_code);
                let ghost cc = country@;
                let valid = accepts_value(Domain::CompanyId, country, c.code.as_str());
                let row = company_row(c, valid);
                proof {
                    lemma_vals(row);
                    assert(vals(row)[0] == Some(n));
                    lemma_ok(*req, row, cc);
                }
                Some(row)
            },
            None => None,
        },
        Domain::DriverLicense | Domain::Passport | Domain::TaxId => {
            let drawn = match req.domain {
                Domain::DriverLicense => draw_driver_license(selector, as_text(&req.state), rng),
                Domain::Passport => draw_passport(selector, rng),
                _ => draw_tax_id(selector, rng),
            };
            match drawn {
                Some(d) => {
                    let ghost n = d.code@;
                    let country = check_country(selector, &d.country_code);
                    let ghost cc = country@;
                    let valid = accepts_value(req.domain, country, d.code.as_str());
                    let row = document_row(d, req.domain != Domain::Passport, valid);
                    proof {
                        lemma_vals(row);
                        assert(vals(row)[0] == Some(n));
                        lemma_ok(*req, row, cc);
                    }
                    Some(row)
                },
                None => None,
            }
        },
        Domain::Vat => match draw_vat(selector, rng) {
            Some(v) => {
                let ghost n = v.code@;
                let country = check_country(selector, &v.country_code);
                let ghost cc = country@;
                let valid = accepts_value(Domain::Vat, country, v.code.as_str());
                let row = vat_row(v, valid);
                proof {
                    lemma_vals(row);
                    assert(vals(row)[0] == Some(n));
                    lemma_ok(*req, row, cc);
                }
                Some(row)
            },
            None => None,
        },
        Domain::Lei => {
            if let Some(c) = selector {
                if !is_lei_country(c) {
                    return None;
                }
            }
            let l = draw_lei(selector, rng);
            let ghost n = l.code@;
            let valid = accepts_value(Domain::Lei, "", l.code.as_str());
            let row = lei_row(l, valid);
            proof {
                lemma_vals(row);
                assert(vals(row)[0] == Some(n));
                let cc = label_of(req.selector);
                lemma_ok(*req, row, cc);
            }
            Some(row)
        },
    }
}

/// The rows of the attempts that produced one, in the order of the attempts.
pub open spec fn produced(attempts: Seq<Option<ResultRow>>) -> Seq<ResultRow>
    decreases attempts.len(),
{
    if attempts.len() == 0 {
        Seq::empty()
    } else {
        match attempts.last() {
            Some(row) => produced(attempts.drop_last()).push(row),
            None => produced(attempts.drop_last()),
        }
    }
}

proof fn lemma_produced_len(attempts: Seq<Option<ResultRow>>)
    ensures
        produced(attempts).len() <= attempts.len(),
        (forall|k: int| 0 <= k < attempts.len() ==> (#[trigger] attempts[k]) is Some) ==> produced(attempts).len()
            == attempts.len(),
    decreases attempts.len(),
{
    if attempts.len() > 0 {
        lemma_produced_len(attempts.drop_last());
    }
}

proof fn lemma_produced_members(attempts: Seq<Option<ResultRow>>, d: Request)
    requires
        forall|k: int| 0 <= k < attempts.len() ==> (#[trigger] attempts[k] matches Some(row) ==> row_ok(d, row)),
    ensures
        forall|k: int| 0 <= k < produced(attempts).len() ==> row_ok(d, #[trigger] produced(attempts)[k]),
    decreases attempts.len(),
{
    if attempts.len() > 0 {
        let init = attempts.drop_last();
        assert forall|k: int| 0 <= k < init.len() implies (#[trigger] init[k] matches Some(row) ==> row_ok(d, row)) by {
            assert(init[k] == attempts[k]);
        }
        lemma_produced_members(init, d);
        assert(attempts.last() == attempts[attempts.len() - 1]);
        match attempts.last() {
            Some(row) => {
                let p = produced(attempts);
                assert(p == produced(init).push(row));
                assert(row_ok(d, row));
                assert forall|k: int| 0 <= k < p.len() implies row_ok(d, #[trigger] p[k]) by {
                    if k < p.len() - 1 {
                        assert(p[k] == produced(init)[k]);
                    }
                }
            },
            None => {},
        }
    }
}

/// Keeps the rows of the attempts that produced one, in order; failed
/// attempts are dropped, not replaced.
pub fn keep_produced(attempts: Vec<Option<ResultRow>>) -> (rows: Vec<ResultRow>)
    ensures
        rows@ == produced(attempts@),
{
    let ghost all = attempts@;
    let mut rest = attempts;
    let ghost mut taken: Seq<Option<ResultRow>> = Seq::empty();
    let mut rows: Vec<ResultRow> = Vec::new();
    assert(taken =~= all.take(0));
    assert(rest@ =~= all.skip(0));
    while rest.len() > 0
        invariant
            all.len() == taken.len() + rest@.len(),
            taken =~= all.take(taken.len() as int),
            rest@ =~= all.skip(taken.len() as int),
            rows@ == produced(taken),
        decreases rest@.len(),
    {
        let ghost i = taken.len() as int;
        let a = rest.remove(0);
        let ghost ga = a;
        assert(ga == all[i]);
        assert(rest@ =~= all.skip(i + 1));
        match a {
            Some(row) => {
                rows.push(row);
            },
            None => {},
        }
        proof {
            taken = taken.push(ga);
            assert(taken =~= all.take(i + 1));
            assert(taken.drop_last() =~= all.take(i));
        }
    }
    assert(taken =~= all);
    rows
}

/// One attempt per requested value, each ending as `outcome` says where
/// that is known.
pub open spec fn attempts_for(req: Request, attempts: Seq<Option<ResultRow>>) -> bool {
    &&& attempts.len() == req.count
    &&& forall|k: int| 0 <= k < attempts.len() ==> (#[trigger] attempts[k] matches Some(row) ==> row_ok(req, row))
    &&& forall|k: int| 0 <= k < attempts.len() ==> (outcome(req) matches Some(b) ==> ((#[trigger] attempts[k]) is Some <==> b))
}

proof fn lemma_produced_none(attempts: Seq<Option<ResultRow>>)
    requires
        forall|k: int| 0 <= k < attempts.len() ==> (#[trigger] attempts[k]) is None,
    ensures
        produced(attempts).len() == 0,
    decreases attempts.len(),
{
    if attempts.len() > 0 {
        lemma_produced_none(attempts.drop_last());
    }
}

/// Attempts `req.count` values, once each, and keeps those that the registry
/// produced, in the order they came. Failed attempts are skipped, not retried.
/// Where the registry's answer is known from the request, either every
/// attempt yields a row or none does.
pub fn generate_rows(req: &Request, rng: &mut rand::rngs::ThreadRng) -> (rows: Vec<ResultRow>)
    ensures
        exists|attempts: Seq<Option<ResultRow>>| attempts_for(*req, attempts) && rows@ == produced(attempts),
        rows@.len() <= req.count,
        forall|k: int| 0 <= k < rows@.len() ==> row_ok(*req, #[trigger] rows@[k]),
        outcome(*req) == Some(true) ==> rows@.len() == req.count,
        outcome(*req) == Some(false) ==> rows@.len() == 0,
{
    let mut attempts: Vec<Option<ResultRow>> = Vec::new();
    let mut i: u32 = 0;
    while i < req.count
        invariant
            i <= req.count,
            attempts@.len() == i,
            forall|k: int| 0 <= k < attempts@.len() ==> (#[trigger] attempts@[k] matches Some(row) ==> row_ok(*req, row)),
            forall|k: int| 0 <= k < attempts@.len() ==> (outcome(*req) matches Some(b) ==> ((#[trigger] attempts@[k]) is Some <==> b)),
        decreases req.count - i,
    {
        let a = draw_row(req, rng);
        attempts.push(a);
        i = i + 1;
    }
    let ghost all = attempts@;
    proof {
        lemma_produced_len(all);
        lemma_produced_members(all, *req);
        if outcome(*req) == Some(false) {
            lemma_produced_none(all);
        }
    }
    keep_produced(attempts)
}

/// What a generator tab shows: the latest row snapshot and which row was
/// last copied.
#[derive(Clone, Debug)]
pub struct TabState {
    pub rows: Vec<ResultRow>,
    pub copied: Option<usize>,
}

impl TabState {
    pub fn new() -> (r: TabState)
        ensures
            r.rows@.len() == 0,
            r.copied is None,
    {
        TabState { rows: Vec::new(), copied: None }
    }

    /// A batch finished: its rows replace the snapshot and the copy marker
    /// is cleared.
    pub fn show_batch(&mut self, rows: Vec<ResultRow>)
        ensures
            final(self).rows@ == rows@,
            final(self).copied is None,
    {
        self.rows = rows;
        self.copied = None;
    }

    /// Row `i` was copied; an index past the snapshot changes nothing.
    pub fn mark_copied(&mut self, i: usize)
        ensures
            final(self).rows@ == old(self).rows@,
            final(self).copied == if i < old(self).rows@.len() {
                Some(i)
            } else {
                old(self).copied
            },
    {
        if i < self.rows.len() {
            self.copied = Some(i);
        }
    }
}

/// The primary values of `rows`.
pub fn primary_values(rows: &Vec<ResultRow>) -> (r: Vec<String>)
    requires
        forall|k: int| 0 <= k < rows@.len() ==> (#[trigger] rows@[k]).values@.len() >= 1,
    ensures
        views(r@) == primaries(rows@),
{
    let mut out: Vec<String> = Vec::new();
    let mut k: usize = 0;
    while k < rows.len()
        invariant
            k <= rows@.len(),
            forall|j: int| 0 <= j < rows@.len() ==> (#[trigger] rows@[j]).values@.len() >= 1,
            views(out@) =~= primaries(rows@).take(k as int),
        decreases rows@.len() - k,
    {
        let v = match &rows[k].values[0] {
            Some(s) => s.clone(),
            None => String::new(),
        };
        proof {
            crate::text::lemma_views_push(out@, v);
            assert(primaries(rows@).take(k as int + 1) =~= primaries(rows@).take(k as int).push(
                primaries(rows@)[k as int],
            ));
        }
        out.push(v);
        k = k + 1;
    }
    assert(primaries(rows@).take(rows@.len() as int) =~= primaries(rows@));
    out
}

/// The entry that logs a batch: the domain's category, the selector or
/// `Random`, the requested count (not the produced one), and the primary value
/// of every produced row.
pub open spec fn logs_batch(e: HistoryEntry, req: Request, rows: Seq<ResultRow>, timestamp: u64) -> bool {
    &&& e.category@ == category_of(req.domain)
    &&& e.country@ == label_of(req.selector)
    &&& e.count == req.count
    &&& views(e.results@) == primaries(rows)
    &&& e.timestamp == timestamp
}

/// The history entry for a finished batch, under the given id.
pub fn history_entry(req: &Request, rows: &Vec<ResultRow>, id: String, timestamp: u64) -> (e: HistoryEntry)
    requires
        forall|k: int| 0 <= k < rows@.len() ==> (#[trigger] rows@[k]).values@.len() >= 1,
    ensures
        logs_batch(e, *req, rows@, timestamp),
        e.id == id,
{
    let country = match &req.selector {
        Some(s) => s.clone(),
        None => "Random".to_owned(),
    };
    HistoryEntry {
        id,
        timestamp,
        category: req.domain.category().to_owned(),
        country,
        count: req.count,
        results: primary_values(rows),
    }
}

/// A fresh entry id: a random number in decimal.
pub fn fresh_entry_id() -> (r: String)
    ensures
        exists|n: u64| r@ == decimal(n as nat),
{
    let n: u64 = rand::random::<u64>();
    decimal_string(n)
}

/// Serves one request: generates the rows, logs the batch in front of `log`,
/// and returns the rows with the write that persists the new log.
pub fn run_request(
    req: &Request,
    timestamp: u64,
    log: &mut HistoryLog,
    rng: &mut rand::rngs::ThreadRng,
) -> (r: (Vec<ResultRow>, Persist))
    ensures
        r.0@.len() <= req.count,
        forall|k: int| 0 <= k < r.0@.len() ==> row_ok(*req, #[trigger] r.0@[k]),
        outcome(*req) == Some(true) ==> r.0@.len() == req.count,
        outcome(*req) == Some(false) ==> r.0@.len() == 0,
        final(log).entries@.len() <= HISTORY_LIMIT,
        final(log).entries@ == prepended(old(log).entries@, final(log).entries@[0]),
        logs_batch(final(log).entries@[0], *req, r.0@, timestamp),
        r.1 matches Persist::Write(t) && t@ == log_json(final(log).entries@),
{
    let rows = generate_rows(req, rng);
    let id = fresh_entry_id();
    let entry = history_entry(req, &rows, id, timestamp);
    log.append(entry);
    let op = log.persist();
    (rows, op)
}

} // verus!
