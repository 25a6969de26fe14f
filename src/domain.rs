//! The identifier families and how their rows are laid out.
use vstd::prelude::*;
use crate::export::Schema;
use crate::text::{same_text, views};

verus! {

/// One identifier family.
#[derive(Clone, Copy, PartialEq, Eq, Structural, Debug)]
pub enum Domain {
    Iban,
    PersonalId,
    BankAccount,
    CreditCard,
    Swift,
    CompanyId,
    DriverLicense,
    Passport,
    TaxId,
    Vat,
    Lei,
}

/// The name under which batches of a domain are logged.
pub open spec fn category_of(d: Domain) -> Seq<char> {
    match d {
        Domain::Iban => "IBAN"@,
        Domain::PersonalId => "Personal ID"@,
        Domain::BankAccount => "Bank Account"@,
        Domain::CreditCard => "Credit Card"@,
        Domain::Swift => "SWIFT/BIC"@,
        Domain::CompanyId => "Company ID"@,
        Domain::DriverLicense => "Driver's License"@,
        Domain::Passport => "Passport"@,
        Domain::TaxId => "Tax ID"@,
        Domain::Vat => "VAT"@,
        Domain::Lei => "LEI"@,
    }
}

/// The short tag that names a domain in a validation request.
pub open spec fn tag_of(d: Domain) -> Seq<char> {
    match d {
        Domain::Iban => "iban"@,
        Domain::PersonalId => "id"@,
        Domain::BankAccount => "bank"@,
        Domain::CreditCard => "card"@,
        Domain::Swift => "swift"@,
        Domain::CompanyId => "company"@,
        Domain::DriverLicense => "driver_license"@,
        Domain::Passport => "passport"@,
        Domain::TaxId => "tax_id"@,
        Domain::Vat => "vat"@,
        Domain::Lei => "lei"@,
    }
}

/// Whether validity depends on a chosen country.
pub open spec fn country_scoped(d: Domain) -> bool {
    match d {
        Domain::PersonalId | Domain::BankAccount | Domain::CompanyId | Domain::DriverLicense
        | Domain::Passport | Domain::TaxId => true,
        _ => false,
    }
}

/// The JSON field names of a domain's rows, before the validity flag.
pub open spec fn keys_of(d: Domain) -> Seq<Seq<char>> {
    match d {
        Domain::Iban => seq!["raw"@, "formatted"@],
        Domain::PersonalId => seq!["code"@, "gender"@, "dob"@],
        Domain::BankAccount => seq!["account"@, "routing"@],
        Domain::CreditCard => seq!["number"@, "brand"@],
        Domain::Swift => seq!["code"@, "bank"@, "country"@, "location"@],
        Domain::CompanyId => seq!["code"@, "name"@],
        Domain::DriverLicense => seq!["code"@, "name"@, "country"@, "state"@],
        Domain::Passport => seq!["code"@, "name"@, "country"@],
        Domain::TaxId => seq!["code"@, "name"@, "country"@, "holder_type"@],
        Domain::Vat => seq!["code"@, "country_code"@, "country_name"@],
        Domain::Lei => seq!["code"@, "lou"@, "country_code"@],
    }
}

/// File name stem and SQL table of a domain's exports.
pub open spec fn stem_of(d: Domain) -> Seq<char> {
    match d {
        Domain::Iban => "ibans"@,
        Domain::PersonalId => "personal_ids"@,
        Domain::BankAccount => "bank_accounts"@,
        Domain::CreditCard => "credit_cards"@,
        Domain::Swift => "swift_codes"@,
        Domain::CompanyId => "company_ids"@,
        Domain::DriverLicense => "driver_licenses"@,
        Domain::Passport => "passports"@,
        Domain::TaxId => "tax_ids"@,
        Domain::Vat => "vat_numbers"@,
        Domain::Lei => "lei_codes"@,
    }
}

/// The CSV header line of a domain.
pub open spec fn csv_header_of(d: Domain) -> Seq<char> {
    match d {
        Domain::Iban => "IBAN,Valid"@,
        Domain::PersonalId => "Code,Gender,Date of Birth,Valid"@,
        Domain::BankAccount => "Account,Routing,Valid"@,
        Domain::CreditCard => "Number,Brand,Valid"@,
        Domain::Swift => "SWIFT/BIC,Bank,Country,Location,Valid"@,
        Domain::CompanyId => "Code,Name,Valid"@,
        Domain::DriverLicense => "Code,Name,Country,State,Valid"@,
        Domain::Passport => "Code,Name,Country,Valid"@,
        Domain::TaxId => "Code,Name,Type,Country,Valid"@,
        Domain::Vat => "Code,Country Code,Country Name,Valid"@,
        Domain::Lei => "Code,LOU,Country,Valid"@,
    }
}

/// The values that the CSV shows. An IBAN shows its spaced form when `spaced`.
pub open spec fn csv_cols_of(d: Domain, spaced: bool) -> Seq<usize> {
    match d {
        Domain::Iban => if spaced { seq![1usize] } else { seq![0usize] },
        Domain::TaxId => seq![0usize, 1, 3, 2],
        _ => Seq::new(keys_of(d).len(), |i: int| i as usize),
    }
}

/// The SQL column names of a domain, before the validity column.
pub open spec fn sql_names_of(d: Domain) -> Seq<Seq<char>> {
    match d {
        Domain::Iban => seq!["iban"@],
        Domain::TaxId => seq!["code"@, "name"@, "holder_type"@, "country"@],
        _ => keys_of(d),
    }
}

/// The values that fill the SQL columns.
pub open spec fn sql_cols_of(d: Domain) -> Seq<usize> {
    match d {
        Domain::Iban => seq![0usize],
        Domain::TaxId => seq![0usize, 1, 3, 2],
        _ => Seq::new(keys_of(d).len(), |i: int| i as usize),
    }
}

fn owned(parts: &[&str]) -> (r: Vec<String>)
    ensures
        r@.len() == parts@.len(),
        forall|i: int| 0 <= i < parts@.len() ==> #[trigger] r@[i]@ == parts@[i]@,
{
    let mut out: Vec<String> = Vec::new();
    let mut i: usize = 0;
    while i < parts.len()
        invariant
            i <= parts@.len(),
            out@.len() == i,
            forall|j: int| 0 <= j < i ==> #[trigger] out@[j]@ == parts@[j]@,
        decreases parts@.len() - i,
    {
        out.push(parts[i].to_owned());
        i = i + 1;
    }
    out
}

fn counting(n: usize) -> (r: Vec<usize>)
    ensures
        r@ == Seq::new(n as nat, |i: int| i as usize),
{
    let mut out: Vec<usize> = Vec::new();
    let mut i: usize = 0;
    while i < n
        invariant
            i <= n,
            out@ == Seq::new(i as nat, |j: int| j as usize),
        decreases n - i,
    {
        out.push(i);
        i = i + 1;
        assert(out@ =~= Seq::new(i as nat, |j: int| j as usize));
    }
    out
}

impl Domain {
    /// The domain that a validation tag names, if any.
    pub fn from_tag(tag: &str) -> (r: Option<Domain>)
        ensures
            r matches Some(d) ==> tag_of(d) == tag@,
            r is None ==> forall|d: Domain| tag_of(d) != tag@,
    {
        let all = [
            Domain::Iban,
            Domain::PersonalId,
            Domain::BankAccount,
            Domain::CreditCard,
            Domain::Swift,
            Domain::CompanyId,
            Domain::DriverLicense,
            Domain::Passport,
            Domain::TaxId,
            Domain::Vat,
            Domain::Lei,
        ];
        let mut i: usize = 0;
        while i < 11
            invariant
                i <= 11,
                all@ == seq![
                    Domain::Iban,
                    Domain::PersonalId,
                    Domain::BankAccount,
                    Domain::CreditCard,
                    Domain::Swift,
                    Domain::CompanyId,
                    Domain::DriverLicense,
                    Domain::Passport,
                    Domain::TaxId,
                    Domain::Vat,
                    Domain::Lei,
                ],
                forall|j: int| 0 <= j < i ==> tag_of(#[trigger] all@[j]) != tag@,
            decreases 11 - i,
        {
            let d = all[i];
            if same_text(d.tag(), tag) {
                return Some(d);
            }
            i = i + 1;
        }
        proof {
            assert forall|d: Domain| tag_of(d) != tag@ by {
                match d {
                    Domain::Iban => assert(tag_of(all@[0]) != tag@),
                    Domain::PersonalId => assert(tag_of(all@[1]) != tag@),
                    Domain::BankAccount => assert(tag_of(all@[2]) != tag@),
                    Domain::CreditCard => assert(tag_of(all@[3]) != tag@),
                    Domain::Swift => assert(tag_of(all@[4]) != tag@),
                    Domain::CompanyId => assert(tag_of(all@[5]) != tag@),
                    Domain::DriverLicense => assert(tag_of(all@[6]) != tag@),
                    Domain::Passport => assert(tag_of(all@[7]) != tag@),
                    Domain::TaxId => assert(tag_of(all@[8]) != tag@),
                    Domain::Vat => assert(tag_of(all@[9]) != tag@),
                    Domain::Lei => assert(tag_of(all@[10]) != tag@),
                }
            }
        }
        None
    }

    pub fn tag(&self) -> (r: &'static str)
        ensures
            r@ == tag_of(*self),
    {
        match self {
            Domain::Iban => "iban",
            Domain::PersonalId => "id",
            Domain::BankAccount => "bank",
            Domain::CreditCard => "card",
            Domain::Swift => "swift",
            Domain::CompanyId => "company",
            Domain::DriverLicense => "driver_license",
            Domain::Passport => "passport",
            Domain::TaxId => "tax_id",
            Domain::Vat => "vat",
            Domain::Lei => "lei",
        }
    }

    pub fn category(&self) -> (r: &'static str)
        ensures
            r@ == category_of(*self),
    {
        match self {
            Domain::Iban => "IBAN",
            Domain::PersonalId => "Personal ID",
            Domain::BankAccount => "Bank Account",
            Domain::CreditCard => "Credit Card",
            Domain::Swift => "SWIFT/BIC",
            Domain::CompanyId => "Company ID",
            Domain::DriverLicense => "Driver's License",
            Domain::Passport => "Passport",
            Domain::TaxId => "Tax ID",
            Domain::Vat => "VAT",
            Domain::Lei => "LEI",
        }
    }

    /// Whether validating this domain needs a country.
    pub fn is_country_scoped(&self) -> (r: bool)
        ensures
            r == country_scoped(*self),
    {
        match self {
            Domain::PersonalId | Domain::BankAccount | Domain::CompanyId | Domain::DriverLicense
            | Domain::Passport | Domain::TaxId => true,
            _ => false,
        }
    }

    /// How this domain's rows are laid out in the exports.
    pub fn schema(&self, spaced: bool) -> (r: Schema)
        ensures
            r.wf(),
            r.stem@ == stem_of(*self),
            views(r.keys@) == keys_of(*self),
            r.csv_header@ == csv_header_of(*self),
            r.csv_cols@ == csv_cols_of(*self, spaced),
            views(r.sql_names@) == sql_names_of(*self),
            r.sql_cols@ == sql_cols_of(*self),
    {
        let keys = self.key_list();
        let n = keys.len();
        let (stem, header) = match self {
            Domain::Iban => ("ibans", "IBAN,Valid"),
            Domain::PersonalId => ("personal_ids", "Code,Gender,Date of Birth,Valid"),
            Domain::BankAccount => ("bank_accounts", "Account,Routing,Valid"),
            Domain::CreditCard => ("credit_cards", "Number,Brand,Valid"),
            Domain::Swift => ("swift_codes", "SWIFT/BIC,Bank,Country,Location,Valid"),
            Domain::CompanyId => ("company_ids", "Code,Name,Valid"),
            Domain::DriverLicense => ("driver_licenses", "Code,Name,Country,State,Valid"),
            Domain::Passport => ("passports", "Code,Name,Country,Valid"),
            Domain::TaxId => ("tax_ids", "Code,Name,Type,Country,Valid"),
            Domain::Vat => ("vat_numbers", "Code,Country Code,Country Name,Valid"),
            Domain::Lei => ("lei_codes", "Code,LOU,Country,Valid"),
        };
        let (csv_cols, sql_names, sql_cols) = match self {
            Domain::Iban => {
                let shown: usize = if spaced { 1 } else { 0 };
                (vec![shown], owned(&["iban"]), vec![0usize])
            },
            Domain::TaxId => (
                vec![0usize, 1, 3, 2],
                owned(&["code", "name", "holder_type", "country"]),
                vec![0usize, 1, 3, 2],
            ),
            _ => (counting(n), self.key_list(), counting(n)),
        };
        proof {
            assert(views(sql_names@) =~= sql_names_of(*self));
            assert(csv_cols@ =~= csv_cols_of(*self, spaced));
            assert(sql_cols@ =~= sql_cols_of(*self));
            assert(keys@.len() == keys_of(*self).len());
        }
        Schema {
            stem: stem.to_owned(),
            keys,
            csv_header: header.to_owned(),
            csv_cols,
            sql_names,
            sql_cols,
        }
    }

    fn key_list(&self) -> (r: Vec<String>)
        ensures
            views(r@) == keys_of(*self),
    {
        let v = match self {
            Domain::Iban => owned(&["raw", "formatted"]),
            Domain::PersonalId => owned(&["code", "gender", "dob"]),
            Domain::BankAccount => owned(&["account", "routing"]),
            Domain::CreditCard => owned(&["number", "brand"]),
            Domain::Swift => owned(&["code", "bank", "country", "location"]),
            Domain::CompanyId => owned(&["code", "name"]),
            Domain::DriverLicense => owned(&["code", "name", "country", "state"]),
            Domain::Passport => owned(&["code", "name", "country"]),
            Domain::TaxId => owned(&["code", "name", "country", "holder_type"]),
            Domain::Vat => owned(&["code", "country_code", "country_name"]),
            Domain::Lei => owned(&["code", "lou", "country_code"]),
        };
        assert(views(v@) =~= keys_of(*self));
        v
    }
}

} // verus!
