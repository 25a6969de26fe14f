//! The options each domain offers in its selector.
use vstd::prelude::*;
use vstd::string::StrSliceExecFns;
use crate::text::views;
use crate::domain::{tag_of, Domain};
use crate::registry::{
    card_brand_names, option_views, registry_codes_of, registry_options_of,
    bank_account_countries, card_brands, company_id_countries, driver_license_countries,
    iban_country_codes, passport_countries, personal_id_countries, tax_id_countries,
    vat_countries,
};
use crate::selector::{country_label_of, country_option, DomainOption};

verus! {

broadcast use vstd::seq_lib::group_to_multiset_ensures;

/// Lexicographic order of texts, character by character.
pub open spec fn text_le(a: Seq<char>, b: Seq<char>) -> bool
    decreases a.len(),
{
    if a.len() == 0 {
        true
    } else if b.len() == 0 {
        false
    } else if a[0] != b[0] {
        a[0] < b[0]
    } else {
        text_le(a.skip(1), b.skip(1))
    }
}

proof fn lemma_text_le_total(a: Seq<char>, b: Seq<char>)
    ensures
        text_le(a, b) || text_le(b, a),
    decreases a.len(),
{
    if a.len() > 0 && b.len() > 0 && a[0] == b[0] {
        lemma_text_le_total(a.skip(1), b.skip(1));
    }
}

proof fn lemma_text_le_trans(a: Seq<char>, b: Seq<char>, c: Seq<char>)
    requires
        text_le(a, b),
        text_le(b, c),
    ensures
        text_le(a, c),
    decreases a.len(),
{
    if a.len() > 0 && b.len() > 0 && c.len() > 0 && a[0] == b[0] && b[0] == c[0] {
        lemma_text_le_trans(a.skip(1), b.skip(1), c.skip(1));
    }
}

proof fn lemma_text_le_skip(a: Seq<char>, b: Seq<char>, i: int)
    requires
        0 <= i <= a.len(),
        i <= b.len(),
        a.take(i) == b.take(i),
    ensures
        text_le(a, b) == text_le(a.skip(i), b.skip(i)),
    decreases i,
{
    if i > 0 {
        assert(a[0] == a.take(i)[0]);
        assert(b[0] == b.take(i)[0]);
        assert(a[0] == b[0]);
        assert(text_le(a, b) == text_le(a.skip(1), b.skip(1)));
        assert(a.skip(1).take(i - 1) =~= a.take(i).skip(1));
        assert(b.skip(1).take(i - 1) =~= b.take(i).skip(1));
        lemma_text_le_skip(a.skip(1), b.skip(1), i - 1);
        assert(a.skip(1).skip(i - 1) =~= a.skip(i));
        assert(b.skip(1).skip(i - 1) =~= b.skip(i));
    } else {
        assert(a.skip(0) =~= a);
        assert(b.skip(0) =~= b);
    }
}

/// Whether `a` sorts before or with `b`.
pub fn text_le_exec(a: &str, b: &str) -> (r: bool)
    ensures
        r == text_le(a@, b@),
{
    let n = a.unicode_len();
    let m = b.unicode_len();
    let mut i: usize = 0;
    while i < n && i < m
        invariant
            n == a@.len(),
            m == b@.len(),
            i <= n,
            i <= m,
            a@.take(i as int) == b@.take(i as int),
        decreases n - i,
    {
        let x = a.get_char(i);
        let y = b.get_char(i);
        if x != y {
            proof {
                lemma_text_le_skip(a@, b@, i as int);
                assert(a@.skip(i as int)[0] == x);
                assert(b@.skip(i as int)[0] == y);
            }
            return x < y;
        }
        assert(a@.take(i + 1) =~= a@.take(i as int).push(x));
        assert(b@.take(i + 1) =~= b@.take(i as int).push(y));
        i = i + 1;
    }
    proof {
        lemma_text_le_skip(a@, b@, i as int);
    }
    i == n
}

/// Options in order of their labels.
pub open spec fn sorted_by_label(s: Seq<DomainOption>) -> bool {
    forall|i: int, j: int| 0 <= i < j < s.len() ==> text_le(#[trigger] s[i].label@, #[trigger] s[j].label@)
}

/// The options in order of their labels, by insertion.
pub fn sort_by_label(v: Vec<DomainOption>) -> (r: Vec<DomainOption>)
    ensures
        sorted_by_label(r@),
        r@.to_multiset() == v@.to_multiset(),
        option_views(r@).to_multiset() == option_views(v@).to_multiset(),
{
    let mut out: Vec<DomainOption> = Vec::new();
    let mut i: usize = 0;
    while i < v.len()
        invariant
            i <= v@.len(),
            sorted_by_label(out@),
            out@.to_multiset() == v@.take(i as int).to_multiset(),
            option_views(out@).to_multiset() == option_views(v@.take(i as int)).to_multiset(),
        decreases v@.len() - i,
    {
        let x = v[i].copy();
        let mut p: usize = 0;
        while p < out.len() && text_le_exec(out[p].label.as_str(), x.label.as_str())
            invariant
                p <= out@.len(),
                forall|k: int| 0 <= k < p ==> text_le(#[trigger] out@[k].label@, x.label@),
            decreases out@.len() - p,
        {
            p = p + 1;
        }
        proof {
            if p < out@.len() {
                lemma_text_le_total(out@[p as int].label@, x.label@);
                assert forall|k: int| p <= k < out@.len() implies text_le(x.label@, #[trigger] out@[k].label@) by {
                    if k > p {
                        lemma_text_le_trans(x.label@, out@[p as int].label@, out@[k].label@);
                    }
                }
            }
        }
        let ghost before = out@;
        out.insert(p, x);
        proof {
            vstd::seq_lib::to_multiset_insert(before, p as int, x);
            assert(v@.take(i as int + 1) =~= v@.take(i as int).push(v@[i as int]));
            assert(option_views(out@) =~= option_views(before).insert(p as int, option_views(seq![x])[0]));
            vstd::seq_lib::to_multiset_insert(option_views(before), p as int, option_views(seq![x])[0]);
            assert(option_views(v@.take(i as int + 1)) =~= option_views(v@.take(i as int)).push(option_views(seq![x])[0]));
            assert forall|a: int, b: int| 0 <= a < b < out@.len() implies text_le(#[trigger] out@[a].label@, #[trigger] out@[b].label@) by {
                if a < p && b > p {
                    lemma_text_le_trans(out@[a].label@, x.label@, out@[b].label@);
                }
            }
        }
        i = i + 1;
    }
    assert(v@.take(v@.len() as int) =~= v@);
    out
}

/// The options that stand for country codes: code, the country's name, no
/// description.
pub open spec fn country_option_views(codes: Seq<Seq<char>>) -> Seq<(Seq<char>, Seq<char>, Option<Seq<char>>)> {
    codes.map_values(|c: Seq<char>| (c, country_label_of(c), None::<Seq<char>>))
}

/// The options that stand for card brands: the brand as code and label.
pub open spec fn brand_option_views(brands: Seq<Seq<char>>) -> Seq<(Seq<char>, Seq<char>, Option<Seq<char>>)> {
    brands.map_values(|b: Seq<char>| (b, b, None::<Seq<char>>))
}

/// Options for each code of `codes`, labelled with the country's name.
pub fn country_options(codes: &Vec<String>) -> (r: Vec<DomainOption>)
    ensures
        r@.len() == codes@.len(),
        forall|k: int| 0 <= k < codes@.len() ==> {
            &&& (#[trigger] r@[k]).code@ == codes@[k]@
            &&& r@[k].label@ == country_label_of(codes@[k]@)
            &&& r@[k].description is None
        },
{
    let mut out: Vec<DomainOption> = Vec::new();
    let mut k: usize = 0;
    while k < codes.len()
        invariant
            k <= codes@.len(),
            out@.len() == k,
            forall|j: int| 0 <= j < k ==> {
                &&& (#[trigger] out@[j]).code@ == codes@[j]@
                &&& out@[j].label@ == country_label_of(codes@[j]@)
                &&& out@[j].description is None
            },
        decreases codes@.len() - k,
    {
        out.push(country_option(codes[k].as_str()));
        k = k + 1;
    }
    out
}

/// Options whose code and label are both the brand name.
pub fn brand_options(brands: &Vec<String>) -> (r: Vec<DomainOption>)
    ensures
        r@.len() == brands@.len(),
        forall|k: int| 0 <= k < brands@.len() ==> (#[trigger] r@[k]).code@ == brands@[k]@ && r@[k].label@ == brands@[k]@ && r@[k].description is None,
{
    let mut out: Vec<DomainOption> = Vec::new();
    let mut k: usize = 0;
    while k < brands.len()
        invariant
            k <= brands@.len(),
            out@.len() == k,
            forall|j: int| 0 <= j < k ==> (#[trigger] out@[j]).code@ == brands@[j]@ && out@[j].label@ == brands@[j]@ && out@[j].description is None,
        decreases brands@.len() - k,
    {
        let b = brands[k].clone();
        out.push(DomainOption { code: b.clone(), label: b, description: None });
        k = k + 1;
    }
    out
}

/// The selection a generator starts with.
pub open spec fn default_selection_of(d: Domain, options: Seq<DomainOption>) -> Seq<char> {
    match d {
        Domain::Iban | Domain::Swift => "DE"@,
        Domain::PersonalId | Domain::CompanyId => "EE"@,
        Domain::BankAccount => "US"@,
        Domain::CreditCard => "Visa"@,
        Domain::Lei => Seq::empty(),
        _ => if options.len() > 0 {
            options[0].code@
        } else {
            Seq::empty()
        },
    }
}

/// The country the validator starts with when a domain is chosen, for the
/// country-scoped domains.
pub open spec fn validation_country_of(d: Domain) -> Option<Seq<char>> {
    match d {
        Domain::PersonalId => Some("DE"@),
        Domain::BankAccount => Some("US"@),
        Domain::CompanyId | Domain::DriverLicense | Domain::Passport | Domain::TaxId => Some("EE"@),
        _ => None,
    }
}

impl Domain {
    /// The selection a generator of this domain starts with, given its options.
    pub fn default_selection(&self, options: &Vec<DomainOption>) -> (r: String)
        ensures
            r@ == default_selection_of(*self, options@),
    {
        match self {
            Domain::Iban | Domain::Swift => "DE".to_owned(),
            Domain::PersonalId | Domain::CompanyId => "EE".to_owned(),
            Domain::BankAccount => "US".to_owned(),
            Domain::CreditCard => "Visa".to_owned(),
            Domain::Lei => String::new(),
            _ => if options.len() > 0 {
                options[0].code.clone()
            } else {
                String::new()
            },
        }
    }

    /// The country the validator starts with for this domain, if it is
    /// country-scoped.
    pub fn validation_country(&self) -> (r: Option<&'static str>)
        ensures
            r matches Some(c) ==> validation_country_of(*self) == Some(c@),
            r is None ==> validation_country_of(*self) is None,
    {
        match self {
            Domain::PersonalId => Some("DE"),
            Domain::BankAccount => Some("US"),
            Domain::CompanyId | Domain::DriverLicense | Domain::Passport | Domain::TaxId => Some("EE"),
            _ => None,
        }
    }

    /// The options of this domain's selector. IBAN countries come sorted by
    /// name; the LEI country is typed freely and has no list.
    pub fn options(&self) -> (r: Vec<DomainOption>)
        ensures
            *self == Domain::Iban ==> sorted_by_label(r@) && option_views(r@).to_multiset()
                == country_option_views(registry_codes_of("iban"@)).to_multiset(),
            *self == Domain::Swift ==> option_views(r@) == country_option_views(registry_codes_of("iban"@)),
            *self == Domain::CreditCard ==> option_views(r@) == brand_option_views(card_brand_names()),
            *self == Domain::Lei ==> r@.len() == 0,
            *self != Domain::Iban && *self != Domain::Swift && *self != Domain::CreditCard && *self
                != Domain::Lei ==> option_views(r@) == registry_options_of(tag_of(*self)),
    {
        match self {
            Domain::Iban => {
                let codes = iban_country_codes();
                let opts = country_options(&codes);
                assert forall|k: int| 0 <= k < opts@.len() implies #[trigger] option_views(opts@)[k]
                    == country_option_views(views(codes@))[k] by {
                    assert(views(codes@)[k] == codes@[k]@);
                    assert(opts@[k].description is None);
                }
                assert(option_views(opts@) =~= country_option_views(views(codes@)));
                sort_by_label(opts)
            },
            Domain::Swift => {
                let codes = iban_country_codes();
                let opts = country_options(&codes);
                assert forall|k: int| 0 <= k < opts@.len() implies #[trigger] option_views(opts@)[k]
                    == country_option_views(views(codes@))[k] by {
                    assert(views(codes@)[k] == codes@[k]@);
                    assert(opts@[k].description is None);
                }
                assert(option_views(opts@) =~= country_option_views(views(codes@)));
                opts
            },
            Domain::PersonalId => personal_id_countries(),
            Domain::BankAccount => bank_account_countries(),
            Domain::CreditCard => {
                let brands = card_brands();
                let opts = brand_options(&brands);
                assert(option_views(opts@) =~= brand_option_views(views(brands@)));
                opts
            },
            Domain::CompanyId => company_id_countries(),
            Domain::DriverLicense => driver_license_countries(),
            Domain::Passport => passport_countries(),
            Domain::TaxId => tax_id_countries(),
            Domain::Vat => vat_countries(),
            Domain::Lei => Vec::new(),
        }
    }
}

} // verus!
