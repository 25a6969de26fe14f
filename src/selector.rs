//! The searchable option selector shared by every domain: a fixed option
//! list, a free-text query, and a panel that opens and closes.
use vstd::prelude::*;
use vstd::string::{StrSliceExecFns, StringExecFns};
use crate::registry::country_name_of;
use crate::text::same_text;

verus! {

/// A selectable country or brand.
#[derive(Clone, Debug, PartialEq, Eq)]
pub struct DomainOption {
    pub code: String,
    pub label: String,
    pub description: Option<String>,
}

/// The lower-case form of `s`, as std writes it.
pub uninterp spec fn lower_of(s: Seq<char>) -> Seq<char>;

/// Relies on str::to_lowercase: the result depends on the characters alone,
/// and an empty string stays empty.
#[verifier::external_body]
pub(crate) fn lowercase(s: &str) -> (r: String)
    ensures
        r@ == lower_of(s@),
        s@.len() == 0 ==> r@.len() == 0,
{
    s.to_lowercase()
}

/// Whether `needle` occurs in `hay` as a contiguous run.
pub open spec fn occurs_in(needle: Seq<char>, hay: Seq<char>) -> bool {
    exists|i: int| 0 <= i && i + needle.len() <= hay.len() && #[trigger] hay.subrange(i, i + needle.len()) == needle
}

/// Whether `needle` occurs in `hay`.
pub fn contains_text(hay: &str, needle: &str) -> (r: bool)
    ensures
        r == occurs_in(needle@, hay@),
{
    let n = hay.unicode_len();
    let m = needle.unicode_len();
    if m > n {
        assert forall|i: int| 0 <= i && i + needle@.len() <= hay@.len() implies #[trigger] hay@.subrange(i, i + needle@.len()) != needle@ by {}
        return false;
    }
    let mut i: usize = 0;
    while i <= n - m
        invariant
            n == hay@.len(),
            m == needle@.len(),
            m <= n,
            i <= n - m + 1,
            forall|k: int| 0 <= k < i ==> #[trigger] hay@.subrange(k, k + m) != needle@,
        decreases n - i,
    {
        let mut j: usize = 0;
        let mut same = true;
        while j < m
            invariant
                n == hay@.len(),
                m == needle@.len(),
                i + m <= n,
                j <= m,
                same == forall|t: int| 0 <= t < j ==> hay@[i + t] == needle@[t],
            decreases m - j,
        {
            if hay.get_char(i + j) != needle.get_char(j) {
                same = false;
            }
            j = j + 1;
        }
        if same {
            assert(hay@.subrange(i as int, i + m) =~= needle@);
            return true;
        }
        assert(hay@.subrange(i as int, i + m) != needle@) by {
            let t = choose|t: int| 0 <= t < m && hay@[i + t] != needle@[t];
            assert(hay@.subrange(i as int, i + m)[t] == hay@[i + t]);
        }
        i = i + 1;
    }
    assert forall|k: int| 0 <= k && k + needle@.len() <= hay@.len() implies #[trigger] hay@.subrange(k, k + needle@.len()) != needle@ by {
        assert(k < i);
    }
    false
}

/// Whether an option answers the lower-cased query `q`: in its code or its
/// label, ignoring case.
pub open spec fn answers(o: DomainOption, q: Seq<char>) -> bool {
    occurs_in(q, lower_of(o.code@)) || occurs_in(q, lower_of(o.label@))
}

/// The options that answer `q`, in the order given.
pub open spec fn answering(opts: Seq<DomainOption>, q: Seq<char>) -> Seq<DomainOption>
    decreases opts.len(),
{
    if opts.len() == 0 {
        opts
    } else if answers(opts.last(), q) {
        answering(opts.drop_last(), q).push(opts.last())
    } else {
        answering(opts.drop_last(), q)
    }
}

/// What the panel lists for the typed query `query`: every option for an
/// empty query, else those that answer it.
pub open spec fn filtered(opts: Seq<DomainOption>, query: Seq<char>) -> Seq<DomainOption> {
    let q = lower_of(query);
    if q.len() == 0 {
        opts
    } else {
        answering(opts, q)
    }
}

proof fn lemma_answering_idempotent(opts: Seq<DomainOption>, q: Seq<char>)
    ensures
        answering(answering(opts, q), q) == answering(opts, q),
    decreases opts.len(),
{
    if opts.len() > 0 {
        lemma_answering_idempotent(opts.drop_last(), q);
        if answers(opts.last(), q) {
            let a = answering(opts.drop_last(), q).push(opts.last());
            assert(a.drop_last() =~= answering(opts.drop_last(), q));
        }
    }
}

/// Filtering is idempotent: filtering the result again with the same query
/// lists the same options.
pub proof fn lemma_filter_idempotent(opts: Seq<DomainOption>, query: Seq<char>)
    ensures
        filtered(filtered(opts, query), query) == filtered(opts, query),
{
    lemma_answering_idempotent(opts, lower_of(query));
}

impl DomainOption {
    pub fn copy(&self) -> (r: DomainOption)
        ensures
            r == *self,
    {
        let description = match &self.description {
            Some(d) => Some(d.clone()),
            None => None,
        };
        DomainOption { code: self.code.clone(), label: self.label.clone(), description }
    }
}

/// Whether `o` answers the lower-cased query `q`.
pub fn answers_query(o: &DomainOption, q: &str) -> (r: bool)
    ensures
        r == answers(*o, q@),
{
    let code = lowercase(o.code.as_str());
    if contains_text(code.as_str(), q) {
        return true;
    }
    let label = lowercase(o.label.as_str());
    contains_text(label.as_str(), q)
}

/// The options to list for `query`, in the order given.
pub fn filter_options(options: &Vec<DomainOption>, query: &str) -> (r: Vec<DomainOption>)
    ensures
        r@ == filtered(options@, query@),
{
    let q = lowercase(query);
    let mut out: Vec<DomainOption> = Vec::new();
    let mut k: usize = 0;
    while k < options.len()
        invariant
            k <= options@.len(),
            q@ == lower_of(query@),
            q@.len() == 0 ==> out@ == options@.take(k as int),
            q@.len() > 0 ==> out@ == answering(options@.take(k as int), q@),
        decreases options@.len() - k,
    {
        assert(options@.take(k as int + 1).drop_last() =~= options@.take(k as int));
        if q.unicode_len() == 0 || answers_query(&options[k], q.as_str()) {
            out.push(options[k].copy());
        }
        assert(options@.take(k as int + 1) =~= options@.take(k as int).push(options@[k as int]));
        k = k + 1;
    }
    assert(options@.take(options@.len() as int) =~= options@);
    out
}

/// The text that shows an option: `code — label`.
pub open spec fn option_text(o: DomainOption) -> Seq<char> {
    o.code@ + " \u{2014} "@ + o.label@
}

/// Shown in place of a selection that matches no option.
pub open spec fn no_selection_text() -> Seq<char> {
    "Select country..."@
}

/// The index of the first option with code `code`, if any.
pub open spec fn first_with_code(opts: Seq<DomainOption>, code: Seq<char>, k: int) -> bool {
    &&& 0 <= k < opts.len()
    &&& opts[k].code@ == code
    &&& forall|j: int| 0 <= j < k ==> (#[trigger] opts[j]).code@ != code
}

/// Writes `code — label` for an option.
pub fn option_line(o: &DomainOption) -> (r: String)
    ensures
        r@ == option_text(*o),
{
    let mut out = o.code.clone();
    out.append(" \u{2014} ");
    out.append(o.label.as_str());
    out
}

/// The display label of a country code: its name, or `Unknown`.
pub open spec fn country_label_of(code: Seq<char>) -> Seq<char> {
    match country_name_of(code) {
        Some(n) => n,
        None => "Unknown"@,
    }
}

/// The option for a country code, labelled with the country's name.
pub fn country_option(code: &str) -> (r: DomainOption)
    ensures
        r.code@ == code@,
        r.label@ == country_label_of(code@),
        r.description is None,
{
    let label = match crate::registry::lookup_country_name(code) {
        Some(n) => n,
        None => "Unknown".to_owned(),
    };
    DomainOption { code: code.to_owned(), label, description: None }
}

/// The description of the first option with code `code`, or nothing.
pub fn description_of(options: &Vec<DomainOption>, code: &str) -> (r: String)
    ensures
        (exists|k: int| first_with_code(options@, code@, k) && r@ == match options@[k].description {
            Some(d) => d@,
            None => Seq::<char>::empty(),
        }) || ((forall|k: int| 0 <= k < options@.len() ==> (#[trigger] options@[k]).code@ != code@) && r@.len() == 0),
{
    let mut k: usize = 0;
    while k < options.len()
        invariant
            k <= options@.len(),
            forall|j: int| 0 <= j < k ==> (#[trigger] options@[j]).code@ != code@,
        decreases options@.len() - k,
    {
        if same_text(options[k].code.as_str(), code) {
            assert(first_with_code(options@, code@, k as int));
            return match &options[k].description {
                Some(d) => d.clone(),
                None => String::new(),
            };
        }
        k = k + 1;
    }
    String::new()
}

/// The selector's state.
#[derive(Clone, Debug)]
pub struct Selector {
    pub options: Vec<DomainOption>,
    /// The code of the selected option.
    pub selected: String,
    /// The free-text query.
    pub query: String,
    /// Whether the result panel is shown.
    pub open: bool,
    /// Whether a close was scheduled when the input lost focus.
    pub close_pending: bool,
}

impl Selector {
    /// A closed selector with an empty query.
    pub fn new(options: Vec<DomainOption>, selected: String) -> (r: Selector)
        ensures
            r.options@ == options@,
            r.selected == selected,
            r.query@.len() == 0,
            !r.open,
            !r.close_pending,
    {
        Selector { options, selected, query: String::new(), open: false, close_pending: false }
    }

    /// The user typed: the query changes and the panel opens.
    pub fn on_input(&mut self, text: String)
        ensures
            final(self).query == text,
            final(self).open,
            final(self).options == old(self).options,
            final(self).selected == old(self).selected,
            final(self).close_pending == old(self).close_pending,
    {
        self.query = text;
        self.open = true;
    }

    /// The input got focus: the panel opens.
    pub fn on_focus(&mut self)
        ensures
            final(self).open,
            final(self).query == old(self).query,
            final(self).options == old(self).options,
            final(self).selected == old(self).selected,
            final(self).close_pending == old(self).close_pending,
    {
        self.open = true;
    }

    /// The input lost focus. The panel stays open for now: the close is only
    /// scheduled, so that a click on a result, which comes after the blur,
    /// still reaches it.
    pub fn on_blur(&mut self)
        ensures
            final(self).close_pending,
            final(self).open == old(self).open,
            final(self).query == old(self).query,
            final(self).options == old(self).options,
            final(self).selected == old(self).selected,
    {
        self.close_pending = true;
    }

    /// The delay after a blur ran out: a close still scheduled happens now.
    pub fn on_close_timer(&mut self)
        ensures
            !final(self).close_pending,
            final(self).open == (old(self).open && !old(self).close_pending),
            final(self).query == old(self).query,
            final(self).options == old(self).options,
            final(self).selected == old(self).selected,
    {
        if self.close_pending {
            self.open = false;
            self.close_pending = false;
        }
    }

    /// The user picked an option: it becomes the selection, the query is
    /// cleared and the panel closes, superseding any scheduled close. The
    /// returned code is what the owner is told.
    pub fn select(&mut self, code: String) -> (r: String)
        ensures
            final(self).selected == code,
            r == code,
            final(self).query@.len() == 0,
            !final(self).open,
            !final(self).close_pending,
            final(self).options == old(self).options,
    {
        self.selected = code.clone();
        self.query = String::new();
        self.open = false;
        self.close_pending = false;
        code
    }

    /// The options the panel lists now.
    pub fn visible(&self) -> (r: Vec<DomainOption>)
        ensures
            r@ == filtered(self.options@, self.query@),
    {
        filter_options(&self.options, self.query.as_str())
    }

    /// The text that stands for the selection: `code — label` of the first
    /// option with the selected code, or a prompt when none has it.
    pub fn display_name(&self) -> (r: String)
        ensures
            (exists|k: int| first_with_code(self.options@, self.selected@, k) && r@ == option_text(self.options@[k]))
                || ((forall|k: int| 0 <= k < self.options@.len() ==> (#[trigger] self.options@[k]).code@ != self.selected@)
                && r@ == no_selection_text()),
    {
        let mut k: usize = 0;
        while k < self.options.len()
            invariant
                k <= self.options@.len(),
                forall|j: int| 0 <= j < k ==> (#[trigger] self.options@[j]).code@ != self.selected@,
            decreases self.options@.len() - k,
        {
            if same_text(self.options[k].code.as_str(), self.selected.as_str()) {
                let r = option_line(&self.options[k]);
                assert(first_with_code(self.options@, self.selected@, k as int));
                return r;
            }
            k = k + 1;
        }
        "Select country...".to_owned()
    }
}

} // verus!
