//! The bounded, newest-first log of past generation batches.
//!
//! Every change is persisted by writing the whole log under one key. Writers
//! in other browser contexts are not reconciled: the last write wins.
use vstd::prelude::*;
use crate::json::{
    compact_json_of, compact_text, json_insert, json_list, json_map, json_number, json_object,
    json_text, model_of, upsert, JsonModel,
};

verus! {

/// Largest number of entries the log keeps.
pub const HISTORY_LIMIT: usize = 50;

/// One logged generation batch.
#[derive(Clone, Debug, PartialEq, Eq)]
pub struct HistoryEntry {
    pub id: String,
    /// Milliseconds since the Unix epoch.
    pub timestamp: u64,
    pub category: String,
    /// The chosen country or brand, or `Random` when none was chosen.
    pub country: String,
    /// The number of values that were requested.
    pub count: u32,
    /// The primary value of every produced row, in order.
    pub results: Vec<String>,
}

/// The strings of `xs` as a JSON list.
pub open spec fn text_list_model(xs: Seq<String>) -> JsonModel {
    JsonModel::List(xs.map_values(|x: String| JsonModel::Text(x@)))
}

/// The JSON object that stores `e`, members in this order: id, timestamp,
/// category, country, count, results.
pub open spec fn entry_model(e: HistoryEntry) -> JsonModel {
    let m0 = Seq::<(Seq<char>, JsonModel)>::empty();
    let m1 = upsert(m0, "id"@, JsonModel::Text(e.id@));
    let m2 = upsert(m1, "timestamp"@, JsonModel::Number(e.timestamp as nat));
    let m3 = upsert(m2, "category"@, JsonModel::Text(e.category@));
    let m4 = upsert(m3, "country"@, JsonModel::Text(e.country@));
    let m5 = upsert(m4, "count"@, JsonModel::Number(e.count as nat));
    JsonModel::Object(upsert(m5, "results"@, text_list_model(e.results@)))
}

/// The stored form of a whole log: the compact JSON array of its entries.
pub open spec fn log_json(entries: Seq<HistoryEntry>) -> Seq<char> {
    compact_json_of(JsonModel::List(entries.map_values(|e: HistoryEntry| entry_model(e))))
}

fn text_list_value(xs: &Vec<String>) -> (r: serde_json::Value)
    ensures
        model_of(r) == text_list_model(xs@),
{
    let ghost want = xs@.map_values(|x: String| JsonModel::Text(x@));
    let mut items: Vec<serde_json::Value> = Vec::new();
    let mut k: usize = 0;
    while k < xs.len()
        invariant
            k <= xs@.len(),
            want == xs@.map_values(|x: String| JsonModel::Text(x@)),
            items@.map_values(|v: serde_json::Value| model_of(v)) =~= want.take(k as int),
        decreases xs@.len() - k,
    {
        let v = json_text(xs[k].as_str());
        let ghost before = items@;
        items.push(v);
        assert(items@.map_values(|v: serde_json::Value| model_of(v)) =~= before.map_values(
            |v: serde_json::Value| model_of(v),
        ).push(model_of(v)));
        assert(want.take(k as int + 1) =~= want.take(k as int).push(want[k as int]));
        k = k + 1;
    }
    assert(want.take(xs@.len() as int) =~= want);
    json_list(items)
}

impl HistoryEntry {
    /// The stored form of this entry as a JSON value.
    pub fn to_value(&self) -> (r: serde_json::Value)
        ensures
            model_of(r) == entry_model(*self),
    {
        let mut m = json_map();
        json_insert(&mut m, "id".to_owned(), json_text(self.id.as_str()));
        json_insert(&mut m, "timestamp".to_owned(), json_number(self.timestamp));
        json_insert(&mut m, "category".to_owned(), json_text(self.category.as_str()));
        json_insert(&mut m, "country".to_owned(), json_text(self.country.as_str()));
        json_insert(&mut m, "count".to_owned(), json_number(self.count as u64));
        json_insert(&mut m, "results".to_owned(), text_list_value(&self.results));
        json_object(m)
    }

    /// The stored form of this entry.
    pub fn to_json(&self) -> (r: String)
        ensures
            r@ == compact_json_of(entry_model(*self)),
    {
        compact_text(&self.to_value())
    }
}

/// The log itself: newest entry first. A log that was appended to holds at
/// most `HISTORY_LIMIT` entries; a loaded log is kept as it was stored.
pub struct HistoryLog {
    pub entries: Vec<HistoryEntry>,
}

/// What the owner of the persisted store must do after a change of the log.
pub enum Persist {
    /// Store this text under the history key.
    Write(String),
    /// Delete the history key.
    Remove,
}

/// The first `HISTORY_LIMIT` items of `s`.
pub open spec fn bounded(s: Seq<HistoryEntry>) -> Seq<HistoryEntry> {
    if s.len() > HISTORY_LIMIT {
        s.take(HISTORY_LIMIT as int)
    } else {
        s
    }
}

/// The log that `load` makes out of what was decoded from the store: the
/// stored sequence as it is, or nothing.
pub open spec fn loaded(decoded: Option<Seq<HistoryEntry>>) -> Seq<HistoryEntry> {
    match decoded {
        Some(s) => s,
        None => Seq::empty(),
    }
}

/// The log after putting `e` in front of `s`.
pub open spec fn prepended(s: Seq<HistoryEntry>, e: HistoryEntry) -> Seq<HistoryEntry> {
    bounded(seq![e] + s)
}

/// The log after appending each of `es`, first to last.
pub open spec fn appended_all(s: Seq<HistoryEntry>, es: Seq<HistoryEntry>) -> Seq<HistoryEntry>
    decreases es.len(),
{
    if es.len() == 0 {
        s
    } else {
        prepended(appended_all(s, es.drop_last()), es.last())
    }
}

/// What the store holds under the history key after `op` was carried out.
pub open spec fn stored_after(op: Persist) -> Option<Seq<char>> {
    match op {
        Persist::Write(t) => Some(t@),
        Persist::Remove => None,
    }
}

/// The state that `clear` leaves: an empty log and the stored copy removed.
pub open spec fn cleared(after: HistoryLog, op: Persist) -> bool {
    after.entries@ == Seq::<HistoryEntry>::empty() && op == Persist::Remove
}

/// However many entries are appended, the log never holds more than
/// `HISTORY_LIMIT` of them, and the last one appended comes first.
pub proof fn lemma_appends_bounded(s: Seq<HistoryEntry>, es: Seq<HistoryEntry>)
    ensures
        es.len() > 0 ==> appended_all(s, es).len() <= HISTORY_LIMIT,
        es.len() > 0 ==> appended_all(s, es)[0] == es.last(),
    decreases es.len(),
{
    if es.len() > 0 {
        lemma_appends_bounded(s, es.drop_last());
    }
}

/// Clearing the log and then loading it gives an empty log: after `clear` the
/// store holds nothing under the key, and a missing key loads as empty.
pub proof fn lemma_clear_then_load(after: HistoryLog, op: Persist)
    requires
        cleared(after, op),
    ensures
        stored_after(op) == None::<Seq<char>>,
        loaded(None) == Seq::<HistoryEntry>::empty(),
        after.entries@ == Seq::<HistoryEntry>::empty(),
{
}

impl HistoryLog {
    /// An empty log.
    pub fn new() -> (r: HistoryLog)
        ensures
            r.entries@ == Seq::<HistoryEntry>::empty(),
    {
        HistoryLog { entries: Vec::new() }
    }

    /// The log as read from the store. `decoded` is `None` when the key is
    /// missing or its content could not be decoded; that gives an empty log.
    pub fn load(decoded: Option<Vec<HistoryEntry>>) -> (r: HistoryLog)
        ensures
            r.entries@ == loaded(
                match decoded {
                    Some(v) => Some(v@),
                    None => None,
                },
            ),
    {
        match decoded {
            Some(v) => HistoryLog { entries: v },
            None => HistoryLog::new(),
        }
    }

    /// Puts `entry` in front and drops the oldest entries beyond the limit.
    pub fn append(&mut self, entry: HistoryEntry)
        ensures
            final(self).entries@ == prepended(old(self).entries@, entry),
            final(self).entries@.len() <= HISTORY_LIMIT,
            final(self).entries@[0] == entry,
    {
        self.entries.insert(0, entry);
        if self.entries.len() > HISTORY_LIMIT {
            self.entries.truncate(HISTORY_LIMIT);
        }
    }

    /// Empties the log at once; the returned action deletes the stored copy.
    pub fn clear(&mut self) -> (op: Persist)
        ensures
            cleared(*final(self), op),
    {
        self.entries = Vec::new();
        Persist::Remove
    }

    /// The stored form of the whole log.
    pub fn to_json(&self) -> (r: String)
        ensures
            r@ == log_json(self.entries@),
    {
        let ghost want = self.entries@.map_values(|e: HistoryEntry| entry_model(e));
        let mut items: Vec<serde_json::Value> = Vec::new();
        let mut k: usize = 0;
        while k < self.entries.len()
            invariant
                k <= self.entries@.len(),
                want == self.entries@.map_values(|e: HistoryEntry| entry_model(e)),
                items@.map_values(|v: serde_json::Value| model_of(v)) =~= want.take(k as int),
            decreases self.entries@.len() - k,
        {
            let v = self.entries[k].to_value();
            let ghost before = items@;
            items.push(v);
            assert(items@.map_values(|v: serde_json::Value| model_of(v)) =~= before.map_values(
                |v: serde_json::Value| model_of(v),
            ).push(model_of(v)));
            assert(want.take(k as int + 1) =~= want.take(k as int).push(want[k as int]));
            k = k + 1;
        }
        assert(want.take(self.entries@.len() as int) =~= want);
        compact_text(&json_list(items))
    }

    /// The stored form of the log, as the action that writes it.
    pub fn persist(&self) -> (op: Persist)
        ensures
            op matches Persist::Write(t) && t@ == log_json(self.entries@),
    {
        Persist::Write(self.to_json())
    }

    pub fn len(&self) -> (n: usize)
        ensures
            n == self.entries@.len(),
    {
        self.entries.len()
    }
}

} // verus!
