//! The version record: when the application and its dependencies were last
//! checked, and which version of each dependency is installed, with the flat
//! key/value form in which it is stored.

use vstd::prelude::*;
use crate::text::{chars_of, same_chars};

verus! {

/// One stored value of the flat form.
#[derive(Clone, Debug)]
pub enum StoredValue {
    Number(u64),
    Text(String),
    /// Any other kind of value (a flag, a fraction, a nested structure).
    Other,
}

/// The meaning of a version record.
pub struct RecordModel {
    pub app_last_check: u64,
    pub req_last_check: u64,
    pub versions: Map<Seq<char>, Seq<char>>,
}

/// Durable state of the update pass. Absent entries read as "never checked"
/// (time 0) and "unknown version" (empty).
#[derive(Clone, Debug)]
pub struct VersionRecord {
    app_last_check: u64,
    req_last_check: u64,
    local_versions: Vec<(String, String)>,
}

pub open spec fn app_key() -> Seq<char> {
    "app_last_check"@
}

pub open spec fn req_key() -> Seq<char> {
    "req_last_check"@
}

/// The map that a list of pairs describes, later pairs winning.
pub open spec fn map_of(s: Seq<(String, String)>) -> Map<Seq<char>, Seq<char>>
    decreases s.len(),
{
    if s.len() == 0 {
        Map::empty()
    } else {
        map_of(s.drop_last()).insert(s.last().0@, s.last().1@)
    }
}

pub open spec fn keys_unique(s: Seq<(String, String)>) -> bool {
    forall|i: int, j: int| 0 <= i < j < s.len() ==> #[trigger] s[i].0@ != #[trigger] s[j].0@
}

proof fn lemma_map_of_contains(s: Seq<(String, String)>, k: Seq<char>)
    ensures
        map_of(s).contains_key(k) == exists|i: int| 0 <= i < s.len() && #[trigger] s[i].0@ == k,
    decreases s.len(),
{
    if s.len() > 0 {
        lemma_map_of_contains(s.drop_last(), k);
        if map_of(s.drop_last()).contains_key(k) {
            let i = choose|i: int| 0 <= i < s.drop_last().len() && #[trigger] s.drop_last()[i].0@ == k;
            assert(s[i].0@ == k);
        }
        if exists|i: int| 0 <= i < s.len() && #[trigger] s[i].0@ == k {
            let i = choose|i: int| 0 <= i < s.len() && #[trigger] s[i].0@ == k;
            if i < s.len() - 1 {
                assert(s.drop_last()[i].0@ == k);
            }
        }
    }
}

proof fn lemma_map_of_at(s: Seq<(String, String)>, i: int)
    requires
        keys_unique(s),
        0 <= i < s.len(),
    ensures
        map_of(s).contains_key(s[i].0@),
        map_of(s)[s[i].0@] == s[i].1@,
    decreases s.len(),
{
    if i < s.len() - 1 {
        assert(keys_unique(s.drop_last()));
        lemma_map_of_at(s.drop_last(), i);
        assert(s.drop_last()[i] == s[i]);
        assert(s[i].0@ != s[s.len() - 1].0@);
    }
}

proof fn lemma_map_of_update(s: Seq<(String, String)>, i: int, p: (String, String))
    requires
        keys_unique(s),
        0 <= i < s.len(),
        p.0@ == s[i].0@,
    ensures
        map_of(s.update(i, p)) == map_of(s).insert(p.0@, p.1@),
        keys_unique(s.update(i, p)),
    decreases s.len(),
{
    let u = s.update(i, p);
    if i == s.len() - 1 {
        assert(u.drop_last() =~= s.drop_last());
        assert(map_of(u) =~= map_of(s).insert(p.0@, p.1@));
    } else {
        assert(keys_unique(s.drop_last()));
        lemma_map_of_update(s.drop_last(), i, p);
        assert(u.drop_last() =~= s.drop_last().update(i, p));
        assert(s[i].0@ != s[s.len() - 1].0@);
        assert(map_of(u) =~= map_of(s).insert(p.0@, p.1@));
    }
    assert forall|a: int, b: int| 0 <= a < b < u.len() implies #[trigger] u[a].0@ != #[trigger] u[b].0@ by {
        assert(u[a].0@ == (if a == i { s[i].0@ } else { s[a].0@ }));
        assert(u[b].0@ == (if b == i { s[i].0@ } else { s[b].0@ }));
    }
}

impl VersionRecord {
    /// The entries are unique by name, and no name is one of the two timestamp keys.
    pub closed spec fn wf(&self) -> bool {
        &&& keys_unique(self.local_versions@)
        &&& forall|i: int|
            0 <= i < self.local_versions@.len() ==> #[trigger] self.local_versions@[i].0@ != app_key()
                && self.local_versions@[i].0@ != req_key()
    }

    pub closed spec fn model(&self) -> RecordModel {
        RecordModel {
            app_last_check: self.app_last_check,
            req_last_check: self.req_last_check,
            versions: map_of(self.local_versions@),
        }
    }

    /// When the application was last checked, in seconds since the epoch.
    pub fn app_last_check(&self) -> (r: u64)
        ensures
            r == self.model().app_last_check,
    {
        self.app_last_check
    }

    /// When the dependencies were last checked, in seconds since the epoch.
    pub fn req_last_check(&self) -> (r: u64)
        ensures
            r == self.model().req_last_check,
    {
        self.req_last_check
    }

    /// Stamps both checks: each time that is `Some` replaces the stored one.
    pub fn stamp_checks(&mut self, app: Option<u64>, req: Option<u64>)
        requires
            old(self).wf(),
        ensures
            final(self).wf(),
            final(self).model().app_last_check == (match app {
                Some(t) => t,
                None => old(self).model().app_last_check,
            }),
            final(self).model().req_last_check == (match req {
                Some(t) => t,
                None => old(self).model().req_last_check,
            }),
            final(self).model().versions == old(self).model().versions,
    {
        if let Some(t) = app {
            self.app_last_check = t;
        }
        if let Some(t) = req {
            self.req_last_check = t;
        }
    }

    /// A record in which nothing was ever checked and no version is known.
    pub fn new() -> (r: Self)
        ensures
            r.wf(),
            r.model().app_last_check == 0,
            r.model().req_last_check == 0,
            r.model().versions == Map::<Seq<char>, Seq<char>>::empty(),
    {
        VersionRecord { app_last_check: 0, req_last_check: 0, local_versions: Vec::new() }
    }

    fn find(&self, name: &str) -> (r: Option<usize>)
        requires
            self.wf(),
        ensures
            match r {
                Some(i) => i < self.local_versions@.len() && self.local_versions@[i as int].0@ == name@,
                None => !map_of(self.local_versions@).contains_key(name@),
            },
    {
        let key = chars_of(name);
        let mut i: usize = 0;
        while i < self.local_versions.len()
            invariant
                i <= self.local_versions@.len(),
                key@ == name@,
                forall|j: int| 0 <= j < i ==> #[trigger] self.local_versions@[j].0@ != name@,
            decreases self.local_versions@.len() - i,
        {
            if same_chars(&chars_of(self.local_versions[i].0.as_str()), &key) {
                return Some(i);
            }
            i = i + 1;
        }
        proof {
            lemma_map_of_contains(self.local_versions@, name@);
        }
        None
    }

    /// The stored version of `name`, or the empty text when none is known.
    pub fn version_of(&self, name: &str) -> (r: String)
        requires
            self.wf(),
        ensures
            r@ == (if self.model().versions.contains_key(name@) {
                self.model().versions[name@]
            } else {
                Seq::<char>::empty()
            }),
    {
        match self.find(name) {
            Some(i) => {
                proof {
                    lemma_map_of_at(self.local_versions@, i as int);
                }
                self.local_versions[i].1.clone()
            },
            None => String::new(),
        }
    }

    /// Records `version` as the installed version of `name`.
    pub fn set_version(&mut self, name: &str, version: &str)
        requires
            old(self).wf(),
            name@ != app_key(),
            name@ != req_key(),
        ensures
            final(self).wf(),
            final(self).model().app_last_check == old(self).model().app_last_check,
            final(self).model().req_last_check == old(self).model().req_last_check,
            final(self).model().versions == old(self).model().versions.insert(name@, version@),
    {
        let entry = (name.to_owned(), version.to_owned());
        match self.find(name) {
            Some(i) => {
                proof {
                    lemma_map_of_update(self.local_versions@, i as int, entry);
                }
                self.local_versions[i] = entry;
            },
            None => {
                proof {
                    lemma_map_of_contains(self.local_versions@, name@);
                }
                let ghost before = self.local_versions@;
                self.local_versions.push(entry);
                assert(self.local_versions@.drop_last() =~= before);
                assert(self.local_versions@[before.len() as int] == entry);
                assert forall|a: int, b: int|
                    0 <= a < b < self.local_versions@.len() implies #[trigger] self.local_versions@[a].0@
                    != #[trigger] self.local_versions@[b].0@ by {
                    if b == before.len() {
                        assert(before[a].0@ != name@);
                    } else {
                        assert(self.local_versions@[a] == before[a]);
                        assert(self.local_versions@[b] == before[b]);
                    }
                }
                assert forall|a: int| 0 <= a < self.local_versions@.len() implies #[trigger] self.local_versions@[a].0@
                    != app_key() && self.local_versions@[a].0@ != req_key() by {
                    if a < before.len() {
                        assert(self.local_versions@[a] == before[a]);
                    }
                }
            },
        }
    }
}

impl Default for VersionRecord {
    fn default() -> (r: Self)
        ensures
            r.wf(),
            r.model().app_last_check == 0,
            r.model().req_last_check == 0,
            r.model().versions == Map::<Seq<char>, Seq<char>>::empty(),
    {
        VersionRecord::new()
    }
}

/// The flat form of a record: the two timestamps, then one text entry per
/// known version, in the record's order.
pub open spec fn encode(app: u64, req: u64, pairs: Seq<(String, String)>) -> Seq<(Seq<char>, StoredValue)> {
    seq![(app_key(), StoredValue::Number(app)), (req_key(), StoredValue::Number(req))] + pairs.map_values(
        |p: (String, String)| (p.0@, StoredValue::Text(p.1)),
    )
}

/// Reading one entry of the flat form into a partial record.
pub open spec fn absorb(m: RecordModel, e: (Seq<char>, StoredValue)) -> Option<RecordModel> {
    if e.0 == app_key() {
        match e.1 {
            StoredValue::Number(n) => Some(RecordModel { app_last_check: n, ..m }),
            _ => None,
        }
    } else if e.0 == req_key() {
        match e.1 {
            StoredValue::Number(n) => Some(RecordModel { req_last_check: n, ..m }),
            _ => None,
        }
    } else {
        match e.1 {
            StoredValue::Text(t) => Some(RecordModel { versions: m.versions.insert(e.0, t@), ..m }),
            _ => None,
        }
    }
}

/// Reading a flat form: entries in order, a later entry for the same name
/// winning; `None` when a timestamp is not a number or another entry is not
/// a text.
pub open spec fn decode(es: Seq<(Seq<char>, StoredValue)>) -> Option<RecordModel>
    decreases es.len(),
{
    if es.len() == 0 {
        Some(RecordModel { app_last_check: 0, req_last_check: 0, versions: Map::empty() })
    } else {
        match decode(es.drop_last()) {
            Some(m) => absorb(m, es.last()),
            None => None,
        }
    }
}

/// The flat form of a list of entries.
pub open spec fn entries_view(es: Seq<(String, StoredValue)>) -> Seq<(Seq<char>, StoredValue)> {
    es.map_values(|e: (String, StoredValue)| (e.0@, e.1))
}

impl VersionRecord {
    /// The flat form of this record (see `encode`).
    pub closed spec fn stored_form(&self) -> Seq<(Seq<char>, StoredValue)> {
        encode(self.app_last_check, self.req_last_check, self.local_versions@)
    }

    /// The flat form in which the record is stored: `app_last_check` and
    /// `req_last_check` as numbers, then each known version as a text under
    /// its component's name.
    pub fn to_entries(&self) -> (r: Vec<(String, StoredValue)>)
        requires
            self.wf(),
        ensures
            entries_view(r@) == self.stored_form(),
            r@.len() >= 2,
            r@[0].0@ == app_key() && r@[0].1 == StoredValue::Number(self.model().app_last_check),
            r@[1].0@ == req_key() && r@[1].1 == StoredValue::Number(self.model().req_last_check),
            forall|i: int|
                2 <= i < r@.len() ==> (#[trigger] r@[i]).1 is Text && self.model().versions.contains_key(r@[i].0@)
                    && self.model().versions[r@[i].0@] == r@[i].1->Text_0@,
            forall|i: int, j: int| 2 <= i < j < r@.len() ==> #[trigger] r@[i].0@ != #[trigger] r@[j].0@,
            forall|k: Seq<char>|
                #[trigger] self.model().versions.contains_key(k) ==> exists|i: int|
                    2 <= i < r@.len() && #[trigger] r@[i].0@ == k,
    {
        let mut out: Vec<(String, StoredValue)> = Vec::new();
        out.push(("app_last_check".to_owned(), StoredValue::Number(self.app_last_check)));
        out.push(("req_last_check".to_owned(), StoredValue::Number(self.req_last_check)));
        let ghost head = seq![(app_key(), StoredValue::Number(self.app_last_check)), (req_key(), StoredValue::Number(self.req_last_check))];
        assert(entries_view(out@) =~= head);
        let mut i: usize = 0;
        while i < self.local_versions.len()
            invariant
                i <= self.local_versions@.len(),
                entries_view(out@) == encode(self.app_last_check, self.req_last_check, self.local_versions@.take(i as int)),
            decreases self.local_versions@.len() - i,
        {
            let name = self.local_versions[i].0.clone();
            let version = self.local_versions[i].1.clone();
            let ghost before = out@;
            let ghost item = (name@, StoredValue::Text(version));
            out.push((name, StoredValue::Text(version)));
            assert(entries_view(out@) =~= entries_view(before).push(item));
            assert(self.local_versions@.take(i + 1) =~= self.local_versions@.take(i as int).push(self.local_versions@[i as int]));
            assert(encode(self.app_last_check, self.req_last_check, self.local_versions@.take(i + 1)) =~= encode(
                self.app_last_check,
                self.req_last_check,
                self.local_versions@.take(i as int),
            ).push(item));
            assert(entries_view(out@) =~= encode(self.app_last_check, self.req_last_check, self.local_versions@.take(i + 1)));
            i = i + 1;
        }
        assert(self.local_versions@.take(i as int) =~= self.local_versions@);
        let ghost lv = self.local_versions@;
        let ghost ev = entries_view(out@);
        assert(ev.len() == out@.len());
        assert forall|i: int| 0 <= i < out@.len() implies #[trigger] ev[i] == (out@[i].0@, out@[i].1) by {}
        assert(ev[0] == (app_key(), StoredValue::Number(self.app_last_check)));
        assert(ev[1] == (req_key(), StoredValue::Number(self.req_last_check)));
        assert forall|i: int| 2 <= i < out@.len() implies (#[trigger] out@[i]).1 is Text && self.model().versions.contains_key(
            out@[i].0@,
        ) && self.model().versions[out@[i].0@] == out@[i].1->Text_0@ by {
            assert(ev[i] == (lv[i - 2].0@, StoredValue::Text(lv[i - 2].1)));
            lemma_map_of_at(lv, i - 2);
        }
        assert forall|i: int, j: int| 2 <= i < j < out@.len() implies #[trigger] out@[i].0@ != #[trigger] out@[j].0@ by {
            assert(ev[i] == (lv[i - 2].0@, StoredValue::Text(lv[i - 2].1)));
            assert(ev[j] == (lv[j - 2].0@, StoredValue::Text(lv[j - 2].1)));
        }
        assert forall|k: Seq<char>| #[trigger] self.model().versions.contains_key(k) implies exists|i: int|
            2 <= i < out@.len() && #[trigger] out@[i].0@ == k by {
            lemma_map_of_contains(lv, k);
            let j = choose|j: int| 0 <= j < lv.len() && #[trigger] lv[j].0@ == k;
            assert(ev[j + 2] == (lv[j].0@, StoredValue::Text(lv[j].1)));
            assert(out@[j + 2].0@ == k);
        }
        out
    }

    /// Reads a record from its flat form (see `decode`): missing timestamps
    /// read as 0, and entries of other names are kept as versions. `None` when
    /// a timestamp is not a number or another entry is not a text.
    pub fn from_entries(entries: &Vec<(String, StoredValue)>) -> (r: Option<VersionRecord>)
        ensures
            match r {
                Some(rec) => rec.wf() && decode(entries_view(entries@)) == Some(rec.model()),
                None => decode(entries_view(entries@)) is None,
            },
    {
        let app_name = chars_of("app_last_check");
        let req_name = chars_of("req_last_check");
        let mut rec = VersionRecord::new();
        let mut i: usize = 0;
        proof {
            lemma_keys_differ();
        }
        assert(entries_view(entries@.take(0)) =~= Seq::<(Seq<char>, StoredValue)>::empty());
        while i < entries.len()
            invariant
                i <= entries@.len(),
                app_name@ == app_key(),
                req_name@ == req_key(),
                rec.wf(),
                decode(entries_view(entries@.take(i as int))) == Some(rec.model()),
                app_key() != req_key(),
            decreases entries@.len() - i,
        {
            let ghost pre = entries_view(entries@.take(i as int));
            let ghost next = entries_view(entries@.take(i + 1));
            assert(entries_view(entries@).take(i + 1) =~= next);
            assert(next.drop_last() =~= pre);
            assert(next.last() == (entries@[i as int].0@, entries@[i as int].1));
            let key = chars_of(entries[i].0.as_str());
            if same_chars(&key, &app_name) {
                match &entries[i].1 {
                    StoredValue::Number(n) => {
                        rec.stamp_checks(Some(*n), None);
                        assert(decode(next) == Some(rec.model()));
                    },
                    _ => {
                        assert(decode(next) is None);
                        proof {
                            lemma_decode_none_extends(entries_view(entries@), i + 1);
                        }
                        return None;
                    },
                }
            } else if same_chars(&key, &req_name) {
                match &entries[i].1 {
                    StoredValue::Number(n) => {
                        rec.stamp_checks(None, Some(*n));
                        assert(decode(next) == Some(rec.model()));
                    },
                    _ => {
                        assert(decode(next) is None);
                        proof {
                            lemma_decode_none_extends(entries_view(entries@), i + 1);
                        }
                        return None;
                    },
                }
            } else {
                match &entries[i].1 {
                    StoredValue::Text(t) => {
                        rec.set_version(entries[i].0.as_str(), t.as_str());
                        assert(decode(next) == Some(rec.model()));
                    },
                    _ => {
                        assert(decode(next) is None);
                        proof {
                            lemma_decode_none_extends(entries_view(entries@), i + 1);
                        }
                        return None;
                    },
                }
            }
            i = i + 1;
        }
        assert(entries@.take(i as int) =~= entries@);
        Some(rec)
    }
}

proof fn lemma_keys_differ()
    ensures
        app_key() != req_key(),
{
    reveal_strlit("app_last_check");
    reveal_strlit("req_last_check");
    assert(app_key()[0] != req_key()[0]);
}

proof fn lemma_decode_none_extends(es: Seq<(Seq<char>, StoredValue)>, n: int)
    requires
        0 <= n <= es.len(),
        decode(es.take(n)) is None,
    ensures
        decode(es) is None,
    decreases es.len() - n,
{
    if n < es.len() {
        assert(es.take(n + 1).drop_last() =~= es.take(n));
        lemma_decode_none_extends(es, n + 1);
    } else {
        assert(es.take(n) =~= es);
    }
}

proof fn lemma_round_trip(app: u64, req: u64, pairs: Seq<(String, String)>)
    requires
        forall|i: int| 0 <= i < pairs.len() ==> #[trigger] pairs[i].0@ != app_key() && pairs[i].0@ != req_key(),
    ensures
        decode(encode(app, req, pairs)) == Some(
            RecordModel { app_last_check: app, req_last_check: req, versions: map_of(pairs) },
        ),
    decreases pairs.len(),
{
    lemma_keys_differ();
    if pairs.len() == 0 {
        let e = encode(app, req, pairs);
        let a = (app_key(), StoredValue::Number(app));
        let b = (req_key(), StoredValue::Number(req));
        assert(e =~= seq![a, b]);
        assert(e.drop_last() =~= seq![a]);
        assert(e.drop_last().drop_last() =~= Seq::<(Seq<char>, StoredValue)>::empty());
        assert(decode(e.drop_last().drop_last()) == Some(RecordModel { app_last_check: 0, req_last_check: 0, versions: Map::empty() }));
        assert(decode(e.drop_last()) == Some(RecordModel { app_last_check: app, req_last_check: 0, versions: Map::empty() }));
        assert(map_of(pairs) == Map::<Seq<char>, Seq<char>>::empty());
    } else {
        lemma_round_trip(app, req, pairs.drop_last());
        assert(encode(app, req, pairs).drop_last() =~= encode(app, req, pairs.drop_last()));
        assert(pairs[pairs.len() - 1].0@ != app_key());
    }
}

/// Storing a well-formed record and reading the stored form back gives the same
/// timestamps and the same versions, those of names that no release of this
/// library knows included.
pub proof fn stored_record_round_trip(rec: VersionRecord)
    requires
        rec.wf(),
    ensures
        decode(rec.stored_form()) == Some(rec.model()),
{
    lemma_round_trip(rec.app_last_check, rec.req_last_check, rec.local_versions@);
}

/// Reading a stored form keeps every entry under a name other than the two
/// timestamps, names unknown to this library included: the last entry for
/// such a name is a text, and the record holds it as that name's version.
pub proof fn decoded_record_keeps_text_entries(es: Seq<(Seq<char>, StoredValue)>, i: int)
    requires
        decode(es) is Some,
        0 <= i < es.len(),
        es[i].0 != app_key(),
        es[i].0 != req_key(),
        forall|j: int| i < j < es.len() ==> #[trigger] es[j].0 != es[i].0,
    ensures
        es[i].1 is Text,
        decode(es)->0.versions.contains_key(es[i].0),
        decode(es)->0.versions[es[i].0] == es[i].1->Text_0@,
    decreases es.len(),
{
    let last = es.len() - 1;
    if i < last {
        assert(es.drop_last()[i] == es[i]);
        assert forall|j: int| i < j < es.drop_last().len() implies #[trigger] es.drop_last()[j].0 != es.drop_last()[i].0 by {
            assert(es.drop_last()[j] == es[j]);
        }
        decoded_record_keeps_text_entries(es.drop_last(), i);
        assert(es[last].0 != es[i].0);
    }
}

} // verus!
