//! The status store: last-known lifecycle status per script identity.
//!
//! Entries are created on first insert and never expire; the store is an
//! overwrite-only map for the life of the host process. A snapshot of the
//! whole map is rendered as one flat JSON object for the dashboard's
//! polling endpoint.

use crate::assoc::AssocList;
use crate::status::Status;
use vstd::prelude::*;

verus! {

/// What a JSON string literal for the characters `s` looks like: the
/// quoted, escaped form that `serde_json` produces. Named rather than
/// spelled out; the rendering contracts compose it.
pub uninterp spec fn json_quoted(s: Seq<char>) -> Seq<char>;

/// One `"key":"value"` member of the snapshot object.
pub open spec fn json_member(k: Seq<char>, v: Status) -> Seq<char> {
    json_quoted(k) + ":"@ + json_quoted(v.spec_display())
}

/// The members of the snapshot object, comma-separated, in entry order.
pub open spec fn json_members(s: Seq<(Seq<char>, Status)>) -> Seq<char>
    decreases s.len(),
{
    if s.len() == 0 {
        Seq::empty()
    } else if s.len() == 1 {
        json_member(s[0].0, s[0].1)
    } else {
        json_member(s[0].0, s[0].1) + ","@ + json_members(s.drop_first())
    }
}

/// The whole snapshot: a flat JSON object over the given entries.
pub open spec fn snapshot_rep(s: Seq<(Seq<char>, Status)>) -> Seq<char> {
    "{"@ + json_members(s) + "}"@
}

/// Appending one entry extends the member list by a comma (when it is
/// not the first member) and the entry's own rendering.
pub proof fn lemma_json_members_push(s: Seq<(Seq<char>, Status)>, k: Seq<char>, v: Status)
    ensures
        json_members(s.push((k, v))) == if s.len() == 0 {
            json_member(k, v)
        } else {
            json_members(s) + ","@ + json_member(k, v)
        },
    decreases s.len(),
{
    let t = s.push((k, v));
    if s.len() == 0 {
        assert(t.len() == 1);
        assert(t[0] == (k, v));
    } else if s.len() == 1 {
        assert(t.drop_first() =~= seq![(k, v)]);
        assert(json_members(t.drop_first()) == json_member(k, v));
    } else {
        assert(t.drop_first() =~= s.drop_first().push((k, v)));
        lemma_json_members_push(s.drop_first(), k, v);
    }
}

/// The rendering of entry `i` stands somewhere inside the rendered
/// member list.
proof fn lemma_members_contain(s: Seq<(Seq<char>, Status)>, i: int)
    requires
        0 <= i < s.len(),
    ensures
        exists|off: int|
            0 <= off && off + json_member(s[i].0, s[i].1).len() <= json_members(s).len()
                && #[trigger] json_members(s).subrange(
                off,
                off + json_member(s[i].0, s[i].1).len(),
            ) == json_member(s[i].0, s[i].1),
    decreases s.len(),
{
    let m = json_member(s[i].0, s[i].1);
    if i == 0 {
        if s.len() == 1 {
            assert(json_members(s).subrange(0, m.len() as int) =~= m);
        } else {
            assert(json_members(s) == m + ","@ + json_members(s.drop_first()));
            assert(json_members(s).subrange(0, m.len() as int) =~= m);
        }
        assert(0 + m.len() <= json_members(s).len() && json_members(s).subrange(
            0,
            0 + m.len() as int,
        ) == m);
    } else {
        let rest = s.drop_first();
        lemma_members_contain(rest, i - 1);
        assert(rest[i - 1] == s[i]);
        let off0 = choose|off0: int|
            0 <= off0 && off0 + m.len() <= json_members(rest).len() && #[trigger] json_members(
                rest,
            ).subrange(off0, off0 + m.len() as int) == m;
        let head = json_member(s[0].0, s[0].1) + ","@;
        assert(json_members(s) == json_member(s[0].0, s[0].1) + ","@ + json_members(rest));
        let off = head.len() + off0;
        assert(json_members(s).subrange(off as int, off as int + m.len() as int) =~= json_members(
            rest,
        ).subrange(off0, off0 + m.len() as int));
        assert(0 <= off && off + m.len() <= json_members(s).len() && json_members(s).subrange(
            off as int,
            off as int + m.len() as int,
        ) == m);
    }
}

/// Law: the snapshot covers every identity that was ever inserted, with
/// the most recently written status. Every key of the store's map is
/// among the rendered entries with exactly the map's value for it, and
/// its `"key":"value"` member stands verbatim inside the snapshot
/// string.
pub proof fn lemma_snapshot_covers(s: AppSingleton, k: Seq<char>)
    requires
        s.wf(),
        s.status_map().dom().contains(k),
    ensures
        exists|i: int|
            0 <= i < s.entries().len() && #[trigger] s.entries()[i] == (k, s.status_map()[k]),
        exists|off: int|
            0 <= off && off + json_member(k, s.status_map()[k]).len() <= snapshot_rep(
                s.entries(),
            ).len() && #[trigger] snapshot_rep(s.entries()).subrange(
                off,
                off + json_member(k, s.status_map()[k]).len(),
            ) == json_member(k, s.status_map()[k]),
{
    let entries = s.entries();
    let v = s.status_map()[k];
    let i = s.obj.hashstatus.index_of(k);
    assert(s.obj.hashstatus.contains_key(k));
    assert(0 <= i < entries.len() && entries[i].0 == k);
    s.obj.hashstatus.lemma_entry_index(k, i);
    assert(entries[i] == (k, v));
    lemma_members_contain(entries, i);
    let m = json_member(k, v);
    let off0 = choose|off0: int|
        0 <= off0 && off0 + m.len() <= json_members(entries).len() && #[trigger] json_members(
            entries,
        ).subrange(off0, off0 + m.len() as int) == m;
    let off = "{"@.len() + off0;
    assert(snapshot_rep(entries).subrange(off as int, off as int + m.len() as int)
        =~= json_members(entries).subrange(off0, off0 + m.len() as int));
}

/// Relies on `serde_json::to_string` applied to a string slice: the
/// result is the quoted, escaped JSON string literal, a function of the
/// characters alone; serializing a string into a byte buffer cannot fail.
#[verifier::external_body]
fn json_quote(s: &str) -> (r: String)
    ensures
        r@ == json_quoted(s@),
{
    match serde_json::to_string(s) {
        Ok(j) => j,
        Err(_) => String::new(),
    }
}

/// The mutable bookkeeping that the status singleton guards: the map
/// from script identity to last-known status.
pub struct AppObj {
    pub hashstatus: AssocList<Status>,
}

impl AppObj {
    pub fn new() -> (r: Self)
        ensures
            r.hashstatus.wf(),
            r.hashstatus.entries_view() =~= Seq::<(Seq<char>, Status)>::empty(),
            r.hashstatus.view_map() =~= Map::<Seq<char>, Status>::empty(),
    {
        AppObj { hashstatus: AssocList::new() }
    }
}

/// The status store. The host process creates one instance at startup
/// and shares it (behind its own guard) with every supervision task.
pub struct AppSingleton {
    pub obj: AppObj,
}

impl AppSingleton {
    pub open spec fn wf(self) -> bool {
        self.obj.hashstatus.wf()
    }

    /// The store as the map it represents.
    pub open spec fn status_map(self) -> Map<Seq<char>, Status> {
        self.obj.hashstatus.view_map()
    }

    /// The store's entries in insertion order.
    pub open spec fn entries(self) -> Seq<(Seq<char>, Status)> {
        self.obj.hashstatus.entries_view()
    }

    pub fn new() -> (r: Self)
        ensures
            r.wf(),
            r.entries() =~= Seq::<(Seq<char>, Status)>::empty(),
            r.status_map() =~= Map::<Seq<char>, Status>::empty(),
    {
        AppSingleton { obj: AppObj::new() }
    }

    /// Make a fresh, empty store for the host process.
    pub fn init() -> (r: Self)
        ensures
            r.wf(),
            r.entries() =~= Seq::<(Seq<char>, Status)>::empty(),
            r.status_map() =~= Map::<Seq<char>, Status>::empty(),
    {
        AppSingleton::new()
    }

    /// Overwrite-insert: always succeeds, and never drops any other
    /// key's entry.
    pub fn insert_status(&mut self, key: &str, value: Status)
        requires
            old(self).wf(),
        ensures
            final(self).wf(),
            final(self).status_map() =~= old(self).status_map().insert(key@, value),
            old(self).status_map().dom().contains(key@) ==> final(self).entries() =~= old(
                self,
            ).entries().update(old(self).obj.hashstatus.index_of(key@), (key@, value)),
            !old(self).status_map().dom().contains(key@) ==> final(self).entries() =~= old(
                self,
            ).entries().push((key@, value)),
    {
        self.obj.hashstatus.insert(key.to_owned(), value);
    }

    /// All identities that were ever inserted, in insertion order.
    pub fn get_all_keys(&self) -> (r: Vec<String>)
        ensures
            r@.len() == self.entries().len(),
            forall|i: int| 0 <= i < r@.len() ==> #[trigger] r@[i]@ == self.entries()[i].0,
    {
        self.obj.hashstatus.keys()
    }

    /// The last-known status for `key`, if any was ever recorded.
    pub fn get_status(&self, key: &str) -> (r: Option<Status>)
        requires
            self.wf(),
        ensures
            match r {
                Some(v) => self.status_map().dom().contains(key@) && v == self.status_map()[key@],
                None => !self.status_map().dom().contains(key@),
            },
    {
        match self.obj.hashstatus.get(&key.to_owned()) {
            Some(v) => Some(*v),
            None => None,
        }
    }

    /// Render the full map as one flat JSON object, entries in insertion
    /// order, every value shown as its dashboard string.
    pub fn hashstatus_to_json(&self) -> (r: String)
        ensures
            r@ == snapshot_rep(self.entries()),
    {
        let ghost entries = self.entries();
        let n = self.obj.hashstatus.len();
        let mut out = String::from_str("{");
        let mut i: usize = 0;
        while i < n
            invariant
                i <= n,
                n == entries.len(),
                entries == self.entries(),
                out@ == "{"@ + json_members(entries.take(i as int)),
            decreases n - i,
        {
            let (key, value) = self.obj.hashstatus.entry_at(i);
            if i > 0 {
                out.append(",");
            }
            let qk = json_quote(key.as_str());
            out.append(qk.as_str());
            out.append(":");
            let shown = value.display();
            let qv = json_quote(shown.as_str());
            out.append(qv.as_str());
            proof {
                let ii = i as int;
                lemma_json_members_push(entries.take(ii), entries[ii].0, entries[ii].1);
                assert(entries.take(ii).push((entries[ii].0, entries[ii].1)) =~= entries.take(
                    ii + 1,
                ));
                assert(out@ == "{"@ + json_members(entries.take(ii + 1)));
            }
            i += 1;
        }
        proof {
            assert(entries.take(n as int) =~= entries);
        }
        out.append("}");
        out
    }
}

} // verus!
