//! The table of logged-in realtime sessions, keyed by client id. Each session
//! is tagged with the connection (channel) that registered it, so that a
//! connection that closes removes its own session and never a newer one that
//! the same client registered meanwhile.
use vstd::prelude::*;

verus! {

/// One registered session.
pub struct SessionEntry<S> {
    client_id: String,
    channel: u64,
    session: S,
}

/// Sessions by client id; no client id occurs twice.
pub struct SessionTable<S> {
    entries: Vec<SessionEntry<S>>,
}

impl<S> SessionEntry<S> {
    pub closed spec fn key(self) -> Seq<char> {
        self.client_id@
    }

    pub closed spec fn value(self) -> (u64, S) {
        (self.channel, self.session)
    }
}

/// The table that a list of entries with distinct client ids stands for.
pub open spec fn entries_map<S>(entries: Seq<SessionEntry<S>>) -> Map<Seq<char>, (u64, S)> {
    Map::new(
        |k: Seq<char>| exists|i: int| 0 <= i < entries.len() && #[trigger] entries[i].key() == k,
        |k: Seq<char>|
            entries[choose|i: int| 0 <= i < entries.len() && #[trigger] entries[i].key() == k].value(),
    )
}

/// The table after a connection on `channel` closes: the session of
/// `client_id` goes if that connection registered it, else nothing changes.
pub open spec fn after_close<S>(
    table: Map<Seq<char>, (u64, S)>,
    client_id: Seq<char>,
    channel: u64,
) -> Map<Seq<char>, (u64, S)> {
    if table.contains_key(client_id) && table[client_id].0 == channel {
        table.remove(client_id)
    } else {
        table
    }
}

impl<S> SessionTable<S> {
    #[verifier::type_invariant]
    closed spec fn distinct_clients(self) -> bool {
        forall|i: int, j: int|
            0 <= i < j < self.entries@.len() ==> #[trigger] self.entries@[i].key()
                != #[trigger] self.entries@[j].key()
    }

    /// Each client id, mapped to the channel that registered its session and
    /// the session.
    pub closed spec fn view(&self) -> Map<Seq<char>, (u64, S)> {
        entries_map(self.entries@)
    }

    /// An empty table.
    pub fn new() -> (r: Self)
        ensures
            r.view() == Map::<Seq<char>, (u64, S)>::empty(),
    {
        let r = SessionTable { entries: Vec::new() };
        proof {
            assert(r.view() =~= Map::<Seq<char>, (u64, S)>::empty());
        }
        r
    }

    /// The position of `client_id`'s entry.
    fn position(&self, client_id: &str) -> (r: Option<usize>)
        ensures
            match r {
                Some(i) => i < self.entries@.len() && self.entries@[i as int].key() == client_id@,
                None => forall|i: int|
                    0 <= i < self.entries@.len() ==> #[trigger] self.entries@[i].key() != client_id@,
            },
    {
        let key = client_id.to_owned();
        let n = self.entries.len();
        for i in 0..n
            invariant
                n == self.entries@.len(),
                key@ == client_id@,
                forall|j: int| 0 <= j < i ==> #[trigger] self.entries@[j].key() != client_id@,
        {
            if self.entries[i].client_id == key {
                return Some(i);
            }
        }
        None
    }

    /// The session that `client_id` registered, if any.
    pub fn get(&self, client_id: &str) -> (r: Option<&S>)
        ensures
            match r {
                Some(s) => self.view().contains_key(client_id@) && self.view()[client_id@].1 == *s,
                None => !self.view().contains_key(client_id@),
            },
    {
        proof {
            use_type_invariant(self);
        }
        match self.position(client_id) {
            Some(i) => {
                proof {
                    self.lemma_value_at(i as int);
                }
                Some(&self.entries[i].session)
            },
            None => None,
        }
    }

    /// With distinct keys, the entry at `i` gives the value of its key.
    proof fn lemma_value_at(&self, i: int)
        requires
            self.distinct_clients(),
            0 <= i < self.entries@.len(),
        ensures
            self.view().contains_key(self.entries@[i].key()),
            self.view()[self.entries@[i].key()] == self.entries@[i].value(),
    {
        let es = self.entries@;
        let k = es[i].key();
        assert(es[i].key() == k);
        let j = choose|j: int| 0 <= j < es.len() && #[trigger] es[j].key() == k;
        if j != i {
            if j < i {
                assert(es[j].key() != es[i].key());
            } else {
                assert(es[i].key() != es[j].key());
            }
        }
    }

    /// Registers `session` for `client_id` on `channel`, replacing any session
    /// the client had.
    pub fn insert(&mut self, client_id: String, channel: u64, session: S)
        ensures
            final(self).view() == old(self).view().insert(client_id@, (channel, session)),
    {
        proof {
            use_type_invariant(&*self);
        }
        let ghost old_entries = self.entries@;
        let ghost key = client_id@;
        let entry = SessionEntry { client_id, channel, session };
        assert(entry.key() == key && entry.value() == (channel, session));
        match self.position(entry.client_id.as_str()) {
            Some(i) => {
                let mut entries = Vec::new();
                std::mem::swap(&mut entries, &mut self.entries);
                entries.set(i, entry);
                proof {
                    assert forall|a: int, b: int|
                        0 <= a < b < entries@.len() implies #[trigger] entries@[a].key()
                        != #[trigger] entries@[b].key() by {
                        assert(old_entries[a].key() != old_entries[b].key());
                    }
                }
                self.entries = entries;
                proof {
                    self.lemma_value_at(i as int);
                    let m = entries_map(self.entries@);
                    let om = entries_map(old_entries);
                    assert forall|k: Seq<char>| #[trigger] m.contains_key(k) <==> om.insert(
                        key,
                        (channel, session),
                    ).contains_key(k) by {
                        if k != key {
                            if m.contains_key(k) {
                                let j = choose|j: int|
                                    0 <= j < self.entries@.len() && #[trigger] self.entries@[j].key()
                                        == k;
                                assert(old_entries[j].key() == k);
                            }
                            if om.contains_key(k) {
                                let j = choose|j: int|
                                    0 <= j < old_entries.len() && #[trigger] old_entries[j].key()
                                        == k;
                                assert(self.entries@[j].key() == k);
                            }
                        }
                    }
                    assert forall|k: Seq<char>| #[trigger] m.contains_key(k) && k != key implies m[k]
                        == om[k] by {
                        let j = choose|j: int|
                            0 <= j < self.entries@.len() && #[trigger] self.entries@[j].key() == k;
                        assert(old_entries[j].key() == k);
                        self.lemma_value_at(j);
                        lemma_value_in(old_entries, j);
                    }
                    assert(m =~= om.insert(key, (channel, session)));
                }
            },
            None => {
                let mut entries = Vec::new();
                std::mem::swap(&mut entries, &mut self.entries);
                entries.push(entry);
                proof {
                    assert forall|a: int, b: int|
                        0 <= a < b < entries@.len() implies #[trigger] entries@[a].key()
                        != #[trigger] entries@[b].key() by {
                        if b < old_entries.len() {
                            assert(old_entries[a].key() != old_entries[b].key());
                        } else {
                            assert(old_entries[a].key() != key);
                        }
                    }
                }
                self.entries = entries;
                proof {
                    let n = old_entries.len() as int;
                    self.lemma_value_at(n);
                    let m = entries_map(self.entries@);
                    let om = entries_map(old_entries);
                    assert forall|k: Seq<char>| #[trigger] m.contains_key(k) <==> om.insert(
                        key,
                        (channel, session),
                    ).contains_key(k) by {
                        if k != key {
                            if m.contains_key(k) {
                                let j = choose|j: int|
                                    0 <= j < self.entries@.len() && #[trigger] self.entries@[j].key()
                                        == k;
                                assert(old_entries[j].key() == k);
                            }
                            if om.contains_key(k) {
                                let j = choose|j: int|
                                    0 <= j < old_entries.len() && #[trigger] old_entries[j].key()
                                        == k;
                                assert(self.entries@[j].key() == k);
                            }
                        }
                    }
                    assert forall|k: Seq<char>| #[trigger] m.contains_key(k) && k != key implies m[k]
                        == om[k] by {
                        let j = choose|j: int|
                            0 <= j < self.entries@.len() && #[trigger] self.entries@[j].key() == k;
                        assert(old_entries[j].key() == k);
                        self.lemma_value_at(j);
                        lemma_value_in(old_entries, j);
                    }
                    assert(m =~= om.insert(key, (channel, session)));
                }
            },
        }
    }

    /// The connection on `channel` of `client_id` closed: removes the
    /// client's session if that connection registered it. Returns whether it
    /// removed one.
    pub fn remove(&mut self, client_id: &str, channel: u64) -> (removed: bool)
        ensures
            final(self).view() == after_close(old(self).view(), client_id@, channel),
            removed == (old(self).view().contains_key(client_id@) && old(self).view()[client_id@].0
                == channel),
    {
        proof {
            use_type_invariant(&*self);
        }
        let ghost old_entries = self.entries@;
        let ghost key = client_id@;
        match self.position(client_id) {
            Some(i) => {
                proof {
                    self.lemma_value_at(i as int);
                }
                if self.entries[i].channel != channel {
                    return false;
                }
                let mut entries = Vec::new();
                std::mem::swap(&mut entries, &mut self.entries);
                let _gone = entries.remove(i);
                proof {
                    assert forall|a: int, b: int|
                        0 <= a < b < entries@.len() implies #[trigger] entries@[a].key()
                        != #[trigger] entries@[b].key() by {
                        let oa = if a < i { a } else { a + 1 };
                        let ob = if b < i { b } else { b + 1 };
                        assert(entries@[a] == old_entries[oa]);
                        assert(entries@[b] == old_entries[ob]);
                        assert(old_entries[oa].key() != old_entries[ob].key());
                    }
                }
                self.entries = entries;
                proof {
                    let m = entries_map(self.entries@);
                    let om = entries_map(old_entries);
                    assert forall|k: Seq<char>| #[trigger] m.contains_key(k) <==> om.remove(
                        key,
                    ).contains_key(k) by {
                        if m.contains_key(k) {
                            let j = choose|j: int|
                                0 <= j < self.entries@.len() && #[trigger] self.entries@[j].key()
                                    == k;
                            let oj = if j < i { j } else { j + 1 };
                            assert(old_entries[oj].key() == k);
                            assert(old_entries[oj].key() != old_entries[i as int].key());
                        }
                        if om.contains_key(k) && k != key {
                            let oj = choose|j: int|
                                0 <= j < old_entries.len() && #[trigger] old_entries[j].key() == k;
                            assert(oj != i);
                            let j = if oj < i { oj } else { oj - 1 };
                            assert(self.entries@[j].key() == k);
                        }
                    }
                    assert forall|k: Seq<char>| #[trigger] m.contains_key(k) implies m[k] == om[k] by {
                        let j = choose|j: int|
                            0 <= j < self.entries@.len() && #[trigger] self.entries@[j].key() == k;
                        let oj = if j < i { j } else { j + 1 };
                        assert(old_entries[oj] == self.entries@[j]);
                        self.lemma_value_at(j);
                        lemma_value_in(old_entries, oj);
                    }
                    assert(m =~= om.remove(key));
                }
                true
            },
            None => false,
        }
    }
}

/// A lookup finds the session that was registered last for the client.
pub proof fn law_lookup_finds_registered<S>(
    table: Map<Seq<char>, (u64, S)>,
    client_id: Seq<char>,
    channel: u64,
    session: S,
)
    ensures
        table.insert(client_id, (channel, session)).contains_key(client_id),
        table.insert(client_id, (channel, session))[client_id] == (channel, session),
{
}

/// Registering one client leaves every other client's session as it was.
pub proof fn law_register_keeps_others<S>(
    table: Map<Seq<char>, (u64, S)>,
    client_id: Seq<char>,
    channel: u64,
    session: S,
    other: Seq<char>,
)
    requires
        other != client_id,
    ensures
        table.insert(client_id, (channel, session)).contains_key(other) == table.contains_key(
            other,
        ),
        table.contains_key(other) ==> table.insert(client_id, (channel, session))[other]
            == table[other],
{
}

/// The connection that registered a session removes it when it closes.
pub proof fn law_close_removes_own_session<S>(
    table: Map<Seq<char>, (u64, S)>,
    client_id: Seq<char>,
    channel: u64,
    session: S,
)
    ensures
        !after_close(table.insert(client_id, (channel, session)), client_id, channel).contains_key(
            client_id,
        ),
{
}

/// When a client logged in again on a new connection, the old connection's
/// closing leaves the new session in place: the whole table is unchanged.
pub proof fn law_stale_close_keeps_newer_session<S>(
    table: Map<Seq<char>, (u64, S)>,
    client_id: Seq<char>,
    stale_channel: u64,
    channel: u64,
    session: S,
)
    requires
        stale_channel != channel,
    ensures
        after_close(table.insert(client_id, (channel, session)), client_id, stale_channel)
            == table.insert(client_id, (channel, session)),
{
}

/// A connection's closing never touches another client's session.
pub proof fn law_close_keeps_others<S>(
    table: Map<Seq<char>, (u64, S)>,
    client_id: Seq<char>,
    channel: u64,
    other: Seq<char>,
)
    requires
        other != client_id,
    ensures
        after_close(table, client_id, channel).contains_key(other) == table.contains_key(other),
        table.contains_key(other) ==> after_close(table, client_id, channel)[other] == table[other],
{
}

/// With distinct keys, the entry at `i` gives the value of its key.
proof fn lemma_value_in<S>(es: Seq<SessionEntry<S>>, i: int)
    requires
        forall|a: int, b: int|
            0 <= a < b < es.len() ==> #[trigger] es[a].key() != #[trigger] es[b].key(),
        0 <= i < es.len(),
    ensures
        entries_map(es).contains_key(es[i].key()),
        entries_map(es)[es[i].key()] == es[i].value(),
{
    let k = es[i].key();
    assert(es[i].key() == k);
    let j = choose|j: int| 0 <= j < es.len() && #[trigger] es[j].key() == k;
    if j != i {
        if j < i {
            assert(es[j].key() != es[i].key());
        } else {
            assert(es[i].key() != es[j].key());
        }
    }
}

} // verus!
