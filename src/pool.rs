//! The registry of open connections, keyed by connection identity.
//!
//! The table here holds no lock: its owner serialises access to it (one
//! mutex around the whole table) and never holds that lock across network
//! I/O. Connecting happens outside the lock; [`ConnectionPool::insert`]
//! then resolves a lost race by keeping the first connection inserted.

use vstd::prelude::*;
use crate::args::{ConnectionArgs, Spanned};
use crate::connect::{config_for, config_from_args, ConnectConfig, ConnectionError};

verus! {

/// The identity of a connection target: every parameter but the password.
#[derive(Clone, Debug)]
pub struct PoolKey {
    pub server: Option<String>,
    pub instance: Option<String>,
    pub database: Option<String>,
    pub user: Option<String>,
    pub trust_cert: bool,
    pub buffer_size: usize,
}

/// The content of a [`PoolKey`].
pub struct KeyView {
    pub server: Option<Seq<char>>,
    pub instance: Option<Seq<char>>,
    pub database: Option<Seq<char>>,
    pub user: Option<Seq<char>>,
    pub trust_cert: bool,
    pub buffer_size: usize,
}

/// The content of an optional text.
pub open spec fn opt_text(t: Option<String>) -> Option<Seq<char>> {
    match t {
        Some(s) => Some(s@),
        None => None,
    }
}

/// The text of an optional spanned text.
pub open spec fn opt_item(t: Option<Spanned>) -> Option<Seq<char>> {
    match t {
        Some(s) => Some(s.item@),
        None => None,
    }
}

impl View for PoolKey {
    type V = KeyView;

    open spec fn view(&self) -> KeyView {
        KeyView {
            server: opt_text(self.server),
            instance: opt_text(self.instance),
            database: opt_text(self.database),
            user: opt_text(self.user),
            trust_cert: self.trust_cert,
            buffer_size: self.buffer_size,
        }
    }
}

fn opt_text_eq(a: &Option<String>, b: &Option<String>) -> (r: bool)
    ensures
        r == (opt_text(*a) == opt_text(*b)),
{
    match (a, b) {
        (Some(x), Some(y)) => *x == *y,
        (None, None) => true,
        _ => false,
    }
}

impl PartialEq for PoolKey {
    fn eq(&self, o: &PoolKey) -> (r: bool)
        ensures
            r == (self@ == o@),
    {
        opt_text_eq(&self.server, &o.server) && opt_text_eq(&self.instance, &o.instance)
            && opt_text_eq(&self.database, &o.database) && opt_text_eq(&self.user, &o.user)
            && self.trust_cert == o.trust_cert && self.buffer_size == o.buffer_size
    }
}

impl vstd::std_specs::cmp::PartialEqSpecImpl for PoolKey {
    open spec fn obeys_eq_spec() -> bool {
        true
    }

    open spec fn eq_spec(&self, o: &PoolKey) -> bool {
        self@ == o@
    }
}

/// The pool identity of a set of connection parameters.
pub open spec fn key_of(a: ConnectionArgs) -> KeyView {
    KeyView {
        server: opt_item(a.server),
        instance: opt_item(a.instance),
        database: opt_item(a.database),
        user: opt_item(a.user),
        trust_cert: a.trust_cert is Some,
        buffer_size: a.buffer_size,
    }
}

fn item_text(t: &Option<Spanned>) -> (r: Option<String>)
    ensures
        opt_text(r) == opt_item(*t),
{
    match t {
        Some(s) => Some(s.item.clone()),
        None => None,
    }
}

impl ConnectionArgs {
    /// The key under which a connection for these parameters is pooled.
    pub fn pool_key(&self) -> (r: PoolKey)
        ensures
            r@ == key_of(*self),
    {
        PoolKey {
            server: item_text(&self.server),
            instance: item_text(&self.instance),
            database: item_text(&self.database),
            user: item_text(&self.user),
            trust_cert: self.trust_cert.is_some(),
            buffer_size: self.buffer_size,
        }
    }
}

/// Parameters that differ only in the password share one pooled connection.
pub proof fn lemma_key_ignores_password(a: ConnectionArgs, p: Option<Spanned>)
    ensures
        key_of(ConnectionArgs { password: p, ..a }) == key_of(a),
{
}

/// The content of a pool: per entry its key, how many handles to it were
/// handed out, and the connection.
pub type PoolView<C> = Seq<(KeyView, usize, C)>;

/// No key occurs twice.
pub open spec fn unique_keys<C>(s: PoolView<C>) -> bool {
    forall|i: int, j: int| 0 <= i < j < s.len() ==> s[i].0 != s[j].0
}

/// The position of the entry for `k`, if there is one.
pub open spec fn key_slot<C>(s: PoolView<C>, k: KeyView) -> Option<int> {
    if exists|i: int| 0 <= i < s.len() && s[i].0 == k {
        Some(choose|i: int| 0 <= i < s.len() && s[i].0 == k)
    } else {
        None
    }
}

/// One more handle, unless the count is already at its largest.
pub open spec fn count_up(n: usize) -> usize {
    if n < usize::MAX {
        (n + 1) as usize
    } else {
        n
    }
}

/// One handle fewer, unless none is out.
pub open spec fn count_down(n: usize) -> usize {
    if n > 0 {
        (n - 1) as usize
    } else {
        0
    }
}

/// The pool after inserting connection `c` for `k`, and the slot handed out:
/// the first connection inserted for a key stays, and a later one is handed
/// back to be closed.
pub open spec fn after_insert<C>(s: PoolView<C>, k: KeyView, c: C) -> (PoolView<C>, int) {
    match key_slot(s, k) {
        Some(i) => (s.update(i, (s[i].0, count_up(s[i].1), s[i].2)), i),
        None => (s.push((k, 1, c)), s.len() as int),
    }
}

/// The pool after each of `cs`, all opened for `k`, was inserted in turn,
/// and the slots handed out.
pub open spec fn insert_all<C>(s: PoolView<C>, k: KeyView, cs: Seq<C>) -> (PoolView<C>, Seq<int>)
    decreases cs.len(),
{
    if cs.len() == 0 {
        (s, Seq::empty())
    } else {
        let (s1, slots) = insert_all(s, k, cs.drop_last());
        let (s2, slot) = after_insert(s1, k, cs.last());
        (s2, slots.push(slot))
    }
}

/// Get-or-create is idempotent: however many callers open a connection for
/// the same key while none is pooled and insert it, the pool ends with one
/// entry for that key, holding the first connection inserted, every caller
/// is handed that entry's slot, and each handle is counted.
pub proof fn lemma_get_or_create_idempotent<C>(s: PoolView<C>, k: KeyView, cs: Seq<C>)
    requires
        unique_keys(s),
        key_slot(s, k) is None,
        1 <= cs.len() < usize::MAX,
    ensures
        ({
            let (t, slots) = insert_all(s, k, cs);
            &&& unique_keys(t)
            &&& t.len() == s.len() + 1
            &&& t.subrange(0, s.len() as int) == s
            &&& key_slot(t, k) == Some(s.len() as int)
            &&& t[s.len() as int] == (k, cs.len() as usize, cs[0])
            &&& slots.len() == cs.len()
            &&& forall|j: int| 0 <= j < slots.len() ==> slots[j] == s.len()
        }),
    decreases cs.len(),
{
    let n = s.len() as int;
    let ps = cs.drop_last();
    if cs.len() == 1 {
        assert(ps =~= Seq::<C>::empty());
        assert(insert_all(s, k, ps) == (s, Seq::<int>::empty()));
        let t = s.push((k, 1usize, cs[0]));
        assert(after_insert(s, k, cs.last()) == (t, n));
        assert(t.subrange(0, n) =~= s);
        assert(t[n].0 == k);
        assert forall|i: int, j: int| 0 <= i < j < t.len() implies t[i].0 != t[j].0 by {
            if j == n {
                assert(s[i].0 != k);
            } else {
                assert(s[i].0 != s[j].0);
            }
        }
        lemma_slot_is(t, k, n);
        assert(insert_all(s, k, cs).1 =~= seq![n]);
    } else {
        lemma_get_or_create_idempotent(s, k, ps);
        assert(ps[0] == cs[0]);
        let (t1, slots1) = insert_all(s, k, ps);
        assert(t1[n].0 == k);
        let t = t1.update(n, (k, (ps.len() + 1) as usize, cs[0]));
        assert(after_insert(t1, k, cs.last()) == (t, n));
        assert(t.subrange(0, n) =~= t1.subrange(0, n));
        assert forall|i: int, j: int| 0 <= i < j < t.len() implies t[i].0 != t[j].0 by {
            assert(t1[i].0 != t1[j].0);
        }
        lemma_slot_is(t, k, n);
        let (t2, slots2) = insert_all(s, k, cs);
        assert(t2 == t);
        assert(slots2 == slots1.push(n));
    }
}

/// The slot of a key lies within the pool and holds that key.
pub proof fn lemma_key_slot_in_range<C>(s: PoolView<C>, k: KeyView)
    ensures
        key_slot(s, k) matches Some(i) ==> 0 <= i < s.len() && s[i].0 == k,
{
}

/// After a connection for `k` is inserted, looking `k` up finds the slot the
/// insert handed out, and that slot holds the first connection inserted for
/// `k`: `c` itself when none was pooled before.
pub proof fn lemma_insert_then_found<C>(s: PoolView<C>, k: KeyView, c: C)
    requires
        unique_keys(s),
    ensures
        ({
            let (t, slot) = after_insert(s, k, c);
            &&& unique_keys(t)
            &&& key_slot(t, k) == Some(slot)
            &&& key_slot(s, k) is None ==> t[slot].2 == c && t[slot].1 == 1
            &&& key_slot(s, k) matches Some(i) ==> slot == i && t[slot].2 == s[i].2
            &&& t.len() == s.len() + (if key_slot(s, k) is None { 1int } else { 0int })
        }),
{
    let (t, slot) = after_insert(s, k, c);
    match key_slot(s, k) {
        Some(i) => {
            assert forall|a: int, b: int| 0 <= a < b < t.len() implies t[a].0 != t[b].0 by {
                assert(s[a].0 != s[b].0);
            }
            lemma_slot_is(t, k, i);
        },
        None => {
            let n = s.len() as int;
            assert forall|a: int, b: int| 0 <= a < b < t.len() implies t[a].0 != t[b].0 by {
                if b == n {
                    assert(s[a].0 != k);
                } else {
                    assert(s[a].0 != s[b].0);
                }
            }
            lemma_slot_is(t, k, n);
        },
    }
}

/// In a pool without repeated keys, the entry that holds `k` is its slot.
pub proof fn lemma_slot_is<C>(t: PoolView<C>, k: KeyView, n: int)
    requires
        unique_keys(t),
        0 <= n < t.len(),
        t[n].0 == k,
    ensures
        key_slot(t, k) == Some(n),
{
    let w = choose|i: int| 0 <= i < t.len() && t[i].0 == k;
    if w < n {
        assert(t[w].0 != t[n].0);
    } else if w > n {
        assert(t[n].0 != t[w].0);
    }
}

/// The first half of get-or-create: what a caller holding the pool's lock
/// does next.
pub enum Acquire {
    /// Use the pooled connection in this slot; the handle is counted.
    Use(usize),
    /// No connection is pooled: open one with this configuration (without
    /// the lock), then [`ConnectionPool::insert`] it.
    Open(ConnectConfig),
    /// The parameters cannot describe a connection.
    Fail(ConnectionError),
}

struct PoolEntry<C> {
    key: PoolKey,
    refs: usize,
    conn: C,
}

/// The registry of open connections: at most one per key.
pub struct ConnectionPool<C> {
    entries: Vec<PoolEntry<C>>,
}

impl<C> View for ConnectionPool<C> {
    type V = PoolView<C>;

    closed spec fn view(&self) -> PoolView<C> {
        self.entries@.map_values(|e: PoolEntry<C>| (e.key@, e.refs, e.conn))
    }
}

impl<C> ConnectionPool<C> {
    /// At most one entry per key.
    pub open spec fn wf(&self) -> bool {
        unique_keys(self@)
    }

    /// An empty pool.
    pub fn new() -> (r: Self)
        ensures
            r@ == Seq::<(KeyView, usize, C)>::empty(),
            r.wf(),
    {
        ConnectionPool { entries: Vec::new() }
    }

    /// The number of pooled connections.
    pub fn len(&self) -> (n: usize)
        ensures
            n == self@.len(),
    {
        self.entries.len()
    }

    fn find(&self, key: &PoolKey) -> (r: Option<usize>)
        requires
            self.wf(),
        ensures
            match r {
                Some(i) => key_slot(self@, key@) == Some(i as int),
                None => key_slot(self@, key@) is None,
            },
    {
        let mut i: usize = 0;
        while i < self.entries.len()
            invariant
                self.wf(),
                0 <= i <= self.entries.len(),
                forall|j: int| 0 <= j < i ==> self@[j].0 != key@,
            decreases self.entries.len() - i,
        {
            assert(self@[i as int].0 == self.entries@[i as int].key@);
            if self.entries[i].key == *key {
                proof {
                    assert(self@[i as int].0 == key@);
                    let k = choose|k: int| 0 <= k < self@.len() && self@[k].0 == key@;
                    if k < i {
                        assert(self@[k].0 != self@[i as int].0);
                    } else if k > i {
                        assert(self@[i as int].0 != self@[k].0);
                    }
                }
                return Some(i);
            }
            i = i + 1;
        }
        None
    }

    /// Looks up the connection for `key`. With `increment`, the lookup
    /// counts as one more handle given out.
    pub fn get(&mut self, key: &PoolKey, increment: bool) -> (r: Option<usize>)
        requires
            old(self).wf(),
        ensures
            final(self).wf(),
            r matches Some(slot) ==> slot < final(self)@.len(),
            match key_slot(old(self)@, key@) {
                None => r is None && final(self)@ == old(self)@,
                Some(i) => r == Some(i as usize) && final(self)@ == (if increment {
                    old(self)@.update(i, (old(self)@[i].0, count_up(old(self)@[i].1), old(self)@[i].2))
                } else {
                    old(self)@
                }),
            },
    {
        match self.find(key) {
            None => None,
            Some(i) => {
                if increment {
                    self.bump(i);
                }
                Some(i)
            },
        }
    }

    fn bump(&mut self, i: usize)
        requires
            old(self).wf(),
            i < old(self)@.len(),
        ensures
            final(self).wf(),
            final(self)@ == old(self)@.update(
                i as int,
                (old(self)@[i as int].0, count_up(old(self)@[i as int].1), old(self)@[i as int].2),
            ),
    {
        let ghost s = self@;
        assert(s[i as int] == (self.entries@[i as int].key@, self.entries@[i as int].refs, self.entries@[i as int].conn));
        let n = self.entries[i].refs;
        let m = if n < usize::MAX { n + 1 } else { n };
        let mut v = Vec::new();
        std::mem::swap(&mut v, &mut self.entries);
        let mut e = v.remove(i);
        e.refs = m;
        v.insert(i, e);
        self.entries = v;
        proof {
            assert(self@ =~= s.update(i as int, (s[i as int].0, count_up(s[i as int].1), s[i as int].2)));
        }
    }

    /// Adds the connection `conn`, just opened for `key`, and returns the
    /// slot of the connection callers should use. Where another caller has
    /// inserted one for `key` meanwhile, that one stays and `conn` comes back
    /// to be closed.
    pub fn insert(&mut self, key: PoolKey, conn: C) -> (r: (usize, Option<C>))
        requires
            old(self).wf(),
            old(self)@.len() < usize::MAX,
        ensures
            final(self).wf(),
            (final(self)@, r.0 as int) == after_insert(old(self)@, key@, conn),
            r.0 < final(self)@.len(),
            key_slot(old(self)@, key@) is Some ==> r.1 == Some(conn),
            key_slot(old(self)@, key@) is None ==> r.1 is None,
    {
        match self.find(&key) {
            Some(i) => {
                self.bump(i);
                (i, Some(conn))
            },
            None => {
                let ghost s = self@;
                let n = self.entries.len();
                self.entries.push(PoolEntry { key, refs: 1, conn });
                proof {
                    assert(self@ =~= s.push((key@, 1usize, conn)));
                }
                (n, None)
            },
        }
    }

    /// Looks up the connection for `args`, counting the handle, or says how
    /// to open one; `integrated_default` is as for
    /// [`config_from_args`](crate::connect::config_from_args).
    pub fn acquire(&mut self, args: &ConnectionArgs, integrated_default: bool) -> (r: Acquire)
        requires
            old(self).wf(),
        ensures
            final(self).wf(),
            r matches Acquire::Use(slot) ==> slot < final(self)@.len(),
            match key_slot(old(self)@, key_of(*args)) {
                Some(i) => r == Acquire::Use(i as usize) && final(self)@ == old(self)@.update(
                    i,
                    (old(self)@[i].0, count_up(old(self)@[i].1), old(self)@[i].2),
                ),
                None => final(self)@ == old(self)@ && match config_for(*args, integrated_default) {
                    Ok(cfg) => r matches Acquire::Open(c) && c@ == cfg,
                    Err(sp) => r == Acquire::Fail(ConnectionError::UserWithoutPassword(sp)),
                },
            },
    {
        let key = args.pool_key();
        match self.get(&key, true) {
            Some(i) => Acquire::Use(i),
            None => match config_from_args(args, integrated_default) {
                Ok(c) => Acquire::Open(c),
                Err(e) => Acquire::Fail(e),
            },
        }
    }

    /// The connection in `slot`.
    pub fn connection(&self, slot: usize) -> (r: &C)
        requires
            slot < self@.len(),
        ensures
            *r == self@[slot as int].2,
    {
        assert(self@[slot as int].2 == self.entries@[slot as int].conn);
        &self.entries[slot].conn
    }

    /// The number of handles given out for `key`, if it has a connection.
    pub fn reference_count(&self, key: &PoolKey) -> (r: Option<usize>)
        requires
            self.wf(),
        ensures
            match key_slot(self@, key@) {
                None => r is None,
                Some(i) => r == Some(self@[i].1),
            },
    {
        match self.find(key) {
            None => None,
            Some(i) => {
                assert(self@[i as int].1 == self.entries@[i as int].refs);
                Some(self.entries[i].refs)
            },
        }
    }

    /// Records that a handle to the connection in `slot` was given back.
    pub fn release(&mut self, slot: usize)
        requires
            old(self).wf(),
        ensures
            final(self).wf(),
            slot < old(self)@.len() ==> final(self)@ == old(self)@.update(
                slot as int,
                (old(self)@[slot as int].0, count_down(old(self)@[slot as int].1), old(self)@[slot as int].2),
            ),
            slot >= old(self)@.len() ==> final(self)@ == old(self)@,
    {
        if slot >= self.entries.len() {
            return;
        }
        let ghost s = self@;
        assert(s[slot as int] == (self.entries@[slot as int].key@, self.entries@[slot as int].refs, self.entries@[slot as int].conn));
        let mut v = Vec::new();
        std::mem::swap(&mut v, &mut self.entries);
        let mut e = v.remove(slot);
        if e.refs > 0 {
            e.refs = e.refs - 1;
        }
        v.insert(slot, e);
        self.entries = v;
        proof {
            assert(self@ =~= s.update(slot as int, (s[slot as int].0, count_down(s[slot as int].1), s[slot as int].2)));
        }
    }

    /// Empties the pool and hands over every connection, in slot order, to
    /// be closed.
    pub fn close(&mut self) -> (r: Vec<C>)
        ensures
            final(self)@ == Seq::<(KeyView, usize, C)>::empty(),
            final(self).wf(),
            r@ == old(self)@.map_values(|e: (KeyView, usize, C)| e.2),
    {
        let mut v = Vec::new();
        std::mem::swap(&mut v, &mut self.entries);
        let ghost s = v@.map_values(|e: PoolEntry<C>| (e.key@, e.refs, e.conn));
        let mut r: Vec<C> = Vec::new();
        let mut rest: Vec<C> = Vec::new();
        while v.len() > 0
            invariant
                s.len() == v@.len() + rest@.len(),
                forall|j: int| 0 <= j < v@.len() ==> s[j].2 == v@[j].conn,
                forall|j: int| 0 <= j < rest@.len() ==> s[s.len() - 1 - j].2 == rest@[j],
            decreases v.len(),
        {
            let e = v.pop().unwrap();
            rest.push(e.conn);
        }
        while rest.len() > 0
            invariant
                s.len() == r@.len() + rest@.len(),
                forall|j: int| 0 <= j < r@.len() ==> s[j].2 == r@[j],
                forall|j: int| 0 <= j < rest@.len() ==> s[s.len() - 1 - j].2 == rest@[j],
            decreases rest.len(),
        {
            let c = rest.pop().unwrap();
            r.push(c);
        }
        proof {
            assert(r@ =~= s.map_values(|e: (KeyView, usize, C)| e.2));
        }
        r
    }
}

} // verus!
