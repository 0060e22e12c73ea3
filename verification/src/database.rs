//! The store a server applies decided commands to.
use vstd::hash_map::StringHashMap;
use vstd::prelude::*;
use vstd::string::*;

use crate::kv::{KVCommand, KVCommandView};

verus! {

/// The contents of a store: each key's value, as character sequences.
pub type Store = Map<Seq<char>, Seq<char>>;

/// The store after a compare-and-swap: `key` is set to `to` when its value
/// is `from`, or when it is absent and `create_if_not_exists` is set.
///
/// This meaning of compare-and-swap is this crate's own choice, taken from
/// Maelstrom's `lin-kv` workload that the proxy serves; the store answers a
/// compare-and-swap as it answers any write, with `None`.
pub open spec fn cas_store(
    m: Store,
    key: Seq<char>,
    from: Seq<char>,
    to: Seq<char>,
    create_if_not_exists: bool,
) -> Store {
    if cas_swaps(m, key, from, create_if_not_exists) {
        m.insert(key, to)
    } else {
        m
    }
}

/// Whether a compare-and-swap on `m` replaces the value of `key`.
pub open spec fn cas_swaps(m: Store, key: Seq<char>, from: Seq<char>, create_if_not_exists: bool) -> bool {
    if m.contains_key(key) {
        m[key] == from
    } else {
        create_if_not_exists
    }
}

/// The value a store holds for `key`, if any.
pub open spec fn lookup(m: Store, key: Seq<char>) -> Option<Seq<char>> {
    if m.contains_key(key) {
        Some(m[key])
    } else {
        None
    }
}

/// A command applied to a store: the new store, and the answer. A read is
/// answered with `Some` of what the key holds; any write with `None`.
pub open spec fn apply_command(m: Store, cmd: KVCommandView) -> (Store, Option<Option<Seq<char>>>) {
    match cmd {
        KVCommandView::Put(k, v) => (m.insert(k, v), None),
        KVCommandView::Delete(k) => (m.remove(k), None),
        KVCommandView::Get(k) => (m, Some(lookup(m, k))),
        KVCommandView::Cas { key, from, to, create_if_not_exists } => (
            cas_store(m, key, from, to, create_if_not_exists),
            None,
        ),
    }
}

/// An answer with its string taken as a character sequence.
pub open spec fn answer_view(r: Option<Option<String>>) -> Option<Option<Seq<char>>> {
    match r {
        Some(Some(s)) => Some(Some(s@)),
        Some(None) => Some(None),
        None => None,
    }
}

/// A key-value store.
pub struct Database {
    db: StringHashMap<String>,
}

impl View for Database {
    type V = Store;

    closed spec fn view(&self) -> Store {
        self.db@.map_values(|v: String| v@)
    }
}

impl Database {
    /// A store that holds the one pair `"1" -> "2"`.
    pub fn new() -> (d: Self)
        ensures
            d@ == Map::<Seq<char>, Seq<char>>::empty().insert("1"@, "2"@),
    {
        let mut db = StringHashMap::new();
        db.insert(String::from_str("1"), String::from_str("2"));
        let d = Database { db };
        assert(d@ =~= Map::<Seq<char>, Seq<char>>::empty().insert("1"@, "2"@));
        d
    }

    /// The value of `key`, if the store holds one.
    pub fn get(&self, key: &str) -> (r: Option<String>)
        ensures
            match r {
                Some(v) => lookup(self@, key@) == Some(v@),
                None => lookup(self@, key@) is None,
            },
    {
        match self.db.get(key) {
            Some(v) => Some(v.clone()),
            None => None,
        }
    }

    fn put(&mut self, key: String, value: String)
        ensures
            final(self)@ == old(self)@.insert(key@, value@),
    {
        let ghost k = key@;
        let ghost v = value@;
        self.db.insert(key, value);
        assert(self@ =~= old(self)@.insert(k, v));
    }

    fn delete(&mut self, key: &str)
        ensures
            final(self)@ == old(self)@.remove(key@),
    {
        self.db.remove(key);
        assert(self@ =~= old(self)@.remove(key@));
    }

    /// Compare-and-swap on `key`; returns whether the value was replaced.
    pub fn cas(&mut self, key: String, from: &str, to: String, create_if_not_exists: bool) -> (swapped: bool)
        ensures
            swapped == cas_swaps(old(self)@, key@, from@, create_if_not_exists),
            final(self)@ == cas_store(old(self)@, key@, from@, to@, create_if_not_exists),
    {
        let swap = match self.db.get(key.as_str()) {
            Some(current) => {
                let expected = String::from_str(from);
                current.eq(&expected)
            },
            None => create_if_not_exists,
        };
        if swap {
            self.put(key, to);
        }
        swap
    }

    /// Applies a command: a write changes the store and is answered with
    /// `None`; a read leaves it as it is and is answered with `Some` of the
    /// key's value, `None` inside where the key is absent.
    pub fn handle_command(&mut self, command: KVCommand) -> (r: Option<Option<String>>)
        ensures
            (final(self)@, answer_view(r)) == apply_command(old(self)@, command@),
    {
        match command {
            KVCommand::Put(key, value) => {
                self.put(key, value);
                None
            },
            KVCommand::Delete(key) => {
                self.delete(key.as_str());
                None
            },
            KVCommand::Get(key) => Some(self.get(key.as_str())),
            KVCommand::Cas { key, from, to, create_if_not_exists } => {
                self.cas(key, from.as_str(), to, create_if_not_exists);
                None
            },
        }
    }
}

/// A read of a key answers what the last write to it wrote.
pub proof fn law_read_after_put(m: Store, k: Seq<char>, v: Seq<char>)
    ensures
        apply_command(apply_command(m, KVCommandView::Put(k, v)).0, KVCommandView::Get(k)).1
            == Some(Some(v)),
{
}

/// A read of a deleted key finds nothing.
pub proof fn law_read_after_delete(m: Store, k: Seq<char>)
    ensures
        apply_command(apply_command(m, KVCommandView::Delete(k)).0, KVCommandView::Get(k)).1
            == Some(None::<Seq<char>>),
{
}

/// A read leaves the store as it is.
pub proof fn law_read_is_pure(m: Store, k: Seq<char>)
    ensures
        apply_command(m, KVCommandView::Get(k)).0 == m,
{
}

/// Only reads are answered with a value; writes are answered with `None`.
pub proof fn law_only_reads_answer(m: Store, cmd: KVCommandView)
    ensures
        apply_command(m, cmd).1 is Some <==> cmd is Get,
{
}

/// The key a command writes or reads.
pub open spec fn command_key(cmd: KVCommandView) -> Seq<char> {
    match cmd {
        KVCommandView::Put(k, _) => k,
        KVCommandView::Delete(k) => k,
        KVCommandView::Get(k) => k,
        KVCommandView::Cas { key, .. } => key,
    }
}

/// A command on one key does not change what a read of another key answers.
pub proof fn law_other_keys_untouched(m: Store, cmd: KVCommandView, other: Seq<char>)
    requires
        command_key(cmd) != other,
    ensures
        lookup(apply_command(m, cmd).0, other) == lookup(m, other),
{
}

/// A second put to a key overrides the first.
pub proof fn law_put_overrides(m: Store, k: Seq<char>, v1: Seq<char>, v2: Seq<char>)
    ensures
        apply_command(apply_command(m, KVCommandView::Put(k, v1)).0, KVCommandView::Put(k, v2)).0
            == apply_command(m, KVCommandView::Put(k, v2)).0,
{
    assert(m.insert(k, v1).insert(k, v2) =~= m.insert(k, v2));
}

/// A compare-and-swap that finds its expected value leaves the new one for
/// the next read; one that does not find it changes nothing.
pub proof fn law_cas_then_read(
    m: Store,
    key: Seq<char>,
    from: Seq<char>,
    to: Seq<char>,
    create_if_not_exists: bool,
)
    ensures
        ({
            let cas = KVCommandView::Cas { key, from, to, create_if_not_exists };
            let after = apply_command(m, cas).0;
            &&& cas_swaps(m, key, from, create_if_not_exists) ==> apply_command(
                after,
                KVCommandView::Get(key),
            ).1 == Some(Some(to))
            &&& !cas_swaps(m, key, from, create_if_not_exists) ==> after == m
        }),
{
}

/// A compare-and-swap on a key that is present swaps exactly when the key
/// holds `from`, whatever `create_if_not_exists` says; on an absent key it
/// swaps exactly when `create_if_not_exists` is set. A swap leaves `to`
/// under the key and every other key as it was; otherwise nothing changes.
pub proof fn law_cas_compares_current_value(
    m: Store,
    key: Seq<char>,
    from: Seq<char>,
    to: Seq<char>,
    create_if_not_exists: bool,
)
    ensures
        m.contains_key(key) ==> (cas_swaps(m, key, from, create_if_not_exists) <==> m[key]
            == from),
        !m.contains_key(key) ==> (cas_swaps(m, key, from, create_if_not_exists)
            <==> create_if_not_exists),
        m.contains_key(key) && m[key] == from ==> cas_store(
            m,
            key,
            from,
            to,
            create_if_not_exists,
        ) == m.insert(key, to),
        m.contains_key(key) && m[key] != from ==> cas_store(
            m,
            key,
            from,
            to,
            create_if_not_exists,
        ) == m,
        !m.contains_key(key) ==> cas_store(m, key, from, to, create_if_not_exists) == (if create_if_not_exists {
            m.insert(key, to)
        } else {
            m
        }),
{
}

} // verus!
