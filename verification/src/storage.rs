//! The store abstraction: create-once / update-existing / delete-if-present
//! semantics over two durability classes, with a change-event emitted by
//! every successful mutation.

use vstd::prelude::*;

use crate::bytes::{bytes_eq, clone_bytes};

verus! {

/// Failures of the store contract.
#[derive(Clone, Copy, Debug, PartialEq, Eq, Structural)]
pub enum Error {
    NotFound,
    AlreadyExists,
}

/// The two durability classes an entry can live in.
#[derive(Clone, Copy, Debug, PartialEq, Eq, Structural)]
pub enum StorageType {
    Persistent,
    Instance,
}

/// The kind of mutation a change-event reports.
#[derive(Clone, Copy, Debug, PartialEq, Eq, Structural)]
pub enum StorageOperation {
    Store,
    Update,
    Delete,
}

/// Emitted after every successful mutation, tagged with the durability
/// class it touched and the operation kind.
#[derive(Clone, Copy, Debug, PartialEq, Eq, Structural)]
pub struct StorageChangeEvent {
    pub storage_type: StorageType,
    pub operation: StorageOperation,
}

/// The stored state itself: one keyed entry list per durability class, and
/// the log of change-events emitted so far.
pub struct StorageEnv {
    pub instance: Vec<(Vec<u8>, Vec<u8>)>,
    pub persistent: Vec<(Vec<u8>, Vec<u8>)>,
    pub events: Vec<StorageChangeEvent>,
}

/// True when `entries` holds a binding for the key `k`.
pub open spec fn has_key(entries: Seq<(Vec<u8>, Vec<u8>)>, k: Seq<u8>) -> bool {
    exists|i: int| 0 <= i < entries.len() && #[trigger] entries[i].0@ == k
}

/// No two entries bind the same key.
pub open spec fn keys_unique(entries: Seq<(Vec<u8>, Vec<u8>)>) -> bool {
    forall|i: int, j: int|
        0 <= i < j < entries.len() ==> #[trigger] entries[i].0@ != #[trigger] entries[j].0@
}

impl StorageEnv {
    /// Both durability classes hold well-formed entry lists.
    pub open spec fn wf(&self) -> bool {
        keys_unique(self.instance@) && keys_unique(self.persistent@)
    }

    /// The entry list of the given durability class.
    pub open spec fn entries_of(&self, st: StorageType) -> Seq<(Vec<u8>, Vec<u8>)> {
        match st {
            StorageType::Persistent => self.persistent@,
            StorageType::Instance => self.instance@,
        }
    }

    /// A fresh store with no entries and no events.
    pub fn new() -> (r: StorageEnv)
        ensures
            r.instance@ == Seq::<(Vec<u8>, Vec<u8>)>::empty(),
            r.persistent@ == Seq::<(Vec<u8>, Vec<u8>)>::empty(),
            r.events@ == Seq::<StorageChangeEvent>::empty(),
            r.wf(),
    {
        StorageEnv { instance: Vec::new(), persistent: Vec::new(), events: Vec::new() }
    }
}

/// A handle selecting the durability class that the accessors below act on.
pub struct Storage {
    pub storage_type: StorageType,
}

impl Default for Storage {
    /// The default handle reads and writes the instance class.
    fn default() -> (r: Storage)
        ensures
            r.storage_type == StorageType::Instance,
    {
        Storage { storage_type: StorageType::Instance }
    }
}

/// Finds the position of the binding for `key`, if any.
fn find_key(entries: &Vec<(Vec<u8>, Vec<u8>)>, key: &Vec<u8>) -> (r: Option<usize>)
    ensures
        match r {
            Some(i) => i < entries@.len() && entries@[i as int].0@ == key@,
            None => !has_key(entries@, key@),
        },
{
    let mut i: usize = 0;
    while i < entries.len()
        invariant
            i <= entries@.len(),
            forall|j: int| 0 <= j < i ==> #[trigger] entries@[j].0@ != key@,
        decreases entries@.len() - i,
    {
        if bytes_eq(&entries[i].0, key) {
            return Some(i);
        }
        i = i + 1;
    }
    None
}

impl Storage {
    /// A handle on the instance (short-lived) class.
    pub fn instance() -> (r: Storage)
        ensures
            r.storage_type == StorageType::Instance,
    {
        Storage { storage_type: StorageType::Instance }
    }

    /// A handle on the persistent (durable) class.
    pub fn persistent() -> (r: Storage)
        ensures
            r.storage_type == StorageType::Persistent,
    {
        Storage { storage_type: StorageType::Persistent }
    }

    /// Looks a key up, handing back a copy of the stored value.
    pub fn get(&self, env: &StorageEnv, key: &Vec<u8>) -> (r: Option<Vec<u8>>)
        ensures
            r is Some <==> has_key(env.entries_of(self.storage_type), key@),
            r matches Some(v) ==> exists|i: int|
                0 <= i < env.entries_of(self.storage_type).len()
                    && #[trigger] env.entries_of(self.storage_type)[i].0@ == key@
                    && env.entries_of(self.storage_type)[i].1@ == v@,
    {
        let entries = match self.storage_type {
            StorageType::Persistent => &env.persistent,
            StorageType::Instance => &env.instance,
        };
        match find_key(entries, key) {
            Some(i) => {
                let v = clone_bytes(&entries[i].1);
                proof {
                    assert(0 <= i < env.entries_of(self.storage_type).len()
                        && env.entries_of(self.storage_type)[i as int].0@ == key@
                        && env.entries_of(self.storage_type)[i as int].1@ == v@);
                }
                Some(v)
            },
            None => None,
        }
    }

    /// True when the key is bound in this handle's class.
    pub fn has(&self, env: &StorageEnv, key: &Vec<u8>) -> (r: bool)
        ensures
            r == has_key(env.entries_of(self.storage_type), key@),
    {
        let entries = match self.storage_type {
            StorageType::Persistent => &env.persistent,
            StorageType::Instance => &env.instance,
        };
        find_key(entries, key).is_some()
    }

    /// Binds a fresh key; fails when the key is already bound.
    pub fn store(&self, env: &mut StorageEnv, key: Vec<u8>, value: Vec<u8>) -> (r: Result<(), Error>)
        requires
            old(env).wf(),
        ensures
            final(env).wf(),
            r is Ok <==> !has_key(old(env).entries_of(self.storage_type), key@),
            r == Err::<(), Error>(Error::AlreadyExists) <==> has_key(
                old(env).entries_of(self.storage_type),
                key@,
            ),
            r is Err ==> *final(env) == *old(env),
            r is Ok ==> final(env).entries_of(self.storage_type) == old(env).entries_of(
                self.storage_type,
            ).push((key, value)),
            r is Ok ==> final(env).entries_of(other_class(self.storage_type)) == old(env).entries_of(other_class(self.storage_type)),
            r is Ok ==> final(env).events@ == old(env).events@.push(
                StorageChangeEvent {
                    storage_type: self.storage_type,
                    operation: StorageOperation::Store,
                },
            ),
    {
        let present = self.has(env, &key);
        if present {
            return Err(Error::AlreadyExists);
        }
        match self.storage_type {
            StorageType::Persistent => env.persistent.push((key, value)),
            StorageType::Instance => env.instance.push((key, value)),
        }
        env.events.push(
            StorageChangeEvent {
                storage_type: self.storage_type,
                operation: StorageOperation::Store,
            },
        );
        proof {
            lemma_push_keeps_unique(old(env).entries_of(self.storage_type), key, value);
        }
        Ok(())
    }

    /// Overwrites an existing binding; fails when the key is absent.
    pub fn update(&self, env: &mut StorageEnv, key: Vec<u8>, value: Vec<u8>) -> (r: Result<
        (),
        Error,
    >)
        requires
            old(env).wf(),
        ensures
            final(env).wf(),
            r is Ok <==> has_key(old(env).entries_of(self.storage_type), key@),
            r == Err::<(), Error>(Error::NotFound) <==> !has_key(
                old(env).entries_of(self.storage_type),
                key@,
            ),
            r is Err ==> *final(env) == *old(env),
            r is Ok ==> exists|i: int|
                0 <= i < old(env).entries_of(self.storage_type).len()
                    && #[trigger] old(env).entries_of(self.storage_type)[i].0@ == key@
                    && final(env).entries_of(self.storage_type) == old(env).entries_of(
                    self.storage_type,
                ).update(i, (key, value)),
            r is Ok ==> final(env).entries_of(other_class(self.storage_type)) == old(env).entries_of(other_class(self.storage_type)),
            r is Ok ==> final(env).events@ == old(env).events@.push(
                StorageChangeEvent {
                    storage_type: self.storage_type,
                    operation: StorageOperation::Update,
                },
            ),
    {
        let entries = match self.storage_type {
            StorageType::Persistent => &env.persistent,
            StorageType::Instance => &env.instance,
        };
        let found = find_key(entries, &key);
        match found {
            None => Err(Error::NotFound),
            Some(i) => {
                let ghost old_entries = entries@;
                match self.storage_type {
                    StorageType::Persistent => {
                        env.persistent.remove(i);
                        env.persistent.insert(i, (key, value));
                    },
                    StorageType::Instance => {
                        env.instance.remove(i);
                        env.instance.insert(i, (key, value));
                    },
                }
                env.events.push(
                    StorageChangeEvent {
                        storage_type: self.storage_type,
                        operation: StorageOperation::Update,
                    },
                );
                proof {
                    assert(env.entries_of(self.storage_type) =~= old_entries.update(
                        i as int,
                        (key, value),
                    ));
                    lemma_update_keeps_unique(old_entries, i as int, key, value);
                    assert(old(env).entries_of(self.storage_type)[i as int].0@ == key@);
                }
                Ok(())
            },
        }
    }

    /// Removes a binding; fails when the key is absent.
    pub fn delete(&self, env: &mut StorageEnv, key: &Vec<u8>) -> (r: Result<(), Error>)
        requires
            old(env).wf(),
        ensures
            final(env).wf(),
            r is Ok <==> has_key(old(env).entries_of(self.storage_type), key@),
            r == Err::<(), Error>(Error::NotFound) <==> !has_key(
                old(env).entries_of(self.storage_type),
                key@,
            ),
            r is Err ==> *final(env) == *old(env),
            r is Ok ==> exists|i: int|
                0 <= i < old(env).entries_of(self.storage_type).len()
                    && #[trigger] old(env).entries_of(self.storage_type)[i].0@ == key@
                    && final(env).entries_of(self.storage_type) == old(env).entries_of(
                    self.storage_type,
                ).remove(i),
            r is Ok ==> !has_key(final(env).entries_of(self.storage_type), key@),
            r is Ok ==> final(env).entries_of(other_class(self.storage_type)) == old(env).entries_of(other_class(self.storage_type)),
            r is Ok ==> final(env).events@ == old(env).events@.push(
                StorageChangeEvent {
                    storage_type: self.storage_type,
                    operation: StorageOperation::Delete,
                },
            ),
    {
        let entries = match self.storage_type {
            StorageType::Persistent => &env.persistent,
            StorageType::Instance => &env.instance,
        };
        let found = find_key(entries, key);
        match found {
            None => Err(Error::NotFound),
            Some(i) => {
                let ghost old_entries = entries@;
                match self.storage_type {
                    StorageType::Persistent => {
                        env.persistent.remove(i);
                    },
                    StorageType::Instance => {
                        env.instance.remove(i);
                    },
                }
                env.events.push(
                    StorageChangeEvent {
                        storage_type: self.storage_type,
                        operation: StorageOperation::Delete,
                    },
                );
                proof {
                    lemma_remove_keeps_unique(old_entries, i as int);
                    lemma_remove_drops_key(old_entries, i as int, key@);
                    assert(old(env).entries_of(self.storage_type)[i as int].0@ == key@);
                    assert(final(env).entries_of(self.storage_type) == old(env).entries_of(
                        self.storage_type,
                    ).remove(i as int));
                }
                Ok(())
            },
        }
    }
}

/// The durability class the handle does not act on.
pub open spec fn other_class(st: StorageType) -> StorageType {
    match st {
        StorageType::Persistent => StorageType::Instance,
        StorageType::Instance => StorageType::Persistent,
    }
}

proof fn lemma_push_keeps_unique(entries: Seq<(Vec<u8>, Vec<u8>)>, key: Vec<u8>, value: Vec<u8>)
    requires
        keys_unique(entries),
        !has_key(entries, key@),
    ensures
        keys_unique(entries.push((key, value))),
{
    let pushed = entries.push((key, value));
    assert forall|i: int, j: int| 0 <= i < j < pushed.len() implies #[trigger] pushed[i].0@
        != #[trigger] pushed[j].0@ by {
        if j == entries.len() {
            assert(pushed[i] == entries[i]);
        }
    }
}

proof fn lemma_update_keeps_unique(
    entries: Seq<(Vec<u8>, Vec<u8>)>,
    at: int,
    key: Vec<u8>,
    value: Vec<u8>,
)
    requires
        keys_unique(entries),
        0 <= at < entries.len(),
        entries[at].0@ == key@,
    ensures
        keys_unique(entries.update(at, (key, value))),
{
    let updated = entries.update(at, (key, value));
    assert forall|i: int, j: int| 0 <= i < j < updated.len() implies #[trigger] updated[i].0@
        != #[trigger] updated[j].0@ by {
        assert(entries[i].0@ != entries[j].0@);
    }
}

proof fn lemma_remove_keeps_unique(entries: Seq<(Vec<u8>, Vec<u8>)>, at: int)
    requires
        keys_unique(entries),
        0 <= at < entries.len(),
    ensures
        keys_unique(entries.remove(at)),
{
    let removed = entries.remove(at);
    assert forall|i: int, j: int| 0 <= i < j < removed.len() implies #[trigger] removed[i].0@
        != #[trigger] removed[j].0@ by {
        let oi = if i < at {
            i
        } else {
            i + 1
        };
        let oj = if j < at {
            j
        } else {
            j + 1
        };
        assert(removed[i] == entries[oi]);
        assert(removed[j] == entries[oj]);
        assert(entries[oi].0@ != entries[oj].0@);
    }
}

proof fn lemma_remove_drops_key(entries: Seq<(Vec<u8>, Vec<u8>)>, at: int, k: Seq<u8>)
    requires
        keys_unique(entries),
        0 <= at < entries.len(),
        entries[at].0@ == k,
    ensures
        !has_key(entries.remove(at), k),
{
    let removed = entries.remove(at);
    assert forall|i: int| 0 <= i < removed.len() implies #[trigger] removed[i].0@ != k by {
        let oi = if i < at {
            i
        } else {
            i + 1
        };
        assert(removed[i] == entries[oi]);
        if oi < at {
            assert(entries[oi].0@ != entries[at].0@);
        } else {
            assert(entries[at].0@ != entries[oi].0@);
        }
    }
}

} // verus!
