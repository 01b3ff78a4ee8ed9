use vstd::prelude::*;
use crate::codec::{
    decode_process, encodable, encode_process, lemma_codec_roundtrip, spec_decode, spec_encode,
};
use crate::database::{Key, Process, ProcessModel, PROCESSES};
use crate::system::is_process_running;

verus! {

/// Whether `p` is a prefix of `k`.
pub open spec fn is_prefix_of(p: Seq<u8>, k: Seq<u8>) -> bool {
    p.len() <= k.len() && k.subrange(0, p.len() as int) == p
}

/// Strict lexicographic byte order: the order in which the store keeps and
/// lists its keys.
pub open spec fn lex_lt(a: Seq<u8>, b: Seq<u8>) -> bool
    decreases a.len(),
{
    if b.len() == 0 {
        false
    } else if a.len() == 0 {
        true
    } else if a[0] < b[0] {
        true
    } else if a[0] > b[0] {
        false
    } else {
        lex_lt(a.drop_first(), b.drop_first())
    }
}

#[verifier::external_type_specification]
#[verifier::external_body]
pub struct ExSledDb(sled::Db);

#[verifier::external_type_specification]
#[verifier::external_body]
pub struct ExSledError(sled::Error);

/// The persistent process registry: the keyspace of the embedded store that
/// maps each watched working directory to its process record. The store
/// itself is an external collaborator; this handle is the single point
/// through which the registry logic reaches it. The contracts below state
/// what each operation does to the keyspace's contents under the store's
/// single-writer discipline: every operation on a keyspace goes through the
/// one handle that opened it, and no other writer runs concurrently.
#[verifier::external_body]
pub struct Registry {
    tree: sled::Tree,
}

/// The contents of the registry's keyspace: the mapping from key bytes to
/// stored value bytes.
pub uninterp spec fn registry_map(r: Registry) -> Map<Seq<u8>, Seq<u8>>;

impl View for Registry {
    type V = Map<Seq<u8>, Seq<u8>>;

    open spec fn view(&self) -> Map<Seq<u8>, Seq<u8>> {
        registry_map(*self)
    }
}

#[derive(Debug)]
pub enum RegistryError {
    /// The underlying store failed; the keyspace is unchanged.
    Database(sled::Error),
    /// A record for the key already exists; it is surfaced unchanged.
    AlreadyExists(Process),
    /// No record exists for the key.
    NotFound,
    /// The record's process id is confirmed alive; removal is refused so a
    /// running watcher is not lost track of.
    StillRunning,
    /// A stored value does not decode as any known record version.
    CorruptRecord,
}

/// Relies on `sled::open`: opens (creating it if absent) the database under
/// the given directory path. Nothing is promised of the outcome: it depends
/// on what is on disk.
#[verifier::external_body]
fn open_database(path: &str) -> (r: Result<sled::Db, sled::Error>) {
    sled::open(path)
}

/// Relies on `sled::Db::open_tree`: opens the named keyspace. The store
/// holds finitely many entries, so the keyspace contents are a finite map;
/// what they are depends on what is on disk.
#[verifier::external_body]
fn open_keyspace(db: &sled::Db, name: &str) -> (r: Result<Registry, sled::Error>)
    ensures
        r matches Ok(reg) ==> registry_map(reg).dom().finite(),
{
    match db.open_tree(name) {
        Ok(tree) => Ok(Registry { tree }),
        Err(e) => Err(e),
    }
}

impl Registry {
    /// Relies on `sled::Tree::get`: returns the value stored under `key`,
    /// if any.
    #[verifier::external_body]
    fn kv_get(&self, key: &Vec<u8>) -> (r: Result<Option<Vec<u8>>, sled::Error>)
        ensures
            match r {
                Ok(Some(v)) => self@.dom().contains(key@) && self@[key@] == v@,
                Ok(None) => !self@.dom().contains(key@),
                Err(_) => true,
            },
    {
        match self.tree.get(key.as_slice()) {
            Ok(Some(v)) => Ok(Some(v.as_ref().to_vec())),
            Ok(None) => Ok(None),
            Err(e) => Err(e),
        }
    }

    /// Relies on `sled::Tree::insert`: a single-key insert, atomic and
    /// crash-durable; on success the keyspace maps `key` to `value` and is
    /// otherwise unchanged, and on failure it is unchanged.
    #[verifier::external_body]
    fn kv_insert(&mut self, key: &Vec<u8>, value: &Vec<u8>) -> (r: Result<(), sled::Error>)
        ensures
            match r {
                Ok(()) => final(self)@ == old(self)@.insert(key@, value@),
                Err(_) => final(self)@ == old(self)@,
            },
    {
        match self.tree.insert(key.as_slice(), value.as_slice()) {
            Ok(_) => Ok(()),
            Err(e) => Err(e),
        }
    }

    /// Relies on `sled::Tree::remove`: a single-key delete, atomic and
    /// crash-durable; returns the previous value. On success the key is
    /// gone and the keyspace is otherwise unchanged; on failure it is
    /// unchanged.
    #[verifier::external_body]
    fn kv_remove(&mut self, key: &Vec<u8>) -> (r: Result<Option<Vec<u8>>, sled::Error>)
        ensures
            match r {
                Ok(prev) => final(self)@ == old(self)@.remove(key@) && (match prev {
                    Some(v) => old(self)@.dom().contains(key@) && old(self)@[key@] == v@,
                    None => !old(self)@.dom().contains(key@),
                }),
                Err(_) => final(self)@ == old(self)@,
            },
    {
        match self.tree.remove(key.as_slice()) {
            Ok(Some(v)) => Ok(Some(v.as_ref().to_vec())),
            Ok(None) => Ok(None),
            Err(e) => Err(e),
        }
    }

    /// Relies on `sled::Tree::scan_prefix`: iterates, in ascending
    /// lexicographic key order, exactly the entries whose key begins with
    /// `prefix`.
    #[verifier::external_body]
    fn kv_scan_prefix(&self, prefix: &Vec<u8>) -> (r: Result<Vec<(Vec<u8>, Vec<u8>)>, sled::Error>)
        ensures
            match r {
                Ok(entries) => {
                    &&& forall|i: int|
                        0 <= i < entries.len() ==> {
                            &&& self@.dom().contains((#[trigger] entries[i]).0@)
                            &&& self@[entries[i].0@] == entries[i].1@
                            &&& is_prefix_of(prefix@, entries[i].0@)
                        }
                    &&& forall|k: Seq<u8>|
                        #[trigger] self@.dom().contains(k) && is_prefix_of(prefix@, k)
                            ==> exists|i: int| 0 <= i < entries.len() && (#[trigger] entries[i]).0@ == k
                    &&& forall|i: int, j: int|
                        0 <= i < j < entries.len() ==> lex_lt(
                            (#[trigger] entries[i]).0@,
                            (#[trigger] entries[j]).0@,
                        )
                },
                Err(_) => true,
            },
    {
        let mut out: Vec<(Vec<u8>, Vec<u8>)> = Vec::new();
        for item in self.tree.scan_prefix(prefix.as_slice()) {
            match item {
                Ok((k, v)) => out.push((k.as_ref().to_vec(), v.as_ref().to_vec())),
                Err(e) => {
                    return Err(e);
                },
            }
        }
        Ok(out)
    }

    /// Opens the registry stored under the given directory path.
    pub fn open(path: &str) -> (r: Result<Registry, RegistryError>)
        ensures
            r matches Ok(reg) ==> reg@.dom().finite(),
    {
        let db = match open_database(path) {
            Ok(db) => db,
            Err(e) => {
                return Err(RegistryError::Database(e));
            },
        };
        match open_keyspace(&db, PROCESSES) {
            Ok(reg) => Ok(reg),
            Err(e) => Err(RegistryError::Database(e)),
        }
    }

    /// Looks up the record stored for `key`.
    pub fn get(&self, key: &Key) -> (r: Result<Option<Process>, RegistryError>)
        ensures
            match r {
                Ok(Some(p)) => self@.dom().contains(key@) && Some(p@) == spec_decode(self@[key@]),
                Ok(None) => !self@.dom().contains(key@),
                Err(RegistryError::CorruptRecord) => self@.dom().contains(key@) && spec_decode(
                    self@[key@],
                ) is None,
                Err(RegistryError::Database(_)) => true,
                _ => false,
            },
    {
        match self.kv_get(key.as_bytes()) {
            Err(e) => Err(RegistryError::Database(e)),
            Ok(None) => Ok(None),
            Ok(Some(bytes)) => match decode_process(&bytes) {
                Some(p) => Ok(Some(p)),
                None => Err(RegistryError::CorruptRecord),
            },
        }
    }

    /// Registers a record under `key`: a check-then-insert, which the
    /// store's single-writer discipline keeps free of races on the key. If
    /// a record already exists for the key, it is refused and the existing
    /// record is surfaced; the first record is left unchanged.
    pub fn register(&mut self, key: &Key, record: &Process) -> (r: Result<(), RegistryError>)
        requires
            encodable(record@),
        ensures
            match r {
                Ok(()) => !old(self)@.dom().contains(key@) && final(self)@ == old(self)@.insert(
                    key@,
                    spec_encode(record@),
                ),
                Err(RegistryError::AlreadyExists(existing)) => {
                    &&& old(self)@.dom().contains(key@)
                    &&& final(self)@ == old(self)@
                    &&& Some(existing@) == spec_decode(old(self)@[key@])
                },
                Err(RegistryError::CorruptRecord) => {
                    &&& old(self)@.dom().contains(key@)
                    &&& final(self)@ == old(self)@
                    &&& spec_decode(old(self)@[key@]) is None
                },
                Err(RegistryError::Database(_)) => final(self)@ == old(self)@,
                _ => false,
            },
    {
        match self.kv_get(key.as_bytes()) {
            Err(e) => {
                return Err(RegistryError::Database(e));
            },
            Ok(Some(bytes)) => {
                return match decode_process(&bytes) {
                    Some(existing) => Err(RegistryError::AlreadyExists(existing)),
                    None => Err(RegistryError::CorruptRecord),
                };
            },
            Ok(None) => {},
        }
        let value = encode_process(record);
        match self.kv_insert(key.as_bytes(), &value) {
            Ok(()) => Ok(()),
            Err(e) => Err(RegistryError::Database(e)),
        }
    }

    /// Removes the record for `key`, given the liveness probe's verdict on
    /// the recorded process id. Removal is refused while the verdict is
    /// "alive", so a running watcher is not lost track of; a record with no
    /// process id never blocks removal.
    pub fn remove_given_liveness(&mut self, key: &Key, alive: bool) -> (r: Result<
        (),
        RegistryError,
    >)
        ensures
            match r {
                Ok(()) => {
                    &&& old(self)@.dom().contains(key@)
                    &&& spec_decode(old(self)@[key@]) matches Some(m) && !(m.process_id is Some
                        && alive)
                    &&& final(self)@ == old(self)@.remove(key@)
                },
                Err(RegistryError::NotFound) => !old(self)@.dom().contains(key@) && final(self)@
                    == old(self)@,
                Err(RegistryError::StillRunning) => {
                    &&& old(self)@.dom().contains(key@)
                    &&& spec_decode(old(self)@[key@]) matches Some(m) && m.process_id is Some
                    &&& alive
                    &&& final(self)@ == old(self)@
                },
                Err(RegistryError::CorruptRecord) => {
                    &&& old(self)@.dom().contains(key@)
                    &&& spec_decode(old(self)@[key@]) is None
                    &&& final(self)@ == old(self)@
                },
                Err(RegistryError::Database(_)) => final(self)@ == old(self)@,
                _ => false,
            },
    {
        let record = match self.get(key) {
            Err(e) => {
                return Err(e);
            },
            Ok(None) => {
                return Err(RegistryError::NotFound);
            },
            Ok(Some(record)) => record,
        };
        if record.active() && alive {
            return Err(RegistryError::StillRunning);
        }
        match self.kv_remove(key.as_bytes()) {
            Ok(_) => Ok(()),
            Err(e) => Err(RegistryError::Database(e)),
        }
    }

    /// Removes the record for `key` unless the liveness probe confirms its
    /// recorded process id alive. The probe's answer depends on the
    /// machine's state, so the contract states what holds either way.
    pub fn remove(&mut self, key: &Key) -> (r: Result<(), RegistryError>)
        ensures
            match r {
                Ok(()) => {
                    &&& old(self)@.dom().contains(key@)
                    &&& spec_decode(old(self)@[key@]) is Some
                    &&& final(self)@ == old(self)@.remove(key@)
                },
                Err(RegistryError::NotFound) => !old(self)@.dom().contains(key@) && final(self)@
                    == old(self)@,
                Err(RegistryError::StillRunning) => {
                    &&& old(self)@.dom().contains(key@)
                    &&& spec_decode(old(self)@[key@]) matches Some(m) && m.process_id is Some
                    &&& final(self)@ == old(self)@
                },
                Err(RegistryError::CorruptRecord) => {
                    &&& old(self)@.dom().contains(key@)
                    &&& spec_decode(old(self)@[key@]) is None
                    &&& final(self)@ == old(self)@
                },
                Err(RegistryError::Database(_)) => final(self)@ == old(self)@,
                _ => false,
            },
    {
        let record = match self.get(key) {
            Err(e) => {
                return Err(e);
            },
            Ok(None) => {
                return Err(RegistryError::NotFound);
            },
            Ok(Some(record)) => record,
        };
        let alive = match record.process_id() {
            Some(id) => is_process_running(id),
            None => false,
        };
        self.remove_given_liveness(key, alive)
    }

    /// Lists, in key byte order, exactly the registered entries whose key
    /// starts with `prefix`, each with its decoded record.
    pub fn lookup_prefix(&self, prefix: &Key) -> (r: Result<Vec<(Key, Process)>, RegistryError>)
        ensures
            match r {
                Ok(entries) => {
                    &&& forall|i: int|
                        0 <= i < entries.len() ==> {
                            &&& self@.dom().contains((#[trigger] entries[i]).0@)
                            &&& Some(entries[i].1@) == spec_decode(self@[entries[i].0@])
                            &&& is_prefix_of(prefix@, entries[i].0@)
                        }
                    &&& forall|k: Seq<u8>|
                        #[trigger] self@.dom().contains(k) && is_prefix_of(prefix@, k)
                            ==> exists|i: int| 0 <= i < entries.len() && (#[trigger] entries[i]).0@ == k
                    &&& forall|i: int, j: int|
                        0 <= i < j < entries.len() ==> lex_lt(
                            (#[trigger] entries[i]).0@,
                            (#[trigger] entries[j]).0@,
                        )
                },
                Err(RegistryError::CorruptRecord) => exists|k: Seq<u8>|
                    #[trigger] self@.dom().contains(k) && is_prefix_of(prefix@, k) && spec_decode(
                        self@[k],
                    ) is None,
                Err(RegistryError::Database(_)) => true,
                _ => false,
            },
    {
        let raw = match self.kv_scan_prefix(prefix.as_bytes()) {
            Ok(raw) => raw,
            Err(e) => {
                return Err(RegistryError::Database(e));
            },
        };
        let mut out: Vec<(Key, Process)> = Vec::new();
        let n = raw.len();
        let mut i: usize = 0;
        while i < n
            invariant
                n == raw@.len(),
                i <= n,
                out@.len() == i,
                forall|j: int| 0 <= j < i ==> (#[trigger] out@[j]).0@ == raw@[j].0@,
                forall|j: int|
                    0 <= j < i ==> Some((#[trigger] out@[j]).1@) == spec_decode(
                        self@[out@[j].0@],
                    ),
                forall|j: int|
                    0 <= j < n ==> {
                        &&& self@.dom().contains((#[trigger] raw@[j]).0@)
                        &&& self@[raw@[j].0@] == raw@[j].1@
                        &&& is_prefix_of(prefix@, raw@[j].0@)
                    },
                forall|k: Seq<u8>|
                    #[trigger] self@.dom().contains(k) && is_prefix_of(prefix@, k)
                        ==> exists|j: int| 0 <= j < n && (#[trigger] raw@[j]).0@ == k,
                forall|j: int, l: int|
                    0 <= j < l < n ==> lex_lt((#[trigger] raw@[j]).0@, (#[trigger] raw@[l]).0@),
            decreases n - i,
        {
            let record = match decode_process(&raw[i].1) {
                Some(record) => record,
                None => {
                    return Err(RegistryError::CorruptRecord);
                },
            };
            let kb = vstd::slice::slice_to_vec(raw[i].0.as_slice());
            assert(kb@ == raw@[i as int].0@);
            out.push((Key::from_bytes(kb), record));
            i += 1;
        }
        proof {
            assert forall|k: Seq<u8>|
                #[trigger] self@.dom().contains(k) && is_prefix_of(prefix@, k) implies exists|j: int|
                0 <= j < out@.len() && (#[trigger] out@[j]).0@ == k by {
                let j = choose|j: int| 0 <= j < n && (#[trigger] raw@[j]).0@ == k;
                assert(out@[j].0@ == k);
            };
            assert forall|a: int, b: int| 0 <= a < b < out@.len() implies lex_lt(
                (#[trigger] out@[a]).0@,
                (#[trigger] out@[b]).0@,
            ) by {
                assert(out@[a].0@ == raw@[a].0@);
                assert(out@[b].0@ == raw@[b].0@);
            };
            assert forall|a: int| 0 <= a < out@.len() implies self@.dom().contains(
                (#[trigger] out@[a]).0@,
            ) && is_prefix_of(prefix@, out@[a].0@) by {
                assert(out@[a].0@ == raw@[a].0@);
            };
        }
        Ok(out)
    }
}

/// After a registration is stored, the key is present and its stored value
/// still decodes to exactly the registered record. Together with the
/// contract of [`Registry::register`], a second registration of the same
/// key without an intervening removal is therefore refused with
/// `AlreadyExists`, surfacing that same record, and leaves the keyspace
/// unchanged.
pub proof fn lemma_register_idempotent(m: Map<Seq<u8>, Seq<u8>>, key: Seq<u8>, record: ProcessModel)
    requires
        encodable(record),
    ensures
        m.insert(key, spec_encode(record)).dom().contains(key),
        spec_decode(m.insert(key, spec_encode(record))[key]) == Some(record),
{
    lemma_codec_roundtrip(record);
}

/// After a removal succeeds, the key is absent, so the contract of
/// [`Registry::lookup_prefix`] never lists it in a later scan.
pub proof fn lemma_removed_key_absent(m: Map<Seq<u8>, Seq<u8>>, key: Seq<u8>)
    ensures
        !m.remove(key).dom().contains(key),
{
}

} // verus!
