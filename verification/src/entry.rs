//! The entry store: one logical entry per identifier, spread over
//! four related keys of the flat key-value store, with atomic
//! create, password-gated update and delete, and a read operation
//! that bumps the per-entry counter.

use vstd::prelude::*;
use vstd::string::StringExecFns;
use crate::keys::{
    type_key, content_key, password_key, stat_count_key, type_key_of, content_key_of,
    password_key_of, stat_count_key_of,
};
use crate::be64::{be_bytes_of, be_val, be_encode, be_decode};
use crate::store::{
    KvStore, Value, ValueView, BatchOp, lemma_apply_ops2, lemma_apply_ops4,
};

verus! {

/// How an entry's content is interpreted on read: a redirect target,
/// or literal text.
#[derive(Clone, Copy, PartialEq, Eq, Structural, Debug)]
pub enum Kind {
    Link,
    Plain,
}

/// The text under which a kind is persisted.
pub open spec fn kind_text(k: Kind) -> Seq<char> {
    match k {
        Kind::Link => "link"@,
        Kind::Plain => "plain"@,
    }
}

/// The persisted text of a kind.
pub fn kind_string(k: Kind) -> (r: String)
    ensures
        r@ == kind_text(k),
{
    match k {
        Kind::Link => String::from_str("link"),
        Kind::Plain => String::from_str("plain"),
    }
}

/// Parses persisted kind text back; anything but the two known
/// spellings is refused.
pub fn kind_of_string(s: &String) -> (r: Option<Kind>)
    ensures
        r == Some(Kind::Link) <==> s@ == "link"@,
        r == Some(Kind::Plain) <==> s@ == "plain"@,
        r is None <==> s@ != "link"@ && s@ != "plain"@,
{
    proof {
        reveal_strlit("link");
        reveal_strlit("plain");
        assert("link"@.len() == 4);
        assert("plain"@.len() == 5);
        assert("link"@ != "plain"@);
    }
    if *s == String::from_str("link") {
        Some(Kind::Link)
    } else if *s == String::from_str("plain") {
        Some(Kind::Plain)
    } else {
        None
    }
}

/// Outcomes of the entry store. `Corrupt` stands for a violated
/// storage invariant (a key present without its paired keys, or a
/// value of the wrong shape): fatal to the request, never repaired.
/// `CounterOverflow` is the one count that cannot be bumped further.
#[derive(Clone, Copy, PartialEq, Eq, Structural, Debug)]
pub enum StoreError {
    AlreadyExists,
    NotFound,
    WrongPassword,
    Corrupt,
    CounterOverflow,
}

/// An entry exists iff its kind key is present; the other three keys
/// are written and deleted together with it.
pub open spec fn entry_exists(m: Map<Seq<char>, ValueView>, id: Seq<char>) -> bool {
    m.contains_key(type_key_of(id))
}

/// A well-formed entry: all four keys present, kind one of the two
/// known spellings, content and password text, counter eight bytes.
pub open spec fn entry_wf(m: Map<Seq<char>, ValueView>, id: Seq<char>) -> bool {
    &&& m.contains_key(type_key_of(id))
    &&& m.contains_key(content_key_of(id))
    &&& m.contains_key(password_key_of(id))
    &&& m.contains_key(stat_count_key_of(id))
    &&& (m[type_key_of(id)] == ValueView::Text("link"@) || m[type_key_of(id)] == ValueView::Text(
        "plain"@,
    ))
    &&& m[content_key_of(id)] is Text
    &&& m[password_key_of(id)] is Text
    &&& m[stat_count_key_of(id)] is Bytes
    &&& m[stat_count_key_of(id)]->Bytes_0.len() == 8
}

/// The stored kind of a well-formed entry.
pub open spec fn entry_kind(m: Map<Seq<char>, ValueView>, id: Seq<char>) -> Kind {
    if m[type_key_of(id)] == ValueView::Text("link"@) {
        Kind::Link
    } else {
        Kind::Plain
    }
}

/// The stored content of an entry.
pub open spec fn entry_content(m: Map<Seq<char>, ValueView>, id: Seq<char>) -> Seq<char> {
    m[content_key_of(id)]->Text_0
}

/// The stored password of an entry.
pub open spec fn entry_password(m: Map<Seq<char>, ValueView>, id: Seq<char>) -> Seq<char> {
    m[password_key_of(id)]->Text_0
}

/// The stored read counter of an entry.
pub open spec fn entry_count(m: Map<Seq<char>, ValueView>, id: Seq<char>) -> u64 {
    be_val(m[stat_count_key_of(id)]->Bytes_0)
}

/// The whole logical entry under `id`, in one predicate.
pub open spec fn entry_is(
    m: Map<Seq<char>, ValueView>,
    id: Seq<char>,
    kind: Kind,
    content: Seq<char>,
    password: Seq<char>,
    count: u64,
) -> bool {
    &&& entry_wf(m, id)
    &&& entry_kind(m, id) == kind
    &&& entry_content(m, id) == content
    &&& entry_password(m, id) == password
    &&& entry_count(m, id) == count
}

/// What Create answers on a given store.
pub open spec fn create_result(m: Map<Seq<char>, ValueView>, id: Seq<char>) -> Result<
    (),
    StoreError,
> {
    if entry_exists(m, id) {
        Err(StoreError::AlreadyExists)
    } else {
        Ok(())
    }
}

/// The four keys a successful Create writes, atomically.
pub open spec fn create_effect(
    m: Map<Seq<char>, ValueView>,
    id: Seq<char>,
    kind: Kind,
    content: Seq<char>,
    password: Seq<char>,
) -> Map<Seq<char>, ValueView> {
    m.insert(type_key_of(id), ValueView::Text(kind_text(kind))).insert(
        content_key_of(id),
        ValueView::Text(content),
    ).insert(password_key_of(id), ValueView::Text(password)).insert(
        stat_count_key_of(id),
        ValueView::Bytes(be_bytes_of(0)),
    )
}

/// The store after Create: unchanged unless it succeeded.
pub open spec fn create_post(
    m: Map<Seq<char>, ValueView>,
    id: Seq<char>,
    kind: Kind,
    content: Seq<char>,
    password: Seq<char>,
) -> Map<Seq<char>, ValueView> {
    if entry_exists(m, id) {
        m
    } else {
        create_effect(m, id, kind, content, password)
    }
}

/// What Update answers: the entry must exist, its stored password
/// must be readable and must equal the supplied one verbatim.
pub open spec fn update_result(
    m: Map<Seq<char>, ValueView>,
    id: Seq<char>,
    supplied: Seq<char>,
) -> Result<(), StoreError> {
    if !entry_exists(m, id) {
        Err(StoreError::NotFound)
    } else if !(m.contains_key(password_key_of(id)) && m[password_key_of(id)] is Text) {
        Err(StoreError::Corrupt)
    } else if m[password_key_of(id)]->Text_0 != supplied {
        Err(StoreError::WrongPassword)
    } else {
        Ok(())
    }
}

/// The two keys a successful Update overwrites, atomically; password
/// and counter are left untouched.
pub open spec fn update_effect(
    m: Map<Seq<char>, ValueView>,
    id: Seq<char>,
    kind: Kind,
    content: Seq<char>,
) -> Map<Seq<char>, ValueView> {
    m.insert(content_key_of(id), ValueView::Text(content)).insert(
        type_key_of(id),
        ValueView::Text(kind_text(kind)),
    )
}

/// The store after Update: unchanged unless it succeeded.
pub open spec fn update_post(
    m: Map<Seq<char>, ValueView>,
    id: Seq<char>,
    kind: Kind,
    content: Seq<char>,
    supplied: Seq<char>,
) -> Map<Seq<char>, ValueView> {
    if update_result(m, id, supplied) is Ok {
        update_effect(m, id, kind, content)
    } else {
        m
    }
}

/// What Delete answers: it goes by the password key, compares the
/// stored password verbatim, and only then erases.
pub open spec fn delete_result(
    m: Map<Seq<char>, ValueView>,
    id: Seq<char>,
    supplied: Seq<char>,
) -> Result<(), StoreError> {
    if !m.contains_key(password_key_of(id)) {
        Err(StoreError::NotFound)
    } else if !(m[password_key_of(id)] is Text) {
        Err(StoreError::Corrupt)
    } else if m[password_key_of(id)]->Text_0 != supplied {
        Err(StoreError::WrongPassword)
    } else {
        Ok(())
    }
}

/// A successful Delete erases all four keys, atomically.
pub open spec fn delete_effect(m: Map<Seq<char>, ValueView>, id: Seq<char>) -> Map<
    Seq<char>,
    ValueView,
> {
    m.remove(type_key_of(id)).remove(content_key_of(id)).remove(password_key_of(id)).remove(
        stat_count_key_of(id),
    )
}

/// The store after Delete: unchanged unless it succeeded.
pub open spec fn delete_post(
    m: Map<Seq<char>, ValueView>,
    id: Seq<char>,
    supplied: Seq<char>,
) -> Map<Seq<char>, ValueView> {
    if delete_result(m, id, supplied) is Ok {
        delete_effect(m, id)
    } else {
        m
    }
}

/// What the read path needs of an entry: every key it touches is
/// present and has the right shape. The password key is not read.
pub open spec fn read_wf(m: Map<Seq<char>, ValueView>, id: Seq<char>) -> bool {
    &&& m.contains_key(type_key_of(id))
    &&& (m[type_key_of(id)] == ValueView::Text("link"@) || m[type_key_of(id)] == ValueView::Text(
        "plain"@,
    ))
    &&& m.contains_key(content_key_of(id))
    &&& m[content_key_of(id)] is Text
    &&& m.contains_key(stat_count_key_of(id))
    &&& m[stat_count_key_of(id)] is Bytes
    &&& m[stat_count_key_of(id)]->Bytes_0.len() == 8
}

/// What ReadAndBump answers: the kind and content of the entry, or
/// why there is nothing sound to return.
pub open spec fn bump_result(m: Map<Seq<char>, ValueView>, id: Seq<char>) -> Result<
    (Kind, Seq<char>),
    StoreError,
> {
    if !entry_exists(m, id) {
        Err(StoreError::NotFound)
    } else if !read_wf(m, id) {
        Err(StoreError::Corrupt)
    } else if entry_count(m, id) == u64::MAX {
        Err(StoreError::CounterOverflow)
    } else {
        Ok((entry_kind(m, id), entry_content(m, id)))
    }
}

/// The store after ReadAndBump: on success exactly the counter key is
/// rewritten, one higher.
pub open spec fn bump_post(m: Map<Seq<char>, ValueView>, id: Seq<char>) -> Map<
    Seq<char>,
    ValueView,
> {
    if bump_result(m, id) is Ok {
        m.insert(stat_count_key_of(id), ValueView::Bytes(be_bytes_of((entry_count(m, id) + 1) as u64)))
    } else {
        m
    }
}

/// What ReadStat answers: the current counter, without mutation.
pub open spec fn stat_result(m: Map<Seq<char>, ValueView>, id: Seq<char>) -> Result<
    u64,
    StoreError,
> {
    if !m.contains_key(stat_count_key_of(id)) {
        Err(StoreError::NotFound)
    } else if !(m[stat_count_key_of(id)] is Bytes && m[stat_count_key_of(id)]->Bytes_0.len()
        == 8) {
        Err(StoreError::Corrupt)
    } else {
        Ok(entry_count(m, id))
    }
}

/// The entry store over the flat key-value store.
pub struct EntryStore {
    kv: KvStore,
}

impl View for EntryStore {
    type V = Map<Seq<char>, ValueView>;

    closed spec fn view(&self) -> Map<Seq<char>, ValueView> {
        self.kv@
    }
}

impl EntryStore {
    /// An empty store: no identifier has an entry.
    pub fn new() -> (r: Self)
        ensures
            r@ == Map::<Seq<char>, ValueView>::empty(),
    {
        EntryStore { kv: KvStore::new() }
    }

    /// True iff an entry exists under `id`.
    pub fn has_entry(&self, id: &str) -> (r: bool)
        ensures
            r == entry_exists(self@, id@),
    {
        let k = type_key(id);
        self.kv.contains(k.as_str())
    }

    /// Creates the entry, all four keys in one atomic batch, counter
    /// at zero — unless one already exists under `id`.
    pub fn create(&mut self, id: &str, kind: Kind, content: &str, password: &str) -> (r: Result<
        (),
        StoreError,
    >)
        ensures
            r == create_result(old(self)@, id@),
            final(self)@ == create_post(old(self)@, id@, kind, content@, password@),
    {
        let tk = type_key(id);
        if self.kv.contains(tk.as_str()) {
            return Err(StoreError::AlreadyExists);
        }
        let mut ops: Vec<BatchOp> = Vec::new();
        ops.push(BatchOp::Put(tk, Value::Text(kind_string(kind))));
        ops.push(BatchOp::Put(content_key(id), Value::Text(String::from_str(content))));
        ops.push(BatchOp::Put(password_key(id), Value::Text(String::from_str(password))));
        ops.push(BatchOp::Put(stat_count_key(id), Value::Bytes(be_encode(0))));
        proof {
            lemma_apply_ops4(self@, ops@);
        }
        self.kv.write_batch(&ops);
        Ok(())
    }

    /// Overwrites kind and content in one atomic batch if the
    /// supplied password equals the stored one verbatim; password and
    /// counter stay untouched.
    pub fn update(&mut self, id: &str, kind: Kind, content: &str, supplied: &str) -> (r: Result<
        (),
        StoreError,
    >)
        ensures
            r == update_result(old(self)@, id@, supplied@),
            final(self)@ == update_post(old(self)@, id@, kind, content@, supplied@),
    {
        let tk = type_key(id);
        if !self.kv.contains(tk.as_str()) {
            return Err(StoreError::NotFound);
        }
        let pk = password_key(id);
        let matches_stored: bool = match self.kv.get(pk.as_str()) {
            None => {
                return Err(StoreError::Corrupt);
            },
            Some(Value::Bytes(_)) => {
                return Err(StoreError::Corrupt);
            },
            Some(Value::Text(p)) => *p == String::from_str(supplied),
        };
        if !matches_stored {
            return Err(StoreError::WrongPassword);
        }
        let mut ops: Vec<BatchOp> = Vec::new();
        ops.push(BatchOp::Put(content_key(id), Value::Text(String::from_str(content))));
        ops.push(BatchOp::Put(tk, Value::Text(kind_string(kind))));
        proof {
            lemma_apply_ops2(self@, ops@);
        }
        self.kv.write_batch(&ops);
        Ok(())
    }

    /// Erases the whole entry, all four keys in one atomic batch, if
    /// the supplied password equals the stored one verbatim.
    pub fn delete(&mut self, id: &str, supplied: &str) -> (r: Result<(), StoreError>)
        ensures
            r == delete_result(old(self)@, id@, supplied@),
            final(self)@ == delete_post(old(self)@, id@, supplied@),
    {
        let pk = password_key(id);
        let matches_stored: bool = match self.kv.get(pk.as_str()) {
            None => {
                return Err(StoreError::NotFound);
            },
            Some(Value::Bytes(_)) => {
                return Err(StoreError::Corrupt);
            },
            Some(Value::Text(p)) => *p == String::from_str(supplied),
        };
        if !matches_stored {
            return Err(StoreError::WrongPassword);
        }
        let mut ops: Vec<BatchOp> = Vec::new();
        ops.push(BatchOp::Del(type_key(id)));
        ops.push(BatchOp::Del(content_key(id)));
        ops.push(BatchOp::Del(pk));
        ops.push(BatchOp::Del(stat_count_key(id)));
        proof {
            lemma_apply_ops4(self@, ops@);
        }
        self.kv.write_batch(&ops);
        Ok(())
    }

    /// Reads kind and content and bumps the read counter by exactly
    /// one. The read and the write back are two separate store steps,
    /// as an approximate hit counter wants, not a compare-and-swap.
    pub fn read_and_bump(&mut self, id: &str) -> (r: Result<(Kind, String), StoreError>)
        ensures
            final(self)@ == bump_post(old(self)@, id@),
            r is Ok <==> bump_result(old(self)@, id@) is Ok,
            r is Ok ==> r->Ok_0.0 == bump_result(old(self)@, id@)->Ok_0.0 && r->Ok_0.1@
                == bump_result(old(self)@, id@)->Ok_0.1,
            r is Err ==> r->Err_0 == bump_result(old(self)@, id@)->Err_0,
    {
        let tk = type_key(id);
        let kind: Kind = match self.kv.get(tk.as_str()) {
            None => {
                return Err(StoreError::NotFound);
            },
            Some(Value::Bytes(_)) => {
                return Err(StoreError::Corrupt);
            },
            Some(Value::Text(t)) => {
                match kind_of_string(t) {
                    None => {
                        return Err(StoreError::Corrupt);
                    },
                    Some(k) => k,
                }
            },
        };
        let ck = content_key(id);
        let content: String = match self.kv.get(ck.as_str()) {
            None => {
                return Err(StoreError::Corrupt);
            },
            Some(Value::Bytes(_)) => {
                return Err(StoreError::Corrupt);
            },
            Some(Value::Text(c)) => c.clone(),
        };
        let sk = stat_count_key(id);
        let count: u64 = match self.kv.get(sk.as_str()) {
            None => {
                return Err(StoreError::Corrupt);
            },
            Some(Value::Text(_)) => {
                return Err(StoreError::Corrupt);
            },
            Some(Value::Bytes(b)) => {
                match be_decode(b) {
                    None => {
                        return Err(StoreError::Corrupt);
                    },
                    Some(n) => n,
                }
            },
        };
        if count == u64::MAX {
            return Err(StoreError::CounterOverflow);
        }
        self.kv.put(sk, Value::Bytes(be_encode(count + 1)));
        Ok((kind, content))
    }

    /// Reads the current counter without mutating anything.
    pub fn read_stat(&self, id: &str) -> (r: Result<u64, StoreError>)
        ensures
            r == stat_result(self@, id@),
    {
        let sk = stat_count_key(id);
        match self.kv.get(sk.as_str()) {
            None => Err(StoreError::NotFound),
            Some(Value::Text(_)) => Err(StoreError::Corrupt),
            Some(Value::Bytes(b)) => {
                match be_decode(b) {
                    None => Err(StoreError::Corrupt),
                    Some(n) => Ok(n),
                }
            },
        }
    }
}

} // verus!
