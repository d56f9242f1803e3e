//! The flat key-value store that entries are persisted in: string
//! keys, values that are either raw text or raw bytes, and an atomic
//! multi-key batch write, so that the four keys of one entry are
//! always written and deleted together.

use vstd::prelude::*;

verus! {

/// A value stored under one key: raw text, or raw bytes (the read
/// counter's fixed-width encoding).
pub enum Value {
    Text(String),
    Bytes(Vec<u8>),
}

/// The mathematical shape of a stored value.
pub enum ValueView {
    Text(Seq<char>),
    Bytes(Seq<u8>),
}

impl View for Value {
    type V = ValueView;

    open spec fn view(&self) -> ValueView {
        match self {
            Value::Text(s) => ValueView::Text(s@),
            Value::Bytes(b) => ValueView::Bytes(b@),
        }
    }
}

impl Clone for Value {
    fn clone(&self) -> (r: Self)
        ensures
            r@ == self@,
    {
        match self {
            Value::Text(s) => Value::Text(s.clone()),
            Value::Bytes(b) => Value::Bytes(b.clone()),
        }
    }
}

/// The view of a backing map of stored values.
pub open spec fn kv_view(m: Map<Seq<char>, Value>) -> Map<Seq<char>, ValueView> {
    m.map_values(|v: Value| v@)
}

/// One operation of an atomic batch write.
pub enum BatchOp {
    Put(String, Value),
    Del(String),
}

/// The effect of one batch operation on the store's contents.
pub open spec fn apply_op(m: Map<Seq<char>, ValueView>, op: BatchOp) -> Map<Seq<char>, ValueView> {
    match op {
        BatchOp::Put(k, v) => m.insert(k@, v@),
        BatchOp::Del(k) => m.remove(k@),
    }
}

/// The effect of a whole batch, applied in order.
pub open spec fn apply_ops(m: Map<Seq<char>, ValueView>, ops: Seq<BatchOp>) -> Map<
    Seq<char>,
    ValueView,
>
    decreases ops.len(),
{
    if ops.len() == 0 {
        m
    } else {
        apply_op(apply_ops(m, ops.drop_last()), ops.last())
    }
}

/// A two-operation batch, unfolded.
pub proof fn lemma_apply_ops2(m: Map<Seq<char>, ValueView>, s: Seq<BatchOp>)
    requires
        s.len() == 2,
    ensures
        apply_ops(m, s) == apply_op(apply_op(m, s[0]), s[1]),
{
    reveal_with_fuel(apply_ops, 3);
    let s1 = s.drop_last();
    assert(s1.drop_last().len() == 0);
    assert(s1.last() == s[0]);
}

/// A four-operation batch, unfolded.
pub proof fn lemma_apply_ops4(m: Map<Seq<char>, ValueView>, s: Seq<BatchOp>)
    requires
        s.len() == 4,
    ensures
        apply_ops(m, s) == apply_op(apply_op(apply_op(apply_op(m, s[0]), s[1]), s[2]), s[3]),
{
    reveal_with_fuel(apply_ops, 5);
    let s3 = s.drop_last();
    let s2 = s3.drop_last();
    let s1 = s2.drop_last();
    assert(s1.drop_last().len() == 0);
    assert(s1.last() == s[0] && s2.last() == s[1] && s3.last() == s[2] && s.last() == s[3]);
}

/// The flat key-value store, seen as a map from keys to stored
/// values.
pub struct KvStore {
    map: vstd::hash_map::StringHashMap<Value>,
}

impl View for KvStore {
    type V = Map<Seq<char>, ValueView>;

    closed spec fn view(&self) -> Map<Seq<char>, ValueView> {
        kv_view(self.map@)
    }
}

proof fn lemma_kv_view_insert(m: Map<Seq<char>, Value>, k: Seq<char>, v: Value)
    ensures
        kv_view(m.insert(k, v)) == kv_view(m).insert(k, v@),
{
    assert(kv_view(m.insert(k, v)) =~= kv_view(m).insert(k, v@));
}

proof fn lemma_kv_view_remove(m: Map<Seq<char>, Value>, k: Seq<char>)
    ensures
        kv_view(m.remove(k)) == kv_view(m).remove(k),
{
    assert(kv_view(m.remove(k)) =~= kv_view(m).remove(k));
}

impl KvStore {
    /// Creates an empty store.
    pub fn new() -> (r: Self)
        ensures
            r@ == Map::<Seq<char>, ValueView>::empty(),
    {
        let r = KvStore { map: vstd::hash_map::StringHashMap::new() };
        proof {
            assert(r@ =~= Map::<Seq<char>, ValueView>::empty());
        }
        r
    }

    /// True iff some value is stored under `k`.
    pub fn contains(&self, k: &str) -> (r: bool)
        ensures
            r == self@.contains_key(k@),
    {
        self.map.contains_key(k)
    }

    /// The value stored under `k`, if any.
    pub fn get<'a>(&'a self, k: &str) -> (r: Option<&'a Value>)
        ensures
            match r {
                Some(v) => self@.contains_key(k@) && v@ == self@[k@],
                None => !self@.contains_key(k@),
            },
    {
        self.map.get(k)
    }

    /// Stores `v` under `k`, replacing any previous value.
    pub fn put(&mut self, k: String, v: Value)
        ensures
            final(self)@ == old(self)@.insert(k@, v@),
    {
        proof {
            lemma_kv_view_insert(self.map@, k@, v);
        }
        self.map.insert(k, v);
    }

    /// Removes the value stored under `k`, if any.
    pub fn del(&mut self, k: &str)
        ensures
            final(self)@ == old(self)@.remove(k@),
    {
        proof {
            lemma_kv_view_remove(self.map@, k@);
        }
        self.map.remove(k);
    }

    /// Applies every operation of the batch, in order. The store is
    /// single-writer here, so the batch is atomic: no reader can run
    /// between the operations of one call.
    pub fn write_batch(&mut self, ops: &Vec<BatchOp>)
        ensures
            final(self)@ == apply_ops(old(self)@, ops@),
    {
        let ghost m0 = self@;
        let mut i: usize = 0;
        while i < ops.len()
            invariant
                i <= ops.len(),
                self@ == apply_ops(m0, ops@.take(i as int)),
            decreases ops.len() - i,
        {
            proof {
                assert(ops@.take(i as int + 1).drop_last() =~= ops@.take(i as int));
                assert(ops@.take(i as int + 1).last() == ops@[i as int]);
            }
            match &ops[i] {
                BatchOp::Put(k, v) => {
                    self.put(k.clone(), v.clone());
                },
                BatchOp::Del(k) => {
                    self.del(k.as_str());
                },
            }
            i = i + 1;
        }
        proof {
            assert(ops@.take(ops@.len() as int) =~= ops@);
        }
    }
}

} // verus!
