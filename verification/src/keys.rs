//! Key derivation: each logical entry is spread over four keys of the
//! flat key-value store, formed by appending a fixed suffix to the
//! entry's identifier.

use vstd::prelude::*;
use vstd::string::StringExecFns;

verus! {

/// Key under which an entry's kind is stored.
pub open spec fn type_key_of(id: Seq<char>) -> Seq<char> {
    id + "_type"@
}

/// Key under which an entry's content is stored.
pub open spec fn content_key_of(id: Seq<char>) -> Seq<char> {
    id + "_content"@
}

/// Key under which an entry's password is stored.
pub open spec fn password_key_of(id: Seq<char>) -> Seq<char> {
    id + "_password"@
}

/// Key under which an entry's read counter is stored.
pub open spec fn stat_count_key_of(id: Seq<char>) -> Seq<char> {
    id + "_stat_count"@
}

/// Derives the store key of an entry's kind.
pub fn type_key(id: &str) -> (r: String)
    ensures
        r@ == type_key_of(id@),
{
    let mut s = String::from_str(id);
    s.append("_type");
    s
}

/// Derives the store key of an entry's content.
pub fn content_key(id: &str) -> (r: String)
    ensures
        r@ == content_key_of(id@),
{
    let mut s = String::from_str(id);
    s.append("_content");
    s
}

/// Derives the store key of an entry's password.
pub fn password_key(id: &str) -> (r: String)
    ensures
        r@ == password_key_of(id@),
{
    let mut s = String::from_str(id);
    s.append("_password");
    s
}

/// Derives the store key of an entry's read counter.
pub fn stat_count_key(id: &str) -> (r: String)
    ensures
        r@ == stat_count_key_of(id@),
{
    let mut s = String::from_str(id);
    s.append("_stat_count");
    s
}

/// The four keys of one identifier are pairwise distinct: their
/// suffixes all have different lengths.
pub proof fn lemma_keys_distinct(id: Seq<char>)
    ensures
        type_key_of(id) != content_key_of(id),
        type_key_of(id) != password_key_of(id),
        type_key_of(id) != stat_count_key_of(id),
        content_key_of(id) != password_key_of(id),
        content_key_of(id) != stat_count_key_of(id),
        password_key_of(id) != stat_count_key_of(id),
{
    reveal_strlit("_type");
    reveal_strlit("_content");
    reveal_strlit("_password");
    reveal_strlit("_stat_count");
    assert(type_key_of(id).len() == id.len() + 5);
    assert(content_key_of(id).len() == id.len() + 8);
    assert(password_key_of(id).len() == id.len() + 9);
    assert(stat_count_key_of(id).len() == id.len() + 11);
}

} // verus!
