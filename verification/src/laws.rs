//! The laws the library keeps: round-tripping, cumulative counting,
//! the password gate, URL validation, and full deletion, each proved
//! over the same spec functions the operations' own contracts use.

use vstd::prelude::*;
use crate::store::ValueView;
use crate::keys::lemma_keys_distinct;
use crate::be64::lemma_be_val_of_bytes;
use crate::entry::{
    Kind, StoreError, entry_exists, entry_is, create_result, create_post, update_result,
    update_post, delete_result, delete_post, bump_result, bump_post, stat_result,
};
use crate::handler::{
    PostOutcome, post_result, post_post, defaulted_kind, is_url,
};

verus! {

proof fn kind_texts_differ()
    ensures
        "link"@ != "plain"@,
        "link"@.len() == 4,
        "plain"@.len() == 5,
{
    reveal_strlit("link");
    reveal_strlit("plain");
    assert("link"@.len() == 4);
    assert("plain"@.len() == 5);
}

/// A fresh creation writes a whole well-formed entry, counter at
/// zero.
pub proof fn lemma_create_entry(
    m: Map<Seq<char>, ValueView>,
    id: Seq<char>,
    kind: Kind,
    content: Seq<char>,
    password: Seq<char>,
)
    requires
        !entry_exists(m, id),
    ensures
        create_result(m, id) == Ok::<(), StoreError>(()),
        entry_is(create_post(m, id, kind, content, password), id, kind, content, password, 0),
{
    lemma_keys_distinct(id);
    lemma_be_val_of_bytes(0);
    kind_texts_differ();
}

/// One successful fetch returns the stored kind and content and
/// bumps exactly the counter: everything else is untouched.
pub proof fn lemma_bump_step(
    m: Map<Seq<char>, ValueView>,
    id: Seq<char>,
    kind: Kind,
    content: Seq<char>,
    password: Seq<char>,
    count: u64,
)
    requires
        entry_is(m, id, kind, content, password, count),
        count < u64::MAX,
    ensures
        bump_result(m, id) == Ok::<(Kind, Seq<char>), StoreError>((kind, content)),
        entry_is(bump_post(m, id), id, kind, content, password, (count + 1) as u64),
{
    lemma_keys_distinct(id);
    lemma_be_val_of_bytes((count + 1) as u64);
    kind_texts_differ();
}

/// Round-trip: creating an entry and then fetching it by its
/// identifier yields exactly the created content under the created
/// kind, and the counter then reads one.
pub proof fn lemma_round_trip(
    m: Map<Seq<char>, ValueView>,
    id: Seq<char>,
    kind: Kind,
    content: Seq<char>,
    password: Seq<char>,
)
    requires
        !entry_exists(m, id),
    ensures
        ({
            let m1 = create_post(m, id, kind, content, password);
            let m2 = bump_post(m1, id);
            &&& bump_result(m1, id) == Ok::<(Kind, Seq<char>), StoreError>((kind, content))
            &&& stat_result(m2, id) == Ok::<u64, StoreError>(1)
            &&& entry_is(m2, id, kind, content, password, 1)
        }),
{
    lemma_create_entry(m, id, kind, content, password);
    let m1 = create_post(m, id, kind, content, password);
    lemma_bump_step(m1, id, kind, content, password, 0);
}

/// The store after `n` successive fetches of one identifier.
pub open spec fn bump_n(m: Map<Seq<char>, ValueView>, id: Seq<char>, n: nat) -> Map<
    Seq<char>,
    ValueView,
>
    decreases n,
{
    if n == 0 {
        m
    } else {
        bump_post(bump_n(m, id, (n - 1) as nat), id)
    }
}

/// Counting is cumulative: while the counter can still grow by `n`,
/// every one of `n` successive fetches succeeds with the unchanged
/// kind and content, and afterwards the counter reads exactly `n`
/// more.
pub proof fn lemma_idempotent_counting(
    m: Map<Seq<char>, ValueView>,
    id: Seq<char>,
    kind: Kind,
    content: Seq<char>,
    password: Seq<char>,
    count: u64,
    n: nat,
)
    requires
        entry_is(m, id, kind, content, password, count),
        count + n <= u64::MAX,
    ensures
        entry_is(bump_n(m, id, n), id, kind, content, password, (count + n) as u64),
        n > 0 ==> bump_result(bump_n(m, id, (n - 1) as nat), id) == Ok::<
            (Kind, Seq<char>),
            StoreError,
        >((kind, content)),
        stat_result(bump_n(m, id, n), id) == Ok::<u64, StoreError>((count + n) as u64),
    decreases n,
{
    if n == 0 {
    } else {
        lemma_idempotent_counting(m, id, kind, content, password, count, (n - 1) as nat);
        lemma_bump_step(
            bump_n(m, id, (n - 1) as nat),
            id,
            kind,
            content,
            password,
            (count + n - 1) as u64,
        );
    }
}

/// The password gate: an update or a delete whose supplied password
/// differs from the stored one always fails with a password
/// mismatch, and the store — the entry included — is left exactly as
/// it was.
pub proof fn lemma_password_gate(
    m: Map<Seq<char>, ValueView>,
    id: Seq<char>,
    kind: Kind,
    content: Seq<char>,
    password: Seq<char>,
    count: u64,
    supplied: Seq<char>,
    new_kind: Kind,
    new_content: Seq<char>,
)
    requires
        entry_is(m, id, kind, content, password, count),
        supplied != password,
    ensures
        update_result(m, id, supplied) == Err::<(), StoreError>(StoreError::WrongPassword),
        update_post(m, id, new_kind, new_content, supplied) == m,
        delete_result(m, id, supplied) == Err::<(), StoreError>(StoreError::WrongPassword),
        delete_post(m, id, supplied) == m,
{
}

/// URL validation: an otherwise valid request for a link entry whose
/// content is not an absolute URL is answered `InvalidUrl`, and the
/// store is left unchanged — in particular, no entry appears under a
/// fresh identifier.
pub proof fn lemma_link_requires_url(
    m: Map<Seq<char>, ValueView>,
    id: Seq<char>,
    kind_param: Option<Seq<char>>,
    pwd: Seq<char>,
    access: Seq<char>,
    site_token: Seq<char>,
    content: Seq<char>,
)
    requires
        defaulted_kind(kind_param) == "link"@,
        !is_url(content),
        site_token.len() == 0 || access == site_token,
        id.len() > 0,
        pwd.len() > 0,
    ensures
        post_result(m, id, kind_param, pwd, access, site_token, content)
            == PostOutcome::InvalidUrl,
        post_post(m, id, kind_param, pwd, access, site_token, content) == m,
        !entry_exists(m, id) ==> !entry_exists(
            post_post(m, id, kind_param, pwd, access, site_token, content),
            id,
        ),
{
    kind_texts_differ();
}

/// Full deletion: deleting with the stored password succeeds, after
/// which the identifier reads and counts as never used, and a fresh
/// creation under it starts over with a counter of zero.
pub proof fn lemma_full_deletion(
    m: Map<Seq<char>, ValueView>,
    id: Seq<char>,
    kind: Kind,
    content: Seq<char>,
    password: Seq<char>,
    count: u64,
    new_kind: Kind,
    new_content: Seq<char>,
    new_password: Seq<char>,
)
    requires
        entry_is(m, id, kind, content, password, count),
    ensures
        delete_result(m, id, password) == Ok::<(), StoreError>(()),
        ({
            let m1 = delete_post(m, id, password);
            &&& !entry_exists(m1, id)
            &&& bump_result(m1, id) == Err::<(Kind, Seq<char>), StoreError>(StoreError::NotFound)
            &&& stat_result(m1, id) == Err::<u64, StoreError>(StoreError::NotFound)
            &&& create_result(m1, id) == Ok::<(), StoreError>(())
            &&& entry_is(
                create_post(m1, id, new_kind, new_content, new_password),
                id,
                new_kind,
                new_content,
                new_password,
                0,
            )
        }),
{
    lemma_keys_distinct(id);
    let m1 = delete_post(m, id, password);
    lemma_create_entry(m1, id, new_kind, new_content, new_password);
}

/// An empty identifier or an empty password is always turned away
/// before anything is stored, whatever the other parameters hold.
pub proof fn lemma_empty_params_rejected(
    m: Map<Seq<char>, ValueView>,
    id: Seq<char>,
    kind_param: Option<Seq<char>>,
    pwd: Seq<char>,
    access: Seq<char>,
    site_token: Seq<char>,
    content: Seq<char>,
)
    requires
        id.len() == 0 || pwd.len() == 0,
    ensures
        post_result(m, id, kind_param, pwd, access, site_token, content)
            == PostOutcome::AccessDenied || post_result(
            m,
            id,
            kind_param,
            pwd,
            access,
            site_token,
            content,
        ) == PostOutcome::MissingParam,
        post_post(m, id, kind_param, pwd, access, site_token, content) == m,
{
}

} // verus!
