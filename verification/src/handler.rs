//! The request handler: validates inbound parameters in a fixed
//! order, enforces the site-wide access token, and drives the entry
//! store, leaving status codes and message rendering to the HTTP
//! layer around it.

use vstd::prelude::*;
use vstd::string::StringExecFns;
use crate::entry::{
    EntryStore, Kind, StoreError, entry_exists, create_effect, update_result, update_effect,
    bump_result, bump_post, stat_result, delete_result, delete_post,
};
use crate::store::ValueView;

verus! {

/// Whether a string parses as an absolute URL. The answer depends on
/// the characters alone; it is fixed by the parser relied on below.
pub uninterp spec fn is_url(s: Seq<char>) -> bool;

/// Relies on url::Url::parse: a pure parse of the given string, so
/// whether it succeeds is a function of the string alone.
#[verifier::external_body]
fn url_parses(s: &str) -> (r: bool)
    ensures
        r == is_url(s@),
{
    url::Url::parse(s).is_ok()
}

/// Relies on nanoid::format with the URL-safe 64-symbol alphabet and
/// its default random source: the returned identifier has exactly
/// `len` characters. Nothing else is promised of a random string.
#[verifier::external_body]
fn random_id(len: usize) -> (r: String)
    ensures
        r@.len() == len as int,
{
    nanoid::format(nanoid::rngs::default, &nanoid::alphabet::SAFE, len)
}

/// Verbatim string comparison.
pub fn str_eq(a: &str, b: &str) -> (r: bool)
    ensures
        r == (a@ == b@),
{
    String::from_str(a) == String::from_str(b)
}

/// The view of an optional text parameter.
pub open spec fn opt_text(o: Option<&str>) -> Option<Seq<char>> {
    match o {
        Some(s) => Some(s@),
        None => None,
    }
}

/// Outcome of the create-or-update path, in validation order.
#[derive(Clone, Copy, PartialEq, Eq, Structural, Debug)]
pub enum PostOutcome {
    /// No entry existed: one was created.
    Created,
    /// An entry existed and the password matched: it was updated.
    Updated,
    /// The site-wide access token is set and was not supplied.
    AccessDenied,
    /// The identifier, the kind or the password is empty.
    MissingParam,
    /// The kind is neither of the two known ones.
    UnsupportedType,
    /// A link entry whose content is not an absolute URL.
    InvalidUrl,
    /// An entry existed and the supplied password differs.
    PasswordMismatch,
    /// A violated storage invariant: fatal, nothing was changed.
    Internal,
}

/// The kind named by the (defaulted) kind parameter.
pub open spec fn post_kind(kt: Seq<char>) -> Kind {
    if kt == "plain"@ {
        Kind::Plain
    } else {
        Kind::Link
    }
}

/// The kind parameter after defaulting: an absent kind means a link.
pub open spec fn defaulted_kind(kind_param: Option<Seq<char>>) -> Seq<char> {
    match kind_param {
        Some(kt) => kt,
        None => "link"@,
    }
}

/// What the create-or-update path answers, checks in validation
/// order, each failure short-circuiting.
pub open spec fn post_result(
    m: Map<Seq<char>, ValueView>,
    id: Seq<char>,
    kind_param: Option<Seq<char>>,
    pwd: Seq<char>,
    access: Seq<char>,
    site_token: Seq<char>,
    content: Seq<char>,
) -> PostOutcome {
    let kt = defaulted_kind(kind_param);
    if site_token.len() > 0 && access != site_token {
        PostOutcome::AccessDenied
    } else if id.len() == 0 || kt.len() == 0 || pwd.len() == 0 {
        PostOutcome::MissingParam
    } else if kt != "link"@ && kt != "plain"@ {
        PostOutcome::UnsupportedType
    } else if kt == "link"@ && !is_url(content) {
        PostOutcome::InvalidUrl
    } else if !entry_exists(m, id) {
        PostOutcome::Created
    } else {
        match update_result(m, id, pwd) {
            Ok(()) => PostOutcome::Updated,
            Err(StoreError::WrongPassword) => PostOutcome::PasswordMismatch,
            Err(_) => PostOutcome::Internal,
        }
    }
}

/// The store after the create-or-update path: changed only by a
/// successful create or update.
pub open spec fn post_post(
    m: Map<Seq<char>, ValueView>,
    id: Seq<char>,
    kind_param: Option<Seq<char>>,
    pwd: Seq<char>,
    access: Seq<char>,
    site_token: Seq<char>,
    content: Seq<char>,
) -> Map<Seq<char>, ValueView> {
    let kt = defaulted_kind(kind_param);
    let r = post_result(m, id, kind_param, pwd, access, site_token, content);
    if r == PostOutcome::Created {
        create_effect(m, id, post_kind(kt), content, pwd)
    } else if r == PostOutcome::Updated {
        update_effect(m, id, post_kind(kt), content)
    } else {
        m
    }
}

/// Validates and then creates or updates the entry under `id`, as
/// the store answers. The store is held exclusively for the whole
/// call, so the existence check and the write that follows it are
/// one atomic step: no concurrent first writer can slip between
/// them.
pub fn create_or_update(
    store: &mut EntryStore,
    id: &str,
    kind_param: Option<&str>,
    pwd: &str,
    access: &str,
    site_token: &str,
    content: &str,
) -> (r: PostOutcome)
    ensures
        r == post_result(
            old(store)@,
            id@,
            opt_text(kind_param),
            pwd@,
            access@,
            site_token@,
            content@,
        ),
        final(store)@ == post_post(
            old(store)@,
            id@,
            opt_text(kind_param),
            pwd@,
            access@,
            site_token@,
            content@,
        ),
{
    proof {
        reveal_strlit("link");
        reveal_strlit("plain");
        assert("link"@.len() == 4);
        assert("plain"@.len() == 5);
        assert("link"@ != "plain"@);
    }
    let kt: &str = match kind_param {
        Some(v) => v,
        None => "link",
    };
    if !site_token.is_empty() && !str_eq(access, site_token) {
        return PostOutcome::AccessDenied;
    }
    if id.is_empty() || kt.is_empty() || pwd.is_empty() {
        return PostOutcome::MissingParam;
    }
    let kind: Kind = if str_eq(kt, "link") {
        Kind::Link
    } else if str_eq(kt, "plain") {
        Kind::Plain
    } else {
        return PostOutcome::UnsupportedType;
    };
    if kind == Kind::Link && !url_parses(content) {
        return PostOutcome::InvalidUrl;
    }
    if !store.has_entry(id) {
        match store.create(id, kind, content, pwd) {
            Ok(_) => PostOutcome::Created,
            Err(_) => PostOutcome::Internal,
        }
    } else {
        match store.update(id, kind, content, pwd) {
            Ok(_) => PostOutcome::Updated,
            Err(StoreError::WrongPassword) => PostOutcome::PasswordMismatch,
            Err(_) => PostOutcome::Internal,
        }
    }
}

/// Generates a random identifier of the configured length, then
/// behaves exactly as the create-or-update path under it.
pub fn post_with_random_id(
    store: &mut EntryStore,
    id_len: usize,
    kind_param: Option<&str>,
    pwd: &str,
    access: &str,
    site_token: &str,
    content: &str,
) -> (r: (String, PostOutcome))
    ensures
        r.0@.len() == id_len as int,
        r.1 == post_result(
            old(store)@,
            r.0@,
            opt_text(kind_param),
            pwd@,
            access@,
            site_token@,
            content@,
        ),
        final(store)@ == post_post(
            old(store)@,
            r.0@,
            opt_text(kind_param),
            pwd@,
            access@,
            site_token@,
            content@,
        ),
{
    let id = random_id(id_len);
    let out = create_or_update(store, id.as_str(), kind_param, pwd, access, site_token, content);
    (id, out)
}

/// Outcome of fetching an entry's content.
#[derive(Debug)]
pub enum FetchOutcome {
    /// A link entry: redirect to its content.
    Redirect(String),
    /// A plain entry: its content as literal text.
    Text(String),
    /// No entry under this identifier.
    Missing,
    /// A violated storage invariant: fatal.
    Internal,
}

/// The mathematical shape of a fetch outcome.
pub enum FetchView {
    Redirect(Seq<char>),
    Text(Seq<char>),
    Missing,
    Internal,
}

impl View for FetchOutcome {
    type V = FetchView;

    open spec fn view(&self) -> FetchView {
        match self {
            FetchOutcome::Redirect(s) => FetchView::Redirect(s@),
            FetchOutcome::Text(s) => FetchView::Text(s@),
            FetchOutcome::Missing => FetchView::Missing,
            FetchOutcome::Internal => FetchView::Internal,
        }
    }
}

/// What fetching answers: the entry's content, surfaced per its
/// kind, after a successful read bumped the counter.
pub open spec fn fetch_result(m: Map<Seq<char>, ValueView>, id: Seq<char>) -> FetchView {
    match bump_result(m, id) {
        Ok(p) => if p.0 == Kind::Link {
            FetchView::Redirect(p.1)
        } else {
            FetchView::Text(p.1)
        },
        Err(StoreError::NotFound) => FetchView::Missing,
        Err(_) => FetchView::Internal,
    }
}

/// Fetches the entry under `id`, bumping its read counter on
/// success.
pub fn fetch(store: &mut EntryStore, id: &str) -> (r: FetchOutcome)
    ensures
        r@ == fetch_result(old(store)@, id@),
        final(store)@ == bump_post(old(store)@, id@),
{
    match store.read_and_bump(id) {
        Ok((k, c)) => if k == Kind::Link {
            FetchOutcome::Redirect(c)
        } else {
            FetchOutcome::Text(c)
        },
        Err(StoreError::NotFound) => FetchOutcome::Missing,
        Err(_) => FetchOutcome::Internal,
    }
}

/// Outcome of reading an entry's counter.
#[derive(Clone, Copy, PartialEq, Eq, Structural, Debug)]
pub enum StatOutcome {
    Count(u64),
    Missing,
    Internal,
}

/// What the counter read answers, without mutation.
pub open spec fn stat_outcome(m: Map<Seq<char>, ValueView>, id: Seq<char>) -> StatOutcome {
    match stat_result(m, id) {
        Ok(n) => StatOutcome::Count(n),
        Err(StoreError::NotFound) => StatOutcome::Missing,
        Err(_) => StatOutcome::Internal,
    }
}

/// Reads the entry's counter without changing anything.
pub fn fetch_stat(store: &EntryStore, id: &str) -> (r: StatOutcome)
    ensures
        r == stat_outcome(store@, id@),
{
    match store.read_stat(id) {
        Ok(n) => StatOutcome::Count(n),
        Err(StoreError::NotFound) => StatOutcome::Missing,
        Err(_) => StatOutcome::Internal,
    }
}

/// Outcome of deleting an entry.
#[derive(Clone, Copy, PartialEq, Eq, Structural, Debug)]
pub enum DeleteOutcome {
    Deleted,
    Missing,
    PasswordMismatch,
    Internal,
}

/// What deletion answers.
pub open spec fn delete_outcome(
    m: Map<Seq<char>, ValueView>,
    id: Seq<char>,
    pwd: Seq<char>,
) -> DeleteOutcome {
    match delete_result(m, id, pwd) {
        Ok(()) => DeleteOutcome::Deleted,
        Err(StoreError::NotFound) => DeleteOutcome::Missing,
        Err(StoreError::WrongPassword) => DeleteOutcome::PasswordMismatch,
        Err(_) => DeleteOutcome::Internal,
    }
}

/// Deletes the entry under `id` if the password matches.
pub fn delete_by_id(store: &mut EntryStore, id: &str, password: &str) -> (r: DeleteOutcome)
    ensures
        r == delete_outcome(old(store)@, id@, password@),
        final(store)@ == delete_post(old(store)@, id@, password@),
{
    match store.delete(id, password) {
        Ok(_) => DeleteOutcome::Deleted,
        Err(StoreError::NotFound) => DeleteOutcome::Missing,
        Err(StoreError::WrongPassword) => DeleteOutcome::PasswordMismatch,
        Err(_) => DeleteOutcome::Internal,
    }
}

/// The site index: a redirect when a link is configured, the welcome
/// text otherwise.
#[derive(Debug)]
pub enum IndexOutcome {
    Redirect(String),
    Text(String),
}

/// The mathematical shape of the index response.
pub enum IndexView {
    Redirect(Seq<char>),
    Text(Seq<char>),
}

impl View for IndexOutcome {
    type V = IndexView;

    open spec fn view(&self) -> IndexView {
        match self {
            IndexOutcome::Redirect(s) => IndexView::Redirect(s@),
            IndexOutcome::Text(s) => IndexView::Text(s@),
        }
    }
}

/// Decides the site index response from the configuration.
pub fn index_response(index_link: &str, index_text: &str) -> (r: IndexOutcome)
    ensures
        index_link@.len() > 0 ==> r@ == IndexView::Redirect(index_link@),
        index_link@.len() == 0 ==> r@ == IndexView::Text(index_text@),
{
    if !index_link.is_empty() {
        IndexOutcome::Redirect(String::from_str(index_link))
    } else {
        IndexOutcome::Text(String::from_str(index_text))
    }
}

} // verus!
