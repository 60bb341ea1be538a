//! The authentication request store: the state machine of pending and
//! approved requests. It owns the freshness window, the lookup-by-code
//! contract and the approval transition.
//!
//! Lookups honour only pending requests inside the freshness window and
//! prefer the most recent one, so a stale code can never be replayed and
//! duplicate codes resolve to the newest request. Approval is a conditional
//! update: it succeeds only while the request is still pending, so a second
//! approval can never silently overwrite the identity that the first one
//! recorded.

use vstd::prelude::*;
use vstd::string::StringExecFns;

use crate::errors::AuthError;
use crate::is_fresh;
use crate::timestamp_is_fresh;

verus! {

/// The lifecycle of an authentication request: pending until approved,
/// and never anything else afterwards.
#[derive(Debug, Clone, Copy, PartialEq, Eq, Structural)]
pub enum AuthStatus {
    Pending,
    Approved,
}

/// One persisted linking attempt.
///
/// `authentication_method`, `external_uid` and `external_username` are
/// written only on approval; `internal_account_id` is written on approval
/// only when a link to an internal account is already known.
#[derive(Debug)]
pub struct AuthRequest {
    pub id: i32,
    pub access_code: String,
    pub status: AuthStatus,
    pub updated_at: u64,
    pub authentication_method: Option<String>,
    pub external_uid: Option<String>,
    pub external_username: Option<String>,
    pub internal_account_id: Option<String>,
}

/// The mathematical image of one request: strings become character
/// sequences, everything else is carried as it is.
pub ghost struct AuthRequestView {
    pub id: i32,
    pub access_code: Seq<char>,
    pub status: AuthStatus,
    pub updated_at: u64,
    pub authentication_method: Option<Seq<char>>,
    pub external_uid: Option<Seq<char>>,
    pub external_username: Option<Seq<char>>,
    pub internal_account_id: Option<Seq<char>>,
}

pub open spec fn opt_string_view(o: Option<String>) -> Option<Seq<char>> {
    match o {
        Some(s) => Some(s@),
        None => None,
    }
}

pub open spec fn opt_str_view(o: Option<&str>) -> Option<Seq<char>> {
    match o {
        Some(s) => Some(s@),
        None => None,
    }
}

impl View for AuthRequest {
    type V = AuthRequestView;

    open spec fn view(&self) -> AuthRequestView {
        AuthRequestView {
            id: self.id,
            access_code: self.access_code@,
            status: self.status,
            updated_at: self.updated_at,
            authentication_method: opt_string_view(self.authentication_method),
            external_uid: opt_string_view(self.external_uid),
            external_username: opt_string_view(self.external_username),
            internal_account_id: opt_string_view(self.internal_account_id),
        }
    }
}

/// A request answers a lookup for `code` at time `now` when the code
/// matches, the request is still pending and its timestamp is fresh.
pub open spec fn req_matches(r: AuthRequestView, code: Seq<char>, now: u64) -> bool {
    &&& r.access_code == code
    &&& r.status is Pending
    &&& is_fresh(r.updated_at as int, now as int)
}

/// The index a lookup resolves to: among all requests answering the lookup,
/// the one with the greatest timestamp; among equal timestamps, the one
/// created last.
pub open spec fn best_match_index(s: Seq<AuthRequestView>, code: Seq<char>, now: u64) -> Option<
    int,
>
    decreases s.len(),
{
    if s.len() == 0 {
        None::<int>
    } else {
        let last = s.len() - 1;
        match best_match_index(s.drop_last(), code, now) {
            Some(j) => {
                if req_matches(s[last], code, now) && s[last].updated_at >= s[j].updated_at {
                    Some(last)
                } else {
                    Some(j)
                }
            },
            None => {
                if req_matches(s[last], code, now) {
                    Some(last)
                } else {
                    None::<int>
                }
            },
        }
    }
}

/// What a lookup returns: the id of the best match, or `NotFoundOrExpired`
/// when no pending request inside the freshness window carries the code.
pub open spec fn find_pending_spec(s: Seq<AuthRequestView>, code: Seq<char>, now: u64) -> Result<
    i32,
    AuthError,
> {
    match best_match_index(s, code, now) {
        Some(i) => Ok(s[i].id),
        None => Err(AuthError::NotFoundOrExpired),
    }
}

/// No two requests share an id.
pub open spec fn ids_unique(s: Seq<AuthRequestView>) -> bool {
    forall|i: int, j: int| 0 <= i < j < s.len() ==> s[i].id != s[j].id
}

/// The store of authentication requests, modelled as the sequence of its
/// records in creation order.
pub struct AuthStore {
    requests: Vec<AuthRequest>,
    next_id: i32,
}

impl View for AuthStore {
    type V = Seq<AuthRequestView>;

    closed spec fn view(&self) -> Seq<AuthRequestView> {
        self.requests@.map(|i: int, r: AuthRequest| r@)
    }
}

impl AuthStore {
    /// Well-formedness: ids are positive, unique, and below the allocation
    /// counter.
    pub closed spec fn wf(&self) -> bool {
        &&& 0 < self.next_id
        &&& ids_unique(self@)
        &&& forall|i: int| 0 <= i < self@.len() ==> 0 < #[trigger] self@[i].id < self.next_id
    }

    /// The id the next created request will carry.
    pub closed spec fn spec_next_id(&self) -> int {
        self.next_id as int
    }

    /// An empty store.
    pub fn new() -> (s: AuthStore)
        ensures
            s.wf(),
            s@ == Seq::<AuthRequestView>::empty(),
            s.spec_next_id() == 1,
    {
        let s = AuthStore { requests: Vec::new(), next_id: 1 };
        proof {
            assert(s@ =~= Seq::<AuthRequestView>::empty());
        }
        s
    }

    /// Returns the most recent pending request carrying `access_code` whose
    /// timestamp is within the freshness window of `now`, or
    /// `NotFoundOrExpired` when there is none.
    pub fn find_pending(&self, access_code: &str, now: u64) -> (r: Result<i32, AuthError>)
        ensures
            r == find_pending_spec(self@, access_code@, now),
    {
        let code = String::from_str(access_code);
        let n = self.requests.len();
        let mut best: Option<usize> = None;
        let mut idx: usize = 0;
        while idx < n
            invariant
                n == self.requests.len(),
                idx <= n,
                code@ == access_code@,
                match best {
                    Some(b) => b < idx && best_match_index(
                        self@.take(idx as int),
                        access_code@,
                        now,
                    ) == Some(b as int),
                    None => best_match_index(self@.take(idx as int), access_code@, now) is None,
                },
            decreases n - idx,
        {
            let req = &self.requests[idx];
            let hit = req.access_code == code && req.status == AuthStatus::Pending
                && timestamp_is_fresh(req.updated_at, now);
            proof {
                assert(self@.take(idx as int + 1).drop_last() =~= self@.take(idx as int));
                assert(self@.take(idx as int + 1).last() == self@[idx as int]);
                assert(hit == req_matches(self@[idx as int], access_code@, now));
            }
            if hit {
                best = match best {
                    Some(b) => {
                        if req.updated_at >= self.requests[b].updated_at {
                            Some(idx)
                        } else {
                            Some(b)
                        }
                    },
                    None => Some(idx),
                };
            }
            idx = idx + 1;
        }
        proof {
            assert(self@.take(n as int) =~= self@);
        }
        match best {
            Some(b) => Ok(self.requests[b].id),
            None => Err(AuthError::NotFoundOrExpired),
        }
    }

    /// Creates a pending request for `access_code` stamped with `now` and
    /// returns its id, which no other request carries.
    ///
    /// In the running system requests are created out-of-band by the game
    /// client; this is that external actor's entry point into the model.
    pub fn create_request(&mut self, access_code: &str, now: u64) -> (r: i32)
        requires
            old(self).wf(),
            old(self).spec_next_id() < i32::MAX,
        ensures
            final(self).wf(),
            final(self).spec_next_id() == old(self).spec_next_id() + 1,
            final(self)@ == old(self)@.push(pending_record(r, access_code@, now)),
            r == old(self).spec_next_id(),
            forall|i: int| 0 <= i < old(self)@.len() ==> old(self)@[i].id != r,
    {
        let id = self.next_id;
        let req = AuthRequest {
            id,
            access_code: String::from_str(access_code),
            status: AuthStatus::Pending,
            updated_at: now,
            authentication_method: None,
            external_uid: None,
            external_username: None,
            internal_account_id: None,
        };
        self.next_id = self.next_id + 1;
        self.requests.push(req);
        proof {
            assert(self@ =~= old(self)@.push(pending_record(id, access_code@, now)));
        }
        id
    }

    /// Approves the request `id` if it is still pending: stamps the
    /// timestamp to `now`, records method and external identity, and writes
    /// the internal-account link only when one is present. A request that is
    /// missing or already approved is left untouched and reported as
    /// `NotFoundOrExpired`, so approval can never overwrite an earlier
    /// approval.
    pub fn approve(
        &mut self,
        id: i32,
        authentication_method: &str,
        external_uid: &str,
        external_username: &str,
        internal_account_id: Option<&str>,
        now: u64,
    ) -> (r: Result<i32, AuthError>)
        requires
            old(self).wf(),
        ensures
            final(self).wf(),
            final(self).spec_next_id() == old(self).spec_next_id(),
            final(self)@ == approve_store_spec(
                old(self)@,
                id,
                authentication_method@,
                external_uid@,
                external_username@,
                opt_str_view(internal_account_id),
                now,
            ),
            r == approve_result_spec(old(self)@, id),
    {
        let ghost s0 = self@;
        let n = self.requests.len();
        let mut idx: usize = 0;
        while idx < n
            invariant
                n == self.requests.len(),
                idx <= n,
                self.wf(),
                s0 == self@,
                s0 == old(self)@,
                self.spec_next_id() == old(self).spec_next_id(),
                forall|j: int|
                    0 <= j < idx ==> !(#[trigger] s0[j].id == id && s0[j].status is Pending),
            decreases n - idx,
        {
            let req = &self.requests[idx];
            if req.id == id && req.status == AuthStatus::Pending {
                let old_req = self.requests.remove(idx);
                let new_req = AuthRequest {
                    id: old_req.id,
                    access_code: old_req.access_code,
                    status: AuthStatus::Approved,
                    updated_at: now,
                    authentication_method: Some(String::from_str(authentication_method)),
                    external_uid: Some(String::from_str(external_uid)),
                    external_username: Some(String::from_str(external_username)),
                    internal_account_id: match internal_account_id {
                        Some(l) => Some(String::from_str(l)),
                        None => old_req.internal_account_id,
                    },
                };
                self.requests.insert(idx, new_req);
                proof {
                    let i = idx as int;
                    assert(has_pending(s0, id)) by {
                        assert(s0[i].id == id && s0[i].status is Pending);
                    }
                    let k = pending_index(s0, id);
                    assert(s0[k].id == id && s0[k].status is Pending);
                    assert(ids_unique(s0));
                    assert(k == i) by {
                        if k != i {
                            if k < i {
                                assert(s0[k].id != s0[i].id);
                            } else {
                                assert(s0[i].id != s0[k].id);
                            }
                        }
                    }
                    assert(self@ =~= s0.update(
                        i,
                        approved_record(
                            s0[i],
                            authentication_method@,
                            external_uid@,
                            external_username@,
                            opt_str_view(internal_account_id),
                            now,
                        ),
                    ));
                    assert(final(self).wf()) by {
                        assert(forall|j: int|
                            0 <= j < self@.len() ==> #[trigger] self@[j].id == s0[j].id);
                    }
                }
                return Ok(id);
            }
            idx = idx + 1;
        }
        proof {
            assert(!has_pending(s0, id));
        }
        Err(AuthError::NotFoundOrExpired)
    }

    /// Reads the request carrying `id` back, or `None` when the store holds
    /// no such request.
    pub fn get_request(&self, id: i32) -> (r: Option<&AuthRequest>)
        requires
            self.wf(),
        ensures
            match r {
                Some(req) => has_id(self@, id) && req@ == self@[id_index(self@, id)],
                None => !has_id(self@, id),
            },
    {
        let n = self.requests.len();
        let mut idx: usize = 0;
        while idx < n
            invariant
                n == self.requests.len(),
                idx <= n,
                self.wf(),
                forall|j: int| 0 <= j < idx ==> #[trigger] self@[j].id != id,
            decreases n - idx,
        {
            if self.requests[idx].id == id {
                proof {
                    let i = idx as int;
                    assert(has_id(self@, id)) by {
                        assert(self@[i].id == id);
                    }
                    let k = id_index(self@, id);
                    assert(self@[k].id == id);
                    assert(k == i) by {
                        if k != i {
                            if k < i {
                                assert(self@[k].id != self@[i].id);
                            } else {
                                assert(self@[i].id != self@[k].id);
                            }
                        }
                    }
                }
                return Some(&self.requests[idx]);
            }
            idx = idx + 1;
        }
        None
    }
}

/// The record a creation appends: pending, stamped, identity fields unset.
pub open spec fn pending_record(id: i32, access_code: Seq<char>, now: u64) -> AuthRequestView {
    AuthRequestView {
        id,
        access_code,
        status: AuthStatus::Pending,
        updated_at: now,
        authentication_method: None,
        external_uid: None,
        external_username: None,
        internal_account_id: None,
    }
}

/// Some request carries `id` and is still pending.
pub open spec fn has_pending(s: Seq<AuthRequestView>, id: i32) -> bool {
    exists|i: int| 0 <= i < s.len() && #[trigger] s[i].id == id && s[i].status is Pending
}

/// The index of the pending request carrying `id`; meaningful only under
/// `has_pending`.
pub open spec fn pending_index(s: Seq<AuthRequestView>, id: i32) -> int {
    choose|i: int| 0 <= i < s.len() && #[trigger] s[i].id == id && s[i].status is Pending
}

/// Some request carries `id`, whatever its status.
pub open spec fn has_id(s: Seq<AuthRequestView>, id: i32) -> bool {
    exists|i: int| 0 <= i < s.len() && #[trigger] s[i].id == id
}

/// The index of the request carrying `id`; meaningful only under `has_id`.
pub open spec fn id_index(s: Seq<AuthRequestView>, id: i32) -> int {
    choose|i: int| 0 <= i < s.len() && #[trigger] s[i].id == id
}

/// What approval makes of a pending record: approved, restamped, identity
/// written, and the internal-account link written only when present.
pub open spec fn approved_record(
    r: AuthRequestView,
    method: Seq<char>,
    uid: Seq<char>,
    username: Seq<char>,
    link: Option<Seq<char>>,
    now: u64,
) -> AuthRequestView {
    AuthRequestView {
        status: AuthStatus::Approved,
        updated_at: now,
        authentication_method: Some(method),
        external_uid: Some(uid),
        external_username: Some(username),
        internal_account_id: match link {
            Some(l) => Some(l),
            None => r.internal_account_id,
        },
        ..r
    }
}

/// What approval does to the store: the conditional update of the pending
/// request carrying `id`, or no change at all.
pub open spec fn approve_store_spec(
    s: Seq<AuthRequestView>,
    id: i32,
    method: Seq<char>,
    uid: Seq<char>,
    username: Seq<char>,
    link: Option<Seq<char>>,
    now: u64,
) -> Seq<AuthRequestView> {
    if has_pending(s, id) {
        s.update(
            pending_index(s, id),
            approved_record(s[pending_index(s, id)], method, uid, username, link, now),
        )
    } else {
        s
    }
}

/// What approval returns: the id on success, `NotFoundOrExpired` when no
/// pending request carries it.
pub open spec fn approve_result_spec(s: Seq<AuthRequestView>, id: i32) -> Result<i32, AuthError> {
    if has_pending(s, id) {
        Ok(id)
    } else {
        Err(AuthError::NotFoundOrExpired)
    }
}

/// The index a lookup resolves to really is a best match: it answers the
/// lookup and no other answering request is more recent; and when the
/// lookup resolves to nothing, no request answers it.
proof fn lemma_best_match_props(s: Seq<AuthRequestView>, code: Seq<char>, now: u64)
    ensures
        match best_match_index(s, code, now) {
            Some(i) => 0 <= i < s.len() && req_matches(s[i], code, now) && forall|j: int|
                0 <= j < s.len() && req_matches(#[trigger] s[j], code, now)
                    ==> s[j].updated_at <= s[i].updated_at,
            None => forall|j: int| 0 <= j < s.len() ==> !req_matches(#[trigger] s[j], code, now),
        },
    decreases s.len(),
{
    if s.len() > 0 {
        let prefix = s.drop_last();
        let last = s.len() - 1;
        lemma_best_match_props(prefix, code, now);
        assert(forall|j: int| 0 <= j < s.len() - 1 ==> s[j] == #[trigger] prefix[j]);
        match best_match_index(prefix, code, now) {
            Some(p) => {
                assert forall|j: int|
                    0 <= j < s.len() && req_matches(#[trigger] s[j], code, now)
                        implies s[j].updated_at <= s[best_match_index(
                    s,
                    code,
                    now,
                )->Some_0].updated_at by {
                    if j < last {
                        assert(req_matches(prefix[j], code, now));
                    }
                }
            },
            None => {
                if req_matches(s[last], code, now) {
                    assert forall|j: int|
                        0 <= j < s.len() && req_matches(#[trigger] s[j], code, now)
                            implies s[j].updated_at <= s[last].updated_at by {
                        if j < last {
                            assert(req_matches(prefix[j], code, now));
                            assert(false);
                        }
                    }
                } else {
                    assert forall|j: int| 0 <= j < s.len() implies !req_matches(
                        #[trigger] s[j],
                        code,
                        now,
                    ) by {
                        if j < last {
                            assert(!req_matches(prefix[j], code, now));
                        }
                    }
                }
            },
        }
    }
}

/// Law: a pending request older than the freshness window is never found.
/// When every request carrying the code is either no longer pending or
/// stale, the lookup reports `NotFoundOrExpired`.
pub proof fn lemma_stale_never_found(s: Seq<AuthRequestView>, code: Seq<char>, now: u64)
    requires
        forall|i: int|
            0 <= i < s.len() && (#[trigger] s[i]).access_code == code && s[i].status is Pending
                ==> !is_fresh(s[i].updated_at as int, now as int),
    ensures
        find_pending_spec(s, code, now) == Err::<i32, AuthError>(AuthError::NotFoundOrExpired),
{
    lemma_best_match_props(s, code, now);
    if let Some(i) = best_match_index(s, code, now) {
        assert(req_matches(s[i], code, now));
        assert(false);
    }
}

/// Law: when exactly one pending, unexpired request carries the code, the
/// lookup returns that request's id.
pub proof fn lemma_unique_pending_found(
    s: Seq<AuthRequestView>,
    code: Seq<char>,
    now: u64,
    i: int,
)
    requires
        0 <= i < s.len(),
        req_matches(s[i], code, now),
        forall|j: int| 0 <= j < s.len() && j != i ==> !req_matches(#[trigger] s[j], code, now),
    ensures
        find_pending_spec(s, code, now) == Ok::<i32, AuthError>(s[i].id),
{
    lemma_best_match_props(s, code, now);
    match best_match_index(s, code, now) {
        Some(k) => {
            assert(req_matches(s[k], code, now));
            assert(k == i);
        },
        None => {
            assert(!req_matches(s[i], code, now));
        },
    }
}

/// Law: approval is monotonic. Once a request has been approved, a second
/// approval of the same id is rejected and leaves the store exactly as the
/// first approval left it, so the identity the first approval recorded is
/// never silently overwritten.
pub proof fn lemma_approval_monotonic(
    s: Seq<AuthRequestView>,
    id: i32,
    m1: Seq<char>,
    u1: Seq<char>,
    n1: Seq<char>,
    l1: Option<Seq<char>>,
    t1: u64,
    m2: Seq<char>,
    u2: Seq<char>,
    n2: Seq<char>,
    l2: Option<Seq<char>>,
    t2: u64,
)
    requires
        ids_unique(s),
        has_pending(s, id),
    ensures
        ({
            let s1 = approve_store_spec(s, id, m1, u1, n1, l1, t1);
            &&& approve_result_spec(s1, id) == Err::<i32, AuthError>(AuthError::NotFoundOrExpired)
            &&& approve_store_spec(s1, id, m2, u2, n2, l2, t2) == s1
        }),
{
    let k = pending_index(s, id);
    assert(0 <= k < s.len() && s[k].id == id && s[k].status is Pending);
    let s1 = approve_store_spec(s, id, m1, u1, n1, l1, t1);
    assert(s1[k].status is Approved);
    assert forall|j: int| 0 <= j < s1.len() implies !(#[trigger] s1[j].id == id
        && s1[j].status is Pending) by {
        if s1[j].id == id && s1[j].status is Pending {
            assert(j != k);
            assert(s1[j] == s[j]);
            if j < k {
                assert(s[j].id != s[k].id);
            } else {
                assert(s[k].id != s[j].id);
            }
        }
    }
    assert(!has_pending(s1, id));
}

/// Law: approval without an internal-account link leaves every link as it
/// was; approval with one writes exactly that link to the approved request.
pub proof fn lemma_link_written_only_when_present(
    s: Seq<AuthRequestView>,
    id: i32,
    m: Seq<char>,
    u: Seq<char>,
    n: Seq<char>,
    link: Option<Seq<char>>,
    now: u64,
)
    ensures
        ({
            let s1 = approve_store_spec(s, id, m, u, n, link, now);
            &&& link is None ==> forall|j: int|
                0 <= j < s.len() ==> (#[trigger] s1[j]).internal_account_id
                    == s[j].internal_account_id
            &&& link is Some && has_pending(s, id) ==> s1[pending_index(
                s,
                id,
            )].internal_account_id == link
        }),
{
    if has_pending(s, id) {
        let k = pending_index(s, id);
        assert(0 <= k < s.len() && s[k].id == id && s[k].status is Pending);
    }
}

/// Law: an internal-account link, once present, is never cleared by any
/// later approval.
pub proof fn lemma_link_never_cleared(
    s: Seq<AuthRequestView>,
    id: i32,
    m: Seq<char>,
    u: Seq<char>,
    n: Seq<char>,
    link: Option<Seq<char>>,
    now: u64,
    j: int,
)
    requires
        0 <= j < s.len(),
        s[j].internal_account_id is Some,
    ensures
        approve_store_spec(s, id, m, u, n, link, now)[j].internal_account_id is Some,
{
    if has_pending(s, id) {
        let k = pending_index(s, id);
        assert(0 <= k < s.len() && s[k].id == id && s[k].status is Pending);
    }
}

/// Law: the round trip of approval. Approving a pending request records
/// exactly the given method, external identity and timestamp, sets the
/// status to approved, keeps the id and access code, and touches no other
/// request.
pub proof fn lemma_approve_round_trip(
    s: Seq<AuthRequestView>,
    id: i32,
    m: Seq<char>,
    u: Seq<char>,
    n: Seq<char>,
    link: Option<Seq<char>>,
    now: u64,
)
    requires
        ids_unique(s),
        has_pending(s, id),
    ensures
        ({
            let k = pending_index(s, id);
            let s1 = approve_store_spec(s, id, m, u, n, link, now);
            &&& s1.len() == s.len()
            &&& 0 <= k < s.len()
            &&& s1[k].id == id
            &&& s1[k].status is Approved
            &&& s1[k].authentication_method == Some(m)
            &&& s1[k].external_uid == Some(u)
            &&& s1[k].external_username == Some(n)
            &&& s1[k].updated_at == now
            &&& s1[k].access_code == s[k].access_code
            &&& link is Some ==> s1[k].internal_account_id == link
            &&& link is None ==> s1[k].internal_account_id == s[k].internal_account_id
            &&& forall|j: int| 0 <= j < s.len() && j != k ==> #[trigger] s1[j] == s[j]
        }),
{
    let k = pending_index(s, id);
    assert(0 <= k < s.len() && s[k].id == id && s[k].status is Pending);
}

} // verus!
