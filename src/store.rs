use vstd::prelude::*;
use crate::code::{generate_code, is_code};
use crate::email::{email_key, normalize_email};
use crate::error::AuthError;
use crate::record::{issued, token_admits, verdict, with_session, IdentityRecord, IdentityView};
use crate::strings::opt_view;
use crate::token::TOKEN_LEN;

verus! {

/// Identities by key, as a map.
pub type Identities = Map<Seq<char>, IdentityView>;

/// The record stored under `key`, if any.
pub open spec fn lookup(m: Identities, key: Seq<char>) -> Option<IdentityView> {
    if m.contains_key(key) {
        Some(m[key])
    } else {
        None
    }
}

/// The identities after a code `code` is issued at `now` for `email`.
pub open spec fn issue_in(m: Identities, email: Seq<char>, code: Seq<char>, now: i64) -> Identities {
    let key = email_key(email);
    m.insert(key, issued(lookup(m, key), key, code, now))
}

/// The verdict on authenticating `email` with `submitted` at `now`.
pub open spec fn auth_verdict(m: Identities, email: Seq<char>, submitted: Seq<char>, now: i64) -> Result<(), AuthError> {
    match lookup(m, email_key(email)) {
        None => Err(AuthError::NotFound),
        Some(r) => verdict(r, submitted, now),
    }
}

/// The identities after `email` starts session `token` from `ip`; only
/// meaningful where `email`'s key is present.
pub open spec fn session_in(m: Identities, email: Seq<char>, token: Seq<char>, ip: Seq<char>) -> Identities {
    let key = email_key(email);
    m.insert(key, with_session(m[key], token, ip))
}

/// Whether a protected operation on `email` is admitted with `presented`.
pub open spec fn admitted(m: Identities, email: Seq<char>, presented: Option<Seq<char>>) -> bool {
    match lookup(m, email_key(email)) {
        None => false,
        Some(r) => token_admits(r.session_id, presented),
    }
}

/// No two records share a key.
pub open spec fn keys_unique(s: Seq<IdentityRecord>) -> bool {
    forall|i: int, j: int|
        0 <= i < s.len() && 0 <= j < s.len() && i != j ==> #[trigger] s[i].email@ != #[trigger] s[j].email@
}

/// Some record of `s` is stored under `key`.
pub open spec fn has_key(s: Seq<IdentityRecord>, key: Seq<char>) -> bool {
    exists|i: int| 0 <= i < s.len() && #[trigger] s[i].email@ == key
}

/// The map from key to record that a sequence of records stands for.
pub open spec fn map_of(s: Seq<IdentityRecord>) -> Identities {
    Map::new(
        |k: Seq<char>| has_key(s, k),
        |k: Seq<char>| s[choose|i: int| 0 <= i < s.len() && #[trigger] s[i].email@ == k]@,
    )
}

proof fn lemma_map_of_at(s: Seq<IdentityRecord>, i: int)
    requires
        keys_unique(s),
        0 <= i < s.len(),
    ensures
        map_of(s).contains_key(s[i].email@),
        map_of(s)[s[i].email@] == s[i]@,
{
    let k = s[i].email@;
    assert(has_key(s, k));
    let j = choose|j: int| 0 <= j < s.len() && #[trigger] s[j].email@ == k;
    assert(s[j].email@ == k);
    assert(j == i);
}

proof fn lemma_map_of_update(s: Seq<IdentityRecord>, i: int, r: IdentityRecord)
    requires
        keys_unique(s),
        0 <= i < s.len(),
        r.email@ == s[i].email@,
    ensures
        keys_unique(s.update(i, r)),
        map_of(s.update(i, r)) == map_of(s).insert(r.email@, r@),
{
    let t = s.update(i, r);
    assert(keys_unique(t)) by {
        assert forall|a: int, b: int| 0 <= a < t.len() && 0 <= b < t.len() && a != b implies
            #[trigger] t[a].email@ != #[trigger] t[b].email@ by {
            assert(t[a].email@ == s[a].email@);
            assert(t[b].email@ == s[b].email@);
        }
    }
    let m = map_of(s).insert(r.email@, r@);
    assert forall|k: Seq<char>| #[trigger] map_of(t).contains_key(k) <==> m.contains_key(k) by {
        if has_key(t, k) {
            let j = choose|j: int| 0 <= j < t.len() && #[trigger] t[j].email@ == k;
            assert(s[j].email@ == k);
        }
        if has_key(s, k) {
            let j = choose|j: int| 0 <= j < s.len() && #[trigger] s[j].email@ == k;
            assert(t[j].email@ == k);
        }
        if k == r.email@ {
            assert(t[i].email@ == k);
        }
    }
    assert forall|k: Seq<char>| #[trigger] map_of(t).contains_key(k) implies map_of(t)[k] == m[k] by {
        let j = choose|j: int| 0 <= j < t.len() && #[trigger] t[j].email@ == k;
        lemma_map_of_at(t, j);
        if j != i {
            lemma_map_of_at(s, j);
        }
    }
    assert(map_of(t) =~= m);
}

proof fn lemma_map_of_push(s: Seq<IdentityRecord>, r: IdentityRecord)
    requires
        keys_unique(s),
        !has_key(s, r.email@),
    ensures
        keys_unique(s.push(r)),
        map_of(s.push(r)) == map_of(s).insert(r.email@, r@),
{
    let t = s.push(r);
    assert(keys_unique(t)) by {
        assert forall|a: int, b: int| 0 <= a < t.len() && 0 <= b < t.len() && a != b implies
            #[trigger] t[a].email@ != #[trigger] t[b].email@ by {
            if a < s.len() {
                assert(t[a].email@ == s[a].email@);
            }
            if b < s.len() {
                assert(t[b].email@ == s[b].email@);
            }
        }
    }
    let m = map_of(s).insert(r.email@, r@);
    assert forall|k: Seq<char>| #[trigger] map_of(t).contains_key(k) <==> m.contains_key(k) by {
        if has_key(t, k) {
            let j = choose|j: int| 0 <= j < t.len() && #[trigger] t[j].email@ == k;
            if j < s.len() {
                assert(s[j].email@ == k);
            }
        }
        if has_key(s, k) {
            let j = choose|j: int| 0 <= j < s.len() && #[trigger] s[j].email@ == k;
            assert(t[j].email@ == k);
        }
        if k == r.email@ {
            assert(t[s.len() as int].email@ == k);
        }
    }
    assert forall|k: Seq<char>| #[trigger] map_of(t).contains_key(k) implies map_of(t)[k] == m[k] by {
        let j = choose|j: int| 0 <= j < t.len() && #[trigger] t[j].email@ == k;
        lemma_map_of_at(t, j);
        if j < s.len() {
            assert(t[j] == s[j]);
            lemma_map_of_at(s, j);
        }
    }
    assert(map_of(t) =~= m);
}

/// An in-memory credential store: one identity record per key.
pub struct CredentialStore {
    records: Vec<IdentityRecord>,
}

impl View for CredentialStore {
    type V = Identities;

    closed spec fn view(&self) -> Identities {
        map_of(self.records@)
    }
}

impl CredentialStore {
    /// Well-formed: no two records share a key.
    pub closed spec fn wf(&self) -> bool {
        keys_unique(self.records@)
    }

    /// An empty store.
    pub fn new() -> (r: Self)
        ensures
            r.wf(),
            r@ == Map::<Seq<char>, IdentityView>::empty(),
    {
        let r = CredentialStore { records: Vec::new() };
        assert(r@ =~= Map::<Seq<char>, IdentityView>::empty());
        r
    }

    /// The position of the record stored under `key`, if any.
    fn find(&self, key: &String) -> (r: Option<usize>)
        requires
            self.wf(),
        ensures
            match r {
                None => !self@.contains_key(key@),
                Some(i) => i < self.records@.len() && self.records@[i as int].email@ == key@,
            },
    {
        let mut i: usize = 0;
        while i < self.records.len()
            invariant
                i <= self.records@.len(),
                forall|j: int| 0 <= j < i ==> #[trigger] self.records@[j].email@ != key@,
            decreases self.records@.len() - i,
        {
            if self.records[i].email == *key {
                return Some(i);
            }
            i = i + 1;
        }
        None
    }

    /// The record stored for `email` (matched without regard to case).
    pub fn get(&self, email: &str) -> (r: Option<&IdentityRecord>)
        requires
            self.wf(),
        ensures
            match r {
                None => !self@.contains_key(email_key(email@)),
                Some(rec) => self@.contains_key(email_key(email@)) && self@[email_key(email@)] == rec@,
            },
    {
        let key = normalize_email(email);
        match self.find(&key) {
            None => None,
            Some(i) => {
                proof {
                    lemma_map_of_at(self.records@, i as int);
                }
                Some(&self.records[i])
            },
        }
    }

    /// Issues a fresh code for `email` at `now`: refreshes the code and its
    /// issuance time of the stored identity, or creates the identity. Returns
    /// the code, to be delivered to `email`.
    pub fn issue_code(&mut self, email: &str, now: i64) -> (code: String)
        requires
            old(self).wf(),
        ensures
            final(self).wf(),
            is_code(code@),
            final(self)@ == issue_in(old(self)@, email@, code@, now),
    {
        let code = generate_code();
        let key = normalize_email(email);
        match self.find(&key) {
            Some(i) => {
                proof {
                    lemma_map_of_at(self.records@, i as int);
                }
                let ghost before = self.records@;
                self.records[i].refresh_code(code.clone(), now);
                proof {
                    lemma_map_of_update(before, i as int, self.records@[i as int]);
                    assert(self.records@ == before.update(i as int, self.records@[i as int]));
                }
            },
            None => {
                let rec = IdentityRecord::new(key, code.clone(), now);
                proof {
                    assert(!has_key(self.records@, rec.email@));
                    lemma_map_of_push(self.records@, rec);
                }
                self.records.push(rec);
            },
        }
        code
    }
    /// Authenticates `email` with the submitted code at `now`. On success a
    /// fresh session token, with `ip` as its originating address, replaces
    /// the stored one and is returned; on failure nothing changes.
    pub fn authenticate(&mut self, email: &str, submitted: &str, ip: &str, now: i64) -> (r: Result<String, AuthError>)
        requires
            old(self).wf(),
        ensures
            final(self).wf(),
            match auth_verdict(old(self)@, email@, submitted@, now) {
                Err(e) => r == Err::<String, AuthError>(e) && final(self)@ == old(self)@,
                Ok(()) => r matches Ok(t) && t@.len() == TOKEN_LEN
                    && final(self)@ == session_in(old(self)@, email@, t@, ip@),
            },
    {
        let key = normalize_email(email);
        match self.find(&key) {
            None => Err(AuthError::NotFound),
            Some(i) => {
                proof {
                    lemma_map_of_at(self.records@, i as int);
                }
                let ghost before = self.records@;
                let r = self.records[i].authenticate(submitted, ip, now);
                proof {
                    assert(self.records@ == before.update(i as int, self.records@[i as int]));
                    lemma_map_of_update(before, i as int, self.records@[i as int]);
                    if r is Err {
                        assert(map_of(before).insert(self.records@[i as int].email@, self.records@[i as int]@) =~= map_of(before));
                    }
                }
                r
            },
        }
    }

    /// Whether a protected operation on `email` is admitted with the
    /// presented session token.
    pub fn check(&self, email: &str, presented: &Option<String>) -> (r: bool)
        requires
            self.wf(),
        ensures
            r == admitted(self@, email@, opt_view(*presented)),
    {
        match self.get(email) {
            None => false,
            Some(rec) => rec.admits(presented),
        }
    }
}

} // verus!
