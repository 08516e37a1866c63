//! In-memory session store: the table of active sessions keyed by an opaque
//! token. Sessions expire on an absolute timeout measured from creation
//! (no sliding expiry), and an expired entry is removed lazily, on the
//! lookup that detects it.

use vstd::prelude::*;

verus! {

/// Absolute session lifetime in seconds, measured from creation.
pub const SESSION_TIMEOUT_SECS: u64 = 300;

/// One stored session: the token it is keyed by, the authenticated
/// identity, and the creation time in seconds.
struct Session {
    token: String,
    username: String,
    started_at: u64,
}

/// Mathematical model of one session: the identity and the creation time.
pub ghost struct SessionInfo {
    pub username: Seq<char>,
    pub started_at: u64,
}

impl Session {
    spec fn info(self) -> SessionInfo {
        SessionInfo { username: self.username@, started_at: self.started_at }
    }
}

/// The association-list contents read as a map from token to session.
spec fn map_of(s: Seq<Session>) -> Map<Seq<char>, SessionInfo>
    decreases s.len(),
{
    if s.len() == 0 {
        Map::empty()
    } else {
        map_of(s.drop_last()).insert(s.last().token@, s.last().info())
    }
}

/// No two stored sessions share a token.
spec fn tokens_unique(s: Seq<Session>) -> bool {
    forall|i: int, j: int| 0 <= i < j < s.len() ==> s[i].token@ != s[j].token@
}

/// A session is expired at `now` once strictly more than the timeout has
/// elapsed since its creation.
pub open spec fn is_expired(started_at: u64, now: u64) -> bool {
    now > started_at + SESSION_TIMEOUT_SECS
}

/// What one lookup reports.
pub enum Validation {
    Active(String),
    Expired,
    NotFound,
}

/// Model of what one lookup reports.
pub ghost enum SpecValidation {
    Active(Seq<char>),
    Expired,
    NotFound,
}

impl View for Validation {
    type V = SpecValidation;

    open spec fn view(&self) -> SpecValidation {
        match self {
            Validation::Active(u) => SpecValidation::Active(u@),
            Validation::Expired => SpecValidation::Expired,
            Validation::NotFound => SpecValidation::NotFound,
        }
    }
}

/// What a lookup of `token` at time `now` reports on a store holding `m`.
pub open spec fn spec_validate(m: Map<Seq<char>, SessionInfo>, token: Seq<char>, now: u64) -> SpecValidation {
    if !m.dom().contains(token) {
        SpecValidation::NotFound
    } else if is_expired(m[token].started_at, now) {
        SpecValidation::Expired
    } else {
        SpecValidation::Active(m[token].username)
    }
}

/// What the store holds after a lookup of `token` at time `now`: an entry
/// seen to be expired is removed, anything else is left untouched.
pub open spec fn spec_validate_store(m: Map<Seq<char>, SessionInfo>, token: Seq<char>, now: u64) -> Map<Seq<char>, SessionInfo> {
    if m.dom().contains(token) && is_expired(m[token].started_at, now) {
        m.remove(token)
    } else {
        m
    }
}

/// The table of active sessions.
pub struct SessionStore {
    sessions: Vec<Session>,
}

/// Relies on uuid::Uuid::new_v4 and its Display form: a freshly drawn
/// random version-4 UUID, rendered as its hyphenated string. The draw is
/// random, so nothing is promised of the value.
#[verifier::external_body]
fn fresh_token() -> (r: String) {
    uuid::Uuid::new_v4().to_string()
}

proof fn lemma_unique_drop_last(s: Seq<Session>)
    requires
        tokens_unique(s),
        s.len() > 0,
    ensures
        tokens_unique(s.drop_last()),
{
    assert forall|i: int, j: int| 0 <= i < j < s.drop_last().len() implies s.drop_last()[i].token@ != s.drop_last()[j].token@ by {
        assert(s[i].token@ != s[j].token@);
    }
}

proof fn lemma_unique_remove(s: Seq<Session>, at: int)
    requires
        tokens_unique(s),
        0 <= at < s.len(),
    ensures
        tokens_unique(s.remove(at)),
{
    assert forall|i: int, j: int| 0 <= i < j < s.remove(at).len() implies s.remove(at)[i].token@ != s.remove(at)[j].token@ by {
        let i0: int = if i < at { i } else { i + 1 };
        let j0: int = if j < at { j } else { j + 1 };
        assert(s.remove(at)[i] == s[i0]);
        assert(s.remove(at)[j] == s[j0]);
        assert(s[i0].token@ != s[j0].token@);
    }
}

/// Membership in the map model is witnessed by an index in the list.
proof fn lemma_map_of_contains(s: Seq<Session>, t: Seq<char>)
    ensures
        map_of(s).dom().contains(t) <==> (exists|i: int| 0 <= i < s.len() && s[i].token@ == t),
    decreases s.len(),
{
    if s.len() > 0 {
        lemma_map_of_contains(s.drop_last(), t);
        if s.last().token@ == t {
            assert(s[s.len() - 1].token@ == t);
        } else {
            if map_of(s).dom().contains(t) {
                let i = choose|i: int| 0 <= i < s.drop_last().len() && s.drop_last()[i].token@ == t;
                assert(s[i].token@ == t);
            }
            if exists|i: int| 0 <= i < s.len() && s[i].token@ == t {
                let i = choose|i: int| 0 <= i < s.len() && s[i].token@ == t;
                assert(i < s.len() - 1);
                assert(s.drop_last()[i].token@ == t);
            }
        }
    }
}

/// Under unique tokens, the map model looks each entry up to itself.
proof fn lemma_map_of_get(s: Seq<Session>, at: int)
    requires
        tokens_unique(s),
        0 <= at < s.len(),
    ensures
        map_of(s).dom().contains(s[at].token@),
        map_of(s)[s[at].token@] == s[at].info(),
    decreases s.len(),
{
    if at == s.len() - 1 {
        assert(s.last() == s[at]);
    } else {
        lemma_unique_drop_last(s);
        assert(s.drop_last()[at] == s[at]);
        lemma_map_of_get(s.drop_last(), at);
        assert(s.last().token@ != s[at].token@);
    }
}

/// Removing the entry at one index removes exactly its token from the model.
proof fn lemma_map_of_remove(s: Seq<Session>, at: int)
    requires
        tokens_unique(s),
        0 <= at < s.len(),
    ensures
        map_of(s.remove(at)) =~= map_of(s).remove(s[at].token@),
    decreases s.len(),
{
    lemma_unique_drop_last(s);
    if at == s.len() - 1 {
        assert(s.remove(at) =~= s.drop_last());
        lemma_map_of_contains(s.drop_last(), s[at].token@);
        assert forall|i: int| 0 <= i < s.drop_last().len() implies s.drop_last()[i].token@ != s[at].token@ by {
            assert(s[i].token@ != s[at].token@);
        }
        assert(!map_of(s.drop_last()).dom().contains(s[at].token@));
        assert(map_of(s.drop_last()).insert(s.last().token@, s.last().info()).remove(s[at].token@) =~= map_of(s.drop_last()));
    } else {
        lemma_map_of_remove(s.drop_last(), at);
        assert(s.remove(at).len() == s.len() - 1);
        assert(s.remove(at).last() == s.last());
        assert(s.remove(at).drop_last() =~= s.drop_last().remove(at));
        assert(s[at].token@ != s.last().token@);
        assert(map_of(s.remove(at)) == map_of(s.drop_last().remove(at)).insert(s.last().token@, s.last().info()));
        assert(map_of(s.drop_last()).remove(s[at].token@).insert(s.last().token@, s.last().info())
            =~= map_of(s.drop_last()).insert(s.last().token@, s.last().info()).remove(s[at].token@));
    }
}

/// Appending an entry inserts exactly its token into the model.
proof fn lemma_map_of_push(s: Seq<Session>, x: Session)
    ensures
        map_of(s.push(x)) == map_of(s).insert(x.token@, x.info()),
{
    assert(s.push(x).drop_last() =~= s);
    assert(s.push(x).last() == x);
}

impl View for SessionStore {
    type V = Map<Seq<char>, SessionInfo>;

    closed spec fn view(&self) -> Map<Seq<char>, SessionInfo> {
        map_of(self.sessions@)
    }
}

impl SessionStore {
    #[verifier::type_invariant]
    spec fn wf(self) -> bool {
        tokens_unique(self.sessions@)
    }

    /// A store with no sessions at all.
    pub fn new() -> (r: SessionStore)
        ensures
            r@ == Map::<Seq<char>, SessionInfo>::empty(),
    {
        SessionStore { sessions: Vec::new() }
    }

    /// Index of the entry holding `token`, if one does.
    fn find_index(&self, token: &str) -> (r: Option<usize>)
        ensures
            match r {
                Some(i) => i < self.sessions@.len() && self.sessions@[i as int].token@ == token@,
                None => forall|i: int| 0 <= i < self.sessions@.len() ==> self.sessions@[i].token@ != token@,
            },
    {
        let n = self.sessions.len();
        let mut k: usize = 0;
        while k < n
            invariant
                n == self.sessions@.len(),
                k <= n,
                forall|i: int| 0 <= i < k ==> self.sessions@[i].token@ != token@,
            decreases n - k,
        {
            if crate::text::str_eq(self.sessions[k].token.as_str(), token) {
                return Some(k);
            }
            k = k + 1;
        }
        None
    }

    /// Whether `token` currently maps to a session, expired or not.
    pub fn contains(&self, token: &str) -> (r: bool)
        ensures
            r == self@.dom().contains(token@),
    {
        proof {
            use_type_invariant(&*self);
            lemma_map_of_contains(self.sessions@, token@);
        }
        self.find_index(token).is_some()
    }

    /// Records a session under `token` unless that token is already taken;
    /// reports whether it was recorded.
    pub fn try_insert(&mut self, token: String, username: String, now: u64) -> (r: bool)
        ensures
            r == !old(self)@.dom().contains(token@),
            r ==> final(self)@ == old(self)@.insert(
                token@,
                SessionInfo { username: username@, started_at: now },
            ),
            !r ==> final(self)@ == old(self)@,
    {
        proof {
            use_type_invariant(&*self);
            lemma_map_of_contains(self.sessions@, token@);
        }
        match self.find_index(token.as_str()) {
            Some(_) => false,
            None => {
                let ghost s0 = self.sessions@;
                let mut v: Vec<Session> = Vec::new();
                std::mem::swap(&mut v, &mut self.sessions);
                let entry = Session { token, username, started_at: now };
                proof {
                    lemma_map_of_push(s0, entry);
                    assert(tokens_unique(s0.push(entry)));
                }
                v.push(entry);
                self.sessions = v;
                true
            },
        }
    }

    /// Looks `token` up at time `now`: reports `NotFound` for an absent
    /// token, removes an expired entry and reports `Expired`, and reports
    /// `Active` with the stored identity otherwise, touching nothing.
    pub fn validate(&mut self, token: &str, now: u64) -> (r: Validation)
        ensures
            r@ == spec_validate(old(self)@, token@, now),
            final(self)@ == spec_validate_store(old(self)@, token@, now),
    {
        proof {
            use_type_invariant(&*self);
            lemma_map_of_contains(self.sessions@, token@);
        }
        match self.find_index(token) {
            None => Validation::NotFound,
            Some(i) => {
                proof {
                    lemma_map_of_get(self.sessions@, i as int);
                }
                let started: u64 = self.sessions[i].started_at;
                if now > started && now - started > SESSION_TIMEOUT_SECS {
                    proof {
                        lemma_map_of_remove(self.sessions@, i as int);
                        lemma_unique_remove(self.sessions@, i as int);
                    }
                    let mut v: Vec<Session> = Vec::new();
                    std::mem::swap(&mut v, &mut self.sessions);
                    v.remove(i);
                    self.sessions = v;
                    Validation::Expired
                } else {
                    Validation::Active(self.sessions[i].username.clone())
                }
            },
        }
    }

    /// Records a new session for `username` started at `now` under a fresh
    /// random token and returns that token; the token is never one that is
    /// currently active. In the vanishingly unlikely event that the drawn
    /// token collides with an active one, nothing is recorded and `None`
    /// is returned; on an empty table no draw can collide, so there
    /// creation always succeeds.
    pub fn create(&mut self, username: String, now: u64) -> (r: Option<String>)
        ensures
            old(self)@.dom() =~= Set::<Seq<char>>::empty() ==> r is Some,
            match r {
                Some(token) => !old(self)@.dom().contains(token@) && final(self)@ == old(self)@.insert(
                    token@,
                    SessionInfo { username: username@, started_at: now },
                ),
                None => final(self)@ == old(self)@,
            },
    {
        let token = fresh_token();
        let token_out = token.clone();
        if self.try_insert(token, username, now) {
            Some(token_out)
        } else {
            None
        }
    }

    /// Removes `token` outright; a no-op when it is absent.
    pub fn revoke(&mut self, token: &str)
        ensures
            final(self)@ == old(self)@.remove(token@),
    {
        proof {
            use_type_invariant(&*self);
            lemma_map_of_contains(self.sessions@, token@);
        }
        match self.find_index(token) {
            None => {
                proof {
                    assert(self@.remove(token@) =~= self@);
                }
            },
            Some(i) => {
                proof {
                    lemma_map_of_get(self.sessions@, i as int);
                    lemma_map_of_remove(self.sessions@, i as int);
                    lemma_unique_remove(self.sessions@, i as int);
                }
                let mut v: Vec<Session> = Vec::new();
                std::mem::swap(&mut v, &mut self.sessions);
                v.remove(i);
                self.sessions = v;
            },
        }
    }
}

/// A session created at time `start` runs through the expiry transition
/// exactly once: any lookup no later than `start` plus the timeout reports
/// it active under its recorded identity and leaves the store as it is;
/// the first lookup strictly after that bound reports it expired and
/// removes it; and every lookup thereafter reports it not found.
pub proof fn lemma_expiry_transition(
    m: Map<Seq<char>, SessionInfo>,
    token: Seq<char>,
    username: Seq<char>,
    start: u64,
    t_active: u64,
    t_expired: u64,
    t_after: u64,
)
    requires
        t_active <= start + SESSION_TIMEOUT_SECS,
        t_expired > start + SESSION_TIMEOUT_SECS,
    ensures
        spec_validate(
            m.insert(token, SessionInfo { username, started_at: start }),
            token,
            t_active,
        ) == SpecValidation::Active(username),
        spec_validate_store(
            m.insert(token, SessionInfo { username, started_at: start }),
            token,
            t_active,
        ) == m.insert(token, SessionInfo { username, started_at: start }),
        spec_validate(
            m.insert(token, SessionInfo { username, started_at: start }),
            token,
            t_expired,
        ) == SpecValidation::Expired,
        spec_validate_store(
            m.insert(token, SessionInfo { username, started_at: start }),
            token,
            t_expired,
        ) == m.insert(token, SessionInfo { username, started_at: start }).remove(token),
        spec_validate(
            m.insert(token, SessionInfo { username, started_at: start }).remove(token),
            token,
            t_after,
        ) == SpecValidation::NotFound,
{
}

/// A lookup within the window mutates nothing: it neither touches the
/// recorded creation time nor any other entry, so a second lookup of the
/// same token, still within the window, reports the same identity against
/// the same creation time.
pub proof fn lemma_validate_within_window(
    m: Map<Seq<char>, SessionInfo>,
    token: Seq<char>,
    now_first: u64,
    now_second: u64,
)
    requires
        m.dom().contains(token),
        !is_expired(m[token].started_at, now_first),
        !is_expired(m[token].started_at, now_second),
    ensures
        spec_validate(m, token, now_first) == SpecValidation::Active(m[token].username),
        spec_validate_store(m, token, now_first) == m,
        spec_validate_store(m, token, now_first)[token].started_at == m[token].started_at,
        spec_validate(spec_validate_store(m, token, now_first), token, now_second)
            == SpecValidation::Active(m[token].username),
{
}

} // verus!
