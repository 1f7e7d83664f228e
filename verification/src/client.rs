//! The authenticated request client, modeled as a state machine over the
//! outcomes of its network calls: it decides, from the stored session and
//! each outcome, what the embedding program must do next, and never itself
//! touches the network. A post fetch makes at most one refresh call, then a
//! profile lookup, then a post lookup, in that order.

use vstd::prelude::*;

use crate::formatters::PostView;
use crate::session::{spec_exp_claim, token_decodes, AuthError, BSkySession};

verus! {

/// Failures of a post fetch.
#[derive(Debug, Clone, PartialEq, Eq)]
pub enum FetchError {
    /// The session could not be made valid first.
    Auth(AuthError),
    /// The handle resolved to no actor; carries the handle.
    ActorNotFound(String),
    /// The post lookup returned no post; carries handle and post id.
    PostNotFound(String, String),
    /// A network failure during profile or post lookup.
    NetworkFailure,
}

/// A freshly issued token pair, as the server returns it from the login and
/// refresh calls.
#[derive(Debug, Clone, PartialEq, Eq)]
pub struct SessionTokens {
    pub access_jwt: String,
    pub refresh_jwt: String,
}

/// The outcome of the bootstrap login call.
#[derive(Debug, Clone, PartialEq, Eq)]
pub enum LoginOutcome {
    /// The server rejected the identifier/secret pair.
    Rejected,
    /// The call failed on the network.
    NetworkFailed,
    /// The server issued a token pair.
    Tokens(SessionTokens),
}

/// The outcome of the refresh call.
#[derive(Debug, Clone, PartialEq, Eq)]
pub enum RefreshOutcome {
    NetworkFailed,
    Tokens(SessionTokens),
}

/// The outcome of the profile lookup: the actor's stable id when the handle
/// resolved.
#[derive(Debug, Clone, PartialEq, Eq)]
pub enum ProfileOutcome {
    NetworkFailed,
    NoActor,
    Actor(String),
}

/// The outcome of the post lookup.
#[derive(Debug, Clone, PartialEq, Eq)]
pub enum PostsOutcome {
    NetworkFailed,
    Posts(Vec<PostView>),
}

/// The next network call the caller must perform.
#[derive(Debug, Clone, PartialEq, Eq)]
pub enum FetchAction {
    /// Refresh the session, using the current refresh token.
    Refresh,
    /// Look up the profile of the handle carried here.
    ProfileLookup(String),
    /// Fetch the post at the canonical address carried here.
    PostLookup(String),
}

/// The canonical address of a post: fixed scheme, the actor's stable id,
/// fixed collection path, post id. This exact shape is a compatibility
/// contract with the external API.
pub open spec fn post_uri(did: Seq<char>, post_id: Seq<char>) -> Seq<char> {
    "at://"@ + did + "/app.bsky.feed.post/"@ + post_id
}

/// Whether a sequence contains no '/' separator.
pub open spec fn slash_free(s: Seq<char>) -> bool {
    forall|i: int| 0 <= i < s.len() ==> s[i] != '/'
}

/// Build the canonical post address.
pub fn make_post_uri(did: &str, post_id: &str) -> (r: String)
    ensures
        r@ == post_uri(did@, post_id@),
{
    let mut s = String::from_str("at://");
    s.append(did);
    s.append("/app.bsky.feed.post/");
    s.append(post_id);
    s
}

/// Whether `pat` occurs in `s` at position `start`.
fn matches_at(s: &str, start: usize, pat: &str) -> (b: bool)
    requires
        start + pat@.len() <= s@.len(),
    ensures
        b == (s@.subrange(start as int, start as int + pat@.len() as int) == pat@),
{
    let n = s.unicode_len();
    let m = pat.unicode_len();
    let mut j: usize = 0;
    while j < m
        invariant
            j <= m,
            n == s@.len(),
            m == pat@.len(),
            start + m <= n,
            forall|k: int| 0 <= k < j ==> s@[start + k] == pat@[k],
        decreases m - j,
    {
        if s.get_char(start + j) != pat.get_char(j) {
            proof {
                assert(s@.subrange(start as int, start as int + m as int)[j as int] != pat@[j as int]);
            }
            return false;
        }
        j = j + 1;
    }
    proof {
        assert(s@.subrange(start as int, start as int + m as int) =~= pat@);
    }
    true
}

/// Find the first '/' at or after `from`.
fn find_slash(s: &str, from: usize) -> (r: Option<usize>)
    requires
        from <= s@.len(),
    ensures
        match r {
            Some(k) => from <= k < s@.len() && s@[k as int] == '/' && (forall|j: int|
                from <= j < k ==> s@[j] != '/'),
            None => forall|j: int| from <= j < s@.len() ==> s@[j] != '/',
        },
{
    let n = s.unicode_len();
    let mut i = from;
    while i < n
        invariant
            from <= i <= n,
            n == s@.len(),
            forall|j: int| from <= j < i ==> s@[j] != '/',
        decreases n - i,
    {
        if s.get_char(i) == '/' {
            return Some(i);
        }
        i = i + 1;
    }
    None
}

/// Decode a canonical post address back into its actor id and post id. The
/// actor id is read up to the first '/' after the scheme, so exactly the
/// canonical addresses of slash-free actor ids decode.
pub fn parse_post_uri(uri: &str) -> (r: Option<(String, String)>)
    ensures
        match r {
            Some(p) => slash_free(p.0@) && uri@ == post_uri(p.0@, p.1@),
            None => forall|d: Seq<char>, i: Seq<char>|
                slash_free(d) ==> uri@ != post_uri(d, i),
        },
{
    proof {
        reveal_strlit("at://");
        reveal_strlit("/app.bsky.feed.post/");
    }
    let n = uri.unicode_len();
    if n < 5 || !matches_at(uri, 0, "at://") {
        proof {
            assert forall|d: Seq<char>, i: Seq<char>|
                slash_free(d) implies uri@ != post_uri(d, i) by {
                if uri@ == post_uri(d, i) {
                    assert(uri@.len() >= 5);
                    assert(uri@.subrange(0, 5) =~= "at://"@);
                }
            }
        }
        return None;
    }
    let k = match find_slash(uri, 5) {
        Some(k) => k,
        None => {
            proof {
                assert forall|d: Seq<char>, i: Seq<char>|
                    slash_free(d) implies uri@ != post_uri(d, i) by {
                    if uri@ == post_uri(d, i) {
                        assert(uri@[5 + d.len() as int] == "/app.bsky.feed.post/"@[0]);
                        assert(uri@[5 + d.len() as int] == '/');
                    }
                }
            }
            return None;
        },
    };
    if n - k < 20 || !matches_at(uri, k, "/app.bsky.feed.post/") {
        proof {
            assert forall|d: Seq<char>, i: Seq<char>|
                slash_free(d) implies uri@ != post_uri(d, i) by {
                if uri@ == post_uri(d, i) {
                    // the first '/' at or after the scheme ends the actor id
                    assert(uri@[5 + d.len() as int] == "/app.bsky.feed.post/"@[0]);
                    assert(uri@[5 + d.len() as int] == '/');
                    assert(forall|j: int| 5 <= j < 5 + d.len() ==> uri@[j] == d[j - 5]);
                    assert(k == 5 + d.len());
                    assert(uri@.len() >= k + 20);
                    assert(uri@.subrange(k as int, k as int + 20) =~= "/app.bsky.feed.post/"@);
                }
            }
        }
        return None;
    }
    let did = uri.substring_char(5, k).to_owned();
    let id = uri.substring_char(k + 20, n).to_owned();
    proof {
        assert(forall|j: int| 0 <= j < did@.len() ==> did@[j] == uri@[5 + j]);
        assert(uri@ =~= post_uri(did@, id@));
    }
    Some((did, id))
}

/// Law: the canonical post address determines the actor id and the post id.
/// Two slash-free actor ids and two post ids that yield the same address
/// are the same pair, so encoding then decoding an address gives back what
/// it was built from.
pub proof fn lemma_post_uri_injective(d1: Seq<char>, i1: Seq<char>, d2: Seq<char>, i2: Seq<char>)
    requires
        slash_free(d1),
        slash_free(d2),
        post_uri(d1, i1) == post_uri(d2, i2),
    ensures
        d1 == d2,
        i1 == i2,
{
    reveal_strlit("at://");
    reveal_strlit("/app.bsky.feed.post/");
    let u = post_uri(d1, i1);
    if d1.len() < d2.len() {
        assert(u[5 + d1.len() as int] == "/app.bsky.feed.post/"@[0]);
        assert(u[5 + d1.len() as int] == d2[d1.len() as int]);
        assert(false);
    }
    if d2.len() < d1.len() {
        assert(u[5 + d2.len() as int] == "/app.bsky.feed.post/"@[0]);
        assert(u[5 + d2.len() as int] == d1[d2.len() as int]);
        assert(false);
    }
    assert(d1 =~= d2) by {
        assert(forall|j: int| 0 <= j < d1.len() ==> u[5 + j] == d1[j]);
        assert(forall|j: int| 0 <= j < d2.len() ==> u[5 + j] == d2[j]);
    }
    assert(i1 =~= i2) by {
        assert(u.len() == 25 + d1.len() + i1.len());
        assert(post_uri(d2, i2).len() == 25 + d2.len() + i2.len());
        assert(i1.len() == i2.len());
        assert(forall|j: int| 0 <= j < i1.len() ==> u[25 + d1.len() + j] == i1[j]);
        assert(forall|j: int| 0 <= j < i2.len() ==> u[25 + d2.len() + j] == i2[j]);
    }
}

/// The authenticated client: it owns the stored credential session. The
/// embedding program performs the network calls and feeds their outcomes
/// into the fetch flow.
pub struct BSky {
    pub session: BSkySession,
}

/// One post fetch in progress: the handle and post id it was asked for.
#[derive(Debug, Clone, PartialEq, Eq)]
pub struct FetchFlow {
    pub handle: String,
    pub post_id: String,
}

impl BSky {
    /// Complete the bootstrap login from the outcome of the create-session
    /// call. On success the session's expiry is exactly the `exp` claim
    /// decoded from the issued access token.
    pub fn login(outcome: LoginOutcome) -> (r: Result<BSky, AuthError>)
        ensures
            match r {
                Ok(b) => {
                    &&& b.session.wf()
                    &&& outcome matches LoginOutcome::Tokens(t)
                    &&& b.session.access_jwt@ == t.access_jwt@
                    &&& b.session.refresh_jwt@ == t.refresh_jwt@
                    &&& spec_exp_claim(t.access_jwt@) == Some(b.session.access_jwt_exp)
                },
                Err(a) => match outcome {
                    LoginOutcome::Rejected => a == AuthError::InvalidCredentials,
                    LoginOutcome::NetworkFailed => a == AuthError::NetworkFailure,
                    LoginOutcome::Tokens(t) => a == AuthError::MalformedToken && !token_decodes(
                        t.access_jwt@,
                    ),
                },
            },
    {
        match outcome {
            LoginOutcome::Rejected => Err(AuthError::InvalidCredentials),
            LoginOutcome::NetworkFailed => Err(AuthError::NetworkFailure),
            LoginOutcome::Tokens(t) => {
                let SessionTokens { access_jwt, refresh_jwt } = t;
                match BSkySession::from_tokens(access_jwt, refresh_jwt) {
                    Ok(s) => Ok(BSky { session: s }),
                    Err(a) => Err(a),
                }
            },
        }
    }

    /// Begin a post fetch. The caller's first action, at the given instant,
    /// is a refresh exactly when the access token has expired; otherwise it
    /// is the profile lookup at once, with no refresh call.
    pub fn get_post(&self, handle: String, id: String, now_ms: i64) -> (r: (
        FetchFlow,
        FetchAction,
    ))
        ensures
            r.0.handle@ == handle@ && r.0.post_id@ == id@,
            now_ms > self.session.access_jwt_exp ==> r.1 == FetchAction::Refresh,
            now_ms <= self.session.access_jwt_exp ==> (r.1 matches FetchAction::ProfileLookup(h)
                && h@ == handle@),
    {
        let flow = FetchFlow { handle, post_id: id };
        if self.session.is_expired(now_ms) {
            (flow, FetchAction::Refresh)
        } else {
            let h = flow.handle.clone();
            (flow, FetchAction::ProfileLookup(h))
        }
    }
}

impl FetchFlow {
    /// Continue after the refresh call: a network failure or an undecodable
    /// refreshed token aborts the fetch and leaves the stored session
    /// unchanged; on success the refreshed tokens replace the session as one
    /// atomic step, and the one next action is the profile lookup — a fetch
    /// never refreshes twice.
    pub fn after_refresh(&self, client: &mut BSky, outcome: RefreshOutcome) -> (r: Result<
        FetchAction,
        FetchError,
    >)
        ensures
            match r {
                Ok(a) => {
                    &&& a matches FetchAction::ProfileLookup(h) && h@ == self.handle@
                    &&& outcome matches RefreshOutcome::Tokens(t)
                    &&& final(client).session.wf()
                    &&& final(client).session.access_jwt@ == t.access_jwt@
                    &&& final(client).session.refresh_jwt@ == t.refresh_jwt@
                    &&& spec_exp_claim(t.access_jwt@) == Some(final(client).session.access_jwt_exp)
                },
                Err(e) => {
                    &&& final(client).session.same_session(old(client).session)
                    &&& match outcome {
                        RefreshOutcome::NetworkFailed => e == FetchError::Auth(
                            AuthError::RefreshFailed,
                        ),
                        RefreshOutcome::Tokens(t) => e == FetchError::Auth(
                            AuthError::MalformedToken,
                        ) && !token_decodes(t.access_jwt@),
                    }
                },
            },
    {
        match outcome {
            RefreshOutcome::NetworkFailed => Err(FetchError::Auth(AuthError::RefreshFailed)),
            RefreshOutcome::Tokens(t) => {
                let SessionTokens { access_jwt, refresh_jwt } = t;
                match client.session.install_refreshed(access_jwt, refresh_jwt) {
                    Ok(()) => Ok(FetchAction::ProfileLookup(self.handle.clone())),
                    Err(_) => Err(FetchError::Auth(AuthError::MalformedToken)),
                }
            },
        }
    }

    /// Continue after the profile lookup: a handle that resolved to no
    /// actor aborts with the actor-not-found error, before any post lookup;
    /// a resolved actor's stable id and the post id form the canonical
    /// address to fetch.
    pub fn after_profile(&self, outcome: ProfileOutcome) -> (r: Result<FetchAction, FetchError>)
        ensures
            match r {
                Ok(a) => {
                    &&& outcome matches ProfileOutcome::Actor(did)
                    &&& a matches FetchAction::PostLookup(u) && u@ == post_uri(
                        did@,
                        self.post_id@,
                    )
                },
                Err(e) => match outcome {
                    ProfileOutcome::NetworkFailed => e == FetchError::NetworkFailure,
                    ProfileOutcome::NoActor => e matches FetchError::ActorNotFound(h) && h@
                        == self.handle@,
                    ProfileOutcome::Actor(_) => false,
                },
            },
    {
        match outcome {
            ProfileOutcome::NetworkFailed => Err(FetchError::NetworkFailure),
            ProfileOutcome::NoActor => Err(FetchError::ActorNotFound(self.handle.clone())),
            ProfileOutcome::Actor(did) => Ok(
                FetchAction::PostLookup(make_post_uri(did.as_str(), self.post_id.as_str())),
            ),
        }
    }

    /// Finish after the post lookup: an empty result set is the expected
    /// post-not-found outcome; otherwise the first result is the post.
    pub fn after_posts(&self, outcome: PostsOutcome) -> (r: Result<PostView, FetchError>)
        ensures
            match r {
                Ok(p) => outcome matches PostsOutcome::Posts(ps) && ps@.len() > 0 && p == ps@[0],
                Err(e) => match outcome {
                    PostsOutcome::NetworkFailed => e == FetchError::NetworkFailure,
                    PostsOutcome::Posts(ps) => ps@.len() == 0 && (e
                        matches FetchError::PostNotFound(h, i) && h@ == self.handle@ && i@
                        == self.post_id@),
                },
            },
    {
        match outcome {
            PostsOutcome::NetworkFailed => Err(FetchError::NetworkFailure),
            PostsOutcome::Posts(mut posts) => {
                if posts.len() == 0 {
                    Err(FetchError::PostNotFound(self.handle.clone(), self.post_id.clone()))
                } else {
                    Ok(posts.remove(0))
                }
            },
        }
    }
}

} // verus!
