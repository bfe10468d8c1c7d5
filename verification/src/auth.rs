//! Authentication by token or API key, permissions, and a rate limit for each
//! client.

use crate::error::{ErrorView, ProtocolError};
use crate::map::StrMap;
use crate::protocol;
use crate::text;
use crate::time::{Clock, Deadline, DeadlineView, Duration, Instant};
use crate::window;
use std::sync::Arc;
use vstd::prelude::*;

verus! {

#[derive(Debug, Clone)]
pub struct Credentials {
    pub client_id: String,
    pub token: Option<String>,
    pub api_key: Option<String>,
}

/// The mathematical model of [`Credentials`].
pub struct CredentialsView {
    pub client_id: Seq<char>,
    pub token: Option<Seq<char>>,
    pub api_key: Option<Seq<char>>,
}

impl View for Credentials {
    type V = CredentialsView;

    open spec fn view(&self) -> CredentialsView {
        CredentialsView {
            client_id: self.client_id@,
            token: protocol::opt_text(self.token),
            api_key: protocol::opt_text(self.api_key),
        }
    }
}

#[derive(Debug, PartialEq, Eq, Hash)]
pub struct Permission {
    pub service: String,
    pub method: String,
}

/// The mathematical model of a [`Permission`].
pub struct PermissionView {
    pub service: Seq<char>,
    pub method: Seq<char>,
}

impl View for Permission {
    type V = PermissionView;

    open spec fn view(&self) -> PermissionView {
        PermissionView { service: self.service@, method: self.method@ }
    }
}

/// The models of a list of permissions.
pub open spec fn permission_views(v: Seq<Permission>) -> Seq<PermissionView> {
    v.map_values(|p: Permission| p@)
}

impl Clone for Permission {
    fn clone(&self) -> (r: Permission)
        ensures
            r@ == self@,
    {
        Permission { service: self.service.clone(), method: self.method.clone() }
    }
}

/// A copy of a list of permissions.
fn copy_permissions(v: &Vec<Permission>) -> (r: Vec<Permission>)
    ensures
        permission_views(r@) == permission_views(v@),
{
    let mut copy: Vec<Permission> = Vec::new();
    let mut i: usize = 0;
    while i < v.len()
        invariant
            i <= v@.len(),
            copy@.len() == i,
            forall|j: int| 0 <= j < i ==> (#[trigger] copy@[j])@ == v@[j]@,
        decreases v.len() - i,
    {
        copy.push(v[i].clone());
        i = i + 1;
    }
    assert(permission_views(copy@) =~= permission_views(v@));
    copy
}

impl Permission {
    pub fn new(service: &str, method: &str) -> (r: Permission)
        ensures
            r@ == (PermissionView { service: service@, method: method@ }),
    {
        Permission { service: service.to_string(), method: method.to_string() }
    }

    /// Every method of every service.
    pub fn all() -> (r: Permission)
        ensures
            r@ == (PermissionView { service: "*"@, method: "*"@ }),
    {
        Permission { service: "*".to_string(), method: "*".to_string() }
    }

    /// Whether two permissions are the same.
    pub fn same_as(&self, other: &Permission) -> (r: bool)
        ensures
            r == (self@ == other@),
    {
        text::str_eq(self.service.as_str(), other.service.as_str()) && text::str_eq(
            self.method.as_str(),
            other.method.as_str(),
        )
    }
}

#[derive(Debug)]
pub struct AuthContext {
    pub client_id: String,
    pub permissions: Vec<Permission>,
    pub expires_at: Option<Deadline>,
}

/// The mathematical model of an [`AuthContext`].
pub struct ContextView {
    pub client_id: Seq<char>,
    pub permissions: Seq<PermissionView>,
    pub expires_at: Option<DeadlineView>,
}

impl View for AuthContext {
    type V = ContextView;

    open spec fn view(&self) -> ContextView {
        ContextView {
            client_id: self.client_id@,
            permissions: permission_views(self.permissions@),
            expires_at: match self.expires_at {
                Some(d) => Some(d@),
                None => None,
            },
        }
    }
}

impl ContextView {
    /// Whether the context has not expired at `now`.
    pub open spec fn valid_at(self, now: Instant) -> bool {
        match self.expires_at {
            Some(deadline) => now.nanos < deadline.at,
            None => true,
        }
    }

    /// Whether the clock that issued the context, if it expires, may show `now`.
    pub open spec fn may_be_looked_at(self, now: Instant) -> bool {
        match self.expires_at {
            Some(deadline) => deadline.clock.shows(now),
            None => true,
        }
    }

    /// Whether some entry covers the service and some entry covers the method.
    pub open spec fn permits(self, wanted: PermissionView) -> bool {
        &&& exists|i: int|
            0 <= i < self.permissions.len() && covers_service(
                #[trigger] self.permissions[i],
                wanted.service,
            )
        &&& exists|i: int|
            0 <= i < self.permissions.len() && covers_method(
                #[trigger] self.permissions[i],
                wanted.method,
            )
    }
}

/// The entry names the service, or all of them.
pub open spec fn covers_service(p: PermissionView, service: Seq<char>) -> bool {
    p.service == "*"@ || p.service == service
}

/// The entry names the method, or one of the two stands for all of them.
pub open spec fn covers_method(p: PermissionView, method: Seq<char>) -> bool {
    p.method == "*"@ || method == "*"@ || p.method == method
}

impl Clone for AuthContext {
    fn clone(&self) -> (r: AuthContext)
        ensures
            r@ == self@,
    {
        AuthContext {
            client_id: self.client_id.clone(),
            permissions: copy_permissions(&self.permissions),
            expires_at: self.expires_at,
        }
    }
}

impl AuthContext {
    /// Whether the context has not expired yet.
    pub fn is_valid(&self) -> (r: bool)
        ensures
            exists|now: Instant|
                self@.may_be_looked_at(now) && r == #[trigger] self@.valid_at(now),
    {
        match self.expires_at {
            Some(deadline) => {
                let now = deadline.clock_now();
                self.is_valid_at(now)
            },
            None => {
                assert(self@.valid_at(Instant { nanos: 0 }));
                true
            },
        }
    }

    /// Whether the context has not expired at the time `now` of the clock that
    /// issued it.
    pub fn is_valid_at(&self, now: Instant) -> (r: bool)
        ensures
            r == self@.valid_at(now),
    {
        match self.expires_at {
            Some(deadline) => deadline.is_ahead_at(now),
            None => true,
        }
    }

    pub fn has_permission(&self, permission: &Permission) -> (r: bool)
        ensures
            r == self@.permits(permission@),
    {
        let mut service_covered = false;
        let mut method_covered = false;
        let any_method = text::str_eq(permission.method.as_str(), "*");
        let mut i: usize = 0;
        while i < self.permissions.len()
            invariant
                i <= self.permissions@.len(),
                any_method == (permission.method@ == "*"@),
                service_covered == exists|j: int|
                    0 <= j < i && covers_service(
                        (#[trigger] self@.permissions[j]),
                        permission.service@,
                    ),
                method_covered == exists|j: int|
                    0 <= j < i && covers_method(
                        (#[trigger] self@.permissions[j]),
                        permission.method@,
                    ),
            decreases self.permissions.len() - i,
        {
            let p = &self.permissions[i];
            assert(self@.permissions[i as int] == p@);
            if text::str_eq(p.service.as_str(), "*") || text::str_eq(
                p.service.as_str(),
                permission.service.as_str(),
            ) {
                service_covered = true;
            }
            if any_method || text::str_eq(p.method.as_str(), "*") || text::str_eq(
                p.method.as_str(),
                permission.method.as_str(),
            ) {
                method_covered = true;
            }
            i = i + 1;
        }
        service_covered && method_covered
    }
}

/// What an authenticator answered.
pub open spec fn answer(r: Result<AuthContext, ProtocolError>) -> Result<ContextView, ErrorView> {
    match r {
        Ok(ctx) => Ok(ctx@),
        Err(e) => Err(e@),
    }
}

/// Decides who a client is.
pub trait Authenticator: Send + Sync {
    /// Whether this may be the answer to the credentials; any answer may be
    /// unless an authenticator says otherwise.
    open spec fn may_answer(
        &self,
        credentials: CredentialsView,
        answer: Result<ContextView, ErrorView>,
    ) -> bool {
        true
    }

    fn authenticate(&self, credentials: &Credentials) -> (r: Result<AuthContext, ProtocolError>)
        ensures
            self.may_answer(credentials@, answer(r)),
    ;
}

/// Accepts the tokens that were issued, until they expire.
#[derive(Debug)]
pub struct TokenAuthenticator {
    tokens: StrMap<AuthContext>,
    token_ttl: Duration,
    clock: Clock,
}

/// The mathematical model of a [`TokenAuthenticator`].
pub struct TokensView {
    pub tokens: Map<Seq<char>, ContextView>,
    /// Nanoseconds for which a new token is valid.
    pub ttl: nat,
    pub clock: Clock,
}

impl View for TokenAuthenticator {
    type V = TokensView;

    closed spec fn view(&self) -> TokensView {
        TokensView {
            tokens: self.tokens@.map_values(|c: AuthContext| c@),
            ttl: self.token_ttl@,
            clock: self.clock,
        }
    }
}

impl TokensView {
    /// The context that a token issued at `now` stands for.
    pub open spec fn issued(
        self,
        client_id: Seq<char>,
        permissions: Seq<PermissionView>,
        now: Instant,
    ) -> ContextView {
        ContextView {
            client_id,
            permissions,
            expires_at: Some(DeadlineView { clock: self.clock, at: now.nanos as nat + self.ttl }),
        }
    }

    /// The authenticator once a token was issued at `now`.
    pub open spec fn with_token(
        self,
        token: Seq<char>,
        client_id: Seq<char>,
        permissions: Seq<PermissionView>,
        now: Instant,
    ) -> TokensView {
        TokensView {
            tokens: self.tokens.insert(token, self.issued(client_id, permissions, now)),
            ..self
        }
    }

    /// The answer to the credentials at `now`.
    pub open spec fn answer_at(self, credentials: CredentialsView, now: Instant) -> Result<
        ContextView,
        ErrorView,
    > {
        match credentials.token {
            None => Err(ErrorView::Protocol("missing authentication token"@)),
            Some(token) => if !self.tokens.dom().contains(token) {
                Err(ErrorView::Protocol("invalid token"@))
            } else if !self.tokens[token].valid_at(now) {
                Err(ErrorView::Protocol("token expired"@))
            } else {
                Ok(self.tokens[token])
            },
        }
    }
}

impl TokenAuthenticator {
    /// No tokens yet; new ones are valid for an hour.
    pub fn new() -> (r: TokenAuthenticator)
        ensures
            r@ == (TokensView {
                tokens: Map::empty(),
                ttl: 3_600_000_000_000,
                clock: r@.clock,
            }),
    {
        let r = TokenAuthenticator {
            tokens: StrMap::new(),
            token_ttl: Duration::from_secs(3600),
            clock: Clock::new(),
        };
        assert(r@.tokens =~= Map::empty());
        r
    }

    pub fn with_ttl(self, ttl: Duration) -> (r: TokenAuthenticator)
        ensures
            r@ == (TokensView { ttl: ttl@, ..self@ }),
    {
        TokenAuthenticator { token_ttl: ttl, ..self }
    }

    /// Issues a token at the current time.
    pub fn add_token(&mut self, token: &str, client_id: &str, permissions: Vec<Permission>)
        ensures
            exists|now: Instant|
                old(self)@.clock.shows(now) && final(self)@ == #[trigger] old(self)@.with_token(
                    token@,
                    client_id@,
                    permission_views(permissions@),
                    now,
                ),
    {
        let now = self.clock.now();
        self.add_token_at(token, client_id, permissions, now);
    }

    /// Issues a token at the time `now` of the authenticator's clock.
    pub fn add_token_at(
        &mut self,
        token: &str,
        client_id: &str,
        permissions: Vec<Permission>,
        now: Instant,
    )
        ensures
            final(self)@ == old(self)@.with_token(
                token@,
                client_id@,
                permission_views(permissions@),
                now,
            ),
    {
        let ctx = AuthContext {
            client_id: client_id.to_string(),
            permissions,
            expires_at: Some(Deadline::after(self.clock, now, self.token_ttl)),
        };
        self.tokens.insert(token.to_string(), ctx);
        assert(self@.tokens =~= old(self)@.tokens.insert(token@, ctx@));
    }

    pub fn remove_token(&mut self, token: &str)
        ensures
            final(self)@ == (TokensView { tokens: old(self)@.tokens.remove(token@), ..old(self)@ }),
    {
        let _ = self.tokens.remove(token);
        assert(self@.tokens =~= old(self)@.tokens.remove(token@));
    }

    /// The answer to the credentials at the time `now` of the authenticator's
    /// clock.
    pub fn authenticate_at(&self, credentials: &Credentials, now: Instant) -> (r: Result<
        AuthContext,
        ProtocolError,
    >)
        ensures
            answer(r) == self@.answer_at(credentials@, now),
    {
        let token = match &credentials.token {
            Some(token) => token,
            None => return Err(
                ProtocolError::Protocol("missing authentication token".to_string()),
            ),
        };
        let ctx = match self.tokens.get(token.as_str()) {
            Some(ctx) => ctx,
            None => return Err(ProtocolError::Protocol("invalid token".to_string())),
        };
        if !ctx.is_valid_at(now) {
            return Err(ProtocolError::Protocol("token expired".to_string()));
        }
        Ok(ctx.clone())
    }
}

impl Authenticator for TokenAuthenticator {
    open spec fn may_answer(
        &self,
        credentials: CredentialsView,
        answer: Result<ContextView, ErrorView>,
    ) -> bool {
        exists|now: Instant|
            self@.clock.shows(now) && answer == #[trigger] self@.answer_at(credentials, now)
    }

    fn authenticate(&self, credentials: &Credentials) -> (r: Result<AuthContext, ProtocolError>) {
        let now = self.clock.now();
        self.authenticate_at(credentials, now)
    }
}

/// Accepts the API keys that were registered.
#[derive(Debug)]
pub struct ApiKeyAuthenticator {
    keys: StrMap<(String, Vec<Permission>)>,
}

impl View for ApiKeyAuthenticator {
    type V = Map<Seq<char>, ContextView>;

    /// The context that each key stands for.
    closed spec fn view(&self) -> Map<Seq<char>, ContextView> {
        self.keys@.map_values(
            |e: (String, Vec<Permission>)| key_context(e.0@, permission_views(e.1@)),
        )
    }
}

/// The context that an API key stands for. It does not expire.
pub open spec fn key_context(client_id: Seq<char>, permissions: Seq<PermissionView>) -> ContextView {
    ContextView { client_id, permissions, expires_at: None }
}

/// The answer to the credentials, where these keys are known.
pub open spec fn key_answer(
    keys: Map<Seq<char>, ContextView>,
    credentials: CredentialsView,
) -> Result<ContextView, ErrorView> {
    match credentials.api_key {
        None => Err(ErrorView::Protocol("missing API key"@)),
        Some(key) => if keys.dom().contains(key) {
            Ok(keys[key])
        } else {
            Err(ErrorView::Protocol("invalid API key"@))
        },
    }
}

impl ApiKeyAuthenticator {
    pub fn new() -> (r: ApiKeyAuthenticator)
        ensures
            r@ == Map::<Seq<char>, ContextView>::empty(),
    {
        let r = ApiKeyAuthenticator { keys: StrMap::new() };
        assert(r@ =~= Map::empty());
        r
    }

    pub fn add_key(&mut self, api_key: &str, client_id: &str, permissions: Vec<Permission>)
        ensures
            final(self)@ == old(self)@.insert(
                api_key@,
                key_context(client_id@, permission_views(permissions@)),
            ),
    {
        self.keys.insert(api_key.to_string(), (client_id.to_string(), permissions));
        assert(self@ =~= old(self)@.insert(
            api_key@,
            key_context(client_id@, permission_views(permissions@)),
        ));
    }
}

impl Authenticator for ApiKeyAuthenticator {
    open spec fn may_answer(
        &self,
        credentials: CredentialsView,
        answer: Result<ContextView, ErrorView>,
    ) -> bool {
        answer == key_answer(self@, credentials)
    }

    fn authenticate(&self, credentials: &Credentials) -> (r: Result<AuthContext, ProtocolError>) {
        let api_key = match &credentials.api_key {
            Some(api_key) => api_key,
            None => return Err(ProtocolError::Protocol("missing API key".to_string())),
        };
        match self.keys.get(api_key.as_str()) {
            Some(entry) => Ok(
                AuthContext {
                    client_id: entry.0.clone(),
                    permissions: copy_permissions(&entry.1),
                    expires_at: None,
                },
            ),
            None => Err(ProtocolError::Protocol("invalid API key".to_string())),
        }
    }
}

impl Default for TokenAuthenticator {
    fn default() -> (r: TokenAuthenticator)
        ensures
            r@ == (TokensView {
                tokens: Map::empty(),
                ttl: 3_600_000_000_000,
                clock: r@.clock,
            }),
    {
        TokenAuthenticator::new()
    }
}

impl Default for ApiKeyAuthenticator {
    fn default() -> (r: ApiKeyAuthenticator)
        ensures
            r@ == Map::<Seq<char>, ContextView>::empty(),
    {
        ApiKeyAuthenticator::new()
    }
}

impl Default for CompositeAuthenticator<Nobody> {
    fn default() -> (r: CompositeAuthenticator<Nobody>)
        ensures
            r.authenticators == Nobody,
    {
        CompositeAuthenticator::new()
    }
}

/// What a list of authenticators answered, if there was anyone to ask.
pub open spec fn list_answer(r: Option<Result<AuthContext, ProtocolError>>) -> Option<
    Result<ContextView, ErrorView>,
> {
    match r {
        Some(a) => Some(answer(a)),
        None => None,
    }
}

/// Authenticators that are asked one after another.
pub trait AuthenticatorList: Send + Sync {
    /// Whether this may be the answer of the list: that of the first that
    /// accepts, or else of the last; none if there is nobody to ask.
    spec fn may_settle(
        &self,
        credentials: CredentialsView,
        answer: Option<Result<ContextView, ErrorView>>,
    ) -> bool;

    fn ask(&self, credentials: &Credentials) -> (r: Option<Result<AuthContext, ProtocolError>>)
        ensures
            self.may_settle(credentials@, list_answer(r)),
    ;
}

/// The list without anyone to ask.
#[derive(Debug)]
pub struct Nobody;

impl AuthenticatorList for Nobody {
    open spec fn may_settle(
        &self,
        credentials: CredentialsView,
        answer: Option<Result<ContextView, ErrorView>>,
    ) -> bool {
        answer is None
    }

    fn ask(&self, credentials: &Credentials) -> (r: Option<Result<AuthContext, ProtocolError>>) {
        None
    }
}

/// A list and one more authenticator, which is asked if nobody in the list
/// accepts.
#[derive(Debug)]
pub struct Then<L, A> {
    pub list: L,
    pub next: A,
}

/// The list accepted.
pub open spec fn accepted(answer: Option<Result<ContextView, ErrorView>>) -> bool {
    answer matches Some(Ok(_))
}

impl<L: AuthenticatorList, A: Authenticator> AuthenticatorList for Then<L, A> {
    open spec fn may_settle(
        &self,
        credentials: CredentialsView,
        answer: Option<Result<ContextView, ErrorView>>,
    ) -> bool {
        ||| accepted(answer) && self.list.may_settle(credentials, answer)
        ||| {
            &&& answer is Some
            &&& self.next.may_answer(credentials, answer->0)
            &&& exists|before: Option<Result<ContextView, ErrorView>>|
                #[trigger] self.list.may_settle(credentials, before) && !accepted(before)
        }
    }

    fn ask(&self, credentials: &Credentials) -> (r: Option<Result<AuthContext, ProtocolError>>) {
        let before = self.list.ask(credentials);
        assert(self.list.may_settle(credentials@, list_answer(before)));
        match before {
            Some(Ok(ctx)) => Some(Ok(ctx)),
            _ => Some(self.next.authenticate(credentials)),
        }
    }
}

/// Whether the authenticator at `i` may turn the credentials down.
pub open spec fn may_refuse(
    list: Seq<Box<dyn Authenticator>>,
    i: int,
    credentials: CredentialsView,
) -> bool {
    exists|e: ErrorView| #[trigger] list[i].may_answer(credentials, Err(e))
}

/// Whether this may be the answer of a list that the authenticator at `i` gives:
/// those before it refuse, and it accepts or is the last.
pub open spec fn may_come_from(
    list: Seq<Box<dyn Authenticator>>,
    i: int,
    credentials: CredentialsView,
    answer: Result<ContextView, ErrorView>,
) -> bool {
    &&& 0 <= i < list.len()
    &&& list[i].may_answer(credentials, answer)
    &&& answer is Ok || i == list.len() - 1
    &&& forall|j: int| 0 <= j < i ==> #[trigger] may_refuse(list, j, credentials)
}

/// Authenticators that are chosen at run time, asked in their order.
impl AuthenticatorList for Vec<Box<dyn Authenticator>> {
    open spec fn may_settle(
        &self,
        credentials: CredentialsView,
        answer: Option<Result<ContextView, ErrorView>>,
    ) -> bool {
        match answer {
            Some(a) => exists|i: int| #[trigger] may_come_from(self@, i, credentials, a),
            None => self@.len() == 0,
        }
    }

    fn ask(&self, credentials: &Credentials) -> (r: Option<Result<AuthContext, ProtocolError>>) {
        let mut last: Option<Result<AuthContext, ProtocolError>> = None;
        let mut i: usize = 0;
        while i < self.len()
            invariant
                i <= self@.len(),
                i == 0 ==> last is None,
                i > 0 ==> {
                    &&& last matches Some(Err(_))
                    &&& self@[i - 1].may_answer(credentials@, answer(last->0))
                },
                forall|j: int| 0 <= j < i ==> #[trigger] may_refuse(self@, j, credentials@),
            decreases self.len() - i,
        {
            match self[i].authenticate(credentials) {
                Ok(ctx) => {
                    assert(may_come_from(self@, i as int, credentials@, Ok(ctx@)));
                    return Some(Ok(ctx));
                },
                Err(e) => {
                    assert(self@[i as int].may_answer(credentials@, Err(e@)));
                    assert(may_refuse(self@, i as int, credentials@));
                    last = Some(Err(e));
                },
            }
            i = i + 1;
        }
        if let Some(a) = &last {
            assert(may_come_from(self@, self@.len() - 1, credentials@, answer(*a)));
        }
        last
    }
}

/// Asks several authenticators in turn.
#[derive(Debug)]
pub struct CompositeAuthenticator<L = Nobody> {
    pub authenticators: L,
}

impl CompositeAuthenticator<Nobody> {
    pub fn new() -> (r: CompositeAuthenticator<Nobody>)
        ensures
            r.authenticators == Nobody,
    {
        CompositeAuthenticator { authenticators: Nobody }
    }
}

impl<L: AuthenticatorList> CompositeAuthenticator<L> {
    /// Adds an authenticator, to be asked after the others.
    pub fn add<T: Authenticator + 'static>(self, authenticator: T) -> (r: CompositeAuthenticator<
        Then<L, T>,
    >)
        ensures
            r.authenticators == (Then { list: self.authenticators, next: authenticator }),
    {
        CompositeAuthenticator {
            authenticators: Then { list: self.authenticators, next: authenticator },
        }
    }
}

impl CompositeAuthenticator<Vec<Box<dyn Authenticator>>> {
    /// Asks authenticators that are chosen at run time.
    pub fn of(authenticators: Vec<Box<dyn Authenticator>>) -> (r: Self)
        ensures
            r.authenticators == authenticators,
    {
        CompositeAuthenticator { authenticators }
    }
}

/// The answer of a composite, from that of its list.
pub open spec fn settled(answer: Option<Result<ContextView, ErrorView>>) -> Result<
    ContextView,
    ErrorView,
> {
    match answer {
        Some(a) => a,
        None => Err(ErrorView::Protocol("authentication failed"@)),
    }
}

impl<L: AuthenticatorList> Authenticator for CompositeAuthenticator<L> {
    open spec fn may_answer(
        &self,
        credentials: CredentialsView,
        answer: Result<ContextView, ErrorView>,
    ) -> bool {
        exists|of_list: Option<Result<ContextView, ErrorView>>|
            #[trigger] self.authenticators.may_settle(credentials, of_list) && answer == settled(
                of_list,
            )
    }

    fn authenticate(&self, credentials: &Credentials) -> (r: Result<AuthContext, ProtocolError>) {
        let of_list = self.authenticators.ask(credentials);
        assert(self.authenticators.may_settle(credentials@, list_answer(of_list)));
        match of_list {
            Some(a) => a,
            None => Err(ProtocolError::Protocol("authentication failed".to_string())),
        }
    }
}

/// Two authenticators in turn accept a client just when the first does, or the
/// first turns it down and the second accepts. When they turn it down, it is
/// with the error of the second.
pub proof fn law_composite_of_two<A: Authenticator, B: Authenticator>(
    both: CompositeAuthenticator<Then<Then<Nobody, A>, B>>,
    c: CredentialsView,
    a: Result<ContextView, ErrorView>,
)
    ensures
        ({
            let first = both.authenticators.list.next;
            let second = both.authenticators.next;
            let first_may_refuse = exists|e: ErrorView| #[trigger] first.may_answer(c, Err(e));
            both.may_answer(c, a) <==> (a is Ok && first.may_answer(c, a)) || (first_may_refuse
                && second.may_answer(c, a))
        }),
{
    let first = both.authenticators.list.next;
    let second = both.authenticators.next;
    let nobody = both.authenticators.list.list;
    let list = both.authenticators.list;
    assert(nobody.may_settle(c, None));
    assert forall|x: Option<Result<ContextView, ErrorView>>|
        #[trigger] list.may_settle(c, x) <==> x is Some && first.may_answer(c, x->0) by {
        assert(nobody.may_settle(c, None));
    }
    if both.may_answer(c, a) {
        let o = choose|o: Option<Result<ContextView, ErrorView>>|
            #[trigger] both.authenticators.may_settle(c, o) && a == settled(o);
        if !(accepted(o) && list.may_settle(c, o)) {
            let before = choose|before: Option<Result<ContextView, ErrorView>>|
                #[trigger] list.may_settle(c, before) && !accepted(before);
            assert(first.may_answer(c, Err(before->0->Err_0)));
        }
    }
    if a is Ok && first.may_answer(c, a) {
        assert(list.may_settle(c, Some(a)));
        assert(both.authenticators.may_settle(c, Some(a)));
    }
    if (exists|e: ErrorView| #[trigger] first.may_answer(c, Err(e))) && second.may_answer(c, a) {
        let e = choose|e: ErrorView| #[trigger] first.may_answer(c, Err(e));
        assert(list.may_settle(c, Some(Err(e))));
        assert(both.authenticators.may_settle(c, Some(a)));
    }
}

/// A composite without authenticators turns everyone down.
pub proof fn law_empty_composite_refuses(
    nobody: CompositeAuthenticator<Nobody>,
    c: CredentialsView,
    a: Result<ContextView, ErrorView>,
)
    ensures
        nobody.may_answer(c, a) <==> a == Err::<ContextView, ErrorView>(
            ErrorView::Protocol("authentication failed"@),
        ),
{
    assert(nobody.authenticators.may_settle(c, None));
}

/// Lets a request through once its client is known and its method is among
/// those that were listed for the service. A service for which none were
/// listed is open to every known client.
#[derive(Debug)]
pub struct AuthMiddleware<A: ?Sized> {
    authenticator: Arc<A>,
    required_permissions: StrMap<Vec<Permission>>,
}

/// Whether the listed permissions let the method of the service through.
pub open spec fn listed(required: Seq<PermissionView>, service: Seq<char>, method: Seq<char>) -> bool {
    ||| required.contains(PermissionView { service, method })
    ||| required.contains(PermissionView { service: "*"@, method: "*"@ })
}

/// The decision on a client that was found to be `ctx`, valid or not.
pub open spec fn decision(
    required: Map<Seq<char>, Seq<PermissionView>>,
    ctx: ContextView,
    valid: bool,
    service: Seq<char>,
    method: Seq<char>,
) -> Result<ContextView, ErrorView> {
    if !valid {
        Err(ErrorView::Protocol("authentication expired"@))
    } else if required.dom().contains(service) && !listed(required[service], service, method) {
        Err(ErrorView::Protocol("permission denied"@))
    } else {
        Ok(ctx)
    }
}

/// The decision at `now` on a client of which the authenticator said `a`.
pub open spec fn checked(
    required: Map<Seq<char>, Seq<PermissionView>>,
    a: Result<ContextView, ErrorView>,
    now: Instant,
    service: Seq<char>,
    method: Seq<char>,
) -> Result<ContextView, ErrorView> {
    match a {
        Ok(ctx) => decision(required, ctx, ctx.valid_at(now), service, method),
        Err(e) => Err(e),
    }
}

/// Whether a permission is in a list.
fn contains_permission(list: &Vec<Permission>, wanted: &Permission) -> (r: bool)
    ensures
        r == permission_views(list@).contains(wanted@),
{
    let mut i: usize = 0;
    while i < list.len()
        invariant
            i <= list@.len(),
            forall|j: int| 0 <= j < i ==> (#[trigger] permission_views(list@)[j]) != wanted@,
        decreases list.len() - i,
    {
        if list[i].same_as(wanted) {
            assert(permission_views(list@)[i as int] == wanted@);
            return true;
        }
        i = i + 1;
    }
    false
}

impl<A: ?Sized> AuthMiddleware<A> {
    /// The permissions that were listed for each service.
    pub closed spec fn required(&self) -> Map<Seq<char>, Seq<PermissionView>> {
        self.required_permissions@.map_values(|v: Vec<Permission>| permission_views(v@))
    }

    /// The authenticator that is asked.
    pub closed spec fn authenticator(&self) -> Arc<A> {
        self.authenticator
    }
}

impl<A: Authenticator + ?Sized> AuthMiddleware<A> {
    pub fn new(authenticator: Arc<A>) -> (r: AuthMiddleware<A>)
        ensures
            r.authenticator() == authenticator,
            r.required() == Map::<Seq<char>, Seq<PermissionView>>::empty(),
    {
        let r = AuthMiddleware { authenticator, required_permissions: StrMap::new() };
        assert(r.required() =~= Map::empty());
        r
    }

    /// Lists one more permission for a service.
    pub fn require_permission(self, service: &str, permission: Permission) -> (r: AuthMiddleware<A>)
        ensures
            r.authenticator() == self.authenticator(),
            r.required() == self.required().insert(
                service@,
                if self.required().dom().contains(service@) {
                    self.required()[service@].push(permission@)
                } else {
                    seq![permission@]
                },
            ),
    {
        let mut required_permissions = self.required_permissions;
        let mut list = match required_permissions.remove(service) {
            Some(list) => list,
            None => Vec::new(),
        };
        let ghost before = list@;
        list.push(permission);
        assert(permission_views(list@) =~= permission_views(before).push(permission@));
        assert(permission_views(Seq::<Permission>::empty()).push(permission@) =~= seq![permission@]);
        required_permissions.insert(service.to_string(), list);
        let r = AuthMiddleware { authenticator: self.authenticator, required_permissions };
        assert(r.required() =~= self.required().insert(service@, permission_views(list@)));
        r
    }

    /// The decision on a client that was found to be `ctx`, valid or not.
    pub fn decide(&self, ctx: AuthContext, valid: bool, service: &str, method: &str) -> (r: Result<
        AuthContext,
        ProtocolError,
    >)
        ensures
            answer(r) == decision(self.required(), ctx@, valid, service@, method@),
    {
        if !valid {
            return Err(ProtocolError::Protocol("authentication expired".to_string()));
        }
        if let Some(required) = self.required_permissions.get(service) {
            let permission = Permission::new(service, method);
            if !contains_permission(required, &permission) && !contains_permission(
                required,
                &Permission::all(),
            ) {
                return Err(ProtocolError::Protocol("permission denied".to_string()));
            }
        }
        Ok(ctx)
    }

    /// Asks the authenticator and decides on the request.
    pub fn check(&self, credentials: &Credentials, service: &str, method: &str) -> (r: Result<
        AuthContext,
        ProtocolError,
    >)
        ensures
            exists|a: Result<ContextView, ErrorView>, now: Instant|
                self.authenticator().may_answer(credentials@, a) && (a matches Ok(ctx)
                    ==> ctx.may_be_looked_at(now)) && answer(r) == #[trigger] checked(
                    self.required(),
                    a,
                    now,
                    service@,
                    method@,
                ),
    {
        let found = self.authenticator.authenticate(credentials);
        let ghost a = answer(found);
        assert(self.authenticator().may_answer(credentials@, a));
        match found {
            Ok(ctx) => {
                let valid = ctx.is_valid();
                let ghost now = choose|now: Instant|
                    ctx@.may_be_looked_at(now) && valid == #[trigger] ctx@.valid_at(now);
                let r = self.decide(ctx, valid, service, method);
                assert(answer(r) == checked(self.required(), a, now, service@, method@));
                r
            },
            Err(e) => {
                assert(a == checked(self.required(), a, Instant { nanos: 0 }, service@, method@));
                Err(e)
            },
        }
    }
}

/// At most `max_requests` requests of each client in any stretch of time as
/// long as `window`.
#[derive(Debug)]
pub struct RateLimiter {
    max_requests: usize,
    window: Duration,
    requests: StrMap<Vec<Instant>>,
    clock: Clock,
}

/// The mathematical model of a [`RateLimiter`].
pub struct LimiterView {
    pub max_requests: nat,
    /// The length of the window in nanoseconds.
    pub window: nat,
    /// When each client was let through.
    pub requests: Map<Seq<char>, Seq<Instant>>,
    pub clock: Clock,
}

impl View for RateLimiter {
    type V = LimiterView;

    closed spec fn view(&self) -> LimiterView {
        LimiterView {
            max_requests: self.max_requests as nat,
            window: self.window@,
            requests: self.requests@.map_values(|v: Vec<Instant>| v@),
            clock: self.clock,
        }
    }
}

impl LimiterView {
    /// When the client was let through, as far as it is kept.
    pub open spec fn of(self, client: Seq<char>) -> Seq<Instant> {
        if self.requests.dom().contains(client) {
            self.requests[client]
        } else {
            Seq::empty()
        }
    }

    /// Whether a request of the client is let through at `now`.
    pub open spec fn lets_through(self, client: Seq<char>, now: Instant) -> bool {
        window::fresh(self.of(client), now, self.window).len() < self.max_requests
    }

    /// The limiter after a request of the client at `now`.
    pub open spec fn after_request(self, client: Seq<char>, now: Instant) -> LimiterView {
        LimiterView {
            requests: self.requests.insert(
                client,
                window::admitted(self.of(client), now, self.window, self.max_requests),
            ),
            ..self
        }
    }

    /// How many more requests of the client are let through at `now`.
    pub open spec fn remaining(self, client: Seq<char>, now: Instant) -> nat {
        window::room(self.of(client), now, self.window, self.max_requests)
    }
}

impl RateLimiter {
    pub fn new(max_requests: usize, window: Duration) -> (r: RateLimiter)
        ensures
            r@ == (LimiterView {
                max_requests: max_requests as nat,
                window: window@,
                requests: Map::empty(),
                clock: r@.clock,
            }),
    {
        let r = RateLimiter { max_requests, window, requests: StrMap::new(), clock: Clock::new() };
        assert(r@.requests =~= Map::empty());
        r
    }

    /// Whether a request of the client is let through at the current time.
    pub fn check(&mut self, client_id: &str) -> (r: bool)
        ensures
            exists|now: Instant|
                old(self)@.clock.shows(now) && r == old(self)@.lets_through(client_id@, now)
                    && final(self)@ == #[trigger] old(self)@.after_request(client_id@, now),
    {
        let now = self.clock.now();
        self.check_at(client_id, now)
    }

    /// Whether a request of the client is let through at the time `now` of the
    /// limiter's clock.
    pub fn check_at(&mut self, client_id: &str, now: Instant) -> (r: bool)
        ensures
            r == old(self)@.lets_through(client_id@, now),
            final(self)@ == old(self)@.after_request(client_id@, now),
    {
        let mut stamps = match self.requests.remove(client_id) {
            Some(stamps) => stamps,
            None => Vec::new(),
        };
        assert(stamps@ == old(self)@.of(client_id@));
        let through = window::let_in_at(&mut stamps, now, self.window, self.max_requests);
        self.requests.insert(client_id.to_string(), stamps);
        assert(self@.requests =~= old(self)@.requests.insert(client_id@, stamps@));
        through
    }

    /// How many more requests of the client are let through at the current
    /// time.
    pub fn remaining(&self, client_id: &str) -> (r: usize)
        ensures
            exists|now: Instant|
                self@.clock.shows(now) && r == #[trigger] self@.remaining(client_id@, now),
    {
        let now = self.clock.now();
        self.remaining_at(client_id, now)
    }

    /// How many more requests of the client are let through at the time `now`
    /// of the limiter's clock.
    pub fn remaining_at(&self, client_id: &str, now: Instant) -> (r: usize)
        ensures
            r == self@.remaining(client_id@, now),
    {
        match self.requests.get(client_id) {
            Some(stamps) => window::room_left(stamps, now, self.window, self.max_requests),
            None => {
                assert(window::fresh(Seq::empty(), now, self.window@) =~= Seq::empty()) by {
                    reveal(Seq::filter);
                }
                self.max_requests
            },
        }
    }

    /// Forgets the requests of a client.
    pub fn reset(&mut self, client_id: &str)
        ensures
            final(self)@ == (LimiterView {
                requests: old(self)@.requests.remove(client_id@),
                ..old(self)@
            }),
    {
        let _ = self.requests.remove(client_id);
        assert(self@.requests =~= old(self)@.requests.remove(client_id@));
    }
}

/// What one client does leaves the others as they were.
pub proof fn law_clients_are_independent(
    limiter: LimiterView,
    client: Seq<char>,
    other: Seq<char>,
    now: Instant,
    later: Instant,
)
    requires
        client != other,
    ensures
        limiter.after_request(client, now).lets_through(other, later) == limiter.lets_through(
            other,
            later,
        ),
        limiter.after_request(client, now).remaining(other, later) == limiter.remaining(
            other,
            later,
        ),
{
}

/// The limiter after requests of one client at the given times.
pub open spec fn after_requests(limiter: LimiterView, client: Seq<char>, times: Seq<Instant>) -> LimiterView
    decreases times.len(),
{
    if times.len() == 0 {
        limiter
    } else {
        after_requests(limiter, client, times.drop_last()).after_request(client, times.last())
    }
}

/// A limiter that starts afresh keeps just the window of the client's history,
/// so that `window::law_rate_is_bounded` holds of the client's requests.
pub proof fn law_limiter_follows_the_window(limiter: LimiterView, client: Seq<char>, times: Seq<Instant>)
    requires
        limiter.requests == Map::<Seq<char>, Seq<Instant>>::empty(),
    ensures
        after_requests(limiter, client, times).of(client) == window::history(
            times,
            limiter.window,
            limiter.max_requests,
        ).1,
        after_requests(limiter, client, times).window == limiter.window,
        after_requests(limiter, client, times).max_requests == limiter.max_requests,
    decreases times.len(),
{
    if times.len() > 0 {
        law_limiter_follows_the_window(limiter, client, times.drop_last());
    }
}

/// What happens to a limiter.
pub enum LimiterEvent {
    /// A client asked to be let through.
    Checked { client: Seq<char>, now: Instant },
    /// The requests of a client were forgotten.
    Reset { client: Seq<char> },
}

impl LimiterView {
    /// The limiter after all of these events.
    pub open spec fn after(self, events: Seq<LimiterEvent>) -> LimiterView
        decreases events.len(),
    {
        if events.len() == 0 {
            self
        } else {
            let before = self.after(events.drop_last());
            match events.last() {
                LimiterEvent::Checked { client, now } => before.after_request(client, now),
                LimiterEvent::Reset { client } => LimiterView {
                    requests: before.requests.remove(client),
                    ..before
                },
            }
        }
    }

    /// When the client was let through since it was last reset.
    pub open spec fn let_through(self, events: Seq<LimiterEvent>, of: Seq<char>) -> Seq<Instant>
        decreases events.len(),
    {
        if events.len() == 0 {
            Seq::empty()
        } else {
            let before = self.let_through(events.drop_last(), of);
            match events.last() {
                LimiterEvent::Checked { client, now } => if client == of && self.after(
                    events.drop_last(),
                ).lets_through(client, now) {
                    before.push(now)
                } else {
                    before
                },
                LimiterEvent::Reset { client } => if client == of {
                    Seq::empty()
                } else {
                    before
                },
            }
        }
    }
}

/// Nobody asked later than `now`.
pub open spec fn asked_by(events: Seq<LimiterEvent>, now: Instant) -> bool
    decreases events.len(),
{
    if events.len() == 0 {
        true
    } else {
        asked_by(events.drop_last(), now) && (events.last() matches LimiterEvent::Checked {
            now: then,
            ..
        } ==> then.nanos <= now.nanos)
    }
}

/// Whatever happened to a limiter that started afresh: a client is let through
/// just when fewer than the maximum of the requests with which it was let through
/// since its last reset lie in the window, and it has as many left as are missing
/// to the maximum. A request that is refused does not count.
pub proof fn law_only_accepted_requests_count(
    limiter: LimiterView,
    events: Seq<LimiterEvent>,
    client: Seq<char>,
    now: Instant,
)
    requires
        limiter.requests == Map::<Seq<char>, Seq<Instant>>::empty(),
        asked_by(events, now),
    ensures
        ({
            let after = limiter.after(events);
            let counted = window::fresh(limiter.let_through(events, client), now, limiter.window);
            &&& after.lets_through(client, now) <==> counted.len() < limiter.max_requests
            &&& after.remaining(client, now) == if counted.len() < limiter.max_requests {
                (limiter.max_requests - counted.len()) as nat
            } else {
                0
            }
            &&& !after.lets_through(client, now) ==> after.after_request(client, now).remaining(
                client,
                now,
            ) == 0
        }),
{
    lemma_accepted_are_kept(limiter, events, client, now);
    let after = limiter.after(events);
    window::law_forgotten_times_stay_out(after.of(client), now, now, limiter.window);
}

proof fn lemma_accepted_are_kept(
    limiter: LimiterView,
    events: Seq<LimiterEvent>,
    client: Seq<char>,
    now: Instant,
)
    requires
        limiter.requests == Map::<Seq<char>, Seq<Instant>>::empty(),
        asked_by(events, now),
    ensures
        limiter.after(events).window == limiter.window,
        limiter.after(events).max_requests == limiter.max_requests,
        window::fresh(limiter.after(events).of(client), now, limiter.window) == window::fresh(
            limiter.let_through(events, client),
            now,
            limiter.window,
        ),
    decreases events.len(),
{
    if events.len() > 0 {
        let before = limiter.after(events.drop_last());
        lemma_accepted_are_kept(limiter, events.drop_last(), client, now);
        if let LimiterEvent::Checked { client: asking, now: then } = events.last() {
            if asking == client {
                window::lemma_admitted_time_counts_later(
                    before.of(client),
                    then,
                    now,
                    limiter.window,
                    limiter.max_requests,
                );
                window::lemma_pushed_time_counts(
                    before.of(client),
                    limiter.let_through(events.drop_last(), client),
                    then,
                    now,
                    limiter.window,
                );
            }
        }
    }
}

/// Once a client was reset it has all of its requests left.
pub proof fn law_reset_restores(limiter: LimiterView, client: Seq<char>, now: Instant)
    ensures
        (LimiterView { requests: limiter.requests.remove(client), ..limiter }).remaining(
            client,
            now,
        ) == limiter.max_requests,
{
    assert(window::fresh(Seq::empty(), now, limiter.window) =~= Seq::empty()) by {
        reveal(Seq::filter);
    }
}

/// A token that was issued is accepted until its time is over, and not after
/// that; one that was taken back is not accepted at all.
pub proof fn law_token_lifetime(
    tokens: TokensView,
    credentials: CredentialsView,
    client_id: Seq<char>,
    permissions: Seq<PermissionView>,
    issued: Instant,
    now: Instant,
)
    requires
        credentials.token is Some,
    ensures
        ({
            let token = credentials.token->0;
            let after = tokens.with_token(token, client_id, permissions, issued);
            let revoked = TokensView { tokens: after.tokens.remove(token), ..after };
            &&& now.nanos < issued.nanos + tokens.ttl ==> after.answer_at(credentials, now) == Ok::<
                ContextView,
                ErrorView,
            >(tokens.issued(client_id, permissions, issued))
            &&& now.nanos >= issued.nanos + tokens.ttl ==> after.answer_at(credentials, now)
                is Err
            &&& revoked.answer_at(credentials, now) is Err
        }),
{
}

/// A client with every permission is let at every method of every service.
pub proof fn law_all_permits_everything(ctx: ContextView, wanted: PermissionView)
    requires
        ctx.permissions.contains(PermissionView { service: "*"@, method: "*"@ }),
    ensures
        ctx.permits(wanted),
{
    let i = choose|i: int|
        0 <= i < ctx.permissions.len() && ctx.permissions[i] == (PermissionView {
            service: "*"@,
            method: "*"@,
        });
    assert(covers_service(ctx.permissions[i], wanted.service));
    assert(covers_method(ctx.permissions[i], wanted.method));
}

/// A client without permissions is let at nothing.
pub proof fn law_no_permissions_permit_nothing(ctx: ContextView, wanted: PermissionView)
    requires
        ctx.permissions.len() == 0,
    ensures
        !ctx.permits(wanted),
{
}

/// A client is let through just when fewer than the maximum of its requests that are
/// kept lie less than the window before now; the request is then kept, and else
/// nothing but what is older is forgotten. As many more are let through as are missing
/// to the maximum. The other clients stay as they are.
pub proof fn law_rate_is_checked_against_the_window(
    limiter: LimiterView,
    client: Seq<char>,
    other: Seq<char>,
    now: Instant,
)
    requires
        other != client,
    ensures
        ({
            let recent = window::count_recent(limiter.of(client), now, limiter.window);
            let after = limiter.after_request(client, now);
            &&& limiter.lets_through(client, now) <==> recent < limiter.max_requests
            &&& recent < limiter.max_requests ==> limiter.remaining(client, now)
                == limiter.max_requests - recent
            &&& recent >= limiter.max_requests ==> limiter.remaining(client, now) == 0
            &&& recent < limiter.max_requests ==> after.of(client).len() == recent + 1
                && after.of(client).last() == now
            &&& recent >= limiter.max_requests ==> after.of(client).len() == recent
            &&& after.of(other) == limiter.of(other)
            &&& after.max_requests == limiter.max_requests && after.window == limiter.window
        }),
{
    window::law_window_counts_the_recent(
        limiter.of(client),
        now,
        limiter.window,
        limiter.max_requests,
    );
}

/// A client may call a method just when one of its permissions is for the service or
/// for all services, and one is for the method or for all methods.
pub proof fn law_permissions_cover_service_and_method(ctx: ContextView, wanted: PermissionView)
    ensures
        ctx.permits(wanted) <==> (exists|i: int|
            0 <= i < ctx.permissions.len() && ((#[trigger] ctx.permissions[i]).service == "*"@
                || ctx.permissions[i].service == wanted.service)) && (exists|j: int|
            0 <= j < ctx.permissions.len() && ((#[trigger] ctx.permissions[j]).method == "*"@
                || ctx.permissions[j].method == wanted.method || wanted.method == "*"@)),
{
    if ctx.permits(wanted) {
        let i = choose|i: int|
            0 <= i < ctx.permissions.len() && covers_service(
                #[trigger] ctx.permissions[i],
                wanted.service,
            );
        assert(ctx.permissions[i].service == "*"@ || ctx.permissions[i].service
            == wanted.service);
        let j = choose|j: int|
            0 <= j < ctx.permissions.len() && covers_method(
                #[trigger] ctx.permissions[j],
                wanted.method,
            );
        assert(ctx.permissions[j].method == "*"@ || ctx.permissions[j].method == wanted.method
            || wanted.method == "*"@);
    }
    if (exists|i: int|
        0 <= i < ctx.permissions.len() && ((#[trigger] ctx.permissions[i]).service == "*"@
            || ctx.permissions[i].service == wanted.service)) && (exists|j: int|
        0 <= j < ctx.permissions.len() && ((#[trigger] ctx.permissions[j]).method == "*"@
            || ctx.permissions[j].method == wanted.method || wanted.method == "*"@)) {
        let i = choose|i: int|
            0 <= i < ctx.permissions.len() && ((#[trigger] ctx.permissions[i]).service == "*"@
                || ctx.permissions[i].service == wanted.service);
        assert(covers_service(ctx.permissions[i], wanted.service));
        let j = choose|j: int|
            0 <= j < ctx.permissions.len() && ((#[trigger] ctx.permissions[j]).method == "*"@
                || ctx.permissions[j].method == wanted.method || wanted.method == "*"@);
        assert(covers_method(ctx.permissions[j], wanted.method));
    }
}

/// A client that is known is let at a method just when its context has not expired,
/// and nothing was listed for the service, or the very permission or that for
/// everything was. One that is not known is told why by the authenticator.
pub proof fn law_middleware_lets_listed_methods_through(
    required: Map<Seq<char>, Seq<PermissionView>>,
    ctx: ContextView,
    e: ErrorView,
    now: Instant,
    service: Seq<char>,
    method: Seq<char>,
)
    ensures
        ({
            let expired = ctx.expires_at matches Some(deadline) && now.nanos >= deadline.at;
            let listed = !required.dom().contains(service) || required[service].contains(
                PermissionView { service, method },
            ) || required[service].contains(PermissionView { service: "*"@, method: "*"@ });
            let said = checked(required, Ok(ctx), now, service, method);
            &&& expired ==> said == Err::<ContextView, ErrorView>(
                ErrorView::Protocol("authentication expired"@),
            )
            &&& !expired && !listed ==> said == Err::<ContextView, ErrorView>(
                ErrorView::Protocol("permission denied"@),
            )
            &&& !expired && listed ==> said == Ok::<ContextView, ErrorView>(ctx)
            &&& checked(required, Err(e), now, service, method) == Err::<ContextView, ErrorView>(e)
        }),
{
}

/// A token stands for the client and the permissions that it was issued for, until its
/// time is over. Credentials without a token, with one that was not issued, or with
/// one whose time is over are turned down, and told why. The other tokens stay as they
/// are.
pub proof fn law_token_stands_for_its_client(
    tokens: TokensView,
    credentials: CredentialsView,
    token: Seq<char>,
    client_id: Seq<char>,
    permissions: Seq<PermissionView>,
    issued: Instant,
    now: Instant,
)
    ensures
        ({
            let after = tokens.with_token(token, client_id, permissions, issued);
            let said = after.answer_at(credentials, now);
            let before = tokens.answer_at(credentials, now);
            &&& credentials.token is None ==> said == Err::<ContextView, ErrorView>(
                ErrorView::Protocol("missing authentication token"@),
            )
            &&& credentials.token == Some(token) && now.nanos < issued.nanos + tokens.ttl ==> {
                &&& said is Ok
                &&& said->Ok_0.client_id == client_id
                &&& said->Ok_0.permissions == permissions
                &&& said->Ok_0.expires_at is Some
                &&& said->Ok_0.expires_at->0.at == issued.nanos + tokens.ttl
                &&& said->Ok_0.expires_at->0.clock == tokens.clock
            }
            &&& credentials.token == Some(token) && now.nanos >= issued.nanos + tokens.ttl
                ==> said == Err::<ContextView, ErrorView>(ErrorView::Protocol("token expired"@))
            &&& credentials.token != Some(token) ==> said == before
            &&& credentials.token is Some && !tokens.tokens.dom().contains(credentials.token->0)
                ==> before == Err::<ContextView, ErrorView>(ErrorView::Protocol("invalid token"@))
        }),
{
}

/// A key stands for the client and the permissions that it was registered for, and
/// never expires. Credentials without a key, or with one that is not known, are turned
/// down, and told why.
pub proof fn law_key_stands_for_its_client(
    keys: Map<Seq<char>, ContextView>,
    credentials: CredentialsView,
    key: Seq<char>,
    client_id: Seq<char>,
    permissions: Seq<PermissionView>,
    now: Instant,
)
    ensures
        ({
            let after = keys.insert(key, key_context(client_id, permissions));
            let said = key_answer(after, credentials);
            &&& credentials.api_key is None ==> said == Err::<ContextView, ErrorView>(
                ErrorView::Protocol("missing API key"@),
            )
            &&& credentials.api_key == Some(key) ==> {
                &&& said is Ok
                &&& said->Ok_0.client_id == client_id
                &&& said->Ok_0.permissions == permissions
                &&& said->Ok_0.expires_at is None
                &&& said->Ok_0.valid_at(now)
            }
            &&& credentials.api_key != Some(key) ==> said == key_answer(keys, credentials)
            &&& credentials.api_key is Some && !keys.dom().contains(credentials.api_key->0)
                ==> key_answer(keys, credentials) == Err::<ContextView, ErrorView>(
                ErrorView::Protocol("invalid API key"@),
            )
        }),
{
}

/// The answer of a composite is that of its list, and a refusal if there was nobody to
/// ask.
pub proof fn law_composite_answers_for_its_list(answer: Result<ContextView, ErrorView>)
    ensures
        settled(Some(answer)) == answer,
        settled(None) == Err::<ContextView, ErrorView>(
            ErrorView::Protocol("authentication failed"@),
        ),
{
}

/// A limiter lets a client through just when fewer than the maximum of the requests with
/// which it was let through lie less than the window before now.
pub proof fn law_limiter_lets_through_what_it_may(
    l: &mut RateLimiter,
    client_id: &str,
    now: Instant,
    through: bool,
    r: RateLimiter,
    left: usize,
    max_requests: usize,
    span: Duration,
    fresh: RateLimiter,
)
    requires
        call_ensures(RateLimiter::check_at, (l, client_id, now), through),
        call_ensures(RateLimiter::remaining_at, (&r, client_id, now), left),
        call_ensures(RateLimiter::new, (max_requests, span), fresh),
    ensures
        through <==> window::count_recent(old(l)@.of(client_id@), now, old(l)@.window)
            < old(l)@.max_requests,
        through ==> final(l)@.of(client_id@).last() == now,
        forall|other: Seq<char>|
            other != client_id@ ==> #[trigger] final(l)@.of(other) == old(l)@.of(other),
        ({
            let recent = window::count_recent(r@.of(client_id@), now, r@.window);
            recent + left == r@.max_requests || (recent >= r@.max_requests && left == 0)
        }),
        fresh@.max_requests == max_requests && fresh@.window == span@,
        fresh@.of(client_id@).len() == 0,
{
    window::law_window_counts_the_recent(
        old(l)@.of(client_id@),
        now,
        old(l)@.window,
        old(l)@.max_requests,
    );
    window::law_window_counts_the_recent(r@.of(client_id@), now, r@.window, r@.max_requests);
}

/// A token that was issued is accepted for its client until its time is over.
pub proof fn law_issued_token_is_accepted(
    t: &mut TokenAuthenticator,
    token: &str,
    client_id: &str,
    permissions: Vec<Permission>,
    issued: Instant,
    after: TokenAuthenticator,
    credentials: Credentials,
    now: Instant,
    said: Result<AuthContext, ProtocolError>,
)
    requires
        call_ensures(
            TokenAuthenticator::add_token_at,
            (t, token, client_id, permissions, issued),
            (),
        ),
        after == *final(t),
        call_ensures(TokenAuthenticator::authenticate_at, (&after, &credentials, now), said),
        credentials.token is Some,
        credentials.token->0@ == token@,
    ensures
        now.nanos < issued.nanos + old(t)@.ttl ==> {
            &&& said matches Ok(ctx)
            &&& ctx.client_id@ == client_id@
            &&& permission_views(ctx.permissions@) == permission_views(permissions@)
        },
        now.nanos >= issued.nanos + old(t)@.ttl ==> (said matches Err(
            ProtocolError::Protocol(why),
        ) && why@ == "token expired"@),
{
}

/// A client may do what one of its permissions covers, service and method each.
pub proof fn law_permission_is_asked_of_the_context(
    ctx: AuthContext,
    wanted: Permission,
    may: bool,
    now: Instant,
    valid: bool,
)
    requires
        call_ensures(AuthContext::has_permission, (&ctx, &wanted), may),
        call_ensures(AuthContext::is_valid_at, (&ctx, now), valid),
    ensures
        may <==> ctx@.permits(wanted@),
        ctx.permissions@.len() == 0 ==> !may,
        ctx.expires_at is None ==> valid,
        ctx.expires_at matches Some(deadline) ==> (valid <==> now.nanos < deadline@.at),
{
}

/// A permission is for the service and the method that it names; the widest is for all.
pub proof fn law_permission_names_service_and_method(
    service: &str,
    method: &str,
    p: Permission,
    widest: Permission,
)
    requires
        call_ensures(Permission::new, (service, method), p),
        call_ensures(Permission::all, (), widest),
    ensures
        p.service@ == service@ && p.method@ == method@,
        widest.service@ == "*"@ && widest.method@ == "*"@,
{
}

/// A token or a key that was taken up is listed for its client; a token that was removed
/// is not listed; the others stay.
pub proof fn law_lists_are_kept(
    a: &mut TokenAuthenticator,
    b: &mut ApiKeyAuthenticator,
    word: &str,
    client_id: &str,
    permissions: Vec<Permission>,
    t: TokenAuthenticator,
    ttl: Duration,
    told: TokenAuthenticator,
    other: Seq<char>,
)
    requires
        call_ensures(TokenAuthenticator::remove_token, (a, word), ()),
        call_ensures(ApiKeyAuthenticator::add_key, (b, word, client_id, permissions), ()),
        call_ensures(TokenAuthenticator::with_ttl, (t, ttl), told),
        other != word@,
    ensures
        !final(a)@.tokens.dom().contains(word@),
        final(a)@.tokens.dom().contains(other) <==> old(a)@.tokens.dom().contains(other),
        old(a)@.tokens.dom().contains(other) ==> final(a)@.tokens[other] == old(a)@.tokens[other],
        final(b)@.dom().contains(word@),
        final(b)@[word@].client_id == client_id@,
        final(b)@[word@].permissions == permission_views(permissions@),
        final(b)@[word@].expires_at is None,
        final(b)@.dom().contains(other) <==> old(b)@.dom().contains(other),
        old(b)@.dom().contains(other) ==> final(b)@[other] == old(b)@[other],
        told@.ttl == ttl@ && told@.tokens == t@.tokens,
{
}

/// A client that was reset has made no requests; the others stay.
pub proof fn law_reset_forgets_one_client(
    l: &mut RateLimiter,
    client_id: &str,
    other: Seq<char>,
)
    requires
        call_ensures(RateLimiter::reset, (l, client_id), ()),
        other != client_id@,
    ensures
        final(l)@.of(client_id@).len() == 0,
        final(l)@.of(other) == old(l)@.of(other),
        final(l)@.max_requests == old(l)@.max_requests && final(l)@.window == old(l)@.window,
{
}

/// A client that is not valid is turned away. One that is valid is let through to a
/// service for which nothing is listed, and else to the methods that are listed.
pub proof fn law_decision_goes_by_what_is_listed<A: Authenticator>(
    m: AuthMiddleware<A>,
    ctx: AuthContext,
    service: &str,
    method: &str,
    stale: Result<AuthContext, ProtocolError>,
    said: Result<AuthContext, ProtocolError>,
)
    requires
        call_ensures(AuthMiddleware::<A>::decide, (&m, ctx, false, service, method), stale),
        call_ensures(AuthMiddleware::<A>::decide, (&m, ctx, true, service, method), said),
    ensures
        stale matches Err(ProtocolError::Protocol(why)) && why@ == "authentication expired"@,
        said matches Ok(given) ==> given@ == ctx@,
        said matches Err(e) ==> e@ == ErrorView::Protocol("permission denied"@),
        said is Ok <==> !m.required().dom().contains(service@) || exists|i: int|
            0 <= i < m.required()[service@].len() && {
                let p = #[trigger] m.required()[service@][i];
                (p.service == service@ && p.method == method@) || (p.service == "*"@ && p.method
                    == "*"@)
            },
{
    let list = m.required()[service@];
    let exact = PermissionView { service: service@, method: method@ };
    let widest = PermissionView { service: "*"@, method: "*"@ };
    if list.contains(exact) {
        let i = choose|i: int| 0 <= i < list.len() && list[i] == exact;
        assert(list[i] == exact);
    }
    if list.contains(widest) {
        let i = choose|i: int| 0 <= i < list.len() && list[i] == widest;
        assert(list[i] == widest);
    }
    if exists|i: int|
        0 <= i < list.len() && {
            let p = #[trigger] list[i];
            (p.service == service@ && p.method == method@) || (p.service == "*"@ && p.method
                == "*"@)
        } {
        let i = choose|i: int|
            0 <= i < list.len() && {
                let p = #[trigger] list[i];
                (p.service == service@ && p.method == method@) || (p.service == "*"@ && p.method
                    == "*"@)
            };
        assert(list[i] == exact || list[i] == widest);
        assert(list.contains(list[i]));
    }
}

/// A permission that is required is listed last for its service; the other services keep
/// their lists.
pub proof fn law_required_permission_is_listed<A: Authenticator>(
    m: AuthMiddleware<A>,
    service: &str,
    permission: Permission,
    r: AuthMiddleware<A>,
    other: Seq<char>,
)
    requires
        call_ensures(AuthMiddleware::<A>::require_permission, (m, service, permission), r),
        other != service@,
    ensures
        r.required().dom().contains(service@),
        r.required()[service@].last() == permission@,
        !m.required().dom().contains(service@) ==> r.required()[service@].len() == 1,
        m.required().dom().contains(service@) ==> r.required()[service@].drop_last()
            =~= m.required()[service@],
        r.required().dom().contains(other) <==> m.required().dom().contains(other),
        m.required().dom().contains(other) ==> r.required()[other] == m.required()[other],
        r.authenticator() == m.authenticator(),
{
}

/// A list accepts by one of its authenticators, once all before it may have refused. It
/// refuses in the words of the last, once all before it may have refused. An empty list
/// does neither.
pub proof fn law_list_answers_by_the_first_that_accepts(
    list: Vec<Box<dyn Authenticator>>,
    credentials: CredentialsView,
    ctx: ContextView,
    e: ErrorView,
)
    ensures
        list.may_settle(credentials, None) <==> list@.len() == 0,
        list.may_settle(credentials, Some(Ok(ctx))) <==> exists|i: int|
            0 <= i < list@.len() && #[trigger] list@[i].may_answer(credentials, Ok(ctx))
                && forall|j: int| 0 <= j < i ==> #[trigger] may_refuse(list@, j, credentials),
        list.may_settle(credentials, Some(Err(e))) <==> {
            &&& list@.len() > 0
            &&& list@.last().may_answer(credentials, Err(e))
            &&& forall|j: int|
                0 <= j < list@.len() - 1 ==> #[trigger] may_refuse(list@, j, credentials)
        },
{
    let good = Ok::<ContextView, ErrorView>(ctx);
    let bad = Err::<ContextView, ErrorView>(e);
    if list.may_settle(credentials, Some(good)) {
        let i = choose|i: int| #[trigger] may_come_from(list@, i, credentials, good);
        assert(list@[i].may_answer(credentials, good));
    }
    if exists|i: int|
        0 <= i < list@.len() && #[trigger] list@[i].may_answer(credentials, good) && forall|j: int|
            0 <= j < i ==> #[trigger] may_refuse(list@, j, credentials) {
        let i = choose|i: int|
            0 <= i < list@.len() && #[trigger] list@[i].may_answer(credentials, good)
                && forall|j: int| 0 <= j < i ==> #[trigger] may_refuse(list@, j, credentials);
        assert(may_come_from(list@, i, credentials, good));
    }
    if list@.len() > 0 && list@.last().may_answer(credentials, bad) && forall|j: int|
        0 <= j < list@.len() - 1 ==> #[trigger] may_refuse(list@, j, credentials) {
        assert(may_come_from(list@, list@.len() - 1, credentials, bad));
    }
}

/// A new authenticator knows nobody; a token lasts an hour unless it is told otherwise.
pub proof fn law_new_authenticators_know_nobody(
    t: TokenAuthenticator,
    u: TokenAuthenticator,
    k: ApiKeyAuthenticator,
    word: Seq<char>,
)
    requires
        call_ensures(TokenAuthenticator::new, (), t),
        call_ensures(TokenAuthenticator::default, (), u),
        call_ensures(ApiKeyAuthenticator::new, (), k),
    ensures
        !t@.tokens.dom().contains(word) && !u@.tokens.dom().contains(word),
        t@.ttl == 3600 * 1_000_000_000 && u@.ttl == t@.ttl,
        !k@.dom().contains(word),
{
}

} // verus!
