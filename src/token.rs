use vstd::prelude::*;

verus! {

/// An OAuth credential of the streaming platform. `expires_in` counts
/// seconds; `expires_at` counts milliseconds since 1970-01-01T00:00:00Z.
/// It is never to be logged, so neither it nor anything holding it has
/// `Debug`.
pub struct Token {
    pub access_token: String,
    pub expires_in: i64,
    pub expires_at: Option<i64>,
    pub refresh_token: Option<String>,
    pub scopes: Vec<String>,
}

/// The value of a token, field by field.
pub struct TokenView {
    pub access_token: Seq<char>,
    pub expires_in: i64,
    pub expires_at: Option<i64>,
    pub refresh_token: Option<Seq<char>>,
    pub scopes: Seq<Seq<char>>,
}

pub open spec fn text_of(o: Option<String>) -> Option<Seq<char>> {
    match o {
        Some(s) => Some(s@),
        None => None,
    }
}

impl View for Token {
    type V = TokenView;

    open spec fn view(&self) -> TokenView {
        TokenView {
            access_token: self.access_token@,
            expires_in: self.expires_in,
            expires_at: self.expires_at,
            refresh_token: text_of(self.refresh_token),
            scopes: self.scopes.deep_view(),
        }
    }
}

/// What one browser session holds for this service: the encoded token and
/// the identifier of its user.
pub struct SessionData {
    pub access_token: Option<Vec<u8>>,
    pub user_id: Option<i32>,
}

/// Failures of the token store.
#[derive(Debug, Clone, Copy, PartialEq, Eq, Structural)]
pub enum TokenError {
    /// The session holds no token.
    NotFound,
    /// The token could not be encoded (never the case for the fields
    /// written here; kept for callers that match on every failure).
    Serialization,
    /// The stored bytes are not a token.
    Deserialization,
    /// A field does not fit the user row.
    OutOfRange,
}

/// A user row: the latest token issued to one end user.
pub struct User {
    pub id: i32,
    pub access_token: String,
    pub expires_in: i32,
    pub expires_at: Option<i64>,
    pub refresh_token: Option<String>,
}

/// The token that bincode reads from `b` as the tuple of a token's fields,
/// in declaration order; `None` when the bytes are no such tuple.
pub uninterp spec fn token_of_bytes(b: Seq<u8>) -> Option<TokenView>;

/// The session holds exactly the encoding of `t`.
pub open spec fn holds_token(s: SessionData, t: TokenView) -> bool {
    &&& s.access_token matches Some(b)
    &&& token_of_bytes(b@) == Some(t)
    &&& b@.len() > 0
}

/// What reading the token back from a session gives: `NotFound` when the
/// key is absent or empty, the token whose encoding is stored, and
/// otherwise `Deserialization`.
pub open spec fn read_outcome(s: SessionData, r: Result<Token, TokenError>) -> bool {
    match s.access_token {
        None => r == Err::<Token, TokenError>(TokenError::NotFound),
        Some(b) => if b@.len() == 0 {
            r == Err::<Token, TokenError>(TokenError::NotFound)
        } else {
            match token_of_bytes(b@) {
                Some(t) => r matches Ok(u) && u@ == t,
                None => r == Err::<Token, TokenError>(TokenError::Deserialization),
            }
        },
    }
}

/// The token has a known expiry that lies before `now`.
pub open spec fn is_expired_at(t: TokenView, now: int) -> bool {
    t.expires_at matches Some(e) && now > e
}

/// Relies on bincode::serialize to encode the token's fields as a tuple
/// that bincode::deserialize reads back unchanged. With no size limit it
/// fails only on a sequence of unknown length, which this tuple has not;
/// strings are written after a u64 length, so the encoding is never empty.
#[verifier::external_body]
fn encode_fields(t: &Token) -> (r: Option<Vec<u8>>)
    ensures
        r is Some,
        r matches Some(b) ==> token_of_bytes(b@) == Some(t@) && b@.len() > 0,
{
    bincode::serialize(&(&t.access_token, t.expires_in, t.expires_at, &t.refresh_token, &t.scopes)).ok()
}

/// Relies on bincode::deserialize to read the tuple of a token's fields.
#[verifier::external_body]
fn decode_fields(b: &[u8]) -> (r: Option<Token>)
    ensures
        r is None <==> token_of_bytes(b@) is None,
        r matches Some(u) ==> token_of_bytes(b@) == Some(u@),
{
    bincode::deserialize::<(String, i64, Option<i64>, Option<String>, Vec<String>)>(b).ok().map(
        |(access_token, expires_in, expires_at, refresh_token, scopes)|
            Token { access_token, expires_in, expires_at, refresh_token, scopes },
    )
}

/// Stores the token in the session under its fixed key, replacing what was
/// there; the user identifier is kept. Encoding a token's fields cannot
/// fail, so this always succeeds.
pub fn write_token(token: &Token, session: &mut SessionData) -> (r: Result<(), TokenError>)
    ensures
        r is Ok,
        holds_token(*final(session), token@),
        final(session).user_id == old(session).user_id,
{
    match encode_fields(token) {
        Some(b) => {
            session.access_token = Some(b);
            Ok(())
        },
        None => Err(TokenError::Serialization),
    }
}

/// Reads the token stored in the session.
pub fn read_token(session: &SessionData) -> (r: Result<Token, TokenError>)
    ensures
        read_outcome(*session, r),
{
    match &session.access_token {
        None => Err(TokenError::NotFound),
        Some(b) => {
            if b.len() == 0 {
                return Err(TokenError::NotFound);
            }
            match decode_fields(b.as_slice()) {
                Some(t) => Ok(t),
                None => Err(TokenError::Deserialization),
            }
        },
    }
}

impl Token {
    /// Whether the token has a known expiry before `now` (milliseconds since
    /// 1970-01-01T00:00:00Z).
    pub fn is_expired(&self, now: i64) -> (r: bool)
        ensures
            r == is_expired_at(self@, now as int),
    {
        match self.expires_at {
            Some(e) => now > e,
            None => false,
        }
    }
}

impl User {
    pub fn new(
        id: i32,
        access_token: String,
        expires_in: i32,
        expires_at: Option<i64>,
        refresh_token: String,
    ) -> (r: User)
        ensures
            r == (User { id, access_token, expires_in, expires_at, refresh_token: Some(refresh_token) }),
    {
        User { id, access_token, expires_in, expires_at, refresh_token: Some(refresh_token) }
    }

    /// The row of user `id` holding `token`; `OutOfRange` when the token's
    /// lifetime in seconds does not fit the row.
    pub fn from_token(id: i32, token: Token) -> (r: Result<User, TokenError>)
        ensures
            (i32::MIN <= token.expires_in <= i32::MAX) ==> r == Ok::<User, TokenError>(
                User {
                    id,
                    access_token: token.access_token,
                    expires_in: token.expires_in as i32,
                    expires_at: token.expires_at,
                    refresh_token: token.refresh_token,
                },
            ),
            !(i32::MIN <= token.expires_in <= i32::MAX) ==> r == Err::<User, TokenError>(
                TokenError::OutOfRange,
            ),
    {
        if token.expires_in < i32::MIN as i64 || token.expires_in > i32::MAX as i64 {
            return Err(TokenError::OutOfRange);
        }
        Ok(
            User {
                id,
                access_token: token.access_token,
                expires_in: token.expires_in as i32,
                expires_at: token.expires_at,
                refresh_token: token.refresh_token,
            },
        )
    }
}

/// A token written to a session reads back as the same token, optional
/// fields included.
pub proof fn lemma_token_round_trip(t: TokenView, s: SessionData, r: Result<Token, TokenError>)
    requires
        holds_token(s, t),
        read_outcome(s, r),
    ensures
        r matches Ok(u) && u@ == t,
{
}

} // verus!
