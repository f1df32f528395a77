use vstd::prelude::*;
use crate::genre::{Genre, genre_text};
use crate::song::{Song, SongsQueryError, day_number_of, songs_of_day, requested_day, songs_on_day};
use crate::token::{Token, SessionData, TokenError, write_token, holds_token};

verus! {

/// The HTTP surface of the service: each handler's decisions, apart from
/// the calls it makes.
pub struct Api;

/// Request body carrying an authorization code.
pub struct CodePayload {
    pub code: String,
}

impl Api {
    /// Lists one day's songs among `rows`: `NoDay` or `BadDay` when the day
    /// is missing or malformed, else the rows created on that day (possibly
    /// none, which is no error).
    pub fn get_songs(&self, day: Option<&str>, rows: &Vec<Song>) -> (r: Result<Vec<Song>, SongsQueryError>)
        ensures
            day is None ==> r is Err && r->Err_0 == SongsQueryError::NoDay,
            day matches Some(s) ==> (day_number_of(s@) is None <==> (r is Err && r->Err_0
                == SongsQueryError::BadDay)),
            day matches Some(s) ==> (day_number_of(s@) matches Some(d) ==> r is Ok && r->Ok_0@
                == songs_of_day(rows@, d)),
    {
        match requested_day(day) {
            Ok(d) => Ok(songs_on_day(rows, d)),
            Err(e) => Err(e),
        }
    }

    /// The stored names of a user's genre rows, in order.
    pub fn get_genres(&self, rows: &Vec<Genre>) -> (r: Vec<String>)
        ensures
            r@.len() == rows@.len(),
            forall|i: int| 0 <= i < rows@.len() ==> #[trigger] r@[i]@ == genre_text(rows@[i].name),
    {
        let mut out: Vec<String> = Vec::new();
        let mut i: usize = 0;
        while i < rows.len()
            invariant
                i <= rows@.len(),
                out@.len() == i,
                forall|j: int| 0 <= j < i ==> #[trigger] out@[j]@ == genre_text(rows@[j].name),
            decreases rows@.len() - i,
        {
            out.push(rows[i].name.name());
            i = i + 1;
        }
        out
    }

    /// Signs a user in: the session keeps the token just issued and the
    /// user's identifier.
    pub fn exchange_token(&self, token: &Token, user_id: i32, session: &mut SessionData) -> (r: Result<(), TokenError>)
        ensures
            r is Ok,
            holds_token(*final(session), token@),
            final(session).user_id == Some(user_id),
    {
        match write_token(token, session) {
            Ok(()) => {
                session.user_id = Some(user_id);
                Ok(())
            },
            Err(e) => Err(e),
        }
    }
}

} // verus!
