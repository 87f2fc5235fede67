//! Persisted authentication sessions, modelled at their boundary: the store
//! itself is external, the core only reasons about the rows it hands back.
//! A session is a bearer token with sliding expiry: every successful
//! resolution extends its validity by a fixed window.

use vstd::prelude::*;

use crate::error::AzumaError;
use crate::ids::{parse_uuid, uuid_parse, Token, UserId};

verus! {

/// The token carried by an `Authorization: Bearer <uuid>` header value, if
/// the value has that shape.
pub open spec fn bearer_token(h: Seq<char>) -> Option<Token> {
    if h.len() >= 7 && h.subrange(0, 7) == "Bearer "@ {
        uuid_parse(h.subrange(7, h.len() as int))
    } else {
        None
    }
}

/// Extract the session token from an `Authorization` header value.
pub fn parse_bearer_token(header: &str) -> (r: Option<Token>)
    ensures
        r == bearer_token(header@),
{
    proof {
        reveal_strlit("Bearer ");
    }
    let n = header.unicode_len();
    if n < 7 {
        return None;
    }
    let c0 = header.get_char(0);
    let c1 = header.get_char(1);
    let c2 = header.get_char(2);
    let c3 = header.get_char(3);
    let c4 = header.get_char(4);
    let c5 = header.get_char(5);
    let c6 = header.get_char(6);
    let ok = c0 == 'B' && c1 == 'e' && c2 == 'a' && c3 == 'r' && c4 == 'e' && c5 == 'r' && c6
        == ' ';
    if ok {
        proof {
            assert(header@.subrange(0, 7) =~= "Bearer "@);
        }
        let token_part = header.substring_char(7, n);
        parse_uuid(token_part)
    } else {
        proof {
            if header@.subrange(0, 7) == "Bearer "@ {
                assert forall|k: int| 0 <= k < 7 implies header@[k] == "Bearer "@[k] by {
                    assert(header@.subrange(0, 7)[k] == header@[k]);
                }
                assert(header@[0] == 'B' && header@[1] == 'e' && header@[2] == 'a' && header@[3]
                    == 'r' && header@[4] == 'e' && header@[5] == 'r' && header@[6] == ' ');
                assert(false);
            }
        }
        None
    }
}

/// Sliding-session window: each authenticated use extends validity to this
/// many seconds from now (14 days).
pub const SESSION_RENEWAL_SECS: i64 = 1209600;

/// A session row, with timestamps as Unix seconds.
#[derive(Clone, Copy, Debug, PartialEq, Eq, Structural)]
pub struct Session {
    pub token: Token,
    pub subject: UserId,
    pub created_at: i64,
    pub expires_at: i64,
}

impl Session {
    /// Whether the session is still valid at time `now`.
    pub fn is_valid(&self, now: i64) -> (r: bool)
        ensures
            r == (self.expires_at > now),
    {
        self.expires_at > now
    }

    /// Resolve a looked-up session row at time `now` with sliding-expiry
    /// semantics: a missing or expired row is not found; a valid row comes
    /// back with its expiry extended by the renewal window.
    pub fn get_and_renew(lookup: Option<Session>, now: i64) -> (r: Result<Session, AzumaError>)
        requires
            0 <= now <= i64::MAX - SESSION_RENEWAL_SECS,
        ensures
            lookup is None ==> r == Err::<Session, AzumaError>(AzumaError::NotFound),
            lookup is Some && lookup->0.expires_at <= now ==> r == Err::<Session, AzumaError>(
                AzumaError::NotFound,
            ),
            lookup is Some && lookup->0.expires_at > now ==> r == Ok::<Session, AzumaError>(
                (Session {
                    token: lookup->0.token,
                    subject: lookup->0.subject,
                    created_at: lookup->0.created_at,
                    expires_at: (now + SESSION_RENEWAL_SECS) as i64,
                }),
            ),
    {
        match lookup {
            None => Err(AzumaError::NotFound),
            Some(s) => {
                if s.expires_at > now {
                    Ok(
                        Session {
                            token: s.token,
                            subject: s.subject,
                            created_at: s.created_at,
                            expires_at: now + SESSION_RENEWAL_SECS,
                        },
                    )
                } else {
                    Err(AzumaError::NotFound)
                }
            }
        }
    }
}

} // verus!
