//! Text channels, modelled at the core's boundary: channel management lives
//! in an external collaborator, the core only reads channel identity and
//! existence. The one piece of channel logic the core owns is the cleanup of
//! a requested description before it is stored.

use vstd::prelude::*;

use crate::ids::{ChannelId, UserId};

verus! {

/// A text channel row, with the creation time as Unix seconds.
#[derive(Clone, Debug)]
pub struct TextChannel {
    pub id: ChannelId,
    pub name: String,
    pub description: Option<String>,
    pub created_at: i64,
}

/// Whether a string holds nothing but ASCII whitespace.
pub open spec fn is_blank(s: Seq<char>) -> bool {
    forall|i: int| 0 <= i < s.len() ==> (#[trigger] s[i] == ' ' || s[i] == '\t' || s[i] == '\n'
        || s[i] == '\r')
}

/// Whether a string holds nothing but ASCII whitespace.
fn str_is_blank(s: &str) -> (r: bool)
    ensures
        r == is_blank(s@),
{
    let n = s.unicode_len();
    let mut i: usize = 0;
    while i < n
        invariant
            i <= n,
            n == s@.len(),
            forall|k: int| 0 <= k < i ==> (#[trigger] s@[k] == ' ' || s@[k] == '\t' || s@[k]
                == '\n' || s@[k] == '\r'),
        decreases n - i,
    {
        let c = s.get_char(i);
        if !(c == ' ' || c == '\t' || c == '\n' || c == '\r') {
            proof {
                assert(s@[i as int] == c);
                assert(!is_blank(s@));
            }
            return false;
        }
        i += 1;
    }
    true
}

/// Clean a requested channel description up before storage: a missing or
/// all-whitespace description becomes no description.
pub fn normalize_description(description: Option<String>) -> (r: Option<String>)
    ensures
        match description {
            None => r is None,
            Some(s) => if is_blank(s@) {
                r is None
            } else {
                r matches Some(s2) && s2@ == s@
            },
        },
{
    match description {
        None => None,
        Some(s) => {
            if str_is_blank(s.as_str()) {
                None
            } else {
                Some(s)
            }
        }
    }
}

/// The channels a newly authenticated connection of `user` is subscribed
/// to. Per-channel permissions are not enforced yet: every channel is
/// visible to every user. This function is the seam where a per-channel
/// access rule will hang; its contract will then narrow.
pub fn visible_channels(user: UserId, all_channels: Vec<ChannelId>) -> (r: Vec<ChannelId>)
    ensures
        r@ == all_channels@,
{
    let _user = user;
    all_channels
}

} // verus!
