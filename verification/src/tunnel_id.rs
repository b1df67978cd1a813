//! The tunnel-ID grammar: `agent_<uuid>_<purpose>`.
//!
//! A tunnel ID is the word `agent`, an underscore, a UUID text, another
//! underscore and a purpose. The UUID text holds no underscore, so the
//! underscore that ends it is the first one after the prefix; the purpose is
//! everything behind that underscore: a non-empty run of alphanumeric
//! characters and underscores.

use vstd::prelude::*;
use crate::text::chars_of;
use crate::unicode::{char_is_alphanumeric, is_alphanumeric};
use crate::uuid_text::{is_uuid_text, parses_as_uuid};

verus! {

/// The fixed prefix of every tunnel ID.
pub open spec fn agent_prefix() -> Seq<char> {
    seq!['a', 'g', 'e', 'n', 't', '_']
}

/// A character that may stand in a purpose.
pub open spec fn is_purpose_char(c: char) -> bool {
    c == '_' || is_alphanumeric(c)
}

/// A purpose: at least one character, each of them a purpose character.
pub open spec fn is_purpose(purpose: Seq<char>) -> bool {
    &&& purpose.len() > 0
    &&& forall|i: int| 0 <= i < purpose.len() ==> is_purpose_char(#[trigger] purpose[i])
}

/// `id` reads as the prefix, `uuid`, an underscore and `purpose`, where the
/// underscore is the first one behind the prefix.
pub open spec fn splits_as(id: Seq<char>, uuid: Seq<char>, purpose: Seq<char>) -> bool {
    &&& id == agent_prefix() + uuid + seq!['_'] + purpose
    &&& forall|i: int| 0 <= i < uuid.len() ==> #[trigger] uuid[i] != '_'
}

/// The grammar itself: some split of `id` has a UUID text and a purpose.
pub open spec fn valid_tunnel_id(id: Seq<char>) -> bool {
    exists|uuid: Seq<char>, purpose: Seq<char>|
        #[trigger] splits_as(id, uuid, purpose) && is_uuid_text(uuid) && is_purpose(purpose)
}

/// A text splits in at most one way.
pub proof fn lemma_split_is_unique(
    id: Seq<char>,
    uuid1: Seq<char>,
    purpose1: Seq<char>,
    uuid2: Seq<char>,
    purpose2: Seq<char>,
)
    requires
        splits_as(id, uuid1, purpose1),
        splits_as(id, uuid2, purpose2),
    ensures
        uuid1 == uuid2,
        purpose1 == purpose2,
{
    let a = uuid1.len() as int;
    let b = uuid2.len() as int;
    if a < b {
        assert(id[6 + a] == uuid2[a]);
    }
    if b < a {
        assert(id[6 + b] == uuid1[b]);
    }
    assert(uuid1 =~= uuid2) by {
        assert forall|i: int| 0 <= i < a implies uuid1[i] == uuid2[i] by {
            assert(id[6 + i] == uuid2[i]);
        }
    }
    assert(purpose1 =~= purpose2) by {
        assert(id.len() == 7 + b + purpose2.len());
        assert forall|i: int| 0 <= i < purpose1.len() implies purpose1[i] == purpose2[i] by {
            assert(id[7 + a + i] == purpose2[i]);
        }
    }
}

/// Splits a tunnel ID into its UUID text and its purpose, or finds that it
/// has no such split. Neither part is examined further.
pub fn split_tunnel_id(tunnel_id: &str) -> (parts: Option<(&str, &str)>)
    ensures
        match parts {
            Some((uuid, purpose)) => splits_as(tunnel_id@, uuid@, purpose@),
            None => forall|uuid: Seq<char>, purpose: Seq<char>|
                !splits_as(tunnel_id@, uuid, purpose),
        },
{
    let chars = chars_of(tunnel_id);
    let n = chars.len();
    let ghost id = tunnel_id@;
    if n < 7 || chars[0] != 'a' || chars[1] != 'g' || chars[2] != 'e' || chars[3] != 'n'
        || chars[4] != 't' || chars[5] != '_' {
        return None;
    }
    let mut end: usize = 6;
    while end < n && chars[end] != '_'
        invariant
            6 <= end <= n,
            n == chars@.len(),
            forall|k: int| 6 <= k < end ==> chars@[k] != '_',
        decreases n - end,
    {
        end += 1;
    }
    if end == n {
        assert forall|uuid: Seq<char>, purpose: Seq<char>| !splits_as(id, uuid, purpose) by {
            if splits_as(id, uuid, purpose) {
                assert(id[6 + uuid.len() as int] == '_');
            }
        }
        return None;
    }
    let uuid = tunnel_id.substring_char(6, end);
    let purpose = tunnel_id.substring_char(end + 1, n);
    proof {
        assert(id =~= agent_prefix() + uuid@ + seq!['_'] + purpose@);
    }
    Some((uuid, purpose))
}

/// Whether a text is a purpose.
pub fn purpose_is_valid(purpose: &str) -> (valid: bool)
    ensures
        valid == is_purpose(purpose@),
{
    let chars = chars_of(purpose);
    let n = chars.len();
    if n == 0 {
        return false;
    }
    let mut i: usize = 0;
    while i < n
        invariant
            i <= n,
            n == chars@.len(),
            chars@ == purpose@,
            forall|k: int| 0 <= k < i ==> is_purpose_char(#[trigger] chars@[k]),
        decreases n - i,
    {
        let c = chars[i];
        if !(c == '_' || char_is_alphanumeric(c)) {
            return false;
        }
        i += 1;
    }
    true
}

/// Decides a tunnel ID once its shape and the verdict on its UUID text are
/// known: `uuid_accepted` is what the UUID parser said of the UUID part.
pub fn verdict_on_parts(parts: Option<(&str, &str)>, uuid_accepted: bool) -> (valid: bool)
    ensures
        valid == match parts {
            Some((_, purpose)) => uuid_accepted && is_purpose(purpose@),
            None => false,
        },
{
    match parts {
        Some((_, purpose)) => uuid_accepted && purpose_is_valid(purpose),
        None => false,
    }
}

/// Validates a tunnel ID against the grammar `agent_<uuid>_<purpose>`.
pub fn validate_tunnel_id(tunnel_id: &str) -> (valid: bool)
    ensures
        valid == valid_tunnel_id(tunnel_id@),
{
    let parts = split_tunnel_id(tunnel_id);
    let uuid_accepted = match parts {
        Some((uuid, _)) => parses_as_uuid(uuid),
        None => false,
    };
    let valid = verdict_on_parts(parts, uuid_accepted);
    proof {
        let id = tunnel_id@;
        match parts {
            Some((uuid, purpose)) => {
                if valid {
                    assert(splits_as(id, uuid@, purpose@) && is_uuid_text(uuid@) && is_purpose(
                        purpose@,
                    ));
                }
                if valid_tunnel_id(id) {
                    let (u, p) = choose|u: Seq<char>, p: Seq<char>|
                        #[trigger] splits_as(id, u, p) && is_uuid_text(u) && is_purpose(p);
                    lemma_split_is_unique(id, uuid@, purpose@, u, p);
                }
            },
            None => {},
        }
    }
    valid
}

} // verus!
