//! Players: the snapshot kept of a player who went offline, and the checks
//! and recipients of signals sent to players.

use vstd::prelude::*;
use crate::room::RoomNames;
use crate::text::{has_prefix, starts_with};

verus! {

pub open spec fn is_digit(c: char) -> bool {
    '0' <= c && c <= '9'
}

pub open spec fn all_digits(s: Seq<char>) -> bool {
    forall|i: int| 0 <= i < s.len() ==> is_digit(#[trigger] s[i])
}

/// The text after an optional leading `+`.
pub open spec fn unsigned_digits_part(s: Seq<char>) -> Seq<char> {
    if s.len() > 0 && s[0] == '+' {
        s.drop_first()
    } else {
        s
    }
}

/// The number a string of decimal digits denotes.
pub open spec fn digits_value(s: Seq<char>) -> nat
    decreases s.len(),
{
    if s.len() == 0 {
        0
    } else {
        digits_value(s.drop_last()) * 10 + ((s.last() as u32 - '0' as u32) as nat)
    }
}

/// What `u64::from_str` gives for `s`: an optional `+`, then one or more
/// ASCII digits whose value fits in a `u64`; `None` otherwise.
pub open spec fn u64_from_text(s: Seq<char>) -> Option<u64> {
    let d = unsigned_digits_part(s);
    if d.len() > 0 && all_digits(d) && digits_value(d) <= u64::MAX {
        Some(digits_value(d) as u64)
    } else {
        None
    }
}

proof fn lemma_digits_value_grows(s: Seq<char>, i: int)
    requires
        0 <= i <= s.len(),
        forall|j: int| 0 <= j < s.len() ==> is_digit(#[trigger] s[j]),
    ensures
        digits_value(s.take(i)) <= digits_value(s),
    decreases s.len() - i,
{
    if i < s.len() {
        let t = s.take(i + 1);
        assert(t.drop_last() =~= s.take(i));
        lemma_digits_value_grows(s, i + 1);
    } else {
        assert(s.take(i) =~= s);
    }
}

/// Parses a decimal `u64` as `u64::from_str` does.
pub fn parse_u64(s: &str) -> (r: Option<u64>)
    ensures
        r == u64_from_text(s@),
{
    let n = s.unicode_len();
    let mut start: usize = 0;
    if n > 0 && s.get_char(0) == '+' {
        start = 1;
    }
    let ghost d = unsigned_digits_part(s@);
    assert(d =~= s@.subrange(start as int, n as int));
    if start == n {
        assert(d.len() == 0);
        return None;
    }
    let mut v: u64 = 0;
    let mut i: usize = start;
    while i < n
        invariant
            n == s@.len(),
            start <= i <= n,
            start < n,
            d == s@.subrange(start as int, n as int),
            d == unsigned_digits_part(s@),
            forall|j: int| 0 <= j < i - start ==> is_digit(#[trigger] d[j]),
            v as nat == digits_value(d.take(i - start)),
        decreases n - i,
    {
        let c = s.get_char(i);
        if !('0' <= c && c <= '9') {
            assert(d[i - start] == c);
            assert(!is_digit(d[i - start]));
            assert(!all_digits(d));
            return None;
        }
        let digit = (c as u32 - '0' as u32) as u64;
        let ghost k = i - start;
        proof {
            assert(d.take(k + 1).drop_last() =~= d.take(k));
            assert(d.take(k + 1).last() == c);
        }
        if v > (u64::MAX - digit) / 10 {
            proof {
                assert(v as nat * 10 + digit as nat > u64::MAX) by (nonlinear_arith)
                    requires
                        v > (u64::MAX - digit) / 10,
                        digit <= 9,
                ;
                assert(digits_value(d.take(k + 1)) > u64::MAX);
                if all_digits(d) {
                    lemma_digits_value_grows(d, k + 1);
                }
            }
            return None;
        }
        proof {
            assert(v * 10 + digit <= u64::MAX) by (nonlinear_arith)
                requires
                    v <= (u64::MAX - digit) / 10,
                    digit <= 9,
            ;
        }
        v = v * 10 + digit;
        i = i + 1;
    }
    proof {
        assert(d.take(d.len() as int) =~= d);
    }
    Some(v)
}

/// The fid an identity `fc:<fid>` names; `None` for any other identity.
pub open spec fn fid_of_identity(identity: Seq<char>) -> Option<u64> {
    if has_prefix(identity, "fc:"@) {
        u64_from_text(identity.skip(3))
    } else {
        None
    }
}

/// What is kept of a player who went offline: the identity they had.
pub struct PlayerSnapshot {
    pub identity: Option<String>,
}

impl PlayerSnapshot {
    pub fn new(identity: Option<String>) -> (r: Self)
        ensures
            r.identity == identity,
    {
        PlayerSnapshot { identity }
    }

    /// The fid an identity `fc:<fid>` names.
    pub fn fid_from_identity(identity: &str) -> (r: Option<u64>)
        ensures
            r == fid_of_identity(identity@),
    {
        proof {
            reveal_strlit("fc:");
        }
        if !starts_with(identity, "fc:") {
            return None;
        }
        let rest = identity.substring_char(3, identity.unicode_len());
        proof {
            assert(rest@ =~= identity@.skip(3));
        }
        parse_u64(rest)
    }

    /// The player's identity, if known.
    pub fn who(&self) -> (r: Option<String>)
        ensures
            match self.identity {
                Some(i) => r matches Some(j) && j@ == i@,
                None => r is None,
            },
    {
        match &self.identity {
            Some(i) => Some(i.clone()),
            None => None,
        }
    }

    /// The player's fid, when the identity is a Farcaster one.
    pub fn fid(&self) -> (r: Option<u64>)
        ensures
            match self.identity {
                Some(i) => r == fid_of_identity(i@),
                None => r is None,
            },
    {
        match &self.identity {
            Some(i) => PlayerSnapshot::fid_from_identity(i.as_str()),
            None => None,
        }
    }
}

/// Whom a signal is for: everyone, or one player.
#[derive(Debug, PartialEq, Eq, Structural)]
pub enum SignalScope<K> {
    Global,
    Player(K),
}

/// Why a signal builder refused a call.
#[derive(Debug)]
pub enum SignalError {
    /// An area constraint on a signal tied to one player.
    AreaOnPlayerSignal,
    /// A room constraint on a signal tied to one player.
    RoomOnPlayerSignal,
    /// Sending without data.
    NoData,
}

/// The players a signal goes to.
#[derive(Debug, PartialEq, Eq)]
pub enum SignalRecipients<K, A> {
    /// Every connected player.
    All,
    /// The players in a room.
    InRoom(u64),
    /// The players in a room who are within an area.
    InArea(u64, A),
    /// One player.
    Single(K),
}

/// A signal being built by a script.
pub struct SignalRx<K, D, A> {
    pub scope: SignalScope<K>,
    pub name: Option<String>,
    pub data: Option<D>,
    pub area: Option<A>,
    pub room: Option<u64>,
}

impl<K: Copy, D, A: Copy> SignalRx<K, D, A> {
    /// A signal in `scope`, with no data and no constraint.
    pub fn new(scope: SignalScope<K>, name: Option<String>) -> (r: Self)
        ensures
            r.scope == scope,
            r.name == name,
            r.data is None && r.area is None && r.room is None,
    {
        SignalRx { scope, name, data: None, area: None, room: None }
    }

    pub fn with_data(self, data: D) -> (r: Self)
        ensures
            r == (SignalRx { data: Some(data), ..self }),
    {
        SignalRx { data: Some(data), ..self }
    }

    /// Limits a global signal to an area; refused for a player's signal.
    pub fn with_area(self, area: A) -> (r: Result<Self, SignalError>)
        ensures
            self.scope is Global ==> r == Ok::<Self, SignalError>(SignalRx { area: Some(area), ..self }),
            self.scope is Player ==> r matches Err(SignalError::AreaOnPlayerSignal),
    {
        match self.scope {
            SignalScope::Global => Ok(SignalRx { area: Some(area), ..self }),
            SignalScope::Player(_) => Err(SignalError::AreaOnPlayerSignal),
        }
    }

    /// Limits a global signal to the room named `room`, recording the name;
    /// refused for a player's signal, without recording anything.
    pub fn with_room(self, names: &mut RoomNames, room: &str) -> (r: Result<Self, SignalError>)
        ensures
            self.scope is Player ==> (r matches Err(SignalError::RoomOnPlayerSignal) && final(names)@
                == old(names)@),
            self.scope is Global ==> (r matches Ok(s) && s == (SignalRx { room: s.room, ..self }) && (s.room matches Some(
                id,
            ) && final(names)@.contains_key(id) && final(names)@[id]@ == room@)),
    {
        match self.scope {
            SignalScope::Global => {
                let id = names.room_str_to_id(room);
                Ok(SignalRx { room: Some(id), ..self })
            },
            SignalScope::Player(_) => Err(SignalError::RoomOnPlayerSignal),
        }
    }

    /// Whom `send` delivers to: a player's signal to that player; a global
    /// signal with a room to the players in the room, within the area when
    /// one is set, and without a room to everyone (an area alone is
    /// ignored). Refused when no data was set.
    pub fn recipients(&self) -> (r: Result<SignalRecipients<K, A>, SignalError>)
        ensures
            self.data is None ==> r matches Err(SignalError::NoData),
            self.data is Some ==> r is Ok,
            r matches Ok(rc) ==> rc == (match self.scope {
                SignalScope::Player(k) => SignalRecipients::Single(k),
                SignalScope::Global => match self.room {
                    None => SignalRecipients::All,
                    Some(room) => match self.area {
                        Some(a) => SignalRecipients::InArea(room, a),
                        None => SignalRecipients::InRoom(room),
                    },
                },
            }),
    {
        if self.data.is_none() {
            return Err(SignalError::NoData);
        }
        match self.scope {
            SignalScope::Player(k) => Ok(SignalRecipients::Single(k)),
            SignalScope::Global => match self.room {
                None => Ok(SignalRecipients::All),
                Some(room) => match self.area {
                    Some(a) => Ok(SignalRecipients::InArea(room, a)),
                    None => Ok(SignalRecipients::InRoom(room)),
                },
            },
        }
    }
}

} // verus!
