//! The Farcaster plugin's decisions: its operations and opcodes, cast
//! identifiers, the arguments scripts pass to `fc.cast` and `fc.user`, the
//! checks of the cast, user and signer builders, and signer bookkeeping.

use vstd::prelude::*;
use crate::plugin::{plugin_opcode, plugin_opcode_text, PluginName};
use crate::text::{has_prefix, starts_with, str_eq};

verus! {

/// Operations the Farcaster plugin carries out for scenes.
#[derive(Clone, Copy, Debug, PartialEq, Eq, Structural)]
pub enum FarcasterOp {
    CastGet,
    CastBulkFetch,
    CastConvo,
    CastReactions,
    CastSend,
    CastDelete,
    CastReactionPublish,
    CastReactionDelete,
    UserGetByUsername,
    UserGetByFids,
    UserSearchByUsername,
    GetUserCasts,
    UserFollow,
    UserUnfollow,
    UserNotifications,
    SignerRequest,
    SignerGet,
    SignerRefresh,
    FeedForYou,
    FeedFollowing,
}

pub open spec fn farcaster_op_text(op: FarcasterOp) -> Seq<char> {
    match op {
        FarcasterOp::CastGet => "CAST_GET"@,
        FarcasterOp::CastBulkFetch => "CAST_BULK_FETCH"@,
        FarcasterOp::CastConvo => "CAST_CONVO"@,
        FarcasterOp::CastReactions => "CAST_REACTIONS"@,
        FarcasterOp::CastSend => "CAST_SEND"@,
        FarcasterOp::CastDelete => "CAST_DELETE"@,
        FarcasterOp::CastReactionPublish => "CAST_REACTION_PUBLISH"@,
        FarcasterOp::CastReactionDelete => "CAST_REACTION_DELETE"@,
        FarcasterOp::UserGetByUsername => "USER_GET_BY_USERNAME"@,
        FarcasterOp::UserGetByFids => "USER_GET_BY_FIDS"@,
        FarcasterOp::UserSearchByUsername => "USER_SEARCH_BY_USERNAME"@,
        FarcasterOp::GetUserCasts => "GET_USER_CASTS"@,
        FarcasterOp::UserFollow => "USER_FOLLOW"@,
        FarcasterOp::UserUnfollow => "USER_UNFOLLOW"@,
        FarcasterOp::UserNotifications => "USER_NOTIFICATIONS"@,
        FarcasterOp::SignerRequest => "SIGNER_REQUEST"@,
        FarcasterOp::SignerGet => "SIGNER_GET"@,
        FarcasterOp::SignerRefresh => "SIGNER_REFRESH"@,
        FarcasterOp::FeedForYou => "FEED_FOR_YOU"@,
        FarcasterOp::FeedFollowing => "FEED_FOLLOWING"@,
    }
}

pub open spec fn farcaster_op_from_text(s: Seq<char>) -> Option<FarcasterOp> {
    if s == "CAST_GET"@ {
        Some(FarcasterOp::CastGet)
    } else if s == "CAST_BULK_FETCH"@ {
        Some(FarcasterOp::CastBulkFetch)
    } else if s == "CAST_CONVO"@ {
        Some(FarcasterOp::CastConvo)
    } else if s == "CAST_REACTIONS"@ {
        Some(FarcasterOp::CastReactions)
    } else if s == "CAST_SEND"@ {
        Some(FarcasterOp::CastSend)
    } else if s == "CAST_DELETE"@ {
        Some(FarcasterOp::CastDelete)
    } else if s == "CAST_REACTION_PUBLISH"@ {
        Some(FarcasterOp::CastReactionPublish)
    } else if s == "CAST_REACTION_DELETE"@ {
        Some(FarcasterOp::CastReactionDelete)
    } else if s == "USER_GET_BY_USERNAME"@ {
        Some(FarcasterOp::UserGetByUsername)
    } else if s == "USER_GET_BY_FIDS"@ {
        Some(FarcasterOp::UserGetByFids)
    } else if s == "USER_SEARCH_BY_USERNAME"@ {
        Some(FarcasterOp::UserSearchByUsername)
    } else if s == "GET_USER_CASTS"@ {
        Some(FarcasterOp::GetUserCasts)
    } else if s == "USER_FOLLOW"@ {
        Some(FarcasterOp::UserFollow)
    } else if s == "USER_UNFOLLOW"@ {
        Some(FarcasterOp::UserUnfollow)
    } else if s == "USER_NOTIFICATIONS"@ {
        Some(FarcasterOp::UserNotifications)
    } else if s == "SIGNER_REQUEST"@ {
        Some(FarcasterOp::SignerRequest)
    } else if s == "SIGNER_GET"@ {
        Some(FarcasterOp::SignerGet)
    } else if s == "SIGNER_REFRESH"@ {
        Some(FarcasterOp::SignerRefresh)
    } else if s == "FEED_FOR_YOU"@ {
        Some(FarcasterOp::FeedForYou)
    } else if s == "FEED_FOLLOWING"@ {
        Some(FarcasterOp::FeedFollowing)
    } else {
        None
    }
}

impl FarcasterOp {
    pub fn as_str(&self) -> (r: &'static str)
        ensures
            r@ == farcaster_op_text(*self),
    {
        match self {
            FarcasterOp::CastGet => "CAST_GET",
            FarcasterOp::CastBulkFetch => "CAST_BULK_FETCH",
            FarcasterOp::CastConvo => "CAST_CONVO",
            FarcasterOp::CastReactions => "CAST_REACTIONS",
            FarcasterOp::CastSend => "CAST_SEND",
            FarcasterOp::CastDelete => "CAST_DELETE",
            FarcasterOp::CastReactionPublish => "CAST_REACTION_PUBLISH",
            FarcasterOp::CastReactionDelete => "CAST_REACTION_DELETE",
            FarcasterOp::UserGetByUsername => "USER_GET_BY_USERNAME",
            FarcasterOp::UserGetByFids => "USER_GET_BY_FIDS",
            FarcasterOp::UserSearchByUsername => "USER_SEARCH_BY_USERNAME",
            FarcasterOp::GetUserCasts => "GET_USER_CASTS",
            FarcasterOp::UserFollow => "USER_FOLLOW",
            FarcasterOp::UserUnfollow => "USER_UNFOLLOW",
            FarcasterOp::UserNotifications => "USER_NOTIFICATIONS",
            FarcasterOp::SignerRequest => "SIGNER_REQUEST",
            FarcasterOp::SignerGet => "SIGNER_GET",
            FarcasterOp::SignerRefresh => "SIGNER_REFRESH",
            FarcasterOp::FeedForYou => "FEED_FOR_YOU",
            FarcasterOp::FeedFollowing => "FEED_FOLLOWING",
        }
    }

    pub fn parse(s: &str) -> (r: Option<FarcasterOp>)
        ensures
            r == farcaster_op_from_text(s@),
    {
        if str_eq(s, "CAST_GET") {
            Some(FarcasterOp::CastGet)
        } else if str_eq(s, "CAST_BULK_FETCH") {
            Some(FarcasterOp::CastBulkFetch)
        } else if str_eq(s, "CAST_CONVO") {
            Some(FarcasterOp::CastConvo)
        } else if str_eq(s, "CAST_REACTIONS") {
            Some(FarcasterOp::CastReactions)
        } else if str_eq(s, "CAST_SEND") {
            Some(FarcasterOp::CastSend)
        } else if str_eq(s, "CAST_DELETE") {
            Some(FarcasterOp::CastDelete)
        } else if str_eq(s, "CAST_REACTION_PUBLISH") {
            Some(FarcasterOp::CastReactionPublish)
        } else if str_eq(s, "CAST_REACTION_DELETE") {
            Some(FarcasterOp::CastReactionDelete)
        } else if str_eq(s, "USER_GET_BY_USERNAME") {
            Some(FarcasterOp::UserGetByUsername)
        } else if str_eq(s, "USER_GET_BY_FIDS") {
            Some(FarcasterOp::UserGetByFids)
        } else if str_eq(s, "USER_SEARCH_BY_USERNAME") {
            Some(FarcasterOp::UserSearchByUsername)
        } else if str_eq(s, "GET_USER_CASTS") {
            Some(FarcasterOp::GetUserCasts)
        } else if str_eq(s, "USER_FOLLOW") {
            Some(FarcasterOp::UserFollow)
        } else if str_eq(s, "USER_UNFOLLOW") {
            Some(FarcasterOp::UserUnfollow)
        } else if str_eq(s, "USER_NOTIFICATIONS") {
            Some(FarcasterOp::UserNotifications)
        } else if str_eq(s, "SIGNER_REQUEST") {
            Some(FarcasterOp::SignerRequest)
        } else if str_eq(s, "SIGNER_GET") {
            Some(FarcasterOp::SignerGet)
        } else if str_eq(s, "SIGNER_REFRESH") {
            Some(FarcasterOp::SignerRefresh)
        } else if str_eq(s, "FEED_FOR_YOU") {
            Some(FarcasterOp::FeedForYou)
        } else if str_eq(s, "FEED_FOLLOWING") {
            Some(FarcasterOp::FeedFollowing)
        } else {
            None
        }
    }
}

/// Parsing the text of an operation gives the operation back, and a text
/// that parses is the text of the operation it parses to.
pub proof fn lemma_farcaster_op_text_round_trip(op: FarcasterOp, s: Seq<char>)
    ensures
        farcaster_op_from_text(farcaster_op_text(op)) == Some(op),
        farcaster_op_from_text(s) == Some(op) ==> farcaster_op_text(op) == s,
{
    reveal_strlit("CAST_GET");
    reveal_strlit("CAST_BULK_FETCH");
    reveal_strlit("CAST_CONVO");
    reveal_strlit("CAST_REACTIONS");
    reveal_strlit("CAST_SEND");
    reveal_strlit("CAST_DELETE");
    reveal_strlit("CAST_REACTION_PUBLISH");
    reveal_strlit("CAST_REACTION_DELETE");
    reveal_strlit("USER_GET_BY_USERNAME");
    reveal_strlit("USER_GET_BY_FIDS");
    reveal_strlit("USER_SEARCH_BY_USERNAME");
    reveal_strlit("GET_USER_CASTS");
    reveal_strlit("USER_FOLLOW");
    reveal_strlit("USER_UNFOLLOW");
    reveal_strlit("USER_NOTIFICATIONS");
    reveal_strlit("SIGNER_REQUEST");
    reveal_strlit("SIGNER_GET");
    reveal_strlit("SIGNER_REFRESH");
    reveal_strlit("FEED_FOR_YOU");
    reveal_strlit("FEED_FOLLOWING");
    match op {
        FarcasterOp::CastGet => {
        },
        FarcasterOp::CastBulkFetch => {
            assert("CAST_BULK_FETCH"@.len() != "CAST_GET"@.len());
        },
        FarcasterOp::CastConvo => {
            assert("CAST_CONVO"@.len() != "CAST_GET"@.len());
            assert("CAST_CONVO"@.len() != "CAST_BULK_FETCH"@.len());
        },
        FarcasterOp::CastReactions => {
            assert("CAST_REACTIONS"@.len() != "CAST_GET"@.len());
            assert("CAST_REACTIONS"@.len() != "CAST_BULK_FETCH"@.len());
            assert("CAST_REACTIONS"@.len() != "CAST_CONVO"@.len());
        },
        FarcasterOp::CastSend => {
            assert("CAST_SEND"@.len() != "CAST_GET"@.len());
            assert("CAST_SEND"@.len() != "CAST_BULK_FETCH"@.len());
            assert("CAST_SEND"@.len() != "CAST_CONVO"@.len());
            assert("CAST_SEND"@.len() != "CAST_REACTIONS"@.len());
        },
        FarcasterOp::CastDelete => {
            assert("CAST_DELETE"@.len() != "CAST_GET"@.len());
            assert("CAST_DELETE"@.len() != "CAST_BULK_FETCH"@.len());
            assert("CAST_DELETE"@.len() != "CAST_CONVO"@.len());
            assert("CAST_DELETE"@.len() != "CAST_REACTIONS"@.len());
            assert("CAST_DELETE"@.len() != "CAST_SEND"@.len());
        },
        FarcasterOp::CastReactionPublish => {
            assert("CAST_REACTION_PUBLISH"@.len() != "CAST_GET"@.len());
            assert("CAST_REACTION_PUBLISH"@.len() != "CAST_BULK_FETCH"@.len());
            assert("CAST_REACTION_PUBLISH"@.len() != "CAST_CONVO"@.len());
            assert("CAST_REACTION_PUBLISH"@.len() != "CAST_REACTIONS"@.len());
            assert("CAST_REACTION_PUBLISH"@.len() != "CAST_SEND"@.len());
            assert("CAST_REACTION_PUBLISH"@.len() != "CAST_DELETE"@.len());
        },
        FarcasterOp::CastReactionDelete => {
            assert("CAST_REACTION_DELETE"@.len() != "CAST_GET"@.len());
            assert("CAST_REACTION_DELETE"@.len() != "CAST_BULK_FETCH"@.len());
            assert("CAST_REACTION_DELETE"@.len() != "CAST_CONVO"@.len());
            assert("CAST_REACTION_DELETE"@.len() != "CAST_REACTIONS"@.len());
            assert("CAST_REACTION_DELETE"@.len() != "CAST_SEND"@.len());
            assert("CAST_REACTION_DELETE"@.len() != "CAST_DELETE"@.len());
            assert("CAST_REACTION_DELETE"@.len() != "CAST_REACTION_PUBLISH"@.len());
        },
        FarcasterOp::UserGetByUsername => {
            assert("USER_GET_BY_USERNAME"@.len() != "CAST_GET"@.len());
            assert("USER_GET_BY_USERNAME"@.len() != "CAST_BULK_FETCH"@.len());
            assert("USER_GET_BY_USERNAME"@.len() != "CAST_CONVO"@.len());
            assert("USER_GET_BY_USERNAME"@.len() != "CAST_REACTIONS"@.len());
            assert("USER_GET_BY_USERNAME"@.len() != "CAST_SEND"@.len());
            assert("USER_GET_BY_USERNAME"@.len() != "CAST_DELETE"@.len());
            assert("USER_GET_BY_USERNAME"@.len() != "CAST_REACTION_PUBLISH"@.len());
            assert("USER_GET_BY_USERNAME"@[0] != "CAST_REACTION_DELETE"@[0]);
        },
        FarcasterOp::UserGetByFids => {
            assert("USER_GET_BY_FIDS"@.len() != "CAST_GET"@.len());
            assert("USER_GET_BY_FIDS"@.len() != "CAST_BULK_FETCH"@.len());
            assert("USER_GET_BY_FIDS"@.len() != "CAST_CONVO"@.len());
            assert("USER_GET_BY_FIDS"@.len() != "CAST_REACTIONS"@.len());
            assert("USER_GET_BY_FIDS"@.len() != "CAST_SEND"@.len());
            assert("USER_GET_BY_FIDS"@.len() != "CAST_DELETE"@.len());
            assert("USER_GET_BY_FIDS"@.len() != "CAST_REACTION_PUBLISH"@.len());
            assert("USER_GET_BY_FIDS"@.len() != "CAST_REACTION_DELETE"@.len());
            assert("USER_GET_BY_FIDS"@.len() != "USER_GET_BY_USERNAME"@.len());
        },
        FarcasterOp::UserSearchByUsername => {
            assert("USER_SEARCH_BY_USERNAME"@.len() != "CAST_GET"@.len());
            assert("USER_SEARCH_BY_USERNAME"@.len() != "CAST_BULK_FETCH"@.len());
            assert("USER_SEARCH_BY_USERNAME"@.len() != "CAST_CONVO"@.len());
            assert("USER_SEARCH_BY_USERNAME"@.len() != "CAST_REACTIONS"@.len());
            assert("USER_SEARCH_BY_USERNAME"@.len() != "CAST_SEND"@.len());
            assert("USER_SEARCH_BY_USERNAME"@.len() != "CAST_DELETE"@.len());
            assert("USER_SEARCH_BY_USERNAME"@.len() != "CAST_REACTION_PUBLISH"@.len());
            assert("USER_SEARCH_BY_USERNAME"@.len() != "CAST_REACTION_DELETE"@.len());
            assert("USER_SEARCH_BY_USERNAME"@.len() != "USER_GET_BY_USERNAME"@.len());
            assert("USER_SEARCH_BY_USERNAME"@.len() != "USER_GET_BY_FIDS"@.len());
        },
        FarcasterOp::GetUserCasts => {
            assert("GET_USER_CASTS"@.len() != "CAST_GET"@.len());
            assert("GET_USER_CASTS"@.len() != "CAST_BULK_FETCH"@.len());
            assert("GET_USER_CASTS"@.len() != "CAST_CONVO"@.len());
            assert("GET_USER_CASTS"@[0] != "CAST_REACTIONS"@[0]);
            assert("GET_USER_CASTS"@.len() != "CAST_SEND"@.len());
            assert("GET_USER_CASTS"@.len() != "CAST_DELETE"@.len());
            assert("GET_USER_CASTS"@.len() != "CAST_REACTION_PUBLISH"@.len());
            assert("GET_USER_CASTS"@.len() != "CAST_REACTION_DELETE"@.len());
            assert("GET_USER_CASTS"@.len() != "USER_GET_BY_USERNAME"@.len());
            assert("GET_USER_CASTS"@.len() != "USER_GET_BY_FIDS"@.len());
            assert("GET_USER_CASTS"@.len() != "USER_SEARCH_BY_USERNAME"@.len());
        },
        FarcasterOp::UserFollow => {
            assert("USER_FOLLOW"@.len() != "CAST_GET"@.len());
            assert("USER_FOLLOW"@.len() != "CAST_BULK_FETCH"@.len());
            assert("USER_FOLLOW"@.len() != "CAST_CONVO"@.len());
            assert("USER_FOLLOW"@.len() != "CAST_REACTIONS"@.len());
            assert("USER_FOLLOW"@.len() != "CAST_SEND"@.len());
            assert("USER_FOLLOW"@[0] != "CAST_DELETE"@[0]);
            assert("USER_FOLLOW"@.len() != "CAST_REACTION_PUBLISH"@.len());
            assert("USER_FOLLOW"@.len() != "CAST_REACTION_DELETE"@.len());
            assert("USER_FOLLOW"@.len() != "USER_GET_BY_USERNAME"@.len());
            assert("USER_FOLLOW"@.len() != "USER_GET_BY_FIDS"@.len());
            assert("USER_FOLLOW"@.len() != "USER_SEARCH_BY_USERNAME"@.len());
            assert("USER_FOLLOW"@.len() != "GET_USER_CASTS"@.len());
        },
        FarcasterOp::UserUnfollow => {
            assert("USER_UNFOLLOW"@.len() != "CAST_GET"@.len());
            assert("USER_UNFOLLOW"@.len() != "CAST_BULK_FETCH"@.len());
            assert("USER_UNFOLLOW"@.len() != "CAST_CONVO"@.len());
            assert("USER_UNFOLLOW"@.len() != "CAST_REACTIONS"@.len());
            assert("USER_UNFOLLOW"@.len() != "CAST_SEND"@.len());
            assert("USER_UNFOLLOW"@.len() != "CAST_DELETE"@.len());
            assert("USER_UNFOLLOW"@.len() != "CAST_REACTION_PUBLISH"@.len());
            assert("USER_UNFOLLOW"@.len() != "CAST_REACTION_DELETE"@.len());
            assert("USER_UNFOLLOW"@.len() != "USER_GET_BY_USERNAME"@.len());
            assert("USER_UNFOLLOW"@.len() != "USER_GET_BY_FIDS"@.len());
            assert("USER_UNFOLLOW"@.len() != "USER_SEARCH_BY_USERNAME"@.len());
            assert("USER_UNFOLLOW"@.len() != "GET_USER_CASTS"@.len());
            assert("USER_UNFOLLOW"@.len() != "USER_FOLLOW"@.len());
        },
        FarcasterOp::UserNotifications => {
            assert("USER_NOTIFICATIONS"@.len() != "CAST_GET"@.len());
            assert("USER_NOTIFICATIONS"@.len() != "CAST_BULK_FETCH"@.len());
            assert("USER_NOTIFICATIONS"@.len() != "CAST_CONVO"@.len());
            assert("USER_NOTIFICATIONS"@.len() != "CAST_REACTIONS"@.len());
            assert("USER_NOTIFICATIONS"@.len() != "CAST_SEND"@.len());
            assert("USER_NOTIFICATIONS"@.len() != "CAST_DELETE"@.len());
            assert("USER_NOTIFICATIONS"@.len() != "CAST_REACTION_PUBLISH"@.len());
            assert("USER_NOTIFICATIONS"@.len() != "CAST_REACTION_DELETE"@.len());
            assert("USER_NOTIFICATIONS"@.len() != "USER_GET_BY_USERNAME"@.len());
            assert("USER_NOTIFICATIONS"@.len() != "USER_GET_BY_FIDS"@.len());
            assert("USER_NOTIFICATIONS"@.len() != "USER_SEARCH_BY_USERNAME"@.len());
            assert("USER_NOTIFICATIONS"@.len() != "GET_USER_CASTS"@.len());
            assert("USER_NOTIFICATIONS"@.len() != "USER_FOLLOW"@.len());
            assert("USER_NOTIFICATIONS"@.len() != "USER_UNFOLLOW"@.len());
        },
        FarcasterOp::SignerRequest => {
            assert("SIGNER_REQUEST"@.len() != "CAST_GET"@.len());
            assert("SIGNER_REQUEST"@.len() != "CAST_BULK_FETCH"@.len());
            assert("SIGNER_REQUEST"@.len() != "CAST_CONVO"@.len());
            assert("SIGNER_REQUEST"@[0] != "CAST_REACTIONS"@[0]);
            assert("SIGNER_REQUEST"@.len() != "CAST_SEND"@.len());
            assert("SIGNER_REQUEST"@.len() != "CAST_DELETE"@.len());
            assert("SIGNER_REQUEST"@.len() != "CAST_REACTION_PUBLISH"@.len());
            assert("SIGNER_REQUEST"@.len() != "CAST_REACTION_DELETE"@.len());
            assert("SIGNER_REQUEST"@.len() != "USER_GET_BY_USERNAME"@.len());
            assert("SIGNER_REQUEST"@.len() != "USER_GET_BY_FIDS"@.len());
            assert("SIGNER_REQUEST"@.len() != "USER_SEARCH_BY_USERNAME"@.len());
            assert("SIGNER_REQUEST"@[0] != "GET_USER_CASTS"@[0]);
            assert("SIGNER_REQUEST"@.len() != "USER_FOLLOW"@.len());
            assert("SIGNER_REQUEST"@.len() != "USER_UNFOLLOW"@.len());
            assert("SIGNER_REQUEST"@.len() != "USER_NOTIFICATIONS"@.len());
        },
        FarcasterOp::SignerGet => {
            assert("SIGNER_GET"@.len() != "CAST_GET"@.len());
            assert("SIGNER_GET"@.len() != "CAST_BULK_FETCH"@.len());
            assert("SIGNER_GET"@[0] != "CAST_CONVO"@[0]);
            assert("SIGNER_GET"@.len() != "CAST_REACTIONS"@.len());
            assert("SIGNER_GET"@.len() != "CAST_SEND"@.len());
            assert("SIGNER_GET"@.len() != "CAST_DELETE"@.len());
            assert("SIGNER_GET"@.len() != "CAST_REACTION_PUBLISH"@.len());
            assert("SIGNER_GET"@.len() != "CAST_REACTION_DELETE"@.len());
            assert("SIGNER_GET"@.len() != "USER_GET_BY_USERNAME"@.len());
            assert("SIGNER_GET"@.len() != "USER_GET_BY_FIDS"@.len());
            assert("SIGNER_GET"@.len() != "USER_SEARCH_BY_USERNAME"@.len());
            assert("SIGNER_GET"@.len() != "GET_USER_CASTS"@.len());
            assert("SIGNER_GET"@.len() != "USER_FOLLOW"@.len());
            assert("SIGNER_GET"@.len() != "USER_UNFOLLOW"@.len());
            assert("SIGNER_GET"@.len() != "USER_NOTIFICATIONS"@.len());
            assert("SIGNER_GET"@.len() != "SIGNER_REQUEST"@.len());
        },
        FarcasterOp::SignerRefresh => {
            assert("SIGNER_REFRESH"@.len() != "CAST_GET"@.len());
            assert("SIGNER_REFRESH"@.len() != "CAST_BULK_FETCH"@.len());
            assert("SIGNER_REFRESH"@.len() != "CAST_CONVO"@.len());
            assert("SIGNER_REFRESH"@[0] != "CAST_REACTIONS"@[0]);
            assert("SIGNER_REFRESH"@.len() != "CAST_SEND"@.len());
            assert("SIGNER_REFRESH"@.len() != "CAST_DELETE"@.len());
            assert("SIGNER_REFRESH"@.len() != "CAST_REACTION_PUBLISH"@.len());
            assert("SIGNER_REFRESH"@.len() != "CAST_REACTION_DELETE"@.len());
            assert("SIGNER_REFRESH"@.len() != "USER_GET_BY_USERNAME"@.len());
            assert("SIGNER_REFRESH"@.len() != "USER_GET_BY_FIDS"@.len());
            assert("SIGNER_REFRESH"@.len() != "USER_SEARCH_BY_USERNAME"@.len());
            assert("SIGNER_REFRESH"@[0] != "GET_USER_CASTS"@[0]);
            assert("SIGNER_REFRESH"@.len() != "USER_FOLLOW"@.len());
            assert("SIGNER_REFRESH"@.len() != "USER_UNFOLLOW"@.len());
            assert("SIGNER_REFRESH"@.len() != "USER_NOTIFICATIONS"@.len());
            assert("SIGNER_REFRESH"@[9] != "SIGNER_REQUEST"@[9]);
            assert("SIGNER_REFRESH"@.len() != "SIGNER_GET"@.len());
        },
        FarcasterOp::FeedForYou => {
            assert("FEED_FOR_YOU"@.len() != "CAST_GET"@.len());
            assert("FEED_FOR_YOU"@.len() != "CAST_BULK_FETCH"@.len());
            assert("FEED_FOR_YOU"@.len() != "CAST_CONVO"@.len());
            assert("FEED_FOR_YOU"@.len() != "CAST_REACTIONS"@.len());
            assert("FEED_FOR_YOU"@.len() != "CAST_SEND"@.len());
            assert("FEED_FOR_YOU"@.len() != "CAST_DELETE"@.len());
            assert("FEED_FOR_YOU"@.len() != "CAST_REACTION_PUBLISH"@.len());
            assert("FEED_FOR_YOU"@.len() != "CAST_REACTION_DELETE"@.len());
            assert("FEED_FOR_YOU"@.len() != "USER_GET_BY_USERNAME"@.len());
            assert("FEED_FOR_YOU"@.len() != "USER_GET_BY_FIDS"@.len());
            assert("FEED_FOR_YOU"@.len() != "USER_SEARCH_BY_USERNAME"@.len());
            assert("FEED_FOR_YOU"@.len() != "GET_USER_CASTS"@.len());
            assert("FEED_FOR_YOU"@.len() != "USER_FOLLOW"@.len());
            assert("FEED_FOR_YOU"@.len() != "USER_UNFOLLOW"@.len());
            assert("FEED_FOR_YOU"@.len() != "USER_NOTIFICATIONS"@.len());
            assert("FEED_FOR_YOU"@.len() != "SIGNER_REQUEST"@.len());
            assert("FEED_FOR_YOU"@.len() != "SIGNER_GET"@.len());
            assert("FEED_FOR_YOU"@.len() != "SIGNER_REFRESH"@.len());
        },
        FarcasterOp::FeedFollowing => {
            assert("FEED_FOLLOWING"@.len() != "CAST_GET"@.len());
            assert("FEED_FOLLOWING"@.len() != "CAST_BULK_FETCH"@.len());
            assert("FEED_FOLLOWING"@.len() != "CAST_CONVO"@.len());
            assert("FEED_FOLLOWING"@[0] != "CAST_REACTIONS"@[0]);
            assert("FEED_FOLLOWING"@.len() != "CAST_SEND"@.len());
            assert("FEED_FOLLOWING"@.len() != "CAST_DELETE"@.len());
            assert("FEED_FOLLOWING"@.len() != "CAST_REACTION_PUBLISH"@.len());
            assert("FEED_FOLLOWING"@.len() != "CAST_REACTION_DELETE"@.len());
            assert("FEED_FOLLOWING"@.len() != "USER_GET_BY_USERNAME"@.len());
            assert("FEED_FOLLOWING"@.len() != "USER_GET_BY_FIDS"@.len());
            assert("FEED_FOLLOWING"@.len() != "USER_SEARCH_BY_USERNAME"@.len());
            assert("FEED_FOLLOWING"@[0] != "GET_USER_CASTS"@[0]);
            assert("FEED_FOLLOWING"@.len() != "USER_FOLLOW"@.len());
            assert("FEED_FOLLOWING"@.len() != "USER_UNFOLLOW"@.len());
            assert("FEED_FOLLOWING"@.len() != "USER_NOTIFICATIONS"@.len());
            assert("FEED_FOLLOWING"@[0] != "SIGNER_REQUEST"@[0]);
            assert("FEED_FOLLOWING"@.len() != "SIGNER_GET"@.len());
            assert("FEED_FOLLOWING"@[0] != "SIGNER_REFRESH"@[0]);
            assert("FEED_FOLLOWING"@.len() != "FEED_FOR_YOU"@.len());
        },
    }
}

/// The opcode scenes yield for a Farcaster operation.
pub fn farcaster_opcode(op: FarcasterOp) -> (r: String)
    ensures
        r@ == plugin_opcode_text(PluginName::Farcaster, farcaster_op_text(op)),
{
    plugin_opcode(PluginName::Farcaster, op.as_str())
}

/// How the plugin serves an operation.
#[derive(Clone, Copy, Debug, PartialEq, Eq, Structural)]
pub enum FarcasterOpClass {
    /// A read of the Farcaster API with the script's parameters.
    Read,
    /// A write on a player's behalf, signed with the player's approved signer.
    Write,
    /// A signer request, decided by the signer stored for the app and player.
    SignerRequest,
    /// The stored signer, or nil when none is stored.
    SignerGet,
    /// The stored signer refreshed from the API, or nil when none is stored.
    SignerRefresh,
}

pub open spec fn farcaster_op_class_of(op: FarcasterOp) -> FarcasterOpClass {
    match op {
        FarcasterOp::CastSend | FarcasterOp::CastDelete | FarcasterOp::CastReactionPublish
        | FarcasterOp::CastReactionDelete | FarcasterOp::UserFollow | FarcasterOp::UserUnfollow => {
            FarcasterOpClass::Write
        },
        FarcasterOp::SignerRequest => FarcasterOpClass::SignerRequest,
        FarcasterOp::SignerGet => FarcasterOpClass::SignerGet,
        FarcasterOp::SignerRefresh => FarcasterOpClass::SignerRefresh,
        _ => FarcasterOpClass::Read,
    }
}

impl FarcasterOp {
    /// How the plugin serves the operation: sending, deleting, reacting and
    /// following are writes; the signer operations have their own flows;
    /// everything else is a plain read.
    pub fn class(&self) -> (r: FarcasterOpClass)
        ensures
            r == farcaster_op_class_of(*self),
    {
        match self {
            FarcasterOp::CastSend | FarcasterOp::CastDelete | FarcasterOp::CastReactionPublish
            | FarcasterOp::CastReactionDelete | FarcasterOp::UserFollow | FarcasterOp::UserUnfollow => {
                FarcasterOpClass::Write
            },
            FarcasterOp::SignerRequest => FarcasterOpClass::SignerRequest,
            FarcasterOp::SignerGet => FarcasterOpClass::SignerGet,
            FarcasterOp::SignerRefresh => FarcasterOpClass::SignerRefresh,
            _ => FarcasterOpClass::Read,
        }
    }
}

/// Why the Farcaster plugin refused an operation's text.
#[derive(Debug)]
pub enum FarcasterOpError {
    /// The text names no Farcaster operation.
    UnknownOp(String),
}

/// The operation a scene asked the Farcaster plugin for, with how it is
/// served.
pub fn parse_farcaster_op(op: &str) -> (r: Result<(FarcasterOp, FarcasterOpClass), FarcasterOpError>)
    ensures
        match farcaster_op_from_text(op@) {
            Some(o) => r matches Ok((p, c)) && p == o && c == farcaster_op_class_of(o),
            None => r matches Err(FarcasterOpError::UnknownOp(t)) && t@ == op@,
        },
{
    match FarcasterOp::parse(op) {
        Some(o) => Ok((o, o.class())),
        None => Err(FarcasterOpError::UnknownOp(op.to_owned())),
    }
}

/// How a cast is identified.
#[derive(Clone, Copy, Debug, PartialEq, Eq, Structural)]
pub enum CastIdentifierKind {
    Hash,
    Url,
}

/// A cast named by its hash (`0x…`) or by its URL (`http…`).
#[derive(Debug)]
pub enum CastIdentifier {
    Hash(String),
    Url(String),
}

/// A cast identifier as sent to the Farcaster API: the text and its kind.
#[derive(Debug)]
pub struct CastIdentifierRaw {
    pub id: String,
    pub kind: CastIdentifierKind,
}

pub open spec fn cast_id_text(c: CastIdentifier) -> Seq<char> {
    match c {
        CastIdentifier::Hash(s) => s@,
        CastIdentifier::Url(s) => s@,
    }
}

/// What a text identifies: a hash when it starts with `0x`, else a URL when
/// it starts with `http`, else nothing.
pub open spec fn cast_id_kind_of(s: Seq<char>) -> Option<CastIdentifierKind> {
    if has_prefix(s, "0x"@) {
        Some(CastIdentifierKind::Hash)
    } else if has_prefix(s, "http"@) {
        Some(CastIdentifierKind::Url)
    } else {
        None
    }
}

/// Why a Farcaster request was refused before it was sent.
#[derive(Debug)]
pub enum FarcasterError {
    /// The text is neither a cast hash nor a cast URL.
    InvalidCastId(String),
    /// `fc.cast` got an empty list of ids.
    EmptyCastIds,
    /// `fc.cast` got neither a string, a table nor nil.
    BadCastArgument,
    /// `fc.user` got an empty list of fids.
    EmptyFids,
    /// `fc.user` got neither a string, an integer nor a table.
    BadUserArgument,
    /// No cast id was given.
    CastIdMissing,
    /// More than one cast id was given where one is needed.
    TooManyCastIds,
    /// The cast is identified by URL where a hash is needed.
    CastIdNotHash,
    /// A cast to send has no text.
    EmptyCast,
    /// A user search without a username.
    UsernameMissing,
    /// No fid was given where one is needed.
    FidMissing,
    /// More than one fid was given where one is needed.
    TooManyFids,
    /// Following or unfollowing without a target fid.
    NoTargetFids,
    /// No app fid was given and none is configured.
    AppFidMissing,
    /// The player has no fid.
    PlayerFidMissing,
    /// No signer is stored for this app fid and player fid.
    SignerMissing { app_fid: u64, player_fid: u64 },
    /// The stored signer is not approved.
    SignerNotApproved { app_fid: u64, player_fid: u64, status: SignerStatus },
}

impl CastIdentifier {
    /// The identifier's text.
    pub fn as_str(&self) -> (r: &str)
        ensures
            r@ == cast_id_text(*self),
    {
        match self {
            CastIdentifier::Hash(s) => s.as_str(),
            CastIdentifier::Url(s) => s.as_str(),
        }
    }

    pub fn kind(&self) -> (r: CastIdentifierKind)
        ensures
            r == (match *self {
                CastIdentifier::Hash(_) => CastIdentifierKind::Hash,
                CastIdentifier::Url(_) => CastIdentifierKind::Url,
            }),
    {
        match self {
            CastIdentifier::Hash(_) => CastIdentifierKind::Hash,
            CastIdentifier::Url(_) => CastIdentifierKind::Url,
        }
    }

    /// The identifier as the API takes it.
    pub fn raw(&self) -> (r: CastIdentifierRaw)
        ensures
            r.id@ == cast_id_text(*self),
            r.kind == (match *self {
                CastIdentifier::Hash(_) => CastIdentifierKind::Hash,
                CastIdentifier::Url(_) => CastIdentifierKind::Url,
            }),
    {
        CastIdentifierRaw { id: self.as_str().to_owned(), kind: self.kind() }
    }

    /// Reads a cast identifier from a script's text.
    pub fn try_from_text(value: String) -> (r: Result<CastIdentifier, FarcasterError>)
        ensures
            match cast_id_kind_of(value@) {
                Some(CastIdentifierKind::Hash) => r matches Ok(CastIdentifier::Hash(s)) && s@ == value@,
                Some(CastIdentifierKind::Url) => r matches Ok(CastIdentifier::Url(s)) && s@ == value@,
                None => r matches Err(FarcasterError::InvalidCastId(s)) && s@ == value@,
            },
    {
        if starts_with(value.as_str(), "0x") {
            Ok(CastIdentifier::Hash(value))
        } else if starts_with(value.as_str(), "http") {
            Ok(CastIdentifier::Url(value))
        } else {
            Err(FarcasterError::InvalidCastId(value))
        }
    }
}

/// What a script passed to `fc.cast`.
pub enum CastArgument {
    Text(String),
    List(Vec<String>),
    Nil,
    Other,
}

/// The identifiers `ids` reads as, in order, when every one is valid.
pub open spec fn cast_ids_read(ids: Seq<String>, r: Seq<CastIdentifier>) -> bool {
    &&& r.len() == ids.len()
    &&& forall|i: int| 0 <= i < ids.len() ==> {
        &&& cast_id_text(#[trigger] r[i]) == ids[i]@
        &&& cast_id_kind_of(ids[i]@) == Some(
            match r[i] {
                CastIdentifier::Hash(_) => CastIdentifierKind::Hash,
                CastIdentifier::Url(_) => CastIdentifierKind::Url,
            },
        )
    }
}

/// The cast ids of `fc.cast`'s argument: one text, a non-empty list of texts
/// (the first invalid one is reported), or nil for none.
#[verifier::loop_isolation(false)]
pub fn parse_cast_argument(arg: CastArgument) -> (r: Result<Vec<CastIdentifier>, FarcasterError>)
    ensures
        arg matches CastArgument::Nil ==> (r matches Ok(v) && v@.len() == 0),
        arg matches CastArgument::Other ==> r matches Err(FarcasterError::BadCastArgument),
        arg matches CastArgument::Text(t) ==> match cast_id_kind_of(t@) {
            Some(_) => r matches Ok(v) && cast_ids_read(seq![t], v@),
            None => r matches Err(FarcasterError::InvalidCastId(s)) && s@ == t@,
        },
        arg matches CastArgument::List(l) ==> if l@.len() == 0 {
            r matches Err(FarcasterError::EmptyCastIds)
        } else if forall|i: int| 0 <= i < l@.len() ==> cast_id_kind_of((#[trigger] l@[i])@) is Some {
            r matches Ok(v) && cast_ids_read(l@, v@)
        } else {
            r matches Err(FarcasterError::InvalidCastId(s)) && exists|i: int|
                0 <= i < l@.len() && s@ == (#[trigger] l@[i])@ && cast_id_kind_of(s@) is None && forall|
                    j: int,
                | 0 <= j < i ==> cast_id_kind_of((#[trigger] l@[j])@) is Some
        },
{
    match arg {
        CastArgument::Nil => Ok(Vec::new()),
        CastArgument::Other => Err(FarcasterError::BadCastArgument),
        CastArgument::Text(t) => {
            let ghost tv = t;
            let id = CastIdentifier::try_from_text(t)?;
            let mut v = Vec::new();
            v.push(id);
            proof {
                assert(cast_ids_read(seq![tv], v@));
            }
            Ok(v)
        },
        CastArgument::List(l) => {
            if l.len() == 0 {
                return Err(FarcasterError::EmptyCastIds);
            }
            let ghost l0 = l@;
            let mut v: Vec<CastIdentifier> = Vec::new();
            let mut rest = l;
            let mut i: usize = 0;
            while rest.len() > 0
                invariant
                    i + rest@.len() == l0.len(),
                    rest@ == l0.subrange(i as int, l0.len() as int),
                    cast_ids_read(l0.subrange(0, i as int), v@),
                decreases rest@.len(),
            {
                let t = rest.remove(0);
                assert(t == l0[i as int]);
                let ghost tv = t;
                match CastIdentifier::try_from_text(t) {
                    Ok(id) => {
                        v.push(id);
                        proof {
                            assert(l0.subrange(0, i as int + 1) =~= l0.subrange(0, i as int).push(tv));
                            let s1 = l0.subrange(0, i as int + 1);
                            assert forall|j: int| 0 <= j < s1.len() implies {
                                &&& cast_id_text(#[trigger] v@[j]) == s1[j]@
                                &&& cast_id_kind_of(s1[j]@) == Some(
                                    match v@[j] {
                                        CastIdentifier::Hash(_) => CastIdentifierKind::Hash,
                                        CastIdentifier::Url(_) => CastIdentifierKind::Url,
                                    },
                                )
                            } by {
                                if j < i {
                                    assert(s1[j] == l0.subrange(0, i as int)[j]);
                                }
                            }
                        }
                    },
                    Err(e) => {
                        proof {
                            let pre = l0.subrange(0, i as int);
                            assert forall|j: int| 0 <= j < i implies cast_id_kind_of((#[trigger] l0[j])@) is Some by {
                                assert(l0[j] == pre[j]);
                                assert(cast_id_text(v@[j]) == pre[j]@);
                            }
                            assert(cast_id_kind_of(l0[i as int]@) is None);
                            assert(!(forall|k: int| 0 <= k < l0.len() ==> cast_id_kind_of((#[trigger] l0[k])@) is Some));
                        }
                        return Err(e);
                    },
                }
                i = i + 1;
            }
            proof {
                assert(l0.subrange(0, l0.len() as int) =~= l0);
                assert forall|k: int| 0 <= k < l0.len() implies cast_id_kind_of((#[trigger] l0[k])@) is Some by {
                    assert(cast_id_text(v@[k]) == l0[k]@);
                }
            }
            Ok(v)
        },
    }
}

pub open spec fn cast_id_kind(c: CastIdentifier) -> CastIdentifierKind {
    match c {
        CastIdentifier::Hash(_) => CastIdentifierKind::Hash,
        CastIdentifier::Url(_) => CastIdentifierKind::Url,
    }
}

impl Clone for CastIdentifier {
    fn clone(&self) -> (r: Self)
        ensures
            cast_id_text(r) == cast_id_text(*self),
            cast_id_kind(r) == cast_id_kind(*self),
    {
        match self {
            CastIdentifier::Hash(s) => CastIdentifier::Hash(s.clone()),
            CastIdentifier::Url(s) => CastIdentifier::Url(s.clone()),
        }
    }
}

/// Which opcode of the cast builder a request uses.
#[derive(Clone, Copy, Debug, PartialEq, Eq, Structural)]
pub enum CastRxOpcodeKey {
    Get,
    BulkFetch,
    Convo,
    Reactions,
    Send,
    PublishReaction,
    DeleteReaction,
    Delete,
}

/// The operation behind each opcode of the cast builder.
pub open spec fn cast_key_op(k: CastRxOpcodeKey) -> FarcasterOp {
    match k {
        CastRxOpcodeKey::Get => FarcasterOp::CastGet,
        CastRxOpcodeKey::BulkFetch => FarcasterOp::CastBulkFetch,
        CastRxOpcodeKey::Convo => FarcasterOp::CastConvo,
        CastRxOpcodeKey::Reactions => FarcasterOp::CastReactions,
        CastRxOpcodeKey::Send => FarcasterOp::CastSend,
        CastRxOpcodeKey::PublishReaction => FarcasterOp::CastReactionPublish,
        CastRxOpcodeKey::DeleteReaction => FarcasterOp::CastReactionDelete,
        CastRxOpcodeKey::Delete => FarcasterOp::CastDelete,
    }
}

/// The opcodes the cast builder yields.
pub struct CastRxOpcodes {
    pub get: String,
    pub bulk_fetch: String,
    pub convo: String,
    pub reactions: String,
    pub send: String,
    pub publish_reaction: String,
    pub delete_reaction: String,
    pub delete: String,
}

pub open spec fn cast_opcode_of(o: CastRxOpcodes, k: CastRxOpcodeKey) -> Seq<char> {
    match k {
        CastRxOpcodeKey::Get => o.get@,
        CastRxOpcodeKey::BulkFetch => o.bulk_fetch@,
        CastRxOpcodeKey::Convo => o.convo@,
        CastRxOpcodeKey::Reactions => o.reactions@,
        CastRxOpcodeKey::Send => o.send@,
        CastRxOpcodeKey::PublishReaction => o.publish_reaction@,
        CastRxOpcodeKey::DeleteReaction => o.delete_reaction@,
        CastRxOpcodeKey::Delete => o.delete@,
    }
}

impl CastRxOpcodes {
    /// The Farcaster plugin's opcodes for casts.
    pub fn new() -> (r: Self)
        ensures
            forall|k: CastRxOpcodeKey| cast_opcode_of(r, k) == plugin_opcode_text(
                PluginName::Farcaster,
                farcaster_op_text(#[trigger] cast_key_op(k)),
            ),
    {
        CastRxOpcodes {
            get: farcaster_opcode(FarcasterOp::CastGet),
            bulk_fetch: farcaster_opcode(FarcasterOp::CastBulkFetch),
            convo: farcaster_opcode(FarcasterOp::CastConvo),
            reactions: farcaster_opcode(FarcasterOp::CastReactions),
            send: farcaster_opcode(FarcasterOp::CastSend),
            publish_reaction: farcaster_opcode(FarcasterOp::CastReactionPublish),
            delete_reaction: farcaster_opcode(FarcasterOp::CastReactionDelete),
            delete: farcaster_opcode(FarcasterOp::CastDelete),
        }
    }

    /// The opcode for `key`.
    pub fn get(&self, key: CastRxOpcodeKey) -> (r: &str)
        ensures
            r@ == cast_opcode_of(*self, key),
    {
        match key {
            CastRxOpcodeKey::Get => self.get.as_str(),
            CastRxOpcodeKey::BulkFetch => self.bulk_fetch.as_str(),
            CastRxOpcodeKey::Convo => self.convo.as_str(),
            CastRxOpcodeKey::Reactions => self.reactions.as_str(),
            CastRxOpcodeKey::Send => self.send.as_str(),
            CastRxOpcodeKey::PublishReaction => self.publish_reaction.as_str(),
            CastRxOpcodeKey::DeleteReaction => self.delete_reaction.as_str(),
            CastRxOpcodeKey::Delete => self.delete.as_str(),
        }
    }
}

/// The kind of a reaction to a cast.
#[derive(Clone, Copy, Debug, PartialEq, Eq, Structural)]
pub enum ReactionKind {
    Like,
    Recast,
}

/// Which reactions a reactions query lists.
#[derive(Clone, Copy, Debug, PartialEq, Eq, Structural)]
pub enum ReactionFilter {
    All,
    Likes,
    Recasts,
}

/// The reaction methods of the cast builder.
#[derive(Clone, Copy, Debug, PartialEq, Eq, Structural)]
pub enum CastReaction {
    Like,
    Unlike,
    Recast,
    Unrecast,
}

/// The reaction queries of the cast builder.
#[derive(Clone, Copy, Debug, PartialEq, Eq, Structural)]
pub enum CastReactionsQuery {
    Reactions,
    Likes,
    Recasts,
}

/// The kind of reaction a reaction method writes.
pub open spec fn reaction_kind(reaction: CastReaction) -> ReactionKind {
    match reaction {
        CastReaction::Like | CastReaction::Unlike => ReactionKind::Like,
        CastReaction::Recast | CastReaction::Unrecast => ReactionKind::Recast,
    }
}

/// The opcode a reaction method uses: liking and recasting publish,
/// unliking and unrecasting delete.
pub open spec fn reaction_key(reaction: CastReaction) -> CastRxOpcodeKey {
    match reaction {
        CastReaction::Like | CastReaction::Recast => CastRxOpcodeKey::PublishReaction,
        CastReaction::Unlike | CastReaction::Unrecast => CastRxOpcodeKey::DeleteReaction,
    }
}

/// The reaction kind a reaction method writes and the opcode it uses.
pub fn reaction_request(reaction: CastReaction) -> (r: (ReactionKind, CastRxOpcodeKey))
    ensures
        r.0 == reaction_kind(reaction),
        r.1 == reaction_key(reaction),
{
    match reaction {
        CastReaction::Like => (ReactionKind::Like, CastRxOpcodeKey::PublishReaction),
        CastReaction::Unlike => (ReactionKind::Like, CastRxOpcodeKey::DeleteReaction),
        CastReaction::Recast => (ReactionKind::Recast, CastRxOpcodeKey::PublishReaction),
        CastReaction::Unrecast => (ReactionKind::Recast, CastRxOpcodeKey::DeleteReaction),
    }
}

/// The filter a reactions query asks the API for.
pub fn reactions_filter(query: CastReactionsQuery) -> (r: ReactionFilter)
    ensures
        r == (match query {
            CastReactionsQuery::Reactions => ReactionFilter::All,
            CastReactionsQuery::Likes => ReactionFilter::Likes,
            CastReactionsQuery::Recasts => ReactionFilter::Recasts,
        }),
{
    match query {
        CastReactionsQuery::Reactions => ReactionFilter::All,
        CastReactionsQuery::Likes => ReactionFilter::Likes,
        CastReactionsQuery::Recasts => ReactionFilter::Recasts,
    }
}

/// What a cast builder is made from.
pub struct CastRxParams {
    pub opcodes: CastRxOpcodes,
    pub ids: Vec<CastIdentifier>,
}

/// How `cast:get` fetches: several ids in one bulk request, or one id.
pub enum CastGetPlan {
    Bulk(Vec<String>),
    Single(CastIdentifierRaw),
}

/// A cast request being built by a script.
pub struct CastRx {
    pub opcodes: CastRxOpcodes,
    pub text: Option<String>,
    pub reply_hash: Option<String>,
    pub channel_id: Option<String>,
    pub ids: Vec<CastIdentifier>,
}

impl CastRx {
    /// A builder for the given casts, with no text, reply or channel.
    pub fn new(params: CastRxParams) -> (r: Self)
        ensures
            r.opcodes == params.opcodes,
            r.ids == params.ids,
            r.text is None && r.reply_hash is None && r.channel_id is None,
    {
        CastRx { opcodes: params.opcodes, text: None, reply_hash: None, channel_id: None, ids: params.ids }
    }

    pub fn with_text(self, text: String) -> (r: Self)
        ensures
            r == (CastRx { text: Some(text), ..self }),
    {
        CastRx { text: Some(text), ..self }
    }

    pub fn reply_to(self, hash: String) -> (r: Self)
        ensures
            r == (CastRx { reply_hash: Some(hash), ..self }),
    {
        CastRx { reply_hash: Some(hash), ..self }
    }

    pub fn channel(self, id: String) -> (r: Self)
        ensures
            r == (CastRx { channel_id: Some(id), ..self }),
    {
        CastRx { channel_id: Some(id), ..self }
    }

    /// The one cast id the request is about: refused when there is none or
    /// more than one.
    pub fn first_cast_id(&self) -> (r: Result<CastIdentifier, FarcasterError>)
        ensures
            self.ids@.len() == 0 ==> r matches Err(FarcasterError::CastIdMissing),
            self.ids@.len() > 1 ==> r matches Err(FarcasterError::TooManyCastIds),
            self.ids@.len() == 1 ==> (r matches Ok(c) && cast_id_text(c) == cast_id_text(self.ids@[0])
                && cast_id_kind(c) == cast_id_kind(self.ids@[0])),
    {
        if self.ids.len() == 0 {
            Err(FarcasterError::CastIdMissing)
        } else if self.ids.len() > 1 {
            Err(FarcasterError::TooManyCastIds)
        } else {
            Ok(self.ids[0].clone())
        }
    }

    /// How `cast:get` fetches: all ids in bulk when there are several, else
    /// the one id; refused with no id.
    pub fn get_plan(&self) -> (r: Result<CastGetPlan, FarcasterError>)
        ensures
            self.ids@.len() == 0 ==> r matches Err(FarcasterError::CastIdMissing),
            self.ids@.len() == 1 ==> (r matches Ok(CastGetPlan::Single(raw)) && raw.id@ == cast_id_text(
                self.ids@[0],
            ) && raw.kind == cast_id_kind(self.ids@[0])),
            self.ids@.len() > 1 ==> (r matches Ok(CastGetPlan::Bulk(v)) && v@.len() == self.ids@.len()
                && forall|i: int| 0 <= i < v@.len() ==> (#[trigger] v@[i])@ == cast_id_text(self.ids@[i])),
    {
        if self.ids.len() > 1 {
            let mut v: Vec<String> = Vec::new();
            let mut i: usize = 0;
            while i < self.ids.len()
                invariant
                    i <= self.ids@.len(),
                    v@.len() == i,
                    forall|j: int| 0 <= j < i ==> (#[trigger] v@[j])@ == cast_id_text(self.ids@[j]),
                decreases self.ids@.len() - i,
            {
                v.push(self.ids[i].as_str().to_owned());
                i = i + 1;
            }
            Ok(CastGetPlan::Bulk(v))
        } else if self.ids.len() == 1 {
            Ok(CastGetPlan::Single(self.ids[0].raw()))
        } else {
            Err(FarcasterError::CastIdMissing)
        }
    }

    /// The hash whose reactions are listed: the one cast id, which must be a
    /// hash.
    pub fn reactions_hash(&self) -> (r: Result<String, FarcasterError>)
        ensures
            self.ids@.len() == 0 ==> r matches Err(FarcasterError::CastIdMissing),
            self.ids@.len() > 1 ==> r matches Err(FarcasterError::TooManyCastIds),
            self.ids@.len() == 1 ==> match self.ids@[0] {
                CastIdentifier::Hash(h) => r matches Ok(t) && t@ == h@,
                CastIdentifier::Url(_) => r matches Err(FarcasterError::CastIdNotHash),
            },
    {
        let id = self.first_cast_id()?;
        match id {
            CastIdentifier::Hash(h) => Ok(h),
            CastIdentifier::Url(_) => Err(FarcasterError::CastIdNotHash),
        }
    }

    /// The target of a like or recast: the text of the one cast id.
    pub fn reaction_target(&self) -> (r: Result<String, FarcasterError>)
        ensures
            self.ids@.len() == 0 ==> r matches Err(FarcasterError::CastIdMissing),
            self.ids@.len() > 1 ==> r matches Err(FarcasterError::TooManyCastIds),
            self.ids@.len() == 1 ==> (r matches Ok(t) && t@ == cast_id_text(self.ids@[0])),
    {
        let id = self.first_cast_id()?;
        Ok(id.as_str().to_owned())
    }

    /// The text of a cast to send; refused when none was set.
    pub fn send_text(&self) -> (r: Result<String, FarcasterError>)
        ensures
            self.text is None ==> r matches Err(FarcasterError::EmptyCast),
            self.text matches Some(t) ==> (r matches Ok(u) && u@ == t@),
    {
        match &self.text {
            Some(t) => Ok(t.clone()),
            None => Err(FarcasterError::EmptyCast),
        }
    }

    /// The hash of the cast to delete: the one cast id, which must be a hash.
    pub fn delete_target(&self) -> (r: Result<String, FarcasterError>)
        ensures
            self.ids@.len() == 0 ==> r matches Err(FarcasterError::CastIdMissing),
            self.ids@.len() > 1 ==> r matches Err(FarcasterError::TooManyCastIds),
            self.ids@.len() == 1 ==> match self.ids@[0] {
                CastIdentifier::Hash(h) => r matches Ok(t) && t@ == h@,
                CastIdentifier::Url(_) => r matches Err(FarcasterError::CastIdNotHash),
            },
    {
        self.reactions_hash()
    }
}

/// What a script passed to `fc.user`.
pub enum UserArgument {
    Text(String),
    Integer(i64),
    List(Vec<u64>),
    Other,
}

/// The username and fids of `fc.user`'s argument: a username, one fid (an
/// integer taken as an unsigned fid), or a non-empty list of fids.
pub fn parse_user_argument(arg: UserArgument) -> (r: Result<(Option<String>, Vec<u64>), FarcasterError>)
    ensures
        arg matches UserArgument::Text(t) ==> (r matches Ok((Some(u), f)) && u@ == t@ && f@.len() == 0),
        arg matches UserArgument::Integer(x) ==> (r matches Ok((None, f)) && f@ == seq![x as u64]),
        arg matches UserArgument::List(l) ==> if l@.len() == 0 {
            r matches Err(FarcasterError::EmptyFids)
        } else {
            r matches Ok((None, f)) && f@ == l@
        },
        arg matches UserArgument::Other ==> r matches Err(FarcasterError::BadUserArgument),
{
    match arg {
        UserArgument::Text(t) => Ok((Some(t), Vec::new())),
        UserArgument::Integer(x) => {
            let mut f = Vec::new();
            f.push(x as u64);
            Ok((None, f))
        },
        UserArgument::List(l) => {
            if l.len() == 0 {
                Err(FarcasterError::EmptyFids)
            } else {
                Ok((None, l))
            }
        },
        UserArgument::Other => Err(FarcasterError::BadUserArgument),
    }
}

/// The opcodes the user builder yields.
pub struct UserRxOpcodes {
    pub get_by_username: String,
    pub get_by_fids: String,
    pub search_by_username: String,
    pub get_user_casts: String,
    pub follow_user: String,
    pub unfollow_user: String,
    pub get_notifications: String,
}

impl UserRxOpcodes {
    /// The Farcaster plugin's opcodes for users.
    pub fn new() -> (r: Self)
        ensures
            r.get_by_username@ == plugin_opcode_text(PluginName::Farcaster, farcaster_op_text(FarcasterOp::UserGetByUsername)),
            r.get_by_fids@ == plugin_opcode_text(PluginName::Farcaster, farcaster_op_text(FarcasterOp::UserGetByFids)),
            r.search_by_username@ == plugin_opcode_text(PluginName::Farcaster, farcaster_op_text(FarcasterOp::UserSearchByUsername)),
            r.get_user_casts@ == plugin_opcode_text(PluginName::Farcaster, farcaster_op_text(FarcasterOp::GetUserCasts)),
            r.follow_user@ == plugin_opcode_text(PluginName::Farcaster, farcaster_op_text(FarcasterOp::UserFollow)),
            r.unfollow_user@ == plugin_opcode_text(PluginName::Farcaster, farcaster_op_text(FarcasterOp::UserUnfollow)),
            r.get_notifications@ == plugin_opcode_text(PluginName::Farcaster, farcaster_op_text(FarcasterOp::UserNotifications)),
    {
        UserRxOpcodes {
            get_by_username: farcaster_opcode(FarcasterOp::UserGetByUsername),
            get_by_fids: farcaster_opcode(FarcasterOp::UserGetByFids),
            search_by_username: farcaster_opcode(FarcasterOp::UserSearchByUsername),
            get_user_casts: farcaster_opcode(FarcasterOp::GetUserCasts),
            follow_user: farcaster_opcode(FarcasterOp::UserFollow),
            unfollow_user: farcaster_opcode(FarcasterOp::UserUnfollow),
            get_notifications: farcaster_opcode(FarcasterOp::UserNotifications),
        }
    }
}

/// The opcodes the signer builder yields.
pub struct SignerRxOpcodes {
    pub request: String,
    pub get: String,
    pub refresh: String,
}

impl SignerRxOpcodes {
    /// The Farcaster plugin's opcodes for signers.
    pub fn new() -> (r: Self)
        ensures
            r.request@ == plugin_opcode_text(PluginName::Farcaster, farcaster_op_text(FarcasterOp::SignerRequest)),
            r.get@ == plugin_opcode_text(PluginName::Farcaster, farcaster_op_text(FarcasterOp::SignerGet)),
            r.refresh@ == plugin_opcode_text(PluginName::Farcaster, farcaster_op_text(FarcasterOp::SignerRefresh)),
    {
        SignerRxOpcodes {
            request: farcaster_opcode(FarcasterOp::SignerRequest),
            get: farcaster_opcode(FarcasterOp::SignerGet),
            refresh: farcaster_opcode(FarcasterOp::SignerRefresh),
        }
    }
}

/// The opcodes the feed builder yields.
pub struct FeedRxOpcodes {
    pub for_you: String,
    pub following: String,
}

impl FeedRxOpcodes {
    /// The Farcaster plugin's opcodes for feeds.
    pub fn new() -> (r: Self)
        ensures
            r.for_you@ == plugin_opcode_text(PluginName::Farcaster, farcaster_op_text(FarcasterOp::FeedForYou)),
            r.following@ == plugin_opcode_text(PluginName::Farcaster, farcaster_op_text(FarcasterOp::FeedFollowing)),
    {
        FeedRxOpcodes {
            for_you: farcaster_opcode(FarcasterOp::FeedForYou),
            following: farcaster_opcode(FarcasterOp::FeedFollowing),
        }
    }
}

/// How `user:get` looks users up.
pub enum UserGetPlan {
    ByUsername(String),
    ByFids(Vec<u64>),
}

/// A user request being built by a script.
pub struct UserRx {
    pub opcodes: UserRxOpcodes,
    pub username: Option<String>,
    pub fids: Vec<u64>,
}

/// What a user builder is made from.
pub struct UserRxParams {
    pub opcodes: UserRxOpcodes,
    pub username: Option<String>,
    pub fids: Vec<u64>,
}

impl UserRx {
    pub fn new(params: UserRxParams) -> (r: Self)
        ensures
            r.opcodes == params.opcodes,
            r.username == params.username,
            r.fids == params.fids,
    {
        UserRx { opcodes: params.opcodes, username: params.username, fids: params.fids }
    }

    /// By username when one was given, else by the fids.
    pub fn get_plan(&self) -> (r: UserGetPlan)
        ensures
            self.username matches Some(u) ==> (r matches UserGetPlan::ByUsername(t) && t@ == u@),
            self.username is None ==> (r matches UserGetPlan::ByFids(f) && f@ == self.fids@),
    {
        match &self.username {
            Some(u) => UserGetPlan::ByUsername(u.clone()),
            None => UserGetPlan::ByFids(self.fids.clone()),
        }
    }

    /// The username searched for; refused without one.
    pub fn search_username(&self) -> (r: Result<String, FarcasterError>)
        ensures
            self.username is None ==> r matches Err(FarcasterError::UsernameMissing),
            self.username matches Some(u) ==> (r matches Ok(t) && t@ == u@),
    {
        match &self.username {
            Some(u) => Ok(u.clone()),
            None => Err(FarcasterError::UsernameMissing),
        }
    }

    /// The one fid whose casts or notifications are listed.
    pub fn single_fid(&self) -> (r: Result<u64, FarcasterError>)
        ensures
            self.fids@.len() == 0 ==> r matches Err(FarcasterError::FidMissing),
            self.fids@.len() > 1 ==> r matches Err(FarcasterError::TooManyFids),
            self.fids@.len() == 1 ==> r == Ok::<u64, FarcasterError>(self.fids@[0]),
    {
        if self.fids.len() == 0 {
            Err(FarcasterError::FidMissing)
        } else if self.fids.len() > 1 {
            Err(FarcasterError::TooManyFids)
        } else {
            Ok(self.fids[0])
        }
    }

    /// The fids to follow or unfollow; refused when there are none.
    pub fn follow_targets(&self) -> (r: Result<Vec<u64>, FarcasterError>)
        ensures
            self.fids@.len() == 0 ==> r matches Err(FarcasterError::NoTargetFids),
            self.fids@.len() > 0 ==> (r matches Ok(f) && f@ == self.fids@),
    {
        if self.fids.len() == 0 {
            Err(FarcasterError::NoTargetFids)
        } else {
            Ok(self.fids.clone())
        }
    }
}

/// The state of a Farcaster signer.
#[derive(Clone, Copy, Debug, PartialEq, Eq, Structural)]
pub enum SignerStatus {
    Generated,
    PendingApproval,
    Approved,
    Revoked,
}

/// What a signer request does, given the status of the signer stored for
/// the app and player, if one is stored.
#[derive(Clone, Copy, Debug, PartialEq, Eq, Structural)]
pub enum SignerRequestAction {
    /// Hand back the stored signer.
    ReturnExisting,
    /// Register the stored, generated signer.
    RegisterExisting,
    /// Create a new signer, store it, then register it.
    CreateNew,
}

/// A pending or approved signer is handed back, a generated one is
/// registered, and a revoked or missing one is replaced by a new one.
pub fn signer_request_action(stored: Option<SignerStatus>) -> (r: SignerRequestAction)
    ensures
        r == (match stored {
            Some(SignerStatus::PendingApproval) | Some(SignerStatus::Approved) => SignerRequestAction::ReturnExisting,
            Some(SignerStatus::Generated) => SignerRequestAction::RegisterExisting,
            Some(SignerStatus::Revoked) | None => SignerRequestAction::CreateNew,
        }),
{
    match stored {
        Some(SignerStatus::PendingApproval) | Some(SignerStatus::Approved) => SignerRequestAction::ReturnExisting,
        Some(SignerStatus::Generated) => SignerRequestAction::RegisterExisting,
        Some(SignerStatus::Revoked) | None => SignerRequestAction::CreateNew,
    }
}

/// The signer operations of the Farcaster plugin.
#[derive(Clone, Copy, Debug, PartialEq, Eq, Structural)]
pub enum SignerFlow {
    /// Hand back a usable signer, creating and registering one as needed.
    Request,
    /// Hand back the stored signer, or nil.
    Get,
    /// Refresh the stored signer from the API, or give nil.
    Refresh,
}

/// Where a signer operation stands.
#[derive(Clone, Copy, Debug, PartialEq, Eq, Structural)]
pub enum SignerFlowState {
    Start,
    AwaitStored,
    AwaitCreated,
    AwaitGeneratedStored,
    AwaitRegistered,
    AwaitRegisteredStored,
    AwaitLookup,
    AwaitRefreshedStored,
    Done,
}

/// What the store or the API answered.
#[derive(Clone, Copy, Debug, PartialEq, Eq, Structural)]
pub enum SignerEvent {
    /// The operation begins.
    Begin,
    /// The stored signer was read: its status, or none when nothing is stored.
    StoredRead(Option<SignerStatus>),
    /// The API created a new signer.
    Created,
    /// The API registered the signer's key.
    Registered,
    /// The API gave the signer's current state.
    LookedUp,
    /// The store wrote the signer.
    Stored,
}

/// What the plugin does next.
#[derive(Clone, Copy, Debug, PartialEq, Eq, Structural)]
pub enum SignerAction {
    /// Read the signer stored for the app and player.
    ReadStored,
    /// Hand back the stored signer.
    ReturnStored,
    /// Hand back nil.
    ReturnNil,
    /// Ask the API for a new signer.
    CreateSigner,
    /// Store the new signer, still generated.
    StoreGenerated,
    /// Register the signer's key with the API.
    RegisterSigner,
    /// Store the registered signer.
    StoreRegistered,
    /// Hand back the registered signer.
    ReturnRegistered,
    /// Ask the API for the stored signer's current state.
    LookupSigner,
    /// Store the refreshed signer.
    StoreRefreshed,
    /// Hand back the refreshed signer.
    ReturnRefreshed,
}

/// Why a signer operation cannot go on.
#[derive(Debug)]
pub enum SignerFlowError {
    /// The event does not answer what the operation waits for.
    UnexpectedEvent,
}

/// One step of a signer operation: the state it moves to and the action to
/// take; `None` when the event does not answer what the state waits for.
pub open spec fn signer_step_spec(flow: SignerFlow, state: SignerFlowState, event: SignerEvent) -> Option<
    (SignerFlowState, SignerAction),
> {
    match (state, event) {
        (SignerFlowState::Start, SignerEvent::Begin) => Some((SignerFlowState::AwaitStored, SignerAction::ReadStored)),
        (SignerFlowState::AwaitStored, SignerEvent::StoredRead(stored)) => match flow {
            SignerFlow::Request => match stored {
                Some(SignerStatus::PendingApproval) | Some(SignerStatus::Approved) => Some(
                    (SignerFlowState::Done, SignerAction::ReturnStored),
                ),
                Some(SignerStatus::Generated) => Some((SignerFlowState::AwaitRegistered, SignerAction::RegisterSigner)),
                Some(SignerStatus::Revoked) | None => Some((SignerFlowState::AwaitCreated, SignerAction::CreateSigner)),
            },
            SignerFlow::Get => match stored {
                Some(_) => Some((SignerFlowState::Done, SignerAction::ReturnStored)),
                None => Some((SignerFlowState::Done, SignerAction::ReturnNil)),
            },
            SignerFlow::Refresh => match stored {
                Some(_) => Some((SignerFlowState::AwaitLookup, SignerAction::LookupSigner)),
                None => Some((SignerFlowState::Done, SignerAction::ReturnNil)),
            },
        },
        (SignerFlowState::AwaitCreated, SignerEvent::Created) => Some(
            (SignerFlowState::AwaitGeneratedStored, SignerAction::StoreGenerated),
        ),
        (SignerFlowState::AwaitGeneratedStored, SignerEvent::Stored) => Some(
            (SignerFlowState::AwaitRegistered, SignerAction::RegisterSigner),
        ),
        (SignerFlowState::AwaitRegistered, SignerEvent::Registered) => Some(
            (SignerFlowState::AwaitRegisteredStored, SignerAction::StoreRegistered),
        ),
        (SignerFlowState::AwaitRegisteredStored, SignerEvent::Stored) => Some(
            (SignerFlowState::Done, SignerAction::ReturnRegistered),
        ),
        (SignerFlowState::AwaitLookup, SignerEvent::LookedUp) => Some(
            (SignerFlowState::AwaitRefreshedStored, SignerAction::StoreRefreshed),
        ),
        (SignerFlowState::AwaitRefreshedStored, SignerEvent::Stored) => Some(
            (SignerFlowState::Done, SignerAction::ReturnRefreshed),
        ),
        _ => None,
    }
}

/// Takes one step of a signer operation.
pub fn signer_step(flow: SignerFlow, state: SignerFlowState, event: SignerEvent) -> (r: Result<
    (SignerFlowState, SignerAction),
    SignerFlowError,
>)
    ensures
        match signer_step_spec(flow, state, event) {
            Some(p) => r == Ok::<(SignerFlowState, SignerAction), SignerFlowError>(p),
            None => r matches Err(SignerFlowError::UnexpectedEvent),
        },
{
    match (state, event) {
        (SignerFlowState::Start, SignerEvent::Begin) => Ok((SignerFlowState::AwaitStored, SignerAction::ReadStored)),
        (SignerFlowState::AwaitStored, SignerEvent::StoredRead(stored)) => match flow {
            SignerFlow::Request => match signer_request_action(stored) {
                SignerRequestAction::ReturnExisting => Ok((SignerFlowState::Done, SignerAction::ReturnStored)),
                SignerRequestAction::RegisterExisting => Ok(
                    (SignerFlowState::AwaitRegistered, SignerAction::RegisterSigner),
                ),
                SignerRequestAction::CreateNew => Ok((SignerFlowState::AwaitCreated, SignerAction::CreateSigner)),
            },
            SignerFlow::Get => match stored {
                Some(_) => Ok((SignerFlowState::Done, SignerAction::ReturnStored)),
                None => Ok((SignerFlowState::Done, SignerAction::ReturnNil)),
            },
            SignerFlow::Refresh => match stored {
                Some(_) => Ok((SignerFlowState::AwaitLookup, SignerAction::LookupSigner)),
                None => Ok((SignerFlowState::Done, SignerAction::ReturnNil)),
            },
        },
        (SignerFlowState::AwaitCreated, SignerEvent::Created) => Ok(
            (SignerFlowState::AwaitGeneratedStored, SignerAction::StoreGenerated),
        ),
        (SignerFlowState::AwaitGeneratedStored, SignerEvent::Stored) => Ok(
            (SignerFlowState::AwaitRegistered, SignerAction::RegisterSigner),
        ),
        (SignerFlowState::AwaitRegistered, SignerEvent::Registered) => Ok(
            (SignerFlowState::AwaitRegisteredStored, SignerAction::StoreRegistered),
        ),
        (SignerFlowState::AwaitRegisteredStored, SignerEvent::Stored) => Ok(
            (SignerFlowState::Done, SignerAction::ReturnRegistered),
        ),
        (SignerFlowState::AwaitLookup, SignerEvent::LookedUp) => Ok(
            (SignerFlowState::AwaitRefreshedStored, SignerAction::StoreRefreshed),
        ),
        (SignerFlowState::AwaitRefreshedStored, SignerEvent::Stored) => Ok(
            (SignerFlowState::Done, SignerAction::ReturnRefreshed),
        ),
        _ => Err(SignerFlowError::UnexpectedEvent),
    }
}

/// The event that answers `action` when the stored signer has status
/// `stored`; none for the actions that end an operation.
pub open spec fn answer_to(action: SignerAction, stored: Option<SignerStatus>) -> Option<SignerEvent> {
    match action {
        SignerAction::ReadStored => Some(SignerEvent::StoredRead(stored)),
        SignerAction::CreateSigner => Some(SignerEvent::Created),
        SignerAction::RegisterSigner => Some(SignerEvent::Registered),
        SignerAction::LookupSigner => Some(SignerEvent::LookedUp),
        SignerAction::StoreGenerated | SignerAction::StoreRegistered | SignerAction::StoreRefreshed => Some(
            SignerEvent::Stored,
        ),
        _ => None,
    }
}

/// The actions an operation takes from `state` on `event` when every later
/// action is answered as it asks, for at most `fuel` steps.
pub open spec fn signer_run(
    flow: SignerFlow,
    state: SignerFlowState,
    event: SignerEvent,
    stored: Option<SignerStatus>,
    fuel: nat,
) -> Seq<SignerAction>
    decreases fuel,
{
    if fuel == 0 {
        Seq::empty()
    } else {
        match signer_step_spec(flow, state, event) {
            None => Seq::empty(),
            Some((next, action)) => seq![action] + match answer_to(action, stored) {
                None => Seq::empty(),
                Some(e) => signer_run(flow, next, e, stored, (fuel - 1) as nat),
            },
        }
    }
}

/// Each signer operation, answered as it asks, takes these actions and
/// ends: a request hands back a pending or approved signer as stored,
/// registers a generated one, and creates, stores and registers a new one
/// when none is stored or it was revoked; a get hands back the stored
/// signer or nil; a refresh looks the stored signer up and stores it, or
/// gives nil.
pub proof fn lemma_signer_flows(stored: Option<SignerStatus>)
    ensures
        signer_run(SignerFlow::Request, SignerFlowState::Start, SignerEvent::Begin, stored, 10) == match stored {
            Some(SignerStatus::PendingApproval) | Some(SignerStatus::Approved) => seq![
                SignerAction::ReadStored,
                SignerAction::ReturnStored,
            ],
            Some(SignerStatus::Generated) => seq![
                SignerAction::ReadStored,
                SignerAction::RegisterSigner,
                SignerAction::StoreRegistered,
                SignerAction::ReturnRegistered,
            ],
            Some(SignerStatus::Revoked) | None => seq![
                SignerAction::ReadStored,
                SignerAction::CreateSigner,
                SignerAction::StoreGenerated,
                SignerAction::RegisterSigner,
                SignerAction::StoreRegistered,
                SignerAction::ReturnRegistered,
            ],
        },
        signer_run(SignerFlow::Get, SignerFlowState::Start, SignerEvent::Begin, stored, 10) == match stored {
            Some(_) => seq![SignerAction::ReadStored, SignerAction::ReturnStored],
            None => seq![SignerAction::ReadStored, SignerAction::ReturnNil],
        },
        signer_run(SignerFlow::Refresh, SignerFlowState::Start, SignerEvent::Begin, stored, 10) == match stored {
            Some(_) => seq![
                SignerAction::ReadStored,
                SignerAction::LookupSigner,
                SignerAction::StoreRefreshed,
                SignerAction::ReturnRefreshed,
            ],
            None => seq![SignerAction::ReadStored, SignerAction::ReturnNil],
        },
{
    reveal_with_fuel(signer_run, 8);
    assert(signer_run(SignerFlow::Request, SignerFlowState::Start, SignerEvent::Begin, stored, 10) =~= match stored {
        Some(SignerStatus::PendingApproval) | Some(SignerStatus::Approved) => seq![
            SignerAction::ReadStored,
            SignerAction::ReturnStored,
        ],
        Some(SignerStatus::Generated) => seq![
            SignerAction::ReadStored,
            SignerAction::RegisterSigner,
            SignerAction::StoreRegistered,
            SignerAction::ReturnRegistered,
        ],
        Some(SignerStatus::Revoked) | None => seq![
            SignerAction::ReadStored,
            SignerAction::CreateSigner,
            SignerAction::StoreGenerated,
            SignerAction::RegisterSigner,
            SignerAction::StoreRegistered,
            SignerAction::ReturnRegistered,
        ],
    });
    assert(signer_run(SignerFlow::Get, SignerFlowState::Start, SignerEvent::Begin, stored, 10) =~= match stored {
        Some(_) => seq![SignerAction::ReadStored, SignerAction::ReturnStored],
        None => seq![SignerAction::ReadStored, SignerAction::ReturnNil],
    });
    assert(signer_run(SignerFlow::Refresh, SignerFlowState::Start, SignerEvent::Begin, stored, 10) =~= match stored {
        Some(_) => seq![
            SignerAction::ReadStored,
            SignerAction::LookupSigner,
            SignerAction::StoreRefreshed,
            SignerAction::ReturnRefreshed,
        ],
        None => seq![SignerAction::ReadStored, SignerAction::ReturnNil],
    });
}

/// What is stored of a signer for an app and a player: its status and the
/// id the API knows it by.
#[derive(Debug)]
pub struct StoredSigner {
    pub status: SignerStatus,
    pub signer_uuid: String,
}

/// A write on a player's behalf needs an approved signer: given the signer
/// stored for the app and player, if any, gives its uuid only when it is
/// approved.
pub fn require_approved_signer(app_fid: u64, player_fid: u64, stored: Option<StoredSigner>) -> (r: Result<
    String,
    FarcasterError,
>)
    ensures
        stored is None ==> (r matches Err(FarcasterError::SignerMissing { app_fid: a, player_fid: p })
            && a == app_fid && p == player_fid),
        stored is Some && stored->0.status == SignerStatus::Approved ==> (r matches Ok(u) && u@
            == stored->0.signer_uuid@),
        stored is Some && stored->0.status != SignerStatus::Approved ==> (r matches Err(
            FarcasterError::SignerNotApproved { app_fid: a, player_fid: p, status: t },
        ) && a == app_fid && p == player_fid && t == stored->0.status),
{
    match stored {
        None => Err(FarcasterError::SignerMissing { app_fid, player_fid }),
        Some(st) => {
            if st.status == SignerStatus::Approved {
                Ok(st.signer_uuid)
            } else {
                Err(FarcasterError::SignerNotApproved { app_fid, player_fid, status: st.status })
            }
        },
    }
}

/// The app and player fids a write is signed for: the app fid given with
/// the write, else the configured default; the player must have a fid.
pub fn resolve_write_fids(
    write_app_fid: Option<u64>,
    default_app_fid: Option<u64>,
    player_fid: Option<u64>,
) -> (r: Result<(u64, u64), FarcasterError>)
    ensures
        write_app_fid is None && default_app_fid is None ==> r matches Err(FarcasterError::AppFidMissing),
        (write_app_fid is Some || default_app_fid is Some) && player_fid is None ==> r matches Err(
            FarcasterError::PlayerFidMissing,
        ),
        r matches Ok((a, p)) ==> Some(a) == (if write_app_fid is Some {
            write_app_fid
        } else {
            default_app_fid
        }) && Some(p) == player_fid,
        (write_app_fid is Some || default_app_fid is Some) && player_fid is Some ==> r is Ok,
{
    let app_fid = match write_app_fid {
        Some(f) => f,
        None => match default_app_fid {
            Some(f) => f,
            None => return Err(FarcasterError::AppFidMissing),
        },
    };
    match player_fid {
        Some(p) => Ok((app_fid, p)),
        None => Err(FarcasterError::PlayerFidMissing),
    }
}

/// Options of a signer request.
#[derive(Debug)]
pub struct SignerRequestArgs {
    pub app_fid: Option<u64>,
    pub deadline: Option<u64>,
    pub redirect_url: Option<String>,
}

impl SignerRequestArgs {
    /// A request for app `fid`, with no deadline or redirect.
    pub fn new(fid: u64) -> (r: Self)
        ensures
            r.app_fid == Some(fid),
            r.deadline is None,
            r.redirect_url is None,
    {
        SignerRequestArgs { app_fid: Some(fid), deadline: None, redirect_url: None }
    }

    /// No options at all.
    pub fn default() -> (r: Self)
        ensures
            r.app_fid is None && r.deadline is None && r.redirect_url is None,
    {
        SignerRequestArgs { app_fid: None, deadline: None, redirect_url: None }
    }

    /// Fills in the app fid when none was given.
    pub fn with_default_app_fid(self, default_app_fid: u64) -> (r: Self)
        ensures
            r.app_fid == (if self.app_fid is Some {
                self.app_fid
            } else {
                Some(default_app_fid)
            }),
            r.deadline == self.deadline,
            r.redirect_url == self.redirect_url,
    {
        match self.app_fid {
            Some(_) => self,
            None => SignerRequestArgs { app_fid: Some(default_app_fid), ..self },
        }
    }
}

/// Options of a write on a player's behalf.
#[derive(Debug)]
pub struct WriteAsArgs {
    pub app_fid: Option<u64>,
}

impl WriteAsArgs {
    pub fn default() -> (r: Self)
        ensures
            r.app_fid is None,
    {
        WriteAsArgs { app_fid: None }
    }

    /// Fills in the app fid when none was given.
    pub fn with_default_app_fid(self, default_app_fid: u64) -> (r: Self)
        ensures
            r.app_fid == (if self.app_fid is Some {
                self.app_fid
            } else {
                Some(default_app_fid)
            }),
    {
        match self.app_fid {
            Some(_) => self,
            None => WriteAsArgs { app_fid: Some(default_app_fid) },
        }
    }
}

/// The options a signer method uses: those given (or none), with the
/// configured default app fid filled in; refused when no default app fid is
/// configured, whatever was given.
pub fn signer_args_or_default(args: Option<SignerRequestArgs>, default_app_fid: Option<u64>) -> (r:
    Result<SignerRequestArgs, FarcasterError>)
    ensures
        default_app_fid is None ==> r matches Err(FarcasterError::AppFidMissing),
        default_app_fid matches Some(d) ==> (r matches Ok(a) && match args {
            Some(g) => a.app_fid == (if g.app_fid is Some {
                g.app_fid
            } else {
                Some(d)
            }) && a.deadline == g.deadline && a.redirect_url == g.redirect_url,
            None => a.app_fid == Some(d) && a.deadline is None && a.redirect_url is None,
        }),
{
    let args = match args {
        Some(a) => a,
        None => SignerRequestArgs::default(),
    };
    match default_app_fid {
        Some(d) => Ok(args.with_default_app_fid(d)),
        None => Err(FarcasterError::AppFidMissing),
    }
}

/// The write options a signer method uses, as `signer_args_or_default`.
pub fn write_args_or_default(args: Option<WriteAsArgs>, default_app_fid: Option<u64>) -> (r: Result<
    WriteAsArgs,
    FarcasterError,
>)
    ensures
        default_app_fid is None ==> r matches Err(FarcasterError::AppFidMissing),
        default_app_fid matches Some(d) ==> (r matches Ok(a) && a.app_fid == match args {
            Some(g) => if g.app_fid is Some {
                g.app_fid
            } else {
                Some(d)
            },
            None => Some(d),
        }),
{
    let args = match args {
        Some(a) => a,
        None => WriteAsArgs::default(),
    };
    match default_app_fid {
        Some(d) => Ok(args.with_default_app_fid(d)),
        None => Err(FarcasterError::AppFidMissing),
    }
}

/// The app fid a write names: the one given, or none when no options were
/// passed.
pub open spec fn given_app_fid(write_args: Option<WriteAsArgs>) -> Option<u64> {
    match write_args {
        Some(w) => w.app_fid,
        None => None,
    }
}

/// The options passed, or the empty options when none were.
fn write_args_given(write_args: Option<WriteAsArgs>) -> (r: WriteAsArgs)
    ensures
        r.app_fid == given_app_fid(write_args),
{
    match write_args {
        Some(w) => w,
        None => WriteAsArgs::default(),
    }
}

/// A write that a scene asks the Farcaster plugin to make as player `pid`.
#[derive(Debug)]
pub struct WriteAsOp<P> {
    pub pid: u64,
    pub write_args: WriteAsArgs,
    pub params: P,
}

/// A cast to publish.
#[derive(Debug)]
pub struct SendCastOpParams {
    pub text: String,
    pub parent: Option<String>,
    pub channel_id: Option<String>,
}

/// A reaction to publish or delete.
#[derive(Debug)]
pub struct PublishReactionOpParams {
    pub reaction_type: ReactionKind,
    pub target: String,
}

/// A cast to delete.
#[derive(Debug)]
pub struct DeleteCastOpParams {
    pub target_hash: String,
}

/// The users to follow or unfollow.
#[derive(Debug)]
pub struct FollowUserOpParams {
    pub target_fids: Vec<u64>,
}

fn clone_text_option(o: &Option<String>) -> (r: Option<String>)
    ensures
        r == *o,
{
    match o {
        Some(t) => Some(t.clone()),
        None => None,
    }
}

impl CastRx {
    /// What `send_as` asks for: the builder's text, replying to the hash and
    /// in the channel that were set, written as `pid` with the options given;
    /// refused when no text was set.
    pub fn send_payload(&self, pid: u64, write_args: Option<WriteAsArgs>) -> (r: Result<
        WriteAsOp<SendCastOpParams>,
        FarcasterError,
    >)
        ensures
            self.text is None ==> r matches Err(FarcasterError::EmptyCast),
            self.text matches Some(t) ==> (r matches Ok(op) && op.pid == pid
                && op.write_args.app_fid == given_app_fid(write_args) && op.params.text@ == t@
                && op.params.parent == self.reply_hash && op.params.channel_id == self.channel_id),
    {
        let text = self.send_text()?;
        Ok(
            WriteAsOp {
                pid,
                write_args: write_args_given(write_args),
                params: SendCastOpParams {
                    text,
                    parent: clone_text_option(&self.reply_hash),
                    channel_id: clone_text_option(&self.channel_id),
                },
            },
        )
    }

    /// What a reaction method asks for, with the opcode it uses: the
    /// reaction's kind on the text of the one cast id, written as `pid` with
    /// the options given; refused as `reaction_target` refuses.
    pub fn reaction_payload(&self, reaction: CastReaction, pid: u64, write_args: Option<WriteAsArgs>) -> (r:
        Result<(CastRxOpcodeKey, WriteAsOp<PublishReactionOpParams>), FarcasterError>)
        ensures
            self.ids@.len() == 0 ==> r matches Err(FarcasterError::CastIdMissing),
            self.ids@.len() > 1 ==> r matches Err(FarcasterError::TooManyCastIds),
            self.ids@.len() == 1 ==> (r matches Ok((key, op)) && key == reaction_key(reaction)
                && op.pid == pid && op.write_args.app_fid == given_app_fid(write_args)
                && op.params.reaction_type == reaction_kind(reaction) && op.params.target@
                == cast_id_text(self.ids@[0])),
    {
        let (kind, key) = reaction_request(reaction);
        let target = self.reaction_target()?;
        Ok(
            (
                key,
                WriteAsOp {
                    pid,
                    write_args: write_args_given(write_args),
                    params: PublishReactionOpParams { reaction_type: kind, target },
                },
            ),
        )
    }

    /// What `delete_as` asks for: the hash of the one cast id, written as
    /// `pid` with the options given; refused as `delete_target` refuses.
    pub fn delete_payload(&self, pid: u64, write_args: Option<WriteAsArgs>) -> (r: Result<
        WriteAsOp<DeleteCastOpParams>,
        FarcasterError,
    >)
        ensures
            self.ids@.len() == 0 ==> r matches Err(FarcasterError::CastIdMissing),
            self.ids@.len() > 1 ==> r matches Err(FarcasterError::TooManyCastIds),
            self.ids@.len() == 1 ==> match self.ids@[0] {
                CastIdentifier::Hash(h) => r matches Ok(op) && op.pid == pid
                    && op.write_args.app_fid == given_app_fid(write_args)
                    && op.params.target_hash@ == h@,
                CastIdentifier::Url(_) => r matches Err(FarcasterError::CastIdNotHash),
            },
    {
        let target_hash = self.delete_target()?;
        Ok(
            WriteAsOp {
                pid,
                write_args: write_args_given(write_args),
                params: DeleteCastOpParams { target_hash },
            },
        )
    }
}

impl UserRx {
    /// What `follow_as` and `unfollow_as` ask for: all the builder's fids,
    /// written as `pid` with the options given; refused when there are none.
    pub fn follow_payload(&self, pid: u64, write_args: Option<WriteAsArgs>) -> (r: Result<
        WriteAsOp<FollowUserOpParams>,
        FarcasterError,
    >)
        ensures
            self.fids@.len() == 0 ==> r matches Err(FarcasterError::NoTargetFids),
            self.fids@.len() > 0 ==> (r matches Ok(op) && op.pid == pid
                && op.write_args.app_fid == given_app_fid(write_args)
                && op.params.target_fids@ == self.fids@),
    {
        let target_fids = self.follow_targets()?;
        Ok(
            WriteAsOp {
                pid,
                write_args: write_args_given(write_args),
                params: FollowUserOpParams { target_fids },
            },
        )
    }
}

} // verus!
