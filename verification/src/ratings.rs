//! Per-chat karma ratings: replies adjust a member's score, and a chat's scores can be listed
//! from highest to lowest.

use std::collections::HashMap;
use vstd::prelude::*;
use vstd::std_specs::iter::IteratorSpec;
use crate::sort::{Keyed, sort_by_key};
use crate::text::{
    chars_of, equal_ignoring_ascii_case, equals_ignoring_ascii_case, equals_text, trim_chars, trimmed,
};

verus! {

broadcast use vstd::std_specs::hash::group_hash_axioms;

/// Scores by chat, then by member. A member who was rated keeps an entry, even at zero.
#[derive(Debug)]
pub struct Database {
    ratings: HashMap<i64, HashMap<i64, i64>>,
}

/// What a rating reply did.
#[derive(Clone, Copy, Debug, PartialEq, Eq, Structural)]
pub enum RatingOutcome {
    /// The sender or the replied-to author is not an individual user.
    Ignored,
    /// Somebody replied to their own message; nothing changed.
    OwnRating,
    /// The author's score changed to `score`.
    Adjusted { target: i64, score: i64 },
}

/// At most this many members are listed on a chat's leaderboard.
pub const LEADERBOARD_SIZE: usize = 20;

/// A `(member, score)` pair is listed by descending score.
impl Keyed for (i64, i64) {
    open spec fn key_spec(&self) -> int {
        -(self.1 as int)
    }

    fn key(&self) -> (k: i128) {
        -(self.1 as i128)
    }
}

impl Database {
    /// The stored scores of one chat; empty when nobody there was rated.
    pub closed spec fn chat_scores(self, chat_id: i64) -> Map<i64, i64> {
        if self.ratings@.contains_key(chat_id) {
            self.ratings@[chat_id]@
        } else {
            Map::empty()
        }
    }

    /// Whether anybody in the chat was ever rated.
    pub closed spec fn has_chat(self, chat_id: i64) -> bool {
        self.ratings@.contains_key(chat_id)
    }

    /// A member's score: zero when never rated.
    pub open spec fn rating_spec(self, chat_id: i64, user_id: i64) -> i64 {
        if self.chat_scores(chat_id).contains_key(user_id) {
            self.chat_scores(chat_id)[user_id]
        } else {
            0
        }
    }

    /// An empty database.
    pub fn new() -> (db: Database)
        ensures
            forall|chat_id: i64| !(#[trigger] db.has_chat(chat_id)),
            forall|chat_id: i64| #[trigger] db.chat_scores(chat_id) == Map::<i64, i64>::empty(),
    {
        Database { ratings: HashMap::new() }
    }

    /// Adds `delta` to a member's score in a chat and returns the new score.
    pub fn adjust_rating(&mut self, chat_id: i64, user_id: i64, delta: i64) -> (score: i64)
        requires
            i64::MIN <= old(self).rating_spec(chat_id, user_id) + delta <= i64::MAX,
        ensures
            score == old(self).rating_spec(chat_id, user_id) + delta,
            final(self).rating_spec(chat_id, user_id) == score,
            forall|other_user: i64|
                other_user != user_id ==> #[trigger] final(self).rating_spec(chat_id, other_user)
                    == old(self).rating_spec(chat_id, other_user),
            final(self).has_chat(chat_id),
            final(self).chat_scores(chat_id) == old(self).chat_scores(chat_id).insert(user_id, score),
            forall|other: i64|
                other != chat_id ==> (#[trigger] final(self).chat_scores(other)) == old(
                    self,
                ).chat_scores(other) && final(self).has_chat(other) == old(self).has_chat(other),
    {
        let mut chat = match self.ratings.remove(&chat_id) {
            Some(m) => m,
            None => HashMap::new(),
        };
        let current = match chat.get(&user_id) {
            Some(v) => *v,
            None => 0,
        };
        let score = current + delta;
        chat.insert(user_id, score);
        self.ratings.insert(chat_id, chat);
        score
    }

    /// Handles a rating reply: only replies between two different individual users count, and
    /// nobody changes their own rating.
    pub fn rate_reply(&mut self, chat_id: i64, sender: Option<i64>, author: Option<i64>, delta: i64) -> (outcome:
        RatingOutcome)
        requires
            sender matches Some(from) && author matches Some(to) && from != to ==> i64::MIN <= old(
                self,
            ).rating_spec(chat_id, author->0) + delta <= i64::MAX,
        ensures
            match (sender, author) {
                (Some(from), Some(to)) => if from == to {
                    outcome == RatingOutcome::OwnRating && final(self).chat_scores(chat_id) == old(
                        self,
                    ).chat_scores(chat_id)
                } else {
                    outcome == RatingOutcome::Adjusted {
                        target: to,
                        score: (old(self).rating_spec(chat_id, to) + delta) as i64,
                    } && final(self).chat_scores(chat_id) == old(self).chat_scores(chat_id).insert(
                        to,
                        (old(self).rating_spec(chat_id, to) + delta) as i64,
                    )
                },
                _ => outcome == RatingOutcome::Ignored && final(self).chat_scores(chat_id) == old(
                    self,
                ).chat_scores(chat_id),
            },
            forall|other: i64|
                other != chat_id ==> (#[trigger] final(self).chat_scores(other)) == old(
                    self,
                ).chat_scores(other),
    {
        let from = match sender {
            Some(id) => id,
            None => return RatingOutcome::Ignored,
        };
        let to = match author {
            Some(id) => id,
            None => return RatingOutcome::Ignored,
        };
        if from == to {
            return RatingOutcome::OwnRating;
        }
        let score = self.adjust_rating(chat_id, to, delta);
        RatingOutcome::Adjusted { target: to, score }
    }

    /// A member's score in a chat; zero when never rated.
    pub fn get_rating(&self, chat_id: i64, user_id: i64) -> (score: i64)
        ensures
            score == self.rating_spec(chat_id, user_id),
    {
        match self.ratings.get(&chat_id) {
            Some(chat) => match chat.get(&user_id) {
                Some(v) => *v,
                None => 0,
            },
            None => 0,
        }
    }

    /// Every rated member of a chat with its score, highest score first; members with equal
    /// scores come in no particular order.
    pub fn top_ratings(&self, chat_id: i64) -> (scores: Vec<(i64, i64)>)
        ensures
            scores@.len() == self.chat_scores(chat_id).len(),
            forall|i: int|
                0 <= i < scores@.len() ==> self.chat_scores(chat_id).contains_key(
                    (#[trigger] scores@[i]).0,
                ) && self.chat_scores(chat_id)[scores@[i].0] == scores@[i].1,
            forall|user_id: i64|
                #[trigger] self.chat_scores(chat_id).contains_key(user_id) ==> exists|i: int|
                    0 <= i < scores@.len() && scores@[i].0 == user_id,
            forall|i: int, j: int| 0 <= i < j < scores@.len() ==> scores@[i].1 >= scores@[j].1,
    {
        let chat = match self.ratings.get(&chat_id) {
            Some(chat) => chat,
            None => {
                assert(self.chat_scores(chat_id) =~= Map::<i64, i64>::empty());
                return Vec::new();
            },
        };
        let ghost entries = vstd::std_specs::hash::spec_hash_map_iter(chat).remaining();
        let mut scores: Vec<(i64, i64)> = Vec::new();
        for pair in it: chat.iter()
            invariant
                scores@.len() == it.index(),
                it.seq() == entries,
                forall|j: int|
                    0 <= j < it.index() ==> #[trigger] scores@[j] == (*entries[j].0, *entries[j].1),
        {
            scores.push((*pair.0, *pair.1));
        }
        assert(scores@.len() == entries.len());
        assert(entries.len() == chat@.dom().len());
        assert(self.chat_scores(chat_id) == chat@);
        assert forall|j: int| 0 <= j < scores@.len() implies chat@.contains_key(
            (#[trigger] scores@[j]).0,
        ) && chat@[scores@[j].0] == scores@[j].1 by {
            assert(chat@.contains_key(*entries[j].0));
        }
        assert forall|user_id: i64| #[trigger] chat@.contains_key(user_id) implies exists|j: int|
            0 <= j < scores@.len() && scores@[j].0 == user_id by {
            assert(entries.contains((&user_id, &chat@[user_id])));
            let k = choose|k: int| 0 <= k < entries.len() && entries[k] == (&user_id, &chat@[user_id]);
            assert(scores@[k].0 == user_id);
        }
        let ghost unsorted = scores@;
        let sorted = sort_by_key(scores);
        proof {
            broadcast use vstd::seq_lib::to_multiset_contains;
            assert forall|i: int| 0 <= i < sorted@.len() implies chat@.contains_key(
                (#[trigger] sorted@[i]).0,
            ) && chat@[sorted@[i].0] == sorted@[i].1 by {
                assert(sorted@.contains(sorted@[i]));
                assert(sorted@.to_multiset().count(sorted@[i]) > 0);
                assert(unsorted.to_multiset().count(sorted@[i]) > 0);
                let j = choose|j: int| 0 <= j < unsorted.len() && unsorted[j] == sorted@[i];
                assert(chat@.contains_key(unsorted[j].0));
            }
            assert forall|user_id: i64| #[trigger] chat@.contains_key(user_id) implies exists|i: int|
                0 <= i < sorted@.len() && sorted@[i].0 == user_id by {
                let j = choose|j: int| 0 <= j < unsorted.len() && unsorted[j].0 == user_id;
                assert(unsorted.contains(unsorted[j]));
                assert(unsorted.to_multiset().count(unsorted[j]) > 0);
                assert(sorted@.to_multiset().count(unsorted[j]) > 0);
                let i = choose|i: int| 0 <= i < sorted@.len() && sorted@[i] == unsorted[j];
                assert(sorted@[i].0 == user_id);
            }
            assert forall|i: int, j: int| 0 <= i < j < sorted@.len() implies sorted@[i].1 >= sorted@[j].1 by {
                assert(sorted@[i].key_spec() <= sorted@[j].key_spec());
            }
        }
        sorted
    }

    /// The chat's leaderboard: its best-rated members, at most `LEADERBOARD_SIZE` of them,
    /// highest score first. A member left off has a full board above them, none scoring less.
    pub fn leaderboard(&self, chat_id: i64) -> (rows: Vec<(i64, i64)>)
        ensures
            rows@.len() == if self.chat_scores(chat_id).len() < LEADERBOARD_SIZE {
                self.chat_scores(chat_id).len()
            } else {
                LEADERBOARD_SIZE as nat
            },
            forall|i: int|
                0 <= i < rows@.len() ==> self.chat_scores(chat_id).contains_key(
                    (#[trigger] rows@[i]).0,
                ) && self.chat_scores(chat_id)[rows@[i].0] == rows@[i].1,
            forall|i: int, j: int| 0 <= i < j < rows@.len() ==> rows@[i].1 >= rows@[j].1,
            forall|user_id: i64|
                #[trigger] self.chat_scores(chat_id).contains_key(user_id) && !(exists|i: int|
                    0 <= i < rows@.len() && rows@[i].0 == user_id) ==> rows@.len()
                    == LEADERBOARD_SIZE && self.chat_scores(chat_id)[user_id] <= rows@[rows@.len()
                    - 1].1,
    {
        let all = self.top_ratings(chat_id);
        let count = if all.len() < LEADERBOARD_SIZE {
            all.len()
        } else {
            LEADERBOARD_SIZE
        };
        let mut rows: Vec<(i64, i64)> = Vec::new();
        let mut i: usize = 0;
        while i < count
            invariant
                count <= all@.len(),
                i <= count,
                rows@ == all@.subrange(0, i as int),
            decreases count - i,
        {
            rows.push(all[i]);
            i = i + 1;
            assert(rows@ =~= all@.subrange(0, i as int));
        }
        proof {
            assert forall|user_id: i64|
                #[trigger] self.chat_scores(chat_id).contains_key(user_id) && !(exists|i: int|
                    0 <= i < rows@.len() && rows@[i].0 == user_id) implies rows@.len()
                == LEADERBOARD_SIZE && self.chat_scores(chat_id)[user_id] <= rows@[rows@.len()
                - 1].1 by {
                let j = choose|j: int| 0 <= j < all@.len() && all@[j].0 == user_id;
                if j < rows@.len() {
                    assert(rows@[j].0 == user_id);
                }
                assert(all@[count - 1].1 >= all@[j].1);
            }
        }
        rows
    }
}

/// Replies that add a point.
pub open spec fn is_upvote(t: Seq<char>) -> bool {
    ||| t == "+"@
    ||| t == "+1"@
    ||| t == "\u{1F44D}"@
    ||| t == "\u{1F44D}\u{1F3FB}"@
    ||| t == "\u{1F44D}\u{1F3FC}"@
    ||| t == "\u{1F44D}\u{1F3FD}"@
    ||| t == "\u{1F44D}\u{1F3FE}"@
    ||| t == "\u{1F44D}\u{1F3FF}"@
}

/// Replies that take a point away.
pub open spec fn is_downvote(t: Seq<char>) -> bool {
    ||| t == "-"@
    ||| t == "-1"@
    ||| t == "\u{1F44E}"@
    ||| t == "\u{1F44E}\u{1F3FB}"@
    ||| t == "\u{1F44E}\u{1F3FC}"@
    ||| t == "\u{1F44E}\u{1F3FD}"@
    ||| t == "\u{1F44E}\u{1F3FE}"@
    ||| t == "\u{1F44E}\u{1F3FF}"@
}

/// Thanks, in any ASCII case, that add a point.
pub open spec fn is_thanks(w: Seq<char>) -> bool {
    ||| equal_ignoring_ascii_case(w, "thanks"@)
    ||| equal_ignoring_ascii_case(w, "ty"@)
    ||| equal_ignoring_ascii_case(w, "thank you"@)
    ||| equal_ignoring_ascii_case(w, "tysm"@)
    ||| equal_ignoring_ascii_case(w, "thx"@)
}

/// The rating change a reply asks for, if any: the reply is trimmed of whitespace, and thanks
/// are also trimmed of anything not alphanumeric.
pub open spec fn rating_delta_spec(text: Seq<char>) -> Option<i64> {
    let t = trimmed(text, false);
    if is_upvote(t) {
        Some(1i64)
    } else if is_downvote(t) {
        Some(-1i64)
    } else if is_thanks(trimmed(t, true)) {
        Some(1i64)
    } else {
        None
    }
}

/// The rating change a chat reply asks for: `+1` for `+`, `+1` and thumbs up (any skin tone),
/// `-1` for `-`, `-1` and thumbs down, `+1` for thanks; `None` otherwise.
pub fn parse_rating_delta(text: &str) -> (delta: Option<i64>)
    ensures
        delta == rating_delta_spec(text@),
{
    let chars = chars_of(text);
    let t = trim_chars(&chars, false);
    if equals_text(&t, "+") || equals_text(&t, "+1") || equals_text(&t, "\u{1F44D}") || equals_text(
        &t,
        "\u{1F44D}\u{1F3FB}",
    ) || equals_text(&t, "\u{1F44D}\u{1F3FC}") || equals_text(&t, "\u{1F44D}\u{1F3FD}")
        || equals_text(&t, "\u{1F44D}\u{1F3FE}") || equals_text(&t, "\u{1F44D}\u{1F3FF}") {
        return Some(1);
    }
    if equals_text(&t, "-") || equals_text(&t, "-1") || equals_text(&t, "\u{1F44E}") || equals_text(
        &t,
        "\u{1F44E}\u{1F3FB}",
    ) || equals_text(&t, "\u{1F44E}\u{1F3FC}") || equals_text(&t, "\u{1F44E}\u{1F3FD}")
        || equals_text(&t, "\u{1F44E}\u{1F3FE}") || equals_text(&t, "\u{1F44E}\u{1F3FF}") {
        return Some(-1);
    }
    let w = trim_chars(&t, true);
    if equals_ignoring_ascii_case(&w, "thanks") || equals_ignoring_ascii_case(&w, "ty")
        || equals_ignoring_ascii_case(&w, "thank you") || equals_ignoring_ascii_case(&w, "tysm")
        || equals_ignoring_ascii_case(&w, "thx") {
        Some(1)
    } else {
        None
    }
}

impl Default for Database {
    fn default() -> (db: Database)
        ensures
            forall|chat_id: i64| !(#[trigger] db.has_chat(chat_id)),
            forall|chat_id: i64| #[trigger] db.chat_scores(chat_id) == Map::<i64, i64>::empty(),
    {
        Database::new()
    }
}

} // verus!
