//! The interaction ledger: a bounded conversation history, one record per
//! user the agent has dealt with, and the resumption cursor of the polling
//! loop. It lives in memory for the lifetime of the process.

use crate::clock::utc_now;
use crate::clock::Timestamp;
use std::collections::VecDeque;
use vstd::hash_map::StringHashMap;
use vstd::prelude::*;

verus! {

/// The number of conversation entries that the ledger keeps.
pub const MAX_CONVERSATIONS: usize = 100;

/// One processed mention.
#[derive(Clone, Debug)]
pub struct ConversationEntry {
    pub tweet_id: String,
    pub user_id: String,
    pub content: String,
    pub timestamp: Timestamp,
}

/// A `ConversationEntry` as a mathematical value.
pub struct ConversationEntryView {
    pub tweet_id: Seq<char>,
    pub user_id: Seq<char>,
    pub content: Seq<char>,
    pub timestamp: Timestamp,
}

impl View for ConversationEntry {
    type V = ConversationEntryView;

    open spec fn view(&self) -> ConversationEntryView {
        ConversationEntryView {
            tweet_id: self.tweet_id@,
            user_id: self.user_id@,
            content: self.content@,
            timestamp: self.timestamp,
        }
    }
}

/// One tip sent to a user. The amount is carried as the bit pattern of the
/// 64-bit float that states it, so that the ledger hands back exactly what it
/// was given.
#[derive(Clone, Debug)]
pub struct TipTransaction {
    pub timestamp: Timestamp,
    pub amount_bits: u64,
    pub transaction_hash: String,
}

/// A `TipTransaction` as a mathematical value.
pub struct TipTransactionView {
    pub timestamp: Timestamp,
    pub amount_bits: u64,
    pub transaction_hash: Seq<char>,
}

impl View for TipTransaction {
    type V = TipTransactionView;

    open spec fn view(&self) -> TipTransactionView {
        TipTransactionView {
            timestamp: self.timestamp,
            amount_bits: self.amount_bits,
            transaction_hash: self.transaction_hash@,
        }
    }
}

/// What the ledger knows of one user.
#[derive(Clone, Debug)]
pub struct UserInteraction {
    pub last_interaction: Timestamp,
    pub interaction_count: u32,
    pub tip_history: Vec<TipTransaction>,
}

/// A `UserInteraction` as a mathematical value.
pub struct UserInteractionView {
    pub last_interaction: Timestamp,
    pub interaction_count: nat,
    pub tip_history: Seq<TipTransactionView>,
}

impl View for UserInteraction {
    type V = UserInteractionView;

    open spec fn view(&self) -> UserInteractionView {
        UserInteractionView {
            last_interaction: self.last_interaction,
            interaction_count: self.interaction_count as nat,
            tip_history: self.tip_history@.map_values(|t: TipTransaction| t@),
        }
    }
}

/// The last `n` items of `s`, oldest first; all of `s` where it has no more
/// than `n`.
pub open spec fn keep_last<T>(s: Seq<T>, n: nat) -> Seq<T> {
    if s.len() <= n {
        s
    } else {
        s.subrange(s.len() - n, s.len() as int)
    }
}

/// The ledger as a mathematical value.
pub struct LedgerView {
    pub last_checked_mention_id: Option<Seq<char>>,
    pub conversation_history: Seq<ConversationEntryView>,
    pub user_interactions: Map<Seq<char>, UserInteractionView>,
}

impl LedgerView {
    /// The ledger of a process that has just started.
    pub open spec fn empty() -> LedgerView {
        LedgerView {
            last_checked_mention_id: None,
            conversation_history: Seq::empty(),
            user_interactions: Map::empty(),
        }
    }

    /// The ledger after `entry` has been appended: the newest
    /// `MAX_CONVERSATIONS` entries stay, oldest first.
    pub open spec fn with_conversation(self, entry: ConversationEntryView) -> LedgerView {
        LedgerView {
            conversation_history: keep_last(
                self.conversation_history.push(entry),
                MAX_CONVERSATIONS as nat,
            ),
            ..self
        }
    }

    /// The ledger after each of `entries` has been appended in turn.
    pub open spec fn with_conversations(self, entries: Seq<ConversationEntryView>) -> LedgerView
        decreases entries.len(),
    {
        if entries.len() == 0 {
            self
        } else {
            self.with_conversations(entries.drop_last()).with_conversation(entries.last())
        }
    }

    /// What is known of `user_id` before an interaction at `now` is counted:
    /// the stored record, or for a user not yet known a record without
    /// interactions or tips.
    pub open spec fn record_or_new(self, user_id: Seq<char>, now: Timestamp)
        -> UserInteractionView {
        if self.user_interactions.contains_key(user_id) {
            self.user_interactions[user_id]
        } else {
            UserInteractionView {
                last_interaction: now,
                interaction_count: 0,
                tip_history: Seq::empty(),
            }
        }
    }

    /// The ledger after one interaction with `user_id` at `now`: the user's
    /// record, made where there was none, counts one more interaction and
    /// names `now` as the last.
    pub open spec fn with_interaction(self, user_id: Seq<char>, now: Timestamp) -> LedgerView {
        LedgerView {
            user_interactions: self.user_interactions.insert(
                user_id,
                UserInteractionView {
                    last_interaction: now,
                    interaction_count: self.record_or_new(user_id, now).interaction_count + 1,
                    tip_history: self.record_or_new(user_id, now).tip_history,
                },
            ),
            ..self
        }
    }

    /// The ledger after interactions with `user_id` at each of `times`, in
    /// that order.
    pub open spec fn with_interactions(self, user_id: Seq<char>, times: Seq<Timestamp>)
        -> LedgerView
        decreases times.len(),
    {
        if times.len() == 0 {
            self
        } else {
            self.with_interactions(user_id, times.drop_last()).with_interaction(
                user_id,
                times.last(),
            )
        }
    }

    /// The ledger after `tip` has been recorded for `user_id`: appended to
    /// the history of a known user, dropped for an unknown one.
    pub open spec fn with_tip(self, user_id: Seq<char>, tip: TipTransactionView) -> LedgerView {
        if self.user_interactions.contains_key(user_id) {
            LedgerView {
                user_interactions: self.user_interactions.insert(
                    user_id,
                    UserInteractionView {
                        tip_history: self.user_interactions[user_id].tip_history.push(tip),
                        ..self.user_interactions[user_id]
                    },
                ),
                ..self
            }
        } else {
            self
        }
    }

    /// The ledger after the cursor has been moved to `mention_id`.
    pub open spec fn with_cursor(self, mention_id: Seq<char>) -> LedgerView {
        LedgerView { last_checked_mention_id: Some(mention_id), ..self }
    }

    /// The ledger after the mention `entry` has been fully processed: it is
    /// appended to the history, its author has interacted once more, and the
    /// cursor stands on it.
    pub open spec fn with_mention(self, entry: ConversationEntryView) -> LedgerView {
        self.with_conversation(entry).with_interaction(entry.user_id, entry.timestamp).with_cursor(
            entry.tweet_id,
        )
    }
}

impl LedgerView {
    /// The ledger after each of the mentions `entries` has been fully
    /// processed in turn, in the order in which they were received.
    pub open spec fn with_mentions(self, entries: Seq<ConversationEntryView>) -> LedgerView
        decreases entries.len(),
    {
        if entries.len() == 0 {
            self
        } else {
            self.with_mentions(entries.drop_last()).with_mention(entries.last())
        }
    }
}

/// The entry that a mention makes when it is recorded at `timestamp`.
pub open spec fn entry_at(
    tweet_id: Seq<char>,
    user_id: Seq<char>,
    content: Seq<char>,
    timestamp: Timestamp,
) -> ConversationEntryView {
    ConversationEntryView { tweet_id, user_id, content, timestamp }
}

/// The tip that is recorded at `timestamp`.
pub open spec fn tip_at(amount_bits: u64, transaction_hash: Seq<char>, timestamp: Timestamp)
    -> TipTransactionView {
    TipTransactionView { timestamp, amount_bits, transaction_hash }
}

struct UserRecord {
    user_id: String,
    interaction: UserInteraction,
}

/// The ledger. Users are held in the order of their first interaction and
/// found through a hash index from user id to position; no user is ever
/// removed.
pub struct BotState {
    last_checked_mention_id: Option<String>,
    conversation_history: VecDeque<ConversationEntry>,
    user_index: StringHashMap<usize>,
    users: Vec<UserRecord>,
}

impl View for BotState {
    type V = LedgerView;

    closed spec fn view(&self) -> LedgerView {
        LedgerView {
            last_checked_mention_id: match self.last_checked_mention_id {
                Some(id) => Some(id@),
                None => None,
            },
            conversation_history: self.conversation_history@.map_values(
                |e: ConversationEntry| e@,
            ),
            user_interactions: Map::new(
                |k: Seq<char>| self.user_index@.contains_key(k),
                |k: Seq<char>| self.users[self.user_index@[k] as int].interaction@,
            ),
        }
    }
}

impl BotState {
    /// The invariant of the ledger: the history holds at most
    /// `MAX_CONVERSATIONS` entries, and the index and the user records name
    /// each other.
    #[verifier::type_invariant]
    closed spec fn wf(&self) -> bool {
        &&& self.conversation_history@.len() <= MAX_CONVERSATIONS
        &&& forall|k: Seq<char>| #[trigger]
            self.user_index@.contains_key(k) ==> self.user_index@[k] < self.users.len()
                && self.users[self.user_index@[k] as int].user_id@ == k
        &&& forall|i: int|
            0 <= i < self.users.len() ==> self.user_index@.contains_key(
                #[trigger] self.users[i].user_id@,
            ) && self.user_index@[self.users[i].user_id@] == i
    }

    /// The ledger of a process that has just started: no cursor, no history,
    /// no users.
    pub fn new() -> (state: Self)
        ensures
            state@ == LedgerView::empty(),
    {
        let state = BotState {
            last_checked_mention_id: None,
            conversation_history: VecDeque::new(),
            user_index: StringHashMap::new(),
            users: Vec::new(),
        };
        assert(state@.conversation_history =~= Seq::empty());
        assert(state@.user_interactions =~= Map::empty());
        state
    }

    /// Takes the ledger out of its place, leaving a fresh one there, so that
    /// its parts can be worked on and put back together.
    fn take(&mut self) -> (taken: Self)
        ensures
            taken == *old(self),
            taken.wf(),
    {
        proof {
            use_type_invariant(&*self);
        }
        let mut taken = BotState::new();
        core::mem::swap(self, &mut taken);
        taken
    }

    /// Appends a conversation entry stamped `timestamp`. Where that makes
    /// more than `MAX_CONVERSATIONS`, the oldest entry leaves.
    pub fn add_conversation_at(
        &mut self,
        tweet_id: String,
        user_id: String,
        content: String,
        timestamp: Timestamp,
    )
        ensures
            final(self)@ == old(self)@.with_conversation(
                entry_at(tweet_id@, user_id@, content@, timestamp),
            ),
            final(self)@.conversation_history.len() <= MAX_CONVERSATIONS,
    {
        let entry = ConversationEntry { tweet_id, user_id, content, timestamp };
        let BotState { last_checked_mention_id, mut conversation_history, user_index, users } =
            self.take();
        let ghost before = conversation_history@;
        let ghost view_of = |e: ConversationEntry| e@;
        conversation_history.push_back(entry);
        assert(before.push(entry).map_values(view_of) =~= before.map_values(view_of).push(
            entry@,
        ));
        if conversation_history.len() > MAX_CONVERSATIONS {
            let _ = conversation_history.pop_front();
            assert(conversation_history@ =~= before.push(entry).subrange(
                1,
                before.len() as int + 1,
            ));
            assert(conversation_history@.map_values(view_of) =~= before.push(entry).map_values(
                view_of,
            ).subrange(1, before.len() as int + 1));
        }
        *self = BotState { last_checked_mention_id, conversation_history, user_index, users };
        assert(self@.user_interactions =~= old(self)@.user_interactions);
    }

    /// Appends a conversation entry stamped with the time that the system
    /// clock shows. Whatever that time is, the ledger is the old one with the
    /// entry so stamped appended.
    pub fn add_conversation(&mut self, tweet_id: String, user_id: String, content: String)
        ensures
            exists|timestamp: Timestamp|
                final(self)@ == old(self)@.with_conversation(
                    #[trigger] entry_at(tweet_id@, user_id@, content@, timestamp),
                ),
    {
        let now = utc_now();
        self.add_conversation_at(tweet_id, user_id, content, now.instant);
        assert(self@ == old(self)@.with_conversation(
            entry_at(tweet_id@, user_id@, content@, now.instant),
        ));
    }

    /// Counts one interaction with `user_id` at `now`. A user not yet known
    /// gets a record first, without interactions or tips.
    pub fn update_user_interaction_at(&mut self, user_id: String, now: Timestamp)
        requires
            old(self)@.user_interactions.contains_key(user_id@) ==> old(
                self,
            )@.user_interactions[user_id@].interaction_count < u32::MAX,
        ensures
            final(self)@ == old(self)@.with_interaction(user_id@, now),
    {
        let BotState { last_checked_mention_id, conversation_history, mut user_index, mut users } =
            self.take();
        let found = match user_index.get(user_id.as_str()) {
            Some(i) => Some(*i),
            None => None,
        };
        match found {
            Some(i) => {
                let record = &mut users[i];
                record.interaction.last_interaction = now;
                record.interaction.interaction_count = record.interaction.interaction_count + 1;
            },
            None => {
                let position = users.len();
                let key = user_id.clone();
                let interaction = UserInteraction {
                    last_interaction: now,
                    interaction_count: 1,
                    tip_history: Vec::new(),
                };
                assert(interaction@.tip_history =~= Seq::empty());
                users.push(UserRecord { user_id, interaction });
                user_index.insert(key, position);
            },
        }
        *self = BotState { last_checked_mention_id, conversation_history, user_index, users };
        assert(self@.user_interactions =~= old(self)@.with_interaction(
            user_id@,
            now,
        ).user_interactions);
    }

    /// Counts one interaction with `user_id` at the time that the system
    /// clock shows. Whatever that time is, the ledger is the old one with an
    /// interaction at that time counted.
    pub fn update_user_interaction(&mut self, user_id: String)
        requires
            old(self)@.user_interactions.contains_key(user_id@) ==> old(
                self,
            )@.user_interactions[user_id@].interaction_count < u32::MAX,
        ensures
            exists|now: Timestamp|
                final(self)@ == #[trigger] old(self)@.with_interaction(user_id@, now),
    {
        let now = utc_now();
        self.update_user_interaction_at(user_id, now.instant);
        assert(self@ == old(self)@.with_interaction(user_id@, now.instant));
    }

    /// Records a tip stamped `timestamp` for `user_id`. For a user that the
    /// ledger does not know, nothing changes.
    pub fn add_tip_transaction_at(
        &mut self,
        user_id: String,
        amount_bits: u64,
        transaction_hash: String,
        timestamp: Timestamp,
    )
        ensures
            final(self)@ == old(self)@.with_tip(
                user_id@,
                tip_at(amount_bits, transaction_hash@, timestamp),
            ),
    {
        let BotState { last_checked_mention_id, conversation_history, user_index, mut users } =
            self.take();
        let found = match user_index.get(user_id.as_str()) {
            Some(i) => Some(*i),
            None => None,
        };
        match found {
            Some(i) => {
                let tip = TipTransaction { timestamp, amount_bits, transaction_hash };
                let ghost before = users[i as int].interaction.tip_history@;
                let ghost view_of = |t: TipTransaction| t@;
                let record = &mut users[i];
                record.interaction.tip_history.push(tip);
                assert(before.push(tip).map_values(view_of) =~= before.map_values(view_of).push(
                    tip@,
                ));
            },
            None => {},
        }
        *self = BotState { last_checked_mention_id, conversation_history, user_index, users };
        assert(self@.user_interactions =~= old(self)@.with_tip(
            user_id@,
            tip_at(amount_bits, transaction_hash@, timestamp),
        ).user_interactions);
        assert(self@.conversation_history =~= old(self)@.conversation_history);
    }

    /// Records a tip for `user_id`, stamped with the time that the system
    /// clock shows.
    pub fn add_tip_transaction(
        &mut self,
        user_id: String,
        amount_bits: u64,
        transaction_hash: String,
    )
        ensures
            exists|timestamp: Timestamp|
                final(self)@ == old(self)@.with_tip(
                    user_id@,
                    #[trigger] tip_at(amount_bits, transaction_hash@, timestamp),
                ),
    {
        let now = utc_now();
        self.add_tip_transaction_at(user_id, amount_bits, transaction_hash, now.instant);
        assert(self@ == old(self)@.with_tip(
            user_id@,
            tip_at(amount_bits, transaction_hash@, now.instant),
        ));
    }

    /// Moves the resumption cursor to `mention_id`, whatever it held. To be
    /// called once the mention has been fully processed.
    pub fn advance_cursor(&mut self, mention_id: String)
        ensures
            final(self)@ == old(self)@.with_cursor(mention_id@),
    {
        proof {
            use_type_invariant(&*self);
        }
        self.last_checked_mention_id = Some(mention_id);
        assert(self@.user_interactions =~= old(self)@.user_interactions);
    }

    /// Records a fully processed mention at `now`: the conversation entry,
    /// then the interaction of its author, then the cursor.
    pub fn record_mention_at(
        &mut self,
        tweet_id: String,
        user_id: String,
        content: String,
        now: Timestamp,
    )
        requires
            old(self)@.user_interactions.contains_key(user_id@) ==> old(
                self,
            )@.user_interactions[user_id@].interaction_count < u32::MAX,
        ensures
            final(self)@ == old(self)@.with_mention(entry_at(tweet_id@, user_id@, content@, now)),
    {
        let cursor = tweet_id.clone();
        let author = user_id.clone();
        self.add_conversation_at(tweet_id, user_id, content, now);
        self.update_user_interaction_at(author, now);
        self.advance_cursor(cursor);
    }

    /// Records a fully processed mention at the time that the system clock
    /// shows.
    pub fn record_mention(&mut self, tweet_id: String, user_id: String, content: String)
        requires
            old(self)@.user_interactions.contains_key(user_id@) ==> old(
                self,
            )@.user_interactions[user_id@].interaction_count < u32::MAX,
        ensures
            exists|now: Timestamp|
                final(self)@ == old(self)@.with_mention(
                    #[trigger] entry_at(tweet_id@, user_id@, content@, now),
                ),
    {
        let now = utc_now();
        self.record_mention_at(tweet_id, user_id, content, now.instant);
        assert(self@ == old(self)@.with_mention(
            entry_at(tweet_id@, user_id@, content@, now.instant),
        ));
    }

    /// The id of the mention processed last, if any.
    pub fn last_checked_mention_id(&self) -> (cursor: Option<&String>)
        ensures
            match cursor {
                Some(id) => self@.last_checked_mention_id == Some(id@),
                None => self@.last_checked_mention_id is None,
            },
    {
        self.last_checked_mention_id.as_ref()
    }

    /// The number of conversation entries held.
    pub fn conversation_count(&self) -> (count: usize)
        ensures
            count == self@.conversation_history.len(),
            count <= MAX_CONVERSATIONS,
    {
        proof {
            use_type_invariant(self);
        }
        self.conversation_history.len()
    }

    /// The conversation entry at `index`, the oldest being at 0; `None`
    /// where the history has no such entry.
    pub fn conversation(&self, index: usize) -> (entry: Option<&ConversationEntry>)
        ensures
            match entry {
                Some(e) => index < self@.conversation_history.len() && e@
                    == self@.conversation_history[index as int],
                None => index >= self@.conversation_history.len(),
            },
    {
        if index < self.conversation_history.len() {
            Some(&self.conversation_history[index])
        } else {
            None
        }
    }

    /// Puts `interaction` down as what the ledger knows of `user_id`, in
    /// place of what it knew, if anything. This is how a ledger that was
    /// written out is filled again.
    pub fn set_user_interaction(&mut self, user_id: String, interaction: UserInteraction)
        ensures
            final(self)@ == (LedgerView {
                user_interactions: old(self)@.user_interactions.insert(user_id@, interaction@),
                ..old(self)@
            }),
    {
        let BotState { last_checked_mention_id, conversation_history, mut user_index, mut users } =
            self.take();
        let found = match user_index.get(user_id.as_str()) {
            Some(i) => Some(*i),
            None => None,
        };
        match found {
            Some(i) => {
                let record = &mut users[i];
                record.interaction = interaction;
            },
            None => {
                let position = users.len();
                let key = user_id.clone();
                users.push(UserRecord { user_id, interaction });
                user_index.insert(key, position);
            },
        }
        *self = BotState { last_checked_mention_id, conversation_history, user_index, users };
        assert(self@.user_interactions =~= old(self)@.user_interactions.insert(
            user_id@,
            interaction@,
        ));
    }

    /// The ids of the users that the ledger knows, each once.
    pub fn user_ids(&self) -> (ids: Vec<String>)
        ensures
            forall|i: int|
                0 <= i < ids.len() ==> self@.user_interactions.contains_key(#[trigger] ids[i]@),
            forall|user_id: Seq<char>| #[trigger]
                self@.user_interactions.contains_key(user_id) ==> exists|i: int|
                    0 <= i < ids.len() && #[trigger] ids[i]@ == user_id,
            forall|i: int, j: int|
                0 <= i < j < ids.len() ==> #[trigger] ids[i]@ != #[trigger] ids[j]@,
    {
        proof {
            use_type_invariant(self);
        }
        let mut ids: Vec<String> = Vec::new();
        let mut i: usize = 0;
        while i < self.users.len()
            invariant
                self.wf(),
                i <= self.users.len(),
                ids.len() == i,
                forall|k: int| 0 <= k < i ==> (#[trigger] ids[k])@ == self.users[k].user_id@,
            decreases self.users.len() - i,
        {
            ids.push(self.users[i].user_id.clone());
            i = i + 1;
        }
        assert forall|user_id: Seq<char>| #[trigger]
            self@.user_interactions.contains_key(user_id) implies exists|i: int|
            0 <= i < ids.len() && #[trigger] ids[i]@ == user_id by {
            let position = self.user_index@[user_id] as int;
            assert(ids[position]@ == user_id);
        }
        assert forall|i: int, j: int| 0 <= i < j < ids.len() implies #[trigger] ids[i]@
            != #[trigger] ids[j]@ by {
            assert(self.user_index@[self.users[i].user_id@] == i);
            assert(self.user_index@[self.users[j].user_id@] == j);
        }
        ids
    }

    /// What the ledger knows of `user_id`; `None` for a user it has not
    /// dealt with.
    pub fn user_interaction(&self, user_id: &str) -> (found: Option<&UserInteraction>)
        ensures
            match found {
                Some(interaction) => self@.user_interactions.contains_key(user_id@)
                    && interaction@ == self@.user_interactions[user_id@],
                None => !self@.user_interactions.contains_key(user_id@),
            },
    {
        proof {
            use_type_invariant(self);
        }
        match self.user_index.get(user_id) {
            Some(i) => Some(&self.users[*i].interaction),
            None => None,
        }
    }
}

/// Appending to a history that was cut to its newest `n` entries, and
/// cutting again, is cutting the whole history once.
pub proof fn lemma_keep_last_push<T>(s: Seq<T>, item: T, n: nat)
    requires
        n > 0,
    ensures
        keep_last(keep_last(s, n).push(item), n) == keep_last(s.push(item), n),
        keep_last(s, n).len() <= n,
{
    assert(keep_last(keep_last(s, n).push(item), n) =~= keep_last(s.push(item), n));
}

/// The bound of the history. Whatever entries are appended, in whatever
/// number, to a ledger within the bound, the history then holds exactly the
/// newest `MAX_CONVERSATIONS` of all entries, in the order in which they
/// came, oldest first; nothing else in the ledger changes.
pub proof fn lemma_history_keeps_newest(ledger: LedgerView, entries: Seq<ConversationEntryView>)
    requires
        ledger.conversation_history.len() <= MAX_CONVERSATIONS,
    ensures
        ledger.with_conversations(entries).conversation_history == keep_last(
            ledger.conversation_history + entries,
            MAX_CONVERSATIONS as nat,
        ),
        ledger.with_conversations(entries).conversation_history.len() <= MAX_CONVERSATIONS,
        ledger.with_conversations(entries).user_interactions == ledger.user_interactions,
        ledger.with_conversations(entries).last_checked_mention_id
            == ledger.last_checked_mention_id,
    decreases entries.len(),
{
    if entries.len() == 0 {
        assert(ledger.conversation_history + entries =~= ledger.conversation_history);
    } else {
        let earlier = entries.drop_last();
        lemma_history_keeps_newest(ledger, earlier);
        lemma_keep_last_push(
            ledger.conversation_history + earlier,
            entries.last(),
            MAX_CONVERSATIONS as nat,
        );
        assert((ledger.conversation_history + earlier).push(entries.last())
            =~= ledger.conversation_history + entries);
    }
}

/// Counting interactions. After interactions with one user at the times
/// `times`, at least one, the user's record counts `times.len()` more than
/// before (from zero for a user not known before), names the last of the
/// times as the last interaction and has the tips it had; the records of all
/// other users, the history and the cursor are as they were.
pub proof fn lemma_interactions_counted(
    ledger: LedgerView,
    user_id: Seq<char>,
    times: Seq<Timestamp>,
)
    requires
        times.len() > 0,
    ensures
        ledger.with_interactions(user_id, times).user_interactions.contains_key(user_id),
        ledger.with_interactions(user_id, times).user_interactions[user_id].interaction_count
            == ledger.record_or_new(user_id, times[0]).interaction_count + times.len(),
        ledger.with_interactions(user_id, times).user_interactions[user_id].last_interaction
            == times.last(),
        ledger.with_interactions(user_id, times).user_interactions[user_id].tip_history
            == ledger.record_or_new(user_id, times[0]).tip_history,
        ledger.with_interactions(user_id, times).user_interactions.remove(user_id)
            == ledger.user_interactions.remove(user_id),
        ledger.with_interactions(user_id, times).conversation_history
            == ledger.conversation_history,
        ledger.with_interactions(user_id, times).last_checked_mention_id
            == ledger.last_checked_mention_id,
    decreases times.len(),
{
    let earlier = times.drop_last();
    if earlier.len() == 0 {
        assert(ledger.with_interactions(user_id, earlier) == ledger);
        assert(times.last() == times[0]);
    } else {
        lemma_interactions_counted(ledger, user_id, earlier);
        assert(earlier[0] == times[0]);
    }
    assert(ledger.with_interactions(user_id, times).user_interactions.remove(user_id)
        =~= ledger.user_interactions.remove(user_id));
}

/// The cursor. A fresh ledger has none; moving it replaces whatever it held,
/// so that after two moves it stands on the second id, whichever of the two
/// might be called the greater.
pub proof fn lemma_cursor_replaced(ledger: LedgerView, first: Seq<char>, second: Seq<char>)
    ensures
        LedgerView::empty().last_checked_mention_id is None,
        ledger.with_cursor(first).with_cursor(second).last_checked_mention_id == Some(second),
        ledger.with_cursor(first).with_cursor(second) == ledger.with_cursor(second),
{
}

/// A batch of mentions. After the mentions `entries` have been processed in
/// the order in which they were received, the history is what appending
/// their entries in that order makes of it, the newest `MAX_CONVERSATIONS`
/// oldest first; the cursor stands on the last of them, whatever the ids
/// are; and the author of the last has interacted last at its time. A batch
/// of none changes nothing.
pub proof fn lemma_mentions_in_order(ledger: LedgerView, entries: Seq<ConversationEntryView>)
    requires
        ledger.conversation_history.len() <= MAX_CONVERSATIONS,
    ensures
        ledger.with_mentions(entries).conversation_history == ledger.with_conversations(
            entries,
        ).conversation_history,
        ledger.with_mentions(entries).conversation_history == keep_last(
            ledger.conversation_history + entries,
            MAX_CONVERSATIONS as nat,
        ),
        entries.len() == 0 ==> ledger.with_mentions(entries) == ledger,
        entries.len() > 0 ==> {
            let last = entries.last();
            let after = ledger.with_mentions(entries);
            &&& after.last_checked_mention_id == Some(last.tweet_id)
            &&& after.user_interactions.contains_key(last.user_id)
            &&& after.user_interactions[last.user_id].last_interaction == last.timestamp
            &&& after.user_interactions[last.user_id].interaction_count == ledger.with_mentions(
                entries.drop_last(),
            ).record_or_new(last.user_id, last.timestamp).interaction_count + 1
        },
    decreases entries.len(),
{
    lemma_history_keeps_newest(ledger, entries);
    if entries.len() > 0 {
        lemma_mentions_in_order(ledger, entries.drop_last());
    }
}

/// A tip for a user that the ledger does not know changes nothing; a tip for
/// a known user is the last of that user's tips and leaves the earlier ones,
/// the count and the last interaction as they were.
pub proof fn lemma_tip_appended(ledger: LedgerView, user_id: Seq<char>, tip: TipTransactionView)
    ensures
        !ledger.user_interactions.contains_key(user_id) ==> ledger.with_tip(user_id, tip)
            == ledger,
        ledger.user_interactions.contains_key(user_id) ==> {
            let before = ledger.user_interactions[user_id];
            let after = ledger.with_tip(user_id, tip).user_interactions[user_id];
            &&& after.tip_history.len() == before.tip_history.len() + 1
            &&& after.tip_history.last() == tip
            &&& after.tip_history.drop_last() == before.tip_history
            &&& after.interaction_count == before.interaction_count
            &&& after.last_interaction == before.last_interaction
        },
{
    if ledger.user_interactions.contains_key(user_id) {
        let before = ledger.user_interactions[user_id];
        assert(before.tip_history.push(tip).drop_last() =~= before.tip_history);
    }
}

} // verus!
