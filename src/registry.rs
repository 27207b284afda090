use vstd::prelude::*;

verus! {

/// Tag under which every standardized event is published, beside its topic.
pub const EVENT_NAMESPACE: &'static str = "stellara_event";

/// The kinds of action an event can describe, each with a fixed wire tag.
#[derive(Clone, Copy, Debug, PartialEq, Eq, Structural)]
pub enum Topic {
    Transfer,
    Approve,
    Mint,
    Burn,
    Stake,
    Unstake,
    RewardsClaimed,
    PoolUpdated,
    Vote,
    ProposalCreated,
    ProposalExecuted,
    TradeExecuted,
    FeeCollected,
    AdminChanged,
    AuthorizationChanged,
}

impl Topic {
    pub open spec fn spec_tag(self) -> Seq<char> {
        match self {
            Topic::Transfer => "transfer"@,
            Topic::Approve => "approve"@,
            Topic::Mint => "mint"@,
            Topic::Burn => "burn"@,
            Topic::Stake => "stake"@,
            Topic::Unstake => "unstake"@,
            Topic::RewardsClaimed => "rewards_claimed"@,
            Topic::PoolUpdated => "pool_updated"@,
            Topic::Vote => "vote"@,
            Topic::ProposalCreated => "propose"@,
            Topic::ProposalExecuted => "execute"@,
            Topic::TradeExecuted => "trade"@,
            Topic::FeeCollected => "fee"@,
            Topic::AdminChanged => "admin_changed"@,
            Topic::AuthorizationChanged => "auth_changed"@,
        }
    }

    /// The wire tag of this topic.
    pub fn tag(&self) -> (r: &'static str)
        ensures
            r@ == self.spec_tag(),
    {
        match self {
            Topic::Transfer => "transfer",
            Topic::Approve => "approve",
            Topic::Mint => "mint",
            Topic::Burn => "burn",
            Topic::Stake => "stake",
            Topic::Unstake => "unstake",
            Topic::RewardsClaimed => "rewards_claimed",
            Topic::PoolUpdated => "pool_updated",
            Topic::Vote => "vote",
            Topic::ProposalCreated => "propose",
            Topic::ProposalExecuted => "execute",
            Topic::TradeExecuted => "trade",
            Topic::FeeCollected => "fee",
            Topic::AdminChanged => "admin_changed",
            Topic::AuthorizationChanged => "auth_changed",
        }
    }
}

/// Well-known fields of an event's metadata, each with a fixed wire tag.
#[derive(Clone, Copy, Debug, PartialEq, Eq, Structural)]
pub enum MetaKey {
    Amount,
    From,
    To,
    Token,
    Pair,
    Price,
    Fee,
    Reason,
    ProposalId,
    VoteType,
    LockPeriod,
    RewardRate,
}

/// Number of metadata keys.
pub const META_KEY_COUNT: usize = 12;

impl MetaKey {
    pub open spec fn spec_tag(self) -> Seq<char> {
        match self {
            MetaKey::Amount => "amount"@,
            MetaKey::From => "from"@,
            MetaKey::To => "to"@,
            MetaKey::Token => "token"@,
            MetaKey::Pair => "pair"@,
            MetaKey::Price => "price"@,
            MetaKey::Fee => "fee"@,
            MetaKey::Reason => "reason"@,
            MetaKey::ProposalId => "proposal_id"@,
            MetaKey::VoteType => "vote_type"@,
            MetaKey::LockPeriod => "lock_period"@,
            MetaKey::RewardRate => "reward_rate"@,
        }
    }

    /// The wire tag of this key.
    pub fn tag(&self) -> (r: &'static str)
        ensures
            r@ == self.spec_tag(),
    {
        match self {
            MetaKey::Amount => "amount",
            MetaKey::From => "from",
            MetaKey::To => "to",
            MetaKey::Token => "token",
            MetaKey::Pair => "pair",
            MetaKey::Price => "price",
            MetaKey::Fee => "fee",
            MetaKey::Reason => "reason",
            MetaKey::ProposalId => "proposal_id",
            MetaKey::VoteType => "vote_type",
            MetaKey::LockPeriod => "lock_period",
            MetaKey::RewardRate => "reward_rate",
        }
    }

    /// Position of the key in the registry's fixed order.
    pub open spec fn spec_index(self) -> nat {
        match self {
            MetaKey::Amount => 0,
            MetaKey::From => 1,
            MetaKey::To => 2,
            MetaKey::Token => 3,
            MetaKey::Pair => 4,
            MetaKey::Price => 5,
            MetaKey::Fee => 6,
            MetaKey::Reason => 7,
            MetaKey::ProposalId => 8,
            MetaKey::VoteType => 9,
            MetaKey::LockPeriod => 10,
            MetaKey::RewardRate => 11,
        }
    }

    pub fn index(&self) -> (r: usize)
        ensures
            r == self.spec_index(),
            r < META_KEY_COUNT,
    {
        match self {
            MetaKey::Amount => 0,
            MetaKey::From => 1,
            MetaKey::To => 2,
            MetaKey::Token => 3,
            MetaKey::Pair => 4,
            MetaKey::Price => 5,
            MetaKey::Fee => 6,
            MetaKey::Reason => 7,
            MetaKey::ProposalId => 8,
            MetaKey::VoteType => 9,
            MetaKey::LockPeriod => 10,
            MetaKey::RewardRate => 11,
        }
    }

    /// The key at a position of the registry's fixed order.
    pub fn from_index(i: usize) -> (r: Option<MetaKey>)
        ensures
            i < META_KEY_COUNT <==> r is Some,
            r matches Some(k) ==> k.spec_index() == i,
    {
        match i {
            0 => Some(MetaKey::Amount),
            1 => Some(MetaKey::From),
            2 => Some(MetaKey::To),
            3 => Some(MetaKey::Token),
            4 => Some(MetaKey::Pair),
            5 => Some(MetaKey::Price),
            6 => Some(MetaKey::Fee),
            7 => Some(MetaKey::Reason),
            8 => Some(MetaKey::ProposalId),
            9 => Some(MetaKey::VoteType),
            10 => Some(MetaKey::LockPeriod),
            11 => Some(MetaKey::RewardRate),
            _ => None,
        }
    }
}

/// Length and first character of a topic's tag: no two topics share both.
spec fn topic_tag_head(t: Topic) -> (nat, char) {
    match t {
        Topic::Transfer => (8, 't'),
        Topic::Approve => (7, 'a'),
        Topic::Mint => (4, 'm'),
        Topic::Burn => (4, 'b'),
        Topic::Stake => (5, 's'),
        Topic::Unstake => (7, 'u'),
        Topic::RewardsClaimed => (15, 'r'),
        Topic::PoolUpdated => (12, 'p'),
        Topic::Vote => (4, 'v'),
        Topic::ProposalCreated => (7, 'p'),
        Topic::ProposalExecuted => (7, 'e'),
        Topic::TradeExecuted => (5, 't'),
        Topic::FeeCollected => (3, 'f'),
        Topic::AdminChanged => (13, 'a'),
        Topic::AuthorizationChanged => (12, 'a'),
    }
}

proof fn lemma_topic_tag_head(t: Topic)
    ensures
        (t.spec_tag().len(), t.spec_tag()[0]) == topic_tag_head(t),
{
    match t {
        Topic::Transfer => reveal_strlit("transfer"),
        Topic::Approve => reveal_strlit("approve"),
        Topic::Mint => reveal_strlit("mint"),
        Topic::Burn => reveal_strlit("burn"),
        Topic::Stake => reveal_strlit("stake"),
        Topic::Unstake => reveal_strlit("unstake"),
        Topic::RewardsClaimed => reveal_strlit("rewards_claimed"),
        Topic::PoolUpdated => reveal_strlit("pool_updated"),
        Topic::Vote => reveal_strlit("vote"),
        Topic::ProposalCreated => reveal_strlit("propose"),
        Topic::ProposalExecuted => reveal_strlit("execute"),
        Topic::TradeExecuted => reveal_strlit("trade"),
        Topic::FeeCollected => reveal_strlit("fee"),
        Topic::AdminChanged => reveal_strlit("admin_changed"),
        Topic::AuthorizationChanged => reveal_strlit("auth_changed"),
    }
}

/// No two topics share a wire tag.
pub proof fn lemma_topic_tags_unique(a: Topic, b: Topic)
    requires
        a.spec_tag() == b.spec_tag(),
    ensures
        a == b,
{
    lemma_topic_tag_head(a);
    lemma_topic_tag_head(b);
}

/// Length and first character of a metadata key's tag: no two metadata keys share both.
spec fn meta_key_tag_head(t: MetaKey) -> (nat, char) {
    match t {
        MetaKey::Amount => (6, 'a'),
        MetaKey::From => (4, 'f'),
        MetaKey::To => (2, 't'),
        MetaKey::Token => (5, 't'),
        MetaKey::Pair => (4, 'p'),
        MetaKey::Price => (5, 'p'),
        MetaKey::Fee => (3, 'f'),
        MetaKey::Reason => (6, 'r'),
        MetaKey::ProposalId => (11, 'p'),
        MetaKey::VoteType => (9, 'v'),
        MetaKey::LockPeriod => (11, 'l'),
        MetaKey::RewardRate => (11, 'r'),
    }
}

proof fn lemma_meta_key_tag_head(t: MetaKey)
    ensures
        (t.spec_tag().len(), t.spec_tag()[0]) == meta_key_tag_head(t),
{
    match t {
        MetaKey::Amount => reveal_strlit("amount"),
        MetaKey::From => reveal_strlit("from"),
        MetaKey::To => reveal_strlit("to"),
        MetaKey::Token => reveal_strlit("token"),
        MetaKey::Pair => reveal_strlit("pair"),
        MetaKey::Price => reveal_strlit("price"),
        MetaKey::Fee => reveal_strlit("fee"),
        MetaKey::Reason => reveal_strlit("reason"),
        MetaKey::ProposalId => reveal_strlit("proposal_id"),
        MetaKey::VoteType => reveal_strlit("vote_type"),
        MetaKey::LockPeriod => reveal_strlit("lock_period"),
        MetaKey::RewardRate => reveal_strlit("reward_rate"),
    }
}

/// No two metadata keys share a wire tag.
pub proof fn lemma_meta_key_tags_unique(a: MetaKey, b: MetaKey)
    requires
        a.spec_tag() == b.spec_tag(),
    ensures
        a == b,
{
    lemma_meta_key_tag_head(a);
    lemma_meta_key_tag_head(b);
}

} // verus!
