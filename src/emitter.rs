use vstd::prelude::*;
use crate::event::{EventView, LegacyEvent, Metadata, Publication, PublicationView, StandardEvent};
use crate::host::{Host, HostView};
use crate::registry::{MetaKey, Topic};
use crate::value::{copy_address, copy_string, Address, Value};

verus! {

/// The schema version of the events built by this library.
pub const CURRENT_VERSION: u32 = 1;

/// The standardized event built on `h` from the given fields: stamped with the
/// host's contract identity, its clock and the current schema version.
pub open spec fn standard(
    h: HostView,
    event_type: Topic,
    user_address: Option<Address>,
    data: Seq<Value>,
    metadata: Map<MetaKey, Seq<Value>>,
) -> PublicationView {
    PublicationView::Standard(
        EventView {
            event_type,
            contract_address: h.contract,
            user_address,
            data,
            metadata,
            timestamp: h.timestamp,
            version: CURRENT_VERSION,
        },
    )
}

pub open spec fn legacy(topic: Topic, principals: Seq<Address>, payload: Seq<Value>) -> PublicationView {
    PublicationView::Legacy { topic, principals, payload }
}

/// `after` is `before` with `s` appended to its log, and nothing else changed.
pub open spec fn emitted(before: HostView, after: HostView, s: Seq<PublicationView>) -> bool {
    after == (HostView { log: before.log + s, ..before })
}

pub open spec fn transfer_publications(
    h: HostView,
    from: Address,
    to: Address,
    amount: i128,
    token: Address,
) -> Seq<PublicationView> {
    seq![
        standard(
            h,
            Topic::Transfer,
            Some(from),
            seq![Value::I128(amount), Value::Addr(token)],
            map![
                MetaKey::Amount => seq![Value::I128(amount)],
                MetaKey::From => seq![Value::Addr(from)],
                MetaKey::To => seq![Value::Addr(to)],
                MetaKey::Token => seq![Value::Addr(token)],
            ],
        ),
        legacy(Topic::Transfer, seq![from, to], seq![Value::I128(amount)]),
    ]
}

pub open spec fn approve_publications(
    h: HostView,
    from: Address,
    spender: Address,
    amount: i128,
    token: Address,
) -> Seq<PublicationView> {
    seq![
        standard(
            h,
            Topic::Approve,
            Some(from),
            seq![Value::I128(amount), Value::Addr(token)],
            map![
                MetaKey::Amount => seq![Value::I128(amount)],
                MetaKey::From => seq![Value::Addr(from)],
                MetaKey::To => seq![Value::Addr(spender)],
                MetaKey::Token => seq![Value::Addr(token)],
            ],
        ),
        legacy(Topic::Approve, seq![from, spender], seq![Value::I128(amount)]),
    ]
}

pub open spec fn mint_metadata(
    to: Address,
    amount: i128,
    token: Address,
    reason: Option<String>,
) -> Map<MetaKey, Seq<Value>> {
    let base = map![
        MetaKey::Amount => seq![Value::I128(amount)],
        MetaKey::To => seq![Value::Addr(to)],
        MetaKey::Token => seq![Value::Addr(token)],
    ];
    match reason {
        Some(r) => base.insert(MetaKey::Reason, seq![Value::Str(r)]),
        None => base,
    }
}

pub open spec fn mint_publications(
    h: HostView,
    to: Address,
    amount: i128,
    token: Address,
    reason: Option<String>,
) -> Seq<PublicationView> {
    seq![
        standard(
            h,
            Topic::Mint,
            Some(to),
            seq![Value::I128(amount), Value::Addr(token)],
            mint_metadata(to, amount, token, reason),
        ),
        legacy(Topic::Mint, seq![to], seq![Value::I128(amount)]),
    ]
}

pub open spec fn burn_publications(
    h: HostView,
    from: Address,
    amount: i128,
    token: Address,
) -> Seq<PublicationView> {
    seq![
        standard(
            h,
            Topic::Burn,
            Some(from),
            seq![Value::I128(amount), Value::Addr(token)],
            map![
                MetaKey::Amount => seq![Value::I128(amount)],
                MetaKey::From => seq![Value::Addr(from)],
                MetaKey::Token => seq![Value::Addr(token)],
            ],
        ),
        legacy(Topic::Burn, seq![from], seq![Value::I128(amount)]),
    ]
}

pub open spec fn admin_changed_publications(
    h: HostView,
    old_admin: Address,
    new_admin: Address,
) -> Seq<PublicationView> {
    seq![
        standard(
            h,
            Topic::AdminChanged,
            Some(old_admin),
            seq![Value::Addr(new_admin)],
            map![
                MetaKey::From => seq![Value::Addr(old_admin)],
                MetaKey::To => seq![Value::Addr(new_admin)],
            ],
        ),
        legacy(Topic::AdminChanged, seq![old_admin], seq![Value::Addr(new_admin)]),
    ]
}

pub open spec fn authorization_changed_publications(
    h: HostView,
    user: Address,
    authorized: bool,
) -> Seq<PublicationView> {
    seq![
        standard(
            h,
            Topic::AuthorizationChanged,
            Some(user),
            seq![Value::Bool(authorized)],
            map![MetaKey::To => seq![Value::Addr(user)]],
        ),
        legacy(Topic::AuthorizationChanged, seq![user], seq![Value::Bool(authorized)]),
    ]
}

pub open spec fn stake_publications(
    h: HostView,
    user: Address,
    amount: i128,
    lock_period: u64,
    token: Address,
) -> Seq<PublicationView> {
    seq![
        standard(
            h,
            Topic::Stake,
            Some(user),
            seq![Value::I128(amount), Value::U64(lock_period), Value::Addr(token)],
            map![
                MetaKey::Amount => seq![Value::I128(amount)],
                MetaKey::LockPeriod => seq![Value::U64(lock_period)],
                MetaKey::Token => seq![Value::Addr(token)],
            ],
        ),
        legacy(
            Topic::Stake,
            seq![user],
            seq![Value::I128(amount), Value::U64(lock_period), Value::U64(h.timestamp)],
        ),
    ]
}

pub open spec fn unstake_publications(
    h: HostView,
    user: Address,
    amount: i128,
    rewards: i128,
    fee: i128,
    token: Address,
) -> Seq<PublicationView> {
    seq![
        standard(
            h,
            Topic::Unstake,
            Some(user),
            seq![Value::I128(amount), Value::I128(rewards), Value::I128(fee), Value::Addr(token)],
            map![
                MetaKey::Amount => seq![Value::I128(amount)],
                MetaKey::Fee => seq![Value::I128(fee)],
                MetaKey::Token => seq![Value::Addr(token)],
            ],
        ),
        legacy(
            Topic::Unstake,
            seq![user],
            seq![Value::I128(amount), Value::I128(rewards), Value::I128(fee), Value::U64(h.timestamp)],
        ),
    ]
}

/// The amount of a rewards claim: base and bonus together.
pub open spec fn claimed_amount(base_rewards: i128, bonus_rewards: i128) -> int {
    base_rewards + bonus_rewards
}

pub open spec fn rewards_claimed_publications(
    h: HostView,
    user: Address,
    base_rewards: i128,
    bonus_rewards: i128,
    token: Address,
) -> Seq<PublicationView> {
    seq![
        standard(
            h,
            Topic::RewardsClaimed,
            Some(user),
            seq![Value::I128(base_rewards), Value::I128(bonus_rewards), Value::Addr(token)],
            map![
                MetaKey::Amount => seq![Value::I128(claimed_amount(base_rewards, bonus_rewards) as i128)],
                MetaKey::Token => seq![Value::Addr(token)],
            ],
        ),
        legacy(
            Topic::RewardsClaimed,
            seq![user],
            seq![Value::I128(base_rewards), Value::I128(bonus_rewards), Value::U64(h.timestamp)],
        ),
    ]
}

pub open spec fn vote_publications(
    h: HostView,
    voter: Address,
    proposal_id: u64,
    vote_type: String,
    voting_power: u128,
) -> Seq<PublicationView> {
    seq![
        standard(
            h,
            Topic::Vote,
            Some(voter),
            seq![Value::U64(proposal_id), Value::Sym(vote_type), Value::U128(voting_power)],
            map![
                MetaKey::ProposalId => seq![Value::U64(proposal_id)],
                MetaKey::VoteType => seq![Value::Sym(vote_type)],
            ],
        ),
        legacy(
            Topic::Vote,
            seq![voter],
            seq![
                Value::U64(proposal_id),
                Value::Sym(vote_type),
                Value::U128(voting_power),
                Value::U64(h.timestamp),
            ],
        ),
    ]
}

pub open spec fn pool_updated_publications(
    h: HostView,
    admin: Address,
    reward_rate: i128,
    bonus_multiplier: u32,
) -> Seq<PublicationView> {
    seq![
        standard(
            h,
            Topic::PoolUpdated,
            Some(admin),
            seq![Value::I128(reward_rate), Value::U32(bonus_multiplier)],
            map![MetaKey::RewardRate => seq![Value::I128(reward_rate)]],
        ),
        legacy(
            Topic::PoolUpdated,
            seq![admin],
            seq![Value::I128(reward_rate), Value::U32(bonus_multiplier), Value::U64(h.timestamp)],
        ),
    ]
}

/// A trade publishes its standardized event alone, with no legacy event.
pub open spec fn trade_executed_publications(
    h: HostView,
    trader: Address,
    pair: String,
    amount: i128,
    price: i128,
    is_buy: bool,
    fee_amount: i128,
    fee_token: Address,
) -> Seq<PublicationView> {
    seq![
        standard(
            h,
            Topic::TradeExecuted,
            Some(trader),
            seq![
                Value::Sym(pair),
                Value::I128(amount),
                Value::I128(price),
                Value::Bool(is_buy),
                Value::I128(fee_amount),
                Value::Addr(fee_token),
            ],
            map![
                MetaKey::Pair => seq![Value::Sym(pair)],
                MetaKey::Amount => seq![Value::I128(amount)],
                MetaKey::Price => seq![Value::I128(price)],
                MetaKey::Fee => seq![Value::I128(fee_amount)],
                MetaKey::Token => seq![Value::Addr(fee_token)],
            ],
        ),
    ]
}

/// A fee collection publishes its standardized event alone, with no legacy event.
pub open spec fn fee_collected_publications(
    h: HostView,
    payer: Address,
    recipient: Address,
    amount: i128,
    token: Address,
) -> Seq<PublicationView> {
    seq![
        standard(
            h,
            Topic::FeeCollected,
            Some(payer),
            seq![Value::I128(amount), Value::Addr(token)],
            map![
                MetaKey::From => seq![Value::Addr(payer)],
                MetaKey::To => seq![Value::Addr(recipient)],
                MetaKey::Amount => seq![Value::I128(amount)],
                MetaKey::Token => seq![Value::Addr(token)],
            ],
        ),
    ]
}

pub open spec fn proposal_created_publications(
    h: HostView,
    proposer: Address,
    proposal_id: u64,
    title: String,
    proposal_type: String,
) -> Seq<PublicationView> {
    seq![
        standard(
            h,
            Topic::ProposalCreated,
            Some(proposer),
            seq![Value::U64(proposal_id), Value::Str(title), Value::Sym(proposal_type)],
            map![MetaKey::ProposalId => seq![Value::U64(proposal_id)]],
        ),
        legacy(
            Topic::ProposalCreated,
            seq![proposer],
            seq![
                Value::U64(proposal_id),
                Value::Str(title),
                Value::Sym(proposal_type),
                Value::U64(h.timestamp),
            ],
        ),
    ]
}

pub open spec fn proposal_executed_publications(
    h: HostView,
    executor: Address,
    proposal_id: u64,
    success: bool,
) -> Seq<PublicationView> {
    seq![
        standard(
            h,
            Topic::ProposalExecuted,
            Some(executor),
            seq![Value::U64(proposal_id), Value::Bool(success)],
            map![MetaKey::ProposalId => seq![Value::U64(proposal_id)]],
        ),
        legacy(
            Topic::ProposalExecuted,
            seq![executor],
            seq![Value::U64(proposal_id), Value::Bool(success), Value::U64(h.timestamp)],
        ),
    ]
}

/// A single-element value sequence.
fn single(v: Value) -> (r: Vec<Value>)
    ensures
        r@ == seq![v],
{
    let mut r: Vec<Value> = Vec::new();
    r.push(v);
    assert(r@ =~= seq![v]);
    r
}

/// The principals of a legacy event with one.
fn principals1(a: &Address) -> (r: Vec<Address>)
    ensures
        r@ == seq![*a],
{
    let mut r: Vec<Address> = Vec::new();
    r.push(copy_address(a));
    assert(r@ =~= seq![*a]);
    r
}

/// Builds the legacy publication for `topic`.
fn legacy_event(topic: Topic, principals: Vec<Address>, payload: Vec<Value>) -> (r: Publication)
    ensures
        r@ == legacy(topic, principals@, payload@),
{
    Publication::Legacy(LegacyEvent { topic, principals, payload })
}

/// Builds and publishes standardized events, one operation per domain action.
pub struct EventEmitter;

impl EventEmitter {
    /// Publishes one standardized event of `event_type`, stamped with the
    /// host's contract identity, its clock and the current schema version.
    pub fn emit_standard(
        host: &mut Host,
        event_type: Topic,
        user_address: Option<Address>,
        data: Vec<Value>,
        metadata: Metadata,
    )
        requires
            metadata.wf(),
        ensures
            emitted(
                old(host)@,
                final(host)@,
                seq![standard(old(host)@, event_type, user_address, data@, metadata@)],
            ),
    {
        let event = StandardEvent {
            event_type,
            contract_address: host.self_identity(),
            user_address,
            data,
            metadata,
            timestamp: host.now(),
            version: CURRENT_VERSION,
        };
        host.publish(Publication::Standard(event));
        proof {
            let s = seq![standard(old(host)@, event_type, user_address, data@, metadata@)];
            assert(host@.log =~= old(host)@.log + s);
        }
    }

    /// Publishes a transfer of `amount` of `token` from `from` to `to`, then
    /// its legacy event.
    pub fn transfer(host: &mut Host, from: Address, to: Address, amount: i128, token: Address)
        ensures
            emitted(old(host)@, final(host)@, transfer_publications(old(host)@, from, to, amount, token)),
    {
        let mut data: Vec<Value> = Vec::new();
        data.push(Value::I128(amount));
        data.push(Value::Addr(copy_address(&token)));
        let mut metadata = Metadata::new();
        metadata.set(MetaKey::Amount, single(Value::I128(amount)));
        metadata.set(MetaKey::From, single(Value::Addr(copy_address(&from))));
        metadata.set(MetaKey::To, single(Value::Addr(copy_address(&to))));
        metadata.set(MetaKey::Token, single(Value::Addr(copy_address(&token))));
        let ghost h = host@;
        let ghost s = transfer_publications(h, from, to, amount, token);
        assert(data@ =~= seq![Value::I128(amount), Value::Addr(token)]);
        assert(metadata@ =~= map![
            MetaKey::Amount => seq![Value::I128(amount)],
            MetaKey::From => seq![Value::Addr(from)],
            MetaKey::To => seq![Value::Addr(to)],
            MetaKey::Token => seq![Value::Addr(token)],
        ]);
        Self::emit_standard(host, Topic::Transfer, Some(copy_address(&from)), data, metadata);
        let mut principals: Vec<Address> = Vec::new();
        principals.push(copy_address(&from));
        principals.push(copy_address(&to));
        assert(principals@ =~= seq![from, to]);
        host.publish(legacy_event(Topic::Transfer, principals, single(Value::I128(amount))));
        assert(host@.log =~= h.log + s);
    }
    /// Publishes an approval of `spender` for `amount` of `token` by `from`,
    /// then its legacy event.
    pub fn approve(host: &mut Host, from: Address, spender: Address, amount: i128, token: Address)
        ensures
            emitted(old(host)@, final(host)@, approve_publications(old(host)@, from, spender, amount, token)),
    {
        let mut data: Vec<Value> = Vec::new();
        data.push(Value::I128(amount));
        data.push(Value::Addr(copy_address(&token)));
        let mut metadata = Metadata::new();
        metadata.set(MetaKey::Amount, single(Value::I128(amount)));
        metadata.set(MetaKey::From, single(Value::Addr(copy_address(&from))));
        metadata.set(MetaKey::To, single(Value::Addr(copy_address(&spender))));
        metadata.set(MetaKey::Token, single(Value::Addr(copy_address(&token))));
        let ghost h = host@;
        let ghost s = approve_publications(h, from, spender, amount, token);
        assert(data@ =~= seq![Value::I128(amount), Value::Addr(token)]);
        assert(metadata@ =~= map![
            MetaKey::Amount => seq![Value::I128(amount)],
            MetaKey::From => seq![Value::Addr(from)],
            MetaKey::To => seq![Value::Addr(spender)],
            MetaKey::Token => seq![Value::Addr(token)],
        ]);
        Self::emit_standard(host, Topic::Approve, Some(copy_address(&from)), data, metadata);
        let mut principals: Vec<Address> = Vec::new();
        principals.push(copy_address(&from));
        principals.push(copy_address(&spender));
        assert(principals@ =~= seq![from, spender]);
        host.publish(legacy_event(Topic::Approve, principals, single(Value::I128(amount))));
        assert(host@.log =~= h.log + s);
    }

    /// Publishes a mint of `amount` of `token` to `to`, with its reason if one
    /// is given, then its legacy event.
    pub fn mint(host: &mut Host, to: Address, amount: i128, token: Address, reason: Option<String>)
        ensures
            emitted(old(host)@, final(host)@, mint_publications(old(host)@, to, amount, token, reason)),
    {
        let mut data: Vec<Value> = Vec::new();
        data.push(Value::I128(amount));
        data.push(Value::Addr(copy_address(&token)));
        let mut metadata = Metadata::new();
        metadata.set(MetaKey::Amount, single(Value::I128(amount)));
        metadata.set(MetaKey::To, single(Value::Addr(copy_address(&to))));
        metadata.set(MetaKey::Token, single(Value::Addr(copy_address(&token))));
        let ghost base = metadata@;
        assert(base =~= map![
            MetaKey::Amount => seq![Value::I128(amount)],
            MetaKey::To => seq![Value::Addr(to)],
            MetaKey::Token => seq![Value::Addr(token)],
        ]);
        match &reason {
            Some(r) => {
                metadata.set(MetaKey::Reason, single(Value::Str(copy_string(r))));
            },
            None => {},
        }
        let ghost h = host@;
        let ghost s = mint_publications(h, to, amount, token, reason);
        assert(data@ =~= seq![Value::I128(amount), Value::Addr(token)]);
        assert(metadata@ =~= mint_metadata(to, amount, token, reason));
        Self::emit_standard(host, Topic::Mint, Some(copy_address(&to)), data, metadata);
        host.publish(legacy_event(Topic::Mint, principals1(&to), single(Value::I128(amount))));
        assert(host@.log =~= h.log + s);
    }

    /// Publishes a burn of `amount` of `token` by `from`, then its legacy event.
    pub fn burn(host: &mut Host, from: Address, amount: i128, token: Address)
        ensures
            emitted(old(host)@, final(host)@, burn_publications(old(host)@, from, amount, token)),
    {
        let mut data: Vec<Value> = Vec::new();
        data.push(Value::I128(amount));
        data.push(Value::Addr(copy_address(&token)));
        let mut metadata = Metadata::new();
        metadata.set(MetaKey::Amount, single(Value::I128(amount)));
        metadata.set(MetaKey::From, single(Value::Addr(copy_address(&from))));
        metadata.set(MetaKey::Token, single(Value::Addr(copy_address(&token))));
        let ghost h = host@;
        let ghost s = burn_publications(h, from, amount, token);
        assert(data@ =~= seq![Value::I128(amount), Value::Addr(token)]);
        assert(metadata@ =~= map![
            MetaKey::Amount => seq![Value::I128(amount)],
            MetaKey::From => seq![Value::Addr(from)],
            MetaKey::Token => seq![Value::Addr(token)],
        ]);
        Self::emit_standard(host, Topic::Burn, Some(copy_address(&from)), data, metadata);
        host.publish(legacy_event(Topic::Burn, principals1(&from), single(Value::I128(amount))));
        assert(host@.log =~= h.log + s);
    }

    /// Publishes a change of admin from `old_admin` to `new_admin`, then its
    /// legacy event.
    pub fn admin_changed(host: &mut Host, old_admin: Address, new_admin: Address)
        ensures
            emitted(old(host)@, final(host)@, admin_changed_publications(old(host)@, old_admin, new_admin)),
    {
        let data = single(Value::Addr(copy_address(&new_admin)));
        let mut metadata = Metadata::new();
        metadata.set(MetaKey::From, single(Value::Addr(copy_address(&old_admin))));
        metadata.set(MetaKey::To, single(Value::Addr(copy_address(&new_admin))));
        let ghost h = host@;
        let ghost s = admin_changed_publications(h, old_admin, new_admin);
        assert(metadata@ =~= map![
            MetaKey::From => seq![Value::Addr(old_admin)],
            MetaKey::To => seq![Value::Addr(new_admin)],
        ]);
        Self::emit_standard(host, Topic::AdminChanged, Some(copy_address(&old_admin)), data, metadata);
        host.publish(
            legacy_event(
                Topic::AdminChanged,
                principals1(&old_admin),
                single(Value::Addr(copy_address(&new_admin))),
            ),
        );
        assert(host@.log =~= h.log + s);
    }

    /// Publishes that `user` was authorized or deauthorized, then its legacy event.
    pub fn authorization_changed(host: &mut Host, user: Address, authorized: bool)
        ensures
            emitted(old(host)@, final(host)@, authorization_changed_publications(old(host)@, user, authorized)),
    {
        let data = single(Value::Bool(authorized));
        let mut metadata = Metadata::new();
        metadata.set(MetaKey::To, single(Value::Addr(copy_address(&user))));
        let ghost h = host@;
        let ghost s = authorization_changed_publications(h, user, authorized);
        assert(metadata@ =~= map![MetaKey::To => seq![Value::Addr(user)]]);
        Self::emit_standard(host, Topic::AuthorizationChanged, Some(copy_address(&user)), data, metadata);
        host.publish(
            legacy_event(Topic::AuthorizationChanged, principals1(&user), single(Value::Bool(authorized))),
        );
        assert(host@.log =~= h.log + s);
    }

    /// Publishes a stake of `amount` of `token` by `user`, locked for
    /// `lock_period`, then its legacy event.
    pub fn stake(host: &mut Host, user: Address, amount: i128, lock_period: u64, token: Address)
        ensures
            emitted(old(host)@, final(host)@, stake_publications(old(host)@, user, amount, lock_period, token)),
    {
        let mut data: Vec<Value> = Vec::new();
        data.push(Value::I128(amount));
        data.push(Value::U64(lock_period));
        data.push(Value::Addr(copy_address(&token)));
        let mut metadata = Metadata::new();
        metadata.set(MetaKey::Amount, single(Value::I128(amount)));
        metadata.set(MetaKey::LockPeriod, single(Value::U64(lock_period)));
        metadata.set(MetaKey::Token, single(Value::Addr(copy_address(&token))));
        let ghost h = host@;
        let ghost s = stake_publications(h, user, amount, lock_period, token);
        assert(data@ =~= seq![Value::I128(amount), Value::U64(lock_period), Value::Addr(token)]);
        assert(metadata@ =~= map![
            MetaKey::Amount => seq![Value::I128(amount)],
            MetaKey::LockPeriod => seq![Value::U64(lock_period)],
            MetaKey::Token => seq![Value::Addr(token)],
        ]);
        Self::emit_standard(host, Topic::Stake, Some(copy_address(&user)), data, metadata);
        let mut payload: Vec<Value> = Vec::new();
        payload.push(Value::I128(amount));
        payload.push(Value::U64(lock_period));
        payload.push(Value::U64(host.now()));
        assert(payload@ =~= seq![Value::I128(amount), Value::U64(lock_period), Value::U64(h.timestamp)]);
        host.publish(legacy_event(Topic::Stake, principals1(&user), payload));
        assert(host@.log =~= h.log + s);
    }

    /// Publishes an unstake of `amount` of `token` by `user`, with the rewards
    /// paid and the fee charged, then its legacy event.
    pub fn unstake(
        host: &mut Host,
        user: Address,
        amount: i128,
        rewards: i128,
        fee: i128,
        token: Address,
    )
        ensures
            emitted(
                old(host)@,
                final(host)@,
                unstake_publications(old(host)@, user, amount, rewards, fee, token),
            ),
    {
        let mut data: Vec<Value> = Vec::new();
        data.push(Value::I128(amount));
        data.push(Value::I128(rewards));
        data.push(Value::I128(fee));
        data.push(Value::Addr(copy_address(&token)));
        let mut metadata = Metadata::new();
        metadata.set(MetaKey::Amount, single(Value::I128(amount)));
        metadata.set(MetaKey::Fee, single(Value::I128(fee)));
        metadata.set(MetaKey::Token, single(Value::Addr(copy_address(&token))));
        let ghost h = host@;
        let ghost s = unstake_publications(h, user, amount, rewards, fee, token);
        assert(data@ =~= seq![Value::I128(amount), Value::I128(rewards), Value::I128(fee), Value::Addr(token)]);
        assert(metadata@ =~= map![
            MetaKey::Amount => seq![Value::I128(amount)],
            MetaKey::Fee => seq![Value::I128(fee)],
            MetaKey::Token => seq![Value::Addr(token)],
        ]);
        Self::emit_standard(host, Topic::Unstake, Some(copy_address(&user)), data, metadata);
        let mut payload: Vec<Value> = Vec::new();
        payload.push(Value::I128(amount));
        payload.push(Value::I128(rewards));
        payload.push(Value::I128(fee));
        payload.push(Value::U64(host.now()));
        assert(payload@ =~= seq![
            Value::I128(amount),
            Value::I128(rewards),
            Value::I128(fee),
            Value::U64(h.timestamp),
        ]);
        host.publish(legacy_event(Topic::Unstake, principals1(&user), payload));
        assert(host@.log =~= h.log + s);
    }

    /// Publishes a rewards claim by `user`; its `amount` metadata is the base
    /// and bonus rewards together. Then its legacy event.
    pub fn rewards_claimed(
        host: &mut Host,
        user: Address,
        base_rewards: i128,
        bonus_rewards: i128,
        token: Address,
    )
        requires
            i128::MIN <= claimed_amount(base_rewards, bonus_rewards) <= i128::MAX,
        ensures
            emitted(
                old(host)@,
                final(host)@,
                rewards_claimed_publications(old(host)@, user, base_rewards, bonus_rewards, token),
            ),
    {
        let mut data: Vec<Value> = Vec::new();
        data.push(Value::I128(base_rewards));
        data.push(Value::I128(bonus_rewards));
        data.push(Value::Addr(copy_address(&token)));
        let mut metadata = Metadata::new();
        metadata.set(MetaKey::Amount, single(Value::I128(base_rewards + bonus_rewards)));
        metadata.set(MetaKey::Token, single(Value::Addr(copy_address(&token))));
        let ghost h = host@;
        let ghost s = rewards_claimed_publications(h, user, base_rewards, bonus_rewards, token);
        assert(data@ =~= seq![Value::I128(base_rewards), Value::I128(bonus_rewards), Value::Addr(token)]);
        assert(metadata@ =~= map![
            MetaKey::Amount => seq![Value::I128(claimed_amount(base_rewards, bonus_rewards) as i128)],
            MetaKey::Token => seq![Value::Addr(token)],
        ]);
        Self::emit_standard(host, Topic::RewardsClaimed, Some(copy_address(&user)), data, metadata);
        let mut payload: Vec<Value> = Vec::new();
        payload.push(Value::I128(base_rewards));
        payload.push(Value::I128(bonus_rewards));
        payload.push(Value::U64(host.now()));
        assert(payload@ =~= seq![
            Value::I128(base_rewards),
            Value::I128(bonus_rewards),
            Value::U64(h.timestamp),
        ]);
        host.publish(legacy_event(Topic::RewardsClaimed, principals1(&user), payload));
        assert(host@.log =~= h.log + s);
    }

    /// Publishes a vote of `voter` on a proposal, then its legacy event.
    pub fn vote(
        host: &mut Host,
        voter: Address,
        proposal_id: u64,
        vote_type: String,
        voting_power: u128,
    )
        ensures
            emitted(
                old(host)@,
                final(host)@,
                vote_publications(old(host)@, voter, proposal_id, vote_type, voting_power),
            ),
    {
        let mut data: Vec<Value> = Vec::new();
        data.push(Value::U64(proposal_id));
        data.push(Value::Sym(copy_string(&vote_type)));
        data.push(Value::U128(voting_power));
        let mut metadata = Metadata::new();
        metadata.set(MetaKey::ProposalId, single(Value::U64(proposal_id)));
        metadata.set(MetaKey::VoteType, single(Value::Sym(copy_string(&vote_type))));
        let ghost h = host@;
        let ghost s = vote_publications(h, voter, proposal_id, vote_type, voting_power);
        assert(data@ =~= seq![Value::U64(proposal_id), Value::Sym(vote_type), Value::U128(voting_power)]);
        assert(metadata@ =~= map![
            MetaKey::ProposalId => seq![Value::U64(proposal_id)],
            MetaKey::VoteType => seq![Value::Sym(vote_type)],
        ]);
        Self::emit_standard(host, Topic::Vote, Some(copy_address(&voter)), data, metadata);
        let mut payload: Vec<Value> = Vec::new();
        payload.push(Value::U64(proposal_id));
        payload.push(Value::Sym(copy_string(&vote_type)));
        payload.push(Value::U128(voting_power));
        payload.push(Value::U64(host.now()));
        assert(payload@ =~= seq![
            Value::U64(proposal_id),
            Value::Sym(vote_type),
            Value::U128(voting_power),
            Value::U64(h.timestamp),
        ]);
        host.publish(legacy_event(Topic::Vote, principals1(&voter), payload));
        assert(host@.log =~= h.log + s);
    }

    /// Publishes an update of a staking pool's parameters by `admin`, then its
    /// legacy event.
    pub fn pool_updated(host: &mut Host, admin: Address, reward_rate: i128, bonus_multiplier: u32)
        ensures
            emitted(
                old(host)@,
                final(host)@,
                pool_updated_publications(old(host)@, admin, reward_rate, bonus_multiplier),
            ),
    {
        let mut data: Vec<Value> = Vec::new();
        data.push(Value::I128(reward_rate));
        data.push(Value::U32(bonus_multiplier));
        let mut metadata = Metadata::new();
        metadata.set(MetaKey::RewardRate, single(Value::I128(reward_rate)));
        let ghost h = host@;
        let ghost s = pool_updated_publications(h, admin, reward_rate, bonus_multiplier);
        assert(data@ =~= seq![Value::I128(reward_rate), Value::U32(bonus_multiplier)]);
        assert(metadata@ =~= map![MetaKey::RewardRate => seq![Value::I128(reward_rate)]]);
        Self::emit_standard(host, Topic::PoolUpdated, Some(copy_address(&admin)), data, metadata);
        let mut payload: Vec<Value> = Vec::new();
        payload.push(Value::I128(reward_rate));
        payload.push(Value::U32(bonus_multiplier));
        payload.push(Value::U64(host.now()));
        assert(payload@ =~= seq![
            Value::I128(reward_rate),
            Value::U32(bonus_multiplier),
            Value::U64(h.timestamp),
        ]);
        host.publish(legacy_event(Topic::PoolUpdated, principals1(&admin), payload));
        assert(host@.log =~= h.log + s);
    }

    /// Publishes an executed trade by `trader`. No legacy event follows.
    pub fn trade_executed(
        host: &mut Host,
        trader: Address,
        pair: String,
        amount: i128,
        price: i128,
        is_buy: bool,
        fee_amount: i128,
        fee_token: Address,
    )
        ensures
            emitted(
                old(host)@,
                final(host)@,
                trade_executed_publications(
                    old(host)@,
                    trader,
                    pair,
                    amount,
                    price,
                    is_buy,
                    fee_amount,
                    fee_token,
                ),
            ),
    {
        let mut data: Vec<Value> = Vec::new();
        data.push(Value::Sym(copy_string(&pair)));
        data.push(Value::I128(amount));
        data.push(Value::I128(price));
        data.push(Value::Bool(is_buy));
        data.push(Value::I128(fee_amount));
        data.push(Value::Addr(copy_address(&fee_token)));
        let mut metadata = Metadata::new();
        metadata.set(MetaKey::Pair, single(Value::Sym(copy_string(&pair))));
        metadata.set(MetaKey::Amount, single(Value::I128(amount)));
        metadata.set(MetaKey::Price, single(Value::I128(price)));
        metadata.set(MetaKey::Fee, single(Value::I128(fee_amount)));
        metadata.set(MetaKey::Token, single(Value::Addr(copy_address(&fee_token))));
        let ghost h = host@;
        let ghost s = trade_executed_publications(h, trader, pair, amount, price, is_buy, fee_amount, fee_token);
        assert(data@ =~= seq![
            Value::Sym(pair),
            Value::I128(amount),
            Value::I128(price),
            Value::Bool(is_buy),
            Value::I128(fee_amount),
            Value::Addr(fee_token),
        ]);
        assert(metadata@ =~= map![
            MetaKey::Pair => seq![Value::Sym(pair)],
            MetaKey::Amount => seq![Value::I128(amount)],
            MetaKey::Price => seq![Value::I128(price)],
            MetaKey::Fee => seq![Value::I128(fee_amount)],
            MetaKey::Token => seq![Value::Addr(fee_token)],
        ]);
        Self::emit_standard(host, Topic::TradeExecuted, Some(copy_address(&trader)), data, metadata);
        assert(host@.log =~= h.log + s);
    }

    /// Publishes a fee of `amount` of `token` paid by `payer` to `recipient`.
    /// No legacy event follows.
    pub fn fee_collected(host: &mut Host, payer: Address, recipient: Address, amount: i128, token: Address)
        ensures
            emitted(
                old(host)@,
                final(host)@,
                fee_collected_publications(old(host)@, payer, recipient, amount, token),
            ),
    {
        let mut data: Vec<Value> = Vec::new();
        data.push(Value::I128(amount));
        data.push(Value::Addr(copy_address(&token)));
        let mut metadata = Metadata::new();
        metadata.set(MetaKey::From, single(Value::Addr(copy_address(&payer))));
        metadata.set(MetaKey::To, single(Value::Addr(copy_address(&recipient))));
        metadata.set(MetaKey::Amount, single(Value::I128(amount)));
        metadata.set(MetaKey::Token, single(Value::Addr(copy_address(&token))));
        let ghost h = host@;
        let ghost s = fee_collected_publications(h, payer, recipient, amount, token);
        assert(data@ =~= seq![Value::I128(amount), Value::Addr(token)]);
        assert(metadata@ =~= map![
            MetaKey::From => seq![Value::Addr(payer)],
            MetaKey::To => seq![Value::Addr(recipient)],
            MetaKey::Amount => seq![Value::I128(amount)],
            MetaKey::Token => seq![Value::Addr(token)],
        ]);
        Self::emit_standard(host, Topic::FeeCollected, Some(copy_address(&payer)), data, metadata);
        assert(host@.log =~= h.log + s);
    }

    /// Publishes the creation of a proposal by `proposer`, then its legacy event.
    pub fn proposal_created(
        host: &mut Host,
        proposer: Address,
        proposal_id: u64,
        title: String,
        proposal_type: String,
    )
        ensures
            emitted(
                old(host)@,
                final(host)@,
                proposal_created_publications(old(host)@, proposer, proposal_id, title, proposal_type),
            ),
    {
        let mut data: Vec<Value> = Vec::new();
        data.push(Value::U64(proposal_id));
        data.push(Value::Str(copy_string(&title)));
        data.push(Value::Sym(copy_string(&proposal_type)));
        let mut metadata = Metadata::new();
        metadata.set(MetaKey::ProposalId, single(Value::U64(proposal_id)));
        let ghost h = host@;
        let ghost s = proposal_created_publications(h, proposer, proposal_id, title, proposal_type);
        assert(data@ =~= seq![Value::U64(proposal_id), Value::Str(title), Value::Sym(proposal_type)]);
        assert(metadata@ =~= map![MetaKey::ProposalId => seq![Value::U64(proposal_id)]]);
        Self::emit_standard(host, Topic::ProposalCreated, Some(copy_address(&proposer)), data, metadata);
        let mut payload: Vec<Value> = Vec::new();
        payload.push(Value::U64(proposal_id));
        payload.push(Value::Str(copy_string(&title)));
        payload.push(Value::Sym(copy_string(&proposal_type)));
        payload.push(Value::U64(host.now()));
        assert(payload@ =~= seq![
            Value::U64(proposal_id),
            Value::Str(title),
            Value::Sym(proposal_type),
            Value::U64(h.timestamp),
        ]);
        host.publish(legacy_event(Topic::ProposalCreated, principals1(&proposer), payload));
        assert(host@.log =~= h.log + s);
    }

    /// Publishes the execution of a proposal by `executor`, then its legacy event.
    pub fn proposal_executed(host: &mut Host, executor: Address, proposal_id: u64, success: bool)
        ensures
            emitted(
                old(host)@,
                final(host)@,
                proposal_executed_publications(old(host)@, executor, proposal_id, success),
            ),
    {
        let mut data: Vec<Value> = Vec::new();
        data.push(Value::U64(proposal_id));
        data.push(Value::Bool(success));
        let mut metadata = Metadata::new();
        metadata.set(MetaKey::ProposalId, single(Value::U64(proposal_id)));
        let ghost h = host@;
        let ghost s = proposal_executed_publications(h, executor, proposal_id, success);
        assert(data@ =~= seq![Value::U64(proposal_id), Value::Bool(success)]);
        assert(metadata@ =~= map![MetaKey::ProposalId => seq![Value::U64(proposal_id)]]);
        Self::emit_standard(host, Topic::ProposalExecuted, Some(copy_address(&executor)), data, metadata);
        let mut payload: Vec<Value> = Vec::new();
        payload.push(Value::U64(proposal_id));
        payload.push(Value::Bool(success));
        payload.push(Value::U64(host.now()));
        assert(payload@ =~= seq![Value::U64(proposal_id), Value::Bool(success), Value::U64(h.timestamp)]);
        host.publish(legacy_event(Topic::ProposalExecuted, principals1(&executor), payload));
        assert(host@.log =~= h.log + s);
    }
}

} // verus!
