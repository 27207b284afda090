use vstd::prelude::*;
use crate::emitter::{admin_changed_publications, approve_publications, authorization_changed_publications, burn_publications, claimed_amount, emitted, fee_collected_publications, legacy, mint_metadata, mint_publications, pool_updated_publications, proposal_created_publications, proposal_executed_publications, rewards_claimed_publications, stake_publications, standard, trade_executed_publications, transfer_publications, unstake_publications, vote_publications};
use crate::event::{EventView, PublicationView};
use crate::host::HostView;
use crate::registry::{MetaKey, Topic};
use crate::schema::EventSchema;
use crate::value::{Address, Value};

verus! {

/// Every standardized event in `s` carries the current schema version, the
/// contract identity of `h` and the clock of `h`.
pub open spec fn stamped(h: HostView, s: Seq<PublicationView>) -> bool {
    forall|i: int|
        0 <= i < s.len() ==> match #[trigger] s[i] {
            PublicationView::Standard(e) => e.version == EventSchema::spec_current_version()
                && e.contract_address == h.contract && e.timestamp == h.timestamp,
            PublicationView::Legacy { .. } => true,
        }
}

/// Whatever an emission operation is called with, the standardized event it
/// publishes is stamped with the schema version current at the call and with
/// the executing contract's own identity: no argument can set either.
pub proof fn lemma_emissions_stamped(h: HostView)
    ensures
        forall|t: Topic, u: Option<Address>, d: Seq<Value>, m: Map<MetaKey, Seq<Value>>|
            stamped(h, #[trigger] seq![standard(h, t, u, d, m)]),
        forall|from: Address, to: Address, amount: i128, token: Address|
            stamped(h, #[trigger] transfer_publications(h, from, to, amount, token)),
        forall|from: Address, spender: Address, amount: i128, token: Address|
            stamped(h, #[trigger] approve_publications(h, from, spender, amount, token)),
        forall|to: Address, amount: i128, token: Address, reason: Option<String>|
            stamped(h, #[trigger] mint_publications(h, to, amount, token, reason)),
        forall|from: Address, amount: i128, token: Address|
            stamped(h, #[trigger] burn_publications(h, from, amount, token)),
        forall|old_admin: Address, new_admin: Address|
            stamped(h, #[trigger] admin_changed_publications(h, old_admin, new_admin)),
        forall|user: Address, authorized: bool|
            stamped(h, #[trigger] authorization_changed_publications(h, user, authorized)),
        forall|user: Address, amount: i128, lock_period: u64, token: Address|
            stamped(h, #[trigger] stake_publications(h, user, amount, lock_period, token)),
        forall|user: Address, amount: i128, rewards: i128, fee: i128, token: Address|
            stamped(h, #[trigger] unstake_publications(h, user, amount, rewards, fee, token)),
        forall|user: Address, base: i128, bonus: i128, token: Address|
            stamped(h, #[trigger] rewards_claimed_publications(h, user, base, bonus, token)),
        forall|voter: Address, id: u64, vote_type: String, power: u128|
            stamped(h, #[trigger] vote_publications(h, voter, id, vote_type, power)),
        forall|admin: Address, rate: i128, multiplier: u32|
            stamped(h, #[trigger] pool_updated_publications(h, admin, rate, multiplier)),
        forall|
            trader: Address,
            pair: String,
            amount: i128,
            price: i128,
            is_buy: bool,
            fee: i128,
            fee_token: Address,
        |
            stamped(
                h,
                #[trigger] trade_executed_publications(h, trader, pair, amount, price, is_buy, fee, fee_token),
            ),
        forall|payer: Address, recipient: Address, amount: i128, token: Address|
            stamped(h, #[trigger] fee_collected_publications(h, payer, recipient, amount, token)),
        forall|proposer: Address, id: u64, title: String, kind: String|
            stamped(h, #[trigger] proposal_created_publications(h, proposer, id, title, kind)),
        forall|executor: Address, id: u64, success: bool|
            stamped(h, #[trigger] proposal_executed_publications(h, executor, id, success)),
{
}

/// A transfer publishes exactly two events, in order: the standardized event
/// for `from`, with the amount, both parties and the token under their keys
/// and under no other key; then the legacy event keyed by the two parties,
/// carrying the amount.
pub proof fn lemma_transfer_layout(h: HostView, from: Address, to: Address, amount: i128, token: Address)
    ensures
        ({
            let s = transfer_publications(h, from, to, amount, token);
            &&& s.len() == 2
            &&& s[0] is Standard
            &&& s[0]->Standard_0.event_type == Topic::Transfer
            &&& s[0]->Standard_0.user_address == Some(from)
            &&& s[0]->Standard_0.metadata.dom() == set![
                MetaKey::Amount,
                MetaKey::From,
                MetaKey::To,
                MetaKey::Token,
            ]
            &&& s[0]->Standard_0.metadata[MetaKey::Amount] == seq![Value::I128(amount)]
            &&& s[0]->Standard_0.metadata[MetaKey::From] == seq![Value::Addr(from)]
            &&& s[0]->Standard_0.metadata[MetaKey::To] == seq![Value::Addr(to)]
            &&& s[0]->Standard_0.metadata[MetaKey::Token] == seq![Value::Addr(token)]
            &&& s[1] == (PublicationView::Legacy {
                topic: Topic::Transfer,
                principals: seq![from, to],
                payload: seq![Value::I128(amount)],
            })
        }),
{
    let m = transfer_publications(h, from, to, amount, token)[0]->Standard_0.metadata;
    assert(m.dom() =~= set![MetaKey::Amount, MetaKey::From, MetaKey::To, MetaKey::Token]);
}

/// A trade publishes exactly one event, the standardized one, with the pair,
/// amount, price, fee and token under their keys and under no other key.
pub proof fn lemma_trade_layout(
    h: HostView,
    trader: Address,
    pair: String,
    amount: i128,
    price: i128,
    is_buy: bool,
    fee_amount: i128,
    fee_token: Address,
)
    ensures
        ({
            let s = trade_executed_publications(h, trader, pair, amount, price, is_buy, fee_amount, fee_token);
            &&& s.len() == 1
            &&& s[0] is Standard
            &&& s[0]->Standard_0.event_type == Topic::TradeExecuted
            &&& s[0]->Standard_0.metadata.dom() == set![
                MetaKey::Pair,
                MetaKey::Amount,
                MetaKey::Price,
                MetaKey::Fee,
                MetaKey::Token,
            ]
        }),
{
    let m = trade_executed_publications(h, trader, pair, amount, price, is_buy, fee_amount, fee_token)[0]->Standard_0.metadata;
    assert(m.dom() =~= set![MetaKey::Pair, MetaKey::Amount, MetaKey::Price, MetaKey::Fee, MetaKey::Token]);
}

/// A rewards claim records as its amount the base and bonus rewards together.
pub proof fn lemma_rewards_amount_is_total(
    h: HostView,
    user: Address,
    base_rewards: i128,
    bonus_rewards: i128,
    token: Address,
)
    requires
        i128::MIN <= base_rewards + bonus_rewards <= i128::MAX,
    ensures
        ({
            let s = rewards_claimed_publications(h, user, base_rewards, bonus_rewards, token);
            &&& s[0] is Standard
            &&& s[0]->Standard_0.metadata[MetaKey::Amount] == seq![
                Value::I128((base_rewards + bonus_rewards) as i128),
            ]
        }),
{
}

/// Emitting the same transfer twice, with the clock possibly moved forward in
/// between, publishes both events: nothing is deduplicated, and each standardized
/// event carries the clock of its own call and is otherwise the same.
pub proof fn lemma_repeated_transfer_publishes_twice(
    h0: HostView,
    h1: HostView,
    h2: HostView,
    h3: HostView,
    from: Address,
    to: Address,
    amount: i128,
    token: Address,
)
    requires
        emitted(h0, h1, transfer_publications(h0, from, to, amount, token)),
        h2 == (HostView { timestamp: h2.timestamp, ..h1 }),
        h1.timestamp <= h2.timestamp,
        emitted(h2, h3, transfer_publications(h2, from, to, amount, token)),
    ensures
        h3.log.len() == h0.log.len() + 4,
        h3.log.subrange(0, h0.log.len() as int) == h0.log,
        h3.log[h0.log.len() as int] is Standard,
        h3.log[h0.log.len() + 2int] is Standard,
        h3.log[h0.log.len() as int]->Standard_0.timestamp == h0.timestamp,
        h3.log[h0.log.len() + 2int]->Standard_0.timestamp == h2.timestamp,
        h3.log[h0.log.len() + 2int]->Standard_0 == (EventView {
            timestamp: h2.timestamp,
            ..h3.log[h0.log.len() as int]->Standard_0
        }),
        h3.log[h0.log.len() + 1int] == h3.log[h0.log.len() + 3int],
{
    assert(h3.log.subrange(0, h0.log.len() as int) =~= h0.log);
}

} // verus!
