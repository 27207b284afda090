use stellara_events::{
    Address, EventEmitter, EventSchema, Host, LegacyEvent, MetaKey, Metadata, Publication,
    StandardEvent, Topic, Value, CURRENT_VERSION, EVENT_NAMESPACE,
};

fn addr(s: &str) -> Address {
    Address::new(s.to_string())
}

fn contract() -> Address {
    addr("CCONTRACT")
}

fn host_at(t: u64) -> Host {
    Host::new(contract(), t)
}

fn standard_at(host: &Host, i: usize) -> &StandardEvent {
    match &host.published()[i] {
        Publication::Standard(e) => e,
        Publication::Legacy(_) => panic!("expected a standardized event at {}", i),
    }
}

fn legacy_at(host: &Host, i: usize) -> &LegacyEvent {
    match &host.published()[i] {
        Publication::Legacy(l) => l,
        Publication::Standard(_) => panic!("expected a legacy event at {}", i),
    }
}

fn meta(e: &StandardEvent, k: MetaKey) -> Option<Vec<Value>> {
    e.metadata.get(k).cloned()
}

fn keys(e: &StandardEvent) -> Vec<MetaKey> {
    let mut r = Vec::new();
    let mut i = 0;
    while let Some(k) = MetaKey::from_index(i) {
        if e.metadata.get(k).is_some() {
            r.push(k);
        }
        i += 1;
    }
    r
}

#[test]
fn transfer_publishes_standard_then_legacy() {
    let mut h = host_at(1000);
    EventEmitter::transfer(&mut h, addr("GFROM"), addr("GTO"), 250, addr("CTOKEN"));
    assert_eq!(h.published().len(), 2);
    let e = standard_at(&h, 0);
    assert_eq!(e.event_type, Topic::Transfer);
    assert_eq!(e.user_address, Some(addr("GFROM")));
    assert_eq!(e.contract_address, contract());
    assert_eq!(e.timestamp, 1000);
    assert_eq!(e.version, 1);
    assert_eq!(e.data, vec![Value::I128(250), Value::Addr(addr("CTOKEN"))]);
    assert_eq!(keys(e), vec![MetaKey::Amount, MetaKey::From, MetaKey::To, MetaKey::Token]);
    assert_eq!(meta(e, MetaKey::Amount), Some(vec![Value::I128(250)]));
    assert_eq!(meta(e, MetaKey::From), Some(vec![Value::Addr(addr("GFROM"))]));
    assert_eq!(meta(e, MetaKey::To), Some(vec![Value::Addr(addr("GTO"))]));
    assert_eq!(meta(e, MetaKey::Token), Some(vec![Value::Addr(addr("CTOKEN"))]));
    let l = legacy_at(&h, 1);
    assert_eq!(l.topic, Topic::Transfer);
    assert_eq!(l.principals, vec![addr("GFROM"), addr("GTO")]);
    assert_eq!(l.payload, vec![Value::I128(250)]);
}

#[test]
fn approve_uses_spender_as_to() {
    let mut h = host_at(5);
    EventEmitter::approve(&mut h, addr("GOWNER"), addr("GSPENDER"), -3, addr("CTOKEN"));
    assert_eq!(h.published().len(), 2);
    let e = standard_at(&h, 0);
    assert_eq!(e.event_type, Topic::Approve);
    assert_eq!(e.user_address, Some(addr("GOWNER")));
    assert_eq!(meta(e, MetaKey::To), Some(vec![Value::Addr(addr("GSPENDER"))]));
    assert_eq!(meta(e, MetaKey::Amount), Some(vec![Value::I128(-3)]));
    let l = legacy_at(&h, 1);
    assert_eq!(l.principals, vec![addr("GOWNER"), addr("GSPENDER")]);
    assert_eq!(l.payload, vec![Value::I128(-3)]);
}

#[test]
fn mint_with_and_without_reason() {
    let mut h = host_at(7);
    EventEmitter::mint(&mut h, addr("GTO"), 10, addr("CTOKEN"), Some("airdrop".to_string()));
    EventEmitter::mint(&mut h, addr("GTO"), 11, addr("CTOKEN"), None);
    assert_eq!(h.published().len(), 4);
    let e = standard_at(&h, 0);
    assert_eq!(e.user_address, Some(addr("GTO")));
    assert_eq!(keys(e), vec![MetaKey::Amount, MetaKey::To, MetaKey::Token, MetaKey::Reason]);
    assert_eq!(meta(e, MetaKey::Reason), Some(vec![Value::Str("airdrop".to_string())]));
    assert_eq!(meta(e, MetaKey::From), None);
    let e2 = standard_at(&h, 2);
    assert_eq!(keys(e2), vec![MetaKey::Amount, MetaKey::To, MetaKey::Token]);
    let l = legacy_at(&h, 3);
    assert_eq!(l.topic, Topic::Mint);
    assert_eq!(l.principals, vec![addr("GTO")]);
    assert_eq!(l.payload, vec![Value::I128(11)]);
}

#[test]
fn burn_layout() {
    let mut h = host_at(9);
    EventEmitter::burn(&mut h, addr("GFROM"), 40, addr("CTOKEN"));
    let e = standard_at(&h, 0);
    assert_eq!(e.event_type, Topic::Burn);
    assert_eq!(keys(e), vec![MetaKey::Amount, MetaKey::From, MetaKey::Token]);
    let l = legacy_at(&h, 1);
    assert_eq!(l.principals, vec![addr("GFROM")]);
    assert_eq!(l.payload, vec![Value::I128(40)]);
}

#[test]
fn admin_changed_layout() {
    let mut h = host_at(9);
    EventEmitter::admin_changed(&mut h, addr("GOLD"), addr("GNEW"));
    let e = standard_at(&h, 0);
    assert_eq!(e.event_type, Topic::AdminChanged);
    assert_eq!(e.user_address, Some(addr("GOLD")));
    assert_eq!(e.data, vec![Value::Addr(addr("GNEW"))]);
    assert_eq!(keys(e), vec![MetaKey::From, MetaKey::To]);
    assert_eq!(meta(e, MetaKey::From), Some(vec![Value::Addr(addr("GOLD"))]));
    let l = legacy_at(&h, 1);
    assert_eq!(l.principals, vec![addr("GOLD")]);
    assert_eq!(l.payload, vec![Value::Addr(addr("GNEW"))]);
}

#[test]
fn authorization_changed_layout() {
    let mut h = host_at(9);
    EventEmitter::authorization_changed(&mut h, addr("GUSER"), false);
    let e = standard_at(&h, 0);
    assert_eq!(e.event_type, Topic::AuthorizationChanged);
    assert_eq!(e.data, vec![Value::Bool(false)]);
    assert_eq!(keys(e), vec![MetaKey::To]);
    let l = legacy_at(&h, 1);
    assert_eq!(l.payload, vec![Value::Bool(false)]);
}

#[test]
fn stake_legacy_carries_timestamp() {
    let mut h = host_at(1234);
    EventEmitter::stake(&mut h, addr("GUSER"), 500, 86400, addr("CTOKEN"));
    let e = standard_at(&h, 0);
    assert_eq!(e.data, vec![Value::I128(500), Value::U64(86400), Value::Addr(addr("CTOKEN"))]);
    assert_eq!(keys(e), vec![MetaKey::Amount, MetaKey::Token, MetaKey::LockPeriod]);
    assert_eq!(meta(e, MetaKey::LockPeriod), Some(vec![Value::U64(86400)]));
    let l = legacy_at(&h, 1);
    assert_eq!(l.topic, Topic::Stake);
    assert_eq!(l.payload, vec![Value::I128(500), Value::U64(86400), Value::U64(1234)]);
}

#[test]
fn unstake_layout() {
    let mut h = host_at(77);
    EventEmitter::unstake(&mut h, addr("GUSER"), 500, 20, 5, addr("CTOKEN"));
    let e = standard_at(&h, 0);
    assert_eq!(
        e.data,
        vec![Value::I128(500), Value::I128(20), Value::I128(5), Value::Addr(addr("CTOKEN"))]
    );
    assert_eq!(keys(e), vec![MetaKey::Amount, MetaKey::Token, MetaKey::Fee]);
    assert_eq!(meta(e, MetaKey::Fee), Some(vec![Value::I128(5)]));
    let l = legacy_at(&h, 1);
    assert_eq!(
        l.payload,
        vec![Value::I128(500), Value::I128(20), Value::I128(5), Value::U64(77)]
    );
}

#[test]
fn rewards_claimed_amount_is_base_plus_bonus() {
    let mut h = host_at(3);
    EventEmitter::rewards_claimed(&mut h, addr("GUSER"), 100, 25, addr("CTOKEN"));
    let e = standard_at(&h, 0);
    assert_eq!(meta(e, MetaKey::Amount), Some(vec![Value::I128(125)]));
    assert_eq!(keys(e), vec![MetaKey::Amount, MetaKey::Token]);
    assert_eq!(e.data, vec![Value::I128(100), Value::I128(25), Value::Addr(addr("CTOKEN"))]);
    let l = legacy_at(&h, 1);
    assert_eq!(l.payload, vec![Value::I128(100), Value::I128(25), Value::U64(3)]);
}

#[test]
fn vote_layout() {
    let mut h = host_at(3);
    EventEmitter::vote(&mut h, addr("GVOTER"), 42, "yes".to_string(), 1000);
    let e = standard_at(&h, 0);
    assert_eq!(e.user_address, Some(addr("GVOTER")));
    assert_eq!(keys(e), vec![MetaKey::ProposalId, MetaKey::VoteType]);
    assert_eq!(meta(e, MetaKey::VoteType), Some(vec![Value::Sym("yes".to_string())]));
    let l = legacy_at(&h, 1);
    assert_eq!(
        l.payload,
        vec![Value::U64(42), Value::Sym("yes".to_string()), Value::U128(1000), Value::U64(3)]
    );
}

#[test]
fn pool_updated_layout() {
    let mut h = host_at(8);
    EventEmitter::pool_updated(&mut h, addr("GADMIN"), 15, 2);
    let e = standard_at(&h, 0);
    assert_eq!(e.data, vec![Value::I128(15), Value::U32(2)]);
    assert_eq!(keys(e), vec![MetaKey::RewardRate]);
    let l = legacy_at(&h, 1);
    assert_eq!(l.payload, vec![Value::I128(15), Value::U32(2), Value::U64(8)]);
}

#[test]
fn trade_executed_has_no_legacy_event() {
    let mut h = host_at(50);
    EventEmitter::trade_executed(
        &mut h,
        addr("GTRADER"),
        "XLMUSDC".to_string(),
        300,
        12,
        true,
        2,
        addr("CFEE"),
    );
    assert_eq!(h.published().len(), 1);
    let e = standard_at(&h, 0);
    assert_eq!(e.event_type, Topic::TradeExecuted);
    assert_eq!(e.user_address, Some(addr("GTRADER")));
    assert_eq!(
        keys(e),
        vec![MetaKey::Amount, MetaKey::Token, MetaKey::Pair, MetaKey::Price, MetaKey::Fee]
    );
    assert_eq!(
        e.data,
        vec![
            Value::Sym("XLMUSDC".to_string()),
            Value::I128(300),
            Value::I128(12),
            Value::Bool(true),
            Value::I128(2),
            Value::Addr(addr("CFEE")),
        ]
    );
    assert_eq!(meta(e, MetaKey::Token), Some(vec![Value::Addr(addr("CFEE"))]));
}

#[test]
fn fee_collected_has_no_legacy_event() {
    let mut h = host_at(50);
    EventEmitter::fee_collected(&mut h, addr("GPAYER"), addr("GRECIP"), 9, addr("CTOKEN"));
    assert_eq!(h.published().len(), 1);
    let e = standard_at(&h, 0);
    assert_eq!(e.user_address, Some(addr("GPAYER")));
    assert_eq!(keys(e), vec![MetaKey::Amount, MetaKey::From, MetaKey::To, MetaKey::Token]);
}

#[test]
fn proposal_created_layout() {
    let mut h = host_at(60);
    EventEmitter::proposal_created(&mut h, addr("GPROP"), 7, "Raise fee".to_string(), "param".to_string());
    let e = standard_at(&h, 0);
    assert_eq!(e.event_type, Topic::ProposalCreated);
    assert_eq!(
        e.data,
        vec![Value::U64(7), Value::Str("Raise fee".to_string()), Value::Sym("param".to_string())]
    );
    assert_eq!(keys(e), vec![MetaKey::ProposalId]);
    let l = legacy_at(&h, 1);
    assert_eq!(
        l.payload,
        vec![
            Value::U64(7),
            Value::Str("Raise fee".to_string()),
            Value::Sym("param".to_string()),
            Value::U64(60),
        ]
    );
}

#[test]
fn proposal_executed_layout() {
    let mut h = host_at(61);
    EventEmitter::proposal_executed(&mut h, addr("GEXEC"), 7, true);
    let e = standard_at(&h, 0);
    assert_eq!(e.event_type, Topic::ProposalExecuted);
    assert_eq!(e.data, vec![Value::U64(7), Value::Bool(true)]);
    let l = legacy_at(&h, 1);
    assert_eq!(l.payload, vec![Value::U64(7), Value::Bool(true), Value::U64(61)]);
}

#[test]
fn emit_standard_stamps_version_identity_and_clock() {
    let mut h = host_at(99);
    let mut m = Metadata::new();
    m.set(MetaKey::Reason, vec![Value::Str("a".to_string())]);
    m.set(MetaKey::Reason, vec![Value::Str("b".to_string()), Value::Bool(true)]);
    EventEmitter::emit_standard(&mut h, Topic::Vote, None, vec![Value::U32(1)], m);
    assert_eq!(h.published().len(), 1);
    let e = standard_at(&h, 0);
    assert_eq!(e.version, EventSchema::current_version());
    assert_eq!(e.contract_address, contract());
    assert_eq!(e.timestamp, 99);
    assert_eq!(e.user_address, None);
    assert_eq!(
        meta(e, MetaKey::Reason),
        Some(vec![Value::Str("b".to_string()), Value::Bool(true)])
    );
}

#[test]
fn repeated_emission_is_not_deduplicated() {
    let mut h = host_at(100);
    EventEmitter::transfer(&mut h, addr("GA"), addr("GB"), 1, addr("CT"));
    h.advance_clock(105);
    EventEmitter::transfer(&mut h, addr("GA"), addr("GB"), 1, addr("CT"));
    assert_eq!(h.published().len(), 4);
    assert_eq!(standard_at(&h, 0).timestamp, 100);
    assert_eq!(standard_at(&h, 2).timestamp, 105);
    assert_eq!(legacy_at(&h, 1), legacy_at(&h, 3));
    let taken = h.take_published();
    assert_eq!(taken.len(), 4);
    assert_eq!(h.published().len(), 0);
    assert_eq!(h.now(), 105);
    assert_eq!(h.self_identity(), contract());
}

#[test]
fn same_clock_twice_gives_two_equal_events() {
    let mut h = host_at(100);
    EventEmitter::burn(&mut h, addr("GA"), 1, addr("CT"));
    EventEmitter::burn(&mut h, addr("GA"), 1, addr("CT"));
    assert_eq!(h.published().len(), 4);
    assert_eq!(h.published()[0], h.published()[2]);
}

#[test]
fn schema_compatibility() {
    assert_eq!(EventSchema::current_version(), 1);
    assert_eq!(CURRENT_VERSION, 1);
    assert!(EventSchema::is_compatible(0));
    assert!(EventSchema::is_compatible(1));
    assert!(EventSchema::is_compatible(EventSchema::current_version()));
    assert!(!EventSchema::is_compatible(2));
    assert!(!EventSchema::is_compatible(u32::MAX));
}

#[test]
fn registry_tags() {
    assert_eq!(Topic::Transfer.tag(), "transfer");
    assert_eq!(Topic::ProposalCreated.tag(), "propose");
    assert_eq!(Topic::ProposalExecuted.tag(), "execute");
    assert_eq!(Topic::TradeExecuted.tag(), "trade");
    assert_eq!(Topic::FeeCollected.tag(), "fee");
    assert_eq!(Topic::AuthorizationChanged.tag(), "auth_changed");
    assert_eq!(MetaKey::ProposalId.tag(), "proposal_id");
    assert_eq!(MetaKey::RewardRate.tag(), "reward_rate");
    assert_eq!(EVENT_NAMESPACE, "stellara_event");
    assert_eq!(MetaKey::from_index(12), None);
    assert_eq!(MetaKey::from_index(0), Some(MetaKey::Amount));
    assert_eq!(MetaKey::Fee.index(), 6);
}
