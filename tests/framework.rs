use cqrs_demo::commands::{BankAccountCommand, DepositMoney, OpenAccount, WithdrawMoney, WriteCheck};
use cqrs_demo::config::cqrs_framework;
use cqrs_demo::error::{AggregateError, DomainError};
use cqrs_demo::events::{BankAccountEvent, EventEnvelope};
use cqrs_demo::framework::CqrsFramework;
use cqrs_demo::metadata::{Metadata, MetadataExtension};
use cqrs_demo::queries::{AccountQuery, BankAccountView, SimpleLoggingQuery};
use cqrs_demo::services::{HappyPathBankAccountServices, HappyPathServicesFactory};
use cqrs_demo::store::MemStore;
use cqrs_demo::timer::Timer;

fn deposit(amount: u64) -> BankAccountCommand {
    BankAccountCommand::DepositMoney(DepositMoney { amount })
}

fn envelope(id: &str, sequence: u64, payload: BankAccountEvent) -> EventEnvelope {
    EventEnvelope { aggregate_id: id.to_string(), sequence, payload, metadata: Metadata::new() }
}

#[test]
fn test_event_store_single_command() {
    let mut cqrs = CqrsFramework::new(HappyPathBankAccountServices);
    cqrs.execute(&"test_id".to_string(), deposit(1000_00)).unwrap();
}

#[test]
fn deposit_then_query() {
    let mut cqrs = cqrs_framework();
    let id = "A".to_string();
    let committed = cqrs.execute(&id, deposit(200_00)).unwrap();
    assert_eq!(committed.len(), 1);
    assert_eq!(committed[0].sequence, 1);
    assert_eq!(committed[0].aggregate_id, "A");
    assert_eq!(
        committed[0].payload,
        BankAccountEvent::CustomerDepositedMoney { amount: 200_00, balance: 200_00 }
    );
    let view = cqrs.load_view(&id).unwrap();
    assert_eq!(view.balance(), 200_00);
    assert_eq!(view.last_sequence(), 1);
}

#[test]
fn sequential_deposits_accumulate() {
    let mut cqrs = cqrs_framework();
    let id = "A".to_string();
    cqrs.execute(&id, deposit(200_00)).unwrap();
    let second = cqrs.execute(&id, deposit(200_00)).unwrap();
    assert_eq!(second[0].sequence, 2);
    assert_eq!(second[0].payload, BankAccountEvent::CustomerDepositedMoney { amount: 200_00, balance: 400_00 });
    assert_eq!(cqrs.load_view(&id).unwrap().balance(), 400_00);
    assert_eq!(cqrs.load_events(&id).len(), 2);
}

#[test]
fn overdraft_rejected_and_store_untouched() {
    let mut cqrs = cqrs_framework();
    let id = "B".to_string();
    let result = cqrs.execute(&id, BankAccountCommand::WithdrawMoney(WithdrawMoney { amount: 200_00 }));
    let error = result.unwrap_err();
    assert_eq!(error, AggregateError::UserError(DomainError::FundsNotAvailable));
    assert_eq!(error.message(), "funds not available");
    assert!(cqrs.load_events(&id).is_empty());
    assert!(cqrs.load_view(&id).is_none());
}

#[test]
fn check_tracking() {
    let mut cqrs = cqrs_framework();
    let id = "C".to_string();
    cqrs.execute(&id, deposit(200_00)).unwrap();
    let committed = cqrs
        .execute(&id, BankAccountCommand::WriteCheck(WriteCheck { check_number: "1170".to_string(), amount: 100_00 }))
        .unwrap();
    assert_eq!(committed.len(), 1);
    let view = cqrs.load_view(&id).unwrap();
    assert_eq!(view.balance(), 100_00);
    assert_eq!(view.written_checks(), &vec!["1170".to_string()]);
}

#[test]
fn open_account_shows_in_view() {
    let mut cqrs = cqrs_framework();
    let id = "D".to_string();
    cqrs.execute(&id, BankAccountCommand::OpenAccount(OpenAccount { account_id: "D-1".to_string() })).unwrap();
    let view = cqrs.load_view(&id).unwrap();
    assert_eq!(view.account_id().unwrap(), "D-1");
    assert_eq!(view.balance(), 0);
}

#[test]
fn accounts_are_independent() {
    let mut cqrs = cqrs_framework();
    cqrs.execute(&"A".to_string(), deposit(5)).unwrap();
    let other = cqrs.execute(&"B".to_string(), deposit(7)).unwrap();
    assert_eq!(other[0].sequence, 1);
    assert_eq!(cqrs.load_view(&"A".to_string()).unwrap().balance(), 5);
    assert_eq!(cqrs.load_view(&"B".to_string()).unwrap().balance(), 7);
}

#[test]
fn concurrent_commits_one_wins_one_conflicts() {
    let mut cqrs = cqrs_framework();
    let id = "A".to_string();
    cqrs.execute(&id, deposit(100)).unwrap();
    let first = cqrs.prepare(&id, deposit(10), Metadata::new()).unwrap();
    let second = cqrs.prepare(&id, deposit(20), Metadata::new()).unwrap();
    assert_eq!(first.expected_sequence, 1);
    assert_eq!(second.expected_sequence, 1);
    let won = cqrs.commit(first).unwrap();
    assert_eq!(won[0].sequence, 2);
    let lost = cqrs.commit(second);
    assert_eq!(lost.unwrap_err(), AggregateError::AggregateConflict);
    assert_eq!(cqrs.load_events(&id).len(), 2);
    assert_eq!(cqrs.load_view(&id).unwrap().balance(), 110);
    let retried = cqrs.prepare(&id, deposit(20), Metadata::new()).unwrap();
    let committed = cqrs.commit(retried).unwrap();
    assert_eq!(committed[0].sequence, 3);
    assert_eq!(cqrs.load_view(&id).unwrap().balance(), 130);
}

#[test]
fn conflict_message_is_distinct() {
    assert_eq!(AggregateError::AggregateConflict.message(), "command conflicted with a concurrent write");
}

#[test]
fn metadata_is_copied_onto_every_event() {
    let mut cqrs = cqrs_framework();
    let id = "M".to_string();
    let extension = MetadataExtension::from_request(
        "2024-01-01T00:00:00+00:00".to_string(),
        "/account/M".to_string(),
        Some("curl/8.0".to_string()),
    );
    let committed = cqrs.execute_with_metadata(&id, deposit(1), extension.0).unwrap();
    let metadata = &committed[0].metadata;
    assert_eq!(metadata.get(&"time".to_string()).unwrap(), "2024-01-01T00:00:00+00:00");
    assert_eq!(metadata.get(&"uri".to_string()).unwrap(), "/account/M");
    assert_eq!(metadata.get(&"User-Agent".to_string()).unwrap(), "curl/8.0");
    let loaded = cqrs.load_events(&id);
    assert_eq!(loaded[0].metadata.get(&"uri".to_string()).unwrap(), "/account/M");
}

#[test]
fn request_without_agent_has_two_entries() {
    let extension = MetadataExtension::from_request("t".to_string(), "u".to_string(), None);
    assert!(extension.0.get(&"User-Agent".to_string()).is_none());
    assert_eq!(extension.0.get(&"time".to_string()).unwrap(), "t");
}

#[test]
fn metadata_insert_replaces() {
    let mut metadata = Metadata::new();
    metadata.insert("k".to_string(), "1".to_string());
    metadata.insert("j".to_string(), "2".to_string());
    metadata.insert("k".to_string(), "3".to_string());
    assert_eq!(metadata.get(&"k".to_string()).unwrap(), "3");
    assert_eq!(metadata.get(&"j".to_string()).unwrap(), "2");
    assert!(metadata.get(&"x".to_string()).is_none());
    let copy = metadata.duplicate();
    assert_eq!(copy.get(&"k".to_string()).unwrap(), "3");
}

#[test]
fn store_assigns_sequences_and_detects_conflicts() {
    let mut store = MemStore::new();
    let id = "S".to_string();
    let events = vec![
        BankAccountEvent::CustomerDepositedMoney { amount: 1, balance: 1 },
        BankAccountEvent::CustomerDepositedMoney { amount: 1, balance: 2 },
    ];
    let committed = store.commit(&id, 0, &events, &Metadata::new()).unwrap();
    assert_eq!(committed.iter().map(|e| e.sequence).collect::<Vec<_>>(), vec![1, 2]);
    assert_eq!(store.last_sequence(&id), 2);
    assert_eq!(store.last_sequence(&"other".to_string()), 0);
    let stale = store.commit(&id, 0, &events, &Metadata::new());
    assert_eq!(stale.unwrap_err(), AggregateError::AggregateConflict);
    assert_eq!(store.load(&id).len(), 2);
    assert!(store.load(&"other".to_string()).is_empty());
}

#[test]
fn view_replay_is_idempotent() {
    let mut view = BankAccountView::default();
    let event = envelope("V", 1, BankAccountEvent::CustomerWroteCheck {
        check_number: "12".to_string(),
        amount: 5,
        balance: 95,
    });
    view.update(&event);
    view.update(&event);
    assert_eq!(view.balance(), 95);
    assert_eq!(view.written_checks(), &vec!["12".to_string()]);
    assert_eq!(view.last_sequence(), 1);
    let older = envelope("V", 1, BankAccountEvent::CustomerDepositedMoney { amount: 1000, balance: 1000 });
    view.update(&older);
    assert_eq!(view.balance(), 95);
}

#[test]
fn view_applies_events_in_order() {
    let mut view = BankAccountView::default();
    let events = vec![
        envelope("V", 1, BankAccountEvent::AccountOpened { account_id: "V".to_string() }),
        envelope("V", 2, BankAccountEvent::CustomerDepositedMoney { amount: 10, balance: 10 }),
        envelope("V", 3, BankAccountEvent::CustomerWithdrewCash { amount: 4, balance: 6 }),
    ];
    view.apply_events(&events);
    view.apply_events(&events);
    assert_eq!(view.balance(), 6);
    assert_eq!(view.last_sequence(), 3);
    assert_eq!(view.account_id().unwrap(), "V");
    assert!(view.duplicate().written_checks().is_empty());
}

#[test]
fn account_query_creates_views_lazily() {
    let mut query = AccountQuery::new();
    let id = "Q".to_string();
    assert!(query.load(&id).is_none());
    query.dispatch(&id, &vec![]);
    assert!(query.load(&id).is_none());
    query.dispatch(&id, &vec![envelope("Q", 1, BankAccountEvent::CustomerDepositedMoney { amount: 3, balance: 3 })]);
    assert_eq!(query.load(&id).unwrap().balance(), 3);
    query.dispatch(&id, &vec![envelope("Q", 2, BankAccountEvent::CustomerDepositedMoney { amount: 3, balance: 6 })]);
    assert_eq!(query.load(&id).unwrap().balance(), 6);
}

#[test]
fn logging_headings_name_stream_and_sequence() {
    let mut store = MemStore::new();
    let id = "log".to_string();
    let events: Vec<BankAccountEvent> =
        (1..=12u64).map(|b| BankAccountEvent::CustomerDepositedMoney { amount: 1, balance: b }).collect();
    let committed = store.commit(&id, 0, &events, &Metadata::new()).unwrap();
    let headings = SimpleLoggingQuery {}.dispatch(&committed);
    assert_eq!(headings.len(), 12);
    assert_eq!(headings[0], "log-1");
    assert_eq!(headings[11], "log-12");
}

#[test]
fn factory_wraps_command_with_happy_services() {
    let wrapped = HappyPathServicesFactory.wrap_bank_account_command(deposit(3));
    assert_eq!(wrapped.payload, deposit(3));
}

#[test]
fn timer_keeps_its_name() {
    let timer = Timer::new("query");
    assert_eq!(timer.function(), "query");
    let _ = timer.elapsed();
}
