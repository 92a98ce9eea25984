use contract_interact::address::{Address, Bech32Address};
use contract_interact::catalog::{CallKind, Command, PaymentRule, ResultShape};
use contract_interact::dispatch::{ContractInteract, Outcome, Phase, Report};
use contract_interact::encoding::ArgValue;
use contract_interact::error::InteractError;
use contract_interact::placeholder::{placeholder_arguments, placeholder_payment};
use contract_interact::request::{Payment, Receiver};
use contract_interact::state::{State, StoredRecord};

fn wallet() -> Address {
    Address::new([0xaa; 32])
}

fn code() -> Vec<u8> {
    vec![0, 97, 115, 109, 1, 0, 0, 0]
}

fn x() -> Address {
    Address::new([0x58; 32])
}

fn fresh() -> ContractInteract {
    let state = State::load_state(StoredRecord::Absent).unwrap();
    ContractInteract::new(wallet(), code(), state)
}

fn deployed_at_x() -> ContractInteract {
    let mut state = State::new();
    state.set_address(Bech32Address::from_address(x()));
    ContractInteract::new(wallet(), code(), state)
}

fn deploy_arguments() -> Vec<ArgValue> {
    vec![
        ArgValue::TokenIdentifier(b"MEX-455c57".to_vec()),
        ArgValue::TokenIdentifier(b"LKMEX-aab910".to_vec()),
        ArgValue::Address(Address::new([1; 32])),
        ArgValue::U64(180),
        ArgValue::LockOptions(vec![(360, 4_000)]),
    ]
}

#[test]
fn a_new_dispatcher_is_idle_and_keeps_what_it_was_given() {
    let interact = deployed_at_x();
    assert_eq!(interact.phase(), Phase::Idle);
    assert_eq!(interact.wallet_address(), &wallet());
    assert_eq!(interact.state().current_address().unwrap().as_address(), &x());
    assert_eq!(fresh().into_state(), State::new());
}

#[test]
fn pause_on_a_fresh_state_is_given_up() {
    let mut interact = fresh();
    assert_eq!(interact.begin("pause", &vec![], None), Err(InteractError::NoContractDeployed));
    assert_eq!(interact.phase(), Phase::Idle);
    assert_eq!(interact.state().current_address(), Err(InteractError::NoContractDeployed));
}

#[test]
fn deploy_records_the_new_address() {
    let mut interact = fresh();
    let request = interact.begin("deploy", &deploy_arguments(), None).unwrap();
    assert_eq!(request.call_kind, CallKind::Create);
    assert_eq!(request.sender, wallet());
    assert_eq!(request.receiver, Receiver::NewAccount { code: code() });
    assert_eq!(request.result, ResultShape::NewAddress);
    assert_eq!(request.payment, None);
    assert_eq!(interact.phase(), Phase::Executing(Command::Deploy));

    let report = interact.complete(Outcome::NewAddress(x()));
    assert_eq!(report, Report::NewAddress(Bech32Address::from_address(x())));
    assert_eq!(interact.phase(), Phase::Idle);
    assert_eq!(interact.state().current_address().unwrap().as_address(), &x());

    let record = interact.into_state().record();
    let loaded = State::load_state(record).unwrap();
    assert_eq!(loaded.current_address().unwrap().as_address(), &x());
}

#[test]
fn a_failed_deploy_records_nothing() {
    let mut interact = fresh();
    interact.begin("deploy", &deploy_arguments(), None).unwrap();
    let report = interact.complete(Outcome::Fault(String::from("out of gas")));
    assert_eq!(report, Report::Fault(String::from("out of gas")));
    assert_eq!(interact.phase(), Phase::Idle);
    assert_eq!(interact.state().current_address(), Err(InteractError::NoContractDeployed));
}

#[test]
fn a_second_deploy_replaces_the_address() {
    let mut interact = deployed_at_x();
    interact.begin("deploy", &deploy_arguments(), None).unwrap();
    let y = Address::new([0x59; 32]);
    interact.complete(Outcome::NewAddress(y));
    assert_eq!(interact.state().current_address().unwrap().as_address(), &y);
}

#[test]
fn a_query_goes_to_the_known_contract() {
    let mut interact = deployed_at_x();
    let request = interact.begin("getLockedTokenId", &vec![], None).unwrap();
    assert_eq!(request.call_kind, CallKind::ReadOnly);
    assert_eq!(request.receiver, Receiver::Contract(Bech32Address::from_address(x())));
    assert_eq!(request.function, "getLockedTokenId");
    assert!(request.arguments.is_empty());
    assert_eq!(request.payment, None);
    assert_eq!(interact.phase(), Phase::Executing(Command::GetLockedTokenId));

    let report = interact.complete(Outcome::Values(vec![b"XMEX-1a2b3c".to_vec()]));
    assert_eq!(report, Report::Values(vec![b"XMEX-1a2b3c".to_vec()]));
    assert_eq!(interact.phase(), Phase::Idle);
    assert_eq!(interact.state().current_address().unwrap().as_address(), &x());
}

#[test]
fn lock_tokens_carries_one_token_transfer() {
    let mut interact = deployed_at_x();
    let payment = Payment::Token { identifier: b"MEX-455c57".to_vec(), nonce: 3, amount: 1_000 };
    let request = interact
        .begin(
            "lockTokens",
            &vec![ArgValue::U64(360), ArgValue::OptionalAddress(None)],
            Some(Payment::Token { identifier: b"MEX-455c57".to_vec(), nonce: 3, amount: 1_000 }),
        )
        .unwrap();
    assert_eq!(request.call_kind, CallKind::Mutating);
    assert_eq!(request.receiver, Receiver::Contract(Bech32Address::from_address(x())));
    assert_eq!(request.sender, wallet());
    assert_eq!(request.arguments, vec![vec![1, 104]]);
    assert_eq!(request.payment, Some(payment));
}

#[test]
fn an_unknown_command_is_given_up_first() {
    let mut interact = fresh();
    assert_eq!(
        interact.begin("frobnicate", &vec![ArgValue::Placeholder], None),
        Err(InteractError::UnknownCommand)
    );
    assert_eq!(interact.phase(), Phase::Idle);
    let mut interact = deployed_at_x();
    assert_eq!(interact.begin("frobnicate", &vec![], None), Err(InteractError::UnknownCommand));
    assert_eq!(interact.state().current_address().unwrap().as_address(), &x());
}

#[test]
fn the_address_is_asked_for_before_the_arguments() {
    let mut interact = fresh();
    assert_eq!(
        interact.begin("reduceLockPeriod", &vec![], None),
        Err(InteractError::NoContractDeployed)
    );
    let mut interact = deployed_at_x();
    assert_eq!(
        interact.begin("reduceLockPeriod", &vec![], None),
        Err(InteractError::ArgumentMismatch)
    );
    assert_eq!(
        interact.begin("reduceLockPeriod", &vec![ArgValue::Address(x())], None),
        Err(InteractError::EncodingError)
    );
    assert_eq!(interact.phase(), Phase::Idle);
    assert!(interact.begin("reduceLockPeriod", &vec![ArgValue::U64(7)], None).is_ok());
}

#[test]
fn deploy_needs_no_known_contract_but_fitting_arguments() {
    let mut interact = fresh();
    assert_eq!(interact.begin("deploy", &vec![], None), Err(InteractError::ArgumentMismatch));
    assert_eq!(interact.phase(), Phase::Idle);
}

#[test]
fn a_payment_is_left_out_where_the_operation_takes_none() {
    let mut interact = deployed_at_x();
    let request =
        interact.begin("pause", &vec![], Some(Payment::Egld { amount: 1 })).unwrap();
    assert_eq!(request.payment, None);
    interact.complete(Outcome::Values(vec![]));
    let request = interact
        .begin(
            "isPaused",
            &vec![],
            Some(Payment::Token { identifier: vec![1], nonce: 1, amount: 1 }),
        )
        .unwrap();
    assert_eq!(request.payment, None);
}

#[test]
fn stand_ins_follow_the_slots() {
    assert_eq!(
        placeholder_arguments(&Command::Deploy.argument_kinds()),
        vec![
            ArgValue::TokenIdentifier(vec![]),
            ArgValue::TokenIdentifier(vec![]),
            ArgValue::Placeholder,
            ArgValue::U64(0),
            ArgValue::LockOptions(vec![(0, 0)]),
        ]
    );
    assert_eq!(
        placeholder_arguments(&Command::IssueLockedToken.argument_kinds()),
        vec![ArgValue::Bytes(vec![]), ArgValue::Bytes(vec![]), ArgValue::U32(0)]
    );
    assert_eq!(
        placeholder_arguments(&Command::GetPenaltyAmount.argument_kinds()),
        vec![ArgValue::BigUint(0), ArgValue::U64(0), ArgValue::U64(0)]
    );
    assert_eq!(
        placeholder_arguments(&Command::MergeTokens.argument_kinds()),
        vec![ArgValue::Placeholder]
    );
    assert_eq!(placeholder_arguments(&Command::Pause.argument_kinds()), vec![]);
    assert_eq!(placeholder_payment(PaymentRule::NotPayable), None);
    assert_eq!(placeholder_payment(PaymentRule::Egld), Some(Payment::Egld { amount: 0 }));
    assert_eq!(
        placeholder_payment(PaymentRule::SingleToken),
        Some(Payment::Token { identifier: vec![], nonce: 0, amount: 0 })
    );
}

#[test]
fn stand_ins_build_a_request_where_all_of_them_can_be_encoded() {
    let encodable = [
        "unlockTokens",
        "issueLockedToken",
        "getLockedTokenId",
        "getBaseAssetTokenId",
        "getLegacyLockedTokenId",
        "addLockOptions",
        "getLockOptions",
        "unlockEarly",
        "reduceLockPeriod",
        "getPenaltyAmount",
        "getTokenUnstakeScAddress",
        "migrateOldTokens",
        "pause",
        "unpause",
        "isPaused",
    ];
    for command in Command::all() {
        let mut interact = deployed_at_x();
        let arguments = placeholder_arguments(&command.argument_kinds());
        let payment = placeholder_payment(command.payment_rule());
        let started = interact.begin(command.name(), &arguments, payment);
        if encodable.contains(&command.name()) {
            let request = started.unwrap();
            assert_eq!(request.function, command.name());
            assert_eq!(request.payment, placeholder_payment(command.payment_rule()));
        } else {
            assert_eq!(started, Err(InteractError::EncodingError), "{}", command.name());
        }
    }
}

#[test]
fn errors_have_their_messages() {
    assert_eq!(InteractError::UnknownCommand.message(), "unknown command");
    assert_eq!(InteractError::NoContractDeployed.message(), "no known contract, deploy first");
    assert_eq!(InteractError::MalformedAddress.message(), "malformed address");
    assert_eq!(InteractError::CorruptState.message(), "corrupt state record");
    assert_eq!(
        InteractError::ArgumentMismatch.message(),
        "argument count does not match the operation"
    );
    assert_eq!(InteractError::EncodingError.message(), "argument cannot be encoded");
}

#[test]
fn the_answer_to_a_call_is_its_values_or_its_fault() {
    assert_eq!(
        Outcome::of_call(0, String::new(), vec![vec![1], vec![]]),
        Outcome::Values(vec![vec![1], vec![]])
    );
    assert_eq!(
        Outcome::of_call(4, String::from("user error"), vec![vec![1]]),
        Outcome::Fault(String::from("user error"))
    );
    assert_eq!(
        Outcome::of_call(u64::MAX, String::new(), vec![]),
        Outcome::Fault(String::new())
    );
}

#[test]
fn the_answer_to_a_deploy_is_its_address_or_its_fault() {
    assert_eq!(Outcome::of_deploy(0, String::new(), Some(x())), Outcome::NewAddress(x()));
    assert_eq!(
        Outcome::of_deploy(0, String::from("no address"), None),
        Outcome::Fault(String::from("no address"))
    );
    assert_eq!(
        Outcome::of_deploy(5, String::from("out of funds"), Some(x())),
        Outcome::Fault(String::from("out of funds"))
    );
}
