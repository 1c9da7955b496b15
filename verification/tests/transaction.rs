use kinect_one::command::transaction::{
    check_complete_response, has_complete_shape, Action, Event, Phase,
};
use kinect_one::command::{
    color_setting_command, read_status_command, set_mode_command, CommandTransaction,
};
use kinect_one::settings::ColorSettingCommandType;
use kinect_one::{Error, TransportFailure};

fn completion(sequence: u32) -> Vec<u8> {
    let mut bytes = vec![0x0a, 0x6f, 0xe0, 0x00];
    bytes.extend(sequence.to_le_bytes());
    bytes.extend([0u8; 8]);
    bytes
}

#[test]
fn completion_validates_with_its_sequence() {
    let buffer = [0x0a, 0x6f, 0xe0, 0x00, 0x2a, 0, 0, 0, 0, 0, 0, 0, 0, 0, 0, 0];
    assert_eq!(completion(42), buffer);
    assert!(has_complete_shape(&buffer));
    assert_eq!(check_complete_response(&buffer, 42), Ok(()));
    assert_eq!(check_complete_response(&buffer, 43), Err(Error::InvalidSequence(42, 43)));
}

#[test]
fn bytes_without_the_magic_are_no_completion() {
    let buffer = [0x00, 0xe0, 0x6f, 0x0a, 0x2a, 0, 0, 0, 0, 0, 0, 0, 0, 0, 0, 0];
    assert!(!has_complete_shape(&buffer));
    assert_eq!(check_complete_response(&buffer, 42), Err(Error::MissingComplete));
    let mut wrong = completion(42);
    wrong[3] = 1;
    assert_eq!(check_complete_response(&wrong, 42), Err(Error::MissingComplete));
    assert!(!has_complete_shape(&completion(1)[..15]));
    assert_eq!(check_complete_response(&completion(1)[..15], 1), Err(Error::MissingComplete));
    let mut long = completion(1);
    long.push(0);
    assert!(!has_complete_shape(&long));
    assert_eq!(check_complete_response(&long, 1), Err(Error::MissingComplete));
    assert_eq!(check_complete_response(&[], 0), Err(Error::MissingComplete));
}

#[test]
fn completion_without_magic_fails_the_transaction() {
    let mut transaction = CommandTransaction::new(0x81, 0x02);
    let (mut exchange, _) = transaction.begin(&read_status_command(0));
    exchange.handle(Event::Written(24));
    exchange.handle(Event::Received(vec![1, 0, 0, 0]));
    let mut wrong = completion(1);
    wrong[0] = 0x0b;
    assert_eq!(
        exchange.handle(Event::Received(wrong)),
        Action::Finish(Err(Error::MissingComplete))
    );
    assert_eq!(exchange.phase(), Phase::Finished);
}

#[test]
fn transaction_with_response_succeeds() {
    let mut transaction = CommandTransaction::new(0x81, 0x02);
    let command = read_status_command(0x090000);
    let (mut exchange, action) = transaction.begin(&command);
    assert_eq!(transaction.sequence(), 1);
    assert_eq!(exchange.sequence(), 1);
    assert_eq!(exchange.phase(), Phase::Sending);
    assert_eq!(action, Action::Write { endpoint: 0x02, bytes: command.as_bytes(1) });
    let action = exchange.handle(Event::Written(24));
    assert_eq!(action, Action::Read { endpoint: 0x81, length: 4 });
    assert_eq!(exchange.phase(), Phase::Receiving);
    let action = exchange.handle(Event::Received(vec![1, 0, 0, 0]));
    assert_eq!(action, Action::Read { endpoint: 0x81, length: 16 });
    assert_eq!(exchange.phase(), Phase::Completing);
    let action = exchange.handle(Event::Received(completion(1)));
    assert_eq!(action, Action::Finish(Ok(vec![1, 0, 0, 0])));
    assert_eq!(exchange.phase(), Phase::Finished);
}

#[test]
fn transaction_without_response_reads_only_the_completion() {
    let mut transaction = CommandTransaction::new(0x81, 0x02);
    let (mut exchange, _) = transaction.begin(&set_mode_command(true, 0));
    let action = exchange.handle(Event::Written(36));
    assert_eq!(action, Action::Read { endpoint: 0x81, length: 16 });
    let action = exchange.handle(Event::Received(completion(1)));
    assert_eq!(action, Action::Finish(Ok(vec![])));
}

#[test]
fn sequence_counts_sequenced_commands_only() {
    let mut transaction = CommandTransaction::new(0x81, 0x02);
    let (first, _) = transaction.begin(&set_mode_command(true, 0));
    let unsequenced = color_setting_command(ColorSettingCommandType::SetAcs, 0);
    let (second, action) = transaction.begin(&unsequenced);
    let (third, _) = transaction.begin(&set_mode_command(false, 0));
    assert_eq!((first.sequence(), second.sequence(), third.sequence()), (1, 0, 2));
    assert_eq!(transaction.sequence(), 2);
    assert_eq!(action, Action::Write { endpoint: 0x02, bytes: unsequenced.as_bytes(0) });
}

#[test]
fn short_write_fails() {
    let mut transaction = CommandTransaction::new(0x81, 0x02);
    let (mut exchange, _) = transaction.begin(&read_status_command(0));
    assert_eq!(exchange.handle(Event::Written(20)), Action::Finish(Err(Error::Send(20, 24))));
    assert_eq!(exchange.phase(), Phase::Finished);
}

#[test]
fn short_read_fails() {
    let mut transaction = CommandTransaction::new(0x81, 0x02);
    let (mut exchange, _) = transaction.begin(&read_status_command(0));
    exchange.handle(Event::Written(24));
    assert_eq!(
        exchange.handle(Event::Received(vec![1, 2, 3])),
        Action::Finish(Err(Error::Receive(3, 4)))
    );
}

#[test]
fn short_completion_fails() {
    let mut transaction = CommandTransaction::new(0x81, 0x02);
    let (mut exchange, _) = transaction.begin(&set_mode_command(true, 0));
    exchange.handle(Event::Written(36));
    assert_eq!(
        exchange.handle(Event::Received(completion(1)[..12].to_vec())),
        Action::Finish(Err(Error::Receive(12, 16)))
    );
}

#[test]
fn premature_completion_fails_distinctly() {
    let setting = color_setting_command(ColorSettingCommandType::GetAcs, 0);
    for echoed in [0, 5] {
        let mut transaction = CommandTransaction::new(0x81, 0x02);
        let (mut exchange, _) = transaction.begin(&setting);
        assert_eq!(
            exchange.handle(Event::Written(36)),
            Action::Read { endpoint: 0x81, length: 16 }
        );
        assert_eq!(
            exchange.handle(Event::Received(completion(echoed))),
            Action::Finish(Err(Error::PrematureComplete))
        );
    }
}

#[test]
fn completion_with_wrong_sequence_fails() {
    let mut transaction = CommandTransaction::new(0x81, 0x02);
    let (mut exchange, _) = transaction.begin(&read_status_command(0));
    exchange.handle(Event::Written(24));
    exchange.handle(Event::Received(vec![0, 0, 0, 0]));
    assert_eq!(
        exchange.handle(Event::Received(completion(9))),
        Action::Finish(Err(Error::InvalidSequence(9, 1)))
    );
}

#[test]
fn stall_on_write_clears_the_out_endpoint() {
    let mut transaction = CommandTransaction::new(0x81, 0x02);
    let (mut exchange, _) = transaction.begin(&read_status_command(0));
    assert_eq!(
        exchange.handle(Event::Failed(TransportFailure::Stall)),
        Action::ClearHalt { endpoint: 0x02 }
    );
    assert_eq!(exchange.phase(), Phase::Clearing);
    assert_eq!(
        exchange.handle(Event::HaltCleared),
        Action::Finish(Err(Error::Transport(TransportFailure::Stall)))
    );
}

#[test]
fn stall_on_read_clears_the_in_endpoint() {
    let mut transaction = CommandTransaction::new(0x81, 0x02);
    let (mut exchange, _) = transaction.begin(&read_status_command(0));
    exchange.handle(Event::Written(24));
    assert_eq!(
        exchange.handle(Event::Failed(TransportFailure::Stall)),
        Action::ClearHalt { endpoint: 0x81 }
    );
    assert_eq!(
        exchange.handle(Event::Failed(TransportFailure::Other)),
        Action::Finish(Err(Error::Transport(TransportFailure::Other)))
    );
}

#[test]
fn other_failures_end_the_transaction_at_once() {
    let mut transaction = CommandTransaction::new(0x81, 0x02);
    let (mut exchange, _) = transaction.begin(&set_mode_command(true, 0));
    exchange.handle(Event::Written(36));
    assert_eq!(
        exchange.handle(Event::Failed(TransportFailure::Timeout)),
        Action::Finish(Err(Error::Transport(TransportFailure::Timeout)))
    );
    assert_eq!(exchange.phase(), Phase::Finished);
}

#[test]
fn event_out_of_turn_fails_the_transaction() {
    let mut transaction = CommandTransaction::new(0x81, 0x02);
    let (mut exchange, _) = transaction.begin(&set_mode_command(true, 0));
    assert_eq!(
        exchange.handle(Event::Received(vec![1])),
        Action::Finish(Err(Error::Transport(TransportFailure::Other)))
    );
    assert_eq!(
        exchange.handle(Event::Written(36)),
        Action::Finish(Err(Error::Transport(TransportFailure::Other)))
    );
}
