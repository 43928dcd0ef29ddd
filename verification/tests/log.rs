use edr_napi::log::{ExecutionLog, Log};
use edr_napi::handoff::{Action, Event, Phase};

fn sample() -> Log {
    let mut address = [0u8; 20];
    for (i, byte) in address.iter_mut().enumerate() {
        *byte = 0xA0 + i as u8;
    }
    let mut first = [0u8; 32];
    first[0] = 0x11;
    first[31] = 0x99;
    let second = [0x22u8; 32];
    Log { address, topics: vec![first, second], data: vec![0xDE, 0xAD, 0xBE, 0xEF] }
}

#[test]
fn new_copies_the_address() {
    let log = sample();
    let record = ExecutionLog::new(&log);
    let address: &[u8] = record.address.as_ref();
    assert_eq!(address.len(), 20);
    assert_eq!(address, &log.address[..]);
    assert_eq!(address[0], 0xA0);
    assert_eq!(address[19], 0xB3);
}

#[test]
fn new_copies_the_topics_in_order() {
    let log = sample();
    let record = ExecutionLog::new(&log);
    assert_eq!(record.topics.len(), 2);
    let first: &[u8] = record.topics[0].as_ref();
    let second: &[u8] = record.topics[1].as_ref();
    assert_eq!(first, &log.topics[0][..]);
    assert_eq!(second, &[0x22u8; 32][..]);
    assert_eq!(first[0], 0x11);
    assert_eq!(first[1], 0x00);
    assert_eq!(first[31], 0x99);
}

#[test]
fn new_wraps_the_data_in_a_pending_handoff() {
    let log = sample();
    let record = ExecutionLog::new(&log);
    assert_eq!(record.data.phase(), Phase::Pending);
    assert_eq!(record.data.len(), 4);
    assert_eq!(record.data.release_count(), 0);
    assert_eq!(record.data.foreign_view(), Some(&[0xDE, 0xAD, 0xBE, 0xEF][..]));
}

#[test]
fn new_leaves_the_log_as_it_was() {
    let log = sample();
    let mut record = ExecutionLog::new(&log);
    assert!(matches!(record.data.on_event(Event::ReleaseRequested), Ok(Action::Free)));
    assert_eq!(log.data, vec![0xDE, 0xAD, 0xBE, 0xEF]);
    assert_eq!(log.topics.len(), 2);
}

#[test]
fn new_converts_a_log_without_topics_or_data() {
    let log = Log { address: [0u8; 20], topics: Vec::new(), data: Vec::new() };
    let record = ExecutionLog::new(&log);
    let address: &[u8] = record.address.as_ref();
    assert_eq!(address, &[0u8; 20][..]);
    assert!(record.topics.is_empty());
    assert_eq!(record.data.len(), 0);
    assert_eq!(record.data.foreign_view(), Some(&[][..]));
}

#[test]
fn converted_record_goes_through_the_whole_lifecycle() {
    let log = sample();
    let mut record = ExecutionLog::new(&log);
    assert!(matches!(record.data.on_event(Event::Registered), Ok(Action::Expose)));
    assert_eq!(record.data.foreign_view(), Some(&log.data[..]));
    assert!(matches!(record.data.on_event(Event::ReleaseRequested), Ok(Action::Free)));
    assert!(matches!(record.data.on_event(Event::ReleaseRequested), Ok(Action::Nothing)));
    assert_eq!(record.data.release_count(), 1);
    let address: &[u8] = record.address.as_ref();
    assert_eq!(address, &log.address[..]);
}

#[test]
fn refused_record_gives_its_data_back() {
    let log = sample();
    let mut record = ExecutionLog::new(&log);
    match record.data.on_event(Event::RegistrationFailed) {
        Ok(action) => panic!("the failed registration was answered with {:?}", action),
        Err(error) => assert_eq!(error.into_payload(), log.data),
    }
    assert_eq!(record.data.phase(), Phase::Refused);
    assert_eq!(record.data.release_count(), 0);
}
