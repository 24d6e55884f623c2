use quorum_log::Log;
use quorum_log::LogError;
use quorum_log::Logger;

#[test]
fn it_works() {
    let mut l = Logger::new(3, 100);
    for x in 0..10 {
        let message = format!("Hello my name is {}", x);
        let _ = l.write(message.as_bytes());
    }

    for reader in 1..=3u64 {
        for _ in 0..10 {
            match l.read(reader) {
                Ok(Some(res)) => {
                    let message = String::from_utf8(res.message).unwrap();
                    assert!(res.is_valid);
                    println!("Receiver: {:?}", message);
                }
                Err(_e) => (),
                Ok(None) => (),
            }
        }
    }

    assert_eq!(l.buffer_len(), 0);
}

#[test]
fn full_buffer_rejects_next_write() {
    let mut l = Logger::new(3, 2);
    assert!(l.write(b"first").is_ok());
    assert!(l.write(b"second").is_ok());
    assert_eq!(l.buffer_len(), 2);
    assert_eq!(l.write(b"third"), Err(LogError::BufferFull));
    assert_eq!(l.buffer_len(), 2);
    assert_eq!(l.write(b"fourth"), Err(LogError::BufferFull));
    assert_eq!(l.buffer_len(), 2);
}

#[test]
fn write_then_read_round_trips() {
    let mut l = Logger::new(2, 10);
    l.write(b"a payload worth keeping").unwrap();
    let res = l.read(7).unwrap().expect("one message is buffered");
    assert!(res.is_valid);
    assert_eq!(res.message, b"a payload worth keeping".to_vec());
}

#[test]
fn empty_payload_round_trips() {
    let mut l = Logger::new(2, 10);
    l.write(b"").unwrap();
    let res = l.read(1).unwrap().expect("one message is buffered");
    assert!(res.is_valid);
    assert_eq!(res.message, Vec::<u8>::new());
}

#[test]
fn corrupted_payload_reads_invalid() {
    let mut l = Logger::new(2, 10);
    l.write(b"genuine").unwrap();
    l.corrupt_payload(0, b"forgery".to_vec());
    let res = l.read(1).unwrap().expect("the entry is still buffered");
    assert!(!res.is_valid);
    assert_eq!(res.message, b"forgery".to_vec());
}

#[test]
fn corrupted_tag_reads_invalid() {
    let mut l = Logger::new(2, 10);
    l.write(b"genuine").unwrap();
    l.corrupt_tag(0, vec![0u8; 32]);
    let res = l.read(1).unwrap().expect("the entry is still buffered");
    assert!(!res.is_valid);
    assert_eq!(res.message, b"genuine".to_vec());
}

#[test]
fn eviction_waits_for_the_quorum() {
    let mut l = Logger::new(2, 10);
    l.write(b"once around the quorum").unwrap();
    assert_eq!(l.buffer_len(), 1);

    let first = l.read(1).unwrap().expect("first reader consumes it");
    assert!(first.is_valid);
    assert_eq!(l.buffer_len(), 1);

    let second = l.read(2).unwrap().expect("second reader completes the quorum");
    assert!(second.is_valid);
    assert_eq!(l.buffer_len(), 0);
}

#[test]
fn caught_up_reader_gets_nothing() {
    let mut l = Logger::new(3, 10);
    assert!(l.read(1).unwrap().is_none());
    l.write(b"only one").unwrap();
    assert!(l.read(1).unwrap().is_some());
    assert!(l.read(1).unwrap().is_none());
    assert_eq!(l.buffer_len(), 1);
}

#[test]
fn fourth_identity_poisons_every_read() {
    let mut l = Logger::new(3, 10);
    l.write(b"zero").unwrap();
    l.write(b"one").unwrap();

    assert!(l.read(1).unwrap().is_some());
    assert!(l.read(2).unwrap().is_some());
    assert!(l.read(3).unwrap().is_some());
    assert_eq!(l.buffer_len(), 1);

    // The fourth identity's own first read still succeeds; it is the one that
    // pushes the registry past the quorum.
    assert!(l.read(4).unwrap().is_some());

    assert!(matches!(l.read(1), Err(LogError::TooManyReaders)));
    assert!(matches!(l.read(2), Err(LogError::TooManyReaders)));
    assert!(matches!(l.read(4), Err(LogError::TooManyReaders)));
    assert!(matches!(l.read(99), Err(LogError::TooManyReaders)));
    assert_eq!(l.buffer_len(), 1);
}

#[test]
fn lone_fast_reader_then_slow_quorum() {
    let mut l = Logger::new(2, 10);
    l.write(b"first").unwrap();
    l.write(b"second").unwrap();

    // One identity races ahead through both messages and then runs dry.
    assert!(l.read(1).unwrap().is_some());
    assert!(l.read(1).unwrap().is_some());
    assert!(l.read(1).unwrap().is_none());
    assert_eq!(l.buffer_len(), 2);

    // The second identity completes the quorum for each in turn.
    assert!(l.read(2).unwrap().is_some());
    assert_eq!(l.buffer_len(), 1);
    assert!(l.read(2).unwrap().is_some());
    assert_eq!(l.buffer_len(), 0);
}
