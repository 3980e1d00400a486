use actor_ot::block::{Block, BlockPair};
use actor_ot::config::{OTActorReceiverConfig, OTActorSenderConfig};
use actor_ot::error::OTActorError;
use actor_ot::pairing::{exchange, transfer};
use actor_ot::receiver::KOSReceiverActor;
use actor_ot::sender::KOSSenderActor;

fn sender_config(count: usize) -> OTActorSenderConfig {
    OTActorSenderConfig::builder()
        .id("test")
        .initial_count(count)
        .build()
        .unwrap()
}

fn receiver_config(count: usize) -> OTActorReceiverConfig {
    OTActorReceiverConfig::builder()
        .id("test")
        .initial_count(count)
        .build()
        .unwrap()
}

fn pairs(n: usize) -> Vec<BlockPair> {
    (0..n)
        .map(|i| BlockPair::new(Block::new(2 * i as u128), Block::new(2 * i as u128 + 1)))
        .collect()
}

#[test]
fn setup_twice_fails_with_already_setup() {
    let mut sender = KOSSenderActor::new(sender_config(10));
    assert_eq!(sender.setup(), Ok(10));
    assert_eq!(sender.setup(), Err(OTActorError::AlreadySetup));

    let mut receiver = KOSReceiverActor::new(receiver_config(10));
    assert_eq!(receiver.setup(), Ok(10));
    assert_eq!(receiver.setup(), Err(OTActorError::AlreadySetup));
}

#[test]
fn send_before_setup_fails_with_wrong_state() {
    let mut sender = KOSSenderActor::new(sender_config(10));
    let result = sender.send("a", &pairs(2));
    assert!(matches!(result, Err(OTActorError::WrongState)));
}

#[test]
fn exhaustion_fails_on_the_overflowing_call() {
    let mut sender = KOSSenderActor::new(sender_config(10));
    sender.setup().unwrap();

    sender.send("a", &pairs(6)).unwrap();
    assert_eq!(sender.pool.consumed, 6);

    let result = sender.send("b", &pairs(5));
    assert!(matches!(
        result,
        Err(OTActorError::InsufficientPool {
            requested: 5,
            available: 4,
        })
    ));
    // The failed call consumed nothing: the remainder is still grantable.
    assert_eq!(sender.pool.consumed, 6);
    sender.send("c", &pairs(4)).unwrap();
    assert_eq!(sender.pool.consumed, 10);
}

#[test]
fn reserved_ranges_are_disjoint_and_cover_the_pool() {
    let mut sender = KOSSenderActor::new(sender_config(12));
    sender.setup().unwrap();

    sender.send("a", &pairs(3)).unwrap();
    sender.send("b", &pairs(4)).unwrap();
    sender.send("c", &pairs(5)).unwrap();

    let ranges: Vec<(usize, usize)> = sender
        .pool
        .allocations
        .iter()
        .map(|a| (a.range.start, a.range.len))
        .collect();
    assert_eq!(ranges, vec![(0, 3), (3, 4), (7, 5)]);
    assert_eq!(sender.pool.consumed, 12);
}

#[test]
fn order_mismatch_on_wrong_session_id() {
    let sconfig = sender_config(10);
    let rconfig = receiver_config(10);
    let mut sender = KOSSenderActor::new(sconfig);
    let mut receiver = KOSReceiverActor::new(rconfig);
    sender.setup().unwrap();
    receiver.setup().unwrap();

    let data = pairs(3);
    let choices = vec![false, true, false];
    let assignment = sender.send("a", &data).unwrap();

    let result = receiver.begin_receive("b", &choices, &assignment);
    assert!(matches!(result, Err(OTActorError::OrderMismatch)));
    // Nothing of the receiver's mirrored pool was consumed.
    assert_eq!(receiver.pool.consumed, 0);
}

#[test]
fn length_mismatch_on_wrong_choice_count() {
    let mut sender = KOSSenderActor::new(sender_config(10));
    let mut receiver = KOSReceiverActor::new(receiver_config(10));
    sender.setup().unwrap();
    receiver.setup().unwrap();

    let data = pairs(3);
    let short_choices = vec![false, true];
    let assignment = sender.send("a", &data).unwrap();

    let result = receiver.begin_receive("a", &short_choices, &assignment);
    assert!(matches!(
        result,
        Err(OTActorError::LengthMismatch {
            expected: 3,
            actual: 2,
        })
    ));
}

#[test]
fn complete_receive_without_pending_fails() {
    let mut receiver = KOSReceiverActor::new(receiver_config(10));
    receiver.setup().unwrap();
    let result = receiver.complete_receive(vec![Block::new(1)]);
    assert!(matches!(result, Err(OTActorError::WrongState)));
}

#[test]
fn complete_receive_with_wrong_block_count_fails() {
    let mut sender = KOSSenderActor::new(sender_config(10));
    let mut receiver = KOSReceiverActor::new(receiver_config(10));
    sender.setup().unwrap();
    receiver.setup().unwrap();

    let data = pairs(3);
    let choices = vec![false, true, false];
    let assignment = sender.send("a", &data).unwrap();
    receiver.begin_receive("a", &choices, &assignment).unwrap();

    let result = receiver.complete_receive(vec![Block::new(1)]);
    assert!(matches!(
        result,
        Err(OTActorError::LengthMismatch {
            expected: 3,
            actual: 1,
        })
    ));
}

#[test]
fn order_mismatch_on_desynchronized_assignment() {
    let mut sender = KOSSenderActor::new(sender_config(10));
    let mut receiver = KOSReceiverActor::new(receiver_config(10));
    sender.setup().unwrap();
    receiver.setup().unwrap();

    let data = pairs(3);
    let choices = vec![false, true, false];
    let mut assignment = sender.send("a", &data).unwrap();
    // An assignment that does not continue the dictated sequence is a
    // desynchronization fault, not a silent consumption of other slots.
    assignment.start = 5;
    let result = receiver.begin_receive("a", &choices, &assignment);
    assert!(matches!(result, Err(OTActorError::OrderMismatch)));
    assert_eq!(receiver.pool.consumed, 0);
}

#[test]
fn verify_unknown_session_fails() {
    let mut sender = KOSSenderActor::new(
        OTActorSenderConfig::builder()
            .id("test")
            .initial_count(10)
            .committed()
            .build()
            .unwrap(),
    );
    let mut receiver = KOSReceiverActor::new(
        OTActorReceiverConfig::builder()
            .id("test")
            .initial_count(10)
            .committed()
            .build()
            .unwrap(),
    );
    sender.setup().unwrap();
    receiver.setup().unwrap();

    let data = pairs(2);
    let choices = vec![true, false];
    transfer(&mut sender, &mut receiver, "known", &data, &choices).unwrap();

    let revealed = sender.reveal_all().unwrap();
    assert_eq!(
        receiver.verify("unknown", &data, &revealed),
        Err(OTActorError::VerificationFailed)
    );
}

#[test]
fn verify_before_setup_fails_with_wrong_state() {
    let receiver = KOSReceiverActor::new(
        OTActorReceiverConfig::builder()
            .id("test")
            .initial_count(10)
            .committed()
            .build()
            .unwrap(),
    );
    let revealed = actor_ot::msg::RevealMessage {
        records: Vec::new(),
    };
    assert_eq!(
        receiver.verify("", &pairs(1), &revealed),
        Err(OTActorError::WrongState)
    );
}

#[test]
fn reveal_without_committed_mode_fails() {
    let mut sender = KOSSenderActor::new(sender_config(10));
    sender.setup().unwrap();
    assert!(matches!(
        sender.reveal_all(),
        Err(OTActorError::NotCommitted)
    ));
}

#[test]
fn verify_without_committed_mode_fails() {
    let mut sender = KOSSenderActor::new(
        OTActorSenderConfig::builder()
            .id("test")
            .initial_count(10)
            .committed()
            .build()
            .unwrap(),
    );
    let mut receiver = KOSReceiverActor::new(receiver_config(10));
    sender.setup().unwrap();
    receiver.setup().unwrap();

    let data = pairs(2);
    let choices = vec![true, false];
    transfer(&mut sender, &mut receiver, "", &data, &choices).unwrap();

    let revealed = sender.reveal_all().unwrap();
    assert!(matches!(
        receiver.verify("", &data, &revealed),
        Err(OTActorError::NotCommitted)
    ));
}

#[test]
fn receiver_pool_smaller_than_senders_exhausts_first() {
    let mut sender = KOSSenderActor::new(sender_config(10));
    let mut receiver = KOSReceiverActor::new(receiver_config(4));
    sender.setup().unwrap();
    receiver.setup().unwrap();

    let data = pairs(6);
    let choices = vec![false; 6];
    let result = transfer(&mut sender, &mut receiver, "", &data, &choices);
    assert!(matches!(
        result,
        Err(OTActorError::InsufficientPool {
            requested: 6,
            available: 4,
        })
    ));
    // The Sender's reservation is not rolled back.
    assert_eq!(sender.pool.consumed, 6);
    assert_eq!(receiver.pool.consumed, 0);
}

#[test]
fn exchange_selects_by_choice() {
    let data = vec![
        BlockPair::new(Block::new(7), Block::new(9)),
        BlockPair::new(Block::new(11), Block::new(13)),
    ];
    let choices = vec![true, false];
    let blocks = exchange(&data, &choices);
    assert_eq!(blocks, vec![Block::new(9), Block::new(11)]);
}

#[test]
fn block_accessors_round_trip() {
    let block = Block::new(1234567890123456789);
    assert_eq!(block.inner(), 1234567890123456789);
    let pair = BlockPair::new(Block::new(1), Block::new(2));
    assert_eq!(pair.select(false), Block::new(1));
    assert_eq!(pair.select(true), Block::new(2));
}
