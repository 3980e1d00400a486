use actor_ot::block::{Block, BlockPair};
use actor_ot::config::{OTActorReceiverConfig, OTActorSenderConfig};
use actor_ot::error::OTActorError;
use actor_ot::pairing::transfer;
use actor_ot::receiver::KOSReceiverActor;
use actor_ot::sender::KOSSenderActor;

fn create_setup_pair(
    sender_config: OTActorSenderConfig,
    receiver_config: OTActorReceiverConfig,
) -> (KOSSenderActor, KOSReceiverActor) {
    let mut sender = KOSSenderActor::new(sender_config);
    let mut receiver = KOSReceiverActor::new(receiver_config);
    sender.setup().unwrap();
    receiver.setup().unwrap();
    (sender, receiver)
}

fn test_data() -> Vec<BlockPair> {
    (0..10)
        .map(|_| BlockPair::new(Block::new(0), Block::new(1)))
        .collect()
}

fn test_choices() -> Vec<bool> {
    vec![
        false, false, true, true, false, true, true, false, true, false,
    ]
}

#[test]
fn test_ot_actor() {
    let sender_config = OTActorSenderConfig::builder()
        .id("test")
        .initial_count(10)
        .build()
        .unwrap();
    let receiver_config = OTActorReceiverConfig::builder()
        .id("test")
        .initial_count(10)
        .build()
        .unwrap();

    let (mut sender, mut receiver) = create_setup_pair(sender_config, receiver_config);

    let data = test_data();
    let choices = test_choices();

    let expected: Vec<Block> = data
        .iter()
        .zip(&choices)
        .map(|(pair, choice)| pair.select(*choice))
        .collect();

    let received = transfer(&mut sender, &mut receiver, "", &data, &choices).unwrap();

    assert_eq!(received, expected);
}

#[test]
fn test_ot_actor_many_splits() {
    let sender_config = OTActorSenderConfig::builder()
        .id("test")
        .initial_count(100)
        .build()
        .unwrap();
    let receiver_config = OTActorReceiverConfig::builder()
        .id("test")
        .initial_count(100)
        .build()
        .unwrap();

    let (mut sender, mut receiver) = create_setup_pair(sender_config, receiver_config);

    let data = test_data();
    let choices = test_choices();

    let expected: Vec<Block> = data
        .iter()
        .zip(&choices)
        .map(|(pair, choice)| pair.select(*choice))
        .collect();

    for id in 0..10 {
        let received = transfer(&mut sender, &mut receiver, &id.to_string(), &data, &choices)
            .unwrap();
        assert_eq!(received, expected);
    }
}

#[test]
fn test_ot_actor_committed_ot() {
    let sender_config = OTActorSenderConfig::builder()
        .id("test")
        .initial_count(100)
        .committed()
        .build()
        .unwrap();
    let receiver_config = OTActorReceiverConfig::builder()
        .id("test")
        .initial_count(100)
        .committed()
        .build()
        .unwrap();

    let (mut sender, mut receiver) = create_setup_pair(sender_config, receiver_config);

    let data = test_data();
    let choices = test_choices();

    transfer(&mut sender, &mut receiver, "", &data, &choices).unwrap();

    let revealed = sender.reveal_all().unwrap();
    receiver.verify("", &data, &revealed).unwrap();
}

#[test]
fn committed_verify_rejects_tampered_data() {
    let sender_config = OTActorSenderConfig::builder()
        .id("test")
        .initial_count(100)
        .committed()
        .build()
        .unwrap();
    let receiver_config = OTActorReceiverConfig::builder()
        .id("test")
        .initial_count(100)
        .committed()
        .build()
        .unwrap();

    let (mut sender, mut receiver) = create_setup_pair(sender_config, receiver_config);

    let data = test_data();
    let choices = test_choices();

    transfer(&mut sender, &mut receiver, "", &data, &choices).unwrap();

    let revealed = sender.reveal_all().unwrap();

    let mut tampered = data.clone();
    tampered[3] = BlockPair::new(Block::new(5), Block::new(6));
    assert_eq!(
        receiver.verify("", &tampered, &revealed),
        Err(OTActorError::VerificationFailed)
    );

    receiver.verify("", &data, &revealed).unwrap();
}

#[test]
fn distinct_values_round_trip() {
    let sender_config = OTActorSenderConfig::builder()
        .id("pair")
        .initial_count(4)
        .build()
        .unwrap();
    let receiver_config = OTActorReceiverConfig::builder()
        .id("pair")
        .initial_count(4)
        .build()
        .unwrap();

    let (mut sender, mut receiver) = create_setup_pair(sender_config, receiver_config);

    let data = vec![
        BlockPair::new(Block::new(10), Block::new(20)),
        BlockPair::new(Block::new(30), Block::new(40)),
        BlockPair::new(Block::new(50), Block::new(60)),
        BlockPair::new(Block::new(70), Block::new(80)),
    ];
    let choices = vec![true, false, false, true];

    let received = transfer(&mut sender, &mut receiver, "session", &data, &choices).unwrap();

    assert_eq!(
        received,
        vec![Block::new(20), Block::new(30), Block::new(50), Block::new(80)]
    );
}
