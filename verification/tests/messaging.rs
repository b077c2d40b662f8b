use schani_import::messaging::{
    processing_payload, BrokerAction, BrokerOutcome, PublishStage, Publisher, AMQP_PORT,
    CLOSE_CODE, CLOSE_TEXT, EXCHANGE_KIND, EXCHANGE_NAME, FRAME_MAX, QUEUE_NAME, ROUTING_KEY,
};

#[test]
fn broker_settings() {
    assert_eq!(AMQP_PORT, 5672);
    assert_eq!(FRAME_MAX, 65535);
    assert_eq!(QUEUE_NAME, "raw");
    assert_eq!(EXCHANGE_NAME, "raw_ex");
    assert_eq!(EXCHANGE_KIND, "direct");
    assert_eq!(ROUTING_KEY, "raw_2");
    assert_eq!(CLOSE_CODE, 200);
    assert_eq!(CLOSE_TEXT, "Bye");
}

#[test]
fn payload_is_decimal_id() {
    assert_eq!(processing_payload(1234), "1234");
    assert_eq!(processing_payload(-3), "-3");
    assert_eq!(processing_payload(1234).as_bytes(), b"1234");
}

#[test]
fn accepted_announcement_runs_every_operation_in_order() {
    let (mut publisher, first) = Publisher::start(17);
    assert_eq!(first, BrokerAction::Connect);
    let mut actions = vec![first];
    while publisher.stage != PublishStage::Done {
        let (next, action) = publisher.step(BrokerOutcome::Succeeded);
        publisher = next;
        actions.push(action);
    }
    assert_eq!(
        actions,
        vec![
            BrokerAction::Connect,
            BrokerAction::OpenConfirmChannel,
            BrokerAction::DeclareQueue,
            BrokerAction::DeclareExchange,
            BrokerAction::BindQueue,
            BrokerAction::Publish { file_id: 17 },
            BrokerAction::Close,
            BrokerAction::Finish,
        ]
    );
}

#[test]
fn refused_operation_aborts() {
    let (publisher, _) = Publisher::start(3);
    let (publisher, _) = publisher.step(BrokerOutcome::Succeeded);
    let (publisher, action) = publisher.step(BrokerOutcome::Failed);
    assert_eq!(action, BrokerAction::Abort);
    assert_eq!(publisher.stage, PublishStage::Done);
    assert_eq!(publisher.file_id, 3);
}
