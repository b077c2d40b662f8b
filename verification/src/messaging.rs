//! The message that hands a newly imported image to the processing queue.
//!
//! Talking to the AMQP broker is I/O; what this module decides is the order
//! of the broker operations, their names and parameters, the message that is
//! published, and what a refused operation means: the announcement is given up.
use vstd::prelude::*;
use crate::decimal::{i32_text, int_text, lemma_int_text_denotes, text_value};

verus! {

/// The port of the AMQP broker.
pub const AMQP_PORT: u16 = 5672;

/// The largest frame that the connection negotiates.
pub const FRAME_MAX: u32 = 65535;

/// The queue that the processing workers read.
pub const QUEUE_NAME: &'static str = "raw";

/// The exchange through which the message is published.
pub const EXCHANGE_NAME: &'static str = "raw_ex";

/// The type of that exchange.
pub const EXCHANGE_KIND: &'static str = "direct";

/// The routing key that binds the queue to the exchange.
pub const ROUTING_KEY: &'static str = "raw_2";

/// The reply code with which the channel is closed.
pub const CLOSE_CODE: u16 = 200;

/// The reply text with which the channel is closed.
pub const CLOSE_TEXT: &'static str = "Bye";

/// The body of the message that announces the image `file_id`: its decimal text.
pub fn processing_payload(file_id: i32) -> (r: String)
    ensures
        r@ == int_text(file_id as int),
{
    i32_text(file_id)
}

/// How far the announcement has got.
#[derive(PartialEq, Eq, Structural, Clone, Copy, Debug)]
pub enum PublishStage {
    Connecting,
    OpeningChannel,
    DeclaringQueue,
    DeclaringExchange,
    BindingQueue,
    Publishing,
    Closing,
    Done,
}

/// The broker operation to perform next.
#[derive(PartialEq, Eq, Structural, Clone, Copy, Debug)]
pub enum BrokerAction {
    /// Connect to the broker on [`AMQP_PORT`] with [`FRAME_MAX`].
    Connect,
    /// Open a channel in confirm mode.
    OpenConfirmChannel,
    /// Declare [`QUEUE_NAME`].
    DeclareQueue,
    /// Declare [`EXCHANGE_NAME`] of type [`EXCHANGE_KIND`].
    DeclareExchange,
    /// Bind [`QUEUE_NAME`] to [`EXCHANGE_NAME`] with [`ROUTING_KEY`].
    BindQueue,
    /// Publish [`processing_payload`] of `file_id` to [`EXCHANGE_NAME`] with [`ROUTING_KEY`].
    Publish { file_id: i32 },
    /// Close the channel with [`CLOSE_CODE`] and [`CLOSE_TEXT`].
    Close,
    /// The image has been announced.
    Finish,
    /// The broker refused an operation: the announcement is given up.
    Abort,
}

/// What became of the last broker operation.
#[derive(PartialEq, Eq, Structural, Clone, Copy, Debug)]
pub enum BrokerOutcome {
    Succeeded,
    Failed,
}

/// The announcement of one image to the processing queue.
#[derive(PartialEq, Eq, Structural, Clone, Copy, Debug)]
pub struct Publisher {
    pub file_id: i32,
    pub stage: PublishStage,
}

impl Publisher {
    /// The stage that follows `stage` when its operation succeeds, and the
    /// operation that the following stage performs.
    pub open spec fn advance(stage: PublishStage, file_id: i32) -> (PublishStage, BrokerAction) {
        match stage {
            PublishStage::Connecting => (PublishStage::OpeningChannel, BrokerAction::OpenConfirmChannel),
            PublishStage::OpeningChannel => (PublishStage::DeclaringQueue, BrokerAction::DeclareQueue),
            PublishStage::DeclaringQueue => (
                PublishStage::DeclaringExchange,
                BrokerAction::DeclareExchange,
            ),
            PublishStage::DeclaringExchange => (PublishStage::BindingQueue, BrokerAction::BindQueue),
            PublishStage::BindingQueue => (
                PublishStage::Publishing,
                BrokerAction::Publish { file_id },
            ),
            PublishStage::Publishing => (PublishStage::Closing, BrokerAction::Close),
            PublishStage::Closing => (PublishStage::Done, BrokerAction::Finish),
            PublishStage::Done => (PublishStage::Done, BrokerAction::Finish),
        }
    }

    /// The publisher after `outcome` of its current operation, and what to do next.
    pub open spec fn next(self, outcome: BrokerOutcome) -> (Publisher, BrokerAction) {
        match outcome {
            BrokerOutcome::Succeeded => {
                let (stage, action) = Publisher::advance(self.stage, self.file_id);
                (Publisher { file_id: self.file_id, stage }, action)
            },
            BrokerOutcome::Failed => (
                Publisher { file_id: self.file_id, stage: PublishStage::Done },
                BrokerAction::Abort,
            ),
        }
    }

    /// Starts announcing the image `file_id`: the first operation is to connect.
    pub fn start(file_id: i32) -> (r: (Publisher, BrokerAction))
        ensures
            r.0 == (Publisher { file_id, stage: PublishStage::Connecting }),
            r.1 == BrokerAction::Connect,
    {
        (Publisher { file_id, stage: PublishStage::Connecting }, BrokerAction::Connect)
    }

    /// Takes the outcome of the operation in progress and says what to do next.
    pub fn step(self, outcome: BrokerOutcome) -> (r: (Publisher, BrokerAction))
        requires
            self.stage != PublishStage::Done,
        ensures
            r == self.next(outcome),
    {
        match outcome {
            BrokerOutcome::Failed => (
                Publisher { file_id: self.file_id, stage: PublishStage::Done },
                BrokerAction::Abort,
            ),
            BrokerOutcome::Succeeded => {
                let (stage, action) = match self.stage {
                    PublishStage::Connecting => (
                        PublishStage::OpeningChannel,
                        BrokerAction::OpenConfirmChannel,
                    ),
                    PublishStage::OpeningChannel => (
                        PublishStage::DeclaringQueue,
                        BrokerAction::DeclareQueue,
                    ),
                    PublishStage::DeclaringQueue => (
                        PublishStage::DeclaringExchange,
                        BrokerAction::DeclareExchange,
                    ),
                    PublishStage::DeclaringExchange => (
                        PublishStage::BindingQueue,
                        BrokerAction::BindQueue,
                    ),
                    PublishStage::BindingQueue => (
                        PublishStage::Publishing,
                        BrokerAction::Publish { file_id: self.file_id },
                    ),
                    PublishStage::Publishing => (PublishStage::Closing, BrokerAction::Close),
                    PublishStage::Closing => (PublishStage::Done, BrokerAction::Finish),
                    PublishStage::Done => (PublishStage::Done, BrokerAction::Finish),
                };
                (Publisher { file_id: self.file_id, stage }, action)
            },
        }
    }
}

/// The operations that announcing `file_id` performs on a broker that accepts
/// every one of them, in order.
pub open spec fn accepted_run(file_id: i32) -> Seq<BrokerAction> {
    seq![
        BrokerAction::Connect,
        BrokerAction::OpenConfirmChannel,
        BrokerAction::DeclareQueue,
        BrokerAction::DeclareExchange,
        BrokerAction::BindQueue,
        BrokerAction::Publish { file_id },
        BrokerAction::Close,
        BrokerAction::Finish,
    ]
}

/// The publisher after `n` accepted operations, and the operation it asks for then.
pub open spec fn after_accepted(file_id: i32, n: nat) -> (Publisher, BrokerAction)
    decreases n,
{
    if n == 0 {
        (Publisher { file_id, stage: PublishStage::Connecting }, BrokerAction::Connect)
    } else {
        after_accepted(file_id, (n - 1) as nat).0.next(BrokerOutcome::Succeeded)
    }
}

/// On a broker that accepts every operation, announcing an image connects,
/// opens a confirm channel, declares the queue and the exchange, binds them,
/// publishes the image's id, closes the channel and is done: the message is
/// published exactly once, after the queue is bound.
pub proof fn lemma_accepted_announcement(file_id: i32)
    ensures
        forall|n: nat| n < 8 ==> #[trigger] after_accepted(file_id, n).1 == accepted_run(file_id)[n as int],
        accepted_run(file_id) == seq![
            BrokerAction::Connect,
            BrokerAction::OpenConfirmChannel,
            BrokerAction::DeclareQueue,
            BrokerAction::DeclareExchange,
            BrokerAction::BindQueue,
            BrokerAction::Publish { file_id },
            BrokerAction::Close,
            BrokerAction::Finish,
        ],
        after_accepted(file_id, 7).0.stage == PublishStage::Done,
        forall|n: nat| n < 7 ==> #[trigger] after_accepted(file_id, n).0.stage != PublishStage::Done,
{
    reveal_with_fuel(after_accepted, 9);
    assert forall|n: nat| n < 8 implies #[trigger] after_accepted(file_id, n).1 == accepted_run(
        file_id,
    )[n as int] by {
        reveal_with_fuel(after_accepted, 9);
    }
    assert forall|n: nat| n < 7 implies #[trigger] after_accepted(file_id, n).0.stage
        != PublishStage::Done by {
        reveal_with_fuel(after_accepted, 9);
    }
}

/// A refused operation ends the announcement at once, whatever stage it was in,
/// and nothing more is asked of the broker.
pub proof fn lemma_refusal_aborts(publisher: Publisher)
    ensures
        publisher.next(BrokerOutcome::Failed).1 == BrokerAction::Abort,
        publisher.next(BrokerOutcome::Failed).0.stage == PublishStage::Done,
        publisher.next(BrokerOutcome::Failed).0.file_id == publisher.file_id,
{
}

/// The message body denotes exactly the announced image's id: a minus sign
/// for a negative id, then the digits of its magnitude.
pub proof fn lemma_payload_denotes_id(file_id: i32)
    ensures
        file_id >= 0 ==> text_value(int_text(file_id as int)) == file_id,
        file_id < 0 ==> int_text(file_id as int)[0] == '-' && text_value(
            int_text(file_id as int).drop_first(),
        ) == -file_id,
{
    lemma_int_text_denotes(file_id as int);
}

} // verus!
