//! The task of a backup storage provider that volunteers for every new
//! storage request: it sends the volunteering transaction, watches until the
//! transaction is in a block, and looks at how it ended there.
//!
//! The task decides; sending, watching and fetching are the caller's. The
//! caller hands every outcome to [`step`] and does what it answers.
use std::str::FromStr;
use vstd::prelude::*;
use sp_core::H256;

verus! {

/// The string that a JSON text holds under the member `third` of the member
/// `second` of the member `first`: `None` where the text is not JSON,
/// `Some(None)` where there is no string at that place.
pub uninterp spec fn spec_json_string_at(text: Seq<char>, first: Seq<char>, second: Seq<char>, third: Seq<char>) -> Option<
    Option<Seq<char>>,
>;

/// The number that a JSON text holds under the member `second` of the member
/// `first`, as it is written in decimal: `None` where the text is not JSON or
/// has no number at that place.
pub uninterp spec fn spec_json_number_at(text: Seq<char>, first: Seq<char>, second: Seq<char>) -> Option<Seq<char>>;

/// What an update holds at `params.result.inBlock`: `None` where the update
/// is not JSON, `Some(None)` where there is no string at that place.
pub open spec fn spec_json_in_block(update: Seq<char>) -> Option<Option<Seq<char>>> {
    spec_json_string_at(update, "params"@, "result"@, "inBlock"@)
}

/// The number that an update holds at `params.subscription`, as it is written
/// in decimal: `None` where the update is not JSON or has no number there.
pub open spec fn spec_json_subscription(update: Seq<char>) -> Option<Seq<char>> {
    spec_json_number_at(update, "params"@, "subscription"@)
}

/// The 32 bytes that a text stands for when it is read as hexadecimal digits,
/// two to a byte, with or without the prefix `0x` and with blanks, tabs and
/// line ends passed over: `None` where the text does not give exactly 32
/// bytes in this way.
pub uninterp spec fn spec_parse_h256(text: Seq<char>) -> Option<Seq<u8>>;

/// Reads the string at a path of three members with `serde_json::from_str`,
/// `Value` indexing and `Value::as_str`.
///
/// Trusted: the outcome depends on the text and the path alone.
#[verifier::external_body]
pub(crate) fn json_string_at(text: &str, first: &str, second: &str, third: &str) -> (r: Option<Option<String>>)
    ensures
        match r {
            Some(Some(found)) => spec_json_string_at(text@, first@, second@, third@) == Some(Some(found@)),
            Some(None) => spec_json_string_at(text@, first@, second@, third@) == Some(None::<Seq<char>>),
            None => spec_json_string_at(text@, first@, second@, third@) is None,
        },
{
    let json: serde_json::Value = serde_json::from_str(text).ok()?;
    Some(json[first][second][third].as_str().map(str::to_owned))
}

/// Reads the number at a path of two members with `serde_json::from_str`,
/// `Value` indexing and `Value::as_number`.
///
/// Trusted: the outcome depends on the text and the path alone.
#[verifier::external_body]
pub(crate) fn json_number_at(text: &str, first: &str, second: &str) -> (r: Option<String>)
    ensures
        match r {
            Some(number) => spec_json_number_at(text@, first@, second@) == Some(number@),
            None => spec_json_number_at(text@, first@, second@) is None,
        },
{
    let json: serde_json::Value = serde_json::from_str(text).ok()?;
    json[first][second].as_number().map(ToString::to_string)
}

/// Reads a block hash with `H256::from_str`.
///
/// Trusted: the outcome depends on the text alone, and a hash has 32 bytes.
#[verifier::external_body]
pub(crate) fn parse_h256(text: &str) -> (r: Option<[u8; 32]>)
    ensures
        match r {
            Some(hash) => spec_parse_h256(text@) == Some(hash@),
            None => spec_parse_h256(text@) is None,
        },
{
    H256::from_str(text).ok().map(|hash| hash.0)
}

/// The task, around the handler through which it reaches the chain.
pub struct BspVolunteerMockTask<H> {
    storage_hub_handler: H,
}

impl<H> BspVolunteerMockTask<H> {
    /// The handler of the task.
    pub closed spec fn spec_handler(&self) -> H {
        self.storage_hub_handler
    }

    /// A task around `storage_hub_handler`.
    pub fn new(storage_hub_handler: H) -> (task: Self)
        ensures
            task.spec_handler() == storage_hub_handler,
    {
        Self { storage_hub_handler }
    }

    /// The handler of the task.
    pub fn handler(&self) -> (handler: &H)
        ensures
            *handler == self.spec_handler(),
    {
        &self.storage_hub_handler
    }
}

impl<H: Clone> Clone for BspVolunteerMockTask<H> {
    fn clone(&self) -> (task: Self) {
        Self { storage_hub_handler: self.storage_hub_handler.clone() }
    }
}

/// Why the task ended without success.
#[derive(Debug, Clone, Copy, PartialEq, Eq, Structural)]
pub enum TaskError {
    /// An update of the transaction was not JSON.
    MalformedUpdate,
    /// The block hash of an update was not a hash.
    BadBlockHash,
    /// An update that names a block names no subscription.
    NoSubscription,
    /// The watch ended before the transaction was in a block.
    NotIncluded,
    /// The transaction failed in its block.
    ExtrinsicFailed,
}

/// What an update of the watched transaction says.
#[derive(Debug, Clone, PartialEq, Eq)]
pub enum UpdateOutcome {
    /// The transaction is not in a block yet.
    KeepWaiting,
    /// The transaction is in the block `block_hash`; `subscription` names the
    /// watch.
    Included { block_hash: [u8; 32], subscription: String },
    /// The update cannot be used.
    Unusable(TaskError),
}

/// What the parts of an update say: where no block is named the task keeps
/// waiting; where one is named its hash has to be a hash and the update has
/// to name the subscription.
pub open spec fn spec_outcome(
    in_block: Option<Option<Seq<char>>>,
    block_hash: Option<Seq<u8>>,
    subscription: Option<Seq<char>>,
    outcome: UpdateOutcome,
) -> bool {
    match in_block {
        None => outcome == UpdateOutcome::Unusable(TaskError::MalformedUpdate),
        Some(None) => outcome == UpdateOutcome::KeepWaiting,
        Some(Some(_)) => match block_hash {
            None => outcome == UpdateOutcome::Unusable(TaskError::BadBlockHash),
            Some(hash) => match subscription {
                None => outcome == UpdateOutcome::Unusable(TaskError::NoSubscription),
                Some(number) => outcome matches UpdateOutcome::Included { block_hash, subscription } && block_hash@
                    == hash && subscription@ == number,
            },
        },
    }
}

/// Decides what an update says from its parts: what stands at
/// `params.result.inBlock`, what that reads as when taken for a block hash,
/// and the number at `params.subscription`.
pub fn outcome_from_parts(
    in_block: Option<Option<String>>,
    block_hash: Option<[u8; 32]>,
    subscription: Option<String>,
) -> (outcome: UpdateOutcome)
    ensures
        spec_outcome(
            match in_block {
                Some(Some(text)) => Some(Some(text@)),
                Some(None) => Some(None),
                None => None,
            },
            match block_hash {
                Some(hash) => Some(hash@),
                None => None,
            },
            match subscription {
                Some(number) => Some(number@),
                None => None,
            },
            outcome,
        ),
{
    match in_block {
        None => UpdateOutcome::Unusable(TaskError::MalformedUpdate),
        Some(None) => UpdateOutcome::KeepWaiting,
        Some(Some(_)) => match block_hash {
            None => UpdateOutcome::Unusable(TaskError::BadBlockHash),
            Some(hash) => match subscription {
                None => UpdateOutcome::Unusable(TaskError::NoSubscription),
                Some(number) => UpdateOutcome::Included { block_hash: hash, subscription: number },
            },
        },
    }
}

/// Reads an update of the watched transaction.
pub fn classify_update(update: &str) -> (outcome: UpdateOutcome)
    ensures
        spec_outcome(
            spec_json_in_block(update@),
            match spec_json_in_block(update@) {
                Some(Some(text)) => spec_parse_h256(text),
                _ => None,
            },
            spec_json_subscription(update@),
            outcome,
        ),
{
    let in_block = json_string_at(update, "params", "result", "inBlock");
    let block_hash = match &in_block {
        Some(Some(text)) => parse_h256(text.as_str()),
        _ => None,
    };
    let subscription = json_number_at(update, "params", "subscription");
    outcome_from_parts(in_block, block_hash, subscription)
}

/// Where the task stands.
#[derive(Debug, Clone, Copy, PartialEq, Eq)]
pub enum TaskState {
    /// No request has come yet.
    AwaitingRequest,
    /// The transaction is sent and watched.
    AwaitingInclusion,
    /// The transaction is in a block and the watch is being ended.
    AwaitingUnwatch { block_hash: [u8; 32] },
    /// The transaction is being fetched from its block.
    AwaitingExtrinsic,
    /// The task has ended.
    Finished,
}

/// What has happened.
#[derive(Debug, Clone, PartialEq, Eq)]
pub enum TaskEvent {
    /// A storage request was issued.
    NewStorageRequest { location: Vec<u8>, fingerprint: [u8; 32] },
    /// The watched transaction has an update.
    Update(UpdateOutcome),
    /// The watch has ended by itself.
    WatcherClosed,
    /// The watch was ended as asked.
    Unwatched,
    /// The transaction was fetched from its block, and has or has not
    /// succeeded there.
    ExtrinsicResult { successful: bool },
}

/// What the caller has to do next.
#[derive(Debug, Clone, PartialEq, Eq)]
pub enum TaskAction {
    /// Send the transaction that volunteers for the request, and watch it.
    SendVolunteer { location: Vec<u8>, fingerprint: [u8; 32] },
    /// Wait for the next update.
    AwaitUpdate,
    /// End the watch.
    Unwatch { subscription: String },
    /// Fetch the transaction from the block.
    FetchExtrinsic { block_hash: [u8; 32] },
    /// Report success.
    Succeed,
    /// Report failure.
    Fail(TaskError),
    /// Nothing: the event does not belong to the state.
    Ignore,
}

/// A step of the task: where it stands next, and what is to be done.
#[derive(Debug, Clone, PartialEq, Eq)]
pub struct Transition {
    pub next: TaskState,
    pub action: TaskAction,
}

/// The step that the task takes on `event` in `state`.
pub open spec fn spec_step(state: TaskState, event: TaskEvent) -> Transition {
    match (state, event) {
        (TaskState::AwaitingRequest, TaskEvent::NewStorageRequest { location, fingerprint }) => Transition {
            next: TaskState::AwaitingInclusion,
            action: TaskAction::SendVolunteer { location, fingerprint },
        },
        (TaskState::AwaitingInclusion, TaskEvent::Update(UpdateOutcome::KeepWaiting)) => Transition {
            next: TaskState::AwaitingInclusion,
            action: TaskAction::AwaitUpdate,
        },
        (
            TaskState::AwaitingInclusion,
            TaskEvent::Update(UpdateOutcome::Included { block_hash, subscription }),
        ) => Transition { next: TaskState::AwaitingUnwatch { block_hash }, action: TaskAction::Unwatch { subscription } },
        (TaskState::AwaitingInclusion, TaskEvent::Update(UpdateOutcome::Unusable(error))) => Transition {
            next: TaskState::Finished,
            action: TaskAction::Fail(error),
        },
        (TaskState::AwaitingInclusion, TaskEvent::WatcherClosed) => Transition {
            next: TaskState::Finished,
            action: TaskAction::Fail(TaskError::NotIncluded),
        },
        (TaskState::AwaitingUnwatch { block_hash }, TaskEvent::Unwatched) => Transition {
            next: TaskState::AwaitingExtrinsic,
            action: TaskAction::FetchExtrinsic { block_hash },
        },
        (TaskState::AwaitingExtrinsic, TaskEvent::ExtrinsicResult { successful }) => Transition {
            next: TaskState::Finished,
            action: if successful {
                TaskAction::Succeed
            } else {
                TaskAction::Fail(TaskError::ExtrinsicFailed)
            },
        },
        _ => Transition { next: state, action: TaskAction::Ignore },
    }
}

/// Takes a step of the task.
pub fn step(state: TaskState, event: TaskEvent) -> (transition: Transition)
    ensures
        transition == spec_step(state, event),
{
    match state {
        TaskState::AwaitingRequest => match event {
            TaskEvent::NewStorageRequest { location, fingerprint } => Transition {
                next: TaskState::AwaitingInclusion,
                action: TaskAction::SendVolunteer { location, fingerprint },
            },
            _ => Transition { next: state, action: TaskAction::Ignore },
        },
        TaskState::AwaitingInclusion => match event {
            TaskEvent::Update(outcome) => match outcome {
                UpdateOutcome::KeepWaiting => Transition {
                    next: TaskState::AwaitingInclusion,
                    action: TaskAction::AwaitUpdate,
                },
                UpdateOutcome::Included { block_hash, subscription } => Transition {
                    next: TaskState::AwaitingUnwatch { block_hash },
                    action: TaskAction::Unwatch { subscription },
                },
                UpdateOutcome::Unusable(error) => Transition {
                    next: TaskState::Finished,
                    action: TaskAction::Fail(error),
                },
            },
            TaskEvent::WatcherClosed => Transition {
                next: TaskState::Finished,
                action: TaskAction::Fail(TaskError::NotIncluded),
            },
            _ => Transition { next: state, action: TaskAction::Ignore },
        },
        TaskState::AwaitingUnwatch { block_hash } => match event {
            TaskEvent::Unwatched => Transition {
                next: TaskState::AwaitingExtrinsic,
                action: TaskAction::FetchExtrinsic { block_hash },
            },
            _ => Transition { next: state, action: TaskAction::Ignore },
        },
        TaskState::AwaitingExtrinsic => match event {
            TaskEvent::ExtrinsicResult { successful } => Transition {
                next: TaskState::Finished,
                action: if successful {
                    TaskAction::Succeed
                } else {
                    TaskAction::Fail(TaskError::ExtrinsicFailed)
                },
            },
            _ => Transition { next: state, action: TaskAction::Ignore },
        },
        TaskState::Finished => Transition { next: state, action: TaskAction::Ignore },
    }
}

} // verus!
