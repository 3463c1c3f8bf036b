//! The single writer: every change to the store is a command, and commands
//! are executed one at a time, in the order in which they arrive.

use crate::create_receipt::{
    create_outcome, CreateProgress, CreateReceiptWorkflow, CreateState, CreateStep, ReceiptService,
};
use crate::database::Database;
use crate::delete_receipt::{
    delete_outcome, DeletePhase, DeleteProgress, DeleteReceiptWorkflow, DeleteState, DeleteStep,
};
use crate::errors::ApiError;
use crate::gateway::{StoreReply, StoreRequest};
use crate::memory_store::MemoryStore;
use crate::patch::{
    patch_outcome, run_patch, CurrencyService, PatchStep, PatchWorkflow, ProductService,
    StoreService,
};
use crate::payloads::{
    CreateReceiptPayload, PatchCurrencyPayload, PatchInventoryPayload, PatchProductPayload,
    PatchReceiptPayload, PatchStorePayload,
};
use crate::responses::ResponseCreateReceipt;
use vstd::prelude::*;

verus! {

/// A change that a request handler asks the writer to make.
#[derive(Debug, PartialEq, Eq)]
pub enum WriterCommand {
    CreateReceipt(CreateReceiptPayload),
    DeleteReceipt(i32),
    PatchReceipt(i32, PatchReceiptPayload),
    PatchCurrency(i32, PatchCurrencyPayload),
    PatchStore(i32, PatchStorePayload),
    PatchProduct(i32, PatchProductPayload),
    PatchInventory(i32, PatchInventoryPayload),
}

/// The bits of a token that tell its kind apart: the version and the variant.
pub const TOKEN_KIND_MASK: u128 = 0x0000_0000_0000_f000_c000_0000_0000_0000;

/// What the bits under [`TOKEN_KIND_MASK`] are in a random token: version 4,
/// variant 1.
pub const RANDOM_TOKEN_KIND: u128 = 0x0000_0000_0000_4000_8000_0000_0000_0000;

/// Whether a token is of the random kind.
pub open spec fn is_random_token(token: u128) -> bool {
    token & TOKEN_KIND_MASK == RANDOM_TOKEN_KIND
}

/// Whether a token is of the random kind.
pub fn is_random_kind(token: u128) -> (answer: bool)
    ensures
        answer == is_random_token(token),
{
    token & TOKEN_KIND_MASK == RANDOM_TOKEN_KIND
}

/// A fresh random token, from `uuid::Uuid::new_v4` by `Uuid::as_u128`.
///
/// Trusted: the token is random, so nothing is claimed of it but its kind.
/// `new_v4` forces the version bits to 4 and the variant bits to binary 10,
/// and `as_u128` reads the sixteen bytes as one big-endian number, which
/// puts those bits under [`TOKEN_KIND_MASK`]. The call fails only if the
/// operating system cannot supply random bytes.
#[verifier::external_body]
fn fresh_token() -> (token: u128)
    ensures
        is_random_token(token),
{
    uuid::Uuid::new_v4().as_u128()
}

impl CreateReceiptPayload {
    /// The payload under the transaction token `token`: whatever token it
    /// carried before is discarded.
    pub fn with_transaction_id(self, token: u128) -> (stamped: Self)
        ensures
            stamped == (CreateReceiptPayload { transaction_id: Some(token), ..self }),
    {
        CreateReceiptPayload { transaction_id: Some(token), ..self }
    }
}

/// The workflow of the command that the writer is executing.
pub enum Workflow {
    Create(CreateReceiptWorkflow),
    Delete(DeleteReceiptWorkflow),
    Patch(PatchWorkflow),
}

/// How a command ended. The handler that submitted the command never sees
/// it: it is there to be logged.
#[derive(Debug, PartialEq, Eq)]
pub enum CommandOutcome {
    Created(Result<ResponseCreateReceipt, ApiError>),
    Deleted(Result<(), ApiError>),
    Patched(Result<(), ApiError>),
}

/// The writer between two events: executing a command, whose workflow waits
/// for a reply of the store, or idle again, with the outcome of the command
/// that it has just finished.
pub enum Dispatch {
    Executing(Workflow),
    Idle(CommandOutcome),
}

/// The step that a command's workflow has reached, whatever its kind.
pub enum Progress {
    Create(CreateProgress),
    Delete(DeleteProgress),
    Patch(PatchStep),
}

impl Dispatch {
    /// The step of the workflow that the writer is in, or has just left.
    pub open spec fn progress(self) -> Progress {
        match self {
            Dispatch::Executing(Workflow::Create(workflow)) => Progress::Create(
                CreateProgress::Pending(workflow@),
            ),
            Dispatch::Executing(Workflow::Delete(workflow)) => Progress::Delete(
                DeleteProgress::Pending(workflow@),
            ),
            Dispatch::Executing(Workflow::Patch(workflow)) => Progress::Patch(
                PatchStep::Pending(workflow),
            ),
            Dispatch::Idle(CommandOutcome::Created(result)) => Progress::Create(
                CreateProgress::Finished(result),
            ),
            Dispatch::Idle(CommandOutcome::Deleted(result)) => Progress::Delete(
                DeleteProgress::Finished(result),
            ),
            Dispatch::Idle(CommandOutcome::Patched(result)) => Progress::Patch(
                PatchStep::Finished(result),
            ),
        }
    }
}

impl WriterCommand {
    /// The first step of the command's workflow.
    pub open spec fn begun(self) -> Progress {
        match self {
            WriterCommand::CreateReceipt(form) => Progress::Create(CreateState::started(form)),
            WriterCommand::DeleteReceipt(id) => Progress::Delete(
                DeleteProgress::Pending(
                    DeleteState {
                        id,
                        phase: DeletePhase::CheckReceipt,
                        line_ids: Seq::empty(),
                        product_ids: Seq::empty(),
                        orphans: Seq::empty(),
                        store_id: 0,
                        currency_id: 0,
                    },
                ),
            ),
            _ => Progress::Patch(PatchStep::Pending(self.patch())),
        }
    }

    /// The change that a patch command asks for.
    pub open spec fn patch(self) -> PatchWorkflow {
        match self {
            WriterCommand::PatchReceipt(id, payload) => PatchWorkflow::Receipt(payload.changes(id)),
            WriterCommand::PatchCurrency(id, payload) => PatchWorkflow::Currency(
                payload.changes(id),
            ),
            WriterCommand::PatchStore(id, payload) => PatchWorkflow::Store(payload.changes(id)),
            WriterCommand::PatchProduct(id, payload) => PatchWorkflow::Product(payload.changes(id)),
            WriterCommand::PatchInventory(id, payload) => PatchWorkflow::FindInventory(id, payload),
            _ => arbitrary(),
        }
    }

    /// What the command comes to in the store `before`: the outcome of its
    /// workflow and the store that it leaves.
    pub open spec fn comes_to(self, before: Database, outcome: CommandOutcome, after: Database)
        -> bool {
        match self {
            WriterCommand::CreateReceipt(form) => outcome matches CommandOutcome::Created(result)
                && create_outcome(before, form, result, after),
            WriterCommand::DeleteReceipt(id) => outcome matches CommandOutcome::Deleted(result)
                && delete_outcome(before, id, result, after),
            _ => outcome matches CommandOutcome::Patched(result) && patch_outcome(
                before,
                self.patch(),
                result,
                after,
            ),
        }
    }
}

/// Whether `after` and `outcomes` are what the commands come to when they
/// are executed on the store `before` one after the other, each on the
/// store that the one before it left.
pub open spec fn runs(
    before: Database,
    commands: Seq<WriterCommand>,
    outcomes: Seq<CommandOutcome>,
    after: Database,
) -> bool
    decreases commands.len(),
{
    if commands.len() == 0 {
        outcomes.len() == 0 && after == before
    } else {
        outcomes.len() == commands.len() && exists|between: Database|
            runs(before, commands.drop_last(), outcomes.drop_last(), between)
                && #[trigger] commands.last().comes_to(between, outcomes.last(), after)
    }
}

/// The dispatcher of the writer's commands.
pub struct CommandService {}

impl CommandService {
    pub fn new() -> (service: Self) {
        Self {  }
    }

    /// Turns a receipt payload into the command that creates it, under a
    /// fresh transaction token. The token is returned with the command, so
    /// that the submitter can look the receipt up later; a token that the
    /// client sent is never kept.
    pub fn accept_receipt(&self, payload: CreateReceiptPayload) -> (accepted: (WriterCommand, u128))
        ensures
            is_random_token(accepted.1),
            accepted.0 == WriterCommand::CreateReceipt(
                CreateReceiptPayload { transaction_id: Some(accepted.1), ..payload },
            ),
    {
        let token = fresh_token();
        (WriterCommand::CreateReceipt(payload.with_transaction_id(token)), token)
    }

    /// Takes a command from the queue and begins its workflow. A creation
    /// whose currency reference is invalid ends at once; every other command
    /// has a request to send.
    pub fn begin(&self, command: WriterCommand) -> (dispatch: Dispatch)
        ensures
            dispatch.progress() == command.begun(),
    {
        match command {
            WriterCommand::CreateReceipt(form) => match CreateReceiptWorkflow::start(form) {
                CreateStep::Pending(workflow) => Dispatch::Executing(Workflow::Create(workflow)),
                CreateStep::Finished(result) => Dispatch::Idle(CommandOutcome::Created(result)),
            },
            WriterCommand::DeleteReceipt(id) => Dispatch::Executing(
                Workflow::Delete(DeleteReceiptWorkflow::start(id)),
            ),
            WriterCommand::PatchReceipt(id, payload) => Dispatch::Executing(
                Workflow::Patch(
                    PatchWorkflow::Receipt(ReceiptService::new().receipt_changes(id, &payload)),
                ),
            ),
            WriterCommand::PatchCurrency(id, payload) => Dispatch::Executing(
                Workflow::Patch(
                    PatchWorkflow::Currency(CurrencyService::new().currency_changes(id, &payload)),
                ),
            ),
            WriterCommand::PatchStore(id, payload) => Dispatch::Executing(
                Workflow::Patch(
                    PatchWorkflow::Store(StoreService::new().store_changes(id, &payload)),
                ),
            ),
            WriterCommand::PatchProduct(id, payload) => Dispatch::Executing(
                Workflow::Patch(
                    PatchWorkflow::Product(ProductService::new().product_changes(id, &payload)),
                ),
            ),
            WriterCommand::PatchInventory(id, payload) => Dispatch::Executing(
                Workflow::Patch(PatchWorkflow::FindInventory(id, payload)),
            ),
        }
    }

    /// The request that the workflow in execution sends to the store next.
    pub fn request(&self, workflow: &Workflow) -> (request: StoreRequest)
        ensures
            match workflow {
                Workflow::Create(create) => create@.wf() && request == create@.pending(),
                Workflow::Delete(delete) => delete@.wf() && delete@.asks(request),
                Workflow::Patch(patch) => request == patch.pending(),
            },
    {
        match workflow {
            Workflow::Create(create) => create.request(),
            Workflow::Delete(delete) => delete.request(),
            Workflow::Patch(patch) => patch.request(),
        }
    }

    /// Hands the store's reply to the workflow in execution. The writer
    /// stays with the command until its workflow has finished, whether it
    /// succeeds or fails; only then is it idle again.
    pub fn resume(&self, workflow: Workflow, reply: StoreReply) -> (dispatch: Dispatch)
        ensures
            dispatch.progress() == match workflow {
                Workflow::Create(create) => Progress::Create(create@.after(reply)),
                Workflow::Delete(delete) => Progress::Delete(delete@.after(reply)),
                Workflow::Patch(patch) => Progress::Patch(patch.after(reply)),
            },
    {
        match workflow {
            Workflow::Create(create) => match create.advance(reply) {
                CreateStep::Pending(next) => Dispatch::Executing(Workflow::Create(next)),
                CreateStep::Finished(result) => Dispatch::Idle(CommandOutcome::Created(result)),
            },
            Workflow::Delete(delete) => match delete.advance(reply) {
                DeleteStep::Pending(next) => Dispatch::Executing(Workflow::Delete(next)),
                DeleteStep::Finished(result) => Dispatch::Idle(CommandOutcome::Deleted(result)),
            },
            Workflow::Patch(patch) => match patch.advance(reply) {
                PatchStep::Pending(next) => Dispatch::Executing(Workflow::Patch(next)),
                PatchStep::Finished(result) => Dispatch::Idle(CommandOutcome::Patched(result)),
            },
        }
    }

    /// Executes one command on `store`, from its first request to its
    /// outcome.
    pub fn execute(&self, store: &mut MemoryStore, command: WriterCommand) -> (outcome:
        CommandOutcome)
        requires
            old(store)@.wf(),
        ensures
            final(store)@.wf(),
            command.comes_to(old(store)@, outcome, final(store)@),
    {
        match command {
            WriterCommand::CreateReceipt(form) => CommandOutcome::Created(
                ReceiptService::new().create_receipt(store, form),
            ),
            WriterCommand::DeleteReceipt(id) => CommandOutcome::Deleted(
                ReceiptService::new().delete_receipt(store, id),
            ),
            WriterCommand::PatchReceipt(id, payload) => CommandOutcome::Patched(
                ReceiptService::new().patch_receipt(store, id, &payload),
            ),
            WriterCommand::PatchCurrency(id, payload) => CommandOutcome::Patched(
                CurrencyService::new().patch_currency(store, id, &payload),
            ),
            WriterCommand::PatchStore(id, payload) => CommandOutcome::Patched(
                StoreService::new().patch_store(store, id, &payload),
            ),
            WriterCommand::PatchProduct(id, payload) => CommandOutcome::Patched(
                ProductService::new().patch_product(store, id, &payload),
            ),
            WriterCommand::PatchInventory(id, payload) => CommandOutcome::Patched(
                run_patch(store, PatchWorkflow::FindInventory(id, payload)),
            ),
        }
    }

    /// Executes the commands on `store` in the order in which they were
    /// submitted, each to its end before the next begins, and returns their
    /// outcomes in that order. A command that fails does not stop the ones
    /// behind it.
    pub fn run(&self, store: &mut MemoryStore, commands: Vec<WriterCommand>) -> (outcomes: Vec<
        CommandOutcome,
    >)
        requires
            old(store)@.wf(),
        ensures
            final(store)@.wf(),
            runs(old(store)@, commands@, outcomes@, final(store)@),
    {
        let ghost before = store@;
        let ghost all = commands@;
        let mut queue = commands;
        let mut outcomes: Vec<CommandOutcome> = Vec::new();
        let ghost mut done: int = 0;
        proof {
            assert(all.take(0) =~= Seq::<WriterCommand>::empty());
            assert(all.skip(0) =~= all);
        }
        while queue.len() > 0
            invariant
                before == old(store)@,
                all == commands@,
                0 <= done <= all.len(),
                queue@ == all.skip(done),
                store@.wf(),
                runs(before, all.take(done), outcomes@, store@),
            decreases queue.len(),
        {
            let ghost between = store@;
            let ghost earlier = outcomes@;
            let command = queue.remove(0);
            let outcome = self.execute(store, command);
            outcomes.push(outcome);
            proof {
                assert(queue@ =~= all.skip(done + 1));
                assert(all.take(done + 1).drop_last() =~= all.take(done));
                assert(outcomes@.drop_last() =~= earlier);
                lemma_runs_lengths(before, all.take(done), earlier, between);
                lemma_runs_extends(before, all.take(done + 1), outcomes@, between, store@);
                done = done + 1;
            }
        }
        proof {
            assert(all.take(done) =~= all);
        }
        outcomes
    }
}

/// A run is extended by the execution of one more command.
pub proof fn lemma_runs_extends(
    before: Database,
    commands: Seq<WriterCommand>,
    outcomes: Seq<CommandOutcome>,
    between: Database,
    after: Database,
)
    requires
        commands.len() > 0,
        outcomes.len() == commands.len(),
        runs(before, commands.drop_last(), outcomes.drop_last(), between),
        commands.last().comes_to(between, outcomes.last(), after),
    ensures
        runs(before, commands, outcomes, after),
{
}

/// Every command of a run has one outcome.
pub proof fn lemma_runs_lengths(
    before: Database,
    commands: Seq<WriterCommand>,
    outcomes: Seq<CommandOutcome>,
    after: Database,
)
    requires
        runs(before, commands, outcomes, after),
    ensures
        outcomes.len() == commands.len(),
{
}

} // verus!
