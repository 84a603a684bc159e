//! The unit of work that is dispatched for one transaction: its row is
//! written first, then, address by address, the balance is looked up and the
//! wallet and owner rows are written. The unit decides; whoever drives it
//! performs each action and reports what came of it.

use crate::chain::RawTransaction;
use crate::error::IngestError;
use crate::normalize::{
    normalization, normalize, record_of, transaction_record, wallet_addresses,
    wallet_addresses_of, NormalizationMode, TransactionRecord, TransactionRecordView,
};
use crate::wallet::{
    owner_placeholder, placeholder_of, snapshot_of, wallet_snapshot, OwnerPlaceholder,
    OwnerPlaceholderView, WalletSnapshot, WalletSnapshotView,
};
use vstd::prelude::*;

verus! {

/// What a unit is waiting for.
#[derive(Clone, Copy, Debug, PartialEq, Eq, Structural)]
pub enum UnitPhase {
    /// The transaction row is being written.
    WritingTransaction,
    /// The unspent outputs of the current address are being looked up.
    FetchingUtxos,
    /// The wallet row of the current address is being written.
    WritingWallet,
    /// The owner row of the current address is being written.
    WritingOwner,
    /// Every row was written.
    Done,
    /// A request failed; nothing more is asked for.
    Failed(IngestError),
}

/// What came of the action that a unit asked for.
#[derive(Debug, PartialEq, Eq)]
pub enum UnitEvent {
    /// The store answered a write.
    Stored(Result<(), IngestError>),
    /// The upstream answered a lookup of unspent outputs with their values.
    Utxos(Result<Vec<u64>, IngestError>),
}

/// What a unit asks its driver to do next.
#[derive(Debug, PartialEq, Eq)]
pub enum UnitAction {
    /// Write this row to the transactions table, then report `Stored`.
    InsertTransaction(TransactionRecord),
    /// Look up the unspent outputs of this address, then report `Utxos`.
    FetchUtxos(String),
    /// Write this row to the wallet table, then report `Stored`.
    InsertWallet(WalletSnapshot),
    /// Write this row to the owner table, then report `Stored`.
    InsertOwner(OwnerPlaceholder),
    /// The event answered nothing that was asked; keep waiting.
    Wait,
    /// The unit is over, with this result.
    Finish(Result<(), IngestError>),
}

/// Mathematical content of a `UnitAction`.
pub enum UnitActionView {
    InsertTransaction(TransactionRecordView),
    FetchUtxos(Seq<char>),
    InsertWallet(WalletSnapshotView),
    InsertOwner(OwnerPlaceholderView),
    Wait,
    Finish(Result<(), IngestError>),
}

impl View for UnitAction {
    type V = UnitActionView;

    open spec fn view(&self) -> UnitActionView {
        match self {
            UnitAction::InsertTransaction(record) => UnitActionView::InsertTransaction(record@),
            UnitAction::FetchUtxos(address) => UnitActionView::FetchUtxos(address@),
            UnitAction::InsertWallet(wallet) => UnitActionView::InsertWallet(wallet@),
            UnitAction::InsertOwner(owner) => UnitActionView::InsertOwner(owner@),
            UnitAction::Wait => UnitActionView::Wait,
            UnitAction::Finish(result) => UnitActionView::Finish(*result),
        }
    }
}

/// The state of the unit of work of one transaction.
#[derive(Debug)]
pub struct TransactionUnit {
    block_height: u64,
    addresses: Vec<String>,
    cursor: usize,
    phase: UnitPhase,
}

/// Mathematical content of a `TransactionUnit`: the height of its block,
/// the addresses to resolve, how many of them are done with, and the phase.
pub struct TransactionUnitView {
    pub block_height: u64,
    pub addresses: Seq<Seq<char>>,
    pub cursor: nat,
    pub phase: UnitPhase,
}

impl TransactionUnitView {
    /// The cursor stays within the addresses, and points at one of them
    /// while that address is being worked on.
    pub open spec fn wf(self) -> bool {
        &&& self.cursor <= self.addresses.len()
        &&& (self.phase == UnitPhase::FetchingUtxos || self.phase == UnitPhase::WritingWallet
            || self.phase == UnitPhase::WritingOwner) ==> self.cursor < self.addresses.len()
        &&& self.phase == UnitPhase::WritingTransaction ==> self.cursor == 0
        &&& self.phase == UnitPhase::Done ==> self.cursor == self.addresses.len()
    }

    /// The unit has ended, well or not.
    pub open spec fn finished(self) -> bool {
        self.phase == UnitPhase::Done || self.phase is Failed
    }
}

/// The unit as it starts on a transaction found at `block_height`.
pub open spec fn unit_start(
    tx: RawTransaction,
    block_height: u64,
    mode: NormalizationMode,
) -> (TransactionUnitView, UnitActionView) {
    let normalized = normalization(tx, block_height);
    (
        TransactionUnitView {
            block_height,
            addresses: wallet_addresses_of(normalized, mode),
            cursor: 0,
            phase: UnitPhase::WritingTransaction,
        },
        UnitActionView::InsertTransaction(record_of(normalized, mode)),
    )
}

/// The unit turns to the address at `index`, or ends when none is left.
pub open spec fn unit_turn_to(pre: TransactionUnitView, index: nat) -> (
    TransactionUnitView,
    UnitActionView,
) {
    if index < pre.addresses.len() {
        (
            TransactionUnitView { cursor: index, phase: UnitPhase::FetchingUtxos, ..pre },
            UnitActionView::FetchUtxos(pre.addresses[index as int]),
        )
    } else {
        (
            TransactionUnitView { cursor: index, phase: UnitPhase::Done, ..pre },
            UnitActionView::Finish(Ok(())),
        )
    }
}

/// The unit ends with `error`.
pub open spec fn unit_fail(pre: TransactionUnitView, error: IngestError) -> (
    TransactionUnitView,
    UnitActionView,
) {
    (
        TransactionUnitView { phase: UnitPhase::Failed(error), ..pre },
        UnitActionView::Finish(Err(error)),
    )
}

/// The transition of a unit: the state after `event`, and the action it
/// asks for. The first failure ends the unit with that error. An event that
/// does not answer what the unit waits for changes nothing.
pub open spec fn unit_step(pre: TransactionUnitView, event: UnitEvent) -> (
    TransactionUnitView,
    UnitActionView,
) {
    match pre.phase {
        UnitPhase::Done => (pre, UnitActionView::Finish(Ok(()))),
        UnitPhase::Failed(error) => (pre, UnitActionView::Finish(Err(error))),
        UnitPhase::WritingTransaction => match event {
            UnitEvent::Stored(Ok(_)) => unit_turn_to(pre, 0),
            UnitEvent::Stored(Err(error)) => unit_fail(pre, error),
            UnitEvent::Utxos(_) => (pre, UnitActionView::Wait),
        },
        UnitPhase::FetchingUtxos => match event {
            UnitEvent::Utxos(Ok(values)) => (
                TransactionUnitView { phase: UnitPhase::WritingWallet, ..pre },
                UnitActionView::InsertWallet(
                    snapshot_of(pre.addresses[pre.cursor as int], values@, pre.block_height),
                ),
            ),
            UnitEvent::Utxos(Err(error)) => unit_fail(pre, error),
            UnitEvent::Stored(_) => (pre, UnitActionView::Wait),
        },
        UnitPhase::WritingWallet => match event {
            UnitEvent::Stored(Ok(_)) => (
                TransactionUnitView { phase: UnitPhase::WritingOwner, ..pre },
                UnitActionView::InsertOwner(placeholder_of(pre.addresses[pre.cursor as int])),
            ),
            UnitEvent::Stored(Err(error)) => unit_fail(pre, error),
            UnitEvent::Utxos(_) => (pre, UnitActionView::Wait),
        },
        UnitPhase::WritingOwner => match event {
            UnitEvent::Stored(Ok(_)) => unit_turn_to(pre, pre.cursor + 1),
            UnitEvent::Stored(Err(error)) => unit_fail(pre, error),
            UnitEvent::Utxos(_) => (pre, UnitActionView::Wait),
        },
    }
}

impl View for TransactionUnit {
    type V = TransactionUnitView;

    closed spec fn view(&self) -> TransactionUnitView {
        TransactionUnitView {
            block_height: self.block_height,
            addresses: self.addresses.deep_view(),
            cursor: self.cursor as nat,
            phase: self.phase,
        }
    }
}

impl TransactionUnit {
    #[verifier::type_invariant]
    closed spec fn well_formed(self) -> bool {
        self@.wf()
    }

    /// Starts the unit of work of `tx`, found at `block_height`: the
    /// transaction is normalised and its row is the first thing to write.
    pub fn begin(tx: &RawTransaction, block_height: u64, mode: NormalizationMode) -> (started: (
        TransactionUnit,
        UnitAction,
    ))
        ensures
            started.0@ == unit_start(*tx, block_height, mode).0,
            started.1@ == unit_start(*tx, block_height, mode).1,
            started.0@.wf(),
    {
        let normalized = normalize(tx, block_height);
        let addresses = wallet_addresses(&normalized, mode);
        let record = transaction_record(normalized, mode);
        (
            TransactionUnit { block_height, addresses, cursor: 0, phase: UnitPhase::WritingTransaction },
            UnitAction::InsertTransaction(record),
        )
    }

    /// The phase the unit is in.
    pub fn phase(&self) -> (phase: UnitPhase)
        ensures
            phase == self@.phase,
    {
        self.phase
    }

    /// Tells whether the unit has ended.
    pub fn is_finished(&self) -> (finished: bool)
        ensures
            finished == self@.finished(),
    {
        match self.phase {
            UnitPhase::Done => true,
            UnitPhase::Failed(_) => true,
            _ => false,
        }
    }

    fn turn_to(self, index: usize) -> (next: (TransactionUnit, UnitAction))
        requires
            index <= self@.addresses.len(),
        ensures
            next.0@ == unit_turn_to(self@, index as nat).0,
            next.1@ == unit_turn_to(self@, index as nat).1,
    {
        if index < self.addresses.len() {
            let address = self.addresses[index].clone();
            (
                TransactionUnit {
                    block_height: self.block_height,
                    addresses: self.addresses,
                    cursor: index,
                    phase: UnitPhase::FetchingUtxos,
                },
                UnitAction::FetchUtxos(address),
            )
        } else {
            (
                TransactionUnit {
                    block_height: self.block_height,
                    addresses: self.addresses,
                    cursor: index,
                    phase: UnitPhase::Done,
                },
                UnitAction::Finish(Ok(())),
            )
        }
    }

    fn fail(self, error: IngestError) -> (next: (TransactionUnit, UnitAction))
        ensures
            next.0@ == unit_fail(self@, error).0,
            next.1@ == unit_fail(self@, error).1,
    {
        proof {
            use_type_invariant(&self);
        }
        (
            TransactionUnit {
                block_height: self.block_height,
                addresses: self.addresses,
                cursor: self.cursor,
                phase: UnitPhase::Failed(error),
            },
            UnitAction::Finish(Err(error)),
        )
    }

    /// Takes what came of the last action and says what to do next.
    pub fn advance(self, event: UnitEvent) -> (next: (TransactionUnit, UnitAction))
        ensures
            next.0@ == unit_step(self@, event).0,
            next.1@ == unit_step(self@, event).1,
            next.0@.wf(),
    {
        proof {
            use_type_invariant(&self);
            law_unit_step_keeps_wf(self@, event);
        }
        match self.phase {
            UnitPhase::Done => (self, UnitAction::Finish(Ok(()))),
            UnitPhase::Failed(error) => (self, UnitAction::Finish(Err(error))),
            UnitPhase::WritingTransaction => match event {
                UnitEvent::Stored(Ok(_)) => self.turn_to(0),
                UnitEvent::Stored(Err(error)) => self.fail(error),
                UnitEvent::Utxos(_) => (self, UnitAction::Wait),
            },
            UnitPhase::FetchingUtxos => match event {
                UnitEvent::Utxos(Ok(values)) => {
                    let wallet = wallet_snapshot(
                        self.addresses[self.cursor].as_str(),
                        &values,
                        self.block_height,
                    );
                    (
                        TransactionUnit {
                            block_height: self.block_height,
                            addresses: self.addresses,
                            cursor: self.cursor,
                            phase: UnitPhase::WritingWallet,
                        },
                        UnitAction::InsertWallet(wallet),
                    )
                },
                UnitEvent::Utxos(Err(error)) => self.fail(error),
                UnitEvent::Stored(_) => (self, UnitAction::Wait),
            },
            UnitPhase::WritingWallet => match event {
                UnitEvent::Stored(Ok(_)) => {
                    let owner = owner_placeholder(self.addresses[self.cursor].as_str());
                    (
                        TransactionUnit {
                            block_height: self.block_height,
                            addresses: self.addresses,
                            cursor: self.cursor,
                            phase: UnitPhase::WritingOwner,
                        },
                        UnitAction::InsertOwner(owner),
                    )
                },
                UnitEvent::Stored(Err(error)) => self.fail(error),
                UnitEvent::Utxos(_) => (self, UnitAction::Wait),
            },
            UnitPhase::WritingOwner => match event {
                UnitEvent::Stored(Ok(_)) => {
                    assert(self.cursor < self.addresses.len());
                    let index: usize = self.cursor + 1;
                    self.turn_to(index)
                },
                UnitEvent::Stored(Err(error)) => self.fail(error),
                UnitEvent::Utxos(_) => (self, UnitAction::Wait),
            },
        }
    }
}

/// A unit starts well-formed, and every step keeps it so.
pub proof fn law_unit_step_keeps_wf(pre: TransactionUnitView, event: UnitEvent)
    requires
        pre.wf(),
    ensures
        unit_step(pre, event).0.wf(),
{
}

/// A failure that answers what the unit waits for ends it with that very
/// error, and a unit that has ended stays as it is and asks for nothing more.
pub proof fn law_unit_stops_at_first_failure(
    pre: TransactionUnitView,
    event: UnitEvent,
    error: IngestError,
)
    requires
        pre.wf(),
    ensures
        !pre.finished() && pre.phase != UnitPhase::FetchingUtxos && event == UnitEvent::Stored(
            Err(error),
        ) ==> unit_step(pre, event) == unit_fail(pre, error),
        pre.phase == UnitPhase::FetchingUtxos && event == UnitEvent::Utxos(Err(error))
            ==> unit_step(pre, event) == unit_fail(pre, error),
        pre.finished() ==> unit_step(pre, event).0 == pre && unit_step(pre, event).1 is Finish,
{
}

/// Each address is served in three steps: once its unspent outputs are
/// known, its wallet row is written, then its owner row, and then the unit
/// turns to the next address or ends.
pub proof fn law_unit_serves_each_address(pre: TransactionUnitView, values: Vec<u64>)
    requires
        pre.wf(),
        pre.phase == UnitPhase::FetchingUtxos,
    ensures
        ({
            let address = pre.addresses[pre.cursor as int];
            let (looked_up, first) = unit_step(pre, UnitEvent::Utxos(Ok(values)));
            let (wallet_written, second) = unit_step(looked_up, UnitEvent::Stored(Ok(())));
            let served = unit_step(wallet_written, UnitEvent::Stored(Ok(())));
            &&& first == UnitActionView::InsertWallet(
                snapshot_of(address, values@, pre.block_height),
            )
            &&& second == UnitActionView::InsertOwner(placeholder_of(address))
            &&& served == unit_turn_to(pre, pre.cursor + 1)
        }),
{
}

} // verus!
