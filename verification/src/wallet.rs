//! Resolution of an address to a wallet snapshot and its owner placeholder.

use crate::amount::{display_of, sum_subunits, to_display_units, total_subunits, DisplayAmount};
use crate::error::IngestError;
use vstd::prelude::*;

verus! {

/// What was observed of an address at one block height. A later
/// observation is a new snapshot, never a change of this one.
#[derive(Clone, Debug, PartialEq, Eq)]
pub struct WalletSnapshot {
    pub address: String,
    pub balance: DisplayAmount,
    pub last_seen_block: u64,
}

/// Mathematical content of a `WalletSnapshot`.
pub struct WalletSnapshotView {
    pub address: Seq<char>,
    pub balance: DisplayAmount,
    pub last_seen_block: u64,
}

impl View for WalletSnapshot {
    type V = WalletSnapshotView;

    open spec fn view(&self) -> WalletSnapshotView {
        WalletSnapshotView {
            address: self.address@,
            balance: self.balance,
            last_seen_block: self.last_seen_block,
        }
    }
}

/// The identity record of an address before anything is known of its
/// owner: an empty name and zero identifiers.
#[derive(Clone, Debug, PartialEq, Eq)]
pub struct OwnerPlaceholder {
    pub address: String,
    pub person_name: String,
    pub person_id: u16,
    pub personal_id: u16,
}

/// Mathematical content of an `OwnerPlaceholder`.
pub struct OwnerPlaceholderView {
    pub address: Seq<char>,
    pub person_name: Seq<char>,
    pub person_id: u16,
    pub personal_id: u16,
}

impl View for OwnerPlaceholder {
    type V = OwnerPlaceholderView;

    open spec fn view(&self) -> OwnerPlaceholderView {
        OwnerPlaceholderView {
            address: self.address@,
            person_name: self.person_name@,
            person_id: self.person_id,
            personal_id: self.personal_id,
        }
    }
}

/// The snapshot of an address whose unspent outputs have the given values:
/// its balance is their sum in display units.
pub open spec fn snapshot_of(
    address: Seq<char>,
    utxo_values: Seq<u64>,
    observed_at_height: u64,
) -> WalletSnapshotView {
    WalletSnapshotView {
        address,
        balance: display_of(total_subunits(utxo_values)),
        last_seen_block: observed_at_height,
    }
}

/// The placeholder that stands for the unknown owner of an address.
pub open spec fn placeholder_of(address: Seq<char>) -> OwnerPlaceholderView {
    OwnerPlaceholderView { address, person_name: Seq::empty(), person_id: 0, personal_id: 0 }
}

/// Packages the balance of an address, observed at a block height.
pub fn wallet_snapshot(address: &str, utxo_values: &Vec<u64>, observed_at_height: u64) -> (snapshot:
    WalletSnapshot)
    ensures
        snapshot@ == snapshot_of(address@, utxo_values@, observed_at_height),
        snapshot.balance.subunits() == total_subunits(utxo_values@),
{
    let total: u128 = sum_subunits(utxo_values);
    WalletSnapshot {
        address: address.to_owned(),
        balance: to_display_units(total),
        last_seen_block: observed_at_height,
    }
}

/// Makes the placeholder owner record of an address.
pub fn owner_placeholder(address: &str) -> (owner: OwnerPlaceholder)
    ensures
        owner@ == placeholder_of(address@),
{
    OwnerPlaceholder {
        address: address.to_owned(),
        person_name: String::new(),
        person_id: 0,
        personal_id: 0,
    }
}

/// Resolves an address from the reply to the request for its unspent
/// outputs. A failed request fails the resolution with the same error; a
/// reply without any output gives a balance of zero.
pub fn resolve(
    address: &str,
    utxo_reply: &Result<Vec<u64>, IngestError>,
    observed_at_height: u64,
) -> (resolved: Result<(WalletSnapshot, OwnerPlaceholder), IngestError>)
    ensures
        match *utxo_reply {
            Ok(values) => {
                &&& resolved is Ok
                &&& resolved->Ok_0.0@ == snapshot_of(address@, values@, observed_at_height)
                &&& resolved->Ok_0.1@ == placeholder_of(address@)
                &&& values@.len() == 0 ==> resolved->Ok_0.0.balance.subunits() == 0
            },
            Err(error) => resolved == Err::<(WalletSnapshot, OwnerPlaceholder), IngestError>(
                error,
            ),
        },
{
    match utxo_reply {
        Ok(values) => Ok(
            (wallet_snapshot(address, values, observed_at_height), owner_placeholder(address)),
        ),
        Err(error) => Err(*error),
    }
}

/// An address without unspent outputs has a balance of exactly zero.
pub proof fn law_no_utxos_zero_balance(address: Seq<char>, observed_at_height: u64)
    ensures
        snapshot_of(address, Seq::<u64>::empty(), observed_at_height).balance == display_of(0),
        snapshot_of(address, Seq::<u64>::empty(), observed_at_height).balance.subunits() == 0,
{
    crate::amount::law_display_round_trip(0);
}

} // verus!
