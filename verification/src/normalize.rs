//! Normalisation of a raw transaction into the record that is persisted and
//! the addresses it touches.

use crate::amount::{
    amount_text, display_of, law_display_round_trip, lemma_total_subunits_bound,
    to_display_units, total_subunits, DisplayAmount,
};
use crate::chain::{RawInput, RawOutput, RawTransaction};
use vstd::prelude::*;

verus! {

/// How a transaction is recorded against the addresses it touches.
#[derive(Clone, Copy, Debug, PartialEq, Eq, Structural)]
pub enum NormalizationMode {
    /// Every input and output address is recorded.
    AllAddresses,
    /// Only the first input address and the first output address are
    /// recorded, as sender and receiver.
    FirstAddress,
}

/// A transaction in the shape in which it is persisted: its addresses in
/// the order of its inputs and outputs, and the value of all its outputs
/// together.
#[derive(Clone, Debug, PartialEq, Eq)]
pub struct NormalizedTransaction {
    pub id: String,
    pub block_height: u64,
    pub input_addresses: Vec<String>,
    pub output_addresses: Vec<String>,
    pub total_value: DisplayAmount,
}

/// Mathematical content of a `NormalizedTransaction`.
pub struct NormalizedTransactionView {
    pub id: Seq<char>,
    pub block_height: u64,
    pub input_addresses: Seq<Seq<char>>,
    pub output_addresses: Seq<Seq<char>>,
    pub total_value: DisplayAmount,
}

impl View for NormalizedTransaction {
    type V = NormalizedTransactionView;

    open spec fn view(&self) -> NormalizedTransactionView {
        NormalizedTransactionView {
            id: self.id@,
            block_height: self.block_height,
            input_addresses: self.input_addresses.deep_view(),
            output_addresses: self.output_addresses.deep_view(),
            total_value: self.total_value,
        }
    }
}

/// The row of a transaction in first-address mode. A transaction without a
/// sender, or without a receiver, has the empty text in its place.
#[derive(Clone, Debug, PartialEq, Eq)]
pub struct TransferRecord {
    pub hash: String,
    pub block_height: u64,
    pub from_address: String,
    pub to_address: String,
    pub value_text: String,
}

/// Mathematical content of a `TransferRecord`.
pub struct TransferRecordView {
    pub hash: Seq<char>,
    pub block_height: u64,
    pub from_address: Seq<char>,
    pub to_address: Seq<char>,
    pub value_text: Seq<char>,
}

impl View for TransferRecord {
    type V = TransferRecordView;

    open spec fn view(&self) -> TransferRecordView {
        TransferRecordView {
            hash: self.hash@,
            block_height: self.block_height,
            from_address: self.from_address@,
            to_address: self.to_address@,
            value_text: self.value_text@,
        }
    }
}

/// The row written to the transactions table, in the shape of the mode.
#[derive(Clone, Debug, PartialEq, Eq)]
pub enum TransactionRecord {
    AllAddresses(NormalizedTransaction),
    FirstAddress(TransferRecord),
}

/// Mathematical content of a `TransactionRecord`.
pub enum TransactionRecordView {
    AllAddresses(NormalizedTransactionView),
    FirstAddress(TransferRecordView),
}

impl View for TransactionRecord {
    type V = TransactionRecordView;

    open spec fn view(&self) -> TransactionRecordView {
        match self {
            TransactionRecord::AllAddresses(n) => TransactionRecordView::AllAddresses(n@),
            TransactionRecord::FirstAddress(t) => TransactionRecordView::FirstAddress(t@),
        }
    }
}

/// The characters of an optional text.
pub open spec fn text_of(text: Option<String>) -> Option<Seq<char>> {
    match text {
        Some(t) => Some(t@),
        None => None,
    }
}

/// The address of an output, if it carries one.
pub open spec fn output_address(output: RawOutput) -> Option<Seq<char>> {
    text_of(output.address)
}

/// The address of the previous output that an input spends, if the input
/// refers to one and that output carries an address.
pub open spec fn input_address(input: RawInput) -> Option<Seq<char>> {
    match input.previous_output {
        Some(previous) => output_address(previous),
        None => None,
    }
}

/// The entries of `items` that are present, in their order.
pub open spec fn present(items: Seq<Option<Seq<char>>>) -> Seq<Seq<char>>
    decreases items.len(),
{
    if items.len() == 0 {
        Seq::empty()
    } else {
        match items.last() {
            Some(item) => present(items.drop_last()).push(item),
            None => present(items.drop_last()),
        }
    }
}

/// The resolvable input addresses of a transaction, one per input that has
/// one, in input order.
pub open spec fn input_addresses(inputs: Seq<RawInput>) -> Seq<Seq<char>> {
    present(inputs.map_values(|input: RawInput| input_address(input)))
}

/// The output addresses of a transaction, one per output that has one, in
/// output order.
pub open spec fn output_addresses(outputs: Seq<RawOutput>) -> Seq<Seq<char>> {
    present(outputs.map_values(|output: RawOutput| output_address(output)))
}

/// The subunit values of all outputs, addressed or not.
pub open spec fn output_values(outputs: Seq<RawOutput>) -> Seq<u64> {
    outputs.map_values(|output: RawOutput| output.value)
}

/// What `normalize` makes of a transaction found at `block_height`.
pub open spec fn normalization(tx: RawTransaction, block_height: u64) -> NormalizedTransactionView {
    NormalizedTransactionView {
        id: tx.txid@,
        block_height,
        input_addresses: input_addresses(tx.inputs@),
        output_addresses: output_addresses(tx.outputs@),
        total_value: display_of(total_subunits(output_values(tx.outputs@))),
    }
}

/// The first entry of a sequence of addresses, if there is one.
pub open spec fn first_of(addresses: Seq<Seq<char>>) -> Option<Seq<char>> {
    if addresses.len() > 0 {
        Some(addresses[0])
    } else {
        None
    }
}

/// The text that is present, or the empty text.
pub open spec fn text_or_empty(text: Option<Seq<char>>) -> Seq<char> {
    match text {
        Some(t) => t,
        None => Seq::empty(),
    }
}

/// The row that stands for a normalised transaction in `mode`: the
/// transaction as it is in all-addresses mode, and in first-address mode
/// its first input address as sender, its first output address as receiver,
/// and its value as text.
pub open spec fn record_of(
    normalized: NormalizedTransactionView,
    mode: NormalizationMode,
) -> TransactionRecordView {
    match mode {
        NormalizationMode::AllAddresses => TransactionRecordView::AllAddresses(normalized),
        NormalizationMode::FirstAddress => TransactionRecordView::FirstAddress(
            TransferRecordView {
                hash: normalized.id,
                block_height: normalized.block_height,
                from_address: text_or_empty(first_of(normalized.input_addresses)),
                to_address: text_or_empty(first_of(normalized.output_addresses)),
                value_text: amount_text(normalized.total_value),
            },
        ),
    }
}

/// The addresses whose wallets are resolved for a transaction. In
/// all-addresses mode these are the input addresses followed by the output
/// addresses, each as often as it occurs. In first-address mode they are
/// the sender and the receiver, the receiver only if it differs from the
/// sender.
pub open spec fn wallet_addresses_of(
    normalized: NormalizedTransactionView,
    mode: NormalizationMode,
) -> Seq<Seq<char>> {
    match mode {
        NormalizationMode::AllAddresses => normalized.input_addresses
            + normalized.output_addresses,
        NormalizationMode::FirstAddress => {
            let from = first_of(normalized.input_addresses);
            let to = first_of(normalized.output_addresses);
            match (from, to) {
                (Some(f), Some(t)) => if f == t {
                    seq![f]
                } else {
                    seq![f, t]
                },
                (Some(f), None) => seq![f],
                (None, Some(t)) => seq![t],
                (None, None) => Seq::empty(),
            }
        },
    }
}

/// Copies a list of texts.
pub fn clone_texts(texts: &Vec<String>) -> (copy: Vec<String>)
    ensures
        copy.deep_view() == texts.deep_view(),
{
    let mut copy: Vec<String> = Vec::new();
    let mut i: usize = 0;
    while i < texts.len()
        invariant
            i <= texts.len(),
            copy.len() == i,
            forall|k: int| 0 <= k < i ==> copy@[k]@ == texts@[k]@,
        decreases texts.len() - i,
    {
        copy.push(texts[i].clone());
        i = i + 1;
    }
    assert(copy.deep_view() =~= texts.deep_view());
    copy
}

/// Collects the resolvable input addresses of a transaction.
fn collect_input_addresses(inputs: &Vec<RawInput>) -> (addresses: Vec<String>)
    ensures
        addresses.deep_view() == input_addresses(inputs@),
{
    let ghost options = inputs@.map_values(|input: RawInput| input_address(input));
    let mut addresses: Vec<String> = Vec::new();
    let mut i: usize = 0;
    while i < inputs.len()
        invariant
            i <= inputs.len(),
            options == inputs@.map_values(|input: RawInput| input_address(input)),
            addresses.deep_view() == present(options.take(i as int)),
        decreases inputs.len() - i,
    {
        let ghost before = addresses.deep_view();
        assert(options.take(i + 1).drop_last() =~= options.take(i as int));
        assert(options.take(i + 1).last() == input_address(inputs@[i as int]));
        match &inputs[i].previous_output {
            Some(previous) => match &previous.address {
                Some(address) => {
                    addresses.push(address.clone());
                    assert(addresses.deep_view() =~= before.push(address@));
                },
                None => {},
            },
            None => {},
        }
        i = i + 1;
    }
    assert(options.take(i as int) =~= options);
    addresses
}

/// Collects the output addresses of a transaction.
fn collect_output_addresses(outputs: &Vec<RawOutput>) -> (addresses: Vec<String>)
    ensures
        addresses.deep_view() == output_addresses(outputs@),
{
    let ghost options = outputs@.map_values(|output: RawOutput| output_address(output));
    let mut addresses: Vec<String> = Vec::new();
    let mut i: usize = 0;
    while i < outputs.len()
        invariant
            i <= outputs.len(),
            options == outputs@.map_values(|output: RawOutput| output_address(output)),
            addresses.deep_view() == present(options.take(i as int)),
        decreases outputs.len() - i,
    {
        let ghost before = addresses.deep_view();
        assert(options.take(i + 1).drop_last() =~= options.take(i as int));
        assert(options.take(i + 1).last() == output_address(outputs@[i as int]));
        match &outputs[i].address {
            Some(address) => {
                addresses.push(address.clone());
                assert(addresses.deep_view() =~= before.push(address@));
            },
            None => {},
        }
        i = i + 1;
    }
    assert(options.take(i as int) =~= options);
    addresses
}

/// Adds up the values of all outputs.
fn sum_output_values(outputs: &Vec<RawOutput>) -> (total: u128)
    ensures
        total == total_subunits(output_values(outputs@)),
{
    let ghost values = output_values(outputs@);
    let mut total: u128 = 0;
    let mut i: usize = 0;
    while i < outputs.len()
        invariant
            i <= outputs.len(),
            values == output_values(outputs@),
            total == total_subunits(values.take(i as int)),
            total <= i * u64::MAX,
        decreases outputs.len() - i,
    {
        assert(values.take(i + 1).drop_last() =~= values.take(i as int));
        assert(values.take(i + 1).last() == outputs@[i as int].value);
        assert(i * u64::MAX + u64::MAX <= usize::MAX * u64::MAX + u64::MAX) by (nonlinear_arith)
            requires
                i <= usize::MAX,
        ;
        total = total + outputs[i].value as u128;
        i = i + 1;
    }
    assert(values.take(i as int) =~= values);
    total
}

/// Maps a raw transaction found at `block_height` to its normalised form:
/// the resolvable input and output addresses in their order, and the value
/// of all outputs together, converted to display units once.
pub fn normalize(tx: &RawTransaction, block_height: u64) -> (normalized: NormalizedTransaction)
    ensures
        normalized@ == normalization(*tx, block_height),
{
    let input_addresses = collect_input_addresses(&tx.inputs);
    let output_addresses = collect_output_addresses(&tx.outputs);
    let total: u128 = sum_output_values(&tx.outputs);
    NormalizedTransaction {
        id: tx.txid.clone(),
        block_height,
        input_addresses,
        output_addresses,
        total_value: to_display_units(total),
    }
}

/// The first of a list of addresses, if there is one.
pub fn first_address(addresses: &Vec<String>) -> (first: Option<String>)
    ensures
        text_of(first) == first_of(addresses.deep_view()),
{
    if addresses.len() > 0 {
        Some(addresses[0].clone())
    } else {
        None
    }
}

/// Shapes a normalised transaction into the row of the transactions table
/// that `mode` asks for.
pub fn transaction_record(normalized: NormalizedTransaction, mode: NormalizationMode) -> (record:
    TransactionRecord)
    ensures
        record@ == record_of(normalized@, mode),
{
    match mode {
        NormalizationMode::AllAddresses => TransactionRecord::AllAddresses(normalized),
        NormalizationMode::FirstAddress => {
            let from_address = match first_address(&normalized.input_addresses) {
                Some(address) => address,
                None => String::new(),
            };
            let to_address = match first_address(&normalized.output_addresses) {
                Some(address) => address,
                None => String::new(),
            };
            let value_text = normalized.total_value.to_text();
            TransactionRecord::FirstAddress(
                TransferRecord {
                    hash: normalized.id,
                    block_height: normalized.block_height,
                    from_address,
                    to_address,
                    value_text,
                },
            )
        },
    }
}

/// Lists the addresses whose wallets are resolved for a transaction.
pub fn wallet_addresses(normalized: &NormalizedTransaction, mode: NormalizationMode) -> (addresses:
    Vec<String>)
    ensures
        addresses.deep_view() == wallet_addresses_of(normalized@, mode),
{
    match mode {
        NormalizationMode::AllAddresses => {
            let mut addresses = clone_texts(&normalized.input_addresses);
            let ghost inputs = addresses.deep_view();
            let mut i: usize = 0;
            while i < normalized.output_addresses.len()
                invariant
                    i <= normalized.output_addresses.len(),
                    addresses.deep_view() == inputs + normalized.output_addresses.deep_view().take(
                        i as int,
                    ),
                decreases normalized.output_addresses.len() - i,
            {
                let ghost before = addresses.deep_view();
                addresses.push(normalized.output_addresses[i].clone());
                assert(addresses.deep_view() =~= before.push(normalized.output_addresses@[i as int]@));
                assert(normalized.output_addresses.deep_view().take(i + 1)
                    =~= normalized.output_addresses.deep_view().take(i as int).push(
                    normalized.output_addresses@[i as int]@,
                ));
                i = i + 1;
            }
            assert(normalized.output_addresses.deep_view().take(i as int)
                =~= normalized.output_addresses.deep_view());
            addresses
        },
        NormalizationMode::FirstAddress => {
            let mut addresses: Vec<String> = Vec::new();
            let from = first_address(&normalized.input_addresses);
            let to = first_address(&normalized.output_addresses);
            match from {
                Some(f) => {
                    match to {
                        Some(t) => {
                            let same = f == t;
                            addresses.push(f);
                            if !same {
                                addresses.push(t);
                            }
                        },
                        None => {
                            addresses.push(f);
                        },
                    }
                },
                None => {
                    match to {
                        Some(t) => {
                            addresses.push(t);
                        },
                        None => {},
                    }
                },
            }
            assert(addresses.deep_view() =~= wallet_addresses_of(normalized@, mode));
            addresses
        },
    }
}

/// A transaction none of whose inputs has a resolvable address, such as a
/// pure coinbase transaction, normalises to an empty list of input
/// addresses.
pub proof fn law_unresolvable_inputs_give_no_addresses(tx: RawTransaction, block_height: u64)
    requires
        forall|i: int| 0 <= i < tx.inputs@.len() ==> input_address(#[trigger] tx.inputs@[i]) is None,
    ensures
        normalization(tx, block_height).input_addresses.len() == 0,
{
    let options = tx.inputs@.map_values(|input: RawInput| input_address(input));
    lemma_present_of_absent(options);
}

/// Where nothing is present, nothing is collected.
proof fn lemma_present_of_absent(items: Seq<Option<Seq<char>>>)
    requires
        forall|i: int| 0 <= i < items.len() ==> #[trigger] items[i] is None,
    ensures
        present(items).len() == 0,
    decreases items.len(),
{
    if items.len() > 0 {
        lemma_present_of_absent(items.drop_last());
    }
}

/// The total value of a normalised transaction is the sum of all output
/// values, whatever number of outputs lack an address.
pub proof fn law_total_counts_every_output(tx: RawTransaction, block_height: u64)
    ensures
        normalization(tx, block_height).total_value == display_of(
            total_subunits(output_values(tx.outputs@)),
        ),
        normalization(tx, block_height).total_value.subunits() == total_subunits(
            output_values(tx.outputs@),
        ),
{
    let values = output_values(tx.outputs@);
    lemma_total_subunits_bound(values);
    assert(values.len() == tx.outputs.len());
    assert(values.len() * u64::MAX <= usize::MAX * u64::MAX) by (nonlinear_arith)
        requires
            values.len() <= usize::MAX,
    ;
    law_display_round_trip(total_subunits(values));
}

/// In all-addresses mode the wallet of every address that a transaction
/// touches is resolved, be it an input address or an output address.
pub proof fn law_all_addresses_are_resolved(normalized: NormalizedTransactionView, address: Seq<char>)
    requires
        normalized.input_addresses.contains(address) || normalized.output_addresses.contains(
            address,
        ),
    ensures
        wallet_addresses_of(normalized, NormalizationMode::AllAddresses).contains(address),
{
    let inputs = normalized.input_addresses;
    let outputs = normalized.output_addresses;
    let together = inputs + outputs;
    if inputs.contains(address) {
        let i = choose|i: int| 0 <= i < inputs.len() && inputs[i] == address;
        assert(together[i] == address);
    } else {
        let i = choose|i: int| 0 <= i < outputs.len() && outputs[i] == address;
        assert(together[inputs.len() + i] == address);
    }
}

/// In first-address mode at most two wallets are resolved, those of sender
/// and receiver, and none of them twice.
pub proof fn law_first_addresses_are_distinct(normalized: NormalizedTransactionView)
    ensures
        wallet_addresses_of(normalized, NormalizationMode::FirstAddress).len() <= 2,
        wallet_addresses_of(normalized, NormalizationMode::FirstAddress).no_duplicates(),
        forall|address: Seq<char>|
            #![trigger wallet_addresses_of(normalized, NormalizationMode::FirstAddress).contains(address)]
            wallet_addresses_of(normalized, NormalizationMode::FirstAddress).contains(address) <==> (
            first_of(normalized.input_addresses) == Some(address) || first_of(
                normalized.output_addresses,
            ) == Some(address)),
{
    let from = first_of(normalized.input_addresses);
    let to = first_of(normalized.output_addresses);
    let chosen = wallet_addresses_of(normalized, NormalizationMode::FirstAddress);
    assert forall|address: Seq<char>| (from == Some(address) || to == Some(address))
        implies #[trigger] chosen.contains(address) by {
        if from == Some(address) {
            assert(chosen[0] == address);
        } else if from is Some {
            assert(chosen[1] == address);
        } else {
            assert(chosen[0] == address);
        }
    }
}

} // verus!
