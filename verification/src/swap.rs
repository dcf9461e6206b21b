//! Swap instructions: the shape in which the service sends them, the typed
//! shape that callers get, and the conversion from the first to the second.

use vstd::prelude::*;
use crate::address::{malformed_address, parsed_address, Pubkey};
use crate::encoding::{base64_decode, base64_decoded};
use crate::error::{RequestError, RequestErrorView};
use crate::transport::{
    check_status_code_and_deserialize, deserialized, reports_status, succeeded, HttpResponse,
};

verus! {

/// An account of an instruction as the service sends it: the address as
/// base58 text.
#[derive(Clone, Debug, PartialEq, Eq)]
pub struct AccountMetaInternal {
    pub pubkey: String,
    pub is_signer: bool,
    pub is_writable: bool,
}

/// An instruction as the service sends it: addresses as base58 text, the
/// payload as base64 text.
#[derive(Clone, Debug, PartialEq, Eq)]
pub struct InstructionInternal {
    pub program_id: String,
    pub accounts: Vec<AccountMetaInternal>,
    pub data: String,
}

/// The answer to a request for swap instructions, as the service sends it.
#[derive(Clone, Debug, PartialEq, Eq)]
pub struct SwapInstructionsResponseInternal {
    pub token_ledger_instruction: Option<InstructionInternal>,
    pub compute_budget_instructions: Vec<InstructionInternal>,
    pub setup_instructions: Vec<InstructionInternal>,
    pub swap_instruction: InstructionInternal,
    pub cleanup_instruction: Option<InstructionInternal>,
    pub other_instructions: Vec<InstructionInternal>,
    pub address_lookup_table_addresses: Vec<String>,
    pub prioritization_fee_lamports: u64,
    pub compute_unit_limit: u32,
}

/// An account that an instruction reads or writes.
#[derive(Clone, Debug, PartialEq, Eq)]
pub struct AccountMeta {
    pub pubkey: Pubkey,
    pub is_signer: bool,
    pub is_writable: bool,
}

/// One instruction: the program to run, the accounts it touches, in the
/// order in which the program expects them, and its payload.
#[derive(Clone, Debug, PartialEq, Eq)]
pub struct Instruction {
    pub program_id: Pubkey,
    pub accounts: Vec<AccountMeta>,
    pub data: Vec<u8>,
}

/// The answer to a request for swap instructions, with every address and
/// payload decoded.
#[derive(Clone, Debug, PartialEq, Eq)]
pub struct SwapInstructionsResponse {
    pub token_ledger_instruction: Option<Instruction>,
    pub compute_budget_instructions: Vec<Instruction>,
    pub setup_instructions: Vec<Instruction>,
    pub swap_instruction: Instruction,
    pub cleanup_instruction: Option<Instruction>,
    pub other_instructions: Vec<Instruction>,
    pub address_lookup_table_addresses: Vec<Pubkey>,
    pub prioritization_fee_lamports: u64,
    pub compute_unit_limit: u32,
}

/// What an [`AccountMetaInternal`] holds.
pub struct AccountMetaInternalView {
    pub pubkey: Seq<char>,
    pub is_signer: bool,
    pub is_writable: bool,
}

/// What an [`InstructionInternal`] holds.
pub struct InstructionInternalView {
    pub program_id: Seq<char>,
    pub accounts: Seq<AccountMetaInternalView>,
    pub data: Seq<char>,
}

/// What a [`SwapInstructionsResponseInternal`] holds.
pub struct SwapInstructionsResponseInternalView {
    pub token_ledger_instruction: Option<InstructionInternalView>,
    pub compute_budget_instructions: Seq<InstructionInternalView>,
    pub setup_instructions: Seq<InstructionInternalView>,
    pub swap_instruction: InstructionInternalView,
    pub cleanup_instruction: Option<InstructionInternalView>,
    pub other_instructions: Seq<InstructionInternalView>,
    pub address_lookup_table_addresses: Seq<Seq<char>>,
    pub prioritization_fee_lamports: u64,
    pub compute_unit_limit: u32,
}

/// What an [`AccountMeta`] holds.
pub struct AccountMetaView {
    pub pubkey: Seq<u8>,
    pub is_signer: bool,
    pub is_writable: bool,
}

/// What an [`Instruction`] holds.
pub struct InstructionView {
    pub program_id: Seq<u8>,
    pub accounts: Seq<AccountMetaView>,
    pub data: Seq<u8>,
}

/// What a [`SwapInstructionsResponse`] holds.
pub struct SwapInstructionsResponseView {
    pub token_ledger_instruction: Option<InstructionView>,
    pub compute_budget_instructions: Seq<InstructionView>,
    pub setup_instructions: Seq<InstructionView>,
    pub swap_instruction: InstructionView,
    pub cleanup_instruction: Option<InstructionView>,
    pub other_instructions: Seq<InstructionView>,
    pub address_lookup_table_addresses: Seq<Seq<u8>>,
    pub prioritization_fee_lamports: u64,
    pub compute_unit_limit: u32,
}

/// What each item of a list holds.
pub open spec fn views<T: View>(items: Seq<T>) -> Seq<T::V> {
    Seq::new(items.len(), |i: int| items[i]@)
}

/// What an optional item holds.
pub open spec fn optional_view<T: View>(item: Option<T>) -> Option<T::V> {
    match item {
        Some(it) => Some(it@),
        None => None,
    }
}

impl View for AccountMetaInternal {
    type V = AccountMetaInternalView;

    open spec fn view(&self) -> AccountMetaInternalView {
        AccountMetaInternalView {
            pubkey: self.pubkey@,
            is_signer: self.is_signer,
            is_writable: self.is_writable,
        }
    }
}

impl View for InstructionInternal {
    type V = InstructionInternalView;

    open spec fn view(&self) -> InstructionInternalView {
        InstructionInternalView {
            program_id: self.program_id@,
            accounts: views(self.accounts@),
            data: self.data@,
        }
    }
}

impl View for SwapInstructionsResponseInternal {
    type V = SwapInstructionsResponseInternalView;

    open spec fn view(&self) -> SwapInstructionsResponseInternalView {
        SwapInstructionsResponseInternalView {
            token_ledger_instruction: optional_view(self.token_ledger_instruction),
            compute_budget_instructions: views(self.compute_budget_instructions@),
            setup_instructions: views(self.setup_instructions@),
            swap_instruction: self.swap_instruction@,
            cleanup_instruction: optional_view(self.cleanup_instruction),
            other_instructions: views(self.other_instructions@),
            address_lookup_table_addresses: views(self.address_lookup_table_addresses@),
            prioritization_fee_lamports: self.prioritization_fee_lamports,
            compute_unit_limit: self.compute_unit_limit,
        }
    }
}

impl View for AccountMeta {
    type V = AccountMetaView;

    open spec fn view(&self) -> AccountMetaView {
        AccountMetaView {
            pubkey: self.pubkey@,
            is_signer: self.is_signer,
            is_writable: self.is_writable,
        }
    }
}

impl View for Instruction {
    type V = InstructionView;

    open spec fn view(&self) -> InstructionView {
        InstructionView {
            program_id: self.program_id@,
            accounts: views(self.accounts@),
            data: self.data@,
        }
    }
}

impl View for SwapInstructionsResponse {
    type V = SwapInstructionsResponseView;

    open spec fn view(&self) -> SwapInstructionsResponseView {
        SwapInstructionsResponseView {
            token_ledger_instruction: optional_view(self.token_ledger_instruction),
            compute_budget_instructions: views(self.compute_budget_instructions@),
            setup_instructions: views(self.setup_instructions@),
            swap_instruction: self.swap_instruction@,
            cleanup_instruction: optional_view(self.cleanup_instruction),
            other_instructions: views(self.other_instructions@),
            address_lookup_table_addresses: views(self.address_lookup_table_addresses@),
            prioritization_fee_lamports: self.prioritization_fee_lamports,
            compute_unit_limit: self.compute_unit_limit,
        }
    }
}

/// The result of decoding: the value, or the text of the error.
pub type Decoded<T> = Result<T, Seq<char>>;

/// The text of the error for a payload that is not base64.
pub open spec fn malformed_payload() -> Seq<char> {
    "malformed instruction data"@
}

/// Every item decoded by `f`, in order; or, where one fails, the error of
/// the first that does.
pub open spec fn collected<A, B>(items: Seq<A>, f: spec_fn(A) -> Decoded<B>) -> Decoded<Seq<B>>
    decreases items.len(),
{
    if items.len() == 0 {
        Ok(Seq::empty())
    } else {
        match collected(items.drop_last(), f) {
            Err(cause) => Err(cause),
            Ok(before) => match f(items.last()) {
                Err(cause) => Err(cause),
                Ok(last) => Ok(before.push(last)),
            },
        }
    }
}

/// The address that a wire text stands for, or the error that quotes it.
pub open spec fn decoded_address(wire: Seq<char>) -> Decoded<Seq<u8>> {
    match parsed_address(wire) {
        Some(bytes) => Ok(bytes),
        None => Err(malformed_address(wire)),
    }
}

/// The payload that a wire text stands for.
pub open spec fn decoded_payload(wire: Seq<char>) -> Decoded<Seq<u8>> {
    match base64_decoded(wire) {
        Some(bytes) => Ok(bytes),
        None => Err(malformed_payload()),
    }
}

/// The account that a wire account stands for: its address decoded, its two
/// flags as they are.
pub open spec fn decoded_account(wire: AccountMetaInternalView) -> Decoded<AccountMetaView> {
    match decoded_address(wire.pubkey) {
        Err(cause) => Err(cause),
        Ok(pubkey) => Ok(
            AccountMetaView { pubkey, is_signer: wire.is_signer, is_writable: wire.is_writable },
        ),
    }
}

/// The instruction that a wire instruction stands for. Of several things
/// that are malformed the first is reported: the program, then the accounts
/// in order, then the payload.
pub open spec fn decoded_instruction(wire: InstructionInternalView) -> Decoded<InstructionView> {
    match decoded_address(wire.program_id) {
        Err(cause) => Err(cause),
        Ok(program_id) => match collected(
            wire.accounts,
            |a: AccountMetaInternalView| decoded_account(a),
        ) {
            Err(cause) => Err(cause),
            Ok(accounts) => match decoded_payload(wire.data) {
                Err(cause) => Err(cause),
                Ok(data) => Ok(InstructionView { program_id, accounts, data }),
            },
        },
    }
}

/// The instructions that a list of wire instructions stands for.
pub open spec fn decoded_instructions(wire: Seq<InstructionInternalView>) -> Decoded<
    Seq<InstructionView>,
> {
    collected(wire, |i: InstructionInternalView| decoded_instruction(i))
}

/// The instruction that an optional wire instruction stands for.
pub open spec fn decoded_optional(wire: Option<InstructionInternalView>) -> Decoded<
    Option<InstructionView>,
> {
    match wire {
        None => Ok(None),
        Some(w) => match decoded_instruction(w) {
            Err(cause) => Err(cause),
            Ok(i) => Ok(Some(i)),
        },
    }
}

/// The addresses that a list of wire texts stands for.
pub open spec fn decoded_addresses(wire: Seq<Seq<char>>) -> Decoded<Seq<Seq<u8>>> {
    collected(wire, |t: Seq<char>| decoded_address(t))
}

/// The answer that a wire answer stands for: every field decoded into the
/// field of the same name, the two numbers as they are. Of several things
/// that are malformed the first is reported, in the order of the fields.
pub open spec fn decoded_response(wire: SwapInstructionsResponseInternalView) -> Decoded<
    SwapInstructionsResponseView,
> {
    match decoded_optional(wire.token_ledger_instruction) {
        Err(cause) => Err(cause),
        Ok(token_ledger_instruction) => match decoded_instructions(
            wire.compute_budget_instructions,
        ) {
            Err(cause) => Err(cause),
            Ok(compute_budget_instructions) => match decoded_instructions(
                wire.setup_instructions,
            ) {
                Err(cause) => Err(cause),
                Ok(setup_instructions) => match decoded_instruction(wire.swap_instruction) {
                    Err(cause) => Err(cause),
                    Ok(swap_instruction) => match decoded_optional(wire.cleanup_instruction) {
                        Err(cause) => Err(cause),
                        Ok(cleanup_instruction) => match decoded_instructions(
                            wire.other_instructions,
                        ) {
                            Err(cause) => Err(cause),
                            Ok(other_instructions) => match decoded_addresses(
                                wire.address_lookup_table_addresses,
                            ) {
                                Err(cause) => Err(cause),
                                Ok(address_lookup_table_addresses) => Ok(
                                    SwapInstructionsResponseView {
                                        token_ledger_instruction,
                                        compute_budget_instructions,
                                        setup_instructions,
                                        swap_instruction,
                                        cleanup_instruction,
                                        other_instructions,
                                        address_lookup_table_addresses,
                                        prioritization_fee_lamports:
                                            wire.prioritization_fee_lamports,
                                        compute_unit_limit: wire.compute_unit_limit,
                                    },
                                ),
                            },
                        },
                    },
                },
            },
        },
    }
}

/// Whether a wire account can be decoded.
pub open spec fn account_well_formed(wire: AccountMetaInternalView) -> bool {
    parsed_address(wire.pubkey) is Some
}

/// Whether a wire instruction can be decoded: its addresses stand for
/// addresses and its payload for bytes.
pub open spec fn instruction_well_formed(wire: InstructionInternalView) -> bool {
    &&& parsed_address(wire.program_id) is Some
    &&& forall|i: int| 0 <= i < wire.accounts.len() ==> account_well_formed(#[trigger] wire.accounts[i])
    &&& base64_decoded(wire.data) is Some
}

/// Whether every instruction of a wire list can be decoded.
pub open spec fn instructions_well_formed(wire: Seq<InstructionInternalView>) -> bool {
    forall|i: int| 0 <= i < wire.len() ==> instruction_well_formed(#[trigger] wire[i])
}

/// Whether an optional wire instruction can be decoded.
pub open spec fn optional_well_formed(wire: Option<InstructionInternalView>) -> bool {
    wire matches Some(w) ==> instruction_well_formed(w)
}

/// Whether a wire answer can be decoded.
pub open spec fn response_well_formed(wire: SwapInstructionsResponseInternalView) -> bool {
    &&& optional_well_formed(wire.token_ledger_instruction)
    &&& instructions_well_formed(wire.compute_budget_instructions)
    &&& instructions_well_formed(wire.setup_instructions)
    &&& instruction_well_formed(wire.swap_instruction)
    &&& optional_well_formed(wire.cleanup_instruction)
    &&& instructions_well_formed(wire.other_instructions)
    &&& forall|i: int|
        0 <= i < wire.address_lookup_table_addresses.len() ==> (#[trigger] parsed_address(
            wire.address_lookup_table_addresses[i],
        )) is Some
}

/// Whether a typed account is what a wire account stands for.
pub open spec fn account_matches(wire: AccountMetaInternalView, typed: AccountMetaView) -> bool {
    &&& parsed_address(wire.pubkey) == Some(typed.pubkey)
    &&& typed.is_signer == wire.is_signer
    &&& typed.is_writable == wire.is_writable
}

/// Whether a typed instruction is what a wire instruction stands for: the
/// same program, as many accounts, each in its place, and the same payload.
pub open spec fn instruction_matches(wire: InstructionInternalView, typed: InstructionView) -> bool {
    &&& parsed_address(wire.program_id) == Some(typed.program_id)
    &&& typed.accounts.len() == wire.accounts.len()
    &&& forall|i: int|
        0 <= i < wire.accounts.len() ==> account_matches(
            wire.accounts[i],
            #[trigger] typed.accounts[i],
        )
    &&& base64_decoded(wire.data) == Some(typed.data)
}

/// Whether a typed list is what a wire list stands for, instruction by
/// instruction.
pub open spec fn instructions_match(
    wire: Seq<InstructionInternalView>,
    typed: Seq<InstructionView>,
) -> bool {
    &&& typed.len() == wire.len()
    &&& forall|i: int| 0 <= i < wire.len() ==> instruction_matches(wire[i], #[trigger] typed[i])
}

/// Whether an optional typed instruction is what an optional wire
/// instruction stands for.
pub open spec fn optional_matches(
    wire: Option<InstructionInternalView>,
    typed: Option<InstructionView>,
) -> bool {
    match wire {
        None => typed is None,
        Some(w) => typed matches Some(t) && instruction_matches(w, t),
    }
}

/// Whether a typed answer is what a wire answer stands for, field by field.
pub open spec fn response_matches(
    wire: SwapInstructionsResponseInternalView,
    typed: SwapInstructionsResponseView,
) -> bool {
    &&& optional_matches(wire.token_ledger_instruction, typed.token_ledger_instruction)
    &&& instructions_match(wire.compute_budget_instructions, typed.compute_budget_instructions)
    &&& instructions_match(wire.setup_instructions, typed.setup_instructions)
    &&& instruction_matches(wire.swap_instruction, typed.swap_instruction)
    &&& optional_matches(wire.cleanup_instruction, typed.cleanup_instruction)
    &&& instructions_match(wire.other_instructions, typed.other_instructions)
    &&& typed.address_lookup_table_addresses.len() == wire.address_lookup_table_addresses.len()
    &&& forall|i: int|
        0 <= i < wire.address_lookup_table_addresses.len() ==> parsed_address(
            wire.address_lookup_table_addresses[i],
        ) == Some(#[trigger] typed.address_lookup_table_addresses[i])
    &&& typed.prioritization_fee_lamports == wire.prioritization_fee_lamports
    &&& typed.compute_unit_limit == wire.compute_unit_limit
}

/// Whether an exec result says what a decoding gives: the value that it
/// names, or a decode error with its text.
pub open spec fn agrees<T: View>(result: Result<T, RequestError>, decoded: Decoded<T::V>) -> bool {
    match result {
        Ok(value) => decoded == Ok::<T::V, Seq<char>>(value@),
        Err(e) => decoded matches Err(cause) && e@ == RequestErrorView::Decode(cause),
    }
}

/// Whether an exec result says what the decoding of a list gives.
pub open spec fn agrees_all<T: View>(
    result: Result<Vec<T>, RequestError>,
    decoded: Decoded<Seq<T::V>>,
) -> bool {
    match result {
        Ok(values) => decoded == Ok::<Seq<T::V>, Seq<char>>(views(values@)),
        Err(e) => decoded matches Err(cause) && e@ == RequestErrorView::Decode(cause),
    }
}

/// A list decodes as far as its items do: extending a list that decodes by
/// one item gives the decoded list extended by the decoded item, or the
/// item's error.
pub proof fn lemma_collected_step<A, B>(items: Seq<A>, f: spec_fn(A) -> Decoded<B>, n: int)
    requires
        0 <= n < items.len(),
        collected(items.take(n), f) is Ok,
    ensures
        collected(items.take(n + 1), f) == match f(items[n]) {
            Err(cause) => Err::<Seq<B>, Seq<char>>(cause),
            Ok(last) => Ok(collected(items.take(n), f)->Ok_0.push(last)),
        },
{
    assert(items.take(n + 1).drop_last() =~= items.take(n));
}

/// The error of a list's beginning is the error of the list.
pub proof fn lemma_collected_fails_early<A, B>(items: Seq<A>, f: spec_fn(A) -> Decoded<B>, n: int)
    requires
        0 <= n <= items.len(),
        collected(items.take(n), f) is Err,
    ensures
        collected(items, f) == collected(items.take(n), f),
    decreases items.len() - n,
{
    if n == items.len() {
        assert(items.take(n) =~= items);
    } else {
        assert(items.take(n + 1).drop_last() =~= items.take(n));
        lemma_collected_fails_early(items, f, n + 1);
    }
}

/// A list decodes if and only if each of its items does, and then item by
/// item: as many as there were, each in its place.
pub proof fn lemma_collected_itemwise<A, B>(items: Seq<A>, f: spec_fn(A) -> Decoded<B>)
    ensures
        collected(items, f) is Ok <==> forall|i: int| 0 <= i < items.len() ==> (#[trigger] f(
            items[i],
        )) is Ok,
        collected(items, f) matches Ok(all) ==> all.len() == items.len() && forall|i: int|
            0 <= i < items.len() ==> f(items[i]) == Ok::<B, Seq<char>>(#[trigger] all[i]),
    decreases items.len(),
{
    if items.len() > 0 {
        let before = items.drop_last();
        lemma_collected_itemwise(before, f);
        if collected(items, f) is Ok {
            assert forall|i: int| 0 <= i < items.len() implies (#[trigger] f(items[i])) is Ok by {
                if i < before.len() {
                    assert(f(before[i]) is Ok);
                }
            }
        }
        if forall|i: int| 0 <= i < items.len() ==> (#[trigger] f(items[i])) is Ok {
            assert forall|i: int| 0 <= i < before.len() implies (#[trigger] f(before[i])) is Ok by {
                assert(f(items[i]) is Ok);
            }
            assert(f(items[items.len() - 1]) is Ok);
        }
        if let Ok(all) = collected(items, f) {
            let head = collected(before, f)->Ok_0;
            assert forall|i: int| 0 <= i < items.len() implies f(items[i]) == Ok::<B, Seq<char>>(
                #[trigger] all[i],
            ) by {
                if i < before.len() {
                    assert(f(before[i]) == Ok::<B, Seq<char>>(head[i]));
                }
            }
        }
    }
}

/// An instruction decodes if and only if it is well formed, and then into
/// an instruction with the same program, the accounts in the same number and
/// order, each address being what its text stands for, and the same payload.
pub proof fn lemma_instruction_conversion(wire: InstructionInternalView)
    ensures
        decoded_instruction(wire) is Ok <==> instruction_well_formed(wire),
        decoded_instruction(wire) matches Ok(typed) ==> instruction_matches(wire, typed),
{
    let f = |a: AccountMetaInternalView| decoded_account(a);
    lemma_collected_itemwise(wire.accounts, f);
    if instruction_well_formed(wire) {
        assert forall|i: int| 0 <= i < wire.accounts.len() implies (#[trigger] f(
            wire.accounts[i],
        )) is Ok by {
            assert(account_well_formed(wire.accounts[i]));
        }
    }
    if decoded_instruction(wire) is Ok {
        assert forall|i: int| 0 <= i < wire.accounts.len() implies account_well_formed(
            #[trigger] wire.accounts[i],
        ) by {
            assert(f(wire.accounts[i]) is Ok);
        }
    }
}

/// A list of instructions decodes if and only if each is well formed, and
/// then instruction by instruction, in the same number and order.
pub proof fn lemma_instructions_conversion(wire: Seq<InstructionInternalView>)
    ensures
        decoded_instructions(wire) is Ok <==> instructions_well_formed(wire),
        decoded_instructions(wire) matches Ok(typed) ==> instructions_match(wire, typed),
{
    let f = |i: InstructionInternalView| decoded_instruction(i);
    lemma_collected_itemwise(wire, f);
    assert forall|i: int| 0 <= i < wire.len() implies ((#[trigger] f(wire[i])) is Ok
        <==> instruction_well_formed(wire[i])) by {
        lemma_instruction_conversion(wire[i]);
    }
    if instructions_well_formed(wire) {
        assert forall|i: int| 0 <= i < wire.len() implies (#[trigger] f(wire[i])) is Ok by {
            assert(instruction_well_formed(wire[i]));
        }
    }
    if decoded_instructions(wire) is Ok {
        assert forall|i: int| 0 <= i < wire.len() implies instruction_well_formed(
            #[trigger] wire[i],
        ) by {
            assert(f(wire[i]) is Ok);
        }
    }
    if let Ok(typed) = decoded_instructions(wire) {
        assert forall|i: int| 0 <= i < wire.len() implies instruction_matches(
            wire[i],
            #[trigger] typed[i],
        ) by {
            lemma_instruction_conversion(wire[i]);
            assert(f(wire[i]) == Ok::<InstructionView, Seq<char>>(typed[i]));
        }
    }
}

/// The conversion is total on well-formed answers, and fails on all others.
/// Where it succeeds, every field of the wire answer has gone into the field
/// of the same name: each list of instructions keeps its length and order,
/// each instruction its accounts in number and order, each address is what
/// its wire text stands for, and each payload what its wire text stands for.
pub proof fn lemma_conversion_total(wire: SwapInstructionsResponseInternalView)
    ensures
        decoded_response(wire) is Ok <==> response_well_formed(wire),
        decoded_response(wire) matches Ok(typed) ==> response_matches(wire, typed),
{
    lemma_instructions_conversion(wire.compute_budget_instructions);
    lemma_instructions_conversion(wire.setup_instructions);
    lemma_instructions_conversion(wire.other_instructions);
    lemma_instruction_conversion(wire.swap_instruction);
    if let Some(w) = wire.token_ledger_instruction {
        lemma_instruction_conversion(w);
    }
    if let Some(w) = wire.cleanup_instruction {
        lemma_instruction_conversion(w);
    }
    let g = |t: Seq<char>| decoded_address(t);
    let texts = wire.address_lookup_table_addresses;
    lemma_collected_itemwise(texts, g);
    if response_well_formed(wire) {
        assert forall|i: int| 0 <= i < texts.len() implies (#[trigger] g(texts[i])) is Ok by {
            assert(parsed_address(texts[i]) is Some);
        }
    }
    if decoded_response(wire) is Ok {
        assert forall|i: int| 0 <= i < texts.len() implies (#[trigger] parsed_address(
            texts[i],
        )) is Some by {
            assert(g(texts[i]) is Ok);
        }
    }
    if let Ok(typed) = decoded_response(wire) {
        let addresses = typed.address_lookup_table_addresses;
        assert forall|i: int| 0 <= i < texts.len() implies parsed_address(texts[i]) == Some(
            #[trigger] addresses[i],
        ) by {
            assert(g(texts[i]) == Ok::<Seq<u8>, Seq<char>>(addresses[i]));
        }
    }
}

impl AccountMeta {
    /// The account that `wire` stands for, or a decode error for its
    /// address.
    pub fn from_internal(wire: &AccountMetaInternal) -> (typed: Result<AccountMeta, RequestError>)
        ensures
            agrees(typed, decoded_account(wire@)),
    {
        match Pubkey::parse(wire.pubkey.as_str()) {
            Ok(pubkey) => Ok(
                AccountMeta { pubkey, is_signer: wire.is_signer, is_writable: wire.is_writable },
            ),
            Err(e) => Err(e),
        }
    }
}

/// The payload that `wire` stands for, or a decode error.
pub fn decode_payload(wire: &str) -> (payload: Result<Vec<u8>, RequestError>)
    ensures
        match payload {
            Ok(bytes) => decoded_payload(wire@) == Ok::<Seq<u8>, Seq<char>>(bytes@),
            Err(e) => decoded_payload(wire@) is Err && e@ == RequestErrorView::Decode(
                malformed_payload(),
            ),
        },
{
    match base64_decode(wire) {
        Ok(bytes) => Ok(bytes),
        Err(_) => Err(RequestError::Decode(String::from_str("malformed instruction data"))),
    }
}

/// Appends `item`, and says what the list then holds.
fn push_item<T: View>(items: &mut Vec<T>, item: T)
    ensures
        views(final(items)@) == views(old(items)@).push(item@),
{
    items.push(item);
    assert(views(items@) =~= views(old(items)@).push(item@));
}

/// Decodes every item of `wire` with `decode`, in order, and stops at the
/// first that fails.
fn collect<A: View, B: View, F: Fn(&A) -> Result<B, RequestError>>(
    wire: &Vec<A>,
    decode: F,
    Ghost(f): Ghost<spec_fn(A::V) -> Decoded<B::V>>,
) -> (typed: Result<Vec<B>, RequestError>)
    requires
        forall|a: &A| decode.requires((a,)),
        forall|a: &A, r: Result<B, RequestError>| decode.ensures((a,), r) ==> agrees(r, f(a@)),
    ensures
        agrees_all(typed, collected(views(wire@), f)),
{
    let ghost items = views(wire@);
    let mut typed: Vec<B> = Vec::new();
    let mut i: usize = 0;
    proof {
        assert(items.take(0) =~= Seq::empty());
        assert(views(typed@) =~= Seq::empty());
    }
    while i < wire.len()
        invariant
            i <= wire.len(),
            items == views(wire@),
            forall|a: &A| decode.requires((a,)),
            forall|a: &A, r: Result<B, RequestError>| decode.ensures((a,), r) ==> agrees(r, f(a@)),
            collected(items.take(i as int), f) == Ok::<Seq<B::V>, Seq<char>>(views(typed@)),
        decreases wire.len() - i,
    {
        proof {
            lemma_collected_step(items, f, i as int);
        }
        match decode(&wire[i]) {
            Ok(item) => {
                push_item(&mut typed, item);
            },
            Err(e) => {
                proof {
                    lemma_collected_fails_early(items, f, i + 1);
                }
                return Err(e);
            },
        }
        i = i + 1;
    }
    proof {
        assert(items.take(wire.len() as int) =~= items);
    }
    Ok(typed)
}

impl Instruction {
    /// The instruction that `wire` stands for, or a decode error for the
    /// first of its parts that is malformed.
    pub fn from_internal(wire: &InstructionInternal) -> (typed: Result<Instruction, RequestError>)
        ensures
            agrees(typed, decoded_instruction(wire@)),
    {
        let program_id = match Pubkey::parse(wire.program_id.as_str()) {
            Ok(address) => address,
            Err(e) => {
                return Err(e);
            },
        };
        let accounts = match collect(
            &wire.accounts,
            AccountMeta::from_internal,
            Ghost(|a: AccountMetaInternalView| decoded_account(a)),
        ) {
            Ok(all) => all,
            Err(e) => {
                return Err(e);
            },
        };
        let data = match decode_payload(wire.data.as_str()) {
            Ok(bytes) => bytes,
            Err(e) => {
                return Err(e);
            },
        };
        Ok(Instruction { program_id, accounts, data })
    }

    /// The instruction that an optional `wire` stands for.
    fn from_optional(wire: &Option<InstructionInternal>) -> (typed: Result<
        Option<Instruction>,
        RequestError,
    >)
        ensures
            match typed {
                Ok(found) => decoded_optional(optional_view(*wire)) == Ok::<
                    Option<InstructionView>,
                    Seq<char>,
                >(optional_view(found)),
                Err(e) => decoded_optional(optional_view(*wire)) matches Err(cause) && e@
                    == RequestErrorView::Decode(cause),
            },
    {
        match wire {
            None => Ok(None),
            Some(w) => match Instruction::from_internal(w) {
                Ok(i) => Ok(Some(i)),
                Err(e) => Err(e),
            },
        }
    }
}

/// The address that a wire text stands for.
fn address_from_internal(wire: &String) -> (typed: Result<Pubkey, RequestError>)
    ensures
        agrees(typed, decoded_address(wire@)),
{
    Pubkey::parse(wire.as_str())
}

impl SwapInstructionsResponse {
    /// The answer that `wire` stands for: every field decoded into the field
    /// of the same name. Nothing is dropped: where an address or a payload is
    /// malformed, the conversion fails with a decode error for the first
    /// such, in the order of the fields.
    pub fn from_internal(wire: SwapInstructionsResponseInternal) -> (typed: Result<
        SwapInstructionsResponse,
        RequestError,
    >)
        ensures
            agrees(typed, decoded_response(wire@)),
            typed is Ok <==> response_well_formed(wire@),
            typed matches Ok(response) ==> response_matches(wire@, response@),
    {
        proof {
            lemma_conversion_total(wire@);
        }
        let token_ledger_instruction = match Instruction::from_optional(
            &wire.token_ledger_instruction,
        ) {
            Ok(found) => found,
            Err(e) => {
                return Err(e);
            },
        };
        let compute_budget_instructions = match collect(
            &wire.compute_budget_instructions,
            Instruction::from_internal,
            Ghost(|i: InstructionInternalView| decoded_instruction(i)),
        ) {
            Ok(all) => all,
            Err(e) => {
                return Err(e);
            },
        };
        let setup_instructions = match collect(
            &wire.setup_instructions,
            Instruction::from_internal,
            Ghost(|i: InstructionInternalView| decoded_instruction(i)),
        ) {
            Ok(all) => all,
            Err(e) => {
                return Err(e);
            },
        };
        let swap_instruction = match Instruction::from_internal(&wire.swap_instruction) {
            Ok(i) => i,
            Err(e) => {
                return Err(e);
            },
        };
        let cleanup_instruction = match Instruction::from_optional(&wire.cleanup_instruction) {
            Ok(found) => found,
            Err(e) => {
                return Err(e);
            },
        };
        let other_instructions = match collect(
            &wire.other_instructions,
            Instruction::from_internal,
            Ghost(|i: InstructionInternalView| decoded_instruction(i)),
        ) {
            Ok(all) => all,
            Err(e) => {
                return Err(e);
            },
        };
        let address_lookup_table_addresses = match collect(
            &wire.address_lookup_table_addresses,
            address_from_internal,
            Ghost(|t: Seq<char>| decoded_address(t)),
        ) {
            Ok(all) => all,
            Err(e) => {
                return Err(e);
            },
        };
        Ok(
            SwapInstructionsResponse {
                token_ledger_instruction,
                compute_budget_instructions,
                setup_instructions,
                swap_instruction,
                cleanup_instruction,
                other_instructions,
                address_lookup_table_addresses,
                prioritization_fee_lamports: wire.prioritization_fee_lamports,
                compute_unit_limit: wire.compute_unit_limit,
            },
        )
    }
}

/// What becomes of the outcome of decoding the body of an answer with swap
/// instructions: a wire answer is converted, a failure is a decode error
/// with its cause.
pub open spec fn converted(
    outcome: Result<SwapInstructionsResponseInternal, String>,
    result: Result<SwapInstructionsResponse, RequestError>,
) -> bool {
    match outcome {
        Ok(wire) => agrees(result, decoded_response(wire@)),
        Err(cause) => result matches Err(e) && e@ == RequestErrorView::Decode(cause@),
    }
}

/// Checks the status of the response to a request for swap instructions,
/// decodes its body with `decode` into the wire answer, and converts that.
///
/// A status outside the success range gives the status error; a body that
/// could not be read, a transport error; a body that `decode` refuses, or a
/// wire answer with a malformed address or payload, a decode error.
pub fn swap_instructions_from_response<F>(response: HttpResponse, decode: F) -> (result: Result<
    SwapInstructionsResponse,
    RequestError,
>) where F: FnOnce(&Vec<u8>) -> Result<SwapInstructionsResponseInternal, String>
    requires
        forall|bytes: &Vec<u8>| decode.requires((bytes,)),
    ensures
        if !succeeded(response.status@) {
            result matches Err(e) && reports_status(e@, response)
        } else {
            match response.body {
                Err(cause) => result matches Err(e) && e@ == RequestErrorView::Transport(cause@),
                Ok(bytes) => exists|outcome: Result<SwapInstructionsResponseInternal, String>|
                    decode.ensures((&bytes,), outcome) && converted(outcome, result),
            }
        },
{
    let ghost status = response.status@;
    let ghost body = response.body;
    let decoded = check_status_code_and_deserialize(response, decode);
    let ghost seen = decoded;
    match decoded {
        Ok(wire) => {
            let ghost outcome = Ok::<SwapInstructionsResponseInternal, String>(wire);
            let result = SwapInstructionsResponse::from_internal(wire);
            assert(decode.ensures((&body->Ok_0,), outcome) && converted(outcome, result));
            result
        },
        Err(e) => {
            let result = Err::<SwapInstructionsResponse, RequestError>(e);
            proof {
                if succeeded(status) && body is Ok {
                    let outcome = choose|outcome: Result<SwapInstructionsResponseInternal, String>|
                        decode.ensures((&body->Ok_0,), outcome) && deserialized(outcome, seen);
                    assert(decode.ensures((&body->Ok_0,), outcome) && converted(outcome, result));
                }
            }
            result
        },
    }
}

} // verus!
