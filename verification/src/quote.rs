//! The request for a quote, and the query string that carries it.

use vstd::prelude::*;
use crate::address::Pubkey;
use crate::encoding::base58_text;
use crate::error::{RequestError, RequestErrorView};
use crate::text::{decimal, decimal_digits, join, joined, texts};

verus! {

/// `serde_qs::Error`, the failure to write a query string.
#[verifier::external_type_specification]
#[verifier::external_body]
pub struct ExQueryError(serde_qs::Error);

/// Which of the two amounts of a swap is fixed.
#[derive(Clone, Copy, Debug, PartialEq, Eq, Structural)]
pub enum SwapMode {
    ExactIn,
    ExactOut,
}

impl SwapMode {
    /// The name of the mode on the wire.
    pub open spec fn wire_name(self) -> Seq<char> {
        match self {
            SwapMode::ExactIn => "ExactIn"@,
            SwapMode::ExactOut => "ExactOut"@,
        }
    }

    /// The mode that a wire name stands for.
    pub open spec fn named(name: Seq<char>) -> Option<SwapMode> {
        if name == SwapMode::ExactIn.wire_name() {
            Some(SwapMode::ExactIn)
        } else if name == SwapMode::ExactOut.wire_name() {
            Some(SwapMode::ExactOut)
        } else {
            None
        }
    }

    /// The name of the mode on the wire.
    pub fn name(&self) -> (name: &'static str)
        ensures
            name@ == self.wire_name(),
    {
        match self {
            SwapMode::ExactIn => "ExactIn",
            SwapMode::ExactOut => "ExactOut",
        }
    }

    /// The mode that `name` stands for on the wire, where it stands for one.
    pub fn from_name(name: &str) -> (mode: Option<SwapMode>)
        ensures
            mode == SwapMode::named(name@),
    {
        let given = String::from_str(name);
        if given == String::from_str("ExactIn") {
            Some(SwapMode::ExactIn)
        } else if given == String::from_str("ExactOut") {
            Some(SwapMode::ExactOut)
        } else {
            None
        }
    }
}

/// Each mode is the one that its wire name stands for: the two names differ.
pub proof fn lemma_mode_name_round_trip(mode: SwapMode)
    ensures
        SwapMode::named(mode.wire_name()) == Some(mode),
{
    reveal_strlit("ExactIn");
    reveal_strlit("ExactOut");
    assert("ExactIn"@.len() != "ExactOut"@.len());
}

/// What to quote: the token pair, the amount and the slippage, which every
/// request has, and the options, each of which may be absent.
#[derive(Clone, Debug, PartialEq, Eq)]
pub struct QuoteRequest {
    pub input_mint: Pubkey,
    pub output_mint: Pubkey,
    /// The amount to swap, in the smallest unit of the token.
    pub amount: u64,
    pub swap_mode: Option<SwapMode>,
    /// The slippage that is allowed, in basis points.
    pub slippage_bps: u16,
    /// The platform fee, in basis points.
    pub platform_fee_bps: Option<u8>,
    /// The venues to route through, as a list separated by commas.
    pub dexes: Option<String>,
    /// The venues to keep out of the route, as a list separated by commas.
    pub excluded_dexes: Option<String>,
    pub only_direct_routes: Option<bool>,
    pub as_legacy_transaction: Option<bool>,
    pub max_accounts: Option<u64>,
}

/// One entry of a query: a key and its value, neither encoded yet.
pub type Entry = (Seq<char>, Seq<char>);

/// The entry of a field that is always written.
pub open spec fn entry(key: Seq<char>, value: Seq<char>) -> Seq<Entry> {
    seq![(key, value)]
}

/// The entry of a field that may be absent: one where it is present, none
/// where it is not.
pub open spec fn optional_entry(key: Seq<char>, value: Option<Seq<char>>) -> Seq<Entry> {
    match value {
        Some(v) => seq![(key, v)],
        None => Seq::empty(),
    }
}

/// A truth value as the wire writes it.
pub open spec fn bool_text(b: bool) -> Seq<char> {
    if b {
        "true"@
    } else {
        "false"@
    }
}

/// The wire text of an optional mode.
pub open spec fn optional_mode(mode: Option<SwapMode>) -> Option<Seq<char>> {
    match mode {
        Some(m) => Some(m.wire_name()),
        None => None,
    }
}

/// The wire text of an optional number.
pub open spec fn optional_number(n: Option<nat>) -> Option<Seq<char>> {
    match n {
        Some(v) => Some(decimal_digits(v)),
        None => None,
    }
}

/// The wire text of an optional truth value.
pub open spec fn optional_bool(b: Option<bool>) -> Option<Seq<char>> {
    match b {
        Some(v) => Some(bool_text(v)),
        None => None,
    }
}

/// What an optional string holds.
pub open spec fn optional_text(s: Option<String>) -> Option<Seq<char>> {
    match s {
        Some(v) => Some(v@),
        None => None,
    }
}

/// An optional number as a natural number.
pub open spec fn optional_nat<N: Integer>(n: Option<N>) -> Option<nat> {
    match n {
        Some(v) => Some(v as nat),
        None => None,
    }
}

/// What a list of entries holds.
pub open spec fn entry_texts(entries: Seq<(String, String)>) -> Seq<Entry> {
    Seq::new(entries.len(), |i: int| (entries[i].0@, entries[i].1@))
}

/// What the query encoding makes of one entry, `key=value` with both sides
/// percent-encoded, where it can encode it.
pub uninterp spec fn qs_pair(key: Seq<char>, value: Seq<char>) -> Option<Seq<char>>;

/// Whether every entry can be encoded.
pub open spec fn all_encodable(entries: Seq<Entry>) -> bool {
    forall|i: int| 0 <= i < entries.len() ==> (#[trigger] qs_pair(entries[i].0, entries[i].1)) is Some
}

/// The entries, each encoded.
pub open spec fn encoded_entries(entries: Seq<Entry>) -> Seq<Seq<char>> {
    Seq::new(entries.len(), |i: int| qs_pair(entries[i].0, entries[i].1)->0)
}

/// The query string of the entries: each encoded, in order, with `&` between
/// them. There is none where an entry cannot be encoded.
pub open spec fn query_of(entries: Seq<Entry>) -> Option<Seq<char>> {
    if all_encodable(entries) {
        Some(joined(encoded_entries(entries), "&"@))
    } else {
        None
    }
}

impl QuoteRequest {
    /// The entries of the request's query, in the order of the fields. A
    /// field that is absent has no entry.
    pub open spec fn entries(self) -> Seq<Entry> {
        entry("inputMint"@, base58_text(self.input_mint@))
            + entry("outputMint"@, base58_text(self.output_mint@))
            + entry("amount"@, decimal_digits(self.amount as nat))
            + optional_entry("swapMode"@, optional_mode(self.swap_mode))
            + entry("slippageBps"@, decimal_digits(self.slippage_bps as nat))
            + optional_entry(
                "platformFeeBps"@,
                optional_number(optional_nat(self.platform_fee_bps)),
            )
            + optional_entry("dexes"@, optional_text(self.dexes))
            + optional_entry("excludedDexes"@, optional_text(self.excluded_dexes))
            + optional_entry("onlyDirectRoutes"@, optional_bool(self.only_direct_routes))
            + optional_entry("asLegacyTransaction"@, optional_bool(self.as_legacy_transaction))
            + optional_entry("maxAccounts"@, optional_number(optional_nat(self.max_accounts)))
    }

    /// The entries of a request that has none of its options.
    pub open spec fn required_entries(self) -> Seq<Entry> {
        seq![
            ("inputMint"@, base58_text(self.input_mint@)),
            ("outputMint"@, base58_text(self.output_mint@)),
            ("amount"@, decimal_digits(self.amount as nat)),
            ("slippageBps"@, decimal_digits(self.slippage_bps as nat)),
        ]
    }

    /// Whether the request has none of its options.
    pub open spec fn has_no_option(self) -> bool {
        &&& self.swap_mode is None
        &&& self.platform_fee_bps is None
        &&& self.dexes is None
        &&& self.excluded_dexes is None
        &&& self.only_direct_routes is None
        &&& self.as_legacy_transaction is None
        &&& self.max_accounts is None
    }

    /// The query string of the request.
    pub open spec fn query(self) -> Option<Seq<char>> {
        query_of(self.entries())
    }

    /// A request for `amount` of `input_mint` in `output_mint`, with the
    /// slippage allowed and no option set.
    pub fn new(input_mint: Pubkey, output_mint: Pubkey, amount: u64, slippage_bps: u16) -> (request:
        Self)
        ensures
            request.input_mint == input_mint,
            request.output_mint == output_mint,
            request.amount == amount,
            request.slippage_bps == slippage_bps,
            request.has_no_option(),
    {
        QuoteRequest {
            input_mint,
            output_mint,
            amount,
            swap_mode: None,
            slippage_bps,
            platform_fee_bps: None,
            dexes: None,
            excluded_dexes: None,
            only_direct_routes: None,
            as_legacy_transaction: None,
            max_accounts: None,
        }
    }

    /// The entries of the request's query, neither keys nor values encoded.
    pub fn query_entries(&self) -> (entries: Vec<(String, String)>)
        ensures
            entry_texts(entries@) == self.entries(),
    {
        let mut entries: Vec<(String, String)> = Vec::new();
        push_entry(&mut entries, "inputMint", self.input_mint.to_base58());
        push_entry(&mut entries, "outputMint", self.output_mint.to_base58());
        push_entry(&mut entries, "amount", decimal(self.amount));
        push_optional(
            &mut entries,
            "swapMode",
            match self.swap_mode {
                Some(mode) => Some(String::from_str(mode.name())),
                None => None,
            },
        );
        push_entry(&mut entries, "slippageBps", decimal(self.slippage_bps as u64));
        push_optional(
            &mut entries,
            "platformFeeBps",
            match self.platform_fee_bps {
                Some(fee) => Some(decimal(fee as u64)),
                None => None,
            },
        );
        push_optional(
            &mut entries,
            "dexes",
            match &self.dexes {
                Some(list) => Some(list.clone()),
                None => None,
            },
        );
        push_optional(
            &mut entries,
            "excludedDexes",
            match &self.excluded_dexes {
                Some(list) => Some(list.clone()),
                None => None,
            },
        );
        push_optional(&mut entries, "onlyDirectRoutes", bool_entry(self.only_direct_routes));
        push_optional(&mut entries, "asLegacyTransaction", bool_entry(self.as_legacy_transaction));
        push_optional(
            &mut entries,
            "maxAccounts",
            match self.max_accounts {
                Some(n) => Some(decimal(n)),
                None => None,
            },
        );
        entries
    }

    /// The query string of the request, or a transport error where an entry
    /// cannot be encoded.
    pub fn to_query(&self) -> (query: Result<String, RequestError>)
        ensures
            match query {
                Ok(q) => self.query() == Some(q@),
                Err(e) => self.query() is None && e@ is Transport,
            },
    {
        let entries = self.query_entries();
        encode_query(&entries)
    }
}

/// The wire text of an optional truth value.
fn bool_entry(b: Option<bool>) -> (text: Option<String>)
    ensures
        optional_text(text) == optional_bool(b),
{
    match b {
        Some(true) => Some(String::from_str("true")),
        Some(false) => Some(String::from_str("false")),
        None => None,
    }
}

fn push_entry(entries: &mut Vec<(String, String)>, key: &str, value: String)
    ensures
        entry_texts(final(entries)@) == entry_texts(old(entries)@) + entry(key@, value@),
{
    entries.push((String::from_str(key), value));
    assert(entry_texts(entries@) =~= entry_texts(old(entries)@) + entry(key@, value@));
}

fn push_optional(entries: &mut Vec<(String, String)>, key: &str, value: Option<String>)
    ensures
        entry_texts(final(entries)@) == entry_texts(old(entries)@) + optional_entry(
            key@,
            optional_text(value),
        ),
{
    match value {
        Some(v) => {
            push_entry(entries, key, v);
        },
        None => {
            assert(entry_texts(entries@) =~= entry_texts(old(entries)@) + Seq::<Entry>::empty());
        },
    }
}

/// `serde_qs::to_string` on a map that holds the one entry `key` to `value`:
/// the text named by [`qs_pair`], or the crate's error where it has none.
#[verifier::external_body]
fn encode_entry(key: &str, value: &str) -> (encoded: Result<String, serde_qs::Error>)
    ensures
        match encoded {
            Ok(text) => qs_pair(key@, value@) == Some(text@),
            Err(_) => qs_pair(key@, value@) is None,
        },
{
    let mut map = std::collections::BTreeMap::new();
    map.insert(key, value);
    serde_qs::to_string(&map)
}

/// `Display` of a `serde_qs::Error`. Nothing is claimed of the text.
#[verifier::external_body]
fn query_cause(error: &serde_qs::Error) -> (cause: String)
{
    error.to_string()
}

/// The encoded entries, in order, with `&` between them.
pub fn join_query(encoded: &Vec<String>) -> (query: String)
    ensures
        query@ == joined(texts(encoded@), "&"@),
{
    join(encoded, "&")
}

/// The query string of `entries`, or a transport error where one of them
/// cannot be encoded.
pub fn encode_query(entries: &Vec<(String, String)>) -> (query: Result<String, RequestError>)
    ensures
        match query {
            Ok(q) => query_of(entry_texts(entries@)) == Some(q@),
            Err(e) => query_of(entry_texts(entries@)) is None && e@ is Transport,
        },
{
    let ghost wanted = entry_texts(entries@);
    let mut encoded: Vec<String> = Vec::new();
    let mut i: usize = 0;
    while i < entries.len()
        invariant
            i <= entries.len(),
            wanted == entry_texts(entries@),
            encoded@.len() == i,
            forall|j: int| 0 <= j < i ==> qs_pair(wanted[j].0, wanted[j].1) == Some(encoded@[j]@),
        decreases entries.len() - i,
    {
        let pair = &entries[i];
        match encode_entry(pair.0.as_str(), pair.1.as_str()) {
            Ok(text) => {
                encoded.push(text);
            },
            Err(error) => {
                assert(qs_pair(wanted[i as int].0, wanted[i as int].1) is None);
                return Err(RequestError::Transport(query_cause(&error)));
            },
        }
        i = i + 1;
    }
    assert(texts(encoded@) =~= encoded_entries(wanted));
    Ok(join_query(&encoded))
}

/// Whether some entry is written under `key`.
pub open spec fn has_key(entries: Seq<Entry>, key: Seq<char>) -> bool {
    exists|i: int| 0 <= i < entries.len() && (#[trigger] entries[i]).0 == key
}

/// The entries of two lists put together have the keys of both.
pub proof fn lemma_keys_of_both(first: Seq<Entry>, second: Seq<Entry>, key: Seq<char>)
    ensures
        has_key(first + second, key) <==> has_key(first, key) || has_key(second, key),
{
    let both = first + second;
    if has_key(first, key) {
        let i = choose|i: int| 0 <= i < first.len() && (#[trigger] first[i]).0 == key;
        assert(both[i] == first[i]);
    }
    if has_key(second, key) {
        let i = choose|i: int| 0 <= i < second.len() && (#[trigger] second[i]).0 == key;
        assert(both[first.len() + i] == second[i]);
    }
    if has_key(both, key) {
        let i = choose|i: int| 0 <= i < both.len() && (#[trigger] both[i]).0 == key;
        if i < first.len() {
            assert(first[i] == both[i]);
        } else {
            assert(second[i - first.len()] == both[i]);
        }
    }
}

/// Whether a request writes an option exactly when it has it: under each
/// option's key there is an entry if the option is present, and none if it is
/// absent.
pub open spec fn options_written_when_present(request: QuoteRequest) -> bool {
    let entries = request.entries();
    &&& has_key(entries, "swapMode"@) <==> request.swap_mode is Some
    &&& has_key(entries, "platformFeeBps"@) <==> request.platform_fee_bps is Some
    &&& has_key(entries, "dexes"@) <==> request.dexes is Some
    &&& has_key(entries, "excludedDexes"@) <==> request.excluded_dexes is Some
    &&& has_key(entries, "onlyDirectRoutes"@) <==> request.only_direct_routes is Some
    &&& has_key(entries, "asLegacyTransaction"@) <==> request.as_legacy_transaction is Some
    &&& has_key(entries, "maxAccounts"@) <==> request.max_accounts is Some
}

/// Every request writes its four required fields, and each option exactly
/// when it has it: no option leaves an entry behind by being absent, and none
/// is lost by being present.
pub proof fn lemma_options_written_when_present(request: QuoteRequest)
    ensures
        has_key(request.entries(), "inputMint"@),
        has_key(request.entries(), "outputMint"@),
        has_key(request.entries(), "amount"@),
        has_key(request.entries(), "slippageBps"@),
        options_written_when_present(request),
{
    reveal_strlit("inputMint");
    reveal_strlit("outputMint");
    reveal_strlit("amount");
    reveal_strlit("swapMode");
    reveal_strlit("slippageBps");
    reveal_strlit("platformFeeBps");
    reveal_strlit("dexes");
    reveal_strlit("excludedDexes");
    reveal_strlit("onlyDirectRoutes");
    reveal_strlit("asLegacyTransaction");
    reveal_strlit("maxAccounts");
    let e0 = entry("inputMint"@, base58_text(request.input_mint@));
    let e1 = entry("outputMint"@, base58_text(request.output_mint@));
    let e2 = entry("amount"@, decimal_digits(request.amount as nat));
    let e3 = optional_entry("swapMode"@, optional_mode(request.swap_mode));
    let e4 = entry("slippageBps"@, decimal_digits(request.slippage_bps as nat));
    let e5 = optional_entry(
        "platformFeeBps"@,
        optional_number(optional_nat(request.platform_fee_bps)),
    );
    let e6 = optional_entry("dexes"@, optional_text(request.dexes));
    let e7 = optional_entry("excludedDexes"@, optional_text(request.excluded_dexes));
    let e8 = optional_entry("onlyDirectRoutes"@, optional_bool(request.only_direct_routes));
    let e9 = optional_entry("asLegacyTransaction"@, optional_bool(request.as_legacy_transaction));
    let e10 = optional_entry("maxAccounts"@, optional_number(optional_nat(request.max_accounts)));
    let keys = seq![
        "inputMint"@,
        "outputMint"@,
        "amount"@,
        "swapMode"@,
        "slippageBps"@,
        "platformFeeBps"@,
        "dexes"@,
        "excludedDexes"@,
        "onlyDirectRoutes"@,
        "asLegacyTransaction"@,
        "maxAccounts"@,
    ];
    assert forall|k: int| 0 <= k < keys.len() implies (has_key(request.entries(), #[trigger] keys[k])
        <==> has_key(e0, keys[k]) || has_key(e1, keys[k]) || has_key(e2, keys[k]) || has_key(
        e3,
        keys[k],
    ) || has_key(e4, keys[k]) || has_key(e5, keys[k]) || has_key(e6, keys[k]) || has_key(
        e7,
        keys[k],
    ) || has_key(e8, keys[k]) || has_key(e9, keys[k]) || has_key(e10, keys[k])) by {
        let key = keys[k];
        lemma_keys_of_both(e0, e1, key);
        lemma_keys_of_both(e0 + e1, e2, key);
        lemma_keys_of_both(e0 + e1 + e2, e3, key);
        lemma_keys_of_both(e0 + e1 + e2 + e3, e4, key);
        lemma_keys_of_both(e0 + e1 + e2 + e3 + e4, e5, key);
        lemma_keys_of_both(e0 + e1 + e2 + e3 + e4 + e5, e6, key);
        lemma_keys_of_both(e0 + e1 + e2 + e3 + e4 + e5 + e6, e7, key);
        lemma_keys_of_both(e0 + e1 + e2 + e3 + e4 + e5 + e6 + e7, e8, key);
        lemma_keys_of_both(e0 + e1 + e2 + e3 + e4 + e5 + e6 + e7 + e8, e9, key);
        lemma_keys_of_both(e0 + e1 + e2 + e3 + e4 + e5 + e6 + e7 + e8 + e9, e10, key);
    }
    assert forall|k: int, j: int| 0 <= k < j < keys.len() implies #[trigger] keys[k]
        != #[trigger] keys[j] by {
        assert(keys[k].len() != keys[j].len() || keys[k][0] != keys[j][0] || keys[k][1]
            != keys[j][1]);
    }
    assert(e0[0].0 == keys[0]);
    assert(e1[0].0 == keys[1]);
    assert(e2[0].0 == keys[2]);
    assert(e4[0].0 == keys[4]);
    assert(request.swap_mode is Some ==> e3[0].0 == keys[3]);
    assert(request.platform_fee_bps is Some ==> e5[0].0 == keys[5]);
    assert(request.dexes is Some ==> e6[0].0 == keys[6]);
    assert(request.excluded_dexes is Some ==> e7[0].0 == keys[7]);
    assert(request.only_direct_routes is Some ==> e8[0].0 == keys[8]);
    assert(request.as_legacy_transaction is Some ==> e9[0].0 == keys[9]);
    assert(request.max_accounts is Some ==> e10[0].0 == keys[10]);
}

/// A request without options asks with its four required fields, in their
/// order, and with nothing else: an absent option leaves no entry behind, not
/// even an empty one. Its query string is those four entries, encoded and
/// joined.
pub proof fn lemma_absent_options_leave_no_entry(request: QuoteRequest)
    requires
        request.has_no_option(),
    ensures
        request.entries() == request.required_entries(),
        request.entries().len() == 4,
        request.query() == query_of(request.required_entries()),
{
    assert(request.entries() =~= request.required_entries());
}

} // verus!
