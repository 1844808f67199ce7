//! The network-wide policy object that privileged keys publish.

use crate::codec::{
    bool_field, bytes_list_view, copy_texts, encode_list, encode_text_list, field_bool, field_bytes,
    field_i64, field_text, get_bool, get_bytes, get_i64, get_text, i64_field, items_ok,
    lemma_parse_encoded_list, lemma_parse_encoded_text_list, lemma_text_field, parse_list,
    parse_text_list, read_list, read_text_list, text_field, text_list_view, texts_ok, write_list,
    write_text_list, RecordWriter,
};
use crate::wire::{
    bytes_field, encode_fields, field_ok, fields_ok, lemma_parse_encoded_fields, parse_fields,
    read_fields, WireField,
};
use vstd::prelude::*;
use vstd::utf8::encode_utf8;

verus! {

/// A ban on payment accounts: the accounts of one payment method for which
/// the named accessor gives the value.
#[derive(Clone, Debug, PartialEq, Eq)]
pub struct PaymentAccountFilter {
    pub payment_method_id: String,
    pub get_method_name: String,
    pub value: String,
}

/// What a [`PaymentAccountFilter`] holds.
pub ghost struct PaymentAccountFilterView {
    pub payment_method_id: Seq<char>,
    pub get_method_name: Seq<char>,
    pub value: Seq<char>,
}

impl View for PaymentAccountFilter {
    type V = PaymentAccountFilterView;

    open spec fn view(&self) -> PaymentAccountFilterView {
        PaymentAccountFilterView {
            payment_method_id: self.payment_method_id@,
            get_method_name: self.get_method_name@,
            value: self.value@,
        }
    }
}

impl PaymentAccountFilterView {
    /// The fields of the account filter, in the order in which they are written.
    pub open spec fn record(self) -> Seq<WireField> {
        seq![
            text_field(1, self.payment_method_id),
            text_field(2, self.get_method_name),
            text_field(3, self.value),
        ]
    }

    /// The account filter that a record holds, if it has exactly these fields.
    pub open spec fn from_record(fs: Seq<WireField>) -> Option<PaymentAccountFilterView> {
        if fs.len() == 3
            && field_text(fs[0], 1) is Some
            && field_text(fs[1], 2) is Some
            && field_text(fs[2], 3) is Some
        {
            Some(
                PaymentAccountFilterView {
                    payment_method_id: field_text(fs[0], 1)->Some_0,
                    get_method_name: field_text(fs[1], 2)->Some_0,
                    value: field_text(fs[2], 3)->Some_0,
                },
            )
        } else {
            None
        }
    }

    /// The canonical bytes of the account filter.
    pub open spec fn encode(self) -> Seq<u8> {
        encode_fields(self.record())
    }

    /// The account filter that `bytes` hold, if they hold one.
    pub open spec fn parse(bytes: Seq<u8>) -> Option<PaymentAccountFilterView> {
        match parse_fields(bytes) {
            Some(fs) => Self::from_record(fs),
            None => None,
        }
    }

    /// Every length that the encoding states fits in 64 bits.
    pub open spec fn encodable(self) -> bool {
        &&& encode_utf8(self.payment_method_id).len() <= u64::MAX
        &&& encode_utf8(self.get_method_name).len() <= u64::MAX
        &&& encode_utf8(self.value).len() <= u64::MAX
    }

    /// Parsing the bytes of a account filter gives that account filter back.
    pub proof fn lemma_roundtrip(self)
        requires
            self.encodable(),
        ensures
            Self::parse(self.encode()) == Some(self),
    {
        assert(fields_ok(self.record()));
        lemma_parse_encoded_fields(self.record());
        lemma_text_field(1, self.payment_method_id);
        lemma_text_field(2, self.get_method_name);
        lemma_text_field(3, self.value);
    }
}

impl PaymentAccountFilter {
    /// Writes the account filter in its canonical form.
    pub fn to_bytes(&self) -> (out: Vec<u8>)
        ensures
            out@ == self@.encode(),
            self@.encodable(),
    {
        let mut w = RecordWriter::new();
        w.put_text(1, self.payment_method_id.as_str());
        w.put_text(2, self.get_method_name.as_str());
        w.put_text(3, self.value.as_str());
        assert(w.fields() =~= self@.record());
        w.finish()
    }

    /// Reads a account filter from bytes.
    pub fn from_bytes(bytes: &[u8]) -> (r: Option<PaymentAccountFilter>)
        ensures
            match PaymentAccountFilterView::parse(bytes@) {
                Some(m) => r is Some && r->Some_0@ == m,
                None => r is None,
            },
    {
        let fields = read_fields(bytes)?;
        if fields.len() != 3 {
            return None;
        }
        assert(forall|i: int| 0 <= i < 3 ==> fields.deep_view()[i] == fields@[i]@);
        let payment_method_id = get_text(&fields[0], 1)?;
        let get_method_name = get_text(&fields[1], 2)?;
        let value = get_text(&fields[2], 3)?;
        Some(PaymentAccountFilter {
            payment_method_id,
            get_method_name,
            value,
        })
    }

    /// A copy with the same content.
    pub fn duplicate(&self) -> (copy: PaymentAccountFilter)
        ensures
            copy@ == self@,
    {
        PaymentAccountFilter {
            payment_method_id: self.payment_method_id.clone(),
            get_method_name: self.get_method_name.clone(),
            value: self.value.clone(),
        }
    }
}

/// The account filters that a vector of account filters holds.
pub open spec fn account_filter_list_view(v: Seq<PaymentAccountFilter>) -> Seq<PaymentAccountFilterView> {
    Seq::new(v.len(), |i: int| v[i]@)
}

/// The canonical bytes of each of a list of account filters.
pub open spec fn account_filter_items(items: Seq<PaymentAccountFilterView>) -> Seq<Seq<u8>> {
    Seq::new(items.len(), |i: int| items[i].encode())
}

/// The bytes of a list of account filters.
pub open spec fn encode_account_filter_list(items: Seq<PaymentAccountFilterView>) -> Seq<u8> {
    encode_list(account_filter_items(items))
}

/// Every byte string holds an account filter.
pub open spec fn items_are_account_filters(raw: Seq<Seq<u8>>) -> bool {
    forall|i: int| 0 <= i < raw.len() ==> PaymentAccountFilterView::parse(#[trigger] raw[i]) is Some
}

/// The account filters that the byte strings hold, in order.
pub open spec fn items_account_filters(raw: Seq<Seq<u8>>) -> Seq<PaymentAccountFilterView> {
    Seq::new(raw.len(), |i: int| PaymentAccountFilterView::parse(raw[i])->Some_0)
}

/// The list of account filters that `bytes` hold, if they hold one.
pub open spec fn parse_account_filter_list(bytes: Seq<u8>) -> Option<Seq<PaymentAccountFilterView>> {
    match parse_list(bytes) {
        Some(raw) => if items_are_account_filters(raw) {
            Some(items_account_filters(raw))
        } else {
            None
        },
        None => None,
    }
}

/// Each of the account filters can be written, and so can its length.
pub open spec fn account_filters_ok(items: Seq<PaymentAccountFilterView>) -> bool {
    forall|i: int|
        0 <= i < items.len() ==> (#[trigger] items[i]).encodable() && items[i].encode().len()
            <= u64::MAX
}

/// Parsing the bytes of a list of account filters gives the list back.
pub proof fn lemma_parse_encoded_account_filter_list(items: Seq<PaymentAccountFilterView>)
    requires
        account_filters_ok(items),
    ensures
        parse_account_filter_list(encode_account_filter_list(items)) == Some(items),
{
    let raw = account_filter_items(items);
    assert(items_ok(raw));
    lemma_parse_encoded_list(raw);
    assert forall|i: int| 0 <= i < raw.len() implies PaymentAccountFilterView::parse(#[trigger] raw[i]) == Some(
        items[i],
    ) by {
        items[i].lemma_roundtrip();
    }
    assert(items_account_filters(raw) =~= items);
}

/// The bytes of a list of account filters.
pub fn write_account_filter_list(items: &Vec<PaymentAccountFilter>) -> (out: Vec<u8>)
    ensures
        out@ == encode_account_filter_list(account_filter_list_view(items@)),
        account_filters_ok(account_filter_list_view(items@)),
{
    let mut raw: Vec<Vec<u8>> = Vec::new();
    let mut i: usize = 0;
    while i < items.len()
        invariant
            i <= items@.len(),
            raw@.len() == i,
            forall|j: int| 0 <= j < i ==> (#[trigger] raw@[j])@ == items@[j]@.encode(),
            forall|j: int|
                0 <= j < i ==> (#[trigger] items@[j])@.encodable() && items@[j]@.encode().len()
                    <= usize::MAX,
        decreases items@.len() - i,
    {
        let bytes = items[i].to_bytes();
        assert(bytes@.len() == bytes.len());
        raw.push(bytes);
        i += 1;
    }
    assert(bytes_list_view(raw@) =~= account_filter_items(account_filter_list_view(items@)));
    write_list(&raw)
}

/// Reads a list of account filters.
pub fn read_account_filter_list(bytes: &[u8]) -> (r: Option<Vec<PaymentAccountFilter>>)
    ensures
        match parse_account_filter_list(bytes@) {
            Some(items) => r is Some && account_filter_list_view(r->Some_0@) == items,
            None => r is None,
        },
{
    let raw = match read_list(bytes) {
        Some(raw) => raw,
        None => { return None; },
    };
    let ghost raw_view = bytes_list_view(raw@);
    let mut items: Vec<PaymentAccountFilter> = Vec::new();
    let mut i: usize = 0;
    while i < raw.len()
        invariant
            i <= raw@.len(),
            raw_view == bytes_list_view(raw@),
            parse_list(bytes@) == Some(raw_view),
            items@.len() == i,
            forall|j: int| 0 <= j < i ==> PaymentAccountFilterView::parse(#[trigger] raw_view[j]) is Some,
            forall|j: int|
                0 <= j < i ==> (#[trigger] items@[j])@ == PaymentAccountFilterView::parse(raw_view[j])->Some_0,
        decreases raw@.len() - i,
    {
        assert(raw_view[i as int] == raw@[i as int]@);
        match PaymentAccountFilter::from_bytes(raw[i].as_slice()) {
            Some(item) => {
                items.push(item);
            },
            None => {
                assert(PaymentAccountFilterView::parse(raw_view[i as int]) is None);
                return None;
            },
        }
        i += 1;
    }
    assert(account_filter_list_view(items@) =~= items_account_filters(raw_view));
    Some(items)
}

/// A copy of a list of account filters.
pub fn copy_account_filters(items: &Vec<PaymentAccountFilter>) -> (copy: Vec<PaymentAccountFilter>)
    ensures
        account_filter_list_view(copy@) == account_filter_list_view(items@),
{
    let mut copy: Vec<PaymentAccountFilter> = Vec::new();
    let mut i: usize = 0;
    while i < items.len()
        invariant
            i <= items@.len(),
            copy@.len() == i,
            forall|j: int| 0 <= j < i ==> (#[trigger] copy@[j])@ == items@[j]@,
        decreases items@.len() - i,
    {
        copy.push(items[i].duplicate());
        i += 1;
    }
    assert(account_filter_list_view(copy@) =~= account_filter_list_view(items@));
    copy
}

/// One entry of the extra data of a filter: a key and its value.
#[derive(Clone, Debug, PartialEq, Eq)]
pub struct ExtraDataEntry {
    pub key: String,
    pub value: String,
}

/// What a [`ExtraDataEntry`] holds.
pub ghost struct ExtraDataEntryView {
    pub key: Seq<char>,
    pub value: Seq<char>,
}

impl View for ExtraDataEntry {
    type V = ExtraDataEntryView;

    open spec fn view(&self) -> ExtraDataEntryView {
        ExtraDataEntryView {
            key: self.key@,
            value: self.value@,
        }
    }
}

impl ExtraDataEntryView {
    /// The fields of the entry, in the order in which they are written.
    pub open spec fn record(self) -> Seq<WireField> {
        seq![
            text_field(1, self.key),
            text_field(2, self.value),
        ]
    }

    /// The entry that a record holds, if it has exactly these fields.
    pub open spec fn from_record(fs: Seq<WireField>) -> Option<ExtraDataEntryView> {
        if fs.len() == 2
            && field_text(fs[0], 1) is Some
            && field_text(fs[1], 2) is Some
        {
            Some(
                ExtraDataEntryView {
                    key: field_text(fs[0], 1)->Some_0,
                    value: field_text(fs[1], 2)->Some_0,
                },
            )
        } else {
            None
        }
    }

    /// The canonical bytes of the entry.
    pub open spec fn encode(self) -> Seq<u8> {
        encode_fields(self.record())
    }

    /// The entry that `bytes` hold, if they hold one.
    pub open spec fn parse(bytes: Seq<u8>) -> Option<ExtraDataEntryView> {
        match parse_fields(bytes) {
            Some(fs) => Self::from_record(fs),
            None => None,
        }
    }

    /// Every length that the encoding states fits in 64 bits.
    pub open spec fn encodable(self) -> bool {
        &&& encode_utf8(self.key).len() <= u64::MAX
        &&& encode_utf8(self.value).len() <= u64::MAX
    }

    /// Parsing the bytes of a entry gives that entry back.
    pub proof fn lemma_roundtrip(self)
        requires
            self.encodable(),
        ensures
            Self::parse(self.encode()) == Some(self),
    {
        assert(fields_ok(self.record()));
        lemma_parse_encoded_fields(self.record());
        lemma_text_field(1, self.key);
        lemma_text_field(2, self.value);
    }
}

impl ExtraDataEntry {
    /// Writes the entry in its canonical form.
    pub fn to_bytes(&self) -> (out: Vec<u8>)
        ensures
            out@ == self@.encode(),
            self@.encodable(),
    {
        let mut w = RecordWriter::new();
        w.put_text(1, self.key.as_str());
        w.put_text(2, self.value.as_str());
        assert(w.fields() =~= self@.record());
        w.finish()
    }

    /// Reads a entry from bytes.
    pub fn from_bytes(bytes: &[u8]) -> (r: Option<ExtraDataEntry>)
        ensures
            match ExtraDataEntryView::parse(bytes@) {
                Some(m) => r is Some && r->Some_0@ == m,
                None => r is None,
            },
    {
        let fields = read_fields(bytes)?;
        if fields.len() != 2 {
            return None;
        }
        assert(forall|i: int| 0 <= i < 2 ==> fields.deep_view()[i] == fields@[i]@);
        let key = get_text(&fields[0], 1)?;
        let value = get_text(&fields[1], 2)?;
        Some(ExtraDataEntry {
            key,
            value,
        })
    }

    /// A copy with the same content.
    pub fn duplicate(&self) -> (copy: ExtraDataEntry)
        ensures
            copy@ == self@,
    {
        ExtraDataEntry {
            key: self.key.clone(),
            value: self.value.clone(),
        }
    }
}

/// The entries of extra data that a vector of entries of extra data holds.
pub open spec fn extra_entry_list_view(v: Seq<ExtraDataEntry>) -> Seq<ExtraDataEntryView> {
    Seq::new(v.len(), |i: int| v[i]@)
}

/// The canonical bytes of each of a list of entries of extra data.
pub open spec fn extra_entry_items(items: Seq<ExtraDataEntryView>) -> Seq<Seq<u8>> {
    Seq::new(items.len(), |i: int| items[i].encode())
}

/// The bytes of a list of entries of extra data.
pub open spec fn encode_extra_entry_list(items: Seq<ExtraDataEntryView>) -> Seq<u8> {
    encode_list(extra_entry_items(items))
}

/// Every byte string holds an entry of extra data.
pub open spec fn items_are_extra_entries(raw: Seq<Seq<u8>>) -> bool {
    forall|i: int| 0 <= i < raw.len() ==> ExtraDataEntryView::parse(#[trigger] raw[i]) is Some
}

/// The entries of extra data that the byte strings hold, in order.
pub open spec fn items_extra_entries(raw: Seq<Seq<u8>>) -> Seq<ExtraDataEntryView> {
    Seq::new(raw.len(), |i: int| ExtraDataEntryView::parse(raw[i])->Some_0)
}

/// The list of entries of extra data that `bytes` hold, if they hold one.
pub open spec fn parse_extra_entry_list(bytes: Seq<u8>) -> Option<Seq<ExtraDataEntryView>> {
    match parse_list(bytes) {
        Some(raw) => if items_are_extra_entries(raw) {
            Some(items_extra_entries(raw))
        } else {
            None
        },
        None => None,
    }
}

/// Each of the entries of extra data can be written, and so can its length.
pub open spec fn extra_entries_ok(items: Seq<ExtraDataEntryView>) -> bool {
    forall|i: int|
        0 <= i < items.len() ==> (#[trigger] items[i]).encodable() && items[i].encode().len()
            <= u64::MAX
}

/// Parsing the bytes of a list of entries of extra data gives the list back.
pub proof fn lemma_parse_encoded_extra_entry_list(items: Seq<ExtraDataEntryView>)
    requires
        extra_entries_ok(items),
    ensures
        parse_extra_entry_list(encode_extra_entry_list(items)) == Some(items),
{
    let raw = extra_entry_items(items);
    assert(items_ok(raw));
    lemma_parse_encoded_list(raw);
    assert forall|i: int| 0 <= i < raw.len() implies ExtraDataEntryView::parse(#[trigger] raw[i]) == Some(
        items[i],
    ) by {
        items[i].lemma_roundtrip();
    }
    assert(items_extra_entries(raw) =~= items);
}

/// The bytes of a list of entries of extra data.
pub fn write_extra_entry_list(items: &Vec<ExtraDataEntry>) -> (out: Vec<u8>)
    ensures
        out@ == encode_extra_entry_list(extra_entry_list_view(items@)),
        extra_entries_ok(extra_entry_list_view(items@)),
{
    let mut raw: Vec<Vec<u8>> = Vec::new();
    let mut i: usize = 0;
    while i < items.len()
        invariant
            i <= items@.len(),
            raw@.len() == i,
            forall|j: int| 0 <= j < i ==> (#[trigger] raw@[j])@ == items@[j]@.encode(),
            forall|j: int|
                0 <= j < i ==> (#[trigger] items@[j])@.encodable() && items@[j]@.encode().len()
                    <= usize::MAX,
        decreases items@.len() - i,
    {
        let bytes = items[i].to_bytes();
        assert(bytes@.len() == bytes.len());
        raw.push(bytes);
        i += 1;
    }
    assert(bytes_list_view(raw@) =~= extra_entry_items(extra_entry_list_view(items@)));
    write_list(&raw)
}

/// Reads a list of entries of extra data.
pub fn read_extra_entry_list(bytes: &[u8]) -> (r: Option<Vec<ExtraDataEntry>>)
    ensures
        match parse_extra_entry_list(bytes@) {
            Some(items) => r is Some && extra_entry_list_view(r->Some_0@) == items,
            None => r is None,
        },
{
    let raw = match read_list(bytes) {
        Some(raw) => raw,
        None => { return None; },
    };
    let ghost raw_view = bytes_list_view(raw@);
    let mut items: Vec<ExtraDataEntry> = Vec::new();
    let mut i: usize = 0;
    while i < raw.len()
        invariant
            i <= raw@.len(),
            raw_view == bytes_list_view(raw@),
            parse_list(bytes@) == Some(raw_view),
            items@.len() == i,
            forall|j: int| 0 <= j < i ==> ExtraDataEntryView::parse(#[trigger] raw_view[j]) is Some,
            forall|j: int|
                0 <= j < i ==> (#[trigger] items@[j])@ == ExtraDataEntryView::parse(raw_view[j])->Some_0,
        decreases raw@.len() - i,
    {
        assert(raw_view[i as int] == raw@[i as int]@);
        match ExtraDataEntry::from_bytes(raw[i].as_slice()) {
            Some(item) => {
                items.push(item);
            },
            None => {
                assert(ExtraDataEntryView::parse(raw_view[i as int]) is None);
                return None;
            },
        }
        i += 1;
    }
    assert(extra_entry_list_view(items@) =~= items_extra_entries(raw_view));
    Some(items)
}

/// A copy of a list of entries of extra data.
pub fn copy_extra_entries(items: &Vec<ExtraDataEntry>) -> (copy: Vec<ExtraDataEntry>)
    ensures
        extra_entry_list_view(copy@) == extra_entry_list_view(items@),
{
    let mut copy: Vec<ExtraDataEntry> = Vec::new();
    let mut i: usize = 0;
    while i < items.len()
        invariant
            i <= items@.len(),
            copy@.len() == i,
            forall|j: int| 0 <= j < i ==> (#[trigger] copy@[j])@ == items@[j]@,
        decreases items@.len() - i,
    {
        copy.push(items[i].duplicate());
        i += 1;
    }
    assert(extra_entry_list_view(copy@) =~= extra_entry_list_view(items@));
    copy
}

/// Bans, trusted service nodes and feature switches that every node of the
/// network applies, with the signature of the key that issued them.
#[derive(Clone, Debug, PartialEq, Eq)]
pub struct Filter {
    pub node_addresses_banned_from_trading: Vec<String>,
    pub banned_offer_ids: Vec<String>,
    pub banned_payment_accounts: Vec<PaymentAccountFilter>,
    pub signature_as_base64: String,
    pub owner_pub_key_bytes: Vec<u8>,
    pub extra_data: Vec<ExtraDataEntry>,
    pub banned_currencies: Vec<String>,
    pub banned_payment_methods: Vec<String>,
    pub arbitrators: Vec<String>,
    pub seed_nodes: Vec<String>,
    pub price_relay_nodes: Vec<String>,
    pub prevent_public_xmr_network: bool,
    pub xmr_nodes: Vec<String>,
    pub disable_trade_below_version: String,
    pub mediators: Vec<String>,
    pub refund_agents: Vec<String>,
    pub banned_signer_pub_keys: Vec<String>,
    pub xmr_fee_receiver_addresses: Vec<String>,
    pub creation_date: i64,
    pub signer_pub_key_as_hex: String,
    pub banned_privileged_dev_pub_keys: Vec<String>,
    pub disable_auto_conf: bool,
    pub banned_auto_conf_explorers: Vec<String>,
    pub node_addresses_banned_from_network: Vec<String>,
    pub disable_api: bool,
    pub disable_mempool_validation: bool,
}

/// What a [`Filter`] holds.
pub ghost struct FilterView {
    pub node_addresses_banned_from_trading: Seq<Seq<char>>,
    pub banned_offer_ids: Seq<Seq<char>>,
    pub banned_payment_accounts: Seq<PaymentAccountFilterView>,
    pub signature_as_base64: Seq<char>,
    pub owner_pub_key_bytes: Seq<u8>,
    pub extra_data: Seq<ExtraDataEntryView>,
    pub banned_currencies: Seq<Seq<char>>,
    pub banned_payment_methods: Seq<Seq<char>>,
    pub arbitrators: Seq<Seq<char>>,
    pub seed_nodes: Seq<Seq<char>>,
    pub price_relay_nodes: Seq<Seq<char>>,
    pub prevent_public_xmr_network: bool,
    pub xmr_nodes: Seq<Seq<char>>,
    pub disable_trade_below_version: Seq<char>,
    pub mediators: Seq<Seq<char>>,
    pub refund_agents: Seq<Seq<char>>,
    pub banned_signer_pub_keys: Seq<Seq<char>>,
    pub xmr_fee_receiver_addresses: Seq<Seq<char>>,
    pub creation_date: i64,
    pub signer_pub_key_as_hex: Seq<char>,
    pub banned_privileged_dev_pub_keys: Seq<Seq<char>>,
    pub disable_auto_conf: bool,
    pub banned_auto_conf_explorers: Seq<Seq<char>>,
    pub node_addresses_banned_from_network: Seq<Seq<char>>,
    pub disable_api: bool,
    pub disable_mempool_validation: bool,
}

impl View for Filter {
    type V = FilterView;

    open spec fn view(&self) -> FilterView {
        FilterView {
            node_addresses_banned_from_trading: text_list_view(self.node_addresses_banned_from_trading@),
            banned_offer_ids: text_list_view(self.banned_offer_ids@),
            banned_payment_accounts: account_filter_list_view(self.banned_payment_accounts@),
            signature_as_base64: self.signature_as_base64@,
            owner_pub_key_bytes: self.owner_pub_key_bytes@,
            extra_data: extra_entry_list_view(self.extra_data@),
            banned_currencies: text_list_view(self.banned_currencies@),
            banned_payment_methods: text_list_view(self.banned_payment_methods@),
            arbitrators: text_list_view(self.arbitrators@),
            seed_nodes: text_list_view(self.seed_nodes@),
            price_relay_nodes: text_list_view(self.price_relay_nodes@),
            prevent_public_xmr_network: self.prevent_public_xmr_network,
            xmr_nodes: text_list_view(self.xmr_nodes@),
            disable_trade_below_version: self.disable_trade_below_version@,
            mediators: text_list_view(self.mediators@),
            refund_agents: text_list_view(self.refund_agents@),
            banned_signer_pub_keys: text_list_view(self.banned_signer_pub_keys@),
            xmr_fee_receiver_addresses: text_list_view(self.xmr_fee_receiver_addresses@),
            creation_date: self.creation_date,
            signer_pub_key_as_hex: self.signer_pub_key_as_hex@,
            banned_privileged_dev_pub_keys: text_list_view(self.banned_privileged_dev_pub_keys@),
            disable_auto_conf: self.disable_auto_conf,
            banned_auto_conf_explorers: text_list_view(self.banned_auto_conf_explorers@),
            node_addresses_banned_from_network: text_list_view(self.node_addresses_banned_from_network@),
            disable_api: self.disable_api,
            disable_mempool_validation: self.disable_mempool_validation,
        }
    }
}

impl FilterView {
    /// Field number `i + 1` of the filter.
    pub open spec fn field_at(self, i: int) -> WireField {
        if i == 0 {
            bytes_field(1, encode_text_list(self.node_addresses_banned_from_trading))
        } else if i == 1 {
            bytes_field(2, encode_text_list(self.banned_offer_ids))
        } else if i == 2 {
            bytes_field(3, encode_account_filter_list(self.banned_payment_accounts))
        } else if i == 3 {
            text_field(4, self.signature_as_base64)
        } else if i == 4 {
            bytes_field(5, self.owner_pub_key_bytes)
        } else if i == 5 {
            bytes_field(6, encode_extra_entry_list(self.extra_data))
        } else if i == 6 {
            bytes_field(7, encode_text_list(self.banned_currencies))
        } else if i == 7 {
            bytes_field(8, encode_text_list(self.banned_payment_methods))
        } else if i == 8 {
            bytes_field(9, encode_text_list(self.arbitrators))
        } else if i == 9 {
            bytes_field(10, encode_text_list(self.seed_nodes))
        } else if i == 10 {
            bytes_field(11, encode_text_list(self.price_relay_nodes))
        } else if i == 11 {
            bool_field(12, self.prevent_public_xmr_network)
        } else if i == 12 {
            bytes_field(13, encode_text_list(self.xmr_nodes))
        } else if i == 13 {
            text_field(14, self.disable_trade_below_version)
        } else if i == 14 {
            bytes_field(15, encode_text_list(self.mediators))
        } else if i == 15 {
            bytes_field(16, encode_text_list(self.refund_agents))
        } else if i == 16 {
            bytes_field(17, encode_text_list(self.banned_signer_pub_keys))
        } else if i == 17 {
            bytes_field(18, encode_text_list(self.xmr_fee_receiver_addresses))
        } else if i == 18 {
            i64_field(19, self.creation_date)
        } else if i == 19 {
            text_field(20, self.signer_pub_key_as_hex)
        } else if i == 20 {
            bytes_field(21, encode_text_list(self.banned_privileged_dev_pub_keys))
        } else if i == 21 {
            bool_field(22, self.disable_auto_conf)
        } else if i == 22 {
            bytes_field(23, encode_text_list(self.banned_auto_conf_explorers))
        } else if i == 23 {
            bytes_field(24, encode_text_list(self.node_addresses_banned_from_network))
        } else if i == 24 {
            bool_field(25, self.disable_api)
        } else {
            bool_field(26, self.disable_mempool_validation)
        }
    }

    /// The fields of the filter, in the order in which they are written.
    pub open spec fn record(self) -> Seq<WireField> {
        Seq::new(26, |i: int| self.field_at(i))
    }

    /// The filter that a record holds, if it has exactly these fields.
    pub open spec fn from_record(fs: Seq<WireField>) -> Option<FilterView> {
        if fs.len() == 26
            && field_bytes(fs[0], 1) is Some
            && parse_text_list(field_bytes(fs[0], 1)->Some_0) is Some
            && field_bytes(fs[1], 2) is Some
            && parse_text_list(field_bytes(fs[1], 2)->Some_0) is Some
            && field_bytes(fs[2], 3) is Some
            && parse_account_filter_list(field_bytes(fs[2], 3)->Some_0) is Some
            && field_text(fs[3], 4) is Some
            && field_bytes(fs[4], 5) is Some
            && field_bytes(fs[5], 6) is Some
            && parse_extra_entry_list(field_bytes(fs[5], 6)->Some_0) is Some
            && field_bytes(fs[6], 7) is Some
            && parse_text_list(field_bytes(fs[6], 7)->Some_0) is Some
            && field_bytes(fs[7], 8) is Some
            && parse_text_list(field_bytes(fs[7], 8)->Some_0) is Some
            && field_bytes(fs[8], 9) is Some
            && parse_text_list(field_bytes(fs[8], 9)->Some_0) is Some
            && field_bytes(fs[9], 10) is Some
            && parse_text_list(field_bytes(fs[9], 10)->Some_0) is Some
            && field_bytes(fs[10], 11) is Some
            && parse_text_list(field_bytes(fs[10], 11)->Some_0) is Some
            && field_bool(fs[11], 12) is Some
            && field_bytes(fs[12], 13) is Some
            && parse_text_list(field_bytes(fs[12], 13)->Some_0) is Some
            && field_text(fs[13], 14) is Some
            && field_bytes(fs[14], 15) is Some
            && parse_text_list(field_bytes(fs[14], 15)->Some_0) is Some
            && field_bytes(fs[15], 16) is Some
            && parse_text_list(field_bytes(fs[15], 16)->Some_0) is Some
            && field_bytes(fs[16], 17) is Some
            && parse_text_list(field_bytes(fs[16], 17)->Some_0) is Some
            && field_bytes(fs[17], 18) is Some
            && parse_text_list(field_bytes(fs[17], 18)->Some_0) is Some
            && field_i64(fs[18], 19) is Some
            && field_text(fs[19], 20) is Some
            && field_bytes(fs[20], 21) is Some
            && parse_text_list(field_bytes(fs[20], 21)->Some_0) is Some
            && field_bool(fs[21], 22) is Some
            && field_bytes(fs[22], 23) is Some
            && parse_text_list(field_bytes(fs[22], 23)->Some_0) is Some
            && field_bytes(fs[23], 24) is Some
            && parse_text_list(field_bytes(fs[23], 24)->Some_0) is Some
            && field_bool(fs[24], 25) is Some
            && field_bool(fs[25], 26) is Some
        {
            Some(
                FilterView {
                    node_addresses_banned_from_trading: parse_text_list(field_bytes(fs[0], 1)->Some_0)->Some_0,
                    banned_offer_ids: parse_text_list(field_bytes(fs[1], 2)->Some_0)->Some_0,
                    banned_payment_accounts: parse_account_filter_list(field_bytes(fs[2], 3)->Some_0)->Some_0,
                    signature_as_base64: field_text(fs[3], 4)->Some_0,
                    owner_pub_key_bytes: field_bytes(fs[4], 5)->Some_0,
                    extra_data: parse_extra_entry_list(field_bytes(fs[5], 6)->Some_0)->Some_0,
                    banned_currencies: parse_text_list(field_bytes(fs[6], 7)->Some_0)->Some_0,
                    banned_payment_methods: parse_text_list(field_bytes(fs[7], 8)->Some_0)->Some_0,
                    arbitrators: parse_text_list(field_bytes(fs[8], 9)->Some_0)->Some_0,
                    seed_nodes: parse_text_list(field_bytes(fs[9], 10)->Some_0)->Some_0,
                    price_relay_nodes: parse_text_list(field_bytes(fs[10], 11)->Some_0)->Some_0,
                    prevent_public_xmr_network: field_bool(fs[11], 12)->Some_0,
                    xmr_nodes: parse_text_list(field_bytes(fs[12], 13)->Some_0)->Some_0,
                    disable_trade_below_version: field_text(fs[13], 14)->Some_0,
                    mediators: parse_text_list(field_bytes(fs[14], 15)->Some_0)->Some_0,
                    refund_agents: parse_text_list(field_bytes(fs[15], 16)->Some_0)->Some_0,
                    banned_signer_pub_keys: parse_text_list(field_bytes(fs[16], 17)->Some_0)->Some_0,
                    xmr_fee_receiver_addresses: parse_text_list(field_bytes(fs[17], 18)->Some_0)->Some_0,
                    creation_date: field_i64(fs[18], 19)->Some_0,
                    signer_pub_key_as_hex: field_text(fs[19], 20)->Some_0,
                    banned_privileged_dev_pub_keys: parse_text_list(field_bytes(fs[20], 21)->Some_0)->Some_0,
                    disable_auto_conf: field_bool(fs[21], 22)->Some_0,
                    banned_auto_conf_explorers: parse_text_list(field_bytes(fs[22], 23)->Some_0)->Some_0,
                    node_addresses_banned_from_network: parse_text_list(field_bytes(fs[23], 24)->Some_0)->Some_0,
                    disable_api: field_bool(fs[24], 25)->Some_0,
                    disable_mempool_validation: field_bool(fs[25], 26)->Some_0,
                },
            )
        } else {
            None
        }
    }

    /// The canonical bytes of the filter.
    pub open spec fn encode(self) -> Seq<u8> {
        encode_fields(self.record())
    }

    /// The filter that `bytes` hold, if they hold one.
    pub open spec fn parse(bytes: Seq<u8>) -> Option<FilterView> {
        match parse_fields(bytes) {
            Some(fs) => Self::from_record(fs),
            None => None,
        }
    }

    /// Every length that the encoding states fits in 64 bits.
    pub open spec fn encodable(self) -> bool {
        &&& texts_ok(self.node_addresses_banned_from_trading)
        &&& encode_text_list(self.node_addresses_banned_from_trading).len() <= u64::MAX
        &&& texts_ok(self.banned_offer_ids)
        &&& encode_text_list(self.banned_offer_ids).len() <= u64::MAX
        &&& account_filters_ok(self.banned_payment_accounts)
        &&& encode_account_filter_list(self.banned_payment_accounts).len() <= u64::MAX
        &&& encode_utf8(self.signature_as_base64).len() <= u64::MAX
        &&& self.owner_pub_key_bytes.len() <= u64::MAX
        &&& extra_entries_ok(self.extra_data)
        &&& encode_extra_entry_list(self.extra_data).len() <= u64::MAX
        &&& texts_ok(self.banned_currencies)
        &&& encode_text_list(self.banned_currencies).len() <= u64::MAX
        &&& texts_ok(self.banned_payment_methods)
        &&& encode_text_list(self.banned_payment_methods).len() <= u64::MAX
        &&& texts_ok(self.arbitrators)
        &&& encode_text_list(self.arbitrators).len() <= u64::MAX
        &&& texts_ok(self.seed_nodes)
        &&& encode_text_list(self.seed_nodes).len() <= u64::MAX
        &&& texts_ok(self.price_relay_nodes)
        &&& encode_text_list(self.price_relay_nodes).len() <= u64::MAX
        &&& texts_ok(self.xmr_nodes)
        &&& encode_text_list(self.xmr_nodes).len() <= u64::MAX
        &&& encode_utf8(self.disable_trade_below_version).len() <= u64::MAX
        &&& texts_ok(self.mediators)
        &&& encode_text_list(self.mediators).len() <= u64::MAX
        &&& texts_ok(self.refund_agents)
        &&& encode_text_list(self.refund_agents).len() <= u64::MAX
        &&& texts_ok(self.banned_signer_pub_keys)
        &&& encode_text_list(self.banned_signer_pub_keys).len() <= u64::MAX
        &&& texts_ok(self.xmr_fee_receiver_addresses)
        &&& encode_text_list(self.xmr_fee_receiver_addresses).len() <= u64::MAX
        &&& encode_utf8(self.signer_pub_key_as_hex).len() <= u64::MAX
        &&& texts_ok(self.banned_privileged_dev_pub_keys)
        &&& encode_text_list(self.banned_privileged_dev_pub_keys).len() <= u64::MAX
        &&& texts_ok(self.banned_auto_conf_explorers)
        &&& encode_text_list(self.banned_auto_conf_explorers).len() <= u64::MAX
        &&& texts_ok(self.node_addresses_banned_from_network)
        &&& encode_text_list(self.node_addresses_banned_from_network).len() <= u64::MAX
    }

    /// Parsing the bytes of a filter gives that filter back.
    pub proof fn lemma_roundtrip(self)
        requires
            self.encodable(),
        ensures
            Self::parse(self.encode()) == Some(self),
    {
        let fs = self.record();
        assert forall|i: int| 0 <= i < 26 implies field_ok(#[trigger] fs[i]) by {
            assert(fs[i] == self.field_at(i));
        }
        lemma_parse_encoded_fields(fs);
        assert(Self::from_record(fs) == Some(self)) by {
            assert(fs[0] == self.field_at(0));
            assert(fs[1] == self.field_at(1));
            assert(fs[2] == self.field_at(2));
            assert(fs[3] == self.field_at(3));
            assert(fs[4] == self.field_at(4));
            assert(fs[5] == self.field_at(5));
            assert(fs[6] == self.field_at(6));
            assert(fs[7] == self.field_at(7));
            assert(fs[8] == self.field_at(8));
            assert(fs[9] == self.field_at(9));
            assert(fs[10] == self.field_at(10));
            assert(fs[11] == self.field_at(11));
            assert(fs[12] == self.field_at(12));
            assert(fs[13] == self.field_at(13));
            assert(fs[14] == self.field_at(14));
            assert(fs[15] == self.field_at(15));
            assert(fs[16] == self.field_at(16));
            assert(fs[17] == self.field_at(17));
            assert(fs[18] == self.field_at(18));
            assert(fs[19] == self.field_at(19));
            assert(fs[20] == self.field_at(20));
            assert(fs[21] == self.field_at(21));
            assert(fs[22] == self.field_at(22));
            assert(fs[23] == self.field_at(23));
            assert(fs[24] == self.field_at(24));
            assert(fs[25] == self.field_at(25));
            lemma_parse_encoded_text_list(self.node_addresses_banned_from_trading);
            lemma_parse_encoded_text_list(self.banned_offer_ids);
            lemma_parse_encoded_account_filter_list(self.banned_payment_accounts);
            lemma_text_field(4, self.signature_as_base64);
            lemma_parse_encoded_extra_entry_list(self.extra_data);
            lemma_parse_encoded_text_list(self.banned_currencies);
            lemma_parse_encoded_text_list(self.banned_payment_methods);
            lemma_parse_encoded_text_list(self.arbitrators);
            lemma_parse_encoded_text_list(self.seed_nodes);
            lemma_parse_encoded_text_list(self.price_relay_nodes);
            lemma_parse_encoded_text_list(self.xmr_nodes);
            lemma_text_field(14, self.disable_trade_below_version);
            lemma_parse_encoded_text_list(self.mediators);
            lemma_parse_encoded_text_list(self.refund_agents);
            lemma_parse_encoded_text_list(self.banned_signer_pub_keys);
            lemma_parse_encoded_text_list(self.xmr_fee_receiver_addresses);
            lemma_text_field(20, self.signer_pub_key_as_hex);
            lemma_parse_encoded_text_list(self.banned_privileged_dev_pub_keys);
            lemma_parse_encoded_text_list(self.banned_auto_conf_explorers);
            lemma_parse_encoded_text_list(self.node_addresses_banned_from_network);
        }
    }
}

impl Filter {
    /// Writes the filter in its canonical form.
    pub fn to_bytes(&self) -> (out: Vec<u8>)
        ensures
            out@ == self@.encode(),
            self@.encodable(),
    {
        let node_addresses_banned_from_trading = write_text_list(&self.node_addresses_banned_from_trading);
        let banned_offer_ids = write_text_list(&self.banned_offer_ids);
        let banned_payment_accounts = write_account_filter_list(&self.banned_payment_accounts);
        let extra_data = write_extra_entry_list(&self.extra_data);
        let banned_currencies = write_text_list(&self.banned_currencies);
        let banned_payment_methods = write_text_list(&self.banned_payment_methods);
        let arbitrators = write_text_list(&self.arbitrators);
        let seed_nodes = write_text_list(&self.seed_nodes);
        let price_relay_nodes = write_text_list(&self.price_relay_nodes);
        let xmr_nodes = write_text_list(&self.xmr_nodes);
        let mediators = write_text_list(&self.mediators);
        let refund_agents = write_text_list(&self.refund_agents);
        let banned_signer_pub_keys = write_text_list(&self.banned_signer_pub_keys);
        let xmr_fee_receiver_addresses = write_text_list(&self.xmr_fee_receiver_addresses);
        let banned_privileged_dev_pub_keys = write_text_list(&self.banned_privileged_dev_pub_keys);
        let banned_auto_conf_explorers = write_text_list(&self.banned_auto_conf_explorers);
        let node_addresses_banned_from_network = write_text_list(&self.node_addresses_banned_from_network);
        let mut w = RecordWriter::new();
        w.put_bytes(1, node_addresses_banned_from_trading.as_slice());
        assert(w.fields() =~= self@.record().take(1));
        w.put_bytes(2, banned_offer_ids.as_slice());
        assert(w.fields() =~= self@.record().take(2));
        w.put_bytes(3, banned_payment_accounts.as_slice());
        assert(w.fields() =~= self@.record().take(3));
        w.put_text(4, self.signature_as_base64.as_str());
        assert(w.fields() =~= self@.record().take(4));
        w.put_bytes(5, self.owner_pub_key_bytes.as_slice());
        assert(w.fields() =~= self@.record().take(5));
        w.put_bytes(6, extra_data.as_slice());
        assert(w.fields() =~= self@.record().take(6));
        w.put_bytes(7, banned_currencies.as_slice());
        assert(w.fields() =~= self@.record().take(7));
        w.put_bytes(8, banned_payment_methods.as_slice());
        assert(w.fields() =~= self@.record().take(8));
        w.put_bytes(9, arbitrators.as_slice());
        assert(w.fields() =~= self@.record().take(9));
        w.put_bytes(10, seed_nodes.as_slice());
        assert(w.fields() =~= self@.record().take(10));
        w.put_bytes(11, price_relay_nodes.as_slice());
        assert(w.fields() =~= self@.record().take(11));
        w.put_bool(12, self.prevent_public_xmr_network);
        assert(w.fields() =~= self@.record().take(12));
        w.put_bytes(13, xmr_nodes.as_slice());
        assert(w.fields() =~= self@.record().take(13));
        w.put_text(14, self.disable_trade_below_version.as_str());
        assert(w.fields() =~= self@.record().take(14));
        w.put_bytes(15, mediators.as_slice());
        assert(w.fields() =~= self@.record().take(15));
        w.put_bytes(16, refund_agents.as_slice());
        assert(w.fields() =~= self@.record().take(16));
        w.put_bytes(17, banned_signer_pub_keys.as_slice());
        assert(w.fields() =~= self@.record().take(17));
        w.put_bytes(18, xmr_fee_receiver_addresses.as_slice());
        assert(w.fields() =~= self@.record().take(18));
        w.put_i64(19, self.creation_date);
        assert(w.fields() =~= self@.record().take(19));
        w.put_text(20, self.signer_pub_key_as_hex.as_str());
        assert(w.fields() =~= self@.record().take(20));
        w.put_bytes(21, banned_privileged_dev_pub_keys.as_slice());
        assert(w.fields() =~= self@.record().take(21));
        w.put_bool(22, self.disable_auto_conf);
        assert(w.fields() =~= self@.record().take(22));
        w.put_bytes(23, banned_auto_conf_explorers.as_slice());
        assert(w.fields() =~= self@.record().take(23));
        w.put_bytes(24, node_addresses_banned_from_network.as_slice());
        assert(w.fields() =~= self@.record().take(24));
        w.put_bool(25, self.disable_api);
        assert(w.fields() =~= self@.record().take(25));
        w.put_bool(26, self.disable_mempool_validation);
        assert(w.fields() =~= self@.record());
        w.finish()
    }

    /// Reads a filter from bytes.
    pub fn from_bytes(bytes: &[u8]) -> (r: Option<Filter>)
        ensures
            match FilterView::parse(bytes@) {
                Some(m) => r is Some && r->Some_0@ == m,
                None => r is None,
            },
    {
        let fields = read_fields(bytes)?;
        if fields.len() != 26 {
            return None;
        }
        assert(forall|i: int| 0 <= i < 26 ==> fields.deep_view()[i] == fields@[i]@);
        let node_addresses_banned_from_trading = read_text_list(get_bytes(&fields[0], 1)?.as_slice())?;
        let banned_offer_ids = read_text_list(get_bytes(&fields[1], 2)?.as_slice())?;
        let banned_payment_accounts = read_account_filter_list(get_bytes(&fields[2], 3)?.as_slice())?;
        let signature_as_base64 = get_text(&fields[3], 4)?;
        let owner_pub_key_bytes = get_bytes(&fields[4], 5)?.clone();
        let extra_data = read_extra_entry_list(get_bytes(&fields[5], 6)?.as_slice())?;
        let banned_currencies = read_text_list(get_bytes(&fields[6], 7)?.as_slice())?;
        let banned_payment_methods = read_text_list(get_bytes(&fields[7], 8)?.as_slice())?;
        let arbitrators = read_text_list(get_bytes(&fields[8], 9)?.as_slice())?;
        let seed_nodes = read_text_list(get_bytes(&fields[9], 10)?.as_slice())?;
        let price_relay_nodes = read_text_list(get_bytes(&fields[10], 11)?.as_slice())?;
        let prevent_public_xmr_network = get_bool(&fields[11], 12)?;
        let xmr_nodes = read_text_list(get_bytes(&fields[12], 13)?.as_slice())?;
        let disable_trade_below_version = get_text(&fields[13], 14)?;
        let mediators = read_text_list(get_bytes(&fields[14], 15)?.as_slice())?;
        let refund_agents = read_text_list(get_bytes(&fields[15], 16)?.as_slice())?;
        let banned_signer_pub_keys = read_text_list(get_bytes(&fields[16], 17)?.as_slice())?;
        let xmr_fee_receiver_addresses = read_text_list(get_bytes(&fields[17], 18)?.as_slice())?;
        let creation_date = get_i64(&fields[18], 19)?;
        let signer_pub_key_as_hex = get_text(&fields[19], 20)?;
        let banned_privileged_dev_pub_keys = read_text_list(get_bytes(&fields[20], 21)?.as_slice())?;
        let disable_auto_conf = get_bool(&fields[21], 22)?;
        let banned_auto_conf_explorers = read_text_list(get_bytes(&fields[22], 23)?.as_slice())?;
        let node_addresses_banned_from_network = read_text_list(get_bytes(&fields[23], 24)?.as_slice())?;
        let disable_api = get_bool(&fields[24], 25)?;
        let disable_mempool_validation = get_bool(&fields[25], 26)?;
        Some(Filter {
            node_addresses_banned_from_trading,
            banned_offer_ids,
            banned_payment_accounts,
            signature_as_base64,
            owner_pub_key_bytes,
            extra_data,
            banned_currencies,
            banned_payment_methods,
            arbitrators,
            seed_nodes,
            price_relay_nodes,
            prevent_public_xmr_network,
            xmr_nodes,
            disable_trade_below_version,
            mediators,
            refund_agents,
            banned_signer_pub_keys,
            xmr_fee_receiver_addresses,
            creation_date,
            signer_pub_key_as_hex,
            banned_privileged_dev_pub_keys,
            disable_auto_conf,
            banned_auto_conf_explorers,
            node_addresses_banned_from_network,
            disable_api,
            disable_mempool_validation,
        })
    }

    /// A copy with the same content.
    pub fn duplicate(&self) -> (copy: Filter)
        ensures
            copy@ == self@,
    {
        Filter {
            node_addresses_banned_from_trading: copy_texts(&self.node_addresses_banned_from_trading),
            banned_offer_ids: copy_texts(&self.banned_offer_ids),
            banned_payment_accounts: copy_account_filters(&self.banned_payment_accounts),
            signature_as_base64: self.signature_as_base64.clone(),
            owner_pub_key_bytes: self.owner_pub_key_bytes.clone(),
            extra_data: copy_extra_entries(&self.extra_data),
            banned_currencies: copy_texts(&self.banned_currencies),
            banned_payment_methods: copy_texts(&self.banned_payment_methods),
            arbitrators: copy_texts(&self.arbitrators),
            seed_nodes: copy_texts(&self.seed_nodes),
            price_relay_nodes: copy_texts(&self.price_relay_nodes),
            prevent_public_xmr_network: self.prevent_public_xmr_network,
            xmr_nodes: copy_texts(&self.xmr_nodes),
            disable_trade_below_version: self.disable_trade_below_version.clone(),
            mediators: copy_texts(&self.mediators),
            refund_agents: copy_texts(&self.refund_agents),
            banned_signer_pub_keys: copy_texts(&self.banned_signer_pub_keys),
            xmr_fee_receiver_addresses: copy_texts(&self.xmr_fee_receiver_addresses),
            creation_date: self.creation_date,
            signer_pub_key_as_hex: self.signer_pub_key_as_hex.clone(),
            banned_privileged_dev_pub_keys: copy_texts(&self.banned_privileged_dev_pub_keys),
            disable_auto_conf: self.disable_auto_conf,
            banned_auto_conf_explorers: copy_texts(&self.banned_auto_conf_explorers),
            node_addresses_banned_from_network: copy_texts(&self.node_addresses_banned_from_network),
            disable_api: self.disable_api,
            disable_mempool_validation: self.disable_mempool_validation,
        }
    }
}

} // verus!
