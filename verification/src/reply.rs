//! What came back from a gateway call, decoded once into typed fields.

use crate::amount::Amount;
use crate::json::{
    at, f64_bits_of, field, i64_of, items_of, parse, parsed, str_of, value_at, value_f64_bits,
    value_field, value_i64, value_items, value_str,
};
use serde_json::Value;
use vstd::prelude::*;

verus! {

/// One line of a closure summary, as far as the gateway filled it in.
#[derive(Clone, Debug)]
pub struct SummaryEntry {
    /// The member `type`, where it is a string.
    pub kind: Option<String>,
    /// The member `amount`, where it is a number.
    pub amount: Option<Amount>,
    /// The member `transactions`, where it is an integer that fits 64 bits.
    pub transactions: Option<i64>,
}

/// A [`SummaryEntry`] with its text as a sequence of characters.
#[verifier::ext_equal]
pub struct SummaryEntryView {
    pub kind: Option<Seq<char>>,
    pub amount: Option<Amount>,
    pub transactions: Option<i64>,
}

impl DeepView for SummaryEntry {
    type V = SummaryEntryView;

    open spec fn deep_view(&self) -> SummaryEntryView {
        SummaryEntryView {
            kind: self.kind.deep_view(),
            amount: self.amount,
            transactions: self.transactions,
        }
    }
}

/// A gateway body: the text as received, and the fields that the
/// orchestrator reads from it.
#[derive(Clone, Debug)]
pub struct GatewayBody {
    /// The body as it came.
    pub raw: String,
    /// The string at `/status/code`.
    pub code: Option<String>,
    /// The string at `/body/status`.
    pub status: Option<String>,
    /// The string at `/body/token`.
    pub token: Option<String>,
    /// The string at `/body/transactionId`.
    pub transaction_id: Option<String>,
    /// The array at `/body/summary`.
    pub summary: Option<Vec<SummaryEntry>>,
}

/// A [`GatewayBody`] with its texts as sequences of characters.
#[verifier::ext_equal]
pub struct GatewayBodyView {
    pub raw: Seq<char>,
    pub code: Option<Seq<char>>,
    pub status: Option<Seq<char>>,
    pub token: Option<Seq<char>>,
    pub transaction_id: Option<Seq<char>>,
    pub summary: Option<Seq<SummaryEntryView>>,
}

impl View for GatewayBody {
    type V = GatewayBodyView;

    open spec fn view(&self) -> GatewayBodyView {
        GatewayBodyView {
            raw: self.raw@,
            code: self.code.deep_view(),
            status: self.status.deep_view(),
            token: self.token.deep_view(),
            transaction_id: self.transaction_id.deep_view(),
            summary: self.summary.deep_view(),
        }
    }
}

/// How a gateway call ended. Whether the gateway itself reports success is
/// not told apart here: a body is a body.
#[derive(Clone, Debug)]
pub enum GatewayReply {
    /// The call could not be completed, or what came back was not JSON.
    Transport(String),
    /// The gateway answered with a JSON body.
    Body(GatewayBody),
}

/// A [`GatewayReply`] with its texts as sequences of characters.
#[verifier::ext_equal]
pub enum GatewayReplyView {
    Transport(Seq<char>),
    Body(GatewayBodyView),
}

impl View for GatewayReply {
    type V = GatewayReplyView;

    open spec fn view(&self) -> GatewayReplyView {
        match self {
            GatewayReply::Transport(message) => GatewayReplyView::Transport(message@),
            GatewayReply::Body(body) => GatewayReplyView::Body(body@),
        }
    }
}

/// The string under a JSON pointer: there is a node, and it is a string.
pub open spec fn text_at(v: Value, pointer: Seq<char>) -> Option<Seq<char>> {
    match value_at(v, pointer) {
        Some(node) => value_str(node),
        None => None,
    }
}

/// The string under a key of a node.
pub open spec fn text_field(v: Value, key: Seq<char>) -> Option<Seq<char>> {
    match value_field(v, key) {
        Some(node) => value_str(node),
        None => None,
    }
}

/// The number under a key of a node, as an amount.
pub open spec fn amount_field(v: Value, key: Seq<char>) -> Option<Amount> {
    match value_field(v, key) {
        Some(node) => match value_f64_bits(node) {
            Some(bits) => Some(Amount { bits }),
            None => None,
        },
        None => None,
    }
}

/// The integer under a key of a node.
pub open spec fn integer_field(v: Value, key: Seq<char>) -> Option<i64> {
    match value_field(v, key) {
        Some(node) => value_i64(node),
        None => None,
    }
}

/// One element of a summary array, read member by member.
pub open spec fn entry_of(e: Value) -> SummaryEntryView {
    SummaryEntryView {
        kind: text_field(e, "type"@),
        amount: amount_field(e, "amount"@),
        transactions: integer_field(e, "transactions"@),
    }
}

/// The summary of a document: the array at `/body/summary`, element by
/// element; `None` where there is no array there.
pub open spec fn summary_of(v: Value) -> Option<Seq<SummaryEntryView>> {
    match value_at(v, "/body/summary"@) {
        Some(node) => match value_items(node) {
            Some(items) => Some(Seq::new(items.len(), |i: int| entry_of(items[i]))),
            None => None,
        },
        None => None,
    }
}

/// The typed fields of a document that was read from `raw`.
pub open spec fn body_of(raw: Seq<char>, v: Value) -> GatewayBodyView {
    GatewayBodyView {
        raw,
        code: text_at(v, "/status/code"@),
        status: text_at(v, "/body/status"@),
        token: text_at(v, "/body/token"@),
        transaction_id: text_at(v, "/body/transactionId"@),
        summary: summary_of(v),
    }
}

/// What the orchestrator makes of a call's end: the caller's failure
/// message is a transport failure, and so is a text that is no JSON
/// document; any document is a body.
pub open spec fn reply_of(outcome: Result<Seq<char>, Seq<char>>) -> GatewayReplyView {
    match outcome {
        Err(message) => GatewayReplyView::Transport(message),
        Ok(raw) => match parsed(raw) {
            Some(v) => GatewayReplyView::Body(body_of(raw, v)),
            None => GatewayReplyView::Transport("La respuesta de la pasarela no es JSON"@),
        },
    }
}

/// The view of a call's end as the caller hands it in.
pub open spec fn outcome_view(outcome: Result<String, String>) -> Result<Seq<char>, Seq<char>> {
    match outcome {
        Ok(raw) => Ok(raw@),
        Err(message) => Err(message@),
    }
}

fn read_text_at(v: &Value, pointer: &str) -> (r: Option<String>)
    ensures
        r.deep_view() == text_at(*v, pointer@),
{
    match at(v, pointer) {
        Some(node) => match str_of(node) {
            Some(s) => Some(s.to_owned()),
            None => None,
        },
        None => None,
    }
}

fn read_entry(e: &Value) -> (r: SummaryEntry)
    ensures
        r.deep_view() == entry_of(*e),
{
    let kind = match field(e, "type") {
        Some(node) => match str_of(node) {
            Some(s) => Some(s.to_owned()),
            None => None,
        },
        None => None,
    };
    let amount = match field(e, "amount") {
        Some(node) => match f64_bits_of(node) {
            Some(bits) => Some(Amount { bits }),
            None => None,
        },
        None => None,
    };
    let transactions = match field(e, "transactions") {
        Some(node) => i64_of(node),
        None => None,
    };
    SummaryEntry { kind, amount, transactions }
}

fn read_summary(v: &Value) -> (r: Option<Vec<SummaryEntry>>)
    ensures
        r.deep_view() == summary_of(*v),
{
    match at(v, "/body/summary") {
        Some(node) => match items_of(node) {
            Some(items) => {
                let mut entries: Vec<SummaryEntry> = Vec::new();
                let mut i: usize = 0;
                while i < items.len()
                    invariant
                        i <= items.len(),
                        entries.len() == i,
                        forall|k: int|
                            0 <= k < i ==> (#[trigger] entries[k]).deep_view() == entry_of(
                                items[k],
                            ),
                    decreases items.len() - i,
                {
                    entries.push(read_entry(&items[i]));
                    i = i + 1;
                }
                assert(entries.deep_view() =~= Seq::new(
                    items@.len(),
                    |k: int| entry_of(items@[k]),
                ));
                Some(entries)
            },
            None => None,
        },
        None => None,
    }
}

/// Reads the typed fields out of a document that was read from `raw`.
pub fn decode_body(raw: String, v: &Value) -> (r: GatewayBody)
    ensures
        r@ == body_of(raw@, *v),
{
    GatewayBody {
        raw,
        code: read_text_at(v, "/status/code"),
        status: read_text_at(v, "/body/status"),
        token: read_text_at(v, "/body/token"),
        transaction_id: read_text_at(v, "/body/transactionId"),
        summary: read_summary(v),
    }
}

/// Turns the end of a call, as the caller saw it, into a reply: `Ok` with
/// the text of the answer, or `Err` with the reason why none came.
pub fn decode_reply(outcome: Result<String, String>) -> (r: GatewayReply)
    ensures
        r@ == reply_of(outcome_view(outcome)),
{
    match outcome {
        Err(message) => GatewayReply::Transport(message),
        Ok(raw) => match parse(raw.as_str()) {
            Some(v) => GatewayReply::Body(decode_body(raw, &v)),
            None => GatewayReply::Transport("La respuesta de la pasarela no es JSON".to_owned()),
        },
    }
}

} // verus!
