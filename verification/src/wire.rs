//! The shapes of payloads on the wire: a request that carries one amount, and
//! the JSON text of a balance and of a list of balances.

use crate::decimal::{amount_of, decimal_digits, decode_amount, encode_amount};
use crate::types::{BalanceInfo, BalanceRequest};
use vstd::prelude::*;

verus! {

/// Why a request payload was refused.
#[derive(Clone, Copy, Debug, PartialEq, Eq, Structural)]
pub enum CodecError {
    /// The payload is not a JSON object.
    Malformed,
    /// The payload has a field other than `amount`.
    UnknownField,
    /// The payload has no field `amount`.
    MissingField,
    /// The payload has the field `amount` more than once.
    DuplicateField,
    /// The amount is not a string of decimal digits that fits in 128 bits.
    InvalidAmount,
}

/// The members of the JSON object that `text` is, in the order in which
/// `serde_json` keeps them: each member's name, and its content where its
/// value is a JSON string. `None` where `text` is not a JSON object.
pub uninterp spec fn json_members(text: Seq<char>) -> Option<Seq<(Seq<char>, Option<Seq<char>>)>>;

/// Parses `text` with `serde_json::from_str` into a `serde_json::Map` and
/// hands out its members, each value that is a `serde_json::Value::String`
/// by its content. The contract claims only that the outcome is the one that
/// `json_members` stands for: the same text gives the same members.
#[verifier::external_body]
fn parse_members(text: &str) -> (members: Option<Vec<(String, Option<String>)>>)
    ensures
        members.deep_view() == json_members(text@),
{
    let object = serde_json::from_str::<serde_json::Map<String, serde_json::Value>>(text).ok()?;
    let mut members = Vec::new();
    for (name, value) in object {
        members.push((name, match value {
            serde_json::Value::String(content) => Some(content),
            serde_json::Value::Null => None,
            serde_json::Value::Bool(_) => None,
            serde_json::Value::Number(_) => None,
            serde_json::Value::Array(_) => None,
            serde_json::Value::Object(_) => None,
        }));
    }
    Some(members)
}

/// Some member is named otherwise than `amount`.
pub open spec fn has_unknown_field(members: Seq<(Seq<char>, Option<Seq<char>>)>) -> bool {
    exists|i: int| 0 <= i < members.len() && (#[trigger] members[i]).0 != "amount"@
}

/// The request that a payload's members make up. An unknown field is
/// refused before anything else is looked at.
pub open spec fn request_of(members: Option<Seq<(Seq<char>, Option<Seq<char>>)>>) -> Result<
    BalanceRequest<u128>,
    CodecError,
> {
    match members {
        None => Err(CodecError::Malformed),
        Some(members) => if has_unknown_field(members) {
            Err(CodecError::UnknownField)
        } else if members.len() == 0 {
            Err(CodecError::MissingField)
        } else if members.len() > 1 {
            Err(CodecError::DuplicateField)
        } else {
            match members[0].1 {
                None => Err(CodecError::InvalidAmount),
                Some(content) => match amount_of(content) {
                    None => Err(CodecError::InvalidAmount),
                    Some(amount) => Ok(BalanceRequest { amount }),
                },
            }
        },
    }
}

/// Builds the request from the members of a payload.
pub fn request_from_members(members: Option<Vec<(String, Option<String>)>>) -> (request: Result<
    BalanceRequest<u128>,
    CodecError,
>)
    ensures
        request == request_of(members.deep_view()),
{
    let fields = match members {
        None => { return Err(CodecError::Malformed); },
        Some(fields) => fields,
    };
    let ghost model = fields.deep_view();
    let expected = String::from_str("amount");
    let mut i: usize = 0;
    while i < fields.len()
        invariant
            i <= fields.len(),
            model == fields.deep_view(),
            members.deep_view() == Some(model),
            expected@ == "amount"@,
            forall|j: int| 0 <= j < i ==> (#[trigger] model[j]).0 == "amount"@,
        decreases fields.len() - i,
    {
        if fields[i].0 != expected {
            assert(model[i as int].0 != "amount"@);
            return Err(CodecError::UnknownField);
        }
        i += 1;
    }
    if fields.len() == 0 {
        return Err(CodecError::MissingField);
    }
    if fields.len() > 1 {
        return Err(CodecError::DuplicateField);
    }
    match &fields[0].1 {
        None => Err(CodecError::InvalidAmount),
        Some(content) => match decode_amount(content.as_str()) {
            None => Err(CodecError::InvalidAmount),
            Some(amount) => Ok(BalanceRequest { amount }),
        },
    }
}

/// Reads a request payload: a JSON object whose only field is `amount`, a
/// string of decimal digits.
pub fn decode_balance_request(text: &str) -> (request: Result<BalanceRequest<u128>, CodecError>)
    ensures
        request == request_of(json_members(text@)),
{
    request_from_members(parse_members(text))
}

/// The JSON text of a request: one field `amount`, a string of decimal
/// digits.
pub open spec fn request_text(request: BalanceRequest<u128>) -> Seq<char> {
    "{\"amount\":\""@ + decimal_digits(request.amount as nat) + "\"}"@
}

/// Writes a request as JSON.
pub fn encode_balance_request(request: &BalanceRequest<u128>) -> (text: String)
    ensures
        text@ == request_text(*request),
{
    let mut text = String::from_str("{\"amount\":\"");
    text.append(encode_amount(request.amount).as_str());
    text.append("\"}");
    text
}

/// The JSON text of one balance: the asset as a number, the amount as a
/// string of decimal digits.
pub open spec fn balance_text(info: BalanceInfo<u32, u128>) -> Seq<char> {
    "{\"asset\":"@ + decimal_digits(info.asset as nat) + ",\"amount\":\""@ + decimal_digits(
        info.amount as nat,
    ) + "\"}"@
}

/// The JSON texts of the balances, in their order, with a comma between
/// each two.
pub open spec fn balances_text(items: Seq<BalanceInfo<u32, u128>>) -> Seq<char>
    decreases items.len(),
{
    if items.len() == 0 {
        Seq::empty()
    } else if items.len() == 1 {
        balance_text(items[0])
    } else {
        balances_text(items.drop_last()) + ","@ + balance_text(items.last())
    }
}

/// The JSON text of a list of balances: always an array, `[]` where there is
/// no balance.
pub open spec fn balance_list_text(items: Seq<BalanceInfo<u32, u128>>) -> Seq<char> {
    "["@ + balances_text(items) + "]"@
}

/// Writes one balance as JSON.
pub fn encode_balance_info(info: &BalanceInfo<u32, u128>) -> (text: String)
    ensures
        text@ == balance_text(*info),
{
    let mut text = String::from_str("{\"asset\":");
    text.append(encode_amount(info.asset as u128).as_str());
    text.append(",\"amount\":\"");
    text.append(encode_amount(info.amount).as_str());
    text.append("\"}");
    text
}

/// Writes a list of balances as JSON, in the order given.
pub fn encode_pool_balances(items: &Vec<BalanceInfo<u32, u128>>) -> (text: String)
    ensures
        text@ == balance_list_text(items@),
{
    let mut text = String::from_str("[");
    let mut i: usize = 0;
    while i < items.len()
        invariant
            i <= items.len(),
            text@ == "["@ + balances_text(items@.subrange(0, i as int)),
        decreases items.len() - i,
    {
        let ghost before = items@.subrange(0, i as int);
        let ghost after = items@.subrange(0, i + 1);
        assert(after.drop_last() =~= before);
        if i > 0 {
            text.append(",");
        }
        text.append(encode_balance_info(&items[i]).as_str());
        assert(text@ =~= "["@ + balances_text(after));
        i += 1;
    }
    assert(items@.subrange(0, i as int) =~= items@);
    text.append("]");
    text
}

/// A list without balances is written as the empty array.
pub proof fn lemma_empty_list_text()
    ensures
        balance_list_text(Seq::empty()) == "[]"@,
{
    reveal_strlit("[");
    reveal_strlit("]");
    reveal_strlit("[]");
    assert(balance_list_text(Seq::empty()) =~= "[]"@);
}

/// A payload with a field that is not `amount` is refused, whatever else it
/// holds.
pub proof fn lemma_unknown_field_is_refused(members: Seq<(Seq<char>, Option<Seq<char>>)>)
    requires
        has_unknown_field(members),
    ensures
        request_of(Some(members)) == Err::<BalanceRequest<u128>, CodecError>(
            CodecError::UnknownField,
        ),
{
}

/// A payload is accepted only if it is exactly one field `amount` whose
/// content denotes the amount of the request.
pub proof fn lemma_accepted_request(
    members: Option<Seq<(Seq<char>, Option<Seq<char>>)>>,
    amount: u128,
)
    ensures
        request_of(members) == Ok::<BalanceRequest<u128>, CodecError>(BalanceRequest { amount })
            <==> {
            &&& members is Some
            &&& members->Some_0.len() == 1
            &&& members->Some_0[0].0 == "amount"@
            &&& members->Some_0[0].1 is Some
            &&& amount_of(members->Some_0[0].1->Some_0) == Some(amount)
        },
{
    if members is Some {
        let fields = members->Some_0;
        if fields.len() == 1 && fields[0].0 == "amount"@ {
            assert(!has_unknown_field(fields));
        }
        if !has_unknown_field(fields) && fields.len() >= 1 {
            assert(fields[0].0 == "amount"@);
        }
    }
}

} // verus!
