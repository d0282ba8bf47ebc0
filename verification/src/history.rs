//! The history of sent transactions: for each account and network a log
//! that only grows, the oldest record first, stored as a JSON array. A log
//! that is missing or cannot be read counts as empty.

use vstd::prelude::*;
use vstd::string::*;
use crate::json::{
    json_array_text,
    json_elements,
    json_member,
    json_object_text,
    members_view,
    read_elements,
    read_member,
    read_text,
    text_member,
    text_or_null,
    texts_view,
    write_array,
    write_object,
    JsonField,
    JsonFieldView,
    JsonValue,
    JsonValueView,
};
use crate::text::owned;
use crate::transaction::{text_view, StoredTransaction, StoredTransactionView};

verus! {

/// Records as plain values.
pub open spec fn records_view(records: Seq<StoredTransaction>) -> Seq<StoredTransactionView> {
    Seq::new(records.len(), |i: int| records[i]@)
}

/// A member that may be absent: nothing where it is missing or `null`, its
/// text where it is a string; `None` where it is anything else.
pub open spec fn optional_text(field: JsonFieldView) -> Option<Option<Seq<char>>> {
    match field {
        JsonFieldView::Missing => Some(None),
        JsonFieldView::Null => Some(None),
        JsonFieldView::Text(s) => Some(Some(s)),
        _ => None,
    }
}

/// The record that a JSON text holds: an object whose members `type`,
/// `from`, `gas`, `gas_price` and `value` are strings, and whose members
/// `to` and `token_value` are strings where it has them.
pub open spec fn record_of_json(item: Seq<char>) -> Option<StoredTransactionView> {
    if text_member(item, "type"@) is Some && text_member(item, "from"@) is Some && text_member(
        item,
        "gas"@,
    ) is Some && text_member(item, "gas_price"@) is Some && text_member(item, "value"@) is Some
        && optional_text(json_member(item, "to"@)) is Some && optional_text(
        json_member(item, "token_value"@),
    ) is Some {
        Some(
            StoredTransactionView {
                tx_type: text_member(item, "type"@).unwrap(),
                from: text_member(item, "from"@).unwrap(),
                to: optional_text(json_member(item, "to"@)).unwrap(),
                gas: text_member(item, "gas"@).unwrap(),
                gas_price: text_member(item, "gas_price"@).unwrap(),
                value: text_member(item, "value"@).unwrap(),
                token_value: optional_text(json_member(item, "token_value"@)).unwrap(),
            },
        )
    } else {
        None
    }
}

/// The records that JSON texts hold, where each holds one.
pub open spec fn records_of_json(items: Seq<Seq<char>>) -> Option<Seq<StoredTransactionView>>
    decreases items.len(),
{
    if items.len() == 0 {
        Some(Seq::empty())
    } else {
        match (records_of_json(items.drop_last()), record_of_json(items.last())) {
            (Some(front), Some(last)) => Some(front.push(last)),
            _ => None,
        }
    }
}

/// The history that a stored log holds: empty where the log is missing, no
/// JSON array, or holds anything that is no record.
pub open spec fn history_of(stored: Option<Seq<char>>) -> Seq<StoredTransactionView> {
    match stored {
        None => Seq::empty(),
        Some(text) => match json_elements(text) {
            None => Seq::empty(),
            Some(items) => match records_of_json(items) {
                None => Seq::empty(),
                Some(records) => records,
            },
        },
    }
}

/// The members of a record's JSON object.
pub open spec fn record_members(record: StoredTransactionView) -> Seq<(Seq<char>, JsonValueView)> {
    seq![
        ("type"@, JsonValueView::Text(record.tx_type)),
        ("from"@, JsonValueView::Text(record.from)),
        ("to"@, text_or_null(record.to)),
        ("gas"@, JsonValueView::Text(record.gas)),
        ("gas_price"@, JsonValueView::Text(record.gas_price)),
        ("value"@, JsonValueView::Text(record.value)),
        ("token_value"@, text_or_null(record.token_value)),
    ]
}

/// The JSON text of a history.
pub open spec fn history_text(records: Seq<StoredTransactionView>) -> Seq<char> {
    json_array_text(Seq::new(records.len(), |i: int| json_object_text(record_members(records[i]))))
}

fn read_optional(item: &str, name: &str) -> (r: Option<Option<String>>)
    ensures
        r is Some <==> optional_text(json_member(item@, name@)) is Some,
        r matches Some(inner) ==> Some(text_view(inner)) == optional_text(
            json_member(item@, name@),
        ),
{
    match read_member(item, name) {
        JsonField::Missing => Some(None),
        JsonField::Null => Some(None),
        JsonField::Text(s) => Some(Some(s)),
        _ => None,
    }
}

fn optional_value(text: &Option<String>) -> (value: JsonValue)
    ensures
        value@ == text_or_null(text_view(*text)),
{
    match text {
        Some(s) => JsonValue::Text(s.clone()),
        None => JsonValue::Null,
    }
}

/// Reads a record from its JSON text.
pub fn record_from_json(item: &str) -> (r: Option<StoredTransaction>)
    ensures
        r is Some <==> record_of_json(item@) is Some,
        r matches Some(record) ==> Some(record@) == record_of_json(item@),
{
    let tx_type = match read_text(item, "type") {
        None => { return None; },
        Some(s) => s,
    };
    let from = match read_text(item, "from") {
        None => { return None; },
        Some(s) => s,
    };
    let gas = match read_text(item, "gas") {
        None => { return None; },
        Some(s) => s,
    };
    let gas_price = match read_text(item, "gas_price") {
        None => { return None; },
        Some(s) => s,
    };
    let value = match read_text(item, "value") {
        None => { return None; },
        Some(s) => s,
    };
    let to = match read_optional(item, "to") {
        None => { return None; },
        Some(s) => s,
    };
    let token_value = match read_optional(item, "token_value") {
        None => { return None; },
        Some(s) => s,
    };
    Some(StoredTransaction { tx_type, from, to, gas, gas_price, value, token_value })
}

/// A record as JSON text.
pub fn record_to_json(record: &StoredTransaction) -> (text: String)
    ensures
        text@ == json_object_text(record_members(record@)),
{
    let mut members: Vec<(String, JsonValue)> = Vec::new();
    members.push((owned("type"), JsonValue::Text(record.tx_type.clone())));
    members.push((owned("from"), JsonValue::Text(record.from.clone())));
    members.push((owned("to"), optional_value(&record.to)));
    members.push((owned("gas"), JsonValue::Text(record.gas.clone())));
    members.push((owned("gas_price"), JsonValue::Text(record.gas_price.clone())));
    members.push((owned("value"), JsonValue::Text(record.value.clone())));
    members.push((owned("token_value"), optional_value(&record.token_value)));
    proof {
        assert(members_view(members@) =~= record_members(record@));
    }
    write_object(&members)
}

/// Loads the history out of a stored log, the oldest record first. A log
/// that is missing or cannot be read gives the empty history.
pub fn load_history(stored: Option<&str>) -> (records: Vec<StoredTransaction>)
    ensures
        records_view(records@) == history_of(
            match stored {
                Some(t) => Some(t@),
                None => None,
            },
        ),
{
    let text = match stored {
        None => {
            let none: Vec<StoredTransaction> = Vec::new();
            assert(records_view(none@) =~= Seq::<StoredTransactionView>::empty());
            return none;
        },
        Some(t) => t,
    };
    let items = match read_elements(text) {
        None => {
            let none: Vec<StoredTransaction> = Vec::new();
            assert(records_view(none@) =~= Seq::<StoredTransactionView>::empty());
            return none;
        },
        Some(items) => items,
    };
    let mut records: Vec<StoredTransaction> = Vec::new();
    let mut i: usize = 0;
    proof {
        assert(texts_view(items@).take(0) =~= Seq::<Seq<char>>::empty());
        assert(records_view(records@) =~= Seq::<StoredTransactionView>::empty());
    }
    while i < items.len()
        invariant
            i <= items@.len(),
            stored == Some(text),
            json_elements(text@) == Some(texts_view(items@)),
            records_of_json(texts_view(items@).take(i as int)) == Some(records_view(records@)),
        decreases items@.len() - i,
    {
        proof {
            let next = texts_view(items@).take(i + 1);
            assert(next.drop_last() =~= texts_view(items@).take(i as int));
            assert(next.last() == items@[i as int]@);
        }
        match record_from_json(items[i].as_str()) {
            None => {
                proof {
                    let next = texts_view(items@).take(i + 1);
                    assert(next.drop_last() =~= texts_view(items@).take(i as int));
                    assert(next.last() == items@[i as int]@);
                    assert(record_of_json(next.last()) is None);
                    assert(records_of_json(next) is None);
                    lemma_records_none(texts_view(items@), i + 1);
                }
                let none: Vec<StoredTransaction> = Vec::new();
                assert(records_view(none@) =~= Seq::<StoredTransactionView>::empty());
                return none;
            },
            Some(record) => {
                let ghost before = records_view(records@);
                records.push(record);
                proof {
                    assert(records_view(records@) =~= before.push(record@));
                }
            },
        }
        i += 1;
    }
    proof {
        assert(texts_view(items@).take(i as int) =~= texts_view(items@));
    }
    records
}

/// A history as the JSON text in which it is stored.
pub fn history_to_json(records: &Vec<StoredTransaction>) -> (text: String)
    ensures
        text@ == history_text(records_view(records@)),
{
    let mut items: Vec<String> = Vec::new();
    let mut i: usize = 0;
    while i < records.len()
        invariant
            i <= records@.len(),
            items@.len() == i,
            forall|j: int|
                0 <= j < i ==> (#[trigger] items@[j])@ == json_object_text(
                    record_members(records@[j]@),
                ),
        decreases records@.len() - i,
    {
        items.push(record_to_json(&records[i]));
        i += 1;
    }
    proof {
        assert(texts_view(items@) =~= Seq::new(
            records_view(records@).len(),
            |i: int| json_object_text(record_members(records_view(records@)[i])),
        ));
    }
    write_array(&items)
}

/// Appends a record to a stored log: loads the whole history, adds the
/// record at its end and gives the whole log to be stored again.
pub fn append_history(stored: Option<&str>, record: StoredTransaction) -> (text: String)
    ensures
        text@ == history_text(
            history_of(
                match stored {
                    Some(t) => Some(t@),
                    None => None,
                },
            ).push(record@),
        ),
{
    let mut records = load_history(stored);
    let ghost before = records_view(records@);
    records.push(record);
    proof {
        assert(records_view(records@) =~= before.push(record@));
    }
    history_to_json(&records)
}

/// Where one text holds no record, the texts up to it hold no history, nor
/// do any more of them.
pub proof fn lemma_records_none(items: Seq<Seq<char>>, n: int)
    requires
        0 < n <= items.len(),
        records_of_json(items.take(n)) is None,
    ensures
        records_of_json(items) is None,
    decreases items.len() - n,
{
    if n < items.len() {
        assert(items.take(n + 1).drop_last() =~= items.take(n));
        lemma_records_none(items, n + 1);
    } else {
        assert(items.take(n) =~= items);
    }
}

} // verus!
