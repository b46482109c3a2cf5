//! The JSON form in which the record of a payment is kept.
//!
//! A record is written as an object with a member for each field. A preimage, a secret, an amount,
//! a fee, an invoice or a payee that is not there is left out. Reading takes the members in any
//! order and passes over those it does not know; it also takes a list of the eight fields in
//! their order.
use vstd::prelude::*;

use crate::hex::hex;
use crate::json::{
    items_view, lemma_list_view, lemma_object_view, members_view, Json, JsonView, Member,
};
use crate::key::{is_point, key_of_text, PublicKey};
use crate::payment::{HTLCStatus, MillisatAmount, PaymentInfo, PaymentInfoView};

verus! {

/// The value is not the JSON form of a record.
#[derive(Clone, Copy, Debug, PartialEq, Eq)]
pub struct RecordError;

/// The names of the fields, in their order.
pub open spec fn field_names() -> Seq<Seq<char>> {
    seq![
        "preimage"@,
        "secret"@,
        "status"@,
        "amt_msat"@,
        "fee_paid_msat"@,
        "bolt11"@,
        "payee_pubkey"@,
        "last_update"@,
    ]
}

/// The text for a status.
pub open spec fn status_text(status: HTLCStatus) -> Seq<char> {
    match status {
        HTLCStatus::Pending => "Pending"@,
        HTLCStatus::InFlight => "InFlight"@,
        HTLCStatus::Succeeded => "Succeeded"@,
        HTLCStatus::Failed => "Failed"@,
    }
}

/// The value for bytes: the list of their numbers.
pub open spec fn bytes_value(bytes: Seq<u8>) -> JsonView {
    JsonView::List(Seq::new(bytes.len(), |i: int| JsonView::Unsigned(bytes[i] as u64)))
}

/// The values of the fields, in their order; none for a field that is left out.
pub open spec fn field_values(info: PaymentInfoView) -> Seq<Option<JsonView>> {
    seq![
        match info.preimage {
            Some(bytes) => Some(bytes_value(bytes)),
            None => None,
        },
        match info.secret {
            Some(bytes) => Some(bytes_value(bytes)),
            None => None,
        },
        Some(JsonView::Text(status_text(info.status))),
        match info.amt_msat {
            Some(n) => Some(JsonView::Unsigned(n)),
            None => None,
        },
        match info.fee_paid_msat {
            Some(n) => Some(JsonView::Unsigned(n)),
            None => None,
        },
        match info.bolt11 {
            Some(text) => Some(JsonView::Text(text)),
            None => None,
        },
        match info.payee_pubkey {
            Some(bytes) => Some(JsonView::Text(hex(bytes))),
            None => None,
        },
        Some(JsonView::Unsigned(info.last_update)),
    ]
}

/// The member for one field: none where the field is left out.
pub open spec fn member_for(name: Seq<char>, value: Option<JsonView>) -> Seq<
    (Seq<char>, JsonView),
> {
    match value {
        Some(value) => seq![(name, value)],
        None => seq![],
    }
}

/// The members for the fields that are there, in order.
pub open spec fn members_for(names: Seq<Seq<char>>, values: Seq<Option<JsonView>>) -> Seq<
    (Seq<char>, JsonView),
>
    decreases names.len(),
{
    if names.len() == 0 {
        seq![]
    } else {
        members_for(names.drop_last(), values.drop_last()) + member_for(names.last(), values.last())
    }
}

/// The JSON form of a record.
pub open spec fn record_value(info: PaymentInfoView) -> JsonView {
    JsonView::Object(members_for(field_names(), field_values(info)))
}

/// The value of the member `name`: `Some(None)` where there is no such member, `None` where there
/// is more than one.
pub open spec fn find(members: Seq<(Seq<char>, JsonView)>, name: Seq<char>) -> Option<
    Option<JsonView>,
>
    decreases members.len(),
{
    if members.len() == 0 {
        Some(None)
    } else {
        let before = find(members.drop_last(), name);
        if members.last().0 != name {
            before
        } else if before == Some(None::<JsonView>) {
            Some(Some(members.last().1))
        } else {
            None
        }
    }
}

/// The values of the eight fields that a JSON value gives, in their order, if it gives any.
pub open spec fn fields_of(value: JsonView) -> Option<Seq<Option<JsonView>>> {
    match value {
        JsonView::Object(members) => if forall|i: int|
            0 <= i < 8 ==> find(members, #[trigger] field_names()[i]) is Some {
            Some(Seq::new(8, |i: int| find(members, field_names()[i])->0))
        } else {
            None
        },
        JsonView::List(items) => if items.len() == 8 {
            Some(Seq::new(8, |i: int| Some(items[i])))
        } else {
            None
        },
        _ => None,
    }
}

/// 32 bytes as a field gives them: `Some(None)` where it gives none, `None` where it gives
/// something else.
pub open spec fn bytes_field(field: Option<JsonView>) -> Option<Option<Seq<u8>>> {
    match field {
        None | Some(JsonView::Null) => Some(None),
        Some(JsonView::List(items)) => if items.len() == 32 && forall|i: int|
            0 <= i < 32 ==> is_byte(#[trigger] items[i]) {
            Some(Some(Seq::new(32, |i: int| items[i]->Unsigned_0 as u8)))
        } else {
            None
        },
        _ => None,
    }
}

/// Whether a value is the number of a byte.
pub open spec fn is_byte(value: JsonView) -> bool {
    value matches JsonView::Unsigned(n) && n <= 255
}

/// The status that a text or an object with one empty member names.
pub open spec fn status_field(field: Option<JsonView>) -> Option<HTLCStatus> {
    match field {
        Some(JsonView::Text(text)) => status_named(text),
        Some(JsonView::Object(members)) => if members.len() == 1 && members[0].1
            == JsonView::Null {
            status_named(members[0].0)
        } else {
            None
        },
        _ => None,
    }
}

/// The status with this name.
pub open spec fn status_named(text: Seq<char>) -> Option<HTLCStatus> {
    if text == status_text(HTLCStatus::Pending) {
        Some(HTLCStatus::Pending)
    } else if text == status_text(HTLCStatus::InFlight) {
        Some(HTLCStatus::InFlight)
    } else if text == status_text(HTLCStatus::Succeeded) {
        Some(HTLCStatus::Succeeded)
    } else if text == status_text(HTLCStatus::Failed) {
        Some(HTLCStatus::Failed)
    } else {
        None
    }
}

/// A number as a field gives it: `Some(None)` where it gives none.
pub open spec fn number_field(field: Option<JsonView>) -> Option<Option<u64>> {
    match field {
        None | Some(JsonView::Null) => Some(None),
        Some(JsonView::Unsigned(n)) => Some(Some(n)),
        _ => None,
    }
}

/// The amount as a field gives it. It may be null, but it has to be there.
pub open spec fn amount_field(field: Option<JsonView>) -> Option<Option<u64>> {
    match field {
        None => None,
        Some(_) => number_field(field),
    }
}

/// A text as a field gives it: `Some(None)` where it gives none.
pub open spec fn text_field(field: Option<JsonView>) -> Option<Option<Seq<char>>> {
    match field {
        None | Some(JsonView::Null) => Some(None),
        Some(JsonView::Text(text)) => Some(Some(text)),
        _ => None,
    }
}

/// A key as a field gives it: `Some(None)` where it gives none.
pub open spec fn key_field(field: Option<JsonView>) -> Option<Option<Seq<u8>>> {
    match text_field(field) {
        None => None,
        Some(None) => Some(None),
        Some(Some(text)) => match key_of_text(text) {
            Some(key) => Some(Some(key)),
            None => None,
        },
    }
}

/// A time as a field gives it; it has to be there.
pub open spec fn time_field(field: Option<JsonView>) -> Option<u64> {
    match field {
        Some(JsonView::Unsigned(n)) => Some(n),
        _ => None,
    }
}

/// The record that the values of the fields make, if each of them can be read.
pub open spec fn record_of_fields(fields: Seq<Option<JsonView>>) -> Option<PaymentInfoView> {
    match (
        bytes_field(fields[0]),
        bytes_field(fields[1]),
        status_field(fields[2]),
        amount_field(fields[3]),
        number_field(fields[4]),
        text_field(fields[5]),
        key_field(fields[6]),
        time_field(fields[7]),
    ) {
        (
            Some(preimage),
            Some(secret),
            Some(status),
            Some(amt_msat),
            Some(fee_paid_msat),
            Some(bolt11),
            Some(payee_pubkey),
            Some(last_update),
        ) => Some(
            PaymentInfoView {
                preimage,
                secret,
                status,
                amt_msat,
                fee_paid_msat,
                bolt11,
                payee_pubkey,
                last_update,
            },
        ),
        _ => None,
    }
}

/// The record of which a JSON value is a form, if there is one.
pub open spec fn record_of(value: JsonView) -> Option<PaymentInfoView> {
    match fields_of(value) {
        Some(fields) => record_of_fields(fields),
        None => None,
    }
}

/// The names of the fields are eight different ones.
pub proof fn lemma_field_names()
    ensures
        field_names().len() == 8,
        field_names().no_duplicates(),
{
    reveal_strlit("preimage");
    reveal_strlit("secret");
    reveal_strlit("status");
    reveal_strlit("amt_msat");
    reveal_strlit("fee_paid_msat");
    reveal_strlit("bolt11");
    reveal_strlit("payee_pubkey");
    reveal_strlit("last_update");
    assert("preimage"@[0] == 'p' && "amt_msat"@[0] == 'a');
    assert("secret"@[1] == 'e' && "status"@[1] == 't' && "bolt11"@[1] == 'o');
    assert("preimage"@.len() == 8 && "amt_msat"@.len() == 8);
    assert("secret"@.len() == 6 && "status"@.len() == 6 && "bolt11"@.len() == 6);
    assert("last_update"@.len() == 11 && "payee_pubkey"@.len() == 12);
    assert("fee_paid_msat"@.len() == 13);
}

/// The texts of the statuses are four different ones.
proof fn lemma_status_texts(status: HTLCStatus)
    ensures
        status_named(status_text(status)) == Some(status),
{
    reveal_strlit("Pending");
    reveal_strlit("InFlight");
    reveal_strlit("Succeeded");
    reveal_strlit("Failed");
    assert("Pending"@.len() == 7 && "InFlight"@.len() == 8);
    assert("Succeeded"@.len() == 9 && "Failed"@.len() == 6);
}

/// Looking in two runs of members, of which only the first can have the name.
proof fn lemma_find_concat(
    a: Seq<(Seq<char>, JsonView)>,
    b: Seq<(Seq<char>, JsonView)>,
    name: Seq<char>,
)
    requires
        forall|i: int| 0 <= i < b.len() ==> (#[trigger] b[i]).0 != name,
    ensures
        find(a + b, name) == find(a, name),
    decreases b.len(),
{
    if b.len() == 0 {
        assert(a + b =~= a);
    } else {
        assert((a + b).drop_last() =~= a + b.drop_last());
        assert((a + b).last() == b.last());
        assert(b.last() == b[b.len() - 1]);
        assert forall|i: int| 0 <= i < b.drop_last().len() implies (#[trigger] b.drop_last()[i]).0
            != name by {
            assert(b.drop_last()[i] == b[i]);
        }
        lemma_find_concat(a, b.drop_last(), name);
    }
}

/// A name that no field has is not found.
proof fn lemma_find_absent(
    names: Seq<Seq<char>>,
    values: Seq<Option<JsonView>>,
    name: Seq<char>,
)
    requires
        names.len() == values.len(),
        !names.contains(name),
    ensures
        find(members_for(names, values), name) == Some(None::<JsonView>),
    decreases names.len(),
{
    if names.len() > 0 {
        assert(names.last() == names[names.len() - 1]);
        assert(!names.drop_last().contains(name)) by {
            assert forall|i: int| 0 <= i < names.drop_last().len() implies names.drop_last()[i]
                != name by {
                assert(names.drop_last()[i] == names[i]);
            }
        }
        lemma_find_absent(names.drop_last(), values.drop_last(), name);
        lemma_find_concat(
            members_for(names.drop_last(), values.drop_last()),
            member_for(names.last(), values.last()),
            name,
        );
    }
}

/// What was written under a name is found under it.
proof fn lemma_find_present(names: Seq<Seq<char>>, values: Seq<Option<JsonView>>, i: int)
    requires
        names.len() == values.len(),
        names.no_duplicates(),
        0 <= i < names.len(),
    ensures
        find(members_for(names, values), names[i]) == Some(values[i]),
    decreases names.len(),
{
    let names0 = names.drop_last();
    let values0 = values.drop_last();
    let last = member_for(names.last(), values.last());
    let before = members_for(names0, values0);
    if i == names.len() - 1 {
        assert(!names0.contains(names[i])) by {
            assert forall|j: int| 0 <= j < names0.len() implies names0[j] != names[i] by {
                assert(names0[j] == names[j]);
            }
        }
        lemma_find_absent(names0, values0, names[i]);
        match values.last() {
            Some(value) => {
                assert((before + last).drop_last() =~= before);
                assert((before + last).last() == (names.last(), value));
            },
            None => {
                assert(before + last =~= before);
            },
        }
    } else {
        assert(names0.no_duplicates()) by {
            assert forall|j: int, k: int|
                0 <= j < names0.len() && 0 <= k < names0.len() && j != k implies names0[j]
                != names0[k] by {
                assert(names0[j] == names[j] && names0[k] == names[k]);
            }
        }
        lemma_find_present(names0, values0, i);
        assert(names0[i] == names[i] && values0[i] == values[i]);
        assert(names[i] != names.last());
        lemma_find_concat(before, last, names[i]);
    }
}

/// The fields of a record are found in its JSON form.
proof fn lemma_fields_of_record(info: PaymentInfoView)
    ensures
        fields_of(record_value(info)) == Some(field_values(info)),
{
    lemma_field_names();
    let members = members_for(field_names(), field_values(info));
    assert forall|i: int| 0 <= i < 8 implies find(members, #[trigger] field_names()[i]) == Some(
        field_values(info)[i],
    ) by {
        lemma_find_present(field_names(), field_values(info), i);
    }
    assert(fields_of(record_value(info))->0 =~= field_values(info));
}

/// Bytes are read back from their list.
proof fn lemma_bytes_back(bytes: Seq<u8>)
    requires
        bytes.len() == 32,
    ensures
        bytes_field(Some(bytes_value(bytes))) == Some(Some(bytes)),
{
    let items = bytes_value(bytes)->List_0;
    assert forall|i: int| 0 <= i < 32 implies is_byte(#[trigger] items[i]) by {}
    assert(bytes_field(Some(bytes_value(bytes)))->0->0 =~= bytes);
}

/// A record is read back from its JSON form as it was, provided that its amount is known.
pub proof fn law_record_round_trip(info: PaymentInfoView)
    requires
        info.wf(),
        info.amt_msat is Some,
    ensures
        record_of(record_value(info)) == Some(info),
{
    lemma_fields_of_record(info);
    lemma_status_texts(info.status);
    if info.preimage is Some {
        lemma_bytes_back(info.preimage->0);
    }
    if info.secret is Some {
        lemma_bytes_back(info.secret->0);
    }
    assert(record_of(record_value(info))->0 =~= info);
}

/// A record without an amount is not read back: its JSON form leaves the amount out, and reading
/// insists on it.
pub proof fn law_record_without_amount(info: PaymentInfoView)
    requires
        info.amt_msat is None,
    ensures
        record_of(record_value(info)) is None,
{
    lemma_fields_of_record(info);
}

/// What a field gives, apart from how it is held.
pub open spec fn field_view(field: Option<&Json>) -> Option<JsonView> {
    match field {
        Some(value) => Some(value@),
        None => None,
    }
}

/// Makes the list of the numbers of 32 bytes.
fn write_bytes(bytes: &[u8; 32]) -> (value: Json)
    ensures
        value@ == bytes_value(bytes@),
{
    let mut items: Vec<Json> = Vec::new();
    let mut i: usize = 0;
    while i < 32
        invariant
            i <= 32,
            items@.len() == i,
            forall|j: int|
                0 <= j < i ==> (#[trigger] items@[j])@ == JsonView::Unsigned(bytes@[j] as u64),
        decreases 32 - i,
    {
        items.push(Json::Unsigned(bytes[i] as u64));
        i = i + 1;
    }
    proof {
        lemma_list_view(items);
        assert(items_view(items@) =~= bytes_value(bytes@)->List_0);
    }
    Json::List(items)
}

/// Makes the value for a field of 32 bytes.
fn write_bytes_field(bytes: &Option<[u8; 32]>) -> (value: Option<Json>)
    ensures
        match (bytes, value) {
            (Some(bytes), Some(value)) => value@ == bytes_value(bytes@),
            (None, None) => true,
            _ => false,
        },
{
    match bytes {
        Some(bytes) => Some(write_bytes(bytes)),
        None => None,
    }
}

/// The value for a field, apart from how it is held.
pub open spec fn value_view(value: Option<Json>) -> Option<JsonView> {
    match value {
        Some(value) => Some(value@),
        None => None,
    }
}

/// Adds the member for a field, if the field is there.
fn write_field(members: &mut Vec<Member>, name: &str, value: Option<Json>)
    ensures
        members_view(final(members)@) == members_view(old(members)@) + member_for(
            name@,
            value_view(value),
        ),
{
    match value {
        Some(value) => {
            members.push(Member { name: name.to_owned(), value });
        },
        None => {},
    }
    assert(members_view(members@) =~= members_view(old(members)@) + member_for(
        name@,
        value_view(value),
    ));
}

/// The text for a status.
fn write_status(status: HTLCStatus) -> (text: String)
    ensures
        text@ == status_text(status),
{
    match status {
        HTLCStatus::Pending => "Pending".to_owned(),
        HTLCStatus::InFlight => "InFlight".to_owned(),
        HTLCStatus::Succeeded => "Succeeded".to_owned(),
        HTLCStatus::Failed => "Failed".to_owned(),
    }
}

/// The members for one field more.
pub proof fn lemma_members_step(names: Seq<Seq<char>>, values: Seq<Option<JsonView>>, n: int)
    requires
        0 <= n < names.len(),
        names.len() == values.len(),
    ensures
        members_for(names.take(n + 1), values.take(n + 1)) == members_for(
            names.take(n),
            values.take(n),
        ) + member_for(names[n], values[n]),
{
    assert(names.take(n + 1).drop_last() =~= names.take(n));
    assert(values.take(n + 1).drop_last() =~= values.take(n));
}

/// Finds the member with this name; an error where there is more than one.
fn read_member<'a>(members: &'a Vec<Member>, name: &str) -> (found: Result<
    Option<&'a Json>,
    RecordError,
>)
    ensures
        match found {
            Ok(field) => find(members_view(members@), name@) == Some(field_view(field)),
            Err(_) => find(members_view(members@), name@) is None,
        },
{
    let name = name.to_owned();
    let mut found: Option<&'a Json> = None;
    let mut twice = false;
    let mut i: usize = 0;
    let ghost view = members_view(members@);
    assert(find(view.take(0), name@) == Some(None::<JsonView>));
    while i < members.len()
        invariant
            i <= members@.len(),
            view == members_view(members@),
            find(view.take(i as int), name@) == if twice {
                None
            } else {
                Some(field_view(found))
            },
        decreases members@.len() - i,
    {
        proof {
            assert(view.take(i + 1).drop_last() =~= view.take(i as int));
            assert(view.take(i + 1).last() == view[i as int]);
        }
        if members[i].name == name {
            if found.is_some() {
                twice = true;
            } else {
                found = Some(&members[i].value);
            }
        }
        i = i + 1;
    }
    assert(view.take(i as int) =~= view);
    if twice {
        Err(RecordError)
    } else {
        Ok(found)
    }
}

/// Reads a field of 32 bytes.
fn read_bytes(field: Option<&Json>) -> (bytes: Result<Option<[u8; 32]>, RecordError>)
    ensures
        match bytes {
            Ok(Some(bytes)) => bytes_field(field_view(field)) == Some(Some(bytes@)),
            Ok(None) => bytes_field(field_view(field)) == Some(None::<Seq<u8>>),
            Err(_) => bytes_field(field_view(field)) is None,
        },
{
    match field {
        None => Ok(None),
        Some(Json::Null) => Ok(None),
        Some(Json::List(items)) => {
            proof {
                lemma_list_view(*items);
            }
            if items.len() != 32 {
                return Err(RecordError);
            }
            let mut bytes: [u8; 32] = [0u8; 32];
            let mut i: usize = 0;
            while i < 32
                invariant
                    i <= 32,
                    items@.len() == 32,
                    field_view(field) == Some(JsonView::List(items_view(items@))),
                    forall|j: int|
                        0 <= j < i ==> items_view(items@)[j] == JsonView::Unsigned(
                            #[trigger] bytes@[j] as u64,
                        ),
                decreases 32 - i,
            {
                let ghost item = items_view(items@)[i as int];
                match &items[i] {
                    Json::Unsigned(n) if *n <= 255 => {
                        bytes[i] = *n as u8;
                    },
                    _ => {
                        assert(!is_byte(item));
                        return Err(RecordError);
                    },
                }
                i = i + 1;
            }
            proof {
                let view = items_view(items@);
                assert forall|j: int| 0 <= j < 32 implies is_byte(#[trigger] view[j]) by {
                    assert(view[j] == JsonView::Unsigned(bytes@[j] as u64));
                }
                assert(bytes_field(field_view(field))->0->0 =~= bytes@);
            }
            Ok(Some(bytes))
        },
        _ => Err(RecordError),
    }
}

/// Reads the name of a status.
fn read_status_name(text: &String) -> (status: Result<HTLCStatus, RecordError>)
    ensures
        match status {
            Ok(status) => status_named(text@) == Some(status),
            Err(_) => status_named(text@) is None,
        },
{
    if *text == write_status(HTLCStatus::Pending) {
        Ok(HTLCStatus::Pending)
    } else if *text == write_status(HTLCStatus::InFlight) {
        Ok(HTLCStatus::InFlight)
    } else if *text == write_status(HTLCStatus::Succeeded) {
        Ok(HTLCStatus::Succeeded)
    } else if *text == write_status(HTLCStatus::Failed) {
        Ok(HTLCStatus::Failed)
    } else {
        Err(RecordError)
    }
}

/// Reads the field of the status.
fn read_status(field: Option<&Json>) -> (status: Result<HTLCStatus, RecordError>)
    ensures
        match status {
            Ok(status) => status_field(field_view(field)) == Some(status),
            Err(_) => status_field(field_view(field)) is None,
        },
{
    match field {
        Some(Json::Text(text)) => read_status_name(text),
        Some(Json::Object(members)) => {
            proof {
                lemma_object_view(*members);
            }
            if members.len() != 1 {
                return Err(RecordError);
            }
            match &members[0].value {
                Json::Null => read_status_name(&members[0].name),
                _ => Err(RecordError),
            }
        },
        _ => Err(RecordError),
    }
}

/// Reads a field of a number that can be left out.
fn read_number(field: Option<&Json>) -> (number: Result<Option<u64>, RecordError>)
    ensures
        match number {
            Ok(number) => number_field(field_view(field)) == Some(number),
            Err(_) => number_field(field_view(field)) is None,
        },
{
    match field {
        None => Ok(None),
        Some(Json::Null) => Ok(None),
        Some(Json::Unsigned(n)) => Ok(Some(*n)),
        _ => Err(RecordError),
    }
}

/// Reads the field of the amount.
fn read_amount(field: Option<&Json>) -> (amount: Result<Option<u64>, RecordError>)
    ensures
        match amount {
            Ok(amount) => amount_field(field_view(field)) == Some(amount),
            Err(_) => amount_field(field_view(field)) is None,
        },
{
    match field {
        None => Err(RecordError),
        Some(_) => read_number(field),
    }
}

/// Reads a field of a text that can be left out.
fn read_text(field: Option<&Json>) -> (text: Result<Option<String>, RecordError>)
    ensures
        match text {
            Ok(Some(text)) => text_field(field_view(field)) == Some(Some(text@)),
            Ok(None) => text_field(field_view(field)) == Some(None::<Seq<char>>),
            Err(_) => text_field(field_view(field)) is None,
        },
{
    match field {
        None => Ok(None),
        Some(Json::Null) => Ok(None),
        Some(Json::Text(text)) => Ok(Some(text.clone())),
        _ => Err(RecordError),
    }
}

/// Reads the field of a key.
fn read_key(field: Option<&Json>) -> (key: Result<Option<PublicKey>, RecordError>)
    ensures
        match key {
            Ok(Some(key)) => key_field(field_view(field)) == Some(Some(key@)) && is_point(key@),
            Ok(None) => key_field(field_view(field)) == Some(None::<Seq<u8>>),
            Err(_) => key_field(field_view(field)) is None,
        },
{
    match read_text(field) {
        Ok(Some(text)) => match PublicKey::parse(text.as_str()) {
            Some(key) => Ok(Some(key)),
            None => Err(RecordError),
        },
        Ok(None) => Ok(None),
        Err(error) => Err(error),
    }
}

/// Reads the field of the time.
fn read_time(field: Option<&Json>) -> (time: Result<u64, RecordError>)
    ensures
        match time {
            Ok(time) => time_field(field_view(field)) == Some(time),
            Err(_) => time_field(field_view(field)) is None,
        },
{
    match field {
        Some(Json::Unsigned(n)) => Ok(*n),
        _ => Err(RecordError),
    }
}

/// What the eight fields give, apart from how it is held.
pub open spec fn fields_view(fields: [Option<&Json>; 8]) -> Seq<Option<JsonView>> {
    Seq::new(8, |i: int| field_view(fields@[i]))
}

/// Reads a record from the values of its fields.
fn read_fields(fields: [Option<&Json>; 8]) -> (info: Result<PaymentInfo, RecordError>)
    ensures
        match info {
            Ok(info) => record_of_fields(fields_view(fields)) == Some(info@) && info@.wf(),
            Err(_) => record_of_fields(fields_view(fields)) is None,
        },
{
    match (
        read_bytes(fields[0]),
        read_bytes(fields[1]),
        read_status(fields[2]),
        read_amount(fields[3]),
        read_number(fields[4]),
        read_text(fields[5]),
        read_key(fields[6]),
        read_time(fields[7]),
    ) {
        (
            Ok(preimage),
            Ok(secret),
            Ok(status),
            Ok(amount),
            Ok(fee_paid_msat),
            Ok(bolt11),
            Ok(payee_pubkey),
            Ok(last_update),
        ) => Ok(
            PaymentInfo {
                preimage,
                secret,
                status,
                amt_msat: MillisatAmount(amount),
                fee_paid_msat,
                bolt11,
                payee_pubkey,
                last_update,
            },
        ),
        _ => Err(RecordError),
    }
}

impl PaymentInfo {
    /// The JSON form of the record.
    pub fn to_value(&self) -> (value: Json)
        ensures
            value@ == record_value(self@),
            self.amt_msat.0 is Some ==> record_of(value@) == Some(self@),
    {
        let mut members: Vec<Member> = Vec::new();
        let ghost names = field_names();
        let ghost values = field_values(self@);
        assert(members_view(members@) =~= members_for(names.take(0), values.take(0)));

        write_field(&mut members, "preimage", write_bytes_field(&self.preimage));
        proof {
            lemma_members_step(names, values, 0);
        }
        write_field(&mut members, "secret", write_bytes_field(&self.secret));
        proof {
            lemma_members_step(names, values, 1);
        }
        write_field(&mut members, "status", Some(Json::Text(write_status(self.status))));
        proof {
            lemma_members_step(names, values, 2);
        }
        let amount = match self.amt_msat.0 {
            Some(n) => Some(Json::Unsigned(n)),
            None => None,
        };
        write_field(&mut members, "amt_msat", amount);
        proof {
            lemma_members_step(names, values, 3);
        }
        let fee = match self.fee_paid_msat {
            Some(n) => Some(Json::Unsigned(n)),
            None => None,
        };
        write_field(&mut members, "fee_paid_msat", fee);
        proof {
            lemma_members_step(names, values, 4);
        }
        let invoice = match &self.bolt11 {
            Some(text) => Some(Json::Text(text.clone())),
            None => None,
        };
        write_field(&mut members, "bolt11", invoice);
        proof {
            lemma_members_step(names, values, 5);
        }
        let payee = match &self.payee_pubkey {
            Some(key) => Some(Json::Text(key.to_hex())),
            None => None,
        };
        write_field(&mut members, "payee_pubkey", payee);
        proof {
            lemma_members_step(names, values, 6);
        }
        write_field(&mut members, "last_update", Some(Json::Unsigned(self.last_update)));
        proof {
            lemma_members_step(names, values, 7);
            assert(names.take(8) =~= names && values.take(8) =~= values);
            lemma_object_view(members);
            if self.amt_msat.0 is Some {
                law_record_round_trip(self@);
            }
        }
        Json::Object(members)
    }

    /// Reads a record from its JSON form.
    pub fn from_value(value: &Json) -> (info: Result<PaymentInfo, RecordError>)
        ensures
            match info {
                Ok(info) => record_of(value@) == Some(info@) && info@.wf(),
                Err(_) => record_of(value@) is None,
            },
    {
        match value {
            Json::Object(members) => {
                proof {
                    lemma_object_view(*members);
                }
                match (
                    read_member(members, "preimage"),
                    read_member(members, "secret"),
                    read_member(members, "status"),
                    read_member(members, "amt_msat"),
                    read_member(members, "fee_paid_msat"),
                    read_member(members, "bolt11"),
                    read_member(members, "payee_pubkey"),
                    read_member(members, "last_update"),
                ) {
                    (Ok(f0), Ok(f1), Ok(f2), Ok(f3), Ok(f4), Ok(f5), Ok(f6), Ok(f7)) => {
                        let fields = [f0, f1, f2, f3, f4, f5, f6, f7];
                        assert(fields_of(value@)->0 =~= fields_view(fields));
                        read_fields(fields)
                    },
                    _ => Err(RecordError),
                }
            },
            Json::List(items) => {
                proof {
                    lemma_list_view(*items);
                }
                if items.len() != 8 {
                    return Err(RecordError);
                }
                let fields = [
                    Some(&items[0]),
                    Some(&items[1]),
                    Some(&items[2]),
                    Some(&items[3]),
                    Some(&items[4]),
                    Some(&items[5]),
                    Some(&items[6]),
                    Some(&items[7]),
                ];
                assert(fields_of(value@)->0 =~= fields_view(fields));
                read_fields(fields)
            },
            _ => Err(RecordError),
        }
    }
}

} // verus!
