//! What the JSON form of a record leaves to its writer, and which records it keeps.
use vstd::prelude::*;

use crate::hex::hex;
use crate::json::JsonView;
use crate::key::{is_point, key_of_text, PublicKey};
use crate::payment::{
    claimed_record, failed_record, sent_record, HTLCStatus, PaymentInfo, PaymentInfoView,
    PaymentPurpose,
};
use crate::record::{
    bytes_field, bytes_value, field_names, field_values, fields_of, find, is_byte,
    law_record_round_trip, lemma_field_names, lemma_members_step, members_for, record_of,
    record_value, status_field, status_named, status_text,
};

verus! {

/// What is found once one member more has been looked at.
spec fn found_with(
    before: Option<Option<JsonView>>,
    member: (Seq<char>, JsonView),
    name: Seq<char>,
) -> Option<Option<JsonView>> {
    if member.0 != name {
        before
    } else if before == Some(None::<JsonView>) {
        Some(Some(member.1))
    } else {
        None
    }
}

/// It does not matter at which place a member is looked at.
proof fn lemma_find_remove(members: Seq<(Seq<char>, JsonView)>, i: int, name: Seq<char>)
    requires
        0 <= i < members.len(),
    ensures
        find(members, name) == found_with(find(members.remove(i), name), members[i], name),
    decreases members.len(),
{
    if i == members.len() - 1 {
        assert(members.remove(i) =~= members.drop_last());
    } else {
        let rest = members.drop_last();
        lemma_find_remove(rest, i, name);
        assert(members.remove(i).drop_last() =~= rest.remove(i));
        assert(members.remove(i).last() == members.last());
        assert(rest[i] == members[i]);
    }
}

/// The same members in another order give the same under each name.
proof fn lemma_find_reordered(
    a: Seq<(Seq<char>, JsonView)>,
    b: Seq<(Seq<char>, JsonView)>,
    name: Seq<char>,
)
    requires
        a.to_multiset() == b.to_multiset(),
    ensures
        find(a, name) == find(b, name),
    decreases a.len(),
{
    a.to_multiset_ensures();
    b.to_multiset_ensures();
    if a.len() > 0 {
        assert(a.contains(a[a.len() - 1]));
        assert(b.to_multiset().count(a.last()) > 0);
        let i = b.index_of(a.last());
        assert(a.drop_last() =~= a.remove(a.len() - 1));
        assert(a.drop_last().to_multiset() == b.remove(i).to_multiset());
        lemma_find_reordered(a.drop_last(), b.remove(i), name);
        lemma_find_remove(b, i, name);
    }
}

/// The members of an object may stand in any order.
pub proof fn law_member_order_is_free(
    a: Seq<(Seq<char>, JsonView)>,
    b: Seq<(Seq<char>, JsonView)>,
)
    requires
        a.to_multiset() == b.to_multiset(),
    ensures
        record_of(JsonView::Object(a)) == record_of(JsonView::Object(b)),
{
    assert forall|i: int| 0 <= i < 8 implies find(a, #[trigger] field_names()[i]) == find(
        b,
        field_names()[i],
    ) by {
        lemma_find_reordered(a, b, field_names()[i]);
    }
    if fields_of(JsonView::Object(a)) is Some {
        assert(fields_of(JsonView::Object(a))->0 =~= fields_of(JsonView::Object(b))->0);
    }
}

/// A member with a name that is no field's says nothing about the record.
pub proof fn law_unknown_members_are_passed_over(
    members: Seq<(Seq<char>, JsonView)>,
    unknown: (Seq<char>, JsonView),
)
    requires
        !field_names().contains(unknown.0),
    ensures
        record_of(JsonView::Object(members.push(unknown))) == record_of(JsonView::Object(members)),
{
    let a = members.push(unknown);
    assert(a.drop_last() =~= members);
    assert forall|i: int| 0 <= i < 8 implies find(a, #[trigger] field_names()[i]) == find(
        members,
        field_names()[i],
    ) by {
        assert(field_names().contains(field_names()[i]));
    }
    if fields_of(JsonView::Object(a)) is Some {
        assert(fields_of(JsonView::Object(a))->0 =~= fields_of(JsonView::Object(members))->0);
    }
}

/// The record of a claimed payment is read back as it was, also where the record before it had no
/// amount.
pub proof fn law_claimed_records_are_kept(
    saved: Option<PaymentInfo>,
    receiver_node_id: Option<PublicKey>,
    purpose: PaymentPurpose,
    amount_msat: u64,
    now: u64,
)
    requires
        saved matches Some(info) ==> info@.wf(),
        receiver_node_id matches Some(key) ==> is_point(key@),
    ensures
        ({
            let info = claimed_record(saved, receiver_node_id, purpose, amount_msat, now);
            record_of(record_value(info@)) == Some(info@)
        }),
{
    let info = claimed_record(saved, receiver_node_id, purpose, amount_msat, now);
    law_record_round_trip(info@);
}

/// An outgoing payment whose record has an amount keeps a record that is read back as it was,
/// whether the payment arrives or fails.
pub proof fn law_outgoing_records_are_kept(
    saved: PaymentInfo,
    payment_preimage: [u8; 32],
    fee_paid_msat: Option<u64>,
    now: u64,
)
    requires
        saved@.wf(),
        saved.amt_msat.0 is Some,
    ensures
        ({
            let sent = sent_record(saved, payment_preimage, fee_paid_msat, now);
            let failed = failed_record(saved, now);
            &&& record_of(record_value(sent@)) == Some(sent@)
            &&& record_of(record_value(failed@)) == Some(failed@)
        }),
{
    law_record_round_trip(sent_record(saved, payment_preimage, fee_paid_msat, now)@);
    law_record_round_trip(failed_record(saved, now)@);
}

/// What was found is the member with the name, of which there is no second one.
proof fn lemma_found(members: Seq<(Seq<char>, JsonView)>, name: Seq<char>)
    requires
        find(members, name) is Some,
    ensures
        find(members, name)->0 is Some <==> exists|j: int|
            0 <= j < members.len() && (#[trigger] members[j]).0 == name,
        forall|j: int|
            0 <= j < members.len() && (#[trigger] members[j]).0 == name ==> find(members, name)
                == Some(Some(members[j].1)),
        forall|j: int, k: int|
            0 <= j < k < members.len() && (#[trigger] members[j]).0 == name ==> (
            #[trigger] members[k]).0 != name,
    decreases members.len(),
{
    if members.len() > 0 {
        let rest = members.drop_last();
        let last = members.len() - 1;
        assert(members[last] == members.last());
        lemma_found(rest, name);
        assert forall|j: int| 0 <= j < last implies rest[j] == #[trigger] members[j] by {}
        if find(rest, name)->0 is Some {
            let j = choose|j: int| 0 <= j < rest.len() && (#[trigger] rest[j]).0 == name;
            assert(members[j].0 == name);
        }
    }
}

/// A name that no two members have can be looked for.
proof fn lemma_findable(members: Seq<(Seq<char>, JsonView)>, name: Seq<char>)
    requires
        forall|j: int, k: int|
            0 <= j < k < members.len() && (#[trigger] members[j]).0 == name ==> (
            #[trigger] members[k]).0 != name,
    ensures
        find(members, name) is Some,
    decreases members.len(),
{
    if members.len() > 0 {
        let rest = members.drop_last();
        let last = members.len() - 1;
        assert(members[last] == members.last());
        assert forall|j: int| 0 <= j < last implies rest[j] == #[trigger] members[j] by {}
        lemma_findable(rest, name);
        lemma_found(rest, name);
        if find(rest, name)->0 is Some {
            let j = choose|j: int| 0 <= j < rest.len() && (#[trigger] rest[j]).0 == name;
            assert(members[j].0 == name);
        }
    }
}

/// A record is written with these members and no others, in this order: those that are always
/// there, and of the rest those that the record holds.
pub proof fn law_record_is_written_field_by_field(info: PaymentInfo)
    ensures
        record_value(info@) == JsonView::Object(
            (match info.preimage {
                Some(bytes) => seq![
                    (
                        "preimage"@,
                        JsonView::List(Seq::new(32, |i: int| JsonView::Unsigned(bytes@[i] as u64))),
                    ),
                ],
                None => seq![],
            }) + (match info.secret {
                Some(bytes) => seq![
                    (
                        "secret"@,
                        JsonView::List(Seq::new(32, |i: int| JsonView::Unsigned(bytes@[i] as u64))),
                    ),
                ],
                None => seq![],
            }) + seq![
                (
                    "status"@,
                    JsonView::Text(
                        match info.status {
                            HTLCStatus::Pending => "Pending"@,
                            HTLCStatus::InFlight => "InFlight"@,
                            HTLCStatus::Succeeded => "Succeeded"@,
                            HTLCStatus::Failed => "Failed"@,
                        },
                    ),
                ),
            ] + (match info.amt_msat.0 {
                Some(n) => seq![("amt_msat"@, JsonView::Unsigned(n))],
                None => seq![],
            }) + (match info.fee_paid_msat {
                Some(n) => seq![("fee_paid_msat"@, JsonView::Unsigned(n))],
                None => seq![],
            }) + (match info.bolt11 {
                Some(text) => seq![("bolt11"@, JsonView::Text(text@))],
                None => seq![],
            }) + (match info.payee_pubkey {
                Some(key) => seq![("payee_pubkey"@, JsonView::Text(hex(key@)))],
                None => seq![],
            }) + seq![("last_update"@, JsonView::Unsigned(info.last_update))],
        ),
{
    let names = field_names();
    let values = field_values(info@);
    lemma_members_step(names, values, 0);
    lemma_members_step(names, values, 1);
    lemma_members_step(names, values, 2);
    lemma_members_step(names, values, 3);
    lemma_members_step(names, values, 4);
    lemma_members_step(names, values, 5);
    lemma_members_step(names, values, 6);
    lemma_members_step(names, values, 7);
    assert(names.take(8) =~= names && values.take(8) =~= values);
    assert(members_for(names.take(0), values.take(0)) =~= seq![]);
    if let Some(bytes) = info.preimage {
        assert(bytes_value(bytes@)->List_0 =~= Seq::new(
            32,
            |i: int| JsonView::Unsigned(bytes@[i] as u64),
        ));
    }
    if let Some(bytes) = info.secret {
        assert(bytes_value(bytes@)->List_0 =~= Seq::new(
            32,
            |i: int| JsonView::Unsigned(bytes@[i] as u64),
        ));
    }
}

/// What is read of an object is what its members say, each under its own name. A field without a
/// member is not there. The status, the amount and the time have to have one; an amount, and every
/// field that can be missing, can also be null.
pub proof fn law_record_says_what_was_read(
    members: Seq<(Seq<char>, JsonView)>,
    info: PaymentInfoView,
)
    requires
        record_of(JsonView::Object(members)) == Some(info),
    ensures
        forall|j: int| #![trigger members[j]] 0 <= j < members.len() ==> {
            let (name, value) = members[j];
            &&& name == "preimage"@ ==> {
                ||| value == JsonView::Null && info.preimage is None
                ||| {
                    &&& value matches JsonView::List(items)
                    &&& info.preimage matches Some(bytes)
                    &&& items.len() == 32 && bytes.len() == 32
                    &&& forall|k: int|
                        0 <= k < 32 ==> #[trigger] items[k] == JsonView::Unsigned(bytes[k] as u64)
                }
            }
            &&& name == "secret"@ ==> {
                ||| value == JsonView::Null && info.secret is None
                ||| {
                    &&& value matches JsonView::List(items)
                    &&& info.secret matches Some(bytes)
                    &&& items.len() == 32 && bytes.len() == 32
                    &&& forall|k: int|
                        0 <= k < 32 ==> #[trigger] items[k] == JsonView::Unsigned(bytes[k] as u64)
                }
            }
            &&& name == "status"@ ==> {
                let text = match info.status {
                    HTLCStatus::Pending => "Pending"@,
                    HTLCStatus::InFlight => "InFlight"@,
                    HTLCStatus::Succeeded => "Succeeded"@,
                    HTLCStatus::Failed => "Failed"@,
                };
                value == JsonView::Text(text) || value == JsonView::Object(
                    seq![(text, JsonView::Null)],
                )
            }
            &&& name == "amt_msat"@ ==> value == match info.amt_msat {
                Some(n) => JsonView::Unsigned(n),
                None => JsonView::Null,
            }
            &&& name == "fee_paid_msat"@ ==> value == match info.fee_paid_msat {
                Some(n) => JsonView::Unsigned(n),
                None => JsonView::Null,
            }
            &&& name == "bolt11"@ ==> value == match info.bolt11 {
                Some(text) => JsonView::Text(text),
                None => JsonView::Null,
            }
            &&& name == "payee_pubkey"@ ==> match info.payee_pubkey {
                Some(key) => value matches JsonView::Text(text) && key_of_text(text) == Some(key),
                None => value == JsonView::Null,
            }
            &&& name == "last_update"@ ==> value == JsonView::Unsigned(info.last_update)
        },
        info.preimage is Some ==> exists|j: int|
            0 <= j < members.len() && (#[trigger] members[j]).0 == "preimage"@,
        info.secret is Some ==> exists|j: int|
            0 <= j < members.len() && (#[trigger] members[j]).0 == "secret"@,
        exists|j: int| 0 <= j < members.len() && (#[trigger] members[j]).0 == "status"@,
        exists|j: int| 0 <= j < members.len() && (#[trigger] members[j]).0 == "amt_msat"@,
        info.fee_paid_msat is Some ==> exists|j: int|
            0 <= j < members.len() && (#[trigger] members[j]).0 == "fee_paid_msat"@,
        info.bolt11 is Some ==> exists|j: int|
            0 <= j < members.len() && (#[trigger] members[j]).0 == "bolt11"@,
        info.payee_pubkey is Some ==> exists|j: int|
            0 <= j < members.len() && (#[trigger] members[j]).0 == "payee_pubkey"@,
        exists|j: int| 0 <= j < members.len() && (#[trigger] members[j]).0 == "last_update"@,
{
    let fields = fields_of(JsonView::Object(members))->0;
    assert forall|i: int| 0 <= i < 8 implies find(members, #[trigger] field_names()[i]) == Some(
        fields[i],
    ) by {}
    lemma_found(members, field_names()[0]);
    lemma_found(members, field_names()[1]);
    lemma_found(members, field_names()[2]);
    lemma_found(members, field_names()[3]);
    lemma_found(members, field_names()[4]);
    lemma_found(members, field_names()[5]);
    lemma_found(members, field_names()[6]);
    lemma_found(members, field_names()[7]);
    lemma_status_read(fields[2]);
    lemma_bytes_read(fields[0]);
    lemma_bytes_read(fields[1]);
}

/// The status that was read is the one that was named.
proof fn lemma_status_read(field: Option<JsonView>)
    requires
        status_field(field) is Some,
    ensures
        ({
            let text = status_text(status_field(field)->0);
            field == Some(JsonView::Text(text)) || field == Some(
                JsonView::Object(seq![(text, JsonView::Null)]),
            )
        }),
{
    if let Some(JsonView::Object(members)) = field {
        assert(members =~= seq![(members[0].0, JsonView::Null)]);
    }
}

/// The bytes that were read are those that were listed.
proof fn lemma_bytes_read(field: Option<JsonView>)
    requires
        bytes_field(field) is Some,
    ensures
        match bytes_field(field)->0 {
            Some(bytes) => {
                &&& field matches Some(JsonView::List(items))
                &&& items.len() == 32 && bytes.len() == 32
                &&& forall|k: int|
                    0 <= k < 32 ==> #[trigger] items[k] == JsonView::Unsigned(bytes[k] as u64)
            },
            None => field is None || field == Some(JsonView::Null),
        },
{
    if let Some(JsonView::List(items)) = field {
        let bytes = bytes_field(field)->0->0;
        assert forall|k: int| 0 <= k < 32 implies #[trigger] items[k] == JsonView::Unsigned(
            bytes[k] as u64,
        ) by {
            assert(is_byte(items[k]));
        }
    }
}

/// An object is read as a record wherever no field stands in it twice, the status, the amount and
/// the time stand in it, and each field has a value of its form.
pub proof fn law_every_record_is_read(members: Seq<(Seq<char>, JsonView)>)
    requires
        forall|j: int, k: int|
            0 <= j < k < members.len() && (#[trigger] members[j]).0 == (#[trigger] members[k]).0
                ==> !seq![
                "preimage"@,
                "secret"@,
                "status"@,
                "amt_msat"@,
                "fee_paid_msat"@,
                "bolt11"@,
                "payee_pubkey"@,
                "last_update"@,
            ].contains(members[j].0),
        exists|j: int| 0 <= j < members.len() && (#[trigger] members[j]).0 == "status"@,
        exists|j: int| 0 <= j < members.len() && (#[trigger] members[j]).0 == "amt_msat"@,
        exists|j: int| 0 <= j < members.len() && (#[trigger] members[j]).0 == "last_update"@,
        forall|j: int| #![trigger members[j]] 0 <= j < members.len() ==> {
            let (name, value) = members[j];
            &&& name == "preimage"@ || name == "secret"@ ==> value == JsonView::Null || {
                &&& value matches JsonView::List(items)
                &&& items.len() == 32
                &&& forall|k: int|
                    0 <= k < 32 ==> (#[trigger] items[k] matches JsonView::Unsigned(n) && n <= 255)
            }
            &&& name == "status"@ ==> {
                let statuses = seq!["Pending"@, "InFlight"@, "Succeeded"@, "Failed"@];
                ||| value matches JsonView::Text(text) && statuses.contains(text)
                ||| value matches JsonView::Object(inner) && inner.len() == 1 && inner[0].1
                    == JsonView::Null && statuses.contains(inner[0].0)
            }
            &&& name == "amt_msat"@ || name == "fee_paid_msat"@ ==> value is Null
                || value is Unsigned
            &&& name == "bolt11"@ ==> value is Null || value is Text
            &&& name == "payee_pubkey"@ ==> value is Null || (value is Text && key_of_text(
                value->Text_0,
            ) is Some)
            &&& name == "last_update"@ ==> value is Unsigned
        },
    ensures
        record_of(JsonView::Object(members)) is Some,
{
    let names = seq![
                "preimage"@,
                "secret"@,
                "status"@,
                "amt_msat"@,
                "fee_paid_msat"@,
                "bolt11"@,
                "payee_pubkey"@,
                "last_update"@,
            ];
    assert(names =~= field_names());
    assert forall|i: int| 0 <= i < 8 implies find(members, #[trigger] field_names()[i]) is Some by {
        assert(names.contains(names[i]));
        lemma_findable(members, field_names()[i]);
    }
    lemma_found(members, field_names()[0]);
    lemma_found(members, field_names()[1]);
    lemma_found(members, field_names()[2]);
    lemma_found(members, field_names()[3]);
    lemma_found(members, field_names()[4]);
    lemma_found(members, field_names()[5]);
    lemma_found(members, field_names()[6]);
    lemma_found(members, field_names()[7]);
    let fields = fields_of(JsonView::Object(members))->0;
    let j = choose|j: int| 0 <= j < members.len() && (#[trigger] members[j]).0 == "status"@;
    assert(fields[2] == Some(members[j].1));
    let statuses = seq!["Pending"@, "InFlight"@, "Succeeded"@, "Failed"@];
    assert forall|text: Seq<char>| statuses.contains(text) implies status_named(text) is Some by {
        let i = statuses.index_of(text);
        assert(statuses[i] == text);
    }
    assert(status_field(fields[2]) is Some);
    assert forall|i: int| i == 0 || i == 1 implies bytes_field(#[trigger] fields[i]) is Some by {
        if let Some(JsonView::List(items)) = fields[i] {
            assert forall|k: int| 0 <= k < 32 implies is_byte(#[trigger] items[k]) by {
                assert(items[k] is Unsigned);
            }
        }
    }
    assert(bytes_field(fields[0]) is Some && bytes_field(fields[1]) is Some);
}

/// A list of eight values is read as the object with these values under the names of the fields,
/// in their order.
pub proof fn law_list_is_read_as_the_object(items: Seq<JsonView>)
    requires
        items.len() == 8,
    ensures
        record_of(JsonView::List(items)) == record_of(
            JsonView::Object(
                seq![
                    ("preimage"@, items[0]),
                    ("secret"@, items[1]),
                    ("status"@, items[2]),
                    ("amt_msat"@, items[3]),
                    ("fee_paid_msat"@, items[4]),
                    ("bolt11"@, items[5]),
                    ("payee_pubkey"@, items[6]),
                    ("last_update"@, items[7]),
                ],
            ),
        ),
{
    let members = seq![
        ("preimage"@, items[0]),
        ("secret"@, items[1]),
        ("status"@, items[2]),
        ("amt_msat"@, items[3]),
        ("fee_paid_msat"@, items[4]),
        ("bolt11"@, items[5]),
        ("payee_pubkey"@, items[6]),
        ("last_update"@, items[7]),
    ];
    lemma_field_names();
    assert forall|i: int| 0 <= i < 8 implies #[trigger] members[i] == (
        field_names()[i],
        items[i],
    ) by {}
    assert forall|i: int| 0 <= i < 8 implies find(members, #[trigger] field_names()[i]) == Some(
        Some(items[i]),
    ) by {
        lemma_findable(members, field_names()[i]);
        lemma_found(members, field_names()[i]);
        assert(members[i].0 == field_names()[i]);
    }
    assert(fields_of(JsonView::List(items))->0 =~= fields_of(JsonView::Object(members))->0);
}

/// Nothing but an object or a list of eight values is read as a record.
pub proof fn law_other_values_are_no_records(value: JsonView)
    requires
        value !is Object,
        value is List ==> value->List_0.len() != 8,
    ensures
        record_of(value) is None,
{
}

/// An object in which a field stands twice is not read as a record.
pub proof fn law_repeated_fields_are_refused(
    members: Seq<(Seq<char>, JsonView)>,
    j: int,
    k: int,
)
    requires
        0 <= j < k < members.len(),
        members[j].0 == members[k].0,
        seq![
                "preimage"@,
                "secret"@,
                "status"@,
                "amt_msat"@,
                "fee_paid_msat"@,
                "bolt11"@,
                "payee_pubkey"@,
                "last_update"@,
            ].contains(members[j].0),
    ensures
        record_of(JsonView::Object(members)) is None,
{
    let names = seq![
                "preimage"@,
                "secret"@,
                "status"@,
                "amt_msat"@,
                "fee_paid_msat"@,
                "bolt11"@,
                "payee_pubkey"@,
                "last_update"@,
            ];
    assert(names =~= field_names());
    let i = names.index_of(members[j].0);
    assert(field_names()[i] == members[j].0);
    if find(members, field_names()[i]) is Some {
        lemma_found(members, field_names()[i]);
    }
}

} // verus!
