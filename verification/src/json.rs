//! JSON values as plain data.
use vstd::prelude::*;

verus! {

/// A JSON value.
#[derive(Debug, PartialEq, Eq)]
pub enum Json {
    Null,
    Bool(bool),
    /// A number without sign, fraction or exponent that fits in 64 bits.
    Unsigned(u64),
    /// Any other number, by its text.
    Number(String),
    Text(String),
    List(Vec<Json>),
    /// The members of an object, in the order in which they stand.
    Object(Vec<Member>),
}

/// One member of a JSON object.
#[derive(Debug, PartialEq, Eq)]
pub struct Member {
    pub name: String,
    pub value: Json,
}

/// What a JSON value is, apart from how it is held.
#[verifier::ext_equal]
pub enum JsonView {
    Null,
    Bool(bool),
    Unsigned(u64),
    Number(Seq<char>),
    Text(Seq<char>),
    List(Seq<JsonView>),
    Object(Seq<(Seq<char>, JsonView)>),
}

impl View for Json {
    type V = JsonView;

    open spec fn view(&self) -> JsonView
        decreases self,
    {
        match self {
            Json::Null => JsonView::Null,
            Json::Bool(b) => JsonView::Bool(*b),
            Json::Unsigned(n) => JsonView::Unsigned(*n),
            Json::Number(text) => JsonView::Number(text@),
            Json::Text(text) => JsonView::Text(text@),
            Json::List(items) => JsonView::List(
                Seq::new(
                    items@.len(),
                    |i: int|
                        if 0 <= i < items@.len() {
                            items@[i].view()
                        } else {
                            arbitrary()
                        },
                ),
            ),
            Json::Object(members) => JsonView::Object(
                Seq::new(
                    members@.len(),
                    |i: int|
                        if 0 <= i < members@.len() {
                            (members@[i].name@, members@[i].value.view())
                        } else {
                            arbitrary()
                        },
                ),
            ),
        }
    }
}

/// The members of an object, apart from how they are held.
pub open spec fn members_view(members: Seq<Member>) -> Seq<(Seq<char>, JsonView)> {
    Seq::new(members.len(), |i: int| (members[i].name@, members[i].value@))
}

/// The items of a list, apart from how they are held.
pub open spec fn items_view(items: Seq<Json>) -> Seq<JsonView> {
    Seq::new(items.len(), |i: int| items[i]@)
}

/// A list is made of its items.
pub proof fn lemma_list_view(items: Vec<Json>)
    ensures
        Json::List(items)@ == JsonView::List(items_view(items@)),
{
    reveal_with_fuel(<Json as View>::view, 2);
    assert(Json::List(items)@->List_0 =~= items_view(items@));
}

/// An object is made of its members.
pub proof fn lemma_object_view(members: Vec<Member>)
    ensures
        Json::Object(members)@ == JsonView::Object(members_view(members@)),
{
    reveal_with_fuel(<Json as View>::view, 2);
    assert(Json::Object(members)@->Object_0 =~= members_view(members@));
}

/// What a value is, is what it holds: the same number, text, items or members, in order.
pub proof fn law_json_is_what_it_holds(json: Json)
    ensures
        match json {
            Json::Null => json@ == JsonView::Null,
            Json::Bool(b) => json@ == JsonView::Bool(b),
            Json::Unsigned(n) => json@ == JsonView::Unsigned(n),
            Json::Number(text) => json@ == JsonView::Number(text@),
            Json::Text(text) => json@ == JsonView::Text(text@),
            Json::List(items) => {
                &&& json@ matches JsonView::List(views)
                &&& views.len() == items@.len()
                &&& forall|i: int| 0 <= i < views.len() ==> #[trigger] views[i] == items@[i]@
            },
            Json::Object(members) => {
                &&& json@ matches JsonView::Object(views)
                &&& views.len() == members@.len()
                &&& forall|i: int|
                    0 <= i < views.len() ==> #[trigger] views[i] == (
                        members@[i].name@,
                        members@[i].value@,
                    )
            },
        },
{
    match json {
        Json::List(items) => lemma_list_view(items),
        Json::Object(members) => lemma_object_view(members),
        _ => {},
    }
}

} // verus!
