//! The record that the tools answer questions about.

use crate::json::{
    distinct_names, item_models, json_array, json_flag, json_model, json_number, json_object, json_text,
    member_models, JsonModel,
};
use vstd::prelude::*;
use vstd::string::*;

verus! {

/// A cat, identified by its `id`.
#[derive(Clone, Debug, PartialEq, Eq)]
pub struct Cat {
    pub id: u32,
    pub name: String,
    pub age: u32,
    pub breed: String,
    pub color: String,
    pub is_indoor: bool,
    pub favorite_toy: String,
}

/// What a [`Cat`] holds, as mathematical values.
pub struct CatView {
    pub id: nat,
    pub name: Seq<char>,
    pub age: nat,
    pub breed: Seq<char>,
    pub color: Seq<char>,
    pub is_indoor: bool,
    pub favorite_toy: Seq<char>,
}

impl View for Cat {
    type V = CatView;

    open spec fn view(&self) -> CatView {
        CatView {
            id: self.id as nat,
            name: self.name@,
            age: self.age as nat,
            breed: self.breed@,
            color: self.color@,
            is_indoor: self.is_indoor,
            favorite_toy: self.favorite_toy@,
        }
    }
}

/// The views of a sequence of borrowed cats, in order.
pub open spec fn cat_views(cats: Seq<&Cat>) -> Seq<CatView> {
    Seq::new(cats.len(), |i: int| cats[i]@)
}

/// The JSON object that stands for one cat: its seven fields, in this order.
pub open spec fn cat_document(cat: CatView) -> JsonModel {
    JsonModel::Object(
        seq![
            ("id"@, JsonModel::Number(cat.id)),
            ("name"@, JsonModel::Text(cat.name)),
            ("age"@, JsonModel::Number(cat.age)),
            ("breed"@, JsonModel::Text(cat.breed)),
            ("color"@, JsonModel::Text(cat.color)),
            ("is_indoor"@, JsonModel::Flag(cat.is_indoor)),
            ("favorite_toy"@, JsonModel::Text(cat.favorite_toy)),
        ],
    )
}

/// The JSON array that stands for a sequence of cats.
pub open spec fn cats_document(cats: Seq<CatView>) -> JsonModel {
    JsonModel::Array(Seq::new(cats.len(), |i: int| cat_document(cats[i])))
}

impl Cat {
    /// The JSON object for this cat.
    pub fn to_json(&self) -> (value: serde_json::Value)
        ensures
            json_model(value) == cat_document(self@),
    {
        let mut members: Vec<(String, serde_json::Value)> = Vec::new();
        members.push((String::from_str("id"), json_number(self.id)));
        members.push((String::from_str("name"), json_text(self.name.clone())));
        members.push((String::from_str("age"), json_number(self.age)));
        members.push((String::from_str("breed"), json_text(self.breed.clone())));
        members.push((String::from_str("color"), json_text(self.color.clone())));
        members.push((String::from_str("is_indoor"), json_flag(self.is_indoor)));
        members.push((String::from_str("favorite_toy"), json_text(self.favorite_toy.clone())));
        proof {
            reveal_strlit("id");
            reveal_strlit("name");
            reveal_strlit("age");
            reveal_strlit("breed");
            reveal_strlit("color");
            reveal_strlit("is_indoor");
            reveal_strlit("favorite_toy");
            assert(members@[0].0@.len() == 2);
            assert(members@[1].0@.len() == 4);
            assert(members@[2].0@.len() == 3);
            assert(members@[3].0@[0] == 'b');
            assert(members@[4].0@[0] == 'c');
            assert(members@[5].0@.len() == 9);
            assert(members@[6].0@.len() == 12);
            assert(distinct_names(members@));
            assert(member_models(members@) =~= cat_document(self@)->Object_0);
        }
        json_object(members)
    }
}

/// The JSON array for a list of cats, in the order of the list.
pub fn cats_to_json(cats: &Vec<&Cat>) -> (value: serde_json::Value)
    ensures
        json_model(value) == cats_document(cat_views(cats@)),
{
    let mut items: Vec<serde_json::Value> = Vec::new();
    let mut i: usize = 0;
    while i < cats.len()
        invariant
            i <= cats@.len(),
            items@.len() == i,
            forall|k: int| 0 <= k < i ==> json_model(#[trigger] items@[k]) == cat_document(cats@[k]@),
        decreases cats@.len() - i,
    {
        items.push(cats[i].to_json());
        i += 1;
    }
    assert(item_models(items@) =~= cats_document(cat_views(cats@))->Array_0);
    json_array(items)
}

} // verus!
