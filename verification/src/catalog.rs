//! The tools on offer: each with its name, its description, the parameters it
//! takes, and the handler that answers it. The catalogue is fixed once built.

use crate::json::{
    distinct_names, item_models, json_array, json_model, json_object, json_text, member_models,
    JsonModel,
};
use crate::text::same_text;
use vstd::prelude::*;
use vstd::string::*;

verus! {

/// The primitive type of a parameter.
#[derive(Clone, Copy, PartialEq, Eq, Structural, Debug)]
pub enum ParamKind {
    Number,
    Text,
    Boolean,
}

/// The word that a schema uses for a primitive type.
pub open spec fn kind_name(kind: ParamKind) -> Seq<char> {
    match kind {
        ParamKind::Number => "number"@,
        ParamKind::Text => "string"@,
        ParamKind::Boolean => "boolean"@,
    }
}

impl ParamKind {
    /// The word that a schema uses for this type.
    pub fn name(self) -> (word: &'static str)
        ensures
            word@ == kind_name(self),
    {
        match self {
            ParamKind::Number => "number",
            ParamKind::Text => "string",
            ParamKind::Boolean => "boolean",
        }
    }
}

/// One parameter of a tool.
#[derive(Debug, PartialEq, Eq)]
pub struct ParamSpec {
    pub name: String,
    pub kind: ParamKind,
    pub description: String,
    pub required: bool,
}

/// What a [`ParamSpec`] holds, as mathematical values.
pub struct ParamView {
    pub name: Seq<char>,
    pub kind: ParamKind,
    pub description: Seq<char>,
    pub required: bool,
}

impl View for ParamSpec {
    type V = ParamView;

    open spec fn view(&self) -> ParamView {
        ParamView {
            name: self.name@,
            kind: self.kind,
            description: self.description@,
            required: self.required,
        }
    }
}

/// No two parameters share a name.
pub open spec fn distinct_params(params: Seq<ParamView>) -> bool {
    forall|i: int, j: int|
        0 <= i < j < params.len() ==> (#[trigger] params[i]).name != (#[trigger] params[j]).name
}

/// The schema of one parameter: its type and its description.
pub open spec fn property_document(param: ParamView) -> JsonModel {
    JsonModel::Object(
        seq![
            ("type"@, JsonModel::Text(kind_name(param.kind))),
            ("description"@, JsonModel::Text(param.description)),
        ],
    )
}

/// The schemas of the parameters, each under its name, in order.
pub open spec fn property_members(params: Seq<ParamView>) -> Seq<(Seq<char>, JsonModel)> {
    Seq::new(params.len(), |i: int| (params[i].name, property_document(params[i])))
}

/// The names of the required parameters, in order.
pub open spec fn required_names(params: Seq<ParamView>) -> Seq<JsonModel> {
    params.filter(|param: ParamView| param.required).map_values(
        |param: ParamView| JsonModel::Text(param.name),
    )
}

/// The schema of a set of parameters: an object type, its properties, and the
/// list of those that are required.
pub open spec fn schema_document(params: Seq<ParamView>) -> JsonModel {
    JsonModel::Object(
        seq![
            ("type"@, JsonModel::Text("object"@)),
            ("properties"@, JsonModel::Object(property_members(params))),
            ("required"@, JsonModel::Array(required_names(params))),
        ],
    )
}

/// The views of a sequence of parameters, in order.
pub open spec fn param_views(params: Seq<ParamSpec>) -> Seq<ParamView> {
    Seq::new(params.len(), |i: int| params[i]@)
}

/// The parameters that a tool takes: a list in which every name occurs once.
#[derive(Debug, PartialEq, Eq)]
pub struct InputContract {
    params: Vec<ParamSpec>,
}

impl View for InputContract {
    type V = Seq<ParamView>;

    closed spec fn view(&self) -> Seq<ParamView> {
        param_views(self.params@)
    }
}

impl InputContract {
    /// Every parameter name occurs once. This holds of every contract.
    #[verifier::type_invariant]
    pub open spec fn wf(&self) -> bool {
        distinct_params(self@)
    }

    /// The contract of these parameters, or `None` where two of them share a
    /// name.
    pub fn new(params: Vec<ParamSpec>) -> (contract: Option<InputContract>)
        ensures
            match contract {
                Some(input) => distinct_params(param_views(params@)) && input@ == param_views(
                    params@,
                ),
                None => !distinct_params(param_views(params@)),
            },
    {
        let ghost views = param_views(params@);
        let mut j: usize = 0;
        while j < params.len()
            invariant
                j <= params@.len(),
                views == param_views(params@),
                forall|a: int, b: int|
                    0 <= a < b < j ==> (#[trigger] views[a]).name != (#[trigger] views[b]).name,
            decreases params@.len() - j,
        {
            let mut i: usize = 0;
            while i < j
                invariant
                    i <= j < params@.len(),
                    views == param_views(params@),
                    forall|a: int| 0 <= a < i ==> (#[trigger] views[a]).name != views[j as int].name,
                decreases j - i,
            {
                if same_text(params[i].name.as_str(), params[j].name.as_str()) {
                    assert(views[i as int].name == views[j as int].name);
                    return None;
                }
                i += 1;
            }
            j += 1;
        }
        Some(InputContract { params })
    }

    /// The parameters, in order.
    pub fn params(&self) -> (params: &Vec<ParamSpec>)
        ensures
            param_views(params@) == self@,
    {
        &self.params
    }

    /// The schema that advertises these parameters.
    pub fn schema(&self) -> (value: serde_json::Value)
        ensures
            json_model(value) == schema_document(self@),
    {
        proof {
            use_type_invariant(self);
        }
        let mut properties: Vec<(String, serde_json::Value)> = Vec::new();
        let mut required: Vec<serde_json::Value> = Vec::new();
        let mut i: usize = 0;
        proof {
            reveal(Seq::filter);
            assert(self@.take(0) =~= Seq::<ParamView>::empty());
            assert(item_models(required@) =~= required_names(self@.take(0)));
        }
        while i < self.params.len()
            invariant
                i <= self.params@.len(),
                properties@.len() == i,
                forall|k: int|
                    0 <= k < i ==> (#[trigger] properties@[k]).0@ == self@[k].name && json_model(
                        properties@[k].1,
                    ) == property_document(self@[k]),
                item_models(required@) == required_names(self@.take(i as int)),
            decreases self.params@.len() - i,
        {
            let param = &self.params[i];
            let mut fields: Vec<(String, serde_json::Value)> = Vec::new();
            fields.push((String::from_str("type"), json_text(String::from_str(param.kind.name()))));
            fields.push((String::from_str("description"), json_text(param.description.clone())));
            proof {
                reveal_strlit("type");
                reveal_strlit("description");
                assert(fields@[0].0@.len() == 4);
                assert(fields@[1].0@.len() == 11);
                assert(distinct_names(fields@));
                assert(member_models(fields@) =~= property_document(param@)->Object_0);
            }
            let property = json_object(fields);
            properties.push((param.name.clone(), property));
            let ghost before = item_models(required@);
            proof {
                let next = self@.take(i + 1);
                assert(next.drop_last() =~= self@.take(i as int));
                assert(next.last() == param@);
                reveal(Seq::filter);
            }
            if param.required {
                required.push(json_text(param.name.clone()));
                assert(item_models(required@) =~= before.push(JsonModel::Text(param@.name)));
                assert(item_models(required@) =~= required_names(self@.take(i + 1)));
            } else {
                assert(item_models(required@) =~= required_names(self@.take(i + 1)));
            }
            i += 1;
        }
        proof {
            assert(self@.take(i as int) =~= self@);
            assert(distinct_names(properties@));
            assert(member_models(properties@) =~= property_members(self@));
        }
        let mut top: Vec<(String, serde_json::Value)> = Vec::new();
        top.push((String::from_str("type"), json_text(String::from_str("object"))));
        top.push((String::from_str("properties"), json_object(properties)));
        top.push((String::from_str("required"), json_array(required)));
        proof {
            reveal_strlit("type");
            reveal_strlit("properties");
            reveal_strlit("required");
            assert(top@[0].0@.len() == 4);
            assert(top@[1].0@.len() == 10);
            assert(top@[2].0@.len() == 8);
            assert(distinct_names(top@));
            assert(member_models(top@) =~= schema_document(self@)->Object_0);
        }
        json_object(top)
    }
}

/// A tool as it is advertised: its name, what it does, and what it takes.
#[derive(Debug, PartialEq, Eq)]
pub struct ToolDescriptor {
    pub name: String,
    pub description: String,
    pub input: InputContract,
}

/// What a [`ToolDescriptor`] holds, as mathematical values.
pub struct ToolView {
    pub name: Seq<char>,
    pub description: Seq<char>,
    pub params: Seq<ParamView>,
}

impl View for ToolDescriptor {
    type V = ToolView;

    open spec fn view(&self) -> ToolView {
        ToolView { name: self.name@, description: self.description@, params: self.input@ }
    }
}

/// The four ways in which a tool is answered.
#[derive(Clone, Copy, PartialEq, Eq, Structural, Debug)]
pub enum Handler {
    /// Every cat.
    ListAll,
    /// The cat with a given id.
    GetById,
    /// The cats whose breed contains a given text.
    SearchByBreed,
    /// The cats that live indoors.
    IndoorOnly,
}

/// The parameters that a handler reads.
pub open spec fn handler_params(handler: Handler) -> Seq<ParamView> {
    match handler {
        Handler::ListAll => Seq::empty(),
        Handler::GetById => seq![
            ParamView {
                name: "id"@,
                kind: ParamKind::Number,
                description: "Cat ID"@,
                required: true,
            },
        ],
        Handler::SearchByBreed => seq![
            ParamView {
                name: "breed"@,
                kind: ParamKind::Text,
                description: "Breed to search for"@,
                required: true,
            },
        ],
        Handler::IndoorOnly => Seq::empty(),
    }
}

/// The tool under which a handler is offered.
pub open spec fn standard_tool(handler: Handler) -> ToolView {
    match handler {
        Handler::ListAll => ToolView {
            name: "list_all_cats"@,
            description: "Get a list of all cats"@,
            params: handler_params(handler),
        },
        Handler::GetById => ToolView {
            name: "get_cat_by_id"@,
            description: "Get information about a specific cat by ID"@,
            params: handler_params(handler),
        },
        Handler::SearchByBreed => ToolView {
            name: "search_by_breed"@,
            description: "Search for cats by breed"@,
            params: handler_params(handler),
        },
        Handler::IndoorOnly => ToolView {
            name: "get_indoor_cats"@,
            description: "Get only indoor cats"@,
            params: handler_params(handler),
        },
    }
}

impl Handler {
    /// The parameters that this handler reads.
    pub fn contract(self) -> (input: InputContract)
        ensures
            input@ == handler_params(self),
    {
        let mut params: Vec<ParamSpec> = Vec::new();
        match self {
            Handler::GetById => {
                params.push(
                    ParamSpec {
                        name: String::from_str("id"),
                        kind: ParamKind::Number,
                        description: String::from_str("Cat ID"),
                        required: true,
                    },
                );
            },
            Handler::SearchByBreed => {
                params.push(
                    ParamSpec {
                        name: String::from_str("breed"),
                        kind: ParamKind::Text,
                        description: String::from_str("Breed to search for"),
                        required: true,
                    },
                );
            },
            Handler::ListAll | Handler::IndoorOnly => {},
        }
        assert(param_views(params@) =~= handler_params(self));
        InputContract { params }
    }

    /// The tool under which this handler is offered.
    pub fn descriptor(self) -> (tool: ToolDescriptor)
        ensures
            tool@ == standard_tool(self),
    {
        let input = self.contract();
        match self {
            Handler::ListAll => ToolDescriptor {
                name: String::from_str("list_all_cats"),
                description: String::from_str("Get a list of all cats"),
                input,
            },
            Handler::GetById => ToolDescriptor {
                name: String::from_str("get_cat_by_id"),
                description: String::from_str("Get information about a specific cat by ID"),
                input,
            },
            Handler::SearchByBreed => ToolDescriptor {
                name: String::from_str("search_by_breed"),
                description: String::from_str("Search for cats by breed"),
                input,
            },
            Handler::IndoorOnly => ToolDescriptor {
                name: String::from_str("get_indoor_cats"),
                description: String::from_str("Get only indoor cats"),
                input,
            },
        }
    }
}

/// A tool together with the handler that answers it.
#[derive(Debug, PartialEq, Eq)]
pub struct ToolEntry {
    pub descriptor: ToolDescriptor,
    pub handler: Handler,
}

/// What a [`ToolEntry`] holds, as mathematical values.
pub struct EntryView {
    pub tool: ToolView,
    pub handler: Handler,
}

impl View for ToolEntry {
    type V = EntryView;

    open spec fn view(&self) -> EntryView {
        EntryView { tool: self.descriptor@, handler: self.handler }
    }
}

/// The views of a sequence of entries, in order.
pub open spec fn entry_views(entries: Seq<ToolEntry>) -> Seq<EntryView> {
    Seq::new(entries.len(), |i: int| entries[i]@)
}

/// Some entry of the sequence carries this tool name.
pub open spec fn has_tool(entries: Seq<EntryView>, name: Seq<char>) -> bool {
    exists|i: int| 0 <= i < entries.len() && (#[trigger] entries[i]).tool.name == name
}

/// The entry with this tool name, if the sequence holds one.
pub open spec fn find_tool(entries: Seq<EntryView>, name: Seq<char>) -> Option<EntryView> {
    if has_tool(entries, name) {
        Some(entries[choose|i: int| 0 <= i < entries.len() && (#[trigger] entries[i]).tool.name == name])
    } else {
        None
    }
}

/// Some entry of the sequence is answered by this handler.
pub open spec fn answers(entries: Seq<EntryView>, handler: Handler) -> bool {
    exists|i: int| 0 <= i < entries.len() && (#[trigger] entries[i]).handler == handler
}

/// Catalogue and handlers are in step: tool names are distinct, every tool
/// declares exactly the parameters that its handler reads, and every handler
/// answers exactly one tool.
pub open spec fn in_step(entries: Seq<EntryView>) -> bool {
    &&& forall|i: int, j: int|
        0 <= i < j < entries.len() ==> (#[trigger] entries[i]).tool.name != (
        #[trigger] entries[j]).tool.name
    &&& forall|i: int|
        0 <= i < entries.len() ==> (#[trigger] entries[i]).tool.params == handler_params(
            entries[i].handler,
        )
    &&& forall|i: int, j: int|
        0 <= i < j < entries.len() ==> (#[trigger] entries[i]).handler != (
        #[trigger] entries[j]).handler
    &&& forall|handler: Handler| #[trigger] answers(entries, handler)
}

/// The catalogue that the server offers: the four tools, in this order.
pub open spec fn standard_entries() -> Seq<EntryView> {
    seq![
        EntryView { tool: standard_tool(Handler::ListAll), handler: Handler::ListAll },
        EntryView { tool: standard_tool(Handler::GetById), handler: Handler::GetById },
        EntryView { tool: standard_tool(Handler::SearchByBreed), handler: Handler::SearchByBreed },
        EntryView { tool: standard_tool(Handler::IndoorOnly), handler: Handler::IndoorOnly },
    ]
}

/// The standard catalogue is in step with its handlers.
pub proof fn standard_entries_in_step()
    ensures
        in_step(standard_entries()),
{
    let entries = standard_entries();
    reveal_strlit("list_all_cats");
    reveal_strlit("get_cat_by_id");
    reveal_strlit("search_by_breed");
    reveal_strlit("get_indoor_cats");
    assert(entries[0].tool.name[0] == 'l');
    assert(entries[1].tool.name[0] == 'g');
    assert(entries[2].tool.name[0] == 's');
    assert(entries[3].tool.name[0] == 'g');
    assert(entries[1].tool.name.len() == 13);
    assert(entries[3].tool.name.len() == 15);
    assert forall|handler: Handler| #[trigger] answers(entries, handler) by {
        match handler {
            Handler::ListAll => assert(entries[0].handler == handler),
            Handler::GetById => assert(entries[1].handler == handler),
            Handler::SearchByBreed => assert(entries[2].handler == handler),
            Handler::IndoorOnly => assert(entries[3].handler == handler),
        }
    }
}

/// The fixed, ordered collection of tools.
#[derive(Debug, PartialEq, Eq)]
pub struct ToolCatalog {
    entries: Vec<ToolEntry>,
}

impl View for ToolCatalog {
    type V = Seq<EntryView>;

    closed spec fn view(&self) -> Seq<EntryView> {
        entry_views(self.entries@)
    }
}

impl ToolCatalog {
    /// The catalogue is in step with its handlers. This holds of every
    /// catalogue.
    #[verifier::type_invariant]
    pub open spec fn wf(&self) -> bool {
        in_step(self@)
    }

    /// The catalogue of the four tools.
    pub fn standard() -> (catalog: ToolCatalog)
        ensures
            catalog@ == standard_entries(),
    {
        let mut entries: Vec<ToolEntry> = Vec::new();
        entries.push(ToolEntry { descriptor: Handler::ListAll.descriptor(), handler: Handler::ListAll });
        entries.push(ToolEntry { descriptor: Handler::GetById.descriptor(), handler: Handler::GetById });
        entries.push(
            ToolEntry {
                descriptor: Handler::SearchByBreed.descriptor(),
                handler: Handler::SearchByBreed,
            },
        );
        entries.push(
            ToolEntry { descriptor: Handler::IndoorOnly.descriptor(), handler: Handler::IndoorOnly },
        );
        proof {
            assert(entry_views(entries@) =~= standard_entries());
            standard_entries_in_step();
        }
        ToolCatalog { entries }
    }

    /// The number of tools.
    pub fn len(&self) -> (count: usize)
        ensures
            count == self@.len(),
    {
        self.entries.len()
    }

    /// Every entry, in the catalogue's order.
    pub fn list(&self) -> (entries: &Vec<ToolEntry>)
        ensures
            entry_views(entries@) == self@,
    {
        &self.entries
    }

    /// The entry whose tool carries this name, or `None` where there is none.
    pub fn lookup(&self, name: &str) -> (found: Option<&ToolEntry>)
        ensures
            match found {
                Some(entry) => find_tool(self@, name@) == Some(entry@),
                None => find_tool(self@, name@) is None,
            },
    {
        proof {
            use_type_invariant(self);
        }
        let mut i: usize = 0;
        while i < self.entries.len()
            invariant
                in_step(self@),
                i <= self.entries@.len(),
                forall|k: int| 0 <= k < i ==> (#[trigger] self@[k]).tool.name != name@,
            decreases self.entries@.len() - i,
        {
            if same_text(self.entries[i].descriptor.name.as_str(), name) {
                proof {
                    assert(self@[i as int].tool.name == name@);
                    let chosen = choose|k: int|
                        0 <= k < self@.len() && (#[trigger] self@[k]).tool.name == name@;
                    assert(chosen == i);
                }
                return Some(&self.entries[i]);
            }
            i += 1;
        }
        None
    }
}

} // verus!
