//! The server: a repository of cats and a catalogue of tools, with the three
//! operations that a session makes of them: the handshake, the listing of the
//! tools, and the invocation of one tool.

use crate::catalog::{
    entry_views, find_tool, handler_params, in_step, schema_document,
    standard_entries, EntryView, ToolCatalog,
};
use crate::dispatch::{
    answer, bind, bound, document, encode, encoded, failure, headline, outcome_view,
    run, validated_args_bind, violation_message, CallToolResult, CallToolResultView, ErrorCode,
    QueryView, ToolError, ToolErrorView,
};
use crate::entity::{Cat, CatView};
use crate::json::{json_model, pretty_json, JsonModel};
use crate::repository::CatRepository;
use crate::validate::{validate, validation, ArgBag, ArgValueView};
use vstd::pervasive::unreached;
use vstd::prelude::*;
use vstd::string::*;

verus! {

/// The version of the protocol that the server speaks.
#[derive(Clone, Copy, PartialEq, Eq, Structural, Debug)]
pub enum ProtocolVersion {
    /// The revision of 5 November 2024.
    V2024_11_05,
}

/// The date by which a protocol version is known.
pub open spec fn version_tag(version: ProtocolVersion) -> Seq<char> {
    match version {
        ProtocolVersion::V2024_11_05 => "2024-11-05"@,
    }
}

impl ProtocolVersion {
    /// The date by which this version is known.
    pub fn tag(self) -> (tag: &'static str)
        ensures
            tag@ == version_tag(self),
    {
        match self {
            ProtocolVersion::V2024_11_05 => "2024-11-05",
        }
    }
}

/// What the server is able to do for a session.
#[derive(Debug, PartialEq, Eq)]
pub struct ServerCapabilities {
    /// Tools can be listed and invoked.
    pub tools: bool,
}

/// The name and version under which the server runs.
#[derive(Debug, PartialEq, Eq)]
pub struct Implementation {
    pub name: String,
    pub version: String,
}

/// The answer to a handshake.
#[derive(Debug, PartialEq, Eq)]
pub struct ServerInfo {
    pub protocol_version: ProtocolVersion,
    pub capabilities: ServerCapabilities,
    pub server_info: Implementation,
    pub instructions: Option<String>,
}

/// What a [`ServerInfo`] holds, as mathematical values.
pub struct ServerInfoView {
    pub protocol_version: ProtocolVersion,
    pub tools: bool,
    pub name: Seq<char>,
    pub version: Seq<char>,
    pub instructions: Option<Seq<char>>,
}

impl View for ServerInfo {
    type V = ServerInfoView;

    open spec fn view(&self) -> ServerInfoView {
        ServerInfoView {
            protocol_version: self.protocol_version,
            tools: self.capabilities.tools,
            name: self.server_info.name@,
            version: self.server_info.version@,
            instructions: match self.instructions {
                Some(text) => Some(text@),
                None => None,
            },
        }
    }
}

/// What the server says of itself in a handshake.
pub open spec fn handshake() -> ServerInfoView {
    ServerInfoView {
        protocol_version: ProtocolVersion::V2024_11_05,
        tools: true,
        name: "cat-database-server"@,
        version: "1.0.0"@,
        instructions: Some(
            "A Cat Database MCP Server that provides tools to manage and query cat data. Use the available tools to list all cats, get specific cat information by ID, search by breed, or filter for indoor cats only."@,
        ),
    }
}

/// A tool as a listing shows it: its name, its description, and the schema of
/// what it takes.
#[derive(Debug)]
pub struct ToolListing {
    pub name: String,
    pub description: String,
    pub input_schema: serde_json::Value,
}

/// What a [`ToolListing`] holds, as mathematical values.
pub struct ToolListingView {
    pub name: Seq<char>,
    pub description: Seq<char>,
    pub input_schema: JsonModel,
}

impl View for ToolListing {
    type V = ToolListingView;

    open spec fn view(&self) -> ToolListingView {
        ToolListingView {
            name: self.name@,
            description: self.description@,
            input_schema: json_model(self.input_schema),
        }
    }
}

/// One page of tools, and the cursor of the page that follows it.
#[derive(Debug)]
pub struct ListToolsResult {
    pub tools: Vec<ToolListing>,
    pub next_cursor: Option<String>,
}

/// What a [`ListToolsResult`] holds, as mathematical values.
pub struct ListToolsView {
    pub tools: Seq<ToolListingView>,
    pub next_cursor: Option<Seq<char>>,
}

impl View for ListToolsResult {
    type V = ListToolsView;

    open spec fn view(&self) -> ListToolsView {
        ListToolsView {
            tools: Seq::new(self.tools@.len(), |i: int| self.tools@[i]@),
            next_cursor: match self.next_cursor {
                Some(cursor) => Some(cursor@),
                None => None,
            },
        }
    }
}

/// The listings of a catalogue: every tool, in the catalogue's order, each with
/// the schema of its parameters.
pub open spec fn advertised(tools: Seq<EntryView>) -> Seq<ToolListingView> {
    Seq::new(
        tools.len(),
        |i: int|
            ToolListingView {
                name: tools[i].tool.name,
                description: tools[i].tool.description,
                input_schema: schema_document(tools[i].tool.params),
            },
    )
}

/// The page that a listing gives, whatever cursor it was asked with: the whole
/// catalogue, and no page after it.
pub open spec fn tools_page(tools: Seq<EntryView>, cursor: Option<Seq<char>>) -> ListToolsView {
    ListToolsView { tools: advertised(tools), next_cursor: None }
}

/// The failure that ends an invocation before any handler runs: an unknown tool
/// name, or a bag that fails the tool's parameters.
pub open spec fn rejection(
    tools: Seq<EntryView>,
    name: Seq<char>,
    bag: Map<Seq<char>, ArgValueView>,
) -> Option<ToolErrorView> {
    match find_tool(tools, name) {
        None => Some(failure(ErrorCode::MethodNotFound, "Unknown tool: "@ + name)),
        Some(entry) => match validation(entry.tool.params, bag) {
            Err(error) => Some(failure(ErrorCode::InvalidParams, violation_message(error))),
            Ok(_) => None,
        },
    }
}

/// The query that an invocation makes of the tool's handler.
pub open spec fn asked(
    tools: Seq<EntryView>,
    name: Seq<char>,
    bag: Map<Seq<char>, ArgValueView>,
) -> QueryView
    recommends
        in_step(tools),
        rejection(tools, name, bag) is None,
{
    let entry = find_tool(tools, name)->0;
    bound(entry.handler, validation(entry.tool.params, bag)->Ok_0)->0
}

/// The outcome of an invocation for each thing that a printer could make of the
/// document (which is not looked at where there is no document to print).
pub open spec fn call_outcome(
    tools: Seq<EntryView>,
    cats: Seq<CatView>,
    name: Seq<char>,
    bag: Map<Seq<char>, ArgValueView>,
    printed: Result<Seq<char>, Seq<char>>,
) -> Result<CallToolResultView, ToolErrorView>
    recommends
        in_step(tools),
{
    match rejection(tools, name, bag) {
        Some(error) => Err(error),
        None => {
            let found = answer(asked(tools, name, bag), cats);
            encoded(
                headline(found),
                if document(found) is Some {
                    Some(printed)
                } else {
                    None
                },
            )
        },
    }
}

/// The outcome of an invocation: its rejection where it is rejected, else the
/// handler's answer in one block of text, the headline followed by the
/// pretty-printed document where the answer has one.
pub open spec fn call_result(
    tools: Seq<EntryView>,
    cats: Seq<CatView>,
    name: Seq<char>,
    bag: Map<Seq<char>, ArgValueView>,
) -> Result<CallToolResultView, ToolErrorView>
    recommends
        in_step(tools),
{
    call_outcome(
        tools,
        cats,
        name,
        bag,
        Ok(pretty_json(document(answer(asked(tools, name, bag), cats))->0)),
    )
}

/// The four cats that a new server knows.
pub open spec fn sample_cats() -> Seq<CatView> {
    seq![
        CatView {
            id: 1,
            name: "Mike"@,
            age: 3,
            breed: "Calico"@,
            color: "Calico"@,
            is_indoor: true,
            favorite_toy: "Mouse toy"@,
        },
        CatView {
            id: 2,
            name: "Shiro"@,
            age: 5,
            breed: "Persian"@,
            color: "White"@,
            is_indoor: true,
            favorite_toy: "Yarn ball"@,
        },
        CatView {
            id: 3,
            name: "Kuro"@,
            age: 2,
            breed: "Black cat"@,
            color: "Black"@,
            is_indoor: false,
            favorite_toy: "Butterfly"@,
        },
        CatView {
            id: 4,
            name: "Chatora"@,
            age: 7,
            breed: "Orange tabby"@,
            color: "Orange tabby"@,
            is_indoor: true,
            favorite_toy: "Catnip"@,
        },
    ]
}

/// A repository of cats with the tools that query it.
#[derive(Debug, PartialEq, Eq)]
pub struct CatServer {
    pub cats: CatRepository,
    pub tools: ToolCatalog,
}

impl CatServer {
    /// The server over the four sample cats, with the standard tools.
    pub fn new() -> (server: CatServer)
        ensures
            server.cats@ == sample_cats(),
            server.tools@ == standard_entries(),
    {
        let mut cats = CatRepository::new();
        cats.insert(
            Cat {
                id: 1,
                name: String::from_str("Mike"),
                age: 3,
                breed: String::from_str("Calico"),
                color: String::from_str("Calico"),
                is_indoor: true,
                favorite_toy: String::from_str("Mouse toy"),
            },
        );
        cats.insert(
            Cat {
                id: 2,
                name: String::from_str("Shiro"),
                age: 5,
                breed: String::from_str("Persian"),
                color: String::from_str("White"),
                is_indoor: true,
                favorite_toy: String::from_str("Yarn ball"),
            },
        );
        cats.insert(
            Cat {
                id: 3,
                name: String::from_str("Kuro"),
                age: 2,
                breed: String::from_str("Black cat"),
                color: String::from_str("Black"),
                is_indoor: false,
                favorite_toy: String::from_str("Butterfly"),
            },
        );
        cats.insert(
            Cat {
                id: 4,
                name: String::from_str("Chatora"),
                age: 7,
                breed: String::from_str("Orange tabby"),
                color: String::from_str("Orange tabby"),
                is_indoor: true,
                favorite_toy: String::from_str("Catnip"),
            },
        );
        assert(cats@ =~= sample_cats());
        CatServer { cats, tools: ToolCatalog::standard() }
    }

    /// What the server says of itself in a handshake.
    pub fn get_info(&self) -> (info: ServerInfo)
        ensures
            info@ == handshake(),
    {
        ServerInfo {
            protocol_version: ProtocolVersion::V2024_11_05,
            capabilities: ServerCapabilities { tools: true },
            server_info: Implementation {
                name: String::from_str("cat-database-server"),
                version: String::from_str("1.0.0"),
            },
            instructions: Some(
                String::from_str(
                    "A Cat Database MCP Server that provides tools to manage and query cat data. Use the available tools to list all cats, get specific cat information by ID, search by breed, or filter for indoor cats only.",
                ),
            ),
        }
    }

    /// Lists the tools. The cursor is accepted and not read: the listing is
    /// always the whole catalogue on one page, with no page after it.
    pub fn list_tools(&self, cursor: Option<&str>) -> (page: ListToolsResult)
        ensures
            page@ == tools_page(
                self.tools@,
                match cursor {
                    Some(text) => Some(text@),
                    None => None,
                },
            ),
    {
        let entries = self.tools.list();
        let mut tools: Vec<ToolListing> = Vec::new();
        let mut i: usize = 0;
        while i < entries.len()
            invariant
                entry_views(entries@) == self.tools@,
                i <= entries@.len(),
                tools@.len() == i,
                forall|k: int| 0 <= k < i ==> (#[trigger] tools@[k])@ == advertised(self.tools@)[k],
            decreases entries@.len() - i,
        {
            let entry = &entries[i];
            assert(self.tools@[i as int] == entry@);
            tools.push(
                ToolListing {
                    name: entry.descriptor.name.clone(),
                    description: entry.descriptor.description.clone(),
                    input_schema: entry.descriptor.input.schema(),
                },
            );
            i += 1;
        }
        let page = ListToolsResult { tools, next_cursor: None };
        assert(page@.tools =~= advertised(self.tools@));
        page
    }

    /// Invokes the tool called `name` with `arguments`.
    ///
    /// An unknown name is `MethodNotFound`, with a message that gives the name. A
    /// bag that fails the tool's parameters is `InvalidParams`, with the message
    /// of the violation; no handler runs then. Otherwise the handler's answer is
    /// put into one block of text: its headline, followed on a new line by the
    /// pretty-printed document where the answer has one. That a cat or a breed
    /// was not found is such an answer, not a failure.
    pub fn call_tool(&self, name: &str, arguments: &ArgBag) -> (outcome: Result<
        CallToolResult,
        ToolError,
    >)
        ensures
            outcome_view(outcome) == call_result(self.tools@, self.cats@, name@, arguments@),
    {
        let entry = match self.tools.lookup(name) {
            Some(entry) => entry,
            None => {
                let mut message = String::from_str("Unknown tool: ");
                message.append(name);
                return Err(ToolError::new(ErrorCode::MethodNotFound, message));
            },
        };
        let args = match validate(&entry.descriptor.input, arguments) {
            Ok(args) => args,
            Err(error) => {
                return Err(ToolError::new(ErrorCode::InvalidParams, error.message()));
            },
        };
        proof {
            use_type_invariant(&self.tools);
            let at = choose|i: int|
                0 <= i < self.tools@.len() && (#[trigger] self.tools@[i]).tool.name == name@;
            assert(self.tools@[at] == entry@);
            assert(entry@.tool.params == handler_params(entry.handler));
            validated_args_bind(entry.handler, arguments@);
        }
        let query = match bind(entry.handler, &args) {
            Some(query) => query,
            None => unreached(),
        };
        let found = run(&query, &self.cats);
        let line = found.headline();
        let body = found.print();
        encode(line, body)
    }
}

} // verus!
