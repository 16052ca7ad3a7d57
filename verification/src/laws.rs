//! What holds of the engine as a whole, proved from the definitions that the
//! contracts of its functions use.

use crate::catalog::{find_tool, handler_params, has_tool, in_step, EntryView, ParamView};
use crate::dispatch::{
    answer, answer_count, bound, counted, headline, validated_args_bind, AnswerView, ErrorCode,
    QueryView,
};
use crate::entity::CatView;
use crate::repository::{filter_accepts, matching, CatFilterView};
use crate::server::{advertised, asked, call_outcome, call_result, rejection, tools_page};
use crate::validate::{
    first_missing, first_mistyped, is_missing, typed_args, validation, ArgValueView, TypedView,
    ValidationErrorView,
};
use vstd::prelude::*;

verus! {

/// In a catalogue that is in step, the entry found under a name declares the
/// parameters that its handler reads.
pub proof fn found_tool_is_in_step(tools: Seq<EntryView>, name: Seq<char>)
    requires
        in_step(tools),
        has_tool(tools, name),
    ensures
        find_tool(tools, name) matches Some(entry) && entry.tool.name == name && entry.tool.params
            == handler_params(entry.handler),
{
    let at = choose|i: int| 0 <= i < tools.len() && (#[trigger] tools[i]).tool.name == name;
    assert(tools[at].tool.params == handler_params(tools[at].handler));
}

/// A known tool, invoked with a bag that passes its parameters, is carried out:
/// the outcome is a result of one block that is no error. It is never
/// `MethodNotFound` and never `InvalidParams`; whatever a printer could make of
/// the document, the only failure is the internal error of a printer that failed.
pub proof fn valid_call_is_carried_out(
    tools: Seq<EntryView>,
    cats: Seq<CatView>,
    name: Seq<char>,
    bag: Map<Seq<char>, ArgValueView>,
    printed: Result<Seq<char>, Seq<char>>,
)
    requires
        in_step(tools),
        has_tool(tools, name),
        validation(find_tool(tools, name)->0.tool.params, bag) is Ok,
    ensures
        rejection(tools, name, bag) is None,
        bound(
            find_tool(tools, name)->0.handler,
            validation(find_tool(tools, name)->0.tool.params, bag)->Ok_0,
        ) is Some,
        call_result(tools, cats, name, bag) matches Ok(result) && result.content.len() == 1
            && !result.is_error,
        match call_outcome(tools, cats, name, bag, printed) {
            Ok(result) => result.content.len() == 1 && !result.is_error,
            Err(error) => error.code == ErrorCode::InternalError && printed is Err,
        },
{
    found_tool_is_in_step(tools, name);
    validated_args_bind(find_tool(tools, name)->0.handler, bag);
}

/// Where a required parameter is absent from the bag, validation fails with a
/// missing parameter, and the parameter it names is required and absent.
pub proof fn omission_fails_validation(
    params: Seq<ParamView>,
    bag: Map<Seq<char>, ArgValueView>,
    i: int,
)
    requires
        0 <= i < params.len(),
        is_missing(params[i], bag),
    ensures
        first_missing(params, bag) matches Some(param) && is_missing(param, bag) && exists|j: int|
            0 <= j <= i && params[j] == param,
        validation(params, bag) == Err::<Seq<(Seq<char>, TypedView)>, _>(
            ValidationErrorView::MissingParameter { name: first_missing(params, bag)->0.name },
        ),
    decreases params.len(),
{
    if is_missing(params[0], bag) {
        assert(params[0] == first_missing(params, bag)->0);
    } else {
        let rest = params.drop_first();
        assert(rest[i - 1] == params[i]);
        omission_fails_validation(rest, bag, i - 1);
        let j = choose|j: int| 0 <= j <= i - 1 && rest[j] == first_missing(rest, bag)->0;
        assert(params[j + 1] == first_missing(params, bag)->0);
    }
}

/// Where a required parameter is absent from the bag and no parameter before it
/// in the contract is missing, validation names that parameter.
pub proof fn first_omission_is_named(
    params: Seq<ParamView>,
    bag: Map<Seq<char>, ArgValueView>,
    i: int,
)
    requires
        0 <= i < params.len(),
        is_missing(params[i], bag),
        forall|j: int| 0 <= j < i ==> !is_missing(#[trigger] params[j], bag),
    ensures
        validation(params, bag) == Err::<Seq<(Seq<char>, TypedView)>, _>(
            ValidationErrorView::MissingParameter { name: params[i].name },
        ),
    decreases params.len(),
{
    if i > 0 {
        let rest = params.drop_first();
        assert(rest[i - 1] == params[i]);
        assert forall|j: int| 0 <= j < i - 1 implies !is_missing(#[trigger] rest[j], bag) by {
            assert(rest[j] == params[j + 1]);
        }
        first_omission_is_named(rest, bag, i - 1);
    }
}

/// An invocation that leaves a required parameter of its tool out fails with
/// `InvalidParams`; where no parameter before it is missing too, the message
/// names it.
pub proof fn omission_is_invalid_params(
    tools: Seq<EntryView>,
    cats: Seq<CatView>,
    name: Seq<char>,
    bag: Map<Seq<char>, ArgValueView>,
    printed: Result<Seq<char>, Seq<char>>,
    i: int,
)
    requires
        find_tool(tools, name) matches Some(entry) && 0 <= i < entry.tool.params.len()
            && is_missing(entry.tool.params[i], bag),
    ensures
        call_outcome(tools, cats, name, bag, printed) matches Err(error) && error.code
            == ErrorCode::InvalidParams,
        (forall|j: int|
            0 <= j < i ==> !is_missing(#[trigger] find_tool(tools, name)->0.tool.params[j], bag))
            ==> call_outcome(tools, cats, name, bag, printed)->Err_0.message == find_tool(
            tools,
            name,
        )->0.tool.params[i].name + " is required"@,
{
    let params = find_tool(tools, name)->0.tool.params;
    omission_fails_validation(params, bag, i);
    if forall|j: int| 0 <= j < i ==> !is_missing(#[trigger] params[j], bag) {
        first_omission_is_named(params, bag, i);
    }
}

/// The three parts of validation are each unchanged by a value under a name that
/// the contract does not declare.
proof fn undeclared_name_leaves_parts(
    params: Seq<ParamView>,
    bag: Map<Seq<char>, ArgValueView>,
    name: Seq<char>,
    value: ArgValueView,
)
    requires
        forall|i: int| 0 <= i < params.len() ==> (#[trigger] params[i]).name != name,
    ensures
        first_missing(params, bag.insert(name, value)) == first_missing(params, bag),
        first_mistyped(params, bag.insert(name, value)) == first_mistyped(params, bag),
        typed_args(params, bag.insert(name, value)) == typed_args(params, bag),
    decreases params.len(),
{
    if params.len() > 0 {
        let rest = params.drop_first();
        assert(params[0].name != name);
        assert forall|i: int| 0 <= i < rest.len() implies (#[trigger] rest[i]).name != name by {
            assert(rest[i] == params[i + 1]);
        }
        undeclared_name_leaves_parts(rest, bag, name, value);
    }
}

/// What the bag holds under a name that the contract does not declare makes no
/// difference to validation.
pub proof fn undeclared_name_is_ignored(
    params: Seq<ParamView>,
    bag: Map<Seq<char>, ArgValueView>,
    name: Seq<char>,
    value: ArgValueView,
)
    requires
        forall|i: int| 0 <= i < params.len() ==> (#[trigger] params[i]).name != name,
    ensures
        validation(params, bag.insert(name, value)) == validation(params, bag),
{
    undeclared_name_leaves_parts(params, bag, name, value);
}

/// What the bag holds under a name that the invoked tool does not declare makes
/// no difference to the outcome of the invocation.
pub proof fn undeclared_name_leaves_outcome(
    tools: Seq<EntryView>,
    cats: Seq<CatView>,
    tool: Seq<char>,
    bag: Map<Seq<char>, ArgValueView>,
    name: Seq<char>,
    value: ArgValueView,
)
    requires
        find_tool(tools, tool) matches Some(entry) ==> forall|i: int|
            0 <= i < entry.tool.params.len() ==> (#[trigger] entry.tool.params[i]).name != name,
    ensures
        rejection(tools, tool, bag.insert(name, value)) == rejection(tools, tool, bag),
        find_tool(tools, tool) is Some ==> asked(tools, tool, bag.insert(name, value)) == asked(
            tools,
            tool,
            bag,
        ),
        call_result(tools, cats, tool, bag.insert(name, value)) == call_result(
            tools,
            cats,
            tool,
            bag,
        ),
{
    if find_tool(tools, tool) is Some {
        undeclared_name_is_ignored(find_tool(tools, tool)->0.tool.params, bag, name, value);
    }
}

/// A listing does not depend on the cursor it is asked with: it is the whole
/// catalogue in the catalogue's order, tool by tool, and it names no next page.
/// So two listings of one catalogue are the same.
pub proof fn listing_is_stable(
    tools: Seq<EntryView>,
    first: Option<Seq<char>>,
    second: Option<Seq<char>>,
)
    ensures
        tools_page(tools, first) == tools_page(tools, second),
        tools_page(tools, first).next_cursor is None,
        tools_page(tools, first).tools == advertised(tools),
        advertised(tools).len() == tools.len(),
        forall|i: int|
            0 <= i < tools.len() ==> (#[trigger] advertised(tools)[i]).name == tools[i].tool.name,
{
}

/// Listing every cat gives as many cats as the repository holds, they are the
/// repository's cats, and the headline gives their number; a filter gives no
/// more cats than the repository holds, each of them accepted by the filter.
pub proof fn answers_are_bounded(cats: Seq<CatView>, breed: Seq<char>)
    ensures
        answer(QueryView::ListAll, cats) == AnswerView::All(cats),
        answer_count(answer(QueryView::ListAll, cats)) == cats.len(),
        headline(answer(QueryView::ListAll, cats)) == "All registered cats "@ + counted(
            cats.len(),
        ),
        answer_count(answer(QueryView::SearchByBreed(breed), cats)) <= cats.len(),
        answer_count(answer(QueryView::IndoorOnly, cats)) <= cats.len(),
        forall|i: int|
            0 <= i < matching(cats, CatFilterView::Indoor).len() ==> (#[trigger] matching(
                cats,
                CatFilterView::Indoor,
            )[i]).is_indoor,
        forall|i: int|
            0 <= i < matching(cats, CatFilterView::BreedContains(breed)).len() ==> filter_accepts(
                CatFilterView::BreedContains(breed),
                #[trigger] matching(cats, CatFilterView::BreedContains(breed))[i],
            ),
{
    let by_breed = |cat: CatView| filter_accepts(CatFilterView::BreedContains(breed), cat);
    let indoor = |cat: CatView| filter_accepts(CatFilterView::Indoor, cat);
    cats.lemma_filter_len(by_breed);
    cats.lemma_filter_len(indoor);
    assert forall|i: int| 0 <= i < cats.filter(indoor).len() implies (#[trigger] cats.filter(
        indoor,
    )[i]).is_indoor by {
        cats.lemma_filter_pred(indoor, i);
    }
    assert forall|i: int| 0 <= i < cats.filter(by_breed).len() implies filter_accepts(
        CatFilterView::BreedContains(breed),
        #[trigger] cats.filter(by_breed)[i],
    ) by {
        cats.lemma_filter_pred(by_breed, i);
    }
}

/// Every query is answered with no more cats than there are.
pub proof fn answer_is_bounded(cats: Seq<CatView>, query: QueryView)
    ensures
        answer_count(answer(query, cats)) <= cats.len(),
{
    match query {
        QueryView::SearchByBreed(breed) => answers_are_bounded(cats, breed),
        QueryView::IndoorOnly => answers_are_bounded(cats, Seq::empty()),
        _ => {},
    }
}

} // verus!
