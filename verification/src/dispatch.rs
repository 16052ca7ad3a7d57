//! From a validated invocation to its result: the typed query that a handler
//! reads, the answer that the repository gives, and the text that stands for it.

use crate::catalog::{handler_params, kind_name, Handler};
use crate::entity::{cat_document, cat_views, cats_document, cats_to_json, Cat, CatView};
use crate::json::{json_error_text, json_model, json_pretty, pretty_json, JsonModel};
use crate::repository::{lookup, matching, CatFilter, CatFilterView, CatRepository};
use crate::text::{decimal, decimal_text, signed_decimal, signed_decimal_text};
use crate::validate::{
    coerced, first_missing, first_mistyped, first_named, typed_args, validation, ArgValueView,
    Number, NumberView, TypedArg, TypedView, ValidatedArgs, ValidationError, ValidationErrorView,
};
use vstd::prelude::*;
use vstd::string::*;

verus! {

/// The kind of a failure.
#[derive(Clone, Copy, PartialEq, Eq, Structural, Debug)]
pub enum ErrorCode {
    /// The argument bag fails the tool's parameters.
    InvalidParams,
    /// No tool carries the requested name.
    MethodNotFound,
    /// The result could not be put into text.
    InternalError,
}

/// A failure: its kind, a message for the caller, and data for a machine where
/// there is any.
#[derive(Debug)]
pub struct ToolError {
    pub code: ErrorCode,
    pub message: String,
    pub data: Option<serde_json::Value>,
}

/// What a [`ToolError`] holds, as mathematical values.
pub struct ToolErrorView {
    pub code: ErrorCode,
    pub message: Seq<char>,
    pub data: Option<JsonModel>,
}

impl View for ToolError {
    type V = ToolErrorView;

    open spec fn view(&self) -> ToolErrorView {
        ToolErrorView {
            code: self.code,
            message: self.message@,
            data: match self.data {
                Some(value) => Some(json_model(value)),
                None => None,
            },
        }
    }
}

/// The failure of this kind with this message and no data.
pub open spec fn failure(code: ErrorCode, message: Seq<char>) -> ToolErrorView {
    ToolErrorView { code, message, data: None }
}

impl ToolError {
    /// The failure of this kind with this message and no data.
    pub fn new(code: ErrorCode, message: String) -> (error: ToolError)
        ensures
            error@ == failure(code, message@),
    {
        ToolError { code, message, data: None }
    }
}

/// One block of a result: plain text.
#[derive(Debug, PartialEq, Eq)]
pub struct Content {
    pub text: String,
}

/// The result of an invocation that was carried out.
#[derive(Debug, PartialEq, Eq)]
pub struct CallToolResult {
    pub content: Vec<Content>,
    pub is_error: bool,
}

/// What a [`CallToolResult`] holds, as mathematical values.
pub struct CallToolResultView {
    pub content: Seq<Seq<char>>,
    pub is_error: bool,
}

impl View for CallToolResult {
    type V = CallToolResultView;

    open spec fn view(&self) -> CallToolResultView {
        CallToolResultView {
            content: Seq::new(self.content@.len(), |i: int| self.content@[i].text@),
            is_error: self.is_error,
        }
    }
}

/// The message that reports a violation: it names the parameter and says
/// whether it is absent or of the wrong type.
pub open spec fn violation_message(error: ValidationErrorView) -> Seq<char> {
    match error {
        ValidationErrorView::MissingParameter { name } => name + " is required"@,
        ValidationErrorView::TypeMismatch { name, expected } => name + " must be a "@ + kind_name(
            expected,
        ),
    }
}

impl ValidationError {
    /// The message that reports this violation.
    pub fn message(&self) -> (text: String)
        ensures
            text@ == violation_message(self@),
    {
        match self {
            ValidationError::MissingParameter { name } => {
                let mut text = name.clone();
                text.append(" is required");
                text
            },
            ValidationError::TypeMismatch { name, expected } => {
                let mut text = name.clone();
                text.append(" must be a ");
                text.append(expected.name());
                text
            },
        }
    }
}

/// The text that writes a number: the decimal numeral of a whole number, and a
/// number that is not whole as it was given.
pub open spec fn number_text(number: NumberView) -> Seq<char> {
    match number {
        NumberView::Whole(i) => signed_decimal(i),
        NumberView::Real(text) => text,
    }
}

/// The id that a number names: a whole number that a cat's id can be.
pub open spec fn cat_id(number: NumberView) -> Option<nat> {
    match number {
        NumberView::Whole(i) => if 0 <= i <= u32::MAX {
            Some(i as nat)
        } else {
            None
        },
        NumberView::Real(_) => None,
    }
}

impl Number {
    /// The text that writes this number.
    pub fn text(&self) -> (text: String)
        ensures
            text@ == number_text(self@),
    {
        match self {
            Number::Unsigned(n) => decimal_text(*n),
            Number::Signed(i) => signed_decimal_text(*i),
            Number::Real(text) => text.clone(),
        }
    }

    /// The id that this number names, or `None` where no cat can have it.
    pub fn as_id(&self) -> (id: Option<u32>)
        ensures
            match id {
                Some(n) => cat_id(self@) == Some(n as nat),
                None => cat_id(self@) is None,
            },
    {
        match self {
            Number::Unsigned(n) => if *n <= u32::MAX as u64 {
                Some(*n as u32)
            } else {
                None
            },
            Number::Signed(i) => if 0 <= *i && *i <= u32::MAX as i64 {
                Some(*i as u32)
            } else {
                None
            },
            Number::Real(_) => None,
        }
    }
}

/// What a handler is asked, with its arguments in their types.
#[derive(Debug, PartialEq, Eq)]
pub enum Query {
    ListAll,
    GetById(Number),
    SearchByBreed(String),
    IndoorOnly,
}

/// What a [`Query`] holds, as mathematical values.
pub enum QueryView {
    ListAll,
    GetById(NumberView),
    SearchByBreed(Seq<char>),
    IndoorOnly,
}

impl View for Query {
    type V = QueryView;

    open spec fn view(&self) -> QueryView {
        match self {
            Query::ListAll => QueryView::ListAll,
            Query::GetById(number) => QueryView::GetById(number@),
            Query::SearchByBreed(text) => QueryView::SearchByBreed(text@),
            Query::IndoorOnly => QueryView::IndoorOnly,
        }
    }
}

/// The query that a handler makes of validated arguments: none where they lack
/// what the handler reads.
pub open spec fn bound(handler: Handler, args: Seq<(Seq<char>, TypedView)>) -> Option<QueryView> {
    match handler {
        Handler::ListAll => Some(QueryView::ListAll),
        Handler::GetById => match first_named(args, "id"@) {
            Some(TypedView::Number(number)) => Some(QueryView::GetById(number)),
            _ => None,
        },
        Handler::SearchByBreed => match first_named(args, "breed"@) {
            Some(TypedView::Text(text)) => Some(QueryView::SearchByBreed(text)),
            _ => None,
        },
        Handler::IndoorOnly => Some(QueryView::IndoorOnly),
    }
}

/// Arguments that pass a handler's own parameters hold what the handler reads.
pub proof fn validated_args_bind(handler: Handler, bag: Map<Seq<char>, ArgValueView>)
    requires
        validation(handler_params(handler), bag) is Ok,
    ensures
        bound(handler, validation(handler_params(handler), bag)->Ok_0) is Some,
{
    let params = handler_params(handler);
    reveal_with_fuel(first_missing, 2);
    reveal_with_fuel(first_mistyped, 2);
    reveal_with_fuel(typed_args, 2);
    reveal_with_fuel(first_named, 2);
    match handler {
        Handler::GetById | Handler::SearchByBreed => {
            let param = params[0];
            assert(params.drop_first() =~= Seq::empty());
            let args = typed_args(params, bag);
            assert(args =~= seq![(param.name, coerced(param.kind, bag[param.name])->0)]);
            assert(args[0].0 == param.name);
        },
        _ => {},
    }
}

/// Makes the query that `handler` reads out of validated arguments.
pub fn bind(handler: Handler, args: &ValidatedArgs) -> (query: Option<Query>)
    ensures
        match query {
            Some(q) => bound(handler, args@) == Some(q@),
            None => bound(handler, args@) is None,
        },
{
    match handler {
        Handler::ListAll => Some(Query::ListAll),
        Handler::GetById => match args.get("id") {
            Some(TypedArg::Number(number)) => Some(Query::GetById(number.duplicate())),
            _ => None,
        },
        Handler::SearchByBreed => match args.get("breed") {
            Some(TypedArg::Text(text)) => Some(Query::SearchByBreed(text.clone())),
            _ => None,
        },
        Handler::IndoorOnly => Some(Query::IndoorOnly),
    }
}

/// What the repository gives for a query.
#[derive(Debug, PartialEq, Eq)]
pub enum Answer<'a> {
    /// Every cat.
    All(Vec<&'a Cat>),
    /// The cat with the id that was asked for.
    Details(&'a Cat),
    /// No cat has the id that was asked for.
    NoSuchCat(Number),
    /// The cats whose breed contains the text; there may be none.
    BreedMatches { breed: String, cats: Vec<&'a Cat> },
    /// The cats that live indoors.
    Indoor(Vec<&'a Cat>),
}

/// What an [`Answer`] holds, as mathematical values.
pub enum AnswerView {
    All(Seq<CatView>),
    Details(CatView),
    NoSuchCat(NumberView),
    BreedMatches { breed: Seq<char>, cats: Seq<CatView> },
    Indoor(Seq<CatView>),
}

impl<'a> View for Answer<'a> {
    type V = AnswerView;

    open spec fn view(&self) -> AnswerView {
        match self {
            Answer::All(cats) => AnswerView::All(cat_views(cats@)),
            Answer::Details(cat) => AnswerView::Details(cat@),
            Answer::NoSuchCat(number) => AnswerView::NoSuchCat(number@),
            Answer::BreedMatches { breed, cats } => AnswerView::BreedMatches {
                breed: breed@,
                cats: cat_views(cats@),
            },
            Answer::Indoor(cats) => AnswerView::Indoor(cat_views(cats@)),
        }
    }
}

/// The answer to a query over a sequence of cats.
pub open spec fn answer(query: QueryView, cats: Seq<CatView>) -> AnswerView {
    match query {
        QueryView::ListAll => AnswerView::All(cats),
        QueryView::GetById(number) => match cat_id(number) {
            Some(id) => match lookup(cats, id) {
                Some(cat) => AnswerView::Details(cat),
                None => AnswerView::NoSuchCat(number),
            },
            None => AnswerView::NoSuchCat(number),
        },
        QueryView::SearchByBreed(text) => AnswerView::BreedMatches {
            breed: text,
            cats: matching(cats, CatFilterView::BreedContains(text)),
        },
        QueryView::IndoorOnly => AnswerView::Indoor(matching(cats, CatFilterView::Indoor)),
    }
}

/// The number of cats that an answer lists.
pub open spec fn answer_count(answer: AnswerView) -> nat {
    match answer {
        AnswerView::All(cats) => cats.len(),
        AnswerView::Details(_) => 1,
        AnswerView::NoSuchCat(_) => 0,
        AnswerView::BreedMatches { cats, .. } => cats.len(),
        AnswerView::Indoor(cats) => cats.len(),
    }
}

/// Answers `query` from `cats`.
pub fn run<'a>(query: &Query, cats: &'a CatRepository) -> (out: Answer<'a>)
    ensures
        out@ == answer(query@, cats@),
        answer_count(out@) <= cats@.len(),
{
    match query {
        Query::ListAll => Answer::All(cats.all()),
        Query::GetById(number) => match number.as_id() {
            Some(id) => match cats.get(id) {
                Some(cat) => Answer::Details(cat),
                None => Answer::NoSuchCat(number.duplicate()),
            },
            None => Answer::NoSuchCat(number.duplicate()),
        },
        Query::SearchByBreed(text) => {
            let filter = CatFilter::BreedContains(text.clone());
            Answer::BreedMatches { breed: text.clone(), cats: cats.filter(&filter) }
        },
        Query::IndoorOnly => Answer::Indoor(cats.filter(&CatFilter::Indoor)),
    }
}

/// A count of cats, as the headline of a listing gives it.
pub open spec fn counted(count: nat) -> Seq<char> {
    "("@ + decimal(count) + " cats):"@
}

/// The line that sums an answer up: what was asked for and how many cats came
/// back, or that nothing was found.
pub open spec fn headline(answer: AnswerView) -> Seq<char> {
    match answer {
        AnswerView::All(cats) => "All registered cats "@ + counted(cats.len()),
        AnswerView::Details(cat) => "Cat details (ID: "@ + decimal(cat.id) + "):"@,
        AnswerView::NoSuchCat(number) => "Cat with ID "@ + number_text(number) + " not found"@,
        AnswerView::BreedMatches { breed, cats } => if cats.len() == 0 {
            "No cats found with breed \""@ + breed + "\""@
        } else {
            "Cats with breed \""@ + breed + "\" "@ + counted(cats.len())
        },
        AnswerView::Indoor(cats) => "Indoor cats "@ + counted(cats.len()),
    }
}

/// The JSON document that follows the headline: the cats that the answer lists.
/// An answer that found nothing to list has none.
pub open spec fn document(answer: AnswerView) -> Option<JsonModel> {
    match answer {
        AnswerView::All(cats) => Some(cats_document(cats)),
        AnswerView::Details(cat) => Some(cat_document(cat)),
        AnswerView::NoSuchCat(_) => None,
        AnswerView::BreedMatches { cats, .. } => if cats.len() == 0 {
            None
        } else {
            Some(cats_document(cats))
        },
        AnswerView::Indoor(cats) => Some(cats_document(cats)),
    }
}

/// What an attempt to print a document gave: its text, or the reason for which
/// it failed.
pub type Printed = Result<String, String>;

/// The result that stands for a headline and the outcome of printing the
/// document, if there was one to print. Without a document the headline is the
/// whole text; a printed document follows the headline on a new line; a failure
/// to print is an internal error that carries the reason, and nothing else of the
/// answer.
pub open spec fn encoded(headline: Seq<char>, body: Option<Result<Seq<char>, Seq<char>>>) -> Result<
    CallToolResultView,
    ToolErrorView,
> {
    match body {
        None => Ok(CallToolResultView { content: seq![headline], is_error: false }),
        Some(Ok(text)) => Ok(
            CallToolResultView { content: seq![headline + "\n"@ + text], is_error: false },
        ),
        Some(Err(reason)) => Err(
            failure(ErrorCode::InternalError, "Serialization error: "@ + reason),
        ),
    }
}

/// The view of what was printed.
pub open spec fn printed_view(body: Option<Printed>) -> Option<Result<Seq<char>, Seq<char>>> {
    match body {
        None => None,
        Some(Ok(text)) => Some(Ok(text@)),
        Some(Err(reason)) => Some(Err(reason@)),
    }
}

/// The view of the outcome of an invocation.
pub open spec fn outcome_view(outcome: Result<CallToolResult, ToolError>) -> Result<
    CallToolResultView,
    ToolErrorView,
> {
    match outcome {
        Ok(result) => Ok(result@),
        Err(error) => Err(error@),
    }
}

/// Puts a headline and the outcome of printing the document into a result.
pub fn encode(headline: String, body: Option<Printed>) -> (outcome: Result<CallToolResult, ToolError>)
    ensures
        outcome_view(outcome) == encoded(headline@, printed_view(body)),
{
    match body {
        None => {
            let mut content: Vec<Content> = Vec::new();
            content.push(Content { text: headline });
            let result = CallToolResult { content, is_error: false };
            assert(result@.content =~= seq![headline@]);
            Ok(result)
        },
        Some(Ok(text)) => {
            let mut whole = headline;
            whole.append("\n");
            whole.append(text.as_str());
            let mut content: Vec<Content> = Vec::new();
            content.push(Content { text: whole });
            let result = CallToolResult { content, is_error: false };
            assert(result@.content =~= seq![headline@ + "\n"@ + text@]);
            Ok(result)
        },
        Some(Err(reason)) => {
            let mut message = String::from_str("Serialization error: ");
            message.append(reason.as_str());
            Err(ToolError::new(ErrorCode::InternalError, message))
        },
    }
}

/// The count of a listing, in text.
fn counted_text(count: usize) -> (text: String)
    ensures
        text@ == counted(count as nat),
{
    let mut text = String::from_str("(");
    text.append(decimal_text(count as u64).as_str());
    text.append(" cats):");
    text
}

impl<'a> Answer<'a> {
    /// The line that sums this answer up.
    pub fn headline(&self) -> (line: String)
        ensures
            line@ == headline(self@),
    {
        match self {
            Answer::All(cats) => {
                let mut line = String::from_str("All registered cats ");
                line.append(counted_text(cats.len()).as_str());
                line
            },
            Answer::Details(cat) => {
                let mut line = String::from_str("Cat details (ID: ");
                line.append(decimal_text(cat.id as u64).as_str());
                line.append("):");
                line
            },
            Answer::NoSuchCat(number) => {
                let mut line = String::from_str("Cat with ID ");
                line.append(number.text().as_str());
                line.append(" not found");
                line
            },
            Answer::BreedMatches { breed, cats } => {
                if cats.len() == 0 {
                    let mut line = String::from_str("No cats found with breed \"");
                    line.append(breed.as_str());
                    line.append("\"");
                    line
                } else {
                    let mut line = String::from_str("Cats with breed \"");
                    line.append(breed.as_str());
                    line.append("\" ");
                    line.append(counted_text(cats.len()).as_str());
                    line
                }
            },
            Answer::Indoor(cats) => {
                let mut line = String::from_str("Indoor cats ");
                line.append(counted_text(cats.len()).as_str());
                line
            },
        }
    }

    /// The JSON document that follows the headline, if the answer has one.
    pub fn to_json(&self) -> (value: Option<serde_json::Value>)
        ensures
            match value {
                Some(v) => document(self@) == Some(json_model(v)),
                None => document(self@) is None,
            },
    {
        match self {
            Answer::All(cats) => Some(cats_to_json(cats)),
            Answer::Details(cat) => Some(cat.to_json()),
            Answer::NoSuchCat(_) => None,
            Answer::BreedMatches { breed, cats } => {
                if cats.len() == 0 {
                    None
                } else {
                    Some(cats_to_json(cats))
                }
            },
            Answer::Indoor(cats) => Some(cats_to_json(cats)),
        }
    }

    /// Prints the document of this answer, if it has one: the text is the
    /// pretty-printed document. The printer's type admits a failure, which would
    /// be handed on with its reason; on a document it does not fail.
    pub fn print(&self) -> (body: Option<Printed>)
        ensures
            printed_view(body) == (match document(self@) {
                Some(wanted) => Some(Ok::<Seq<char>, Seq<char>>(pretty_json(wanted))),
                None => None,
            }),
    {
        match self.to_json() {
            None => None,
            Some(value) => match json_pretty(&value) {
                Ok(text) => Some(Ok(text)),
                Err(error) => Some(Err(json_error_text(&error))),
            },
        }
    }
}

} // verus!
