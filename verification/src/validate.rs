//! Arguments as they arrive, and as they are after validation.
//!
//! An argument bag maps parameter names to loosely typed values. Validation
//! holds the bag against a tool's parameters and hands back typed arguments,
//! or the first violation. It reads the bag and changes nothing.

use crate::catalog::{param_views, InputContract, ParamKind, ParamView};
use crate::text::same_text;
use vstd::prelude::*;

verus! {

/// A JSON number. A whole number is held as it is; any other number is held as
/// the text that writes it.
#[derive(Debug, PartialEq, Eq)]
pub enum Number {
    Unsigned(u64),
    Signed(i64),
    Real(String),
}

/// What a [`Number`] holds, as mathematical values.
pub enum NumberView {
    Whole(int),
    Real(Seq<char>),
}

impl View for Number {
    type V = NumberView;

    open spec fn view(&self) -> NumberView {
        match self {
            Number::Unsigned(n) => NumberView::Whole(*n as int),
            Number::Signed(n) => NumberView::Whole(*n as int),
            Number::Real(text) => NumberView::Real(text@),
        }
    }
}

/// A loosely typed argument value. The contents of arrays and objects are not
/// kept: no parameter takes one.
#[derive(Debug, PartialEq, Eq)]
pub enum ArgValue {
    Null,
    Bool(bool),
    Number(Number),
    Text(String),
    Array,
    Object,
}

/// What an [`ArgValue`] holds, as mathematical values.
pub enum ArgValueView {
    Null,
    Bool(bool),
    Number(NumberView),
    Text(Seq<char>),
    Array,
    Object,
}

impl View for ArgValue {
    type V = ArgValueView;

    open spec fn view(&self) -> ArgValueView {
        match self {
            ArgValue::Null => ArgValueView::Null,
            ArgValue::Bool(flag) => ArgValueView::Bool(*flag),
            ArgValue::Number(number) => ArgValueView::Number(number@),
            ArgValue::Text(text) => ArgValueView::Text(text@),
            ArgValue::Array => ArgValueView::Array,
            ArgValue::Object => ArgValueView::Object,
        }
    }
}

/// A validated argument, of the type that its parameter declares.
#[derive(Debug, PartialEq, Eq)]
pub enum TypedArg {
    Number(Number),
    Text(String),
    Flag(bool),
}

/// What a [`TypedArg`] holds, as mathematical values.
pub enum TypedView {
    Number(NumberView),
    Text(Seq<char>),
    Flag(bool),
}

impl View for TypedArg {
    type V = TypedView;

    open spec fn view(&self) -> TypedView {
        match self {
            TypedArg::Number(number) => TypedView::Number(number@),
            TypedArg::Text(text) => TypedView::Text(text@),
            TypedArg::Flag(flag) => TypedView::Flag(*flag),
        }
    }
}

/// The typed argument that a value gives for a parameter of this kind: a number
/// for a number, a string for a string, a boolean for a boolean, and nothing for
/// any other pairing.
pub open spec fn coerced(kind: ParamKind, value: ArgValueView) -> Option<TypedView> {
    match (kind, value) {
        (ParamKind::Number, ArgValueView::Number(number)) => Some(TypedView::Number(number)),
        (ParamKind::Text, ArgValueView::Text(text)) => Some(TypedView::Text(text)),
        (ParamKind::Boolean, ArgValueView::Bool(flag)) => Some(TypedView::Flag(flag)),
        _ => None,
    }
}

impl Number {
    /// A copy of this number.
    pub fn duplicate(&self) -> (copy: Number)
        ensures
            copy@ == self@,
    {
        match self {
            Number::Unsigned(n) => Number::Unsigned(*n),
            Number::Signed(n) => Number::Signed(*n),
            Number::Real(text) => Number::Real(text.clone()),
        }
    }
}

/// The typed argument that `value` gives for a parameter of this kind.
pub fn coerce(kind: ParamKind, value: &ArgValue) -> (typed: Option<TypedArg>)
    ensures
        match typed {
            Some(arg) => coerced(kind, value@) == Some(arg@),
            None => coerced(kind, value@) is None,
        },
{
    match kind {
        ParamKind::Number => match value {
            ArgValue::Number(number) => Some(TypedArg::Number(number.duplicate())),
            _ => None,
        },
        ParamKind::Text => match value {
            ArgValue::Text(text) => Some(TypedArg::Text(text.clone())),
            _ => None,
        },
        ParamKind::Boolean => match value {
            ArgValue::Bool(flag) => Some(TypedArg::Flag(*flag)),
            _ => None,
        },
    }
}

/// The mapping that a list of named values stands for: a later value replaces
/// an earlier one of the same name.
pub open spec fn bag_of(entries: Seq<(String, ArgValue)>) -> Map<Seq<char>, ArgValueView>
    decreases entries.len(),
{
    if entries.len() == 0 {
        Map::empty()
    } else {
        bag_of(entries.drop_last()).insert(entries.last().0@, entries.last().1@)
    }
}

/// Entries from position `from` on say nothing of `name`, so the mapping is at
/// `name` what the entries before `from` make it.
proof fn bag_ignores_tail(entries: Seq<(String, ArgValue)>, from: int, name: Seq<char>)
    requires
        0 <= from <= entries.len(),
        forall|k: int| from <= k < entries.len() ==> (#[trigger] entries[k]).0@ != name,
    ensures
        bag_of(entries).contains_key(name) == bag_of(entries.take(from)).contains_key(name),
        bag_of(entries).contains_key(name) ==> bag_of(entries)[name] == bag_of(
            entries.take(from),
        )[name],
    decreases entries.len() - from,
{
    if from == entries.len() {
        assert(entries.take(from) =~= entries);
    } else {
        let shorter = entries.drop_last();
        assert(entries.last().0@ != name);
        assert(shorter.take(from) =~= entries.take(from));
        bag_ignores_tail(shorter, from, name);
    }
}

/// The arguments of one invocation, by parameter name.
#[derive(Debug, PartialEq, Eq)]
pub struct ArgBag {
    entries: Vec<(String, ArgValue)>,
}

impl View for ArgBag {
    type V = Map<Seq<char>, ArgValueView>;

    closed spec fn view(&self) -> Map<Seq<char>, ArgValueView> {
        bag_of(self.entries@)
    }
}

impl ArgBag {
    /// The bag without arguments.
    pub fn new() -> (bag: ArgBag)
        ensures
            bag@ == Map::<Seq<char>, ArgValueView>::empty(),
    {
        ArgBag { entries: Vec::new() }
    }

    /// Puts `value` under `name`, in the place of any value that stood there.
    pub fn insert(&mut self, name: String, value: ArgValue)
        ensures
            final(self)@ == old(self)@.insert(name@, value@),
    {
        let ghost before = self.entries@;
        self.entries.push((name, value));
        assert(self.entries@.drop_last() =~= before);
    }

    /// The value under `name`, or `None` where the bag has none.
    pub fn get(&self, name: &str) -> (found: Option<&ArgValue>)
        ensures
            match found {
                Some(value) => self@.contains_key(name@) && self@[name@] == value@,
                None => !self@.contains_key(name@),
            },
    {
        let mut i: usize = self.entries.len();
        while i > 0
            invariant
                i <= self.entries@.len(),
                forall|k: int| i <= k < self.entries@.len() ==> (#[trigger] self.entries@[k]).0@ != name@,
            decreases i,
        {
            i -= 1;
            if same_text(self.entries[i].0.as_str(), name) {
                proof {
                    bag_ignores_tail(self.entries@, i + 1, name@);
                    let upto = self.entries@.take(i + 1);
                    assert(upto.last() == self.entries@[i as int]);
                }
                return Some(&self.entries[i].1);
            }
        }
        proof {
            bag_ignores_tail(self.entries@, 0, name@);
            assert(self.entries@.take(0) =~= Seq::<(String, ArgValue)>::empty());
        }
        None
    }
}

/// A way in which a bag fails a tool's parameters.
#[derive(Debug, PartialEq, Eq)]
pub enum ValidationError {
    /// A required parameter is absent.
    MissingParameter { name: String },
    /// A parameter is present with a value of another type.
    TypeMismatch { name: String, expected: ParamKind },
}

/// What a [`ValidationError`] holds, as mathematical values.
pub enum ValidationErrorView {
    MissingParameter { name: Seq<char> },
    TypeMismatch { name: Seq<char>, expected: ParamKind },
}

impl View for ValidationError {
    type V = ValidationErrorView;

    open spec fn view(&self) -> ValidationErrorView {
        match self {
            ValidationError::MissingParameter { name } => ValidationErrorView::MissingParameter {
                name: name@,
            },
            ValidationError::TypeMismatch { name, expected } => ValidationErrorView::TypeMismatch {
                name: name@,
                expected: *expected,
            },
        }
    }
}

/// The parameter is required and the bag has nothing under its name.
pub open spec fn is_missing(param: ParamView, bag: Map<Seq<char>, ArgValueView>) -> bool {
    param.required && !bag.contains_key(param.name)
}

/// The bag has a value under the parameter's name, of another type than the
/// parameter declares.
pub open spec fn is_mistyped(param: ParamView, bag: Map<Seq<char>, ArgValueView>) -> bool {
    bag.contains_key(param.name) && coerced(param.kind, bag[param.name]) is None
}

/// The first parameter, in the order of the contract, that is missing.
pub open spec fn first_missing(params: Seq<ParamView>, bag: Map<Seq<char>, ArgValueView>) -> Option<
    ParamView,
>
    decreases params.len(),
{
    if params.len() == 0 {
        None
    } else if is_missing(params[0], bag) {
        Some(params[0])
    } else {
        first_missing(params.drop_first(), bag)
    }
}

/// The first parameter, in the order of the contract, that is mistyped.
pub open spec fn first_mistyped(params: Seq<ParamView>, bag: Map<Seq<char>, ArgValueView>) -> Option<
    ParamView,
>
    decreases params.len(),
{
    if params.len() == 0 {
        None
    } else if is_mistyped(params[0], bag) {
        Some(params[0])
    } else {
        first_mistyped(params.drop_first(), bag)
    }
}

/// The typed arguments of the declared parameters that the bag holds, each under
/// its name, in the order of the contract. What the bag holds under other names
/// is left out.
pub open spec fn typed_args(params: Seq<ParamView>, bag: Map<Seq<char>, ArgValueView>) -> Seq<
    (Seq<char>, TypedView),
>
    decreases params.len(),
{
    if params.len() == 0 {
        Seq::empty()
    } else {
        let rest = typed_args(params.drop_first(), bag);
        let param = params[0];
        if bag.contains_key(param.name) && coerced(param.kind, bag[param.name]) is Some {
            seq![(param.name, coerced(param.kind, bag[param.name])->0)] + rest
        } else {
            rest
        }
    }
}

/// What validation gives: the first missing parameter where one is missing; else
/// the first mistyped parameter where one is mistyped; else the typed arguments.
pub open spec fn validation(params: Seq<ParamView>, bag: Map<Seq<char>, ArgValueView>) -> Result<
    Seq<(Seq<char>, TypedView)>,
    ValidationErrorView,
> {
    match first_missing(params, bag) {
        Some(param) => Err(ValidationErrorView::MissingParameter { name: param.name }),
        None => match first_mistyped(params, bag) {
            Some(param) => Err(
                ValidationErrorView::TypeMismatch { name: param.name, expected: param.kind },
            ),
            None => Ok(typed_args(params, bag)),
        },
    }
}

/// The typed arguments of one invocation, each under its parameter's name.
#[derive(Debug, PartialEq, Eq)]
pub struct ValidatedArgs {
    pub values: Vec<(String, TypedArg)>,
}

impl View for ValidatedArgs {
    type V = Seq<(Seq<char>, TypedView)>;

    open spec fn view(&self) -> Seq<(Seq<char>, TypedView)> {
        Seq::new(self.values@.len(), |i: int| (self.values@[i].0@, self.values@[i].1@))
    }
}

/// The first argument under `name`.
pub open spec fn first_named(args: Seq<(Seq<char>, TypedView)>, name: Seq<char>) -> Option<TypedView>
    decreases args.len(),
{
    if args.len() == 0 {
        None
    } else if args[0].0 == name {
        Some(args[0].1)
    } else {
        first_named(args.drop_first(), name)
    }
}

impl ValidatedArgs {
    /// The first argument under `name`, or `None` where there is none.
    pub fn get(&self, name: &str) -> (found: Option<&TypedArg>)
        ensures
            match found {
                Some(arg) => first_named(self@, name@) == Some(arg@),
                None => first_named(self@, name@) is None,
            },
    {
        let mut i: usize = 0;
        assert(self@.skip(0) =~= self@);
        while i < self.values.len()
            invariant
                i <= self.values@.len(),
                first_named(self@, name@) == first_named(self@.skip(i as int), name@),
            decreases self.values@.len() - i,
        {
            proof {
                let rest = self@.skip(i as int);
                assert(rest[0] == self@[i as int]);
                assert(rest.drop_first() =~= self@.skip(i + 1));
            }
            if same_text(self.values[i].0.as_str(), name) {
                return Some(&self.values[i].1);
            }
            i += 1;
        }
        None
    }
}

/// Holds `bag` against `contract`. A required parameter that is absent is
/// reported before any mistyped one; among several, the first in the order of the
/// contract is reported. What the bag holds under names that the contract does
/// not declare is ignored.
pub fn validate(contract: &InputContract, bag: &ArgBag) -> (result: Result<
    ValidatedArgs,
    ValidationError,
>)
    ensures
        match result {
            Ok(args) => validation(contract@, bag@) == Ok::<_, ValidationErrorView>(args@),
            Err(error) => validation(contract@, bag@) == Err::<Seq<(Seq<char>, TypedView)>, _>(
                error@,
            ),
        },
{
    let params = contract.params();
    let count = params.len();
    let mut i: usize = 0;
    assert(contract@.skip(0) =~= contract@);
    while i < count
        invariant
            param_views(params@) == contract@,
            count == params@.len(),
            i <= count,
            first_missing(contract@, bag@) == first_missing(contract@.skip(i as int), bag@),
        decreases count - i,
    {
        let param = &params[i];
        proof {
            let rest = contract@.skip(i as int);
            assert(rest[0] == param@);
            assert(rest.drop_first() =~= contract@.skip(i + 1));
        }
        if param.required && bag.get(param.name.as_str()).is_none() {
            return Err(ValidationError::MissingParameter { name: param.name.clone() });
        }
        i += 1;
    }
    let mut values: Vec<(String, TypedArg)> = Vec::new();
    let mut j: usize = 0;
    let ghost mut done: Seq<(Seq<char>, TypedView)> = Seq::empty();
    while j < count
        invariant
            param_views(params@) == contract@,
            count == params@.len(),
            j <= count,
            first_missing(contract@, bag@) is None,
            first_mistyped(contract@, bag@) == first_mistyped(contract@.skip(j as int), bag@),
            done == Seq::new(values@.len(), |k: int| (values@[k].0@, values@[k].1@)),
            typed_args(contract@, bag@) == done + typed_args(contract@.skip(j as int), bag@),
        decreases count - j,
    {
        let param = &params[j];
        proof {
            let rest = contract@.skip(j as int);
            assert(rest[0] == param@);
            assert(rest.drop_first() =~= contract@.skip(j + 1));
        }
        match bag.get(param.name.as_str()) {
            Some(value) => match coerce(param.kind, value) {
                Some(arg) => {
                    let ghost entry = (param.name@, arg@);
                    values.push((param.name.clone(), arg));
                    proof {
                        let tail = typed_args(contract@.skip(j + 1), bag@);
                        assert(done + (seq![entry] + tail) =~= done.push(entry) + tail);
                        done = done.push(entry);
                        assert(done =~= Seq::new(
                            values@.len(),
                            |k: int| (values@[k].0@, values@[k].1@),
                        ));
                    }
                },
                None => {
                    return Err(
                        ValidationError::TypeMismatch {
                            name: param.name.clone(),
                            expected: param.kind,
                        },
                    );
                },
            },
            None => {},
        }
        j += 1;
    }
    let args = ValidatedArgs { values };
    proof {
        assert(args@ =~= done);
        assert(done + Seq::<(Seq<char>, TypedView)>::empty() =~= done);
    }
    Ok(args)
}

} // verus!
