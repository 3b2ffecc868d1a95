//! Leaf filters that extract a single named, typed parameter from the
//! current invocation.
//!
//! Every argument these constructors produce is required: a missing option
//! rejects the invocation with a missing-argument cause rather than
//! extracting an empty value.

use vstd::prelude::*;

use crate::filter::Filter;

verus! {

/// A filter extracting one required text argument by name.
#[derive(Debug, Clone)]
pub struct StringArgument {
    /// The option name looked up in the decoded invocation.
    pub name: String,
    /// The option description carried to the registration layer.
    pub description: String,
}

impl StringArgument {
    /// The leaf filter this descriptor denotes.
    pub fn filter(self) -> (f: Filter)
        ensures
            f == Filter::StringArg(self),
    {
        Filter::StringArg(self)
    }
}

/// Create a new string argument.
pub fn string(name: &str, description: &str) -> (a: StringArgument)
    ensures
        a.name@ == name@,
        a.description@ == description@,
{
    StringArgument { name: String::from_str(name), description: String::from_str(description) }
}

/// A filter extracting one required integer argument by name.
#[derive(Debug, Clone)]
pub struct IntArg {
    /// The option name looked up in the decoded invocation.
    pub name: String,
    /// The option description carried to the registration layer.
    pub description: String,
}

impl IntArg {
    /// The leaf filter this descriptor denotes.
    pub fn filter(self) -> (f: Filter)
        ensures
            f == Filter::IntArg(self),
    {
        Filter::IntArg(self)
    }
}

/// Create a new integer argument.
pub fn integer(name: String, description: String) -> (a: IntArg)
    ensures
        a.name == name,
        a.description == description,
{
    IntArg { name, description }
}

/// A filter extracting one required number argument by name.  The value is
/// extracted as its decimal text: this core never computes with numbers,
/// and coercion is the registration layer's concern.
#[derive(Debug, Clone)]
pub struct FloatArg {
    /// The option name looked up in the decoded invocation.
    pub name: String,
    /// The option description carried to the registration layer.
    pub description: String,
}

impl FloatArg {
    /// The leaf filter this descriptor denotes.
    pub fn filter(self) -> (f: Filter)
        ensures
            f == Filter::FloatArg(self),
    {
        Filter::FloatArg(self)
    }
}

/// Create a new float argument.
pub fn float(name: String, description: String) -> (a: FloatArg)
    ensures
        a.name == name,
        a.description == description,
{
    FloatArg { name, description }
}

/// A filter extracting one required text argument constrained to a closed
/// list of allowed values.
#[derive(Debug, Clone)]
pub struct ChoiceArgument {
    /// The option name looked up in the decoded invocation.
    pub name: String,
    /// The option description carried to the registration layer.
    pub description: String,
    /// The allowed values, in declaration order.
    pub choices: Vec<String>,
}

impl ChoiceArgument {
    /// The leaf filter this descriptor denotes.
    pub fn filter(self) -> (f: Filter)
        ensures
            f == Filter::ChoiceArg(self),
    {
        Filter::ChoiceArg(self)
    }
}

/// Create a new choice-constrained string argument.
pub fn choice(name: &str, description: &str, choices: Vec<String>) -> (a: ChoiceArgument)
    ensures
        a.name@ == name@,
        a.description@ == description@,
        a.choices == choices,
{
    ChoiceArgument {
        name: String::from_str(name),
        description: String::from_str(description),
        choices,
    }
}

} // verus!
