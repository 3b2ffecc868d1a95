//! The decoded invocation a filter chain consumes: a command name, a list
//! of named option values, and the identity of whoever invoked it.

use vstd::prelude::*;

use crate::model::snowflake::Snowflake;

verus! {

/// A decoded option value.  Number values are carried by their decimal
/// text: this core never computes with them, and coercion rules for every
/// concrete type are outside its scope.
#[derive(Clone, Debug, PartialEq)]
pub enum ArgValue {
    Text(String),
    Int(i64),
    Boolean(bool),
    Number(String),
}

/// The mathematical image of an [`ArgValue`].
pub enum ValView {
    Text(Seq<char>),
    Int(i64),
    Boolean(bool),
    Number(Seq<char>),
}

impl View for ArgValue {
    type V = ValView;

    open spec fn view(&self) -> ValView {
        match self {
            ArgValue::Text(s) => ValView::Text(s@),
            ArgValue::Int(i) => ValView::Int(*i),
            ArgValue::Boolean(b) => ValView::Boolean(*b),
            ArgValue::Number(s) => ValView::Number(s@),
        }
    }
}

/// One (option-name, value) pair of a decoded invocation.
#[derive(Clone, Debug)]
pub struct InvocationOption {
    pub name: String,
    pub value: ArgValue,
}

/// A decoded invocation: the command name, its option values, and the
/// identity fields of the invoking party.
#[derive(Clone, Debug)]
pub struct Invocation {
    /// The name of the invoked command.
    pub name: String,
    /// The option values, in the order the platform delivered them.
    pub options: Vec<InvocationOption>,
    /// The invoking user.
    pub user_id: Snowflake,
    /// The channel the invocation came from.
    pub channel_id: Snowflake,
    /// The guild the invocation came from, if any.
    pub guild_id: Option<Snowflake>,
}

/// The value of the first option named `name`, if any.
pub open spec fn lookup_opt(opts: Seq<InvocationOption>, name: Seq<char>) -> Option<ArgValue>
    decreases opts.len(),
{
    if opts.len() == 0 {
        None
    } else if opts[0].name@ == name {
        Some(opts[0].value)
    } else {
        lookup_opt(opts.drop_first(), name)
    }
}

} // verus!
