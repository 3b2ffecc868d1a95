//! The filter combinator core.
//!
//! A [`Filter`] attempts to extract typed values from the ambient
//! invocation, or rejects it.  Filters compose with [`Filter::and`],
//! [`Filter::or`], [`Filter::map`], [`Filter::and_then`] and
//! [`Filter::recover`]; a chain is evaluated afresh for every invocation
//! and has no persistent state of its own.
//!
//! Everything an evaluation does is captured by two specification
//! functions over the chain and the invocation alone: [`outcome`], the
//! success tuple or rejection it ends in, and [`emitted`], the replies it
//! sends along the way.

use vstd::prelude::*;

use crate::arg::{ChoiceArgument, FloatArg, IntArg, StringArgument};
use crate::context::Scope;
use crate::model::interaction::{lookup_opt, ArgValue, Invocation, InvocationOption, ValView};
use crate::reject::{
    combine_view, CauseTag, CauseView, CustomCause, KnownCause, RejView, Rejection,
};
use crate::text::{to_upper, upper_of};

verus! {

/// The ordered tuple of values a successful filter evaluation produces.
/// Its arity is fixed by the shape of the chain that produced it, never by
/// the invocation.
#[derive(Debug)]
pub struct Extraction {
    pub vals: Vec<ArgValue>,
}

/// The views of a sequence of extracted values.
pub open spec fn vals_view(s: Seq<ArgValue>) -> Seq<ValView> {
    Seq::new(s.len(), |i: int| s[i]@)
}

impl View for Extraction {
    type V = Seq<ValView>;

    open spec fn view(&self) -> Seq<ValView> {
        vals_view(self.vals@)
    }
}

impl Extraction {
    /// The empty extraction: no value, only side effects happened.
    pub fn empty() -> (e: Extraction)
        ensures
            e@ == Seq::<ValView>::empty(),
    {
        let e = Extraction { vals: Vec::new() };
        proof {
            assert(e@ =~= Seq::<ValView>::empty());
        }
        e
    }
}

/// An infallible transformation attached with [`Filter::map`].
#[derive(Debug)]
pub enum MapStep {
    /// Uppercase every text value of the extraction.
    UppercaseAll,
    /// Reply with a fixed message; the extraction becomes empty.
    Reply(String),
    /// Reply with the given prefix followed by every text value of the
    /// extraction, in order; the extraction becomes empty.
    ReplyConcat(String),
    /// Drop the extraction.
    Discard,
}

/// A fallible step attached with [`Filter::and_then`].
#[derive(Debug)]
pub enum ThenStep {
    /// Succeed with every text value of the extraction uppercased.
    Uppercased,
    /// Reject with the given custom cause.
    FailWith(CustomCause),
}

/// A fallback attached with [`Filter::recover`]: a rejection becomes a
/// guaranteed success after replying with the given message.
#[derive(Debug)]
pub struct RecoverStep {
    pub message: String,
}

/// A composable unit that attempts to extract typed values from the
/// ambient invocation, or rejects it.
#[derive(Debug)]
pub enum Filter {
    /// Succeeds with the empty extraction; the seed of every chain.
    Any,
    /// Extracts one required text argument.
    StringArg(StringArgument),
    /// Extracts one required integer argument.
    IntArg(IntArg),
    /// Extracts one required number argument, as its decimal text.
    FloatArg(FloatArg),
    /// Extracts one required text argument constrained to a choice list.
    ChoiceArg(ChoiceArgument),
    /// Sequential composition: the left side first; a failure
    /// short-circuits, two successes concatenate their extractions.
    And(Box<Filter>, Box<Filter>),
    /// Alternative: first match wins; two rejections combine their causes.
    Or(Box<Filter>, Box<Filter>),
    /// An infallible transformation of a successful extraction.
    Mapped(Box<Filter>, MapStep),
    /// A fallible step applied to a successful extraction.
    AndThen(Box<Filter>, ThenStep),
    /// Converts a rejection into a guaranteed success.
    Recover(Box<Filter>, RecoverStep),
}

/// What one evaluation ends in: a success tuple or a rejection.
pub enum Outcome {
    Success(Seq<ValView>),
    Reject(RejView),
}

/// A rejection image carrying exactly one cause.
pub open spec fn reject_one(c: CauseView) -> Outcome {
    Outcome::Reject(RejView::Causes(seq![c]))
}

/// The cause with which a missing required argument rejects.
pub open spec fn missing_cause(name: Seq<char>) -> CauseView {
    CauseView { tag: CauseTag::MissingArgument, detail: name }
}

/// The cause with which a present but wrongly-typed argument rejects.
pub open spec fn mismatch_cause(name: Seq<char>) -> CauseView {
    CauseView { tag: CauseTag::TypeMismatch, detail: name }
}

/// The cause with which a value outside a declared choice list rejects.
pub open spec fn invalid_choice_cause(name: Seq<char>) -> CauseView {
    CauseView { tag: CauseTag::InvalidChoice, detail: name }
}

/// What a required text argument extracts from `inv`.
pub open spec fn string_arg_outcome(name: Seq<char>, inv: Invocation) -> Outcome {
    match lookup_opt(inv.options@, name) {
        Option::None => reject_one(missing_cause(name)),
        Option::Some(v) => match v {
            ArgValue::Text(s) => Outcome::Success(seq![ValView::Text(s@)]),
            _ => reject_one(mismatch_cause(name)),
        },
    }
}

/// What a required integer argument extracts from `inv`.
pub open spec fn int_arg_outcome(name: Seq<char>, inv: Invocation) -> Outcome {
    match lookup_opt(inv.options@, name) {
        Option::None => reject_one(missing_cause(name)),
        Option::Some(v) => match v {
            ArgValue::Int(i) => Outcome::Success(seq![ValView::Int(i)]),
            _ => reject_one(mismatch_cause(name)),
        },
    }
}

/// What a required number argument extracts from `inv`.
pub open spec fn float_arg_outcome(name: Seq<char>, inv: Invocation) -> Outcome {
    match lookup_opt(inv.options@, name) {
        Option::None => reject_one(missing_cause(name)),
        Option::Some(v) => match v {
            ArgValue::Number(s) => Outcome::Success(seq![ValView::Number(s@)]),
            _ => reject_one(mismatch_cause(name)),
        },
    }
}

/// Whether some string of `choices` reads `s`.
pub open spec fn contains_text(choices: Seq<String>, s: Seq<char>) -> bool {
    exists|i: int| 0 <= i < choices.len() && choices[i]@ == s
}

/// What a choice-constrained text argument extracts from `inv`.
pub open spec fn choice_arg_outcome(name: Seq<char>, choices: Seq<String>, inv: Invocation)
    -> Outcome {
    match lookup_opt(inv.options@, name) {
        Option::None => reject_one(missing_cause(name)),
        Option::Some(v) => match v {
            ArgValue::Text(s) => if contains_text(choices, s@) {
                Outcome::Success(seq![ValView::Text(s@)])
            } else {
                reject_one(invalid_choice_cause(name))
            },
            _ => reject_one(mismatch_cause(name)),
        },
    }
}

/// `vals` with every text value uppercased.
pub open spec fn upper_vals(vals: Seq<ValView>) -> Seq<ValView> {
    vals.map(
        |i: int, v: ValView|
            match v {
                ValView::Text(s) => ValView::Text(upper_of(s)),
                _ => v,
            },
    )
}

/// The concatenation of every text value of `vals`, in order.
pub open spec fn texts_concat(vals: Seq<ValView>) -> Seq<char>
    decreases vals.len(),
{
    if vals.len() == 0 {
        Seq::empty()
    } else {
        (match vals[0] {
            ValView::Text(s) => s,
            _ => Seq::<char>::empty(),
        }) + texts_concat(vals.drop_first())
    }
}

/// The extraction a map step leaves behind.
pub open spec fn map_step_vals(step: MapStep, vals: Seq<ValView>) -> Seq<ValView> {
    match step {
        MapStep::UppercaseAll => upper_vals(vals),
        MapStep::Reply(_) => Seq::empty(),
        MapStep::ReplyConcat(_) => Seq::empty(),
        MapStep::Discard => Seq::empty(),
    }
}

/// The replies a map step sends.
pub open spec fn map_step_emits(step: MapStep, vals: Seq<ValView>) -> Seq<Seq<char>> {
    match step {
        MapStep::UppercaseAll => Seq::empty(),
        MapStep::Reply(m) => seq![m@],
        MapStep::ReplyConcat(p) => seq![p@ + texts_concat(vals)],
        MapStep::Discard => Seq::empty(),
    }
}

/// What a fallible step turns a successful extraction into.
pub open spec fn then_step_outcome(step: ThenStep, vals: Seq<ValView>) -> Outcome {
    match step {
        ThenStep::Uppercased => Outcome::Success(upper_vals(vals)),
        ThenStep::FailWith(c) => Outcome::Reject(RejView::Causes(seq![c@])),
    }
}

/// One evaluation of `f` against `inv`: the outcome it ends in, and the
/// replies it sends along the way, in order.
pub open spec fn eval_view(f: Filter, inv: Invocation) -> (Outcome, Seq<Seq<char>>)
    decreases f,
{
    match f {
        Filter::Any => (Outcome::Success(Seq::empty()), Seq::empty()),
        Filter::StringArg(a) => (string_arg_outcome(a.name@, inv), Seq::empty()),
        Filter::IntArg(a) => (int_arg_outcome(a.name@, inv), Seq::empty()),
        Filter::FloatArg(a) => (float_arg_outcome(a.name@, inv), Seq::empty()),
        Filter::ChoiceArg(a) => (choice_arg_outcome(a.name@, a.choices@, inv), Seq::empty()),
        Filter::And(a, b) => {
            let (oa, ea) = eval_view(*a, inv);
            match oa {
                Outcome::Reject(_) => (oa, ea),
                Outcome::Success(va) => {
                    let (ob, eb) = eval_view(*b, inv);
                    match ob {
                        Outcome::Reject(_) => (ob, ea + eb),
                        Outcome::Success(vb) => (Outcome::Success(va + vb), ea + eb),
                    }
                },
            }
        },
        Filter::Or(a, b) => {
            let (oa, ea) = eval_view(*a, inv);
            match oa {
                Outcome::Success(_) => (oa, ea),
                Outcome::Reject(ra) => {
                    let (ob, eb) = eval_view(*b, inv);
                    match ob {
                        Outcome::Success(_) => (ob, ea + eb),
                        Outcome::Reject(rb) => (
                            Outcome::Reject(combine_view(ra, rb)),
                            ea + eb,
                        ),
                    }
                },
            }
        },
        Filter::Mapped(a, step) => {
            let (oa, ea) = eval_view(*a, inv);
            match oa {
                Outcome::Reject(_) => (oa, ea),
                Outcome::Success(va) => (
                    Outcome::Success(map_step_vals(step, va)),
                    ea + map_step_emits(step, va),
                ),
            }
        },
        Filter::AndThen(a, step) => {
            let (oa, ea) = eval_view(*a, inv);
            match oa {
                Outcome::Reject(_) => (oa, ea),
                Outcome::Success(va) => (then_step_outcome(step, va), ea),
            }
        },
        Filter::Recover(a, step) => {
            let (oa, ea) = eval_view(*a, inv);
            match oa {
                Outcome::Success(_) => (oa, ea),
                Outcome::Reject(_) => (
                    Outcome::Success(Seq::empty()),
                    ea + seq![step.message@],
                ),
            }
        },
    }
}

/// The outcome one evaluation of `f` against `inv` ends in.
pub open spec fn outcome(f: Filter, inv: Invocation) -> Outcome {
    eval_view(f, inv).0
}

/// The replies one evaluation of `f` against `inv` sends, in order.
pub open spec fn emitted(f: Filter, inv: Invocation) -> Seq<Seq<char>> {
    eval_view(f, inv).1
}

/// The filter [`Filter::and`] builds.
pub open spec fn and_of(a: Filter, b: Filter) -> Filter {
    Filter::And(Box::new(a), Box::new(b))
}

/// The filter [`Filter::or`] builds.
pub open spec fn or_of(a: Filter, b: Filter) -> Filter {
    Filter::Or(Box::new(a), Box::new(b))
}

impl Filter {
    /// Sequential composition: evaluates `self`; a failure short-circuits,
    /// otherwise `other` runs and the two extractions concatenate,
    /// `self`'s values first.
    pub fn and(self, other: Filter) -> (r: Filter)
        ensures
            r == and_of(self, other),
    {
        Filter::And(Box::new(self), Box::new(other))
    }

    /// Alternative composition: evaluates `self`; a success short-circuits
    /// and `other` is never evaluated.  When both sides reject, the two
    /// rejections combine.
    pub fn or(self, other: Filter) -> (r: Filter)
        ensures
            r == or_of(self, other),
    {
        Filter::Or(Box::new(self), Box::new(other))
    }

    /// Transforms a successful extraction, infallibly.
    pub fn map(self, step: MapStep) -> (r: Filter)
        ensures
            r == Filter::Mapped(Box::new(self), step),
    {
        Filter::Mapped(Box::new(self), step)
    }

    /// Transforms a successful extraction through a further fallible step;
    /// this is how a terminal handler is attached to a chain of argument
    /// filters.
    pub fn and_then(self, step: ThenStep) -> (r: Filter)
        ensures
            r == Filter::AndThen(Box::new(self), step),
    {
        Filter::AndThen(Box::new(self), step)
    }

    /// Converts a rejection into a guaranteed success, used to attach
    /// fallback behavior at the top of a chain.
    pub fn recover(self, step: RecoverStep) -> (r: Filter)
        ensures
            r == Filter::Recover(Box::new(self), step),
    {
        Filter::Recover(Box::new(self), step)
    }
}

fn clone_val(v: &ArgValue) -> (r: ArgValue)
    ensures
        r == *v,
{
    match v {
        ArgValue::Text(s) => ArgValue::Text(s.clone()),
        ArgValue::Int(i) => ArgValue::Int(*i),
        ArgValue::Boolean(b) => ArgValue::Boolean(*b),
        ArgValue::Number(s) => ArgValue::Number(s.clone()),
    }
}

fn find_option<'a>(options: &'a Vec<InvocationOption>, name: &String) -> (r: Option<&'a ArgValue>)
    ensures
        match r {
            Some(v) => lookup_opt(options@, name@) == Some(*v),
            None => lookup_opt(options@, name@) is None,
        },
{
    let mut i: usize = 0;
    proof {
        assert(options@.skip(0) =~= options@);
    }
    while i < options.len()
        invariant
            i <= options@.len(),
            lookup_opt(options@, name@) == lookup_opt(options@.skip(i as int), name@),
        decreases options@.len() - i,
    {
        let ghost rest = options@.skip(i as int);
        proof {
            assert(rest[0] == options@[i as int]);
            assert(rest.drop_first() =~= options@.skip(i + 1));
        }
        if options[i].name == *name {
            return Some(&options[i].value);
        }
        i = i + 1;
    }
    proof {
        assert(options@.skip(options@.len() as int) =~= Seq::<InvocationOption>::empty());
    }
    None
}

fn upper_extraction(e: Extraction) -> (r: Extraction)
    ensures
        r@ == upper_vals(e@),
{
    let mut out: Vec<ArgValue> = Vec::new();
    let mut i: usize = 0;
    while i < e.vals.len()
        invariant
            i <= e.vals@.len(),
            vals_view(out@) =~= upper_vals(vals_view(e.vals@)).take(i as int),
        decreases e.vals@.len() - i,
    {
        let ghost before = out@;
        match &e.vals[i] {
            ArgValue::Text(s) => {
                out.push(ArgValue::Text(to_upper(s.as_str())));
            },
            v => {
                out.push(clone_val(v));
            },
        }
        proof {
            assert(out@.drop_last() =~= before);
            assert(vals_view(out@) =~= vals_view(before).push(out@.last()@));
            assert(vals_view(out@) =~= upper_vals(vals_view(e.vals@)).take(i + 1));
        }
        i = i + 1;
    }
    let r = Extraction { vals: out };
    proof {
        assert(upper_vals(vals_view(e.vals@)).take(e.vals@.len() as int) =~= upper_vals(
            vals_view(e.vals@),
        ));
        assert(r@ =~= upper_vals(e@));
    }
    r
}

fn concat_texts(vals: &Vec<ArgValue>) -> (r: String)
    ensures
        r@ == texts_concat(vals_view(vals@)),
{
    let ghost full = vals_view(vals@);
    let mut r = String::new();
    let mut i: usize = 0;
    proof {
        assert(full.skip(0) =~= full);
        assert(r@ + texts_concat(full) =~= texts_concat(full));
    }
    while i < vals.len()
        invariant
            i <= vals@.len(),
            full == vals_view(vals@),
            r@ + texts_concat(full.skip(i as int)) =~= texts_concat(full),
        decreases vals@.len() - i,
    {
        let ghost rest = full.skip(i as int);
        let ghost before = r@;
        proof {
            assert(rest[0] == full[i as int]);
            assert(rest.drop_first() =~= full.skip(i + 1));
        }
        match &vals[i] {
            ArgValue::Text(s) => {
                r.append(s.as_str());
            },
            _ => {},
        }
        proof {
            let head: Seq<char> = match full[i as int] {
                ValView::Text(s) => s,
                _ => Seq::<char>::empty(),
            };
            assert(r@ =~= before + head);
            assert(texts_concat(rest) == head + texts_concat(full.skip(i + 1)));
            assert(r@ + texts_concat(full.skip(i + 1)) =~= before + texts_concat(rest));
        }
        i = i + 1;
    }
    proof {
        assert(full.skip(full.len() as int) =~= Seq::<ValView>::empty());
        assert(r@ + texts_concat(full.skip(full.len() as int)) =~= r@);
    }
    r
}

fn apply_map_step(step: &MapStep, e: Extraction, scope: &mut Scope) -> (r: Extraction)
    requires
        old(scope).entered(),
    ensures
        final(scope).entered(),
        final(scope).inv_spec() == old(scope).inv_spec(),
        final(scope).reps_spec() == old(scope).reps_spec() + map_step_emits(*step, e@),
        r@ == map_step_vals(*step, e@),
{
    match step {
        MapStep::UppercaseAll => {
            proof {
                assert(old(scope).reps_spec() + Seq::<Seq<char>>::empty() =~= old(
                    scope,
                ).reps_spec());
            }
            upper_extraction(e)
        },
        MapStep::Reply(m) => {
            scope.reply(m.as_str());
            proof {
                assert(old(scope).reps_spec().push(m@) =~= old(scope).reps_spec() + seq![m@]);
            }
            Extraction::empty()
        },
        MapStep::ReplyConcat(p) => {
            let mut msg = p.clone();
            let tail = concat_texts(&e.vals);
            msg.append(tail.as_str());
            scope.reply(msg.as_str());
            proof {
                assert(old(scope).reps_spec().push(msg@) =~= old(scope).reps_spec() + seq![
                    p@ + texts_concat(e@),
                ]);
            }
            Extraction::empty()
        },
        MapStep::Discard => {
            proof {
                assert(old(scope).reps_spec() + Seq::<Seq<char>>::empty() =~= old(
                    scope,
                ).reps_spec());
            }
            Extraction::empty()
        },
    }
}

fn apply_then_step(step: &ThenStep, e: Extraction) -> (r: Result<Extraction, Rejection>)
    ensures
        match r {
            Ok(out) => then_step_outcome(*step, e@) == Outcome::Success(out@),
            Err(rej) => then_step_outcome(*step, e@) == Outcome::Reject(rej@),
        },
{
    match step {
        ThenStep::Uppercased => Ok(upper_extraction(e)),
        ThenStep::FailWith(c) => Err(
            Rejection::custom(CustomCause { tag: c.tag, payload: c.payload.clone() }),
        ),
    }
}

impl Filter {
    /// Evaluates this filter against the ambient invocation: the single
    /// fundamental operation.  The outcome, and every reply sent on the
    /// way, is exactly what [`eval_view`] states for the chain and the
    /// invocation; the invocation itself is never changed.
    pub fn evaluate(&self, scope: &mut Scope) -> (r: Result<Extraction, Rejection>)
        requires
            old(scope).entered(),
        ensures
            final(scope).entered(),
            final(scope).inv_spec() == old(scope).inv_spec(),
            final(scope).reps_spec() == old(scope).reps_spec() + emitted(*self, old(
                scope,
            ).inv_spec()),
            match r {
                Ok(e) => outcome(*self, old(scope).inv_spec()) == Outcome::Success(e@),
                Err(rej) => outcome(*self, old(scope).inv_spec()) == Outcome::Reject(rej@),
            },
        decreases self,
    {
        let ghost inv = old(scope).inv_spec();
        let ghost reps0 = old(scope).reps_spec();
        match self {
            Filter::Any => {
                proof {
                    assert(reps0 + emitted(*self, inv) =~= reps0);
                }
                Ok(Extraction::empty())
            },
            Filter::StringArg(a) => {
                proof {
                    assert(reps0 + emitted(*self, inv) =~= reps0);
                }
                match find_option(&scope.invocation().options, &a.name) {
                    None => Err(Rejection::known(KnownCause::MissingArgument(a.name.clone()))),
                    Some(v) => match v {
                        ArgValue::Text(_) => {
                            let val = clone_val(v);
                            let mut vals: Vec<ArgValue> = Vec::new();
                            vals.push(val);
                            let e = Extraction { vals };
                            proof {
                                assert(e@ =~= string_arg_outcome(a.name@, inv)->Success_0);
                            }
                            Ok(e)
                        },
                        _ => Err(Rejection::known(KnownCause::TypeMismatch(a.name.clone()))),
                    },
                }
            },
            Filter::IntArg(a) => {
                proof {
                    assert(reps0 + emitted(*self, inv) =~= reps0);
                }
                match find_option(&scope.invocation().options, &a.name) {
                    None => Err(Rejection::known(KnownCause::MissingArgument(a.name.clone()))),
                    Some(v) => match v {
                        ArgValue::Int(i) => {
                            let mut vals: Vec<ArgValue> = Vec::new();
                            vals.push(ArgValue::Int(*i));
                            let e = Extraction { vals };
                            proof {
                                assert(e@ =~= int_arg_outcome(a.name@, inv)->Success_0);
                            }
                            Ok(e)
                        },
                        _ => Err(Rejection::known(KnownCause::TypeMismatch(a.name.clone()))),
                    },
                }
            },
            Filter::FloatArg(a) => {
                proof {
                    assert(reps0 + emitted(*self, inv) =~= reps0);
                }
                match find_option(&scope.invocation().options, &a.name) {
                    None => Err(Rejection::known(KnownCause::MissingArgument(a.name.clone()))),
                    Some(v) => match v {
                        ArgValue::Number(_) => {
                            let val = clone_val(v);
                            let mut vals: Vec<ArgValue> = Vec::new();
                            vals.push(val);
                            let e = Extraction { vals };
                            proof {
                                assert(e@ =~= float_arg_outcome(a.name@, inv)->Success_0);
                            }
                            Ok(e)
                        },
                        _ => Err(Rejection::known(KnownCause::TypeMismatch(a.name.clone()))),
                    },
                }
            },
            Filter::ChoiceArg(a) => {
                proof {
                    assert(reps0 + emitted(*self, inv) =~= reps0);
                }
                match find_option(&scope.invocation().options, &a.name) {
                    None => Err(Rejection::known(KnownCause::MissingArgument(a.name.clone()))),
                    Some(v) => match v {
                        ArgValue::Text(s) => {
                            if contains_choice(&a.choices, s) {
                                let val = clone_val(v);
                                let mut vals: Vec<ArgValue> = Vec::new();
                                vals.push(val);
                                let e = Extraction { vals };
                                proof {
                                    assert(e@ =~= choice_arg_outcome(
                                        a.name@,
                                        a.choices@,
                                        inv,
                                    )->Success_0);
                                }
                                Ok(e)
                            } else {
                                Err(Rejection::known(KnownCause::InvalidChoice(a.name.clone())))
                            }
                        },
                        _ => Err(Rejection::known(KnownCause::TypeMismatch(a.name.clone()))),
                    },
                }
            },
            Filter::And(a, b) => {
                match a.evaluate(scope) {
                    Err(rej) => Err(rej),
                    Ok(ea) => {
                        match b.evaluate(scope) {
                            Err(rej) => {
                                proof {
                                    assert(reps0 + (emitted(**a, inv) + emitted(**b, inv)) =~= reps0
                                        + emitted(**a, inv) + emitted(**b, inv));
                                }
                                Err(rej)
                            },
                            Ok(eb) => {
                                let mut vals = ea.vals;
                                let mut tail = eb.vals;
                                let ghost va = vals_view(vals@);
                                let ghost vb = vals_view(tail@);
                                vals.append(&mut tail);
                                let e = Extraction { vals };
                                proof {
                                    assert(reps0 + (emitted(**a, inv) + emitted(**b, inv)) =~= reps0
                                        + emitted(**a, inv) + emitted(**b, inv));
                                    assert(e@ =~= va + vb);
                                }
                                Ok(e)
                            },
                        }
                    },
                }
            },
            Filter::Or(a, b) => {
                match a.evaluate(scope) {
                    Ok(ea) => Ok(ea),
                    Err(ra) => {
                        match b.evaluate(scope) {
                            Ok(eb) => {
                                proof {
                                    assert(reps0 + (emitted(**a, inv) + emitted(**b, inv)) =~= reps0
                                        + emitted(**a, inv) + emitted(**b, inv));
                                }
                                Ok(eb)
                            },
                            Err(rb) => {
                                proof {
                                    assert(reps0 + (emitted(**a, inv) + emitted(**b, inv)) =~= reps0
                                        + emitted(**a, inv) + emitted(**b, inv));
                                }
                                Err(ra.combine(rb))
                            },
                        }
                    },
                }
            },
            Filter::Mapped(a, step) => {
                match a.evaluate(scope) {
                    Err(rej) => Err(rej),
                    Ok(ea) => {
                        let ghost va = ea@;
                        let out = apply_map_step(step, ea, scope);
                        proof {
                            assert(reps0 + (emitted(**a, inv) + map_step_emits(*step, va)) =~= reps0
                                + emitted(**a, inv) + map_step_emits(*step, va));
                        }
                        Ok(out)
                    },
                }
            },
            Filter::AndThen(a, step) => {
                match a.evaluate(scope) {
                    Err(rej) => Err(rej),
                    Ok(ea) => apply_then_step(step, ea),
                }
            },
            Filter::Recover(a, step) => {
                match a.evaluate(scope) {
                    Ok(ea) => Ok(ea),
                    Err(_) => {
                        scope.reply(step.message.as_str());
                        proof {
                            assert((reps0 + emitted(**a, inv)).push(step.message@) =~= reps0 + (
                            emitted(**a, inv) + seq![step.message@]));
                        }
                        Ok(Extraction::empty())
                    },
                }
            },
        }
    }
}

fn contains_choice(choices: &Vec<String>, s: &String) -> (b: bool)
    ensures
        b == contains_text(choices@, s@),
{
    let mut i: usize = 0;
    while i < choices.len()
        invariant
            i <= choices@.len(),
            forall|j: int| 0 <= j < i ==> choices@[j]@ != s@,
        decreases choices@.len() - i,
    {
        if choices[i] == *s {
            return true;
        }
        i = i + 1;
    }
    false
}

/// A terminal step a builder attaches to the end of a command's argument
/// chain.
#[derive(Debug)]
pub enum HandlerStep {
    /// An infallible transformation, attached with [`Filter::map`].
    Mapped(MapStep),
    /// A fallible step, attached with [`Filter::and_then`].
    Then(ThenStep),
}

/// The filter [`Filter::attach`] builds.
pub open spec fn attach_of(f: Filter, h: HandlerStep) -> Filter {
    match h {
        HandlerStep::Mapped(m) => Filter::Mapped(Box::new(f), m),
        HandlerStep::Then(t) => Filter::AndThen(Box::new(f), t),
    }
}

impl Filter {
    /// Attaches a terminal handler step at the end of this chain.
    pub fn attach(self, h: HandlerStep) -> (r: Filter)
        ensures
            r == attach_of(self, h),
    {
        match h {
            HandlerStep::Mapped(m) => Filter::Mapped(Box::new(self), m),
            HandlerStep::Then(t) => Filter::AndThen(Box::new(self), t),
        }
    }
}

/// A filter that matches any invocation, extracting nothing.
pub fn any() -> (f: Filter)
    ensures
        f == Filter::Any,
{
    Filter::Any
}

/// The arity of the extraction tuple a filter produces on success,
/// determined by the shape of the chain alone.
pub open spec fn arity(f: Filter) -> nat
    decreases f,
{
    match f {
        Filter::Any => 0,
        Filter::StringArg(_) => 1,
        Filter::IntArg(_) => 1,
        Filter::FloatArg(_) => 1,
        Filter::ChoiceArg(_) => 1,
        Filter::And(a, b) => arity(*a) + arity(*b),
        Filter::Or(a, _) => arity(*a),
        Filter::Mapped(a, step) => match step {
            MapStep::UppercaseAll => arity(*a),
            _ => 0,
        },
        Filter::AndThen(a, step) => match step {
            ThenStep::Uppercased => arity(*a),
            ThenStep::FailWith(_) => 0,
        },
        Filter::Recover(a, _) => arity(*a),
    }
}

/// Whether a chain is well shaped: the two sides of an `or` must share an
/// extraction arity, and a `recover` needs an extraction-free chain, since
/// its fallback succeeds with the empty extraction.
pub open spec fn shape_ok(f: Filter) -> bool
    decreases f,
{
    match f {
        Filter::Any => true,
        Filter::StringArg(_) => true,
        Filter::IntArg(_) => true,
        Filter::FloatArg(_) => true,
        Filter::ChoiceArg(_) => true,
        Filter::And(a, b) => shape_ok(*a) && shape_ok(*b),
        Filter::Or(a, b) => shape_ok(*a) && shape_ok(*b) && arity(*a) == arity(*b),
        Filter::Mapped(a, _) => shape_ok(*a),
        Filter::AndThen(a, _) => shape_ok(*a),
        Filter::Recover(a, _) => shape_ok(*a) && arity(*a) == 0,
    }
}

/// The extraction tuple's shape is fixed at composition time: a well
/// shaped chain that succeeds always produces a tuple of its static
/// arity, whatever the invocation holds.
pub proof fn lemma_static_arity(f: Filter, inv: Invocation)
    requires
        shape_ok(f),
    ensures
        outcome(f, inv) matches Outcome::Success(vals) ==> vals.len() == arity(f),
    decreases f,
{
    match f {
        Filter::And(a, b) => {
            lemma_static_arity(*a, inv);
            lemma_static_arity(*b, inv);
        },
        Filter::Or(a, b) => {
            lemma_static_arity(*a, inv);
            lemma_static_arity(*b, inv);
        },
        Filter::Mapped(a, step) => {
            lemma_static_arity(*a, inv);
        },
        Filter::AndThen(a, step) => {
            lemma_static_arity(*a, inv);
        },
        Filter::Recover(a, step) => {
            lemma_static_arity(*a, inv);
        },
        _ => {},
    }
}

/// Associativity of AND: chaining three filters left-to-right or
/// right-to-left yields the same outcome, the same flattened extraction
/// tuple, and the same replies, for every invocation.
pub proof fn lemma_and_associative(a: Filter, b: Filter, c: Filter, inv: Invocation)
    ensures
        eval_view(and_of(and_of(a, b), c), inv) == eval_view(and_of(a, and_of(b, c)), inv),
{
    reveal_with_fuel(eval_view, 4);
    let (oa, ea) = eval_view(a, inv);
    let (ob, eb) = eval_view(b, inv);
    let (oc, ec) = eval_view(c, inv);
    match oa {
        Outcome::Reject(_) => {},
        Outcome::Success(va) => match ob {
            Outcome::Reject(_) => {},
            Outcome::Success(vb) => {
                assert(ea + eb + ec =~= ea + (eb + ec));
                match oc {
                    Outcome::Reject(_) => {},
                    Outcome::Success(vc) => {
                        assert(va + vb + vc =~= va + (vb + vc));
                    },
                }
            },
        },
    }
}

/// Short-circuiting of OR: when the left side succeeds, the combination
/// behaves exactly as the left side alone; the right side contributes
/// neither outcome nor replies.
pub proof fn lemma_or_short_circuit(a: Filter, b: Filter, inv: Invocation)
    requires
        outcome(a, inv) is Success,
    ensures
        eval_view(or_of(a, b), inv) == eval_view(a, inv),
{
}

/// When both branches of an OR reject, the combination rejects with the
/// two rejections combined, so a search of the result finds a cause of
/// either branch's tag (see [`crate::reject::lemma_combined_find`]).
pub proof fn lemma_or_combines_rejections(a: Filter, b: Filter, inv: Invocation)
    requires
        outcome(a, inv) is Reject,
        outcome(b, inv) is Reject,
    ensures
        outcome(or_of(a, b), inv) == Outcome::Reject(
            combine_view(outcome(a, inv)->Reject_0, outcome(b, inv)->Reject_0),
        ),
{
    reveal_with_fuel(eval_view, 2);
}

} // verus!
