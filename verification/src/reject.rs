//! Rejections.
//!
//! A filter that finds the current invocation does not fulfil its
//! requirements *rejects* it.  Rejections carry a cause, and when both
//! branches of an `or` chain reject, the two causes are combined so that a
//! dispatcher can later search the accumulated causes for the most specific
//! one available.

use vstd::prelude::*;

verus! {

/// The searchable identity of a cause: one of the causes this crate itself
/// produces, or a caller-chosen numeric tag for a custom cause.
#[derive(Clone, Copy, Debug, PartialEq, Eq, Structural)]
pub enum CauseTag {
    ApiError,
    MissingArgument,
    TypeMismatch,
    InvalidChoice,
    Custom(u64),
}

/// A cause produced by this crate itself.  The payload names the argument
/// the cause is about, where there is one.
#[derive(Clone, Debug, PartialEq)]
pub enum KnownCause {
    DiscordApiError,
    MissingArgument(String),
    TypeMismatch(String),
    InvalidChoice(String),
}

/// An opaque, tag-identified cause supplied by handler code.
#[derive(Clone, Debug, PartialEq)]
pub struct CustomCause {
    pub tag: u64,
    pub payload: String,
}

/// A single cause carried inside a non-trivial rejection.
#[derive(Clone, Debug, PartialEq)]
pub enum Cause {
    Known(KnownCause),
    Custom(CustomCause),
}

/// The mathematical image of a [`Cause`]: its tag together with its text.
pub struct CauseView {
    pub tag: CauseTag,
    pub detail: Seq<char>,
}

impl View for KnownCause {
    type V = CauseView;

    open spec fn view(&self) -> CauseView {
        match self {
            KnownCause::DiscordApiError => CauseView { tag: CauseTag::ApiError, detail: Seq::empty() },
            KnownCause::MissingArgument(n) => CauseView { tag: CauseTag::MissingArgument, detail: n@ },
            KnownCause::TypeMismatch(n) => CauseView { tag: CauseTag::TypeMismatch, detail: n@ },
            KnownCause::InvalidChoice(n) => CauseView { tag: CauseTag::InvalidChoice, detail: n@ },
        }
    }
}

impl View for CustomCause {
    type V = CauseView;

    open spec fn view(&self) -> CauseView {
        CauseView { tag: CauseTag::Custom(self.tag), detail: self.payload@ }
    }
}

impl View for Cause {
    type V = CauseView;

    open spec fn view(&self) -> CauseView {
        match self {
            Cause::Known(k) => k@,
            Cause::Custom(c) => c@,
        }
    }
}

impl Cause {
    /// The tag under which [`Rejection::find`] will locate this cause.
    pub fn tag(&self) -> (t: CauseTag)
        ensures
            t == self@.tag,
    {
        match self {
            Cause::Known(KnownCause::DiscordApiError) => CauseTag::ApiError,
            Cause::Known(KnownCause::MissingArgument(_)) => CauseTag::MissingArgument,
            Cause::Known(KnownCause::TypeMismatch(_)) => CauseTag::TypeMismatch,
            Cause::Known(KnownCause::InvalidChoice(_)) => CauseTag::InvalidChoice,
            Cause::Custom(c) => CauseTag::Custom(c.tag),
        }
    }
}

/// A cause-set: one cause, or the pairing of the cause-sets of the two
/// branches of an `or` whose sides both rejected.
#[derive(Debug, PartialEq)]
pub enum Rejections {
    Single(Cause),
    Combined(Box<Rejections>, Box<Rejections>),
}

/// Why a rejection happened: nothing specific, or a cause-set.
#[derive(Debug, PartialEq)]
pub enum Reason {
    NotFound,
    Other(Rejections),
}

/// Rejection of an invocation by a filter.
#[derive(Debug, PartialEq)]
pub struct Rejection {
    reason: Reason,
}

/// The mathematical image of a rejection: nothing specific, or the
/// document-order sequence of the causes in its cause-set.
pub enum RejView {
    NotFound,
    Causes(Seq<CauseView>),
}

/// The causes of a cause-set, flattened in document order.
pub open spec fn causes_of(r: Rejections) -> Seq<CauseView>
    decreases r,
{
    match r {
        Rejections::Single(c) => seq![c@],
        Rejections::Combined(a, b) => causes_of(*a) + causes_of(*b),
    }
}

impl View for Rejection {
    type V = RejView;

    closed spec fn view(&self) -> RejView {
        match self.reason {
            Reason::NotFound => RejView::NotFound,
            Reason::Other(r) => RejView::Causes(causes_of(r)),
        }
    }
}

impl Rejection {
    /// The trivial rejection: no branch matched, and nothing more specific
    /// is known.
    pub fn not_found() -> (r: Rejection)
        ensures
            r == not_found_rejection(),
            r@ is NotFound,
    {
        Rejection { reason: Reason::NotFound }
    }

    /// A rejection carrying one cause produced by this crate.
    pub fn known(cause: KnownCause) -> (r: Rejection)
        ensures
            r@ == RejView::Causes(seq![cause@]),
    {
        Rejection { reason: Reason::Other(Rejections::Single(Cause::Known(cause))) }
    }

    /// A rejection carrying one custom cause.
    pub fn custom(cause: CustomCause) -> (r: Rejection)
        ensures
            r@ == RejView::Causes(seq![cause@]),
    {
        Rejection { reason: Reason::Other(Rejections::Single(Cause::Custom(cause))) }
    }

    /// True exactly of the rejection made by [`Rejection::not_found`].
    pub fn is_not_found(&self) -> (b: bool)
        ensures
            b == (self@ is NotFound),
    {
        match self.reason {
            Reason::NotFound => true,
            Reason::Other(_) => false,
        }
    }
}

/// The value [`Rejection::not_found`] returns.
pub closed spec fn not_found_rejection() -> Rejection {
    Rejection { reason: Reason::NotFound }
}

/// Combination of two rejection images: the trivial rejection is absorbed by
/// any operand; two cause-sets pair up, preserving both sides' causes in
/// document order.
pub open spec fn combine_view(a: RejView, b: RejView) -> RejView {
    match (a, b) {
        (RejView::NotFound, other) => other,
        (other, RejView::NotFound) => other,
        (RejView::Causes(x), RejView::Causes(y)) => RejView::Causes(x + y),
    }
}

/// The exact rejection value [`Rejection::combine`] returns.
pub closed spec fn combine_spec(a: Rejection, b: Rejection) -> Rejection {
    match (a.reason, b.reason) {
        (Reason::Other(x), Reason::Other(y)) => Rejection {
            reason: Reason::Other(Rejections::Combined(Box::new(x), Box::new(y))),
        },
        (Reason::NotFound, _) => b,
        (_, Reason::NotFound) => a,
    }
}

impl Rejection {
    /// Combines the rejections of the two branches of an `or` whose sides
    /// both rejected.  The trivial rejection is absorbed by any operand; two
    /// non-trivial operands produce a combined cause-set preserving both.
    pub fn combine(self, other: Rejection) -> (r: Rejection)
        ensures
            r == combine_spec(self, other),
            r@ == combine_view(self@, other@),
            self@ is NotFound ==> r == other,
            other@ is NotFound ==> r == self,
    {
        let reason = match (self.reason, other.reason) {
            (Reason::Other(left), Reason::Other(right)) => Reason::Other(
                Rejections::Combined(Box::new(left), Box::new(right)),
            ),
            (Reason::Other(other_set), Reason::NotFound)
            | (Reason::NotFound, Reason::Other(other_set)) => Reason::Other(other_set),
            (Reason::NotFound, Reason::NotFound) => Reason::NotFound,
        };
        Rejection { reason }
    }

    /// Searches this rejection's cause-set, depth first in document order,
    /// for the first cause carrying the requested tag.
    pub fn find(&self, tag: CauseTag) -> (res: Option<&Cause>)
        ensures
            match res {
                Some(c) => causes_view(self@).len() > 0 && find_view(causes_view(self@), tag)
                    == Some(c@),
                None => find_view(causes_view(self@), tag) is None,
            },
    {
        match &self.reason {
            Reason::NotFound => None,
            Reason::Other(rejections) => rejections.find(tag),
        }
    }
}

/// The causes of a rejection image; the trivial rejection has none.
pub open spec fn causes_view(v: RejView) -> Seq<CauseView> {
    match v {
        RejView::NotFound => Seq::empty(),
        RejView::Causes(cs) => cs,
    }
}

/// The first cause in `cs` whose tag is `tag`.
pub open spec fn find_view(cs: Seq<CauseView>, tag: CauseTag) -> Option<CauseView>
    decreases cs.len(),
{
    if cs.len() == 0 {
        None
    } else if cs[0].tag == tag {
        Some(cs[0])
    } else {
        find_view(cs.drop_first(), tag)
    }
}

/// Searching a concatenation finds what the left part holds, and otherwise
/// what the right part holds.
pub proof fn lemma_find_view_concat(x: Seq<CauseView>, y: Seq<CauseView>, tag: CauseTag)
    ensures
        find_view(x + y, tag) == (if find_view(x, tag) is Some {
            find_view(x, tag)
        } else {
            find_view(y, tag)
        }),
    decreases x.len(),
{
    if x.len() == 0 {
        assert(x + y =~= y);
    } else {
        assert((x + y).drop_first() =~= x.drop_first() + y);
        lemma_find_view_concat(x.drop_first(), y, tag);
    }
}

impl Rejections {
    fn find(&self, tag: CauseTag) -> (res: Option<&Cause>)
        ensures
            match res {
                Some(c) => find_view(causes_of(*self), tag) == Some(c@),
                None => find_view(causes_of(*self), tag) is None,
            },
        decreases *self,
    {
        match self {
            Rejections::Single(c) => {
                proof {
                    assert(causes_of(*self) =~= seq![c@]);
                    assert(causes_of(*self)[0] == c@);
                    assert(causes_of(*self).len() == 1);
                }
                if c.tag() == tag {
                    proof {
                        assert(find_view(causes_of(*self), tag) == Some(c@));
                    }
                    Some(c)
                } else {
                    proof {
                        assert(causes_of(*self).drop_first() =~= Seq::<CauseView>::empty());
                        assert(find_view(Seq::<CauseView>::empty(), tag) is None);
                        assert(find_view(causes_of(*self), tag) is None);
                    }
                    None
                }
            },
            Rejections::Combined(a, b) => {
                proof {
                    lemma_find_view_concat(causes_of(**a), causes_of(**b), tag);
                }
                match a.find(tag) {
                    Some(c) => Some(c),
                    None => b.find(tag),
                }
            },
        }
    }
}

/// Identity law of combination: the trivial rejection is a left and right
/// identity for [`Rejection::combine`], which returns the other operand
/// unchanged.
pub proof fn lemma_combine_identity(r: Rejection)
    ensures
        combine_spec(not_found_rejection(), r) == r,
        combine_spec(r, not_found_rejection()) == r,
{
}

/// The view-level identity law: combining with the trivial image changes
/// nothing.
pub proof fn lemma_combine_view_identity(v: RejView)
    ensures
        combine_view(RejView::NotFound, v) == v,
        combine_view(v, RejView::NotFound) == v,
{
}

/// The text a cause tag is described by.
pub open spec fn tag_text(t: CauseTag) -> Seq<char> {
    match t {
        CauseTag::ApiError => "DiscordApiError"@,
        CauseTag::MissingArgument => "MissingArgument"@,
        CauseTag::TypeMismatch => "TypeMismatch"@,
        CauseTag::InvalidChoice => "InvalidChoice"@,
        CauseTag::Custom(n) => "Custom#"@ + crate::text::dec_rep(n as nat),
    }
}

/// The text one cause is described by: its tag, and its detail when there
/// is one.
pub open spec fn cause_text(c: CauseView) -> Seq<char> {
    if c.detail.len() == 0 {
        tag_text(c.tag)
    } else {
        tag_text(c.tag) + ": "@ + c.detail
    }
}

/// The texts of `cs` joined by commas.
pub open spec fn causes_text(cs: Seq<CauseView>) -> Seq<char>
    decreases cs.len(),
{
    if cs.len() == 0 {
        Seq::empty()
    } else if cs.len() == 1 {
        cause_text(cs[0])
    } else {
        cause_text(cs[0]) + ", "@ + causes_text(cs.drop_first())
    }
}

/// The text a whole rejection is described by.
pub open spec fn describe_view(v: RejView) -> Seq<char> {
    match v {
        RejView::NotFound => "NotFound"@,
        RejView::Causes(cs) => "["@ + causes_text(cs) + "]"@,
    }
}

proof fn lemma_causes_of_nonempty(r: Rejections)
    ensures
        causes_of(r).len() >= 1,
    decreases r,
{
    match r {
        Rejections::Single(_) => {},
        Rejections::Combined(a, b) => {
            lemma_causes_of_nonempty(*a);
            lemma_causes_of_nonempty(*b);
        },
    }
}

proof fn lemma_causes_text_concat(x: Seq<CauseView>, y: Seq<CauseView>)
    requires
        x.len() >= 1,
        y.len() >= 1,
    ensures
        causes_text(x + y) == causes_text(x) + ", "@ + causes_text(y),
    decreases x.len(),
{
    assert((x + y)[0] == x[0]);
    if x.len() == 1 {
        assert((x + y).drop_first() =~= y);
    } else {
        assert((x + y).drop_first() =~= x.drop_first() + y);
        lemma_causes_text_concat(x.drop_first(), y);
        assert(cause_text(x[0]) + ", "@ + (causes_text(x.drop_first()) + ", "@ + causes_text(y))
            =~= (cause_text(x[0]) + ", "@ + causes_text(x.drop_first())) + ", "@ + causes_text(y));
    }
}

fn describe_tagged(tag: &'static str, detail: &String) -> (r: String)
    ensures
        r@ == (if detail@.len() == 0 {
            tag@
        } else {
            tag@ + ": "@ + detail@
        }),
{
    let mut r = String::from_str(tag);
    if !detail.as_str().is_empty() {
        r.append(": ");
        r.append(detail.as_str());
    }
    r
}

impl Cause {
    /// The text this cause is described by.
    pub fn describe(&self) -> (r: String)
        ensures
            r@ == cause_text(self@),
    {
        match self {
            Cause::Known(KnownCause::DiscordApiError) => String::from_str("DiscordApiError"),
            Cause::Known(KnownCause::MissingArgument(n)) => describe_tagged("MissingArgument", n),
            Cause::Known(KnownCause::TypeMismatch(n)) => describe_tagged("TypeMismatch", n),
            Cause::Known(KnownCause::InvalidChoice(n)) => describe_tagged("InvalidChoice", n),
            Cause::Custom(c) => {
                let mut tag = String::from_str("Custom#");
                tag.append(crate::text::to_dec_string(c.tag).as_str());
                if c.payload.as_str().is_empty() {
                    tag
                } else {
                    tag.append(": ");
                    tag.append(c.payload.as_str());
                    tag
                }
            },
        }
    }
}

impl Rejections {
    fn describe(&self) -> (r: String)
        ensures
            r@ == causes_text(causes_of(*self)),
        decreases *self,
    {
        match self {
            Rejections::Single(c) => {
                proof {
                    assert(causes_of(*self) =~= seq![c@]);
                }
                c.describe()
            },
            Rejections::Combined(a, b) => {
                proof {
                    lemma_causes_of_nonempty(**a);
                    lemma_causes_of_nonempty(**b);
                    lemma_causes_text_concat(causes_of(**a), causes_of(**b));
                }
                let mut r = a.describe();
                r.append(", ");
                r.append(b.describe().as_str());
                r
            },
        }
    }
}

impl Rejection {
    /// The text this rejection is described by: `NotFound` for the trivial
    /// rejection, and the bracketed, comma-joined causes otherwise, in
    /// document order.
    pub fn describe(&self) -> (r: String)
        ensures
            r@ == describe_view(self@),
    {
        match &self.reason {
            Reason::NotFound => String::from_str("NotFound"),
            Reason::Other(rejections) => {
                let mut r = String::from_str("[");
                r.append(rejections.describe().as_str());
                r.append("]");
                r
            },
        }
    }
}

/// When both branches of an `or` reject, the combined rejection can be
/// searched for either branch's cause tag: a tag found in either operand is
/// found in the combination.
pub proof fn lemma_combined_find(a: RejView, b: RejView, tag: CauseTag)
    ensures
        find_view(causes_view(combine_view(a, b)), tag) == (if find_view(causes_view(a), tag)
            is Some {
            find_view(causes_view(a), tag)
        } else {
            find_view(causes_view(b), tag)
        }),
        find_view(causes_view(a), tag) is Some || find_view(causes_view(b), tag) is Some
            ==> find_view(causes_view(combine_view(a, b)), tag) is Some,
{
    lemma_find_view_concat(causes_view(a), causes_view(b), tag);
    match (a, b) {
        (RejView::NotFound, _) => {
            assert(causes_view(a) + causes_view(b) =~= causes_view(b));
        },
        (_, RejView::NotFound) => {
            assert(causes_view(a) + causes_view(b) =~= causes_view(a));
        },
        (RejView::Causes(x), RejView::Causes(y)) => {},
    }
}

/// Rejects the current invocation with a custom cause.
///
/// A `recover` step should convert the rejection into a reply; otherwise the
/// dispatcher falls back to its generic failure reply.
pub fn custom(cause: CustomCause) -> (r: Rejection)
    ensures
        r@ == RejView::Causes(seq![cause@]),
{
    Rejection::custom(cause)
}

} // verus!
