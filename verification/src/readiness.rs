//! Socket readiness: the events a socket has seen and the ones it waits for.

use mio::unix::UnixReady;
use mio::{Ready, Token};
use vstd::prelude::*;

verus! {

/// A kind of readiness event.
#[derive(Debug, Clone, Copy, PartialEq, Eq, Structural)]
pub enum Kind {
    Readable,
    Writable,
    Error,
    Hup,
}

/// `mio::unix::UnixReady`, a set of readiness event kinds.
#[verifier::external_type_specification]
#[verifier::external_body]
pub struct ExUnixReady(UnixReady);

/// `mio::Token`, the number under which a socket is registered with the poll.
#[verifier::external_type_specification]
#[verifier::external_body]
pub struct ExToken(Token);

/// The kinds, out of the four of `Kind`, that a `UnixReady` holds.
pub uninterp spec fn kinds(ready: UnixReady) -> Set<Kind>;

/// The kinds beyond the four of `Kind` that a `UnixReady` holds, by the
/// numbers that the platform gives them.
pub uninterp spec fn other_kinds(ready: UnixReady) -> Set<nat>;

/// `Ready::empty`, converted by `UnixReady::from`: the set without any kind at
/// all.
#[verifier::external_body]
fn empty() -> (ready: UnixReady)
    ensures
        kinds(ready) == Set::<Kind>::empty(),
        other_kinds(ready) == Set::<nat>::empty(),
{
    UnixReady::from(Ready::empty())
}

/// `Ready::readable`, converted by `UnixReady::from`: read readiness and
/// nothing else.
#[verifier::external_body]
fn readable() -> (ready: UnixReady)
    ensures
        kinds(ready) == set![Kind::Readable],
        other_kinds(ready) == Set::<nat>::empty(),
{
    UnixReady::from(Ready::readable())
}

/// `Ready::writable`, converted by `UnixReady::from`: write readiness and
/// nothing else.
#[verifier::external_body]
fn writable() -> (ready: UnixReady)
    ensures
        kinds(ready) == set![Kind::Writable],
        other_kinds(ready) == Set::<nat>::empty(),
{
    UnixReady::from(Ready::writable())
}

/// `UnixReady::error`: error readiness and nothing else.
#[verifier::external_body]
fn error() -> (ready: UnixReady)
    ensures
        kinds(ready) == set![Kind::Error],
        other_kinds(ready) == Set::<nat>::empty(),
{
    UnixReady::error()
}

/// `UnixReady::hup`: hang-up readiness and nothing else.
#[verifier::external_body]
fn hup() -> (ready: UnixReady)
    ensures
        kinds(ready) == set![Kind::Hup],
        other_kinds(ready) == Set::<nat>::empty(),
{
    UnixReady::hup()
}

/// The `|` of `UnixReady`: the kinds of either operand.
#[verifier::external_body]
fn either(left: UnixReady, right: UnixReady) -> (ready: UnixReady)
    ensures
        kinds(ready) == kinds(left).union(kinds(right)),
        other_kinds(ready) == other_kinds(left).union(other_kinds(right)),
{
    left | right
}

/// `Ready::insert`, reached through the `DerefMut` of `UnixReady`: adds the
/// kinds of `other`.
#[verifier::external_body]
fn insert(ready: &mut UnixReady, other: UnixReady)
    ensures
        kinds(*final(ready)) == kinds(*old(ready)).union(kinds(other)),
        other_kinds(*final(ready)) == other_kinds(*old(ready)).union(other_kinds(other)),
{
    ready.insert(other)
}

/// `Ready::remove`, reached through the `DerefMut` of `UnixReady`: takes the
/// kinds of `other` away.
#[verifier::external_body]
fn remove(ready: &mut UnixReady, other: UnixReady)
    ensures
        kinds(*final(ready)) == kinds(*old(ready)).difference(kinds(other)),
        other_kinds(*final(ready)) == other_kinds(*old(ready)).difference(other_kinds(other)),
{
    ready.remove(other)
}

/// `Ready::is_readable`, reached through the `Deref` of `UnixReady`: whether
/// read readiness is in the set.
#[verifier::external_body]
fn is_readable(ready: &UnixReady) -> (r: bool)
    ensures
        r == kinds(*ready).contains(Kind::Readable),
{
    ready.is_readable()
}

/// How `UnixReady` names a kind when it is printed.
pub open spec fn kind_name(kind: Kind) -> Seq<char> {
    match kind {
        Kind::Readable => "Readable"@,
        Kind::Writable => "Writable"@,
        Kind::Error => "Error"@,
        Kind::Hup => "Hup"@,
    }
}

/// `names` followed by the name of `kind`, if `ready` holds that kind.
pub open spec fn name_next(names: Seq<char>, ready: Set<Kind>, kind: Kind) -> Seq<char> {
    if !ready.contains(kind) {
        names
    } else if names.len() == 0 {
        kind_name(kind)
    } else {
        names + " | "@ + kind_name(kind)
    }
}

/// The names of the kinds in `ready`, in the order in which they are printed.
pub open spec fn kind_names(ready: Set<Kind>) -> Seq<char> {
    let names = name_next(Seq::empty(), ready, Kind::Readable);
    let names = name_next(names, ready, Kind::Writable);
    let names = name_next(names, ready, Kind::Error);
    name_next(names, ready, Kind::Hup)
}

/// The `Debug` of `UnixReady`: the text begins with the names of the kinds in
/// the set. What comes after them depends on the platform, and is not stated:
/// some platforms print names of further kinds, and a set that names no kind
/// at all is printed as a placeholder.
#[verifier::external_body]
fn debug_text(ready: &UnixReady) -> (text: String)
    ensures
        kind_names(kinds(*ready)).is_prefix_of(text@),
{
    format!("{:?}", ready)
}

/// The readiness of exactly one kind.
fn only(kind: Kind) -> (ready: UnixReady)
    ensures
        kinds(ready) == set![kind],
        other_kinds(ready) == Set::<nat>::empty(),
{
    match kind {
        Kind::Readable => readable(),
        Kind::Writable => writable(),
        Kind::Error => error(),
        Kind::Hup => hup(),
    }
}

/// The two sets of a socket, as sets of kinds.
#[verifier::ext_equal]
pub struct ReadinessView {
    /// What the poll has reported and nothing has used up yet.
    pub event: Set<Kind>,
    /// What the session waits for.
    pub interest: Set<Kind>,
    /// The same, of the kinds that only the platform knows.
    pub other_event: Set<nat>,
    pub other_interest: Set<nat>,
}

impl ReadinessView {
    /// Neither an event nor an interest.
    pub open spec fn none() -> ReadinessView {
        ReadinessView {
            event: Set::empty(),
            interest: Set::empty(),
            other_event: Set::empty(),
            other_interest: Set::empty(),
        }
    }

    /// Waits for `kind` too.
    pub open spec fn waiting_for(self, kind: Kind) -> ReadinessView {
        ReadinessView { interest: self.interest.insert(kind), ..self }
    }

    /// Does not wait for `kind` any more.
    pub open spec fn ignoring(self, kind: Kind) -> ReadinessView {
        ReadinessView { interest: self.interest.remove(kind), ..self }
    }

    /// Waits for hang-ups, for errors and for nothing else.
    pub open spec fn waiting_for_end(self) -> ReadinessView {
        ReadinessView {
            interest: set![Kind::Hup, Kind::Error],
            other_interest: Set::empty(),
            ..self
        }
    }

    /// Waits for `kind`, for hang-ups, for errors and for nothing else.
    pub open spec fn waiting_only_for(self, kind: Kind) -> ReadinessView {
        ReadinessView {
            interest: set![kind, Kind::Hup, Kind::Error],
            other_interest: Set::empty(),
            ..self
        }
    }

    /// Has seen an event of this kind.
    pub open spec fn seeing(self, kind: Kind) -> ReadinessView {
        ReadinessView { event: self.event.insert(kind), ..self }
    }

    /// Has used up the event of this kind.
    pub open spec fn used_up(self, kind: Kind) -> ReadinessView {
        ReadinessView { event: self.event.remove(kind), ..self }
    }

    /// Whether `text` may stand for this readiness in a log: it names the
    /// kinds of both sets, each followed by what the platform adds.
    pub open spec fn prints_as(self, text: Seq<char>) -> bool {
        exists|event: Seq<char>, interest: Seq<char>|
            #![trigger readiness_text(event, interest)]
            {
                &&& text == readiness_text(event, interest)
                &&& kind_names(self.event).is_prefix_of(event)
                &&& kind_names(self.interest).is_prefix_of(interest)
            }
    }
}

/// What a socket is ready for, and what the session wants to hear about.
#[derive(Debug, Clone, Copy)]
pub struct Readiness {
    pub event: UnixReady,
    pub interest: UnixReady,
}

impl View for Readiness {
    type V = ReadinessView;

    open spec fn view(&self) -> ReadinessView {
        ReadinessView {
            event: kinds(self.event),
            interest: kinds(self.interest),
            other_event: other_kinds(self.event),
            other_interest: other_kinds(self.interest),
        }
    }
}

impl Readiness {
    /// Neither an event nor an interest.
    pub fn new() -> (r: Readiness)
        ensures
            r@ == ReadinessView::none(),
    {
        Readiness { event: empty(), interest: empty() }
    }

    /// Forgets every event and every interest.
    pub fn reset(&mut self)
        ensures
            final(self)@ == ReadinessView::none(),
    {
        self.event = empty();
        self.interest = empty();
    }

    /// Waits for `kind` too.
    pub fn wait_for(&mut self, kind: Kind)
        ensures
            final(self)@ == old(self)@.waiting_for(kind),
    {
        insert(&mut self.interest, only(kind));
    }

    /// Does not wait for `kind` any more.
    pub fn ignore(&mut self, kind: Kind)
        ensures
            final(self)@ == old(self)@.ignoring(kind),
    {
        remove(&mut self.interest, only(kind));
    }

    /// Waits for hang-ups, for errors and for nothing else.
    pub fn wait_for_end(&mut self)
        ensures
            final(self)@ == old(self)@.waiting_for_end(),
    {
        self.interest = either(hup(), error());
    }

    /// Waits for `kind`, for hang-ups, for errors and for nothing else.
    pub fn wait_only_for(&mut self, kind: Kind)
        ensures
            final(self)@ == old(self)@.waiting_only_for(kind),
    {
        self.interest = either(either(only(kind), hup()), error());
    }

    /// Notes an event of this kind.
    pub fn see(&mut self, kind: Kind)
        ensures
            final(self)@ == old(self)@.seeing(kind),
    {
        insert(&mut self.event, only(kind));
    }

    /// Takes the event of this kind away.
    pub fn use_up(&mut self, kind: Kind)
        ensures
            final(self)@ == old(self)@.used_up(kind),
    {
        remove(&mut self.event, only(kind));
    }

    /// Whether the socket has something to read.
    pub fn has_read_event(&self) -> (r: bool)
        ensures
            r == self@.event.contains(Kind::Readable),
    {
        is_readable(&self.event)
    }

    /// Both sets, in text for a log.
    pub fn text(&self) -> (text: String)
        ensures
            self@.prints_as(text@),
    {
        let event = debug_text(&self.event);
        let interest = debug_text(&self.interest);
        Readiness::text_of(event.as_str(), interest.as_str())
    }

    /// The text of a readiness whose two sets print as `event` and `interest`.
    pub fn text_of(event: &str, interest: &str) -> (text: String)
        ensures
            text@ == readiness_text(event@, interest@),
    {
        let mut text = "Readiness { event: ".to_owned();
        text.append(event);
        text.append(", interest: ");
        text.append(interest);
        text.append(" }");
        text
    }
}

/// The text of a readiness whose two sets print as `event` and `interest`.
pub open spec fn readiness_text(event: Seq<char>, interest: Seq<char>) -> Seq<char> {
    "Readiness { event: "@ + event + ", interest: "@ + interest + " }"@
}

} // verus!
