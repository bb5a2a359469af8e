//! Shortcut for terse component definitions.
use vstd::prelude::*;
use vstd::std_specs::cmp::PartialEqSpec;
use vstd::laws_eq::obeys_concrete_eq;
use crate::props_update::{props_changed, props_after, neq_assign};

verus! {

/// Routes a message to the one callback that a properties type holds.
///
/// An implementation delivers the message to exactly one externally registered
/// callback, or does nothing when none is registered. A properties type with
/// several callbacks picks the one to wire by implementing this by hand.
pub trait Emissive {
    type Message;

    fn emit(&self, msg: Self::Message);
}

/// Allows immutable components to be declared using a single struct and a
/// single method; messages go through `Emissive`.
pub trait PureComponent: Emissive + PartialEq + Sized {
    /// What a render produces.
    type Node;

    /// Renders `self`: a pure function of the properties.
    fn render(&self) -> Self::Node;
}

/// Allows immutable components to be declared using a single struct and two
/// methods, with their own message handling.
///
/// Every `T: PureComponent` has it, and it is what the `Pure` wrapper needs.
pub trait PureEmissiveComponent: PartialEq + Sized {
    /// The message handled.
    type Message;

    /// What a render produces.
    type Node;

    /// Renders `self`.
    fn render(&self) -> Self::Node;

    /// Sends a message; by default it is dropped.
    fn send_message(&self, msg: Self::Message) {
    }
}

impl<T: PureComponent> PureEmissiveComponent for T {
    type Message = <T as Emissive>::Message;

    type Node = <T as PureComponent>::Node;

    fn render(&self) -> (r: Self::Node)
        ensures
            call_ensures(<T as PureComponent>::render, (self,), r),
    {
        <T as PureComponent>::render(self)
    }

    fn send_message(&self, msg: Self::Message)
        ensures
            call_ensures(<T as Emissive>::emit, (self, msg), ()),
    {
        <T as Emissive>::emit(self, msg)
    }
}

/// Wrapper component for pure components: it holds the current properties and
/// nothing else.
#[derive(Debug)]
pub struct Pure<T>(T);

impl<T: PureEmissiveComponent> Pure<T> {
    /// The properties held.
    pub closed spec fn props(&self) -> T {
        self.0
    }

    /// Stores the properties as given.
    pub fn create(props: T) -> (r: Self)
        ensures
            r.props() == props,
    {
        Pure(props)
    }

    /// Forwards `msg` to the properties' message handler; a message alone
    /// never asks for a re-render, and the held properties stay as they were.
    pub fn update(&mut self, msg: T::Message) -> (r: bool)
        ensures
            !r,
            final(self).props() == old(self).props(),
            call_ensures(T::send_message, (&old(self).props(), msg), ()),
    {
        self.0.send_message(msg);
        false
    }

    /// Offers new properties in place of the current ones; the result says whether
    /// they differed and so replaced the old ones.
    pub fn change(&mut self, props: T) -> (r: bool)
        ensures
            r ==> final(self).props() == props,
            !r ==> final(self).props() == old(self).props(),
            T::obeys_eq_spec() ==> r == props_changed(old(self).props(), props),
            T::obeys_eq_spec() ==> final(self).props() == props_after(old(self).props(), props),
            obeys_concrete_eq::<T>() ==> (r <==> props != old(self).props()),
    {
        neq_assign(&mut self.0, props)
    }

    /// Renders through the properties' own render function.
    pub fn view(&self) -> (r: T::Node)
        ensures
            call_ensures(T::render, (&self.props(),), r),
    {
        self.0.render()
    }
}

} // verus!
