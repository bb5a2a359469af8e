//! Two-phase construction of a child component's node: the properties are
//! captured first, and the scope that will own the child is supplied later.
use vstd::prelude::*;
use std::marker::PhantomData;

verus! {

/// A child component of kind `CHILD`, described by its properties, waiting
/// for the scope it will be mounted under.
pub struct VCompProducer<CHILD, P> {
    props: P,
    kind: PhantomData<CHILD>,
}

/// A child component of kind `CHILD` with its properties and its scope.
pub struct BoundComp<CHILD, P, S> {
    pub props: P,
    pub scope: S,
    pub kind: PhantomData<CHILD>,
}

impl<CHILD, P> VCompProducer<CHILD, P> {
    /// The properties captured.
    pub closed spec fn props(&self) -> P {
        self.props
    }

    /// Captures the child's properties; nothing else happens until `bind`.
    pub fn new(props: P) -> (r: Self)
        ensures
            r.props() == props,
    {
        VCompProducer { props, kind: PhantomData }
    }

    /// Supplies the scope and yields the child's node description, which keeps
    /// the captured properties and the kind.
    pub fn bind<S>(self, scope: S) -> (r: BoundComp<CHILD, P, S>)
        ensures
            r.props == self.props(),
            r.scope == scope,
    {
        BoundComp { props: self.props, scope, kind: PhantomData }
    }
}

} // verus!
