//! A component that keeps a fetched value and renders it through a supplied
//! function, or renders its static children while no function is supplied.
use vstd::prelude::*;
use std::rc::Rc;

verus! {

/// An optional render function from the fetched value to a node.
pub struct Render<F> {
    render: Option<F>,
}

impl<F> Render<F> {
    /// The render function held, if any.
    pub closed spec fn function(&self) -> Option<F> {
        self.render
    }

    /// Whether a render function is held.
    pub fn has_function(&self) -> (r: bool)
        ensures
            r == self.function().is_some(),
    {
        self.render.is_some()
    }

    fn new(f: F) -> (r: Self)
        ensures
            r.function() == Some(f),
    {
        Render { render: Some(f) }
    }
}

impl<F> Default for Render<F> {
    fn default() -> (r: Self)
        ensures
            r.function().is_none(),
    {
        Render { render: None }
    }
}

/// What a render of the persisting wrapper produces: the node made by the
/// render function, or the static children as they stand.
pub enum Rendered<'a, N, C> {
    Node(N),
    Children(&'a C),
}

/// The properties of the persisting wrapper.
pub struct PersistFetchingProps<T, C, F, CB> {
    pub children: C,
    pub render: Render<F>,
    /// Set by the fetch orchestration that owns the value.
    pub data: Option<Rc<T>>,
    /// Where messages are relayed, if anywhere.
    pub callback: Option<CB>,
}

impl<T, N, C, F: Fn(&T) -> N, CB> PersistFetchingProps<T, C, F, CB> {
    /// Gathers the properties.
    pub fn new(
        children: C,
        render: Render<F>,
        data: Option<Rc<T>>,
        callback: Option<CB>,
    ) -> (r: Self)
        ensures
            r.children == children,
            r.render == render,
            r.data == data,
            r.callback == callback,
    {
        PersistFetchingProps { children, render, data, callback }
    }

    /// Whether a render is allowed: a render function, when present, comes
    /// with a value to render and accepts it.
    pub open spec fn renderable(&self) -> bool {
        match self.render.function() {
            Some(f) => match self.data {
                Some(d) => f.requires((&*d,)),
                None => false,
            },
            None => true,
        }
    }
}

/// Holds an optional value delivered from outside and renders it through the
/// supplied render function, or renders the static children when there is
/// none.
pub struct PersistFetching<T, C, F, CB> {
    props: PersistFetchingProps<T, C, F, CB>,
}

impl<T, C, F, CB> PersistFetching<T, C, F, CB> {
    /// The properties held.
    pub closed spec fn props(&self) -> PersistFetchingProps<T, C, F, CB> {
        self.props
    }

    /// Relays `msg` to the registered callback, if there is one, whatever the
    /// data and the render function are. The wrapper never re-renders on a
    /// message and its properties stay as they were.
    pub fn update<M>(&mut self, msg: M) -> (r: bool)
        where
            CB: Fn(M),
        requires
            match old(self).props().callback {
                Some(cb) => cb.requires((msg,)),
                None => true,
            },
        ensures
            !r,
            final(self).props() == old(self).props(),
            match old(self).props().callback {
                Some(cb) => cb.ensures((msg,), ()),
                None => true,
            },
    {
        if let Some(callback) = &self.props.callback {
            callback(msg);
        }
        false
    }
}

impl<T, N, C, F: Fn(&T) -> N, CB> PersistFetching<T, C, F, CB> {
    /// Wraps a render function for the `render` property.
    pub fn render(f: F) -> (r: Render<F>)
        ensures
            r.function() == Some(f),
    {
        Render::new(f)
    }

    /// Stores the properties as given.
    pub fn create(props: PersistFetchingProps<T, C, F, CB>) -> (r: Self)
        ensures
            r.props() == props,
    {
        PersistFetching { props }
    }

    /// Renders the value through the render function when there is one, and
    /// the static children otherwise.
    pub fn view(&self) -> (r: Rendered<'_, N, C>)
        requires
            self.props().renderable(),
        ensures
            match self.props().render.function() {
                Some(f) => match r {
                    Rendered::Node(n) => f.ensures((&*self.props().data.unwrap(),), n),
                    Rendered::Children(_) => false,
                },
                None => match r {
                    Rendered::Children(c) => *c == self.props().children,
                    Rendered::Node(_) => false,
                },
            },
    {
        match &self.props.render.render {
            Some(render) => {
                let data: &Rc<T> = self.props.data.as_ref().unwrap();
                Rendered::Node(render(&**data))
            },
            None => Rendered::Children(&self.props.children),
        }
    }
}

} // verus!
