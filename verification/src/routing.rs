//! The record of registered routes that a server lists when it starts.

use vstd::prelude::*;

use crate::text::{chars_of, extend_chars, string_of};

verus! {

/// The HTTP methods routes are registered for.
#[derive(Debug, Clone, Copy, PartialEq, Eq, Structural)]
pub enum HttpMethod {
    Get,
    Post,
}

/// The name of a method as HTTP writes it.
pub open spec fn spec_method_name(m: HttpMethod) -> Seq<char> {
    match m {
        HttpMethod::Get => "GET"@,
        HttpMethod::Post => "POST"@,
    }
}

impl HttpMethod {
    /// The name of this method as HTTP writes it (`GET`, `POST`).
    pub fn as_str(&self) -> (s: &'static str)
        ensures
            s@ == spec_method_name(*self),
    {
        match self {
            HttpMethod::Get => "GET",
            HttpMethod::Post => "POST",
        }
    }
}

/// The routes registered so far, in registration order.
#[derive(Debug)]
pub struct RouteTable {
    routes: Vec<(HttpMethod, String)>,
}

impl View for RouteTable {
    type V = Seq<(HttpMethod, Seq<char>)>;

    closed spec fn view(&self) -> Seq<(HttpMethod, Seq<char>)> {
        self.routes@.map_values(|r: (HttpMethod, String)| (r.0, r.1@))
    }
}

/// The line a server prints for a route: its method, a space and its path.
pub open spec fn spec_route_line(r: (HttpMethod, Seq<char>)) -> Seq<char> {
    spec_method_name(r.0) + " "@ + r.1
}

impl RouteTable {
    /// A table with no routes.
    pub fn new() -> (t: RouteTable)
        ensures
            t@ == Seq::<(HttpMethod, Seq<char>)>::empty(),
    {
        let t = RouteTable { routes: Vec::new() };
        assert(t@ =~= Seq::<(HttpMethod, Seq<char>)>::empty());
        t
    }

    /// Records a route for `method` at `path`, after those recorded before.
    pub fn record(&mut self, method: HttpMethod, path: String)
        ensures
            final(self)@ == old(self)@.push((method, path@)),
    {
        let ghost before = self@;
        self.routes.push((method, path));
        assert(self@ =~= before.push((method, path@)));
    }

    /// The number of recorded routes.
    pub fn len(&self) -> (n: usize)
        ensures
            n == self@.len(),
    {
        self.routes.len()
    }

    /// The lines a server prints for its routes, one per route, in registration order.
    pub fn listing(&self) -> (lines: Vec<String>)
        ensures
            lines@.len() == self@.len(),
            forall|i: int| 0 <= i < lines@.len() ==> #[trigger] lines@[i]@ == spec_route_line(self@[i]),
    {
        let mut lines: Vec<String> = Vec::new();
        let mut i: usize = 0;
        while i < self.routes.len()
            invariant
                i <= self.routes@.len() == self@.len(),
                lines@.len() == i,
                forall|k: int| 0 <= k < i ==> #[trigger] lines@[k]@ == spec_route_line(self@[k]),
            decreases self.routes.len() - i,
        {
            let (method, path) = &self.routes[i];
            let mut v = chars_of(method.as_str());
            v.push(' ');
            extend_chars(&mut v, &chars_of(path.as_str()));
            assert(self@[i as int] == (self.routes@[i as int].0, self.routes@[i as int].1@));
            proof {
                reveal_strlit(" ");
            }
            assert(v@ =~= spec_route_line(self@[i as int]));
            lines.push(string_of(&v));
            i += 1;
        }
        lines
    }
}

} // verus!
