//! A snapshot of the environment variables that a logger reads: its
//! configuration and the identity of the service it logs for.

use vstd::prelude::*;
use vstd::string::*;

verus! {

/// Environment variables as name and value pairs. When a name occurs more
/// than once, the first pair counts.
pub struct Environment {
    pub vars: Vec<(String, String)>,
}

impl View for Environment {
    type V = Seq<(Seq<char>, Seq<char>)>;

    open spec fn view(&self) -> Seq<(Seq<char>, Seq<char>)> {
        self.vars@.map_values(|e: (String, String)| (e.0@, e.1@))
    }
}

/// The value of the first variable of that name, if there is one.
pub open spec fn env_lookup(vars: Seq<(Seq<char>, Seq<char>)>, name: Seq<char>) -> Option<
    Seq<char>,
>
    decreases vars.len(),
{
    if vars.len() == 0 {
        None
    } else if vars[0].0 == name {
        Some(vars[0].1)
    } else {
        env_lookup(vars.drop_first(), name)
    }
}

/// The value of the first of two variables that is set, or the empty text.
pub open spec fn first_set(
    vars: Seq<(Seq<char>, Seq<char>)>,
    primary: Seq<char>,
    fallback: Seq<char>,
) -> Seq<char> {
    match env_lookup(vars, primary) {
        Some(v) => v,
        None => match env_lookup(vars, fallback) {
            Some(v) => v,
            None => Seq::empty(),
        },
    }
}

/// The service name: `SERVICE_NAME`, else `CARGO_PKG_NAME`, else empty.
pub open spec fn service_name_of(vars: Seq<(Seq<char>, Seq<char>)>) -> Seq<char> {
    first_set(vars, "SERVICE_NAME"@, "CARGO_PKG_NAME"@)
}

/// The service version: `SERVICE_VERSION`, else `CARGO_PKG_VERSION`, else
/// empty.
pub open spec fn service_version_of(vars: Seq<(Seq<char>, Seq<char>)>) -> Seq<char> {
    first_set(vars, "SERVICE_VERSION"@, "CARGO_PKG_VERSION"@)
}

impl Environment {
    /// An environment with no variables set.
    pub fn new() -> (r: Environment)
        ensures
            r@.len() == 0,
    {
        Environment { vars: Vec::new() }
    }

    /// Adds a variable after those already held; an earlier one of the same
    /// name still counts first.
    pub fn set(&mut self, name: &str, value: &str)
        ensures
            final(self)@ == old(self)@.push((name@, value@)),
    {
        self.vars.push((String::from_str(name), String::from_str(value)));
        assert(final(self)@ =~= old(self)@.push((name@, value@)));
    }

    /// The value of the first variable of that name.
    pub fn lookup(&self, name: &str) -> (r: Option<String>)
        ensures
            r is Some <==> env_lookup(self@, name@) is Some,
            r is Some ==> r->Some_0@ == env_lookup(self@, name@)->Some_0,
    {
        let key = String::from_str(name);
        let ghost v = self@;
        let mut i: usize = 0;
        assert(v.subrange(0, v.len() as int) =~= v);
        while i < self.vars.len()
            invariant
                i <= self.vars@.len(),
                v == self@,
                key@ == name@,
                env_lookup(v, name@) == env_lookup(v.subrange(i as int, v.len() as int), name@),
            decreases self.vars@.len() - i,
        {
            let ghost rest = v.subrange(i as int, v.len() as int);
            assert(rest[0] == v[i as int]);
            assert(v[i as int] == (self.vars@[i as int].0@, self.vars@[i as int].1@));
            if self.vars[i].0 == key {
                return Some(self.vars[i].1.clone());
            }
            assert(rest.drop_first() =~= v.subrange(i + 1, v.len() as int));
            i = i + 1;
        }
        None
    }

    fn first_set(&self, primary: &str, fallback: &str) -> (r: String)
        ensures
            r@ == first_set(self@, primary@, fallback@),
    {
        match self.lookup(primary) {
            Some(v) => v,
            None => match self.lookup(fallback) {
                Some(v) => v,
                None => String::new(),
            },
        }
    }

    /// The name of the service: `SERVICE_NAME`, else `CARGO_PKG_NAME`, else
    /// the empty string.
    pub fn service_name(&self) -> (r: String)
        ensures
            r@ == service_name_of(self@),
    {
        self.first_set("SERVICE_NAME", "CARGO_PKG_NAME")
    }

    /// The version of the service: `SERVICE_VERSION`, else
    /// `CARGO_PKG_VERSION`, else the empty string.
    pub fn service_version(&self) -> (r: String)
        ensures
            r@ == service_version_of(self@),
    {
        self.first_set("SERVICE_VERSION", "CARGO_PKG_VERSION")
    }
}

} // verus!
