use vstd::prelude::*;

verus! {

/// A named download source: a display name and the locator it is fetched from.
#[derive(Debug, Clone, PartialEq, Eq, Hash)]
pub struct Indexer {
    name: String,
    uri: String,
}

impl Indexer {
    pub closed spec fn spec_name(&self) -> Seq<char> {
        self.name@
    }

    pub closed spec fn spec_uri(&self) -> Seq<char> {
        self.uri@
    }

    pub fn new(name: &str, uri: &str) -> (r: Self)
        ensures
            r.spec_name() == name@,
            r.spec_uri() == uri@,
    {
        Indexer { name: name.to_owned(), uri: uri.to_owned() }
    }

    pub fn name(&self) -> (r: &str)
        ensures
            r@ == self.spec_name(),
    {
        self.name.as_str()
    }

    pub fn uri(&self) -> (r: &str)
        ensures
            r@ == self.spec_uri(),
    {
        self.uri.as_str()
    }
}

} // verus!
