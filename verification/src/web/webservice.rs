//! The web service's settings: the addresses it is given and where it listens.
use vstd::prelude::*;

verus! {

/// The address on which the web service listens.
pub const LISTEN_ADDRESS: &'static str = "0.0.0.0:8000";

/// The web service, with the addresses of its database, of the library and of
/// the store.
#[derive(Clone, Copy, Debug)]
pub struct ImportWebService<'a> {
    database_url: &'a str,
    library_url: &'a str,
    store_url: &'a str,
}

impl<'a> ImportWebService<'a> {
    /// The address of the database.
    pub closed spec fn database_address(self) -> Seq<char> {
        self.database_url@
    }

    /// The address of the library.
    pub closed spec fn library_address(self) -> Seq<char> {
        self.library_url@
    }

    /// The address of the store.
    pub closed spec fn store_address(self) -> Seq<char> {
        self.store_url@
    }

    pub fn new(database_url: &'a str, library_url: &'a str, store_url: &'a str) -> (r: Self)
        ensures
            r.database_address() == database_url@,
            r.library_address() == library_url@,
            r.store_address() == store_url@,
    {
        ImportWebService { database_url, library_url, store_url }
    }

    /// The address of the database.
    pub fn database_url(&self) -> (r: &'a str)
        ensures
            r@ == self.database_address(),
    {
        self.database_url
    }

    /// The address of the library.
    pub fn library_url(&self) -> (r: &'a str)
        ensures
            r@ == self.library_address(),
    {
        self.library_url
    }

    /// The address of the store.
    pub fn store_url(&self) -> (r: &'a str)
        ensures
            r@ == self.store_address(),
    {
        self.store_url
    }
}

/// A line of the service's log: `[target][level]message`.
pub open spec fn log_line_text(target: Seq<char>, level: Seq<char>, message: Seq<char>) -> Seq<char> {
    "["@ + target + "]["@ + level + "]"@ + message
}

/// A line of the service's log: `[target][level]message`.
pub fn log_line(target: &str, level: &str, message: &str) -> (r: String)
    ensures
        r@ == log_line_text(target@, level@, message@),
{
    let mut line = String::from_str("[");
    line.append(target);
    line.append("][");
    line.append(level);
    line.append("]");
    line.append(message);
    line
}

/// A log line is the target and the level, each in square brackets, followed
/// by the message, all three unchanged.
pub proof fn lemma_log_line_layout(target: Seq<char>, level: Seq<char>, message: Seq<char>)
    ensures
        log_line_text(target, level, message) == seq!['['] + target + seq![']', '['] + level
            + seq![']'] + message,
{
    reveal_strlit("[");
    reveal_strlit("][");
    reveal_strlit("]");
    assert("["@ =~= seq!['[']);
    assert("]["@ =~= seq![']', '[']);
    assert("]"@ =~= seq![']']);
}

} // verus!
