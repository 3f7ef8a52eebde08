//! The availability check: naming rules, then the reserved names, then the
//! sparse index.

pub use crate::canon::canon_crate_name;
pub use crate::index::{index_path, index_spellings, index_url};
pub use crate::reserved::ReservedSet;
pub use crate::validation::{validate_crate_name, InvalidCrateName, MAX_NAME_LENGTH};

use vstd::prelude::*;
use crate::canon::canon;
use crate::index::spellings;
use crate::reserved::{is_reserved, reserved_set};
use crate::text::{decimal, push_decimal};
use crate::validation::{fault_message, is_valid_name, lemma_valid_name_shape, name_fault};

verus! {

/// Seconds that one request to the index may take before it is given up.
pub const REQUEST_TIMEOUT_SECS: u64 = 10;

/// How many requests a caller checking many names should have in flight at once.
pub const MAX_CONCURRENT_REQUESTS: usize = 20;

/// The status with which the index says that it holds no such file.
pub const NOT_FOUND: u16 = 404;

#[verifier::external_type_specification]
#[verifier::external_body]
pub struct ExAgent(ureq::Agent);

#[verifier::external_type_specification]
#[verifier::external_body]
pub struct ExError(ureq::Error);

/// The standing of a name on the registry.
#[derive(Debug, Clone, Copy, PartialEq, Eq, Hash, Structural)]
#[must_use]
#[non_exhaustive]
pub enum Availability {
    /// Nobody holds the name.
    Available,
    /// A package holds the name, or a spelling with the same canonical form.
    Taken,
    /// The registry never lets anyone publish the name.
    Reserved,
}

/// The word for an availability.
pub open spec fn availability_word(a: Availability) -> Seq<char> {
    match a {
        Availability::Available => "available"@,
        Availability::Taken => "taken"@,
        Availability::Reserved => "reserved"@,
    }
}

impl Availability {
    /// The word for this availability, in lower case.
    pub fn as_str(&self) -> (r: &'static str)
        ensures
            r@ == availability_word(*self),
    {
        match self {
            Availability::Available => "available",
            Availability::Taken => "taken",
            Availability::Reserved => "reserved",
        }
    }
}

/// Why a request to the index brought no usable answer.
#[derive(Debug)]
pub enum IndexError {
    /// The index answered with this error status (4xx or 5xx).
    Status(u16),
    /// The request failed before an answer came: connection, timeout, protocol.
    Transport(Box<ureq::Error>),
}

/// Why a name could not be checked.
#[derive(Debug)]
#[non_exhaustive]
pub enum CheckError {
    /// The name breaks the naming rules.
    InvalidName(InvalidCrateName),
    /// The index could not be asked.
    IndexLookup(IndexError),
}

/// Relies on the `Display` of `ureq::Error`: a one-line description of the
/// failure.
#[verifier::external_body]
fn describe_transport(e: &ureq::Error) -> String {
    e.to_string()
}

impl CheckError {
    /// A sentence that tells a person why the name could not be checked:
    /// `invalid: ` and the naming fault, or `unknown: ` and the lookup failure.
    pub fn to_string(&self) -> (r: String)
        ensures
            match self {
                CheckError::InvalidName(e) => r@ == "invalid: "@ + fault_message(e@),
                CheckError::IndexLookup(IndexError::Status(code)) => r@ == "unknown: http status: "@
                    + decimal(*code as nat),
                CheckError::IndexLookup(IndexError::Transport(_)) => "unknown: "@.is_prefix_of(r@),
            },
    {
        match self {
            CheckError::InvalidName(e) => {
                let mut m = String::from_str("invalid: ");
                let detail = e.to_string();
                m.append(detail.as_str());
                m
            },
            CheckError::IndexLookup(IndexError::Status(code)) => {
                let mut m = String::from_str("unknown: http status: ");
                push_decimal(&mut m, *code);
                m
            },
            CheckError::IndexLookup(IndexError::Transport(e)) => {
                let mut m = String::from_str("unknown: ");
                let detail = describe_transport(e);
                m.append(detail.as_str());
                proof {
                    assert(m@.subrange(0, "unknown: "@.len() as int) =~= "unknown: "@);
                }
                m
            },
        }
    }
}

impl From<InvalidCrateName> for CheckError {
    fn from(e: InvalidCrateName) -> Self {
        CheckError::InvalidName(e)
    }
}

impl vstd::std_specs::convert::FromSpecImpl<InvalidCrateName> for CheckError {
    open spec fn obeys_from_spec() -> bool {
        true
    }

    open spec fn from_spec(v: InvalidCrateName) -> Self {
        CheckError::InvalidName(v)
    }
}

/// Relies on ureq's derived `Clone` for `Agent`: a second handle on the same
/// configuration and connection pool.
pub assume_specification[ <ureq::Agent as Clone>::clone ](a: &ureq::Agent) -> ureq::Agent;

/// Relies on ureq's `Agent::config_builder`, `ConfigBuilder::timeout_global`
/// and `Agent::new_with_config`: an agent whose every request ends after
/// `secs` seconds at most.
#[verifier::external_body]
fn agent_with_timeout(secs: u64) -> ureq::Agent {
    let config = ureq::Agent::config_builder()
        .timeout_global(Some(std::time::Duration::from_secs(secs)))
        .build();
    ureq::Agent::new_with_config(config)
}

/// Relies on ureq's `Agent::get` and `RequestBuilder::call`: one GET request.
/// With the default configuration a 4xx or 5xx answer comes back as
/// `Error::StatusCode`; what comes back depends on the network.
#[verifier::external_body]
fn fetch(agent: &ureq::Agent, url: &str) -> (r: Result<(), IndexError>)
    ensures
        r matches Err(IndexError::Status(code)) ==> 400 <= code <= 599,
{
    match agent.get(url).call() {
        Ok(_) => Ok(()),
        Err(ureq::Error::StatusCode(code)) => Err(IndexError::Status(code)),
        Err(e) => Err(IndexError::Transport(Box::new(e))),
    }
}

/// A client for the registry's sparse index, with the reserved names at hand.
#[derive(Debug)]
pub struct Client {
    agent: ureq::Agent,
    reserved: ReservedSet,
}

impl View for Client {
    type V = Set<Seq<char>>;

    /// The canonical forms that the client treats as reserved.
    closed spec fn view(&self) -> Set<Seq<char>> {
        self.reserved@
    }
}

impl Client {
    /// A client whose requests time out after `REQUEST_TIMEOUT_SECS` seconds.
    #[must_use]
    pub fn new() -> (r: Self)
        ensures
            r@ == reserved_set(),
    {
        Client { agent: agent_with_timeout(REQUEST_TIMEOUT_SECS), reserved: ReservedSet::new() }
    }
}

impl Clone for Client {
    fn clone(&self) -> (r: Self)
        ensures
            r@ == self@,
    {
        Client { agent: self.agent.clone(), reserved: self.reserved.clone() }
    }
}

impl Default for Client {
    fn default() -> (r: Self)
        ensures
            r@ == reserved_set(),
    {
        Client::new()
    }
}

/// What the answer to the `i`-th of `n` lookups means. A file found settles
/// the name as taken. `NOT_FOUND` moves on to the next spelling, and when it
/// answers the last one the name is available. Any other failure ends the
/// check with that error.
pub fn lookup_step(i: usize, n: usize, reply: Result<(), IndexError>) -> (r: Option<
    Result<Availability, CheckError>,
>)
    requires
        i < n,
    ensures
        match reply {
            Ok(()) => r == Some(Ok::<Availability, CheckError>(Availability::Taken)),
            Err(IndexError::Status(code)) => if code == NOT_FOUND {
                if i + 1 < n {
                    r is None
                } else {
                    r == Some(Ok::<Availability, CheckError>(Availability::Available))
                }
            } else {
                r == Some(
                    Err::<Availability, CheckError>(CheckError::IndexLookup(IndexError::Status(code))),
                )
            },
            Err(e) => r == Some(Err::<Availability, CheckError>(CheckError::IndexLookup(e))),
        },
{
    match reply {
        Ok(()) => Some(Ok(Availability::Taken)),
        Err(IndexError::Status(code)) => {
            if code != NOT_FOUND {
                Some(Err(CheckError::IndexLookup(IndexError::Status(code))))
            } else if i + 1 < n {
                None
            } else {
                Some(Ok(Availability::Available))
            }
        },
        Err(e) => Some(Err(CheckError::IndexLookup(e))),
    }
}

/// Checks whether `name` can be published: an invalid name is an error, a
/// reserved one is `Reserved`, and otherwise the spellings of the name are
/// looked up in the index in turn, each answer taken by `lookup_step`, until
/// one of them settles the check.
pub fn check_name(client: &Client, name: &str) -> (r: Result<Availability, CheckError>)
    ensures
        match name_fault(name@) {
            Some(f) => r matches Err(CheckError::InvalidName(e)) && e@ == f,
            None => if is_reserved(canon(name@)) {
                r == Ok::<Availability, CheckError>(Availability::Reserved)
            } else {
                ||| r == Ok::<Availability, CheckError>(Availability::Taken)
                ||| r == Ok::<Availability, CheckError>(Availability::Available)
                ||| r matches Err(CheckError::IndexLookup(_))
            },
        },
{
    match validate_crate_name(name) {
        Err(e) => {
            return Err(CheckError::from(e));
        },
        Ok(()) => {},
    }
    let canonical = canon_crate_name(name);
    if client.reserved.contains(canonical.as_str()) {
        return Ok(Availability::Reserved);
    }
    let candidates = index_spellings(name);
    proof {
        lemma_spellings_not_empty(name@);
    }
    let n = candidates.len();
    let mut i: usize = 0;
    loop
        invariant
            i < n,
            n == candidates@.len(),
            name_fault(name@) is None,
            !is_reserved(canon(name@)),
            candidates@.len() == spellings(name@).len(),
            forall|k: int| 0 <= k < candidates@.len() ==> (#[trigger] candidates@[k])@ == spellings(name@)[k],
            forall|k: int| 0 <= k < spellings(name@).len() ==> (#[trigger] spellings(name@)[k]).len() > 0,
        decreases n - i,
    {
        let url = index_url(candidates[i].as_str());
        let reply = fetch(&client.agent, url.as_str());
        match lookup_step(i, n, reply) {
            Some(v) => {
                return v;
            },
            None => {},
        }
        i = i + 1;
    }
}

/// A valid name has at least one spelling, and every spelling of it has at
/// least one character.
proof fn lemma_spellings_not_empty(s: Seq<char>)
    requires
        is_valid_name(s),
    ensures
        spellings(s).len() > 0,
        forall|k: int| 0 <= k < spellings(s).len() ==> (#[trigger] spellings(s)[k]).len() > 0,
{
    lemma_valid_name_shape(s);
}

} // verus!
