//! Which address the main window loads.

use vstd::prelude::*;

verus! {

/// Address loaded by a development build: the local dev server.
pub const DEVELOPMENT_URL: &'static str = "http://localhost:3000/";

/// Address loaded by a release build: the live site, with its trailing slash.
pub const PRODUCTION_URL: &'static str = "https://www.jortaskmanager.com/";

/// How the program was built. Fixed for the life of the process.
#[derive(Clone, Copy, Debug, PartialEq, Eq, Structural)]
pub enum BuildMode {
    Debug,
    Release,
}

/// One of the two addresses the window can be pointed at.
#[derive(Clone, Copy, Debug, PartialEq, Eq, Structural)]
pub enum Endpoint {
    Development,
    Production,
}

/// Whether `url::Url::parse` accepts a text as an absolute URL.
pub uninterp spec fn parses_as_url(text: Seq<char>) -> bool;

/// Asks `url::Url::parse` whether a text is an absolute URL.
///
/// Trusted: the parser reads nothing but its input, so the answer is a
/// function of the text; nothing more is claimed of it.
#[verifier::external_body]
fn url_parses(text: &str) -> (accepted: bool)
    ensures
        accepted == parses_as_url(text@),
{
    url::Url::parse(text).is_ok()
}

impl Endpoint {
    /// The address as text.
    pub open spec fn url_text(self) -> Seq<char> {
        match self {
            Endpoint::Development => DEVELOPMENT_URL@,
            Endpoint::Production => PRODUCTION_URL@,
        }
    }

    /// The address as text.
    pub fn url(&self) -> (text: &'static str)
        ensures
            text@ == self.url_text(),
    {
        match self {
            Endpoint::Development => DEVELOPMENT_URL,
            Endpoint::Production => PRODUCTION_URL,
        }
    }

    /// Whether the address is a well-formed absolute URL. A window may only
    /// be pointed at an endpoint for which this holds.
    pub fn is_well_formed(&self) -> (well_formed: bool)
        ensures
            well_formed == parses_as_url(self.url_text()),
    {
        url_parses(self.url())
    }
}

/// The endpoint that belongs to a build mode.
pub open spec fn resolved(mode: BuildMode) -> Endpoint {
    match mode {
        BuildMode::Debug => Endpoint::Development,
        BuildMode::Release => Endpoint::Production,
    }
}

/// Picks the endpoint for a build mode: the development endpoint for a debug
/// build, the production endpoint for a release build.
pub fn resolve(mode: BuildMode) -> (endpoint: Endpoint)
    ensures
        endpoint == resolved(mode),
{
    match mode {
        BuildMode::Debug => Endpoint::Development,
        BuildMode::Release => Endpoint::Production,
    }
}

/// The two endpoints are different addresses, and resolution never yields
/// anything but one of them.
pub proof fn lemma_endpoints_distinct(mode: BuildMode)
    ensures
        Endpoint::Development.url_text() != Endpoint::Production.url_text(),
        resolved(mode).url_text() == DEVELOPMENT_URL@
            || resolved(mode).url_text() == PRODUCTION_URL@,
        resolved(mode).url_text() == DEVELOPMENT_URL@ <==> mode == BuildMode::Debug,
{
    reveal_strlit("http://localhost:3000/");
    reveal_strlit("https://www.jortaskmanager.com/");
    assert(DEVELOPMENT_URL@.len() != PRODUCTION_URL@.len());
}

} // verus!
