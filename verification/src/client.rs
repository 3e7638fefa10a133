//! The handle of the database client: what it holds, and the two calls that
//! make one.

use vstd::prelude::*;
use influxdb2::{BuildError, Client, ClientBuilder};

verus! {

/// `influxdb2::Client`: a handle on one database server. Making one opens no
/// socket; its inside is the client's own.
#[verifier::external_type_specification]
#[verifier::external_body]
pub struct ExClient(influxdb2::Client);

/// `influxdb2::BuildError`: why the client could not make a handle.
#[verifier::external_type_specification]
#[verifier::external_body]
pub struct ExBuildError(influxdb2::BuildError);

/// What `reqwest::Url::parse` makes of a text: the URL written out in its
/// normal form, or nothing where the text is refused.
pub uninterp spec fn parsed_url(url: Seq<char>) -> Option<Seq<char>>;

/// The base URL of a handle, written out.
pub uninterp spec fn client_base(c: Client) -> Seq<char>;

/// The organization of a handle.
pub uninterp spec fn client_org(c: Client) -> Seq<char>;

/// The token that a handle authenticates with; empty where it sends no
/// authorization.
pub uninterp spec fn client_token(c: Client) -> Seq<char>;

/// The text is accepted as a URL.
pub open spec fn url_parses(url: Seq<char>) -> bool {
    parsed_url(url) is Some
}

/// The handle `c` is one for the server at `url`, for the organization `org`,
/// authenticating with `token`.
pub open spec fn made_from(c: Client, url: Seq<char>, org: Seq<char>, token: Seq<char>) -> bool {
    &&& parsed_url(url) == Some(client_base(c))
    &&& client_org(c) == org
    &&& client_token(c) == token
}

/// `reqwest::Url::parse`, the parser that the client's builder runs on the
/// URL it is given: says whether the text is accepted.
#[verifier::external_body]
pub(crate) fn url_is_valid(url: &str) -> (ok: bool)
    ensures
        ok == parsed_url(url@).is_some(),
{
    reqwest::Url::parse(url).is_ok()
}

/// `ClientBuilder::new` followed by `ClientBuilder::build`: a handle for the
/// server at `url`, or the reason why the HTTP stack of this machine could
/// not be set up. The builder stops the program on a URL that does not
/// parse, so such a URL is not handed to it. Whether a handle comes back is
/// not promised; one that does holds the parsed URL, the organization and
/// the token that the builder was given.
#[verifier::external_body]
pub(crate) fn build_client(url: &str, org: &str, token: &str) -> (built: Result<
    Client,
    BuildError,
>)
    requires
        url_parses(url@),
    ensures
        built matches Ok(c) ==> parsed_url(url@) == Some(client_base(c)),
        built matches Ok(c) ==> client_org(c) == org@,
        built matches Ok(c) ==> client_token(c) == token@,
{
    ClientBuilder::new(url, org, token).build()
}

} // verus!
