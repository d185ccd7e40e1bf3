use vstd::prelude::*;
use vstd::string::*;
use crate::error::{Error, ErrorKind};

verus! {

#[verifier::external_type_specification]
#[verifier::external_body]
pub struct ExParseError(url::ParseError);

/// What `url::Url::parse` makes of a text: the serialization of the parsed
/// URL, or `None` where the text is not a valid absolute URL.
pub uninterp spec fn url_parse(s: Seq<char>) -> Option<Seq<char>>;

/// What joining `rel` onto the URL written `base` gives: the serialization of
/// the joined URL, or `None` where either step is refused.
pub uninterp spec fn url_join(base: Seq<char>, rel: Seq<char>) -> Option<Seq<char>>;

/// Relies on `url::Url::parse` to parse an absolute URL, and on
/// `From<Url> for String`, which hands out its serialization.
#[verifier::external_body]
fn parse_url(s: &str) -> (r: Result<String, url::ParseError>)
    ensures
        match r {
            Ok(u) => url_parse(s@) == Some(u@),
            Err(_) => url_parse(s@) is None,
        },
{
    url::Url::parse(s).map(String::from)
}

/// Relies on `url::Url::parse` to read the base and on `url::Url::join` to
/// resolve `rel` against it, handing out the serialization of the result.
#[verifier::external_body]
pub(crate) fn join_url(base: &str, rel: &str) -> (r: Result<String, url::ParseError>)
    ensures
        match r {
            Ok(u) => url_join(base@, rel@) == Some(u@),
            Err(_) => url_join(base@, rel@) is None,
        },
{
    let b = url::Url::parse(base)?;
    b.join(rel).map(String::from)
}

/// Relies on the `Display` impl of `url::ParseError` for a readable cause.
#[verifier::external_body]
pub(crate) fn describe_parse_error(e: &url::ParseError) -> (r: String) {
    e.to_string()
}

/// Where an upstream comes from: the configuration, or the mirror's own read
/// path, which is added when caching is on and is never cached again.
#[derive(Clone, Copy, Debug, PartialEq, Eq, Structural)]
pub enum Origin {
    Explicit,
    CacheOrigin,
}

/// One candidate server: the serialization of its base URL, the scope of
/// the bearer token it needs, if any, and where it comes from.
#[derive(Debug)]
pub struct UpstreamDescriptor {
    pub base_url: String,
    pub auth_scope: Option<String>,
    pub origin: Origin,
}

/// The mirror: the publishing tool and the organization it publishes into.
#[derive(Debug)]
pub struct CacheConfig {
    pub publisher_path: String,
    pub organization: String,
}

pub fn clone_option_string(o: &Option<String>) -> (r: Option<String>)
    ensures
        r == *o,
{
    match o {
        Some(s) => Some(s.clone()),
        None => None,
    }
}

impl Clone for UpstreamDescriptor {
    fn clone(&self) -> (r: Self)
        ensures
            r == *self,
    {
        UpstreamDescriptor {
            base_url: self.base_url.clone(),
            auth_scope: clone_option_string(&self.auth_scope),
            origin: self.origin,
        }
    }
}

impl Clone for CacheConfig {
    fn clone(&self) -> (r: Self)
        ensures
            r == *self,
    {
        CacheConfig {
            publisher_path: self.publisher_path.clone(),
            organization: self.organization.clone(),
        }
    }
}

pub const CACHE_ORIGIN_PREFIX: &'static str = "https://artifacts.dev.azure.com/";

pub const CACHE_ORIGIN_SUFFIX: &'static str = "/_apis/symbol/symsrv/";

/// The scope of the token that the mirror's read path asks for.
pub const CACHE_ORIGIN_SCOPE: &'static str = "499b84ac-1321-427f-aa17-267ca6975798/.default";

/// The text of the mirror's read path for an organization.
pub open spec fn cache_origin_text(organization: Seq<char>) -> Seq<char> {
    CACHE_ORIGIN_PREFIX@ + organization + CACHE_ORIGIN_SUFFIX@
}

/// The message of the error raised where a URL cannot be parsed.
pub const BAD_URL: &'static str = "failed to parse upstream url";

/// The message of the error raised where the mirror's read path cannot be
/// parsed.
pub const BAD_MIRROR_URL: &'static str = "failed to parse mirror url";

impl UpstreamDescriptor {
    /// A configured upstream at `url`, which is parsed and kept in its
    /// serialized form.
    pub fn explicit(url: &str, auth_scope: Option<String>) -> (r: Result<UpstreamDescriptor, Error>)
        ensures
            match r {
                Ok(d) => url_parse(url@) == Some(d.base_url@) && d.auth_scope == auth_scope
                    && d.origin == Origin::Explicit,
                Err(e) => url_parse(url@) is None && e.kind == ErrorKind::Misconfiguration,
            },
    {
        match parse_url(url) {
            Ok(base_url) => Ok(UpstreamDescriptor { base_url, auth_scope, origin: Origin::Explicit }),
            Err(e) => {
                let cause = describe_parse_error(&e);
                Err(Error::with_cause(ErrorKind::Misconfiguration, BAD_URL, cause.as_str()))
            },
        }
    }

    /// The mirror's read path for `organization`, with its fixed scope.
    pub fn cache_origin(organization: &str) -> (r: Result<UpstreamDescriptor, Error>)
        ensures
            match r {
                Ok(d) => url_parse(cache_origin_text(organization@)) == Some(d.base_url@)
                    && (d.auth_scope matches Some(s) && s@ == CACHE_ORIGIN_SCOPE@)
                    && d.origin == Origin::CacheOrigin,
                Err(e) => url_parse(cache_origin_text(organization@)) is None
                    && e.kind == ErrorKind::Misconfiguration,
            },
    {
        let mut text = String::from_str(CACHE_ORIGIN_PREFIX);
        text.append(organization);
        text.append(CACHE_ORIGIN_SUFFIX);
        match parse_url(text.as_str()) {
            Ok(base_url) => Ok(UpstreamDescriptor {
                base_url,
                auth_scope: Some(String::from_str(CACHE_ORIGIN_SCOPE)),
                origin: Origin::CacheOrigin,
            }),
            Err(e) => {
                let cause = describe_parse_error(&e);
                Err(Error::with_cause(ErrorKind::Misconfiguration, BAD_MIRROR_URL, cause.as_str()))
            },
        }
    }
}

/// The descriptor of the mirror's read path for `organization`, as
/// `UpstreamDescriptor::cache_origin` yields it where the path parses.
pub open spec fn is_cache_origin_for(d: UpstreamDescriptor, organization: Seq<char>) -> bool {
    &&& url_parse(cache_origin_text(organization)) == Some(d.base_url@)
    &&& (d.auth_scope matches Some(s) && s@ == CACHE_ORIGIN_SCOPE@)
    &&& d.origin == Origin::CacheOrigin
}

/// The ordered candidates of a request: the configured upstreams in their
/// order, preceded by the mirror's read path where a mirror is configured.
pub fn resolve(servers: &Vec<UpstreamDescriptor>, cache: &Option<CacheConfig>) -> (r: Result<
    Vec<UpstreamDescriptor>,
    Error,
>)
    ensures
        match cache {
            None => r is Ok && r->Ok_0@ == servers@,
            Some(c) => match r {
                Ok(v) => v@.len() == servers@.len() + 1 && is_cache_origin_for(v@[0], c.organization@)
                    && v@.subrange(1, v@.len() as int) == servers@,
                Err(e) => url_parse(cache_origin_text(c.organization@)) is None
                    && e.kind == ErrorKind::Misconfiguration,
            },
        },
{
    let mut out: Vec<UpstreamDescriptor> = Vec::new();
    let mut offset: usize = 0;
    if let Some(c) = cache {
        let origin = UpstreamDescriptor::cache_origin(c.organization.as_str())?;
        out.push(origin);
        offset = 1;
    }
    let ghost head = out@;
    let mut i: usize = 0;
    while i < servers.len()
        invariant
            i <= servers@.len(),
            out@.len() == offset + i,
            head.len() == offset,
            cache is None ==> offset == 0,
            out@.subrange(0, offset as int) == head,
            out@.subrange(offset as int, out@.len() as int) == servers@.subrange(0, i as int),
        decreases servers@.len() - i,
    {
        out.push(servers[i].clone());
        assert(out@.subrange(offset as int, out@.len() as int) =~= servers@.subrange(0, i + 1));
        assert(out@.subrange(0, offset as int) =~= head);
        i = i + 1;
    }
    assert(servers@.subrange(0, servers@.len() as int) =~= servers@);
    if cache.is_none() {
        assert(out@ =~= out@.subrange(offset as int, out@.len() as int));
    } else {
        assert(out@[0] == out@.subrange(0, offset as int)[0]);
    }
    Ok(out)
}

} // verus!
