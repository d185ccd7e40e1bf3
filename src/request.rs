use vstd::prelude::*;
use vstd::string::*;
use crate::error::{Error, ErrorKind};
use crate::upstream::{describe_parse_error, join_url, url_join, UpstreamDescriptor};

verus! {

/// The three path segments of a lookup: module name, hash and file name.
#[derive(Debug)]
pub struct RequestKey {
    pub name1: String,
    pub hash: String,
    pub name2: String,
}

pub const SEPARATOR: &'static str = "/";

/// The path of a lookup relative to an upstream's base URL.
pub open spec fn relative_path(key: RequestKey) -> Seq<char> {
    key.name1@ + SEPARATOR@ + key.hash@ + SEPARATOR@ + key.name2@
}

/// The message of the error raised where a lookup URL cannot be built.
pub const BAD_REQUEST_URL: &'static str = "failed to build request url";

impl Clone for RequestKey {
    fn clone(&self) -> (r: Self)
        ensures
            r == *self,
    {
        RequestKey { name1: self.name1.clone(), hash: self.hash.clone(), name2: self.name2.clone() }
    }
}

impl RequestKey {
    pub fn new(name1: String, hash: String, name2: String) -> (r: RequestKey)
        ensures
            r.name1 == name1,
            r.hash == hash,
            r.name2 == name2,
    {
        RequestKey { name1, hash, name2 }
    }

    /// `name1/hash/name2`.
    pub fn relative_path(&self) -> (r: String)
        ensures
            r@ == relative_path(*self),
    {
        let mut p = self.name1.clone();
        p.append(SEPARATOR);
        p.append(self.hash.as_str());
        p.append(SEPARATOR);
        p.append(self.name2.as_str());
        p
    }
}

/// The URL at which `upstream` is asked for `key`: the lookup path joined
/// onto its base URL.
pub fn target_url(upstream: &UpstreamDescriptor, key: &RequestKey) -> (r: Result<String, Error>)
    ensures
        match r {
            Ok(u) => url_join(upstream.base_url@, relative_path(*key)) == Some(u@),
            Err(e) => url_join(upstream.base_url@, relative_path(*key)) is None
                && e.kind == ErrorKind::Misconfiguration,
        },
{
    let rel = key.relative_path();
    match join_url(upstream.base_url.as_str(), rel.as_str()) {
        Ok(u) => Ok(u),
        Err(e) => {
            let cause = describe_parse_error(&e);
            Err(Error::with_cause(ErrorKind::Misconfiguration, BAD_REQUEST_URL, cause.as_str()))
        },
    }
}

} // verus!
