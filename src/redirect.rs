//! Redirect resolution for remote subgraph requests.

use vstd::prelude::*;
use vstd::string::StringExecFns;

verus! {

/// A request target, split into the parts that the redirect policy reads.
///
/// `host` is the host part of `authority` (no user info, no port): it is
/// present exactly when `authority` is. `query` is the text after `?`.
#[derive(Debug, PartialEq, Eq)]
pub struct Target {
    pub scheme: Option<String>,
    pub authority: Option<String>,
    pub host: Option<String>,
    pub path: String,
    pub query: Option<String>,
}

/// The mathematical value of a `Target`.
pub struct TargetView {
    pub scheme: Option<Seq<char>>,
    pub authority: Option<Seq<char>>,
    pub host: Option<Seq<char>>,
    pub path: Seq<char>,
    pub query: Option<Seq<char>>,
}

pub open spec fn opt_text(o: Option<String>) -> Option<Seq<char>> {
    match o {
        Some(s) => Some(s@),
        None => None,
    }
}

impl View for Target {
    type V = TargetView;

    open spec fn view(&self) -> TargetView {
        TargetView {
            scheme: opt_text(self.scheme),
            authority: opt_text(self.authority),
            host: opt_text(self.host),
            path: self.path@,
            query: opt_text(self.query),
        }
    }
}

fn copy_text(o: &Option<String>) -> (r: Option<String>)
    ensures
        opt_text(r) == opt_text(*o),
{
    match o {
        Some(s) => Some(s.clone()),
        None => None,
    }
}

impl Target {
    /// A copy of this target with the same parts.
    pub fn duplicate(&self) -> (r: Target)
        ensures
            r@ == self@,
    {
        Target {
            scheme: copy_text(&self.scheme),
            authority: copy_text(&self.authority),
            host: copy_text(&self.host),
            path: self.path.clone(),
            query: copy_text(&self.query),
        }
    }
}

/// Why a redirect could not be followed.
#[derive(PartialEq, Eq, Structural, Clone, Copy, Debug)]
pub enum RedirectError {
    /// The response asked for a redirect but carried no usable Location.
    MissingLocation,
    /// An absolute Location pointed to another host.
    CrossHost,
    /// The relative Location could not be put back together with the
    /// scheme and authority of the current target.
    Unconstructible,
    /// The redirect budget of the call was used up.
    Exhausted,
}

impl RedirectError {
    pub open spec fn text(self) -> Seq<char> {
        match self {
            RedirectError::MissingLocation => "Redirect requested without Location header"@,
            RedirectError::CrossHost => "Redirect points to different host"@,
            RedirectError::Unconstructible => "Relative redirect cannot be constructed"@,
            RedirectError::Exhausted => "Redirect limit exhausted"@,
        }
    }

    /// The human-readable reason for this error.
    pub fn reason(&self) -> (r: String)
        ensures
            r@ == self.text(),
    {
        match self {
            RedirectError::MissingLocation => "Redirect requested without Location header".to_owned(),
            RedirectError::CrossHost => "Redirect points to different host".to_owned(),
            RedirectError::Unconstructible => "Relative redirect cannot be constructed".to_owned(),
            RedirectError::Exhausted => "Redirect limit exhausted".to_owned(),
        }
    }
}

/// Filesystem-style joining of `rel` onto `base`: an absolute `rel` replaces
/// `base`; otherwise `rel` is appended, after a `/` unless `base` is empty or
/// already ends in one.
pub open spec fn path_join(base: Seq<char>, rel: Seq<char>) -> Seq<char> {
    if rel.len() > 0 && rel[0] == '/' {
        rel
    } else if base.len() == 0 || base.last() == '/' {
        base + rel
    } else {
        base + seq!['/'] + rel
    }
}

/// Where a redirect to `location` from `current` leads.
pub open spec fn redirect_target(location: Option<TargetView>, current: TargetView) -> Result<
    TargetView,
    RedirectError,
> {
    match location {
        None => Err(RedirectError::MissingLocation),
        Some(loc) => if loc.scheme is Some {
            match current.host {
                Some(h) => if loc.host == Some(h) {
                    Ok(loc)
                } else {
                    Err(RedirectError::CrossHost)
                },
                None => Ok(loc),
            }
        } else if (current.scheme is Some) != (current.authority is Some) {
            Err(RedirectError::Unconstructible)
        } else {
            Ok(
                TargetView {
                    scheme: current.scheme,
                    authority: current.authority,
                    host: current.host,
                    path: path_join(current.path, loc.path),
                    query: None,
                },
            )
        },
    }
}

/// Joins `rel` onto `base` as `path_join` states.
pub fn join_path(base: &String, rel: &String) -> (r: String)
    ensures
        r@ == path_join(base@, rel@),
{
    let b: &str = base.as_str();
    let l: &str = rel.as_str();
    let rel_len: usize = l.unicode_len();
    let base_len: usize = b.unicode_len();
    if rel_len > 0 && l.get_char(0) == '/' {
        return rel.clone();
    }
    let mut out = base.clone();
    if base_len > 0 && b.get_char(base_len - 1) != '/' {
        out.append("/");
    }
    out.append(l);
    proof {
        reveal_strlit("/");
        assert(out@ =~= path_join(base@, rel@));
    }
    out
}

/// Resolves the target of a redirect.
///
/// An absolute `location` (one with a scheme) is followed only where its host
/// is the host of `current`; a relative one is joined onto the path of
/// `current`, whose scheme and authority it keeps; a relative Location's
/// query is not kept.
pub fn redirect_url(location: Option<Target>, current: &Target) -> (r: Result<Target, RedirectError>)
    ensures
        r is Ok <==> redirect_target(opt_target(location), current@) is Ok,
        r matches Ok(t) ==> redirect_target(opt_target(location), current@) == Ok::<
            TargetView,
            RedirectError,
        >(t@),
        r matches Err(e) ==> redirect_target(opt_target(location), current@) == Err::<
            TargetView,
            RedirectError,
        >(e),
{
    match location {
        None => Err(RedirectError::MissingLocation),
        Some(loc) => {
            if loc.scheme.is_some() {
                match &current.host {
                    Some(h) => {
                        let same = match &loc.host {
                            Some(lh) => *lh == *h,
                            None => false,
                        };
                        if same {
                            Ok(loc)
                        } else {
                            Err(RedirectError::CrossHost)
                        }
                    },
                    None => Ok(loc),
                }
            } else if current.scheme.is_some() != current.authority.is_some() {
                Err(RedirectError::Unconstructible)
            } else {
                let path = join_path(&current.path, &loc.path);
                Ok(
                    Target {
                        scheme: copy_text(&current.scheme),
                        authority: copy_text(&current.authority),
                        host: copy_text(&current.host),
                        path,
                        query: None,
                    },
                )
            }
        },
    }
}

/// The parts of `text` read as a URI reference, or `None` where it is no
/// URI.
pub uninterp spec fn parsed_target(text: Seq<char>) -> Option<TargetView>;

/// Relies on http's `Uri` parser (`str::parse::<http::Uri>`) and on its
/// accessors for the scheme, the authority, its host, the path and the query: the host
/// is that of the authority, so one is present exactly when the other is.
#[verifier::external_body]
pub(crate) fn parse_target(text: &str) -> (r: Option<Target>)
    ensures
        opt_target(r) == parsed_target(text@),
        r matches Some(t) ==> (t.host is Some <==> t.authority is Some),
{
    let uri = text.parse::<http::Uri>().ok()?;
    Some(Target {
        scheme: uri.scheme_str().map(|s| s.to_string()),
        authority: uri.authority().map(|a| a.as_str().to_string()),
        host: uri.host().map(|h| h.to_string()),
        path: uri.path().to_string(),
        query: uri.query().map(|q| q.to_string()),
    })
}

pub open spec fn opt_target(o: Option<Target>) -> Option<TargetView> {
    match o {
        Some(t) => Some(t@),
        None => None,
    }
}

} // verus!
