use vstd::prelude::*;
use vstd::utf8::is_ascii_chars;

use crate::error::Error;
use crate::permissions::Permissions;
use crate::problem_details::{is_canonical, ProblemDetails};

verus! {

/// The part of a verified token that the service reads.
#[derive(Debug, Clone)]
pub struct IdentityClaims {
    pub sub: Option<String>,
    pub permissions: Option<Vec<String>>,
}

impl IdentityClaims {
    /// Whether the claims hold the permission's canonical text.
    pub open spec fn grants(&self, permission: Permissions) -> bool {
        match self.permissions {
            Some(granted) => granted@.map_values(|s: String| s@).contains(permission.text()),
            None => false,
        }
    }

    pub fn check_permission(&self, permission: Permissions) -> (r: Result<(), Error>)
        ensures
            r is Ok <==> self.grants(permission),
            r matches Err(e) ==> e is InvalidPermission,
    {
        let granted = match &self.permissions {
            Some(granted) => granted,
            None => return Err(Error::InvalidPermission),
        };
        let wanted = permission.to_string();
        let mut i: usize = 0;
        while i < granted.len()
            invariant
                self.permissions == Some(*granted),
                wanted@ == permission.text(),
                i <= granted.len(),
                forall|k: int| 0 <= k < i ==> (#[trigger] granted[k])@ != permission.text(),
            decreases granted.len() - i,
        {
            if granted[i] == wanted {
                proof {
                    assert(granted@.map_values(|s: String| s@)[i as int] == permission.text());
                }
                return Ok(());
            }
            i = i + 1;
        }
        proof {
            if self.grants(permission) {
                let texts = granted@.map_values(|s: String| s@);
                let k = choose|k: int| 0 <= k < texts.len() && #[trigger] texts[k] == permission.text();
                assert(granted[k]@ != permission.text());
            }
        }
        Err(Error::InvalidPermission)
    }
}

pub open spec fn bearer_prefix() -> Seq<char> {
    seq!['B', 'e', 'a', 'r', 'e', 'r', ' ']
}

/// The token of an `Authorization` value: ASCII text that splits on single spaces
/// into exactly the scheme `Bearer` and the token.
pub open spec fn bearer_token_of(header: Seq<char>) -> Option<Seq<char>> {
    if is_ascii_chars(header) && header.len() >= 7 && header.subrange(0, 7) == bearer_prefix() && !header.subrange(
        7,
        header.len() as int,
    ).contains(' ') {
        Some(header.subrange(7, header.len() as int))
    } else {
        None
    }
}

pub open spec fn is_unauthorized(p: ProblemDetails) -> bool {
    is_canonical(p, "https://www.rfc-editor.org/rfc/rfc9110.html#name-401-unauthorized"@, "Unauthorized"@, 401)
}

/// The bearer token of an `Authorization` header; a missing or malformed header
/// gives none.
pub fn bearer_token(header: Option<&str>) -> (r: Option<String>)
    ensures
        match header {
            None => r is None,
            Some(h) => match bearer_token_of(h@) {
                Some(t) => r matches Some(token) && token@ == t,
                None => r is None,
            },
        },
{
    let h = match header {
        Some(h) => h,
        None => return None,
    };
    if !h.is_ascii() {
        return None;
    }
    let n = h.unicode_len();
    if n < 7 {
        return None;
    }
    let prefix: [u8; 7] = [66, 101, 97, 114, 101, 114, 32];
    let mut i: usize = 0;
    while i < 7
        invariant
            header == Some(h),
            h@.len() == n,
            7 <= n,
            is_ascii_chars(h@),
            i <= 7,
            forall|k: int| 0 <= k < 7 ==> #[trigger] prefix@[k] == bearer_prefix()[k] as u8,
            forall|k: int| 0 <= k < i ==> #[trigger] h@[k] == bearer_prefix()[k],
        decreases 7 - i,
    {
        let b = h.get_ascii(i);
        if b != prefix[i] {
            proof {
                assert(h@[i as int] != bearer_prefix()[i as int]);
                assert(h@.subrange(0, 7)[i as int] == h@[i as int]);
                assert(h@.subrange(0, 7) != bearer_prefix());
            }
            return None;
        }
        i = i + 1;
    }
    assert(h@.subrange(0, 7) =~= bearer_prefix());
    while i < n
        invariant
            header == Some(h),
            h@.len() == n,
            7 <= i <= n,
            h@.subrange(0, 7) == bearer_prefix(),
            is_ascii_chars(h@),
            forall|k: int| 7 <= k < i ==> #[trigger] h@[k] != ' ',
        decreases n - i,
    {
        if h.get_ascii(i) == 32 {
            proof {
                assert(h@[i as int] == ' ');
                assert(h@.subrange(7, n as int)[i - 7] == ' ');
                assert(h@.subrange(7, n as int).contains(' '));
            }
            return None;
        }
        i = i + 1;
    }
    assert(!h@.subrange(7, n as int).contains(' ')) by {
        if h@.subrange(7, n as int).contains(' ') {
            let k = choose|k: int| 0 <= k < n - 7 && h@.subrange(7, n as int)[k] == ' ';
            assert(h@[k + 7] != ' ');
        }
    }
    Some(h.substring_ascii(7, n).to_owned())
}

/// Where the identity provider publishes its key set.
pub fn key_set_url(domain: &str) -> (r: String)
    ensures
        r@ == domain@ + "/.well-known/jwks.json"@,
{
    let mut url = domain.to_owned();
    url.append("/.well-known/jwks.json");
    url
}

/// The issuer that tokens must name: the domain followed by a slash.
pub fn issuer_for(domain: &str) -> (r: String)
    ensures
        r@ == domain@ + "/"@,
{
    let mut issuer = domain.to_owned();
    issuer.append("/");
    issuer
}

} // verus!
