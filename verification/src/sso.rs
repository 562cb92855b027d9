//! Single sign-on providers: the e-mail domains a provider admits, kept in
//! one canonical form.
use vstd::prelude::*;

use crate::text::{
    char_vec, lemma_text_lt_total, lemma_text_lt_transitive, text_less, text_lt, trim, trim_seq,
};

verus! {

/// A character as `char::to_ascii_lowercase` makes it.
pub open spec fn ascii_lower_char(c: char) -> char {
    if 'A' <= c <= 'Z' {
        ((c as u32) + 32) as char
    } else {
        c
    }
}

/// Calls `str::to_ascii_lowercase`, which maps `A`..`Z` to `a`..`z` and
/// leaves every other character as it is, as its documentation states.
#[verifier::external_body]
pub(crate) fn to_ascii_lowercase(s: &str) -> (r: String)
    ensures
        r@ == s@.map_values(|c: char| ascii_lower_char(c)),
{
    s.to_ascii_lowercase()
}

/// `s` without its leading `@` characters.
pub open spec fn without_leading_at(s: Seq<char>) -> Seq<char>
    decreases s.len(),
{
    if s.len() > 0 && s[0] == '@' {
        without_leading_at(s.drop_first())
    } else {
        s
    }
}

fn strip_leading_at(s: &str) -> (r: &str)
    ensures
        r@ == without_leading_at(s@),
{
    let v = char_vec(s);
    let mut i: usize = 0;
    assert(s@.subrange(0, s@.len() as int) =~= s@);
    while i < v.len() && v[i] == '@'
        invariant
            i <= v@.len(),
            v@ == s@,
            without_leading_at(s@) == without_leading_at(s@.subrange(i as int, s@.len() as int)),
        decreases v@.len() - i,
    {
        let ghost t = s@.subrange(i as int, s@.len() as int);
        assert(t.drop_first() =~= s@.subrange(i + 1, s@.len() as int));
        i = i + 1;
    }
    let r = s.substring_char(i, v.len());
    proof {
        let t = s@.subrange(i as int, s@.len() as int);
        assert(r@ == t);
    }
    r
}

/// A domain as a provider keeps it: trimmed, without leading `@`, in ASCII
/// lower case.
pub open spec fn canonical_domain(d: Seq<char>) -> Seq<char> {
    without_leading_at(trim_seq(d)).map_values(|c: char| ascii_lower_char(c))
}

pub open spec fn strictly_ascending(s: Seq<Seq<char>>) -> bool {
    forall|i: int, j: int| 0 <= i < j < s.len() ==> text_lt(s[i], s[j])
}

/// Inserts `x` into a strictly ascending list, unless it is there.
fn insert_text(v: &mut Vec<String>, x: String)
    requires
        strictly_ascending(old(v).deep_view()),
    ensures
        strictly_ascending(final(v).deep_view()),
        forall|y: Seq<char>|
            final(v).deep_view().contains(y) <==> (old(v).deep_view().contains(y) || y == x@),
{
    let xv = char_vec(x.as_str());
    let ghost xs = x@;
    let mut i: usize = 0;
    while i < v.len() && text_less(&char_vec(v[i].as_str()), &xv)
        invariant
            i <= v@.len(),
            v.deep_view() == old(v).deep_view(),
            strictly_ascending(v.deep_view()),
            xv@ == xs,
            forall|j: int| 0 <= j < i ==> text_lt(#[trigger] v.deep_view()[j], xs),
        decreases v@.len() - i,
    {
        i = i + 1;
    }
    let ghost s0 = v.deep_view();
    if i < v.len() && crate::text::same_text(v[i].as_str(), x.as_str()) {
        assert(s0[i as int] == xs);
        assert(s0.contains(xs));
        return;
    }
    proof {
        if i < s0.len() {
            lemma_text_lt_total(s0[i as int], xs);
            assert(s0[i as int] != xs);
            assert(!text_lt(s0[i as int], xs));
            assert(text_lt(xs, s0[i as int]));
        }
    }
    v.insert(i, x);
    proof {
        let s1 = v.deep_view();
        assert(s1 =~= s0.insert(i as int, xs));
        assert forall|a: int, b: int| 0 <= a < b < s1.len() implies text_lt(s1[a], s1[b]) by {
            if b < i {
                assert(s1[a] == s0[a] && s1[b] == s0[b]);
            } else if b == i {
                assert(s1[a] == s0[a]);
            } else if a == i {
                assert(s1[b] == s0[b - 1]);
                if b - 1 > i {
                    lemma_text_lt_transitive(xs, s0[i as int], s0[b - 1]);
                }
            } else if a < i {
                assert(s1[a] == s0[a] && s1[b] == s0[b - 1]);
                if b - 1 == i {
                    lemma_text_lt_transitive(s0[a], xs, s0[i as int]);
                } else {
                    lemma_text_lt_transitive(s0[a], s0[i as int], s0[b - 1]);
                    lemma_text_lt_transitive(s0[a], xs, s0[i as int]);
                }
            } else {
                assert(s1[a] == s0[a - 1] && s1[b] == s0[b - 1]);
            }
        }
        assert forall|y: Seq<char>| s1.contains(y) <==> (s0.contains(y) || y == xs) by {
            if s1.contains(y) {
                let k = choose|k: int| 0 <= k < s1.len() && s1[k] == y;
                if k < i {
                    assert(s0[k] == y);
                } else if k > i {
                    assert(s0[k - 1] == y);
                }
            }
            if s0.contains(y) {
                let k = choose|k: int| 0 <= k < s0.len() && s0[k] == y;
                if k < i {
                    assert(s1[k] == y);
                } else {
                    assert(s1[k + 1] == y);
                }
            }
            if y == xs {
                assert(s1[i as int] == y);
            }
        }
    }
}

/// The domains a provider admits: each canonical (see `canonical_domain`),
/// empty ones dropped, in ascending order, each once.
pub fn normalize_allowed_domains(domains: &Vec<String>) -> (r: Vec<String>)
    ensures
        strictly_ascending(r.deep_view()),
        forall|y: Seq<char>|
            r.deep_view().contains(y) <==> (y.len() > 0 && exists|k: int|
                0 <= k < domains@.len() && y == canonical_domain(#[trigger] domains@[k]@)),
{
    let mut out: Vec<String> = Vec::new();
    let mut i: usize = 0;
    while i < domains.len()
        invariant
            i <= domains@.len(),
            strictly_ascending(out.deep_view()),
            forall|y: Seq<char>|
                out.deep_view().contains(y) <==> (y.len() > 0 && exists|k: int|
                    0 <= k < i && y == canonical_domain(#[trigger] domains@[k]@)),
        decreases domains@.len() - i,
    {
        let t = trim(domains[i].as_str());
        let s = strip_leading_at(t.as_str());
        let d = to_ascii_lowercase(s);
        let ghost dv = d@;
        assert(dv == canonical_domain(domains@[i as int]@));
        let ghost before = out.deep_view();
        if !d.as_str().is_empty() {
            insert_text(&mut out, d);
        }
        proof {
            assert forall|y: Seq<char>|
                out.deep_view().contains(y) <==> (y.len() > 0 && exists|k: int|
                    0 <= k < i + 1 && y == canonical_domain(#[trigger] domains@[k]@)) by {
                if y.len() > 0 && exists|k: int|
                    0 <= k < i + 1 && y == canonical_domain(#[trigger] domains@[k]@) {
                    let k = choose|k: int|
                        0 <= k < i + 1 && y == canonical_domain(#[trigger] domains@[k]@);
                    if k < i {
                        assert(before.contains(y));
                    }
                }
            }
        }
        i = i + 1;
    }
    out
}

/// Changing a provider's sensitive settings, or switching a provider on,
/// needs a validation token.
pub fn needs_validation_token(sensitive_changes: bool, requested_enabled: Option<bool>, enabled: bool) -> (r: bool)
    ensures
        r == (sensitive_changes || (requested_enabled == Some(true) && !enabled)),
{
    sensitive_changes || (requested_enabled == Some(true) && !enabled)
}

/// The client id and secret a provider is given when sign-in goes through
/// the Grengin proxy.
pub const PROXY_CLIENT_ID: &'static str = "managed-by-grengin-proxy";

/// The application's address when none is configured.
pub const DEFAULT_APP_URL: &'static str = "http://localhost:8080";

/// `s` without its trailing `/` characters.
pub open spec fn without_trailing_slash(s: Seq<char>) -> Seq<char>
    decreases s.len(),
{
    if s.len() > 0 && s.last() == '/' {
        without_trailing_slash(s.drop_last())
    } else {
        s
    }
}

/// The callback address of a provider set up through the proxy: the
/// application's address (the default when none is configured) without
/// trailing slashes, then `/auth/`, the provider and `/callback`.
pub open spec fn proxy_redirect_of(app_url: Option<Seq<char>>, provider: Seq<char>) -> Seq<char> {
    let base = match app_url {
        Some(u) => u,
        None => DEFAULT_APP_URL@,
    };
    without_trailing_slash(base) + "/auth/"@ + provider + "/callback"@
}

pub fn proxy_redirect_url(app_url: Option<&str>, provider: &str) -> (r: String)
    ensures
        r@ == proxy_redirect_of(app_url.deep_view(), provider@),
{
    let base = match app_url {
        Some(u) => u,
        None => DEFAULT_APP_URL,
    };
    let v = char_vec(base);
    let mut n: usize = v.len();
    assert(base@.subrange(0, n as int) =~= base@);
    while n > 0 && v[n - 1] == '/'
        invariant
            n <= v@.len(),
            v@ == base@,
            without_trailing_slash(base@) == without_trailing_slash(base@.subrange(0, n as int)),
        decreases n,
    {
        assert(base@.subrange(0, n as int).drop_last() =~= base@.subrange(0, n - 1));
        n = n - 1;
    }
    let mut out = base.substring_char(0, n).to_owned();
    out.append("/auth/");
    out.append(provider);
    out.append("/callback");
    out
}

/// The tenant a proxied provider is set up with: for Azure the requested
/// tenant, `common` when none is requested; no tenant for other providers.
pub fn proxy_tenant(provider: &str, tenant_id: Option<String>) -> (r: Option<String>)
    ensures
        provider@ == "azure"@ ==> r.deep_view() == Some(match tenant_id {
            Some(t) => t@,
            None => "common"@,
        }),
        provider@ != "azure"@ ==> r is None,
{
    if crate::text::same_text(provider, "azure") {
        match tenant_id {
            Some(t) => Some(t),
            None => Some("common".to_owned()),
        }
    } else {
        None
    }
}

} // verus!
