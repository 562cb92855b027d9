//! Whether a reconfiguration script can be run.
use vstd::prelude::*;

use crate::sso::{ascii_lower_char, to_ascii_lowercase};
use crate::text::{decimal, same_text, trim, trim_seq, u64_text};
use vstd::string::StringExecFns;

verus! {

/// What an administrator is told about a reconfiguration script.
pub struct ReconfigureScriptAvailability {
    pub script_path: String,
    pub exists: bool,
    pub executable: bool,
    pub requested_use_sudo: bool,
    pub effective_use_sudo: bool,
    pub available: bool,
    pub reason: Option<String>,
}

/// A script is available when it exists, is executable and its use of sudo
/// can be settled; otherwise the first failing check is the reason.
/// `sudo` is how sudo use was settled; it is read only when the script
/// exists and is executable.
pub fn build_script_availability(
    script_path: String,
    exists: bool,
    executable: bool,
    requested_use_sudo: bool,
    sudo: Result<bool, String>,
) -> (r: ReconfigureScriptAvailability)
    ensures
        r.script_path@ == script_path@,
        r.exists == exists,
        r.executable == executable,
        r.requested_use_sudo == requested_use_sudo,
        !exists ==> !r.available && !r.effective_use_sudo && r.reason.deep_view() == Some(
            "Script not found at path: "@ + script_path@,
        ),
        exists && !executable ==> !r.available && !r.effective_use_sudo && r.reason.deep_view()
            == Some("Script is not executable: "@ + script_path@),
        exists && executable ==> match sudo {
            Ok(v) => r.available && r.effective_use_sudo == v && r.reason is None,
            Err(m) => !r.available && !r.effective_use_sudo && r.reason.deep_view() == Some(m@),
        },
{
    let (available, effective_use_sudo, reason) = if !exists {
        let mut m = "Script not found at path: ".to_owned();
        m.append(script_path.as_str());
        (false, false, Some(m))
    } else if !executable {
        let mut m = "Script is not executable: ".to_owned();
        m.append(script_path.as_str());
        (false, false, Some(m))
    } else {
        match sudo {
            Ok(v) => (true, v, None),
            Err(message) => (false, false, Some(message)),
        }
    };
    ReconfigureScriptAvailability {
        script_path,
        exists,
        executable,
        requested_use_sudo,
        effective_use_sudo,
        available,
        reason,
    }
}

/// What a binaries update is asked to do, with its defaults: the installer
/// is not updated unless asked; the API and the web application are, and
/// checksums are verified, unless turned off.
#[derive(Debug, Clone, Copy, PartialEq, Eq, Structural)]
pub struct BinariesUpdateFlags {
    pub update_installer: bool,
    pub update_api: bool,
    pub update_webapp: bool,
    pub verify_checksums: bool,
}

pub fn binaries_update_flags(
    update_installer: Option<bool>,
    update_api: Option<bool>,
    update_webapp: Option<bool>,
    verify_checksums: Option<bool>,
) -> (r: BinariesUpdateFlags)
    ensures
        r.update_installer == (update_installer == Some(true)),
        r.update_api == (update_api != Some(false)),
        r.update_webapp == (update_webapp != Some(false)),
        r.verify_checksums == (verify_checksums != Some(false)),
{
    BinariesUpdateFlags {
        update_installer: match update_installer {
            Some(b) => b,
            None => false,
        },
        update_api: match update_api {
            Some(b) => b,
            None => true,
        },
        update_webapp: match update_webapp {
            Some(b) => b,
            None => true,
        },
        verify_checksums: match verify_checksums {
            Some(b) => b,
            None => true,
        },
    }
}

/// An update must update something.
pub fn nothing_to_update(flags: BinariesUpdateFlags) -> (r: bool)
    ensures
        r == (!flags.update_installer && !flags.update_api && !flags.update_webapp),
{
    !flags.update_installer && !flags.update_api && !flags.update_webapp
}

pub open spec fn when(c: bool, s: Seq<Seq<char>>) -> Seq<Seq<char>> {
    if c {
        s
    } else {
        Seq::empty()
    }
}

/// The arguments of the update script: the release URL and version; the
/// architecture unless it is `auto`; a skip flag for each part not updated
/// and for checksums not verified; the API service name when one is given
/// (trimmed, not blank).
pub open spec fn binaries_args_of(
    release_base_url: Seq<char>,
    version: Seq<char>,
    arch: Seq<char>,
    flags: BinariesUpdateFlags,
    api_service_name: Option<Seq<char>>,
) -> Seq<Seq<char>> {
    seq!["--release-base-url"@, release_base_url, "--version"@, version]
        + when(arch != "auto"@, seq!["--arch"@, arch])
        + when(!flags.update_installer, seq!["--skip-installer"@])
        + when(!flags.update_api, seq!["--skip-api"@])
        + when(!flags.update_webapp, seq!["--skip-webapp"@])
        + when(!flags.verify_checksums, seq!["--skip-checksum"@])
        + match api_service_name {
        Some(n) => when(trim_seq(n).len() > 0, seq!["--api-service-name"@, trim_seq(n)]),
        None => Seq::empty(),
    }
}

pub fn binaries_script_args(
    release_base_url: &str,
    version: &str,
    arch: &str,
    flags: BinariesUpdateFlags,
    api_service_name: Option<&str>,
) -> (r: Vec<String>)
    ensures
        r.deep_view() == binaries_args_of(
            release_base_url@,
            version@,
            arch@,
            flags,
            api_service_name.deep_view(),
        ),
{
    let mut args: Vec<String> = Vec::new();
    args.push("--release-base-url".to_owned());
    args.push(release_base_url.to_owned());
    args.push("--version".to_owned());
    args.push(version.to_owned());
    let ghost a0 = args.deep_view();
    assert(a0 =~= seq!["--release-base-url"@, release_base_url@, "--version"@, version@]);
    proof {
        reveal_strlit("auto");
    }
    let not_auto = !crate::text::same_text(arch, "auto");
    if not_auto {
        args.push("--arch".to_owned());
        args.push(arch.to_owned());
    }
    let ghost a1 = args.deep_view();
    assert(a1 =~= a0 + when(arch@ != "auto"@, seq!["--arch"@, arch@]));
    if !flags.update_installer {
        args.push("--skip-installer".to_owned());
    }
    let ghost a2 = args.deep_view();
    assert(a2 =~= a1 + when(!flags.update_installer, seq!["--skip-installer"@]));
    if !flags.update_api {
        args.push("--skip-api".to_owned());
    }
    let ghost a3 = args.deep_view();
    assert(a3 =~= a2 + when(!flags.update_api, seq!["--skip-api"@]));
    if !flags.update_webapp {
        args.push("--skip-webapp".to_owned());
    }
    let ghost a4 = args.deep_view();
    assert(a4 =~= a3 + when(!flags.update_webapp, seq!["--skip-webapp"@]));
    if !flags.verify_checksums {
        args.push("--skip-checksum".to_owned());
    }
    let ghost a5 = args.deep_view();
    assert(a5 =~= a4 + when(!flags.verify_checksums, seq!["--skip-checksum"@]));
    if let Some(name) = api_service_name {
        let t = trim(name);
        if !t.as_str().is_empty() {
            args.push("--api-service-name".to_owned());
            args.push(t);
        }
    }
    assert(args.deep_view() =~= binaries_args_of(
        release_base_url@,
        version@,
        arch@,
        flags,
        api_service_name.deep_view(),
    ));
    args
}

// ---------------------------------------------------------------------------
// Moving the installation to another domain.
/// The domain a reconfiguration request names, as it is used: trimmed and
/// in lower case.
pub open spec fn requested_domain_of(domain: Seq<char>) -> Seq<char> {
    trim_seq(domain).map_values(|c: char| ascii_lower_char(c))
}

pub fn requested_domain(domain: &str) -> (r: String)
    ensures
        r@ == requested_domain_of(domain@),
{
    let t = trim(domain);
    to_ascii_lowercase(t.as_str())
}

/// What a domain reconfiguration runs: the script's arguments, the address
/// the installation is reached at afterwards, and whether the script runs
/// under sudo.
pub struct DomainReconfigurePlan {
    pub args: Vec<String>,
    pub redirect_url: String,
    pub use_sudo: bool,
}

/// Why a domain reconfiguration is not run, and the SSL mode the answer
/// reports.
pub struct DomainRefusal {
    pub message: String,
    pub ssl_mode: String,
}

/// The e-mail address of a request, trimmed, when it is not blank.
pub open spec fn given_email(email: Option<Seq<char>>) -> Option<Seq<char>> {
    match email {
        Some(e) => if trim_seq(e).len() > 0 {
            Some(trim_seq(e))
        } else {
            None
        },
        None => None,
    }
}

/// The arguments of the domain script: domain and SSL mode; the e-mail
/// address when one is given; the lifetime of a self-signed certificate
/// when one is given.
pub open spec fn domain_args_of(
    domain: Seq<char>,
    ssl_mode: Seq<char>,
    email: Option<Seq<char>>,
    self_signed_days: Option<u32>,
) -> Seq<Seq<char>> {
    seq!["--domain"@, domain, "--ssl-mode"@, ssl_mode] + match email {
        Some(e) => seq!["--email"@, e],
        None => Seq::empty(),
    } + match self_signed_days {
        Some(d) => seq!["--self-signed-days"@, decimal(d as nat)],
        None => Seq::empty(),
    }
}

/// Where the installation is reached after the move: plain HTTP when the
/// SSL mode is `none`, HTTPS otherwise.
pub open spec fn redirect_url_of(ssl_mode: Seq<char>, domain: Seq<char>) -> Seq<char> {
    if ssl_mode == "none"@ {
        "http://"@ + domain
    } else {
        "https://"@ + domain
    }
}

fn given_email_exec(email: Option<&str>) -> (r: Option<String>)
    ensures
        r.deep_view() == given_email(email.deep_view()),
{
    match email {
        Some(e) => {
            let t = trim(e);
            if !t.as_str().is_empty() {
                Some(t)
            } else {
                None
            }
        },
        None => None,
    }
}

/// Decides a domain reconfiguration. `domain` is the requested domain (see
/// `requested_domain`) and `domain_valid` whether it has the form of a
/// domain; `ssl_mode` is the requested SSL mode in its normal form, `None`
/// when it is not one the script knows; `sudo` is whether the script runs
/// under sudo, or why that could not be settled. Refused, in this order: a
/// malformed domain; an unknown SSL mode; Let's Encrypt without an e-mail
/// address; an unsettled sudo setting.
pub fn plan_domain_reconfigure(
    domain: &str,
    domain_valid: bool,
    requested_ssl_mode: Option<&str>,
    ssl_mode: Option<&str>,
    email: Option<&str>,
    self_signed_days: Option<u32>,
    sudo: Result<bool, String>,
) -> (r: Result<DomainReconfigurePlan, DomainRefusal>)
    ensures
        !domain_valid ==> (r matches Err(f) && f.message@ == "Invalid domain format"@ && f.ssl_mode@ == match requested_ssl_mode {
            Some(m) => m@,
            None => "letsencrypt"@,
        }),
        domain_valid && ssl_mode is None ==> (r matches Err(f) && f.message@
            == "Invalid ssl_mode. Allowed: letsencrypt, selfsigned, none"@ && f.ssl_mode@ == match requested_ssl_mode {
            Some(m) => m@,
            None => Seq::<char>::empty(),
        }),
        domain_valid && ssl_mode is Some && ssl_mode.unwrap()@ == "letsencrypt"@ && given_email(
            email.deep_view(),
        ) is None ==> (r matches Err(f) && f.message@ == "Email is required when ssl_mode is letsencrypt"@
            && f.ssl_mode@ == ssl_mode.unwrap()@),
        domain_valid && ssl_mode is Some && !(ssl_mode.unwrap()@ == "letsencrypt"@ && given_email(
            email.deep_view(),
        ) is None) ==> match sudo {
            Err(m) => (r matches Err(f) && f.message@ == m@ && f.ssl_mode@ == ssl_mode.unwrap()@),
            Ok(u) => (r matches Ok(p) && p.args.deep_view() == domain_args_of(
                domain@,
                ssl_mode.unwrap()@,
                given_email(email.deep_view()),
                self_signed_days,
            ) && p.redirect_url@ == redirect_url_of(ssl_mode.unwrap()@, domain@) && p.use_sudo == u),
        },
{
    if !domain_valid {
        let reported = match requested_ssl_mode {
            Some(m) => m.to_owned(),
            None => "letsencrypt".to_owned(),
        };
        return Err(DomainRefusal { message: "Invalid domain format".to_owned(), ssl_mode: reported });
    }
    let mode = match ssl_mode {
        Some(m) => m,
        None => {
            let reported = match requested_ssl_mode {
                Some(m) => m.to_owned(),
                None => String::new(),
            };
            return Err(
                DomainRefusal {
                    message: "Invalid ssl_mode. Allowed: letsencrypt, selfsigned, none".to_owned(),
                    ssl_mode: reported,
                },
            );
        },
    };
    let address = given_email_exec(email);
    if same_text(mode, "letsencrypt") && address.is_none() {
        return Err(
            DomainRefusal {
                message: "Email is required when ssl_mode is letsencrypt".to_owned(),
                ssl_mode: mode.to_owned(),
            },
        );
    }
    let use_sudo = match sudo {
        Ok(u) => u,
        Err(m) => {
            return Err(DomainRefusal { message: m, ssl_mode: mode.to_owned() });
        },
    };
    let mut args: Vec<String> = Vec::new();
    args.push("--domain".to_owned());
    args.push(domain.to_owned());
    args.push("--ssl-mode".to_owned());
    args.push(mode.to_owned());
    let ghost a0 = args.deep_view();
    assert(a0 =~= seq!["--domain"@, domain@, "--ssl-mode"@, mode@]);
    match address {
        Some(e) => {
            args.push("--email".to_owned());
            args.push(e);
        },
        None => {},
    }
    let ghost a1 = args.deep_view();
    assert(a1 =~= a0 + match given_email(email.deep_view()) {
        Some(e) => seq!["--email"@, e],
        None => Seq::<Seq<char>>::empty(),
    });
    match self_signed_days {
        Some(d) => {
            args.push("--self-signed-days".to_owned());
            args.push(u64_text(d as u64));
        },
        None => {},
    }
    assert(args.deep_view() =~= a1 + match self_signed_days {
        Some(d) => seq!["--self-signed-days"@, decimal(d as nat)],
        None => Seq::<Seq<char>>::empty(),
    });
    let mut redirect_url = if same_text(mode, "none") {
        "http://".to_owned()
    } else {
        "https://".to_owned()
    };
    redirect_url.append(domain);
    Ok(DomainReconfigurePlan { args, redirect_url, use_sudo })
}

/// Only a super admin may reconfigure the installation, and when a
/// reconfiguration token is configured the request must carry that token.
pub fn admits_reconfigure(is_super_admin: bool, expected_token: Option<&str>, provided_token: Option<&str>) -> (r:
    bool)
    ensures
        r == (is_super_admin && match expected_token {
            None => true,
            Some(e) => provided_token matches Some(p) && p@ == e@,
        }),
{
    if !is_super_admin {
        return false;
    }
    match expected_token {
        None => true,
        Some(e) => match provided_token {
            Some(p) => same_text(p, e),
            None => false,
        },
    }
}

} // verus!
