//! Where the credential store lives, and how an OTP URI is handed to the
//! store program's validator.

use vstd::prelude::*;
use vstd::string::StringExecFns;

verus! {

/// The store directory used when neither an explicit path nor the environment
/// names one.
pub open spec fn default_store_setting() -> Seq<char> {
    "~/.password-store"@
}

/// Tilde expansion as performed on a Unix host: a leading `~` that stands alone
/// or before `/` becomes the home directory; anything else is left unchanged.
pub open spec fn tilde_expanded(input: Seq<char>, home: Seq<char>) -> Seq<char> {
    if input.len() > 0 && input[0] == '~' && (input.len() == 1 || input[1] == '/') {
        home + input.subrange(1, input.len() as int)
    } else {
        input
    }
}

/// The store root: an explicit path as given, otherwise the environment's
/// setting or the default, with the home directory expanded.
pub open spec fn resolved_root(
    explicit: Option<Seq<char>>,
    env: Option<Seq<char>>,
    home: Seq<char>,
) -> Seq<char> {
    match explicit {
        Some(path) => path,
        None => match env {
            Some(setting) => tilde_expanded(setting, home),
            None => tilde_expanded(default_store_setting(), home),
        },
    }
}

/// Relies on shellexpand::tilde_with_context, given the home directory: the
/// prefix `~` alone or before `/` is replaced by it, other input is returned as is.
/// This holds on non-Windows targets only, the only ones the program runs on: on
/// Windows the function also expands `~` before a backslash.
#[verifier::external_body]
fn expand_tilde(input: &str, home: &str) -> (r: String)
    ensures
        r@ == tilde_expanded(input@, home@),
{
    shellexpand::tilde_with_context(input, || Some(home)).into_owned()
}

/// What `url_escape::encode_fragment` makes of a text.
pub uninterp spec fn fragment_encoding(s: Seq<char>) -> Seq<char>;

/// Relies on url_escape::encode_fragment: percent-encoding with the fragment
/// set, which leaves an empty text empty.
#[verifier::external_body]
fn encode_fragment(s: &str) -> (r: String)
    ensures
        r@ == fragment_encoding(s@),
        s@.len() == 0 ==> r@.len() == 0,
{
    url_escape::encode_fragment(s).into_owned()
}

/// The host's view of the store program's configuration.
pub struct Platform {
    pass_store_path: String,
}

impl Platform {
    /// The configured store directory, before home expansion.
    pub closed spec fn setting(&self) -> Seq<char> {
        self.pass_store_path@
    }

    /// Builds the platform from the value of the store-directory environment
    /// variable, if it is set.
    pub fn new(env_value: Option<String>) -> (p: Platform)
        ensures
            p.setting() == (match env_value {
                Some(v) => v@,
                None => default_store_setting(),
            }),
    {
        match env_value {
            Some(v) => Platform { pass_store_path: v },
            None => Platform { pass_store_path: String::from_str("~/.password-store") },
        }
    }

    /// The configured store directory with the home directory expanded.
    pub fn default_store_path(&self, home: &str) -> (r: String)
        ensures
            r@ == tilde_expanded(self.setting(), home@),
    {
        expand_tilde(self.pass_store_path.as_str(), home)
    }

    /// The store root to open: `explicit` when given, else the configured one.
    pub fn store_root(&self, explicit: Option<String>, home: &str) -> (r: String)
        ensures
            r@ == (match explicit {
                Some(path) => path@,
                None => tilde_expanded(self.setting(), home@),
            }),
    {
        match explicit {
            Some(path) => path,
            None => self.default_store_path(home),
        }
    }

    /// The arguments of the store program's `otp validate` call for `uri`, or
    /// `None` for an empty URI, which is rejected without asking the program.
    pub fn validation_args(&self, uri: &str) -> (r: Option<Vec<String>>)
        ensures
            uri@.len() == 0 <==> r is None,
            r matches Some(args) ==> args@.len() == 3
                && args@[0]@ == "otp"@
                && args@[1]@ == "validate"@
                && args@[2]@ == fragment_encoding(uri@),
    {
        if uri.is_empty() {
            None
        } else {
            let mut args: Vec<String> = Vec::new();
            args.push(String::from_str("otp"));
            args.push(String::from_str("validate"));
            args.push(encode_fragment(uri));
            Some(args)
        }
    }

    /// Whether `uri` is a valid OTP URI, given whether the validator call ran
    /// and succeeded. An empty URI is never valid.
    pub fn check_otp_uri(&self, uri: &str, validator_succeeded: bool) -> (r: bool)
        ensures
            r == (uri@.len() > 0 && validator_succeeded),
    {
        !uri.is_empty() && validator_succeeded
    }
}

/// An explicit store root wins over any environment setting, and with neither
/// the default directory is placed under the home directory.
pub proof fn lemma_root_precedence(
    explicit: Seq<char>,
    env: Option<Seq<char>>,
    home: Seq<char>,
)
    ensures
        resolved_root(Some(explicit), env, home) == explicit,
        resolved_root(None, None, home) == home + "/.password-store"@,
{
    reveal_strlit("~/.password-store");
    reveal_strlit("/.password-store");
    assert(default_store_setting().subrange(1, default_store_setting().len() as int)
        =~= "/.password-store"@);
}

/// The root that `store_root` picks is the one that `resolved_root` describes
/// for the platform built from the same environment value.
pub proof fn lemma_store_root_resolves(
    p: Platform,
    env: Option<Seq<char>>,
    explicit: Option<Seq<char>>,
    home: Seq<char>,
)
    requires
        p.setting() == (match env {
            Some(v) => v,
            None => default_store_setting(),
        }),
    ensures
        (match explicit {
            Some(path) => path,
            None => tilde_expanded(p.setting(), home),
        }) == resolved_root(explicit, env, home),
{
}

} // verus!
