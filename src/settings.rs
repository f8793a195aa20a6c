//! Policy settings: exemption rules and their validation.

use vstd::prelude::*;
use vstd::string::StringExecFns;

use crate::names::{is_valid_name_within, valid_name, MAX_NAMESPACE_LEN, MAX_POD_NAME_PREFIX_LEN};

verus! {

/// `p` is a prefix of `s`.
pub open spec fn is_prefix_of(p: Seq<char>, s: Seq<char>) -> bool {
    p.len() <= s.len() && s.subrange(0, p.len() as int) == p
}

/// Relies on str::starts_with with a `&str` pattern: true exactly when
/// `prefix` is a prefix of `s`.
#[verifier::external_body]
fn str_starts_with(s: &str, prefix: &str) -> (r: bool)
    ensures
        r == is_prefix_of(prefix@, s@),
{
    s.starts_with(prefix)
}

/// The policy's configuration. A field that is `None` configures no rule of
/// its kind; an entry that occurs twice counts once.
pub struct Settings {
    /// Namespaces whose Pods are left alone.
    pub exempt_namespaces: Option<Vec<String>>,
    /// Pod name prefixes whose Pods are left alone.
    pub exempt_pod_name_prefixes: Option<Vec<String>>,
}

/// A settings entry that is not a valid name, or is too long.
pub enum SettingsError {
    InvalidNamespace(String),
    InvalidPodNamePrefix(String),
}

/// Every entry of `v` is a valid name of at most `max` bytes.
pub open spec fn all_valid(v: Option<Vec<String>>, max: nat) -> bool {
    match v {
        Some(v) => forall|i: int| 0 <= i < v.len() ==> valid_name(#[trigger] v[i]@, max),
        None => true,
    }
}

/// `name` is an entry of `v` that is not a valid name of at most `max` bytes.
pub open spec fn invalid_entry(v: Option<Vec<String>>, name: Seq<char>, max: nat) -> bool {
    match v {
        Some(v) => exists|i: int|
            0 <= i < v.len() && #[trigger] v[i]@ == name && !valid_name(name, max),
        None => false,
    }
}

/// `e` names an entry of `settings` that breaks its rule, in the order of
/// validation: a prefix is reported only when every namespace is valid.
pub open spec fn reports_invalid(settings: &Settings, e: SettingsError) -> bool {
    match e {
        SettingsError::InvalidNamespace(n) => invalid_entry(
            settings.exempt_namespaces,
            n@,
            MAX_NAMESPACE_LEN as nat,
        ),
        SettingsError::InvalidPodNamePrefix(n) => all_valid(
            settings.exempt_namespaces,
            MAX_NAMESPACE_LEN as nat,
        ) && invalid_entry(settings.exempt_pod_name_prefixes, n@, MAX_POD_NAME_PREFIX_LEN as nat),
    }
}

impl Settings {
    /// `namespace` is one of the exempt namespaces.
    pub open spec fn namespace_exempt(&self, namespace: Seq<char>) -> bool {
        match self.exempt_namespaces {
            Some(v) => exists|i: int| 0 <= i < v.len() && #[trigger] v[i]@ == namespace,
            None => false,
        }
    }

    /// One of the exempt prefixes is a prefix of `name`.
    pub open spec fn pod_name_exempt(&self, name: Seq<char>) -> bool {
        match self.exempt_pod_name_prefixes {
            Some(v) => exists|i: int| 0 <= i < v.len() && is_prefix_of(#[trigger] v[i]@, name),
            None => false,
        }
    }

    /// A Pod named `name` in `namespace` is exempt from mutation.
    pub open spec fn is_exempt(&self, namespace: Seq<char>, name: Seq<char>) -> bool {
        self.namespace_exempt(namespace) || self.pod_name_exempt(name)
    }

    /// Every namespace and every prefix is a valid name within its bound.
    pub open spec fn is_valid(&self) -> bool {
        all_valid(self.exempt_namespaces, MAX_NAMESPACE_LEN as nat) && all_valid(
            self.exempt_pod_name_prefixes,
            MAX_POD_NAME_PREFIX_LEN as nat,
        )
    }

    /// Settings with the given rules.
    pub fn new(
        exempt_namespaces: Option<Vec<String>>,
        exempt_pod_name_prefixes: Option<Vec<String>>,
    ) -> (r: Settings)
        ensures
            r.exempt_namespaces == exempt_namespaces,
            r.exempt_pod_name_prefixes == exempt_pod_name_prefixes,
    {
        Settings { exempt_namespaces, exempt_pod_name_prefixes }
    }

    /// Whether `namespace` is one of the exempt namespaces.
    pub fn exempt_namespace(&self, namespace: &String) -> (r: bool)
        ensures
            r == self.namespace_exempt(namespace@),
    {
        if let Some(namespaces) = &self.exempt_namespaces {
            let mut i: usize = 0;
            while i < namespaces.len()
                invariant
                    i <= namespaces.len(),
                    self.exempt_namespaces == Some(*namespaces),
                    forall|j: int| 0 <= j < i ==> #[trigger] namespaces[j]@ != namespace@,
                decreases namespaces.len() - i,
            {
                if namespaces[i].eq(namespace) {
                    let ghost v = self.exempt_namespaces->Some_0;
                    assert(v[i as int]@ == namespace@);
                    return true;
                }
                i = i + 1;
            }
        }
        false
    }

    /// Whether one of the exempt prefixes is a prefix of `pod_name`.
    pub fn exempt_pod_name(&self, pod_name: &String) -> (r: bool)
        ensures
            r == self.pod_name_exempt(pod_name@),
    {
        if let Some(prefixes) = &self.exempt_pod_name_prefixes {
            let mut i: usize = 0;
            while i < prefixes.len()
                invariant
                    i <= prefixes.len(),
                    self.exempt_pod_name_prefixes == Some(*prefixes),
                    forall|j: int| 0 <= j < i ==> !is_prefix_of(#[trigger] prefixes[j]@, pod_name@),
                decreases prefixes.len() - i,
            {
                if str_starts_with(pod_name.as_str(), prefixes[i].as_str()) {
                    let ghost v = self.exempt_pod_name_prefixes->Some_0;
                    assert(is_prefix_of(v[i as int]@, pod_name@));
                    return true;
                }
                i = i + 1;
            }
        }
        false
    }

    /// Whether the Pod `pod_name` in `namespace` is exempt: its namespace is
    /// exempt, or an exempt prefix starts its name.
    pub fn exempt(&self, namespace: &String, pod_name: &String) -> (r: bool)
        ensures
            r == self.is_exempt(namespace@, pod_name@),
    {
        self.exempt_namespace(namespace) || self.exempt_pod_name(pod_name)
    }

    /// Checks every namespace, then every prefix; the first invalid entry
    /// found is reported.
    pub fn validate(&self) -> (r: Result<(), SettingsError>)
        ensures
            r is Ok <==> self.is_valid(),
            r matches Err(e) ==> reports_invalid(self, e),
    {
        if let Some(namespaces) = &self.exempt_namespaces {
            let mut i: usize = 0;
            while i < namespaces.len()
                invariant
                    i <= namespaces.len(),
                    self.exempt_namespaces == Some(*namespaces),
                    forall|j: int|
                        0 <= j < i ==> valid_name(#[trigger] namespaces[j]@, MAX_NAMESPACE_LEN as nat),
                decreases namespaces.len() - i,
            {
                if !is_valid_name_within(namespaces[i].as_str(), MAX_NAMESPACE_LEN) {
                    let n = namespaces[i].clone();
                    let ghost v = self.exempt_namespaces->Some_0;
                    assert(n@ == v[i as int]@);
                    assert(!valid_name(v[i as int]@, MAX_NAMESPACE_LEN as nat));
                    return Err(SettingsError::InvalidNamespace(n));
                }
                i = i + 1;
            }
        }
        if let Some(prefixes) = &self.exempt_pod_name_prefixes {
            let mut i: usize = 0;
            while i < prefixes.len()
                invariant
                    i <= prefixes.len(),
                    self.exempt_pod_name_prefixes == Some(*prefixes),
                    all_valid(self.exempt_namespaces, MAX_NAMESPACE_LEN as nat),
                    forall|j: int|
                        0 <= j < i ==> valid_name(
                            #[trigger] prefixes[j]@,
                            MAX_POD_NAME_PREFIX_LEN as nat,
                        ),
                decreases prefixes.len() - i,
            {
                if !is_valid_name_within(prefixes[i].as_str(), MAX_POD_NAME_PREFIX_LEN) {
                    let n = prefixes[i].clone();
                    let ghost v = self.exempt_pod_name_prefixes->Some_0;
                    assert(n@ == v[i as int]@);
                    assert(!valid_name(v[i as int]@, MAX_POD_NAME_PREFIX_LEN as nat));
                    return Err(SettingsError::InvalidPodNamePrefix(n));
                }
                i = i + 1;
            }
        }
        Ok(())
    }
}

impl Default for Settings {
    /// No exemption rule of either kind.
    fn default() -> (r: Settings)
        ensures
            r.exempt_namespaces is None,
            r.exempt_pod_name_prefixes is None,
    {
        Settings { exempt_namespaces: None, exempt_pod_name_prefixes: None }
    }
}

impl SettingsError {
    /// The offending entry.
    pub open spec fn entry(&self) -> Seq<char> {
        match self {
            SettingsError::InvalidNamespace(n) => n@,
            SettingsError::InvalidPodNamePrefix(n) => n@,
        }
    }

    /// The text that reports this error.
    pub open spec fn spec_message(&self) -> Seq<char> {
        match self {
            SettingsError::InvalidNamespace(n) => "exempt_namespace with invalid name: "@ + n@,
            SettingsError::InvalidPodNamePrefix(n) => "exempt_pod_name_prefix with invalid name: "@
                + n@,
        }
    }

    /// The text that reports this error, naming the offending entry.
    pub fn message(&self) -> (r: String)
        ensures
            r@ == self.spec_message(),
    {
        match self {
            SettingsError::InvalidNamespace(n) => {
                String::from_str("exempt_namespace with invalid name: ").concat(n.as_str())
            },
            SettingsError::InvalidPodNamePrefix(n) => {
                String::from_str("exempt_pod_name_prefix with invalid name: ").concat(n.as_str())
            },
        }
    }
}

/// The views of a list of strings.
pub open spec fn string_views(v: Vec<String>) -> Seq<Seq<char>> {
    v@.map_values(|s: String| s@)
}

/// A namespace in the exempt list exempts every Pod in it, whatever its name.
pub proof fn exempt_namespace_exempts_any_name(settings: &Settings, n: Seq<char>, name: Seq<char>)
    requires
        settings.exempt_namespaces matches Some(v) && string_views(v).contains(n),
    ensures
        settings.is_exempt(n, name),
{
    let v = settings.exempt_namespaces->Some_0;
    let i = choose|i: int| 0 <= i < string_views(v).len() && string_views(v)[i] == n;
    assert(v[i]@ == n);
}

/// A Pod whose name starts with an exempt prefix is exempt, in any namespace.
pub proof fn exempt_prefix_exempts_name(
    settings: &Settings,
    p: Seq<char>,
    namespace: Seq<char>,
    name: Seq<char>,
)
    requires
        settings.exempt_pod_name_prefixes matches Some(v) && string_views(v).contains(p),
        is_prefix_of(p, name),
    ensures
        settings.is_exempt(namespace, name),
{
    let v = settings.exempt_pod_name_prefixes->Some_0;
    let i = choose|i: int| 0 <= i < string_views(v).len() && string_views(v)[i] == p;
    assert(is_prefix_of(v[i]@, name));
}

/// Validates settings as the host's settings check does: `Err` carries the
/// report of the first invalid entry found.
pub fn validate_settings(settings: &Settings) -> (r: Result<(), String>)
    ensures
        r is Ok <==> settings.is_valid(),
        r matches Err(m) ==> exists|e: SettingsError|
            reports_invalid(settings, e) && #[trigger] e.spec_message() == m@,
{
    match settings.validate() {
        Ok(()) => Ok(()),
        Err(e) => {
            let m = e.message();
            assert(reports_invalid(settings, e) && e.spec_message() == m@);
            Err(m)
        },
    }
}

} // verus!
