//! Kubernetes client configuration: choosing the current context, its
//! cluster and user from a kubeconfig, resolving where certificates and
//! tokens come from, the in-cluster configuration, and the authorization
//! header. Reading files and the environment is the caller's part.

use vstd::prelude::*;
use crate::json::{first_index, lemma_first_index};
use crate::text::{chars_of, push_char, text_bytes, utf8_bytes};

verus! {

/// A kubeconfig document.
#[derive(Debug)]
pub struct KubeConfig {
    pub clusters: Vec<ClusterEntry>,
    pub contexts: Vec<ContextEntry>,
    pub current_context: String,
    pub users: Vec<UserEntry>,
}

/// A named cluster.
#[derive(Debug)]
pub struct ClusterEntry {
    pub name: String,
    pub cluster: ClusterConfig,
}

/// How to reach a cluster.
#[derive(Debug)]
pub struct ClusterConfig {
    pub server: String,
    pub ca_data: Option<String>,
    pub ca_file: Option<String>,
    pub insecure_skip_tls_verify: Option<bool>,
}

/// A named context.
#[derive(Debug)]
pub struct ContextEntry {
    pub name: String,
    pub context: ContextConfig,
}

/// A context: a cluster, a user and a namespace.
#[derive(Debug)]
pub struct ContextConfig {
    pub cluster: String,
    pub user: String,
    pub namespace: Option<String>,
}

/// A named user.
#[derive(Debug)]
pub struct UserEntry {
    pub name: String,
    pub user: UserConfig,
}

/// A user's credentials.
#[derive(Debug)]
pub struct UserConfig {
    pub client_cert_data: Option<String>,
    pub client_key_data: Option<String>,
    pub client_cert_file: Option<String>,
    pub client_key_file: Option<String>,
    pub token: Option<String>,
    pub token_file: Option<String>,
    pub username: Option<String>,
    pub password: Option<String>,
}

/// What a client needs to reach a cluster.
#[derive(Debug)]
pub struct KubeClientConfig {
    pub server: String,
    pub namespace: String,
    pub token: Option<String>,
    pub certificate_authority: Option<Vec<u8>>,
    pub client_certificate: Option<Vec<u8>>,
    pub client_key: Option<Vec<u8>>,
    pub username: Option<String>,
    pub password: Option<String>,
    pub insecure_skip_tls_verify: bool,
}

/// Why a kubeconfig cannot be used.
#[derive(Clone, Copy, Debug, PartialEq, Eq, Structural)]
pub enum KubeConfigError {
    ContextNotFound,
    ClusterNotFound,
    UserNotFound,
    InvalidBase64,
}

impl KubeConfigError {
    /// The error's text.
    pub fn message(&self) -> (res: String)
        ensures
            res@ == match *self {
                KubeConfigError::ContextNotFound => "Current context not found in kubeconfig"@,
                KubeConfigError::ClusterNotFound => "Cluster not found for context"@,
                KubeConfigError::UserNotFound => "User not found for context"@,
                KubeConfigError::InvalidBase64 => "Invalid base64 data"@,
            },
    {
        match self {
            KubeConfigError::ContextNotFound => String::from_str("Current context not found in kubeconfig"),
            KubeConfigError::ClusterNotFound => String::from_str("Cluster not found for context"),
            KubeConfigError::UserNotFound => String::from_str("User not found for context"),
            KubeConfigError::InvalidBase64 => String::from_str("Invalid base64 data"),
        }
    }
}

/// Whether a path is absolute (starts with `/`).
pub open spec fn is_absolute(p: Seq<char>) -> bool {
    p.len() > 0 && p[0] == '/'
}

/// `rel` appended to `base` as `PathBuf::push` does on Unix: an absolute
/// `rel` replaces `base`; otherwise a separator is put between them unless
/// `base` is empty or already ends with one.
pub open spec fn joined(base: Seq<char>, rel: Seq<char>) -> Seq<char> {
    if is_absolute(rel) {
        rel
    } else if base.len() == 0 || base.last() == '/' {
        base + rel
    } else {
        base.push('/') + rel
    }
}

/// Joins two paths (see `joined`).
pub fn join_path(base: &str, rel: &str) -> (res: String)
    ensures
        res@ == joined(base@, rel@),
{
    let r = chars_of(rel);
    if r.len() > 0 && r[0] == '/' {
        return String::from_str(rel);
    }
    let b = chars_of(base);
    let mut s = String::from_str(base);
    if b.len() > 0 && b[b.len() - 1] != '/' {
        push_char(&mut s, '/');
    }
    s.append(rel);
    s
}

/// What `Path::parent` gives for a path: the path without its last
/// component, `None` for a root or an empty path.
pub uninterp spec fn parent_path(p: Seq<char>) -> Option<Seq<char>>;

/// The parent of a path with `Path::parent`; the result is named
/// `parent_path` of the path.
#[verifier::external_body]
fn path_parent(p: &str) -> (res: Option<String>)
    ensures
        match res {
            Some(q) => parent_path(p@) == Some(q@),
            None => parent_path(p@) is None,
        },
{
    std::path::Path::new(p).parent().map(|q| q.to_string_lossy().into_owned())
}

/// A path named in a kubeconfig: an absolute path as is, a relative one
/// under the kubeconfig's directory (the current directory when it has
/// none).
pub open spec fn resolved(config_path: Seq<char>, p: Seq<char>) -> Seq<char> {
    if is_absolute(p) {
        p
    } else {
        joined(
            match parent_path(config_path) {
                Some(q) => q,
                None => "."@,
            },
            p,
        )
    }
}

/// Resolves a path named in the kubeconfig at `config_path` (see `resolved`).
pub fn resolve_path(config_path: &str, p: &str) -> (res: String)
    ensures
        res@ == resolved(config_path@, p@),
{
    let c = chars_of(p);
    if c.len() > 0 && c[0] == '/' {
        return String::from_str(p);
    }
    match path_parent(config_path) {
        Some(q) => join_path(q.as_str(), p),
        None => {
            let dot = String::from_str(".");
            proof { reveal_strlit("."); }
            join_path(dot.as_str(), p)
        },
    }
}

/// Where the kubeconfig is read from: the `KUBECONFIG` value when set,
/// otherwise `.kube/config` in the home directory (`None` without one).
pub fn kube_config_path(kubeconfig_var: Option<String>, home: Option<String>) -> (res: Option<String>)
    ensures
        match kubeconfig_var {
            Some(v) => res matches Some(p) && p@ == v@,
            None => match home {
                Some(h) => res matches Some(p) && p@ == joined(h@, ".kube/config"@),
                None => res is None,
            },
        },
{
    match kubeconfig_var {
        Some(v) => Some(v),
        None => match home {
            Some(h) => Some(join_path(h.as_str(), ".kube/config")),
            None => None,
        },
    }
}

/// The names of the contexts.
pub open spec fn context_names(cfg: KubeConfig) -> Seq<Seq<char>> {
    cfg.contexts@.map_values(|c: ContextEntry| c.name@)
}

/// The names of the clusters.
pub open spec fn cluster_names(cfg: KubeConfig) -> Seq<Seq<char>> {
    cfg.clusters@.map_values(|c: ClusterEntry| c.name@)
}

/// The names of the users.
pub open spec fn user_names(cfg: KubeConfig) -> Seq<Seq<char>> {
    cfg.users@.map_values(|u: UserEntry| u.name@)
}

/// An entry of a kubeconfig list, found by its name.
trait NamedEntry {
    spec fn entry_name(&self) -> Seq<char>;

    fn name_text(&self) -> (res: &String)
        ensures
            res@ == self.entry_name();
}

impl NamedEntry for ContextEntry {
    spec fn entry_name(&self) -> Seq<char> {
        self.name@
    }

    fn name_text(&self) -> (res: &String) {
        &self.name
    }
}

impl NamedEntry for ClusterEntry {
    spec fn entry_name(&self) -> Seq<char> {
        self.name@
    }

    fn name_text(&self) -> (res: &String) {
        &self.name
    }
}

impl NamedEntry for UserEntry {
    spec fn entry_name(&self) -> Seq<char> {
        self.name@
    }

    fn name_text(&self) -> (res: &String) {
        &self.name
    }
}

/// The position of the first entry named `name`.
fn find_named<T: NamedEntry>(list: &Vec<T>, name: &String) -> (res: Option<usize>)
    ensures
        match res {
            Some(i) => i < list@.len() && first_index(list@.map_values(|c: T| c.entry_name()), name@) == Some(i as int),
            None => first_index(list@.map_values(|c: T| c.entry_name()), name@) is None,
        },
{
    let ghost names = list@.map_values(|c: T| c.entry_name());
    proof { lemma_first_index(names, name@); }
    let mut i: usize = 0;
    while i < list.len()
        invariant
            i <= list.len(),
            names == list@.map_values(|c: T| c.entry_name()),
            forall|j: int| 0 <= j < i ==> names[j] != name@,
        decreases list.len() - i,
    {
        if *list[i].name_text() == *name {
            proof {
                lemma_first_index(names, name@);
                assert(names[i as int] == name@);
                match first_index(names, name@) {
                    Some(f) => {
                        if f < i {
                            assert(names[f] != name@);
                        }
                    },
                    None => {},
                }
            }
            return Some(i);
        }
        i = i + 1;
    }
    proof {
        lemma_first_index(names, name@);
        match first_index(names, name@) {
            Some(f) => {
                assert(names[f] != name@);
            },
            None => {},
        }
    }
    None
}

/// Where the certificate authority comes from.
#[derive(Debug)]
pub enum CaSource {
    /// Base64 data in the kubeconfig.
    Inline(String),
    /// A file.
    File(String),
    Absent,
}

/// Where the client certificate and key come from.
#[derive(Debug)]
pub enum IdentitySource {
    /// Base64 data in the kubeconfig.
    Inline { cert: String, key: String },
    /// Files.
    Files { cert: String, key: String },
    Absent,
}

/// Where the bearer token comes from.
#[derive(Debug)]
pub enum TokenSource {
    /// The token itself.
    Literal(String),
    /// A file holding it.
    File(String),
    Absent,
}

/// The client configuration chosen from a kubeconfig, with the sources of
/// its certificates and token still to be read.
#[derive(Debug)]
pub struct KubeClientPlan {
    pub server: String,
    pub namespace: String,
    pub token: TokenSource,
    pub certificate_authority: CaSource,
    pub client_identity: IdentitySource,
    pub username: Option<String>,
    pub password: Option<String>,
    pub insecure_skip_tls_verify: bool,
}

/// Whether two optional strings hold the same text.
pub open spec fn same_text(a: Option<String>, b: Option<String>) -> bool {
    match (a, b) {
        (Some(x), Some(y)) => x@ == y@,
        (None, None) => true,
        _ => false,
    }
}

/// Whether `plan` is what the kubeconfig at `config_path` gives for the
/// context, cluster and user chosen: the cluster's server, the context's
/// namespace (`default` when none), the certificate authority from inline
/// data, else from a file; the client identity from inline certificate and
/// key data, else from certificate and key files; the token itself, else
/// from a file; the user's name and password; and the cluster's TLS check
/// setting (checked unless said otherwise).
pub open spec fn plan_of(plan: KubeClientPlan, context: ContextConfig, cluster: ClusterConfig, user: UserConfig, config_path: Seq<char>) -> bool {
    &&& plan.server@ == cluster.server@
    &&& plan.namespace@ == match context.namespace {
        Some(n) => n@,
        None => "default"@,
    }
    &&& match (cluster.ca_data, cluster.ca_file) {
        (Some(d), _) => plan.certificate_authority matches CaSource::Inline(x) && x@ == d@,
        (None, Some(f)) => plan.certificate_authority matches CaSource::File(x) && x@ == resolved(config_path, f@),
        _ => plan.certificate_authority is Absent,
    }
    &&& match (user.client_cert_data, user.client_key_data, user.client_cert_file, user.client_key_file) {
        (Some(c), Some(k), _, _) => plan.client_identity matches IdentitySource::Inline { cert, key } && cert@ == c@ && key@ == k@,
        (_, _, Some(c), Some(k)) => plan.client_identity matches IdentitySource::Files { cert, key }
            && cert@ == resolved(config_path, c@) && key@ == resolved(config_path, k@),
        _ => plan.client_identity is Absent,
    }
    &&& match (user.token, user.token_file) {
        (Some(t), _) => plan.token matches TokenSource::Literal(x) && x@ == t@,
        (None, Some(f)) => plan.token matches TokenSource::File(x) && x@ == resolved(config_path, f@),
        _ => plan.token is Absent,
    }
    &&& same_text(plan.username, user.username)
    &&& same_text(plan.password, user.password)
    &&& plan.insecure_skip_tls_verify == match cluster.insecure_skip_tls_verify {
        Some(b) => b,
        None => false,
    }
}

/// A plan takes its namespace from the chosen context, and `default` only
/// when the context names none; its server and TLS setting come from the
/// cluster, its user name and password from the user.
pub proof fn plan_follows_context(plan: KubeClientPlan, context: ContextConfig, cluster: ClusterConfig, user: UserConfig, config_path: Seq<char>)
    requires
        plan_of(plan, context, cluster, user, config_path),
    ensures
        context.namespace matches Some(n) ==> plan.namespace@ == n@,
        context.namespace is None ==> plan.namespace@ == "default"@,
        plan.server@ == cluster.server@,
        cluster.insecure_skip_tls_verify matches Some(b) ==> plan.insecure_skip_tls_verify == b,
        cluster.insecure_skip_tls_verify is None ==> !plan.insecure_skip_tls_verify,
        same_text(plan.username, user.username),
        same_text(plan.password, user.password),
        user.token matches Some(t) ==> (plan.token matches TokenSource::Literal(x) && x@ == t@),
        user.token is None && user.token_file is None ==> plan.token is Absent,
        user.token is None ==> (user.token_file matches Some(f) ==> (plan.token matches TokenSource::File(x) && x@ == resolved(config_path, f@))),
        cluster.ca_data matches Some(d) ==> (plan.certificate_authority matches CaSource::Inline(x) && x@ == d@),
        cluster.ca_data is None && cluster.ca_file is None ==> plan.certificate_authority is Absent,
{
}

fn clone_opt(o: &Option<String>) -> (res: Option<String>)
    ensures
        same_text(res, *o),
{
    match o {
        Some(s) => Some(s.clone()),
        None => None,
    }
}

/// Whether `res` is the outcome of choosing the client configuration from
/// `cfg` (read from `config_path`): the current context, then its cluster
/// and user (the first of each name), each missing one an error in that
/// order, and otherwise the plan for them (see `plan_of`).
pub open spec fn planned(cfg: KubeConfig, config_path: Seq<char>, res: Result<KubeClientPlan, KubeConfigError>) -> bool {
    match first_index(context_names(cfg), cfg.current_context@) {
        None => res == Err::<KubeClientPlan, KubeConfigError>(KubeConfigError::ContextNotFound),
        Some(ci) => {
            let ctx = cfg.contexts@[ci].context;
            match first_index(cluster_names(cfg), ctx.cluster@) {
                None => res == Err::<KubeClientPlan, KubeConfigError>(KubeConfigError::ClusterNotFound),
                Some(ki) => match first_index(user_names(cfg), ctx.user@) {
                    None => res == Err::<KubeClientPlan, KubeConfigError>(KubeConfigError::UserNotFound),
                    Some(ui) => res matches Ok(plan)
                        && plan_of(plan, ctx, cfg.clusters@[ki].cluster, cfg.users@[ui].user, config_path),
                },
            }
        },
    }
}

/// A plan chosen from a kubeconfig uses the namespace of the current
/// context, the first context of that name: its own namespace when it names
/// one, `default` otherwise.
pub proof fn planned_namespace(cfg: KubeConfig, config_path: Seq<char>, plan: KubeClientPlan)
    requires
        planned(cfg, config_path, Ok(plan)),
    ensures
        exists|ci: int| 0 <= ci < cfg.contexts@.len() && #[trigger] cfg.contexts@[ci].name@ == cfg.current_context@
            && (forall|j: int| 0 <= j < ci ==> cfg.contexts@[j].name@ != cfg.current_context@)
            && plan.namespace@ == match cfg.contexts@[ci].context.namespace {
                Some(n) => n@,
                None => "default"@,
            },
{
    crate::json::lemma_first_index(context_names(cfg), cfg.current_context@);
    let ci = first_index(context_names(cfg), cfg.current_context@)->0;
    assert(context_names(cfg)[ci] == cfg.contexts@[ci].name@);
    assert forall|j: int| 0 <= j < ci implies cfg.contexts@[j].name@ != cfg.current_context@ by {
        assert(context_names(cfg)[j] == cfg.contexts@[j].name@);
    }
    plan_follows_context(plan, cfg.contexts@[ci].context,
        cfg.clusters@[first_index(cluster_names(cfg), cfg.contexts@[ci].context.cluster@)->0].cluster,
        cfg.users@[first_index(user_names(cfg), cfg.contexts@[ci].context.user@)->0].user, config_path);
}

/// Chooses the client configuration from the kubeconfig read from
/// `config_path`: the current context, then its cluster and user (the first
/// of each name). Fails when one of them is missing, in that order.
pub fn plan_kube_client(cfg: &KubeConfig, config_path: &str) -> (res: Result<KubeClientPlan, KubeConfigError>)
    ensures
        planned(*cfg, config_path@, res),
{
    assert(cfg.contexts@.map_values(|c: ContextEntry| c.entry_name()) =~= context_names(*cfg));
    assert(cfg.clusters@.map_values(|c: ClusterEntry| c.entry_name()) =~= cluster_names(*cfg));
    assert(cfg.users@.map_values(|u: UserEntry| u.entry_name()) =~= user_names(*cfg));
    let ci = match find_named(&cfg.contexts, &cfg.current_context) {
        Some(i) => i,
        None => return Err(KubeConfigError::ContextNotFound),
    };
    let ctx = &cfg.contexts[ci].context;
    let ki = match find_named(&cfg.clusters, &ctx.cluster) {
        Some(i) => i,
        None => return Err(KubeConfigError::ClusterNotFound),
    };
    let ui = match find_named(&cfg.users, &ctx.user) {
        Some(i) => i,
        None => return Err(KubeConfigError::UserNotFound),
    };
    let cluster = &cfg.clusters[ki].cluster;
    let user = &cfg.users[ui].user;
    let namespace = match &ctx.namespace {
        Some(n) => n.clone(),
        None => String::from_str("default"),
    };
    let certificate_authority = match (&cluster.ca_data, &cluster.ca_file) {
        (Some(d), _) => CaSource::Inline(d.clone()),
        (None, Some(f)) => CaSource::File(resolve_path(config_path, f.as_str())),
        _ => CaSource::Absent,
    };
    let client_identity = match (&user.client_cert_data, &user.client_key_data, &user.client_cert_file, &user.client_key_file) {
        (Some(c), Some(k), _, _) => IdentitySource::Inline { cert: c.clone(), key: k.clone() },
        (_, _, Some(c), Some(k)) => IdentitySource::Files {
            cert: resolve_path(config_path, c.as_str()),
            key: resolve_path(config_path, k.as_str()),
        },
        _ => IdentitySource::Absent,
    };
    let token = match (&user.token, &user.token_file) {
        (Some(t), _) => TokenSource::Literal(t.clone()),
        (None, Some(f)) => TokenSource::File(resolve_path(config_path, f.as_str())),
        _ => TokenSource::Absent,
    };
    let insecure_skip_tls_verify = match cluster.insecure_skip_tls_verify {
        Some(b) => b,
        None => false,
    };
    Ok(KubeClientPlan {
        server: cluster.server.clone(),
        namespace,
        token,
        certificate_authority,
        client_identity,
        username: clone_opt(&user.username),
        password: clone_opt(&user.password),
        insecure_skip_tls_verify,
    })
}

/// The error of `base64::decode`, held opaquely.
#[verifier::external_type_specification]
#[verifier::external_body]
pub struct ExDecodeError(base64::DecodeError);

/// What `base64::decode` (standard alphabet, padded) gives for a text's
/// bytes; `None` when it is not valid base64.
pub uninterp spec fn b64_decoded(text: Seq<char>) -> Option<Seq<u8>>;

/// Decodes base64 text with `base64::decode`; the result is named
/// `b64_decoded` of the text.
#[verifier::external_body]
fn base64_decode(text: &str) -> (res: Result<Vec<u8>, base64::DecodeError>)
    ensures
        match res {
            Ok(v) => b64_decoded(text@) == Some(v@),
            Err(_) => b64_decoded(text@) is None,
        },
{
    #[allow(deprecated)]
    base64::decode(text)
}

/// What `base64::encode` (standard alphabet, padded) gives for a text's
/// bytes.
pub uninterp spec fn b64_encoded(text: Seq<char>) -> Seq<char>;

/// Encodes a text's bytes as base64 with `base64::encode`; the result is
/// named `b64_encoded` of the text.
#[verifier::external_body]
fn base64_encode(text: &str) -> (res: String)
    ensures
        res@ == b64_encoded(text@),
{
    #[allow(deprecated)]
    base64::encode(text)
}

/// Decodes inline certificate or key data of a kubeconfig.
pub fn decode_inline(data: &str) -> (res: Result<Vec<u8>, KubeConfigError>)
    ensures
        match b64_decoded(data@) {
            Some(v) => res matches Ok(r) && r@ == v,
            None => res == Err::<Vec<u8>, KubeConfigError>(KubeConfigError::InvalidBase64),
        },
{
    match base64_decode(data) {
        Ok(v) => Ok(v),
        Err(_) => Err(KubeConfigError::InvalidBase64),
    }
}

/// Whether a character is white space in the sense of Unicode's
/// `White_Space` property (what `str::trim` removes).
pub open spec fn is_white_space(c: char) -> bool {
    ||| ('\u{9}' <= c && c <= '\u{d}')
    ||| c == ' ' || c == '\u{85}' || c == '\u{a0}' || c == '\u{1680}'
    ||| ('\u{2000}' <= c && c <= '\u{200a}')
    ||| c == '\u{2028}' || c == '\u{2029}' || c == '\u{202f}' || c == '\u{205f}' || c == '\u{3000}'
}

/// The text without its leading white space.
pub open spec fn trimmed_start(text: Seq<char>) -> Seq<char>
    decreases text.len(),
{
    if text.len() > 0 && is_white_space(text[0]) {
        trimmed_start(text.drop_first())
    } else {
        text
    }
}

/// The text without its trailing white space.
pub open spec fn trimmed_end(text: Seq<char>) -> Seq<char>
    decreases text.len(),
{
    if text.len() > 0 && is_white_space(text.last()) {
        trimmed_end(text.drop_last())
    } else {
        text
    }
}

/// What `str::trim` gives: the text without leading and trailing white
/// space.
pub open spec fn trimmed(text: Seq<char>) -> Seq<char> {
    trimmed_end(trimmed_start(text))
}

/// Whether a character is white space (see `is_white_space`).
fn white_space(c: char) -> (res: bool)
    ensures
        res == is_white_space(c),
{
    ('\u{9}' <= c && c <= '\u{d}') || c == ' ' || c == '\u{85}' || c == '\u{a0}' || c == '\u{1680}'
        || ('\u{2000}' <= c && c <= '\u{200a}') || c == '\u{2028}' || c == '\u{2029}' || c == '\u{202f}'
        || c == '\u{205f}' || c == '\u{3000}'
}

proof fn lemma_trimmed_start(t: Seq<char>, a: int)
    requires
        0 <= a <= t.len(),
        forall|i: int| 0 <= i < a ==> is_white_space(#[trigger] t[i]),
        a == t.len() || !is_white_space(t[a]),
    ensures
        trimmed_start(t) == t.subrange(a, t.len() as int),
    decreases a,
{
    if a == 0 {
        assert(t.subrange(0, t.len() as int) =~= t);
    } else {
        let u = t.drop_first();
        assert forall|i: int| 0 <= i < a - 1 implies is_white_space(#[trigger] u[i]) by {
            assert(u[i] == t[i + 1]);
        }
        lemma_trimmed_start(u, a - 1);
        assert(u.subrange(a - 1, u.len() as int) =~= t.subrange(a, t.len() as int));
    }
}

proof fn lemma_trimmed_end(u: Seq<char>, b: int)
    requires
        0 <= b <= u.len(),
        forall|i: int| b <= i < u.len() ==> is_white_space(#[trigger] u[i]),
        b == 0 || !is_white_space(u[b - 1]),
    ensures
        trimmed_end(u) == u.subrange(0, b),
    decreases u.len() - b,
{
    if b == u.len() {
        assert(u.subrange(0, b) =~= u);
    } else {
        let v = u.drop_last();
        assert forall|i: int| b <= i < v.len() implies is_white_space(#[trigger] v[i]) by {
            assert(v[i] == u[i]);
        }
        lemma_trimmed_end(v, b);
        assert(v.subrange(0, b) =~= u.subrange(0, b));
    }
}

/// Removes leading and trailing white space (what `str::trim` does).
pub fn trim_text(text: &str) -> (res: String)
    ensures
        res@ == trimmed(text@),
{
    let n = text.unicode_len();
    let mut a: usize = 0;
    while a < n && white_space(text.get_char(a))
        invariant
            n == text@.len(),
            a <= n,
            forall|i: int| 0 <= i < a ==> is_white_space(#[trigger] text@[i]),
        decreases n - a,
    {
        a = a + 1;
    }
    let mut b: usize = n;
    while b > a && white_space(text.get_char(b - 1))
        invariant
            n == text@.len(),
            a <= b <= n,
            forall|i: int| b <= i < n ==> is_white_space(#[trigger] text@[i]),
        decreases b - a,
    {
        b = b - 1;
    }
    proof {
        lemma_trimmed_start(text@, a as int);
        let u = text@.subrange(a as int, n as int);
        assert forall|i: int| b - a <= i < u.len() implies is_white_space(#[trigger] u[i]) by {
            assert(u[i] == text@[a + i]);
        }
        if b > a {
            assert(u[b - a - 1] == text@[b - 1]);
        }
        lemma_trimmed_end(u, (b - a) as int);
        assert(u.subrange(0, (b - a) as int) =~= text@.subrange(a as int, b as int));
    }
    String::from_str(text.substring_char(a, b))
}

/// The certificate authority of a plan: its inline data decoded (an error
/// when it is not base64), else the contents of its file (`file`, read by
/// the caller), else none.
pub fn ca_bytes(source: &CaSource, file: Option<Vec<u8>>) -> (res: Result<Option<Vec<u8>>, KubeConfigError>)
    ensures
        match *source {
            CaSource::Inline(d) => match b64_decoded(d@) {
                Some(v) => res matches Ok(Some(r)) && r@ == v,
                None => res == Err::<Option<Vec<u8>>, KubeConfigError>(KubeConfigError::InvalidBase64),
            },
            CaSource::File(_) => res == Ok::<Option<Vec<u8>>, KubeConfigError>(file),
            CaSource::Absent => res == Ok::<Option<Vec<u8>>, KubeConfigError>(None),
        },
{
    match source {
        CaSource::Inline(d) => match decode_inline(d.as_str()) {
            Ok(v) => Ok(Some(v)),
            Err(e) => Err(e),
        },
        CaSource::File(_) => Ok(file),
        CaSource::Absent => Ok(None),
    }
}

/// The client certificate and key of a plan: their inline data decoded, the
/// certificate first (an error when either is not base64), else the contents
/// of their files (`files`, read by the caller), else none.
pub fn identity_bytes(source: &IdentitySource, files: Option<(Vec<u8>, Vec<u8>)>) -> (res: Result<(Option<Vec<u8>>, Option<Vec<u8>>), KubeConfigError>)
    ensures
        match *source {
            IdentitySource::Inline { cert, key } => match (b64_decoded(cert@), b64_decoded(key@)) {
                (Some(c), Some(k)) => res matches Ok((Some(rc), Some(rk))) && rc@ == c && rk@ == k,
                _ => res == Err::<(Option<Vec<u8>>, Option<Vec<u8>>), KubeConfigError>(KubeConfigError::InvalidBase64),
            },
            IdentitySource::Files { .. } => match files {
                Some((c, k)) => res == Ok::<(Option<Vec<u8>>, Option<Vec<u8>>), KubeConfigError>((Some(c), Some(k))),
                None => res == Ok::<(Option<Vec<u8>>, Option<Vec<u8>>), KubeConfigError>((None, None)),
            },
            IdentitySource::Absent => res == Ok::<(Option<Vec<u8>>, Option<Vec<u8>>), KubeConfigError>((None, None)),
        },
{
    match source {
        IdentitySource::Inline { cert, key } => {
            let c = match decode_inline(cert.as_str()) {
                Ok(v) => v,
                Err(e) => return Err(e),
            };
            let k = match decode_inline(key.as_str()) {
                Ok(v) => v,
                Err(e) => return Err(e),
            };
            Ok((Some(c), Some(k)))
        },
        IdentitySource::Files { .. } => match files {
            Some((c, k)) => Ok((Some(c), Some(k))),
            None => Ok((None, None)),
        },
        IdentitySource::Absent => Ok((None, None)),
    }
}

/// The bearer token of a plan: the token itself, else the contents of its
/// file (`file_text`, read by the caller) with leading and trailing white
/// space removed, else none.
pub fn token_text(source: &TokenSource, file_text: Option<String>) -> (res: Option<String>)
    ensures
        match *source {
            TokenSource::Literal(t) => res matches Some(r) && r@ == t@,
            TokenSource::File(_) => match file_text {
                Some(x) => res matches Some(r) && r@ == trimmed(x@),
                None => res is None,
            },
            TokenSource::Absent => res is None,
        },
{
    match source {
        TokenSource::Literal(t) => Some(t.clone()),
        TokenSource::File(_) => match file_text {
            Some(x) => Some(trim_text(x.as_str())),
            None => None,
        },
        TokenSource::Absent => None,
    }
}

/// The client configuration of a plan, with its certificate authority,
/// client certificate and key, and token as read (see `ca_bytes`,
/// `identity_bytes` and `token_text`): the plan's server, namespace, user
/// name, password and TLS setting.
pub fn finish_kube_client(
    plan: KubeClientPlan,
    certificate_authority: Option<Vec<u8>>,
    client_certificate: Option<Vec<u8>>,
    client_key: Option<Vec<u8>>,
    token: Option<String>,
) -> (res: KubeClientConfig)
    ensures
        res.server == plan.server,
        res.namespace == plan.namespace,
        res.token == token,
        res.certificate_authority == certificate_authority,
        res.client_certificate == client_certificate,
        res.client_key == client_key,
        res.username == plan.username,
        res.password == plan.password,
        res.insecure_skip_tls_verify == plan.insecure_skip_tls_verify,
{
    KubeClientConfig {
        server: plan.server,
        namespace: plan.namespace,
        token,
        certificate_authority,
        client_certificate,
        client_key,
        username: plan.username,
        password: plan.password,
        insecure_skip_tls_verify: plan.insecure_skip_tls_verify,
    }
}

/// The configuration inside a pod: the API server at `host` and `port` over
/// HTTPS, the service account's namespace and token (white space trimmed)
/// and certificate authority, no client certificate or password, TLS
/// checked.
pub fn in_cluster_config(host: &str, port: &str, token: &str, certificate_authority: Vec<u8>, namespace: &str) -> (res: KubeClientConfig)
    ensures
        res.server@ == "https://"@ + host@ + ":"@ + port@,
        res.namespace@ == trimmed(namespace@),
        res.token matches Some(t) && t@ == trimmed(token@),
        res.certificate_authority == Some(certificate_authority),
        res.client_certificate is None,
        res.client_key is None,
        res.username is None,
        res.password is None,
        !res.insecure_skip_tls_verify,
{
    let mut server = String::from_str("https://");
    server.append(host);
    server.append(":");
    server.append(port);
    KubeClientConfig {
        server,
        namespace: trim_text(namespace),
        token: Some(trim_text(token)),
        certificate_authority: Some(certificate_authority),
        client_certificate: None,
        client_key: None,
        username: None,
        password: None,
        insecure_skip_tls_verify: false,
    }
}

/// The authorization header for a configuration: a bearer token when there
/// is one, otherwise basic authentication with the user name and password
/// (base64 of `user:password`) when both are given, otherwise none.
pub fn auth_header(config: &KubeClientConfig) -> (res: Option<String>)
    ensures
        match config.token {
            Some(t) => res matches Some(h) && h@ == "Bearer "@ + t@,
            None => match (config.username, config.password) {
                (Some(u), Some(p)) => res matches Some(h) && h@ == "Basic "@ + b64_encoded(u@ + ":"@ + p@),
                _ => res is None,
            },
        },
{
    match &config.token {
        Some(t) => {
            let mut h = String::from_str("Bearer ");
            h.append(t.as_str());
            Some(h)
        },
        None => match (&config.username, &config.password) {
            (Some(u), Some(p)) => {
                let mut creds = u.clone();
                creds.append(":");
                creds.append(p.as_str());
                let mut h = String::from_str("Basic ");
                h.append(base64_encode(creds.as_str()).as_str());
                Some(h)
            },
            _ => None,
        },
    }
}

/// The address for creating pods in a namespace.
pub fn pod_create_url(server: &str, namespace: &str) -> (res: String)
    ensures
        res@ == server@ + "/api/v1/namespaces/"@ + namespace@ + "/pods"@,
{
    let mut u = String::from_str(server);
    u.append("/api/v1/namespaces/");
    u.append(namespace);
    u.append("/pods");
    u
}

/// An absolute path named in a kubeconfig is taken as it is; a relative one
/// lies under the kubeconfig's directory.
pub proof fn paths_resolve_under_config(config_path: Seq<char>, p: Seq<char>)
    ensures
        is_absolute(p) ==> resolved(config_path, p) == p,
        !is_absolute(p) ==> {
            let dir = match parent_path(config_path) {
                Some(q) => q,
                None => "."@,
            };
            crate::text::has_prefix(resolved(config_path, p), dir)
                && resolved(config_path, p).subrange(resolved(config_path, p).len() - p.len(), resolved(config_path, p).len() as int) == p
        },
{
    if !is_absolute(p) {
        let dir = match parent_path(config_path) {
            Some(q) => q,
            None => "."@,
        };
        let r = resolved(config_path, p);
        if dir.len() == 0 || dir.last() == '/' {
            assert(r =~= dir + p);
            assert(r.subrange(0, dir.len() as int) =~= dir);
            assert(r.subrange(r.len() - p.len(), r.len() as int) =~= p);
        } else {
            assert(r =~= dir.push('/') + p);
            assert(r.subrange(0, dir.len() as int) =~= dir);
            assert(r.subrange(r.len() - p.len(), r.len() as int) =~= p);
        }
    }
}

} // verus!
