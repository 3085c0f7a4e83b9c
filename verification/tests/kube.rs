use saasexpress::kube::{ca_bytes, finish_kube_client, identity_bytes, token_text, auth_header, decode_inline, in_cluster_config, join_path, kube_config_path, plan_kube_client, pod_create_url, resolve_path, trim_text, CaSource, ClusterConfig, ClusterEntry, ContextConfig, ContextEntry, IdentitySource, KubeClientConfig, KubeConfig, KubeConfigError, TokenSource, UserConfig, UserEntry};

fn user(token: Option<&str>, token_file: Option<&str>) -> UserConfig {
    UserConfig {
        client_cert_data: None,
        client_key_data: None,
        client_cert_file: Some("certs/c.pem".to_string()),
        client_key_file: Some("/abs/k.pem".to_string()),
        token: token.map(|t| t.to_string()),
        token_file: token_file.map(|t| t.to_string()),
        username: Some("u".to_string()),
        password: None,
    }
}

fn config(current: &str) -> KubeConfig {
    KubeConfig {
        clusters: vec![ClusterEntry {
            name: "c1".to_string(),
            cluster: ClusterConfig { server: "https://k:6443".to_string(), ca_data: None, ca_file: Some("ca.crt".to_string()), insecure_skip_tls_verify: None },
        }],
        contexts: vec![
            ContextEntry { name: "ctx".to_string(), context: ContextConfig { cluster: "c1".to_string(), user: "u1".to_string(), namespace: None } },
            ContextEntry { name: "other".to_string(), context: ContextConfig { cluster: "missing".to_string(), user: "u1".to_string(), namespace: Some("ns".to_string()) } },
            ContextEntry { name: "nouser".to_string(), context: ContextConfig { cluster: "c1".to_string(), user: "u2".to_string(), namespace: None } },
        ],
        current_context: current.to_string(),
        users: vec![UserEntry { name: "u1".to_string(), user: user(None, Some("tok")) }],
    }
}

#[test]
fn kube_paths() {
    assert_eq!(join_path("/home/a", ".kube/config"), "/home/a/.kube/config");
    assert_eq!(join_path("/home/a/", "x"), "/home/a/x");
    assert_eq!(join_path("", "x"), "x");
    assert_eq!(join_path("/home", "/etc/x"), "/etc/x");
    assert_eq!(resolve_path("/home/a/.kube/config", "ca.crt"), "/home/a/.kube/ca.crt");
    assert_eq!(resolve_path("config", "ca.crt"), "ca.crt");
    assert_eq!(resolve_path("/", "ca.crt"), "./ca.crt");
    assert_eq!(resolve_path("/x/config", "/abs"), "/abs");
    assert_eq!(kube_config_path(Some("/k".to_string()), Some("/home".to_string())), Some("/k".to_string()));
    assert_eq!(kube_config_path(None, Some("/home/a".to_string())), Some("/home/a/.kube/config".to_string()));
    assert_eq!(kube_config_path(None, None), None);
}

#[test]
fn kube_plan_chooses_current_context() {
    let plan = plan_kube_client(&config("ctx"), "/home/a/.kube/config").unwrap();
    assert_eq!(plan.server, "https://k:6443");
    assert_eq!(plan.namespace, "default");
    assert!(matches!(plan.certificate_authority, CaSource::File(ref p) if p == "/home/a/.kube/ca.crt"));
    assert!(matches!(plan.client_identity, IdentitySource::Files { ref cert, ref key } if cert == "/home/a/.kube/certs/c.pem" && key == "/abs/k.pem"));
    assert!(matches!(plan.token, TokenSource::File(ref p) if p == "/home/a/.kube/tok"));
    assert_eq!(plan.username.as_deref(), Some("u"));
    assert_eq!(plan.password, None);
    assert!(!plan.insecure_skip_tls_verify);
}

#[test]
fn kube_plan_errors() {
    let e = plan_kube_client(&config("nope"), "/c").unwrap_err();
    assert_eq!(e, KubeConfigError::ContextNotFound);
    assert_eq!(e.message(), "Current context not found in kubeconfig");
    let e = plan_kube_client(&config("other"), "/c").unwrap_err();
    assert_eq!(e.message(), "Cluster not found for context");
    let e = plan_kube_client(&config("nouser"), "/c").unwrap_err();
    assert_eq!(e.message(), "User not found for context");
    assert_eq!(KubeConfigError::InvalidBase64.message(), "Invalid base64 data");
}

#[test]
fn kube_inline_data_and_token() {
    let mut cfg = config("ctx");
    cfg.clusters[0].cluster.ca_data = Some("aGVsbG8=".to_string());
    cfg.clusters[0].cluster.insecure_skip_tls_verify = Some(true);
    cfg.users[0].user = UserConfig {
        client_cert_data: Some("Y2VydA==".to_string()),
        client_key_data: Some("a2V5".to_string()),
        client_cert_file: None,
        client_key_file: None,
        token: Some("secret".to_string()),
        token_file: Some("ignored".to_string()),
        username: None,
        password: None,
    };
    let plan = plan_kube_client(&cfg, "/c").unwrap();
    assert!(matches!(plan.certificate_authority, CaSource::Inline(ref d) if d == "aGVsbG8="));
    assert!(matches!(plan.client_identity, IdentitySource::Inline { .. }));
    assert!(matches!(plan.token, TokenSource::Literal(ref t) if t == "secret"));
    assert!(plan.insecure_skip_tls_verify);
    assert_eq!(decode_inline("aGVsbG8=").unwrap(), b"hello".to_vec());
    assert_eq!(decode_inline("not base64!"), Err(KubeConfigError::InvalidBase64));
}

#[test]
fn kube_client_settings() {
    let c = in_cluster_config("10.0.0.1", "443", " tok\n", vec![1, 2], "ns\n");
    assert_eq!(c.server, "https://10.0.0.1:443");
    assert_eq!(c.namespace, "ns");
    assert_eq!(c.token.as_deref(), Some("tok"));
    assert_eq!(c.certificate_authority, Some(vec![1, 2]));
    assert!(!c.insecure_skip_tls_verify);
    assert_eq!(auth_header(&c).as_deref(), Some("Bearer tok"));
    let basic = KubeClientConfig {
        server: String::new(),
        namespace: String::new(),
        token: None,
        certificate_authority: None,
        client_certificate: None,
        client_key: None,
        username: Some("u".to_string()),
        password: Some("p".to_string()),
        insecure_skip_tls_verify: false,
    };
    assert_eq!(auth_header(&basic).as_deref(), Some("Basic dTpw"));
    let none = KubeClientConfig { username: None, ..basic };
    assert_eq!(auth_header(&none), None);
    assert_eq!(pod_create_url("https://k", "ns"), "https://k/api/v1/namespaces/ns/pods");
    assert_eq!(trim_text("  a b \t"), "a b");
}

#[test]
fn kube_client_finished_from_plan() {
    let plan = plan_kube_client(&config("ctx"), "/home/a/.kube/config").unwrap();
    let ca = ca_bytes(&CaSource::Inline("aGVsbG8=".to_string()), None).unwrap();
    assert_eq!(ca, Some(b"hello".to_vec()));
    assert_eq!(ca_bytes(&CaSource::Inline("%%".to_string()), None), Err(KubeConfigError::InvalidBase64));
    assert_eq!(ca_bytes(&CaSource::File("/ca".to_string()), Some(vec![9])), Ok(Some(vec![9])));
    assert_eq!(ca_bytes(&CaSource::Absent, Some(vec![9])), Ok(None));
    let inline = IdentitySource::Inline { cert: "Y2VydA==".to_string(), key: "a2V5".to_string() };
    assert_eq!(identity_bytes(&inline, None), Ok((Some(b"cert".to_vec()), Some(b"key".to_vec()))));
    let bad = IdentitySource::Inline { cert: "Y2VydA==".to_string(), key: "!".to_string() };
    assert_eq!(identity_bytes(&bad, None), Err(KubeConfigError::InvalidBase64));
    let files = IdentitySource::Files { cert: "/c".to_string(), key: "/k".to_string() };
    assert_eq!(identity_bytes(&files, Some((vec![1], vec![2]))), Ok((Some(vec![1]), Some(vec![2]))));
    assert_eq!(token_text(&TokenSource::File("/t".to_string()), Some("  abc\n".to_string())), Some("abc".to_string()));
    assert_eq!(token_text(&TokenSource::Literal("lit".to_string()), Some("x".to_string())), Some("lit".to_string()));
    assert_eq!(token_text(&TokenSource::Absent, None), None);
    let server = plan.server.clone();
    let namespace = plan.namespace.clone();
    let c = finish_kube_client(plan, ca, Some(vec![1]), Some(vec![2]), Some("abc".to_string()));
    assert_eq!(c.server, server);
    assert_eq!(c.namespace, namespace);
    assert_eq!(c.token.as_deref(), Some("abc"));
    assert_eq!(c.certificate_authority, Some(b"hello".to_vec()));
    assert_eq!(c.client_certificate, Some(vec![1]));
    assert_eq!(c.username.as_deref(), Some("u"));
}

#[test]
fn trim_removes_unicode_white_space_only_at_the_ends() {
    assert_eq!(trim_text("\u{a0}\t a b \u{3000}\n"), "a b");
    assert_eq!(trim_text("   "), "");
    assert_eq!(trim_text(""), "");
    assert_eq!(trim_text("x"), "x");
    assert_eq!(trim_text(" é\u{2028}"), "é");
    assert_eq!(trim_text("\u{200b}z"), "\u{200b}z");
}
