use gql_gateway::supervisor::{supervise, Directive, Launch, RouterEvent, RouterSettings};

#[test]
fn configured_binary_gets_default_arguments() {
    let settings = RouterSettings {
        binary: Some("/opt/router/bin/router".to_string()),
        listen: None,
        config: None,
        supergraph: None,
    };
    match settings.launch() {
        Launch::Binary { program, args } => {
            assert_eq!(program, "/opt/router/bin/router");
            assert_eq!(
                args,
                vec![
                    "--anonymous-telemetry-disabled".to_string(),
                    "--listen=127.0.0.1:4000".to_string(),
                    "--config=./router.yaml".to_string(),
                    "--supergraph=./supergraph.graphql".to_string(),
                ]
            );
        }
        Launch::Embedded => panic!("a binary was configured"),
    }
}

#[test]
fn settings_override_the_defaults() {
    let settings = RouterSettings {
        binary: Some("router".to_string()),
        listen: Some("0.0.0.0:4100".to_string()),
        config: Some("/etc/router.yaml".to_string()),
        supergraph: Some("/etc/schema.graphql".to_string()),
    };
    match settings.launch() {
        Launch::Binary { args, .. } => assert_eq!(
            args,
            vec![
                "--anonymous-telemetry-disabled".to_string(),
                "--listen=0.0.0.0:4100".to_string(),
                "--config=/etc/router.yaml".to_string(),
                "--supergraph=/etc/schema.graphql".to_string(),
            ]
        ),
        Launch::Embedded => panic!("a binary was configured"),
    }
}

#[test]
fn no_binary_means_embedded_router() {
    let settings = RouterSettings {
        binary: None,
        listen: Some("127.0.0.1:4000".to_string()),
        config: None,
        supergraph: None,
    };
    assert!(matches!(settings.launch(), Launch::Embedded));
}

#[test]
fn spawn_failure_terminates() {
    let event = RouterEvent::SpawnFailed {
        error: "No such file or directory: /does/not/exist/router".to_string(),
    };
    assert!(matches!(supervise(&event), Directive::Terminate));
}

#[test]
fn router_exit_terminates() {
    assert!(matches!(supervise(&RouterEvent::Exited { code: Some(0) }), Directive::Terminate));
    assert!(matches!(supervise(&RouterEvent::Exited { code: None }), Directive::Terminate));
}

#[test]
fn started_router_keeps_serving() {
    assert!(matches!(supervise(&RouterEvent::Started), Directive::KeepServing));
}

#[test]
fn forward_url_follows_the_listen_address() {
    let mut settings =
        RouterSettings { binary: None, listen: None, config: None, supergraph: None };
    assert_eq!(settings.forward_url(), "http://127.0.0.1:4000/");
    settings.listen = Some("127.0.0.1:4500".to_string());
    assert_eq!(settings.forward_url(), "http://127.0.0.1:4500/");
}
