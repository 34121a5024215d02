use next_dev::container::ProjectContainer;
use next_dev::error::SessionError;
use next_dev::route::{EndpointHandle, Entrypoints, Route};
use next_dev::options::ProjectOptions;

fn options(watch: bool, addr: &str) -> ProjectOptions {
    ProjectOptions {
        root_path: "/work".to_string(),
        project_path: "/work/site".to_string(),
        watch,
        next_config: "{}".to_string(),
        js_config: "{}".to_string(),
        env: vec![("NODE_OPTIONS".to_string(), "--inspect".to_string())],
        server_addr: addr.to_string(),
    }
}

#[test]
fn create_holds_the_whole_configuration() {
    let c = ProjectContainer::create(options(false, "127.0.0.1:3000"));
    assert_eq!(c.current_generation(), 0);
    let o = c.current_options();
    assert_eq!(o.root_path, "/work");
    assert_eq!(o.project_path, "/work/site");
    assert!(!o.watch);
    assert_eq!(o.server_addr, "127.0.0.1:3000");
}

#[test]
fn update_replaces_wholesale_and_bumps_the_generation() {
    let mut c = ProjectContainer::create(options(false, "127.0.0.1:3000"));
    let r = c.update(options(true, "127.0.0.1:4000"));
    assert!(r.is_ok());
    assert_eq!(c.current_generation(), 1);
    // The reader observes the new configuration in full, never a mix.
    let o = c.current_options();
    assert!(o.watch);
    assert_eq!(o.server_addr, "127.0.0.1:4000");
}

#[test]
fn rejected_update_changes_nothing() {
    let mut c = ProjectContainer::create(options(false, "127.0.0.1:3000"));
    let mut bad = options(true, "127.0.0.1:4000");
    bad.project_path = "/elsewhere/site".to_string();
    let r = c.update(bad);
    match r {
        Err(e) => {
            assert!(matches!(e, SessionError::ConfigurationRejected));
            assert_eq!(e.message(), "configuration rejected");
        }
        Ok(()) => panic!("a project outside the root must be rejected"),
    }
    // The old configuration stands, in full.
    assert_eq!(c.current_generation(), 0);
    let o = c.current_options();
    assert!(!o.watch);
    assert_eq!(o.server_addr, "127.0.0.1:3000");
}

#[test]
fn update_with_watch_invalidates_views_without_recreation() {
    // The engine recomputes the identifier set from the configuration.
    fn recompute(c: &ProjectContainer) -> Vec<String> {
        let o = c.current_options();
        if o.watch {
            vec!["app/page.js".to_string(), "app/layout.js".to_string()]
        } else {
            vec!["app/page.js".to_string()]
        }
    }

    let mut c = ProjectContainer::create(options(false, "127.0.0.1:3000"));
    assert!(c.hmr_identifiers_stale());
    assert!(c.hmr_identifiers().is_none());
    let v0 = recompute(&c);
    c.store_hmr_identifiers(v0);
    assert!(!c.hmr_identifiers_stale());
    assert_eq!(c.hmr_identifiers().unwrap().len(), 1);

    // Update to watch=true: the same container serves the new value after
    // one recomputation; no recreation is needed.
    assert!(c.update(options(true, "127.0.0.1:3000")).is_ok());
    assert!(c.hmr_identifiers_stale());
    assert!(c.hmr_identifiers().is_none());
    let v1 = recompute(&c);
    c.store_hmr_identifiers(v1);
    assert_eq!(c.hmr_identifiers().unwrap().len(), 2);
}

#[test]
fn entrypoint_reads_are_whole_snapshots() {
    let mut c = ProjectContainer::create(options(false, "127.0.0.1:3000"));
    assert!(c.entrypoints_stale());
    c.store_entrypoints(Entrypoints {
        routes: vec![(
            "/".to_string(),
            Route::Page {
                html_endpoint: EndpointHandle { id: 1 },
                data_endpoint: EndpointHandle { id: 2 },
            },
        )],
        middleware: None,
        pages_document_endpoint: EndpointHandle { id: 3 },
        pages_app_endpoint: EndpointHandle { id: 4 },
        pages_error_endpoint: EndpointHandle { id: 5 },
    });
    let read = c.entrypoints().expect("the view was just computed");
    assert_eq!(read.routes.len(), 1);
    assert_eq!(read.routes[0].0, "/");
    // An applied update leaves the view stale: no reader observes the old
    // set as current, and no mix of old and new is ever served.
    assert!(c.update(options(true, "127.0.0.1:3000")).is_ok());
    assert!(c.entrypoints().is_none());
}

#[test]
fn error_messages_are_flat_strings() {
    assert_eq!(
        SessionError::ComputeFailure { message: "engine gave up".to_string() }.message(),
        "engine gave up"
    );
    assert_eq!(SessionError::SinkClosed.message(), "delivery sink closed");
    assert_eq!(SessionError::StaleVersionMismatch.message(), "stale version mismatch");
    assert_eq!(
        SessionError::BindFailure { port: 3000, message: "address in use".to_string() }.message(),
        "address in use"
    );
}
