use next_dev::client::{
    get_client_assets_path, get_client_chunking_context, get_client_compile_time_info,
    get_client_runtime_entries, get_defines, ClientContextType, DefineValue, NextMode,
    RuntimeEntry,
};

#[test]
fn node_env_follows_the_mode() {
    assert_eq!(NextMode::DevServer.node_env(), "development");
    assert_eq!(NextMode::Development.node_env(), "development");
    assert_eq!(NextMode::Build.node_env(), "production");
}

#[test]
fn dev_server_chunks_from_the_client_root() {
    let root = "/srv".to_string();
    let layout = get_client_chunking_context(NextMode::DevServer, &root);
    assert_eq!(layout.output_root, "/srv");
    assert_eq!(layout.chunk_root, "/srv/_next/static/chunks");
    assert_eq!(layout.asset_root, "/srv/_next/static/media");
    assert!(layout.hot_module_replacement);
    assert!(layout.chunk_base_path.is_none());
}

#[test]
fn production_build_nests_output_without_hot_reload() {
    let root = "/srv".to_string();
    let layout = get_client_chunking_context(NextMode::Build, &root);
    assert_eq!(layout.output_root, "/srv/_next");
    assert!(!layout.hot_module_replacement);
    assert_eq!(layout.chunk_base_path.as_deref(), Some("_next/"));
}

#[test]
fn development_keeps_hot_reload_with_nested_output() {
    let root = "/srv".to_string();
    let layout = get_client_chunking_context(NextMode::Development, &root);
    assert_eq!(layout.output_root, "/srv/_next");
    assert!(layout.hot_module_replacement);
    assert_eq!(layout.chunk_base_path.as_deref(), Some("_next/"));
}

#[test]
fn assets_live_under_static_media() {
    assert_eq!(get_client_assets_path(&"/srv".to_string()), "/srv/_next/static/media");
}

#[test]
fn defines_carry_the_mode_and_the_output_directory() {
    let defines = get_defines(NextMode::DevServer, Some("/out/.next".to_string()));
    assert_eq!(defines.len(), 6);
    assert_eq!(defines[0].name, "process.turbopack");
    assert!(matches!(defines[0].value, DefineValue::Flag(true)));
    assert_eq!(defines[1].name, "process.env.NODE_ENV");
    match &defines[1].value {
        DefineValue::Text(v) => assert_eq!(v, "development"),
        _ => panic!("the node environment is textual"),
    }
    assert_eq!(defines[2].name, "process.env.__NEXT_CLIENT_ROUTER_FILTER_ENABLED");
    assert!(matches!(defines[2].value, DefineValue::Flag(false)));
    assert_eq!(defines[3].name, "process.env.__NEXT_HAS_REWRITES");
    assert!(matches!(defines[3].value, DefineValue::Flag(true)));
    assert_eq!(defines[4].name, "process.env.__NEXT_I18N_SUPPORT");
    assert!(matches!(defines[4].value, DefineValue::Flag(false)));
    assert_eq!(defines[5].name, "process.env.__NEXT_DIST_DIR");
    match &defines[5].value {
        DefineValue::Text(v) => assert_eq!(v, "/out/.next"),
        _ => panic!("the output directory is textual"),
    }

    let without_dist = get_defines(NextMode::Build, None);
    assert_eq!(without_dist.len(), 5);
    match &without_dist[1].value {
        DefineValue::Text(v) => assert_eq!(v, "production"),
        _ => panic!("the node environment is textual"),
    }
}

#[test]
fn compile_time_info_targets_a_dom_browser() {
    let info = get_client_compile_time_info(
        NextMode::DevServer,
        "last 1 Chrome versions".to_string(),
        "/out/.next".to_string(),
    );
    assert!(info.environment.dom);
    assert!(!info.environment.web_worker);
    assert!(!info.environment.service_worker);
    assert_eq!(info.environment.browserslist_query, "last 1 Chrome versions");
    assert_eq!(info.defines.len(), 6);
}

#[test]
fn dev_server_pages_inject_env_then_refresh() {
    let entries = get_client_runtime_entries(
        &ClientContextType::Pages { pages_dir: "/p".to_string() },
        NextMode::DevServer,
        Some("@next/react-refresh-utils/dist/runtime".to_string()),
    );
    assert_eq!(entries.len(), 2);
    assert!(matches!(entries[0], RuntimeEntry::ProcessEnv));
    match &entries[1] {
        RuntimeEntry::Refresh { request } => {
            assert_eq!(request, "@next/react-refresh-utils/dist/runtime")
        }
        _ => panic!("the refresh runtime comes right after the environment"),
    }
}

#[test]
fn development_app_adds_its_bootstrap_after_refresh() {
    let entries = get_client_runtime_entries(
        &ClientContextType::App { app_dir: "/a".to_string() },
        NextMode::Development,
        Some("refresh".to_string()),
    );
    assert_eq!(entries.len(), 3);
    assert!(matches!(entries[0], RuntimeEntry::ProcessEnv));
    assert!(matches!(entries[1], RuntimeEntry::Refresh { .. }));
    match &entries[2] {
        RuntimeEntry::Bootstrap { request } => {
            assert_eq!(request, "next/dist/client/app-next-dev-turbopack.js")
        }
        _ => panic!("the app bootstrap comes last"),
    }
}

#[test]
fn production_builds_skip_refresh_and_bootstrap_by_context() {
    let app = get_client_runtime_entries(
        &ClientContextType::App { app_dir: "/a".to_string() },
        NextMode::Build,
        Some("refresh".to_string()),
    );
    assert_eq!(app.len(), 2);
    assert!(matches!(app[0], RuntimeEntry::ProcessEnv));
    match &app[1] {
        RuntimeEntry::Bootstrap { request } => assert_eq!(request, "./build/client/app-bootstrap.ts"),
        _ => panic!("a production app build bootstraps"),
    }

    let pages = get_client_runtime_entries(
        &ClientContextType::Pages { pages_dir: "/p".to_string() },
        NextMode::Build,
        None,
    );
    assert_eq!(pages.len(), 2);
    match &pages[1] {
        RuntimeEntry::Bootstrap { request } => assert_eq!(request, "./build/client/bootstrap.ts"),
        _ => panic!("a production pages build bootstraps"),
    }

    let other = get_client_runtime_entries(&ClientContextType::Other, NextMode::DevServer, None);
    assert!(other.is_empty());
}
