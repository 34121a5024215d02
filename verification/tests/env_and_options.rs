use next_dev::decimal::u64_to_decimal;
use next_dev::envmap::{build_env_map, env_has, env_lookup, env_size, server_env_overrides};
use next_dev::options::{env_pairs, NapiEnvVar, NapiProjectOptions, ProjectOptions};
use next_dev::paths::{join_path, project_relative_path, starts_with_path};
use next_dev::startup::{internal_dir, parse_trace_preset, stats_type_for, StatsType, TracePreset};

#[test]
fn later_env_pairs_win() {
    let pairs = vec![
        ("A".to_string(), "1".to_string()),
        ("B".to_string(), "2".to_string()),
        ("A".to_string(), "3".to_string()),
    ];
    let m = build_env_map(&pairs);
    assert_eq!(env_size(&m), 2);
    assert_eq!(env_lookup(&m, &"A".to_string()).map(|v| v.as_str()), Some("3"));
    assert_eq!(env_lookup(&m, &"B".to_string()).map(|v| v.as_str()), Some("2"));
    assert!(env_lookup(&m, &"C".to_string()).is_none());
    assert!(env_has(&m, &"A".to_string()));
    assert!(!env_has(&m, &"C".to_string()));
}

#[test]
fn empty_env_list_gives_an_empty_map() {
    let m = build_env_map(&vec![]);
    assert_eq!(env_size(&m), 0);
    assert!(!env_has(&m, &"A".to_string()));
}

#[test]
fn server_env_publishes_the_bound_port() {
    let m = server_env_overrides(Some(8080)).expect("a bound port must be published");
    assert_eq!(env_size(&m), 1);
    assert_eq!(env_lookup(&m, &"PORT".to_string()).map(|v| v.as_str()), Some("8080"));
}

#[test]
fn server_env_without_a_port_passes_the_environment_through() {
    assert!(server_env_overrides(None).is_none());
}

#[test]
fn decimal_rendering_is_exact() {
    assert_eq!(u64_to_decimal(0), "0");
    assert_eq!(u64_to_decimal(7), "7");
    assert_eq!(u64_to_decimal(10), "10");
    assert_eq!(u64_to_decimal(65535), "65535");
    assert_eq!(u64_to_decimal(18446744073709551615), "18446744073709551615");
}

#[test]
fn options_convert_with_env_as_pairs() {
    let napi = NapiProjectOptions {
        root_path: "/work".to_string(),
        project_path: "/work/site".to_string(),
        dist_dir: Some(".dist".to_string()),
        watch: true,
        next_config: "{\"basePath\":\"\"}".to_string(),
        js_config: "{}".to_string(),
        env: vec![
            NapiEnvVar { name: "A".to_string(), value: "1".to_string() },
            NapiEnvVar { name: "B".to_string(), value: "2".to_string() },
        ],
        server_addr: "127.0.0.1:3000".to_string(),
    };
    let o = ProjectOptions::from_napi(napi);
    assert_eq!(o.root_path, "/work");
    assert_eq!(o.project_path, "/work/site");
    assert!(o.watch);
    assert_eq!(o.next_config, "{\"basePath\":\"\"}");
    assert_eq!(o.js_config, "{}");
    assert_eq!(
        o.env,
        vec![("A".to_string(), "1".to_string()), ("B".to_string(), "2".to_string())]
    );
    assert_eq!(o.server_addr, "127.0.0.1:3000");
}

#[test]
fn env_var_list_becomes_pairs_in_order() {
    let pairs = env_pairs(vec![
        NapiEnvVar { name: "X".to_string(), value: "x".to_string() },
        NapiEnvVar { name: "Y".to_string(), value: "y".to_string() },
    ]);
    assert_eq!(pairs, vec![("X".to_string(), "x".to_string()), ("Y".to_string(), "y".to_string())]);
}

#[test]
fn relative_path_is_the_part_below_the_root() {
    assert_eq!(
        project_relative_path(&"/work".to_string(), &"/work/site".to_string()),
        Some("site".to_string())
    );
    assert_eq!(
        project_relative_path(&"/work".to_string(), &"/work".to_string()),
        Some("".to_string())
    );
    assert_eq!(project_relative_path(&"/work".to_string(), &"/elsewhere/site".to_string()), None);
    assert_eq!(
        project_relative_path(&"/work/".to_string(), &"/work/site".to_string()),
        Some("site".to_string())
    );
}

#[test]
fn path_prefix_and_join() {
    assert!(starts_with_path(&"/work/site".to_string(), &"/work".to_string()));
    assert!(!starts_with_path(&"/wo".to_string(), &"/work".to_string()));
    assert_eq!(join_path(&"/out".to_string(), ".next"), "/out/.next");
}

#[test]
fn trace_presets_are_recognized() {
    assert!(matches!(parse_trace_preset("overview".to_string()), TracePreset::Overview));
    assert!(matches!(parse_trace_preset("next".to_string()), TracePreset::Next));
    assert!(matches!(parse_trace_preset("turbopack".to_string()), TracePreset::Turbopack));
    assert!(matches!(parse_trace_preset("turbo-tasks".to_string()), TracePreset::TurboTasks));
    match parse_trace_preset("next=trace,turbopack=info".to_string()) {
        TracePreset::Custom { filter } => assert_eq!(filter, "next=trace,turbopack=info"),
        _ => panic!("an unknown request is a custom filter"),
    }
}

#[test]
fn internal_dir_defaults_under_the_project() {
    assert_eq!(
        internal_dir(&"/work/site".to_string(), &Some(".dist".to_string())),
        "/work/site/.dist"
    );
    assert_eq!(internal_dir(&"/work/site".to_string(), &None), "/work/site/.next");
}

#[test]
fn stats_level_follows_the_option() {
    assert_eq!(stats_type_for(true), StatsType::Full);
    assert_eq!(stats_type_for(false), StatsType::Essential);
}
