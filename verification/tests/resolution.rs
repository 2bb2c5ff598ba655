use slacker::config::Config;
use slacker::endpoint::{Endpoint, UrlError};
use slacker::error::{ResolveError, EXIT_FAILURE, EXIT_SUCCESS};
use slacker::resolve::{expand_config_path, expand_home, select, Options, Source, DEFAULT_CONFIG};

fn pair(name: &str, url: &str) -> (String, String) {
    (name.to_string(), url.to_string())
}

#[test]
fn endpoint_is_kept_as_serialized() {
    let endpoint = Endpoint::parse("https://hooks.example/T/B/XYZ").unwrap();
    assert_eq!(endpoint.as_str(), "https://hooks.example/T/B/XYZ");
    assert_eq!(endpoint.clone().as_str(), "https://hooks.example/T/B/XYZ");
}

#[test]
fn endpoint_is_normalized_by_the_parser() {
    assert_eq!(Endpoint::parse("https://d.example").unwrap().as_str(), "https://d.example/");
    assert_eq!(Endpoint::parse("HTTP://Example.COM/a b").unwrap().as_str(), "http://example.com/a%20b");
}

#[test]
fn endpoint_may_be_plain_http() {
    assert_eq!(Endpoint::parse("http://localhost:8080/hook").unwrap().as_str(), "http://localhost:8080/hook");
}

#[test]
fn endpoint_refuses_what_is_no_url() {
    match Endpoint::parse("not a url") {
        Err(UrlError::Malformed { reason }) => assert_eq!(reason, "relative URL without a base"),
        other => panic!("{:?}", other),
    }
    assert!(matches!(Endpoint::parse(""), Err(UrlError::Malformed { .. })));
    assert!(matches!(Endpoint::parse("https://"), Err(UrlError::Malformed { .. })));
    assert!(matches!(Endpoint::parse("/just/a/path"), Err(UrlError::Malformed { .. })));
}

#[test]
fn endpoint_refuses_other_schemes() {
    match Endpoint::parse("ftp://files.example/x") {
        Err(UrlError::UnsupportedScheme { url }) => assert_eq!(url, "ftp://files.example/x"),
        other => panic!("{:?}", other),
    }
    assert!(matches!(Endpoint::parse("mailto:a@b.example"), Err(UrlError::UnsupportedScheme { .. })));
    assert!(matches!(Endpoint::parse("httpx://a.example"), Err(UrlError::UnsupportedScheme { .. })));
}

#[test]
fn url_error_in_words() {
    let error = Endpoint::parse("ftp://files.example/x").unwrap_err();
    assert_eq!(error.message(), "URL scheme is not http or https: ftp://files.example/x");
    let error = Endpoint::parse("nothing").unwrap_err();
    assert_eq!(error.message(), "relative URL without a base");
}

#[test]
fn empty_config_has_nothing() {
    let config = Config::new();
    assert!(config.default_hook().is_none());
    assert!(config.hook("alerts").is_none());
}

#[test]
fn config_from_raw_values() {
    let hooks = vec![pair("alerts", "https://a.example"), pair("dev", "https://d.example")];
    let config = Config::from_raw(Some("https://hooks.example/T/B/XYZ"), &hooks).unwrap();
    assert_eq!(config.default_hook().unwrap().as_str(), "https://hooks.example/T/B/XYZ");
    assert_eq!(config.hook("alerts").unwrap().as_str(), "https://a.example/");
    assert_eq!(config.hook("dev").unwrap().as_str(), "https://d.example/");
    assert!(config.hook("missing").is_none());
    assert!(config.hook("").is_none());
    assert!(config.hook("Dev").is_none());
}

#[test]
fn config_without_default() {
    let config = Config::from_raw(None, &vec![pair("alerts", "https://a.example")]).unwrap();
    assert!(config.default_hook().is_none());
    assert_eq!(config.hook("alerts").unwrap().as_str(), "https://a.example/");
}

#[test]
fn config_refuses_a_default_that_is_no_url() {
    match Config::from_raw(Some("nowhere"), &vec![pair("alerts", "https://a.example")]) {
        Err(ResolveError::InvalidUrl { key, error }) => {
            assert_eq!(key, "slack_hook");
            assert!(matches!(error, UrlError::Malformed { .. }));
        }
        other => panic!("{:?}", other),
    }
}

#[test]
fn config_refuses_a_named_hook_that_is_no_url() {
    let hooks = vec![pair("alerts", "https://a.example"), pair("dev", "ftp://d.example"), pair("ops", "?")];
    match Config::from_raw(Some("https://hooks.example/"), &hooks) {
        Err(ResolveError::InvalidUrl { key, error }) => {
            assert_eq!(key, "hooks.dev");
            assert!(matches!(error, UrlError::UnsupportedScheme { .. }));
        }
        other => panic!("{:?}", other),
    }
}

#[test]
fn config_reports_the_default_before_the_table() {
    match Config::from_raw(Some("nowhere"), &vec![pair("dev", "nothing")]) {
        Err(ResolveError::InvalidUrl { key, .. }) => assert_eq!(key, "slack_hook"),
        other => panic!("{:?}", other),
    }
}

#[test]
fn later_entry_of_a_name_replaces_the_earlier() {
    let hooks = vec![pair("dev", "https://one.example"), pair("ops", "https://o.example"), pair("dev", "https://two.example")];
    let config = Config::from_raw(None, &hooks).unwrap();
    assert_eq!(config.hook("dev").unwrap().as_str(), "https://two.example/");
    assert_eq!(config.hook("ops").unwrap().as_str(), "https://o.example/");
}

#[test]
fn config_built_step_by_step() {
    let config = Config::new()
        .with_hook("dev".to_string(), Endpoint::parse("https://d.example").unwrap())
        .with_default(Endpoint::parse("https://hooks.example/x").unwrap())
        .with_hook("dev".to_string(), Endpoint::parse("https://e.example").unwrap())
        .with_default(Endpoint::parse("https://hooks.example/y").unwrap());
    assert_eq!(config.default_hook().unwrap().as_str(), "https://hooks.example/y");
    assert_eq!(config.hook("dev").unwrap().as_str(), "https://e.example/");
}

#[test]
fn default_hook_is_selected_without_a_name() {
    let hooks = vec![pair("alerts", "https://a.example")];
    let config = Config::from_raw(Some("https://hooks.example/T/B/XYZ"), &hooks).unwrap();
    assert_eq!(select(&config, None).unwrap().as_str(), "https://hooks.example/T/B/XYZ");
}

#[test]
fn named_hook_is_selected() {
    let hooks = vec![pair("alerts", "https://a.example"), pair("dev", "https://d.example")];
    let config = Config::from_raw(None, &hooks).unwrap();
    assert_eq!(select(&config, Some("dev")).unwrap().as_str(), "https://d.example/");
    assert_eq!(select(&config, Some("alerts")).unwrap().as_str(), "https://a.example/");
}

#[test]
fn named_hook_wins_over_the_default() {
    let hooks = vec![pair("dev", "https://d.example")];
    let config = Config::from_raw(Some("https://hooks.example/"), &hooks).unwrap();
    assert_eq!(select(&config, Some("dev")).unwrap().as_str(), "https://d.example/");
}

#[test]
fn unknown_name_is_an_error() {
    let config = Config::from_raw(None, &vec![pair("alerts", "https://a.example")]).unwrap();
    match select(&config, Some("missing")) {
        Err(error) => {
            assert!(matches!(&error, ResolveError::UnknownHook { name } if name == "missing"));
            assert_eq!(error.message(), "Could not find Slack Webhook 'missing'");
        }
        Ok(endpoint) => panic!("{:?}", endpoint),
    }
}

#[test]
fn name_without_a_table_is_an_error() {
    let config = Config::from_raw(Some("https://hooks.example/"), &Vec::new()).unwrap();
    match select(&config, Some("dev")) {
        Err(error) => assert_eq!(error.message(), "Could not find Slack Webhook 'dev'"),
        Ok(endpoint) => panic!("{:?}", endpoint),
    }
}

#[test]
fn missing_default_is_an_error() {
    let config = Config::from_raw(None, &Vec::new()).unwrap();
    match select(&config, None) {
        Err(error) => {
            assert!(matches!(error, ResolveError::MissingDefault));
            assert_eq!(error.message(), "Missing default Slack Webhook");
        }
        Ok(endpoint) => panic!("{:?}", endpoint),
    }
    let named_only = Config::from_raw(None, &vec![pair("alerts", "https://a.example")]).unwrap();
    assert!(matches!(select(&named_only, None), Err(ResolveError::MissingDefault)));
}

#[test]
fn resolve_errors_in_words() {
    assert_eq!(ResolveError::NoHome.message(), "Failed to read config (Home directory not found)");
    assert_eq!(
        ResolveError::Unreadable { detail: "No such file or directory (os error 2)".to_string() }.message(),
        "Failed to read config (No such file or directory (os error 2))"
    );
    let error = Config::from_raw(None, &vec![pair("dev", "ftp://d.example/")]).unwrap_err();
    assert_eq!(
        error.message(),
        "Failed to read config (invalid URL for hooks.dev: URL scheme is not http or https: ftp://d.example/)"
    );
    let error = Config::from_raw(Some("x"), &Vec::new()).unwrap_err();
    assert_eq!(error.message(), "Failed to read config (invalid URL for slack_hook: relative URL without a base)");
}

#[test]
fn exit_codes() {
    assert_eq!(EXIT_SUCCESS, 0);
    assert_eq!(EXIT_FAILURE, 1);
}

#[test]
fn home_prefix_is_replaced() {
    assert_eq!(expand_home("~/x", Some("/h")).unwrap(), "/h/x");
    assert_eq!(expand_home("~/.config/slacker.conf", Some("/home/alice")).unwrap(), "/home/alice/.config/slacker.conf");
    assert_eq!(expand_home("~/", Some("/h")).unwrap(), "/h/");
}

#[test]
fn other_paths_pass_through() {
    assert_eq!(expand_home("/etc/slacker.conf", Some("/h")).unwrap(), "/etc/slacker.conf");
    assert_eq!(expand_home("/etc/slacker.conf", None).unwrap(), "/etc/slacker.conf");
    assert_eq!(expand_home("relative/slacker.conf", Some("/h")).unwrap(), "relative/slacker.conf");
    assert_eq!(expand_home("~", Some("/h")).unwrap(), "~");
    assert_eq!(expand_home("~user/x", Some("/h")).unwrap(), "~user/x");
    assert_eq!(expand_home("a/~/x", Some("/h")).unwrap(), "a/~/x");
    assert_eq!(expand_home("", Some("/h")).unwrap(), "");
}

#[test]
fn home_prefix_without_home_is_an_error() {
    assert!(matches!(expand_home("~/x", None), Err(ResolveError::NoHome)));
}

#[test]
fn config_path_without_home_prefix_needs_no_home() {
    assert_eq!(expand_config_path("/nonexistent").unwrap(), "/nonexistent");
    assert_eq!(expand_config_path("~").unwrap(), "~");
}

#[test]
fn config_path_below_home_keeps_its_tail() {
    match expand_config_path("~/.config/slacker.conf") {
        Ok(path) => {
            assert!(path.ends_with("/.config/slacker.conf"));
            assert!(!path.starts_with("~"));
        }
        Err(error) => assert!(matches!(error, ResolveError::NoHome)),
    }
}

#[test]
fn default_config_path() {
    assert_eq!(DEFAULT_CONFIG, "~/.config/slacker.conf");
}

#[test]
fn url_on_the_command_line_needs_no_config() {
    let options = Options {
        config: "/nonexistent".to_string(),
        url: Some(Endpoint::parse("https://direct.example/W").unwrap()),
        name: None,
        no_rate_limit: false,
    };
    match options.source() {
        Ok(Source::Direct { endpoint }) => assert_eq!(endpoint.as_str(), "https://direct.example/W"),
        other => panic!("{:?}", other),
    }
}

#[test]
fn url_on_the_command_line_wins_over_a_name() {
    let options = Options {
        config: "~/.config/slacker.conf".to_string(),
        url: Some(Endpoint::parse("https://direct.example/W").unwrap()),
        name: Some("dev".to_string()),
        no_rate_limit: true,
    };
    assert!(matches!(options.source(), Ok(Source::Direct { .. })));
}

#[test]
fn without_url_the_config_is_read() {
    let options = Options {
        config: "/etc/slacker.conf".to_string(),
        url: None,
        name: Some("dev".to_string()),
        no_rate_limit: false,
    };
    match options.source() {
        Ok(Source::ConfigFile { path }) => assert_eq!(path, "/etc/slacker.conf"),
        other => panic!("{:?}", other),
    }
}
