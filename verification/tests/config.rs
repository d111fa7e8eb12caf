use tj2::config::meta::{check_path, sanitize_url_key, DotPath, Facts, MergeError, PathState, Quote, SrcFile};
use tj2::config::{
    ConfigFormat, ConfigLoader, DbShape, Listener, ListenerShape, LoadStep, Logging, Settings, SettingsShape,
    TlsShape, Verbosity,
};

fn empty_shape() -> SettingsShape {
    SettingsShape {
        preload: None,
        data: None,
        storage: None,
        thread_pool: None,
        blocking_pool: None,
        logging: None,
        listeners: None,
        assets: None,
        templates: None,
        db: None,
    }
}

#[test]
fn settings_defaults() {
    let settings = Settings::default_in("/srv");
    assert_eq!(settings.data, "/srv/data");
    assert_eq!(settings.storage, "/srv/storage");
    assert_eq!(settings.thread_pool, 1);
    assert_eq!(settings.blocking_pool, 1);
    assert!(settings.listeners.is_empty());
    assert_eq!(settings.db.user, "postgres");
    assert_eq!(settings.db.password, None);
    assert_eq!(settings.db.host, "localhost");
    assert_eq!(settings.db.port, 5432);
    assert_eq!(settings.db.dbname, "tj2");
}

fn shape_of(path: &str) -> SettingsShape {
    let mut shape = empty_shape();
    if path == "/srv/server.config.toml" {
        shape.preload = Some(vec![String::from("./frontend/assets.config.toml")]);
        shape.thread_pool = Some(2);
        shape.listeners = Some(vec![ListenerShape { addr: String::from("0.0.0.0:8080"), tls: None }]);
        shape.db = Some(DbShape { user: None, password: Some(String::from("password")), host: None, port: None, dbname: None });
    } else if path == "/srv/./frontend/assets.config.toml" {
        shape.thread_pool = Some(4);
        shape.blocking_pool = Some(3);
    } else {
        panic!("unexpected config file {path}");
    }
    shape
}

fn load(facts: &Facts) -> Result<Settings, MergeError> {
    let mut loader = ConfigLoader::new(Settings::default_in("/srv"));
    let first = ConfigLoader::first_path("/srv", "server.config.toml");
    let shape = shape_of(&first);
    loader.push_file(first, shape);
    loop {
        match loader.step(facts) {
            LoadStep::Load(path) => {
                let shape = shape_of(&path);
                loader.push_file(path, shape);
            }
            LoadStep::Merged => {}
            LoadStep::Done => return Ok(loader.into_settings()),
            LoadStep::Stop(err) => return Err(err),
        }
    }
}

#[test]
fn loading_preloads_first() {
    let mut facts = Facts::new();
    match load(&facts) {
        Err(MergeError::NeedAddr(addr)) => assert_eq!(addr, "0.0.0.0:8080"),
        other => panic!("expected the address to be asked for, got {other:?}"),
    }
    facts.addrs.push((String::from("0.0.0.0:8080"), Some(String::from("0.0.0.0:8080"))));
    let settings = load(&facts).unwrap();
    assert_eq!(settings.thread_pool, 2);
    assert_eq!(settings.blocking_pool, 3);
    assert_eq!(settings.db.password, Some(String::from("password")));
    assert_eq!(settings.db.user, "postgres");
    assert_eq!(settings.listeners.len(), 1);
    assert_eq!(settings.listeners[0].addr, "0.0.0.0:8080");
}

#[test]
fn invalid_listener_address_is_refused() {
    let mut facts = Facts::new();
    facts.addrs.push((String::from("0.0.0.0:8080"), None));
    assert!(matches!(load(&facts), Err(MergeError::Invalid(_))));
}

#[test]
fn config_format_by_extension() {
    assert_eq!(ConfigFormat::from_path("a/server.TOML").unwrap(), ConfigFormat::Toml);
    assert_eq!(ConfigFormat::from_path("a.yml").unwrap(), ConfigFormat::Yaml);
    assert_eq!(ConfigFormat::from_path("a.yaml").unwrap(), ConfigFormat::Yaml);
    assert_eq!(ConfigFormat::from_path("a.json").unwrap(), ConfigFormat::Json);
    assert!(ConfigFormat::from_path("a.ini").is_err());
    assert!(ConfigFormat::from_path("noext").is_err());
}

#[test]
fn source_files_and_paths() {
    let src = SrcFile::new("/etc/tj2/server.toml").unwrap();
    assert_eq!(src.normalize("data"), "/etc/tj2/data");
    assert_eq!(src.normalize("/abs"), "/abs");
    assert_eq!(src.display(), "\"/etc/tj2/server.toml\"");
    assert_eq!(Quote(String::from("x")).display(), "\"x\"");
    let dot = DotPath::new("settings").push("db").push("host");
    assert_eq!(dot.display(), "settings.db.host");
}

#[test]
fn paths_are_checked_against_facts() {
    let src = SrcFile::new("/etc/tj2/server.toml").unwrap();
    let dot = DotPath::new("settings");
    let mut facts = Facts::new();
    assert!(matches!(check_path("/etc/tj2/data", &src, &dot, false, &facts), Err(MergeError::NeedPath(_))));
    facts.paths.push((String::from("/etc/tj2/data"), PathState::Dir));
    assert!(check_path("/etc/tj2/data", &src, &dot, false, &facts).is_ok());
    assert!(check_path("/etc/tj2/data", &src, &dot, true, &facts).is_err());
}

#[test]
fn url_keys_are_sanitized() {
    let src = SrcFile::new("/etc/tj2/assets.toml").unwrap();
    let dot = DotPath::new("assets");
    assert_eq!(sanitize_url_key("/favicon.ico", &src, &dot).unwrap(), "/favicon.ico");
    assert_eq!(sanitize_url_key("  favicon.ico ", &src, &dot).unwrap(), "/favicon.ico");
}

#[test]
fn verbosity_names() {
    assert_eq!(Verbosity::Info.as_str(), "info");
    assert_eq!(Verbosity::Off.as_str(), "off");
}

#[test]
fn logging_directives_one_per_target() {
    let mut logging = Logging::default();
    logging.directives.insert("tj2".to_owned(), Verbosity::Info);
    logging.directives.insert("tower_http".to_owned(), Verbosity::Debug);
    logging.directives.insert("tj2".to_owned(), Verbosity::Trace);
    assert_eq!(
        logging.directive_texts(),
        vec!["tower_http=debug".to_owned(), "tj2=trace".to_owned()]
    );
    assert!(Logging::default().directive_texts().is_empty());
}

#[test]
fn merged_paths_resolve_against_the_file() {
    let src = SrcFile::new("/etc/tj2/server.toml").unwrap();
    let dot = DotPath::new("settings");
    let mut facts = Facts::new();
    facts.paths.push((String::from("/etc/tj2/data"), PathState::Dir));
    facts.paths.push((String::from("/var/tj2"), PathState::Dir));
    let mut settings = Settings::default_in("/srv");
    let mut shape = empty_shape();
    shape.data = Some(String::from("data"));
    shape.storage = Some(String::from("/var/tj2"));
    shape.thread_pool = Some(4);
    settings.merge(&src, &dot, shape, &facts).unwrap();
    assert_eq!(settings.data, "/etc/tj2/data");
    assert_eq!(settings.storage, "/var/tj2");
    assert_eq!(settings.thread_pool, 4);
    assert_eq!(settings.blocking_pool, 1);
    assert_eq!(settings.templates.directory, "/srv/templates");
}

#[test]
fn listener_tls_paths_resolve_against_the_config_file() {
    let src = SrcFile::new("/etc/tj2/server.toml").unwrap();
    let dot = DotPath::new("listeners");
    let mut facts = Facts::new();
    facts.addrs.push((String::from("[::]:8443"), Some(String::from("[::]:8443"))));
    let shape = || ListenerShape {
        addr: String::from("[::]:8443"),
        tls: Some(TlsShape { key: String::from("./certs/localhost.key"), cert: String::from("./certs/localhost.crt") }),
    };
    let mut listener = Listener::default();
    assert!(matches!(listener.merge(&src, &dot, shape(), &facts), Err(MergeError::NeedPath(_))));
    facts.paths.push((String::from("/etc/tj2/./certs/localhost.key"), PathState::File));
    facts.paths.push((String::from("/etc/tj2/./certs/localhost.crt"), PathState::File));
    let mut listener = Listener::default();
    listener.merge(&src, &dot, shape(), &facts).unwrap();
    assert_eq!(listener.addr, "[::]:8443");
    let tls = listener.tls.unwrap();
    assert_eq!(tls.key, "/etc/tj2/./certs/localhost.key");
    assert_eq!(tls.cert, "/etc/tj2/./certs/localhost.crt");
    let mut listener = Listener::default();
    listener.merge(&src, &dot, ListenerShape { addr: String::from("[::]:8443"), tls: None }, &facts).unwrap();
    assert!(listener.tls.is_none());
}
