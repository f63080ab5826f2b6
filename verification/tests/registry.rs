use conductor::{default_port, Config, ManagedComposition, Registry, Worker};

fn sample(entries: &[(&str, &str)]) -> Config {
    let compositions: Vec<(String, String)> =
        entries.iter().map(|(n, w)| (n.to_string(), w.to_string())).collect();
    Config::new(default_port(), "s3cret".to_string(), None, None, compositions)
}

#[test]
fn default_port_is_8080() {
    assert_eq!(default_port(), 8080);
}

#[test]
fn config_keeps_its_parts() {
    let config = Config::new(9000, "tok".to_string(), Some(60), Some(3600), Vec::new());
    assert_eq!(config.port(), 9000);
    assert_eq!(config.token(), "tok");
    assert_eq!(config.force_update_interval(), Some(60));
    assert_eq!(config.prune_interval(), Some(3600));
    assert_eq!(config.registry().len(), 0);
}

#[test]
fn empty_registry_resolves_nothing() {
    let registry = Registry::new();
    assert_eq!(registry.len(), 0);
    assert!(registry.lookup("web").is_none());
    assert!(registry.lookup("").is_none());
}

#[test]
fn registry_resolves_each_declared_name() {
    let config = sample(&[("web", "/srv/web"), ("db", "/srv/db"), ("cache", "/srv/cache")]);
    let registry = config.registry();
    assert_eq!(registry.len(), 3);
    assert_eq!(registry.lookup("web").unwrap().work(), "/srv/web");
    assert_eq!(registry.lookup("db").unwrap().work(), "/srv/db");
    assert_eq!(registry.lookup("cache").unwrap().work(), "/srv/cache");
    assert!(registry.lookup("mail").is_none());
}

#[test]
fn registry_lookup_is_exact() {
    let config = sample(&[("web", "/srv/web")]);
    let registry = config.registry();
    assert!(registry.lookup("Web").is_none());
    assert!(registry.lookup("web ").is_none());
    assert!(registry.lookup("we").is_none());
    assert!(registry.lookup("/srv/web").is_none());
}

#[test]
fn registry_keeps_registration_order() {
    let config = sample(&[("web", "/srv/web"), ("db", "/srv/db"), ("cache", "/srv/cache")]);
    let registry = config.registry();
    assert_eq!(registry.entry_at(0).0, "web");
    assert_eq!(registry.entry_at(1).0, "db");
    assert_eq!(registry.entry_at(2).0, "cache");
    assert_eq!(registry.entry_at(1).1.work(), "/srv/db");
}

#[test]
fn insert_replaces_a_registered_name_in_place() {
    let mut registry = Registry::new();
    registry.insert("web".to_string(), ManagedComposition::new("/old".to_string()));
    registry.insert("db".to_string(), ManagedComposition::new("/srv/db".to_string()));
    registry.insert("web".to_string(), ManagedComposition::new("/new".to_string()));
    assert_eq!(registry.len(), 2);
    assert_eq!(registry.lookup("web").unwrap().work(), "/new");
    assert_eq!(registry.entry_at(0).0, "web");
    assert_eq!(registry.entry_at(1).0, "db");
}

#[test]
fn a_name_declared_twice_keeps_its_last_directory() {
    let config = sample(&[("web", "/first"), ("db", "/srv/db"), ("web", "/second")]);
    assert_eq!(config.registry().len(), 2);
    assert_eq!(config.registry().lookup("web").unwrap().work(), "/second");
}

#[test]
fn no_interval_plans_no_worker() {
    let config = Config::new(8080, "t".to_string(), None, None, Vec::new());
    assert!(config.workers().is_empty());
}

#[test]
fn each_interval_plans_its_worker() {
    let config = Config::new(8080, "t".to_string(), Some(30), None, Vec::new());
    assert_eq!(config.workers(), vec![Worker::RedeployAll { secs: 30 }]);
    let config = Config::new(8080, "t".to_string(), None, Some(600), Vec::new());
    assert_eq!(config.workers(), vec![Worker::Prune { secs: 600 }]);
    let config = Config::new(8080, "t".to_string(), Some(30), Some(600), Vec::new());
    assert_eq!(
        config.workers(),
        vec![Worker::RedeployAll { secs: 30 }, Worker::Prune { secs: 600 }]
    );
}
