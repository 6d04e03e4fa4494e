use term_dashboard::sources_manager::{ChatSource, SourceError, SourcesManager};

struct MockSource {
    id: String,
    name: String,
    connected: bool,
}

impl ChatSource for MockSource {
    fn source_id(&self) -> &str {
        &self.id
    }

    fn source_name(&self) -> &str {
        &self.name
    }

    fn is_connected(&self) -> bool {
        self.connected
    }
}

fn mock(id: &str, name: &str, connected: bool) -> MockSource {
    MockSource { id: id.to_string(), name: name.to_string(), connected }
}

#[test]
fn test_new_manager() {
    let manager: SourcesManager<MockSource> = SourcesManager::new();
    assert_eq!(manager.count(), 0);
    assert!(manager.is_empty());
}

#[test]
fn test_register_source() {
    let mut manager = SourcesManager::new();
    let source = mock("test", "Test", true);
    let result = manager.register(source);
    assert!(result.is_ok());
    assert_eq!(manager.count(), 1);
    assert!(manager.has_source("test"));
}

#[test]
fn test_register_duplicate() {
    let mut manager = SourcesManager::new();
    let source1 = mock("test", "Test", true);
    let source2 = mock("test", "Test", true);
    manager.register(source1).unwrap();
    let result = manager.register(source2);
    assert!(result.is_err());
    assert_eq!(manager.count(), 1);
}

#[test]
fn test_unregister() {
    let mut manager = SourcesManager::new();
    let source = mock("test", "Test", true);
    manager.register(source).unwrap();
    assert_eq!(manager.count(), 1);
    let result = manager.unregister("test");
    assert!(result.is_ok());
    assert_eq!(manager.count(), 0);
}

#[test]
fn test_list_sources() {
    let mut manager = SourcesManager::new();
    manager.register(mock("telegram", "Telegram", true)).unwrap();
    manager.register(mock("signal", "Signal", false)).unwrap();
    let sources = manager.list_sources();
    assert_eq!(sources.len(), 2);
    assert_eq!(sources[0].id, "signal");
    assert_eq!(sources[1].id, "telegram");
    assert!(sources[1].is_connected);
    assert!(!sources[0].is_connected);
}

#[test]
fn sources_stay_ordered_and_lookups_check_connection() {
    let mut manager = SourcesManager::new();
    for id in ["whatsapp", "matrix", "signal", "telegram", "sig"] {
        manager.register(mock(id, id, id != "matrix")).unwrap();
    }
    let ids: Vec<String> = manager.list_sources().into_iter().map(|s| s.id).collect();
    assert_eq!(ids, vec!["matrix", "sig", "signal", "telegram", "whatsapp"]);
    assert_eq!(manager.unregister("nope"), Err(SourceError::NotFound));
    assert_eq!(manager.connected_source("nope").err(), Some(SourceError::NotFound));
    assert_eq!(manager.connected_source("matrix").err(), Some(SourceError::NotConnected));
    assert_eq!(manager.connected_source("sig").unwrap().source_name(), "sig");
    manager.unregister("signal").unwrap();
    assert!(!manager.has_source("signal"));
    assert!(manager.has_source("sig"));
    assert_eq!(manager.register(mock("sig", "again", true)), Err(SourceError::AlreadyRegistered));
}
