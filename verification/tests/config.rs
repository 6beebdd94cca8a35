use jimo::conf::{JimoConfError, JimoConfStorageBuilder, JimoConfStorageError, JimoFigmentStorage};
use jimo::server::{JimoPluginKey, PluginConfig, ServerConfig};

#[test]
fn builder_needs_a_path() {
    match JimoFigmentStorage::builder().build() {
        Err(JimoConfStorageError::Any(m)) => assert_eq!(m, "path is required"),
        Ok(_) => panic!("expected an error"),
    }
    let s = JimoFigmentStorage::builder().path("a.toml").path("jimo.toml").build().ok().unwrap();
    assert_eq!(s.path(), "jimo.toml");
    assert!(JimoConfStorageBuilder::default().build().is_err());
}

#[test]
fn item_not_found_names_the_item() {
    match JimoConfError::item_not_found("server") {
        JimoConfError::ItemNotFound(n) => assert_eq!(n, "server"),
        _ => panic!("wrong variant"),
    }
}

#[test]
fn server_address_joins_host_and_port() {
    assert_eq!(ServerConfig::new("127.0.0.1".into(), 8080).addr(), "127.0.0.1:8080");
    assert_eq!(ServerConfig::new("0.0.0.0".into(), 0).addr(), "0.0.0.0:0");
    assert_eq!(ServerConfig::new("h".into(), 65535).addr(), "h:65535");
    assert_eq!(ServerConfig::new("h".into(), 10).addr(), "h:10");
    let c = ServerConfig::new("h".into(), 7);
    assert_eq!((c.host(), c.port()), ("h", 7));
}

#[test]
fn plugin_config_path() {
    assert_eq!(PluginConfig::new("/plugins".into()).path(), "/plugins");
    assert_eq!(JimoPluginKey("p".into()).clone().0, "p");
}
