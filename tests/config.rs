use spx_supervisor::config::{config_text_for, configured_path};

#[test]
fn reads_spx_path_member() {
    assert_eq!(configured_path("{\"spxPath\": \"/srv/spx-server\"}"), Some("/srv/spx-server".to_string()));
    assert_eq!(configured_path("{\"other\": 1, \"spxPath\": \"C:\\\\spx\"}"), Some("C:\\spx".to_string()));
}

#[test]
fn rejects_bad_config() {
    assert_eq!(configured_path("not json"), None);
    assert_eq!(configured_path("{\"path\": \"/x\"}"), None);
    assert_eq!(configured_path("{\"spxPath\": 3}"), None);
    assert_eq!(configured_path("[\"spxPath\"]"), None);
    assert_eq!(configured_path(""), None);
}

#[test]
fn written_config_is_pretty_object() {
    assert_eq!(config_text_for("/x/spx-server"), Some("{\n  \"spxPath\": \"/x/spx-server\"\n}".to_string()));
}

#[test]
fn written_config_reads_back() {
    for p in ["/srv/spx-server", "C:\\Program Files\\SPX\\spx-server", "with \"quotes\" and ünïcode", ""] {
        let text = config_text_for(p).unwrap();
        assert_eq!(configured_path(&text), Some(p.to_string()));
    }
}
