use anomaly_launcher::app_config::{
    AppConfig, AppConfigError, Renderer, ShadowMapSize, CONFIG_FILE,
};
use anomaly_launcher::toml_table::Item;

const RENDERERS: [Renderer; 4] = [Renderer::DX8, Renderer::DX9, Renderer::DX10, Renderer::DX11];

const SIZES: [ShadowMapSize; 5] = [
    ShadowMapSize::Size1536,
    ShadowMapSize::Size2048,
    ShadowMapSize::Size2560,
    ShadowMapSize::Size3072,
    ShadowMapSize::Size4096,
];

fn every_config() -> Vec<AppConfig> {
    let mut all = Vec::new();
    for renderer in RENDERERS {
        for shadow_map in SIZES {
            for bits in 0..8u8 {
                all.push(AppConfig {
                    renderer,
                    shadow_map,
                    use_avx: bits & 1 != 0,
                    debug: bits & 2 != 0,
                    prefetch_sounds: bits & 4 != 0,
                });
            }
        }
    }
    all
}

fn text(s: &str) -> Option<Item> {
    Some(Item::Text(s.to_string()))
}

fn flag(b: bool) -> Option<Item> {
    Some(Item::Flag(b))
}

const FULL: &str = "renderer = \"DX11\"\nuse_avx = false\nshadow_map = \"Size4096\"\ndebug = false\nprefetch_sounds = true\n";

#[test]
fn default_settings() {
    let config = AppConfig::default();
    assert_eq!(config.renderer, Renderer::DX10);
    assert_eq!(config.shadow_map, ShadowMapSize::Size2048);
    assert!(config.debug);
    assert!(config.use_avx);
    assert!(!config.prefetch_sounds);
}

#[test]
fn config_file_name() {
    assert_eq!(CONFIG_FILE, "launcherconfig.toml");
}

#[test]
fn every_record_survives_the_text() {
    let all = every_config();
    assert_eq!(all.len(), 160);
    for config in all {
        let written = config.to_toml().expect("a record renders");
        assert_eq!(AppConfig::from_toml(&written), Ok(config));
        assert_eq!(AppConfig::from_file_content(Some(&written)), Ok(config));
    }
}

#[test]
fn every_record_survives_the_table() {
    for config in every_config() {
        assert_eq!(AppConfig::from_table(&config.to_table()), Ok(config));
    }
}

#[test]
fn rendering_is_deterministic() {
    for config in every_config() {
        assert_eq!(config.to_toml(), config.to_toml());
    }
}

#[test]
fn default_renders_as_five_lines() {
    let written = AppConfig::default().to_toml().unwrap();
    assert_eq!(
        written,
        "debug = true\nprefetch_sounds = false\nrenderer = \"DX10\"\nshadow_map = \"Size2048\"\nuse_avx = true\n"
    );
}

#[test]
fn table_of_a_record_has_its_five_entries() {
    let config = AppConfig {
        renderer: Renderer::DX9,
        use_avx: false,
        shadow_map: ShadowMapSize::Size2560,
        debug: true,
        prefetch_sounds: true,
    };
    let table = config.to_table();
    assert_eq!(table.len(), 5);
    assert_eq!(table.get("renderer"), Some(&toml::Value::String("DX9".to_string())));
    assert_eq!(table.get("use_avx"), Some(&toml::Value::Boolean(false)));
    assert_eq!(table.get("shadow_map"), Some(&toml::Value::String("Size2560".to_string())));
    assert_eq!(table.get("debug"), Some(&toml::Value::Boolean(true)));
    assert_eq!(table.get("prefetch_sounds"), Some(&toml::Value::Boolean(true)));
}

#[test]
fn reads_a_hand_built_table() {
    let mut table = toml::Table::new();
    table.insert("renderer".to_string(), toml::Value::String("DX8".to_string()));
    table.insert("use_avx".to_string(), toml::Value::Boolean(true));
    table.insert("shadow_map".to_string(), toml::Value::String("Size1536".to_string()));
    table.insert("debug".to_string(), toml::Value::Boolean(false));
    assert_eq!(AppConfig::from_table(&table), Err(AppConfigError::BadStructure));
    table.insert("prefetch_sounds".to_string(), toml::Value::Boolean(false));
    assert_eq!(
        AppConfig::from_table(&table),
        Ok(AppConfig {
            renderer: Renderer::DX8,
            use_avx: true,
            shadow_map: ShadowMapSize::Size1536,
            debug: false,
            prefetch_sounds: false,
        })
    );
    table.insert("debug".to_string(), toml::Value::Integer(1));
    assert_eq!(AppConfig::from_table(&table), Err(AppConfigError::BadStructure));
}

#[test]
fn loads_a_full_file_in_any_key_order() {
    let expected = AppConfig {
        renderer: Renderer::DX11,
        use_avx: false,
        shadow_map: ShadowMapSize::Size4096,
        debug: false,
        prefetch_sounds: true,
    };
    assert_eq!(AppConfig::from_toml(FULL), Ok(expected));
    let shuffled = "prefetch_sounds = true\ndebug = false\nshadow_map = \"Size4096\"\nrenderer = \"DX11\"\nuse_avx = false\n";
    assert_eq!(AppConfig::from_toml(shuffled), Ok(expected));
}

#[test]
fn unknown_keys_are_not_looked_at() {
    let with_more = format!("{FULL}language = \"en\"\n\n[window]\nwidth = 510\n");
    assert_eq!(AppConfig::from_toml(&with_more), AppConfig::from_toml(FULL));
    assert!(AppConfig::from_toml(&with_more).is_ok());
}

#[test]
fn missing_file_is_read_failed() {
    assert_eq!(AppConfig::from_file_content(None), Err(AppConfigError::ReadFailed));
}

#[test]
fn file_content_is_loaded_as_its_text() {
    assert_eq!(AppConfig::from_file_content(Some(FULL)), AppConfig::from_toml(FULL));
    assert_eq!(AppConfig::from_file_content(Some("")), Err(AppConfigError::BadStructure));
}

#[test]
fn missing_debug_key_is_bad_structure() {
    let incomplete = "renderer = \"DX11\"\nuse_avx = false\nshadow_map = \"Size4096\"\nprefetch_sounds = true\n";
    assert_eq!(AppConfig::from_toml(incomplete), Err(AppConfigError::BadStructure));
}

#[test]
fn each_missing_key_is_bad_structure() {
    let lines: Vec<&str> = FULL.lines().collect();
    assert_eq!(lines.len(), 5);
    for skipped in 0..lines.len() {
        let mut partial = String::new();
        for (index, line) in lines.iter().enumerate() {
            if index != skipped {
                partial.push_str(line);
                partial.push('\n');
            }
        }
        assert_eq!(AppConfig::from_toml(&partial), Err(AppConfigError::BadStructure));
    }
}

#[test]
fn text_that_is_not_toml_is_bad_structure() {
    assert_eq!(AppConfig::from_toml("renderer = "), Err(AppConfigError::BadStructure));
    assert_eq!(AppConfig::from_toml("[[["), Err(AppConfigError::BadStructure));
    let doubled = format!("{FULL}debug = true\n");
    assert_eq!(AppConfig::from_toml(&doubled), Err(AppConfigError::BadStructure));
}

#[test]
fn values_of_the_wrong_kind_are_bad_structure() {
    let debug_as_text = FULL.replace("debug = false", "debug = \"false\"");
    assert_eq!(AppConfig::from_toml(&debug_as_text), Err(AppConfigError::BadStructure));
    let avx_as_number = FULL.replace("use_avx = false", "use_avx = 0");
    assert_eq!(AppConfig::from_toml(&avx_as_number), Err(AppConfigError::BadStructure));
    let renderer_as_flag = FULL.replace("renderer = \"DX11\"", "renderer = true");
    assert_eq!(AppConfig::from_toml(&renderer_as_flag), Err(AppConfigError::BadStructure));
}

#[test]
fn unknown_names_are_bad_structure() {
    let renderer = FULL.replace("DX11", "DX12");
    assert_eq!(AppConfig::from_toml(&renderer), Err(AppConfigError::BadStructure));
    let lower = FULL.replace("DX11", "dx11");
    assert_eq!(AppConfig::from_toml(&lower), Err(AppConfigError::BadStructure));
    let size = FULL.replace("Size4096", "4096");
    assert_eq!(AppConfig::from_toml(&size), Err(AppConfigError::BadStructure));
}

#[test]
fn from_entries_builds_the_record() {
    assert_eq!(
        AppConfig::from_entries(text("DX10"), flag(true), text("Size2048"), flag(true), flag(false)),
        Ok(AppConfig::default())
    );
    assert_eq!(
        AppConfig::from_entries(text("DX8"), flag(false), text("Size3072"), flag(false), flag(true)),
        Ok(AppConfig {
            renderer: Renderer::DX8,
            use_avx: false,
            shadow_map: ShadowMapSize::Size3072,
            debug: false,
            prefetch_sounds: true,
        })
    );
}

#[test]
fn from_entries_rejects_what_is_no_record() {
    let bad = Err(AppConfigError::BadStructure);
    assert_eq!(AppConfig::from_entries(None, flag(true), text("Size2048"), flag(true), flag(false)), bad);
    assert_eq!(AppConfig::from_entries(text("DX10"), None, text("Size2048"), flag(true), flag(false)), bad);
    assert_eq!(AppConfig::from_entries(text("DX10"), flag(true), None, flag(true), flag(false)), bad);
    assert_eq!(AppConfig::from_entries(text("DX10"), flag(true), text("Size2048"), None, flag(false)), bad);
    assert_eq!(AppConfig::from_entries(text("DX10"), flag(true), text("Size2048"), flag(true), None), bad);
    assert_eq!(
        AppConfig::from_entries(Some(Item::Other), flag(true), text("Size2048"), flag(true), flag(false)),
        bad
    );
    assert_eq!(
        AppConfig::from_entries(text("DX10"), text("true"), text("Size2048"), flag(true), flag(false)),
        bad
    );
    assert_eq!(
        AppConfig::from_entries(text("DX10"), flag(true), text("Size2049"), flag(true), flag(false)),
        bad
    );
    assert_eq!(
        AppConfig::from_entries(text(""), flag(true), text("Size2048"), flag(true), flag(false)),
        bad
    );
}

#[test]
fn renderer_names() {
    assert_eq!(Renderer::DX8.name(), "DX8");
    assert_eq!(Renderer::DX9.name(), "DX9");
    assert_eq!(Renderer::DX10.name(), "DX10");
    assert_eq!(Renderer::DX11.name(), "DX11");
    for renderer in RENDERERS {
        assert_eq!(Renderer::from_name(renderer.name()), Some(renderer));
    }
    assert_eq!(Renderer::from_name("DX"), None);
    assert_eq!(Renderer::from_name("DX110"), None);
    assert_eq!(Renderer::from_name("DirectX 8"), None);
}

#[test]
fn shadow_map_names() {
    assert_eq!(ShadowMapSize::Size1536.name(), "Size1536");
    assert_eq!(ShadowMapSize::Size2048.name(), "Size2048");
    assert_eq!(ShadowMapSize::Size2560.name(), "Size2560");
    assert_eq!(ShadowMapSize::Size3072.name(), "Size3072");
    assert_eq!(ShadowMapSize::Size4096.name(), "Size4096");
    for size in SIZES {
        assert_eq!(ShadowMapSize::from_name(size.name()), Some(size));
    }
    assert_eq!(ShadowMapSize::from_name("Size"), None);
    assert_eq!(ShadowMapSize::from_name("size2048"), None);
}

#[test]
fn labels() {
    assert_eq!(Renderer::DX8.label(), "DirectX 8");
    assert_eq!(Renderer::DX9.label(), "DirectX 9");
    assert_eq!(Renderer::DX10.label(), "DirectX 10");
    assert_eq!(Renderer::DX11.label(), "DirectX 11");
    assert_eq!(ShadowMapSize::Size1536.label(), "1536");
    assert_eq!(ShadowMapSize::Size2048.label(), "2048");
    assert_eq!(ShadowMapSize::Size2560.label(), "2560");
    assert_eq!(ShadowMapSize::Size3072.label(), "3072");
    assert_eq!(ShadowMapSize::Size4096.label(), "4096");
}
