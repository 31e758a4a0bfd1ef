use txn_workload::config::{ConfigError, ConfigType, GlobalConfig, SetGlobalConfig, ShowGlobalConfig};

#[test]
fn parse_config_type_names() {
    assert_eq!(ConfigType::parse(b"global"), Ok(ConfigType::Global));
    assert_eq!(ConfigType::parse(b"workspace"), Ok(ConfigType::Workspace));
    // Case and surrounding whitespace are ignored.
    assert_eq!(ConfigType::parse(b"  GLOBAL \n"), Ok(ConfigType::Global));
    assert_eq!(ConfigType::parse(b"\tWorkspace"), Ok(ConfigType::Workspace));
    assert_eq!(ConfigType::parse(b"remote"), Err(ConfigError::InvalidConfigType));
    assert_eq!(ConfigType::parse(b""), Err(ConfigError::InvalidConfigType));
}

#[test]
fn config_type_names_render() {
    assert_eq!(ConfigType::Global.name(), b"global".to_vec());
    assert_eq!(ConfigType::Workspace.name(), b"workspace".to_vec());
}

#[test]
fn workspace_is_the_default() {
    assert_eq!(ConfigType::default(), ConfigType::Workspace);
    assert_eq!(GlobalConfig::default().config_type, ConfigType::Workspace);
}

#[test]
fn save_renders_the_config_file() {
    let c = GlobalConfig { config_type: ConfigType::Workspace };
    assert_eq!(c.save(), b"config_type: workspace\n".to_vec());
    let c = GlobalConfig { config_type: ConfigType::Global };
    assert_eq!(c.save(), b"config_type: global\n".to_vec());
}

#[test]
fn load_parses_the_config_file() {
    // An absent file means the default configuration.
    assert_eq!(
        GlobalConfig::load(None),
        Ok(GlobalConfig { config_type: ConfigType::Workspace })
    );
    assert_eq!(
        GlobalConfig::load(Some(b"config_type: global\n")),
        Ok(GlobalConfig { config_type: ConfigType::Global })
    );
    // Leading whitespace and letter case in the value are accepted.
    assert_eq!(
        GlobalConfig::load(Some(b"\nconfig_type: Workspace\n")),
        Ok(GlobalConfig { config_type: ConfigType::Workspace })
    );
    assert_eq!(
        GlobalConfig::load(Some(b"flavour: vanilla\n")),
        Err(ConfigError::MalformedConfig)
    );
    assert_eq!(
        GlobalConfig::load(Some(b"config_type: cluster\n")),
        Err(ConfigError::InvalidConfigType)
    );
}

#[test]
fn save_then_load_round_trips() {
    for c in [
        GlobalConfig { config_type: ConfigType::Global },
        GlobalConfig { config_type: ConfigType::Workspace },
    ] {
        let bytes = c.save();
        assert_eq!(GlobalConfig::load(Some(bytes.as_slice())), Ok(c));
    }
}

#[test]
fn config_location_follows_the_config_type() {
    let global = GlobalConfig { config_type: ConfigType::Global };
    let workspace = GlobalConfig { config_type: ConfigType::Workspace };
    assert_eq!(
        global.get_config_location(Some(b"/home/user"), b"/work"),
        Ok(b"/home/user/.aptos".to_vec())
    );
    assert_eq!(
        global.get_config_location(None, b"/work"),
        Err(ConfigError::NoHomeDirectory)
    );
    // Workspace mode does not need a home directory.
    assert_eq!(
        workspace.get_config_location(None, b"/work"),
        Ok(b"/work/.aptos".to_vec())
    );
}

#[test]
fn set_global_config_keeps_unset_fields() {
    let loaded = GlobalConfig { config_type: ConfigType::Workspace };
    let set = SetGlobalConfig { config_type: Some(ConfigType::Global) };
    assert_eq!(set.apply(loaded).config_type, ConfigType::Global);
    let unset = SetGlobalConfig { config_type: None };
    assert_eq!(unset.apply(loaded).config_type, ConfigType::Workspace);
}

#[test]
fn show_global_config_loads() {
    let show = ShowGlobalConfig {};
    assert_eq!(
        show.execute(Some(b"config_type: global\n")),
        Ok(GlobalConfig { config_type: ConfigType::Global })
    );
    assert_eq!(
        show.execute(None),
        Ok(GlobalConfig { config_type: ConfigType::Workspace })
    );
}
