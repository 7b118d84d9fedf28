use rust2uml::{command_to_config, Cli, Config, ConfigCell};

fn no_overrides() -> Cli {
    Cli {
        exclude_fields: false,
        exclude_methods: false,
        include_impls: false,
        struct_header_bgcolor: None,
        struct_fields_bgcolor: None,
        struct_method_bgcolor: None,
        struct_impl_bgcolor: None,
        enum_header_bgcolor: None,
        enum_fields_bgcolor: None,
        enum_method_bgcolor: None,
        enum_impl_bgcolor: None,
        trait_header_bgcolor: None,
        trait_method_bgcolor: None,
        trait_impl_bgcolor: None,
        src_url_mask: None,
        font: None,
    }
}

#[test]
fn defaults_match_the_stock_configuration() {
    let config = command_to_config(&no_overrides());
    assert!(config.include_fields);
    assert!(config.include_methods);
    assert!(!config.include_implems);
    assert_eq!(config.struct_header_bgcolor, "lightblue");
    assert_eq!(config.enum_header_bgcolor, "yellow");
    assert_eq!(config.trait_header_bgcolor, "lightgreen");
    assert_eq!(config.struct_fields_bgcolor, "white");
    assert_eq!(config.font_name, "Arial");
    assert_eq!(config.src_url_mask, "");
}

#[test]
fn overrides_apply_and_none_mask_disables_links() {
    let mut args = no_overrides();
    args.exclude_fields = true;
    args.include_impls = true;
    args.trait_header_bgcolor = Some("gray".to_string());
    args.font = Some("Courier".to_string());
    args.src_url_mask = Some("none".to_string());
    let config = command_to_config(&args);
    assert!(!config.include_fields);
    assert!(config.include_implems);
    assert_eq!(config.trait_header_bgcolor, "gray");
    assert_eq!(config.font_name, "Courier");
    assert_eq!(config.src_url_mask, "");

    let mut args = no_overrides();
    args.src_url_mask = Some("http://host/{file}".to_string());
    let config = command_to_config(&args);
    assert_eq!(config.src_url_mask, "http://host/{file}");
}

#[test]
fn config_slot_is_set_once_and_read_back() {
    let mut cell = ConfigCell::new();
    let mut config = Config::default();
    config.font_name = "Courier".to_string();
    Config::set_global(config, &mut cell);
    let read = Config::global(&cell);
    assert_eq!(read.font_name, "Courier");
    assert_eq!(read.struct_header_bgcolor, "lightblue");
}
