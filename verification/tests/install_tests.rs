use hlsl_validator::install::{
    configured_path, dxc_locations, is_dxc_asset, server_env, validator_asset_names, validator_binary_name,
    validator_locations, Architecture, Os,
};

#[test]
fn configured_path_takes_the_first_non_blank_value_trimmed() {
    assert_eq!(configured_path(&[None, Some("   ".to_string()), Some("  C:/dxc/dxc.exe ".to_string())]), Some("C:/dxc/dxc.exe".to_string()));
    assert_eq!(configured_path(&[Some("".to_string()), None]), None);
    assert_eq!(configured_path(&[]), None);
}

#[test]
fn dxc_assets_by_platform() {
    assert!(is_dxc_asset("dxc_2024_07_31.zip", Os::Windows));
    assert!(!is_dxc_asset("dxc_2024_07_31_pdb.zip", Os::Windows));
    assert!(!is_dxc_asset("linux_dxc_2024_07_31.x86_64.tar.gz", Os::Windows));
    assert!(is_dxc_asset("linux_dxc_2024_07_31.x86_64.tar.gz", Os::Linux));
    assert!(is_dxc_asset("linux_dxc_2024.tgz", Os::Linux));
    assert!(!is_dxc_asset("dxc_2024_07_31.zip", Os::Linux));
}

#[test]
fn dxc_release_layout() {
    assert_eq!(dxc_locations("dxc-v1.8", Os::Windows, Architecture::Aarch64), ("dxc-v1.8/bin/arm64/dxc.exe".to_string(), "dxc.exe"));
    assert_eq!(dxc_locations("dxc-v1.8", Os::Windows, Architecture::X8664), ("dxc-v1.8/bin/x64/dxc.exe".to_string(), "dxc.exe"));
    assert_eq!(dxc_locations("dxc-v1.8", Os::Linux, Architecture::X8664), ("dxc-v1.8/bin/dxc".to_string(), "dxc"));
}

#[test]
fn validator_release_names_and_layout() {
    assert_eq!(validator_binary_name(Os::Windows), "hlsl_validator.exe");
    assert_eq!(validator_binary_name(Os::Mac), "hlsl_validator");
    assert_eq!(validator_asset_names(Architecture::X8664, Os::Linux), ("hlsl_validator-x86_64-linux.tar.gz".to_string(), None));
    assert_eq!(
        validator_asset_names(Architecture::Aarch64, Os::Windows),
        ("hlsl_validator-aarch64-windows.zip".to_string(), Some("hlsl_validator-x86_64-windows.zip"))
    );
    assert_eq!(
        validator_locations("hlsl_validator-v0.1.1", "hlsl_validator"),
        ("hlsl_validator-v0.1.1/hlsl_validator".to_string(), "hlsl_validator-v0.1.1/bin/hlsl_validator".to_string())
    );
}

#[test]
fn server_environment_names_the_compiler_and_the_root() {
    assert_eq!(
        server_env(Some("/usr/bin/dxc".to_string()), "/work".to_string()),
        vec![("DXC_PATH".to_string(), "/usr/bin/dxc".to_string()), ("WORKSPACE_ROOT".to_string(), "/work".to_string())]
    );
    assert_eq!(server_env(None, String::new()), Vec::<(String, String)>::new());
}
