use blockless_drivers::permissions::{DescriptorParserError, EnvCurrentDir, Permission, RuntimePermissionDescriptorParser};

#[test]
fn permission_prefix_ignores_ascii_case() {
    let p = Permission { url: "https://huggingface.co/".to_string(), schema: "https".to_string() };
    assert!(p.is_permision("HTTPS://HuggingFace.co/model"));
    assert!(!p.is_permision("https://github.com/"));
}

#[test]
fn parser_working_directory() {
    let p = RuntimePermissionDescriptorParser::new(EnvCurrentDir { current_dir: Some("/".to_string()) });
    assert_eq!(p.resolve_cwd().unwrap(), "/");
    let q = RuntimePermissionDescriptorParser::new(EnvCurrentDir { current_dir: None });
    assert_eq!(q.resolve_cwd().unwrap_err(), DescriptorParserError::CwdResolve);
    assert_eq!(DescriptorParserError::EmptyPath.message(), "Empty path");
    assert!(RuntimePermissionDescriptorParser::require_non_empty("", DescriptorParserError::EmptyEnvDescriptor).is_err());
    assert!(RuntimePermissionDescriptorParser::require_non_empty("HOME", DescriptorParserError::EmptyEnvDescriptor).is_ok());
}
