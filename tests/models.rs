use blockless_drivers::models::{ModelUrl, Models, SecurityConfig};
use std::str::FromStr;

#[test]
fn test_model_parsing() {
    assert!(Models::from_str("Llama-3.2-1B-Instruct").is_ok());
    assert!(Models::from_str("Llama-3.2-1B-Instruct-Q6_K").is_ok());

    assert!(Models::from_str("Llama-3.2-3B-Instruct").is_ok());
    assert!(Models::from_str("Llama-3.2-3B-Instruct-Q6_K").is_ok());
    assert!(Models::from_str("unsupported-model").is_err());
}

#[test]
fn test_known_models() {
    // Known models should work without security validation
    assert!(Models::from_str("Llama-3.2-1B-Instruct").is_ok());
    assert!(Models::from_str("Llama-3.2-3B-Instruct").is_ok());
    assert!(Models::from_str("Mistral-7B-Instruct-v0.3").is_ok());
    assert!(Models::from_str("Mixtral-8x7B-Instruct-v0.1").is_ok());
    assert!(Models::from_str("gemma-2-2b-it").is_ok());

    // Quantized variants should also work
    assert!(Models::from_str("Llama-3.2-1B-Instruct-Q6_K").is_ok());
    assert!(Models::from_str("gemma-2-2b-it-q4f16_1").is_ok());
}

#[test]
fn test_valid_custom_urls() {
    // Valid custom URL should work
    let valid_url = "https://huggingface.co/Mozilla/Meta-Llama-3.1-8B-Instruct-llamafile/resolve/main/Meta-Llama-3.1-8B-Instruct.Q6_K.llamafile?download=true";
    let model = Models::from_str(valid_url).expect("Should parse valid URL");

    // Test model_file() extraction
    let file_name = model.model_file();
    assert_eq!(file_name, "Meta-Llama-3.1-8B-Instruct.Q6_K.llamafile");

    // Test subdomain support
    assert!(Models::from_str("https://files.huggingface.co/model.llamafile").is_ok());

    // Test GitHub domain
    assert!(
        Models::from_str("https://github.com/user/repo/releases/download/v1.0/model.llamafile")
            .is_ok()
    );

    // Test path normalization (should pass after normalization)
    assert!(Models::from_str("https://huggingface.co/model/../../../malicious.llamafile").is_ok());
}

#[test]
fn test_security_validations() {
    let config = SecurityConfig::default();

    // Test HTTPS requirement
    let http_url = ModelUrl::parse("http://huggingface.co/model.llamafile").unwrap();
    assert!(config.validate_model_url(&http_url).is_err());
    assert!(config.validate_model_url(&http_url).unwrap_err().contains("HTTPS"));

    // Test domain allowlisting
    let disallowed_url = ModelUrl::parse("https://malicious.com/model.llamafile").unwrap();
    assert!(config.validate_model_url(&disallowed_url).is_err());
    assert!(config
        .validate_model_url(&disallowed_url)
        .unwrap_err()
        .contains("Untrusted domain"));

    // Test file extension validation
    let invalid_ext_url = ModelUrl::parse("https://huggingface.co/malicious.exe").unwrap();
    assert!(config.validate_model_url(&invalid_ext_url).is_err());
    assert!(config
        .validate_model_url(&invalid_ext_url)
        .unwrap_err()
        .contains("Invalid file extension"));

    // Test filename security
    assert!(config.validate_filename("model.llamafile").is_ok());
    assert!(config.validate_filename("../model.llamafile").is_err());
    assert!(config.validate_filename("path/to/model.llamafile").is_err());
    assert!(config.validate_filename("").is_err());
    assert!(config.validate_filename("model\x00.llamafile").is_err());
}

#[test]
fn test_invalid_custom_urls() {
    // HTTP URL should fail
    assert!(Models::from_str("http://huggingface.co/model.llamafile").is_err());

    // Untrusted domain should fail
    assert!(Models::from_str("https://malicious.com/model.llamafile").is_err());

    // Invalid extension should fail
    assert!(Models::from_str("https://huggingface.co/malicious.exe").is_err());

    // URLs that normalize to invalid files should fail
    assert!(Models::from_str("https://huggingface.co/../../../etc/passwd").is_err());
    assert!(Models::from_str("https://huggingface.co/windows/system32/cmd.exe").is_err());
}

#[test]
fn security_policy_examples() {
    let accepted = "https://huggingface.co/Mozilla/x/resolve/main/model.llamafile";
    assert!(Models::parse(accepted).is_ok());
    assert_eq!(
        Models::parse("http://huggingface.co/Mozilla/x/resolve/main/model.llamafile").unwrap_err(),
        "Only HTTPS URLs are allowed for security"
    );
    assert_eq!(
        Models::parse("https://malicious.example/model.llamafile").unwrap_err(),
        "Untrusted domain: malicious.example"
    );
    assert_eq!(Models::parse("https://huggingface.co/evil.exe").unwrap_err(), "Invalid file extension");
    // ".." that survives normalisation (inside a segment) is refused
    assert_eq!(
        Models::parse("https://huggingface.co/a..b/m.llamafile").unwrap_err(),
        "Path contains suspicious '..' segments"
    );
    assert_eq!(
        Models::parse("https://github.com/etc/x.llamafile").unwrap_err(),
        "Suspicious system path detected"
    );
    assert_eq!(Models::parse("https://evilhuggingface.co/m.llamafile").unwrap_err(), "Untrusted domain: evilhuggingface.co");
    assert_eq!(
        Models::parse("not a model").unwrap_err(),
        "Invalid model name or URL: not a model"
    );
}

#[test]
fn url_parts_come_from_the_parser() {
    let u = ModelUrl::parse("HTTPS://HuggingFace.CO/a/../b/Model.llamafile?x=1#f").unwrap();
    assert_eq!(u.scheme(), "https");
    assert_eq!(u.host_str(), Some("huggingface.co"));
    assert_eq!(u.path(), "/b/Model.llamafile");
    assert_eq!(u.as_str(), "https://huggingface.co/b/Model.llamafile?x=1#f");
    assert_eq!(u.last_segment(), Some("Model.llamafile".to_string()));
    assert!(ModelUrl::parse("no scheme here").is_none());
    let m = ModelUrl::parse("mailto:someone@example.com").unwrap();
    assert_eq!(m.last_segment(), None);
    assert_eq!(m.host_str(), None);
}

#[test]
fn filename_rules_in_order() {
    let config = SecurityConfig::default();
    assert_eq!(config.validate_filename("a\\b.llamafile").unwrap_err(), "Invalid filename: path traversal detected");
    assert_eq!(config.validate_filename("model.gguf").unwrap_err(), "Invalid file extension");
    assert_eq!(
        config.validate_filename("mo\u{85}del.llamafile").unwrap_err(),
        "Filename contains invalid control characters"
    );
    assert_eq!(config.validate_filename("model\u{7f}.llamafile").unwrap_err(), "Filename contains invalid control characters");
    let open = SecurityConfig { allowed_domains: vec![], require_https: false, allowed_file_extensions: vec![String::new()] };
    assert_eq!(open.validate_filename("").unwrap_err(), "Filename cannot be empty");
    assert!(open.validate_filename("x").is_ok());
}

#[test]
fn catalog_files_and_repositories() {
    let m = Models::parse("Llama-3.2-1B-Instruct").unwrap();
    assert_eq!(m.model_file(), "Llama-3.2-1B-Instruct.Q6_K.llamafile");
    assert_eq!(m.model_repo().unwrap(), "Mozilla/Llama-3.2-1B-Instruct-llamafile");
    assert_eq!(m.name(), "Llama-3.2-1B-Instruct");
    assert_eq!(
        m.download_url(),
        "https://huggingface.co/Mozilla/Llama-3.2-1B-Instruct-llamafile/resolve/main/Llama-3.2-1B-Instruct.Q6_K.llamafile?download=true"
    );
    let q = Models::parse("gemma-2-27b-it.q4f16_1").unwrap();
    assert_eq!(q.model_file(), "gemma-2-27b-it.q4f16_1");
    assert_eq!(q.model_repo().unwrap(), "Mozilla/gemma-2-27b-it-llamafile");
    let k = Models::parse("Llama-3.2-3B-Instruct_Q6_K").unwrap();
    assert_eq!(k.model_file(), "Llama-3.2-3B-Instruct.Q6_K");
    assert!(Models::parse("Mistral-7B-Instruct-v0.3_q4f16_1").is_err());
    assert!(Models::parse("gemma-2-9b-it-Q6_K").is_err());
    assert!(matches!(Models::parse("Mixtral-8x7B-Instruct-v0.1").unwrap(), Models::Mixtral8x7BInstructV01(None)));
    let u = Models::parse("https://github.com/o/r/releases/download/v1/x.llamafile").unwrap();
    assert_eq!(u.model_repo(), None);
    assert_eq!(u.model_file(), "x.llamafile");
    assert_eq!(u.download_url(), "https://github.com/o/r/releases/download/v1/x.llamafile");
}
