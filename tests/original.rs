use ollama_ui::request::BenchConfig;

#[test]
fn test_basic_functionality() {
    assert_eq!(2 + 2, 4);
}

#[test]
fn test_model_types() {
    let q4_model = "qwen-contract:latest";
    let q5_model = "qwen-contract-q5:latest";

    assert!(q4_model.contains("contract"));
    assert!(q5_model.contains("contract"));
    assert!(q5_model.contains("q5"));

    let config = BenchConfig::new();
    assert_eq!(config.q4_model, q4_model);
    assert_eq!(config.q5_model, q5_model);
}
