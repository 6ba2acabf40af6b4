use llm_term::model::Config;
use llm_term::model::Model;
use llm_term::model::parse_max_tokens;
use llm_term::model::parse_model_choice;
use llm_term::shell::Shell;

#[test]
fn model_names() {
    assert_eq!(Model::OpenAiGpt4o.get_model_name(), "gpt-4o");
    assert_eq!(Model::OpenAiGpt4oMini.get_model_name(), "gpt-4o-mini");
    assert_eq!(Model::Ollama(String::from("qwen2.5-coder")).get_model_name(), "qwen2.5-coder");
}

#[test]
fn model_endpoints() {
    assert_eq!(Model::OpenAiGpt4o.get_openai_endpoint(), "https://api.openai.com/v1/");
    assert_eq!(Model::OpenAiGpt4oMini.get_openai_endpoint(), "https://api.openai.com/v1/");
    assert_eq!(
        Model::Ollama(String::from("x")).get_openai_endpoint(),
        "http://localhost:11434/api/chat"
    );
}

#[test]
fn system_prompt_names_shell_and_os() {
    let p = Model::OpenAiGpt4o.get_system_prompt(&Shell::Zsh, "linux");
    assert!(p.starts_with("You are a professional IT automation specialist"));
    assert!(p.contains("a single valid Z Shell (zsh) command compatible with linux operating system."));
    assert!(p.contains("**If uncertain**, return empty string"));
    assert!(p.contains("Example BAD output: ```sh\nls -la\n```"));
    assert!(p.ends_with("Prioritize safety and accuracy above all."));

    let q = Model::OpenAiGpt4o.get_system_prompt(&Shell::Powershell, "windows");
    assert!(q.contains("a single valid Windows PowerShell command compatible with windows operating system."));
}

#[test]
fn model_choice_menu() {
    assert!(matches!(parse_model_choice("1\n"), Some(Model::OpenAiGpt4oMini)));
    assert!(matches!(parse_model_choice(" 2 "), Some(Model::OpenAiGpt4o)));
    match parse_model_choice("3") {
        Some(Model::Ollama(name)) => assert_eq!(name, "qwen2.5-coder"),
        other => panic!("expected the local model, got {:?}", other),
    }
    assert!(parse_model_choice("4").is_none());
    assert!(parse_model_choice("").is_none());
    assert!(parse_model_choice("one").is_none());
}

#[test]
fn token_budget_bounds() {
    assert_eq!(parse_max_tokens("1"), Some(1));
    assert_eq!(parse_max_tokens("4096"), Some(4096));
    assert_eq!(parse_max_tokens(" 42 \n"), Some(42));
    assert_eq!(parse_max_tokens("+7"), Some(7));
    assert_eq!(parse_max_tokens("0"), None);
    assert_eq!(parse_max_tokens("4097"), None);
    assert_eq!(parse_max_tokens("-5"), None);
    assert_eq!(parse_max_tokens("abc"), None);
    assert_eq!(parse_max_tokens(""), None);
    assert_eq!(parse_max_tokens("12a"), None);
    assert_eq!(parse_max_tokens("99999999999999999999"), None);
}

#[test]
fn config_accepts_only_budget_range() {
    assert!(Config::new(Model::OpenAiGpt4o, 0).is_none());
    assert!(Config::new(Model::OpenAiGpt4o, 4097).is_none());
    let c = Config::new(Model::OpenAiGpt4o, 512).unwrap();
    assert_eq!(c.max_tokens, 512);
}
