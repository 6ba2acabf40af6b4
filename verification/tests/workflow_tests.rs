use llm_term::cache::Cache;
use llm_term::workflow::Effect;
use llm_term::workflow::GenEvent;
use llm_term::workflow::Workflow;

fn cache_with(prompt: &str, command: &str) -> Cache {
    let mut c = Cache::new();
    c.insert(String::from(prompt), String::from(command));
    c
}

#[test]
fn scenario_generate_confirm_caches() {
    // Cache empty, cache enabled: the gateway is consulted; a confirmed
    // generated command is executed and written through to the cache.
    let (mut w, a) = Workflow::start(Cache::new(), String::from("list files"), false);
    assert!(!a.persist);
    assert!(matches!(a.effect, Effect::QueryGateway));
    assert!(w.awaiting_generation());

    let a = w.on_generation(GenEvent::Produced { command: String::from("ls -la") });
    assert!(!a.persist);
    assert!(matches!(a.effect, Effect::AskExecuteGenerated { ref command } if command == "ls -la"));
    assert!(w.awaiting_answer());

    let a = w.on_answer("y\n");
    assert!(a.persist);
    assert!(matches!(a.effect, Effect::Execute { ref command } if command == "ls -la"));
    assert_eq!(w.cache.get(&String::from("list files")), Some(&String::from("ls -la")));
    // the pairs written to durable storage reflect the new entry
    let pairs = w.cache.to_pairs();
    assert!(pairs.contains(&(String::from("list files"), String::from("ls -la"))));
}

#[test]
fn scenario_cache_hit_executes_directly() {
    // A cache hit shows the cached command without any gateway call;
    // confirming executes it and nothing is re-cached.
    let (mut w, a) = Workflow::start(cache_with("list files", "ls -la"), String::from("list files"), false);
    assert!(!a.persist);
    assert!(matches!(a.effect, Effect::AskExecuteCached { ref command } if command == "ls -la"));
    assert!(!matches!(a.effect, Effect::QueryGateway));

    let a = w.on_answer("Y\n");
    assert!(!a.persist);
    assert!(matches!(a.effect, Effect::Execute { ref command } if command == "ls -la"));
    assert_eq!(w.cache.entry_count(), 1);
}

#[test]
fn scenario_invalidate_then_regenerate() {
    // Rejecting the cached command and confirming invalidation removes the
    // entry (with a persist order) before the gateway is consulted.
    let (mut w, a) = Workflow::start(cache_with("list files", "ls -la"), String::from("list files"), false);
    assert!(matches!(a.effect, Effect::AskExecuteCached { .. }));

    let a = w.on_answer("n\n");
    assert!(!a.persist);
    assert!(matches!(a.effect, Effect::AskInvalidate));
    assert_eq!(w.cache.get(&String::from("list files")), Some(&String::from("ls -la")));

    let a = w.on_answer("y\n");
    assert!(a.persist);
    assert!(matches!(a.effect, Effect::QueryGateway));
    assert_eq!(w.cache.get(&String::from("list files")), None);
    assert!(w.awaiting_generation());

    let a = w.on_generation(GenEvent::Produced { command: String::from("ls -lah") });
    assert!(matches!(a.effect, Effect::AskExecuteGenerated { ref command } if command == "ls -lah"));
}

#[test]
fn scenario_decline_invalidation_cancels() {
    let (mut w, _a) = Workflow::start(cache_with("list files", "ls -la"), String::from("list files"), false);
    let _a = w.on_answer("n\n");
    let a = w.on_answer("n\n");
    assert!(!a.persist);
    assert!(matches!(a.effect, Effect::ReportCancelled));
    assert_eq!(w.cache.get(&String::from("list files")), Some(&String::from("ls -la")));
}

#[test]
fn scenario_disabled_cache_still_overwrites() {
    // With the cache disabled the gateway is consulted even on a hit, and
    // the fresh result overwrites the stored entry.
    let (mut w, a) = Workflow::start(cache_with("list files", "ls -la"), String::from("list files"), true);
    assert!(matches!(a.effect, Effect::QueryGateway));

    let a = w.on_generation(GenEvent::Produced { command: String::from("ls -lah") });
    assert!(matches!(a.effect, Effect::AskExecuteGenerated { .. }));

    let a = w.on_answer("n\n");
    assert!(a.persist);
    assert!(matches!(a.effect, Effect::ReportCancelled));
    assert_eq!(w.cache.entry_count(), 1);
    assert_eq!(w.cache.get(&String::from("list files")), Some(&String::from("ls -lah")));
}

#[test]
fn blank_generation_never_cached_never_executed() {
    // An empty or whitespace-only generated command is treated as "no
    // command produced": nothing is cached and nothing runs.
    let (mut w, _a) = Workflow::start(Cache::new(), String::from("list files"), false);
    let a = w.on_generation(GenEvent::Produced { command: String::from("   \n") });
    assert!(!a.persist);
    assert!(matches!(a.effect, Effect::ReportNothingGenerated));
    assert_eq!(w.cache.entry_count(), 0);

    let (mut w, _a) = Workflow::start(Cache::new(), String::from("list files"), false);
    let a = w.on_generation(GenEvent::Produced { command: String::new() });
    assert!(matches!(a.effect, Effect::ReportNothingGenerated));
    assert_eq!(w.cache.entry_count(), 0);
}

#[test]
fn unicode_blank_generation_not_cached() {
    // a command of nothing but Unicode whitespace carries no command
    let (mut w, _a) = Workflow::start(Cache::new(), String::from("list files"), false);
    let a = w.on_generation(GenEvent::Produced { command: String::from("\u{a0}\u{2003}") });
    assert!(matches!(a.effect, Effect::ReportNothingGenerated));
    assert_eq!(w.cache.entry_count(), 0);
}

#[test]
fn absent_generation_reports_nothing() {
    let (mut w, _a) = Workflow::start(Cache::new(), String::from("list files"), false);
    let a = w.on_generation(GenEvent::Empty);
    assert!(!a.persist);
    assert!(matches!(a.effect, Effect::ReportNothingGenerated));
    assert_eq!(w.cache.entry_count(), 0);
}

#[test]
fn failed_generation_reports_error() {
    let (mut w, _a) = Workflow::start(Cache::new(), String::from("list files"), false);
    let a = w.on_generation(GenEvent::Failed { message: String::from("connection refused") });
    assert!(!a.persist);
    assert!(matches!(a.effect, Effect::ReportFailure { ref message } if message == "connection refused"));
    assert_eq!(w.cache.entry_count(), 0);
}

#[test]
fn answers_other_than_y_are_no() {
    let (mut w, _a) = Workflow::start(cache_with("p", "c"), String::from("p"), false);
    let a = w.on_answer("yes\n");
    assert!(matches!(a.effect, Effect::AskInvalidate));
}
