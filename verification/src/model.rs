use vstd::prelude::*;
use vstd::string::StrSliceExecFns;
use vstd::string::StringExecFns;
use crate::shell::Shell;
use crate::text::all_digits;
use crate::text::dec_val;
use crate::text::digit_val;
use crate::text::is_digit;
use crate::text::str_eq;
use crate::text::trim;
use crate::text::trim_spec;

verus! {

/// The backend selection: one of two fixed hosted models, or a locally
/// served model identified by name.
#[derive(Clone, Debug)]
pub enum Model {
    OpenAiGpt4o,
    OpenAiGpt4oMini,
    Ollama(String),
}

/// The wire name of the selected model.
pub open spec fn spec_model_name(m: Model) -> Seq<char> {
    match m {
        Model::OpenAiGpt4o => "gpt-4o"@,
        Model::OpenAiGpt4oMini => "gpt-4o-mini"@,
        Model::Ollama(name) => name@,
    }
}

/// The base URL the selected backend is reached at.
pub open spec fn spec_openai_endpoint(m: Model) -> Seq<char> {
    match m {
        Model::OpenAiGpt4o => "https://api.openai.com/v1/"@,
        Model::OpenAiGpt4oMini => "https://api.openai.com/v1/"@,
        Model::Ollama(_) => "http://localhost:11434/api/chat"@,
    }
}

/// How a shell variant is described to the model in the system prompt.
pub open spec fn spec_shell_descriptor(sh: Shell) -> Seq<char> {
    match sh {
        Shell::Powershell => "Windows PowerShell"@,
        Shell::BornAgainShell => "Bourne AgainShell (bash / sh)"@,
        Shell::Zsh => "Z Shell (zsh)"@,
        Shell::Fish => "Friendly Interactive Shell (fish)"@,
        Shell::DebianAlmquistShell => "Debian Almquist Shell (dash)"@,
        Shell::KornShell => "Korn Shell (ksh)"@,
        Shell::CShell => "C Shell (csh)"@,
        Shell::Unknown => ""@,
    }
}

/// The full system prompt: the fixed instruction text around the shell
/// descriptor and the host operating system name.
pub open spec fn spec_system_prompt(sh: Shell, os: Seq<char>) -> Seq<char> {
    "You are a professional IT automation specialist who translates user requests into precise CLI commands. Respond ONLY with a single valid "@
        + spec_shell_descriptor(sh)
        + " command compatible with "@ + os
        + " operating system. Output must be the raw command text without any formatting, backticks, code blocks, or explanations.\n\nCritical Rules:\n1. **Never use** markdown, code fences (```), quotes, or any syntax\n2. **Never add** comments, notes, or multiple commands\n3. **Always verify** command validity before responding\n4. **Only output** one executable command per response\n5. **If uncertain**, return empty string\n\nExample GOOD output: ls -la\nExample BAD output: ```sh\nls -la\n```\n\nThe command must run as-is in the user's current directory. Prioritize safety and accuracy above all."@
}

fn shell_descriptor(sh: &Shell) -> (r: &'static str)
    ensures
        r@ == spec_shell_descriptor(*sh),
{
    match sh {
        Shell::Powershell => "Windows PowerShell",
        Shell::BornAgainShell => "Bourne AgainShell (bash / sh)",
        Shell::Zsh => "Z Shell (zsh)",
        Shell::Fish => "Friendly Interactive Shell (fish)",
        Shell::DebianAlmquistShell => "Debian Almquist Shell (dash)",
        Shell::KornShell => "Korn Shell (ksh)",
        Shell::CShell => "C Shell (csh)",
        Shell::Unknown => "",
    }
}

impl Model {
    pub fn get_model_name(&self) -> (r: String)
        ensures
            r@ == spec_model_name(*self),
    {
        match self {
            Model::OpenAiGpt4o => String::from_str("gpt-4o"),
            Model::OpenAiGpt4oMini => String::from_str("gpt-4o-mini"),
            Model::Ollama(name) => name.clone(),
        }
    }

    pub fn get_openai_endpoint(&self) -> (r: String)
        ensures
            r@ == spec_openai_endpoint(*self),
    {
        match self {
            Model::OpenAiGpt4o => String::from_str("https://api.openai.com/v1/"),
            Model::OpenAiGpt4oMini => String::from_str("https://api.openai.com/v1/"),
            Model::Ollama(_) => String::from_str("http://localhost:11434/api/chat"),
        }
    }

    /// The system prompt handed to the backend, worded for the resolved
    /// shell and the host operating system name given by the embedder.
    pub fn get_system_prompt(&self, shell: &Shell, os: &str) -> (r: String)
        ensures
            r@ == spec_system_prompt(*shell, os@),
    {
        let d = shell_descriptor(shell);
        String::from_str(
            "You are a professional IT automation specialist who translates user requests into precise CLI commands. Respond ONLY with a single valid ",
        ).concat(d).concat(" command compatible with ").concat(os).concat(
            " operating system. Output must be the raw command text without any formatting, backticks, code blocks, or explanations.\n\nCritical Rules:\n1. **Never use** markdown, code fences (```), quotes, or any syntax\n2. **Never add** comments, notes, or multiple commands\n3. **Always verify** command validity before responding\n4. **Only output** one executable command per response\n5. **If uncertain**, return empty string\n\nExample GOOD output: ls -la\nExample BAD output: ```sh\nls -la\n```\n\nThe command must run as-is in the user's current directory. Prioritize safety and accuracy above all.",
        )
    }
}

/// The configuration a run starts from: the chosen backend and the token
/// budget, which lies in [1, 4096].
pub struct Config {
    pub model: Model,
    pub max_tokens: i32,
}

impl Config {
    /// The token budget never leaves [1, 4096].
    pub open spec fn wf(&self) -> bool {
        1 <= self.max_tokens <= 4096
    }

    /// Accepts exactly the budgets inside [1, 4096].
    pub fn new(model: Model, max_tokens: i32) -> (r: Option<Config>)
        ensures
            (1 <= max_tokens <= 4096) <==> r is Some,
            r matches Some(c) ==> c.wf() && c.max_tokens == max_tokens && c.model == model,
    {
        if 1 <= max_tokens && max_tokens <= 4096 {
            Some(Config { model, max_tokens })
        } else {
            None
        }
    }
}

/// What a menu answer selects: "1" and "2" pick the hosted models, "3" the
/// fixed local model; anything else is rejected.
pub fn parse_model_choice(input: &str) -> (r: Option<Model>)
    ensures
        trim_spec(input@) == "1"@ ==> (r matches Some(m) && m is OpenAiGpt4oMini),
        trim_spec(input@) == "2"@ ==> (r matches Some(m) && m is OpenAiGpt4o),
        trim_spec(input@) == "3"@ ==> (r matches Some(m) && (m matches Model::Ollama(name)
            && name@ == "qwen2.5-coder"@)),
        trim_spec(input@) != "1"@ && trim_spec(input@) != "2"@ && trim_spec(input@) != "3"@
            ==> r is None,
{
    proof {
        reveal_strlit("1");
        reveal_strlit("2");
        reveal_strlit("3");
        assert("1"@[0] == '1' && "2"@[0] == '2' && "3"@[0] == '3');
        assert("1"@ != "2"@ && "1"@ != "3"@ && "2"@ != "3"@);
    }
    let t = trim(input);
    if str_eq(t, "1") {
        Some(Model::OpenAiGpt4oMini)
    } else if str_eq(t, "2") {
        Some(Model::OpenAiGpt4o)
    } else if str_eq(t, "3") {
        Some(Model::Ollama(String::from_str("qwen2.5-coder")))
    } else {
        None
    }
}

/// The digit part of a token-budget answer: the trimmed input, less one
/// optional leading plus sign.
pub open spec fn token_digits(s: Seq<char>) -> Seq<char> {
    let t = trim_spec(s);
    if t.len() > 0 && t[0] == '+' {
        t.drop_first()
    } else {
        t
    }
}

/// A token-budget answer is accepted when its digit part is a non-empty
/// decimal numeral whose value lies in [1, 4096].
pub open spec fn token_budget_accepted(s: Seq<char>) -> bool {
    let d = token_digits(s);
    d.len() > 0 && all_digits(d) && 1 <= dec_val(d) <= 4096
}

/// Reads an interactive token-budget answer; accepts exactly the numerals
/// in [1, 4096].
pub fn parse_max_tokens(input: &str) -> (r: Option<i32>)
    ensures
        token_budget_accepted(input@) ==> (r matches Some(t) && t == dec_val(
            token_digits(input@),
        ) as i32),
        !token_budget_accepted(input@) ==> r is None,
{
    let t = trim(input);
    let n = t.unicode_len();
    let d: &str = if n > 0 && t.get_char(0) == '+' {
        let rest = t.substring_char(1, n);
        proof {
            assert(rest@ =~= t@.drop_first());
        }
        rest
    } else {
        t
    };
    let m = d.unicode_len();
    if m == 0 {
        return None;
    }
    let mut acc: u32 = 0;
    for i in 0..m
        invariant
            m == d@.len(),
            d@ == token_digits(input@),
            all_digits(d@.take(i as int)),
            if dec_val(d@.take(i as int)) <= 40969 {
                acc == dec_val(d@.take(i as int))
            } else {
                acc > 4096
            },
    {
        let c = d.get_char(i);
        let cv = c as u32;
        if cv < 48 || cv > 57 {
            proof {
                assert(!is_digit(d@[i as int]));
            }
            return None;
        }
        proof {
            assert(d@.take(i + 1).drop_last() =~= d@.take(i as int));
            assert(d@.take(i + 1).last() == d@[i as int]);
        }
        acc = if acc > 4096 {
            acc
        } else {
            acc * 10 + (cv - 48)
        };
    }
    proof {
        assert(d@.take(m as int) =~= d@);
    }
    if 1 <= acc && acc <= 4096 {
        Some(acc as i32)
    } else {
        None
    }
}

} // verus!
