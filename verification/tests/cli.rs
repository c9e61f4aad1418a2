use llm_provider::cli::parse_run_job;
use llm_provider::envelope::RunJobRequestParams;

fn job(model: &str, prompt: &str) -> Option<RunJobRequestParams> {
    Some(RunJobRequestParams { model: model.to_string(), prompt: prompt.to_string(), seed: None })
}

#[test]
fn model_and_prompt_are_split_at_the_first_space() {
    assert_eq!(
        parse_run_job("default How much wood could a woodchuck chuck? Be concise."),
        job("default", "How much wood could a woodchuck chuck? Be concise.")
    );
    assert_eq!(parse_run_job("m1 hi"), job("m1", "hi"));
    assert_eq!(parse_run_job("m1  hi"), job("m1", " hi"));
    assert_eq!(parse_run_job("m1 "), job("m1", ""));
    assert_eq!(parse_run_job(" hi"), job("", "hi"));
    assert_eq!(parse_run_job(" "), job("", ""));
}

#[test]
fn line_without_space_names_no_job() {
    assert_eq!(parse_run_job(""), None);
    assert_eq!(parse_run_job("default"), None);
    assert_eq!(parse_run_job("a\tb"), None);
}

#[test]
fn characters_beyond_ascii_are_kept() {
    assert_eq!(parse_run_job("modèle ça va ? ☃"), job("modèle", "ça va ? ☃"));
    assert_eq!(parse_run_job("☃☃ x"), job("☃☃", "x"));
}
