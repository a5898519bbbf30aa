use edgen_server::model::{
    fetch_unit_steps, Endpoint, FetchStep, Model, ModelError, ModelKind, Preload, PreloadAction,
    PreloadPhase,
};
use edgen_server::patterns::ModelPatterns;

fn joined(dir: &str, name: &str) -> String {
    std::path::Path::new(dir).join(name).to_string_lossy().into_owned()
}

#[test]
fn llm_new() {
    let model = "model";
    let repo = "repo";
    let dir = "dir";
    let m = Model::new(ModelKind::LLM, model, repo, dir);
    assert_eq!(m.kind, ModelKind::LLM);
    assert_eq!(m.name(), model);
    assert_eq!(m.repo(), repo);
    assert_eq!(m.dir(), dir);
    assert_eq!(m.candidate_path(), joined(dir, model));
    assert!(!m.is_preloaded());
    assert_eq!(m.file_path(), Err(ModelError::NotPreloaded));
}

#[test]
fn whisper_new() {
    let model = "model";
    let repo = "repo";
    let dir = "dir";
    let m = Model::new(ModelKind::Whisper, model, repo, dir);
    assert_eq!(m.kind, ModelKind::Whisper);
    assert_eq!(m.name(), model);
    assert_eq!(m.repo(), repo);
    assert_eq!(m.dir(), dir);
    assert_eq!(m.candidate_path(), joined(dir, model));
    assert!(!m.is_preloaded());
    assert_eq!(m.file_path(), Err(ModelError::NotPreloaded));
}

#[test]
fn join_puts_name_under_dir() {
    let m = Model::new(ModelKind::LLM, "dummy.gguf", "dummy", "resources");
    assert_eq!(m.candidate_path(), "resources/dummy.gguf");
}

#[test]
fn preload_cache_hit() {
    let mut m = Model::new(ModelKind::LLM, "dummy.gguf", "dummy", "resources");
    let mut p = Preload::new(Endpoint::ChatCompletions);
    assert_eq!(p.phase(), PreloadPhase::LocalFile);
    let a = p.on_local_file(&mut m, true);
    assert_eq!(a, PreloadAction::Finish(Ok(())));
    assert_eq!(p.phase(), PreloadPhase::Done);
    assert!(m.is_preloaded());
    assert_eq!(m.file_path(), Ok("resources/dummy.gguf".to_string()));
}

#[test]
fn preload_cache_hit_with_empty_repo() {
    let mut m = Model::new(ModelKind::LLM, "dummy.gguf", "", "resources");
    let mut p = Preload::new(Endpoint::AudioTranscriptions);
    assert_eq!(p.on_local_file(&mut m, true), PreloadAction::Finish(Ok(())));
    assert!(m.is_preloaded());
}

#[test]
fn preload_empty_name_is_unknown_model() {
    let mut m = Model::new(ModelKind::Whisper, "", "repo", "dir");
    let mut p = Preload::new(Endpoint::AudioTranscriptions);
    assert_eq!(
        p.on_local_file(&mut m, false),
        PreloadAction::Finish(Err(ModelError::UnknownModel(ModelKind::Whisper)))
    );
    assert_eq!(p.phase(), PreloadPhase::Done);
    assert_eq!(m.file_path(), Err(ModelError::NotPreloaded));
}

#[test]
fn preload_empty_repo_is_unknown_model() {
    let mut m = Model::new(ModelKind::LLM, "model", "", "dir");
    let mut p = Preload::new(Endpoint::ChatCompletions);
    assert_eq!(
        p.on_local_file(&mut m, false),
        PreloadAction::Finish(Err(ModelError::UnknownModel(ModelKind::LLM)))
    );
    assert!(!m.is_preloaded());
}

#[test]
fn preload_embeddings_is_unsupported() {
    let mut m = Model::new(ModelKind::LLM, "model", "repo", "dir");
    let mut p = Preload::new(Endpoint::Embeddings);
    assert_eq!(
        p.on_local_file(&mut m, false),
        PreloadAction::Finish(Err(ModelError::UnsupportedEndpoint))
    );
}

#[test]
fn preload_download_runs_to_fetched_path() {
    let mut m = Model::new(ModelKind::LLM, "model", "repo", "dir");
    let mut p = Preload::new(Endpoint::ChatCompletions);
    assert_eq!(p.on_local_file(&mut m, false), PreloadAction::BuildApi);
    assert_eq!(p.on_api(Ok(())), PreloadAction::CheckCache);
    assert_eq!(p.on_cache(false), PreloadAction::ProbeSize);
    assert_eq!(
        p.on_size(Some(42)),
        PreloadAction::BeginObservation { size: Some(42), download: true }
    );
    assert_eq!(p.on_observer_started(), PreloadAction::RunFetch { download: true });
    let a = p.on_joined(&mut m, Ok(()), Ok(Ok("cache/model".to_string())));
    assert_eq!(a, PreloadAction::Finish(Ok(())));
    assert_eq!(m.file_path(), Ok("cache/model".to_string()));
}

#[test]
fn preload_cached_in_repository_skips_probe() {
    let mut m = Model::new(ModelKind::LLM, "model", "repo", "dir");
    let mut p = Preload::new(Endpoint::ChatCompletions);
    p.on_local_file(&mut m, false);
    p.on_api(Ok(()));
    assert_eq!(
        p.on_cache(true),
        PreloadAction::BeginObservation { size: None, download: false }
    );
    assert_eq!(p.on_observer_started(), PreloadAction::RunFetch { download: false });
}

#[test]
fn preload_api_failure() {
    let mut m = Model::new(ModelKind::LLM, "model", "repo", "dir");
    let mut p = Preload::new(Endpoint::ChatCompletions);
    p.on_local_file(&mut m, false);
    assert_eq!(
        p.on_api(Err("no network".to_string())),
        PreloadAction::Finish(Err(ModelError::API("no network".to_string())))
    );
}

#[test]
fn preload_join_errors_come_first() {
    let mut m = Model::new(ModelKind::LLM, "model", "repo", "dir");
    let mut p = Preload::new(Endpoint::ChatCompletions);
    p.on_local_file(&mut m, false);
    p.on_api(Ok(()));
    p.on_cache(false);
    p.on_size(None);
    p.on_observer_started();
    let a = p.on_joined(&mut m, Err("observer panicked".to_string()), Ok(Err("404".to_string())));
    assert_eq!(a, PreloadAction::Finish(Err(ModelError::JoinError("observer panicked".to_string()))));
    assert_eq!(m.file_path(), Err(ModelError::NotPreloaded));
}

#[test]
fn preload_fetch_join_error_and_repository_error() {
    let mut m = Model::new(ModelKind::LLM, "model", "repo", "dir");
    let mut p = Preload::new(Endpoint::ChatCompletions);
    p.on_local_file(&mut m, false);
    p.on_api(Ok(()));
    p.on_cache(false);
    p.on_size(None);
    p.on_observer_started();
    let a = p.on_joined(&mut m, Ok(()), Err("cancelled".to_string()));
    assert_eq!(a, PreloadAction::Finish(Err(ModelError::JoinError("cancelled".to_string()))));

    let mut m = Model::new(ModelKind::LLM, "model", "repo", "dir");
    let mut p = Preload::new(Endpoint::ChatCompletions);
    p.on_local_file(&mut m, false);
    p.on_api(Ok(()));
    p.on_cache(false);
    p.on_size(None);
    p.on_observer_started();
    let a = p.on_joined(&mut m, Ok(()), Ok(Err("404".to_string())));
    assert_eq!(a, PreloadAction::Finish(Err(ModelError::API("404".to_string()))));
    assert!(!m.is_preloaded());
}

#[test]
fn fetch_steps_report_download_once() {
    assert_eq!(
        fetch_unit_steps(true),
        vec![
            FetchStep::SetDownloading(true),
            FetchStep::Get,
            FetchStep::SetProgress(100),
            FetchStep::SetDownloading(false),
        ]
    );
    assert_eq!(fetch_unit_steps(false), vec![FetchStep::Get]);
}

#[test]
fn get_model_kinds() {
    let yaml = "
            llama: [
                 chat, phi, TinyLlama, GPT, multi-model
            ]

            whisper: [
                 distil,
                 whisper,
                 multi-model
            ]
            ";
    println!("{}", yaml);
    let m = ModelPatterns::new(yaml).expect("cannot parse model patterns");
    println!("{:?}", m);
    assert_eq!(
        m.llama,
        ["chat", "phi", "tinyllama", "gpt", "multi-model"],
        "unexpected list of model patterns for llama"
    );
    assert_eq!(
        m.whisper,
        ["distil", "whisper", "multi-model"],
        "unexpected list of model patterns for whisper"
    );
    assert_eq!(
        m.get_model_kinds("TheBloke/neural-chat-7B-v3-3-GGUF"),
        &[ModelKind::LLM],
        "expected model to be Llama"
    );
    assert_eq!(
        m.get_model_kinds("distil-whisper/distil-small.en"),
        &[ModelKind::Whisper],
        "expected model to be Whisper"
    );
    assert_eq!(
        m.get_model_kinds("my-chat-bot.bin"),
        &[ModelKind::LLM],
        "expected model to be Llama"
    );
    assert_eq!(
        m.get_model_kinds("my-poor-model.bin"),
        &[],
        "expected model to be nothing"
    );
    assert_eq!(
        m.get_model_kinds("my-versatile-multi-model.bin"),
        &[ModelKind::LLM, ModelKind::Whisper],
        "expected model to be nothing"
    );
}

#[test]
fn top_model_kind_follows_accepted_order() {
    let m = ModelPatterns::new("llama: [multi]\nwhisper: [multi]\n").unwrap();
    assert_eq!(
        m.get_top_model_kind("A-MULTI-model", &[ModelKind::Whisper, ModelKind::LLM]),
        Ok(ModelKind::Whisper)
    );
    assert_eq!(
        m.get_top_model_kind("A-MULTI-model", &[ModelKind::LLM, ModelKind::Whisper]),
        Ok(ModelKind::LLM)
    );
    assert_eq!(
        m.get_top_model_kind("other", &[ModelKind::LLM]),
        Err(ModelError::UnknownKind("other".to_string()))
    );
    assert_eq!(
        m.get_accepted_model_kinds("multi", &[ModelKind::ChatFaker, ModelKind::Whisper]),
        vec![ModelKind::Whisper]
    );
}

#[test]
fn model_patterns_reject_bad_yaml() {
    assert!(ModelPatterns::new("llama: [unclosed").is_err());
    assert!(ModelPatterns::new("llama: 3").is_err());
}

#[test]
fn model_patterns_chat_faker_list() {
    let m = ModelPatterns::new("chat_faker: [Fake]").unwrap();
    assert_eq!(m.chat_faker, ["fake"]);
    assert!(m.llama.is_empty());
    assert_eq!(m.get_model_kinds("FAKE-1"), vec![ModelKind::ChatFaker]);
}
