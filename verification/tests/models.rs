use whispr::config::AppConfig;
use whispr::error::WhisprError;
use whispr::models::{
    approximate_memory_gb, available_models, catalog_model_paths, model_catalog, plan_download,
    recommended_model_id, selected_model_path,
};

fn config(dir: &str, model: &str) -> AppConfig {
    let mut c = AppConfig::default_with_models_dir(dir.to_string());
    c.selected_model_id = model.to_string();
    c
}

#[test]
fn catalog_lists_three_models() {
    let m = model_catalog();
    let ids: Vec<&str> = m.iter().map(|x| x.id.as_str()).collect();
    assert_eq!(ids, vec!["base", "small", "medium"]);
    assert_eq!(m[1].name, "Small");
    assert_eq!(m[1].file_name, "ggml-small.bin");
    assert_eq!(m[2].download_url, "https://huggingface.co/ggerganov/whisper.cpp/resolve/main/ggml-medium.bin");
    assert_eq!(m[0].description, "Fast default for lighter Windows CPU machines.");
    assert!(m.iter().all(|x| !x.installed && !x.recommended));
}

#[test]
fn recommendation_follows_assumed_memory() {
    assert_eq!(approximate_memory_gb(), 8);
    assert_eq!(recommended_model_id(), "base");
}

#[test]
fn available_models_mark_installed_and_recommended() {
    let m = available_models(&vec![false, true, true]);
    assert_eq!(m.len(), 3);
    assert!(!m[0].installed && m[1].installed && m[2].installed);
    assert!(m[0].recommended && !m[1].recommended && !m[2].recommended);
    let m = available_models(&vec![true]);
    assert!(m[0].installed && !m[1].installed && !m[2].installed);
    assert_eq!(available_models(&vec![]).iter().filter(|x| x.recommended).count(), 1);
}

#[test]
fn selected_model_path_joins_the_models_folder() {
    let p = selected_model_path(&config("/data/models", "small")).unwrap();
    assert_eq!(p, "/data/models/ggml-small.bin");
    let p = selected_model_path(&config("/data/models/", "medium")).unwrap();
    assert_eq!(p, "/data/models/ggml-medium.bin");
    let p = selected_model_path(&config("", "base")).unwrap();
    assert_eq!(p, "ggml-base.bin");
}

#[test]
fn first_start_settings_name_a_known_model() {
    let c = AppConfig::default_with_models_dir("/m".to_string());
    assert_eq!(selected_model_path(&c).unwrap(), "/m/ggml-base.bin");
}

#[test]
fn unknown_model_is_reported() {
    match selected_model_path(&config("/m", "huge")) {
        Err(WhisprError::UnknownModel(id)) => assert_eq!(id, "huge"),
        other => panic!("unexpected {:?}", other),
    }
    match plan_download(&config("/m", "base"), "Base") {
        Err(e) => assert_eq!(e.message(), "unknown model 'Base'"),
        other => panic!("unexpected {:?}", other),
    }
}

#[test]
fn download_plan_names_url_and_target() {
    let d = plan_download(&config("/m", "base"), "medium").unwrap();
    assert_eq!(d.url, "https://huggingface.co/ggerganov/whisper.cpp/resolve/main/ggml-medium.bin");
    assert_eq!(d.target, "/m/ggml-medium.bin");
}

#[test]
fn model_path_of_each_catalog_entry() {
    let c = config("/m", "base");
    let paths = catalog_model_paths(&c);
    let files: Vec<String> = model_catalog().iter().map(|m| format!("/m/{}", m.file_name)).collect();
    assert_eq!(paths, files);
}

#[test]
fn a_separator_follows_a_folder_without_one() {
    assert_eq!(selected_model_path(&config("/models", "small")).unwrap(), "/models/ggml-small.bin");
    assert_eq!(plan_download(&config("/models", "base"), "small").unwrap().target, "/models/ggml-small.bin");
    assert_eq!(catalog_model_paths(&config("rel", "base"))[0], "rel/ggml-base.bin");
}
