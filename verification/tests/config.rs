use shuu::config::{
    config_dir, config_dir_from, find_lang, get_lang, get_model, join_path, lang_file, model_file,
    parse_lang, reset, resolve_lang, set_lang, set_model,
};
use shuu::flow::{Act, Request};
use shuu::i18n::Lang;

#[test]
fn test_parse_lang_valid_codes() {
    assert_eq!(parse_lang("en"), Some(Lang::En));
    assert_eq!(parse_lang("ja"), Some(Lang::Ja));
    assert_eq!(parse_lang("fr"), Some(Lang::Fr));
    assert_eq!(parse_lang("es"), Some(Lang::Es));
    assert_eq!(parse_lang("zh"), Some(Lang::Zh));
    assert_eq!(parse_lang("ru"), Some(Lang::Ru));
    assert_eq!(parse_lang("ar"), Some(Lang::Ar));
}

#[test]
fn test_parse_lang_with_whitespace() {
    assert_eq!(parse_lang("  en  "), Some(Lang::En));
    assert_eq!(parse_lang("ja\n"), Some(Lang::Ja));
}

#[test]
fn test_parse_lang_invalid() {
    assert_eq!(parse_lang("xx"), None);
    assert_eq!(parse_lang(""), None);
    assert_eq!(parse_lang("english"), None);
}

#[test]
fn test_config_dir_respects_xdg() {
    let dir = config_dir(Some("/tmp/test-xdg"));
    assert_eq!(dir, "/tmp/test-xdg/shuu");
}

#[test]
fn parse_lang_is_exact_about_the_code() {
    assert_eq!(parse_lang("EN"), None);
    assert_eq!(parse_lang("e n"), None);
    assert_eq!(parse_lang("en_US"), None);
    assert_eq!(parse_lang("\u{3000}zh\u{a0}"), Some(Lang::Zh));
}

/// A disk that holds files by their paths, and nothing else.
struct Disk {
    files: std::collections::BTreeMap<String, String>,
}

impl Disk {
    fn new() -> Disk {
        Disk { files: std::collections::BTreeMap::new() }
    }

    fn perform(&mut self, acts: Vec<Act>) {
        for act in acts {
            match act {
                Act::MakeDir(_) => {}
                Act::WriteFile { path, content } => {
                    self.files.insert(path, content);
                }
                Act::RemoveFile(path) => {
                    self.files.remove(&path);
                }
                Act::Say(line) => panic!("nothing is to be said: {:?}", line),
            }
        }
    }

    fn read(&self, request: Request) -> Option<String> {
        match request {
            Request::ReadFile(path) => self.files.get(&path).cloned(),
            other => panic!("not a read: {:?}", other),
        }
    }

    fn lang(&self, dir: &str) -> Option<String> {
        self.read(get_lang(dir))
    }

    fn model(&self, dir: &str) -> Option<String> {
        get_model(self.read(Request::ReadFile(model_file(dir))))
    }
}

const DIR: &str = "/tmp/shuu-test/shuu";

#[test]
fn test_set_and_get_lang() {
    let mut disk = Disk::new();
    assert!(disk.lang(DIR).is_none());
    disk.perform(set_lang(DIR, "ja"));
    assert_eq!(disk.lang(DIR).unwrap(), "ja");
}

#[test]
fn test_set_and_get_model() {
    let mut disk = Disk::new();
    assert!(disk.model(DIR).is_none());
    disk.perform(set_model(DIR, "sonnet"));
    assert_eq!(disk.model(DIR).unwrap(), "sonnet");
}

#[test]
fn test_get_model_empty_returns_none() {
    let mut disk = Disk::new();
    disk.perform(vec![
        Act::MakeDir(DIR.to_string()),
        Act::WriteFile { path: model_file(DIR), content: String::new() },
    ]);
    assert!(disk.model(DIR).is_none());
    assert_eq!(get_model(None), None);
}

#[test]
fn test_reset_clears_config() {
    let mut disk = Disk::new();
    disk.perform(set_lang(DIR, "ja"));
    disk.perform(set_model(DIR, "opus"));
    assert!(disk.lang(DIR).is_some());
    assert!(disk.model(DIR).is_some());
    disk.perform(reset(DIR));
    assert!(disk.lang(DIR).is_none());
    assert!(disk.model(DIR).is_none());
    assert!(disk.files.is_empty());
}

#[test]
fn test_resolve_lang_defaults_to_en() {
    let disk = Disk::new();
    let result = resolve_lang(None, disk.lang(DIR).as_deref(), None);
    assert_eq!(result, Lang::En);
}

#[test]
fn test_resolve_lang_shuu_lang_env() {
    let disk = Disk::new();
    let result = resolve_lang(Some("ja"), disk.lang(DIR).as_deref(), None);
    assert_eq!(result, Lang::Ja);
}

#[test]
fn test_resolve_lang_config_file() {
    let mut disk = Disk::new();
    disk.perform(set_lang(DIR, "fr"));
    let result = resolve_lang(None, disk.lang(DIR).as_deref(), None);
    assert_eq!(result, Lang::Fr);
}

#[test]
fn test_resolve_lang_priority_shuu_over_config() {
    let mut disk = Disk::new();
    disk.perform(set_lang(DIR, "fr"));
    let result = resolve_lang(Some("ja"), disk.lang(DIR).as_deref(), None);
    assert_eq!(result, Lang::Ja);
}

#[test]
fn resolve_lang_falls_through_what_names_no_language() {
    assert_eq!(resolve_lang(Some("xx"), Some("fr\n"), Some("ja_JP.UTF-8")), Lang::Fr);
    assert_eq!(resolve_lang(Some("xx"), Some(""), Some("ja_JP.UTF-8")), Lang::Ja);
    assert_eq!(resolve_lang(None, None, Some("ru_RU")), Lang::Ru);
    assert_eq!(resolve_lang(None, None, Some("es.UTF-8")), Lang::Es);
    assert_eq!(resolve_lang(None, None, Some("zh")), Lang::Zh);
    assert_eq!(resolve_lang(None, None, Some("C.UTF-8")), Lang::En);
    assert_eq!(resolve_lang(None, None, Some("")), Lang::En);
    assert_eq!(resolve_lang(None, None, Some("de_DE.UTF-8")), Lang::En);
    // only the part before the first dot is looked at
    assert_eq!(resolve_lang(None, None, Some("x.ja_JP")), Lang::En);
}

#[test]
fn config_dir_is_built_from_what_the_environment_gives() {
    assert_eq!(config_dir_from(Some("/x/"), Some("/home/u")), "/x/shuu");
    assert_eq!(config_dir_from(Some(""), Some("/home/u")), "shuu");
    assert_eq!(config_dir_from(None, Some("/home/u")), "/home/u/.config/shuu");
    assert_eq!(config_dir_from(None, Some("/")), "/.config/shuu");
    assert_eq!(config_dir_from(None, None), "/tmp/.config/shuu");
    let found = config_dir(None);
    assert!(found.ends_with(".config/shuu"), "{:?}", found);
}

#[test]
fn join_path_agrees_with_std_for_relative_names() {
    for base in ["", "/", "/a", "/a/", "a", "a//", "."] {
        for name in ["shuu", ".config", "lang"] {
            let by_std = std::path::Path::new(base).join(name);
            assert_eq!(Some(join_path(base, name).as_str()), by_std.to_str());
        }
    }
    assert_eq!(lang_file("/c/shuu"), "/c/shuu/lang");
    assert_eq!(model_file("/c/shuu"), "/c/shuu/model");
}


#[test]
fn settings_are_saved_as_files_of_the_settings_directory() {
    assert_eq!(get_lang("/c/shuu"), Request::ReadFile("/c/shuu/lang".to_string()));
    assert_eq!(
        set_lang("/c/shuu", "ja"),
        vec![
            Act::MakeDir("/c/shuu".to_string()),
            Act::WriteFile { path: "/c/shuu/lang".to_string(), content: "ja".to_string() },
        ]
    );
    assert_eq!(
        set_model("/c/shuu/", "opus"),
        vec![
            Act::MakeDir("/c/shuu/".to_string()),
            Act::WriteFile { path: "/c/shuu/model".to_string(), content: "opus".to_string() },
        ]
    );
    assert_eq!(
        reset("/c/shuu"),
        vec![
            Act::RemoveFile("/c/shuu/lang".to_string()),
            Act::RemoveFile("/c/shuu/model".to_string()),
        ]
    );
    assert_eq!(find_lang("ja"), Some(Lang::Ja));
    assert_eq!(find_lang("ja\n"), None);
}
