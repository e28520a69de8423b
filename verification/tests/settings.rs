use shuu::flow::{success, Act, App, Reply, Request, Step};
use shuu::i18n::{lang_names, langs, messages, Lang};
use shuu::menu::MenuSpec;
use shuu::settings::{
    check_first_run, cmd_settings, lang_items_of, model_id_at, model_items_of, model_label_at,
    select_lang, select_model, FirstRunState, SettingsState, FIRST_RUN_HINT, FIRST_RUN_TITLE,
    MODEL_COUNT,
};

fn app() -> App {
    App { lang: Lang::En, messages: messages(Lang::En), config_dir: "/cfg/shuu".to_string() }
}

fn run(lang: Option<&str>, model: Option<&str>, choices: &[Option<usize>]) -> (Vec<Act>, Vec<Request>) {
    let app = app();
    let mut state = SettingsState::Start;
    let mut reply = Reply::Start;
    let mut acts = Vec::new();
    let mut asked = Vec::new();
    let mut choices = choices.to_vec();
    loop {
        let (next, step) = cmd_settings(&app, state, reply);
        state = next;
        acts.extend(step.acts);
        asked.push(step.request.clone());
        reply = match step.request {
            Request::ReadFile(path) if path == "/cfg/shuu/lang" => {
                Reply::Output(lang.map(|s| s.to_string()))
            }
            Request::ReadFile(path) if path == "/cfg/shuu/model" => {
                Reply::Output(model.map(|s| s.to_string()))
            }
            Request::Select(_) => Reply::Selected(choices.remove(0)),
            Request::Done | Request::Exit(_) => {
                assert_eq!(state, SettingsState::Finished);
                return (acts, asked);
            }
            other => panic!("the settings workflow asked for {:?}", other),
        };
    }
}

fn menu(request: &Request) -> &MenuSpec {
    match request {
        Request::Select(menu) => menu,
        other => panic!("not a menu: {:?}", other),
    }
}

#[test]
fn the_settings_menu_shows_what_is_in_force() {
    let m = messages(Lang::En);
    let (acts, asked) = run(Some("ja"), Some("opus"), &[None]);
    assert!(acts.is_empty());
    assert_eq!(
        menu(&asked[2]),
        &MenuSpec {
            title: m.settings_title.to_string(),
            items: vec![
                format!("{}  (日本語)", m.settings_lang),
                format!("{}  (opus)", m.settings_model),
                m.settings_reset.to_string(),
            ],
            hint: m.menu_hint.to_string(),
        }
    );
    assert_eq!(asked.last(), Some(&Request::Done));
    // nothing saved, an empty model file, a code with a line break behind it
    for (lang, model) in [(None, None), (Some("xx"), Some("")), (Some("ja\n"), None)] {
        let (_, asked) = run(lang, model, &[None]);
        assert_eq!(
            menu(&asked[2]).items[..2],
            [
                format!("{}  ({})", m.settings_lang, m.model_none),
                format!("{}  ({})", m.settings_model, m.model_none),
            ]
        );
    }
}

#[test]
fn choosing_a_language_saves_its_code() {
    let m = messages(Lang::En);
    let (acts, asked) = run(Some("en"), None, &[Some(0), Some(4)]);
    assert_eq!(
        menu(&asked[3]),
        &MenuSpec {
            title: m.settings_lang.to_string(),
            items: vec![
                "العربية".to_string(),
                "English \u{2605}".to_string(),
                "Español".to_string(),
                "Français".to_string(),
                "日本語".to_string(),
                "Русский".to_string(),
                "中文".to_string(),
            ],
            hint: m.menu_hint.to_string(),
        }
    );
    assert_eq!(
        acts,
        vec![
            Act::MakeDir("/cfg/shuu".to_string()),
            Act::WriteFile { path: "/cfg/shuu/lang".to_string(), content: "ja".to_string() },
            Act::Say(success(&messages(Lang::Ja).lang_set.replacen("%s", "日本語", 1))),
        ]
    );
    assert_eq!(asked.last(), Some(&Request::Done));
    let (acts, _) = run(Some("en"), None, &[Some(0), None]);
    assert!(acts.is_empty());
    let (acts, asked) = run(Some("en"), None, &[Some(0), Some(7)]);
    assert!(acts.is_empty());
    assert_eq!(asked.last(), Some(&Request::Exit(1)));
    assert_eq!(lang_items_of("")[1], "English");
    assert_eq!(select_lang(&app(), "zh").0, SettingsState::ChoosingLang);
}

#[test]
fn choosing_a_model_saves_its_name() {
    let m = messages(Lang::En);
    let (acts, asked) = run(None, Some("haiku"), &[Some(1), Some(0)]);
    assert_eq!(
        menu(&asked[3]),
        &MenuSpec {
            title: m.model_select.to_string(),
            items: vec![
                "Sonnet  (sonnet)".to_string(),
                "Opus    (opus)".to_string(),
                "Haiku   (haiku) \u{2605}".to_string(),
            ],
            hint: m.menu_hint.to_string(),
        }
    );
    assert_eq!(
        acts,
        vec![
            Act::MakeDir("/cfg/shuu".to_string()),
            Act::WriteFile { path: "/cfg/shuu/model".to_string(), content: "sonnet".to_string() },
            Act::Say(success(&m.model_set.replacen("%s", "sonnet", 1))),
        ]
    );
    assert_eq!(MODEL_COUNT, 3);
    for i in 0..MODEL_COUNT {
        assert!(model_label_at(i).ends_with(&format!("({})", model_id_at(i))));
        assert_eq!(model_items_of(None)[i], model_label_at(i));
        assert_eq!(
            model_items_of(Some(model_id_at(i)))[i],
            format!("{} \u{2605}", model_label_at(i))
        );
    }
    assert_eq!(select_model(&app(), "").0, SettingsState::ChoosingModel);
    let (acts, asked) = run(None, None, &[Some(1), Some(3)]);
    assert!(acts.is_empty());
    assert_eq!(asked.last(), Some(&Request::Exit(1)));
}

#[test]
fn resetting_removes_both_files() {
    let m = messages(Lang::En);
    let (acts, asked) = run(Some("ja"), Some("opus"), &[Some(2)]);
    assert_eq!(
        acts,
        vec![
            Act::RemoveFile("/cfg/shuu/lang".to_string()),
            Act::RemoveFile("/cfg/shuu/model".to_string()),
            Act::Say(success(m.settings_reset_done)),
        ]
    );
    assert_eq!(asked.last(), Some(&Request::Done));
    let (acts, asked) = run(Some("ja"), Some("opus"), &[Some(3)]);
    assert!(acts.is_empty());
    assert_eq!(asked.last(), Some(&Request::Done));
}

fn first_run(found: bool, choices: &[Option<usize>]) -> (Vec<Act>, Vec<Request>) {
    let mut state = FirstRunState::Start;
    let mut reply = Reply::Start;
    let mut acts = Vec::new();
    let mut asked = Vec::new();
    let mut choices = choices.to_vec();
    loop {
        let (next, step) = check_first_run("/cfg/shuu", state, reply);
        state = next;
        acts.extend(step.acts);
        asked.push(step.request.clone());
        reply = match step.request {
            Request::Exists(path) => {
                assert_eq!(path, "/cfg/shuu/lang");
                Reply::Status(found)
            }
            Request::Select(_) => Reply::Selected(choices.remove(0)),
            Request::Done | Request::Exit(_) => {
                assert_eq!(state, FirstRunState::Finished);
                return (acts, asked);
            }
            other => panic!("the first run asked for {:?}", other),
        };
    }
}

#[test]
fn the_first_run_asks_for_language_and_model() {
    let (acts, asked) = first_run(false, &[Some(3), Some(1)]);
    let fr = messages(Lang::Fr);
    assert_eq!(FIRST_RUN_TITLE, "Select language / 言語選択");
    assert_eq!(FIRST_RUN_HINT, "↑↓: move  Enter: select  q: cancel");
    assert_eq!(
        asked,
        vec![
            Request::Exists("/cfg/shuu/lang".to_string()),
            Request::Select(MenuSpec {
                title: FIRST_RUN_TITLE.to_string(),
                items: lang_names().iter().map(|s| s.to_string()).collect(),
                hint: FIRST_RUN_HINT.to_string(),
            }),
            Request::Select(MenuSpec {
                title: fr.model_select.to_string(),
                items: model_items_of(None),
                hint: fr.menu_hint.to_string(),
            }),
            Request::Done,
        ]
    );
    assert_eq!(
        acts,
        vec![
            Act::MakeDir("/cfg/shuu".to_string()),
            Act::WriteFile { path: "/cfg/shuu/lang".to_string(), content: "fr".to_string() },
            Act::MakeDir("/cfg/shuu".to_string()),
            Act::WriteFile { path: "/cfg/shuu/model".to_string(), content: "opus".to_string() },
            Act::Say(success(&fr.model_set.replacen("%s", "opus", 1))),
            Act::Say(String::new()),
        ]
    );
    assert_eq!(langs()[3], Lang::Fr);
}

#[test]
fn the_first_run_does_nothing_twice_and_exits_on_cancel() {
    let (acts, asked) = first_run(true, &[]);
    assert!(acts.is_empty());
    assert_eq!(asked.last(), Some(&Request::Done));
    assert_eq!(asked.len(), 2);
    let (acts, asked) = first_run(false, &[None]);
    assert!(acts.is_empty());
    assert_eq!(asked.last(), Some(&Request::Exit(0)));
    // the language is saved before the model is asked for
    let (acts, asked) = first_run(false, &[Some(0), None]);
    assert_eq!(acts.len(), 2);
    assert_eq!(asked.last(), Some(&Request::Exit(0)));
    let (_, asked) = first_run(false, &[Some(9)]);
    assert_eq!(asked.last(), Some(&Request::Exit(1)));
    let (next, step) = check_first_run("/c", FirstRunState::Probing, Reply::Line("x".into()));
    assert_eq!(next, FirstRunState::Finished);
    assert_eq!(step, Step { acts: Vec::new(), request: Request::Exit(1) });
}
